//! A custody program: it holds a client's funds in accounts that only the
//! program can sign for, lets a trader swap them on two exchanges, and lets a
//! manager appoint the trader.
//!
//! The program does not act on accounts itself. A command is worked through in
//! steps: each step of [`Processor::process`] looks at the accounts as they
//! are, and either abandons the command or says which calls are to be made on
//! its behalf before the next step. Whoever runs the program makes the calls.
//! What each step decides is stated over the accounts' addresses, flags,
//! balances and data alone.

pub mod address;
pub mod bytes;
pub mod command_processor;
pub mod error;
pub mod extern_source;
pub mod instruction;
pub mod ledger;
pub mod message;
pub mod processor;
pub mod resolver;
pub mod state;
pub mod subsystem;

pub use address::{all_distinct, Address};
pub use command_processor::{ClientError, CommandProcessor};
pub use error::{Error, ProgramFailure, PubkeyError};
pub use instruction::Instruction;
pub use message::{AccountMeta, AccountView, Invocation};
pub use processor::command::Processor;
pub use processor::plan::{Action, Directive, FeeSchedule, Progress, SignerSeeds};
pub use state::Intermediary;
