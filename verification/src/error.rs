use vstd::prelude::*;

verus! {

/// The failures this program reports on its own account.
#[derive(Clone, Copy, Debug, PartialEq, Eq, Structural)]
pub enum Error {
    IntermediaryIsNotInitialized,
    IntermediaryInvalidInvestor,
    IntermediaryInvalidManager,
    IntermediaryInvalidTrader,
    IntermediaryInvalidWSolTokenAccount,
    IntermediaryInvalidWSolTokenAccountAuthority,
    IntermediaryInvalidTemporaryWSolTokenAccount,
    IntermediaryInvalidTemporaryWSolTokenAccountAuthority,
    InvalidAccountConfigurationFlags,
    InvalidAccountData,
    InvalidAccountLamports,
    InvalidAccountOwner,
    InvalidAccountPubkey,
    TokenAccountInsufficientAmount,
    TokenAccountInvalidAmount,
    TokenAccountInvalidMint,
}

impl Error {
    /// The number under which the failure is reported: the variant's position.
    pub open spec fn code_spec(self) -> u32 {
        match self {
            Error::IntermediaryIsNotInitialized => 0,
            Error::IntermediaryInvalidInvestor => 1,
            Error::IntermediaryInvalidManager => 2,
            Error::IntermediaryInvalidTrader => 3,
            Error::IntermediaryInvalidWSolTokenAccount => 4,
            Error::IntermediaryInvalidWSolTokenAccountAuthority => 5,
            Error::IntermediaryInvalidTemporaryWSolTokenAccount => 6,
            Error::IntermediaryInvalidTemporaryWSolTokenAccountAuthority => 7,
            Error::InvalidAccountConfigurationFlags => 8,
            Error::InvalidAccountData => 9,
            Error::InvalidAccountLamports => 10,
            Error::InvalidAccountOwner => 11,
            Error::InvalidAccountPubkey => 12,
            Error::TokenAccountInsufficientAmount => 13,
            Error::TokenAccountInvalidAmount => 14,
            Error::TokenAccountInvalidMint => 15,
        }
    }

    /// The failure reported under a number, if there is one.
    pub open spec fn from_code_spec(code: u32) -> Option<Error> {
        if code == 0 {
            Some(Error::IntermediaryIsNotInitialized)
        } else if code == 1 {
            Some(Error::IntermediaryInvalidInvestor)
        } else if code == 2 {
            Some(Error::IntermediaryInvalidManager)
        } else if code == 3 {
            Some(Error::IntermediaryInvalidTrader)
        } else if code == 4 {
            Some(Error::IntermediaryInvalidWSolTokenAccount)
        } else if code == 5 {
            Some(Error::IntermediaryInvalidWSolTokenAccountAuthority)
        } else if code == 6 {
            Some(Error::IntermediaryInvalidTemporaryWSolTokenAccount)
        } else if code == 7 {
            Some(Error::IntermediaryInvalidTemporaryWSolTokenAccountAuthority)
        } else if code == 8 {
            Some(Error::InvalidAccountConfigurationFlags)
        } else if code == 9 {
            Some(Error::InvalidAccountData)
        } else if code == 10 {
            Some(Error::InvalidAccountLamports)
        } else if code == 11 {
            Some(Error::InvalidAccountOwner)
        } else if code == 12 {
            Some(Error::InvalidAccountPubkey)
        } else if code == 13 {
            Some(Error::TokenAccountInsufficientAmount)
        } else if code == 14 {
            Some(Error::TokenAccountInvalidAmount)
        } else if code == 15 {
            Some(Error::TokenAccountInvalidMint)
        } else {
            None
        }
    }

    /// The sentence logged for the failure.
    pub open spec fn message_spec(self) -> Seq<char> {
        match self {
            Error::IntermediaryIsNotInitialized => "Intermediary is not initialized."@,
            Error::IntermediaryInvalidInvestor => "Intermediary invalid investor."@,
            Error::IntermediaryInvalidManager => "Intermediary invalid manager."@,
            Error::IntermediaryInvalidTrader => "Intermediary invalid trader."@,
            Error::IntermediaryInvalidWSolTokenAccount => {
                "Intermediary invalid WSol token account."@
            },
            Error::IntermediaryInvalidWSolTokenAccountAuthority => {
                "Intermediary invalid WSol token account authority."@
            },
            Error::IntermediaryInvalidTemporaryWSolTokenAccount => {
                "Intermediary invalid temporary WSol token account."@
            },
            Error::IntermediaryInvalidTemporaryWSolTokenAccountAuthority => {
                "Intermediary invalid temporary WSol token account authority."@
            },
            Error::InvalidAccountConfigurationFlags => "Invalid account configuration flags."@,
            Error::InvalidAccountData => "Invalid account data."@,
            Error::InvalidAccountLamports => "Invalid account lamports."@,
            Error::InvalidAccountOwner => "Invalid account owner."@,
            Error::InvalidAccountPubkey => "Invalid account pubkey."@,
            Error::TokenAccountInsufficientAmount => "Token account insufficient amount."@,
            Error::TokenAccountInvalidAmount => "Token account invalid amount."@,
            Error::TokenAccountInvalidMint => "Token account invalid mint."@,
        }
    }

    /// The failure's short name.
    pub open spec fn name_spec(self) -> Seq<char> {
        match self {
            Error::IntermediaryIsNotInitialized => "IntermediaryIsNotInitialized"@,
            Error::IntermediaryInvalidInvestor => "IntermediaryInvalidInvestor"@,
            Error::IntermediaryInvalidManager => "IntermediaryInvalidManager"@,
            Error::IntermediaryInvalidTrader => "IntermediaryInvalidTrader"@,
            Error::IntermediaryInvalidWSolTokenAccount => "IntermediaryInvalidWSolTokenAccount"@,
            Error::IntermediaryInvalidWSolTokenAccountAuthority => {
                "IntermediaryInvalidWSolTokenAccountAuthority"@
            },
            Error::IntermediaryInvalidTemporaryWSolTokenAccount => {
                "IntermediaryInvalidTemporaryWSolTokenAccount"@
            },
            Error::IntermediaryInvalidTemporaryWSolTokenAccountAuthority => {
                "IntermediaryInvalidTemporaryWSolTokenAccountAuthority"@
            },
            Error::InvalidAccountConfigurationFlags => "InvalidAccountConfigurationFlags"@,
            Error::InvalidAccountData => "InvalidAccountData"@,
            Error::InvalidAccountLamports => "InvalidAccountLamports"@,
            Error::InvalidAccountOwner => "InvalidAccountOwner"@,
            Error::InvalidAccountPubkey => "InvalidAccountPubkey"@,
            Error::TokenAccountInsufficientAmount => "TokenAccountInsufficientAmount"@,
            Error::TokenAccountInvalidAmount => "TokenAccountInvalidAmount"@,
            Error::TokenAccountInvalidMint => "TokenAccountInvalidMint"@,
        }
    }

    pub fn code(&self) -> (r: u32)
        ensures
            r == self.code_spec(),
    {
        match self {
            Error::IntermediaryIsNotInitialized => 0,
            Error::IntermediaryInvalidInvestor => 1,
            Error::IntermediaryInvalidManager => 2,
            Error::IntermediaryInvalidTrader => 3,
            Error::IntermediaryInvalidWSolTokenAccount => 4,
            Error::IntermediaryInvalidWSolTokenAccountAuthority => 5,
            Error::IntermediaryInvalidTemporaryWSolTokenAccount => 6,
            Error::IntermediaryInvalidTemporaryWSolTokenAccountAuthority => 7,
            Error::InvalidAccountConfigurationFlags => 8,
            Error::InvalidAccountData => 9,
            Error::InvalidAccountLamports => 10,
            Error::InvalidAccountOwner => 11,
            Error::InvalidAccountPubkey => 12,
            Error::TokenAccountInsufficientAmount => 13,
            Error::TokenAccountInvalidAmount => 14,
            Error::TokenAccountInvalidMint => 15,
        }
    }

    pub fn from_code(code: u32) -> (r: Option<Error>)
        ensures
            r == Error::from_code_spec(code),
    {
        match code {
            0 => Some(Error::IntermediaryIsNotInitialized),
            1 => Some(Error::IntermediaryInvalidInvestor),
            2 => Some(Error::IntermediaryInvalidManager),
            3 => Some(Error::IntermediaryInvalidTrader),
            4 => Some(Error::IntermediaryInvalidWSolTokenAccount),
            5 => Some(Error::IntermediaryInvalidWSolTokenAccountAuthority),
            6 => Some(Error::IntermediaryInvalidTemporaryWSolTokenAccount),
            7 => Some(Error::IntermediaryInvalidTemporaryWSolTokenAccountAuthority),
            8 => Some(Error::InvalidAccountConfigurationFlags),
            9 => Some(Error::InvalidAccountData),
            10 => Some(Error::InvalidAccountLamports),
            11 => Some(Error::InvalidAccountOwner),
            12 => Some(Error::InvalidAccountPubkey),
            13 => Some(Error::TokenAccountInsufficientAmount),
            14 => Some(Error::TokenAccountInvalidAmount),
            15 => Some(Error::TokenAccountInvalidMint),
            _ => None,
        }
    }

    /// The sentence that the program logs when it fails with `self`.
    pub fn message(&self) -> (r: &'static str)
        ensures
            r@ == self.message_spec(),
    {
        match self {
            Error::IntermediaryIsNotInitialized => "Intermediary is not initialized.",
            Error::IntermediaryInvalidInvestor => "Intermediary invalid investor.",
            Error::IntermediaryInvalidManager => "Intermediary invalid manager.",
            Error::IntermediaryInvalidTrader => "Intermediary invalid trader.",
            Error::IntermediaryInvalidWSolTokenAccount => {
                "Intermediary invalid WSol token account."
            },
            Error::IntermediaryInvalidWSolTokenAccountAuthority => {
                "Intermediary invalid WSol token account authority."
            },
            Error::IntermediaryInvalidTemporaryWSolTokenAccount => {
                "Intermediary invalid temporary WSol token account."
            },
            Error::IntermediaryInvalidTemporaryWSolTokenAccountAuthority => {
                "Intermediary invalid temporary WSol token account authority."
            },
            Error::InvalidAccountConfigurationFlags => "Invalid account configuration flags.",
            Error::InvalidAccountData => "Invalid account data.",
            Error::InvalidAccountLamports => "Invalid account lamports.",
            Error::InvalidAccountOwner => "Invalid account owner.",
            Error::InvalidAccountPubkey => "Invalid account pubkey.",
            Error::TokenAccountInsufficientAmount => "Token account insufficient amount.",
            Error::TokenAccountInvalidAmount => "Token account invalid amount.",
            Error::TokenAccountInvalidMint => "Token account invalid mint.",
        }
    }

    /// The failure's short name, as it is displayed.
    pub fn name(&self) -> (r: &'static str)
        ensures
            r@ == self.name_spec(),
    {
        match self {
            Error::IntermediaryIsNotInitialized => "IntermediaryIsNotInitialized",
            Error::IntermediaryInvalidInvestor => "IntermediaryInvalidInvestor",
            Error::IntermediaryInvalidManager => "IntermediaryInvalidManager",
            Error::IntermediaryInvalidTrader => "IntermediaryInvalidTrader",
            Error::IntermediaryInvalidWSolTokenAccount => "IntermediaryInvalidWSolTokenAccount",
            Error::IntermediaryInvalidWSolTokenAccountAuthority => {
                "IntermediaryInvalidWSolTokenAccountAuthority"
            },
            Error::IntermediaryInvalidTemporaryWSolTokenAccount => {
                "IntermediaryInvalidTemporaryWSolTokenAccount"
            },
            Error::IntermediaryInvalidTemporaryWSolTokenAccountAuthority => {
                "IntermediaryInvalidTemporaryWSolTokenAccountAuthority"
            },
            Error::InvalidAccountConfigurationFlags => "InvalidAccountConfigurationFlags",
            Error::InvalidAccountData => "InvalidAccountData",
            Error::InvalidAccountLamports => "InvalidAccountLamports",
            Error::InvalidAccountOwner => "InvalidAccountOwner",
            Error::InvalidAccountPubkey => "InvalidAccountPubkey",
            Error::TokenAccountInsufficientAmount => "TokenAccountInsufficientAmount",
            Error::TokenAccountInvalidAmount => "TokenAccountInvalidAmount",
            Error::TokenAccountInvalidMint => "TokenAccountInvalidMint",
        }
    }

    /// The name under which the failures of this program are grouped.
    pub fn type_of() -> (r: &'static str)
        ensures
            r@ == "Error_"@,
    {
        "Error_"
    }
}

/// Every failure is found again under its own number, and under no other.
pub proof fn lemma_error_code_round_trip(e: Error, code: u32)
    ensures
        Error::from_code_spec(e.code_spec()) == Some(e),
        Error::from_code_spec(code) == Some(e) ==> code == e.code_spec(),
        Error::from_code_spec(code) is Some <==> code < 16,
{
}

/// Why address derivation failed.
#[derive(Clone, Copy, Debug, PartialEq, Eq, Structural)]
pub enum PubkeyError {
    MaxSeedLengthExceeded,
    InvalidSeeds,
    IllegalOwner,
}

/// Why a command was abandoned. Each failure ends the command with no effect.
#[derive(Clone, Copy, Debug, PartialEq, Eq, Structural)]
pub enum ProgramFailure {
    /// One of this program's own failures.
    Custom(Error),
    /// The command's payload is no command.
    BorshIoError,
    /// Fewer accounts were supplied than the command takes.
    NotEnoughAccountKeys,
    /// More seeds, or longer ones, than an address can be derived from.
    MaxSeedLengthExceeded,
    /// The seeds with this bump give no address.
    InvalidSeeds,
    /// The derivation does not take the program as an owner.
    IllegalOwner,
    /// The rent account does not hold the rent parameters, or the steps of a
    /// command were asked for out of turn.
    InvalidArgument,
    /// A token account does not read as one.
    InvalidAccountData,
    /// A call was to be made to a token program other than the known one.
    IncorrectProgramId,
    /// The rent parameters lead out of the range of amounts.
    ArithmeticOverflow,
}

impl ProgramFailure {
    pub open spec fn from_pubkey_error(e: PubkeyError) -> ProgramFailure {
        match e {
            PubkeyError::MaxSeedLengthExceeded => ProgramFailure::MaxSeedLengthExceeded,
            PubkeyError::InvalidSeeds => ProgramFailure::InvalidSeeds,
            PubkeyError::IllegalOwner => ProgramFailure::IllegalOwner,
        }
    }

    /// The failure that stands for a failed derivation.
    pub fn of_pubkey_error(e: PubkeyError) -> (r: ProgramFailure)
        ensures
            r == ProgramFailure::from_pubkey_error(e),
    {
        match e {
            PubkeyError::MaxSeedLengthExceeded => ProgramFailure::MaxSeedLengthExceeded,
            PubkeyError::InvalidSeeds => ProgramFailure::InvalidSeeds,
            PubkeyError::IllegalOwner => ProgramFailure::IllegalOwner,
        }
    }

    /// The failure that stands for one of the program's own.
    pub fn of_error(e: Error) -> (r: ProgramFailure)
        ensures
            r == ProgramFailure::Custom(e),
    {
        ProgramFailure::Custom(e)
    }
}

} // verus!
