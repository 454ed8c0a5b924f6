use crate::address::{program_id, Address};
use crate::instruction::Instruction;
use crate::message::{AccountView, Invocation, InvocationView};
use crate::processor::plan::FeeSchedule;
use crate::processor::roles::holds_role;
use crate::resolver::{
    derives, find_spec, lemma_find_then_create, ProgramDerivedAddress,
    TemporaryWSolTokenAccountAddressResolver, TemporaryWSolTokenAccountAuthorityAddressResolver,
    WSolTokenAccountAddressResolver, WSolTokenAccountAuthorityAddressResolver,
};
use crate::state::Intermediary;
use crate::subsystem::{token_account_spec, unpack_token_account};
use vstd::prelude::*;

verus! {

/// Why the client does not submit a command.
#[derive(Clone, Copy, Debug, PartialEq, Eq)]
pub enum ClientError {
    InvalidAccountPubkey,
    InvalidAccountOwner,
    InvalidAccountData,
    InvalidAccountLamports,
    IntermediaryIsNotInitialized,
    IntermediaryInvalidInvestor,
    IntermediaryInvalidManager,
    IntermediaryInvalidTrader,
    /// More was to be withdrawn than the treasury holds, which is `maximum`.
    TreasuryExceeded { maximum: u64 },
    /// The record's account does not hold a record.
    UnreadableRecord,
    /// The wrapped-value account does not read as a token account.
    UnreadableTokenAccount,
    /// No bump gives one of the sub-accounts an address.
    AddressNotFound,
}

impl ClientError {
    /// The sentence shown for the failure; the most that can be withdrawn
    /// follows it where the treasury was exceeded.
    pub open spec fn message_spec(self) -> Seq<char> {
        match self {
            ClientError::InvalidAccountPubkey => "Invalid account pubkey."@,
            ClientError::InvalidAccountOwner => "Invalid account owner."@,
            ClientError::InvalidAccountData => "Invalid account data."@,
            ClientError::InvalidAccountLamports => "Invalid account lamports."@,
            ClientError::IntermediaryIsNotInitialized => "Intermediary is not initialized."@,
            ClientError::IntermediaryInvalidInvestor => "Intermediary invalid investor."@,
            ClientError::IntermediaryInvalidManager => "Intermediary invalid manager."@,
            ClientError::IntermediaryInvalidTrader => "Intermediary invalid trader."@,
            ClientError::TreasuryExceeded { .. } => {
                "The maximum number of lamports from treasury is "@
            },
            ClientError::UnreadableRecord => "The intermediary account holds no record."@,
            ClientError::UnreadableTokenAccount => {
                "The treasury does not read as a token account."@
            },
            ClientError::AddressNotFound => "Unable to find a viable program address bump seed"@,
        }
    }

    pub fn message(&self) -> (r: &'static str)
        ensures
            r@ == self.message_spec(),
    {
        match self {
            ClientError::InvalidAccountPubkey => "Invalid account pubkey.",
            ClientError::InvalidAccountOwner => "Invalid account owner.",
            ClientError::InvalidAccountData => "Invalid account data.",
            ClientError::InvalidAccountLamports => "Invalid account lamports.",
            ClientError::IntermediaryIsNotInitialized => "Intermediary is not initialized.",
            ClientError::IntermediaryInvalidInvestor => "Intermediary invalid investor.",
            ClientError::IntermediaryInvalidManager => "Intermediary invalid manager.",
            ClientError::IntermediaryInvalidTrader => "Intermediary invalid trader.",
            ClientError::TreasuryExceeded { .. } => {
                "The maximum number of lamports from treasury is "
            },
            ClientError::UnreadableRecord => "The intermediary account holds no record.",
            ClientError::UnreadableTokenAccount => "The treasury does not read as a token account.",
            ClientError::AddressNotFound => "Unable to find a viable program address bump seed",
        }
    }
}

/// The four sub-accounts of a custody record, each with the bump that gives it.
#[derive(Clone, Copy, Debug, PartialEq, Eq)]
pub struct SubAccounts {
    pub w_sol_token_account_pubkey: Address,
    pub w_sol_token_account_pubkey_bump_seed: u8,
    pub w_sol_token_account_authority_pubkey: Address,
    pub w_sol_token_account_authority_pubkey_bump_seed: u8,
    pub temporary_w_sol_token_account_pubkey: Address,
    pub temporary_w_sol_token_account_pubkey_bump_seed: u8,
    pub temporary_w_sol_token_account_authority_pubkey: Address,
    pub temporary_w_sol_token_account_authority_pubkey_bump_seed: u8,
}

impl SubAccounts {
    /// Whether these are the sub-accounts that the search finds for the record
    /// at `intermediary`: each address under its own seeds, the later ones
    /// seeded with the earlier.
    pub open spec fn found_for(self, intermediary: Address) -> bool {
        &&& find_spec(
            (WSolTokenAccountAddressResolver { intermediary_pubkey: &intermediary }).seeds(),
            program_id(),
        ) == Some((self.w_sol_token_account_pubkey@, self.w_sol_token_account_pubkey_bump_seed))
        &&& find_spec(
            (WSolTokenAccountAuthorityAddressResolver {
                w_sol_token_account_pubkey: &self.w_sol_token_account_pubkey,
                intermediary_pubkey: &intermediary,
            }).seeds(),
            program_id(),
        ) == Some(
            (
                self.w_sol_token_account_authority_pubkey@,
                self.w_sol_token_account_authority_pubkey_bump_seed,
            ),
        )
        &&& find_spec(
            (TemporaryWSolTokenAccountAddressResolver {
                w_sol_token_account_pubkey: &self.w_sol_token_account_pubkey,
            }).seeds(),
            program_id(),
        ) == Some(
            (
                self.temporary_w_sol_token_account_pubkey@,
                self.temporary_w_sol_token_account_pubkey_bump_seed,
            ),
        )
        &&& find_spec(
            (TemporaryWSolTokenAccountAuthorityAddressResolver {
                temporary_w_sol_token_account_pubkey: &self.temporary_w_sol_token_account_pubkey,
                intermediary_pubkey: &intermediary,
            }).seeds(),
            program_id(),
        ) == Some(
            (
                self.temporary_w_sol_token_account_authority_pubkey@,
                self.temporary_w_sol_token_account_authority_pubkey_bump_seed,
            ),
        )
    }

    /// The sub-accounts of the record at `intermediary`, where the search
    /// finds all four.
    pub fn find(intermediary: &Address) -> (r: Option<SubAccounts>)
        ensures
            r matches Some(found) ==> found.found_for(*intermediary),
            r is None ==> forall|any: SubAccounts| !any.found_for(*intermediary),
    {
        let first = (WSolTokenAccountAddressResolver { intermediary_pubkey: intermediary }).find();
        let (w_sol, w_sol_bump) = match first {
            Some(found) => found,
            None => {
                return None;
            },
        };
        let second = (WSolTokenAccountAuthorityAddressResolver {
            w_sol_token_account_pubkey: &w_sol,
            intermediary_pubkey: intermediary,
        }).find();
        let third = (TemporaryWSolTokenAccountAddressResolver {
            w_sol_token_account_pubkey: &w_sol,
        }).find();
        proof {
            assert forall|any: SubAccounts| any.found_for(*intermediary) implies (
            any.w_sol_token_account_pubkey == w_sol) by {
                crate::address::lemma_address_extensional(any.w_sol_token_account_pubkey, w_sol);
            }
        }
        let (authority, authority_bump) = match second {
            Some(found) => found,
            None => {
                return None;
            },
        };
        let (temporary, temporary_bump) = match third {
            Some(found) => found,
            None => {
                return None;
            },
        };
        let fourth = (TemporaryWSolTokenAccountAuthorityAddressResolver {
            temporary_w_sol_token_account_pubkey: &temporary,
            intermediary_pubkey: intermediary,
        }).find();
        proof {
            assert forall|any: SubAccounts| any.found_for(*intermediary) implies (
            any.temporary_w_sol_token_account_pubkey == temporary) by {
                crate::address::lemma_address_extensional(any.w_sol_token_account_pubkey, w_sol);
                crate::address::lemma_address_extensional(
                    any.temporary_w_sol_token_account_pubkey,
                    temporary,
                );
            }
        }
        let (temporary_authority, temporary_authority_bump) = match fourth {
            Some(found) => found,
            None => {
                return None;
            },
        };
        Some(
            SubAccounts {
                w_sol_token_account_pubkey: w_sol,
                w_sol_token_account_pubkey_bump_seed: w_sol_bump,
                w_sol_token_account_authority_pubkey: authority,
                w_sol_token_account_authority_pubkey_bump_seed: authority_bump,
                temporary_w_sol_token_account_pubkey: temporary,
                temporary_w_sol_token_account_pubkey_bump_seed: temporary_bump,
                temporary_w_sol_token_account_authority_pubkey: temporary_authority,
                temporary_w_sol_token_account_authority_pubkey_bump_seed: temporary_authority_bump,
            },
        )
    }
}

/// The sub-accounts that the client finds are the ones that the program
/// recreates from their bumps: `Initialize` prepared with them passes the
/// program's check of its derived addresses.
pub proof fn lemma_found_sub_accounts_are_derived(found: SubAccounts, intermediary: Address)
    requires
        found.found_for(intermediary),
    ensures
        derives(
            (WSolTokenAccountAddressResolver { intermediary_pubkey: &intermediary }).seeds(),
            found.w_sol_token_account_pubkey_bump_seed,
            found.w_sol_token_account_pubkey,
        ),
        derives(
            (WSolTokenAccountAuthorityAddressResolver {
                w_sol_token_account_pubkey: &found.w_sol_token_account_pubkey,
                intermediary_pubkey: &intermediary,
            }).seeds(),
            found.w_sol_token_account_authority_pubkey_bump_seed,
            found.w_sol_token_account_authority_pubkey,
        ),
        derives(
            (TemporaryWSolTokenAccountAddressResolver {
                w_sol_token_account_pubkey: &found.w_sol_token_account_pubkey,
            }).seeds(),
            found.temporary_w_sol_token_account_pubkey_bump_seed,
            found.temporary_w_sol_token_account_pubkey,
        ),
        derives(
            (TemporaryWSolTokenAccountAuthorityAddressResolver {
                temporary_w_sol_token_account_pubkey: &found.temporary_w_sol_token_account_pubkey,
                intermediary_pubkey: &intermediary,
            }).seeds(),
            found.temporary_w_sol_token_account_authority_pubkey_bump_seed,
            found.temporary_w_sol_token_account_authority_pubkey,
        ),
{
    lemma_find_then_create(
        (WSolTokenAccountAddressResolver { intermediary_pubkey: &intermediary }).seeds(),
        program_id(),
    );
    lemma_find_then_create(
        (WSolTokenAccountAuthorityAddressResolver {
            w_sol_token_account_pubkey: &found.w_sol_token_account_pubkey,
            intermediary_pubkey: &intermediary,
        }).seeds(),
        program_id(),
    );
    lemma_find_then_create(
        (TemporaryWSolTokenAccountAddressResolver {
            w_sol_token_account_pubkey: &found.w_sol_token_account_pubkey,
        }).seeds(),
        program_id(),
    );
    lemma_find_then_create(
        (TemporaryWSolTokenAccountAuthorityAddressResolver {
            temporary_w_sol_token_account_pubkey: &found.temporary_w_sol_token_account_pubkey,
            intermediary_pubkey: &intermediary,
        }).seeds(),
        program_id(),
    );
}

/// What the client submits for `Initialize`, with the sub-accounts it found.
#[derive(Clone, Debug, PartialEq, Eq)]
pub struct InitializeRequest {
    pub sub_accounts: SubAccounts,
    pub instruction: Invocation,
}

/// The client's own checks of a command before it is submitted, with the fees
/// that the program will ask for.
#[derive(Clone, Copy, Debug, PartialEq, Eq)]
pub struct CommandProcessor {
    pub fees: FeeSchedule,
}

/// The first of the client's checks of `Initialize` that fails, if one does:
/// the three roles are three addresses; the three accounts are owned by the
/// system program; they hold no data; the investor holds the two reserves, the
/// amount and the fee, and manager and trader hold anything at all.
pub open spec fn initialize_refusal(
    fees: FeeSchedule,
    investor: AccountView,
    manager: AccountView,
    trader: AccountView,
    record_reserve: u64,
    token_reserve: u64,
    lamports_to_treasury: u64,
) -> Option<ClientError> {
    if investor.key == manager.key || investor.key == trader.key || manager.key == trader.key {
        Some(ClientError::InvalidAccountPubkey)
    } else if investor.owner != crate::address::system_program_id() || manager.owner
        != crate::address::system_program_id() || trader.owner
        != crate::address::system_program_id() {
        Some(ClientError::InvalidAccountOwner)
    } else if investor.data@.len() != 0 || manager.data@.len() != 0 || trader.data@.len() != 0 {
        Some(ClientError::InvalidAccountData)
    } else if investor.lamports < record_reserve + token_reserve + lamports_to_treasury
        + fees.initialize || manager.lamports == 0 || trader.lamports == 0 {
        Some(ClientError::InvalidAccountLamports)
    } else {
        None
    }
}

/// The command for the sub-accounts `found` of the record at `intermediary`.
pub open spec fn initialize_request(
    investor: Address,
    intermediary: Address,
    manager: Address,
    trader: Address,
    lamports_to_treasury: u64,
    found: SubAccounts,
) -> InvocationView {
    InvocationView {
        program_id: program_id(),
        accounts: Instruction::initialize_accounts(
            investor,
            intermediary,
            manager,
            trader,
            found.w_sol_token_account_pubkey,
            found.w_sol_token_account_authority_pubkey,
            found.temporary_w_sol_token_account_pubkey,
            found.temporary_w_sol_token_account_authority_pubkey,
        ),
        data: (Instruction::Initialize {
            lamports_to_treasury,
            w_sol_token_account_pubkey_bump_seed: found.w_sol_token_account_pubkey_bump_seed,
            w_sol_token_account_authority_pubkey_bump_seed: found
                .w_sol_token_account_authority_pubkey_bump_seed,
            temporary_w_sol_token_account_pubkey_bump_seed: found
                .temporary_w_sol_token_account_pubkey_bump_seed,
            temporary_w_sol_token_account_authority_pubkey_bump_seed: found
                .temporary_w_sol_token_account_authority_pubkey_bump_seed,
        }).encode_spec(),
    }
}

/// The first of the client's checks against the record that fails, if one
/// does: the record reads; it is initialized; `signer` holds the role that
/// signs the command.
pub open spec fn record_refusal(data: Seq<u8>, signer: Address, by_manager: bool) -> Option<
    ClientError,
> {
    match Intermediary::decode_spec(data) {
        None => Some(ClientError::UnreadableRecord),
        Some(record) => if !record.is_initialized {
            Some(ClientError::IntermediaryIsNotInitialized)
        } else if !by_manager && signer != record.investor_pubkey {
            Some(ClientError::IntermediaryInvalidInvestor)
        } else if by_manager && signer != record.manager_pubkey {
            Some(ClientError::IntermediaryInvalidManager)
        } else {
            None
        },
    }
}

/// What the client does with `DepositFunds`: it refuses where the investor
/// does not hold the amount and the fee, or the record refuses; else it submits
/// the command for the record's wrapped-value account.
pub open spec fn deposit_funds_request(
    fees: FeeSchedule,
    investor: AccountView,
    intermediary: AccountView,
    lamports_to_treasury: u64,
) -> Result<InvocationView, ClientError> {
    if investor.lamports < lamports_to_treasury + fees.deposit_funds {
        Err(ClientError::InvalidAccountLamports)
    } else if record_refusal(intermediary.data@, investor.key, false) is Some {
        Err(record_refusal(intermediary.data@, investor.key, false)->0)
    } else {
        Ok(
            InvocationView {
                program_id: program_id(),
                accounts: Instruction::deposit_funds_accounts(
                    investor.key,
                    intermediary.key,
                    Intermediary::decode_spec(intermediary.data@)->0.w_sol_token_account_pubkey,
                ),
                data: (Instruction::DepositFunds { lamports_to_treasury }).encode_spec(),
            },
        )
    }
}

/// What the client does with `WithdrawFunds`: it refuses where the investor
/// does not hold the reserve and the fee, the record refuses, or the treasury
/// does not read or holds less than the amount; else it submits the command
/// for the record's four sub-accounts.
pub open spec fn withdraw_funds_request(
    fees: FeeSchedule,
    investor: AccountView,
    intermediary: AccountView,
    w_sol_token_account_data: Seq<u8>,
    reserve: u64,
    lamports_from_treasury: u64,
) -> Result<InvocationView, ClientError> {
    let record = Intermediary::decode_spec(intermediary.data@)->0;
    if investor.lamports < reserve + fees.withdraw_funds {
        Err(ClientError::InvalidAccountLamports)
    } else if record_refusal(intermediary.data@, investor.key, false) is Some {
        Err(record_refusal(intermediary.data@, investor.key, false)->0)
    } else if token_account_spec(w_sol_token_account_data) is None {
        Err(ClientError::UnreadableTokenAccount)
    } else if token_account_spec(w_sol_token_account_data)->0.amount < lamports_from_treasury {
        Err(
            ClientError::TreasuryExceeded {
                maximum: token_account_spec(w_sol_token_account_data)->0.amount,
            },
        )
    } else {
        Ok(
            InvocationView {
                program_id: program_id(),
                accounts: Instruction::withdraw_funds_accounts(
                    investor.key,
                    intermediary.key,
                    record.w_sol_token_account_pubkey,
                    record.w_sol_token_account_authority_pubkey,
                    record.temporary_w_sol_token_account_pubkey,
                    record.temporary_w_sol_token_account_authority_pubkey,
                ),
                data: (Instruction::WithdrawFunds { lamports_from_treasury }).encode_spec(),
            },
        )
    }
}

/// What the client does with a change of role, `by_manager` for that of the
/// trader: it refuses where the signer does not hold `fee` or the candidate
/// holds nothing, the record refuses, or the candidate holds a role already;
/// else it submits the command.
pub open spec fn role_change_request(
    fee: u64,
    signer: AccountView,
    intermediary: AccountView,
    candidate: AccountView,
    by_manager: bool,
) -> Result<InvocationView, ClientError> {
    let record = Intermediary::decode_spec(intermediary.data@)->0;
    if signer.lamports < fee || candidate.lamports == 0 {
        Err(ClientError::InvalidAccountLamports)
    } else if record_refusal(intermediary.data@, signer.key, by_manager) is Some {
        Err(record_refusal(intermediary.data@, signer.key, by_manager)->0)
    } else if holds_role(record, candidate.key) {
        Err(
            if by_manager {
                ClientError::IntermediaryInvalidTrader
            } else {
                ClientError::IntermediaryInvalidManager
            },
        )
    } else {
        Ok(
            InvocationView {
                program_id: program_id(),
                accounts: if by_manager {
                    Instruction::change_trader_accounts(signer.key, intermediary.key, candidate.key)
                } else {
                    Instruction::change_manager_accounts(
                        signer.key,
                        intermediary.key,
                        candidate.key,
                    )
                },
                data: if by_manager {
                    Instruction::ChangeTrader.encode_spec()
                } else {
                    Instruction::ChangeManager.encode_spec()
                },
            },
        )
    }
}

/// Whether `r` is the request `request`.
pub open spec fn is_request(
    r: Result<Invocation, ClientError>,
    request: Result<InvocationView, ClientError>,
) -> bool {
    match r {
        Ok(instruction) => request == Ok::<InvocationView, ClientError>(instruction@),
        Err(e) => request == Err::<InvocationView, ClientError>(e),
    }
}

impl CommandProcessor {
    fn check_record(data: &[u8], signer: &Address, by_manager: bool) -> (r: Result<
        Intermediary,
        ClientError,
    >)
        ensures
            match r {
                Ok(record) => record_refusal(data@, *signer, by_manager) is None
                    && Intermediary::decode_spec(data@) == Some(record),
                Err(e) => record_refusal(data@, *signer, by_manager) == Some(e),
            },
    {
        let record = match Intermediary::decode(data) {
            Some(record) => record,
            None => {
                return Err(ClientError::UnreadableRecord);
            },
        };
        if !record.is_initialized {
            return Err(ClientError::IntermediaryIsNotInitialized);
        }
        if !by_manager && *signer != record.investor_pubkey {
            return Err(ClientError::IntermediaryInvalidInvestor);
        }
        if by_manager && *signer != record.manager_pubkey {
            return Err(ClientError::IntermediaryInvalidManager);
        }
        Ok(record)
    }

    /// Prepares `Initialize` for a new record at `intermediary_pubkey`, of
    /// which `investor`, `manager` and `trader` are to hold the roles: the
    /// client's checks, then the search for the four sub-accounts, then the
    /// command with what was found.
    pub fn initialize(
        &self,
        investor: &AccountView,
        manager: &AccountView,
        trader: &AccountView,
        intermediary_pubkey: &Address,
        record_reserve: u64,
        token_reserve: u64,
        lamports_to_treasury: u64,
    ) -> (r: Result<InitializeRequest, ClientError>)
        ensures
            match r {
                Ok(request) => {
                    &&& initialize_refusal(
                        self.fees,
                        *investor,
                        *manager,
                        *trader,
                        record_reserve,
                        token_reserve,
                        lamports_to_treasury,
                    ) is None
                    &&& request.sub_accounts.found_for(*intermediary_pubkey)
                    &&& request.instruction@ == initialize_request(
                        investor.key,
                        *intermediary_pubkey,
                        manager.key,
                        trader.key,
                        lamports_to_treasury,
                        request.sub_accounts,
                    )
                },
                Err(e) => match initialize_refusal(
                    self.fees,
                    *investor,
                    *manager,
                    *trader,
                    record_reserve,
                    token_reserve,
                    lamports_to_treasury,
                ) {
                    Some(refusal) => e == refusal,
                    None => e == ClientError::AddressNotFound && forall|any: SubAccounts|
                        !any.found_for(*intermediary_pubkey),
                },
            },
    {
        if investor.key == manager.key || investor.key == trader.key || manager.key == trader.key {
            return Err(ClientError::InvalidAccountPubkey);
        }
        let system = Address::system_program();
        if investor.owner != system || manager.owner != system || trader.owner != system {
            return Err(ClientError::InvalidAccountOwner);
        }
        if investor.data.len() != 0 || manager.data.len() != 0 || trader.data.len() != 0 {
            return Err(ClientError::InvalidAccountData);
        }
        if (investor.lamports as u128) < record_reserve as u128 + token_reserve as u128
            + lamports_to_treasury as u128 + self.fees.initialize as u128 || manager.lamports == 0
            || trader.lamports == 0 {
            return Err(ClientError::InvalidAccountLamports);
        }
        let found = match SubAccounts::find(intermediary_pubkey) {
            Some(found) => found,
            None => {
                return Err(ClientError::AddressNotFound);
            },
        };
        let made = Instruction::initialize(
            &Address::program(),
            &investor.key,
            intermediary_pubkey,
            &manager.key,
            &trader.key,
            &found.w_sol_token_account_pubkey,
            &found.w_sol_token_account_authority_pubkey,
            &found.temporary_w_sol_token_account_pubkey,
            &found.temporary_w_sol_token_account_authority_pubkey,
            lamports_to_treasury,
            found.w_sol_token_account_pubkey_bump_seed,
            found.w_sol_token_account_authority_pubkey_bump_seed,
            found.temporary_w_sol_token_account_pubkey_bump_seed,
            found.temporary_w_sol_token_account_authority_pubkey_bump_seed,
        );
        Ok(InitializeRequest { sub_accounts: found, instruction: made.unwrap() })
    }

    /// Prepares `DepositFunds` by the investor into the record in
    /// `intermediary`.
    pub fn deposit_funds(
        &self,
        investor: &AccountView,
        intermediary: &AccountView,
        lamports_to_treasury: u64,
    ) -> (r: Result<Invocation, ClientError>)
        ensures
            is_request(
                r,
                deposit_funds_request(self.fees, *investor, *intermediary, lamports_to_treasury),
            ),
    {
        if (investor.lamports as u128) < lamports_to_treasury as u128
            + self.fees.deposit_funds as u128 {
            return Err(ClientError::InvalidAccountLamports);
        }
        let record = CommandProcessor::check_record(
            intermediary.data.as_slice(),
            &investor.key,
            false,
        )?;
        let made = Instruction::deposit_funds(
            &Address::program(),
            &investor.key,
            &intermediary.key,
            &record.w_sol_token_account_pubkey,
            lamports_to_treasury,
        );
        Ok(made.unwrap())
    }

    /// Prepares `WithdrawFunds` by the investor from the record in
    /// `intermediary`, whose wrapped-value account holds
    /// `w_sol_token_account_data`; `reserve` is what frees a token account
    /// from rent.
    pub fn withdraw_funds(
        &self,
        investor: &AccountView,
        intermediary: &AccountView,
        w_sol_token_account_data: &Vec<u8>,
        reserve: u64,
        lamports_from_treasury: u64,
    ) -> (r: Result<Invocation, ClientError>)
        ensures
            is_request(
                r,
                withdraw_funds_request(
                    self.fees,
                    *investor,
                    *intermediary,
                    w_sol_token_account_data@,
                    reserve,
                    lamports_from_treasury,
                ),
            ),
    {
        if (investor.lamports as u128) < reserve as u128 + self.fees.withdraw_funds as u128 {
            return Err(ClientError::InvalidAccountLamports);
        }
        let record = CommandProcessor::check_record(
            intermediary.data.as_slice(),
            &investor.key,
            false,
        )?;
        let balance = match unpack_token_account(w_sol_token_account_data) {
            Some(balance) => balance,
            None => {
                return Err(ClientError::UnreadableTokenAccount);
            },
        };
        if balance.amount < lamports_from_treasury {
            return Err(ClientError::TreasuryExceeded { maximum: balance.amount });
        }
        let made = Instruction::withdraw_funds(
            &Address::program(),
            &investor.key,
            &intermediary.key,
            &record.w_sol_token_account_pubkey,
            &record.w_sol_token_account_authority_pubkey,
            &record.temporary_w_sol_token_account_pubkey,
            &record.temporary_w_sol_token_account_authority_pubkey,
            lamports_from_treasury,
        );
        Ok(made.unwrap())
    }

    /// Prepares `ChangeManager` by the investor of the record in
    /// `intermediary`, in favour of `manager`.
    pub fn change_manager(
        &self,
        investor: &AccountView,
        intermediary: &AccountView,
        manager: &AccountView,
    ) -> (r: Result<Invocation, ClientError>)
        ensures
            is_request(
                r,
                role_change_request(
                    self.fees.change_manager,
                    *investor,
                    *intermediary,
                    *manager,
                    false,
                ),
            ),
    {
        if investor.lamports < self.fees.change_manager || manager.lamports == 0 {
            return Err(ClientError::InvalidAccountLamports);
        }
        let record = CommandProcessor::check_record(
            intermediary.data.as_slice(),
            &investor.key,
            false,
        )?;
        if manager.key == record.investor_pubkey || manager.key == record.manager_pubkey
            || manager.key == record.trader_pubkey {
            return Err(ClientError::IntermediaryInvalidManager);
        }
        let made = Instruction::change_manager(
            &Address::program(),
            &investor.key,
            &intermediary.key,
            &manager.key,
        );
        Ok(made.unwrap())
    }

    /// Prepares `ChangeTrader` by the manager of the record in `intermediary`,
    /// in favour of `trader`.
    pub fn change_trader(
        &self,
        manager: &AccountView,
        intermediary: &AccountView,
        trader: &AccountView,
    ) -> (r: Result<Invocation, ClientError>)
        ensures
            is_request(
                r,
                role_change_request(
                    self.fees.change_trader,
                    *manager,
                    *intermediary,
                    *trader,
                    true,
                ),
            ),
    {
        if manager.lamports < self.fees.change_trader || trader.lamports == 0 {
            return Err(ClientError::InvalidAccountLamports);
        }
        let record = CommandProcessor::check_record(
            intermediary.data.as_slice(),
            &manager.key,
            true,
        )?;
        if trader.key == record.investor_pubkey || trader.key == record.manager_pubkey
            || trader.key == record.trader_pubkey {
            return Err(ClientError::IntermediaryInvalidTrader);
        }
        let made = Instruction::change_trader(
            &Address::program(),
            &manager.key,
            &intermediary.key,
            &trader.key,
        );
        Ok(made.unwrap())
    }
}

} // verus!
