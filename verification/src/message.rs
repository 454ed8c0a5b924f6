use crate::address::Address;
use vstd::prelude::*;

verus! {

/// How a call names one of its accounts.
#[derive(Clone, Copy, Debug, PartialEq, Eq)]
pub struct AccountMeta {
    pub pubkey: Address,
    pub is_signer: bool,
    pub is_writable: bool,
}

impl AccountMeta {
    /// An account that the call may change.
    pub open spec fn writable(pubkey: Address, is_signer: bool) -> AccountMeta {
        AccountMeta { pubkey, is_signer, is_writable: true }
    }

    /// An account that the call only reads.
    pub open spec fn read_only(pubkey: Address, is_signer: bool) -> AccountMeta {
        AccountMeta { pubkey, is_signer, is_writable: false }
    }

    pub fn new(pubkey: Address, is_signer: bool) -> (r: AccountMeta)
        ensures
            r == AccountMeta::writable(pubkey, is_signer),
    {
        AccountMeta { pubkey, is_signer, is_writable: true }
    }

    pub fn new_readonly(pubkey: Address, is_signer: bool) -> (r: AccountMeta)
        ensures
            r == AccountMeta::read_only(pubkey, is_signer),
    {
        AccountMeta { pubkey, is_signer, is_writable: false }
    }
}

/// A call to a program: the program, the accounts it is given in their order,
/// and the payload.
#[derive(Clone, Debug, PartialEq, Eq)]
pub struct Invocation {
    pub program_id: Address,
    pub accounts: Vec<AccountMeta>,
    pub data: Vec<u8>,
}

/// What an `Invocation` holds.
#[verifier::ext_equal]
pub struct InvocationView {
    pub program_id: Address,
    pub accounts: Seq<AccountMeta>,
    pub data: Seq<u8>,
}

impl View for Invocation {
    type V = InvocationView;

    open spec fn view(&self) -> InvocationView {
        InvocationView { program_id: self.program_id, accounts: self.accounts@, data: self.data@ }
    }
}

/// An account as a command finds it.
#[derive(Clone, Debug, PartialEq, Eq)]
pub struct AccountView {
    pub key: Address,
    pub owner: Address,
    pub is_signer: bool,
    pub is_writable: bool,
    pub lamports: u64,
    pub data: Vec<u8>,
}

/// The addresses of `accounts`, in their order.
pub open spec fn keys_of(accounts: Seq<AccountView>) -> Seq<Address> {
    accounts.map_values(|a: AccountView| a.key)
}

} // verus!
