use vstd::prelude::*;
use vstd::std_specs::cmp::PartialEqSpecImpl;

verus! {

/// A 32-byte account address.
#[derive(Clone, Copy, Debug)]
pub struct Address {
    pub bytes: [u8; 32],
}

impl View for Address {
    type V = Seq<u8>;

    open spec fn view(&self) -> Seq<u8> {
        self.bytes@
    }
}

impl PartialEq for Address {
    fn eq(&self, other: &Address) -> (r: bool) {
        let mut i: usize = 0;
        while i < 32
            invariant
                i <= 32,
                forall|j: int| 0 <= j < i ==> self.bytes[j] == other.bytes[j],
            decreases 32 - i,
        {
            if self.bytes[i] != other.bytes[i] {
                return false;
            }
            i = i + 1;
        }
        assert(self.bytes =~= other.bytes);
        true
    }
}

impl Eq for Address {}

impl PartialEqSpecImpl for Address {
    open spec fn obeys_eq_spec() -> bool {
        true
    }

    open spec fn eq_spec(&self, other: &Address) -> bool {
        *self == *other
    }
}

/// Two addresses with the same bytes are the same address.
pub proof fn lemma_address_extensional(a: Address, b: Address)
    ensures
        a@ == b@ <==> a == b,
        a@.len() == 32,
{
    if a@ == b@ {
        assert(a.bytes =~= b.bytes);
    }
}

/// This program's own address.
pub open spec fn program_id() -> Address {
    Address {
        bytes: [
            192u8, 233, 214, 252, 102, 247, 48, 135, 165, 206, 110, 55, 135, 53, 190, 128, 52,
            162, 45, 67, 253, 217, 244, 176, 11, 12, 116, 213, 107, 104, 193, 41,
        ],
    }
}

/// The first exchange program.
pub open spec fn raydium_liquidity_pool_v4_program_id() -> Address {
    Address {
        bytes: [
            75u8, 217, 73, 196, 54, 2, 195, 63, 32, 119, 144, 237, 22, 163, 82, 76, 161, 185,
            151, 92, 241, 33, 162, 169, 12, 255, 236, 125, 248, 182, 138, 205,
        ],
    }
}

/// The second exchange program.
pub open spec fn pumpswap_program_id() -> Address {
    Address {
        bytes: [
            12u8, 20, 222, 252, 130, 94, 198, 118, 148, 37, 8, 24, 187, 101, 64, 101, 244, 41,
            141, 49, 86, 213, 113, 180, 212, 248, 9, 12, 24, 233, 168, 99,
        ],
    }
}

/// The token program.
pub open spec fn token_program_id() -> Address {
    Address {
        bytes: [
            6u8, 221, 246, 225, 215, 101, 161, 147, 217, 203, 225, 70, 206, 235, 121, 172, 28,
            180, 133, 237, 95, 91, 55, 145, 58, 140, 245, 133, 126, 255, 0, 169,
        ],
    }
}

/// The mint of wrapped native value.
pub open spec fn native_mint_id() -> Address {
    Address {
        bytes: [
            6u8, 155, 136, 87, 254, 171, 129, 132, 251, 104, 127, 99, 70, 24, 192, 53, 218,
            196, 57, 220, 26, 235, 59, 85, 152, 160, 240, 0, 0, 0, 0, 1,
        ],
    }
}

/// The system program.
pub open spec fn system_program_id() -> Address {
    Address {
        bytes: [
            0u8, 0, 0, 0, 0, 0, 0, 0, 0, 0, 0, 0, 0, 0, 0, 0, 0, 0, 0, 0, 0, 0, 0, 0, 0, 0, 0,
            0, 0, 0, 0, 0,
        ],
    }
}

/// The account that holds the rent parameters.
pub open spec fn rent_sysvar_id() -> Address {
    Address {
        bytes: [
            6u8, 167, 213, 23, 25, 44, 92, 81, 33, 140, 201, 76, 61, 74, 241, 127, 88, 218,
            238, 8, 155, 161, 253, 68, 227, 219, 217, 138, 0, 0, 0, 0,
        ],
    }
}

/// The associated token account program.
pub open spec fn associated_token_account_program_id() -> Address {
    Address {
        bytes: [
            140u8, 151, 37, 143, 78, 36, 137, 241, 187, 61, 16, 41, 20, 142, 13, 131, 11, 90,
            19, 153, 218, 255, 16, 132, 4, 142, 123, 216, 219, 233, 248, 89,
        ],
    }
}

impl Address {
    /// This program's own address.
    pub fn program() -> (r: Address)
        ensures
            r == program_id(),
    {
        let r = Address {
            bytes: [
                192, 233, 214, 252, 102, 247, 48, 135, 165, 206, 110, 55, 135, 53, 190, 128,
                52, 162, 45, 67, 253, 217, 244, 176, 11, 12, 116, 213, 107, 104, 193, 41,
            ],
        };
        assert(r.bytes =~= program_id().bytes);
        r
    }

    /// The first exchange program.
    pub fn raydium_liquidity_pool_v4_program() -> (r: Address)
        ensures
            r == raydium_liquidity_pool_v4_program_id(),
    {
        let r = Address {
            bytes: [
                75, 217, 73, 196, 54, 2, 195, 63, 32, 119, 144, 237, 22, 163, 82, 76, 161, 185,
                151, 92, 241, 33, 162, 169, 12, 255, 236, 125, 248, 182, 138, 205,
            ],
        };
        assert(r.bytes =~= raydium_liquidity_pool_v4_program_id().bytes);
        r
    }

    /// The second exchange program.
    pub fn pumpswap_program() -> (r: Address)
        ensures
            r == pumpswap_program_id(),
    {
        let r = Address {
            bytes: [
                12, 20, 222, 252, 130, 94, 198, 118, 148, 37, 8, 24, 187, 101, 64, 101, 244,
                41, 141, 49, 86, 213, 113, 180, 212, 248, 9, 12, 24, 233, 168, 99,
            ],
        };
        assert(r.bytes =~= pumpswap_program_id().bytes);
        r
    }

    /// The token program.
    pub fn token_program() -> (r: Address)
        ensures
            r == token_program_id(),
    {
        let r = Address {
            bytes: [
                6, 221, 246, 225, 215, 101, 161, 147, 217, 203, 225, 70, 206, 235, 121, 172,
                28, 180, 133, 237, 95, 91, 55, 145, 58, 140, 245, 133, 126, 255, 0, 169,
            ],
        };
        assert(r.bytes =~= token_program_id().bytes);
        r
    }

    /// The mint of wrapped native value.
    pub fn native_mint() -> (r: Address)
        ensures
            r == native_mint_id(),
    {
        let r = Address {
            bytes: [
                6, 155, 136, 87, 254, 171, 129, 132, 251, 104, 127, 99, 70, 24, 192, 53, 218,
                196, 57, 220, 26, 235, 59, 85, 152, 160, 240, 0, 0, 0, 0, 1,
            ],
        };
        assert(r.bytes =~= native_mint_id().bytes);
        r
    }

    /// The system program.
    pub fn system_program() -> (r: Address)
        ensures
            r == system_program_id(),
    {
        let r = Address {
            bytes: [
                0, 0, 0, 0, 0, 0, 0, 0, 0, 0, 0, 0, 0, 0, 0, 0, 0, 0, 0, 0, 0, 0, 0, 0, 0, 0,
                0, 0, 0, 0, 0, 0,
            ],
        };
        assert(r.bytes =~= system_program_id().bytes);
        r
    }

    /// The account that holds the rent parameters.
    pub fn rent_sysvar() -> (r: Address)
        ensures
            r == rent_sysvar_id(),
    {
        let r = Address {
            bytes: [
                6, 167, 213, 23, 25, 44, 92, 81, 33, 140, 201, 76, 61, 74, 241, 127, 88, 218,
                238, 8, 155, 161, 253, 68, 227, 219, 217, 138, 0, 0, 0, 0,
            ],
        };
        assert(r.bytes =~= rent_sysvar_id().bytes);
        r
    }

    /// The associated token account program.
    pub fn associated_token_account_program() -> (r: Address)
        ensures
            r == associated_token_account_program_id(),
    {
        let r = Address {
            bytes: [
                140, 151, 37, 143, 78, 36, 137, 241, 187, 61, 16, 41, 20, 142, 13, 131, 11, 90,
                19, 153, 218, 255, 16, 132, 4, 142, 123, 216, 219, 233, 248, 89,
            ],
        };
        assert(r.bytes =~= associated_token_account_program_id().bytes);
        r
    }
}

/// No address occurs twice among the first `n` of `keys`.
pub open spec fn keys_distinct(keys: Seq<Address>, n: int) -> bool {
    forall|i: int, j: int| 0 <= i < j < n && j < keys.len() ==> keys[i] != keys[j]
}

/// Whether no address occurs twice in `keys`.
pub fn all_distinct(keys: &Vec<Address>) -> (r: bool)
    ensures
        r == keys_distinct(keys@, keys@.len() as int),
{
    let n = keys.len();
    let mut j: usize = 0;
    while j < n
        invariant
            j <= n,
            n == keys@.len(),
            keys_distinct(keys@, j as int),
        decreases n - j,
    {
        let mut i: usize = 0;
        while i < j
            invariant
                i <= j,
                j < n,
                n == keys@.len(),
                keys_distinct(keys@, j as int),
                forall|k: int| 0 <= k < i ==> keys@[k] != keys@[j as int],
            decreases j - i,
        {
            if keys[i] == keys[j] {
                return false;
            }
            i = i + 1;
        }
        j = j + 1;
    }
    true
}

} // verus!
