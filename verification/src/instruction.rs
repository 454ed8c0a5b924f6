use crate::address::{
    associated_token_account_program_id, native_mint_id, rent_sysvar_id, system_program_id,
    token_program_id, Address,
};
use crate::bytes::{get_u64, lemma_u64_bytes, put_u64, u64_at};
use crate::error::ProgramFailure;
use crate::message::{AccountMeta, Invocation, InvocationView};
use vstd::bytes::spec_u64_to_le_bytes;
use vstd::prelude::*;

verus! {

/// The commands of the program.
#[derive(Clone, Copy, Debug, PartialEq, Eq)]
pub enum Instruction {
    Initialize {
        lamports_to_treasury: u64,
        w_sol_token_account_pubkey_bump_seed: u8,
        w_sol_token_account_authority_pubkey_bump_seed: u8,
        temporary_w_sol_token_account_pubkey_bump_seed: u8,
        temporary_w_sol_token_account_authority_pubkey_bump_seed: u8,
    },
    DepositFunds { lamports_to_treasury: u64 },
    WithdrawFunds { lamports_from_treasury: u64 },
    BuyOnRaydium {
        input_token_amount: u64,
        minimum_output_token_amount: u64,
        any_mint_token_account_pubkey_bump_seed: u8,
        any_mint_token_account_authority_pubkey_bump_seed: u8,
    },
    SellOnRaydium {
        input_token_amount: u64,
        minimum_output_token_amount: Option<u64>,
        any_mint_token_account_pubkey_bump_seed: u8,
        any_mint_token_account_authority_pubkey_bump_seed: u8,
        temporary_any_mint_token_account_pubkey_bump_seed: u8,
        temporary_any_mint_token_account_authority_pubkey_bump_seed: u8,
    },
    BuyOnPumpswap {
        base_amount_out: u64,
        maximum_quote_amount_in: u64,
        any_mint_token_account_pubkey_bump_seed: u8,
    },
    SellOnPumpswap {
        input_token_amount: u64,
        minimum_output_token_amount: Option<u64>,
        any_mint_token_account_pubkey_bump_seed: u8,
        temporary_any_mint_token_account_pubkey_bump_seed: u8,
    },
    ChangeManager,
    ChangeTrader,
}

/// An optional amount on the wire: the byte 0 for none, the byte 1 and the
/// amount for one.
pub open spec fn optional_u64_bytes(x: Option<u64>) -> Seq<u8> {
    match x {
        None => seq![0u8],
        Some(v) => seq![1u8] + spec_u64_to_le_bytes(v),
    }
}

/// Appends an optional amount as it stands on the wire.
pub(crate) fn put_optional_u64(buffer: &mut Vec<u8>, x: Option<u64>)
    ensures
        final(buffer)@ == old(buffer)@ + optional_u64_bytes(x),
{
    match x {
        None => {
            buffer.push(0);
        },
        Some(v) => {
            buffer.push(1);
            put_u64(buffer, v);
        },
    }
    assert(buffer@ =~= old(buffer)@ + optional_u64_bytes(x));
}

impl Instruction {
    /// The command on the wire: its number in one byte, then its fields in
    /// their order, amounts in eight bytes with the low byte first, bumps in
    /// one byte.
    pub open spec fn encode_spec(self) -> Seq<u8> {
        match self {
            Instruction::Initialize {
                lamports_to_treasury,
                w_sol_token_account_pubkey_bump_seed,
                w_sol_token_account_authority_pubkey_bump_seed,
                temporary_w_sol_token_account_pubkey_bump_seed,
                temporary_w_sol_token_account_authority_pubkey_bump_seed,
            } => seq![0u8] + spec_u64_to_le_bytes(lamports_to_treasury) + seq![
                w_sol_token_account_pubkey_bump_seed,
                w_sol_token_account_authority_pubkey_bump_seed,
                temporary_w_sol_token_account_pubkey_bump_seed,
                temporary_w_sol_token_account_authority_pubkey_bump_seed,
            ],
            Instruction::DepositFunds { lamports_to_treasury } => seq![1u8] + spec_u64_to_le_bytes(
                lamports_to_treasury,
            ),
            Instruction::WithdrawFunds { lamports_from_treasury } => seq![2u8]
                + spec_u64_to_le_bytes(lamports_from_treasury),
            Instruction::BuyOnRaydium {
                input_token_amount,
                minimum_output_token_amount,
                any_mint_token_account_pubkey_bump_seed,
                any_mint_token_account_authority_pubkey_bump_seed,
            } => seq![3u8] + spec_u64_to_le_bytes(input_token_amount) + spec_u64_to_le_bytes(
                minimum_output_token_amount,
            ) + seq![
                any_mint_token_account_pubkey_bump_seed,
                any_mint_token_account_authority_pubkey_bump_seed,
            ],
            Instruction::SellOnRaydium {
                input_token_amount,
                minimum_output_token_amount,
                any_mint_token_account_pubkey_bump_seed,
                any_mint_token_account_authority_pubkey_bump_seed,
                temporary_any_mint_token_account_pubkey_bump_seed,
                temporary_any_mint_token_account_authority_pubkey_bump_seed,
            } => seq![4u8] + spec_u64_to_le_bytes(input_token_amount) + optional_u64_bytes(
                minimum_output_token_amount,
            ) + seq![
                any_mint_token_account_pubkey_bump_seed,
                any_mint_token_account_authority_pubkey_bump_seed,
                temporary_any_mint_token_account_pubkey_bump_seed,
                temporary_any_mint_token_account_authority_pubkey_bump_seed,
            ],
            Instruction::BuyOnPumpswap {
                base_amount_out,
                maximum_quote_amount_in,
                any_mint_token_account_pubkey_bump_seed,
            } => seq![5u8] + spec_u64_to_le_bytes(base_amount_out) + spec_u64_to_le_bytes(
                maximum_quote_amount_in,
            ) + seq![any_mint_token_account_pubkey_bump_seed],
            Instruction::SellOnPumpswap {
                input_token_amount,
                minimum_output_token_amount,
                any_mint_token_account_pubkey_bump_seed,
                temporary_any_mint_token_account_pubkey_bump_seed,
            } => seq![6u8] + spec_u64_to_le_bytes(input_token_amount) + optional_u64_bytes(
                minimum_output_token_amount,
            ) + seq![
                any_mint_token_account_pubkey_bump_seed,
                temporary_any_mint_token_account_pubkey_bump_seed,
            ],
            Instruction::ChangeManager => seq![7u8],
            Instruction::ChangeTrader => seq![8u8],
        }
    }

    /// The optional amount that stands at byte 9 of `data`, and the place
    /// after it; none where the byte is neither 0 nor 1 or the amount is cut
    /// short.
    pub open spec fn optional_u64_at(data: Seq<u8>) -> Option<(Option<u64>, int)> {
        if data.len() < 10 {
            None
        } else if data[9] == 0 {
            Some((None, 10))
        } else if data[9] == 1 && data.len() >= 18 {
            Some((Some(u64_at(data, 10)), 18))
        } else {
            None
        }
    }

    /// The command that `data` holds: `data` must be one command's bytes, all of
    /// them and no more.
    pub open spec fn decode_spec(data: Seq<u8>) -> Option<Instruction> {
        if data.len() == 0 {
            None
        } else if data[0] == 0 {
            if data.len() != 13 {
                None
            } else {
                Some(
                    Instruction::Initialize {
                        lamports_to_treasury: u64_at(data, 1),
                        w_sol_token_account_pubkey_bump_seed: data[9],
                        w_sol_token_account_authority_pubkey_bump_seed: data[10],
                        temporary_w_sol_token_account_pubkey_bump_seed: data[11],
                        temporary_w_sol_token_account_authority_pubkey_bump_seed: data[12],
                    },
                )
            }
        } else if data[0] == 1 {
            if data.len() != 9 {
                None
            } else {
                Some(Instruction::DepositFunds { lamports_to_treasury: u64_at(data, 1) })
            }
        } else if data[0] == 2 {
            if data.len() != 9 {
                None
            } else {
                Some(Instruction::WithdrawFunds { lamports_from_treasury: u64_at(data, 1) })
            }
        } else if data[0] == 3 {
            if data.len() != 19 {
                None
            } else {
                Some(
                    Instruction::BuyOnRaydium {
                        input_token_amount: u64_at(data, 1),
                        minimum_output_token_amount: u64_at(data, 9),
                        any_mint_token_account_pubkey_bump_seed: data[17],
                        any_mint_token_account_authority_pubkey_bump_seed: data[18],
                    },
                )
            }
        } else if data[0] == 4 {
            match Instruction::optional_u64_at(data) {
                Some((minimum, next)) => if data.len() != next + 4 {
                    None
                } else {
                    Some(
                        Instruction::SellOnRaydium {
                            input_token_amount: u64_at(data, 1),
                            minimum_output_token_amount: minimum,
                            any_mint_token_account_pubkey_bump_seed: data[next],
                            any_mint_token_account_authority_pubkey_bump_seed: data[next + 1],
                            temporary_any_mint_token_account_pubkey_bump_seed: data[next + 2],
                            temporary_any_mint_token_account_authority_pubkey_bump_seed: data[next
                                + 3],
                        },
                    )
                },
                None => None,
            }
        } else if data[0] == 5 {
            if data.len() != 18 {
                None
            } else {
                Some(
                    Instruction::BuyOnPumpswap {
                        base_amount_out: u64_at(data, 1),
                        maximum_quote_amount_in: u64_at(data, 9),
                        any_mint_token_account_pubkey_bump_seed: data[17],
                    },
                )
            }
        } else if data[0] == 6 {
            match Instruction::optional_u64_at(data) {
                Some((minimum, next)) => if data.len() != next + 2 {
                    None
                } else {
                    Some(
                        Instruction::SellOnPumpswap {
                            input_token_amount: u64_at(data, 1),
                            minimum_output_token_amount: minimum,
                            any_mint_token_account_pubkey_bump_seed: data[next],
                            temporary_any_mint_token_account_pubkey_bump_seed: data[next + 1],
                        },
                    )
                },
                None => None,
            }
        } else if data[0] == 7 {
            if data.len() != 1 {
                None
            } else {
                Some(Instruction::ChangeManager)
            }
        } else if data[0] == 8 {
            if data.len() != 1 {
                None
            } else {
                Some(Instruction::ChangeTrader)
            }
        } else {
            None
        }
    }

    /// The command's bytes on the wire.
    pub fn encode(&self) -> (r: Vec<u8>)
        ensures
            r@ == self.encode_spec(),
    {
        let mut r: Vec<u8> = Vec::new();
        match *self {
            Instruction::Initialize {
                lamports_to_treasury,
                w_sol_token_account_pubkey_bump_seed,
                w_sol_token_account_authority_pubkey_bump_seed,
                temporary_w_sol_token_account_pubkey_bump_seed,
                temporary_w_sol_token_account_authority_pubkey_bump_seed,
            } => {
                r.push(0);
                put_u64(&mut r, lamports_to_treasury);
                r.push(w_sol_token_account_pubkey_bump_seed);
                r.push(w_sol_token_account_authority_pubkey_bump_seed);
                r.push(temporary_w_sol_token_account_pubkey_bump_seed);
                r.push(temporary_w_sol_token_account_authority_pubkey_bump_seed);
            },
            Instruction::DepositFunds { lamports_to_treasury } => {
                r.push(1);
                put_u64(&mut r, lamports_to_treasury);
            },
            Instruction::WithdrawFunds { lamports_from_treasury } => {
                r.push(2);
                put_u64(&mut r, lamports_from_treasury);
            },
            Instruction::BuyOnRaydium {
                input_token_amount,
                minimum_output_token_amount,
                any_mint_token_account_pubkey_bump_seed,
                any_mint_token_account_authority_pubkey_bump_seed,
            } => {
                r.push(3);
                put_u64(&mut r, input_token_amount);
                put_u64(&mut r, minimum_output_token_amount);
                r.push(any_mint_token_account_pubkey_bump_seed);
                r.push(any_mint_token_account_authority_pubkey_bump_seed);
            },
            Instruction::SellOnRaydium {
                input_token_amount,
                minimum_output_token_amount,
                any_mint_token_account_pubkey_bump_seed,
                any_mint_token_account_authority_pubkey_bump_seed,
                temporary_any_mint_token_account_pubkey_bump_seed,
                temporary_any_mint_token_account_authority_pubkey_bump_seed,
            } => {
                r.push(4);
                put_u64(&mut r, input_token_amount);
                put_optional_u64(&mut r, minimum_output_token_amount);
                r.push(any_mint_token_account_pubkey_bump_seed);
                r.push(any_mint_token_account_authority_pubkey_bump_seed);
                r.push(temporary_any_mint_token_account_pubkey_bump_seed);
                r.push(temporary_any_mint_token_account_authority_pubkey_bump_seed);
            },
            Instruction::BuyOnPumpswap {
                base_amount_out,
                maximum_quote_amount_in,
                any_mint_token_account_pubkey_bump_seed,
            } => {
                r.push(5);
                put_u64(&mut r, base_amount_out);
                put_u64(&mut r, maximum_quote_amount_in);
                r.push(any_mint_token_account_pubkey_bump_seed);
            },
            Instruction::SellOnPumpswap {
                input_token_amount,
                minimum_output_token_amount,
                any_mint_token_account_pubkey_bump_seed,
                temporary_any_mint_token_account_pubkey_bump_seed,
            } => {
                r.push(6);
                put_u64(&mut r, input_token_amount);
                put_optional_u64(&mut r, minimum_output_token_amount);
                r.push(any_mint_token_account_pubkey_bump_seed);
                r.push(temporary_any_mint_token_account_pubkey_bump_seed);
            },
            Instruction::ChangeManager => {
                r.push(7);
            },
            Instruction::ChangeTrader => {
                r.push(8);
            },
        }
        assert(r@ =~= self.encode_spec());
        r
    }

    /// The command that `data` holds, if it holds one.
    pub fn decode(data: &[u8]) -> (r: Option<Instruction>)
        ensures
            r == Instruction::decode_spec(data@),
    {
        let n = data.len();
        if n == 0 {
            return None;
        }
        let tag = data[0];
        if tag == 0 {
            if n != 13 {
                return None;
            }
            Some(
                Instruction::Initialize {
                    lamports_to_treasury: get_u64(data, 1),
                    w_sol_token_account_pubkey_bump_seed: data[9],
                    w_sol_token_account_authority_pubkey_bump_seed: data[10],
                    temporary_w_sol_token_account_pubkey_bump_seed: data[11],
                    temporary_w_sol_token_account_authority_pubkey_bump_seed: data[12],
                },
            )
        } else if tag == 1 {
            if n != 9 {
                return None;
            }
            Some(Instruction::DepositFunds { lamports_to_treasury: get_u64(data, 1) })
        } else if tag == 2 {
            if n != 9 {
                return None;
            }
            Some(Instruction::WithdrawFunds { lamports_from_treasury: get_u64(data, 1) })
        } else if tag == 3 {
            if n != 19 {
                return None;
            }
            Some(
                Instruction::BuyOnRaydium {
                    input_token_amount: get_u64(data, 1),
                    minimum_output_token_amount: get_u64(data, 9),
                    any_mint_token_account_pubkey_bump_seed: data[17],
                    any_mint_token_account_authority_pubkey_bump_seed: data[18],
                },
            )
        } else if tag == 4 {
            match Instruction::optional_u64(data) {
                Some((minimum, next)) => {
                    if n - next != 4 {
                        return None;
                    }
                    Some(
                        Instruction::SellOnRaydium {
                            input_token_amount: get_u64(data, 1),
                            minimum_output_token_amount: minimum,
                            any_mint_token_account_pubkey_bump_seed: data[next],
                            any_mint_token_account_authority_pubkey_bump_seed: data[next + 1],
                            temporary_any_mint_token_account_pubkey_bump_seed: data[next + 2],
                            temporary_any_mint_token_account_authority_pubkey_bump_seed: data[next
                                + 3],
                        },
                    )
                },
                None => None,
            }
        } else if tag == 5 {
            if n != 18 {
                return None;
            }
            Some(
                Instruction::BuyOnPumpswap {
                    base_amount_out: get_u64(data, 1),
                    maximum_quote_amount_in: get_u64(data, 9),
                    any_mint_token_account_pubkey_bump_seed: data[17],
                },
            )
        } else if tag == 6 {
            match Instruction::optional_u64(data) {
                Some((minimum, next)) => {
                    if n - next != 2 {
                        return None;
                    }
                    Some(
                        Instruction::SellOnPumpswap {
                            input_token_amount: get_u64(data, 1),
                            minimum_output_token_amount: minimum,
                            any_mint_token_account_pubkey_bump_seed: data[next],
                            temporary_any_mint_token_account_pubkey_bump_seed: data[next + 1],
                        },
                    )
                },
                None => None,
            }
        } else if tag == 7 {
            if n != 1 {
                return None;
            }
            Some(Instruction::ChangeManager)
        } else if tag == 8 {
            if n != 1 {
                return None;
            }
            Some(Instruction::ChangeTrader)
        } else {
            None
        }
    }

    fn optional_u64(data: &[u8]) -> (r: Option<(Option<u64>, usize)>)
        ensures
            match r {
                Some((x, next)) => Instruction::optional_u64_at(data@) == Some((x, next as int))
                    && next <= data@.len(),
                None => Instruction::optional_u64_at(data@) is None,
            },
    {
        let n = data.len();
        if n < 10 {
            None
        } else if data[9] == 0 {
            Some((None, 10))
        } else if data[9] == 1 && n >= 18 {
            Some((Some(get_u64(data, 10)), 18))
        } else {
            None
        }
    }
}

/// A command is read back from its bytes.
pub proof fn lemma_instruction_round_trip(command: Instruction)
    ensures
        Instruction::decode_spec(command.encode_spec()) == Some(command),
{
    let data = command.encode_spec();
    match command {
        Instruction::Initialize { lamports_to_treasury, .. } => {
            lemma_u64_bytes(lamports_to_treasury, seq![]);
            assert(data.subrange(1, 9) =~= spec_u64_to_le_bytes(lamports_to_treasury));
        },
        Instruction::DepositFunds { lamports_to_treasury } => {
            lemma_u64_bytes(lamports_to_treasury, seq![]);
            assert(data.subrange(1, 9) =~= spec_u64_to_le_bytes(lamports_to_treasury));
        },
        Instruction::WithdrawFunds { lamports_from_treasury } => {
            lemma_u64_bytes(lamports_from_treasury, seq![]);
            assert(data.subrange(1, 9) =~= spec_u64_to_le_bytes(lamports_from_treasury));
        },
        Instruction::BuyOnRaydium { input_token_amount, minimum_output_token_amount, .. } => {
            lemma_u64_bytes(input_token_amount, seq![]);
            lemma_u64_bytes(minimum_output_token_amount, seq![]);
            assert(data.subrange(1, 9) =~= spec_u64_to_le_bytes(input_token_amount));
            assert(data.subrange(9, 17) =~= spec_u64_to_le_bytes(minimum_output_token_amount));
        },
        Instruction::SellOnRaydium { input_token_amount, minimum_output_token_amount, .. } => {
            lemma_u64_bytes(input_token_amount, seq![]);
            assert(data.subrange(1, 9) =~= spec_u64_to_le_bytes(input_token_amount));
            match minimum_output_token_amount {
                Some(minimum) => {
                    lemma_u64_bytes(minimum, seq![]);
                    assert(data.subrange(10, 18) =~= spec_u64_to_le_bytes(minimum));
                },
                None => {},
            }
        },
        Instruction::BuyOnPumpswap { base_amount_out, maximum_quote_amount_in, .. } => {
            lemma_u64_bytes(base_amount_out, seq![]);
            lemma_u64_bytes(maximum_quote_amount_in, seq![]);
            assert(data.subrange(1, 9) =~= spec_u64_to_le_bytes(base_amount_out));
            assert(data.subrange(9, 17) =~= spec_u64_to_le_bytes(maximum_quote_amount_in));
        },
        Instruction::SellOnPumpswap { input_token_amount, minimum_output_token_amount, .. } => {
            lemma_u64_bytes(input_token_amount, seq![]);
            assert(data.subrange(1, 9) =~= spec_u64_to_le_bytes(input_token_amount));
            match minimum_output_token_amount {
                Some(minimum) => {
                    lemma_u64_bytes(minimum, seq![]);
                    assert(data.subrange(10, 18) =~= spec_u64_to_le_bytes(minimum));
                },
                None => {},
            }
        },
        Instruction::ChangeManager => {},
        Instruction::ChangeTrader => {},
    }
}

/// Bytes that read as a command are that command's bytes: no command has two
/// forms on the wire, and no two commands share one.
pub proof fn lemma_instruction_decode_exact(data: Seq<u8>, command: Instruction)
    ensures
        Instruction::decode_spec(data) == Some(command) <==> data == command.encode_spec(),
{
    if Instruction::decode_spec(data) == Some(command) {
        lemma_u64_bytes(0, data.subrange(1, 9));
        lemma_u64_bytes(0, data.subrange(9, 17));
        lemma_u64_bytes(0, data.subrange(10, 18));
        assert(data =~= command.encode_spec());
    }
    if data == command.encode_spec() {
        lemma_instruction_round_trip(command);
    }
}

impl Instruction {
    /// The accounts that `Initialize` takes, in their order.
    pub open spec fn initialize_accounts(
        intermediary_investor_pubkey: Address,
        intermediary_pubkey: Address,
        intermediary_manager_pubkey: Address,
        intermediary_trader_pubkey: Address,
        w_sol_token_account_pubkey: Address,
        w_sol_token_account_authority_pubkey: Address,
        temporary_w_sol_token_account_pubkey: Address,
        temporary_w_sol_token_account_authority_pubkey: Address,
    ) -> Seq<AccountMeta> {
        seq![
            AccountMeta::read_only(intermediary_investor_pubkey, true),
            AccountMeta::writable(intermediary_pubkey, true),
            AccountMeta::read_only(intermediary_manager_pubkey, false),
            AccountMeta::read_only(intermediary_trader_pubkey, false),
            AccountMeta::writable(w_sol_token_account_pubkey, false),
            AccountMeta::read_only(w_sol_token_account_authority_pubkey, false),
            AccountMeta::read_only(temporary_w_sol_token_account_pubkey, false),
            AccountMeta::read_only(temporary_w_sol_token_account_authority_pubkey, false),
            AccountMeta::read_only(native_mint_id(), false),
            AccountMeta::read_only(system_program_id(), false),
            AccountMeta::read_only(rent_sysvar_id(), false),
            AccountMeta::read_only(token_program_id(), false),
        ]
    }

    /// The `Initialize` command as a call to the program at `program_id_pubkey`.
    pub fn initialize(
        program_id_pubkey: &Address,
        intermediary_investor_pubkey: &Address,
        intermediary_pubkey: &Address,
        intermediary_manager_pubkey: &Address,
        intermediary_trader_pubkey: &Address,
        w_sol_token_account_pubkey: &Address,
        w_sol_token_account_authority_pubkey: &Address,
        temporary_w_sol_token_account_pubkey: &Address,
        temporary_w_sol_token_account_authority_pubkey: &Address,
        lamports_to_treasury: u64,
        w_sol_token_account_pubkey_bump_seed: u8,
        w_sol_token_account_authority_pubkey_bump_seed: u8,
        temporary_w_sol_token_account_pubkey_bump_seed: u8,
        temporary_w_sol_token_account_authority_pubkey_bump_seed: u8,
    ) -> (r: Result<Invocation, ProgramFailure>)
        ensures
            r is Ok,
            r->Ok_0@ == (InvocationView {
                program_id: *program_id_pubkey,
                accounts: Instruction::initialize_accounts(
                    *intermediary_investor_pubkey,
                    *intermediary_pubkey,
                    *intermediary_manager_pubkey,
                    *intermediary_trader_pubkey,
                    *w_sol_token_account_pubkey,
                    *w_sol_token_account_authority_pubkey,
                    *temporary_w_sol_token_account_pubkey,
                    *temporary_w_sol_token_account_authority_pubkey,
                ),
                data: (Instruction::Initialize {
                        lamports_to_treasury,
                        w_sol_token_account_pubkey_bump_seed,
                        w_sol_token_account_authority_pubkey_bump_seed,
                        temporary_w_sol_token_account_pubkey_bump_seed,
                        temporary_w_sol_token_account_authority_pubkey_bump_seed,
                    }).encode_spec(),
            }),
    {
        let accounts = vec![
            AccountMeta::new_readonly(*intermediary_investor_pubkey, true),
            AccountMeta::new(*intermediary_pubkey, true),
            AccountMeta::new_readonly(*intermediary_manager_pubkey, false),
            AccountMeta::new_readonly(*intermediary_trader_pubkey, false),
            AccountMeta::new(*w_sol_token_account_pubkey, false),
            AccountMeta::new_readonly(*w_sol_token_account_authority_pubkey, false),
            AccountMeta::new_readonly(*temporary_w_sol_token_account_pubkey, false),
            AccountMeta::new_readonly(*temporary_w_sol_token_account_authority_pubkey, false),
            AccountMeta::new_readonly(Address::native_mint(), false),
            AccountMeta::new_readonly(Address::system_program(), false),
            AccountMeta::new_readonly(Address::rent_sysvar(), false),
            AccountMeta::new_readonly(Address::token_program(), false),
        ];
        let command = Instruction::Initialize {
            lamports_to_treasury,
            w_sol_token_account_pubkey_bump_seed,
            w_sol_token_account_authority_pubkey_bump_seed,
            temporary_w_sol_token_account_pubkey_bump_seed,
            temporary_w_sol_token_account_authority_pubkey_bump_seed,
        };
        Ok(Invocation { program_id: *program_id_pubkey, accounts, data: command.encode() })
    }

    /// The accounts that `DepositFunds` takes, in their order.
    pub open spec fn deposit_funds_accounts(
        intermediary_investor_pubkey: Address,
        intermediary_pubkey: Address,
        w_sol_token_account_pubkey: Address,
    ) -> Seq<AccountMeta> {
        seq![
            AccountMeta::writable(intermediary_investor_pubkey, true),
            AccountMeta::read_only(intermediary_pubkey, false),
            AccountMeta::writable(w_sol_token_account_pubkey, false),
            AccountMeta::read_only(system_program_id(), false),
            AccountMeta::read_only(token_program_id(), false),
        ]
    }

    /// The `DepositFunds` command as a call to the program at `program_id_pubkey`.
    pub fn deposit_funds(
        program_id_pubkey: &Address,
        intermediary_investor_pubkey: &Address,
        intermediary_pubkey: &Address,
        w_sol_token_account_pubkey: &Address,
        lamports_to_treasury: u64,
    ) -> (r: Result<Invocation, ProgramFailure>)
        ensures
            r is Ok,
            r->Ok_0@ == (InvocationView {
                program_id: *program_id_pubkey,
                accounts: Instruction::deposit_funds_accounts(
                    *intermediary_investor_pubkey,
                    *intermediary_pubkey,
                    *w_sol_token_account_pubkey,
                ),
                data: (Instruction::DepositFunds {
                        lamports_to_treasury,
                    }).encode_spec(),
            }),
    {
        let accounts = vec![
            AccountMeta::new(*intermediary_investor_pubkey, true),
            AccountMeta::new_readonly(*intermediary_pubkey, false),
            AccountMeta::new(*w_sol_token_account_pubkey, false),
            AccountMeta::new_readonly(Address::system_program(), false),
            AccountMeta::new_readonly(Address::token_program(), false),
        ];
        let command = Instruction::DepositFunds {
            lamports_to_treasury,
        };
        Ok(Invocation { program_id: *program_id_pubkey, accounts, data: command.encode() })
    }

    /// The accounts that `WithdrawFunds` takes, in their order.
    pub open spec fn withdraw_funds_accounts(
        intermediary_investor_pubkey: Address,
        intermediary_pubkey: Address,
        w_sol_token_account_pubkey: Address,
        w_sol_token_account_authority_pubkey: Address,
        temporary_w_sol_token_account_pubkey: Address,
        temporary_w_sol_token_account_authority_pubkey: Address,
    ) -> Seq<AccountMeta> {
        seq![
            AccountMeta::writable(intermediary_investor_pubkey, true),
            AccountMeta::read_only(intermediary_pubkey, false),
            AccountMeta::writable(w_sol_token_account_pubkey, false),
            AccountMeta::read_only(w_sol_token_account_authority_pubkey, false),
            AccountMeta::writable(temporary_w_sol_token_account_pubkey, false),
            AccountMeta::read_only(temporary_w_sol_token_account_authority_pubkey, false),
            AccountMeta::read_only(native_mint_id(), false),
            AccountMeta::read_only(system_program_id(), false),
            AccountMeta::read_only(rent_sysvar_id(), false),
            AccountMeta::read_only(token_program_id(), false),
        ]
    }

    /// The `WithdrawFunds` command as a call to the program at `program_id_pubkey`.
    pub fn withdraw_funds(
        program_id_pubkey: &Address,
        intermediary_investor_pubkey: &Address,
        intermediary_pubkey: &Address,
        w_sol_token_account_pubkey: &Address,
        w_sol_token_account_authority_pubkey: &Address,
        temporary_w_sol_token_account_pubkey: &Address,
        temporary_w_sol_token_account_authority_pubkey: &Address,
        lamports_from_treasury: u64,
    ) -> (r: Result<Invocation, ProgramFailure>)
        ensures
            r is Ok,
            r->Ok_0@ == (InvocationView {
                program_id: *program_id_pubkey,
                accounts: Instruction::withdraw_funds_accounts(
                    *intermediary_investor_pubkey,
                    *intermediary_pubkey,
                    *w_sol_token_account_pubkey,
                    *w_sol_token_account_authority_pubkey,
                    *temporary_w_sol_token_account_pubkey,
                    *temporary_w_sol_token_account_authority_pubkey,
                ),
                data: (Instruction::WithdrawFunds {
                        lamports_from_treasury,
                    }).encode_spec(),
            }),
    {
        let accounts = vec![
            AccountMeta::new(*intermediary_investor_pubkey, true),
            AccountMeta::new_readonly(*intermediary_pubkey, false),
            AccountMeta::new(*w_sol_token_account_pubkey, false),
            AccountMeta::new_readonly(*w_sol_token_account_authority_pubkey, false),
            AccountMeta::new(*temporary_w_sol_token_account_pubkey, false),
            AccountMeta::new_readonly(*temporary_w_sol_token_account_authority_pubkey, false),
            AccountMeta::new_readonly(Address::native_mint(), false),
            AccountMeta::new_readonly(Address::system_program(), false),
            AccountMeta::new_readonly(Address::rent_sysvar(), false),
            AccountMeta::new_readonly(Address::token_program(), false),
        ];
        let command = Instruction::WithdrawFunds {
            lamports_from_treasury,
        };
        Ok(Invocation { program_id: *program_id_pubkey, accounts, data: command.encode() })
    }

    /// The accounts that `BuyOnRaydium` takes, in their order.
    pub open spec fn buy_on_raydium_accounts(
        intermediary_trader_pubkey: Address,
        intermediary_pubkey: Address,
        w_sol_token_account_pubkey: Address,
        w_sol_token_account_authority_pubkey: Address,
        temporary_w_sol_token_account_pubkey: Address,
        temporary_w_sol_token_account_authority_pubkey: Address,
        any_mint_token_account_pubkey: Address,
        any_mint_token_account_authority_pubkey: Address,
        any_mint_token_mint_account_pubkey: Address,
        amm_programm_id_pubkey: Address,
        amm_pool_pubkey: Address,
        amm_authority_pubkey: Address,
        amm_open_orders_pubkey: Address,
        amm_coin_vault_pubkey: Address,
        amm_pc_vault_pubkey: Address,
        market_program_id_pubkey: Address,
        market_pubkey: Address,
        market_bids_pubkey: Address,
        market_asks_pubkey: Address,
        market_event_queue_pubkey: Address,
        market_coin_vault_pubkey: Address,
        market_pc_vault_pubkey: Address,
        market_vault_signer_pubkey: Address,
    ) -> Seq<AccountMeta> {
        seq![
            AccountMeta::writable(intermediary_trader_pubkey, true),
            AccountMeta::read_only(intermediary_pubkey, false),
            AccountMeta::writable(w_sol_token_account_pubkey, false),
            AccountMeta::read_only(w_sol_token_account_authority_pubkey, false),
            AccountMeta::writable(temporary_w_sol_token_account_pubkey, false),
            AccountMeta::read_only(temporary_w_sol_token_account_authority_pubkey, false),
            AccountMeta::writable(any_mint_token_account_pubkey, false),
            AccountMeta::read_only(any_mint_token_account_authority_pubkey, false),
            AccountMeta::read_only(native_mint_id(), false),
            AccountMeta::read_only(any_mint_token_mint_account_pubkey, false),
            AccountMeta::read_only(system_program_id(), false),
            AccountMeta::read_only(rent_sysvar_id(), false),
            AccountMeta::read_only(token_program_id(), false),
            AccountMeta::read_only(amm_programm_id_pubkey, false),
            AccountMeta::writable(amm_pool_pubkey, false),
            AccountMeta::read_only(amm_authority_pubkey, false),
            AccountMeta::writable(amm_open_orders_pubkey, false),
            AccountMeta::writable(amm_coin_vault_pubkey, false),
            AccountMeta::writable(amm_pc_vault_pubkey, false),
            AccountMeta::read_only(market_program_id_pubkey, false),
            AccountMeta::writable(market_pubkey, false),
            AccountMeta::writable(market_bids_pubkey, false),
            AccountMeta::writable(market_asks_pubkey, false),
            AccountMeta::writable(market_event_queue_pubkey, false),
            AccountMeta::writable(market_coin_vault_pubkey, false),
            AccountMeta::writable(market_pc_vault_pubkey, false),
            AccountMeta::read_only(market_vault_signer_pubkey, false),
        ]
    }

    /// The `BuyOnRaydium` command as a call to the program at `program_id_pubkey`.
    pub fn buy_on_raydium(
        program_id_pubkey: &Address,
        intermediary_trader_pubkey: &Address,
        intermediary_pubkey: &Address,
        w_sol_token_account_pubkey: &Address,
        w_sol_token_account_authority_pubkey: &Address,
        temporary_w_sol_token_account_pubkey: &Address,
        temporary_w_sol_token_account_authority_pubkey: &Address,
        any_mint_token_account_pubkey: &Address,
        any_mint_token_account_authority_pubkey: &Address,
        any_mint_token_mint_account_pubkey: &Address,
        amm_programm_id_pubkey: &Address,
        amm_pool_pubkey: &Address,
        amm_authority_pubkey: &Address,
        amm_open_orders_pubkey: &Address,
        amm_coin_vault_pubkey: &Address,
        amm_pc_vault_pubkey: &Address,
        market_program_id_pubkey: &Address,
        market_pubkey: &Address,
        market_bids_pubkey: &Address,
        market_asks_pubkey: &Address,
        market_event_queue_pubkey: &Address,
        market_coin_vault_pubkey: &Address,
        market_pc_vault_pubkey: &Address,
        market_vault_signer_pubkey: &Address,
        input_token_amount: u64,
        minimum_output_token_amount: u64,
        any_mint_token_account_pubkey_bump_seed: u8,
        any_mint_token_account_authority_pubkey_bump_seed: u8,
    ) -> (r: Result<Invocation, ProgramFailure>)
        ensures
            r is Ok,
            r->Ok_0@ == (InvocationView {
                program_id: *program_id_pubkey,
                accounts: Instruction::buy_on_raydium_accounts(
                    *intermediary_trader_pubkey,
                    *intermediary_pubkey,
                    *w_sol_token_account_pubkey,
                    *w_sol_token_account_authority_pubkey,
                    *temporary_w_sol_token_account_pubkey,
                    *temporary_w_sol_token_account_authority_pubkey,
                    *any_mint_token_account_pubkey,
                    *any_mint_token_account_authority_pubkey,
                    *any_mint_token_mint_account_pubkey,
                    *amm_programm_id_pubkey,
                    *amm_pool_pubkey,
                    *amm_authority_pubkey,
                    *amm_open_orders_pubkey,
                    *amm_coin_vault_pubkey,
                    *amm_pc_vault_pubkey,
                    *market_program_id_pubkey,
                    *market_pubkey,
                    *market_bids_pubkey,
                    *market_asks_pubkey,
                    *market_event_queue_pubkey,
                    *market_coin_vault_pubkey,
                    *market_pc_vault_pubkey,
                    *market_vault_signer_pubkey,
                ),
                data: (Instruction::BuyOnRaydium {
                        input_token_amount,
                        minimum_output_token_amount,
                        any_mint_token_account_pubkey_bump_seed,
                        any_mint_token_account_authority_pubkey_bump_seed,
                    }).encode_spec(),
            }),
    {
        let accounts = vec![
            AccountMeta::new(*intermediary_trader_pubkey, true),
            AccountMeta::new_readonly(*intermediary_pubkey, false),
            AccountMeta::new(*w_sol_token_account_pubkey, false),
            AccountMeta::new_readonly(*w_sol_token_account_authority_pubkey, false),
            AccountMeta::new(*temporary_w_sol_token_account_pubkey, false),
            AccountMeta::new_readonly(*temporary_w_sol_token_account_authority_pubkey, false),
            AccountMeta::new(*any_mint_token_account_pubkey, false),
            AccountMeta::new_readonly(*any_mint_token_account_authority_pubkey, false),
            AccountMeta::new_readonly(Address::native_mint(), false),
            AccountMeta::new_readonly(*any_mint_token_mint_account_pubkey, false),
            AccountMeta::new_readonly(Address::system_program(), false),
            AccountMeta::new_readonly(Address::rent_sysvar(), false),
            AccountMeta::new_readonly(Address::token_program(), false),
            AccountMeta::new_readonly(*amm_programm_id_pubkey, false),
            AccountMeta::new(*amm_pool_pubkey, false),
            AccountMeta::new_readonly(*amm_authority_pubkey, false),
            AccountMeta::new(*amm_open_orders_pubkey, false),
            AccountMeta::new(*amm_coin_vault_pubkey, false),
            AccountMeta::new(*amm_pc_vault_pubkey, false),
            AccountMeta::new_readonly(*market_program_id_pubkey, false),
            AccountMeta::new(*market_pubkey, false),
            AccountMeta::new(*market_bids_pubkey, false),
            AccountMeta::new(*market_asks_pubkey, false),
            AccountMeta::new(*market_event_queue_pubkey, false),
            AccountMeta::new(*market_coin_vault_pubkey, false),
            AccountMeta::new(*market_pc_vault_pubkey, false),
            AccountMeta::new_readonly(*market_vault_signer_pubkey, false),
        ];
        let command = Instruction::BuyOnRaydium {
            input_token_amount,
            minimum_output_token_amount,
            any_mint_token_account_pubkey_bump_seed,
            any_mint_token_account_authority_pubkey_bump_seed,
        };
        Ok(Invocation { program_id: *program_id_pubkey, accounts, data: command.encode() })
    }

    /// The accounts that `SellOnRaydium` takes, in their order.
    pub open spec fn sell_on_raydium_accounts(
        intermediary_trader_pubkey: Address,
        intermediary_pubkey: Address,
        w_sol_token_account_pubkey: Address,
        any_mint_token_account_pubkey: Address,
        any_mint_token_account_authority_pubkey: Address,
        temporary_any_mint_token_account_pubkey: Address,
        temporary_any_mint_token_account_authority_pubkey: Address,
        any_mint_token_mint_account_pubkey: Address,
        amm_programm_id_pubkey: Address,
        amm_pool_pubkey: Address,
        amm_authority_pubkey: Address,
        amm_open_orders_pubkey: Address,
        amm_coin_vault_pubkey: Address,
        amm_pc_vault_pubkey: Address,
        market_program_id_pubkey: Address,
        market_pubkey: Address,
        market_bids_pubkey: Address,
        market_asks_pubkey: Address,
        market_event_queue_pubkey: Address,
        market_coin_vault_pubkey: Address,
        market_pc_vault_pubkey: Address,
        market_vault_signer_pubkey: Address,
    ) -> Seq<AccountMeta> {
        seq![
            AccountMeta::writable(intermediary_trader_pubkey, true),
            AccountMeta::read_only(intermediary_pubkey, false),
            AccountMeta::writable(w_sol_token_account_pubkey, false),
            AccountMeta::writable(any_mint_token_account_pubkey, false),
            AccountMeta::read_only(any_mint_token_account_authority_pubkey, false),
            AccountMeta::writable(temporary_any_mint_token_account_pubkey, false),
            AccountMeta::read_only(temporary_any_mint_token_account_authority_pubkey, false),
            AccountMeta::read_only(any_mint_token_mint_account_pubkey, false),
            AccountMeta::read_only(system_program_id(), false),
            AccountMeta::read_only(rent_sysvar_id(), false),
            AccountMeta::read_only(token_program_id(), false),
            AccountMeta::read_only(amm_programm_id_pubkey, false),
            AccountMeta::writable(amm_pool_pubkey, false),
            AccountMeta::read_only(amm_authority_pubkey, false),
            AccountMeta::writable(amm_open_orders_pubkey, false),
            AccountMeta::writable(amm_coin_vault_pubkey, false),
            AccountMeta::writable(amm_pc_vault_pubkey, false),
            AccountMeta::read_only(market_program_id_pubkey, false),
            AccountMeta::writable(market_pubkey, false),
            AccountMeta::writable(market_bids_pubkey, false),
            AccountMeta::writable(market_asks_pubkey, false),
            AccountMeta::writable(market_event_queue_pubkey, false),
            AccountMeta::writable(market_coin_vault_pubkey, false),
            AccountMeta::writable(market_pc_vault_pubkey, false),
            AccountMeta::read_only(market_vault_signer_pubkey, false),
        ]
    }

    /// The `SellOnRaydium` command as a call to the program at `program_id_pubkey`.
    pub fn sell_on_raydium(
        program_id_pubkey: &Address,
        intermediary_trader_pubkey: &Address,
        intermediary_pubkey: &Address,
        w_sol_token_account_pubkey: &Address,
        any_mint_token_account_pubkey: &Address,
        any_mint_token_account_authority_pubkey: &Address,
        temporary_any_mint_token_account_pubkey: &Address,
        temporary_any_mint_token_account_authority_pubkey: &Address,
        any_mint_token_mint_account_pubkey: &Address,
        amm_programm_id_pubkey: &Address,
        amm_pool_pubkey: &Address,
        amm_authority_pubkey: &Address,
        amm_open_orders_pubkey: &Address,
        amm_coin_vault_pubkey: &Address,
        amm_pc_vault_pubkey: &Address,
        market_program_id_pubkey: &Address,
        market_pubkey: &Address,
        market_bids_pubkey: &Address,
        market_asks_pubkey: &Address,
        market_event_queue_pubkey: &Address,
        market_coin_vault_pubkey: &Address,
        market_pc_vault_pubkey: &Address,
        market_vault_signer_pubkey: &Address,
        input_token_amount: u64,
        minimum_output_token_amount: Option<u64>,
        any_mint_token_account_pubkey_bump_seed: u8,
        any_mint_token_account_authority_pubkey_bump_seed: u8,
        temporary_any_mint_token_account_pubkey_bump_seed: u8,
        temporary_any_mint_token_account_authority_pubkey_bump_seed: u8,
    ) -> (r: Result<Invocation, ProgramFailure>)
        ensures
            r is Ok,
            r->Ok_0@ == (InvocationView {
                program_id: *program_id_pubkey,
                accounts: Instruction::sell_on_raydium_accounts(
                    *intermediary_trader_pubkey,
                    *intermediary_pubkey,
                    *w_sol_token_account_pubkey,
                    *any_mint_token_account_pubkey,
                    *any_mint_token_account_authority_pubkey,
                    *temporary_any_mint_token_account_pubkey,
                    *temporary_any_mint_token_account_authority_pubkey,
                    *any_mint_token_mint_account_pubkey,
                    *amm_programm_id_pubkey,
                    *amm_pool_pubkey,
                    *amm_authority_pubkey,
                    *amm_open_orders_pubkey,
                    *amm_coin_vault_pubkey,
                    *amm_pc_vault_pubkey,
                    *market_program_id_pubkey,
                    *market_pubkey,
                    *market_bids_pubkey,
                    *market_asks_pubkey,
                    *market_event_queue_pubkey,
                    *market_coin_vault_pubkey,
                    *market_pc_vault_pubkey,
                    *market_vault_signer_pubkey,
                ),
                data: (Instruction::SellOnRaydium {
                        input_token_amount,
                        minimum_output_token_amount,
                        any_mint_token_account_pubkey_bump_seed,
                        any_mint_token_account_authority_pubkey_bump_seed,
                        temporary_any_mint_token_account_pubkey_bump_seed,
                        temporary_any_mint_token_account_authority_pubkey_bump_seed,
                    }).encode_spec(),
            }),
    {
        let accounts = vec![
            AccountMeta::new(*intermediary_trader_pubkey, true),
            AccountMeta::new_readonly(*intermediary_pubkey, false),
            AccountMeta::new(*w_sol_token_account_pubkey, false),
            AccountMeta::new(*any_mint_token_account_pubkey, false),
            AccountMeta::new_readonly(*any_mint_token_account_authority_pubkey, false),
            AccountMeta::new(*temporary_any_mint_token_account_pubkey, false),
            AccountMeta::new_readonly(*temporary_any_mint_token_account_authority_pubkey, false),
            AccountMeta::new_readonly(*any_mint_token_mint_account_pubkey, false),
            AccountMeta::new_readonly(Address::system_program(), false),
            AccountMeta::new_readonly(Address::rent_sysvar(), false),
            AccountMeta::new_readonly(Address::token_program(), false),
            AccountMeta::new_readonly(*amm_programm_id_pubkey, false),
            AccountMeta::new(*amm_pool_pubkey, false),
            AccountMeta::new_readonly(*amm_authority_pubkey, false),
            AccountMeta::new(*amm_open_orders_pubkey, false),
            AccountMeta::new(*amm_coin_vault_pubkey, false),
            AccountMeta::new(*amm_pc_vault_pubkey, false),
            AccountMeta::new_readonly(*market_program_id_pubkey, false),
            AccountMeta::new(*market_pubkey, false),
            AccountMeta::new(*market_bids_pubkey, false),
            AccountMeta::new(*market_asks_pubkey, false),
            AccountMeta::new(*market_event_queue_pubkey, false),
            AccountMeta::new(*market_coin_vault_pubkey, false),
            AccountMeta::new(*market_pc_vault_pubkey, false),
            AccountMeta::new_readonly(*market_vault_signer_pubkey, false),
        ];
        let command = Instruction::SellOnRaydium {
            input_token_amount,
            minimum_output_token_amount,
            any_mint_token_account_pubkey_bump_seed,
            any_mint_token_account_authority_pubkey_bump_seed,
            temporary_any_mint_token_account_pubkey_bump_seed,
            temporary_any_mint_token_account_authority_pubkey_bump_seed,
        };
        Ok(Invocation { program_id: *program_id_pubkey, accounts, data: command.encode() })
    }

    /// The accounts that `BuyOnPumpswap` takes, in their order.
    pub open spec fn buy_on_pumpswap_accounts(
        intermediary_trader_pubkey: Address,
        intermediary_pubkey: Address,
        w_sol_token_account_pubkey: Address,
        w_sol_token_account_authority_pubkey: Address,
        temporary_w_sol_token_account_pubkey: Address,
        any_mint_token_account_pubkey: Address,
        any_mint_token_mint_account_pubkey: Address,
        pumpfan_program_id_pubkey: Address,
        pool_pubkey: Address,
        global_config_pubkey: Address,
        pool_base_token_account_pubkey: Address,
        pool_quote_token_account_pubkey: Address,
        protocol_fee_recipient_pubkey: Address,
        protocol_fee_recipient_token_account_pubkey: Address,
        base_token_program_pubkey: Address,
        quote_token_program_pubkey: Address,
        event_authority_pubkey: Address,
    ) -> Seq<AccountMeta> {
        seq![
            AccountMeta::writable(intermediary_trader_pubkey, true),
            AccountMeta::read_only(intermediary_pubkey, false),
            AccountMeta::writable(w_sol_token_account_pubkey, false),
            AccountMeta::read_only(w_sol_token_account_authority_pubkey, false),
            AccountMeta::writable(temporary_w_sol_token_account_pubkey, false),
            AccountMeta::writable(any_mint_token_account_pubkey, false),
            AccountMeta::read_only(native_mint_id(), false),
            AccountMeta::read_only(any_mint_token_mint_account_pubkey, false),
            AccountMeta::read_only(system_program_id(), false),
            AccountMeta::read_only(rent_sysvar_id(), false),
            AccountMeta::read_only(token_program_id(), false),
            AccountMeta::read_only(pumpfan_program_id_pubkey, false),
            AccountMeta::read_only(pool_pubkey, false),
            AccountMeta::read_only(global_config_pubkey, false),
            AccountMeta::writable(pool_base_token_account_pubkey, false),
            AccountMeta::writable(pool_quote_token_account_pubkey, false),
            AccountMeta::read_only(protocol_fee_recipient_pubkey, false),
            AccountMeta::writable(protocol_fee_recipient_token_account_pubkey, false),
            AccountMeta::read_only(base_token_program_pubkey, false),
            AccountMeta::read_only(quote_token_program_pubkey, false),
            AccountMeta::read_only(associated_token_account_program_id(), false),
            AccountMeta::read_only(event_authority_pubkey, false),
        ]
    }

    /// The `BuyOnPumpswap` command as a call to the program at `program_id_pubkey`.
    pub fn buy_on_pumpswap(
        program_id_pubkey: &Address,
        intermediary_trader_pubkey: &Address,
        intermediary_pubkey: &Address,
        w_sol_token_account_pubkey: &Address,
        w_sol_token_account_authority_pubkey: &Address,
        temporary_w_sol_token_account_pubkey: &Address,
        any_mint_token_account_pubkey: &Address,
        any_mint_token_mint_account_pubkey: &Address,
        pumpfan_program_id_pubkey: &Address,
        pool_pubkey: &Address,
        global_config_pubkey: &Address,
        pool_base_token_account_pubkey: &Address,
        pool_quote_token_account_pubkey: &Address,
        protocol_fee_recipient_pubkey: &Address,
        protocol_fee_recipient_token_account_pubkey: &Address,
        base_token_program_pubkey: &Address,
        quote_token_program_pubkey: &Address,
        event_authority_pubkey: &Address,
        base_amount_out: u64,
        maximum_quote_amount_in: u64,
        any_mint_token_account_pubkey_bump_seed: u8,
    ) -> (r: Result<Invocation, ProgramFailure>)
        ensures
            r is Ok,
            r->Ok_0@ == (InvocationView {
                program_id: *program_id_pubkey,
                accounts: Instruction::buy_on_pumpswap_accounts(
                    *intermediary_trader_pubkey,
                    *intermediary_pubkey,
                    *w_sol_token_account_pubkey,
                    *w_sol_token_account_authority_pubkey,
                    *temporary_w_sol_token_account_pubkey,
                    *any_mint_token_account_pubkey,
                    *any_mint_token_mint_account_pubkey,
                    *pumpfan_program_id_pubkey,
                    *pool_pubkey,
                    *global_config_pubkey,
                    *pool_base_token_account_pubkey,
                    *pool_quote_token_account_pubkey,
                    *protocol_fee_recipient_pubkey,
                    *protocol_fee_recipient_token_account_pubkey,
                    *base_token_program_pubkey,
                    *quote_token_program_pubkey,
                    *event_authority_pubkey,
                ),
                data: (Instruction::BuyOnPumpswap {
                        base_amount_out,
                        maximum_quote_amount_in,
                        any_mint_token_account_pubkey_bump_seed,
                    }).encode_spec(),
            }),
    {
        let accounts = vec![
            AccountMeta::new(*intermediary_trader_pubkey, true),
            AccountMeta::new_readonly(*intermediary_pubkey, false),
            AccountMeta::new(*w_sol_token_account_pubkey, false),
            AccountMeta::new_readonly(*w_sol_token_account_authority_pubkey, false),
            AccountMeta::new(*temporary_w_sol_token_account_pubkey, false),
            AccountMeta::new(*any_mint_token_account_pubkey, false),
            AccountMeta::new_readonly(Address::native_mint(), false),
            AccountMeta::new_readonly(*any_mint_token_mint_account_pubkey, false),
            AccountMeta::new_readonly(Address::system_program(), false),
            AccountMeta::new_readonly(Address::rent_sysvar(), false),
            AccountMeta::new_readonly(Address::token_program(), false),
            AccountMeta::new_readonly(*pumpfan_program_id_pubkey, false),
            AccountMeta::new_readonly(*pool_pubkey, false),
            AccountMeta::new_readonly(*global_config_pubkey, false),
            AccountMeta::new(*pool_base_token_account_pubkey, false),
            AccountMeta::new(*pool_quote_token_account_pubkey, false),
            AccountMeta::new_readonly(*protocol_fee_recipient_pubkey, false),
            AccountMeta::new(*protocol_fee_recipient_token_account_pubkey, false),
            AccountMeta::new_readonly(*base_token_program_pubkey, false),
            AccountMeta::new_readonly(*quote_token_program_pubkey, false),
            AccountMeta::new_readonly(Address::associated_token_account_program(), false),
            AccountMeta::new_readonly(*event_authority_pubkey, false),
        ];
        let command = Instruction::BuyOnPumpswap {
            base_amount_out,
            maximum_quote_amount_in,
            any_mint_token_account_pubkey_bump_seed,
        };
        Ok(Invocation { program_id: *program_id_pubkey, accounts, data: command.encode() })
    }

    /// The accounts that `SellOnPumpswap` takes, in their order.
    pub open spec fn sell_on_pumpswap_accounts(
        intermediary_trader_pubkey: Address,
        intermediary_pubkey: Address,
        w_sol_token_account_pubkey: Address,
        temporary_w_sol_token_account_pubkey: Address,
        any_mint_token_account_pubkey: Address,
        temporary_any_mint_token_account_pubkey: Address,
        any_mint_token_mint_account_pubkey: Address,
        pumpfan_program_id_pubkey: Address,
        pool_pubkey: Address,
        global_config_pubkey: Address,
        pool_base_token_account_pubkey: Address,
        pool_quote_token_account_pubkey: Address,
        protocol_fee_recipient_pubkey: Address,
        protocol_fee_recipient_token_account_pubkey: Address,
        base_token_program_pubkey: Address,
        quote_token_program_pubkey: Address,
        event_authority_pubkey: Address,
    ) -> Seq<AccountMeta> {
        seq![
            AccountMeta::writable(intermediary_trader_pubkey, true),
            AccountMeta::read_only(intermediary_pubkey, false),
            AccountMeta::writable(w_sol_token_account_pubkey, false),
            AccountMeta::writable(temporary_w_sol_token_account_pubkey, false),
            AccountMeta::writable(any_mint_token_account_pubkey, false),
            AccountMeta::writable(temporary_any_mint_token_account_pubkey, false),
            AccountMeta::read_only(native_mint_id(), false),
            AccountMeta::read_only(any_mint_token_mint_account_pubkey, false),
            AccountMeta::read_only(system_program_id(), false),
            AccountMeta::read_only(rent_sysvar_id(), false),
            AccountMeta::read_only(token_program_id(), false),
            AccountMeta::read_only(pumpfan_program_id_pubkey, false),
            AccountMeta::read_only(pool_pubkey, false),
            AccountMeta::read_only(global_config_pubkey, false),
            AccountMeta::writable(pool_base_token_account_pubkey, false),
            AccountMeta::writable(pool_quote_token_account_pubkey, false),
            AccountMeta::read_only(protocol_fee_recipient_pubkey, false),
            AccountMeta::writable(protocol_fee_recipient_token_account_pubkey, false),
            AccountMeta::read_only(base_token_program_pubkey, false),
            AccountMeta::read_only(quote_token_program_pubkey, false),
            AccountMeta::read_only(associated_token_account_program_id(), false),
            AccountMeta::read_only(event_authority_pubkey, false),
        ]
    }

    /// The `SellOnPumpswap` command as a call to the program at `program_id_pubkey`.
    pub fn sell_on_pumpswap(
        program_id_pubkey: &Address,
        intermediary_trader_pubkey: &Address,
        intermediary_pubkey: &Address,
        w_sol_token_account_pubkey: &Address,
        temporary_w_sol_token_account_pubkey: &Address,
        any_mint_token_account_pubkey: &Address,
        temporary_any_mint_token_account_pubkey: &Address,
        any_mint_token_mint_account_pubkey: &Address,
        pumpfan_program_id_pubkey: &Address,
        pool_pubkey: &Address,
        global_config_pubkey: &Address,
        pool_base_token_account_pubkey: &Address,
        pool_quote_token_account_pubkey: &Address,
        protocol_fee_recipient_pubkey: &Address,
        protocol_fee_recipient_token_account_pubkey: &Address,
        base_token_program_pubkey: &Address,
        quote_token_program_pubkey: &Address,
        event_authority_pubkey: &Address,
        input_token_amount: u64,
        minimum_output_token_amount: Option<u64>,
        any_mint_token_account_pubkey_bump_seed: u8,
        temporary_any_mint_token_account_pubkey_bump_seed: u8,
    ) -> (r: Result<Invocation, ProgramFailure>)
        ensures
            r is Ok,
            r->Ok_0@ == (InvocationView {
                program_id: *program_id_pubkey,
                accounts: Instruction::sell_on_pumpswap_accounts(
                    *intermediary_trader_pubkey,
                    *intermediary_pubkey,
                    *w_sol_token_account_pubkey,
                    *temporary_w_sol_token_account_pubkey,
                    *any_mint_token_account_pubkey,
                    *temporary_any_mint_token_account_pubkey,
                    *any_mint_token_mint_account_pubkey,
                    *pumpfan_program_id_pubkey,
                    *pool_pubkey,
                    *global_config_pubkey,
                    *pool_base_token_account_pubkey,
                    *pool_quote_token_account_pubkey,
                    *protocol_fee_recipient_pubkey,
                    *protocol_fee_recipient_token_account_pubkey,
                    *base_token_program_pubkey,
                    *quote_token_program_pubkey,
                    *event_authority_pubkey,
                ),
                data: (Instruction::SellOnPumpswap {
                        input_token_amount,
                        minimum_output_token_amount,
                        any_mint_token_account_pubkey_bump_seed,
                        temporary_any_mint_token_account_pubkey_bump_seed,
                    }).encode_spec(),
            }),
    {
        let accounts = vec![
            AccountMeta::new(*intermediary_trader_pubkey, true),
            AccountMeta::new_readonly(*intermediary_pubkey, false),
            AccountMeta::new(*w_sol_token_account_pubkey, false),
            AccountMeta::new(*temporary_w_sol_token_account_pubkey, false),
            AccountMeta::new(*any_mint_token_account_pubkey, false),
            AccountMeta::new(*temporary_any_mint_token_account_pubkey, false),
            AccountMeta::new_readonly(Address::native_mint(), false),
            AccountMeta::new_readonly(*any_mint_token_mint_account_pubkey, false),
            AccountMeta::new_readonly(Address::system_program(), false),
            AccountMeta::new_readonly(Address::rent_sysvar(), false),
            AccountMeta::new_readonly(Address::token_program(), false),
            AccountMeta::new_readonly(*pumpfan_program_id_pubkey, false),
            AccountMeta::new_readonly(*pool_pubkey, false),
            AccountMeta::new_readonly(*global_config_pubkey, false),
            AccountMeta::new(*pool_base_token_account_pubkey, false),
            AccountMeta::new(*pool_quote_token_account_pubkey, false),
            AccountMeta::new_readonly(*protocol_fee_recipient_pubkey, false),
            AccountMeta::new(*protocol_fee_recipient_token_account_pubkey, false),
            AccountMeta::new_readonly(*base_token_program_pubkey, false),
            AccountMeta::new_readonly(*quote_token_program_pubkey, false),
            AccountMeta::new_readonly(Address::associated_token_account_program(), false),
            AccountMeta::new_readonly(*event_authority_pubkey, false),
        ];
        let command = Instruction::SellOnPumpswap {
            input_token_amount,
            minimum_output_token_amount,
            any_mint_token_account_pubkey_bump_seed,
            temporary_any_mint_token_account_pubkey_bump_seed,
        };
        Ok(Invocation { program_id: *program_id_pubkey, accounts, data: command.encode() })
    }

    /// The accounts that `ChangeManager` takes, in their order.
    pub open spec fn change_manager_accounts(
        intermediary_investor_pubkey: Address,
        intermediary_pubkey: Address,
        intermediary_manager_pubkey: Address,
    ) -> Seq<AccountMeta> {
        seq![
            AccountMeta::read_only(intermediary_investor_pubkey, true),
            AccountMeta::writable(intermediary_pubkey, false),
            AccountMeta::read_only(intermediary_manager_pubkey, false),
            AccountMeta::read_only(system_program_id(), false),
        ]
    }

    /// The `ChangeManager` command as a call to the program at `program_id_pubkey`.
    pub fn change_manager(
        program_id_pubkey: &Address,
        intermediary_investor_pubkey: &Address,
        intermediary_pubkey: &Address,
        intermediary_manager_pubkey: &Address,
    ) -> (r: Result<Invocation, ProgramFailure>)
        ensures
            r is Ok,
            r->Ok_0@ == (InvocationView {
                program_id: *program_id_pubkey,
                accounts: Instruction::change_manager_accounts(
                    *intermediary_investor_pubkey,
                    *intermediary_pubkey,
                    *intermediary_manager_pubkey,
                ),
                data: Instruction::ChangeManager.encode_spec(),
            }),
    {
        let accounts = vec![
            AccountMeta::new_readonly(*intermediary_investor_pubkey, true),
            AccountMeta::new(*intermediary_pubkey, false),
            AccountMeta::new_readonly(*intermediary_manager_pubkey, false),
            AccountMeta::new_readonly(Address::system_program(), false),
        ];
        let command = Instruction::ChangeManager;
        Ok(Invocation { program_id: *program_id_pubkey, accounts, data: command.encode() })
    }

    /// The accounts that `ChangeTrader` takes, in their order.
    pub open spec fn change_trader_accounts(
        intermediary_manager: Address,
        intermediary_pubkey: Address,
        intermediary_trader_pubkey: Address,
    ) -> Seq<AccountMeta> {
        seq![
            AccountMeta::read_only(intermediary_manager, true),
            AccountMeta::writable(intermediary_pubkey, false),
            AccountMeta::read_only(intermediary_trader_pubkey, false),
            AccountMeta::read_only(system_program_id(), false),
        ]
    }

    /// The `ChangeTrader` command as a call to the program at `program_id_pubkey`.
    pub fn change_trader(
        program_id_pubkey: &Address,
        intermediary_manager: &Address,
        intermediary_pubkey: &Address,
        intermediary_trader_pubkey: &Address,
    ) -> (r: Result<Invocation, ProgramFailure>)
        ensures
            r is Ok,
            r->Ok_0@ == (InvocationView {
                program_id: *program_id_pubkey,
                accounts: Instruction::change_trader_accounts(
                    *intermediary_manager,
                    *intermediary_pubkey,
                    *intermediary_trader_pubkey,
                ),
                data: Instruction::ChangeTrader.encode_spec(),
            }),
    {
        let accounts = vec![
            AccountMeta::new_readonly(*intermediary_manager, true),
            AccountMeta::new(*intermediary_pubkey, false),
            AccountMeta::new_readonly(*intermediary_trader_pubkey, false),
            AccountMeta::new_readonly(Address::system_program(), false),
        ];
        let command = Instruction::ChangeTrader;
        Ok(Invocation { program_id: *program_id_pubkey, accounts, data: command.encode() })
    }
}

} // verus!
