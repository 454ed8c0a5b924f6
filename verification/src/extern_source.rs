use crate::address::{
    associated_token_account_program_id, system_program_id, token_program_id, Address,
};
use crate::bytes::put_u64;
use crate::message::{AccountMeta, Invocation, InvocationView};
use vstd::bytes::spec_u64_to_le_bytes;
use vstd::prelude::*;

verus! {

/// The payload of a swap of a fixed input on the first exchange: the byte 9 and
/// the two amounts, each in eight bytes with the low byte first.
pub open spec fn raydium_swap_base_in_pack_spec(amount_in: u64, minimum_amount_out: u64) -> Seq<
    u8,
> {
    seq![9u8] + spec_u64_to_le_bytes(amount_in) + spec_u64_to_le_bytes(minimum_amount_out)
}

pub fn raydium_swap_base_in_pack(amount_in: u64, minimum_amount_out: u64) -> (r: Vec<u8>)
    ensures
        r@ == raydium_swap_base_in_pack_spec(amount_in, minimum_amount_out),
        r@.len() == 17,
{
    let mut buffer: Vec<u8> = Vec::with_capacity(17);
    buffer.push(9);
    put_u64(&mut buffer, amount_in);
    put_u64(&mut buffer, minimum_amount_out);
    proof {
        crate::bytes::lemma_u64_bytes(amount_in, seq![]);
        crate::bytes::lemma_u64_bytes(minimum_amount_out, seq![]);
    }
    buffer
}

/// The eight bytes by which the second exchange knows a purchase.
pub open spec fn pumpswap_buy_discriminator() -> Seq<u8> {
    seq![102u8, 6u8, 61u8, 18u8, 1u8, 218u8, 235u8, 234u8]
}

/// The eight bytes by which the second exchange knows a sale.
pub open spec fn pumpswap_sell_discriminator() -> Seq<u8> {
    seq![51u8, 230u8, 133u8, 164u8, 1u8, 127u8, 131u8, 173u8]
}

/// The payload of a call to the second exchange: the discriminator and the two
/// amounts, each in eight bytes with the low byte first.
pub open spec fn pumpswap_pack_spec(discriminator: Seq<u8>, first: u64, second: u64) -> Seq<u8> {
    discriminator + spec_u64_to_le_bytes(first) + spec_u64_to_le_bytes(second)
}

fn pumpswap_pack(buy: bool, first: u64, second: u64) -> (r: Vec<u8>)
    ensures
        r@ == pumpswap_pack_spec(
            if buy {
                pumpswap_buy_discriminator()
            } else {
                pumpswap_sell_discriminator()
            },
            first,
            second,
        ),
{
    let mut data: Vec<u8> = if buy {
        vec![102, 6, 61, 18, 1, 218, 235, 234]
    } else {
        vec![51, 230, 133, 164, 1, 127, 131, 173]
    };
    assert(data@ =~= if buy {
        pumpswap_buy_discriminator()
    } else {
        pumpswap_sell_discriminator()
    });
    put_u64(&mut data, first);
    put_u64(&mut data, second);
    data
}

/// The accounts of a swap on the first exchange, in the order it takes them.
pub open spec fn raydium_swap_accounts(
    amm_program: Address,
    amm_pool: Address,
    amm_authority: Address,
    amm_open_orders: Address,
    amm_coin_vault: Address,
    amm_pc_vault: Address,
    market_program: Address,
    market: Address,
    market_bids: Address,
    market_asks: Address,
    market_event_queue: Address,
    market_coin_vault: Address,
    market_pc_vault: Address,
    market_vault_signer: Address,
    user_token_source: Address,
    user_token_destination: Address,
    user_source_owner: Address,
) -> Seq<AccountMeta> {
    seq![
        AccountMeta::read_only(token_program_id(), false),
        AccountMeta::writable(amm_pool, false),
        AccountMeta::read_only(amm_authority, false),
        AccountMeta::writable(amm_open_orders, false),
        AccountMeta::writable(amm_coin_vault, false),
        AccountMeta::writable(amm_pc_vault, false),
        AccountMeta::read_only(market_program, false),
        AccountMeta::writable(market, false),
        AccountMeta::writable(market_bids, false),
        AccountMeta::writable(market_asks, false),
        AccountMeta::writable(market_event_queue, false),
        AccountMeta::writable(market_coin_vault, false),
        AccountMeta::writable(market_pc_vault, false),
        AccountMeta::read_only(market_vault_signer, false),
        AccountMeta::writable(user_token_source, false),
        AccountMeta::writable(user_token_destination, false),
        AccountMeta::read_only(user_source_owner, true),
    ]
}

/// The swap on the first exchange as a call.
pub open spec fn raydium_swap_call(
    amm_program: Address,
    amm_pool: Address,
    amm_authority: Address,
    amm_open_orders: Address,
    amm_coin_vault: Address,
    amm_pc_vault: Address,
    market_program: Address,
    market: Address,
    market_bids: Address,
    market_asks: Address,
    market_event_queue: Address,
    market_coin_vault: Address,
    market_pc_vault: Address,
    market_vault_signer: Address,
    user_token_source: Address,
    user_token_destination: Address,
    user_source_owner: Address,
    amount_in: u64,
    minimum_amount_out: u64,
) -> InvocationView {
    InvocationView {
        program_id: amm_program,
        accounts: raydium_swap_accounts(
            amm_program,
            amm_pool,
            amm_authority,
            amm_open_orders,
            amm_coin_vault,
            amm_pc_vault,
            market_program,
            market,
            market_bids,
            market_asks,
            market_event_queue,
            market_coin_vault,
            market_pc_vault,
            market_vault_signer,
            user_token_source,
            user_token_destination,
            user_source_owner,
        ),
        data: raydium_swap_base_in_pack_spec(amount_in, minimum_amount_out),
    }
}

/// The call that swaps `amount_in` tokens of `user_token_source` into
/// `user_token_destination` on the pool `amm_pool`, for no less than
/// `minimum_amount_out`, by the will of `user_source_owner`.
pub fn create_raydium_swap_base_in_instruction(
    amm_program: &Address,
    amm_pool: &Address,
    amm_authority: &Address,
    amm_open_orders: &Address,
    amm_coin_vault: &Address,
    amm_pc_vault: &Address,
    market_program: &Address,
    market: &Address,
    market_bids: &Address,
    market_asks: &Address,
    market_event_queue: &Address,
    market_coin_vault: &Address,
    market_pc_vault: &Address,
    market_vault_signer: &Address,
    user_token_source: &Address,
    user_token_destination: &Address,
    user_source_owner: &Address,
    amount_in: u64,
    minimum_amount_out: u64,
) -> (r: Invocation)
    ensures
        r@ == raydium_swap_call(
            *amm_program,
            *amm_pool,
            *amm_authority,
            *amm_open_orders,
            *amm_coin_vault,
            *amm_pc_vault,
            *market_program,
            *market,
            *market_bids,
            *market_asks,
            *market_event_queue,
            *market_coin_vault,
            *market_pc_vault,
            *market_vault_signer,
            *user_token_source,
            *user_token_destination,
            *user_source_owner,
            amount_in,
            minimum_amount_out,
        ),
{
    let accounts = vec![
        AccountMeta::new_readonly(Address::token_program(), false),
        AccountMeta::new(*amm_pool, false),
        AccountMeta::new_readonly(*amm_authority, false),
        AccountMeta::new(*amm_open_orders, false),
        AccountMeta::new(*amm_coin_vault, false),
        AccountMeta::new(*amm_pc_vault, false),
        AccountMeta::new_readonly(*market_program, false),
        AccountMeta::new(*market, false),
        AccountMeta::new(*market_bids, false),
        AccountMeta::new(*market_asks, false),
        AccountMeta::new(*market_event_queue, false),
        AccountMeta::new(*market_coin_vault, false),
        AccountMeta::new(*market_pc_vault, false),
        AccountMeta::new_readonly(*market_vault_signer, false),
        AccountMeta::new(*user_token_source, false),
        AccountMeta::new(*user_token_destination, false),
        AccountMeta::new_readonly(*user_source_owner, true),
    ];
    Invocation {
        program_id: *amm_program,
        accounts,
        data: raydium_swap_base_in_pack(amount_in, minimum_amount_out),
    }
}

/// The accounts of a purchase or a sale on the second exchange, in the order it
/// takes them.
pub open spec fn pumpswap_accounts(
    program_id: Address,
    pool: Address,
    user: Address,
    global_config: Address,
    base_mint: Address,
    quote_mint: Address,
    user_base_token_account: Address,
    user_quote_token_account: Address,
    pool_base_token_account: Address,
    pool_quote_token_account: Address,
    protocol_fee_recipient: Address,
    protocol_fee_recipient_token_account: Address,
    base_token_program: Address,
    quote_token_program: Address,
    event_authority: Address,
) -> Seq<AccountMeta> {
    seq![
        AccountMeta::read_only(pool, false),
        AccountMeta::writable(user, true),
        AccountMeta::read_only(global_config, false),
        AccountMeta::read_only(base_mint, false),
        AccountMeta::read_only(quote_mint, false),
        AccountMeta::writable(user_base_token_account, false),
        AccountMeta::writable(user_quote_token_account, false),
        AccountMeta::writable(pool_base_token_account, false),
        AccountMeta::writable(pool_quote_token_account, false),
        AccountMeta::read_only(protocol_fee_recipient, false),
        AccountMeta::writable(protocol_fee_recipient_token_account, false),
        AccountMeta::read_only(base_token_program, false),
        AccountMeta::read_only(quote_token_program, false),
        AccountMeta::read_only(system_program_id(), false),
        AccountMeta::read_only(associated_token_account_program_id(), false),
        AccountMeta::read_only(event_authority, false),
        AccountMeta::read_only(program_id, false),
    ]
}

/// The purchase on the second exchange as a call.
pub open spec fn pumpswap_buy_call(
    program_id: Address,
    pool: Address,
    user: Address,
    global_config: Address,
    base_mint: Address,
    quote_mint: Address,
    user_base_token_account: Address,
    user_quote_token_account: Address,
    pool_base_token_account: Address,
    pool_quote_token_account: Address,
    protocol_fee_recipient: Address,
    protocol_fee_recipient_token_account: Address,
    base_token_program: Address,
    quote_token_program: Address,
    event_authority: Address,
    base_amount_out: u64,
    maximum_quote_amount_in: u64,
) -> InvocationView {
    InvocationView {
        program_id: program_id,
        accounts: pumpswap_accounts(
            program_id,
            pool,
            user,
            global_config,
            base_mint,
            quote_mint,
            user_base_token_account,
            user_quote_token_account,
            pool_base_token_account,
            pool_quote_token_account,
            protocol_fee_recipient,
            protocol_fee_recipient_token_account,
            base_token_program,
            quote_token_program,
            event_authority,
        ),
        data: pumpswap_pack_spec(
            pumpswap_buy_discriminator(),
            base_amount_out,
            maximum_quote_amount_in,
        ),
    }
}

/// The sale on the second exchange as a call.
pub open spec fn pumpswap_sell_call(
    program_id: Address,
    pool: Address,
    user: Address,
    global_config: Address,
    base_mint: Address,
    quote_mint: Address,
    user_base_token_account: Address,
    user_quote_token_account: Address,
    pool_base_token_account: Address,
    pool_quote_token_account: Address,
    protocol_fee_recipient: Address,
    protocol_fee_recipient_token_account: Address,
    base_token_program: Address,
    quote_token_program: Address,
    event_authority: Address,
    base_amount_in: u64,
    min_quote_amount_out: u64,
) -> InvocationView {
    InvocationView {
        program_id: program_id,
        accounts: pumpswap_accounts(
            program_id,
            pool,
            user,
            global_config,
            base_mint,
            quote_mint,
            user_base_token_account,
            user_quote_token_account,
            pool_base_token_account,
            pool_quote_token_account,
            protocol_fee_recipient,
            protocol_fee_recipient_token_account,
            base_token_program,
            quote_token_program,
            event_authority,
        ),
        data: pumpswap_pack_spec(
            pumpswap_sell_discriminator(),
            base_amount_in,
            min_quote_amount_out,
        ),
    }
}

/// The call that buys `base_amount_out` base tokens from `pool` into
/// `user_base_token_account`, for no more than `maximum_quote_amount_in` quote
/// tokens of `user_quote_token_account`, by the will of `user`.
pub fn create_pumpswap_buy_instruction(
    program_id: &Address,
    pool: &Address,
    user: &Address,
    global_config: &Address,
    base_mint: &Address,
    quote_mint: &Address,
    user_base_token_account: &Address,
    user_quote_token_account: &Address,
    pool_base_token_account: &Address,
    pool_quote_token_account: &Address,
    protocol_fee_recipient: &Address,
    protocol_fee_recipient_token_account: &Address,
    base_token_program: &Address,
    quote_token_program: &Address,
    event_authority: &Address,
    base_amount_out: u64,
    maximum_quote_amount_in: u64,
) -> (r: Invocation)
    ensures
        r@ == pumpswap_buy_call(
            *program_id,
            *pool,
            *user,
            *global_config,
            *base_mint,
            *quote_mint,
            *user_base_token_account,
            *user_quote_token_account,
            *pool_base_token_account,
            *pool_quote_token_account,
            *protocol_fee_recipient,
            *protocol_fee_recipient_token_account,
            *base_token_program,
            *quote_token_program,
            *event_authority,
            base_amount_out,
            maximum_quote_amount_in,
        ),
{
    let accounts = vec![
        AccountMeta::new_readonly(*pool, false),
        AccountMeta::new(*user, true),
        AccountMeta::new_readonly(*global_config, false),
        AccountMeta::new_readonly(*base_mint, false),
        AccountMeta::new_readonly(*quote_mint, false),
        AccountMeta::new(*user_base_token_account, false),
        AccountMeta::new(*user_quote_token_account, false),
        AccountMeta::new(*pool_base_token_account, false),
        AccountMeta::new(*pool_quote_token_account, false),
        AccountMeta::new_readonly(*protocol_fee_recipient, false),
        AccountMeta::new(*protocol_fee_recipient_token_account, false),
        AccountMeta::new_readonly(*base_token_program, false),
        AccountMeta::new_readonly(*quote_token_program, false),
        AccountMeta::new_readonly(Address::system_program(), false),
        AccountMeta::new_readonly(Address::associated_token_account_program(), false),
        AccountMeta::new_readonly(*event_authority, false),
        AccountMeta::new_readonly(*program_id, false),
    ];
    Invocation {
        program_id: *program_id,
        accounts,
        data: pumpswap_pack(true, base_amount_out, maximum_quote_amount_in),
    }
}

/// The call that sells `base_amount_in` base tokens of `user_base_token_account`
/// to `pool`, for no less than `min_quote_amount_out` quote tokens into
/// `user_quote_token_account`, by the will of `user`.
pub fn create_pumpswap_sell_instruction(
    program_id: &Address,
    pool: &Address,
    user: &Address,
    global_config: &Address,
    base_mint: &Address,
    quote_mint: &Address,
    user_base_token_account: &Address,
    user_quote_token_account: &Address,
    pool_base_token_account: &Address,
    pool_quote_token_account: &Address,
    protocol_fee_recipient: &Address,
    protocol_fee_recipient_token_account: &Address,
    base_token_program: &Address,
    quote_token_program: &Address,
    event_authority: &Address,
    base_amount_in: u64,
    min_quote_amount_out: u64,
) -> (r: Invocation)
    ensures
        r@ == pumpswap_sell_call(
            *program_id,
            *pool,
            *user,
            *global_config,
            *base_mint,
            *quote_mint,
            *user_base_token_account,
            *user_quote_token_account,
            *pool_base_token_account,
            *pool_quote_token_account,
            *protocol_fee_recipient,
            *protocol_fee_recipient_token_account,
            *base_token_program,
            *quote_token_program,
            *event_authority,
            base_amount_in,
            min_quote_amount_out,
        ),
{
    let accounts = vec![
        AccountMeta::new_readonly(*pool, false),
        AccountMeta::new(*user, true),
        AccountMeta::new_readonly(*global_config, false),
        AccountMeta::new_readonly(*base_mint, false),
        AccountMeta::new_readonly(*quote_mint, false),
        AccountMeta::new(*user_base_token_account, false),
        AccountMeta::new(*user_quote_token_account, false),
        AccountMeta::new(*pool_base_token_account, false),
        AccountMeta::new(*pool_quote_token_account, false),
        AccountMeta::new_readonly(*protocol_fee_recipient, false),
        AccountMeta::new(*protocol_fee_recipient_token_account, false),
        AccountMeta::new_readonly(*base_token_program, false),
        AccountMeta::new_readonly(*quote_token_program, false),
        AccountMeta::new_readonly(Address::system_program(), false),
        AccountMeta::new_readonly(Address::associated_token_account_program(), false),
        AccountMeta::new_readonly(*event_authority, false),
        AccountMeta::new_readonly(*program_id, false),
    ];
    Invocation {
        program_id: *program_id,
        accounts,
        data: pumpswap_pack(false, base_amount_in, min_quote_amount_out),
    }
}

} // verus!
