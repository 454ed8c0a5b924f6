pub mod buy_on_pumpswap;
pub mod buy_on_raydium;
pub mod command;
pub mod deposit_funds;
pub mod initialize;
pub mod plan;
pub mod pumpswap;
pub mod roles;
pub mod sell_on_pumpswap;
pub mod sell_on_raydium;
pub mod withdraw_funds;
