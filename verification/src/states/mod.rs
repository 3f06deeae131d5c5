pub mod global_state;
pub mod investor_pool_info;
pub mod swap_pool;
pub mod token_account;

pub use global_state::GlobalState;
pub use investor_pool_info::InvestorPoolInfo;
pub use swap_pool::SwapPool;
pub use token_account::TokenAccountState;
