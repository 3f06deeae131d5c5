pub mod error;
pub mod key;
pub mod pool_math;
pub mod states;
pub mod instructions;
pub mod spl_token_utils;
