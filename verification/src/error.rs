use vstd::prelude::*;

verus! {

/// The first error number of program-specific errors; each variant's number
/// is this offset plus its position in the declaration.
pub const ERROR_CODE_OFFSET: u32 = 6000;

/// Every way in which an instruction of the program can refuse a request.
#[derive(Clone, Copy, Debug, PartialEq, Eq, Structural)]
pub enum SwapverseError {
    UnauthorizedSigner,
    InvalidTokenMint,
    SameTokenMints,
    InitialAmountsNotSame,
    SwapPoolNotOpenForInvestment,
    SwapPoolNotOpenForWithdrawal,
    InsufficientAmount,
    DepositAmountIsZero,
    WithdrawAmountIsZero,
    InvalidPoolTokenMint,
    InvalidPoolShareTokenMint,
    InvalidInvestorTokenAccountOwner,
    InvalidInvestorTokenAccountMint,
    SwapPoolNotActivated,
    NotEnoughTokens,
    TokenAmountLimitExceeded,
    NotEnoughOutput,
}

/// The position of a variant in the declaration of `SwapverseError`.
pub open spec fn error_index(e: SwapverseError) -> nat {
    match e {
        SwapverseError::UnauthorizedSigner => 0,
        SwapverseError::InvalidTokenMint => 1,
        SwapverseError::SameTokenMints => 2,
        SwapverseError::InitialAmountsNotSame => 3,
        SwapverseError::SwapPoolNotOpenForInvestment => 4,
        SwapverseError::SwapPoolNotOpenForWithdrawal => 5,
        SwapverseError::InsufficientAmount => 6,
        SwapverseError::DepositAmountIsZero => 7,
        SwapverseError::WithdrawAmountIsZero => 8,
        SwapverseError::InvalidPoolTokenMint => 9,
        SwapverseError::InvalidPoolShareTokenMint => 10,
        SwapverseError::InvalidInvestorTokenAccountOwner => 11,
        SwapverseError::InvalidInvestorTokenAccountMint => 12,
        SwapverseError::SwapPoolNotActivated => 13,
        SwapverseError::NotEnoughTokens => 14,
        SwapverseError::TokenAmountLimitExceeded => 15,
        SwapverseError::NotEnoughOutput => 16,
    }
}

/// The text that explains each error to a user.
pub open spec fn error_message(e: SwapverseError) -> Seq<char> {
    match e {
        SwapverseError::UnauthorizedSigner => "User not authorized to use this instruction"@,
        SwapverseError::InvalidTokenMint => "Token mint should be one of the defined stable coin mints"@,
        SwapverseError::SameTokenMints => "Token a mint and token b mint can not be same"@,
        SwapverseError::InitialAmountsNotSame => "Initial amount a and initial amount b should be same"@,
        SwapverseError::SwapPoolNotOpenForInvestment => "Swap pool not open for investments"@,
        SwapverseError::SwapPoolNotOpenForWithdrawal => "Swap pool not open for withdrawals"@,
        SwapverseError::InsufficientAmount => "Amount should be greater than minimum investment amount of pool"@,
        SwapverseError::DepositAmountIsZero => "Deposit amount is zero"@,
        SwapverseError::WithdrawAmountIsZero => "Withdraw amount is zero"@,
        SwapverseError::InvalidPoolTokenMint => "Token should be one of the tokens specified in the pool"@,
        SwapverseError::InvalidPoolShareTokenMint => "Token should be one of the pool share tokens specified in the pool"@,
        SwapverseError::InvalidInvestorTokenAccountOwner => "Investor should be the owner of investor token account"@,
        SwapverseError::InvalidInvestorTokenAccountMint => "Investor token account mint should be same as the token mint"@,
        SwapverseError::SwapPoolNotActivated => "Swap pool not activated for swapping"@,
        SwapverseError::NotEnoughTokens => "Not enough tokens"@,
        SwapverseError::TokenAmountLimitExceeded => "Maximum 10_000_000 tokens can be minted at once"@,
        SwapverseError::NotEnoughOutput => "The output is not enough as asked by user"@,
    }
}

impl SwapverseError {
    /// The error number that the program reports for this error.
    pub fn code(&self) -> (r: u32)
        ensures
            r == ERROR_CODE_OFFSET + error_index(*self),
    {
        let index: u32 = match self {
            SwapverseError::UnauthorizedSigner => 0,
            SwapverseError::InvalidTokenMint => 1,
            SwapverseError::SameTokenMints => 2,
            SwapverseError::InitialAmountsNotSame => 3,
            SwapverseError::SwapPoolNotOpenForInvestment => 4,
            SwapverseError::SwapPoolNotOpenForWithdrawal => 5,
            SwapverseError::InsufficientAmount => 6,
            SwapverseError::DepositAmountIsZero => 7,
            SwapverseError::WithdrawAmountIsZero => 8,
            SwapverseError::InvalidPoolTokenMint => 9,
            SwapverseError::InvalidPoolShareTokenMint => 10,
            SwapverseError::InvalidInvestorTokenAccountOwner => 11,
            SwapverseError::InvalidInvestorTokenAccountMint => 12,
            SwapverseError::SwapPoolNotActivated => 13,
            SwapverseError::NotEnoughTokens => 14,
            SwapverseError::TokenAmountLimitExceeded => 15,
            SwapverseError::NotEnoughOutput => 16,
        };
        ERROR_CODE_OFFSET + index
    }

    /// The text that explains this error to a user.
    pub fn message(&self) -> (r: &'static str)
        ensures
            r@ == error_message(*self),
    {
        match self {
            SwapverseError::UnauthorizedSigner => "User not authorized to use this instruction",
            SwapverseError::InvalidTokenMint => "Token mint should be one of the defined stable coin mints",
            SwapverseError::SameTokenMints => "Token a mint and token b mint can not be same",
            SwapverseError::InitialAmountsNotSame => "Initial amount a and initial amount b should be same",
            SwapverseError::SwapPoolNotOpenForInvestment => "Swap pool not open for investments",
            SwapverseError::SwapPoolNotOpenForWithdrawal => "Swap pool not open for withdrawals",
            SwapverseError::InsufficientAmount => "Amount should be greater than minimum investment amount of pool",
            SwapverseError::DepositAmountIsZero => "Deposit amount is zero",
            SwapverseError::WithdrawAmountIsZero => "Withdraw amount is zero",
            SwapverseError::InvalidPoolTokenMint => "Token should be one of the tokens specified in the pool",
            SwapverseError::InvalidPoolShareTokenMint => "Token should be one of the pool share tokens specified in the pool",
            SwapverseError::InvalidInvestorTokenAccountOwner => "Investor should be the owner of investor token account",
            SwapverseError::InvalidInvestorTokenAccountMint => "Investor token account mint should be same as the token mint",
            SwapverseError::SwapPoolNotActivated => "Swap pool not activated for swapping",
            SwapverseError::NotEnoughTokens => "Not enough tokens",
            SwapverseError::TokenAmountLimitExceeded => "Maximum 10_000_000 tokens can be minted at once",
            SwapverseError::NotEnoughOutput => "The output is not enough as asked by user",
        }
    }
}

} // verus!
