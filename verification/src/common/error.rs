use vstd::prelude::*;

verus! {

/// Every way in which a pool operation can fail. A failure is final for the
/// operation that met it: the pool is left exactly as it was.
#[derive(Clone, Copy, Debug, PartialEq, Eq, Structural)]
pub enum AMMError {
    /// The token mint carries an extension that the pool does not admit.
    NotAllowedTokenExtension,
    /// A transfer fee could not be computed, or its two computations disagree.
    TransferFeeCalculationError,
    /// The pool is locked.
    PoolLocked,
    /// The depositor is not on the pool's whitelist.
    NotWhitelisted,
    /// The result is worse than the bound the caller gave.
    SlippageExceeded,
    /// An amount is zero or out of range.
    InvalidAmount,
    /// The pool, or one of its vaults, holds too little.
    InsufficientLiquidity,
    /// A mint is not one of the pool's, is given twice, or belongs to
    /// another token program than the one supplied.
    InvalidMint,
    /// The swap would pay out nothing.
    InsufficientOutputAmount,
    /// The data of a mint account cannot be read, or its extension data is
    /// cut short or overruns the account.
    MalformedExtensionData,
    /// An addition, subtraction or division on pool balances cannot be done
    /// in the width of the balances.
    ArithmeticOverflow,
}

impl AMMError {
    /// The text of the message that goes with the error.
    pub open spec fn message_text(self) -> Seq<char> {
        match self {
            AMMError::NotAllowedTokenExtension => "The token mint is not allowed because it had token extensions not allowed by the program"@,
            AMMError::TransferFeeCalculationError => "Transfer fee calculation error"@,
            AMMError::PoolLocked => "Pool is locked"@,
            AMMError::NotWhitelisted => "User not whitelisted"@,
            AMMError::SlippageExceeded => "Slippage tolerance exceeded"@,
            AMMError::InvalidAmount => "Invalid amount"@,
            AMMError::InsufficientLiquidity => "Insufficient liquidity"@,
            AMMError::InvalidMint => "Invalid mint"@,
            AMMError::InsufficientOutputAmount => "Insufficient output amount"@,
            AMMError::MalformedExtensionData => "The extension data of the token mint is malformed"@,
            AMMError::ArithmeticOverflow => "Arithmetic overflow"@,
        }
    }

    /// The message that goes with the error.
    pub fn message(&self) -> (text: &'static str)
        ensures
            text@ == self.message_text(),
    {
        match self {
            AMMError::NotAllowedTokenExtension => "The token mint is not allowed because it had token extensions not allowed by the program",
            AMMError::TransferFeeCalculationError => "Transfer fee calculation error",
            AMMError::PoolLocked => "Pool is locked",
            AMMError::NotWhitelisted => "User not whitelisted",
            AMMError::SlippageExceeded => "Slippage tolerance exceeded",
            AMMError::InvalidAmount => "Invalid amount",
            AMMError::InsufficientLiquidity => "Insufficient liquidity",
            AMMError::InvalidMint => "Invalid mint",
            AMMError::InsufficientOutputAmount => "Insufficient output amount",
            AMMError::MalformedExtensionData => "The extension data of the token mint is malformed",
            AMMError::ArithmeticOverflow => "Arithmetic overflow",
        }
    }
}

} // verus!
