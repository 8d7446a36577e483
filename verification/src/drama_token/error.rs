use vstd::prelude::*;

verus! {

#[derive(Clone, Copy, Debug, PartialEq, Eq, Structural)]
pub enum TokenError {
    AlreadyInitialized,
    Unauthorized,
    InsufficientBalance,
    InvalidRewardType,
    InvalidSpendType,
    InvalidAmount,
    Overflow,
}

impl TokenError {
    /// The error in words.
    pub open spec fn text(self) -> Seq<char> {
        match self {
            TokenError::AlreadyInitialized => "Token already initialized"@,
            TokenError::Unauthorized => "Not authorized to perform this action"@,
            TokenError::InsufficientBalance => "Insufficient balance"@,
            TokenError::InvalidRewardType => "Invalid reward type"@,
            TokenError::InvalidSpendType => "Invalid spend type"@,
            TokenError::InvalidAmount => "Amount must be greater than 0"@,
            TokenError::Overflow => "Overflow error"@,
        }
    }

    pub fn message(&self) -> (r: String)
        ensures
            r@ == self.text(),
    {
        match self {
            TokenError::AlreadyInitialized => "Token already initialized".to_owned(),
            TokenError::Unauthorized => "Not authorized to perform this action".to_owned(),
            TokenError::InsufficientBalance => "Insufficient balance".to_owned(),
            TokenError::InvalidRewardType => "Invalid reward type".to_owned(),
            TokenError::InvalidSpendType => "Invalid spend type".to_owned(),
            TokenError::InvalidAmount => "Amount must be greater than 0".to_owned(),
            TokenError::Overflow => "Overflow error".to_owned(),
        }
    }
}

} // verus!
