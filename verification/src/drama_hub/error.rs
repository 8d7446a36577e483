use vstd::prelude::*;

verus! {

#[derive(Clone, Copy, Debug, PartialEq, Eq, Structural)]
pub enum DramaError {
    TitleEmpty,
    TitleTooLong,
    GenesisUriEmpty,
    GenesisUriTooLong,
    InvalidTargetDuration,
    DramaAlreadyCompleted,
    Unauthorized,
}

impl DramaError {
    /// The error in words.
    pub open spec fn text(self) -> Seq<char> {
        match self {
            DramaError::TitleEmpty => "Title cannot be empty"@,
            DramaError::TitleTooLong => "Title exceeds maximum length of 64 characters"@,
            DramaError::GenesisUriEmpty => "Genesis URI cannot be empty"@,
            DramaError::GenesisUriTooLong => "Genesis URI exceeds maximum length of 200 characters"@,
            DramaError::InvalidTargetDuration => "Target duration must be greater than 0"@,
            DramaError::DramaAlreadyCompleted => "Drama has already been completed"@,
            DramaError::Unauthorized => "Not authorized to perform this action"@,
        }
    }

    pub fn message(&self) -> (r: String)
        ensures
            r@ == self.text(),
    {
        match self {
            DramaError::TitleEmpty => "Title cannot be empty".to_owned(),
            DramaError::TitleTooLong => "Title exceeds maximum length of 64 characters".to_owned(),
            DramaError::GenesisUriEmpty => "Genesis URI cannot be empty".to_owned(),
            DramaError::GenesisUriTooLong => "Genesis URI exceeds maximum length of 200 characters".to_owned(),
            DramaError::InvalidTargetDuration => "Target duration must be greater than 0".to_owned(),
            DramaError::DramaAlreadyCompleted => "Drama has already been completed".to_owned(),
            DramaError::Unauthorized => "Not authorized to perform this action".to_owned(),
        }
    }
}

} // verus!
