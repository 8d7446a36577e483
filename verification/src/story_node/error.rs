use vstd::prelude::*;

verus! {

#[derive(Clone, Copy, Debug, PartialEq, Eq, Structural)]
pub enum StoryNodeError {
    FrameUriEmpty,
    FrameUriTooLong,
    InvalidDuration,
    TooManyParents,
    TooManyAssets,
    DramaCompleted,
    InvalidParentNode,
}

impl StoryNodeError {
    /// The error in words.
    pub open spec fn text(self) -> Seq<char> {
        match self {
            StoryNodeError::FrameUriEmpty => "Frame URI cannot be empty"@,
            StoryNodeError::FrameUriTooLong => "Frame URI exceeds maximum length of 200 characters"@,
            StoryNodeError::InvalidDuration => "Duration must be greater than 0"@,
            StoryNodeError::TooManyParents => "Too many parent nodes (max 3)"@,
            StoryNodeError::TooManyAssets => "Too many assets (max 10)"@,
            StoryNodeError::DramaCompleted => "Drama is already completed"@,
            StoryNodeError::InvalidParentNode => "Invalid parent node"@,
        }
    }

    pub fn message(&self) -> (r: String)
        ensures
            r@ == self.text(),
    {
        match self {
            StoryNodeError::FrameUriEmpty => "Frame URI cannot be empty".to_owned(),
            StoryNodeError::FrameUriTooLong => "Frame URI exceeds maximum length of 200 characters".to_owned(),
            StoryNodeError::InvalidDuration => "Duration must be greater than 0".to_owned(),
            StoryNodeError::TooManyParents => "Too many parent nodes (max 3)".to_owned(),
            StoryNodeError::TooManyAssets => "Too many assets (max 10)".to_owned(),
            StoryNodeError::DramaCompleted => "Drama is already completed".to_owned(),
            StoryNodeError::InvalidParentNode => "Invalid parent node".to_owned(),
        }
    }
}

} // verus!
