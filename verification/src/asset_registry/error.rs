use vstd::prelude::*;

verus! {

#[derive(Clone, Copy, Debug, PartialEq, Eq, Structural)]
pub enum AssetError {
    NameEmpty,
    NameTooLong,
    MetadataUriEmpty,
    MetadataUriTooLong,
    AssetAlreadyRegistered,
    InvalidAssetType,
    /// No asset is registered under the identifier.
    AssetNotFound,
}

impl AssetError {
    /// The error in words.
    pub open spec fn text(self) -> Seq<char> {
        match self {
            AssetError::NameEmpty => "Asset name cannot be empty"@,
            AssetError::NameTooLong => "Asset name exceeds maximum length of 64 characters"@,
            AssetError::MetadataUriEmpty => "Metadata URI cannot be empty"@,
            AssetError::MetadataUriTooLong => "Metadata URI exceeds maximum length of 200 characters"@,
            AssetError::AssetAlreadyRegistered => "Asset already registered"@,
            AssetError::InvalidAssetType => "Invalid asset type"@,
            AssetError::AssetNotFound => "Asset not registered"@,
        }
    }

    pub fn message(&self) -> (r: String)
        ensures
            r@ == self.text(),
    {
        match self {
            AssetError::NameEmpty => "Asset name cannot be empty".to_owned(),
            AssetError::NameTooLong => "Asset name exceeds maximum length of 64 characters".to_owned(),
            AssetError::MetadataUriEmpty => "Metadata URI cannot be empty".to_owned(),
            AssetError::MetadataUriTooLong => "Metadata URI exceeds maximum length of 200 characters".to_owned(),
            AssetError::AssetAlreadyRegistered => "Asset already registered".to_owned(),
            AssetError::InvalidAssetType => "Invalid asset type".to_owned(),
            AssetError::AssetNotFound => "Asset not registered".to_owned(),
        }
    }
}

} // verus!
