use vstd::prelude::*;
use anchor_lang::prelude::Pubkey;
use crate::asset_registry::error::AssetError;
use crate::asset_registry::state::{
    AssetRegistered,
    AssetRegistry,
    AssetType,
    AssetUsage,
};
use crate::text::{byte_len, text_len};

verus! {

/// What a registration names: the asset's identifier, the drama and node of
/// its first appearance, its creator, and the time of the request.
#[derive(Clone, Copy, Debug, PartialEq, Eq)]
pub struct RegisterAsset {
    pub mint: Pubkey,
    pub drama: Pubkey,
    pub node: Pubkey,
    pub creator: Pubkey,
    pub bump: u8,
    pub unix_timestamp: i64,
}

/// The reason for which a registration is refused, if it is. An identifier
/// that has a record is refused whatever else the request holds.
pub open spec fn rejection(
    registered: Map<Pubkey, AssetUsage>,
    mint: Pubkey,
    name: Seq<char>,
    metadata_uri: Seq<char>,
) -> Option<AssetError> {
    if registered.contains_key(mint) {
        Some(AssetError::AssetAlreadyRegistered)
    } else if text_len(name) == 0 {
        Some(AssetError::NameEmpty)
    } else if text_len(name) > AssetUsage::MAX_NAME_LEN {
        Some(AssetError::NameTooLong)
    } else if text_len(metadata_uri) == 0 {
        Some(AssetError::MetadataUriEmpty)
    } else if text_len(metadata_uri) > AssetUsage::MAX_URI_LEN {
        Some(AssetError::MetadataUriTooLong)
    } else {
        None
    }
}

/// The record that an accepted registration stores: used once.
pub open spec fn registered(
    ctx: RegisterAsset,
    name: String,
    metadata_uri: String,
    asset_type: AssetType,
) -> AssetUsage {
    AssetUsage {
        mint: ctx.mint,
        asset_type: asset_type,
        creator: ctx.creator,
        origin_drama: ctx.drama,
        origin_node: ctx.node,
        name: name,
        metadata_uri: metadata_uri,
        usage_count: 1,
        created_at: ctx.unix_timestamp,
        bump: ctx.bump,
    }
}

pub fn handler(
    ctx: &RegisterAsset,
    registry: &mut AssetRegistry,
    name: String,
    metadata_uri: String,
    asset_type: AssetType,
) -> (r: Result<AssetRegistered, AssetError>)
    requires
        old(registry).wf(),
    ensures
        final(registry).wf(),
        match rejection(old(registry)@, ctx.mint, name@, metadata_uri@) {
            Some(e) => r == Err::<AssetRegistered, AssetError>(e) && *final(registry) == *old(registry),
            None => r == Ok::<AssetRegistered, AssetError>(
                AssetRegistered {
                    mint: ctx.mint,
                    asset_type: asset_type,
                    creator: ctx.creator,
                    origin_drama: ctx.drama,
                    name: name,
                },
            ) && final(registry)@ == old(registry)@.insert(
                ctx.mint,
                registered(*ctx, name, metadata_uri, asset_type),
            ),
        },
{
    if registry.records.find(&ctx.mint).is_some() {
        return Err(AssetError::AssetAlreadyRegistered);
    }
    if byte_len(&name) == 0 {
        return Err(AssetError::NameEmpty);
    }
    if byte_len(&name) > AssetUsage::MAX_NAME_LEN {
        return Err(AssetError::NameTooLong);
    }
    if byte_len(&metadata_uri) == 0 {
        return Err(AssetError::MetadataUriEmpty);
    }
    if byte_len(&metadata_uri) > AssetUsage::MAX_URI_LEN {
        return Err(AssetError::MetadataUriTooLong);
    }
    let record = AssetUsage {
        mint: ctx.mint,
        asset_type,
        creator: ctx.creator,
        origin_drama: ctx.drama,
        origin_node: ctx.node,
        name: name.clone(),
        metadata_uri,
        usage_count: 1,
        created_at: ctx.unix_timestamp,
        bump: ctx.bump,
    };
    registry.records.insert(ctx.mint, record);
    Ok(
        AssetRegistered {
            mint: ctx.mint,
            asset_type,
            creator: ctx.creator,
            origin_drama: ctx.drama,
            name,
        },
    )
}

} // verus!
