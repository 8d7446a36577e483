//! The asset registry: reusable narrative assets, registered once each, and
//! the count of their uses.

use vstd::prelude::*;
use crate::asset_registry::error::AssetError;
use crate::asset_registry::instructions::record_usage::RecordUsage;
use crate::asset_registry::instructions::register_asset::{registered, rejection, RegisterAsset};
use anchor_lang::prelude::Pubkey;
use crate::asset_registry::state::{
    AssetRegistered,
    AssetRegistry,
    AssetType,
    AssetUsage,
    AssetUsed,
};

pub mod error;
pub mod instructions;
pub mod state;

verus! {

/// Registers an asset: actor, scene or prop.
pub fn register_asset(
    ctx: &RegisterAsset,
    registry: &mut AssetRegistry,
    name: String,
    metadata_uri: String,
    asset_type: AssetType,
) -> (r: Result<AssetRegistered, AssetError>)
    requires
        old(registry).wf(),
    ensures
        final(registry).wf(),
        match rejection(old(registry)@, ctx.mint, name@, metadata_uri@) {
            Some(e) => r == Err::<AssetRegistered, AssetError>(e) && *final(registry) == *old(registry),
            None => r == Ok::<AssetRegistered, AssetError>(
                AssetRegistered {
                    mint: ctx.mint,
                    asset_type: asset_type,
                    creator: ctx.creator,
                    origin_drama: ctx.drama,
                    name: name,
                },
            ) && final(registry)@ == old(registry)@.insert(
                ctx.mint,
                registered(*ctx, name, metadata_uri, asset_type),
            ),
        },
{
    instructions::register_asset::handler(ctx, registry, name, metadata_uri, asset_type)
}

/// An identifier is registered once: after an accepted registration, any
/// further registration of the same identifier is refused as already
/// registered.
pub proof fn lemma_registered_once(
    before: Map<Pubkey, AssetUsage>,
    ctx: RegisterAsset,
    name: String,
    metadata_uri: String,
    asset_type: AssetType,
    second_name: Seq<char>,
    second_uri: Seq<char>,
)
    ensures
        rejection(
            before.insert(ctx.mint, registered(ctx, name, metadata_uri, asset_type)),
            ctx.mint,
            second_name,
            second_uri,
        ) == Some(AssetError::AssetAlreadyRegistered),
{
}

/// A registered asset reads back with one use, and with two after one more
/// use is counted.
pub proof fn lemma_usage_round_trip(
    before: Map<Pubkey, AssetUsage>,
    ctx: RegisterAsset,
    name: String,
    metadata_uri: String,
    asset_type: AssetType,
)
    ensures
        ({
            let record = registered(ctx, name, metadata_uri, asset_type);
            let stored = before.insert(ctx.mint, record);
            &&& stored[ctx.mint].usage_count == 1
            &&& stored.insert(ctx.mint, stored[ctx.mint].used())[ctx.mint].usage_count == 2
        }),
{
}

/// Counts the use of an asset in a story node.
pub fn record_usage(ctx: &RecordUsage, registry: &mut AssetRegistry) -> (r: Result<
    AssetUsed,
    AssetError,
>)
    requires
        old(registry).wf(),
    ensures
        final(registry).wf(),
        !old(registry)@.contains_key(ctx.asset) ==> r == Err::<AssetUsed, AssetError>(
            AssetError::AssetNotFound,
        ) && *final(registry) == *old(registry),
        old(registry)@.contains_key(ctx.asset) ==> r == Ok::<AssetUsed, AssetError>(
            AssetUsed {
                mint: ctx.asset,
                node: ctx.node,
                usage_count: old(registry)@[ctx.asset].used().usage_count,
            },
        ) && final(registry)@ == old(registry)@.insert(
            ctx.asset,
            old(registry)@[ctx.asset].used(),
        ),
{
    instructions::record_usage::handler(ctx, registry)
}

} // verus!
