use vstd::prelude::*;
use anchor_lang::prelude::Pubkey;
use crate::asset_registry::error::AssetError;
use crate::asset_registry::state::{AssetRegistry, AssetUsed};

verus! {

/// What a use names: the asset, the node that uses it, and the caller.
#[derive(Clone, Copy, Debug, PartialEq, Eq)]
pub struct RecordUsage {
    pub asset: Pubkey,
    pub node: Pubkey,
    pub user: Pubkey,
}

/// Counts one more use of a registered asset. The count stays at the largest
/// `u64` once it is there.
pub fn handler(ctx: &RecordUsage, registry: &mut AssetRegistry) -> (r: Result<AssetUsed, AssetError>)
    requires
        old(registry).wf(),
    ensures
        final(registry).wf(),
        !old(registry)@.contains_key(ctx.asset) ==> r == Err::<AssetUsed, AssetError>(
            AssetError::AssetNotFound,
        ) && *final(registry) == *old(registry),
        old(registry)@.contains_key(ctx.asset) ==> r == Ok::<AssetUsed, AssetError>(
            AssetUsed {
                mint: ctx.asset,
                node: ctx.node,
                usage_count: old(registry)@[ctx.asset].used().usage_count,
            },
        ) && final(registry)@ == old(registry)@.insert(
            ctx.asset,
            old(registry)@[ctx.asset].used(),
        ),
{
    match registry.records.find(&ctx.asset) {
        None => Err(AssetError::AssetNotFound),
        Some(slot) => {
            proof {
                registry.records.lemma_slot(ctx.asset, slot as int);
            }
            let record = registry.records.items[slot].with_use();
            let usage_count = record.usage_count;
            registry.records.replace(slot, record);
            Ok(AssetUsed { mint: ctx.asset, node: ctx.node, usage_count })
        },
    }
}

} // verus!
