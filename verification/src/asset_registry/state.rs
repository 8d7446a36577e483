use vstd::prelude::*;
use anchor_lang::prelude::Pubkey;
use crate::arena::Arena;
use crate::drama_hub::state::saturated;
use crate::text::text_len;

verus! {

#[derive(Clone, Copy, Debug, PartialEq, Eq, Structural)]
pub enum AssetType {
    Actor,
    Scene,
    Prop,
}

impl Default for AssetType {
    fn default() -> (r: Self)
        ensures
            r == AssetType::Actor,
    {
        AssetType::Actor
    }
}

/// Usage record of one asset.
#[derive(Clone, Debug, PartialEq, Eq)]
pub struct AssetUsage {
    /// The asset's identifier.
    pub mint: Pubkey,
    pub asset_type: AssetType,
    pub creator: Pubkey,
    /// The drama in which the asset first appeared.
    pub origin_drama: Pubkey,
    /// The node in which the asset first appeared.
    pub origin_node: Pubkey,
    /// At most `MAX_NAME_LEN` bytes.
    pub name: String,
    /// At most `MAX_URI_LEN` bytes.
    pub metadata_uri: String,
    /// Number of uses; registration counts as the first.
    pub usage_count: u64,
    pub created_at: i64,
    pub bump: u8,
}

impl AssetUsage {
    pub const MAX_NAME_LEN: usize = 64;

    pub const MAX_URI_LEN: usize = 200;

    /// Stored size of a usage record in bytes.
    pub const SPACE: usize = 8 + 32 + 1 + 32 + 32 + 32 + 4 + Self::MAX_NAME_LEN + 4
        + Self::MAX_URI_LEN + 8 + 8 + 1;

    pub open spec fn wf(&self) -> bool {
        &&& 0 < text_len(self.name@) <= Self::MAX_NAME_LEN
        &&& 0 < text_len(self.metadata_uri@) <= Self::MAX_URI_LEN
        &&& self.usage_count >= 1
    }

    /// The record after one more use.
    pub open spec fn used(self) -> AssetUsage {
        AssetUsage { usage_count: saturated(self.usage_count, 1), ..self }
    }

    /// A copy of the record that counts one more use.
    pub fn with_use(&self) -> (r: AssetUsage)
        ensures
            r == self.used(),
    {
        AssetUsage {
            mint: self.mint.clone(),
            asset_type: self.asset_type,
            creator: self.creator.clone(),
            origin_drama: self.origin_drama.clone(),
            origin_node: self.origin_node.clone(),
            name: self.name.clone(),
            metadata_uri: self.metadata_uri.clone(),
            usage_count: self.usage_count.saturating_add(1),
            created_at: self.created_at,
            bump: self.bump,
        }
    }
}

/// The usage records of all registered assets, one per asset identifier.
#[derive(Clone, Debug)]
pub struct AssetRegistry {
    pub records: Arena<AssetUsage>,
}

impl AssetRegistry {
    /// Each record is stored under its own identifier and is well-formed.
    pub open spec fn wf(&self) -> bool {
        &&& self.records.wf()
        &&& forall|i: int|
            0 <= i < self.records.items@.len() ==> (#[trigger] self.records.items@[i]).mint
                == self.records.keys@[i] && self.records.items@[i].wf()
    }

    /// The registry as a map from asset identifier to usage record.
    pub open spec fn view(&self) -> Map<Pubkey, AssetUsage> {
        self.records@
    }

    pub fn new() -> (r: Self)
        ensures
            r.wf(),
            r@ == Map::<Pubkey, AssetUsage>::empty(),
    {
        AssetRegistry { records: Arena::new() }
    }

    /// The record of the asset `mint`, if it is registered.
    pub fn get(&self, mint: &Pubkey) -> (r: Option<&AssetUsage>)
        requires
            self.wf(),
        ensures
            r is Some <==> self@.contains_key(*mint),
            r is Some ==> *r->0 == self@[*mint] && r->0.mint == *mint && r->0.wf(),
    {
        match self.records.find(mint) {
            Some(i) => {
                proof {
                    self.records.lemma_slot(*mint, i as int);
                }
                Some(&self.records.items[i])
            },
            None => None,
        }
    }

    /// The number of uses of the asset `mint`, if it is registered.
    pub fn usage_count(&self, mint: &Pubkey) -> (r: Option<u64>)
        requires
            self.wf(),
        ensures
            r is Some <==> self@.contains_key(*mint),
            r is Some ==> r->0 == self@[*mint].usage_count && r->0 >= 1,
    {
        match self.get(mint) {
            Some(record) => Some(record.usage_count),
            None => None,
        }
    }
}

/// Record of a registration.
#[derive(Clone, Debug, PartialEq, Eq)]
pub struct AssetRegistered {
    pub mint: Pubkey,
    pub asset_type: AssetType,
    pub creator: Pubkey,
    pub origin_drama: Pubkey,
    pub name: String,
}

/// Record of a use.
#[derive(Clone, Copy, Debug, PartialEq, Eq)]
pub struct AssetUsed {
    pub mint: Pubkey,
    pub node: Pubkey,
    pub usage_count: u64,
}

} // verus!
