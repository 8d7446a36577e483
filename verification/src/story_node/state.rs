use vstd::prelude::*;
use anchor_lang::prelude::Pubkey;
use crate::arena::Arena;
use crate::drama_hub::state::ProgressRecords;
use crate::text::text_len;

verus! {

/// One contributed narrative beat, attached to a drama and to the nodes it
/// follows.
#[derive(Clone, Debug, PartialEq, Eq)]
pub struct StoryNode {
    /// The drama that the node belongs to.
    pub drama: Pubkey,
    /// The nodes that this one follows, at most `MAX_PARENTS`; none for a root.
    pub parent_nodes: Vec<Pubkey>,
    pub contributor: Pubkey,
    /// Locator of the frame's content, at most `MAX_URI_LEN` bytes.
    pub frame_uri: String,
    /// The assets that the node uses, at most `MAX_ASSETS`.
    pub asset_mints: Vec<Pubkey>,
    /// Duration of the frame in seconds.
    pub duration: u16,
    /// Distance from a root.
    pub depth: u16,
    pub visit_count: u64,
    pub child_count: u16,
    pub timestamp: i64,
    /// The drama's node count when the node was confirmed.
    pub node_index: u64,
    pub bump: u8,
}

/// In `nodes`, the nodes of the drama `drama` carry indices below `count`,
/// and no two of them the same index.
pub open spec fn indexed(nodes: Map<Pubkey, StoryNode>, drama: Pubkey, count: u64) -> bool {
    &&& forall|k: Pubkey|
        nodes.contains_key(k) && (#[trigger] nodes[k]).drama == drama ==> nodes[k].node_index
            < count
    &&& forall|j: Pubkey, k: Pubkey|
        nodes.contains_key(j) && nodes.contains_key(k) && j != k && (#[trigger] nodes[j]).drama
            == drama && (#[trigger] nodes[k]).drama == drama ==> nodes[j].node_index
            != nodes[k].node_index
}

impl StoryNode {
    pub const MAX_PARENTS: usize = 3;

    pub const MAX_ASSETS: usize = 10;

    pub const MAX_URI_LEN: usize = 200;

    /// Stored size of a node record in bytes.
    pub const SPACE: usize = 8 + 32 + 4 + (32 * Self::MAX_PARENTS) + 32 + 4 + Self::MAX_URI_LEN + 4
        + (32 * Self::MAX_ASSETS) + 2 + 2 + 8 + 2 + 8 + 8 + 1;

    /// Parents and assets within their caps, a bounded locator, a positive
    /// duration, and depth 0 for a root.
    pub open spec fn wf(&self) -> bool {
        &&& self.parent_nodes@.len() <= Self::MAX_PARENTS
        &&& self.asset_mints@.len() <= Self::MAX_ASSETS
        &&& 0 < text_len(self.frame_uri@) <= Self::MAX_URI_LEN
        &&& self.duration > 0
        &&& self.parent_nodes@.len() == 0 ==> self.depth == 0
    }
}

/// The nodes confirmed so far, each under its identifier. Nodes are only
/// ever added: a node's parents are nodes that the graph already held when
/// the node was confirmed, so the graph has no cycle.
#[derive(Clone, Debug)]
pub struct StoryGraph {
    pub nodes: Arena<StoryNode>,
}

impl StoryGraph {
    /// Every parent of the node at position `i` is stored before it.
    pub open spec fn parents_precede(&self, i: int) -> bool {
        forall|j: int|
            0 <= j < self.nodes.items@[i].parent_nodes@.len() ==> self.nodes.keys@.subrange(0, i)
                .contains(#[trigger] self.nodes.items@[i].parent_nodes@[j])
    }

    /// The store is well-formed and the order of storage is an order of
    /// descent: parents come before their children, so no node follows
    /// itself.
    pub open spec fn wf(&self) -> bool {
        &&& self.nodes.wf()
        &&& forall|i: int| 0 <= i < self.nodes.items@.len() ==> #[trigger] self.parents_precede(i)
    }

    /// The graph as a map from identifier to node.
    pub open spec fn view(&self) -> Map<Pubkey, StoryNode> {
        self.nodes@
    }

    pub fn new() -> (r: Self)
        ensures
            r.wf(),
            r@ == Map::<Pubkey, StoryNode>::empty(),
    {
        StoryGraph { nodes: Arena::new() }
    }

    /// The node stored under `key`, if there is one.
    pub fn get(&self, key: &Pubkey) -> (r: Option<&StoryNode>)
        requires
            self.wf(),
        ensures
            r is Some <==> self@.contains_key(*key),
            r is Some ==> *r->0 == self@[*key],
    {
        self.nodes.get(key)
    }
}

/// Record of a node's confirmation.
#[derive(Clone, Copy, Debug, PartialEq, Eq)]
pub struct NodeConfirmed {
    pub node: Pubkey,
    pub drama: Pubkey,
    pub contributor: Pubkey,
    pub duration: u16,
    pub depth: u16,
}

/// Record of a visit.
#[derive(Clone, Copy, Debug, PartialEq, Eq)]
pub struct NodeVisited {
    pub node: Pubkey,
    pub visitor: Pubkey,
    pub visit_count: u64,
}

/// What a confirmation emits: the new node's record, and the records of the
/// progress that the node brought to its drama.
#[derive(Clone, Copy, Debug, PartialEq, Eq)]
pub struct Confirmation {
    pub confirmed: NodeConfirmed,
    pub progress: ProgressRecords,
}

} // verus!
