use vstd::prelude::*;
use anchor_lang::prelude::Pubkey;
use crate::drama_hub::instructions::update_duration::{advance, progress_of};
use crate::drama_hub::state::Drama;
use crate::keys::same_key;
use crate::story_node::error::StoryNodeError;
use crate::story_node::state::{
    indexed,
    Confirmation,
    NodeConfirmed,
    StoryGraph,
    StoryNode,
};
use crate::text::{byte_len, text_len};

verus! {

/// What a confirmation request names: the new node's identifier, its drama,
/// the node it follows (if any), the contributor, and the time of the
/// request.
#[derive(Clone, Copy, Debug, PartialEq, Eq)]
pub struct ConfirmNode {
    pub node: Pubkey,
    pub drama: Pubkey,
    pub parent_node: Option<Pubkey>,
    pub contributor: Pubkey,
    pub bump: u8,
    pub unix_timestamp: i64,
}

/// The parent that `ctx` names is a node of the graph `nodes` and belongs to
/// the drama that `ctx` names.
pub open spec fn parent_is_valid(ctx: ConfirmNode, nodes: Map<Pubkey, StoryNode>) -> bool {
    ctx.parent_node is Some ==> nodes.contains_key(ctx.parent_node->0)
        && nodes[ctx.parent_node->0].drama == ctx.drama
}

/// The reason for which a confirmation is refused, if it is.
pub open spec fn rejection(
    ctx: ConfirmNode,
    nodes: Map<Pubkey, StoryNode>,
    drama: Drama,
    frame_uri: Seq<char>,
    duration: u16,
) -> Option<StoryNodeError> {
    if text_len(frame_uri) == 0 {
        Some(StoryNodeError::FrameUriEmpty)
    } else if text_len(frame_uri) > StoryNode::MAX_URI_LEN {
        Some(StoryNodeError::FrameUriTooLong)
    } else if duration == 0 {
        Some(StoryNodeError::InvalidDuration)
    } else if !parent_is_valid(ctx, nodes) {
        Some(StoryNodeError::InvalidParentNode)
    } else if drama.is_completed() {
        Some(StoryNodeError::DramaCompleted)
    } else {
        None
    }
}

/// The depth of a node confirmed by `ctx`: one more than its parent's, or 0
/// for a root.
pub open spec fn depth_of(ctx: ConfirmNode, nodes: Map<Pubkey, StoryNode>) -> int {
    match ctx.parent_node {
        Some(parent) => nodes[parent].depth + 1,
        None => 0,
    }
}

/// The parents of a node confirmed by `ctx`.
pub open spec fn parents_of(ctx: ConfirmNode) -> Seq<Pubkey> {
    match ctx.parent_node {
        Some(parent) => seq![parent],
        None => seq![],
    }
}

/// `node` is the node that `ctx` confirms in the graph `nodes` and the drama
/// `before`: unvisited, childless, without assets, and indexed by the
/// drama's node count.
pub open spec fn is_confirmed(
    node: StoryNode,
    ctx: ConfirmNode,
    nodes: Map<Pubkey, StoryNode>,
    before: Drama,
    frame_uri: String,
    duration: u16,
) -> bool {
    &&& node.drama == ctx.drama
    &&& node.parent_nodes@ == parents_of(ctx)
    &&& node.contributor == ctx.contributor
    &&& node.frame_uri == frame_uri
    &&& node.asset_mints@ == Seq::<Pubkey>::empty()
    &&& node.duration == duration
    &&& node.depth == depth_of(ctx, nodes)
    &&& node.visit_count == 0
    &&& node.child_count == 0
    &&& node.timestamp == ctx.unix_timestamp
    &&& node.node_index == before.node_count
    &&& node.bump == ctx.bump
}

/// Confirms a node and advances its drama by the node's duration, as one
/// step: a refused request leaves the graph and the drama as they were.
///
/// The new node's identifier must be unused, and a parent must leave room
/// for one more level of depth.
pub fn handler(
    ctx: &ConfirmNode,
    graph: &mut StoryGraph,
    drama: &mut Drama,
    frame_uri: String,
    duration: u16,
) -> (r: Result<Confirmation, StoryNodeError>)
    requires
        old(graph).wf(),
        !old(graph)@.contains_key(ctx.node),
        parent_is_valid(*ctx, old(graph)@) ==> depth_of(*ctx, old(graph)@) <= u16::MAX,
    ensures
        final(graph).wf(),
        match rejection(*ctx, old(graph)@, *old(drama), frame_uri@, duration) {
            Some(e) => r == Err::<Confirmation, StoryNodeError>(e) && *final(drama) == *old(drama)
                && *final(graph) == *old(graph),
            None => r == Ok::<Confirmation, StoryNodeError>(
                Confirmation {
                    confirmed: NodeConfirmed {
                        node: ctx.node,
                        drama: ctx.drama,
                        contributor: ctx.contributor,
                        duration: duration,
                        depth: depth_of(*ctx, old(graph)@) as u16,
                    },
                    progress: progress_of(ctx.drama, *old(drama), duration as u64),
                },
            ) && final(graph)@ == old(graph)@.insert(ctx.node, final(graph)@[ctx.node])
                && is_confirmed(
                    final(graph)@[ctx.node],
                    *ctx,
                    old(graph)@,
                    *old(drama),
                    frame_uri,
                    duration,
                )
                && final(graph)@[ctx.node].wf()
                && *final(drama) == old(drama).advanced(duration as u64),
        },
        old(drama).is_completed() ==> r is Err && *final(drama) == *old(drama) && *final(graph)
            == *old(graph),
        old(drama).wf() ==> final(drama).wf(),
        old(drama).node_count < u64::MAX && indexed(old(graph)@, ctx.drama, old(drama).node_count)
            ==> indexed(final(graph)@, ctx.drama, final(drama).node_count),
        forall|other: Pubkey, count: u64|
            other != ctx.drama && #[trigger] indexed(old(graph)@, other, count)
                ==> indexed(final(graph)@, other, count),
{
    if byte_len(&frame_uri) == 0 {
        return Err(StoryNodeError::FrameUriEmpty);
    }
    if byte_len(&frame_uri) > StoryNode::MAX_URI_LEN {
        return Err(StoryNodeError::FrameUriTooLong);
    }
    if duration == 0 {
        return Err(StoryNodeError::InvalidDuration);
    }
    let mut depth: u16 = 0;
    let mut parent_nodes: Vec<Pubkey> = Vec::new();
    if let Some(parent_key) = ctx.parent_node {
        match graph.nodes.get(&parent_key) {
            None => {
                return Err(StoryNodeError::InvalidParentNode);
            },
            Some(parent) => {
                if !same_key(&parent.drama, &ctx.drama) {
                    return Err(StoryNodeError::InvalidParentNode);
                }
                depth = parent.depth + 1;
                parent_nodes.push(parent_key);
            },
        }
    }
    if drama.is_completed() {
        return Err(StoryNodeError::DramaCompleted);
    }
    let node = StoryNode {
        drama: ctx.drama,
        parent_nodes,
        contributor: ctx.contributor,
        frame_uri,
        asset_mints: Vec::new(),
        duration,
        depth,
        visit_count: 0,
        child_count: 0,
        timestamp: ctx.unix_timestamp,
        node_index: drama.node_count,
        bump: ctx.bump,
    };
    let confirmed = NodeConfirmed {
        node: ctx.node,
        drama: ctx.drama,
        contributor: ctx.contributor,
        duration,
        depth,
    };
    let progress = advance(ctx.drama, drama, duration as u64);
    graph.nodes.insert(ctx.node, node);
    proof {
        let n = old(graph).nodes.items@.len() as int;
        assert(graph.nodes.keys@.subrange(0, n) =~= old(graph).nodes.keys@);
        assert forall|i: int|
            0 <= i < graph.nodes.items@.len() implies #[trigger] graph.parents_precede(i) by {
            if i < n {
                assert(old(graph).parents_precede(i));
                assert(graph.nodes.keys@.subrange(0, i) =~= old(graph).nodes.keys@.subrange(0, i));
            }
        }
    }
    Ok(Confirmation { confirmed, progress })
}

} // verus!
