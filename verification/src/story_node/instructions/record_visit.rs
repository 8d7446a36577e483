use vstd::prelude::*;
use anchor_lang::prelude::Pubkey;
use crate::drama_hub::state::saturated;
use crate::story_node::error::StoryNodeError;
use crate::story_node::state::{NodeVisited, StoryNode};

verus! {

/// What a visit names: the node and the visitor.
#[derive(Clone, Copy, Debug, PartialEq, Eq)]
pub struct RecordVisit {
    pub node: Pubkey,
    pub visitor: Pubkey,
}

/// Counts one visit. Never fails; the count stays at the largest `u64` once
/// it is there.
pub fn handler(ctx: &RecordVisit, node: &mut StoryNode) -> (r: Result<NodeVisited, StoryNodeError>)
    ensures
        *final(node) == (StoryNode {
            visit_count: saturated(old(node).visit_count, 1),
            ..*old(node)
        }),
        r == Ok::<NodeVisited, StoryNodeError>(
            NodeVisited {
                node: ctx.node,
                visitor: ctx.visitor,
                visit_count: saturated(old(node).visit_count, 1),
            },
        ),
{
    node.visit_count = node.visit_count.saturating_add(1);
    Ok(NodeVisited { node: ctx.node, visitor: ctx.visitor, visit_count: node.visit_count })
}

} // verus!
