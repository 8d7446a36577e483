//! The story graph: nodes confirmed under a drama, each following at most a
//! few earlier nodes, and their visit counters.

use vstd::prelude::*;
use crate::drama_hub::instructions::update_duration::progress_of;
use crate::drama_hub::lifecycle::{after, lemma_node_count, lemma_progress_monotonic};
use crate::drama_hub::state::{saturated, Drama};
use crate::story_node::error::StoryNodeError;
use crate::story_node::instructions::confirm_node::{
    depth_of,
    is_confirmed,
    parent_is_valid,
    rejection,
    ConfirmNode,
};
use crate::story_node::instructions::record_visit::RecordVisit;
use crate::story_node::state::{
    indexed,
    Confirmation,
    NodeConfirmed,
    NodeVisited,
    StoryGraph,
    StoryNode,
};

pub mod error;
pub mod instructions;
pub mod state;

verus! {

/// Confirms a node under a drama and advances the drama by the node's
/// duration.
pub fn confirm_node(
    ctx: &ConfirmNode,
    graph: &mut StoryGraph,
    drama: &mut Drama,
    frame_uri: String,
    duration: u16,
) -> (r: Result<Confirmation, StoryNodeError>)
    requires
        old(graph).wf(),
        !old(graph)@.contains_key(ctx.node),
        parent_is_valid(*ctx, old(graph)@) ==> depth_of(*ctx, old(graph)@) <= u16::MAX,
    ensures
        final(graph).wf(),
        match rejection(*ctx, old(graph)@, *old(drama), frame_uri@, duration) {
            Some(e) => r == Err::<Confirmation, StoryNodeError>(e) && *final(drama) == *old(drama)
                && *final(graph) == *old(graph),
            None => r == Ok::<Confirmation, StoryNodeError>(
                Confirmation {
                    confirmed: NodeConfirmed {
                        node: ctx.node,
                        drama: ctx.drama,
                        contributor: ctx.contributor,
                        duration: duration,
                        depth: depth_of(*ctx, old(graph)@) as u16,
                    },
                    progress: progress_of(ctx.drama, *old(drama), duration as u64),
                },
            ) && final(graph)@ == old(graph)@.insert(ctx.node, final(graph)@[ctx.node])
                && is_confirmed(
                    final(graph)@[ctx.node],
                    *ctx,
                    old(graph)@,
                    *old(drama),
                    frame_uri,
                    duration,
                )
                && *final(drama) == old(drama).advanced(duration as u64),
        },
        old(drama).is_completed() ==> r is Err && *final(drama) == *old(drama) && *final(graph)
            == *old(graph),
        old(drama).node_count < u64::MAX && indexed(old(graph)@, ctx.drama, old(drama).node_count)
            ==> indexed(final(graph)@, ctx.drama, final(drama).node_count),
{
    instructions::confirm_node::handler(ctx, graph, drama, frame_uri, duration)
}

/// Node indices within a drama strictly increase: of two confirmations
/// accepted in a series of them, the `i`-th and the later `j`-th, the later
/// node has the larger index. A confirmation is indexed by the node count of
/// the drama it finds, and each accepted one adds to that count; the count
/// must stay within `u64`.
pub proof fn lemma_node_index_increases(drama: Drama, durations: Seq<u64>, i: nat, j: nat)
    requires
        i < j <= durations.len(),
        !after(drama, durations, j).is_completed(),
        drama.node_count + j <= u64::MAX,
    ensures
        !after(drama, durations, i).is_completed(),
        after(drama, durations, i).node_count < after(drama, durations, j).node_count,
{
    lemma_progress_monotonic(drama, durations, i, j);
    lemma_node_count(drama, durations, i);
    lemma_node_count(drama, durations, j);
}

/// Counts one visit of a node.
pub fn record_visit(ctx: &RecordVisit, node: &mut StoryNode) -> (r: Result<
    NodeVisited,
    StoryNodeError,
>)
    ensures
        *final(node) == (StoryNode {
            visit_count: saturated(old(node).visit_count, 1),
            ..*old(node)
        }),
        r == Ok::<NodeVisited, StoryNodeError>(
            NodeVisited {
                node: ctx.node,
                visitor: ctx.visitor,
                visit_count: saturated(old(node).visit_count, 1),
            },
        ),
{
    instructions::record_visit::handler(ctx, node)
}

} // verus!
