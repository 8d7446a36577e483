use anchor_lang::prelude::Pubkey;
use drama_ledger::drama_hub::state::{
    Drama, DramaCompleted, DramaProgressUpdated, DramaStatus, ProgressRecords,
};
use drama_ledger::story_node::error::StoryNodeError;
use drama_ledger::story_node::instructions::confirm_node::ConfirmNode;
use drama_ledger::story_node::instructions::record_visit::RecordVisit;
use drama_ledger::story_node::state::{
    Confirmation, NodeConfirmed, NodeVisited, StoryGraph, StoryNode,
};
use drama_ledger::story_node::{confirm_node, record_visit};

fn story_key(n: u8) -> Pubkey {
    Pubkey::new_from_array([n; 32])
}

fn story_drama(target: u64, current: u64, node_count: u64) -> Drama {
    Drama {
        creator: story_key(2),
        title: "Harbour Lights".to_string(),
        genesis_uri: "ar://genesis".to_string(),
        target_duration: target,
        current_duration: current,
        status: DramaStatus::Ongoing,
        node_count,
        created_at: 1_700_000_000,
        bump: 254,
    }
}

fn story_request(node: u8, parent: Option<u8>) -> ConfirmNode {
    ConfirmNode {
        node: story_key(node),
        drama: story_key(1),
        parent_node: parent.map(story_key),
        contributor: story_key(7),
        bump: 253,
        unix_timestamp: 1_700_000_100,
    }
}

fn story_node_at(drama: u8, depth: u16, node_index: u64) -> StoryNode {
    StoryNode {
        drama: story_key(drama),
        parent_nodes: vec![],
        contributor: story_key(7),
        frame_uri: "ar://earlier".to_string(),
        asset_mints: vec![],
        duration: 10,
        depth,
        visit_count: 0,
        child_count: 0,
        timestamp: 1_700_000_050,
        node_index,
        bump: 250,
    }
}

fn story_graph_with(key: u8, node: StoryNode) -> StoryGraph {
    let mut graph = StoryGraph::new();
    graph.nodes.insert(story_key(key), node);
    graph
}

#[test]
fn root_node_has_depth_zero() {
    let mut graph = StoryGraph::new();
    let mut drama = story_drama(600, 0, 0);
    let c = confirm_node(&story_request(10, None), &mut graph, &mut drama, "ar://frame".to_string(), 30)
        .unwrap();
    assert_eq!(
        graph.get(&story_key(10)),
        Some(&StoryNode {
            drama: story_key(1),
            parent_nodes: vec![],
            contributor: story_key(7),
            frame_uri: "ar://frame".to_string(),
            asset_mints: vec![],
            duration: 30,
            depth: 0,
            visit_count: 0,
            child_count: 0,
            timestamp: 1_700_000_100,
            node_index: 0,
            bump: 253,
        })
    );
    assert_eq!(
        c,
        Confirmation {
            confirmed: NodeConfirmed {
                node: story_key(10),
                drama: story_key(1),
                contributor: story_key(7),
                duration: 30,
                depth: 0,
            },
            progress: ProgressRecords {
                progress: DramaProgressUpdated {
                    drama: story_key(1),
                    added_duration: 30,
                    current_duration: 30,
                },
                completed: None,
            },
        }
    );
    assert_eq!(drama.current_duration, 30);
    assert_eq!(drama.node_count, 1);
    assert_eq!(drama.status, DramaStatus::Ongoing);
}

#[test]
fn child_is_one_deeper_than_its_parent() {
    let mut graph = story_graph_with(20, story_node_at(1, 2, 1));
    let mut drama = story_drama(600, 90, 3);
    let c = confirm_node(
        &story_request(11, Some(20)),
        &mut graph,
        &mut drama,
        "ar://frame".to_string(),
        15,
    )
    .unwrap();
    assert_eq!(c.confirmed.depth, 3);
    let node = graph.get(&story_key(11)).unwrap();
    assert_eq!(node.depth, 3);
    assert_eq!(node.parent_nodes, vec![story_key(20)]);
    assert_eq!(node.node_index, 3);
    assert_eq!(graph.get(&story_key(20)), Some(&story_node_at(1, 2, 1)));
    assert_eq!(drama.node_count, 4);
    assert_eq!(drama.current_duration, 105);
}

#[test]
fn child_of_a_root_has_depth_one() {
    let mut graph = StoryGraph::new();
    let mut drama = story_drama(600, 0, 0);
    confirm_node(&story_request(10, None), &mut graph, &mut drama, "r".to_string(), 1).unwrap();
    let c = confirm_node(&story_request(11, Some(10)), &mut graph, &mut drama, "f".to_string(), 1)
        .unwrap();
    assert_eq!(c.confirmed.depth, 1);
    assert_eq!(graph.get(&story_key(11)).unwrap().depth, 1);
    assert_eq!(graph.get(&story_key(11)).unwrap().node_index, 1);
}

#[test]
fn parent_of_another_drama_is_refused() {
    let mut graph = story_graph_with(20, story_node_at(99, 2, 1));
    let mut drama = story_drama(600, 90, 3);
    let before = drama.clone();
    let r = confirm_node(
        &story_request(11, Some(20)),
        &mut graph,
        &mut drama,
        "ar://frame".to_string(),
        15,
    );
    assert_eq!(r, Err(StoryNodeError::InvalidParentNode));
    assert_eq!(drama, before);
    assert_eq!(graph.get(&story_key(11)), None);
    assert_eq!(graph.nodes.items.len(), 1);
}

#[test]
fn parent_that_does_not_exist_is_refused() {
    let mut graph = story_graph_with(20, story_node_at(1, 2, 1));
    let mut drama = story_drama(600, 90, 3);
    let before = drama.clone();
    let r = confirm_node(
        &story_request(11, Some(21)),
        &mut graph,
        &mut drama,
        "ar://frame".to_string(),
        15,
    );
    assert_eq!(r, Err(StoryNodeError::InvalidParentNode));
    assert_eq!(drama, before);
    assert_eq!(graph.get(&story_key(11)), None);
    assert_eq!(graph.nodes.items.len(), 1);
}

#[test]
fn confirm_on_completed_drama_fails() {
    let mut graph = StoryGraph::new();
    let mut drama = story_drama(600, 90, 3);
    drama.status = DramaStatus::Completed;
    let before = drama.clone();
    let r =
        confirm_node(&story_request(11, None), &mut graph, &mut drama, "ar://frame".to_string(), 15);
    assert_eq!(r, Err(StoryNodeError::DramaCompleted));
    assert_eq!(drama, before);
    assert_eq!(graph.get(&story_key(11)), None);
    let r = drama_ledger::story_node::instructions::confirm_node::handler(
        &story_request(11, None),
        &mut graph,
        &mut drama,
        String::new(),
        0,
    );
    assert!(r.is_err());
    assert_eq!(drama, before);
    assert_eq!(graph.nodes.items.len(), 0);
}

#[test]
fn confirm_rejects_empty_frame_uri() {
    let mut graph = StoryGraph::new();
    let mut drama = story_drama(600, 90, 3);
    let before = drama.clone();
    let r = confirm_node(&story_request(11, None), &mut graph, &mut drama, String::new(), 15);
    assert_eq!(r, Err(StoryNodeError::FrameUriEmpty));
    assert_eq!(drama, before);
    assert_eq!(graph.nodes.items.len(), 0);
}

#[test]
fn confirm_rejects_long_frame_uri() {
    let mut graph = StoryGraph::new();
    let mut drama = story_drama(600, 90, 3);
    let r = confirm_node(&story_request(11, None), &mut graph, &mut drama, "f".repeat(201), 15);
    assert_eq!(r, Err(StoryNodeError::FrameUriTooLong));
    let r =
        confirm_node(&story_request(11, None), &mut graph, &mut drama, "f".repeat(StoryNode::MAX_URI_LEN), 15);
    assert!(r.is_ok());
}

#[test]
fn confirm_rejects_zero_duration() {
    let mut graph = StoryGraph::new();
    let mut drama = story_drama(600, 90, 3);
    let before = drama.clone();
    let r =
        confirm_node(&story_request(11, None), &mut graph, &mut drama, "ar://frame".to_string(), 0);
    assert_eq!(r, Err(StoryNodeError::InvalidDuration));
    assert_eq!(drama, before);
    assert_eq!(graph.nodes.items.len(), 0);
}

#[test]
fn node_indices_strictly_increase() {
    let mut graph = StoryGraph::new();
    let mut drama = story_drama(10_000, 0, 0);
    let mut last: Option<u64> = None;
    for i in 0u8..20 {
        let parent = if i % 3 == 0 { None } else { Some(100 + i - 1) };
        let ctx = story_request(100 + i, parent);
        confirm_node(&ctx, &mut graph, &mut drama, "ar://frame".to_string(), 7).unwrap();
        let node = graph.get(&ctx.node).unwrap();
        if let Some(prev) = last {
            assert!(node.node_index > prev);
        }
        assert_eq!(node.node_index, u64::from(i));
        assert_eq!(node.depth, u16::from(i % 3));
        last = Some(node.node_index);
    }
    assert_eq!(drama.node_count, 20);
    assert_eq!(drama.current_duration, 140);
    assert_eq!(graph.nodes.items.len(), 20);
}

#[test]
fn confirmation_that_reaches_target_completes_the_drama() {
    let mut graph = StoryGraph::new();
    let mut drama = story_drama(100, 90, 3);
    let c =
        confirm_node(&story_request(11, None), &mut graph, &mut drama, "ar://frame".to_string(), 20)
            .unwrap();
    assert_eq!(graph.get(&story_key(11)).unwrap().node_index, 3);
    assert_eq!(
        c.progress.completed,
        Some(DramaCompleted { drama: story_key(1), final_duration: 110 })
    );
    assert_eq!(drama.status, DramaStatus::Completed);
    let r =
        confirm_node(&story_request(12, None), &mut graph, &mut drama, "ar://frame".to_string(), 20);
    assert_eq!(r, Err(StoryNodeError::DramaCompleted));
    assert_eq!(drama.node_count, 4);
    assert_eq!(drama.current_duration, 110);
    assert_eq!(graph.get(&story_key(12)), None);
}

#[test]
fn visit_is_counted() {
    let mut node = story_node_at(1, 0, 0);
    let before = node.clone();
    let ctx = RecordVisit { node: story_key(10), visitor: story_key(8) };
    let r = record_visit(&ctx, &mut node);
    assert_eq!(r, Ok(NodeVisited { node: story_key(10), visitor: story_key(8), visit_count: 1 }));
    let r = drama_ledger::story_node::instructions::record_visit::handler(&ctx, &mut node);
    assert_eq!(r, Ok(NodeVisited { node: story_key(10), visitor: story_key(8), visit_count: 2 }));
    assert_eq!(node, StoryNode { visit_count: 2, ..before });
}

#[test]
fn visit_count_saturates() {
    let mut node = story_node_at(1, 0, 0);
    node.visit_count = u64::MAX;
    let ctx = RecordVisit { node: story_key(10), visitor: story_key(8) };
    let r = record_visit(&ctx, &mut node).unwrap();
    assert_eq!(r.visit_count, u64::MAX);
    assert_eq!(node.visit_count, u64::MAX);
}

#[test]
fn story_node_space() {
    assert_eq!(StoryNode::MAX_PARENTS, 3);
    assert_eq!(StoryNode::MAX_ASSETS, 10);
    assert_eq!(StoryNode::MAX_URI_LEN, 200);
    assert_eq!(StoryNode::SPACE, 731);
}

#[test]
fn story_node_error_messages() {
    assert_eq!(StoryNodeError::FrameUriEmpty.message(), "Frame URI cannot be empty");
    assert_eq!(
        StoryNodeError::FrameUriTooLong.message(),
        "Frame URI exceeds maximum length of 200 characters"
    );
    assert_eq!(StoryNodeError::InvalidDuration.message(), "Duration must be greater than 0");
    assert_eq!(StoryNodeError::TooManyParents.message(), "Too many parent nodes (max 3)");
    assert_eq!(StoryNodeError::TooManyAssets.message(), "Too many assets (max 10)");
    assert_eq!(StoryNodeError::DramaCompleted.message(), "Drama is already completed");
    assert_eq!(StoryNodeError::InvalidParentNode.message(), "Invalid parent node");
}
