use xmbl::distribution::{
    acknowledged, distribute, handed_over, retrieve, Exchange, FanoutError, RetrieveFanout,
    StoreFanout,
};
use xmbl::p2p_node::{NodeCapabilities, P2PMessage, P2PNode, PeerInfo};

fn stored(id: &str) -> Exchange {
    Exchange::Reply(P2PMessage::StoreResponse {
        shard_id: id.to_string(),
        success: true,
        message: "Data stored successfully".to_string(),
    })
}

fn refused() -> Exchange {
    Exchange::Reply(P2PMessage::StoreResponse {
        shard_id: String::new(),
        success: false,
        message: "Storage failed: Insufficient storage space".to_string(),
    })
}

fn handed(bytes: &[u8]) -> Exchange {
    Exchange::Reply(P2PMessage::RetrieveResponse {
        data: Some(bytes.to_vec()),
        success: true,
        message: "Data retrieved successfully".to_string(),
    })
}

fn missing() -> Exchange {
    Exchange::Reply(P2PMessage::RetrieveResponse {
        data: None,
        success: false,
        message: "Retrieval failed: Shard not found".to_string(),
    })
}

fn swarm(node_id: &str, peers: usize) -> P2PNode {
    let mut node = P2PNode::new(node_id.to_string(), "127.0.0.1:1".to_string(), 1000);
    for i in 0..peers {
        node.upsert_peer(PeerInfo {
            node_id: format!("peer-{}", i),
            address: format!("10.0.0.{}:4000", i),
            capabilities: NodeCapabilities { storage_gb: 1, compute_flops: 1, bandwidth_mbps: 1 },
            last_seen: 1,
        });
    }
    node
}

#[test]
fn five_wanted_two_reachable_yields_two_shard_ids() {
    let exchanges = vec![
        Exchange::Unreachable,
        stored("s1"),
        Exchange::NoReply,
        stored("s2"),
        Exchange::Unreachable,
        refused(),
    ];
    assert_eq!(distribute(&exchanges, 5), Ok(vec!["s1".to_string(), "s2".to_string()]));
}

#[test]
fn five_wanted_none_reachable_is_a_total_failure() {
    let exchanges = vec![Exchange::Unreachable, Exchange::Unreachable, Exchange::NoReply];
    assert_eq!(distribute(&exchanges, 5), Err(FanoutError::TotalDistributionFailure));
    assert_eq!(distribute(&vec![], 5), Err(FanoutError::TotalDistributionFailure));
}

#[test]
fn distribution_stops_at_the_number_wanted() {
    let exchanges = vec![stored("a"), stored("b"), stored("c"), stored("d")];
    assert_eq!(distribute(&exchanges, 2), Ok(vec!["a".to_string(), "b".to_string()]));
    assert_eq!(distribute(&exchanges, 1), Ok(vec!["a".to_string()]));
    assert_eq!(distribute(&exchanges, 4).unwrap().len(), 4);
    assert_eq!(distribute(&exchanges, 200).unwrap().len(), 4);
}

#[test]
fn nothing_wanted_is_a_total_failure() {
    let exchanges = vec![stored("a")];
    assert_eq!(distribute(&exchanges, 0), Err(FanoutError::TotalDistributionFailure));
}

#[test]
fn answers_of_another_kind_and_refusals_are_passed_over() {
    let exchanges = vec![
        refused(),
        Exchange::Reply(P2PMessage::Pong { from: "p".to_string(), timestamp: 0 }),
        handed(b"x"),
        stored("late"),
    ];
    assert_eq!(distribute(&exchanges, 3), Ok(vec!["late".to_string()]));
    assert_eq!(acknowledged(&exchanges[0]), None);
    assert_eq!(acknowledged(&exchanges[1]), None);
    assert_eq!(acknowledged(&exchanges[3]), Some("late".to_string()));
}

#[test]
fn retrieval_returns_the_first_payload() {
    let exchanges = vec![Exchange::Unreachable, missing(), handed(b"first"), handed(b"second")];
    assert_eq!(retrieve(&exchanges), Ok(b"first".to_vec()));
    assert_eq!(handed_over(&exchanges[2]), Some(b"first".to_vec()));
    assert_eq!(handed_over(&exchanges[1]), None);
}

#[test]
fn retrieval_fails_where_no_peer_hands_bytes_over() {
    let exchanges = vec![Exchange::Unreachable, missing(), Exchange::NoReply, stored("s")];
    assert_eq!(retrieve(&exchanges), Err(FanoutError::TotalRetrievalFailure));
    assert_eq!(retrieve(&vec![]), Err(FanoutError::TotalRetrievalFailure));
}

#[test]
fn success_without_payload_is_passed_over() {
    let hollow = Exchange::Reply(P2PMessage::RetrieveResponse {
        data: None,
        success: true,
        message: "Data retrieved successfully".to_string(),
    });
    assert_eq!(handed_over(&hollow), None);
    assert_eq!(retrieve(&vec![hollow, handed(b"real")]), Ok(b"real".to_vec()));
}

#[test]
fn store_plan_asks_peers_in_order_until_enough_have_stored() {
    let node = swarm("me", 4);
    let mut plan = node.store_data_on_network(b"data".to_vec(), 2);
    match plan.next_request() {
        P2PMessage::StoreRequest { data, redundancy, from } => {
            assert_eq!(data, b"data".to_vec());
            assert_eq!(redundancy, 1);
            assert_eq!(from, "me");
        }
        other => panic!("expected a store request, got {:?}", other),
    }
    assert_eq!(plan.next_target().unwrap(), "10.0.0.0:4000");
    plan = plan.record(Exchange::Unreachable);
    assert_eq!(plan.next_target().unwrap(), "10.0.0.1:4000");
    plan = plan.record(stored("s1"));
    assert_eq!(plan.next_target().unwrap(), "10.0.0.2:4000");
    plan = plan.record(stored("s2"));
    assert!(plan.next_target().is_none());
    plan = plan.record(stored("ignored"));
    assert_eq!(plan.outcome(), Ok(vec!["s1".to_string(), "s2".to_string()]));
}

#[test]
fn store_plan_with_five_wanted_and_two_reachable_peers_degrades() {
    let node = swarm("me", 3);
    let mut plan = node.store_data_on_network(vec![1, 2, 3], 5);
    let answers = vec![stored("a"), Exchange::Unreachable, stored("c")];
    let mut asked = Vec::new();
    for answer in answers {
        asked.push(plan.next_target().unwrap().clone());
        plan = plan.record(answer);
    }
    assert!(plan.next_target().is_none());
    assert_eq!(asked, vec!["10.0.0.0:4000", "10.0.0.1:4000", "10.0.0.2:4000"]);
    assert_eq!(plan.outcome(), Ok(vec!["a".to_string(), "c".to_string()]));
}

#[test]
fn store_plan_without_reachable_peers_fails() {
    let node = swarm("me", 2);
    let mut plan = node.store_data_on_network(vec![1], 5);
    plan = plan.record(Exchange::Unreachable);
    plan = plan.record(Exchange::NoReply);
    assert!(plan.next_target().is_none());
    assert_eq!(plan.outcome(), Err(FanoutError::TotalDistributionFailure));
    let lonely = swarm("me", 0).store_data_on_network(vec![1], 1);
    assert!(lonely.next_target().is_none());
    assert_eq!(lonely.outcome(), Err(FanoutError::TotalDistributionFailure));
}

#[test]
fn retrieve_plan_stops_at_the_first_peer_that_hands_bytes_over() {
    let node = swarm("me", 3);
    let mut plan = node.retrieve_data_from_network("shard-9");
    match plan.next_request() {
        P2PMessage::RetrieveRequest { shard_id, from } => {
            assert_eq!(shard_id, "shard-9");
            assert_eq!(from, "me");
        }
        other => panic!("expected a retrieve request, got {:?}", other),
    }
    assert_eq!(plan.next_target().unwrap(), "10.0.0.0:4000");
    plan = plan.record(missing());
    assert_eq!(plan.outcome(), Err(FanoutError::TotalRetrievalFailure));
    assert_eq!(plan.next_target().unwrap(), "10.0.0.1:4000");
    plan = plan.record(handed(b"bytes"));
    assert!(plan.next_target().is_none());
    plan = plan.record(handed(b"later"));
    assert_eq!(plan.outcome(), Ok(b"bytes".to_vec()));
}

#[test]
fn retrieve_plan_fails_after_every_peer_was_asked_in_vain() {
    let mut plan = RetrieveFanout::new(
        "me".to_string(),
        vec!["a:1".to_string(), "b:2".to_string()],
        "s".to_string(),
    );
    plan = plan.record(Exchange::Unreachable);
    plan = plan.record(Exchange::NoReply);
    assert!(plan.next_target().is_none());
    assert_eq!(plan.outcome(), Err(FanoutError::TotalRetrievalFailure));
}

#[test]
fn bytes_stored_on_the_swarm_come_back_from_the_swarm() {
    let mut peers = vec![
        P2PNode::new("full".to_string(), "a0".to_string(), 0),
        P2PNode::new("left".to_string(), "a1".to_string(), 64),
        P2PNode::new("right".to_string(), "a2".to_string(), 64),
    ];
    let addresses = vec!["a0".to_string(), "a1".to_string(), "a2".to_string()];
    let payload = b"replicated".to_vec();
    let mut plan = StoreFanout::new("client".to_string(), addresses.clone(), payload.clone(), 2);
    let mut at = 0;
    while plan.next_target().is_some() {
        let request = plan.next_request();
        let answer = peers[at].process_message(request);
        plan = plan.record(Exchange::Reply(answer));
        at += 1;
    }
    let shard_ids = plan.outcome().unwrap();
    assert_eq!(shard_ids.len(), 2);
    for shard_id in &shard_ids {
        let mut fetch = RetrieveFanout::new("client".to_string(), addresses.clone(), shard_id.clone());
        let mut at = 0;
        while fetch.next_target().is_some() {
            let request = fetch.next_request();
            let answer = peers[at].process_message(request);
            fetch = fetch.record(Exchange::Reply(answer));
            at += 1;
        }
        assert_eq!(fetch.outcome(), Ok(payload.clone()));
    }
}

#[test]
fn fanout_error_texts() {
    assert_eq!(
        FanoutError::TotalDistributionFailure.to_string(),
        "Failed to store data on any peers"
    );
    assert_eq!(
        FanoutError::TotalRetrievalFailure.to_string(),
        "Failed to retrieve data from any peers"
    );
}
