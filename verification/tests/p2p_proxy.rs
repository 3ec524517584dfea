use xmbl::p2p_proxy::{P2PMessage, P2PProxy, P2PResponse, ProxyError, Route};
use xmbl::registry::Registry;

fn request(kind: &str) -> P2PMessage {
    P2PMessage {
        message_type: kind.to_string(),
        data: None,
        redundancy: None,
        from: "browser".to_string(),
        shard_id: None,
        wasm_bytes: None,
        input_data: None,
        timestamp: None,
    }
}

fn answer(success: bool, message: &str, result: Option<Vec<u8>>) -> P2PResponse {
    P2PResponse { success, message: message.to_string(), data: None, shard_id: None, result }
}

#[test]
fn proxy_knows_the_four_default_nodes() {
    let proxy = P2PProxy::new();
    assert_eq!(proxy.nodes.len(), 4);
    assert_eq!(proxy.node_address("node_001").unwrap(), "127.0.0.1:3001");
    assert_eq!(proxy.node_address("node_002").unwrap(), "127.0.0.1:3002");
    assert_eq!(proxy.node_address("node_003").unwrap(), "127.0.0.1:3003");
    assert_eq!(proxy.node_address("node_004").unwrap(), "127.0.0.1:3004");
    match proxy.node_address("node_005") {
        Err(e) => {
            assert!(matches!(e, ProxyError::NodeNotFound));
            assert_eq!(e.to_string(), "Node not found");
        }
        Ok(found) => panic!("expected no node, got {}", found),
    }
}

#[test]
fn copies_go_round_the_nodes() {
    let proxy = P2PProxy::new();
    let expected = ["node_001", "node_002", "node_003", "node_004", "node_001", "node_002"];
    for (index, node) in expected.iter().enumerate() {
        let (node_id, shard_id, message) = proxy.storage_order(index as u32, b"data", 6, 1700000000);
        assert_eq!(&node_id, node);
        assert_eq!(shard_id, format!("shard_1700000000_{}_{}", index, node));
        assert_eq!(message.message_type, "StoreRequest");
        assert_eq!(message.data, Some(b"data".to_vec()));
        assert_eq!(message.redundancy, Some(6));
        assert_eq!(message.from, "p2p_client");
        assert_eq!(message.shard_id, Some(shard_id));
        assert_eq!(message.wasm_bytes, None);
        assert_eq!(message.input_data, None);
        assert_eq!(message.timestamp, Some(1700000000));
    }
}

#[test]
fn only_delivered_copies_are_reported() {
    let ids = vec!["a".to_string(), "b".to_string(), "c".to_string(), "d".to_string()];
    assert_eq!(
        P2PProxy::collect_stored(&ids, &vec![true, false, true, true]),
        vec!["a", "c", "d"]
    );
    assert_eq!(P2PProxy::collect_stored(&ids, &vec![true]), vec!["a"]);
    assert!(P2PProxy::collect_stored(&ids, &vec![]).is_empty());
    assert!(P2PProxy::collect_stored(&vec![], &vec![true]).is_empty());
}

#[test]
fn task_goes_to_the_first_node() {
    let proxy = P2PProxy::new();
    let (node_id, message) = proxy.compute_order(b"wasm", b"input", 5).unwrap();
    assert_eq!(node_id, "node_001");
    assert_eq!(message.message_type, "ComputeRequest");
    assert_eq!(message.wasm_bytes, Some(b"wasm".to_vec()));
    assert_eq!(message.input_data, Some(b"input".to_vec()));
    assert_eq!(message.from, "p2p_client");
    assert_eq!(message.data, None);
    assert_eq!(message.redundancy, None);
    assert_eq!(message.shard_id, None);
    assert_eq!(message.timestamp, Some(5));
    let empty = P2PProxy { nodes: Registry::new() };
    match empty.compute_order(b"wasm", b"input", 5) {
        Err(e) => assert_eq!(e.to_string(), "No compute nodes available"),
        Ok(_) => panic!("expected no node"),
    }
}

#[test]
fn answer_of_the_node_decides_the_task() {
    assert_eq!(
        P2PProxy::compute_result(answer(true, "ok", Some(vec![1, 2]))).unwrap(),
        vec![1, 2]
    );
    match P2PProxy::compute_result(answer(true, "ok", None)) {
        Err(e) => assert_eq!(e.to_string(), "No result data received"),
        Ok(_) => panic!("expected a failure"),
    }
    match P2PProxy::compute_result(answer(false, "node is busy", Some(vec![1]))) {
        Err(e) => assert_eq!(e.to_string(), "node is busy"),
        Ok(_) => panic!("expected a failure"),
    }
}

#[test]
fn unreadable_answer_counts_as_forwarded() {
    let fallback = P2PProxy::reply_or_fallback(None);
    assert!(fallback.success);
    assert_eq!(fallback.message, "Message forwarded to node");
    assert_eq!(fallback.data, None);
    assert_eq!(fallback.shard_id, None);
    assert_eq!(fallback.result, None);
    let sent = P2PProxy::reply_or_fallback(Some(answer(false, "no", Some(vec![3]))));
    assert!(!sent.success);
    assert_eq!(sent.message, "no");
    assert_eq!(sent.result, Some(vec![3]));
}

#[test]
fn requests_are_routed_by_kind_and_completeness() {
    let mut store = request("StoreRequest");
    assert_eq!(P2PProxy::route(&store), Route::Incomplete);
    store.data = Some(vec![1]);
    assert_eq!(P2PProxy::route(&store), Route::Incomplete);
    store.redundancy = Some(3);
    assert_eq!(P2PProxy::route(&store), Route::Store { redundancy: 3 });
    let mut compute = request("ComputeRequest");
    compute.wasm_bytes = Some(vec![1]);
    assert_eq!(P2PProxy::route(&compute), Route::Incomplete);
    compute.input_data = Some(vec![]);
    assert_eq!(P2PProxy::route(&compute), Route::Compute);
    assert_eq!(P2PProxy::route(&request("Ping")), Route::Unknown);
    assert_eq!(P2PProxy::route(&request("storerequest")), Route::Unknown);
}

#[test]
fn clients_are_told_what_came_of_their_request() {
    let stored = P2PProxy::store_response(3);
    assert!(stored.success);
    assert_eq!(stored.message, "File stored with 3x redundancy");
    assert_eq!(stored.result, None);
    let failed = P2PProxy::store_failure("disk on fire");
    assert!(!failed.success);
    assert_eq!(failed.message, "Storage failed: disk on fire");
    let computed = P2PProxy::compute_response(Ok(vec![7]));
    assert!(computed.success);
    assert_eq!(computed.message, "Compute completed successfully");
    assert_eq!(computed.result, Some(vec![7]));
    let lost = P2PProxy::compute_response(Err(ProxyError::NoResultData));
    assert!(!lost.success);
    assert_eq!(lost.message, "Compute failed: No result data received");
    let remote = P2PProxy::compute_response(Err(ProxyError::Remote("boom".to_string())));
    assert_eq!(remote.message, "Compute failed: boom");
    let none = P2PProxy::compute_response(Err(ProxyError::NoComputeNodes));
    assert_eq!(none.message, "Compute failed: No compute nodes available");
}
