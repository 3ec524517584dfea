use xmbl::network::{
    Handling, MessageType, MockNodeCapabilities, NetworkError, NetworkNode, NetworkService,
    NodeStatus,
};

fn node(id: &str, status: NodeStatus) -> NetworkNode {
    NetworkNode {
        node_id: id.to_string(),
        address: format!("{}:1", id),
        capabilities: MockNodeCapabilities { storage_gb: 1, compute_flops: 1, bandwidth_mbps: 1 },
        status,
    }
}

#[test]
fn test_network_service_creation() {
    let service = NetworkService::new("test_node".to_string());
    assert_eq!(service.node_id, "test_node");
}

#[test]
fn test_node_discovery() {
    let mut service = NetworkService::new("test_node".to_string());
    service.discover_nodes();
    assert!(!service.nodes.is_empty());
}

#[test]
fn test_message_sending() {
    let mut service = NetworkService::new("test_node".to_string());
    let result = service.send_message("target_node".to_string(), b"hello".to_vec(), MessageType::Data);
    assert!(result.is_ok());
}

#[test]
fn discovery_records_the_mock_node_once() {
    let mut service = NetworkService::new("n".to_string());
    service.discover_nodes();
    service.discover_nodes();
    assert_eq!(service.nodes.len(), 1);
    let found = service.nodes.get("mock_node_1").unwrap();
    assert_eq!(found.node_id, "mock_node_1");
    assert_eq!(found.address, "127.0.0.1:8080");
    assert_eq!(found.status, NodeStatus::Online);
    assert_eq!(
        found.capabilities,
        MockNodeCapabilities { storage_gb: 1000, compute_flops: 1_000_000_000, bandwidth_mbps: 100 }
    );
}

#[test]
fn sent_message_is_queued_with_a_fresh_identifier() {
    let mut service = NetworkService::new("me".to_string());
    service.send_message("you".to_string(), b"hello".to_vec(), MessageType::Data).unwrap();
    service.send_message_with_id("m2".to_string(), "them".to_string(), vec![], MessageType::Ping).unwrap();
    assert_eq!(service.pending.len(), 2);
    let first = &service.pending[0];
    assert_eq!(first.id.len(), 36);
    assert_eq!(first.from, "me");
    assert_eq!(first.to, "you");
    assert_eq!(first.payload, b"hello".to_vec());
    assert_eq!(first.message_type, MessageType::Data);
    assert_eq!(service.pending[1].id, "m2");
    assert_eq!(service.pending[1].to, "them");
}

#[test]
fn full_queue_turns_messages_down() {
    let mut service = NetworkService::new("me".to_string());
    for _ in 0..100 {
        service.send_message("you".to_string(), vec![], MessageType::Control).unwrap();
    }
    let refused = service.send_message("you".to_string(), vec![], MessageType::Control);
    assert_eq!(refused, Err(NetworkError::QueueFull));
    assert_eq!(service.pending.len(), 100);
    assert_eq!(NetworkError::QueueFull.to_string(), "Failed to send message: queue full");
}

#[test]
fn processing_drains_the_queue_and_handles_by_kind() {
    let mut service = NetworkService::new("me".to_string());
    let kinds = [
        MessageType::Ping,
        MessageType::Data,
        MessageType::Pong,
        MessageType::Control,
        MessageType::Discovery,
        MessageType::Data,
    ];
    for kind in kinds {
        service.send_message("you".to_string(), vec![1], kind).unwrap();
    }
    let handled = service.process_messages();
    assert_eq!(
        handled,
        vec![
            Handling::Ping,
            Handling::Data,
            Handling::Dropped,
            Handling::Dropped,
            Handling::Dropped,
            Handling::Data,
        ]
    );
    assert!(service.pending.is_empty());
    assert!(service.process_messages().is_empty());
}

#[test]
fn start_discovers_then_processes() {
    let mut service = NetworkService::new("me".to_string());
    service.send_message("you".to_string(), vec![1], MessageType::Ping).unwrap();
    let handled = service.start();
    assert_eq!(handled, vec![Handling::Ping]);
    assert!(service.nodes.contains_key("mock_node_1"));
    assert!(service.pending.is_empty());
}

#[test]
fn connected_nodes_are_the_online_and_available_ones_in_order() {
    let mut service = NetworkService::new("me".to_string());
    for (id, status) in [
        ("a", NodeStatus::Offline),
        ("b", NodeStatus::Online),
        ("c", NodeStatus::Busy),
        ("d", NodeStatus::Available),
        ("e", NodeStatus::Online),
    ] {
        service.nodes.insert(id.to_string(), node(id, status));
    }
    let ids: Vec<&str> = service.get_connected_nodes().iter().map(|n| n.node_id.as_str()).collect();
    assert_eq!(ids, vec!["b", "d", "e"]);
    assert!(NodeStatus::Online.is_reachable());
    assert!(NodeStatus::Available.is_reachable());
    assert!(!NodeStatus::Busy.is_reachable());
    assert!(!NodeStatus::Offline.is_reachable());
}
