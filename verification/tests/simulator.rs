use xmbl::registry::Registry;
use xmbl::simulator::{
    MockNodeCapabilities, NodePerformance, NodeStatus, SimulatorService,
};

#[test]
fn test_simulator_service_creation() {
    let service = SimulatorService::new("test_node".to_string());
    assert_eq!(service.node_id, "test_node");
}

#[test]
fn test_network_creation_and_scenario() {
    let mut service = SimulatorService::new("test_node".to_string());

    service.create_network(5);
    let (total, online) = service.get_network_stats();
    assert_eq!(total, 5);
    assert_eq!(online, 5);

    let mut params = Registry::new();
    params.insert("test_param".to_string(), "test_value".to_string());

    let scenario_id = service.run_scenario(
        "Test Scenario".to_string(),
        "A test scenario".to_string(),
        params,
    );

    assert!(service.get_scenario_results(&scenario_id).is_some());
}

#[test]
fn simulated_nodes_grow_with_their_number() {
    let first = SimulatorService::simulated_node(0);
    assert_eq!(first.node_id, "node_0");
    assert_eq!(first.identity.node_id, "node_0");
    assert_eq!(first.identity.public_key, vec![0u8; 32]);
    assert_eq!(
        first.capabilities,
        MockNodeCapabilities { storage_gb: 1000, compute_flops: 1_000_000_000, bandwidth_mbps: 100 }
    );
    assert_eq!(first.status, NodeStatus::Online);
    assert_eq!(
        first.performance,
        NodePerformance { cpu_usage: 100, memory_usage: 200, network_latency: 10_000, response_time: 50_000 }
    );
    let later = SimulatorService::simulated_node(300);
    assert_eq!(later.node_id, "node_300");
    assert_eq!(later.identity.public_key, vec![44u8; 32]);
    assert_eq!(
        later.capabilities,
        MockNodeCapabilities { storage_gb: 31_000, compute_flops: 31_000_000_000, bandwidth_mbps: 3100 }
    );
    assert_eq!(
        later.performance,
        NodePerformance {
            cpu_usage: 15_100,
            memory_usage: 9_200,
            network_latency: 610_000,
            response_time: 3_050_000,
        }
    );
}

#[test]
fn network_is_made_in_order_and_making_it_again_adds_nothing() {
    let mut service = SimulatorService::new("n".to_string());
    service.create_network(0);
    assert_eq!(service.get_network_stats(), (0, 0));
    service.create_network(12);
    service.create_network(3);
    assert_eq!(service.nodes.len(), 12);
    assert_eq!(service.nodes.key_at(0), "node_0");
    assert_eq!(service.nodes.key_at(10), "node_10");
    assert_eq!(service.nodes.key_at(11), "node_11");
    assert_eq!(service.nodes.get("node_7").unwrap().capabilities.storage_gb, 1700);
}

#[test]
fn only_online_nodes_count_as_online() {
    let mut service = SimulatorService::new("n".to_string());
    service.create_network(4);
    for (id, status) in [("node_1", NodeStatus::Offline), ("node_3", NodeStatus::Available)] {
        let mut node = service.nodes.get(id).unwrap().clone();
        node.status = status;
        service.nodes.insert(id.to_string(), node);
    }
    assert_eq!(service.get_network_stats(), (4, 2));
    let metrics = service.generate_metrics();
    assert_eq!(metrics.get("total_nodes"), Some(&4000));
    assert_eq!(metrics.get("online_nodes"), Some(&2000));
    assert_eq!(metrics.get("avg_cpu_usage"), Some(&250));
    assert_eq!(metrics.get("avg_memory_usage"), Some(&450));
    assert_eq!(metrics.get("avg_network_latency"), Some(&15_000));
    assert_eq!(metrics.len(), 5);
}

#[test]
fn scenario_and_result_are_recorded_under_one_identifier() {
    let mut service = SimulatorService::new("n".to_string());
    service.create_network(2);
    let mut params = Registry::new();
    params.insert("k".to_string(), "v".to_string());
    let id = service.record_scenario(
        "s1".to_string(),
        "Name".to_string(),
        "About".to_string(),
        params,
        false,
        321,
    );
    assert_eq!(id, "s1");
    let scenario = service.scenarios.get("s1").unwrap();
    assert_eq!(scenario.scenario_id, "s1");
    assert_eq!(scenario.name, "Name");
    assert_eq!(scenario.description, "About");
    assert_eq!(scenario.parameters.get("k"), Some(&"v".to_string()));
    let result = service.get_scenario_results("s1").unwrap();
    assert_eq!(result.scenario_id, "s1");
    assert!(!result.success);
    assert_eq!(result.duration_ms, 321);
    assert_eq!(result.error_message, None);
    assert_eq!(result.metrics.get("total_nodes"), Some(&2000));
    assert!(service.get_scenario_results("s2").is_none());
}

#[test]
fn run_scenario_succeeds_under_a_fresh_identifier() {
    let mut service = SimulatorService::new("n".to_string());
    let first = service.run_scenario("a".to_string(), "b".to_string(), Registry::new());
    let second = service.run_scenario("a".to_string(), "b".to_string(), Registry::new());
    assert_eq!(first.len(), 36);
    assert_ne!(first, second);
    let result = service.get_scenario_results(&first).unwrap();
    assert!(result.success);
    assert!(result.duration_ms < 10_000);
    assert!(service.execute_scenario(&first));
    assert_eq!(service.results.len(), 2);
}
