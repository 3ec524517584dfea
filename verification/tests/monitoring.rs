use xmbl::monitoring::{AlertSeverity, MonitoringService, NetworkIO, SystemMetrics};
use xmbl::registry::Registry;

fn sample(cpu: u64, memory: u64, disk: u64) -> SystemMetrics {
    SystemMetrics {
        timestamp: 0,
        cpu_usage: cpu,
        memory_usage: memory,
        disk_usage: disk,
        network_io: NetworkIO { bytes_in: 0, bytes_out: 0, packets_in: 0, packets_out: 0 },
        custom_metrics: Registry::new(),
    }
}

#[test]
fn test_monitoring_service_creation() {
    let service = MonitoringService::new("test_node".to_string());
    assert_eq!(service.node_id, "test_node");
    assert!(service.monitoring_enabled);
}

#[test]
fn test_metrics_collection() {
    let mut service = MonitoringService::new("test_node".to_string());
    let metrics = service.collect_metrics();

    assert!(metrics.cpu_usage <= 1000);
    assert!(metrics.memory_usage <= 1000);
    assert!(metrics.disk_usage <= 1000);
}

#[test]
fn test_alert_creation() {
    let mut service = MonitoringService::new("test_node".to_string());
    let metrics = sample(950, 500, 500);

    service.check_alerts(&metrics);
    assert!(!service.get_active_alerts().is_empty());
}

#[test]
fn collected_metrics_lie_in_their_ranges_and_are_recorded() {
    let mut service = MonitoringService::new("n".to_string());
    for round in 1..=20usize {
        let metrics = service.collect_metrics();
        assert!((250..350).contains(&metrics.cpu_usage));
        assert!((450..550).contains(&metrics.memory_usage));
        assert!((600..700).contains(&metrics.disk_usage));
        assert!((1_000_000..1_100_000).contains(&metrics.network_io.bytes_in));
        assert!((500_000..550_000).contains(&metrics.network_io.bytes_out));
        assert!((1000..1100).contains(&metrics.network_io.packets_in));
        assert!((500..550).contains(&metrics.network_io.packets_out));
        assert!(metrics.timestamp > 1_600_000_000);
        assert_eq!(metrics.custom_metrics.len(), 3);
        assert_eq!(metrics.custom_metrics.key_at(0), "active_connections");
        assert_eq!(metrics.custom_metrics.key_at(1), "response_time_ms");
        assert_eq!(metrics.custom_metrics.key_at(2), "error_rate");
        assert!((15_000..20_000).contains(metrics.custom_metrics.get("active_connections").unwrap()));
        assert!((25_000..35_000).contains(metrics.custom_metrics.get("response_time_ms").unwrap()));
        assert!((10..30).contains(metrics.custom_metrics.get("error_rate").unwrap()));
        assert_eq!(service.metrics_history.len(), round);
        let newest = service.get_metrics_summary().unwrap();
        assert_eq!(newest.cpu_usage, metrics.cpu_usage);
        assert_eq!(newest.network_io, metrics.network_io);
        assert_eq!(newest.custom_metrics.get("error_rate"), metrics.custom_metrics.get("error_rate"));
    }
}

#[test]
fn history_keeps_the_newest_thousand_samples() {
    let mut service = MonitoringService::new("n".to_string());
    assert!(service.get_metrics_summary().is_none());
    for i in 0..1005u64 {
        service.record_metrics(sample(i, 0, 0));
    }
    assert_eq!(service.metrics_history.len(), 1000);
    assert_eq!(service.metrics_history[0].cpu_usage, 5);
    assert_eq!(service.get_metrics_summary().unwrap().cpu_usage, 1004);
}

#[test]
fn alerts_are_raised_above_the_thresholds_only() {
    let at_threshold = MonitoringService::alerts_due(&sample(900, 950, 900));
    assert!(at_threshold.is_empty());
    let above = MonitoringService::alerts_due(&sample(901, 951, 1000));
    assert_eq!(
        above,
        vec![
            (AlertSeverity::Warning, "High CPU usage: 90.1%".to_string()),
            (AlertSeverity::Critical, "Critical memory usage: 95.1%".to_string()),
            (AlertSeverity::Warning, "High disk usage: 100.0%".to_string()),
        ]
    );
    let memory_only = MonitoringService::alerts_due(&sample(0, 999, 7));
    assert_eq!(
        memory_only,
        vec![(AlertSeverity::Critical, "Critical memory usage: 99.9%".to_string())]
    );
}

#[test]
fn percentages_have_one_decimal_place() {
    let mut text = String::from("x=");
    MonitoringService::append_percent(&mut text, 0);
    assert_eq!(text, "x=0.0%");
    let mut text = String::new();
    MonitoringService::append_percent(&mut text, 950);
    assert_eq!(text, "95.0%");
    let mut text = String::new();
    MonitoringService::append_percent(&mut text, 12_345);
    assert_eq!(text, "1234.5%");
}

#[test]
fn raised_alerts_are_active_and_in_the_history() {
    let mut service = MonitoringService::new("n".to_string());
    service.check_alerts(&sample(950, 990, 100));
    assert_eq!(service.alert_history.len(), 2);
    assert_eq!(service.alert_history[0].severity, AlertSeverity::Warning);
    assert_eq!(service.alert_history[0].message, "High CPU usage: 95.0%");
    assert_eq!(service.alert_history[1].severity, AlertSeverity::Critical);
    assert_eq!(service.alert_history[1].message, "Critical memory usage: 99.0%");
    let active = service.get_active_alerts();
    assert_eq!(active.len(), 2);
    assert_eq!(active[0].alert_id, service.alert_history[0].alert_id);
    assert_eq!(active[1].alert_id, service.alert_history[1].alert_id);
    assert_eq!(active[0].alert_id.len(), 36);
    assert!(!active[0].acknowledged);
    assert!(active[0].timestamp > 1_600_000_000);
    service.check_alerts(&sample(0, 0, 0));
    assert_eq!(service.alert_history.len(), 2);
}

#[test]
fn created_alert_carries_what_it_was_given() {
    let mut service = MonitoringService::new("n".to_string());
    service.create_alert_as("a1".to_string(), AlertSeverity::Error, "broken".to_string(), 12);
    service.create_alert(AlertSeverity::Info, "fyi".to_string());
    let alert = service.active_alerts.get("a1").unwrap();
    assert_eq!(alert.alert_id, "a1");
    assert_eq!(alert.severity, AlertSeverity::Error);
    assert_eq!(alert.message, "broken");
    assert_eq!(alert.timestamp, 12);
    assert!(!alert.acknowledged);
    assert_eq!(service.alert_history.len(), 2);
    assert_eq!(service.alert_history[1].message, "fyi");
    assert_eq!(service.alert_history[1].severity, AlertSeverity::Info);
    assert_eq!(service.active_alerts.len(), 2);
}

#[test]
fn acknowledging_marks_the_active_alert_only() {
    let mut service = MonitoringService::new("n".to_string());
    service.create_alert_as("a1".to_string(), AlertSeverity::Error, "broken".to_string(), 12);
    service.create_alert_as("a2".to_string(), AlertSeverity::Info, "fyi".to_string(), 13);
    service.acknowledge_alert("a1");
    service.acknowledge_alert("missing");
    assert!(service.active_alerts.get("a1").unwrap().acknowledged);
    assert_eq!(service.active_alerts.get("a1").unwrap().message, "broken");
    assert!(!service.active_alerts.get("a2").unwrap().acknowledged);
    assert!(!service.alert_history[0].acknowledged);
    assert_eq!(service.active_alerts.len(), 2);
    assert_eq!(service.active_alerts.key_at(0), "a1");
}

#[test]
fn custom_metrics_are_three_named_values() {
    let metrics = MonitoringService::custom_metrics_from(1, 2, 3);
    assert_eq!(metrics.len(), 3);
    assert_eq!(metrics.get("active_connections"), Some(&1));
    assert_eq!(metrics.get("response_time_ms"), Some(&2));
    assert_eq!(metrics.get("error_rate"), Some(&3));
    let copy = sample(1, 2, 3).duplicate();
    assert_eq!((copy.cpu_usage, copy.memory_usage, copy.disk_usage), (1, 2, 3));
}
