use xmbl::compute::{ComputeError, ComputeService, LoadRatio, TaskStatus, TaskType};

#[test]
fn test_compute_service_creation() {
    let service = ComputeService::new("test_node".to_string(), 10);
    assert_eq!(service.node_id, "test_node");
    assert_eq!(service.max_concurrent_tasks, 10);
}

#[test]
fn test_task_submission_and_execution() {
    let mut service = ComputeService::new("test_node".to_string(), 5);
    let wasm_bytes = b"mock_wasm_code".to_vec();
    let input_data = b"test_input".to_vec();

    let task_id = service.submit_task(wasm_bytes, input_data, TaskType::WASM).unwrap();
    let result = service.execute_task(&task_id).unwrap();

    assert!(result.success);
    assert_eq!(result.task_id, task_id);
}

#[test]
fn test_max_concurrent_tasks_error() {
    let mut service = ComputeService::new("test_node".to_string(), 1);
    let wasm_bytes = b"mock_wasm_code".to_vec();
    let input_data = b"test_input".to_vec();
    let _ = service
        .submit_task(wasm_bytes.clone(), input_data.clone(), TaskType::WASM)
        .unwrap();
    let err = service.submit_task(wasm_bytes, input_data, TaskType::WASM);
    assert!(err.is_err());
    assert_eq!(err.unwrap_err().to_string(), "Maximum concurrent tasks reached");
}

#[test]
fn test_execute_task_not_found_error() {
    let mut service = ComputeService::new("test_node".to_string(), 1);
    let err = service.execute_task("nonexistent_id");
    assert!(err.is_err());
    assert_eq!(err.unwrap_err().to_string(), "Task not found");
}

#[test]
fn test_get_task_status_variants() {
    let mut service = ComputeService::new("test_node".to_string(), 2);
    let wasm_bytes = b"mock_wasm_code".to_vec();
    let input_data = b"test_input".to_vec();
    let task_id = service.submit_task(wasm_bytes, input_data, TaskType::WASM).unwrap();
    assert_eq!(service.get_task_status(&task_id), Some(TaskStatus::Running));
    let _ = service.execute_task(&task_id).unwrap();
    assert_eq!(service.get_task_status(&task_id), Some(TaskStatus::Completed));
    assert_eq!(service.get_task_status("bad_id"), None);
}

#[test]
fn test_get_service_stats() {
    let mut service = ComputeService::new("test_node".to_string(), 2);
    let wasm_bytes = b"mock_wasm_code".to_vec();
    let input_data = b"test_input".to_vec();
    let task_id = service.submit_task(wasm_bytes, input_data, TaskType::WASM).unwrap();
    let (active, completed, load) = service.get_service_stats();
    assert_eq!(active, 1);
    assert_eq!(completed, 0);
    assert!(load.active as f64 / load.capacity as f64 > 0.0);
    let _ = service.execute_task(&task_id).unwrap();
    let (active, completed, load) = service.get_service_stats();
    assert_eq!(active, 0);
    assert_eq!(completed, 1);
    assert_eq!(load.active as f64 / load.capacity as f64, 0.0);
}

#[test]
fn test_task_status_enum_variants() {
    let running = TaskStatus::Running;
    let completed = TaskStatus::Completed;
    let failed = TaskStatus::Failed;
    match running {
        TaskStatus::Running => {}
        _ => panic!("Should be running"),
    }
    match completed {
        TaskStatus::Completed => {}
        _ => panic!("Should be completed"),
    }
    match failed {
        TaskStatus::Failed => {}
        _ => panic!("Should be failed"),
    }
}

#[test]
fn output_is_zeros_as_long_as_the_input() {
    let mut service = ComputeService::new("n".to_string(), 3);
    let id = service
        .submit_task_with_id("t1".to_string(), b"wasm".to_vec(), b"12345".to_vec(), TaskType::Batch)
        .unwrap();
    assert_eq!(id, "t1");
    let result = service.execute_task("t1").unwrap();
    assert_eq!(result.output_data, vec![0u8; 5]);
    assert_eq!(result.error_message, None);
    assert!(result.execution_time_ms < 10_000);
    assert_eq!(service.simulate_wasm_execution(b"w", b""), Vec::<u8>::new());
    assert_eq!(service.simulate_wasm_execution(b"w", b"abc"), vec![0, 0, 0]);
}

#[test]
fn completing_a_task_files_the_given_output_and_time() {
    let mut service = ComputeService::new("n".to_string(), 3);
    service
        .submit_task_with_id("t1".to_string(), b"wasm".to_vec(), b"in".to_vec(), TaskType::MPC)
        .unwrap();
    let result = service.complete_task("t1", vec![9, 8], 42).unwrap();
    assert_eq!(result.task_id, "t1");
    assert_eq!(result.output_data, vec![9, 8]);
    assert_eq!(result.execution_time_ms, 42);
    let kept = service.completed_tasks.get("t1").unwrap();
    assert_eq!(kept.output_data, vec![9, 8]);
    assert_eq!(kept.execution_time_ms, 42);
    assert!(service.active_tasks.is_empty());
    assert_eq!(service.current_load, LoadRatio { active: 0, capacity: 3 });
    assert_eq!(
        service.complete_task("t1", vec![], 0).unwrap_err(),
        ComputeError::TaskNotFound
    );
}

#[test]
fn submitted_task_has_the_default_priority_and_updates_the_load() {
    let mut service = ComputeService::new("n".to_string(), 4);
    service
        .submit_task_with_id("a".to_string(), vec![1], vec![2], TaskType::RealTime)
        .unwrap();
    let task = service.active_tasks.get("a").unwrap();
    assert_eq!(task.priority, 1);
    assert_eq!(task.task_type, TaskType::RealTime);
    assert_eq!(task.wasm_bytes, vec![1]);
    assert_eq!(task.input_data, vec![2]);
    assert_eq!(service.current_load, LoadRatio { active: 1, capacity: 4 });
}

#[test]
fn zero_slots_turn_every_task_down() {
    let mut service = ComputeService::new("n".to_string(), 0);
    assert_eq!(
        service.submit_task(vec![], vec![], TaskType::WASM),
        Err(ComputeError::CapacityReached)
    );
    assert_eq!(service.get_service_stats().0, 0);
}
