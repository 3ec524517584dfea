use xmbl::contracts::{ContractError, ContractService, ContractStatus};

#[test]
fn test_contract_service_creation() {
    let service = ContractService::new("test_node".to_string());
    assert_eq!(service.node_id, "test_node");
}

#[test]
fn test_contract_deployment_and_execution() {
    let mut service = ContractService::new("test_node".to_string());

    let contract_id = service
        .deploy_contract(
            "TestContract".to_string(),
            "contract code here".to_string(),
            "alice".to_string(),
        )
        .unwrap();

    let result = service
        .execute_contract(
            &contract_id,
            "bob".to_string(),
            "testFunction".to_string(),
            b"test_params".to_vec(),
        )
        .unwrap();

    assert!(!result.is_empty());
    assert!(service.get_contract(&contract_id).is_some());
}

#[test]
fn execution_result_names_the_function_and_the_parameter_length() {
    let mut service = ContractService::new("n".to_string());
    let id = service.deploy_contract_as(
        "c1".to_string(),
        "Name".to_string(),
        "code".to_string(),
        "owner".to_string(),
        5,
    );
    assert_eq!(id, "c1");
    let result = service
        .execute_contract_as(
            "e1".to_string(),
            "c1",
            "bob".to_string(),
            "testFunction".to_string(),
            b"test_params".to_vec(),
            9,
        )
        .unwrap();
    assert_eq!(result, b"executed_testFunction_11".to_vec());
    let run = service.executions.get("e1").unwrap();
    assert_eq!(run.execution_id, "e1");
    assert_eq!(run.contract_id, "c1");
    assert_eq!(run.caller, "bob");
    assert_eq!(run.function, "testFunction");
    assert_eq!(run.parameters, b"test_params".to_vec());
    assert_eq!(run.result, b"executed_testFunction_11".to_vec());
    assert_eq!(run.gas_used, 1100);
    assert_eq!(run.timestamp, 9);
}

#[test]
fn gas_is_a_hundred_per_parameter_byte() {
    let service = ContractService::new("n".to_string());
    assert_eq!(service.calculate_gas_usage(b""), 0);
    assert_eq!(service.calculate_gas_usage(b"a"), 100);
    assert_eq!(service.calculate_gas_usage(&[0u8; 250]), 25_000);
}

#[test]
fn simulated_execution_handles_empty_and_long_parameters() {
    let service = ContractService::new("n".to_string());
    assert_eq!(service.simulate_contract_execution("c", "f", b""), b"executed_f_0".to_vec());
    assert_eq!(
        service.simulate_contract_execution("c", "", &[1u8; 1234]),
        b"executed__1234".to_vec()
    );
    assert_eq!(
        service.simulate_contract_execution("c", "gr\u{fc}n", &[1u8; 10]),
        "executed_gr\u{fc}n_10".as_bytes().to_vec()
    );
}

#[test]
fn deployed_contract_is_active() {
    let mut service = ContractService::new("n".to_string());
    let id = service
        .deploy_contract("Name".to_string(), "code".to_string(), "owner".to_string())
        .unwrap();
    assert_eq!(id.len(), 36);
    let contract = service.get_contract(&id).unwrap();
    assert_eq!(contract.contract_id, id);
    assert_eq!(contract.name, "Name");
    assert_eq!(contract.code, "code");
    assert_eq!(contract.owner, "owner");
    assert_eq!(contract.status, ContractStatus::Active);
    assert!(contract.deployed_at > 1_600_000_000);
    assert!(service.get_current_timestamp() >= contract.deployed_at);
}

#[test]
fn unknown_contract_is_refused() {
    let mut service = ContractService::new("n".to_string());
    assert_eq!(
        service.execute_contract("nope", "bob".to_string(), "f".to_string(), vec![]),
        Err(ContractError::ContractNotFound)
    );
    assert!(service.executions.is_empty());
    assert!(service.get_contract("nope").is_none());
}

#[test]
fn contract_that_is_not_active_is_refused() {
    let mut service = ContractService::new("n".to_string());
    service.deploy_contract_as(
        "c1".to_string(),
        "Name".to_string(),
        "code".to_string(),
        "owner".to_string(),
        5,
    );
    let mut paused = service.get_contract("c1").unwrap().clone();
    paused.status = ContractStatus::Paused;
    service.contracts.insert("c1".to_string(), paused);
    assert_eq!(
        service.execute_contract("c1", "bob".to_string(), "f".to_string(), vec![]),
        Err(ContractError::ContractNotActive)
    );
    assert!(service.executions.is_empty());
}

#[test]
fn executions_are_listed_by_contract_oldest_first() {
    let mut service = ContractService::new("n".to_string());
    for id in ["c1", "c2"] {
        service.deploy_contract_as(
            id.to_string(),
            "Name".to_string(),
            "code".to_string(),
            "owner".to_string(),
            5,
        );
    }
    let runs = [("e1", "c1"), ("e2", "c2"), ("e3", "c1"), ("e4", "c1")];
    for (execution, contract) in runs {
        service
            .execute_contract_as(
                execution.to_string(),
                contract,
                "bob".to_string(),
                "f".to_string(),
                vec![1],
                1,
            )
            .unwrap();
    }
    let of_first: Vec<&str> = service
        .get_contract_executions("c1")
        .iter()
        .map(|run| run.execution_id.as_str())
        .collect();
    assert_eq!(of_first, vec!["e1", "e3", "e4"]);
    assert_eq!(service.get_contract_executions("c2").len(), 1);
    assert!(service.get_contract_executions("c3").is_empty());
}

#[test]
fn contract_error_texts() {
    assert_eq!(ContractError::ContractNotFound.to_string(), "Contract not found");
    assert_eq!(ContractError::ContractNotActive.to_string(), "Contract is not active");
}
