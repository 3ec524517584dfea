use xmbl::cli::{ApiQuery, CliCommand, CliService, CommandStep, NetworkStatus, StorageFile};

fn done(step: CommandStep) -> String {
    match step {
        CommandStep::Done(text) => text,
        other => panic!("expected text, got {:?}", other),
    }
}

fn file(shard_id: &str, filename: &str, size_bytes: usize) -> StorageFile {
    StorageFile {
        shard_id: shard_id.to_string(),
        filename: filename.to_string(),
        size_bytes,
        checksum: format!("sum-{}", shard_id),
        redundancy: 3,
        timestamp: "2024-01-01T00:00:00Z".to_string(),
    }
}

#[test]
fn test_cli_service_creation() {
    let service = CliService::new("test_node".to_string());
    assert_eq!(service.node_id, "test_node");
}

#[test]
fn test_node_info_command() {
    let service = CliService::new("test_node".to_string());
    let result = done(service.run_command(CliCommand::NodeInfo));
    assert!(result.contains("test_node"));
    assert!(result.contains("Running"));
}

#[test]
fn commands_that_need_no_answer_print_at_once() {
    let service = CliService::new("n1".to_string());
    assert_eq!(service.api_url, "http://localhost:3003");
    assert_eq!(
        done(service.run_command(CliCommand::NodeInfo)),
        "Node ID: n1\nStatus: Running\nAPI URL: http://localhost:3003"
    );
    assert_eq!(
        done(service.run_command(CliCommand::NodeStart)),
        "Starting node services...\nNode ID: n1 is now active"
    );
    assert_eq!(
        done(service.run_command(CliCommand::NodeStop)),
        "Stopping node services...\nNode ID: n1 is now inactive"
    );
    assert_eq!(
        done(service.run_command(CliCommand::StorageStore { file: "a.bin".to_string(), redundancy: 3 })),
        "Storage store command:\n  File: a.bin\n  Redundancy: 3x\n\nNote: Use the web API at http://localhost:3003/api/upload for actual file uploads"
    );
    assert_eq!(
        done(service.run_command(CliCommand::ComputeStatus { task_id: "t9".to_string() })),
        "Task status for t9: Completed"
    );
    assert_eq!(
        done(service.run_command(CliCommand::BlockchainBalance { address: "alice".to_string() })),
        "Balance for alice: 1000 XMBL"
    );
    assert_eq!(
        done(service.run_command(CliCommand::NetworkPeers)),
        "Connected peers:\n  - peer_1 (127.0.0.1:8080)\n  - peer_2 (127.0.0.1:8081)"
    );
    assert_eq!(
        done(service.run_command(CliCommand::NetworkPing { node_id: "n2".to_string() })),
        "Pinging node: n2\nResponse time: 15ms"
    );
}

#[test]
fn task_identifier_replaces_the_slashes_of_the_path() {
    let service = CliService::new("n1".to_string());
    assert_eq!(
        done(service.run_command(CliCommand::ComputeSubmit {
            wasm_file: "/tmp/jobs/a.wasm".to_string(),
            input_file: "/tmp/in".to_string(),
        })),
        "Submitting compute task:\n  WASM file: /tmp/jobs/a.wasm\n  Input file: /tmp/in\n  Task ID: task__tmp_jobs_a.wasm"
    );
}

#[test]
fn transfer_names_amount_parties_and_a_fresh_identifier() {
    let service = CliService::new("n1".to_string());
    let command = CliCommand::BlockchainTransfer {
        from: "alice".to_string(),
        to: "bob".to_string(),
        amount: 18_446_744_073_709_551_615,
    };
    assert_eq!(
        done(service.run_command_with(command.clone(), "abc".to_string())),
        "Transferring 18446744073709551615 XMBL from alice to bob\nTransaction ID: tx_abc"
    );
    let text = done(service.run_command(command));
    let head = "Transferring 18446744073709551615 XMBL from alice to bob\nTransaction ID: tx_";
    assert!(text.starts_with(head));
    assert_eq!(text.len(), head.len() + 36);
}

#[test]
fn commands_that_need_an_answer_name_the_address_to_fetch() {
    let mut service = CliService::new("n1".to_string());
    service.api_url = "http://host:1".to_string();
    match service.run_command(CliCommand::StorageGet { cid: "c1".to_string() }) {
        CommandStep::Ask { url, query: ApiQuery::FileLookup { cid } } => {
            assert_eq!(url, "http://host:1/api/files");
            assert_eq!(cid, "c1");
        }
        other => panic!("expected a file lookup, got {:?}", other),
    }
    match service.run_command(CliCommand::StorageList) {
        CommandStep::Ask { url, query: ApiQuery::FileList } => assert_eq!(url, "http://host:1/api/files"),
        other => panic!("expected a file list, got {:?}", other),
    }
    match service.run_command(CliCommand::StorageStats) {
        CommandStep::Ask { url, query: ApiQuery::StorageStats } => assert_eq!(url, "http://host:1/api/stats"),
        other => panic!("expected storage stats, got {:?}", other),
    }
    match service.run_command(CliCommand::NetworkStatus) {
        CommandStep::Ask { url, query: ApiQuery::NetworkStatus } => {
            assert_eq!(url, "http://host:1/api/network/status")
        }
        other => panic!("expected network status, got {:?}", other),
    }
}

#[test]
fn failed_answers_name_the_interface_and_the_status() {
    assert_eq!(
        CliService::render_api_failure(&ApiQuery::FileList, "500 Internal Server Error"),
        "\u{201a}\u{f9}\u{e5} Failed to connect to storage API: HTTP 500 Internal Server Error"
    );
    assert_eq!(
        CliService::render_api_failure(&ApiQuery::StorageStats, "404 Not Found"),
        "\u{201a}\u{f9}\u{e5} Failed to connect to storage API: HTTP 404 Not Found"
    );
    assert_eq!(
        CliService::render_api_failure(&ApiQuery::FileLookup { cid: "x".to_string() }, "403"),
        "\u{201a}\u{f9}\u{e5} Failed to connect to storage API: HTTP 403"
    );
    assert_eq!(
        CliService::render_api_failure(&ApiQuery::NetworkStatus, "502 Bad Gateway"),
        "\u{201a}\u{f9}\u{e5} Failed to connect to network API: HTTP 502 Bad Gateway"
    );
}

#[test]
fn lookup_shows_the_first_file_with_the_identifier() {
    let files = vec![file("c1", "one.txt", 10), file("c2", "two.txt", 2048), file("c2", "again.txt", 1)];
    assert_eq!(
        CliService::render_file_lookup("c2", &files),
        "\u{201a}\u{fa}\u{d6} File found!\n\nFile Details:\n  CID: c2\n  Filename: two.txt\n  Size: 2048 bytes\n  Checksum: sum-c2\n  Redundancy: 3x\n  Stored: 2024-01-01T00:00:00Z"
    );
}

#[test]
fn lookup_of_a_missing_file_lists_what_is_there() {
    let files = vec![file("c1", "one.txt", 10), file("c2", "two.txt", 2048)];
    assert_eq!(
        CliService::render_file_lookup("c9", &files),
        "\u{201a}\u{f9}\u{e5} File not found!\n\nCID: c9\n\nAvailable files:\n  - one.txt (CID: c1)\n  - two.txt (CID: c2)"
    );
    assert_eq!(
        CliService::render_file_lookup("c9", &vec![]),
        "\u{201a}\u{f9}\u{e5} File not found!\n\nCID: c9\n\nAvailable files:\n"
    );
}

#[test]
fn list_shows_every_file_or_says_that_there_is_none() {
    assert_eq!(
        CliService::render_file_list(&vec![]),
        "\u{f8ff}\u{fc}\u{ec}\u{c5} No files currently stored in the P2P network"
    );
    let files = vec![file("c1", "one.txt", 10), file("c2", "two.txt", 0)];
    assert_eq!(
        CliService::render_file_list(&files),
        "\u{f8ff}\u{fc}\u{ec}\u{c5} Files stored in P2P network (2 total):\n\n  \u{f8ff}\u{fc}\u{ec}\u{d1} one.txt\n    CID: c1\n    Size: 10 bytes\n    Redundancy: 3x\n    Stored: 2024-01-01T00:00:00Z\n\n  \u{f8ff}\u{fc}\u{ec}\u{d1} two.txt\n    CID: c2\n    Size: 0 bytes\n    Redundancy: 3x\n    Stored: 2024-01-01T00:00:00Z"
    );
}

#[test]
fn stats_and_status_are_laid_out_line_by_line() {
    assert_eq!(
        CliService::render_storage_stats("100.00", "0.00000001", 4, 6),
        "\u{f8ff}\u{fc}\u{ec}\u{e4} Storage Statistics:\n\n  Total Storage: 100.00 GB\n  Used Storage: 0.00000001 GB\n  Stored Files: 4\n  Available Nodes: 6"
    );
    let status = NetworkStatus {
        total_nodes: 6,
        online_nodes: 2,
        available_nodes: 2,
        network_status: "healthy".to_string(),
    };
    assert_eq!(
        CliService::render_network_status(&status),
        "\u{f8ff}\u{fc}\u{e5}\u{ea} Network Status:\n\n  Total Nodes: 6\n  Online Nodes: 2\n  Available Nodes: 2\n  Status: healthy"
    );
}

#[test]
fn interactive_mode_opens_with_three_lines() {
    let service = CliService::new("n1".to_string());
    assert_eq!(
        service.run_interactive(),
        vec![
            "XMBL CLI Service - Node: n1",
            "Connected to real storage API: http://localhost:3003",
            "Type 'help' for available commands, 'exit' to quit",
        ]
    );
}
