use orchestrator::error::OrchestratorError;
use orchestrator::local::LocalNetworkOrchestrator;
use orchestrator::remote::RemoteNetworkOrchestrator;
use orchestrator::benchmark::BenchmarkParameters;
use orchestrator::faults::FaultsType;
use orchestrator::mysticeti::MysticetiBenchmarkType;
use orchestrator::runner::{
    comparable_parameters, node_host_variable, parse_loads, percent_change,
    required_host_variables, validate_remote_environment,
};
use orchestrator::runner::{readiness_decision, ReadinessDecision};
use orchestrator::ssh::{ssh_outcome, RemoteNode};

fn test_node(host: &str, index: u32) -> RemoteNode {
    RemoteNode::from_values(index, host.to_string(), None, None, None, 30).unwrap()
}

#[test]
fn test_environment_variable_validation() {
    // Test that required environment variables are validated
    let required_vars = required_host_variables();

    assert_eq!(required_vars.len(), 4);
    assert!(required_vars.iter().all(|var| var.contains("MYSTICETI_NODE")));
    assert_eq!(required_vars[0], "MYSTICETI_NODE0_HOST");
    assert_eq!(required_vars[3], "MYSTICETI_NODE3_HOST");
}

#[test]
fn missing_host_variable_is_named() {
    assert!(validate_remote_environment(&vec![true, true, true, true]).is_ok());

    let result = validate_remote_environment(&vec![true, false, true, true]);
    assert!(result.is_err());
    let error = result.unwrap_err();
    assert_eq!(
        error.message(),
        "Required environment variable MYSTICETI_NODE1_HOST not set"
    );
    assert_eq!(node_host_variable(1), "MYSTICETI_NODE1_HOST");
}

#[test]
fn ssh_command_embeds_each_part_once() {
    // host "h", port 22, user "u", key "/k", command "c": the command
    // line holds `-i /k`, `-p 22`, `u@h` and `c` each exactly once.
    let node = RemoteNode::from_values(
        0,
        "h".to_string(),
        Some("22".to_string()),
        Some("u".to_string()),
        Some("/k".to_string()),
        30,
    )
    .unwrap();
    let command = node.ssh_command("c");

    assert_eq!(
        command,
        "ssh -i /k -p 22 u@h -o StrictHostKeyChecking=no -o ConnectTimeout=30 'c'"
    );
    assert_eq!(command.matches("-i /k").count(), 1);
    assert_eq!(command.matches("-p 22").count(), 1);
    assert_eq!(command.matches("u@h").count(), 1);
    assert_eq!(command.matches("'c'").count(), 1);
}

#[test]
fn test_remote_node_creation() {
    let node = test_node("test.example.com", 0);

    assert_eq!(node.host, "test.example.com");
    assert_eq!(node.port, 22);
    assert_eq!(node.ssh_user, "ubuntu");
    assert_eq!(node.ssh_key_path, "~/.ssh/id_rsa");
    assert_eq!(node.authority_index, 0);
    assert_eq!(node.rpc_port, 26657);
    assert_eq!(node.abci_port, 26670);
}

#[test]
fn test_remote_node_ssh_command() {
    let node = test_node("test.example.com", 1);
    let command = "docker ps";
    let ssh_cmd = node.ssh_command(command);

    assert!(ssh_cmd.contains("ssh -i"));
    assert!(ssh_cmd.contains("-p 22"));
    assert!(ssh_cmd.contains("ubuntu@test.example.com"));
    assert!(ssh_cmd.contains("-o StrictHostKeyChecking=no"));
    assert!(ssh_cmd.contains("-o ConnectTimeout=30"));
    assert!(ssh_cmd.contains("docker ps"));
}

#[test]
fn test_ssh_command_formatting() {
    let node = test_node("test.example.com", 0);

    // Test different commands
    let docker_cmd = node.ssh_command("docker ps");
    assert!(docker_cmd.contains("docker ps"));

    let mkdir_cmd = node.ssh_command("mkdir -p ~/mysticeti-data");
    assert!(mkdir_cmd.contains("mkdir -p ~/mysticeti-data"));

    let pull_cmd = node.ssh_command("docker pull scalarorg/mysticeti:latest");
    assert!(pull_cmd.contains("docker pull scalarorg/mysticeti:latest"));
}

#[test]
fn test_port_assignment() {
    // Test that ports are assigned correctly
    for i in 0..4 {
        let node = test_node(&format!("node{}.example.com", i), i);
        assert_eq!(node.rpc_port, 26657);
        assert_eq!(node.abci_port, 26670 + i as u16);
    }
}

#[test]
fn remote_network_test_orchestrator_new_success() {
    let nodes = vec![
        test_node("node1.example.com", 0),
        test_node("node2.example.com", 1),
        test_node("node3.example.com", 2),
        test_node("node4.example.com", 3),
    ];
    let orchestrator = RemoteNetworkOrchestrator::new(nodes).unwrap();
    assert_eq!(orchestrator.nodes.len(), 4);

    for (i, node) in orchestrator.nodes.iter().enumerate() {
        assert_eq!(node.authority_index, i as u32);
        assert_eq!(node.rpc_port, 26657);
        assert_eq!(node.abci_port, 26670 + i as u16);
    }
}

#[test]
fn test_node_round_robin_distribution() {
    let nodes = vec![
        test_node("node1.example.com", 0),
        test_node("node2.example.com", 1),
        test_node("node3.example.com", 2),
        test_node("node4.example.com", 3),
    ];
    let orchestrator = RemoteNetworkOrchestrator::new(nodes).unwrap();

    // Test round-robin distribution across nodes
    for i in 0..10 {
        let node_index = i % orchestrator.nodes.len();
        let node = &orchestrator.nodes[node_index];
        assert_eq!(node.authority_index, node_index as u32);
        assert!(orchestrator.submission_url(i).contains(&node.host));
    }
}

#[test]
fn remote_node_rejects_bad_port() {
    let result = RemoteNode::from_values(
        0,
        "h".to_string(),
        Some("not-a-port".to_string()),
        None,
        None,
        30,
    );
    assert!(result.is_err());
    match result.unwrap_err() {
        OrchestratorError::Configuration { message } => {
            assert!(message.contains("invalid SSH port"));
        }
        _ => panic!("expected a configuration error"),
    }
}

#[test]
fn remote_fleet_needs_four_nodes() {
    let nodes = vec![test_node("a", 0), test_node("b", 1), test_node("c", 2)];
    let result = RemoteNetworkOrchestrator::new(nodes);
    assert!(result.is_err());

    let nodes = vec![
        test_node("a", 0),
        test_node("b", 1),
        test_node("c", 2),
        test_node("d", 3),
    ];
    assert!(RemoteNetworkOrchestrator::new(nodes).is_ok());
}

#[test]
fn fleet_start_failure_names_failing_node() {
    // One deliberately failing node: the other outcomes are still
    // consumed and the error names exactly the failing node.
    let outcomes = vec![(0u32, true), (1u32, false), (2u32, true), (3u32, true)];
    let result = RemoteNetworkOrchestrator::summarize_fleet_outcomes("start", &outcomes);
    assert!(result.is_err());
    let error = result.unwrap_err();
    assert_eq!(error.message(), "start failed on node 1");

    let outcomes = vec![(0u32, true), (1u32, true), (2u32, true), (3u32, true)];
    assert!(RemoteNetworkOrchestrator::summarize_fleet_outcomes("start", &outcomes).is_ok());

    let outcomes = vec![(0u32, false), (1u32, true), (2u32, false), (3u32, true)];
    let error = RemoteNetworkOrchestrator::summarize_fleet_outcomes("stop", &outcomes).unwrap_err();
    assert_eq!(error.message(), "stop failed on node 0, 2");
}

#[test]
fn remote_plans_cover_every_node() {
    let nodes = vec![
        test_node("a", 0),
        test_node("b", 1),
        test_node("c", 2),
        test_node("d", 3),
    ];
    let fleet = RemoteNetworkOrchestrator::new(nodes).unwrap();

    let checks = fleet.setup_check_plan();
    assert_eq!(checks.len(), 4);
    assert!(checks[0].contains("'docker --version'"));

    let start = fleet.start_plan();
    assert_eq!(start.len(), 4);
    assert!(start[1][0].contains("mkdir -p ~/mysticeti-data"));
    assert!(start[1][1].contains("docker pull scalarorg/mysticeti:latest"));
    assert!(start[1][2].contains("docker run -d --name mysticeti-node1"));
    assert!(start[1][2].contains("--abci-port 26671"));

    let stop = fleet.stop_plan();
    assert!(stop[2].contains("docker stop mysticeti-node2 && docker rm mysticeti-node2"));

    let urls = fleet.health_urls();
    assert_eq!(urls[3], "http://d:26657/health");
    assert_eq!(fleet.submission_url(5), "http://b:26657/broadcast_tx_async");
}

#[test]
fn local_orchestrator_plans() {
    let orchestrator = LocalNetworkOrchestrator::new("./docker-compose.yml".to_string());
    assert_eq!(orchestrator.docker_compose_path, "./docker-compose.yml");
    assert_eq!(orchestrator.start_network_args(), vec!["compose", "up", "-d"]);
    assert_eq!(orchestrator.stop_network_args(), vec!["compose", "down"]);

    let thorough = orchestrator.stop_network_thorough_args();
    assert_eq!(thorough[0], vec!["compose", "down", "-v"]);
    assert_eq!(thorough[1], vec!["container", "prune", "-f"]);
    assert_eq!(thorough[2], vec!["volume", "prune", "-f"]);

    assert_eq!(orchestrator.container_name(2), "mysticeti-node2");
    assert_eq!(orchestrator.node_health_url(0), "http://localhost:26657/health");
    assert_eq!(
        orchestrator.submission_url(6),
        "http://localhost:26659/broadcast_tx_async"
    );
}

#[test]
fn loads_lists_parse_with_trimming() {
    assert_eq!(parse_loads("100,200,500"), vec![100, 200, 500]);
    assert_eq!(parse_loads("100, 200 ,500"), vec![100, 200, 500]);
    assert_eq!(parse_loads("a,5,"), vec![5]);
    assert_eq!(parse_loads(""), Vec::<usize>::new());
    assert_eq!(parse_loads("1 2,3"), vec![3]);
}

#[test]
fn network_comparison_arithmetic() {
    let local = BenchmarkParameters::new(
        MysticetiBenchmarkType::new(512),
        4,
        FaultsType::Permanent { faults: 0 },
        100,
        60,
    );
    let mut remote = local;
    assert!(comparable_parameters(&local, &remote));
    remote.load = 200;
    assert!(!comparable_parameters(&local, &remote));

    assert_eq!(percent_change(100, 150), (false, 50));
    assert_eq!(percent_change(100, 80), (true, 20));
    assert_eq!(percent_change(0, 80), (false, 0));
}

#[test]
fn readiness_poll_degrades_instead_of_aborting() {
    assert_eq!(readiness_decision(true, 100, 30), ReadinessDecision::Ready);
    assert_eq!(readiness_decision(false, 10, 30), ReadinessDecision::Retry);
    assert_eq!(readiness_decision(false, 30, 30), ReadinessDecision::Degraded);
}

#[test]
fn nonzero_remote_exit_is_not_an_ssh_error() {
    assert_eq!(ssh_outcome(true, true, false, 7).unwrap(), 7);
    let timeout = ssh_outcome(true, true, true, 0).unwrap_err();
    assert_eq!(timeout.message(), "remote command timed out");
    let unreachable = ssh_outcome(false, false, false, 0).unwrap_err();
    assert_eq!(unreachable.message(), "host unreachable");
    let auth = ssh_outcome(true, false, false, 0).unwrap_err();
    assert_eq!(auth.message(), "authentication failed");
}

#[test]
fn docker_install_commands_are_complete() {
    let commands = RemoteNetworkOrchestrator::docker_install_commands();
    assert_eq!(commands.len(), 7);
    assert_eq!(commands[0], "sudo apt-get update");
    assert!(commands[3].contains("download.docker.com/linux/ubuntu"));
    assert_eq!(commands[5], "sudo apt-get install -y docker-ce docker-ce-cli containerd.io");
    assert_eq!(commands[6], "sudo usermod -aG docker $USER");
}
