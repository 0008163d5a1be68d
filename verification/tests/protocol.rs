use orchestrator::benchmark::{BenchmarkParameters, NetworkType};
use orchestrator::bridge::{BlockRef, TransactionResponse};
use orchestrator::error::OrchestratorError;
use orchestrator::faults::FaultsType;
use orchestrator::instance::Instance;
use orchestrator::mysticeti::{MysticetiBenchmarkType, MysticetiProtocol};
use orchestrator::num::{isqrt, parse_u128_at, u128_to_string, u64_to_string};
use orchestrator::protocol::{PrivateConfig, ProtocolCommands, ProtocolMetrics};
use orchestrator::runner::{BenchmarkRunner, Opts};
use orchestrator::settings::Settings;
use std::str::FromStr;

fn instance(ip: &str) -> Instance {
    Instance {
        id: "i".to_string(),
        region: "us-west-1".to_string(),
        main_ip: ip.to_string(),
        tags: Vec::new(),
        specs: "t3.medium".to_string(),
        status: "running".to_string(),
    }
}

#[test]
fn fault_model_rejects_as_many_faults_as_nodes() {
    let model = FaultsType::Permanent { faults: 4 };
    assert!(model.validate(4).is_err());
    assert!(model.validate(5).is_ok());

    let recovering = FaultsType::CrashRecovery { faults: 5, interval_secs: 60 };
    assert!(recovering.validate(4).is_err());
    assert_eq!(recovering.number_of_faults(), 5);
    assert_eq!(FaultsType::default(), FaultsType::Permanent { faults: 0 });

    let error = model.validate(4).unwrap_err();
    match error {
        OrchestratorError::Configuration { message } => {
            assert_eq!(message, "fault model needs 4 faulty nodes but the committee has only 4");
        }
        _ => panic!("expected a configuration error"),
    }
}

#[test]
fn genesis_command_lists_all_addresses() {
    let protocol = MysticetiProtocol::new(&Settings::new_for_test());
    let instances = vec![instance("10.0.0.1"), instance("10.0.0.2")];
    let command = protocol.genesis_command(&instances);
    assert_eq!(
        command,
        "source $HOME/.cargo/env && RUSTFLAGS=-C\\ target-cpu=native cargo run --release \
         --bin mysticeti -- benchmark-genesis --ips 10.0.0.1 10.0.0.2 --working-directory test"
    );
}

#[test]
fn node_command_splits_load_over_committee() {
    let protocol = MysticetiProtocol::new(&Settings::new_for_test());
    let parameters = BenchmarkParameters::new(
        MysticetiBenchmarkType::new(512),
        2,
        FaultsType::Permanent { faults: 0 },
        500,
        60,
    );
    let commands = protocol.node_command(vec![instance("10.0.0.1"), instance("10.0.0.2")], &parameters);
    assert_eq!(commands.len(), 2);
    assert_eq!(commands[0].0.main_ip, "10.0.0.1");
    assert!(commands[0].1.contains("export TPS=250"));
    assert!(commands[0].1.contains("export TRANSACTION_SIZE=512"));
    assert!(commands[0].1.contains("--authority 0"));
    assert!(commands[1].1.contains("--authority 1"));
    assert!(commands[1].1.contains("--private-config-path test/private/1.yaml"));
    assert!(commands[1].1.ends_with("./mysticeti-start.sh"));
}

#[test]
fn metrics_paths_use_indexed_ports() {
    let protocol = MysticetiProtocol::new(&Settings::new_for_test());
    let paths = protocol.nodes_metrics_path(vec![instance("10.0.0.1"), instance("10.0.0.2")]);
    assert_eq!(paths[0].1, "http://10.0.0.1:8000/metrics");
    assert_eq!(paths[1].1, "http://10.0.0.2:8001/metrics");
    let clients = protocol.clients_metrics_path(vec![instance("10.0.0.1")]);
    assert_eq!(clients[0].1, "http://10.0.0.1:8000/metrics");
}

#[test]
fn cleanup_and_monitor_commands() {
    let protocol = MysticetiProtocol::new(&Settings::new_for_test());
    assert!(protocol.protocol_dependencies().is_empty());
    assert_eq!(protocol.cleanup_commands(), vec!["killall mysticeti".to_string()]);
    assert_eq!(protocol.db_directories(), vec!["test/private/val-*/*".to_string()]);
    let monitors = protocol.monitor_command(vec![instance("10.0.0.1")]);
    assert_eq!(
        monitors[0].1,
        "tail -f --pid=$(pidof mysticeti) -f /dev/null; tail -100 node.log"
    );
    let parameters = BenchmarkParameters::new(
        MysticetiBenchmarkType::new(512),
        4,
        FaultsType::Permanent { faults: 0 },
        500,
        60,
    );
    assert!(protocol.client_command(vec![instance("10.0.0.1")], &parameters).is_empty());
}

#[test]
fn private_config_paths() {
    assert_eq!(PrivateConfig::default_filename(3), "private/3.yaml");
    let config = PrivateConfig::new_for_benchmarks("/w", 2);
    assert_eq!(config.storage().path, "/w/val-2");
    let direct = PrivateConfig::new("/data".to_string(), 7);
    assert_eq!(direct.authority_index, 7);
    assert_eq!(direct.storage().path, "/data");
}

#[test]
fn benchmark_type_reads_from_text() {
    let parsed = MysticetiBenchmarkType::from_str("1024").unwrap();
    assert_eq!(parsed.transaction_size, 1024);
    assert!(MysticetiBenchmarkType::from_str("12x").is_err());
    assert!(MysticetiBenchmarkType::from_str("").is_err());
    assert_eq!(MysticetiBenchmarkType::default().transaction_size, 512);
}

#[test]
fn submission_response_reports_placement() {
    let placed = TransactionResponse::from_submission(Ok(BlockRef {
        round: 9,
        authority: 2,
        sequence: 4,
    }));
    assert!(placed.success);
    assert_eq!(placed.block_ref.unwrap().round, 9);

    let refused = TransactionResponse::from_submission(Err("engine unavailable".to_string()));
    assert!(!refused.success);
    assert!(refused.block_ref.is_none());
    assert_eq!(refused.message, "engine unavailable");
}

fn opts_with_network(network_type: &str) -> Opts {
    Opts {
        output_dir: "./benchmarks".to_string(),
        console_output: true,
        file_output: true,
        committee: 4,
        faults: 0,
        crash_recovery: false,
        crash_interval: 60,
        duration: 180,
        local_loads: "100,200,500".to_string(),
        remote_loads: "50,100,200".to_string(),
        transaction_size: 512,
        network_type: network_type.to_string(),
        docker_compose_path: "../docker-compose.yml".to_string(),
        startup_wait: 30,
        cleanup: false,
        cleanup_thorough: false,
    }
}

#[test]
fn network_kind_reads_case_insensitively() {
    assert_eq!(opts_with_network("LOCAL").network_kind(), Some(NetworkType::Local));
    assert_eq!(opts_with_network("Remote").network_kind(), Some(NetworkType::Remote));
    assert_eq!(opts_with_network("mesh").network_kind(), None);
    assert_eq!(
        opts_with_network("local").loads_for(NetworkType::Local),
        vec![100, 200, 500]
    );
    assert_eq!(
        opts_with_network("local").loads_for(NetworkType::Remote),
        vec![50, 100, 200]
    );
}

#[test]
fn benchmark_runner_creation() {
    let output_dir = "./test_results".to_string();
    let runner = BenchmarkRunner::new(output_dir.clone())
        .with_console_output(true)
        .with_file_output(true);

    assert_eq!(runner.output_dir, output_dir);
    assert!(runner.console_output);
    assert!(runner.file_output);
}

#[test]
fn decimal_text_round_trips() {
    assert_eq!(u64_to_string(0), "0");
    assert_eq!(u64_to_string(26657), "26657");
    assert_eq!(
        u128_to_string(u128::MAX),
        "340282366920938463463374607431768211455"
    );
    assert_eq!(parse_u128_at("26657x", 0), Some((26657, 5)));
    assert_eq!(parse_u128_at("x5", 0), None);
    // One more digit than u128 can hold.
    assert_eq!(parse_u128_at("3402823669209384634633746074317682114550", 0), None);
}

#[test]
fn integer_square_roots_are_floored() {
    assert_eq!(isqrt(0), 0);
    assert_eq!(isqrt(15), 3);
    assert_eq!(isqrt(16), 4);
    assert_eq!(isqrt(u128::MAX), u64::MAX);
}

#[test]
fn error_messages_are_readable() {
    let error = OrchestratorError::Timeout { message: "readiness poll".to_string() };
    assert_eq!(error.message(), "readiness poll");
    let error = OrchestratorError::SearchState { message: "both bounds vanished".to_string() };
    assert_eq!(error.message(), "both bounds vanished");
    let error = OrchestratorError::Connection { message: "host unreachable".to_string() };
    assert_eq!(error.message(), "host unreachable");
}
