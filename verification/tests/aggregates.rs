use orchestrator::benchmark::{BenchmarkParameters, NetworkType};
use orchestrator::faults::FaultsType;
use orchestrator::measurement::{Measurement, MeasurementsCollection};
use orchestrator::mysticeti::MysticetiBenchmarkType;
use orchestrator::result::{render_summary, summary_text, BenchmarkResult};
use orchestrator::settings::Settings;

fn parameters(load: usize) -> BenchmarkParameters<MysticetiBenchmarkType> {
    BenchmarkParameters::new(
        MysticetiBenchmarkType::new(512),
        4,
        FaultsType::Permanent { faults: 1 },
        load,
        60,
    )
}

#[test]
fn aggregates_have_exact_values() {
    let settings = Settings::new_for_test();
    let mut collection = MeasurementsCollection::new(&settings, parameters(100));
    // Two scrapes of the same stream: 4 transactions in all, 80 ms of
    // latency, 2000 ms² of squared latency, last scrape at 30 s.
    collection.add(0, "default".to_string(), Measurement::new(10, 2, 40, 1000, Vec::new()));
    collection.add(1, "default".to_string(), Measurement::new(30, 2, 40, 1000, Vec::new()));

    let label = "default".to_string();
    // 4 transactions over 30 s, rounded down.
    assert_eq!(collection.aggregate_tps(&label), 0);
    // 80 ms over 4 transactions.
    assert_eq!(collection.aggregate_average_latency(&label), 20);
    // E[x²] − E[x]² = 500 − 400 = 100; its root is 10.
    assert_eq!(collection.aggregate_stdev_latency(&label), 10);
    assert_eq!(collection.transaction_load(), 100);
    assert_eq!(collection.labels(), vec!["default".to_string()]);
}

#[test]
fn aggregates_ignore_insertion_order() {
    let settings = Settings::new_for_test();
    let samples = [
        (0usize, "default", Measurement::new(10, 5, 100, 3000, Vec::new())),
        (1usize, "default", Measurement::new(20, 7, 210, 7000, Vec::new())),
        (2usize, "other", Measurement::new(30, 1, 50, 2500, Vec::new())),
    ];

    let mut forward = MeasurementsCollection::new(&settings, parameters(100));
    for (index, label, measurement) in samples.clone() {
        forward.add(index, label.to_string(), measurement);
    }
    let mut backward = MeasurementsCollection::new(&settings, parameters(100));
    for (index, label, measurement) in samples.clone().into_iter().rev() {
        backward.add(index, label.to_string(), measurement);
    }

    for label in ["default".to_string(), "other".to_string()] {
        assert_eq!(forward.aggregate_tps(&label), backward.aggregate_tps(&label));
        assert_eq!(
            forward.aggregate_average_latency(&label),
            backward.aggregate_average_latency(&label)
        );
        assert_eq!(
            forward.aggregate_stdev_latency(&label),
            backward.aggregate_stdev_latency(&label)
        );
    }
    // First-seen order differs with the insertion order.
    assert_eq!(forward.labels(), vec!["default".to_string(), "other".to_string()]);
    assert_eq!(backward.labels(), vec!["other".to_string(), "default".to_string()]);
}

#[test]
fn missing_label_aggregates_to_zero() {
    let settings = Settings::new_for_test();
    let collection =
        MeasurementsCollection::<MysticetiBenchmarkType>::new(&settings, parameters(100));
    let label = "absent".to_string();
    assert_eq!(collection.aggregate_tps(&label), 0);
    assert_eq!(collection.aggregate_average_latency(&label), 0);
    assert_eq!(collection.aggregate_stdev_latency(&label), 0);
    assert!(collection.labels().is_empty());
}

#[test]
fn benchmark_result_creation() {
    let settings = Settings::new_for_test();
    let parameters = BenchmarkParameters::new(
        MysticetiBenchmarkType::new(512),
        4,
        FaultsType::Permanent { faults: 0 },
        100,
        60,
    );
    let collection = MeasurementsCollection::new(&settings, parameters);

    let result = BenchmarkResult::new(NetworkType::Local, parameters, collection);

    assert_eq!(result.network_type, NetworkType::Local);
    assert_eq!(result.parameters.nodes, 4);
    assert_eq!(result.parameters.load, 100);
    assert!(result.metadata.is_empty()); // Metadata starts empty
}

fn fixed_result() -> BenchmarkResult<MysticetiBenchmarkType> {
    let settings = Settings::new_for_test();
    let mut collection = MeasurementsCollection::new(&settings, parameters(100));
    collection.add(0, "default".to_string(), Measurement::new(30, 100, 2000, 50000, Vec::new()));
    BenchmarkResult {
        network_type: NetworkType::Local,
        parameters: parameters(100),
        measurements: collection,
        timestamp: "2026-01-01T00:00:00+00:00".to_string(),
        metadata: Vec::new(),
    }
}

#[test]
fn result_renders_exact_json() {
    let json = fixed_result().to_json_checked().unwrap();
    let mut expected = String::new();
    expected.push_str("{\"network_type\":\"Local\",");
    expected.push_str("\"timestamp\":\"2026-01-01T00:00:00+00:00\",");
    expected.push_str("\"parameters\":{\"nodes\":4,\"load\":100,\"duration_secs\":60,");
    expected.push_str("\"transaction_size\":512,\"faults\":1,\"crash_recovery\":false,");
    expected.push_str("\"crash_interval_secs\":0},");
    expected.push_str("\"results\":{\"throughput\":3,\"avg_latency_ms\":20,\"stdev_latency_ms\":10,");
    expected.push_str("\"successful_transactions\":100,\"failed_transactions\":0}}");
    assert_eq!(json, expected);
}

#[test]
fn result_round_trips_through_json() {
    // Serialize, deserialize: the parameters and aggregates come back
    // unchanged.
    let result = fixed_result();
    let json = result.to_json_checked().unwrap();
    let summary = BenchmarkResult::parse_summary(&json).unwrap();

    assert_eq!(summary.network_type, NetworkType::Local);
    assert_eq!(summary.timestamp, "2026-01-01T00:00:00+00:00");
    assert_eq!(summary.nodes, 4);
    assert_eq!(summary.load, 100);
    assert_eq!(summary.duration_secs, 60);
    assert_eq!(summary.transaction_size, 512);
    assert_eq!(summary.faults, 1);
    assert!(!summary.crash_recovery);
    assert_eq!(summary.crash_interval_secs, 0);
    assert_eq!(summary.throughput, 3);
    assert_eq!(summary.avg_latency_ms, 20);
    assert_eq!(summary.stdev_latency_ms, 10);
    assert_eq!(summary.successful_transactions, 100);
    assert_eq!(summary.failed_transactions, 0);

    // The document parses the same after rendering the summary again.
    let again = render_summary(&summary);
    assert_eq!(again, json);
}

#[test]
fn crash_recovery_round_trips_through_json() {
    let mut result = fixed_result();
    result.network_type = NetworkType::Remote;
    result.parameters.faults = FaultsType::CrashRecovery { faults: 2, interval_secs: 45 };
    result.measurements.parameters.faults = result.parameters.faults;

    let json = result.to_json_checked().unwrap();
    let summary = BenchmarkResult::parse_summary(&json).unwrap();
    assert_eq!(summary.network_type, NetworkType::Remote);
    assert_eq!(summary.faults, 2);
    assert!(summary.crash_recovery);
    assert_eq!(summary.crash_interval_secs, 45);
}

#[test]
fn parse_rejects_garbage() {
    assert!(BenchmarkResult::parse_summary("").is_none());
    assert!(BenchmarkResult::parse_summary("{\"network_type\":\"Local\"").is_none());
    let json = fixed_result().to_json_checked().unwrap();
    let mut truncated = json.clone();
    truncated.pop();
    assert!(BenchmarkResult::parse_summary(&truncated).is_none());
    let mut extended = json.clone();
    extended.push(' ');
    assert!(BenchmarkResult::parse_summary(&extended).is_none());
}

#[test]
fn quoted_timestamp_is_refused() {
    let mut result = fixed_result();
    result.timestamp = "20\"26".to_string();
    assert!(result.to_json_checked().is_none());
}

#[test]
fn summary_text_is_exact() {
    let summary = fixed_result().summary();
    let mut expected = String::new();
    expected.push_str("BENCHMARK SUMMARY\n");
    expected.push_str("Network Type: Local\n");
    expected.push_str("Timestamp: 2026-01-01T00:00:00+00:00\n");
    expected.push_str("Nodes: 4\n");
    expected.push_str("Input Load: 100 tx/s\n");
    expected.push_str("Duration: 60 s\n");
    expected.push_str("Throughput: 3 tx/s\n");
    expected.push_str("Average Latency: 20 ms\n");
    expected.push_str("Latency Std Dev: 10 ms\n");
    assert_eq!(summary_text(&summary), expected);
}
