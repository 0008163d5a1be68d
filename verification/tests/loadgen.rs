use orchestrator::loadgen::{submission_delay_ms, transaction_data, transaction_payload, TransactionTally};
use orchestrator::local::node_port;

#[test]
fn local_network_test_transaction_data_generation() {
    // Test that transaction data is generated correctly
    let transaction_size = 1024;
    let tx_data = transaction_data(transaction_size);

    assert_eq!(tx_data.len(), transaction_size);
    assert!(tx_data.iter().all(|&x| x == 0));
}

#[test]
fn remote_network_test_transaction_data_generation() {
    // Test that transaction data is generated correctly
    let transaction_size = 1024;
    let tx_data = transaction_data(transaction_size);

    assert_eq!(tx_data.len(), transaction_size);
    assert!(tx_data.iter().all(|&x| x == 0));
}

#[test]
fn test_node_port_calculation() {
    // Test round-robin port assignment
    for i in 0..10 {
        let port = node_port(i);
        assert!(port >= 26657 && port <= 26660);
    }
}

#[test]
fn local_network_test_rate_limiting_calculation() {
    let transaction_rate = 100;
    let delay_ms = submission_delay_ms(transaction_rate);
    assert_eq!(delay_ms, 10);

    let transaction_rate = 50;
    let delay_ms = submission_delay_ms(transaction_rate);
    assert_eq!(delay_ms, 20);

    let transaction_rate = 200;
    let delay_ms = submission_delay_ms(transaction_rate);
    assert_eq!(delay_ms, 5);
}

#[test]
fn remote_network_test_rate_limiting_calculation() {
    let transaction_rate = 100;
    let delay_ms = submission_delay_ms(transaction_rate);
    assert_eq!(delay_ms, 10);

    let transaction_rate = 50;
    let delay_ms = submission_delay_ms(transaction_rate);
    assert_eq!(delay_ms, 20);

    let transaction_rate = 200;
    let delay_ms = submission_delay_ms(transaction_rate);
    assert_eq!(delay_ms, 5);
}

#[test]
fn payload_encodes_transaction_as_base64() {
    // Three zero bytes encode as "AAAA"; the payload embeds exactly
    // that text. This fails if the encoder handed its input back.
    let payload = transaction_payload(&vec![0u8; 3]);
    assert_eq!(payload, "{\"transaction\":\"AAAA\"}");

    // 512 zero bytes: 170 full groups and one group of two bytes,
    // which encodes as three characters and one padding sign.
    let payload = transaction_payload(&vec![0u8; 512]);
    let mut expected = String::from("{\"transaction\":\"");
    for _ in 0..683 {
        expected.push('A');
    }
    expected.push_str("=\"}");
    assert_eq!(payload, expected);
}

#[test]
fn tally_counts_outcomes() {
    let mut tally = TransactionTally::new();
    tally.record(true);
    tally.record(true);
    tally.record(false);
    assert_eq!(tally.successful, 2);
    assert_eq!(tally.failed, 1);
    assert_eq!(tally.total(), 3);
    assert_eq!(tally.realized_rate(2), 1);
    assert_eq!(tally.realized_rate(0), 0);
}
