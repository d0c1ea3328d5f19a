use garyapi::server::ServerMetrics;

#[test]
fn test_metrics_start_at_zero() {
    let metrics = ServerMetrics::new();
    assert_eq!(metrics.request_count(), 0);
    assert_eq!(metrics.total_response_time, 0);
    assert_eq!(metrics.total_connection_time, 0);
    assert_eq!(metrics.connection_count, 0);
}

#[test]
fn test_metrics_increment_and_record() {
    let mut metrics = ServerMetrics::new();
    metrics.increment_requests();
    assert_eq!(metrics.request_count(), 1);
    metrics.increment_requests();
    assert_eq!(metrics.request_count(), 2);

    metrics.record_response_time(100);
    metrics.record_response_time(200);
    assert_eq!(metrics.total_response_time, 300);

    metrics.record_connection_duration(1_000);
    metrics.record_connection_duration(2_500);
    assert_eq!(metrics.connection_count, 2);
    assert_eq!(metrics.total_connection_time, 3_500);
}

#[test]
fn test_metrics_wrap_at_boundary() {
    let mut metrics = ServerMetrics::new();
    metrics.request_count = u64::MAX;
    metrics.increment_requests();
    assert_eq!(metrics.request_count(), 0);
    metrics.total_response_time = u64::MAX;
    metrics.record_response_time(3);
    assert_eq!(metrics.total_response_time, 2);
}
