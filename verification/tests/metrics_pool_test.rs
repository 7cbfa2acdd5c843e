use hello_grpc_rust::metrics::ServerMetrics;
use hello_grpc_rust::pool::{ConnectionPool, Placement};

#[test]
fn metrics_start_at_zero() {
    let metrics = ServerMetrics::new();
    assert_eq!(metrics.requests_total(), 0);
    assert_eq!(metrics.errors_total(), 0);
    assert!(metrics.last_request_time().is_none());
    let stats = metrics.get_stats();
    assert_eq!(stats.len(), 2);
    assert_eq!(stats.get("requests_total").unwrap(), "0");
    assert_eq!(stats.get("errors_total").unwrap(), "0");
    assert!(stats.get("last_request_time").is_none());
    assert_eq!(metrics.render(), "requests_total=0\nerrors_total=0\n");
}

#[test]
fn metrics_count_requests_and_errors() {
    let mut metrics = ServerMetrics::new();
    metrics.record_request_at("2024-05-01T10:00:00+00:00".to_string());
    metrics.record_request_at("2024-05-01T10:00:01+00:00".to_string());
    metrics.record_error();
    assert_eq!(metrics.requests_total(), 2);
    assert_eq!(metrics.errors_total(), 1);
    assert_eq!(metrics.last_request_time().unwrap(), "2024-05-01T10:00:01+00:00");
    let stats = metrics.get_stats();
    assert_eq!(stats.len(), 3);
    assert_eq!(stats.get("requests_total").unwrap(), "2");
    assert_eq!(stats.get("errors_total").unwrap(), "1");
    assert_eq!(stats.get("last_request_time").unwrap(), "2024-05-01T10:00:01+00:00");
    assert_eq!(
        metrics.render(),
        "requests_total=2\nerrors_total=1\nlast_request_time=2024-05-01T10:00:01+00:00\n"
    );
    let snapshot = metrics.snapshot();
    assert_eq!(snapshot.requests_total, 2);
    assert_eq!(snapshot.errors_total, 1);
    assert_eq!(snapshot.last_request_time, Some("2024-05-01T10:00:01+00:00".to_string()));
    assert!(ServerMetrics::new().snapshot().last_request_time.is_none());
}

#[test]
fn metrics_take_the_time_from_the_clock() {
    let mut metrics = ServerMetrics::new();
    metrics.record_request();
    assert_eq!(metrics.requests_total(), 1);
    let time = metrics.last_request_time().unwrap().clone();
    assert!(time.len() >= 20);
    assert!(time.ends_with("+00:00"));
    assert_eq!(&time[4..5], "-");
    assert_eq!(&time[10..11], "T");
}

#[test]
fn pool_reuses_the_first_live_connection() {
    let mut pool: ConnectionPool<String> = ConnectionPool::new(5);
    assert_eq!(pool.capacity(), 5);
    assert_eq!(pool.len(), 0);
    assert!(pool.acquire().is_none());
    assert_eq!(pool.store("first".to_string()), Placement::Slot(0));
    assert_eq!(pool.acquire().unwrap(), "first");
    assert_eq!(pool.store("second".to_string()), Placement::Slot(1));
    assert_eq!(pool.acquire().unwrap(), "first");
    assert_eq!(pool.len(), 2);
    assert_eq!(pool.live(), 2);
}

#[test]
fn pool_never_grows_beyond_its_capacity() {
    let mut pool: ConnectionPool<u32> = ConnectionPool::new(3);
    let mut placements = Vec::new();
    for connection in 0..7 {
        placements.push(pool.store(connection));
    }
    assert_eq!(
        placements,
        vec![
            Placement::Slot(0),
            Placement::Slot(1),
            Placement::Slot(2),
            Placement::Unpooled,
            Placement::Unpooled,
            Placement::Unpooled,
            Placement::Unpooled,
        ]
    );
    assert_eq!(pool.len(), 3);
    assert_eq!(pool.live(), 3);
    assert_eq!(*pool.acquire().unwrap(), 0);
}

#[test]
fn pool_puts_a_new_connection_where_one_broke() {
    let mut pool: ConnectionPool<u32> = ConnectionPool::new(2);
    pool.store(10);
    pool.store(11);
    pool.mark_broken(0);
    assert_eq!(pool.live(), 1);
    assert_eq!(*pool.acquire().unwrap(), 11);
    pool.mark_broken(7);
    assert_eq!(pool.live(), 1);
    assert_eq!(pool.store(12), Placement::Slot(0));
    assert_eq!(*pool.acquire().unwrap(), 12);
    assert_eq!(pool.store(13), Placement::Unpooled);
    pool.mark_broken(0);
    pool.mark_broken(1);
    assert!(pool.acquire().is_none());
    assert_eq!(pool.len(), 2);
}

#[test]
fn pool_without_room_keeps_nothing() {
    let mut pool: ConnectionPool<u32> = ConnectionPool::new(0);
    assert_eq!(pool.store(1), Placement::Unpooled);
    assert!(pool.acquire().is_none());
    assert_eq!(pool.len(), 0);
}

#[test]
fn pool_connects_only_where_nothing_is_live() {
    let mut pool: ConnectionPool<String> = ConnectionPool::new(2);
    let mut made = 0;
    let first: Result<String, String> = pool.get_client(|| {
        made += 1;
        Ok("one".to_string())
    });
    assert_eq!(first.unwrap(), "one");
    assert_eq!(pool.live(), 1);
    let second: Result<String, String> = pool.get_client(|| {
        made += 1;
        Ok("two".to_string())
    });
    assert_eq!(second.unwrap(), "one");
    assert_eq!(made, 1);
    assert_eq!(pool.len(), 1);
    assert!(pool.has_room());
}

#[test]
fn pool_hands_a_failed_connection_back() {
    let mut pool: ConnectionPool<String> = ConnectionPool::new(2);
    let failed: Result<String, String> = pool.get_client(|| Err("refused".to_string()));
    assert_eq!(failed.unwrap_err(), "refused");
    assert_eq!(pool.len(), 0);
    pool.store("a".to_string());
    pool.mark_broken(0);
    let again: Result<String, String> = pool.get_client(|| Ok("b".to_string()));
    assert_eq!(again.unwrap(), "b");
    assert_eq!(pool.acquire().unwrap(), "b");
    assert_eq!(pool.len(), 1);
}

#[test]
fn pool_without_room_still_connects() {
    let mut pool: ConnectionPool<u32> = ConnectionPool::new(0);
    assert!(!pool.has_room());
    let made: Result<u32, String> = pool.get_client(|| Ok(9));
    assert_eq!(made.unwrap(), 9);
    assert_eq!(pool.len(), 0);
    assert_eq!(pool.live(), 0);
}
