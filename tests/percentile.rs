use udp_ping::metric::Metric;
use udp_ping::percentile::{PercentileLabel, Percentiles, WindowSnapshot};

#[test]
fn metric_name_is_response_ok() {
    assert_eq!(Metric::ResponseOk.name(), "response_ok");
}

#[test]
fn labels_in_rank_order() {
    let all = PercentileLabel::all();
    let names: Vec<&str> = all.iter().map(|l| l.name()).collect();
    assert_eq!(names, vec!["p50", "p90", "p99", "p999", "p9999"]);
    let ranks: Vec<u64> = all.iter().map(|l| l.rank()).collect();
    assert_eq!(ranks, vec![5000, 9000, 9900, 9990, 9999]);
}

fn full(a: u64, b: u64, c: u64, d: u64, e: u64) -> WindowSnapshot {
    WindowSnapshot {
        combined_count: Some(1),
        p50: Some(a),
        p90: Some(b),
        p99: Some(c),
        p999: Some(d),
        p9999: Some(e),
    }
}

#[test]
fn ordered_percentiles() {
    assert!(full(1, 2, 3, 4, 5).is_ordered());
    assert!(full(7, 7, 7, 7, 7).is_ordered());
    assert!(!full(1, 2, 5, 4, 6).is_ordered());
    assert!(!full(9, 2, 3, 4, 5).is_ordered());
}

#[test]
fn partial_snapshot_counts_as_ordered() {
    let mut s = full(9, 2, 3, 4, 5);
    s.p9999 = None;
    assert!(s.is_ordered());
}

#[test]
fn percentile_lookup_by_label() {
    let s = full(1, 2, 3, 4, 5);
    assert_eq!(s.percentile(PercentileLabel::P50), Some(1));
    assert_eq!(s.percentile(PercentileLabel::P999), Some(4));
    assert_eq!(s.percentile(PercentileLabel::P9999), Some(5));
}

#[test]
fn from_snapshot_keeps_present_values() {
    let p = Percentiles::from_snapshot(&full(11, 22, 33, 44, 55));
    assert_eq!(p, Percentiles { p50: 11, p90: 22, p99: 33, p999: 44, p9999: 55 });
}
