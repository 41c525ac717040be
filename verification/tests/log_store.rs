use dns_proxy::dns_log_store::{DnsLogStore, DEFAULT_LOG_LIMIT};
use dns_proxy::dns_types::{DnsQueryLog, DnsQueryStatus, MAX_LOG_ENTRIES};

fn entry(id: u64, domain: &str) -> DnsQueryLog {
    DnsQueryLog {
        id,
        timestamp: "2024-01-01T00:00:00Z".to_string(),
        domain: domain.to_string(),
        record_type: "A".to_string(),
        response_records: vec!["1.2.3.4".to_string()],
        latency_ms: 7,
        status: DnsQueryStatus::Success,
    }
}

fn ids(entries: &[DnsQueryLog]) -> Vec<u64> {
    entries.iter().map(|e| e.id).collect()
}

#[test]
fn capacity_and_default_limit() {
    assert_eq!(MAX_LOG_ENTRIES, 1000);
    assert_eq!(DEFAULT_LOG_LIMIT, 100);
}

#[test]
fn newest_entry_comes_first() {
    let mut store = DnsLogStore::new();
    assert_eq!(store.len(), 0);
    store.record(entry(1, "a.com"));
    store.record(entry(2, "b.com"));
    store.record(entry(3, "c.com"));
    assert_eq!(store.len(), 3);
    let logs = store.get_logs(None, None, None);
    assert_eq!(ids(&logs), vec![3, 2, 1]);
    assert_eq!(logs[0].domain, "c.com");
    assert_eq!(logs[0].timestamp, "2024-01-01T00:00:00Z");
    assert_eq!(logs[0].record_type, "A");
    assert_eq!(logs[0].response_records, vec!["1.2.3.4".to_string()]);
    assert_eq!(logs[0].latency_ms, 7);
    assert_eq!(logs[0].status, DnsQueryStatus::Success);
}

#[test]
fn log_never_exceeds_capacity_and_evicts_the_oldest() {
    let mut store = DnsLogStore::new();
    for id in 0..MAX_LOG_ENTRIES as u64 {
        store.record(entry(id, "a.com"));
    }
    assert_eq!(store.len(), MAX_LOG_ENTRIES);
    let all = store.get_logs(None, None, Some(MAX_LOG_ENTRIES + 5));
    assert_eq!(all.len(), MAX_LOG_ENTRIES);
    assert_eq!(all[0].id, 999);
    assert_eq!(all[999].id, 0);
    store.record(entry(1000, "a.com"));
    assert_eq!(store.len(), MAX_LOG_ENTRIES);
    let all = store.get_logs(None, None, Some(MAX_LOG_ENTRIES + 5));
    assert_eq!(all.len(), MAX_LOG_ENTRIES);
    assert_eq!(all[0].id, 1000);
    assert_eq!(all[1].id, 999);
    assert_eq!(all[999].id, 1);
    for id in 1001..1010u64 {
        store.record(entry(id, "a.com"));
        assert_eq!(store.len(), MAX_LOG_ENTRIES);
    }
    let all = store.get_logs(None, None, Some(usize::MAX));
    assert_eq!(all[999].id, 10);
}

#[test]
fn missing_limit_means_one_hundred() {
    let mut store = DnsLogStore::new();
    for id in 0..250u64 {
        store.record(entry(id, "a.com"));
    }
    let logs = store.get_logs(None, None, None);
    assert_eq!(logs.len(), 100);
    assert_eq!(logs[0].id, 249);
    assert_eq!(logs[99].id, 150);
    let logs = store.get_logs(None, Some(200), None);
    assert_eq!(logs.len(), 50);
    assert_eq!(logs[0].id, 49);
    assert_eq!(logs[49].id, 0);
}

#[test]
fn filter_is_a_case_blind_substring_of_the_domain() {
    let mut store = DnsLogStore::new();
    store.record(entry(1, "ads.example.com"));
    store.record(entry(2, "example.com"));
    store.record(entry(3, "ADS.tracker.net"));
    store.record(entry(4, "downloads.example.org"));
    store.record(entry(5, "plain.org"));
    let logs = store.get_logs(Some("ads".to_string()), None, None);
    assert_eq!(ids(&logs), vec![4, 3, 1]);
    let logs = store.get_logs(Some("ADS".to_string()), None, None);
    assert_eq!(ids(&logs), vec![4, 3, 1]);
    let logs = store.get_logs(Some("ads".to_string()), Some(1), Some(1));
    assert_eq!(ids(&logs), vec![3]);
    let logs = store.get_logs(Some("ads".to_string()), Some(2), Some(10));
    assert_eq!(ids(&logs), vec![1]);
    let logs = store.get_logs(Some("ads".to_string()), Some(3), Some(10));
    assert!(logs.is_empty());
    let logs = store.get_logs(Some("nothing".to_string()), None, None);
    assert!(logs.is_empty());
}

#[test]
fn marked_entries_are_paged() {
    let mut store = DnsLogStore::new();
    for id in 1..=5u64 {
        store.record(entry(id, "a.com"));
    }
    let marks = vec![true, false, true, true, false];
    assert_eq!(ids(&store.page_of_marked(&marks, 0, 10)), vec![5, 3, 2]);
    assert_eq!(ids(&store.page_of_marked(&marks, 1, 1)), vec![3]);
    assert_eq!(ids(&store.page_of_marked(&marks, 2, 10)), vec![2]);
    assert!(store.page_of_marked(&marks, 3, 10).is_empty());
    assert!(store.page_of_marked(&marks, 0, 0).is_empty());
    assert_eq!(ids(&store.page_of_marked(&vec![false, true], 0, 10)), vec![4]);
    assert_eq!(ids(&store.page_of_marked(&vec![true; 9], 0, 10)), vec![5, 4, 3, 2, 1]);
    assert!(store.page_of_marked(&Vec::new(), 0, 10).is_empty());
}

#[test]
fn empty_filter_passes_everything() {
    let mut store = DnsLogStore::new();
    store.record(entry(1, "a.com"));
    store.record(entry(2, "b.com"));
    let logs = store.get_logs(Some(String::new()), None, None);
    assert_eq!(ids(&logs), vec![2, 1]);
}

#[test]
fn offset_and_limit_cut_the_page() {
    let mut store = DnsLogStore::new();
    for id in 1..=5u64 {
        store.record(entry(id, "a.com"));
    }
    assert_eq!(ids(&store.get_logs(None, Some(1), Some(2))), vec![4, 3]);
    assert_eq!(ids(&store.get_logs(None, Some(4), Some(2))), vec![1]);
    assert!(store.get_logs(None, Some(5), Some(2)).is_empty());
    assert!(store.get_logs(None, Some(usize::MAX), Some(usize::MAX)).is_empty());
    assert!(store.get_logs(None, Some(0), Some(0)).is_empty());
    assert_eq!(ids(&store.get_logs(None, Some(0), Some(usize::MAX))), vec![5, 4, 3, 2, 1]);
}

#[test]
fn clear_empties_the_log() {
    let mut store = DnsLogStore::new();
    store.record(entry(1, "a.com"));
    store.clear_logs();
    assert_eq!(store.len(), 0);
    assert!(store.get_logs(None, None, None).is_empty());
    store.record(entry(2, "b.com"));
    assert_eq!(ids(&store.get_logs(None, None, None)), vec![2]);
}

#[test]
fn entries_can_be_copied() {
    let e = entry(9, "copy.example");
    let c = e.clone();
    assert_eq!(c.id, 9);
    assert_eq!(c.domain, "copy.example");
    assert_eq!(c.response_records, e.response_records);
    assert_eq!(c.status, DnsQueryStatus::Success);
}
