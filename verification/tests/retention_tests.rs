use cloudtray::errors::DriveError;
use cloudtray::retention::{
    purge_query, purge_targets, retention_cutoff, select_expired, StampedFile,
};

fn stamped(id: &str, modified_ms: i64) -> StampedFile {
    StampedFile { id: id.to_string(), modified_ms }
}

#[test]
fn cutoff_subtracts_the_window() {
    assert_eq!(retention_cutoff(1000000, 0), Some(1000000));
    assert_eq!(retention_cutoff(86400000, 24), Some(0));
    assert_eq!(retention_cutoff(0, 1), Some(-3600000));
    // A window too large for the representable range yields nothing.
    assert_eq!(retention_cutoff(i64::MIN + 1, i64::MAX), None);
}

#[test]
fn purge_removes_exactly_the_old_files() {
    // t1 < t2 < t3 around the cutoff
    let files = vec![stamped("a", 100), stamped("b", 200), stamped("c", 300)];
    let cutoff = 250;
    let removed = select_expired(&files, cutoff);
    let removed_ids: Vec<&str> = removed.iter().map(|f| f.id.as_str()).collect();
    assert_eq!(removed_ids, vec!["a", "b"]);
    // A second immediate purge over what is kept removes nothing further.
    let kept = vec![stamped("c", 300)];
    assert_eq!(select_expired(&kept, cutoff).len(), 0);
}

#[test]
fn purge_boundary_keeps_files_at_the_cutoff() {
    let files = vec![stamped("edge", 250)];
    assert_eq!(select_expired(&files, 250).len(), 0);
    assert_eq!(select_expired(&files, 251).len(), 1);
}

#[test]
fn zero_retention_purges_a_second_old_file() {
    // retention_hours = 0: the cutoff is the present moment, and a file
    // modified one second ago is removed.
    let now_ms: i64 = 1700000000000;
    let cutoff = retention_cutoff(now_ms, 0).unwrap();
    assert_eq!(cutoff, now_ms);
    let files = vec![stamped("one-second-old", now_ms - 1000)];
    let removed = select_expired(&files, cutoff);
    assert_eq!(removed.len(), 1);
    assert_eq!(removed[0].id, "one-second-old");
}

#[test]
fn purge_query_text() {
    let q = purge_query("folder123", 0).unwrap();
    assert_eq!(
        q,
        "'folder123' in parents and trashed = false and modifiedTime < '1970-01-01T00:00:00.000Z'"
    );
    let q = purge_query("f", 1000).unwrap();
    assert_eq!(
        q,
        "'f' in parents and trashed = false and modifiedTime < '1970-01-01T00:00:01.000Z'"
    );
}

#[test]
fn purge_query_for_unrenderable_cutoff_is_refused() {
    // A cutoff far outside the calendar's representable range yields no query.
    assert_eq!(purge_query("f", i64::MIN), None);
    assert_eq!(purge_query("f", i64::MAX), None);
}

#[test]
fn purge_targets_variants() {
    let ids = purge_targets(Some(r#"{"files":[{"id":"x"},{"id":"y"}]}"#.to_string())).unwrap();
    assert_eq!(ids, vec!["x".to_string(), "y".to_string()]);
    assert_eq!(purge_targets(None), Err(DriveError::Network));
    assert_eq!(
        purge_targets(Some("garbage".to_string())),
        Err(DriveError::Malformed)
    );
}
