use eule::registry::{CleanupTask, TaskRegistry};
use eule::{AutocleanManager, EuleError, KvStore, SerializableInstant, TimeSpan};
use std::sync::Arc;

fn manager() -> (Arc<KvStore>, AutocleanManager) {
    let kv_store = Arc::new(KvStore::open_temporary().unwrap());
    let m = AutocleanManager::new(Arc::clone(&kv_store));
    (kv_store, m)
}

#[test]
fn test_cleanup_manager_creation() {
    let (_kv, cleanup_manager) = manager();
    assert_eq!(cleanup_manager.task_count(1), 0);
}

#[test]
fn test_autoclean_manager_creation() {
    let (_kv, cleanup_manager) = manager();
    assert_eq!(cleanup_manager.task_count(1), 0);
}

#[test]
fn test_add_task() {
    let (_kv, mut cleanup_manager) = manager();
    let channel_id = 12345;
    let interval = TimeSpan::from_secs(3600);
    cleanup_manager.add_task(1, channel_id, interval).unwrap();
    assert_eq!(cleanup_manager.task_count(1), 1);

    let channel_id2 = 67890;
    cleanup_manager.add_task(1, channel_id2, interval).unwrap();
    assert_eq!(cleanup_manager.task_count(1), 2);
}

#[test]
fn test_save_and_load_tasks() {
    let (kv_store, mut cleanup_manager) = manager();
    let channel_id = 12345;
    let channel_id2 = 67890;
    cleanup_manager.save_tasks().unwrap();
    cleanup_manager.add_task(1, channel_id, TimeSpan::from_secs(3600)).unwrap();
    cleanup_manager.add_task(1, channel_id2, TimeSpan::from_secs(7200)).unwrap();
    cleanup_manager.save_tasks().unwrap();

    let mut new_cleanup_manager = AutocleanManager::new(Arc::clone(&kv_store));
    new_cleanup_manager.load_tasks().unwrap();
    assert_eq!(new_cleanup_manager.task_count(1), 2);
}

fn sorted(mut v: Vec<(u64, u64)>) -> Vec<(u64, u64)> {
    v.sort();
    v
}

fn listed(m: &AutocleanManager, g: u64) -> Vec<(u64, u64)> {
    sorted(m.list_tasks(g).into_iter().map(|(c, d)| (c, d.as_secs())).collect())
}

#[test]
fn add_then_list_holds_exactly_the_entry() {
    let (_kv, mut m) = manager();
    let t0 = SerializableInstant::from_secs(1_000);
    m.add_task_at(7, 70, TimeSpan::from_secs(60), t0).unwrap();
    assert_eq!(listed(&m, 7), vec![(70, 60)]);
    assert_eq!(m.task_count(7), 1);
    // Overwriting the same pair keeps the count and takes the new interval.
    m.add_task_at(7, 70, TimeSpan::from_secs(120), t0).unwrap();
    assert_eq!(listed(&m, 7), vec![(70, 120)]);
    assert_eq!(m.task_count(7), 1);
    // Another workspace is untouched.
    m.add_task_at(8, 70, TimeSpan::from_secs(30), t0).unwrap();
    assert_eq!(listed(&m, 7), vec![(70, 120)]);
    assert_eq!(m.task_count(8), 1);
    assert_eq!(m.task_count(9), 0);
    assert!(m.list_tasks(9).is_empty());
}

#[test]
fn zero_interval_is_refused() {
    let (_kv, mut m) = manager();
    let r = m.add_task_at(1, 1, TimeSpan::from_secs(0), SerializableInstant::from_secs(5));
    assert_eq!(r, Err(EuleError::InvalidInterval));
    assert_eq!(m.task_count(1), 0);
}

#[test]
fn remove_reports_whether_a_job_existed() {
    let (_kv, mut m) = manager();
    m.add_task(1, 10, TimeSpan::from_secs(60)).unwrap();
    m.add_task(1, 11, TimeSpan::from_secs(60)).unwrap();
    assert_eq!(m.remove_task(1, 99), Ok(false));
    assert_eq!(m.task_count(1), 2);
    assert_eq!(m.remove_task(2, 10), Ok(false));
    assert_eq!(m.task_count(1), 2);
    assert_eq!(m.remove_task(1, 10), Ok(true));
    assert_eq!(m.task_count(1), 1);
    assert_eq!(listed(&m, 1).len(), 1);
    assert_eq!(m.remove_task(1, 10), Ok(false));
    assert_eq!(m.task_count(1), 1);
}

#[test]
fn save_then_load_reproduces_the_jobs() {
    let (kv, mut m) = manager();
    let t0 = SerializableInstant::from_parts(1_700_000_000, 123_456_789);
    m.add_task_at(1, 12345, TimeSpan::from_secs(3600), t0).unwrap();
    m.add_task_at(1, 67890, TimeSpan::from_millis(7_200_500), t0).unwrap();
    m.add_task_at(2, 5, TimeSpan::from_secs(60), t0).unwrap();
    m.save_tasks().unwrap();
    let mut fresh = AutocleanManager::new(Arc::clone(&kv));
    fresh.load_tasks().unwrap();
    for g in [1u64, 2, 3] {
        let a: Vec<(u64, u128)> = {
            let mut v: Vec<(u64, u128)> = m.list_tasks(g).into_iter().map(|(c, d)| (c, d.as_nanos())).collect();
            v.sort();
            v
        };
        let b: Vec<(u64, u128)> = {
            let mut v: Vec<(u64, u128)> = fresh.list_tasks(g).into_iter().map(|(c, d)| (c, d.as_nanos())).collect();
            v.sort();
            v
        };
        assert_eq!(a, b);
    }
    let task = fresh.registry().get(1, 67890).unwrap();
    assert_eq!(task.last_cleanup.secs(), 1_700_000_000);
    assert_eq!(task.last_cleanup.subsec_nanos(), 123_456_789);
}

#[test]
fn load_without_snapshot_leaves_registry_empty() {
    let (kv, _m) = manager();
    let mut fresh = AutocleanManager::new(kv);
    fresh.load_tasks().unwrap();
    assert_eq!(fresh.task_count(1), 0);
}

#[test]
fn malformed_snapshot_is_a_serialization_error() {
    let (_kv, mut m) = manager();
    m.add_task(1, 1, TimeSpan::from_secs(60)).unwrap();
    assert!(matches!(m.restore_from("not json"), Err(EuleError::Serialization(_))));
    assert!(matches!(m.restore_from("[[1,2,0,0,5,0]]"), Err(EuleError::Serialization(_))));
    assert!(matches!(m.restore_from("[[1,2,1,1000000000,5,0]]"), Err(EuleError::Serialization(_))));
    assert_eq!(m.task_count(1), 1);
    m.restore_from("[[3,4,60,0,5,0],[3,4,90,0,5,0]]").unwrap();
    assert_eq!(m.task_count(1), 0);
    assert_eq!(listed(&m, 3), vec![(4, 90)]);
}

#[test]
fn end_to_end_tick_and_completed_run() {
    let (_kv, mut m) = manager();
    let t0 = SerializableInstant::from_secs(10_000);
    // The smallest interval a job may have: one nanosecond.
    m.add_task_at(1, 1, TimeSpan::from_parts(0, 1), t0).unwrap();
    let tick = SerializableInstant::from_parts(10_000, 1);
    let due = m.due_tasks(&tick);
    assert_eq!(due, vec![(1, 1)]);
    let done_at = SerializableInstant::from_secs(10_005);
    assert!(m.mark_run(1, 1, done_at));
    let task = m.registry().get(1, 1).unwrap();
    assert_eq!(task.last_cleanup.secs(), 10_005);
    assert_eq!(m.task_count(1), 1);
    assert!(m.due_tasks(&SerializableInstant::from_secs(10_004)).is_empty());
}

#[test]
fn due_scan_picks_exactly_the_due_jobs() {
    let mut reg = TaskRegistry::new();
    let t0 = SerializableInstant::from_secs(100);
    reg.insert(1, 1, CleanupTask::new_at(TimeSpan::from_secs(10), t0)).unwrap();
    reg.insert(1, 2, CleanupTask::new_at(TimeSpan::from_secs(20), t0)).unwrap();
    reg.insert(2, 1, CleanupTask::new_at(TimeSpan::from_secs(5), t0)).unwrap();
    assert!(reg.due(&SerializableInstant::from_secs(104)).is_empty());
    assert_eq!(sorted(reg.due(&SerializableInstant::from_secs(110))), vec![(1, 1), (2, 1)]);
    assert_eq!(sorted(reg.due(&SerializableInstant::from_secs(120))), vec![(1, 1), (1, 2), (2, 1)]);
    // A clock behind the last run makes nothing due.
    assert!(reg.due(&SerializableInstant::from_secs(50)).is_empty());
    assert!(!reg.mark_run(3, 3, t0));
}

#[test]
fn records_round_trip_through_a_registry() {
    let mut reg = TaskRegistry::new();
    reg.insert(1, 2, CleanupTask::new_at(TimeSpan::from_millis(1500), SerializableInstant::from_parts(9, 8))).unwrap();
    reg.insert(3, 4, CleanupTask::new_at(TimeSpan::from_secs(60), SerializableInstant::from_secs(1))).unwrap();
    let mut recs = reg.to_records();
    recs.sort();
    assert_eq!(recs, vec![(1, 2, 1, 500_000_000, 9, 8), (3, 4, 60, 0, 1, 0)]);
    let back = TaskRegistry::from_records(&recs).unwrap();
    assert_eq!(back.count(1), 1);
    assert_eq!(back.get(1, 2).unwrap().interval.as_nanos(), 1_500_000_000);
}

#[test]
fn absent_snapshot_keeps_the_jobs() {
    let (_kv, mut m) = manager();
    m.add_task(1, 1, TimeSpan::from_secs(60)).unwrap();
    assert_eq!(m.apply_snapshot(None), Ok(()));
    assert_eq!(m.task_count(1), 1);
}

#[test]
fn snapshot_text_lists_every_job() {
    let (_kv, mut m) = manager();
    m.add_task_at(1, 2, TimeSpan::from_secs(60), SerializableInstant::from_secs(7)).unwrap();
    let text = m.snapshot_text().unwrap();
    assert_eq!(text, "[[1,2,60,0,7,0]]");
    let (_kv2, mut other) = manager();
    other.apply_snapshot(Some(text)).unwrap();
    assert_eq!(listed(&other, 1), vec![(2, 60)]);
}
