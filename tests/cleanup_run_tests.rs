use eule::{CleanupEvent, CleanupRun, CleanupStep, EuleError, Stage};

fn delete_ids(step: CleanupStep) -> Vec<u64> {
    match step {
        CleanupStep::Delete { channel_id, ids } => {
            assert_eq!(channel_id, 9);
            ids
        }
        other => panic!("expected a deletion, got {:?}", other),
    }
}

#[test]
fn run_deletes_in_chunks_and_completes() {
    let mut run = CleanupRun::new(3, 9);
    match run.step(CleanupEvent::Begin) {
        CleanupStep::Fetch { channel_id, limit } => {
            assert_eq!(channel_id, 9);
            assert_eq!(limit, 100);
        }
        other => panic!("unexpected {:?}", other),
    }
    let ids: Vec<u64> = (1..=250).collect();
    assert!(matches!(run.step(CleanupEvent::Fetched(ids)), CleanupStep::CheckRate));
    let first = delete_ids(run.step(CleanupEvent::RateChecked(true)));
    assert_eq!(first, (1..=100).collect::<Vec<u64>>());
    assert!(matches!(run.step(CleanupEvent::Deleted), CleanupStep::CheckRate));
    match run.step(CleanupEvent::RateChecked(false)) {
        CleanupStep::Cooldown(d) => assert_eq!(d.as_secs(), 2),
        other => panic!("unexpected {:?}", other),
    }
    let second = delete_ids(run.step(CleanupEvent::CooledDown));
    assert_eq!(second, (101..=200).collect::<Vec<u64>>());
    assert!(matches!(run.step(CleanupEvent::Deleted), CleanupStep::CheckRate));
    let third = delete_ids(run.step(CleanupEvent::RateChecked(true)));
    assert_eq!(third, (201..=250).collect::<Vec<u64>>());
    match run.step(CleanupEvent::Deleted) {
        CleanupStep::Complete { guild_id, channel_id, deleted } => {
            assert_eq!((guild_id, channel_id, deleted), (3, 9, 250));
        }
        other => panic!("unexpected {:?}", other),
    }
    assert_eq!(run.stage(), Stage::Finished);
}

#[test]
fn empty_channel_completes_at_once() {
    let mut run = CleanupRun::new(1, 2);
    run.step(CleanupEvent::Begin);
    match run.step(CleanupEvent::Fetched(Vec::new())) {
        CleanupStep::Complete { deleted, .. } => assert_eq!(deleted, 0),
        other => panic!("unexpected {:?}", other),
    }
}

#[test]
fn first_failure_ends_the_run() {
    let mut run = CleanupRun::new(1, 9);
    run.step(CleanupEvent::Begin);
    run.step(CleanupEvent::Fetched(vec![1, 2, 3]));
    run.step(CleanupEvent::RateChecked(true));
    match run.step(CleanupEvent::DeleteFailed("API Error".to_string())) {
        CleanupStep::Failed(EuleError::DiscordApi(m)) => assert_eq!(m, "API Error"),
        other => panic!("unexpected {:?}", other),
    }
    assert_eq!(run.stage(), Stage::Finished);
    assert!(matches!(run.step(CleanupEvent::Deleted), CleanupStep::Failed(_)));

    let mut run2 = CleanupRun::new(1, 9);
    run2.step(CleanupEvent::Begin);
    assert!(matches!(
        run2.step(CleanupEvent::FetchFailed("down".to_string())),
        CleanupStep::Failed(EuleError::DiscordApi(_))
    ));
}

#[test]
fn out_of_order_event_fails_the_run() {
    let mut run = CleanupRun::new(1, 9);
    assert!(matches!(run.step(CleanupEvent::Deleted), CleanupStep::Failed(_)));
    assert_eq!(run.stage(), Stage::Finished);
}
