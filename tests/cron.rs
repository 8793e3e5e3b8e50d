use cron_core::job::CronJobInfo;
use cron_core::manager::{CronError, CronManager};

fn job(id: u128, channel_id: u64, prompt: &str) -> CronJobInfo {
    CronJobInfo {
        id,
        scheduler_id: None,
        channel_id,
        cron_expr: "0 0 * * * *".to_string(),
        prompt: prompt.to_string(),
        creator_id: 67890,
        description: "Test Description".to_string(),
    }
}

#[test]
fn test_cron_persistence() {
    let job_id = uuid::Uuid::new_v4().as_u128();
    let handle = uuid::Uuid::new_v4().as_u128();
    let info = CronJobInfo {
        id: job_id,
        scheduler_id: None,
        channel_id: 12345,
        cron_expr: "0 0 * * * *".to_string(),
        prompt: "Test Prompt".to_string(),
        creator_id: 67890,
        description: "Test Description".to_string(),
    };

    let mut manager = CronManager::new();
    let added = manager.add_job(info, Ok(handle)).unwrap();
    assert_eq!(added, (job_id, None));

    let saved = manager.snapshot();
    assert_eq!(saved.len(), 1);
    assert_eq!(saved[0].0, job_id);
    assert_eq!(saved[0].1.scheduler_id, Some(handle));

    let mut manager2 = CronManager::new();
    assert_eq!(manager2.load_from_disk(Some(saved)).unwrap(), 1);

    let jobs = manager2.registration_requests();
    assert_eq!(jobs.len(), 1);
    assert_eq!(jobs[0].id, job_id);
    assert_eq!(jobs[0].prompt, "Test Prompt");
    assert_eq!(jobs[0].scheduler_id, None);
}

#[test]
fn add_then_query_returns_job_once() {
    let mut m = CronManager::new();
    m.add_job(job(7, 5, "a"), Ok(70)).unwrap();
    m.add_job(job(8, 6, "b"), Ok(80)).unwrap();
    let found = m.get_jobs_for_channel(5);
    assert_eq!(found.len(), 1);
    assert_eq!(found[0].id, 7);
    assert_eq!(found[0].prompt, "a");
    assert_eq!(found[0].scheduler_id, Some(70));
}

#[test]
fn add_with_same_id_replaces_entry() {
    let mut m = CronManager::new();
    assert_eq!(m.add_job(job(7, 5, "a"), Ok(70)).unwrap(), (7, None));
    assert_eq!(m.add_job(job(7, 5, "b"), Ok(71)).unwrap(), (7, Some(70)));
    let found = m.get_jobs_for_channel(5);
    assert_eq!(found.len(), 1);
    assert_eq!(found[0].prompt, "b");
    assert_eq!(found[0].scheduler_id, Some(71));
}

#[test]
fn add_with_refused_registration_stores_nothing() {
    let mut m = CronManager::new();
    let r = m.add_job(job(7, 5, "a"), Err("bad cron".to_string()));
    match r {
        Err(CronError::Registration(msg)) => assert_eq!(msg, "bad cron"),
        other => panic!("unexpected {:?}", other),
    }
    assert!(m.get_jobs_for_channel(5).is_empty());
    assert!(m.snapshot().is_empty());
}

#[test]
fn jobs_per_channel_counts() {
    let mut m = CronManager::new();
    m.add_job(job(1, 1, "x"), Ok(11)).unwrap();
    m.add_job(job(2, 1, "y"), Ok(12)).unwrap();
    m.add_job(job(3, 2, "z"), Ok(13)).unwrap();
    assert_eq!(m.get_jobs_for_channel(1).len(), 2);
    assert_eq!(m.get_jobs_for_channel(2).len(), 1);
    assert_eq!(m.get_jobs_for_channel(3).len(), 0);
}

#[test]
fn remove_unknown_id_changes_nothing() {
    let mut m = CronManager::new();
    m.add_job(job(1, 1, "x"), Ok(11)).unwrap();
    m.add_job(job(2, 2, "y"), Ok(12)).unwrap();
    let before = m.snapshot();
    assert_eq!(m.remove_job(99), None);
    assert_eq!(m.snapshot(), before);
    assert_eq!(m.get_jobs_for_channel(1).len(), 1);
}

#[test]
fn remove_known_id_returns_handle() {
    let mut m = CronManager::new();
    m.add_job(job(1, 1, "x"), Ok(11)).unwrap();
    m.add_job(job(2, 2, "y"), Ok(12)).unwrap();
    assert_eq!(m.remove_job(1), Some(11));
    assert!(m.get_jobs_for_channel(1).is_empty());
    assert_eq!(m.get_jobs_for_channel(2).len(), 1);
    assert_eq!(m.remove_job(1), None);
}

#[test]
fn remove_unregistered_job_still_removes() {
    let mut m = CronManager::new();
    m.load_from_disk(Some(vec![(4, job(4, 1, "x"))])).unwrap();
    assert_eq!(m.remove_job(4), None);
    assert!(m.snapshot().is_empty());
}

#[test]
fn save_load_save_is_fixed_point() {
    let mut m = CronManager::new();
    m.add_job(job(1, 1, "x"), Ok(11)).unwrap();
    m.add_job(job(2, 2, "y"), Ok(12)).unwrap();
    m.add_job(job(3, 1, "z"), Ok(13)).unwrap();
    m.remove_job(2);
    let first = m.snapshot();
    assert_eq!(first.len(), 2);
    assert_eq!(first[0].0, 1);
    assert_eq!(first[0].1.scheduler_id, Some(11));
    assert_eq!(first[1].1.scheduler_id, Some(13));

    let mut reloaded = CronManager::new();
    assert_eq!(reloaded.load_from_disk(Some(first.clone())).unwrap(), 2);
    let second = reloaded.snapshot();
    assert_eq!(second.len(), first.len());
    for (a, b) in first.iter().zip(second.iter()) {
        let mut durable = a.1.clone();
        durable.scheduler_id = None;
        assert_eq!(a.0, b.0);
        assert_eq!(b.1, durable);
    }

    let mut again = CronManager::new();
    again.load_from_disk(Some(second.clone())).unwrap();
    assert_eq!(again.snapshot(), second);
}

#[test]
fn load_missing_file_gives_empty_store() {
    let mut m = CronManager::new();
    assert_eq!(m.load_from_disk(None).unwrap(), 0);
    assert!(m.snapshot().is_empty());
    assert!(m.registration_requests().is_empty());
}

#[test]
fn load_empty_snapshot_gives_empty_store() {
    let mut m = CronManager::new();
    assert_eq!(m.load_from_disk(Some(Vec::new())).unwrap(), 0);
    assert!(m.snapshot().is_empty());
}

#[test]
fn load_clears_stale_handles() {
    let mut stale = job(5, 1, "x");
    stale.scheduler_id = Some(500);
    let mut m = CronManager::new();
    m.load_from_disk(Some(vec![(5, stale)])).unwrap();
    assert_eq!(m.registration_requests()[0].scheduler_id, None);
}

#[test]
fn load_duplicate_ids_is_corrupt() {
    let mut m = CronManager::new();
    let r = m.load_from_disk(Some(vec![(5, job(5, 1, "x")), (6, job(5, 2, "y"))]));
    assert!(matches!(r, Err(CronError::CorruptSnapshot)));
    assert!(m.snapshot().is_empty());
}

#[test]
fn load_key_mismatch_is_corrupt() {
    let mut m = CronManager::new();
    let r = m.load_from_disk(Some(vec![(6, job(5, 1, "x"))]));
    assert!(matches!(r, Err(CronError::CorruptSnapshot)));
}

#[test]
fn init_registers_all_but_the_refused_job() {
    let mut m = CronManager::new();
    let entries = vec![(1, job(1, 1, "a")), (2, job(2, 1, "b")), (3, job(3, 2, "c"))];
    assert_eq!(m.load_from_disk(Some(entries)).unwrap(), 3);
    let requests = m.registration_requests();
    assert_eq!(requests.len(), 3);
    let results = vec![Ok(101), Err("malformed cron".to_string()), Ok(103)];
    let failed = m.init(results);
    assert_eq!(failed, vec![2]);
    let jobs = m.registration_requests();
    assert_eq!(jobs[0].scheduler_id, Some(101));
    assert_eq!(jobs[1].scheduler_id, None);
    assert_eq!(jobs[2].scheduler_id, Some(103));
    assert_eq!(jobs[1].prompt, "b");
}

#[test]
fn init_with_all_registered_leaves_no_job_without_handle() {
    let mut m = CronManager::new();
    m.load_from_disk(Some(vec![(1, job(1, 1, "a")), (2, job(2, 1, "b"))])).unwrap();
    let failed = m.init(vec![Ok(7), Ok(8)]);
    assert!(failed.is_empty());
    assert!(m.registration_requests().iter().all(|j| j.scheduler_id.is_some()));
}

#[test]
fn init_on_empty_store() {
    let mut m = CronManager::new();
    assert!(m.init(Vec::new()).is_empty());
}

#[test]
fn clone_keeps_every_field() {
    let mut a = job(9, 3, "p");
    a.scheduler_id = Some(4);
    assert_eq!(a.clone(), a);
}
