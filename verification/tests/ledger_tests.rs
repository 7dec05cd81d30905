use docker2fl::error::ConversionError;
use docker2fl::ledger::{fresh_job_id, FlistState, JobID, JobLedger};

#[test]
fn submitted_job_is_accepted_never_not_exists() {
    let mut ledger = JobLedger::new(8);
    let id = fresh_job_id();
    ledger.submit(id.duplicate()).unwrap();
    assert_eq!(ledger.get_state(&id), FlistState::Accepted);
}

#[test]
fn unknown_id_reads_not_exists() {
    let ledger = JobLedger::new(8);
    let id = JobID(String::from("nobody"));
    assert_eq!(ledger.get_state(&id), FlistState::NotExists);
}

#[test]
fn repeated_queries_are_stable() {
    let mut ledger = JobLedger::new(8);
    let id = fresh_job_id();
    let other = JobID(String::from("unknown"));
    ledger.submit(id.duplicate()).unwrap();
    let first = ledger.get_state(&id);
    let second = ledger.get_state(&id);
    assert_eq!(first, second);
    assert_eq!(ledger.get_state(&other), ledger.get_state(&other));
}

#[test]
fn worker_lifecycle_accepted_started_created() {
    let mut ledger = JobLedger::new(8);
    let id = fresh_job_id();
    ledger.submit(id.duplicate()).unwrap();
    let picked = ledger.dequeue().unwrap();
    assert_eq!(picked, id);
    assert_eq!(ledger.get_state(&id), FlistState::Started);
    ledger.finish(&id, true);
    assert_eq!(ledger.get_state(&id), FlistState::Created);
    assert_eq!(ledger.get_state(&id), FlistState::Created);
}

#[test]
fn failed_conversion_reads_failed() {
    let mut ledger = JobLedger::new(8);
    let id = fresh_job_id();
    ledger.submit(id.duplicate()).unwrap();
    ledger.dequeue().unwrap();
    ledger.finish(&id, false);
    assert_eq!(ledger.get_state(&id), FlistState::Failed);
}

#[test]
fn full_queue_fails_fast_and_changes_nothing() {
    let mut ledger = JobLedger::new(1);
    let first = fresh_job_id();
    let second = fresh_job_id();
    ledger.submit(first.duplicate()).unwrap();
    let r = ledger.submit(second.duplicate());
    assert_eq!(r.unwrap_err(), ConversionError::QueueFullError);
    assert_eq!(ledger.get_state(&second), FlistState::NotExists);
    assert_eq!(ledger.get_state(&first), FlistState::Accepted);
    assert_eq!(ledger.queue_len(), 1);
}

#[test]
fn dequeue_on_empty_queue_returns_none() {
    let mut ledger = JobLedger::new(4);
    assert!(ledger.dequeue().is_none());
}

#[test]
fn dequeue_is_first_in_first_out() {
    let mut ledger = JobLedger::new(4);
    let a = JobID(String::from("job-a"));
    let b = JobID(String::from("job-b"));
    ledger.submit(a.duplicate()).unwrap();
    ledger.submit(b.duplicate()).unwrap();
    assert_eq!(ledger.dequeue().unwrap(), a);
    assert_eq!(ledger.dequeue().unwrap(), b);
    assert!(ledger.dequeue().is_none());
}

#[test]
fn other_jobs_keep_their_states() {
    let mut ledger = JobLedger::new(4);
    let a = JobID(String::from("job-a"));
    let b = JobID(String::from("job-b"));
    ledger.submit(a.duplicate()).unwrap();
    ledger.submit(b.duplicate()).unwrap();
    ledger.dequeue().unwrap();
    ledger.finish(&a, true);
    assert_eq!(ledger.get_state(&a), FlistState::Created);
    assert_eq!(ledger.get_state(&b), FlistState::Accepted);
}

#[test]
fn queue_frees_a_slot_once_dequeued() {
    let mut ledger = JobLedger::new(1);
    let a = fresh_job_id();
    let b = fresh_job_id();
    ledger.submit(a.duplicate()).unwrap();
    ledger.dequeue().unwrap();
    ledger.submit(b.duplicate()).unwrap();
    assert_eq!(ledger.get_state(&b), FlistState::Accepted);
}

#[test]
fn fresh_job_id_is_hyphenated_uuid() {
    let id = fresh_job_id();
    assert_eq!(id.0.len(), 36);
    assert_eq!(id.0.chars().count(), 36);
    let dash_positions: Vec<usize> =
        id.0.char_indices().filter(|(_, c)| *c == '-').map(|(i, _)| i).collect();
    assert_eq!(dash_positions, vec![8, 13, 18, 23]);
    let id2 = fresh_job_id();
    assert_ne!(id, id2);
}

#[test]
fn job_id_equality_and_duplicate() {
    let a = JobID(String::from("same"));
    let b = JobID(String::from("same"));
    let c = JobID(String::from("other"));
    assert_eq!(a, b);
    assert_ne!(a, c);
    assert_eq!(a.duplicate(), a);
    assert_eq!(JobID::default(), JobID(String::new()));
}
