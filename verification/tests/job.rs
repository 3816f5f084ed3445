use bonsaimq::CurrentJob;
use serde_json::Value;

fn job() -> CurrentJob {
    CurrentJob::new(5, "checkpoints", Some(Value::from(1_u64)), Some(vec![9]))
}

#[test]
fn current_job_getters() {
    let job = job();
    assert_eq!(job.id(), 5);
    assert_eq!(job.name(), "checkpoints");
    assert_eq!(job.payload_json(), Some(&Value::from(1_u64)));
    assert_eq!(job.payload_bytes(), Some(&vec![9]));
    let empty = CurrentJob::new(6, "x", None, None);
    assert!(empty.payload_json().is_none());
    assert!(empty.payload_bytes().is_none());
}

#[test]
fn checkpoint_starts_from_job_payloads() {
    let job = job();
    let checkpoint = job.checkpoint();
    assert_eq!(checkpoint.json(), Some(Value::from(1_u64)));
    assert_eq!(checkpoint.bytes(), Some(vec![9]));
}

#[test]
fn checkpoint_sets_one_payload_and_keeps_the_other() {
    let mut job = job();
    let checkpoint = job.checkpoint().payload_json(Some(Value::from(2_u64)));
    checkpoint.apply(&mut job);
    assert_eq!(job.payload_json(), Some(&Value::from(2_u64)));
    assert_eq!(job.payload_bytes(), Some(&vec![9]));
    assert_eq!(job.id(), 5);

    let checkpoint = job.checkpoint().payload_bytes(None);
    checkpoint.apply(&mut job);
    assert!(job.payload_bytes().is_none());
    assert_eq!(job.payload_json(), Some(&Value::from(2_u64)));
}
