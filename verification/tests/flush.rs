use std::collections::HashMap;
use tracing_s3::layer::flush::{begin_flush, finish_flush};
use tracing_s3::layer::output::Output;
use tracing_s3::layer::scheduler::{FlushScheduler, SchedulerAction, SchedulerEvent};
use tracing_s3::s3_helpers::{HeadReply, PutReply, RemoteError, S3Helpers};

fn sample() -> Output {
    Output::with_nonce("prefix", "log", "nonce", "2025-03-09")
}

fn record(tag: char) -> String {
    let mut text = String::new();
    for _ in 0..40 {
        text.push(tag);
    }
    text
}

fn append_to_object(
    store: &mut HashMap<String, Vec<u8>>,
    key: &str,
    payload: &str,
) -> Result<u64, RemoteError> {
    let reply = match store.get(key) {
        Some(bytes) => HeadReply::Found { content_length: Some(bytes.len() as i64) },
        None => HeadReply::NotFound,
    };
    let plan = S3Helpers::plan_append(&reply, payload)?;
    let object = store.entry(key.to_string()).or_default();
    assert_eq!(object.len() as i64, plan.offset);
    object.extend_from_slice(payload.as_bytes());
    S3Helpers::append_to_file(&plan, &PutReply::Stored)
}

#[test]
fn begin_flush_pairs_payload_and_key() {
    let mut output = sample();
    output.append_to_buffer("a".to_string());
    output.append_to_buffer("b".to_string());
    let request = begin_flush(&mut output);
    assert_eq!(request.key, "2025-03-09/0/prefix-nonce.log");
    assert_eq!(request.payload, "a\nb");
    assert_eq!(output.buffer_len(), 0);
    assert_eq!(output.size_in_bytes(), 0);
    assert_eq!(output.name(), "2025-03-09/0/prefix-nonce.log");
}

#[test]
fn total_within_the_limit_keeps_the_key() {
    let mut output = sample();
    assert_eq!(finish_flush(&mut output, Ok(99), 100), Ok(()));
    assert_eq!(output.part(), 0);
    assert_eq!(output.name(), "2025-03-09/0/prefix-nonce.log");
    assert_eq!(finish_flush(&mut output, Ok(100), 100), Ok(()));
    assert_eq!(output.part(), 0);
    assert_eq!(output.name(), "2025-03-09/0/prefix-nonce.log");
    assert_eq!(finish_flush(&mut output, Ok(0), 0), Ok(()));
    assert_eq!(output.part(), 0);
}

#[test]
fn total_past_the_limit_moves_to_the_next_part() {
    let mut output = sample();
    output.append_to_buffer("waiting".to_string());
    assert_eq!(finish_flush(&mut output, Ok(101), 100), Ok(()));
    assert_eq!(output.part(), 1);
    let name = output.name();
    assert_ne!(name, "2025-03-09/0/prefix-nonce.log");
    assert!(name.ends_with("/1/prefix-nonce.log"));
    assert_eq!(output.buffer_len(), 1);
    assert_eq!(output.size_in_bytes(), 7);
    assert_eq!(finish_flush(&mut output, Ok(u64::MAX), 0), Ok(()));
    assert_eq!(output.part(), 2);
    assert!(output.name().ends_with("/2/prefix-nonce.log"));
}

#[test]
fn failed_append_changes_nothing_and_is_handed_back() {
    let mut output = sample();
    output.append_to_buffer("lost".to_string());
    let request = begin_flush(&mut output);
    assert_eq!(request.payload, "lost");
    assert_eq!(
        finish_flush(&mut output, Err(RemoteError::WriteFailed), 100),
        Err(RemoteError::WriteFailed)
    );
    assert_eq!(
        finish_flush(&mut output, Err(RemoteError::ProbeFailed), 100),
        Err(RemoteError::ProbeFailed)
    );
    assert_eq!(output.part(), 0);
    assert_eq!(output.name(), "2025-03-09/0/prefix-nonce.log");
    assert_eq!(output.buffer_len(), 0);
    assert_eq!(output.flush_buffer(), "");
}

#[test]
fn three_records_past_the_limit_roll_over() {
    let limit: u64 = 100;
    let mut store: HashMap<String, Vec<u8>> = HashMap::new();
    let mut scheduler = FlushScheduler::new(50, 1);
    let mut output = sample();
    assert_eq!(scheduler.start(), SchedulerAction::Sleep { millis: 50 });

    output.append_to_buffer(record('a'));
    output.append_to_buffer(record('b'));
    output.append_to_buffer(record('c'));
    assert_eq!(output.buffer_len(), 3);
    assert_eq!(output.size_in_bytes(), 120);

    let woke = SchedulerEvent::Woke {
        buffer_len: output.buffer_len(),
        size_in_bytes: output.size_in_bytes(),
    };
    assert_eq!(scheduler.step(woke), SchedulerAction::Flush);
    let first = begin_flush(&mut output);
    assert_eq!(first.key, "2025-03-09/0/prefix-nonce.log");
    assert_eq!(first.payload, format!("{}\n{}\n{}", record('a'), record('b'), record('c')));
    let total = append_to_object(&mut store, &first.key, &first.payload);
    assert_eq!(total, Ok(122));
    assert_eq!(finish_flush(&mut output, total, limit), Ok(()));
    assert_eq!(scheduler.step(SchedulerEvent::FlushEnded), SchedulerAction::Sleep { millis: 50 });
    assert_eq!(output.part(), 1);
    assert_ne!(output.name(), first.key);

    let woke = SchedulerEvent::Woke {
        buffer_len: output.buffer_len(),
        size_in_bytes: output.size_in_bytes(),
    };
    assert_eq!(scheduler.step(woke), SchedulerAction::Sleep { millis: 50 });

    output.append_to_buffer(record('d'));
    let woke = SchedulerEvent::Woke {
        buffer_len: output.buffer_len(),
        size_in_bytes: output.size_in_bytes(),
    };
    assert_eq!(scheduler.step(woke), SchedulerAction::Flush);
    let second = begin_flush(&mut output);
    assert!(second.key.ends_with("/1/prefix-nonce.log"));
    assert_eq!(second.key, output.name());
    assert_eq!(second.payload, record('d'));
    let total = append_to_object(&mut store, &second.key, &second.payload);
    assert_eq!(total, Ok(40));
    assert_eq!(finish_flush(&mut output, total, limit), Ok(()));
    assert_eq!(output.part(), 1);

    assert_eq!(store.len(), 2);
    assert_eq!(store[&first.key].len(), 122);
    assert_eq!(store[&second.key].len(), 40);
}

#[test]
fn flushes_within_the_limit_append_to_one_object() {
    let limit: u64 = 1_000;
    let mut store: HashMap<String, Vec<u8>> = HashMap::new();
    let mut output = sample();
    let mut totals: Vec<u64> = Vec::new();
    for tag in ['a', 'b', 'c'] {
        output.append_to_buffer(record(tag));
        let request = begin_flush(&mut output);
        assert_eq!(request.key, "2025-03-09/0/prefix-nonce.log");
        let total = append_to_object(&mut store, &request.key, &request.payload);
        totals.push(total.unwrap());
        assert_eq!(finish_flush(&mut output, total, limit), Ok(()));
    }
    assert_eq!(totals, vec![40, 80, 120]);
    assert_eq!(output.part(), 0);
    assert_eq!(store.len(), 1);
}
