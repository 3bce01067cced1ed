use std::collections::HashMap;
use tracing_s3::s3_helpers::{AppendPlan, HeadReply, PutReply, RemoteError, S3Helpers};

#[test]
fn file_size_is_the_reported_length() {
    let reply = HeadReply::Found { content_length: Some(5) };
    assert_eq!(S3Helpers::get_file_size(&reply), Ok(5));
    let reply = HeadReply::Found { content_length: Some(i64::MAX) };
    assert_eq!(S3Helpers::get_file_size(&reply), Ok(i64::MAX));
    let reply = HeadReply::Found { content_length: Some(0) };
    assert_eq!(S3Helpers::get_file_size(&reply), Ok(0));
}

#[test]
fn file_size_is_zero_where_no_length_was_given() {
    let reply = HeadReply::Found { content_length: None };
    assert_eq!(S3Helpers::get_file_size(&reply), Ok(0));
}

#[test]
fn file_size_of_a_missing_object_is_zero() {
    assert_eq!(S3Helpers::get_file_size(&HeadReply::NotFound), Ok(0));
}

#[test]
fn file_size_of_a_failed_probe_is_an_error() {
    assert_eq!(S3Helpers::get_file_size(&HeadReply::Failed), Err(RemoteError::ProbeFailed));
}

#[test]
fn file_size_below_zero_is_an_error() {
    let reply = HeadReply::Found { content_length: Some(-1) };
    assert_eq!(S3Helpers::get_file_size(&reply), Err(RemoteError::InvalidSize));
    let reply = HeadReply::Found { content_length: Some(i64::MIN) };
    assert_eq!(S3Helpers::get_file_size(&reply), Err(RemoteError::InvalidSize));
}

#[test]
fn plan_appends_at_the_end_of_the_object() {
    let reply = HeadReply::Found { content_length: Some(10) };
    assert_eq!(
        S3Helpers::plan_append(&reply, "hello"),
        Ok(AppendPlan { offset: 10, total_len: 15 })
    );
}

#[test]
fn plan_for_a_missing_object_begins_at_zero() {
    assert_eq!(
        S3Helpers::plan_append(&HeadReply::NotFound, "hello world\n"),
        Ok(AppendPlan { offset: 0, total_len: 12 })
    );
}

#[test]
fn plan_counts_bytes_not_characters() {
    assert_eq!(
        S3Helpers::plan_append(&HeadReply::NotFound, "h\u{e9}llo \u{4e16}"),
        Ok(AppendPlan { offset: 0, total_len: 10 })
    );
}

#[test]
fn plan_of_an_empty_payload_leaves_the_size() {
    let reply = HeadReply::Found { content_length: Some(7) };
    assert_eq!(S3Helpers::plan_append(&reply, ""), Ok(AppendPlan { offset: 7, total_len: 7 }));
}

#[test]
fn plan_at_the_largest_offset_still_fits() {
    let reply = HeadReply::Found { content_length: Some(i64::MAX) };
    assert_eq!(
        S3Helpers::plan_append(&reply, "abc"),
        Ok(AppendPlan { offset: i64::MAX, total_len: i64::MAX as u64 + 3 })
    );
}

#[test]
fn plan_hands_probe_errors_on() {
    assert_eq!(S3Helpers::plan_append(&HeadReply::Failed, "x"), Err(RemoteError::ProbeFailed));
    let reply = HeadReply::Found { content_length: Some(-5) };
    assert_eq!(S3Helpers::plan_append(&reply, "x"), Err(RemoteError::InvalidSize));
}

#[test]
fn stored_write_gives_the_total_size() {
    let plan = AppendPlan { offset: 10, total_len: 15 };
    assert_eq!(S3Helpers::append_to_file(&plan, &PutReply::Stored), Ok(15));
}

#[test]
fn failed_write_is_an_error() {
    let plan = AppendPlan { offset: 10, total_len: 15 };
    assert_eq!(S3Helpers::append_to_file(&plan, &PutReply::Failed), Err(RemoteError::WriteFailed));
}

fn head(store: &HashMap<String, Vec<u8>>, key: &str) -> HeadReply {
    match store.get(key) {
        Some(bytes) => HeadReply::Found { content_length: Some(bytes.len() as i64) },
        None => HeadReply::NotFound,
    }
}

fn put(store: &mut HashMap<String, Vec<u8>>, key: &str, offset: i64, body: &str) -> PutReply {
    let object = store.entry(key.to_string()).or_default();
    if object.len() as i64 != offset {
        return PutReply::Failed;
    }
    object.extend_from_slice(body.as_bytes());
    PutReply::Stored
}

#[test]
fn append_to_file_test() {
    let mut store: HashMap<String, Vec<u8>> = HashMap::new();
    let key = "check-file-exists.log";
    let mut expected: u64 = 0;
    for i in 0..5 {
        let content = format!("hello world {}\n", i);
        let plan = S3Helpers::plan_append(&head(&store, key), &content).unwrap();
        assert_eq!(plan.offset as u64, expected);
        let reply = put(&mut store, key, plan.offset, &content);
        expected += content.len() as u64;
        assert_eq!(S3Helpers::append_to_file(&plan, &reply), Ok(expected));
    }
    assert_eq!(
        String::from_utf8(store[key].clone()).unwrap(),
        "hello world 0\nhello world 1\nhello world 2\nhello world 3\nhello world 4\n"
    );
}
