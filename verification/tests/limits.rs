use tracing_s3::config::types::{
    Bucket, BufferSizeLimitKb, CronIntervalInMs, Endpoint, LimitError, ObjectSizeLimitMb, Postfix,
    Prefix, MAX_SIZE_LIMIT,
};

#[test]
fn buffer_size_limit_accepts_one_to_fifty_thousand() {
    assert_eq!(BufferSizeLimitKb::new(1).ok().map(|l| l.inner()), Some(1));
    assert_eq!(BufferSizeLimitKb::new(4_096).ok().map(|l| l.inner()), Some(4_096));
    assert_eq!(BufferSizeLimitKb::new(50_000).ok().map(|l| l.inner()), Some(50_000));
    assert_eq!(MAX_SIZE_LIMIT, 50_000);
}

#[test]
fn buffer_size_limit_rejects_zero() {
    assert_eq!(BufferSizeLimitKb::new(0).err(), Some(LimitError::NotPositive));
}

#[test]
fn buffer_size_limit_rejects_above_maximum() {
    assert_eq!(BufferSizeLimitKb::new(50_001).err(), Some(LimitError::BufferLimitTooLarge));
    assert_eq!(BufferSizeLimitKb::new(u64::MAX).err(), Some(LimitError::BufferLimitTooLarge));
}

#[test]
fn object_size_limit_accepts_one_to_fifty_thousand() {
    assert_eq!(ObjectSizeLimitMb::new(1).ok().map(|l| l.inner()), Some(1));
    assert_eq!(ObjectSizeLimitMb::new(50_000).ok().map(|l| l.inner()), Some(50_000));
}

#[test]
fn object_size_limit_rejects_zero() {
    assert_eq!(ObjectSizeLimitMb::new(0).err(), Some(LimitError::NotPositive));
}

#[test]
fn object_size_limit_rejects_above_maximum() {
    assert_eq!(ObjectSizeLimitMb::new(50_001).err(), Some(LimitError::ObjectLimitTooLarge));
    assert_eq!(ObjectSizeLimitMb::new(u64::MAX).err(), Some(LimitError::ObjectLimitTooLarge));
}

#[test]
fn cron_interval_accepts_every_positive_value() {
    assert_eq!(CronIntervalInMs::new(1).ok().map(|i| i.inner()), Some(1));
    assert_eq!(CronIntervalInMs::new(1_000).ok().map(|i| i.inner()), Some(1_000));
    assert_eq!(CronIntervalInMs::new(u64::MAX).ok().map(|i| i.inner()), Some(u64::MAX));
}

#[test]
fn cron_interval_rejects_zero() {
    assert_eq!(CronIntervalInMs::new(0).err(), Some(LimitError::NotPositive));
}

#[test]
fn limit_errors_have_their_messages() {
    assert_eq!(LimitError::NotPositive.message(), "Value must be larger than 0");
    assert_eq!(
        LimitError::BufferLimitTooLarge.message(),
        "Value must be smaller than 50,000 (50MB)"
    );
    assert_eq!(
        LimitError::ObjectLimitTooLarge.message(),
        "Value must be smaller than 50,000 (50GB)"
    );
}

#[test]
fn naming_inputs_hold_what_they_were_given() {
    assert_eq!(Bucket(Some("logs")).0, Some("logs"));
    assert_eq!(Bucket(None).0, None);
    assert_eq!(Prefix("prefix").0, "prefix");
    assert_eq!(Postfix("log").0, "log");
    assert_eq!(Endpoint(Some("http://localhost:9000")).0, Some("http://localhost:9000"));
    assert_eq!(Endpoint(None).0, None);
}
