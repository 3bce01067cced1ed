use tracing_s3::config::tracing_s3_config::{
    ConfigError, Environment, TracingS3Config, ACCESS_KEY_ID_VARIABLE, BUCKET_VARIABLE,
    BYTES_PER_MEGABYTE, DEFAULT_REGION, REGION_VARIABLE, SECRET_ACCESS_KEY_VARIABLE,
};
use tracing_s3::config::types::{
    Bucket, BufferSizeLimitKb, CronIntervalInMs, Endpoint, ObjectSizeLimitMb, Postfix, Prefix,
};

fn nothing_set() -> Environment {
    Environment { region: None, bucket: None, access_key_id: None, secret_access_key: None }
}

fn all_set() -> Environment {
    Environment {
        region: Some("eu-central-1".to_string()),
        bucket: Some("env-bucket".to_string()),
        access_key_id: Some("env-key".to_string()),
        secret_access_key: Some("env-secret".to_string()),
    }
}

fn build(
    region: Option<&str>,
    key: Option<&str>,
    secret: Option<&str>,
    bucket: Option<&str>,
    endpoint: Option<&str>,
    environment: &Environment,
) -> Result<TracingS3Config, ConfigError> {
    TracingS3Config::new(
        region,
        key,
        secret,
        Bucket(bucket),
        Prefix("prefix"),
        Postfix("log"),
        Endpoint(endpoint),
        ObjectSizeLimitMb::new(1).ok().unwrap(),
        CronIntervalInMs::new(1_000).ok().unwrap(),
        BufferSizeLimitKb::new(1).ok().unwrap(),
        environment,
    )
}

#[test]
fn variables_have_their_names() {
    assert_eq!(REGION_VARIABLE, "S3_TRACING_AWS_REGION");
    assert_eq!(BUCKET_VARIABLE, "S3_TRACING_BUCKET");
    assert_eq!(ACCESS_KEY_ID_VARIABLE, "S3_TRACING_AWS_ACCESS_KEY_ID");
    assert_eq!(SECRET_ACCESS_KEY_VARIABLE, "S3_TRACING_AWS_SECRET_ACCESS_KEY");
    assert_eq!(DEFAULT_REGION, "us-west-2");
}

#[test]
fn settings_come_from_the_environment_where_not_passed() {
    let config = build(None, None, None, None, None, &all_set()).ok().unwrap();
    assert_eq!(config.region, "eu-central-1");
    assert_eq!(config.bucket, "env-bucket");
    assert_eq!(config.access_key_id, "env-key");
    assert_eq!(config.secret_access_key, "env-secret");
    assert_eq!(config.endpoint, None);
    assert_eq!(config.prefix, "prefix");
    assert_eq!(config.postfix, "log");
    assert_eq!(config.object_size_limit_mb, 1);
    assert_eq!(config.cron_interval_in_ms, 1_000);
    assert_eq!(config.buffer_size_limit_kb, 1);
}

#[test]
fn passed_settings_come_before_the_environment() {
    let config = build(
        Some("ap-south-1"),
        Some("key"),
        Some("secret"),
        Some("bucket"),
        Some("http://localhost:9000"),
        &all_set(),
    )
    .ok()
    .unwrap();
    assert_eq!(config.region, "ap-south-1");
    assert_eq!(config.bucket, "bucket");
    assert_eq!(config.access_key_id, "key");
    assert_eq!(config.secret_access_key, "secret");
    assert_eq!(config.endpoint, Some("http://localhost:9000".to_string()));
}

#[test]
fn region_falls_back_to_the_default() {
    let config =
        build(None, Some("key"), Some("secret"), Some("bucket"), None, &nothing_set()).ok().unwrap();
    assert_eq!(config.region, "us-west-2");
}

#[test]
fn missing_bucket_is_reported_first() {
    let result = build(None, None, None, None, None, &nothing_set());
    assert_eq!(result.err(), Some(ConfigError::MissingBucket));
    let result = build(None, Some("key"), Some("secret"), None, None, &nothing_set());
    assert_eq!(result.err(), Some(ConfigError::MissingBucket));
}

#[test]
fn missing_access_key_is_reported_second() {
    let result = build(None, None, None, Some("bucket"), None, &nothing_set());
    assert_eq!(result.err(), Some(ConfigError::MissingAccessKeyId));
    let result = build(None, None, Some("secret"), Some("bucket"), None, &nothing_set());
    assert_eq!(result.err(), Some(ConfigError::MissingAccessKeyId));
}

#[test]
fn missing_secret_is_reported_last() {
    let result = build(None, Some("key"), None, Some("bucket"), None, &nothing_set());
    assert_eq!(result.err(), Some(ConfigError::MissingSecretAccessKey));
}

#[test]
fn object_size_limit_is_given_in_bytes() {
    assert_eq!(BYTES_PER_MEGABYTE, 1_048_576);
    let mut config = build(None, None, None, None, None, &all_set()).ok().unwrap();
    assert_eq!(config.object_size_limit_bytes(), 1_048_576);
    config.object_size_limit_mb = 50_000;
    assert_eq!(config.object_size_limit_bytes(), 52_428_800_000);
    config.object_size_limit_mb = u64::MAX;
    assert_eq!(config.object_size_limit_bytes(), u64::MAX);
}
