//! The settings of one shipping session, put together from what the caller
//! passes and what the process environment holds.

use crate::config::types::{
    Bucket, BufferSizeLimitKb, CronIntervalInMs, Endpoint, ObjectSizeLimitMb, Postfix, Prefix,
    MAX_SIZE_LIMIT,
};
use vstd::prelude::*;
use vstd::string::*;

verus! {

/// The environment variable that names the region.
pub const REGION_VARIABLE: &'static str = "S3_TRACING_AWS_REGION";

/// The environment variable that names the bucket.
pub const BUCKET_VARIABLE: &'static str = "S3_TRACING_BUCKET";

/// The environment variable that holds the access key id.
pub const ACCESS_KEY_ID_VARIABLE: &'static str = "S3_TRACING_AWS_ACCESS_KEY_ID";

/// The environment variable that holds the secret access key.
pub const SECRET_ACCESS_KEY_VARIABLE: &'static str = "S3_TRACING_AWS_SECRET_ACCESS_KEY";

/// The region used when neither the caller nor the environment names one.
pub const DEFAULT_REGION: &'static str = "us-west-2";

/// The number of bytes in one megabyte.
pub const BYTES_PER_MEGABYTE: u64 = 1_048_576;

/// What the process environment holds of the settings: for each variable
/// its value, or nothing where it is unset or not readable as text.
pub struct Environment {
    /// The value of [`REGION_VARIABLE`].
    pub region: Option<String>,
    /// The value of [`BUCKET_VARIABLE`].
    pub bucket: Option<String>,
    /// The value of [`ACCESS_KEY_ID_VARIABLE`].
    pub access_key_id: Option<String>,
    /// The value of [`SECRET_ACCESS_KEY_VARIABLE`].
    pub secret_access_key: Option<String>,
}

/// A setting that neither the caller nor the environment gave.
#[derive(Debug, Clone, Copy, PartialEq, Eq, Structural)]
pub enum ConfigError {
    /// No bucket.
    MissingBucket,
    /// No access key id.
    MissingAccessKeyId,
    /// No secret access key.
    MissingSecretAccessKey,
}

/// The text that the caller passed, if any.
pub open spec fn passed(given: Option<&str>) -> Option<Seq<char>> {
    match given {
        Some(text) => Some(text@),
        None => None,
    }
}

/// The text that the environment holds, if any.
pub open spec fn held(variable: Option<String>) -> Option<Seq<char>> {
    match variable {
        Some(text) => Some(text@),
        None => None,
    }
}

/// A setting as resolved: what the caller passed, else what the
/// environment holds.
pub open spec fn resolved(given: Option<Seq<char>>, variable: Option<Seq<char>>) -> Option<
    Seq<char>,
> {
    if given is Some {
        given
    } else {
        variable
    }
}

/// The settings of a shipping session.
pub struct TracingS3Config {
    /// The region of the store.
    pub region: String,
    /// The access key id to sign with.
    pub access_key_id: String,
    /// The secret access key to sign with.
    pub secret_access_key: String,
    /// The address of the store, where it is not the default one.
    pub endpoint: Option<String>,
    /// The bucket that receives the objects.
    pub bucket: String,
    /// The text before the nonce in every object key.
    pub prefix: String,
    /// The extension of every object key.
    pub postfix: String,
    /// The size past which an object is closed and the next part begun, in
    /// megabytes.
    pub object_size_limit_mb: u64,
    /// The length of one sleep of the scheduler, in milliseconds.
    pub cron_interval_in_ms: u64,
    /// The buffer size limit that the scheduler holds the size counter
    /// against, in kilobytes.
    pub buffer_size_limit_kb: u64,
}

fn resolve(given: Option<&str>, variable: &Option<String>) -> (setting: Option<String>)
    ensures
        held(setting) == resolved(passed(given), held(*variable)),
{
    match given {
        Some(text) => Some(String::from_str(text)),
        None => match variable {
            Some(text) => Some(text.clone()),
            None => None,
        },
    }
}

impl TracingS3Config {
    /// Whether the limits lie within their bounds.
    pub open spec fn wf(self) -> bool {
        &&& 1 <= self.object_size_limit_mb <= MAX_SIZE_LIMIT
        &&& 1 <= self.cron_interval_in_ms
        &&& 1 <= self.buffer_size_limit_kb <= MAX_SIZE_LIMIT
    }

    /// The object size limit in bytes; the largest 64-bit value where the
    /// product does not fit.
    pub open spec fn limit_in_bytes(self) -> u64 {
        if self.object_size_limit_mb * BYTES_PER_MEGABYTE > u64::MAX {
            u64::MAX
        } else {
            (self.object_size_limit_mb * BYTES_PER_MEGABYTE) as u64
        }
    }

    /// Puts the settings together.  Region, bucket and credentials are taken
    /// from the caller where passed and from `environment` otherwise; the
    /// region falls back to [`DEFAULT_REGION`].  Fails on the first of
    /// bucket, access key id and secret access key that neither gives.
    pub fn new<'a>(
        aws_region: Option<&str>,
        aws_access_key: Option<&str>,
        aws_secret_access_key: Option<&str>,
        bucket: Bucket<'a>,
        prefix: Prefix<'a>,
        postfix: Postfix<'a>,
        endpoint: Endpoint<'a>,
        object_size_limit_mb: ObjectSizeLimitMb,
        cron_interval_in_ms: CronIntervalInMs,
        buffer_size_limit_kb: BufferSizeLimitKb,
        environment: &Environment,
    ) -> (result: Result<Self, ConfigError>)
        ensures
            match result {
                Ok(config) => {
                    &&& Some(config.bucket@) == resolved(passed(bucket.0), held(environment.bucket))
                    &&& Some(config.access_key_id@) == resolved(
                        passed(aws_access_key),
                        held(environment.access_key_id),
                    )
                    &&& Some(config.secret_access_key@) == resolved(
                        passed(aws_secret_access_key),
                        held(environment.secret_access_key),
                    )
                    &&& config.region@ == match resolved(
                        passed(aws_region),
                        held(environment.region),
                    ) {
                        Some(region) => region,
                        None => DEFAULT_REGION@,
                    }
                    &&& held(config.endpoint) == passed(endpoint.0)
                    &&& config.prefix@ == prefix.0@
                    &&& config.postfix@ == postfix.0@
                    &&& config.object_size_limit_mb == object_size_limit_mb.value()
                    &&& config.cron_interval_in_ms == cron_interval_in_ms.value()
                    &&& config.buffer_size_limit_kb == buffer_size_limit_kb.value()
                    &&& config.wf()
                },
                Err(ConfigError::MissingBucket) => resolved(
                    passed(bucket.0),
                    held(environment.bucket),
                ) is None,
                Err(ConfigError::MissingAccessKeyId) => {
                    &&& resolved(passed(bucket.0), held(environment.bucket)) is Some
                    &&& resolved(passed(aws_access_key), held(environment.access_key_id)) is None
                },
                Err(ConfigError::MissingSecretAccessKey) => {
                    &&& resolved(passed(bucket.0), held(environment.bucket)) is Some
                    &&& resolved(passed(aws_access_key), held(environment.access_key_id)) is Some
                    &&& resolved(
                        passed(aws_secret_access_key),
                        held(environment.secret_access_key),
                    ) is None
                },
            },
    {
        let region = match resolve(aws_region, &environment.region) {
            Some(region) => region,
            None => String::from_str(DEFAULT_REGION),
        };
        let bucket = match resolve(bucket.0, &environment.bucket) {
            Some(bucket) => bucket,
            None => {
                return Err(ConfigError::MissingBucket);
            },
        };
        let access_key_id = match resolve(aws_access_key, &environment.access_key_id) {
            Some(access_key_id) => access_key_id,
            None => {
                return Err(ConfigError::MissingAccessKeyId);
            },
        };
        let secret_access_key = match resolve(
            aws_secret_access_key,
            &environment.secret_access_key,
        ) {
            Some(secret_access_key) => secret_access_key,
            None => {
                return Err(ConfigError::MissingSecretAccessKey);
            },
        };
        let endpoint = match endpoint.0 {
            Some(address) => Some(String::from_str(address)),
            None => None,
        };
        Ok(
            Self {
                region,
                access_key_id,
                secret_access_key,
                endpoint,
                bucket,
                prefix: String::from_str(prefix.0),
                postfix: String::from_str(postfix.0),
                object_size_limit_mb: object_size_limit_mb.inner(),
                cron_interval_in_ms: cron_interval_in_ms.inner(),
                buffer_size_limit_kb: buffer_size_limit_kb.inner(),
            },
        )
    }

    /// Returns the size past which an object is closed, in bytes.
    pub fn object_size_limit_bytes(&self) -> (bytes: u64)
        ensures
            bytes == self.limit_in_bytes(),
            self.wf() ==> bytes == self.object_size_limit_mb * BYTES_PER_MEGABYTE,
    {
        match self.object_size_limit_mb.checked_mul(BYTES_PER_MEGABYTE) {
            Some(bytes) => bytes,
            None => u64::MAX,
        }
    }
}

} // verus!
