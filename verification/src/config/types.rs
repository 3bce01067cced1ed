//! Validated limits and the naming inputs of a shipping session.

use vstd::prelude::*;

verus! {

/// Largest accepted value of a size limit, in the unit of that limit.
pub const MAX_SIZE_LIMIT: u64 = 50_000;

/// Why a limit was turned down.
#[derive(Debug, Clone, Copy, PartialEq, Eq, Structural)]
pub enum LimitError {
    /// The value was zero.
    NotPositive,
    /// A buffer size limit above [`MAX_SIZE_LIMIT`] kilobytes.
    BufferLimitTooLarge,
    /// An object size limit above [`MAX_SIZE_LIMIT`] megabytes.
    ObjectLimitTooLarge,
}

impl LimitError {
    /// The text shown to the operator for this error.
    pub open spec fn message_text(self) -> Seq<char> {
        match self {
            LimitError::NotPositive => "Value must be larger than 0"@,
            LimitError::BufferLimitTooLarge => "Value must be smaller than 50,000 (50MB)"@,
            LimitError::ObjectLimitTooLarge => "Value must be smaller than 50,000 (50GB)"@,
        }
    }

    /// Returns the text shown to the operator for this error.
    pub fn message(&self) -> (text: &'static str)
        ensures
            text@ == self.message_text(),
    {
        match self {
            LimitError::NotPositive => "Value must be larger than 0",
            LimitError::BufferLimitTooLarge => "Value must be smaller than 50,000 (50MB)",
            LimitError::ObjectLimitTooLarge => "Value must be smaller than 50,000 (50GB)",
        }
    }
}

/// How much log data, in kilobytes, may wait in memory before the scheduler
/// becomes eager to flush.  Always between 1 and [`MAX_SIZE_LIMIT`].
pub struct BufferSizeLimitKb(u64);

impl BufferSizeLimitKb {
    #[verifier::type_invariant]
    spec fn in_range(self) -> bool {
        1 <= self.0 <= MAX_SIZE_LIMIT
    }

    /// The limit in kilobytes.
    pub closed spec fn value(self) -> u64 {
        self.0
    }

    /// Accepts `size_limit` kilobytes when it lies between 1 and
    /// [`MAX_SIZE_LIMIT`], and says why when it does not.
    pub fn new(size_limit: u64) -> (result: Result<Self, LimitError>)
        ensures
            match result {
                Ok(limit) => 1 <= size_limit <= MAX_SIZE_LIMIT && limit.value() == size_limit,
                Err(LimitError::NotPositive) => size_limit == 0,
                Err(LimitError::BufferLimitTooLarge) => size_limit > MAX_SIZE_LIMIT,
                Err(LimitError::ObjectLimitTooLarge) => false,
            },
    {
        if size_limit == 0 {
            Err(LimitError::NotPositive)
        } else if size_limit > MAX_SIZE_LIMIT {
            Err(LimitError::BufferLimitTooLarge)
        } else {
            Ok(Self(size_limit))
        }
    }

    /// Returns the limit in kilobytes.
    pub fn inner(&self) -> (kilobytes: u64)
        ensures
            kilobytes == self.value(),
            1 <= kilobytes <= MAX_SIZE_LIMIT,
    {
        proof {
            use_type_invariant(self);
        }
        self.0
    }
}

/// How large, in megabytes, one remote object may grow before the next part
/// is begun.  Always between 1 and [`MAX_SIZE_LIMIT`].
pub struct ObjectSizeLimitMb(u64);

impl ObjectSizeLimitMb {
    #[verifier::type_invariant]
    spec fn in_range(self) -> bool {
        1 <= self.0 <= MAX_SIZE_LIMIT
    }

    /// The limit in megabytes.
    pub closed spec fn value(self) -> u64 {
        self.0
    }

    /// Accepts `size_limit` megabytes when it lies between 1 and
    /// [`MAX_SIZE_LIMIT`], and says why when it does not.
    pub fn new(size_limit: u64) -> (result: Result<Self, LimitError>)
        ensures
            match result {
                Ok(limit) => 1 <= size_limit <= MAX_SIZE_LIMIT && limit.value() == size_limit,
                Err(LimitError::NotPositive) => size_limit == 0,
                Err(LimitError::ObjectLimitTooLarge) => size_limit > MAX_SIZE_LIMIT,
                Err(LimitError::BufferLimitTooLarge) => false,
            },
    {
        if size_limit == 0 {
            Err(LimitError::NotPositive)
        } else if size_limit > MAX_SIZE_LIMIT {
            Err(LimitError::ObjectLimitTooLarge)
        } else {
            Ok(Self(size_limit))
        }
    }

    /// Returns the limit in megabytes.
    pub fn inner(&self) -> (megabytes: u64)
        ensures
            megabytes == self.value(),
            1 <= megabytes <= MAX_SIZE_LIMIT,
    {
        proof {
            use_type_invariant(self);
        }
        self.0
    }
}

/// How long, in milliseconds, the scheduler sleeps between two looks at the
/// buffer.  Never zero.
pub struct CronIntervalInMs(u64);

impl CronIntervalInMs {
    #[verifier::type_invariant]
    spec fn positive(self) -> bool {
        self.0 >= 1
    }

    /// The interval in milliseconds.
    pub closed spec fn value(self) -> u64 {
        self.0
    }

    /// Accepts every interval but zero.
    pub fn new(interval: u64) -> (result: Result<Self, LimitError>)
        ensures
            match result {
                Ok(accepted) => interval >= 1 && accepted.value() == interval,
                Err(LimitError::NotPositive) => interval == 0,
                Err(_) => false,
            },
    {
        if interval == 0 {
            Err(LimitError::NotPositive)
        } else {
            Ok(Self(interval))
        }
    }

    /// Returns the interval in milliseconds.
    pub fn inner(&self) -> (milliseconds: u64)
        ensures
            milliseconds == self.value(),
            milliseconds >= 1,
    {
        proof {
            use_type_invariant(self);
        }
        self.0
    }
}

/// The destination bucket, when the caller names one.
pub struct Bucket<'a>(pub Option<&'a str>);

/// The text every object key carries before the session's nonce.
pub struct Prefix<'a>(pub &'a str);

/// The extension of every object key, such as `log` or `jsonl`.
pub struct Postfix<'a>(pub &'a str);

/// The address of an S3-compatible endpoint, when the default is not wanted.
pub struct Endpoint<'a>(pub Option<&'a str>);

} // verus!
