//! The decisions of an append to a remote object.
//!
//! The store is asked twice: once for the size of the object, once to write
//! at that offset.  Asking is left to the embedding program; what the
//! answers mean is decided here.

use crate::layer::output_view::byte_len;
use vstd::prelude::*;
use vstd::string::*;

verus! {

/// Why an append did not take place.  Nothing is taken to have been
/// persisted; the caller may try again later.
#[derive(Debug, Clone, Copy, PartialEq, Eq, Structural)]
pub enum RemoteError {
    /// The size of the object could not be learned.
    ProbeFailed,
    /// The store reported a size below zero, or one to which the payload
    /// cannot be added within 64 bits.
    InvalidSize,
    /// The store did not accept the write.
    WriteFailed,
}

/// How the store answered a question for an object's size.
#[derive(Debug, Clone, Copy, PartialEq, Eq, Structural)]
pub enum HeadReply {
    /// The object exists; its length in bytes, where the store gave one.
    Found { content_length: Option<i64> },
    /// There is no object under the key.
    NotFound,
    /// The question went unanswered.
    Failed,
}

/// How the store answered a write.
#[derive(Debug, Clone, Copy, PartialEq, Eq, Structural)]
pub enum PutReply {
    /// The bytes were written.
    Stored,
    /// The write went wrong.
    Failed,
}

/// Where to write a payload, and how large the object is afterwards.
#[derive(Debug, Clone, Copy, PartialEq, Eq, Structural)]
pub struct AppendPlan {
    /// The offset at which the payload begins: the size of the object so
    /// far.
    pub offset: i64,
    /// The size of the object once the payload has been written.
    pub total_len: u64,
}

/// The rules of appending to a remote object.
pub struct S3Helpers {}

impl S3Helpers {
    /// The size that a reply stands for.  An object that does not exist, or
    /// whose length the store left out, has size zero.
    pub open spec fn file_size(reply: HeadReply) -> Result<i64, RemoteError> {
        match reply {
            HeadReply::Found { content_length: Some(length) } => if length < 0 {
                Err(RemoteError::InvalidSize)
            } else {
                Ok(length)
            },
            HeadReply::Found { content_length: None } => Ok(0),
            HeadReply::NotFound => Ok(0),
            HeadReply::Failed => Err(RemoteError::ProbeFailed),
        }
    }

    /// The plan for appending `content` to an object of which the store
    /// said `reply`.
    pub open spec fn append_plan(reply: HeadReply, content: Seq<char>) -> Result<
        AppendPlan,
        RemoteError,
    > {
        match Self::file_size(reply) {
            Ok(offset) => if offset + byte_len(content) > u64::MAX {
                Err(RemoteError::InvalidSize)
            } else {
                Ok(AppendPlan { offset, total_len: (offset + byte_len(content)) as u64 })
            },
            Err(error) => Err(error),
        }
    }

    /// What an append comes to once the store has answered the write.
    pub open spec fn append_result(plan: AppendPlan, put: PutReply) -> Result<u64, RemoteError> {
        match put {
            PutReply::Stored => Ok(plan.total_len),
            PutReply::Failed => Err(RemoteError::WriteFailed),
        }
    }

    /// Reads the size of an object off the store's reply.
    pub fn get_file_size(reply: &HeadReply) -> (size: Result<i64, RemoteError>)
        ensures
            size == Self::file_size(*reply),
    {
        match reply {
            HeadReply::Found { content_length: Some(length) } => {
                if *length < 0 {
                    Err(RemoteError::InvalidSize)
                } else {
                    Ok(*length)
                }
            },
            HeadReply::Found { content_length: None } => Ok(0),
            HeadReply::NotFound => Ok(0),
            HeadReply::Failed => Err(RemoteError::ProbeFailed),
        }
    }

    /// Decides where `content_to_append` goes: at the end of the object as
    /// the store reported it.
    pub fn plan_append(reply: &HeadReply, content_to_append: &str) -> (plan: Result<
        AppendPlan,
        RemoteError,
    >)
        ensures
            plan == Self::append_plan(*reply, content_to_append@),
    {
        match Self::get_file_size(reply) {
            Ok(offset) => {
                let added = content_to_append.as_bytes().len() as u64;
                match (offset as u64).checked_add(added) {
                    Some(total_len) => Ok(AppendPlan { offset, total_len }),
                    None => Err(RemoteError::InvalidSize),
                }
            },
            Err(error) => Err(error),
        }
    }

    /// Closes an append: the total size of the object when the write was
    /// stored, an error when it was not.
    pub fn append_to_file(plan: &AppendPlan, put: &PutReply) -> (total: Result<u64, RemoteError>)
        ensures
            total == Self::append_result(*plan, *put),
    {
        match put {
            PutReply::Stored => Ok(plan.total_len),
            PutReply::Failed => Err(RemoteError::WriteFailed),
        }
    }
}

} // verus!
