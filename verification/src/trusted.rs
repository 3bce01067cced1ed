//! The calls that this library makes into other crates.
//!
//! Nothing in this file is proved.  Each function below only makes the call
//! it names; its contract repeats what the called crate's source shows and is
//! taken on trust by every proof that uses it.

use crate::layer::object_key::{is_day_stamp, is_session_nonce};
use crate::layer::text::is_single_line;
use vstd::prelude::*;

verus! {

/// A structured record as the front end hands it over; its contents are not
/// looked at here.
#[verifier::external_type_specification]
#[verifier::external_body]
pub struct ExJsonValue(serde_json::Value);

/// Why a record could not be written as text.
#[verifier::external_type_specification]
#[verifier::external_body]
pub struct ExJsonError(serde_json::Error);

/// Today's date on the local clock, written by `chrono` as
/// `Local::now().date_naive().format("%Y-%m-%d")`.
///
/// Trusted: the year is written with four digits or more (with a `+` before
/// a year past 9999), month and day with two digits each, and `-` between
/// them, so the text holds nothing but those characters.  Which day it is
/// depends on the clock and the time zone; nothing is claimed of that.  The
/// call panics where the clock stands before 1970.
#[verifier::external_body]
pub(crate) fn local_day_stamp() -> (stamp: String)
    ensures
        is_day_stamp(stamp@),
{
    chrono::Local::now().date_naive().format("%Y-%m-%d").to_string()
}

/// A fresh random identifier, made by `uuid::Uuid::new_v4` and written by
/// its `Display` impl.
///
/// Trusted: the text is the hyphenated lower-case form, 36 characters long.
/// Which identifier comes out is left open.  The call panics where the
/// operating system yields no random bytes.
#[verifier::external_body]
pub(crate) fn fresh_nonce() -> (nonce: String)
    ensures
        is_session_nonce(nonce@),
{
    uuid::Uuid::new_v4().to_string()
}

/// What `serde_json::to_string` makes of a record: its compact JSON text,
/// or nothing where the record cannot be written.
///
/// Trusted: the call reads nothing but the record, so the same record always
/// gives the same text, or fails each time.  Which text that is, and which
/// records fail, is left to `serde_json`.
pub uninterp spec fn json_text(record: serde_json::Value) -> Option<Seq<char>>;

/// One record as compact JSON text, written by `serde_json::to_string`.
///
/// Trusted: the outcome is the one that [`json_text`] names for the record.
/// The compact form puts no white space between tokens and escapes every
/// control character inside strings, so the text of a record that could be
/// written holds no line feed.  Which records fail is not claimed.
#[verifier::external_body]
pub(crate) fn to_json_line(value: &serde_json::Value) -> (outcome: Result<
    String,
    serde_json::Error,
>)
    ensures
        match outcome {
            Ok(line) => json_text(*value) == Some(line@) && is_single_line(line@),
            Err(_) => json_text(*value) is None,
        },
{
    serde_json::to_string(value)
}

} // verus!
