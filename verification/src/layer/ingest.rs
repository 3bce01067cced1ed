//! The way of a record from the front end into the buffer.

use crate::layer::output::Output;
use crate::layer::text::is_single_line;
use crate::trusted::{json_text, to_json_line};
use vstd::prelude::*;

verus! {

/// Files a record after the attempt to write it as text: the text goes to
/// the end of the queue; a record that could not be written is dropped.
/// Returns whether the record was queued.
pub fn route_serialized(
    output: &mut Output,
    outcome: Result<String, serde_json::Error>,
) -> (queued: bool)
    ensures
        match outcome {
            Ok(line) => queued && final(output)@ == old(output)@.appended(line@),
            Err(_) => !queued && final(output)@ == old(output)@,
        },
        old(output)@.wf() ==> final(output)@.wf(),
        old(output)@.one_record_per_line() && (outcome matches Ok(line) ==> is_single_line(line@))
            ==> final(output)@.one_record_per_line(),
{
    match outcome {
        Ok(line) => {
            output.append_to_buffer(line);
            true
        },
        Err(_) => false,
    }
}

/// Writes `record` as one line of JSON text and queues that text behind
/// the records already waiting.  A record that cannot be written is
/// dropped, and the buffer stays as it was.  Returns whether the record was
/// queued.
pub fn route_event(output: &mut Output, record: &serde_json::Value) -> (queued: bool)
    ensures
        match json_text(*record) {
            Some(line) => {
                &&& queued
                &&& is_single_line(line)
                &&& final(output)@ == old(output)@.appended(line)
            },
            None => !queued && final(output)@ == old(output)@,
        },
        old(output)@.wf() ==> final(output)@.wf(),
        old(output)@.one_record_per_line() ==> final(output)@.one_record_per_line(),
{
    let outcome = to_json_line(record);
    route_serialized(output, outcome)
}

} // verus!
