//! One flush: what is sent where, and what the store's answer does to the
//! buffer.

use crate::layer::object_key::{is_day_stamp, lemma_parts_have_distinct_keys, object_key};
use crate::layer::output::Output;
use crate::layer::output_view::{
    byte_len, lemma_drain_keeps_key_and_count, lemma_rollover_changes_key, next_part, OutputView,
};
use crate::s3_helpers::RemoteError;
use vstd::prelude::*;

verus! {

/// What one flush sends, and the key it sends it to.
pub struct FlushRequest {
    /// The key of the remote object to append to.
    pub key: String,
    /// The drained records, one per line.
    pub payload: String,
}

/// The buffer after the store has reported `total_size` bytes for the
/// object just written, under a limit of `object_size_limit_bytes` per
/// object: past the limit the next part begins, with the key of `day`.
pub open spec fn after_append(
    before: OutputView,
    total_size: u64,
    object_size_limit_bytes: u64,
    day: Seq<char>,
) -> OutputView {
    if total_size > object_size_limit_bytes {
        before.rolled_over(day)
    } else {
        before
    }
}

/// Begins a flush: drains the buffer and pairs the payload with the key of
/// the part that the records were queued for.
pub fn begin_flush(output: &mut Output) -> (request: FlushRequest)
    ensures
        request.payload@ == old(output)@.payload(),
        request.key@ == old(output)@.name,
        final(output)@ == old(output)@.drained(),
        old(output)@.named_for_part() ==> final(output)@.wf(),
{
    proof {
        lemma_drain_keeps_key_and_count(output@);
    }
    let payload = output.flush_buffer();
    let key = output.name();
    FlushRequest { key, payload }
}

/// Ends a flush.  Where the append went through and left the object larger
/// than `object_size_limit_bytes`, the buffer moves on to the next part;
/// where it left it within the limit, nothing changes.  A failed append is
/// handed back to the caller and changes nothing: the drained records are
/// not queued again.
pub fn finish_flush(
    output: &mut Output,
    outcome: Result<u64, RemoteError>,
    object_size_limit_bytes: u64,
) -> (result: Result<(), RemoteError>)
    ensures
        match outcome {
            Ok(total_size) => result is Ok && exists|day: Seq<char>|
                is_day_stamp(day) && final(output)@ == #[trigger] after_append(
                    old(output)@,
                    total_size,
                    object_size_limit_bytes,
                    day,
                ),
            Err(error) => {
                &&& result == Err::<(), RemoteError>(error)
                &&& final(output)@ == old(output)@
            },
        },
        ({
            &&& outcome matches Ok(total_size)
            &&& total_size > object_size_limit_bytes
            &&& old(output)@.named_for_part()
        }) ==> final(output)@.name != old(output)@.name,
        old(output)@.wf() ==> final(output)@.wf(),
{
    match outcome {
        Ok(total_size) => {
            if total_size > object_size_limit_bytes {
                output.bump_part();
                proof {
                    let day = choose|day: Seq<char>|
                        is_day_stamp(day) && output@ == #[trigger] old(output)@.rolled_over(day);
                    assert(output@ == after_append(
                        old(output)@,
                        total_size,
                        object_size_limit_bytes,
                        day,
                    ));
                }
            } else {
                proof {
                    let day = Seq::<char>::empty();
                    assert(output@ == after_append(
                        old(output)@,
                        total_size,
                        object_size_limit_bytes,
                        day,
                    ));
                }
            }
            Ok(())
        },
        Err(error) => Err(error),
    }
}

/// The size that the store reports decides the key of the next flush: past
/// the limit the buffer is at another part and under another key, within
/// the limit it is as it was.
pub proof fn lemma_limit_decides_next_key(
    before: OutputView,
    total_size: u64,
    object_size_limit_bytes: u64,
    day: Seq<char>,
)
    ensures
        ({
            let after = after_append(before, total_size, object_size_limit_bytes, day);
            &&& total_size > object_size_limit_bytes ==> {
                &&& after.part == next_part(before.part)
                &&& after.part != before.part
                &&& after.name == object_key(
                    day,
                    after.part as nat,
                    before.prefix,
                    before.nonce,
                    before.postfix,
                )
                &&& before.named_for_part() ==> after.name != before.name
            }
            &&& total_size <= object_size_limit_bytes ==> after == before
            &&& after.queue == before.queue
            &&& after.size_in_bytes == before.size_in_bytes
        }),
{
    lemma_rollover_changes_key(before, day);
}

/// The size of the object under `key` in a store that holds `sizes`; a key
/// without an object counts as size zero.
pub open spec fn size_of(sizes: Map<Seq<char>, nat>, key: Seq<char>) -> nat {
    if sizes.dom().contains(key) {
        sizes[key]
    } else {
        0
    }
}

/// The size that the object of the current part has once the queued records
/// have been appended to it.
pub open spec fn total_after_flush(sizes: Map<Seq<char>, nat>, buffer: OutputView) -> nat {
    size_of(sizes, buffer.name) + byte_len(buffer.payload())
}

/// The store after a flush that went through: the object of the current
/// part has grown by the payload.
pub open spec fn sizes_after_flush(sizes: Map<Seq<char>, nat>, buffer: OutputView) -> Map<
    Seq<char>,
    nat,
> {
    sizes.insert(buffer.name, total_after_flush(sizes, buffer))
}

/// The buffer after a flush that went through on `day`: drained, and at the
/// next part where the object has grown past the limit.
pub open spec fn buffer_after_flush(
    sizes: Map<Seq<char>, nat>,
    buffer: OutputView,
    object_size_limit_bytes: u64,
    day: Seq<char>,
) -> OutputView {
    after_append(
        buffer.drained(),
        total_after_flush(sizes, buffer) as u64,
        object_size_limit_bytes,
        day,
    )
}

/// Whether the next flush meets an object within the limit: the buffer has
/// the key of its part, the object under that key is no larger than the
/// limit, and no later part of the session has an object yet.
pub open spec fn next_append_within_limit(
    sizes: Map<Seq<char>, nat>,
    buffer: OutputView,
    object_size_limit_bytes: u64,
) -> bool {
    &&& buffer.named_for_part()
    &&& size_of(sizes, buffer.name) <= object_size_limit_bytes
    &&& forall|day: Seq<char>, part: nat|
        part > buffer.part ==> !sizes.dom().contains(
            #[trigger] object_key(day, part, buffer.prefix, buffer.nonce, buffer.postfix),
        )
}

/// A session that begins against a store without objects meets an object
/// within the limit at its first flush.
pub proof fn lemma_new_session_is_within_limit(
    day: Seq<char>,
    prefix: Seq<char>,
    postfix: Seq<char>,
    nonce: Seq<char>,
    object_size_limit_bytes: u64,
)
    ensures
        next_append_within_limit(
            Map::empty(),
            OutputView::fresh(day, prefix, postfix, nonce),
            object_size_limit_bytes,
        ),
{
    let buffer = OutputView::fresh(day, prefix, postfix, nonce);
    assert(buffer.name == object_key(
        day,
        buffer.part as nat,
        buffer.prefix,
        buffer.nonce,
        buffer.postfix,
    ));
}

/// Appends change nothing about the object that the next flush meets.
pub proof fn lemma_append_stays_within_limit(
    sizes: Map<Seq<char>, nat>,
    buffer: OutputView,
    object_size_limit_bytes: u64,
    record: Seq<char>,
)
    requires
        next_append_within_limit(sizes, buffer, object_size_limit_bytes),
    ensures
        next_append_within_limit(sizes, buffer.appended(record), object_size_limit_bytes),
{
    let grown = buffer.appended(record);
    let day = choose|day: Seq<char>|
        buffer.name == #[trigger] object_key(
            day,
            buffer.part as nat,
            buffer.prefix,
            buffer.nonce,
            buffer.postfix,
        );
    assert(grown.name == object_key(
        day,
        grown.part as nat,
        grown.prefix,
        grown.nonce,
        grown.postfix,
    ));
}

/// The limit bounds each object, not the stream: where a flush meets an
/// object within the limit, so does the flush after it.  Every payload is
/// thus appended to an object that is no larger than the limit, and an
/// object outgrows the limit by one payload at most.
pub proof fn lemma_flush_stays_within_limit(
    sizes: Map<Seq<char>, nat>,
    buffer: OutputView,
    object_size_limit_bytes: u64,
    day: Seq<char>,
)
    requires
        next_append_within_limit(sizes, buffer, object_size_limit_bytes),
        buffer.part < u64::MAX,
        total_after_flush(sizes, buffer) <= u64::MAX,
    ensures
        next_append_within_limit(
            sizes_after_flush(sizes, buffer),
            buffer_after_flush(sizes, buffer, object_size_limit_bytes, day),
            object_size_limit_bytes,
        ),
        size_of(sizes_after_flush(sizes, buffer), buffer.name) <= object_size_limit_bytes
            + byte_len(buffer.payload()),
{
    let total = total_after_flush(sizes, buffer);
    let sizes_after = sizes_after_flush(sizes, buffer);
    let old_day = choose|old_day: Seq<char>|
        buffer.name == #[trigger] object_key(
            old_day,
            buffer.part as nat,
            buffer.prefix,
            buffer.nonce,
            buffer.postfix,
        );
    assert forall|other_day: Seq<char>, part: nat| part > buffer.part implies object_key(
        other_day,
        part,
        buffer.prefix,
        buffer.nonce,
        buffer.postfix,
    ) != buffer.name && !sizes_after.dom().contains(
        #[trigger] object_key(other_day, part, buffer.prefix, buffer.nonce, buffer.postfix),
    ) by {
        lemma_parts_have_distinct_keys(
            old_day,
            buffer.part as nat,
            other_day,
            part,
            buffer.prefix,
            buffer.nonce,
            buffer.postfix,
        );
    }
    if total > object_size_limit_bytes {
        lemma_rollover_changes_key(buffer.drained(), day);
    }
}

} // verus!
