//! What the buffer of a session holds, as plain values: the operations on
//! it as functions of those values, and what holds of their combinations.

use crate::layer::object_key::{lemma_parts_have_distinct_keys, object_key};
use crate::layer::text::{is_single_line, lacks, lemma_cut_at_last};
use vstd::prelude::*;
use vstd::utf8::encode_utf8;

verus! {

/// The number of bytes that `record` takes when written out.
pub open spec fn byte_len(record: Seq<char>) -> nat {
    encode_utf8(record).len()
}

/// The bytes of all records in `queue` together.
pub open spec fn pending_bytes(queue: Seq<Seq<char>>) -> nat
    decreases queue.len(),
{
    if queue.len() == 0 {
        0
    } else {
        pending_bytes(queue.drop_last()) + byte_len(queue.last())
    }
}

/// A byte count as a 64-bit counter holds it: counting starts again at zero
/// past the largest value.
pub open spec fn counted(bytes: int) -> u64 {
    (bytes % 0x1_0000_0000_0000_0000) as u64
}

/// The records of `lines` in order, with one line feed between neighbours.
pub open spec fn join_lines(lines: Seq<Seq<char>>) -> Seq<char>
    decreases lines.len(),
{
    if lines.len() == 0 {
        Seq::empty()
    } else if lines.len() == 1 {
        lines[0]
    } else {
        join_lines(lines.drop_last()) + seq!['\n'] + lines.last()
    }
}

/// Whether each record of `lines` is a single line.
pub open spec fn are_single_lines(lines: Seq<Seq<char>>) -> bool {
    forall|i: int| 0 <= i < lines.len() ==> is_single_line(#[trigger] lines[i])
}

/// The part index that follows `part`; after the largest index comes zero.
pub open spec fn next_part(part: u64) -> u64 {
    if part == u64::MAX {
        0
    } else {
        (part + 1) as u64
    }
}

/// What an [`Output`] holds, as plain values.
pub struct OutputView {
    /// The key of the remote object that the next flush writes to.
    pub name: Seq<char>,
    /// The bytes appended since the last drain.
    pub size_in_bytes: u64,
    /// The records appended since the last drain, oldest first.
    pub queue: Seq<Seq<char>>,
    /// The index of the current part.
    pub part: u64,
    /// The text before the nonce in every key.
    pub prefix: Seq<char>,
    /// The extension of every key.
    pub postfix: Seq<char>,
    /// The identifier of the session.
    pub nonce: Seq<char>,
}

impl OutputView {
    /// A buffer as it is when a session begins on `day`.
    pub open spec fn fresh(
        day: Seq<char>,
        prefix: Seq<char>,
        postfix: Seq<char>,
        nonce: Seq<char>,
    ) -> OutputView {
        OutputView {
            name: object_key(day, 0, prefix, nonce, postfix),
            size_in_bytes: 0,
            queue: Seq::empty(),
            part: 0,
            prefix,
            postfix,
            nonce,
        }
    }

    /// The buffer after `record` has been appended.
    pub open spec fn appended(self, record: Seq<char>) -> OutputView {
        OutputView {
            size_in_bytes: counted(self.size_in_bytes + byte_len(record)),
            queue: self.queue.push(record),
            ..self
        }
    }

    /// The buffer after each of `records` has been appended in turn.
    pub open spec fn appended_all(self, records: Seq<Seq<char>>) -> OutputView
        decreases records.len(),
    {
        if records.len() == 0 {
            self
        } else {
            self.appended_all(records.drop_last()).appended(records.last())
        }
    }

    /// What a drain hands out: the queued records, one per line.
    pub open spec fn payload(self) -> Seq<char> {
        join_lines(self.queue)
    }

    /// The buffer after a drain.
    pub open spec fn drained(self) -> OutputView {
        OutputView { size_in_bytes: 0, queue: Seq::empty(), ..self }
    }

    /// The buffer after a rollover that took place on `day`.
    pub open spec fn rolled_over(self, day: Seq<char>) -> OutputView {
        OutputView {
            name: object_key(
                day,
                next_part(self.part) as nat,
                self.prefix,
                self.nonce,
                self.postfix,
            ),
            part: next_part(self.part),
            ..self
        }
    }

    /// Whether the key is the one that the naming formula gives the current
    /// part on some day.
    pub open spec fn named_for_part(self) -> bool {
        exists|day: Seq<char>|
            self.name == #[trigger] object_key(
                day,
                self.part as nat,
                self.prefix,
                self.nonce,
                self.postfix,
            )
    }

    /// Whether the size counter accounts for exactly the queued records.
    pub open spec fn sized_for_queue(self) -> bool {
        self.size_in_bytes == counted(pending_bytes(self.queue) as int)
    }

    /// Whether each queued record is a single line, so that the lines of a
    /// payload are the records.
    pub open spec fn one_record_per_line(self) -> bool {
        are_single_lines(self.queue)
    }

    /// Whether key and size counter agree with part index and queue.
    pub open spec fn wf(self) -> bool {
        self.named_for_part() && self.sized_for_queue()
    }
}

/// Appending records one after another lengthens the queue by exactly
/// those records, in that order, and touches neither key nor part index.
pub proof fn lemma_appends_queue_in_order(start: OutputView, records: Seq<Seq<char>>)
    ensures
        start.appended_all(records).queue == start.queue + records,
        start.appended_all(records).name == start.name,
        start.appended_all(records).part == start.part,
        start.appended_all(records).prefix == start.prefix,
        start.appended_all(records).postfix == start.postfix,
        start.appended_all(records).nonce == start.nonce,
        start.sized_for_queue() ==> start.appended_all(records).sized_for_queue(),
    decreases records.len(),
{
    if records.len() > 0 {
        lemma_appends_queue_in_order(start, records.drop_last());
        lemma_append_keeps_key_and_count(
            start.appended_all(records.drop_last()),
            records.last(),
        );
    }
}

/// A drain that follows the appends of `records` hands out what was queued
/// before together with exactly those records, one per line and in the
/// order of their appends, and leaves the buffer with no record and a size
/// of zero.  After a drain or in a new session nothing was queued before,
/// and the payload is `records` alone.
pub proof fn lemma_drain_returns_what_was_appended(start: OutputView, records: Seq<Seq<char>>)
    ensures
        start.appended_all(records).payload() == join_lines(start.queue + records),
        start.queue.len() == 0 ==> start.appended_all(records).payload() == join_lines(records),
        start.appended_all(records).drained().queue.len() == 0,
        start.appended_all(records).drained().size_in_bytes == 0,
{
    lemma_appends_queue_in_order(start, records);
}

/// Wherever a drain falls among the appends of `records`, each record is
/// seen in exactly one place: those appended before the drain are handed
/// out by it, those appended after it wait in the queue, and no record is
/// in both or in neither.
pub proof fn lemma_drain_splits_the_appends(
    start: OutputView,
    records: Seq<Seq<char>>,
    drain_at: int,
)
    requires
        0 <= drain_at <= records.len(),
    ensures
        ({
            let before = records.take(drain_at);
            let after = records.skip(drain_at);
            let at_drain = start.appended_all(before);
            let at_end = at_drain.drained().appended_all(after);
            &&& at_drain.queue == start.queue + before
            &&& at_drain.payload() == join_lines(start.queue + before)
            &&& at_end.queue == after
            &&& before + after == records
        }),
{
    let before = records.take(drain_at);
    let after = records.skip(drain_at);
    let at_drain = start.appended_all(before);
    lemma_appends_queue_in_order(start, before);
    lemma_appends_queue_in_order(at_drain.drained(), after);
}

/// Queueing a single line behind single lines leaves single lines only.
pub proof fn lemma_append_keeps_one_record_per_line(buffer: OutputView, record: Seq<char>)
    requires
        buffer.one_record_per_line(),
        is_single_line(record),
    ensures
        buffer.appended(record).one_record_per_line(),
{
    let grown = buffer.appended(record).queue;
    assert forall|i: int| 0 <= i < grown.len() implies is_single_line(#[trigger] grown[i]) by {
        if i < buffer.queue.len() {
            assert(grown[i] == buffer.queue[i]);
        }
    }
}

/// A drain that follows a drain hands out nothing and changes nothing; so
/// does the first of the two where the queue was empty to begin with.
pub proof fn lemma_drain_of_drained_is_empty(buffer: OutputView)
    ensures
        buffer.drained().payload() == Seq::<char>::empty(),
        buffer.drained().drained() == buffer.drained(),
        buffer.queue.len() == 0 ==> buffer.payload() == Seq::<char>::empty(),
{
}

/// A rollover below the largest part index raises the index by exactly one
/// and gives the buffer the key of the new part; queue, size counter and
/// naming inputs stay untouched, and the key is a new one.
pub proof fn lemma_rollover_moves_to_next_part(buffer: OutputView, day: Seq<char>)
    requires
        buffer.part < u64::MAX,
    ensures
        buffer.rolled_over(day).part == buffer.part + 1,
        buffer.rolled_over(day).name == object_key(
            day,
            (buffer.part + 1) as nat,
            buffer.prefix,
            buffer.nonce,
            buffer.postfix,
        ),
        buffer.rolled_over(day).queue == buffer.queue,
        buffer.rolled_over(day).size_in_bytes == buffer.size_in_bytes,
        buffer.rolled_over(day).prefix == buffer.prefix,
        buffer.rolled_over(day).postfix == buffer.postfix,
        buffer.rolled_over(day).nonce == buffer.nonce,
        buffer.rolled_over(day).named_for_part(),
        buffer.named_for_part() ==> buffer.rolled_over(day).name != buffer.name,
{
    lemma_rollover_changes_key(buffer, day);
}

/// A rollover always gives the buffer a key that differs from the one it
/// had, also where the part index starts again at zero.
pub proof fn lemma_rollover_changes_key(buffer: OutputView, day: Seq<char>)
    ensures
        buffer.rolled_over(day).part != buffer.part,
        buffer.rolled_over(day).named_for_part(),
        buffer.named_for_part() ==> buffer.rolled_over(day).name != buffer.name,
{
    let rolled = buffer.rolled_over(day);
    assert(rolled.name == object_key(
        day,
        rolled.part as nat,
        rolled.prefix,
        rolled.nonce,
        rolled.postfix,
    ));
    if buffer.named_for_part() {
        let old_day = choose|old_day: Seq<char>|
            buffer.name == #[trigger] object_key(
                old_day,
                buffer.part as nat,
                buffer.prefix,
                buffer.nonce,
                buffer.postfix,
            );
        lemma_parts_have_distinct_keys(
            old_day,
            buffer.part as nat,
            day,
            rolled.part as nat,
            buffer.prefix,
            buffer.nonce,
            buffer.postfix,
        );
    }
}

/// The payload of more than one record holds a line feed.
proof fn lemma_joined_lines_hold_a_line_feed(lines: Seq<Seq<char>>)
    requires
        lines.len() >= 2,
    ensures
        !lacks(join_lines(lines), '\n'),
{
    let front = join_lines(lines.drop_last());
    let whole = front + seq!['\n'] + lines.last();
    assert(whole[front.len() as int] == '\n');
}

/// Records that are single lines can be read back from a payload: two
/// queues of such records that give the same payload hold the same records
/// in the same order.  (Of an empty payload alone it cannot be told whether
/// it stands for no record or for one empty record.)
pub proof fn lemma_payload_determines_records(a: Seq<Seq<char>>, b: Seq<Seq<char>>)
    requires
        are_single_lines(a),
        are_single_lines(b),
        a.len() >= 1,
        b.len() >= 1,
        join_lines(a) == join_lines(b),
    ensures
        a == b,
    decreases a.len(),
{
    if a.len() == 1 && b.len() == 1 {
        assert(a =~= b);
    } else if a.len() == 1 {
        // one line against a payload that holds a line feed
        assert(is_single_line(a[0]));
        lemma_joined_lines_hold_a_line_feed(b);
    } else if b.len() == 1 {
        assert(is_single_line(b[0]));
        lemma_joined_lines_hold_a_line_feed(a);
    } else {
        // the same last record, and the same payload before it
        assert(is_single_line(a.last()));
        assert(is_single_line(b.last()));
        lemma_cut_at_last(
            '\n',
            join_lines(a.drop_last()),
            a.last(),
            join_lines(b.drop_last()),
            b.last(),
        );
        assert forall|i: int| 0 <= i < a.len() - 1 implies is_single_line(
            #[trigger] a.drop_last()[i],
        ) by {
            assert(a.drop_last()[i] == a[i]);
        }
        assert forall|i: int| 0 <= i < b.len() - 1 implies is_single_line(
            #[trigger] b.drop_last()[i],
        ) by {
            assert(b.drop_last()[i] == b[i]);
        }
        lemma_payload_determines_records(a.drop_last(), b.drop_last());
        assert(a =~= a.drop_last().push(a.last()));
        assert(b =~= b.drop_last().push(b.last()));
    }
}

/// A drain leaves the key in step with the part index and brings the size
/// counter in step with the queue.
pub proof fn lemma_drain_keeps_key_and_count(buffer: OutputView)
    ensures
        buffer.named_for_part() ==> buffer.drained().named_for_part(),
        buffer.drained().sized_for_queue(),
        buffer.drained().one_record_per_line(),
        buffer.named_for_part() ==> buffer.drained().wf(),
{
    let drained = buffer.drained();
    if buffer.named_for_part() {
        let day = choose|day: Seq<char>|
            buffer.name == #[trigger] object_key(
                day,
                buffer.part as nat,
                buffer.prefix,
                buffer.nonce,
                buffer.postfix,
            );
        assert(drained.name == object_key(
            day,
            drained.part as nat,
            drained.prefix,
            drained.nonce,
            drained.postfix,
        ));
    }
}

/// An append leaves the key in step with the part index and the size
/// counter in step with the queue.
pub proof fn lemma_append_keeps_key_and_count(buffer: OutputView, record: Seq<char>)
    ensures
        buffer.named_for_part() ==> buffer.appended(record).named_for_part(),
        buffer.sized_for_queue() ==> buffer.appended(record).sized_for_queue(),
        buffer.wf() ==> buffer.appended(record).wf(),
{
    let grown = buffer.appended(record);
    if buffer.named_for_part() {
        let day = choose|day: Seq<char>|
            buffer.name == #[trigger] object_key(
                day,
                buffer.part as nat,
                buffer.prefix,
                buffer.nonce,
                buffer.postfix,
            );
        assert(grown.name == object_key(
            day,
            grown.part as nat,
            grown.prefix,
            grown.nonce,
            grown.postfix,
        ));
    }
    if buffer.sized_for_queue() {
        assert(grown.queue.drop_last() =~= buffer.queue);
    }
}

} // verus!
