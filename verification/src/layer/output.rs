//! The buffer of the part that is being written: its queue of serialized
//! records, their accumulated size, the part index and the object key.

use crate::layer::object_key::{is_day_stamp, is_session_nonce, object_key, object_key_for};
use crate::layer::output_view::{
    join_lines, lemma_append_keeps_key_and_count, lemma_append_keeps_one_record_per_line,
    lemma_rollover_changes_key, OutputView,
};
use crate::layer::text::is_single_line;
use crate::trusted::{fresh_nonce, local_day_stamp};
use vstd::prelude::*;
use vstd::string::*;

verus! {

/// The views of the strings in `lines`.
pub open spec fn line_views(lines: Seq<String>) -> Seq<Seq<char>> {
    Seq::new(lines.len(), |i: int| lines[i]@)
}

/// The in-memory state of the remote object that is being written.
pub struct Output {
    name: String,
    size_in_bytes: u64,
    buffer: Vec<String>,
    part: u64,
    prefix: String,
    postfix: String,
    nonce: String,
}

impl View for Output {
    type V = OutputView;

    closed spec fn view(&self) -> OutputView {
        OutputView {
            name: self.name@,
            size_in_bytes: self.size_in_bytes,
            queue: line_views(self.buffer@),
            part: self.part,
            prefix: self.prefix@,
            postfix: self.postfix@,
            nonce: self.nonce@,
        }
    }
}

impl Output {
    /// Begins part 0 of the session named by `prefix`, `nonce` and
    /// `postfix`, with the key of `day` and an empty queue.
    pub fn with_nonce(prefix: &str, postfix: &str, nonce: &str, day: &str) -> (output: Self)
        ensures
            output@ == OutputView::fresh(day@, prefix@, postfix@, nonce@),
            output@.wf(),
    {
        let output = Self {
            name: object_key_for(day, prefix, 0, postfix, nonce),
            nonce: String::from_str(nonce),
            prefix: String::from_str(prefix),
            postfix: String::from_str(postfix),
            buffer: Vec::new(),
            size_in_bytes: 0,
            part: 0,
        };
        assert(line_views(output.buffer@) =~= Seq::empty());
        assert(output@.name == object_key(
            day@,
            output@.part as nat,
            output@.prefix,
            output@.nonce,
            output@.postfix,
        ));
        output
    }

    /// Begins a session: part 0, an empty queue, a nonce of its own, and the
    /// key of today.
    pub fn new(prefix: &str, postfix: &str) -> (output: Self)
        ensures
            is_session_nonce(output@.nonce),
            exists|day: Seq<char>|
                is_day_stamp(day) && output@ == #[trigger] OutputView::fresh(
                    day,
                    prefix@,
                    postfix@,
                    output@.nonce,
                ),
            output@.wf(),
    {
        let nonce = fresh_nonce();
        let day = local_day_stamp();
        let output = Self::with_nonce(prefix, postfix, nonce.as_str(), day.as_str());
        output
    }

    /// Moves on to the next part and takes the key that `day` gives it.
    /// Queue and size counter stay as they are; the new key differs from
    /// the old one.
    pub fn bump_part_on(&mut self, day: &str)
        ensures
            final(self)@ == old(self)@.rolled_over(day@),
            old(self)@.named_for_part() ==> final(self)@.name != old(self)@.name,
            final(self)@.named_for_part(),
            old(self)@.sized_for_queue() ==> final(self)@.sized_for_queue(),
    {
        let next = self.part.wrapping_add(1);
        let name = object_key_for(
            day,
            self.prefix.as_str(),
            next,
            self.postfix.as_str(),
            self.nonce.as_str(),
        );
        proof {
            lemma_rollover_changes_key(self@, day@);
        }
        self.part = next;
        self.name = name;
    }

    /// Moves on to the next part and takes the key that today gives it.
    pub fn bump_part(&mut self)
        ensures
            exists|day: Seq<char>|
                is_day_stamp(day) && final(self)@ == #[trigger] old(self)@.rolled_over(day),
            old(self)@.named_for_part() ==> final(self)@.name != old(self)@.name,
            final(self)@.named_for_part(),
            old(self)@.sized_for_queue() ==> final(self)@.sized_for_queue(),
    {
        let day = local_day_stamp();
        self.bump_part_on(day.as_str());
    }

    /// Makes the key that part `part` of a session gets today.
    pub fn gen_name(prefix: &str, part: u64, postfix: &str, nonce: &str) -> (name: String)
        ensures
            exists|day: Seq<char>|
                is_day_stamp(day) && name@ == #[trigger] object_key(
                    day,
                    part as nat,
                    prefix@,
                    nonce@,
                    postfix@,
                ),
    {
        let day = local_day_stamp();
        let name = object_key_for(day.as_str(), prefix, part, postfix, nonce);
        name
    }

    /// Returns the number of queued records.
    pub fn buffer_len(&self) -> (count: u64)
        ensures
            count == self@.queue.len(),
    {
        self.buffer.len() as u64
    }

    /// Hands out all queued records, oldest first and one per line, and
    /// leaves the queue empty and the size counter at zero.
    pub fn flush_buffer(&mut self) -> (payload: String)
        ensures
            payload@ == old(self)@.payload(),
            final(self)@ == old(self)@.drained(),
            final(self)@.sized_for_queue(),
    {
        proof {
            reveal_strlit("\n");
        }
        let ghost queue = self@.queue;
        let mut payload = String::new();
        let mut i: usize = 0;
        while i < self.buffer.len()
            invariant
                i <= self.buffer.len(),
                *self == *old(self),
                queue == line_views(self.buffer@),
                payload@ == join_lines(queue.take(i as int)),
                "\n"@ == seq!['\n'],
            decreases self.buffer.len() - i,
        {
            if i > 0 {
                payload.append("\n");
            }
            payload.append(self.buffer[i].as_str());
            assert(queue.take(i + 1).drop_last() =~= queue.take(i as int));
            i += 1;
        }
        assert(queue.take(i as int) =~= queue);
        self.buffer.clear();
        self.size_in_bytes = 0;
        assert(line_views(self.buffer@) =~= Seq::empty());
        payload
    }

    /// Queues `value` behind the records already waiting and counts its
    /// bytes.
    pub fn append_to_buffer(&mut self, value: String)
        ensures
            final(self)@ == old(self)@.appended(value@),
            old(self)@.sized_for_queue() ==> final(self)@.sized_for_queue(),
            old(self)@.named_for_part() ==> final(self)@.named_for_part(),
            old(self)@.one_record_per_line() && is_single_line(value@)
                ==> final(self)@.one_record_per_line(),
    {
        let bytes = value.as_str().as_bytes().len();
        let ghost before = self@;
        self.size_in_bytes = self.size_in_bytes.wrapping_add(bytes as u64);
        self.buffer.push(value);
        proof {
            assert(line_views(self.buffer@) =~= before.queue.push(value@));
            lemma_append_keeps_key_and_count(before, value@);
            if before.one_record_per_line() && is_single_line(value@) {
                lemma_append_keeps_one_record_per_line(before, value@);
            }
        }
    }

    /// Returns the key of the remote object that the next flush writes to.
    pub fn name(&self) -> (name: String)
        ensures
            name@ == self@.name,
    {
        self.name.clone()
    }

    /// Returns the bytes appended since the last drain.
    pub fn size_in_bytes(&self) -> (bytes: u64)
        ensures
            bytes == self@.size_in_bytes,
    {
        self.size_in_bytes
    }

    /// Returns the index of the current part.
    pub fn part(&self) -> (part: u64)
        ensures
            part == self@.part,
    {
        self.part
    }

    /// Sets the size counter and nothing else.
    pub fn update_size_in_bytes(&mut self, size_in_bytes: u64)
        ensures
            final(self)@ == (OutputView { size_in_bytes, ..old(self)@ }),
    {
        self.size_in_bytes = size_in_bytes;
    }

    /// Sets the key and nothing else.
    pub fn update_name(&mut self, name: &str)
        ensures
            final(self)@ == (OutputView { name: name@, ..old(self)@ }),
    {
        self.name = String::from_str(name);
    }
}

} // verus!
