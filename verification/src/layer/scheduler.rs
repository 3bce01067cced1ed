//! The timer loop's decisions: when a flush is due, and that no second
//! flush begins while one is under way.

use vstd::prelude::*;

verus! {

/// The factor by which the size counter is scaled before it is held against
/// the buffer size limit.
pub const SIZE_SCALE: u64 = 1_024;

/// Where the scheduler stands.
#[derive(Debug, Clone, Copy, PartialEq, Eq, Structural)]
pub enum SchedulerState {
    /// Sleeping until the next look at the buffer.
    Waiting,
    /// A flush has been asked for and has not ended yet.
    Flushing,
}

/// What the scheduler is told.
#[derive(Debug, Clone, Copy, PartialEq, Eq, Structural)]
pub enum SchedulerEvent {
    /// The sleep is over; the buffer holds `buffer_len` records of
    /// `size_in_bytes` bytes.
    Woke { buffer_len: u64, size_in_bytes: u64 },
    /// The flush that was asked for has ended, well or badly.
    FlushEnded,
}

/// What the scheduler asks for.
#[derive(Debug, Clone, Copy, PartialEq, Eq, Structural)]
pub enum SchedulerAction {
    /// Sleep for `millis` milliseconds, then report `Woke`.
    Sleep { millis: u64 },
    /// Flush the buffer, then report `FlushEnded`.
    Flush,
}

/// Whether a buffer of `buffer_len` records and `size_in_bytes` bytes is to
/// be flushed: whenever it holds a record, or its scaled size has reached
/// the limit.
pub open spec fn flush_due(buffer_len: u64, size_in_bytes: u64, buffer_size_limit_kb: u64) -> bool {
    buffer_len > 0 || size_in_bytes * SIZE_SCALE >= buffer_size_limit_kb
}

/// Decides whether a buffer of `buffer_len` records and `size_in_bytes`
/// bytes is to be flushed.
pub fn is_flush_due(buffer_len: u64, size_in_bytes: u64, buffer_size_limit_kb: u64) -> (due: bool)
    ensures
        due == flush_due(buffer_len, size_in_bytes, buffer_size_limit_kb),
{
    if buffer_len > 0 {
        true
    } else {
        match size_in_bytes.checked_mul(SIZE_SCALE) {
            Some(scaled) => scaled >= buffer_size_limit_kb,
            None => true,
        }
    }
}

/// The timer loop of one session as a state machine.
#[derive(Debug, Clone, Copy, PartialEq, Eq, Structural)]
pub struct FlushScheduler {
    /// Where the scheduler stands.
    pub state: SchedulerState,
    /// The length of one sleep, in milliseconds.
    pub cron_interval_in_ms: u64,
    /// The buffer size limit that the scaled size counter is held against.
    pub buffer_size_limit_kb: u64,
}

impl FlushScheduler {
    /// The state after `event`.  A flush begins only from `Waiting`, and
    /// only its end leads back there.
    pub open spec fn next_state(self, event: SchedulerEvent) -> SchedulerState {
        match (self.state, event) {
            (SchedulerState::Waiting, SchedulerEvent::Woke { buffer_len, size_in_bytes }) => {
                if flush_due(buffer_len, size_in_bytes, self.buffer_size_limit_kb) {
                    SchedulerState::Flushing
                } else {
                    SchedulerState::Waiting
                }
            },
            (SchedulerState::Flushing, SchedulerEvent::Woke { .. }) => SchedulerState::Flushing,
            (_, SchedulerEvent::FlushEnded) => SchedulerState::Waiting,
        }
    }

    /// What `event` makes the scheduler ask for.
    pub open spec fn next_action(self, event: SchedulerEvent) -> SchedulerAction {
        match (self.state, event) {
            (SchedulerState::Waiting, SchedulerEvent::Woke { buffer_len, size_in_bytes }) => {
                if flush_due(buffer_len, size_in_bytes, self.buffer_size_limit_kb) {
                    SchedulerAction::Flush
                } else {
                    SchedulerAction::Sleep { millis: self.cron_interval_in_ms }
                }
            },
            _ => SchedulerAction::Sleep { millis: self.cron_interval_in_ms },
        }
    }

    /// A scheduler that waits.
    pub fn new(cron_interval_in_ms: u64, buffer_size_limit_kb: u64) -> (scheduler: Self)
        ensures
            scheduler == (FlushScheduler {
                state: SchedulerState::Waiting,
                cron_interval_in_ms,
                buffer_size_limit_kb,
            }),
    {
        FlushScheduler { state: SchedulerState::Waiting, cron_interval_in_ms, buffer_size_limit_kb }
    }

    /// The first thing to do: sleep for one interval.
    pub fn start(&self) -> (action: SchedulerAction)
        ensures
            action == (SchedulerAction::Sleep { millis: self.cron_interval_in_ms }),
    {
        SchedulerAction::Sleep { millis: self.cron_interval_in_ms }
    }

    /// Takes `event` in and says what to do next.
    pub fn step(&mut self, event: SchedulerEvent) -> (action: SchedulerAction)
        ensures
            action == old(self).next_action(event),
            *final(self) == (FlushScheduler { state: old(self).next_state(event), ..*old(self) }),
    {
        match event {
            SchedulerEvent::Woke { buffer_len, size_in_bytes } => {
                match self.state {
                    SchedulerState::Waiting => {
                        if is_flush_due(buffer_len, size_in_bytes, self.buffer_size_limit_kb) {
                            self.state = SchedulerState::Flushing;
                            SchedulerAction::Flush
                        } else {
                            SchedulerAction::Sleep { millis: self.cron_interval_in_ms }
                        }
                    },
                    SchedulerState::Flushing => SchedulerAction::Sleep {
                        millis: self.cron_interval_in_ms,
                    },
                }
            },
            SchedulerEvent::FlushEnded => {
                self.state = SchedulerState::Waiting;
                SchedulerAction::Sleep { millis: self.cron_interval_in_ms }
            },
        }
    }
}

/// A scheduler with a limit of at least one kilobyte that wakes to an
/// empty buffer asks for nothing but the next sleep, and stays where it
/// stands.
pub proof fn lemma_empty_buffer_takes_no_action(scheduler: FlushScheduler)
    requires
        scheduler.buffer_size_limit_kb >= 1,
    ensures
        ({
            let woke = SchedulerEvent::Woke { buffer_len: 0, size_in_bytes: 0 };
            &&& !flush_due(0, 0, scheduler.buffer_size_limit_kb)
            &&& scheduler.next_action(woke) == (SchedulerAction::Sleep {
                millis: scheduler.cron_interval_in_ms,
            })
            &&& scheduler.next_state(woke) == scheduler.state
        }),
{
}

/// A flush is asked for only by a scheduler that waits, and only when the
/// buffer is due; the scheduler then flushes until it is told that the
/// flush has ended.  So no second flush begins while one is under way.
pub proof fn lemma_one_flush_at_a_time(scheduler: FlushScheduler, event: SchedulerEvent)
    ensures
        scheduler.next_action(event) == SchedulerAction::Flush <==> {
            &&& scheduler.state == SchedulerState::Waiting
            &&& event matches SchedulerEvent::Woke { buffer_len, size_in_bytes }
            &&& flush_due(buffer_len, size_in_bytes, scheduler.buffer_size_limit_kb)
        },
        scheduler.next_action(event) == SchedulerAction::Flush ==> scheduler.next_state(event)
            == SchedulerState::Flushing,
        scheduler.state == SchedulerState::Flushing ==> scheduler.next_action(event)
            != SchedulerAction::Flush,
        scheduler.next_state(event) == SchedulerState::Waiting <==> {
            ||| event == SchedulerEvent::FlushEnded
            ||| scheduler.state == SchedulerState::Waiting && scheduler.next_action(event)
                != SchedulerAction::Flush
        },
{
}

} // verus!
