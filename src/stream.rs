use vstd::prelude::*;

use crate::error::{io_error_of, QueueError};
use crate::queue::QueueEntry;

verus! {

/// How long each pop of a stream waits for an item, in seconds.
pub const POLL_TIMEOUT_SECS: u64 = 3;

/// How long a stream pauses after a connectivity failure, in milliseconds.
pub const BACKOFF_MILLIS: u64 = 100;

/// Where a consumption stream stands.
#[derive(Clone, Copy, Debug, PartialEq, Eq, Structural)]
pub enum StreamPhase {
    /// Popping, and emitting what comes.
    Polling,
    /// Waiting out a connectivity failure before popping again.
    Backoff,
    /// Stopped for good after emitting an error.
    Failed,
}

/// What one pop of a stream came to, as the stream sees it.
#[derive(Debug)]
pub enum PopEvent<T> {
    /// An item arrived.
    Entry(QueueEntry<T>),
    /// The timeout ran out with no item.
    Empty,
    /// The connection failed; the connection layer is reconnecting.
    Connectivity,
    /// Any other failure.
    Failure(QueueError),
}

/// What the driver of a stream does next.
#[derive(Clone, Copy, Debug, PartialEq, Eq, Structural)]
pub enum StreamAction {
    /// Pop with this timeout in seconds and hand the outcome to `step`.
    Poll(u64),
    /// Sleep this many milliseconds, then call `backoff_elapsed`.
    Sleep(u64),
    /// The stream is over.
    Stop,
}

/// The state machine of a consumption stream: a lazy, unbounded sequence of
/// entries made by popping again and again. An expired timeout polls again at
/// once, a connectivity failure pauses before the next poll, and any other
/// failure is emitted as the last item.
#[derive(Debug)]
pub struct StreamMachine {
    phase: StreamPhase,
}

impl View for StreamMachine {
    type V = StreamPhase;

    closed spec fn view(&self) -> StreamPhase {
        self.phase
    }
}

/// The action taken in `phase`.
pub open spec fn action_of(phase: StreamPhase) -> StreamAction {
    match phase {
        StreamPhase::Polling => StreamAction::Poll(POLL_TIMEOUT_SECS),
        StreamPhase::Backoff => StreamAction::Sleep(BACKOFF_MILLIS),
        StreamPhase::Failed => StreamAction::Stop,
    }
}

/// The next phase and the item emitted, if any, when `event` arrives in
/// `phase`. Only a polling stream takes events.
pub open spec fn step_of<T>(phase: StreamPhase, event: PopEvent<T>) -> (
    StreamPhase,
    Option<Result<QueueEntry<T>, QueueError>>,
) {
    match phase {
        StreamPhase::Polling => match event {
            PopEvent::Entry(e) => (StreamPhase::Polling, Some(Ok(e))),
            PopEvent::Empty => (StreamPhase::Polling, None),
            PopEvent::Connectivity => (StreamPhase::Backoff, None),
            PopEvent::Failure(err) => (StreamPhase::Failed, Some(Err(err))),
        },
        _ => (phase, None),
    }
}

/// The outcome of driving a stream through a sequence of pops.
pub ghost struct StreamRun<T> {
    pub phase: StreamPhase,
    pub emitted: Seq<Result<QueueEntry<T>, QueueError>>,
    pub backoffs: nat,
}

/// The item as a sequence of zero or one items.
pub open spec fn emitted_seq<T>(
    out: Option<Result<QueueEntry<T>, QueueError>>,
) -> Seq<Result<QueueEntry<T>, QueueError>> {
    match out {
        Some(x) => seq![x],
        None => Seq::empty(),
    }
}

/// Drives a stream from `phase` through the pops `events`, as its driver
/// does: each event goes to `step`, and each backoff is slept through before
/// the next pop.
pub open spec fn run_of<T>(phase: StreamPhase, events: Seq<PopEvent<T>>) -> StreamRun<T>
    decreases events.len(),
{
    if events.len() == 0 {
        StreamRun { phase, emitted: Seq::empty(), backoffs: 0 }
    } else {
        let (next, out) = step_of(phase, events[0]);
        let slept: nat = if next == StreamPhase::Backoff { 1 } else { 0 };
        let resumed = if next == StreamPhase::Backoff { StreamPhase::Polling } else { next };
        let rest = run_of(resumed, events.skip(1));
        StreamRun {
            phase: rest.phase,
            emitted: emitted_seq(out) + rest.emitted,
            backoffs: slept + rest.backoffs,
        }
    }
}

/// `n` connectivity failures in a row.
pub open spec fn connectivity_failures<T>(n: nat) -> Seq<PopEvent<T>> {
    Seq::new(n, |i: int| PopEvent::Connectivity)
}

/// A polling stream that meets `n` connectivity failures in a row and then an
/// item emits that item and nothing else, having backed off `n` times.
pub proof fn lemma_backoff_then_entry<T>(n: nat, e: QueueEntry<T>)
    ensures
        run_of(StreamPhase::Polling, connectivity_failures::<T>(n).push(PopEvent::Entry(e)))
            == (StreamRun {
            phase: StreamPhase::Polling,
            emitted: seq![Ok::<QueueEntry<T>, QueueError>(e)],
            backoffs: n,
        }),
    decreases n,
{
    let events = connectivity_failures::<T>(n).push(PopEvent::Entry(e));
    if n == 0 {
        assert(events.skip(1) =~= Seq::<PopEvent<T>>::empty());
        assert(emitted_seq(Some(Ok::<QueueEntry<T>, QueueError>(e))) + Seq::empty() =~= seq![
            Ok::<QueueEntry<T>, QueueError>(e),
        ]);
    } else {
        lemma_backoff_then_entry::<T>((n - 1) as nat, e);
        assert(events.skip(1) =~= connectivity_failures::<T>((n - 1) as nat).push(
            PopEvent::Entry(e),
        ));
        let rest = run_of(StreamPhase::Polling, events.skip(1));
        assert(emitted_seq::<T>(None) + rest.emitted =~= rest.emitted);
    }
}

/// A stream that has failed ignores whatever comes after.
pub proof fn lemma_failed_is_final<T>(events: Seq<PopEvent<T>>)
    ensures
        run_of(StreamPhase::Failed, events) == (StreamRun::<T> {
            phase: StreamPhase::Failed,
            emitted: Seq::empty(),
            backoffs: 0,
        }),
    decreases events.len(),
{
    if events.len() > 0 {
        lemma_failed_is_final::<T>(events.skip(1));
        assert(emitted_seq::<T>(None) + Seq::empty() =~= Seq::empty());
    }
}

/// A failure other than a connectivity failure is emitted as exactly one
/// error item, and the stream produces nothing after it.
pub proof fn lemma_failure_ends_stream<T>(err: QueueError, rest: Seq<PopEvent<T>>)
    ensures
        run_of(StreamPhase::Polling, seq![PopEvent::Failure(err)] + rest) == (StreamRun {
            phase: StreamPhase::Failed,
            emitted: seq![Err::<QueueEntry<T>, QueueError>(err)],
            backoffs: 0,
        }),
{
    let events = seq![PopEvent::Failure(err)] + rest;
    assert(events.skip(1) =~= rest);
    lemma_failed_is_final::<T>(rest);
    assert(emitted_seq(Some(Err::<QueueEntry<T>, QueueError>(err))) + Seq::empty() =~= seq![
        Err::<QueueEntry<T>, QueueError>(err),
    ]);
}

/// Pops that time out with no item emit nothing, cost no backoff, and leave
/// the stream polling.
pub proof fn lemma_timeouts_keep_polling<T>(n: nat)
    ensures
        run_of(StreamPhase::Polling, Seq::new(n, |i: int| PopEvent::<T>::Empty)) == (StreamRun::<
            T,
        > { phase: StreamPhase::Polling, emitted: Seq::empty(), backoffs: 0 }),
    decreases n,
{
    let events = Seq::new(n, |i: int| PopEvent::<T>::Empty);
    if n > 0 {
        lemma_timeouts_keep_polling::<T>((n - 1) as nat);
        assert(events.skip(1) =~= Seq::new((n - 1) as nat, |i: int| PopEvent::<T>::Empty));
        assert(emitted_seq::<T>(None) + Seq::empty() =~= Seq::empty());
    }
}

impl StreamMachine {
    /// A stream about to make its first pop.
    pub fn new() -> (r: Self)
        ensures
            r@ == StreamPhase::Polling,
    {
        StreamMachine { phase: StreamPhase::Polling }
    }

    pub fn phase(&self) -> (r: StreamPhase)
        ensures
            r == self@,
    {
        self.phase
    }

    /// What the driver does next.
    pub fn next_action(&self) -> (r: StreamAction)
        ensures
            r == action_of(self@),
    {
        match self.phase {
            StreamPhase::Polling => StreamAction::Poll(POLL_TIMEOUT_SECS),
            StreamPhase::Backoff => StreamAction::Sleep(BACKOFF_MILLIS),
            StreamPhase::Failed => StreamAction::Stop,
        }
    }

    /// Takes the outcome of one pop and returns the item to emit, if any.
    pub fn step<T>(&mut self, event: PopEvent<T>) -> (r: Option<Result<QueueEntry<T>, QueueError>>)
        ensures
            (final(self)@, r) == step_of(old(self)@, event),
    {
        match self.phase {
            StreamPhase::Polling => match event {
                PopEvent::Entry(e) => Some(Ok(e)),
                PopEvent::Empty => None,
                PopEvent::Connectivity => {
                    self.phase = StreamPhase::Backoff;
                    None
                },
                PopEvent::Failure(err) => {
                    self.phase = StreamPhase::Failed;
                    Some(Err(err))
                },
            },
            _ => None,
        }
    }

    /// The pause after a connectivity failure is over: poll again.
    pub fn backoff_elapsed(&mut self)
        ensures
            final(self)@ == (if old(self)@ == StreamPhase::Backoff {
                StreamPhase::Polling
            } else {
                old(self)@
            }),
    {
        if self.phase == StreamPhase::Backoff {
            self.phase = StreamPhase::Polling;
        }
    }
}

/// What the outcome of one pop is to a stream. Connectivity failures of the
/// store are told apart from all others; encoding and decoding failures are
/// never connectivity failures.
pub fn classify<T>(result: Result<Option<QueueEntry<T>>, QueueError>) -> (r: PopEvent<T>)
    ensures
        match result {
            Ok(Some(e)) => r == PopEvent::Entry(e),
            Ok(None) => r is Empty,
            Err(err) => {
                &&& (r is Connectivity || r == PopEvent::<T>::Failure(err))
                &&& err is IOError ==> r == PopEvent::<T>::Failure(err)
                &&& err matches QueueError::RedisError(e) ==> (r is Connectivity <==> io_error_of(e))
            },
        },
{
    match result {
        Ok(Some(e)) => PopEvent::Entry(e),
        Ok(None) => PopEvent::Empty,
        Err(err) => {
            if err.is_connectivity() {
                PopEvent::Connectivity
            } else {
                PopEvent::Failure(err)
            }
        },
    }
}

} // verus!
