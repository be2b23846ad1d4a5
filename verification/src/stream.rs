//! An adapter that lets the receive loop poll one outside sequence.
//!
//! [`StreamState`] is the adapter's two-state machine. [`Stream`] keeps one
//! such machine behind a lock, so that the poller and the handlers that
//! reconfigure the sequence can share it.

use vstd::prelude::*;
use parking_lot::lock_api::Mutex;
use parking_lot::RawMutex;
use crate::addr::Addr;
use crate::envelope::Envelope;
use crate::envelope::MessageKind;
use crate::lock::mutex_lock;
use crate::lock::mutex_new;
use crate::lock::protected;

verus! {

/// What one poll of a source reports.
#[derive(Debug, PartialEq, Eq)]
pub enum Polled<T> {
    /// An item is ready.
    Ready(T),
    /// The source has ended: no item will follow.
    Exhausted,
    /// No item is ready yet; the poller will be woken.
    Pending,
}

/// What the receive loop is told when the wrapped sequence reported `polled`:
/// an item travels as an ordinary message that nobody sent.
pub open spec fn delivery<M>(polled: Polled<M>) -> Polled<Envelope<M>> {
    match polled {
        Polled::Ready(message) => Polled::Ready(
            Envelope { message, kind: MessageKind::Regular { sender: Addr::null() } },
        ),
        Polled::Exhausted => Polled::Exhausted,
        Polled::Pending => Polled::Pending,
    }
}

/// The state of an adapter whose sequence, now `sequence`, reported `polled`.
pub open spec fn after_poll<S, M>(sequence: S, polled: Polled<M>) -> StreamState<S> {
    match polled {
        Polled::Exhausted => StreamState::Closed,
        _ => StreamState::Active(sequence),
    }
}

/// An adapter either wraps a sequence or is closed.
pub enum StreamState<S> {
    Active(S),
    Closed,
}

impl<S> StreamState<S> {
    /// What the receive loop is told when a poll is settled with `polled`: a
    /// closed adapter has nothing ready, whatever `polled` is.
    ///
    /// A closed adapter could as well report its end at every poll. It does
    /// not: that would ask of the receive loop to cope with a source that
    /// ends more than once.
    pub open spec fn report<M>(self, polled: Polled<M>) -> Polled<Envelope<M>> {
        match self {
            StreamState::Active(_) => delivery(polled),
            StreamState::Closed => Polled::Pending,
        }
    }

    /// The state after a poll was settled with `polled`: a closed adapter
    /// stays closed.
    pub open spec fn settled<M>(self, polled: Polled<M>) -> StreamState<S> {
        match self {
            StreamState::Active(sequence) => after_poll(sequence, polled),
            StreamState::Closed => StreamState::Closed,
        }
    }

    /// Whether a sequence is wrapped.
    pub fn is_active(&self) -> (active: bool)
        ensures
            active == (*self is Active),
    {
        match self {
            StreamState::Active(_) => true,
            StreamState::Closed => false,
        }
    }

    /// Wraps `stream`, whatever the state was.
    pub fn set(&mut self, stream: S)
        ensures
            *final(self) == StreamState::Active(stream),
    {
        *self = StreamState::Active(stream);
    }

    /// Wraps `stream` and hands back the sequence that was wrapped before, if
    /// the adapter was active.
    pub fn replace(&mut self, stream: S) -> (previous: Option<S>)
        ensures
            *final(self) == StreamState::Active(stream),
            previous == match *old(self) {
                StreamState::Active(wrapped) => Some(wrapped),
                StreamState::Closed => None,
            },
    {
        let mut state = StreamState::Active(stream);
        core::mem::swap(self, &mut state);
        match state {
            StreamState::Active(wrapped) => Some(wrapped),
            StreamState::Closed => None,
        }
    }

    /// Closes the adapter. Says whether it was active.
    pub fn close(&mut self) -> (closed_now: bool)
        ensures
            *final(self) == StreamState::<S>::Closed,
            closed_now == (*old(self) is Active),
    {
        let mut state = StreamState::Closed;
        core::mem::swap(self, &mut state);
        state.is_active()
    }

    /// Takes in what a poll of the wrapped sequence reported.
    ///
    /// An item is wrapped as an ordinary message from nobody. The end of the
    /// sequence closes the adapter and is passed on. A closed adapter wraps
    /// nothing that could have been polled: it stays closed and reports that
    /// nothing is ready.
    pub fn settle<M>(&mut self, polled: Polled<M>) -> (report: Polled<Envelope<M>>)
        ensures
            report == old(self).report(polled),
            *final(self) == old(self).settled(polled),
    {
        if !self.is_active() {
            return Polled::Pending;
        }
        match polled {
            Polled::Ready(message) => {
                let kind = MessageKind::Regular { sender: Addr::null() };
                Polled::Ready(Envelope::new(message, kind))
            },
            Polled::Exhausted => {
                *self = StreamState::Closed;
                Polled::Exhausted
            },
            Polled::Pending => Polled::Pending,
        }
    }

    /// Polls the adapter once on behalf of the receive loop.
    ///
    /// `poll` polls the wrapped sequence; it is called only while a sequence
    /// is wrapped. A closed adapter reports that nothing is ready, and never
    /// reports its end.
    pub fn poll_recv<M, F: FnOnce(&mut S) -> Polled<M>>(&mut self, poll: F) -> (report: Polled<
        Envelope<M>,
    >)
        requires
            forall|sequence: &mut S|
                *old(self) == StreamState::Active(*sequence) ==> poll.requires((sequence,)),
        ensures
            *old(self) is Closed ==> {
                &&& report == Polled::<Envelope<M>>::Pending
                &&& *final(self) == StreamState::<S>::Closed
            },
            *old(self) is Active ==> exists|sequence: &mut S, polled: Polled<M>|
                {
                    &&& *old(self) == StreamState::Active(*sequence)
                    &&& #[trigger] poll.ensures((sequence,), polled)
                    &&& report == delivery(polled)
                    &&& *final(self) == after_poll(*final(sequence), polled)
                },
    {
        match self {
            StreamState::Closed => Polled::Pending,
            StreamState::Active(sequence) => {
                let polled = poll(sequence);
                self.settle(polled)
            },
        }
    }
}

/// The end of the wrapped sequence is reported once, at the poll that closes
/// the adapter: only an active adapter whose sequence has ended reports it,
/// it is closed from then on, and whatever a later poll is settled with, the
/// report is that nothing is ready and the adapter stays closed.
pub proof fn end_is_reported_once<S, M>(state: StreamState<S>, polled: Polled<M>, later: Polled<M>)
    ensures
        state.report(polled) is Exhausted <==> state is Active && polled is Exhausted,
        state.report(polled) is Exhausted ==> state.settled(polled) is Closed,
        state.settled(polled) is Closed ==> {
            &&& state.settled(polled).report(later) is Pending
            &&& state.settled(polled).settled(later) is Closed
        },
{
}

/// An active adapter whose sequence reports an item or that nothing is ready
/// stays active around the same sequence, and passes on what was reported:
/// the item as an ordinary message that nobody sent.
pub proof fn active_adapter_passes_on<S, M>(sequence: S, polled: Polled<M>)
    requires
        !(polled is Exhausted),
    ensures
        StreamState::Active(sequence).settled(polled) == StreamState::Active(sequence),
        polled matches Polled::Ready(message) ==> StreamState::Active(sequence).report(polled)
            == Polled::Ready(
            Envelope { message, kind: MessageKind::Regular { sender: Addr::null() } },
        ),
        polled is Pending ==> StreamState::Active(sequence).report(polled) is Pending,
{
}

/// The state of an adapter that began in `state` and settled one poll with
/// each of `outcomes`, in turn.
pub open spec fn state_after<S, M>(state: StreamState<S>, outcomes: Seq<Polled<M>>) -> StreamState<
    S,
>
    decreases outcomes.len(),
{
    if outcomes.len() == 0 {
        state
    } else {
        state_after(state, outcomes.drop_last()).settled(outcomes.last())
    }
}

/// What an adapter that began in `state` reported, poll by poll, as its polls
/// were settled with `outcomes` in turn.
pub open spec fn reports<S, M>(state: StreamState<S>, outcomes: Seq<Polled<M>>) -> Seq<
    Polled<Envelope<M>>,
>
    decreases outcomes.len(),
{
    if outcomes.len() == 0 {
        Seq::empty()
    } else {
        reports(state, outcomes.drop_last()).push(
            state_after(state, outcomes.drop_last()).report(outcomes.last()),
        )
    }
}

/// The outcomes of polling a sequence that yields `items` and then ends,
/// followed by whatever `later` polls would be settled with.
pub open spec fn finite_run<M>(items: Seq<M>, later: Seq<Polled<M>>) -> Seq<Polled<M>> {
    Seq::new(items.len(), |i: int| Polled::Ready(items[i])).push(Polled::Exhausted) + later
}

/// There is one report for each poll.
proof fn one_report_each<S, M>(state: StreamState<S>, outcomes: Seq<Polled<M>>)
    ensures
        reports(state, outcomes).len() == outcomes.len(),
    decreases outcomes.len(),
{
    if outcomes.len() > 0 {
        one_report_each(state, outcomes.drop_last());
    }
}

/// Each report answers the poll of the same position, made in the state that
/// the polls before it left.
proof fn report_at<S, M>(state: StreamState<S>, outcomes: Seq<Polled<M>>, i: int)
    requires
        0 <= i < outcomes.len(),
    ensures
        reports(state, outcomes).len() == outcomes.len(),
        reports(state, outcomes)[i] == state_after(state, outcomes.take(i)).report(outcomes[i]),
    decreases outcomes.len(),
{
    let shorter = outcomes.drop_last();
    one_report_each(state, outcomes);
    one_report_each(state, shorter);
    if i < shorter.len() {
        report_at(state, shorter, i);
        assert(shorter.take(i) == outcomes.take(i));
    } else {
        assert(outcomes.take(i) == shorter);
    }
}

/// The state after the first `n` polls of a finite run: active for as long
/// as items come, closed from the poll that finds the end.
proof fn state_along_finite_run<S, M>(sequence: S, items: Seq<M>, later: Seq<Polled<M>>, n: int)
    requires
        0 <= n <= finite_run(items, later).len(),
    ensures
        n <= items.len() ==> state_after(
            StreamState::Active(sequence),
            finite_run(items, later).take(n),
        ) == StreamState::Active(sequence),
        n > items.len() ==> state_after(
            StreamState::Active(sequence),
            finite_run(items, later).take(n),
        ) is Closed,
    decreases n,
{
    let run = finite_run(items, later);
    if n > 0 {
        state_along_finite_run(sequence, items, later, n - 1);
        assert(run.take(n).drop_last() == run.take(n - 1));
        assert(run.take(n).last() == run[n - 1]);
    }
}

/// An adapter around a sequence that yields `items` and then ends delivers
/// every item in turn, as an ordinary message that nobody sent, then reports
/// the end once, and from then on reports that nothing is ready, whatever
/// its later polls are settled with. It is closed in the end.
pub proof fn finite_sequence_is_delivered_once<S, M>(
    sequence: S,
    items: Seq<M>,
    later: Seq<Polled<M>>,
)
    ensures
        ({
            let run = finite_run(items, later);
            let reports = reports(StreamState::Active(sequence), run);
            &&& reports.len() == items.len() + 1 + later.len()
            &&& forall|i: int|
                0 <= i < items.len() ==> #[trigger] reports[i] == Polled::Ready(
                    Envelope { message: items[i], kind: MessageKind::Regular { sender: Addr::null() } },
                )
            &&& reports[items.len() as int] is Exhausted
            &&& forall|i: int| items.len() < i < reports.len() ==> #[trigger] reports[i] is Pending
            &&& state_after(StreamState::Active(sequence), run) is Closed
        }),
{
    let run = finite_run(items, later);
    let start = StreamState::Active(sequence);
    let reports = reports(start, run);
    report_at(start, run, 0);
    assert forall|i: int| 0 <= i < run.len() implies #[trigger] reports[i] == state_after(
        start,
        run.take(i),
    ).report(run[i]) by {
        report_at(start, run, i);
    }
    assert forall|i: int| 0 <= i <= run.len() implies (i <= items.len() ==> #[trigger] state_after(
        start,
        run.take(i),
    ) == start) && (i > items.len() ==> state_after(start, run.take(i)) is Closed) by {
        state_along_finite_run(sequence, items, later, i);
    }
    assert(run.take(run.len() as int) == run);
}

/// A lock-protected holder of one outside sequence, which the receive loop
/// polls while handlers may replace or close the sequence.
///
/// Every operation takes the lock, applies the operation of the same name of
/// [`StreamState`] to the state found, and releases the lock. What state is
/// found depends on what the other holders of the adapter did before, so the
/// contracts of [`StreamState`] say what each operation does to it.
#[verifier::reject_recursive_types(S)]
pub struct Stream<S> {
    state: Mutex<RawMutex, StreamState<S>>,
}

impl<S> Stream<S> {
    /// An adapter that wraps `stream`.
    pub fn new(stream: S) -> Self {
        Stream { state: mutex_new(StreamState::Active(stream)) }
    }

    /// Wraps `stream`, whether the adapter was active or closed.
    pub fn set(&self, stream: S) {
        let mut locked = mutex_lock(&self.state);
        let state = protected(&mut locked);
        state.set(stream);
    }

    /// Wraps `stream` and hands back the sequence that was wrapped before, if
    /// the adapter was active.
    pub fn replace(&self, stream: S) -> Option<S> {
        let mut locked = mutex_lock(&self.state);
        let state = protected(&mut locked);
        state.replace(stream)
    }

    /// Closes the adapter. Says whether it was active.
    pub fn close(&self) -> bool {
        let mut locked = mutex_lock(&self.state);
        let state = protected(&mut locked);
        state.close()
    }

    /// Polls the adapter once on behalf of the receive loop, with the lock
    /// held: `poll` polls the wrapped sequence, and must neither wait nor
    /// reach for this adapter.
    ///
    /// Whatever state is found, the report is either that nothing is ready or
    /// what `poll` reported of some sequence, wrapped for delivery.
    pub fn poll_recv<M, F: FnOnce(&mut S) -> Polled<M>>(&self, poll: F) -> (report: Polled<
        Envelope<M>,
    >)
        requires
            forall|sequence: &mut S| poll.requires((sequence,)),
        ensures
            report == Polled::<Envelope<M>>::Pending || exists|sequence: &mut S, polled: Polled<M>|
                #[trigger] poll.ensures((sequence,), polled) && report == delivery(polled),
    {
        let mut locked = mutex_lock(&self.state);
        let state = protected(&mut locked);
        state.poll_recv(poll)
    }
}

} // verus!
