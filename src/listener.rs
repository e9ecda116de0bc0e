use vstd::prelude::*;

use crate::error::{OsError, PlatformError};

verus! {

/// A notification pushed by the operating system, with the window it concerns.
#[derive(Debug, Clone, Copy, PartialEq, Eq)]
pub enum PlatformEvent {
    WindowFocused(isize),
    WindowShown(isize),
    WindowHidden(isize),
    WindowMoved(isize),
    WindowMinimized(isize),
    WindowDestroyed(isize),
    WindowTitleChanged(isize),
    DisplaySettingsChanged,
}

/// Phase of a listener once its hook is installed. The phases before that
/// (created, starting) pass while the hook is being installed, and a failed
/// installation yields no listener at all but an error.
#[derive(Debug, Clone, Copy, PartialEq, Eq)]
pub enum ListenerState {
    Running,
    Stopped,
}

/// What a consumer does with a listener after it exists: the hook pushes an
/// event, or the consumer polls for the next one.
#[derive(Debug, Clone, Copy, PartialEq, Eq)]
pub enum ListenerOp {
    Deliver(PlatformEvent),
    Poll,
}

/// Phase of the listener and the events delivered but not yet consumed.
pub type ListenerModel = (ListenerState, Seq<PlatformEvent>);

/// The listener turns operating-system notifications into an ordered stream.
/// Events arrive in delivery order and are neither reordered nor merged.
pub struct EventListener {
    state: ListenerState,
    pending: Vec<PlatformEvent>,
}

pub open spec fn running_model() -> ListenerModel {
    (ListenerState::Running, Seq::empty())
}

pub open spec fn stopped_model() -> ListenerModel {
    (ListenerState::Stopped, Seq::empty())
}

/// A running listener queues the event; any other ignores it.
pub open spec fn after_deliver(m: ListenerModel, e: PlatformEvent) -> ListenerModel {
    if m.0 == ListenerState::Running {
        (m.0, m.1.push(e))
    } else {
        m
    }
}

/// A running listener hands out its oldest pending event; any other, nothing.
pub open spec fn after_poll(m: ListenerModel) -> (ListenerModel, Option<PlatformEvent>) {
    if m.0 == ListenerState::Running && m.1.len() > 0 {
        ((m.0, m.1.drop_first()), Some(m.1[0]))
    } else {
        (m, None)
    }
}

/// Stopping drops what is pending and closes the stream for good.
pub open spec fn after_stop(m: ListenerModel) -> ListenerModel {
    stopped_model()
}

/// The listener after a run of operations.
pub open spec fn model_after(m: ListenerModel, ops: Seq<ListenerOp>) -> ListenerModel
    decreases ops.len(),
{
    if ops.len() == 0 {
        m
    } else {
        let prev = model_after(m, ops.drop_last());
        match ops.last() {
            ListenerOp::Deliver(e) => after_deliver(prev, e),
            ListenerOp::Poll => after_poll(prev).0,
        }
    }
}

/// The events that a consumer sees over a run of operations, in order.
pub open spec fn observed(m: ListenerModel, ops: Seq<ListenerOp>) -> Seq<PlatformEvent>
    decreases ops.len(),
{
    if ops.len() == 0 {
        Seq::empty()
    } else {
        let seen = observed(m, ops.drop_last());
        match ops.last() {
            ListenerOp::Deliver(_) => seen,
            ListenerOp::Poll => match after_poll(model_after(m, ops.drop_last())).1 {
                Some(e) => seen.push(e),
                None => seen,
            },
        }
    }
}

/// Once stopped, a listener stays stopped with nothing pending, whatever is
/// delivered or polled afterwards.
pub proof fn lemma_stopped_stays_silent(ops: Seq<ListenerOp>)
    ensures
        model_after(stopped_model(), ops) == stopped_model(),
        observed(stopped_model(), ops) == Seq::<PlatformEvent>::empty(),
    decreases ops.len(),
{
    if ops.len() > 0 {
        lemma_stopped_stays_silent(ops.drop_last());
    }
}

/// After `stop` returns, the consumer observes no further event, even where
/// the hook keeps delivering.
pub proof fn lemma_no_event_after_stop(before: ListenerModel, ops: Seq<ListenerOp>)
    ensures
        observed(after_stop(before), ops).len() == 0,
{
    lemma_stopped_stays_silent(ops);
}

/// One delivery for each event of `events`, in order.
pub open spec fn deliveries(events: Seq<PlatformEvent>) -> Seq<ListenerOp> {
    events.map_values(|e: PlatformEvent| ListenerOp::Deliver(e))
}

/// `n` polls in a row.
pub open spec fn polls(n: nat) -> Seq<ListenerOp> {
    Seq::new(n, |i: int| ListenerOp::Poll)
}

proof fn lemma_deliveries_queue(events: Seq<PlatformEvent>)
    ensures
        model_after(running_model(), deliveries(events)) == (ListenerState::Running, events),
        observed(running_model(), deliveries(events)) == Seq::<PlatformEvent>::empty(),
    decreases events.len(),
{
    if events.len() > 0 {
        let rest = events.drop_last();
        assert(deliveries(events).drop_last() =~= deliveries(rest));
        lemma_deliveries_queue(rest);
        assert(rest.push(events.last()) =~= events);
    }
}

/// A running listener hands out the events delivered to it in delivery order,
/// each once: polling after a run of deliveries observes exactly the events
/// delivered so far, oldest first.
pub proof fn lemma_events_in_delivery_order(events: Seq<PlatformEvent>, n: nat)
    requires
        n <= events.len(),
    ensures
        observed(running_model(), deliveries(events) + polls(n)) == events.take(n as int),
        model_after(running_model(), deliveries(events) + polls(n)) == (
            ListenerState::Running,
            events.skip(n as int),
        ),
    decreases n,
{
    if n == 0 {
        assert(deliveries(events) + polls(0) =~= deliveries(events));
        lemma_deliveries_queue(events);
        assert(events.take(0) =~= Seq::<PlatformEvent>::empty());
        assert(events.skip(0) =~= events);
    } else {
        let k = (n - 1) as nat;
        lemma_events_in_delivery_order(events, k);
        let ops = deliveries(events) + polls(n);
        assert(ops.drop_last() =~= deliveries(events) + polls(k));
        assert(ops.last() == ListenerOp::Poll);
        assert(events.skip(k as int)[0] == events[k as int]);
        assert(events.take(k as int).push(events[k as int]) =~= events.take(n as int));
        assert(events.skip(k as int).drop_first() =~= events.skip(n as int));
    }
}

impl View for EventListener {
    type V = ListenerModel;

    closed spec fn view(&self) -> ListenerModel {
        (self.state, self.pending@)
    }
}

impl EventListener {
    /// Creates a listener whose hook installation came out as `installed`.
    pub fn start(installed: Result<(), OsError>) -> (r: Result<EventListener, PlatformError>)
        ensures
            installed is Ok <==> r is Ok,
            r is Ok ==> r->Ok_0@ == running_model(),
            installed is Err ==> r == Err::<EventListener, PlatformError>(
                PlatformError::ListenerStartError(installed->Err_0),
            ),
    {
        match installed {
            Ok(()) => Ok(EventListener { state: ListenerState::Running, pending: Vec::new() }),
            Err(e) => Err(PlatformError::ListenerStartError(e)),
        }
    }

    pub fn state(&self) -> (r: ListenerState)
        ensures
            r == self@.0,
    {
        self.state
    }

    pub fn is_running(&self) -> (r: bool)
        ensures
            r == (self@.0 == ListenerState::Running),
    {
        match self.state {
            ListenerState::Running => true,
            ListenerState::Stopped => false,
        }
    }

    /// Number of events delivered and not yet consumed.
    pub fn pending_count(&self) -> (r: usize)
        ensures
            r == self@.1.len(),
    {
        self.pending.len()
    }

    /// Called from the hook side for each notification; returns whether the
    /// event was queued.
    pub fn deliver(&mut self, event: PlatformEvent) -> (accepted: bool)
        ensures
            final(self)@ == after_deliver(old(self)@, event),
            accepted == (old(self)@.0 == ListenerState::Running),
    {
        if self.is_running() {
            self.pending.push(event);
            true
        } else {
            false
        }
    }

    /// The oldest event not yet consumed, if the listener is running.
    pub fn next_event(&mut self) -> (r: Option<PlatformEvent>)
        ensures
            (final(self)@, r) == after_poll(old(self)@),
    {
        if self.is_running() && self.pending.len() > 0 {
            let e = self.pending.remove(0);
            proof {
                assert(self.pending@ =~= old(self)@.1.drop_first());
            }
            Some(e)
        } else {
            None
        }
    }

    /// Stops the listener: pending events are dropped and none is accepted
    /// or handed out afterwards.
    pub fn stop(&mut self)
        ensures
            final(self)@ == after_stop(old(self)@),
    {
        self.state = ListenerState::Stopped;
        self.pending.clear();
        proof {
            assert(self.pending@ =~= Seq::<PlatformEvent>::empty());
        }
    }
}

} // verus!
