//! The retry-bounded connection state machine shared by the consumer and
//! producer adapters.
//!
//! The machine owns a count of remaining attempts, initialized to
//! `budget + 1` (the extra one accounts for the first attempt), a flag for
//! whether a connection is live, and the last recorded fatal/connect
//! failure.  The budget is consumed only by failed connection attempts and
//! by fatal transport errors during an active connection — never by
//! successful operations, never by codec errors, never by non-fatal
//! transport errors.  When the count reaches zero the machine is exhausted:
//! terminal, carrying the last recorded failure.
use vstd::prelude::*;

use crate::error::TransportError;

verus! {

/// The control state the machine is in, as read by a driver loop.
#[derive(Debug, Clone, Copy, PartialEq, Eq, Structural)]
pub enum ConnState {
    /// No live connection; a connect attempt is next.
    Disconnected,
    /// A live connection exists; an operation may be attempted on it.
    Connected,
    /// The budget is spent.  Terminal: the last recorded failure is reported.
    Exhausted,
}

/// What a driver loop should do next, derived from the control state.
#[derive(Debug, Clone, Copy, PartialEq, Eq, Structural)]
pub enum NextAction {
    /// Attempt to connect.
    Connect,
    /// Attempt the adapter's operation (receive or send).
    Operate,
    /// Stop and report the last recorded failure.
    Finish,
}

/// Mathematical model of the machine's state.
pub struct RetryModel {
    /// Attempts left; the machine is exhausted at zero.
    pub remaining: nat,
    /// Whether a live connection is held.
    pub connected: bool,
    /// The last recorded connect failure or fatal transport error.
    pub last_error: Option<TransportError>,
}

/// The classified outcome of one attempted operation, as the transition
/// table of the machine reads it.
pub enum RetryEvent {
    /// A connect attempt succeeded.
    ConnectOk,
    /// A connect attempt failed.
    ConnectFailed(TransportError),
    /// An operation on the live connection succeeded.
    OpOk,
    /// An operation failed with a fatal transport error.
    OpFatal(TransportError),
    /// An operation failed with any other error (non-fatal transport or
    /// codec): surfaced, never retried, connection retained.
    OpOther,
}

/// The model a fresh machine starts from, for reconnect budget `budget`.
pub open spec fn init_model(budget: u32) -> RetryModel {
    RetryModel { remaining: (budget + 1) as nat, connected: false, last_error: None }
}

/// Model well-formedness: an exhausted machine always carries a failure, and
/// a live connection implies attempts remain.
pub open spec fn model_wf(m: RetryModel) -> bool {
    &&& (m.remaining == 0 ==> m.last_error is Some)
    &&& (m.connected ==> m.remaining > 0)
}

/// Whether the machine, in state `m`, can be handed event `ev`: attempts
/// must remain, connect outcomes arrive only while disconnected, operation
/// outcomes only while connected.
pub open spec fn event_enabled(m: RetryModel, ev: RetryEvent) -> bool {
    &&& m.remaining > 0
    &&& (match ev {
        RetryEvent::ConnectOk | RetryEvent::ConnectFailed(_) => !m.connected,
        RetryEvent::OpOk | RetryEvent::OpFatal(_) | RetryEvent::OpOther => m.connected,
    })
}

/// The transition table.  Only a failed connect attempt and a fatal
/// operation error consume budget; both record the failure and leave the
/// machine disconnected.  A successful operation and a non-fatal failure
/// change nothing.
pub open spec fn step(m: RetryModel, ev: RetryEvent) -> RetryModel {
    match ev {
        RetryEvent::ConnectOk => RetryModel { connected: true, ..m },
        RetryEvent::ConnectFailed(e) => RetryModel {
            remaining: (m.remaining - 1) as nat,
            connected: false,
            last_error: Some(e),
        },
        RetryEvent::OpOk => m,
        RetryEvent::OpFatal(e) => RetryModel {
            remaining: (m.remaining - 1) as nat,
            connected: false,
            last_error: Some(e),
        },
        RetryEvent::OpOther => m,
    }
}

/// The control state of a model.
pub open spec fn spec_state(m: RetryModel) -> ConnState {
    if m.remaining == 0 {
        ConnState::Exhausted
    } else if m.connected {
        ConnState::Connected
    } else {
        ConnState::Disconnected
    }
}

/// What a driver should do next in state `m`.
pub open spec fn spec_next_action(m: RetryModel) -> NextAction {
    if m.remaining == 0 {
        NextAction::Finish
    } else if m.connected {
        NextAction::Operate
    } else {
        NextAction::Connect
    }
}

/// The model reached by handing the machine the events `evs` in order.
pub open spec fn run(m: RetryModel, evs: Seq<RetryEvent>) -> RetryModel
    decreases evs.len(),
{
    if evs.len() == 0 {
        m
    } else {
        run(step(m, evs[0]), evs.drop_first())
    }
}

/// Whether every event of `evs` is enabled at its point of the run: the
/// machine actually performs all these attempts, in this order.
pub open spec fn run_enabled(m: RetryModel, evs: Seq<RetryEvent>) -> bool
    decreases evs.len(),
{
    evs.len() == 0 || (event_enabled(m, evs[0]) && run_enabled(step(m, evs[0]), evs.drop_first()))
}

/// A codec or non-fatal failure of an operation changes nothing: the budget
/// is not consumed, the connection is retained, and the very next action is
/// another attempt of the operation on the same connection.
pub proof fn lemma_other_failure_keeps_connection(m: RetryModel)
    requires
        m.connected,
        m.remaining > 0,
    ensures
        step(m, RetryEvent::OpOther) == m,
        spec_next_action(step(m, RetryEvent::OpOther)) is Operate,
{
}

/// If every connect attempt fails, a machine with `n` remaining attempts
/// performs exactly `n` of them — each enabled in turn — and is then
/// exhausted, carrying the last failure.
pub proof fn lemma_all_connects_fail(m: RetryModel, errs: Seq<TransportError>)
    requires
        !m.connected,
        m.remaining == errs.len(),
        errs.len() > 0,
    ensures
        run_enabled(m, errs.map_values(|e: TransportError| RetryEvent::ConnectFailed(e))),
        run(m, errs.map_values(|e: TransportError| RetryEvent::ConnectFailed(e)))
            == (RetryModel { remaining: 0 as nat, connected: false, last_error: Some(errs.last()) }),
    decreases errs.len(),
{
    let evs = errs.map_values(|e: TransportError| RetryEvent::ConnectFailed(e));
    assert(evs[0] == RetryEvent::ConnectFailed(errs[0]));
    let m1 = step(m, evs[0]);
    assert(run(m, evs) == run(m1, evs.drop_first()));
    assert(run_enabled(m, evs) == (event_enabled(m, evs[0]) && run_enabled(m1, evs.drop_first())));
    if errs.len() == 1 {
        assert(evs.drop_first() =~= Seq::<RetryEvent>::empty());
        assert(run(m1, evs.drop_first()) == m1);
        assert(run_enabled(m1, evs.drop_first()));
        assert(errs.last() == errs[0]);
    } else {
        let errs1 = errs.drop_first();
        assert(evs.drop_first() =~= errs1.map_values(
            |e: TransportError| RetryEvent::ConnectFailed(e),
        ));
        lemma_all_connects_fail(m1, errs1);
        assert(errs1.last() == errs.last());
    }
}

/// The event sequence of `n` connect-then-fatal-receive cycles, one cycle
/// per recorded error.
pub open spec fn fatal_cycle_events(errs: Seq<TransportError>) -> Seq<RetryEvent>
    decreases errs.len(),
{
    if errs.len() == 0 {
        Seq::empty()
    } else {
        seq![RetryEvent::ConnectOk, RetryEvent::OpFatal(errs[0])] + fatal_cycle_events(
            errs.drop_first(),
        )
    }
}

/// If every connect succeeds and every subsequent operation fails fatally,
/// a disconnected machine with `n` remaining attempts performs exactly `n`
/// connect-plus-fatal cycles — each enabled in turn — and is then exhausted,
/// carrying the last failure.
pub proof fn lemma_fatal_cycles_exhaust(m: RetryModel, errs: Seq<TransportError>)
    requires
        !m.connected,
        m.remaining == errs.len(),
        errs.len() > 0,
    ensures
        run_enabled(m, fatal_cycle_events(errs)),
        run(m, fatal_cycle_events(errs))
            == (RetryModel { remaining: 0 as nat, connected: false, last_error: Some(errs.last()) }),
    decreases errs.len(),
{
    let evs = fatal_cycle_events(errs);
    let tail = fatal_cycle_events(errs.drop_first());
    assert(evs == seq![RetryEvent::ConnectOk, RetryEvent::OpFatal(errs[0])] + tail);
    let mc = step(m, RetryEvent::ConnectOk);
    let m1 = step(mc, RetryEvent::OpFatal(errs[0]));
    assert(evs[0] == RetryEvent::ConnectOk);
    assert(evs.drop_first()[0] == RetryEvent::OpFatal(errs[0]));
    assert(evs.drop_first().drop_first() =~= tail);
    assert(run(m, evs) == run(mc, evs.drop_first()));
    assert(run(mc, evs.drop_first()) == run(m1, evs.drop_first().drop_first()));
    assert(run_enabled(m, evs) == (event_enabled(m, evs[0]) && run_enabled(mc, evs.drop_first())));
    assert(run_enabled(mc, evs.drop_first()) == (event_enabled(mc, evs.drop_first()[0])
        && run_enabled(m1, evs.drop_first().drop_first())));
    if errs.len() == 1 {
        assert(tail =~= Seq::<RetryEvent>::empty());
        assert(run(m1, tail) == m1);
        assert(run_enabled(m1, tail));
        assert(errs.last() == errs[0]);
    } else {
        let errs1 = errs.drop_first();
        lemma_fatal_cycles_exhaust(m1, errs1);
        assert(errs1.last() == errs.last());
    }
}

/// The executable machine.  Its abstract state is [`RetryModel`]; every
/// recording method performs exactly one transition of [`step`].
#[derive(Debug)]
pub struct RetryState {
    remaining: u32,
    connected: bool,
    last_error: Option<TransportError>,
}

impl RetryState {
    /// The machine's mathematical state.
    pub closed spec fn model(&self) -> RetryModel {
        RetryModel {
            remaining: self.remaining as nat,
            connected: self.connected,
            last_error: self.last_error,
        }
    }

    #[verifier::type_invariant]
    spec fn inv(&self) -> bool {
        model_wf(self.model())
    }

    /// A fresh, disconnected machine with `budget + 1` attempts: the budget
    /// counts the extra attempts beyond the first.
    pub fn new(budget: u32) -> (r: Self)
        requires
            budget < u32::MAX,
        ensures
            r.model() == init_model(budget),
    {
        RetryState { remaining: budget + 1, connected: false, last_error: None }
    }

    /// The control state.
    pub fn state(&self) -> (s: ConnState)
        ensures
            s == spec_state(self.model()),
    {
        if self.remaining == 0 {
            ConnState::Exhausted
        } else if self.connected {
            ConnState::Connected
        } else {
            ConnState::Disconnected
        }
    }

    /// What a driver loop should do next.
    pub fn next_action(&self) -> (a: NextAction)
        ensures
            a == spec_next_action(self.model()),
    {
        if self.remaining == 0 {
            NextAction::Finish
        } else if self.connected {
            NextAction::Operate
        } else {
            NextAction::Connect
        }
    }

    /// Whether a live connection is held.
    pub fn is_connected(&self) -> (r: bool)
        ensures
            r == self.model().connected,
    {
        self.connected
    }

    /// The attempts left before exhaustion.
    pub fn remaining_attempts(&self) -> (r: u32)
        ensures
            r == self.model().remaining,
    {
        self.remaining
    }

    /// The last recorded connect failure or fatal transport error.
    pub fn last_error(&self) -> (r: Option<TransportError>)
        ensures
            r == self.model().last_error,
    {
        self.last_error
    }

    /// The recorded failure of an exhausted machine.
    pub fn exhaustion_error(&self) -> (r: TransportError)
        requires
            self.model().remaining == 0,
        ensures
            self.model().last_error == Some(r),
    {
        proof {
            use_type_invariant(self);
        }
        match self.last_error {
            Some(e) => e,
            None => unreached(),
        }
    }

    /// Records that a connect attempt succeeded: the machine is connected,
    /// nothing else changes.
    pub fn record_connect_ok(&mut self)
        requires
            event_enabled(old(self).model(), RetryEvent::ConnectOk),
        ensures
            final(self).model() == step(old(self).model(), RetryEvent::ConnectOk),
    {
        self.connected = true;
    }

    /// Records that a connect attempt failed: one attempt is consumed and
    /// the failure is recorded.
    pub fn record_connect_failed(&mut self, e: TransportError)
        requires
            event_enabled(old(self).model(), RetryEvent::ConnectFailed(e)),
        ensures
            final(self).model() == step(old(self).model(), RetryEvent::ConnectFailed(e)),
    {
        self.last_error = Some(e);
        self.connected = false;
        self.remaining = self.remaining - 1;
    }

    /// Records a fatal transport error of an operation: the connection is
    /// discarded, one attempt is consumed and the failure is recorded.
    pub fn record_op_fatal(&mut self, e: TransportError)
        requires
            event_enabled(old(self).model(), RetryEvent::OpFatal(e)),
        ensures
            final(self).model() == step(old(self).model(), RetryEvent::OpFatal(e)),
    {
        self.last_error = Some(e);
        self.connected = false;
        self.remaining = self.remaining - 1;
    }
}

} // verus!
