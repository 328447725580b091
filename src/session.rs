use vstd::prelude::*;

use crate::error::XrError;

verus! {

/// Lifecycle state of a runtime session.
#[derive(Clone, Copy, Debug, PartialEq, Eq, Structural)]
pub enum SessionState {
    Idle,
    Ready,
    Synchronized,
    Visible,
    Focused,
    Stopping,
    LossPending,
    Exiting,
}

/// A state change announced by the runtime.
#[derive(Clone, Copy, Debug, PartialEq, Eq, Structural)]
pub enum RuntimeEvent {
    /// The runtime is ready for the application to begin the session.
    RuntimeReady,
    /// Frames of the application are now shown to the user.
    BecomesVisible,
    /// The application now receives input focus.
    BecomesFocused,
    /// The runtime asks the application to stop the session.
    StopRequested,
    /// The instance is about to be lost.
    InstanceLossPending,
    /// The grace period of a pending loss ran out or was acknowledged.
    LossConcluded,
}

/// States reached only through a loss of the instance.
pub open spec fn is_lost_state(s: SessionState) -> bool {
    s == SessionState::LossPending || s == SessionState::Exiting
}

/// States in which frames may be produced.
pub open spec fn is_running_state(s: SessionState) -> bool {
    s == SessionState::Synchronized || s == SessionState::Visible || s == SessionState::Focused
}

/// Where a runtime event leads from a state, if the state table allows it.
pub open spec fn event_target(s: SessionState, e: RuntimeEvent) -> Option<SessionState> {
    match e {
        RuntimeEvent::RuntimeReady => if s == SessionState::Idle {
            Some(SessionState::Ready)
        } else {
            None
        },
        RuntimeEvent::BecomesVisible => if s == SessionState::Synchronized {
            Some(SessionState::Visible)
        } else {
            None
        },
        RuntimeEvent::BecomesFocused => if s == SessionState::Visible {
            Some(SessionState::Focused)
        } else {
            None
        },
        RuntimeEvent::StopRequested => if !is_lost_state(s) {
            Some(SessionState::Stopping)
        } else {
            None
        },
        RuntimeEvent::InstanceLossPending => if !is_lost_state(s) {
            Some(SessionState::LossPending)
        } else {
            None
        },
        RuntimeEvent::LossConcluded => if s == SessionState::LossPending {
            Some(SessionState::Exiting)
        } else {
            None
        },
    }
}

/// The edges of the session state table, whether the runtime or the
/// application takes them.
pub open spec fn table_edge(from: SessionState, to: SessionState) -> bool {
    (from == SessionState::Idle && to == SessionState::Ready)
    || (from == SessionState::Ready && to == SessionState::Synchronized)
    || (from == SessionState::Synchronized && to == SessionState::Visible)
    || (from == SessionState::Visible && to == SessionState::Focused)
    || (!is_lost_state(from) && to == SessionState::Stopping)
    || (from == SessionState::Stopping && to == SessionState::Idle)
    || (!is_lost_state(from) && to == SessionState::LossPending)
    || (from == SessionState::LossPending && to == SessionState::Exiting)
}

/// The abstract value of a session: its state, and whether a rejected
/// transition has marked it degraded.
pub struct SessionView {
    pub state: SessionState,
    pub degraded: bool,
}

/// The session after one runtime event: the table's target, or the same
/// state marked degraded when the table has no edge for the event.
pub open spec fn apply_event(v: SessionView, e: RuntimeEvent) -> SessionView {
    match event_target(v.state, e) {
        Some(t) => SessionView { state: t, degraded: v.degraded },
        None => SessionView { state: v.state, degraded: true },
    }
}

/// The session after a sequence of runtime events, applied in order.
pub open spec fn apply_events(v: SessionView, evs: Seq<RuntimeEvent>) -> SessionView
    decreases evs.len(),
{
    if evs.len() == 0 {
        v
    } else {
        apply_event(apply_events(v, evs.drop_last()), evs.last())
    }
}

/// What the poll reports for one event seen in state `s`.
pub open spec fn event_outcome(s: SessionState, e: RuntimeEvent) -> Result<SessionState, XrError> {
    match event_target(s, e) {
        Some(t) => Ok(t),
        None => Err(XrError::InvalidStateTransition),
    }
}

/// `begin_session` on the abstract session: the new session and the result.
pub open spec fn begin_model(v: SessionView) -> (SessionView, Result<(), XrError>) {
    if is_lost_state(v.state) {
        (v, Err(XrError::SessionLost))
    } else if v.state == SessionState::Ready {
        (SessionView { state: SessionState::Synchronized, degraded: v.degraded }, Ok(()))
    } else {
        (v, Err(XrError::SessionNotReady))
    }
}

/// `end_session` on the abstract session: the new session and the result.
pub open spec fn end_model(v: SessionView) -> (SessionView, Result<(), XrError>) {
    if is_lost_state(v.state) {
        (v, Err(XrError::SessionLost))
    } else if v.state == SessionState::Stopping {
        (SessionView { state: SessionState::Idle, degraded: v.degraded }, Ok(()))
    } else {
        (v, Err(XrError::InvalidStateTransition))
    }
}

/// A stop of the session on the application's side: `Stopping`, unless the
/// instance is being lost or is gone.
pub open spec fn stop_model(v: SessionView) -> (SessionView, Result<(), XrError>) {
    if is_lost_state(v.state) {
        (v, Err(XrError::SessionLost))
    } else {
        (SessionView { state: SessionState::Stopping, degraded: v.degraded }, Ok(()))
    }
}

/// Whether every requested extension is among the supported ones.
pub open spec fn extensions_supported(requested: Seq<u32>, supported: Seq<u32>) -> bool {
    forall|i: int| 0 <= i < requested.len() ==> supported.contains(#[trigger] requested[i])
}

/// One runtime event either leaves the session's state as it was (the event
/// is rejected) or moves it along an edge of the state table.
pub proof fn lemma_event_follows_table(v: SessionView, e: RuntimeEvent)
    ensures
        apply_event(v, e).state == v.state || table_edge(v.state, apply_event(v, e).state),
{
}

/// For every sequence of runtime events, each event in turn either leaves the
/// state as it was or moves it along an edge of the state table: no sequence
/// leads the session anywhere the table does not.
pub proof fn lemma_events_follow_table(v: SessionView, evs: Seq<RuntimeEvent>, i: int)
    requires
        0 <= i < evs.len(),
    ensures
        ({
            let before = apply_events(v, evs.take(i)).state;
            let after = apply_events(v, evs.take(i + 1)).state;
            before == after || table_edge(before, after)
        }),
{
    assert(evs.take(i + 1).drop_last() =~= evs.take(i));
    assert(evs.take(i + 1).last() == evs[i]);
    lemma_event_follows_table(apply_events(v, evs.take(i)), evs[i]);
}

/// Once the instance is being lost, no sequence of runtime events leads back:
/// the teardown that a poll reports is asked for once only.
pub proof fn lemma_loss_is_permanent(v: SessionView, evs: Seq<RuntimeEvent>)
    requires
        is_lost_state(v.state),
    ensures
        is_lost_state(apply_events(v, evs).state),
    decreases evs.len(),
{
    if evs.len() > 0 {
        lemma_loss_is_permanent(v, evs.drop_last());
    }
}

/// The requests of the application, beginning, ending and stopping a
/// session, also leave the state as it was or follow an edge of the table.
pub proof fn lemma_requests_follow_table(v: SessionView)
    ensures
        begin_model(v).0.state == v.state || table_edge(v.state, begin_model(v).0.state),
        end_model(v).0.state == v.state || table_edge(v.state, end_model(v).0.state),
        stop_model(v).0.state == v.state || table_edge(v.state, stop_model(v).0.state),
{
}

/// Beginning a session twice with no end in between fails the second time
/// with `SessionNotReady` and leaves the session as the first call left it.
pub proof fn lemma_begin_twice(v: SessionView)
    requires
        !is_lost_state(v.state),
    ensures
        begin_model(begin_model(v).0).1 == Err::<(), XrError>(XrError::SessionNotReady),
        begin_model(begin_model(v).0).0 == begin_model(v).0,
{
}

/// What one poll of the runtime's event queue did.
pub struct PollReport {
    /// For each event, in order: the state it led to, or why it was rejected.
    pub outcomes: Vec<Result<SessionState, XrError>>,
    /// The poll entered a pending loss: the host must end the runtime session
    /// and destroy the instance, and will not be asked to again.
    pub teardown: bool,
}

/// The connection to the runtime, as far as its lifecycle goes.
pub struct Session {
    state: SessionState,
    degraded: bool,
}

impl View for Session {
    type V = SessionView;

    closed spec fn view(&self) -> SessionView {
        SessionView { state: self.state, degraded: self.degraded }
    }
}

fn event_target_exec(s: SessionState, e: RuntimeEvent) -> (r: Option<SessionState>)
    ensures
        r == event_target(s, e),
{
    let lost = match s {
        SessionState::LossPending | SessionState::Exiting => true,
        _ => false,
    };
    match e {
        RuntimeEvent::RuntimeReady => match s {
            SessionState::Idle => Some(SessionState::Ready),
            _ => None,
        },
        RuntimeEvent::BecomesVisible => match s {
            SessionState::Synchronized => Some(SessionState::Visible),
            _ => None,
        },
        RuntimeEvent::BecomesFocused => match s {
            SessionState::Visible => Some(SessionState::Focused),
            _ => None,
        },
        RuntimeEvent::StopRequested => if lost {
            None
        } else {
            Some(SessionState::Stopping)
        },
        RuntimeEvent::InstanceLossPending => if lost {
            None
        } else {
            Some(SessionState::LossPending)
        },
        RuntimeEvent::LossConcluded => match s {
            SessionState::LossPending => Some(SessionState::Exiting),
            _ => None,
        },
    }
}

impl Session {
    /// Opens a session in `Idle`, after checking that the runtime offers every
    /// requested extension.
    pub fn create(requested: &Vec<u32>, supported: &Vec<u32>) -> (r: Result<Session, XrError>)
        ensures
            extensions_supported(requested@, supported@) <==> r is Ok,
            !extensions_supported(requested@, supported@) ==> r == Err::<Session, XrError>(
                XrError::ExtensionNotSupported,
            ),
            r matches Ok(s) ==> s@ == (SessionView { state: SessionState::Idle, degraded: false }),
    {
        let mut i: usize = 0;
        while i < requested.len()
            invariant
                0 <= i <= requested@.len(),
                forall|k: int| 0 <= k < i ==> supported@.contains(#[trigger] requested@[k]),
            decreases requested@.len() - i,
        {
            let want = requested[i];
            let mut found = false;
            let mut j: usize = 0;
            while j < supported.len()
                invariant
                    0 <= j <= supported@.len(),
                    want == requested@[i as int],
                    found ==> supported@.contains(want),
                    !found ==> forall|k: int| 0 <= k < j ==> supported@[k] != want,
                decreases supported@.len() - j,
            {
                if supported[j] == want {
                    found = true;
                }
                j = j + 1;
            }
            if !found {
                proof {
                    assert(!supported@.contains(requested@[i as int]));
                }
                return Err(XrError::ExtensionNotSupported);
            }
            i = i + 1;
        }
        Ok(Session { state: SessionState::Idle, degraded: false })
    }

    pub fn state(&self) -> (r: SessionState)
        ensures
            r == self@.state,
    {
        self.state
    }

    /// Whether a transition was ever rejected.
    pub fn is_degraded(&self) -> (r: bool)
        ensures
            r == self@.degraded,
    {
        self.degraded
    }

    /// Whether frames may be produced.
    pub fn is_running(&self) -> (r: bool)
        ensures
            r == is_running_state(self@.state),
    {
        match self.state {
            SessionState::Synchronized | SessionState::Visible | SessionState::Focused => true,
            _ => false,
        }
    }

    /// Whether the instance is being lost or is gone.
    pub fn is_lost(&self) -> (r: bool)
        ensures
            r == is_lost_state(self@.state),
    {
        match self.state {
            SessionState::LossPending | SessionState::Exiting => true,
            _ => false,
        }
    }

    /// Applies the runtime's pending events in order. An event the state
    /// table does not allow is rejected, leaves the state as it was and marks
    /// the session degraded; the events after it are still applied. Once the
    /// session has exited, polling fails with `SessionLost`.
    pub fn poll_events(&mut self, events: &Vec<RuntimeEvent>) -> (r: Result<PollReport, XrError>)
        ensures
            old(self)@.state == SessionState::Exiting ==> final(self)@ == old(self)@ && (r matches Err(
                e
            ) && e == XrError::SessionLost),
            old(self)@.state != SessionState::Exiting ==> r is Ok,
            r matches Ok(rep) ==> {
                &&& final(self)@ == apply_events(old(self)@, events@)
                &&& rep.outcomes@.len() == events@.len()
                &&& forall|i: int|
                    0 <= i < events@.len() ==> #[trigger] rep.outcomes@[i] == event_outcome(
                        apply_events(old(self)@, events@.take(i)).state,
                        events@[i],
                    )
                &&& rep.teardown == (!is_lost_state(old(self)@.state) && is_lost_state(
                    final(self)@.state,
                ))
            },
    {
        if matches!(self.state, SessionState::Exiting) {
            return Err(XrError::SessionLost);
        }
        let ghost start = self@;
        let was_lost = self.is_lost();
        let mut outcomes: Vec<Result<SessionState, XrError>> = Vec::new();
        let mut i: usize = 0;
        proof {
            assert(events@.take(0) =~= Seq::<RuntimeEvent>::empty());
        }
        while i < events.len()
            invariant
                0 <= i <= events@.len(),
                self@ == apply_events(start, events@.take(i as int)),
                outcomes@.len() == i,
                forall|k: int|
                    0 <= k < i ==> #[trigger] outcomes@[k] == event_outcome(
                        apply_events(start, events@.take(k)).state,
                        events@[k],
                    ),
            decreases events@.len() - i,
        {
            let e = events[i];
            proof {
                assert(events@.take(i + 1).drop_last() =~= events@.take(i as int));
                assert(events@.take(i + 1).last() == events@[i as int]);
            }
            match event_target_exec(self.state, e) {
                Some(t) => {
                    self.state = t;
                    outcomes.push(Ok(t));
                },
                None => {
                    self.degraded = true;
                    outcomes.push(Err(XrError::InvalidStateTransition));
                },
            }
            i = i + 1;
        }
        proof {
            assert(events@.take(events@.len() as int) =~= events@);
        }
        let teardown = !was_lost && self.is_lost();
        Ok(PollReport { outcomes, teardown })
    }

    /// Begins the session; allowed only from `Ready`.
    pub fn begin_session(&mut self) -> (r: Result<(), XrError>)
        ensures
            (final(self)@, r) == begin_model(old(self)@),
    {
        match self.state {
            SessionState::LossPending | SessionState::Exiting => Err(XrError::SessionLost),
            SessionState::Ready => {
                self.state = SessionState::Synchronized;
                Ok(())
            },
            _ => Err(XrError::SessionNotReady),
        }
    }

    /// Ends a stopping session, which returns to `Idle`.
    pub fn end_session(&mut self) -> (r: Result<(), XrError>)
        ensures
            (final(self)@, r) == end_model(old(self)@),
    {
        match self.state {
            SessionState::LossPending | SessionState::Exiting => Err(XrError::SessionLost),
            SessionState::Stopping => {
                self.state = SessionState::Idle;
                Ok(())
            },
            _ => Err(XrError::InvalidStateTransition),
        }
    }

    /// Moves the session to `Stopping` after a fatal frame failure or an
    /// outside stop signal, so that it can be ended gracefully.
    pub fn request_stop(&mut self) -> (r: Result<(), XrError>)
        ensures
            (final(self)@, r) == stop_model(old(self)@),
    {
        match self.state {
            SessionState::LossPending | SessionState::Exiting => Err(XrError::SessionLost),
            _ => {
                self.state = SessionState::Stopping;
                Ok(())
            },
        }
    }
}

} // verus!
