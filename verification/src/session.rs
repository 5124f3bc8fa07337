//! The session loop as a state machine: from the state of a session and what
//! just happened to the next state and what to do next.

use vstd::prelude::*;
use crate::engine::SamplingEngine;
use crate::sampling::{clamped_latency, RawSample};

verus! {

/// How long one poll for control input may take, in milliseconds.
pub const POLL_BUDGET_MS: u64 = 20;

/// The pause between two probes, in milliseconds.
pub const PROBE_INTERVAL_MS: u64 = 500;

/// Where a session stands.
#[derive(Clone, Copy, Debug, PartialEq, Eq, Structural)]
pub enum SessionState {
    Idle,
    Running,
    Graphing,
    Cancelled,
    Completed,
    Failed,
}

/// What a poll for control input found.
#[derive(Clone, Copy, Debug, PartialEq, Eq, Structural)]
pub enum ControlInput {
    Nothing,
    ShowGraph,
    Cancel,
}

/// What just happened outside the session.
#[derive(Clone, Copy, Debug, PartialEq, Eq, Structural)]
pub enum SessionEvent {
    /// The target is resolved and the socket is open, at time `now`.
    Started { now: u64 },
    /// The target could not be resolved or the socket could not be opened.
    StartFailed,
    /// A poll for control input has ended.
    Input(ControlInput),
    /// A probe has ended, with a reply or as lost.
    ProbeDone { elapsed_ms: u64, arrival_time: u64 },
    /// A probe met an error that ends the session.
    ProbeFailed,
    /// The pause between two probes is over.
    Slept,
    /// The graph viewer was dismissed.
    ViewerClosed,
}

/// What to do next outside the session.
#[derive(Clone, Copy, Debug, PartialEq, Eq, Structural)]
pub enum SessionAction {
    /// Poll for control input, for at most `budget_ms`.
    Poll { budget_ms: u64 },
    /// Send one probe and wait for its reply.
    Probe,
    /// Show the sampled series and wait until the viewer is dismissed.
    ShowGraph,
    /// Pause for `millis`.
    Sleep { millis: u64 },
    /// Report the statistics of the session and stop.
    Finalize,
    /// Report the failure and stop.
    Abort,
    /// Nothing: the event means nothing in this state.
    Nothing,
}

/// Whether a session in `state` has ended.
pub open spec fn is_terminal(state: SessionState) -> bool {
    state is Cancelled || state is Completed || state is Failed
}

/// Whether a session with a nominal count of `nb_ping` probes has sent them
/// all once `sent` are sent. A count of zero is never reached.
pub open spec fn count_reached(sent: nat, nb_ping: u16) -> bool {
    nb_ping != 0 && sent >= nb_ping
}

/// The next state of a session and what to do next, for a session in `state`
/// that has sent `sent` probes of nominally `nb_ping` when `event` happens.
pub open spec fn transition(state: SessionState, event: SessionEvent, sent: nat, nb_ping: u16) -> (
    SessionState,
    SessionAction,
) {
    match state {
        SessionState::Idle => match event {
            SessionEvent::Started { .. } => (
                SessionState::Running,
                SessionAction::Poll { budget_ms: POLL_BUDGET_MS },
            ),
            SessionEvent::StartFailed => (SessionState::Failed, SessionAction::Abort),
            _ => (state, SessionAction::Nothing),
        },
        SessionState::Running => match event {
            SessionEvent::Input(ControlInput::ShowGraph) => (
                SessionState::Graphing,
                SessionAction::ShowGraph,
            ),
            SessionEvent::Input(ControlInput::Cancel) => (
                SessionState::Cancelled,
                SessionAction::Finalize,
            ),
            SessionEvent::Input(ControlInput::Nothing) => (
                SessionState::Running,
                SessionAction::Probe,
            ),
            SessionEvent::ProbeDone { .. } => (
                SessionState::Running,
                SessionAction::Sleep { millis: PROBE_INTERVAL_MS },
            ),
            SessionEvent::ProbeFailed => (SessionState::Failed, SessionAction::Abort),
            SessionEvent::Slept => if count_reached(sent, nb_ping) {
                (SessionState::Completed, SessionAction::Finalize)
            } else {
                (SessionState::Running, SessionAction::Poll { budget_ms: POLL_BUDGET_MS })
            },
            _ => (state, SessionAction::Nothing),
        },
        SessionState::Graphing => match event {
            SessionEvent::ViewerClosed => (SessionState::Running, SessionAction::Probe),
            _ => (state, SessionAction::Nothing),
        },
        _ => (state, SessionAction::Nothing),
    }
}

/// A session that has ended stays as it is, whatever happens.
pub proof fn lemma_terminal_states_absorb(
    state: SessionState,
    event: SessionEvent,
    sent: nat,
    nb_ping: u16,
)
    requires
        is_terminal(state),
    ensures
        transition(state, event, sent, nb_ping) == (state, SessionAction::Nothing),
{
}

/// A session completes only when its nominal count is not zero and is
/// reached, is cancelled only on request, and shows the graph only on request.
pub proof fn lemma_how_sessions_end(
    state: SessionState,
    event: SessionEvent,
    sent: nat,
    nb_ping: u16,
)
    requires
        !is_terminal(state),
    ensures
        transition(state, event, sent, nb_ping).0 is Completed ==> count_reached(sent, nb_ping)
            && state is Running,
        transition(state, event, sent, nb_ping).0 is Cancelled ==> event == SessionEvent::Input(
            ControlInput::Cancel,
        ) && state is Running,
        transition(state, event, sent, nb_ping).0 is Graphing && !(state is Graphing) ==> event
            == SessionEvent::Input(ControlInput::ShowGraph) && state is Running,
{
}

/// The control input that a key press stands for: `g` alone asks for the
/// graph, `c` with the control key alone cancels, anything else is nothing.
pub open spec fn control_of_key(key: char, control: bool, other_modifiers: bool) -> ControlInput {
    if key == 'g' && !control && !other_modifiers {
        ControlInput::ShowGraph
    } else if key == 'c' && control && !other_modifiers {
        ControlInput::Cancel
    } else {
        ControlInput::Nothing
    }
}

/// Reads a key press as control input.
pub fn control_for_key(key: char, control: bool, other_modifiers: bool) -> (input: ControlInput)
    ensures
        input == control_of_key(key, control, other_modifiers),
{
    if key == 'g' && !control && !other_modifiers {
        ControlInput::ShowGraph
    } else if key == 'c' && control && !other_modifiers {
        ControlInput::Cancel
    } else {
        ControlInput::Nothing
    }
}

/// One probing session: its state, its nominal probe count (zero for no
/// bound), the time it began, and its sampling engine.
pub struct Session {
    state: SessionState,
    nb_ping: u16,
    begin_time: u64,
    engine: SamplingEngine,
}

impl Session {
    /// The state of the session.
    pub closed spec fn state_view(&self) -> SessionState {
        self.state
    }

    /// The nominal probe count.
    pub closed spec fn nb_ping_view(&self) -> u16 {
        self.nb_ping
    }

    /// The time the session began.
    pub closed spec fn begin_view(&self) -> u64 {
        self.begin_time
    }

    /// The sampling engine.
    pub closed spec fn engine_view(&self) -> SamplingEngine {
        self.engine
    }

    /// How many probes the session has sent.
    pub open spec fn sent_view(&self) -> nat {
        self.engine_view().raw_view().len()
    }

    /// The invariant of the session: that of its engine.
    pub open spec fn wf(&self) -> bool {
        self.engine_view().wf()
    }

    /// Whether `event` can be taken: a probe that ends while the session runs
    /// must fit the history, so the sequence counter has room and time has not
    /// gone backwards.
    pub open spec fn accepts(&self, event: SessionEvent) -> bool {
        match event {
            SessionEvent::ProbeDone { elapsed_ms, arrival_time } => self.state_view() is Running
                ==> {
                &&& self.sent_view() < u32::MAX
                &&& self.sent_view() > 0 ==> self.engine_view().raw_view().last().arrival_time
                    <= arrival_time
            },
            _ => true,
        }
    }

    /// What `event` does to the engine of a session in this state: a probe
    /// that ends while the session runs is recorded and sampled, a request for
    /// the graph forces a sampling update, anything else leaves it alone.
    pub open spec fn engine_after(&self, event: SessionEvent, after: &SamplingEngine) -> bool {
        if self.state_view() is Running {
            match event {
                SessionEvent::ProbeDone { elapsed_ms, arrival_time } => self.engine_view().observed_to(
                    after,
                    RawSample {
                        sequence: self.sent_view() as u32,
                        latency_ms: clamped_latency(elapsed_ms),
                        arrival_time,
                    },
                ),
                SessionEvent::Input(ControlInput::ShowGraph) => self.engine_view().updated_to(
                    after,
                ),
                _ => *after == self.engine_view(),
            }
        } else {
            *after == self.engine_view()
        }
    }

    /// A session that has not started, for `nb_ping` probes (zero: until it is
    /// cancelled).
    pub fn new(nb_ping: u16) -> (session: Session)
        ensures
            session.wf(),
            session.state_view() is Idle,
            session.nb_ping_view() == nb_ping,
            session.begin_view() == 0,
            session.sent_view() == 0,
            session.engine_view().sampled_view().len() == 0,
            session.engine_view().scale_view() == 5,
    {
        Session { state: SessionState::Idle, nb_ping, begin_time: 0, engine: SamplingEngine::new() }
    }

    /// The state of the session.
    pub fn state(&self) -> (state: SessionState)
        ensures
            state == self.state_view(),
    {
        self.state
    }

    /// The nominal probe count; zero means no bound.
    pub fn nb_ping(&self) -> (nb_ping: u16)
        ensures
            nb_ping == self.nb_ping_view(),
    {
        self.nb_ping
    }

    /// Sets the nominal probe count.
    pub fn set_nb_ping(&mut self, nb_ping: u16)
        ensures
            final(self).nb_ping_view() == nb_ping,
            final(self).state_view() == old(self).state_view(),
            final(self).begin_view() == old(self).begin_view(),
            final(self).engine_view() == old(self).engine_view(),
    {
        self.nb_ping = nb_ping;
    }

    /// The time the session began, in seconds; zero before it starts.
    pub fn begin_time(&self) -> (begin: u64)
        ensures
            begin == self.begin_view(),
    {
        self.begin_time
    }

    /// The sampling engine of the session.
    pub fn engine(&self) -> (engine: &SamplingEngine)
        ensures
            *engine == self.engine_view(),
    {
        &self.engine
    }

    /// Runs the two stages of sampling on the history as it stands, whatever
    /// the state of the session.
    pub fn sampling(&mut self)
        requires
            old(self).wf(),
        ensures
            final(self).wf(),
            old(self).engine_view().updated_to(&final(self).engine_view()),
            final(self).state_view() == old(self).state_view(),
            final(self).nb_ping_view() == old(self).nb_ping_view(),
            final(self).begin_view() == old(self).begin_view(),
    {
        self.engine.update();
    }

    /// Whether the session has ended.
    pub fn is_over(&self) -> (over: bool)
        ensures
            over == is_terminal(self.state_view()),
    {
        match self.state {
            SessionState::Cancelled | SessionState::Completed | SessionState::Failed => true,
            _ => false,
        }
    }

    /// Whether the session can take `event` now.
    pub fn can_accept(&self, event: SessionEvent) -> (ok: bool)
        ensures
            ok == self.accepts(event),
    {
        match event {
            SessionEvent::ProbeDone { elapsed_ms, arrival_time } => match self.state {
                SessionState::Running => self.engine.can_record(arrival_time),
                _ => true,
            },
            _ => true,
        }
    }

    /// Takes one event: moves to the next state, lets the engine record and
    /// sample what the event brings, and says what to do next.
    pub fn advance(&mut self, event: SessionEvent) -> (action: SessionAction)
        requires
            old(self).wf(),
            old(self).accepts(event),
        ensures
            final(self).wf(),
            (final(self).state_view(), action) == transition(
                old(self).state_view(),
                event,
                old(self).sent_view(),
                old(self).nb_ping_view(),
            ),
            old(self).engine_after(event, &final(self).engine_view()),
            final(self).nb_ping_view() == old(self).nb_ping_view(),
            final(self).begin_view() == if old(self).state_view() is Idle
                && event is Started {
                event->now
            } else {
                old(self).begin_view()
            },
    {
        match self.state {
            SessionState::Idle => match event {
                SessionEvent::Started { now } => {
                    self.begin_time = now;
                    self.state = SessionState::Running;
                    SessionAction::Poll { budget_ms: POLL_BUDGET_MS }
                },
                SessionEvent::StartFailed => {
                    self.state = SessionState::Failed;
                    SessionAction::Abort
                },
                _ => SessionAction::Nothing,
            },
            SessionState::Running => match event {
                SessionEvent::Input(ControlInput::ShowGraph) => {
                    self.engine.update();
                    self.state = SessionState::Graphing;
                    SessionAction::ShowGraph
                },
                SessionEvent::Input(ControlInput::Cancel) => {
                    self.state = SessionState::Cancelled;
                    SessionAction::Finalize
                },
                SessionEvent::Input(ControlInput::Nothing) => SessionAction::Probe,
                SessionEvent::ProbeDone { elapsed_ms, arrival_time } => {
                    self.engine.observe(elapsed_ms, arrival_time);
                    SessionAction::Sleep { millis: PROBE_INTERVAL_MS }
                },
                SessionEvent::ProbeFailed => {
                    self.state = SessionState::Failed;
                    SessionAction::Abort
                },
                SessionEvent::Slept => {
                    if self.nb_ping != 0 && self.engine.raw_samples().len() >= self.nb_ping as usize {
                        self.state = SessionState::Completed;
                        SessionAction::Finalize
                    } else {
                        SessionAction::Poll { budget_ms: POLL_BUDGET_MS }
                    }
                },
                _ => SessionAction::Nothing,
            },
            SessionState::Graphing => match event {
                SessionEvent::ViewerClosed => {
                    self.state = SessionState::Running;
                    SessionAction::Probe
                },
                _ => SessionAction::Nothing,
            },
            _ => SessionAction::Nothing,
        }
    }
}

} // verus!
