//! The session lifecycle state machine: states, the allowed transitions,
//! and a machine that records a bounded history of the transitions taken.

use vstd::prelude::*;

use crate::clock::now_millis;
use crate::error::{SessionError, SessionResult};

verus! {

/// Default bound on the recorded transition history.
pub const DEFAULT_MAX_HISTORY: usize = 100;

/// The lifecycle states of a remote desktop session.
#[derive(Debug, Clone, Copy, PartialEq, Eq, Hash, Structural)]
pub enum SessionState {
    /// Session created but not yet started.
    Idle,
    /// Attempting to establish a connection.
    Connecting,
    /// Connection established, authentication in progress.
    Authenticating,
    /// Fully active session with data flowing.
    Active,
    /// Session temporarily paused.
    Paused,
    /// Graceful disconnection in progress.
    Disconnecting,
    /// Session has ended; no further transitions.
    Disconnected,
}

/// The allowed transition relation of the session lifecycle.
pub open spec fn valid_transition(from: SessionState, to: SessionState) -> bool {
    match from {
        SessionState::Idle => to == SessionState::Connecting || to == SessionState::Disconnected,
        SessionState::Connecting => to == SessionState::Authenticating || to
            == SessionState::Disconnecting || to == SessionState::Disconnected,
        SessionState::Authenticating => to == SessionState::Active || to
            == SessionState::Disconnecting || to == SessionState::Disconnected,
        SessionState::Active => to == SessionState::Paused || to == SessionState::Disconnecting
            || to == SessionState::Disconnected,
        SessionState::Paused => to == SessionState::Active || to == SessionState::Disconnecting
            || to == SessionState::Disconnected,
        SessionState::Disconnecting => to == SessionState::Disconnected,
        SessionState::Disconnected => false,
    }
}

/// The transition targets of each state, as listed order.
pub open spec fn transition_targets(from: SessionState) -> Seq<SessionState> {
    match from {
        SessionState::Idle => seq![SessionState::Connecting, SessionState::Disconnected],
        SessionState::Connecting => seq![
            SessionState::Authenticating,
            SessionState::Disconnecting,
            SessionState::Disconnected,
        ],
        SessionState::Authenticating => seq![
            SessionState::Active,
            SessionState::Disconnecting,
            SessionState::Disconnected,
        ],
        SessionState::Active => seq![
            SessionState::Paused,
            SessionState::Disconnecting,
            SessionState::Disconnected,
        ],
        SessionState::Paused => seq![
            SessionState::Active,
            SessionState::Disconnecting,
            SessionState::Disconnected,
        ],
        SessionState::Disconnecting => seq![SessionState::Disconnected],
        SessionState::Disconnected => Seq::empty(),
    }
}

/// Law: a transition is allowed exactly when its target stands in the
/// target list of its source, and the terminal state has no outgoing edge.
pub proof fn lemma_transition_targets_exact(from: SessionState, to: SessionState)
    ensures
        valid_transition(from, to) <==> transition_targets(from).contains(to),
        transition_targets(SessionState::Disconnected).len() == 0,
{
    let targets = transition_targets(from);
    if valid_transition(from, to) {
        match from {
            SessionState::Idle => {
                assert(targets[0] == SessionState::Connecting && targets[1]
                    == SessionState::Disconnected);
            },
            SessionState::Connecting => {
                assert(targets[0] == SessionState::Authenticating && targets[1]
                    == SessionState::Disconnecting && targets[2] == SessionState::Disconnected);
            },
            SessionState::Authenticating => {
                assert(targets[0] == SessionState::Active && targets[1]
                    == SessionState::Disconnecting && targets[2] == SessionState::Disconnected);
            },
            SessionState::Active => {
                assert(targets[0] == SessionState::Paused && targets[1]
                    == SessionState::Disconnecting && targets[2] == SessionState::Disconnected);
            },
            SessionState::Paused => {
                assert(targets[0] == SessionState::Active && targets[1]
                    == SessionState::Disconnecting && targets[2] == SessionState::Disconnected);
            },
            SessionState::Disconnecting => {
                assert(targets[0] == SessionState::Disconnected);
            },
            SessionState::Disconnected => {},
        }
    }
    if targets.contains(to) {
        let i = choose|i: int| 0 <= i < targets.len() && targets[i] == to;
        assert(valid_transition(from, targets[i]));
    }
}

/// The display label of a state.
pub open spec fn state_label(s: SessionState) -> Seq<char> {
    match s {
        SessionState::Idle => "Idle"@,
        SessionState::Connecting => "Connecting"@,
        SessionState::Authenticating => "Authenticating"@,
        SessionState::Active => "Active"@,
        SessionState::Paused => "Paused"@,
        SessionState::Disconnecting => "Disconnecting"@,
        SessionState::Disconnected => "Disconnected"@,
    }
}

impl SessionState {
    /// True in the only state where frames and input flow.
    pub fn is_data_ready(&self) -> (r: bool)
        ensures
            r == (*self == SessionState::Active),
    {
        matches!(self, SessionState::Active)
    }

    /// True in the states where a connection to the peer exists.
    pub fn is_connected(&self) -> (r: bool)
        ensures
            r == (*self == SessionState::Authenticating || *self == SessionState::Active || *self
                == SessionState::Paused),
    {
        matches!(
            self,
            SessionState::Authenticating | SessionState::Active | SessionState::Paused
        )
    }

    /// True in the terminal state.
    pub fn is_terminal(&self) -> (r: bool)
        ensures
            r == (*self == SessionState::Disconnected),
    {
        matches!(self, SessionState::Disconnected)
    }

    /// The states this state may transition to.
    pub fn valid_transitions(&self) -> (r: Vec<SessionState>)
        ensures
            r@ == transition_targets(*self),
    {
        let mut v: Vec<SessionState> = Vec::new();
        match self {
            SessionState::Idle => {
                v.push(SessionState::Connecting);
                v.push(SessionState::Disconnected);
            },
            SessionState::Connecting => {
                v.push(SessionState::Authenticating);
                v.push(SessionState::Disconnecting);
                v.push(SessionState::Disconnected);
            },
            SessionState::Authenticating => {
                v.push(SessionState::Active);
                v.push(SessionState::Disconnecting);
                v.push(SessionState::Disconnected);
            },
            SessionState::Active => {
                v.push(SessionState::Paused);
                v.push(SessionState::Disconnecting);
                v.push(SessionState::Disconnected);
            },
            SessionState::Paused => {
                v.push(SessionState::Active);
                v.push(SessionState::Disconnecting);
                v.push(SessionState::Disconnected);
            },
            SessionState::Disconnecting => {
                v.push(SessionState::Disconnected);
            },
            SessionState::Disconnected => {},
        }
        proof {
            assert(v@ =~= transition_targets(*self));
        }
        v
    }

    /// The display label of the state.
    pub fn label(&self) -> (r: String)
        ensures
            r@ == state_label(*self),
    {
        match self {
            SessionState::Idle => String::from_str("Idle"),
            SessionState::Connecting => String::from_str("Connecting"),
            SessionState::Authenticating => String::from_str("Authenticating"),
            SessionState::Active => String::from_str("Active"),
            SessionState::Paused => String::from_str("Paused"),
            SessionState::Disconnecting => String::from_str("Disconnecting"),
            SessionState::Disconnected => String::from_str("Disconnected"),
        }
    }
}

/// Record of one state transition.
#[derive(Debug, Clone)]
pub struct StateTransition {
    /// The state the machine left.
    pub from: SessionState,
    /// The state the machine entered.
    pub to: SessionState,
    /// Wall-clock milliseconds when the transition occurred.
    pub timestamp_ms: u64,
}

/// `s` cut down to its last `max` elements.
pub open spec fn keep_last<A>(s: Seq<A>, max: int) -> Seq<A> {
    if s.len() > max {
        s.subrange(s.len() - max, s.len() as int)
    } else {
        s
    }
}

/// State machine of one session's lifecycle, with bounded history.
pub struct SessionStateMachine {
    current: SessionState,
    state_entered_at_ms: u64,
    history: Vec<StateTransition>,
    max_history: usize,
}

impl SessionStateMachine {
    /// The state the machine is in.
    pub closed spec fn spec_current(&self) -> SessionState {
        self.current
    }

    /// The recorded transition history.
    pub closed spec fn spec_history(&self) -> Seq<StateTransition> {
        self.history@
    }

    /// The bound on the history length.
    pub closed spec fn spec_max_history(&self) -> int {
        self.max_history as int
    }

    /// The wall-clock milliseconds when the current state was entered.
    pub closed spec fn spec_entered_at_ms(&self) -> u64 {
        self.state_entered_at_ms
    }

    /// The history never outgrows its bound.
    pub open spec fn wf(&self) -> bool {
        self.spec_history().len() <= self.spec_max_history()
    }

    /// Creates a machine in `Idle` with the default history bound.
    pub fn new() -> (r: SessionStateMachine)
        ensures
            r.wf(),
            r.spec_current() == SessionState::Idle,
            r.spec_history() =~= Seq::<StateTransition>::empty(),
            r.spec_max_history() == DEFAULT_MAX_HISTORY,
    {
        SessionStateMachine {
            current: SessionState::Idle,
            state_entered_at_ms: now_millis(),
            history: Vec::new(),
            max_history: DEFAULT_MAX_HISTORY,
        }
    }

    /// Creates a machine in `Idle` with a custom history bound.
    pub fn with_max_history(max_history: usize) -> (r: SessionStateMachine)
        ensures
            r.wf(),
            r.spec_current() == SessionState::Idle,
            r.spec_history() =~= Seq::<StateTransition>::empty(),
            r.spec_max_history() == max_history,
    {
        SessionStateMachine {
            current: SessionState::Idle,
            state_entered_at_ms: now_millis(),
            history: Vec::new(),
            max_history,
        }
    }

    /// The current state.
    pub fn current(&self) -> (r: SessionState)
        ensures
            r == self.spec_current(),
    {
        self.current
    }

    /// True when moving to `to` is allowed from the current state.
    pub fn can_transition(&self, to: SessionState) -> (r: bool)
        ensures
            r == valid_transition(self.spec_current(), to),
    {
        let targets = self.current.valid_transitions();
        let mut i: usize = 0;
        let mut found = false;
        while i < targets.len()
            invariant
                0 <= i <= targets@.len(),
                targets@ == transition_targets(self.spec_current()),
                found == exists|k: int| 0 <= k < i && targets@[k] == to,
            decreases targets@.len() - i,
        {
            if targets[i] == to {
                found = true;
            }
            i += 1;
        }
        proof {
            lemma_transition_targets_exact(self.spec_current(), to);
            if found {
                let k = choose|k: int|
                    0 <= k < targets@.len() && targets@[k] == to;
                assert(targets@.contains(to));
            }
            if targets@.contains(to) {
                let k = choose|k: int| 0 <= k < targets@.len() && targets@[k] == to;
                assert(exists|k2: int| 0 <= k2 < targets@.len() && targets@[k2] == to);
            }
        }
        found
    }

    /// Appends a record and trims the history to its bound.
    fn record(&mut self, entry: StateTransition)
        requires
            old(self).wf(),
        ensures
            final(self).wf(),
            final(self).spec_history() == keep_last(
                old(self).spec_history().push(entry),
                old(self).spec_max_history(),
            ),
            final(self).spec_current() == old(self).spec_current(),
            final(self).spec_max_history() == old(self).spec_max_history(),
            final(self).spec_entered_at_ms() == old(self).spec_entered_at_ms(),
    {
        self.history.push(entry);
        if self.history.len() > self.max_history {
            self.history.remove(0);
            proof {
                assert(self.history@ =~= keep_last(
                    old(self).spec_history().push(entry),
                    old(self).spec_max_history(),
                ));
            }
        }
    }

    /// Attempts a transition to `to`.
    ///
    /// Succeeds exactly on the allowed edges; on success the machine enters
    /// `to` and records the transition, trimming the history to its bound.
    /// On failure the machine is unchanged and the error names both states.
    pub fn transition(&mut self, to: SessionState) -> (r: SessionResult<()>)
        requires
            old(self).wf(),
        ensures
            final(self).wf(),
            r is Ok <==> valid_transition(old(self).spec_current(), to),
            r is Ok ==> {
                &&& final(self).spec_current() == to
                &&& exists|entry: StateTransition|
                    entry.from == old(self).spec_current() && entry.to == to && final(self).spec_history() == keep_last(
                        old(self).spec_history().push(entry),
                        old(self).spec_max_history(),
                    )
            },
            r matches Err(e) ==> {
                &&& *final(self) == *old(self)
                &&& e matches SessionError::InvalidStateTransition { from, to: t } && from@
                    == state_label(old(self).spec_current()) && t@ == state_label(to)
            },
            final(self).spec_max_history() == old(self).spec_max_history(),
    {
        if !self.can_transition(to) {
            return Err(
                SessionError::InvalidStateTransition {
                    from: self.current.label(),
                    to: to.label(),
                },
            );
        }
        let now = now_millis();
        let entry = StateTransition { from: self.current, to, timestamp_ms: now };
        let ghost entry_spec = entry;
        self.current = to;
        self.state_entered_at_ms = now;
        self.record(entry);
        proof {
            assert(entry_spec.from == old(self).spec_current() && entry_spec.to == to && final(self).spec_history() == keep_last(
                old(self).spec_history().push(entry_spec),
                old(self).spec_max_history(),
            ));
        }
        Ok(())
    }

    /// Moves to `to` without checking the transition relation.
    ///
    /// Meant for error recovery only; the move is still recorded.
    pub fn force_transition(&mut self, to: SessionState)
        requires
            old(self).wf(),
        ensures
            final(self).wf(),
            final(self).spec_current() == to,
            exists|entry: StateTransition|
                entry.from == old(self).spec_current() && entry.to == to && final(self).spec_history() == keep_last(
                    old(self).spec_history().push(entry),
                    old(self).spec_max_history(),
                ),
            final(self).spec_max_history() == old(self).spec_max_history(),
    {
        let now = now_millis();
        let entry = StateTransition { from: self.current, to, timestamp_ms: now };
        let ghost entry_spec = entry;
        self.current = to;
        self.state_entered_at_ms = now;
        self.record(entry);
        proof {
            assert(entry_spec.from == old(self).spec_current() && entry_spec.to == to && final(self).spec_history() == keep_last(
                old(self).spec_history().push(entry_spec),
                old(self).spec_max_history(),
            ));
        }
    }

    /// Milliseconds spent in the current state, by the wall clock.
    pub fn time_in_state(&self) -> u64 {
        let now = now_millis();
        if now >= self.state_entered_at_ms {
            now - self.state_entered_at_ms
        } else {
            0
        }
    }

    /// Wall-clock milliseconds when the current state was entered.
    pub fn state_entered_at(&self) -> (r: u64)
        ensures
            r == self.spec_entered_at_ms(),
    {
        self.state_entered_at_ms
    }

    /// The recorded transition history, oldest first.
    pub fn history(&self) -> (r: &Vec<StateTransition>)
        ensures
            r@ == self.spec_history(),
    {
        &self.history
    }

    /// The most recent transition, if any was recorded.
    pub fn last_transition(&self) -> (r: Option<&StateTransition>)
        ensures
            self.spec_history().len() == 0 ==> r is None,
            self.spec_history().len() > 0 ==> (r matches Some(t) && *t == self.spec_history().last()),
    {
        self.history.last()
    }

    /// Returns the machine to `Idle` and clears the history.
    pub fn reset(&mut self)
        requires
            old(self).wf(),
        ensures
            final(self).wf(),
            final(self).spec_current() == SessionState::Idle,
            final(self).spec_history() =~= Seq::<StateTransition>::empty(),
            final(self).spec_max_history() == old(self).spec_max_history(),
    {
        self.current = SessionState::Idle;
        self.state_entered_at_ms = now_millis();
        self.history.clear();
    }

    /// True while the session is in the data-transmitting state.
    pub fn is_active(&self) -> (r: bool)
        ensures
            r == (self.spec_current() == SessionState::Active),
    {
        self.current.is_data_ready()
    }

    /// True once the session has reached the terminal state.
    pub fn is_terminated(&self) -> (r: bool)
        ensures
            r == (self.spec_current() == SessionState::Disconnected),
    {
        self.current.is_terminal()
    }
}

impl Default for SessionStateMachine {
    fn default() -> (r: SessionStateMachine)
        ensures
            r.wf(),
            r.spec_current() == SessionState::Idle,
            r.spec_history() =~= Seq::<StateTransition>::empty(),
            r.spec_max_history() == DEFAULT_MAX_HISTORY,
    {
        SessionStateMachine::new()
    }
}

} // verus!
