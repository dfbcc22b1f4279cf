//! The game's state machine: Idle, then Running, then Completed, then Idle.

use vstd::prelude::*;

use crate::clock::Elapsed;
use crate::error::GameError;
use crate::game::{AttemptTime, ServerTimestamp, TargetTime};

verus! {

/// Represents all possible game states.
#[derive(Debug, Clone, Copy)]
pub enum GameState {
    /// Waiting for player to start
    Idle,
    /// Game is running, timer active
    Running(RunningState),
    /// Game completed, showing results
    Completed(CompletedState),
}

/// State when game timer is running.
#[derive(Debug, Clone, Copy)]
pub struct RunningState {
    pub target_time: TargetTime,
    pub server_start_time: ServerTimestamp,
}

/// State when game is completed.
#[derive(Debug, Clone, Copy)]
pub struct CompletedState {
    pub target_time: TargetTime,
    pub attempt_time: AttemptTime,
    pub server_elapsed: Elapsed,
}

/// The phase of a game, without the data that each state carries.
#[derive(Debug, Clone, Copy, PartialEq, Eq, Structural)]
pub enum Phase {
    Idle,
    Running,
    Completed,
}

/// The transitions of the state machine.
#[derive(Debug, Clone, Copy, PartialEq, Eq, Structural)]
pub enum Action {
    Start,
    Stop,
    Reset,
}

/// The phase that `action` leads to from `phase`, or `None` where the
/// machine does not allow it.
pub open spec fn transition(phase: Phase, action: Action) -> Option<Phase> {
    match (phase, action) {
        (Phase::Idle, Action::Start) => Some(Phase::Running),
        (Phase::Running, Action::Stop) => Some(Phase::Completed),
        (Phase::Completed, Action::Reset) => Some(Phase::Idle),
        _ => None,
    }
}

/// The name of a phase, as `GameState::name` gives it.
pub open spec fn phase_name(phase: Phase) -> Seq<char> {
    match phase {
        Phase::Idle => "Idle"@,
        Phase::Running => "Running"@,
        Phase::Completed => "Completed"@,
    }
}

/// The word for an action, as transition errors name it.
pub open spec fn action_word(action: Action) -> Seq<char> {
    match action {
        Action::Start => "start"@,
        Action::Stop => "stop"@,
        Action::Reset => "reset"@,
    }
}

/// `e` is the error for attempting `action` from `phase`.
pub open spec fn is_transition_error(e: GameError, phase: Phase, action: Action) -> bool {
    &&& e matches GameError::InvalidStateTransition { from, action: word }
    &&& e->from@ == phase_name(phase)
    &&& e->action@ == action_word(action)
}

/// The message of the error for attempting `action` from `phase`.
pub open spec fn transition_error_text(phase: Phase, action: Action) -> Seq<char> {
    "Invalid state transition: cannot "@ + action_word(action) + " from "@ + phase_name(phase)
        + " state"@
}

impl GameState {
    /// The phase of this state.
    pub open spec fn phase(&self) -> Phase {
        match self {
            GameState::Idle => Phase::Idle,
            GameState::Running(_) => Phase::Running,
            GameState::Completed(_) => Phase::Completed,
        }
    }

    pub fn new() -> (s: Self)
        ensures
            s.phase() == Phase::Idle,
    {
        GameState::Idle
    }

    /// Check if game can be started from this state.
    pub fn can_start(&self) -> (ok: bool)
        ensures
            ok == transition(self.phase(), Action::Start) is Some,
    {
        matches!(self, GameState::Idle)
    }

    /// Check if game can be stopped from this state.
    pub fn can_stop(&self) -> (ok: bool)
        ensures
            ok == transition(self.phase(), Action::Stop) is Some,
    {
        matches!(self, GameState::Running(_))
    }

    /// Check if game can be reset from this state.
    pub fn can_reset(&self) -> (ok: bool)
        ensures
            ok == transition(self.phase(), Action::Reset) is Some,
    {
        matches!(self, GameState::Completed(_))
    }

    /// Transition: Idle -> Running, with the server's clock started now.
    pub fn start(self, target_time: TargetTime) -> (r: Result<Self, GameError>)
        ensures
            r is Ok <==> transition(self.phase(), Action::Start) is Some,
            r matches Ok(s) ==> s.phase() == Phase::Running && s->Running_0.target_time
                == target_time,
            r matches Err(e) ==> is_transition_error(e, self.phase(), Action::Start),
    {
        match self {
            GameState::Idle => Ok(
                GameState::Running(
                    RunningState { target_time, server_start_time: ServerTimestamp::now() },
                ),
            ),
            _ => Err(GameError::InvalidStateTransition { from: self.name(), action: "start" }),
        }
    }

    /// What stopping `before` with `attempt_time` gives: from Running, the
    /// completed state with the same target, the attempt, and a reading of the
    /// server's clock measured from the running state's start; from any other
    /// state, the transition error.
    pub open spec fn stop_outcome(before: GameState, attempt_time: AttemptTime, r: Result<
        GameState,
        GameError,
    >) -> bool {
        match r {
            Ok(s) => {
                &&& before.phase() == Phase::Running
                &&& s.phase() == Phase::Completed
                &&& s->Completed_0.target_time == before->Running_0.target_time
                &&& s->Completed_0.attempt_time == attempt_time
                &&& s->Completed_0.server_elapsed.start() == before->Running_0.server_start_time.0
            },
            Err(e) => {
                &&& before.phase() != Phase::Running
                &&& is_transition_error(e, before.phase(), Action::Stop)
            },
        }
    }

    /// Transition: Running -> Completed, recording the attempt and the time
    /// that the server's clock has measured since the start.
    pub fn stop(self, attempt_time: AttemptTime) -> (r: Result<Self, GameError>)
        ensures
            Self::stop_outcome(self, attempt_time, r),
            r is Ok <==> transition(self.phase(), Action::Stop) is Some,
            r matches Ok(s) ==> {
                &&& s.phase() == Phase::Completed
                &&& s->Completed_0.target_time == self->Running_0.target_time
                &&& s->Completed_0.attempt_time == attempt_time
                &&& s->Completed_0.server_elapsed.start() == self->Running_0.server_start_time.0
            },
            r matches Err(e) ==> is_transition_error(e, self.phase(), Action::Stop),
    {
        match self {
            GameState::Running(running) => {
                let server_elapsed = running.server_start_time.elapsed_reading();
                self.stop_measured(attempt_time, server_elapsed)
            },
            _ => Err(GameError::InvalidStateTransition { from: self.name(), action: "stop" }),
        }
    }

    /// Transition: Running -> Completed, recording the attempt and a reading
    /// of the server's clock taken since the start.
    pub fn stop_measured(self, attempt_time: AttemptTime, server_elapsed: Elapsed) -> (r: Result<
        Self,
        GameError,
    >)
        requires
            self.phase() == Phase::Running ==> server_elapsed.start()
                == self->Running_0.server_start_time.0,
        ensures
            r is Ok <==> transition(self.phase(), Action::Stop) is Some,
            r matches Ok(s) ==> {
                &&& s.phase() == Phase::Completed
                &&& s->Completed_0.target_time == self->Running_0.target_time
                &&& s->Completed_0.attempt_time == attempt_time
                &&& s->Completed_0.server_elapsed == server_elapsed
            },
            r matches Err(e) ==> is_transition_error(e, self.phase(), Action::Stop),
    {
        match self {
            GameState::Running(running) => Ok(
                GameState::Completed(
                    CompletedState { target_time: running.target_time, attempt_time, server_elapsed },
                ),
            ),
            _ => Err(GameError::InvalidStateTransition { from: self.name(), action: "stop" }),
        }
    }

    /// Transition: Completed -> Idle.
    pub fn reset(self) -> (r: Result<Self, GameError>)
        ensures
            r is Ok <==> transition(self.phase(), Action::Reset) is Some,
            r matches Ok(s) ==> s.phase() == Phase::Idle,
            r matches Err(e) ==> is_transition_error(e, self.phase(), Action::Reset),
    {
        match self {
            GameState::Completed(_) => Ok(GameState::Idle),
            _ => Err(GameError::InvalidStateTransition { from: self.name(), action: "reset" }),
        }
    }

    pub fn name(&self) -> (n: &'static str)
        ensures
            n@ == phase_name(self.phase()),
    {
        match self {
            GameState::Idle => "Idle",
            GameState::Running(_) => "Running",
            GameState::Completed(_) => "Completed",
        }
    }
}

impl Default for GameState {
    fn default() -> (s: Self)
        ensures
            s.phase() == Phase::Idle,
    {
        Self::new()
    }
}

} // verus!
