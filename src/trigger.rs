use vstd::prelude::*;

verus! {

/// What a firing job finds of the application context when it tries to resolve it.
#[derive(Debug, Clone, Copy, PartialEq, Eq, Structural)]
pub enum ContextState {
    /// `init` has not stored the transport and application handles yet.
    Unset,
    /// The handles were stored, but the application state has since been torn down.
    Released,
    /// Both handles resolve.
    Live,
}

/// Something a firing job reports in the log when it gives up its tick.
#[derive(Debug, Clone, Copy, PartialEq, Eq, Structural)]
pub enum FireEvent {
    NotInitialized,
    AppStateDropped,
    SessionFailed,
}

/// The first decision of a fire: give up the tick, or go on to find a session.
#[derive(Debug, Clone, Copy, PartialEq, Eq, Structural)]
pub enum FireStep {
    /// Log the event once and return; the next scheduled fire tries again.
    Abandon(FireEvent),
    /// Look up the channel's backend and ask for its session.
    RequestSession,
}

/// The second decision of a fire, once the session coordinator has answered.
#[derive(Debug, Clone, Copy, PartialEq, Eq, Structural)]
pub enum TurnStep {
    /// Log the event once and return; the next scheduled fire tries again.
    Abandon(FireEvent),
    /// Hand the prompt to the agent without waiting for the turn to finish.
    StartTurn { is_new_session: bool },
}

/// The context state that a fire sees, given whether the transport handle was stored
/// and, where the application handle was stored, whether it still resolves.
pub open spec fn context_of(http_set: bool, state_alive: Option<bool>) -> ContextState {
    match state_alive {
        Some(alive) if http_set => if alive {
            ContextState::Live
        } else {
            ContextState::Released
        },
        _ => ContextState::Unset,
    }
}

/// Resolves the context pair: both handles must be stored, and the application handle
/// must still resolve.
pub fn resolve_context(http_set: bool, state_alive: Option<bool>) -> (r: ContextState)
    ensures
        r == context_of(http_set, state_alive),
{
    match state_alive {
        Some(alive) => if !http_set {
            ContextState::Unset
        } else if alive {
            ContextState::Live
        } else {
            ContextState::Released
        },
        None => ContextState::Unset,
    }
}

/// Decides what a fire does with the context it found: a missing or released context
/// ends the tick with exactly one event and no retry.
pub fn on_fire(ctx: ContextState) -> (r: FireStep)
    ensures
        r == match ctx {
            ContextState::Unset => FireStep::Abandon(FireEvent::NotInitialized),
            ContextState::Released => FireStep::Abandon(FireEvent::AppStateDropped),
            ContextState::Live => FireStep::RequestSession,
        },
{
    match ctx {
        ContextState::Unset => FireStep::Abandon(FireEvent::NotInitialized),
        ContextState::Released => FireStep::Abandon(FireEvent::AppStateDropped),
        ContextState::Live => FireStep::RequestSession,
    }
}

/// Decides what a fire does with the session coordinator's answer: on success the turn
/// starts, flagged with whether the session is new; on failure the tick ends with one
/// event and no retry.
pub fn on_session<E>(result: &Result<bool, E>) -> (r: TurnStep)
    ensures
        r == match result {
            Ok(is_new) => TurnStep::StartTurn { is_new_session: *is_new },
            Err(_) => TurnStep::Abandon(FireEvent::SessionFailed),
        },
{
    match result {
        Ok(is_new) => TurnStep::StartTurn { is_new_session: *is_new },
        Err(_) => TurnStep::Abandon(FireEvent::SessionFailed),
    }
}

impl FireEvent {
    /// The log line for this event.
    pub fn message(&self) -> (r: &'static str)
        ensures
            r@ == match self {
                FireEvent::NotInitialized => "Cron job triggered but Http/State not initialized. Did you call init()?"@,
                FireEvent::AppStateDropped => "Cron job triggered but AppState was dropped"@,
                FireEvent::SessionFailed => "Cron job execution failed to create session"@,
            },
    {
        match self {
            FireEvent::NotInitialized => "Cron job triggered but Http/State not initialized. Did you call init()?",
            FireEvent::AppStateDropped => "Cron job triggered but AppState was dropped",
            FireEvent::SessionFailed => "Cron job execution failed to create session",
        }
    }
}

} // verus!
