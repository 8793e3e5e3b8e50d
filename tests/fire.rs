use cron_core::trigger::{
    on_fire, on_session, resolve_context, ContextState, FireEvent, FireStep, TurnStep,
};

#[test]
fn fire_after_app_state_released_logs_once() {
    let ctx = resolve_context(true, Some(false));
    assert_eq!(ctx, ContextState::Released);
    let step = on_fire(ctx);
    assert_eq!(step, FireStep::Abandon(FireEvent::AppStateDropped));
    assert_eq!(
        FireEvent::AppStateDropped.message(),
        "Cron job triggered but AppState was dropped"
    );
}

#[test]
fn fire_before_init_is_not_initialized() {
    assert_eq!(resolve_context(false, None), ContextState::Unset);
    assert_eq!(resolve_context(true, None), ContextState::Unset);
    assert_eq!(resolve_context(false, Some(true)), ContextState::Unset);
    assert_eq!(
        on_fire(ContextState::Unset),
        FireStep::Abandon(FireEvent::NotInitialized)
    );
}

#[test]
fn fire_with_live_context_requests_session() {
    let ctx = resolve_context(true, Some(true));
    assert_eq!(ctx, ContextState::Live);
    assert_eq!(on_fire(ctx), FireStep::RequestSession);
}

#[test]
fn session_answer_decides_turn() {
    let fresh: Result<bool, String> = Ok(true);
    let reused: Result<bool, String> = Ok(false);
    let failed: Result<bool, String> = Err("backend down".to_string());
    assert_eq!(on_session(&fresh), TurnStep::StartTurn { is_new_session: true });
    assert_eq!(on_session(&reused), TurnStep::StartTurn { is_new_session: false });
    assert_eq!(on_session(&failed), TurnStep::Abandon(FireEvent::SessionFailed));
    assert_eq!(
        FireEvent::SessionFailed.message(),
        "Cron job execution failed to create session"
    );
}
