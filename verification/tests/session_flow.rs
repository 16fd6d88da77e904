//! Tests of the session scheduler: planning from caller tokens, the full
//! apply-hold-restore walk, and every failure stage.

use focusblock::errors::BlockError;
use focusblock::session::{
    accepts, flush_outcome, plan_session, start_session, step, Action, Event, FailStage,
    SessionPlan, SessionState,
};

fn tokens(ts: &[&str]) -> Vec<String> {
    ts.iter().map(|t| t.to_string()).collect()
}

#[test]
fn plan_session_help_skips_the_session() {
    let plan = plan_session(&tokens(&["help"]));
    assert!(matches!(plan, Ok(SessionPlan::Help)));
}

#[test]
fn plan_session_help_ignores_case_and_later_tokens() {
    let plan = plan_session(&tokens(&["HELP", "youtube", "5"]));
    assert!(matches!(plan, Ok(SessionPlan::Help)));
}

#[test]
fn plan_session_rejects_missing_arguments() {
    let plan = plan_session(&tokens(&[]));
    assert_eq!(
        match plan {
            Err(e) => e,
            Ok(_) => panic!("expected an input error"),
        },
        BlockError::InputError
    );
}

#[test]
fn plan_session_rejects_unparsable_timer_before_any_file_work() {
    let plan = plan_session(&tokens(&["youtube", "abc"]));
    assert!(matches!(plan, Err(BlockError::InputError)));
}

#[test]
fn plan_session_resolves_sites_and_timer() {
    let plan = plan_session(&tokens(&["YOUTUBE", "x", "5"]));
    match plan {
        Ok(SessionPlan::Run {
            hosts,
            hold_seconds,
        }) => {
            assert_eq!(hosts, vec!["www.youtube.com", "www.x.com"]);
            assert_eq!(hold_seconds, 300);
        }
        _ => panic!("expected a full session plan"),
    }
}

#[test]
fn plan_session_with_only_a_timer_is_a_noop_block_set() {
    let plan = plan_session(&tokens(&["15"]));
    match plan {
        Ok(SessionPlan::Run {
            hosts,
            hold_seconds,
        }) => {
            assert!(hosts.is_empty());
            assert_eq!(hold_seconds, 900);
        }
        _ => panic!("expected a full session plan"),
    }
}

#[test]
fn full_session_applies_holds_and_restores() {
    let original = String::from("127.0.0.1\tlocalhost\n");
    let (hosts, hold_seconds) = match plan_session(&tokens(&["YOUTUBE", "x", "5"])) {
        Ok(SessionPlan::Run {
            hosts,
            hold_seconds,
        }) => (hosts, hold_seconds),
        _ => panic!("expected a full session plan"),
    };

    let (state, action) = start_session(hosts, hold_seconds);
    assert!(matches!(action, Action::ReadHostFile));

    let (state, action) = step(
        state,
        Event::SnapshotRead {
            content: original.clone(),
        },
    );
    let written = match &action {
        Action::WriteHostFile { content } => content.clone(),
        _ => panic!("expected a write request"),
    };
    assert_eq!(
        written,
        "127.0.0.1\tlocalhost\n127.0.0.1\twww.youtube.com\n127.0.0.1\twww.x.com\n"
    );

    let (state, action) = step(state, Event::WriteFinished { ok: true });
    assert!(matches!(action, Action::FlushCache));

    let (state, action) = step(state, Event::FlushFinished { ok: true });
    assert!(matches!(action, Action::Hold { seconds: 300 }));

    let (state, action) = step(state, Event::HoldFinished);
    let restored = match &action {
        Action::WriteHostFile { content } => content.clone(),
        _ => panic!("expected a write request"),
    };
    assert_eq!(restored, original);

    let (state, action) = step(state, Event::WriteFinished { ok: true });
    assert!(matches!(action, Action::FlushCache));

    let (state, action) = step(state, Event::FlushFinished { ok: true });
    assert!(matches!(action, Action::Done));
    assert!(matches!(
        state,
        SessionState::Restored {
            apply_flush_failed: false,
            restore_flush_failed: false,
        }
    ));
}

#[test]
fn unreadable_host_file_fails_before_any_mutation() {
    let (state, _) = start_session(tokens(&["netflix.com"]), 60);
    let (state, action) = step(state, Event::SnapshotUnavailable);
    assert!(matches!(
        state,
        SessionState::Failed {
            stage: FailStage::Snapshot
        }
    ));
    assert!(matches!(action, Action::Done));
}

#[test]
fn failed_apply_write_names_its_stage() {
    let (state, _) = start_session(tokens(&["netflix.com"]), 60);
    let (state, _) = step(
        state,
        Event::SnapshotRead {
            content: String::new(),
        },
    );
    let (state, action) = step(state, Event::WriteFinished { ok: false });
    assert!(matches!(
        state,
        SessionState::Failed {
            stage: FailStage::ApplyWrite
        }
    ));
    assert!(matches!(action, Action::Done));
}

#[test]
fn failed_restore_write_names_its_stage() {
    let (state, _) = start_session(Vec::new(), 0);
    let (state, _) = step(
        state,
        Event::SnapshotRead {
            content: String::from("x\n"),
        },
    );
    let (state, _) = step(state, Event::WriteFinished { ok: true });
    let (state, _) = step(state, Event::FlushFinished { ok: true });
    let (state, _) = step(state, Event::HoldFinished);
    let (state, action) = step(state, Event::WriteFinished { ok: false });
    assert!(matches!(
        state,
        SessionState::Failed {
            stage: FailStage::RestoreWrite
        }
    ));
    assert!(matches!(action, Action::Done));
}

#[test]
fn flush_failure_is_recorded_but_does_not_abort() {
    let (state, _) = start_session(Vec::new(), 30);
    let (state, _) = step(
        state,
        Event::SnapshotRead {
            content: String::from("x\n"),
        },
    );
    let (state, _) = step(state, Event::WriteFinished { ok: true });
    let (state, action) = step(state, Event::FlushFinished { ok: false });
    assert!(matches!(action, Action::Hold { seconds: 30 }));
    assert!(matches!(
        state,
        SessionState::Holding {
            apply_flush_failed: true,
            ..
        }
    ));
    let (state, _) = step(state, Event::HoldFinished);
    let (state, _) = step(state, Event::WriteFinished { ok: true });
    let (state, action) = step(state, Event::FlushFinished { ok: false });
    assert!(matches!(action, Action::Done));
    assert!(matches!(
        state,
        SessionState::Restored {
            apply_flush_failed: true,
            restore_flush_failed: true,
        }
    ));
}

#[test]
fn flush_outcome_fails_on_launch_failure_or_nonzero_exit() {
    assert_eq!(flush_outcome(true, true), Ok(()));
    assert_eq!(
        flush_outcome(true, false),
        Err(BlockError::CacheFlushFailure)
    );
    assert_eq!(
        flush_outcome(false, false),
        Err(BlockError::CacheFlushFailure)
    );
}

#[test]
fn terminal_states_accept_no_event() {
    let failed = SessionState::Failed {
        stage: FailStage::Snapshot,
    };
    assert!(!accepts(&failed, &Event::HoldFinished));
    let restored = SessionState::Restored {
        apply_flush_failed: false,
        restore_flush_failed: false,
    };
    assert!(!accepts(&restored, &Event::FlushFinished { ok: true }));
    let resolved = SessionState::Resolved {
        hosts: Vec::new(),
        hold_seconds: 1,
    };
    assert!(accepts(&resolved, &Event::SnapshotUnavailable));
    assert!(!accepts(&resolved, &Event::HoldFinished));
}
