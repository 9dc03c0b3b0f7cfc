use musicbot::{
    join_advance, join_begin, join_reply, leave_advance, leave_begin, left_text, resolve, JoinAction,
    JoinError, JoinOutcome, LeaveAction, VoiceStates,
};

const USER_A: u64 = 11;
const USER_B: u64 = 22;
const V1: u64 = 501;
const V2: u64 = 777;

fn states_with_a_in_v1() -> VoiceStates {
    let mut states = VoiceStates::new();
    states.set_channel(USER_A, V1);
    states
}

#[test]
fn resolve_prefers_explicit_channel() {
    let states = states_with_a_in_v1();
    assert!(matches!(resolve(&states, USER_A, Some(V2)), Ok(V2)));
    assert!(matches!(resolve(&states, USER_B, Some(V2)), Ok(V2)));
}

#[test]
fn resolve_falls_back_to_user_channel() {
    let states = states_with_a_in_v1();
    assert!(matches!(resolve(&states, USER_A, None), Ok(V1)));
    assert!(matches!(resolve(&states, USER_B, None), Err(JoinError::NotInVoiceChannel)));
}

#[test]
fn voice_states_track_latest_channel() {
    let mut states = states_with_a_in_v1();
    assert_eq!(states.channel_of(USER_A), Some(V1));
    states.set_channel(USER_A, V2);
    assert_eq!(states.channel_of(USER_A), Some(V2));
    assert_eq!(states.channel_of(USER_B), None);
}

#[test]
fn join_user_in_voice_channel() {
    let states = states_with_a_in_v1();
    let step = join_begin(false, &states, USER_A, None);
    assert!(matches!(step, JoinAction::Connect { channel: V1 }));
    let step = join_advance(step, Ok(()));
    assert!(matches!(step, JoinAction::Bind { channel: V1 }));
    let step = join_advance(step, Ok(()));
    match step {
        JoinAction::Finish { outcome } => {
            assert!(matches!(outcome, Ok(JoinOutcome::Joined { channel: V1 })));
            assert_eq!(join_reply(&outcome), Some("Joined <#501>".to_string()));
        }
        other => panic!("unexpected step {:?}", other),
    }
}

#[test]
fn join_user_not_in_voice_channel() {
    let states = states_with_a_in_v1();
    match join_begin(false, &states, USER_B, None) {
        JoinAction::Finish { outcome } => {
            assert!(matches!(outcome, Err(JoinError::NotInVoiceChannel)));
            assert_eq!(join_reply(&outcome), Some("Not in a voice channel!".to_string()));
        }
        other => panic!("unexpected step {:?}", other),
    }
}

#[test]
fn join_with_active_session_is_a_no_op() {
    let states = states_with_a_in_v1();
    match join_begin(true, &states, USER_A, Some(V2)) {
        JoinAction::Finish { outcome } => {
            assert!(matches!(outcome, Ok(JoinOutcome::AlreadyJoined)));
            assert_eq!(join_reply(&outcome), None);
        }
        other => panic!("unexpected step {:?}", other),
    }
}

#[test]
fn join_twice_second_is_a_no_op() {
    let states = states_with_a_in_v1();
    let mut step = join_begin(false, &states, USER_A, None);
    let mut network_steps = 0;
    while !matches!(step, JoinAction::Finish { .. }) {
        network_steps += 1;
        step = join_advance(step, Ok(()));
    }
    assert_eq!(network_steps, 2);
    assert!(matches!(step, JoinAction::Finish { outcome: Ok(JoinOutcome::Joined { channel: V1 }) }));
    let second = join_begin(true, &states, USER_A, None);
    assert!(matches!(second, JoinAction::Finish { outcome: Ok(JoinOutcome::AlreadyJoined) }));
}

#[test]
fn join_connect_failure_is_reported() {
    let states = states_with_a_in_v1();
    let step = join_begin(false, &states, USER_A, Some(V2));
    assert!(matches!(step, JoinAction::Connect { channel: V2 }));
    match join_advance(step, Err("missing permissions".to_string())) {
        JoinAction::Finish { outcome } => {
            assert!(matches!(&outcome, Err(JoinError::Connect(why)) if why == "missing permissions"));
            assert_eq!(
                join_reply(&outcome),
                Some("Error while joining channel : missing permissions".to_string())
            );
        }
        other => panic!("unexpected step {:?}", other),
    }
}

#[test]
fn join_bind_failure_rolls_back_connection() {
    let states = states_with_a_in_v1();
    let step = join_begin(false, &states, USER_A, None);
    let step = join_advance(step, Ok(()));
    let step = join_advance(step, Err("node unreachable".to_string()));
    assert!(matches!(&step, JoinAction::Disconnect { cause } if cause == "node unreachable"));
    match join_advance(step, Err("no call".to_string())) {
        JoinAction::Finish { outcome } => {
            assert!(matches!(&outcome, Err(JoinError::Bind(why)) if why == "node unreachable"));
            assert_eq!(
                join_reply(&outcome),
                Some("Error while joining channel : node unreachable".to_string())
            );
        }
        other => panic!("unexpected step {:?}", other),
    }
}

#[test]
fn leave_active_session_removes_both() {
    let step = leave_begin(true, true);
    assert!(matches!(step, LeaveAction::DeleteSession { then_remove: true }));
    let step = leave_advance(step, Ok(()));
    assert!(matches!(step, LeaveAction::RemoveConnection { delete_failure: None }));
    let step = leave_advance(step, Ok(()));
    assert!(matches!(step, LeaveAction::Finish { outcome: Ok(()) }));
    assert_eq!(left_text(), "Left voice channel.");
}

#[test]
fn leave_without_session_or_connection_succeeds() {
    assert!(matches!(leave_begin(false, false), LeaveAction::Finish { outcome: Ok(()) }));
    assert_eq!(left_text(), "Left voice channel.");
}

#[test]
fn leave_removes_connection_after_failed_delete() {
    let step = leave_begin(true, true);
    let step = leave_advance(step, Err("node down".to_string()));
    assert!(matches!(&step, LeaveAction::RemoveConnection { delete_failure: Some(why) } if why == "node down"));
    let step = leave_advance(step, Ok(()));
    assert!(matches!(&step, LeaveAction::Finish { outcome: Err(why) } if why == "node down"));
}

#[test]
fn leave_connection_only() {
    let step = leave_begin(false, true);
    assert!(matches!(step, LeaveAction::RemoveConnection { delete_failure: None }));
    let step = leave_advance(step, Err("no call".to_string()));
    assert!(matches!(&step, LeaveAction::Finish { outcome: Err(why) } if why == "no call"));
}

#[test]
fn leave_session_only() {
    let step = leave_begin(true, false);
    assert!(matches!(step, LeaveAction::DeleteSession { then_remove: false }));
    let step = leave_advance(step, Ok(()));
    assert!(matches!(step, LeaveAction::Finish { outcome: Ok(()) }));
}
