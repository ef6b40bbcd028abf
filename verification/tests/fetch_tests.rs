use proton::digest::HashAccumulator;
use proton::errors::ProtonError;
use proton::fetch::{temp_path, FetchAction, FetchEvent, FetchSession, MAX_DOWNLOAD_ATTEMPTS};

const ABC: &str = "a9993e364706816aba3e25717850c26c9cd0d89d";

fn body(bytes: &[u8]) -> HashAccumulator {
    let mut acc = HashAccumulator::new();
    acc.update(bytes);
    acc
}

#[test]
fn three_attempts() {
    assert_eq!(MAX_DOWNLOAD_ATTEMPTS, 3);
}

#[test]
fn temporary_file_is_the_destination_with_a_suffix() {
    assert_eq!(temp_path("/game/libraries/a/b.jar"), "/game/libraries/a/b.jar.tmp");
    assert_eq!(temp_path("/game/assets/objects/ab/abcdef"), "/game/assets/objects/ab/abcdef.tmp");
    assert_eq!(temp_path(""), ".tmp");
}

#[test]
fn matching_body_is_promoted() {
    let mut session = FetchSession::new(ABC.to_string());
    assert_eq!(session.attempts(), 1);
    assert!(!session.is_finished());
    assert_eq!(session.result(), None);
    assert_eq!(session.body_received(body(b"abc")), FetchAction::Promote);
    assert!(!session.is_finished());
    assert_eq!(session.step(FetchEvent::Promoted), FetchAction::Stop);
    assert!(session.is_finished());
    assert_eq!(session.result(), Some(Ok(())));
    assert_eq!(session.attempts(), 1);
}

#[test]
fn mismatch_on_every_attempt_fails_after_exactly_three_requests() {
    let mut session = FetchSession::new(ABC.to_string());
    assert_eq!(session.body_received(body(b"abd")), FetchAction::DiscardAndRequest);
    assert_eq!(session.attempts(), 2);
    assert_eq!(session.result(), None);
    assert_eq!(session.body_received(body(b"")), FetchAction::DiscardAndRequest);
    assert_eq!(session.attempts(), 3);
    assert_eq!(session.result(), None);
    assert_eq!(session.body_received(body(b"ABC")), FetchAction::DiscardAndStop);
    assert_eq!(session.attempts(), 3);
    assert_eq!(session.result(), Some(Err(ProtonError::HashMismatch)));
    // Not even the right body is taken now.
    assert_eq!(session.body_received(body(b"abc")), FetchAction::Stop);
    assert_eq!(session.attempts(), 3);
    assert_eq!(session.result(), Some(Err(ProtonError::HashMismatch)));
}

#[test]
fn a_later_attempt_can_succeed() {
    let mut session = FetchSession::new(ABC.to_string());
    assert_eq!(session.body_received(body(b"corrupt")), FetchAction::DiscardAndRequest);
    assert_eq!(session.body_received(body(b"corrupt")), FetchAction::DiscardAndRequest);
    assert_eq!(session.body_received(body(b"abc")), FetchAction::Promote);
    assert_eq!(session.step(FetchEvent::Promoted), FetchAction::Stop);
    assert_eq!(session.result(), Some(Ok(())));
    assert_eq!(session.attempts(), 3);
}

#[test]
fn transport_failure_is_not_retried() {
    let mut session = FetchSession::new(ABC.to_string());
    let action = session.step(FetchEvent::TransportFailed("connection refused".to_string()));
    assert_eq!(action, FetchAction::DiscardAndStop);
    assert_eq!(session.attempts(), 1);
    assert!(session.is_finished());
    assert_eq!(
        session.result(),
        Some(Err(ProtonError::RequestError("connection refused".to_string())))
    );
    assert_eq!(session.body_received(body(b"abc")), FetchAction::Stop);
    assert_eq!(
        session.result(),
        Some(Err(ProtonError::RequestError("connection refused".to_string())))
    );
}

#[test]
fn transport_failure_after_a_mismatch_is_final_too() {
    let mut session = FetchSession::new(ABC.to_string());
    assert_eq!(session.body_received(body(b"x")), FetchAction::DiscardAndRequest);
    let action = session.step(FetchEvent::TransportFailed("reset".to_string()));
    assert_eq!(action, FetchAction::DiscardAndStop);
    assert_eq!(session.attempts(), 2);
    assert_eq!(session.result(), Some(Err(ProtonError::RequestError("reset".to_string()))));
}

#[test]
fn filesystem_failure_is_not_retried() {
    let mut session = FetchSession::new(ABC.to_string());
    let action = session.step(FetchEvent::FilesystemFailed("disk full".to_string()));
    assert_eq!(action, FetchAction::DiscardAndStop);
    assert_eq!(session.attempts(), 1);
    assert_eq!(session.result(), Some(Err(ProtonError::IoError("disk full".to_string()))));
}

#[test]
fn failed_rename_fails_the_fetch() {
    let mut session = FetchSession::new(ABC.to_string());
    assert_eq!(session.body_received(body(b"abc")), FetchAction::Promote);
    let action = session.step(FetchEvent::FilesystemFailed("read-only".to_string()));
    assert_eq!(action, FetchAction::DiscardAndStop);
    assert_eq!(session.result(), Some(Err(ProtonError::IoError("read-only".to_string()))));
}

#[test]
fn events_out_of_turn_change_nothing() {
    let mut session = FetchSession::new(ABC.to_string());
    assert_eq!(session.step(FetchEvent::Promoted), FetchAction::Stop);
    assert_eq!(session.attempts(), 1);
    assert!(!session.is_finished());
    assert_eq!(session.body_received(body(b"abc")), FetchAction::Promote);
    // While the rename is under way no body and no transport failure is due.
    assert_eq!(session.body_received(body(b"zzz")), FetchAction::Stop);
    assert_eq!(session.step(FetchEvent::TransportFailed("late".to_string())), FetchAction::Stop);
    assert!(!session.is_finished());
    assert_eq!(session.step(FetchEvent::Promoted), FetchAction::Stop);
    assert_eq!(session.result(), Some(Ok(())));
    assert_eq!(session.step(FetchEvent::FilesystemFailed("late".to_string())), FetchAction::Stop);
    assert_eq!(session.result(), Some(Ok(())));
}

#[test]
fn digest_is_compared_exactly() {
    let mut upper = FetchSession::new(ABC.to_uppercase());
    assert_eq!(upper.body_received(body(b"abc")), FetchAction::DiscardAndRequest);
    let mut short = FetchSession::new(ABC[..39].to_string());
    assert_eq!(short.body_received(body(b"abc")), FetchAction::DiscardAndRequest);
    let mut empty = FetchSession::new(String::new());
    assert_eq!(empty.body_received(body(b"abc")), FetchAction::DiscardAndRequest);
    assert_eq!(empty.step(FetchEvent::BodyReceived(None)), FetchAction::DiscardAndRequest);
    assert_eq!(
        empty.step(FetchEvent::BodyReceived(Some(String::new()))),
        FetchAction::Promote
    );
}

#[test]
fn a_body_without_a_digest_counts_as_a_mismatch() {
    let mut session = FetchSession::new(ABC.to_string());
    assert_eq!(session.step(FetchEvent::BodyReceived(None)), FetchAction::DiscardAndRequest);
    assert_eq!(session.step(FetchEvent::BodyReceived(None)), FetchAction::DiscardAndRequest);
    assert_eq!(session.step(FetchEvent::BodyReceived(None)), FetchAction::DiscardAndStop);
    assert_eq!(session.result(), Some(Err(ProtonError::HashMismatch)));
}

#[test]
fn nothing_is_promoted_without_a_matching_body() {
    // Every sequence of three events that holds no matching body.
    let events = || {
        vec![
            FetchEvent::TransportFailed("t".to_string()),
            FetchEvent::FilesystemFailed("f".to_string()),
            FetchEvent::BodyReceived(Some("0".repeat(40))),
            FetchEvent::BodyReceived(None),
            FetchEvent::Promoted,
        ]
    };
    for a in 0..5 {
        for b in 0..5 {
            for c in 0..5 {
                let mut session = FetchSession::new(ABC.to_string());
                for pick in [a, b, c] {
                    let action = session.step(events().swap_remove(pick));
                    assert_ne!(action, FetchAction::Promote);
                }
                assert_ne!(session.result(), Some(Ok(())));
            }
        }
    }
}
