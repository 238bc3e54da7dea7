use damq_backend::identity::interpret_transport_result;
use damq_backend::identity::VerifyOutcome;
use damq_backend::store::LinkStore;
use damq_backend::store::StorageError;
use damq_backend::workflow::admissible_username;
use damq_backend::workflow::decide_after_verify;
use damq_backend::workflow::outcome_after_store;
use damq_backend::workflow::LinkOutcome;

#[test]
fn verified_username_is_linked_and_retrievable() {
    let mut store = LinkStore::new();
    let outcome = store.link_user(42, "nova", VerifyOutcome::Found);
    match outcome {
        LinkOutcome::Linked(u) => {
            assert_eq!(u.id, 1);
            assert_eq!(u.discord_id, 42);
            assert_eq!(u.anilist_username, "nova");
        }
        _ => panic!("a verified username must be linked"),
    }
    let found = store.get_user(42).unwrap();
    assert_eq!(found.id, 1);
    assert_eq!(found.anilist_username, "nova");
}

#[test]
fn missing_account_creates_nothing() {
    let mut store = LinkStore::new();
    let outcome = store.link_user(9, "ghost_user_9999", VerifyOutcome::NotFound);
    assert!(matches!(outcome, LinkOutcome::NoSuchUser));
    assert!(store.get_user(9).is_none());
}

#[test]
fn unavailable_service_creates_nothing_and_retry_creates_exactly_one() {
    let mut store = LinkStore::new();
    let first = store.link_user(
        5,
        "nova",
        VerifyOutcome::UpstreamUnavailable(String::from("timed out")),
    );
    assert!(matches!(first, LinkOutcome::Unavailable(_)));
    assert!(store.get_user(5).is_none());

    let retry = store.link_user(5, "nova", VerifyOutcome::Found);
    match retry {
        LinkOutcome::Linked(u) => {
            // id 1: the failed attempt left no row behind
            assert_eq!(u.id, 1);
        }
        _ => panic!("a retry against a healthy verifier must link"),
    }
    assert_eq!(store.get_user(5).unwrap().id, 1);
}

#[test]
fn empty_username_is_rejected_before_anything_happens() {
    let mut store = LinkStore::new();
    let outcome = store.link_user(1, "", VerifyOutcome::Found);
    assert!(matches!(outcome, LinkOutcome::InvalidInput));
    assert!(store.get_user(1).is_none());
}

#[test]
fn only_the_empty_username_is_inadmissible() {
    assert!(!admissible_username(""));
    assert!(admissible_username("n"));
    assert!(admissible_username("ghost_user_9999"));
}

#[test]
fn storage_failure_is_reported_as_such() {
    // the decision layer lets a confirmed account proceed ...
    assert!(decide_after_verify(VerifyOutcome::Found).is_none());
    // ... and a failed storage call becomes a storage outcome, never a
    // missing account
    let outcome = outcome_after_store(Err(StorageError::ConnectionLost));
    assert!(matches!(
        outcome,
        LinkOutcome::StorageFailed(StorageError::ConnectionLost)
    ));
}

#[test]
fn a_delivered_clean_reply_links_end_to_end() {
    let mut store = LinkStore::new();
    let reply = Ok(String::from("{\"data\":{\"MediaListCollection\":{\"lists\":[]}}}"));
    let verdict = interpret_transport_result(reply);
    let outcome = store.link_user(42, "nova", verdict);
    assert!(matches!(outcome, LinkOutcome::Linked(_)));
    assert_eq!(store.get_user(42).unwrap().anilist_username, "nova");
}

#[test]
fn a_delivered_errors_reply_links_nothing_end_to_end() {
    let mut store = LinkStore::new();
    let reply = Ok(String::from("{\"errors\":[{\"message\":\"User not found\"}]}"));
    let verdict = interpret_transport_result(reply);
    let outcome = store.link_user(42, "ghost_user_9999", verdict);
    assert!(matches!(outcome, LinkOutcome::NoSuchUser));
    assert!(store.get_user(42).is_none());
}

#[test]
fn verifier_reports_end_the_attempt_with_their_own_outcome() {
    assert!(matches!(
        decide_after_verify(VerifyOutcome::NotFound),
        Some(LinkOutcome::NoSuchUser)
    ));
    match decide_after_verify(VerifyOutcome::UpstreamUnavailable(String::from("dns failure"))) {
        Some(LinkOutcome::Unavailable(d)) => assert_eq!(d, "dns failure"),
        _ => panic!("an unreachable verifier must end the attempt as unavailable"),
    }
}
