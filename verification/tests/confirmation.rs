use std::collections::{HashMap, HashSet};
use uuid::Uuid;
use zero2prod::error_chain::ErrorChain;
use zero2prod::routes::subscriptions_confirm::{
    response_status, ConfirmationAction, ConfirmationEvent, ConfirmationState,
};
use zero2prod::routes::{confirm, ConfirmationError, Parameters};

struct Store {
    tokens: HashMap<String, Uuid>,
    confirmed: HashSet<Uuid>,
    writes: usize,
    lookups: usize,
    lookup_fails: bool,
    write_fails: bool,
}

fn store_with(tokens: &[(&str, Uuid)]) -> Store {
    Store {
        tokens: tokens.iter().map(|(t, id)| (t.to_string(), *id)).collect(),
        confirmed: HashSet::new(),
        writes: 0,
        lookups: 0,
        lookup_fails: false,
        write_fails: false,
    }
}

fn run(store: &mut Store, raw: &str) -> Result<(), ConfirmationError> {
    let parameters = Parameters { subscription_token: raw.to_string() };
    let mut step = confirm(ConfirmationState::Received, ConfirmationEvent::Requested(&parameters));
    loop {
        let (state, action) = step;
        let event = match action.expect("the workflow asked for nothing") {
            ConfirmationAction::FindTokenRecord(token) => {
                store.lookups += 1;
                ConfirmationEvent::TokenLookup(if store.lookup_fails {
                    Err(ErrorChain::new("pool timed out"))
                } else {
                    Ok(store.tokens.get(token.as_ref()).copied())
                })
            }
            ConfirmationAction::SetConfirmed(id) => {
                store.writes += 1;
                ConfirmationEvent::StatusWritten(if store.write_fails {
                    Err(ErrorChain::new("pool timed out"))
                } else {
                    store.confirmed.insert(id);
                    Ok(())
                })
            }
            ConfirmationAction::Respond(outcome) => {
                assert_eq!(state, ConfirmationState::Finished);
                return outcome;
            }
        };
        step = confirm(state, event);
    }
}

const TOKEN: &str = "ySGXNWj24BXAj15ybqmzn3n4h";

#[test]
fn an_unknown_token_is_not_found() {
    let mut store = store_with(&[(TOKEN, Uuid::from_u128(7))]);
    let error = run(&mut store, "0000000000000000000000000").unwrap_err();
    assert!(matches!(error, ConfirmationError::TokenNotFound));
    assert_eq!(error.status_code(), 401);
    assert_eq!(error.render(), "Subscription token does not exist in database.");
    assert_eq!(store.lookups, 1);
    assert_eq!(store.writes, 0);
    assert!(store.confirmed.is_empty());
}

#[test]
fn a_malformed_token_never_reaches_the_store() {
    let mut store = store_with(&[(TOKEN, Uuid::from_u128(7))]);
    for raw in ["", "short", "ySGXNWj24BXAj15ybqmzn3n4", "ySGXNWj24BXAj15ybqmzn3n4-"] {
        let error = run(&mut store, raw).unwrap_err();
        assert!(matches!(error, ConfirmationError::InvalidTokenFormat));
        assert_eq!(error.status_code(), 400);
        assert_eq!(error.render(), "Invalid subscription token format.");
    }
    assert_eq!(store.lookups, 0);
    assert_eq!(store.writes, 0);
}

#[test]
fn a_known_token_confirms_its_subscriber() {
    let id = Uuid::from_u128(7);
    let mut store = store_with(&[(TOKEN, id), ("abcdefghijklmnopqrstuvwxy", Uuid::from_u128(8))]);
    assert!(run(&mut store, TOKEN).is_ok());
    assert_eq!(store.writes, 1);
    assert!(store.confirmed.contains(&id));
    assert_eq!(store.confirmed.len(), 1);
}

#[test]
fn confirming_twice_succeeds_twice() {
    let id = Uuid::from_u128(7);
    let mut store = store_with(&[(TOKEN, id)]);
    assert!(run(&mut store, TOKEN).is_ok());
    assert!(run(&mut store, TOKEN).is_ok());
    assert!(store.confirmed.contains(&id));
    assert_eq!(store.confirmed.len(), 1);
    assert_eq!(store.writes, 2);
}

#[test]
fn two_tokens_of_one_subscriber_both_confirm() {
    let id = Uuid::from_u128(7);
    let mut store = store_with(&[(TOKEN, id), ("abcdefghijklmnopqrstuvwxy", id)]);
    assert!(run(&mut store, "abcdefghijklmnopqrstuvwxy").is_ok());
    assert!(run(&mut store, TOKEN).is_ok());
    assert_eq!(store.confirmed.len(), 1);
}

#[test]
fn a_failed_lookup_is_unexpected_and_keeps_its_cause() {
    let mut store = store_with(&[(TOKEN, Uuid::from_u128(7))]);
    store.lookup_fails = true;
    let error = run(&mut store, TOKEN).unwrap_err();
    assert_eq!(error.status_code(), 500);
    assert_eq!(
        error.render(),
        "Failed to query subscription_token from database.\nCaused by:\n\tpool timed out"
    );
    match error {
        ConfirmationError::UnexpectedError(chain) => {
            assert_eq!(chain.message, "Failed to query subscription_token from database.");
            assert_eq!(chain.causes, vec!["pool timed out".to_string()]);
        }
        _ => panic!("expected an unexpected error"),
    }
    assert_eq!(store.writes, 0);
}

#[test]
fn a_failed_write_is_unexpected_and_keeps_its_cause() {
    let mut store = store_with(&[(TOKEN, Uuid::from_u128(7))]);
    store.write_fails = true;
    let error = run(&mut store, TOKEN).unwrap_err();
    assert_eq!(error.status_code(), 500);
    assert_eq!(
        error.render(),
        "Failed to set subscriber status to 'confirmed'.\nCaused by:\n\tpool timed out"
    );
    assert!(store.confirmed.is_empty());
}

#[test]
fn the_first_step_hands_out_the_token_that_was_sent() {
    let parameters = Parameters { subscription_token: TOKEN.to_string() };
    let (state, action) =
        confirm(ConfirmationState::Received, ConfirmationEvent::Requested(&parameters));
    assert_eq!(state, ConfirmationState::AwaitingLookup);
    match action {
        Some(ConfirmationAction::FindTokenRecord(token)) => assert_eq!(token.as_ref(), TOKEN),
        _ => panic!("expected a lookup"),
    }
}

#[test]
fn an_event_that_is_not_awaited_changes_nothing() {
    let parameters = Parameters { subscription_token: TOKEN.to_string() };
    let (state, action) =
        confirm(ConfirmationState::AwaitingLookup, ConfirmationEvent::StatusWritten(Ok(())));
    assert_eq!(state, ConfirmationState::AwaitingLookup);
    assert!(action.is_none());
    let (state, action) =
        confirm(ConfirmationState::AwaitingWrite, ConfirmationEvent::Requested(&parameters));
    assert_eq!(state, ConfirmationState::AwaitingWrite);
    assert!(action.is_none());
    let (state, action) = confirm(
        ConfirmationState::Finished,
        ConfirmationEvent::TokenLookup(Ok(Some(Uuid::from_u128(1)))),
    );
    assert_eq!(state, ConfirmationState::Finished);
    assert!(action.is_none());
    let (state, action) =
        confirm(ConfirmationState::Received, ConfirmationEvent::TokenLookup(Ok(None)));
    assert_eq!(state, ConfirmationState::Received);
    assert!(action.is_none());
}

#[test]
fn each_outcome_has_its_status() {
    assert_eq!(response_status(&Ok(())), 200);
    assert_eq!(response_status(&Err(ConfirmationError::InvalidTokenFormat)), 400);
    assert_eq!(response_status(&Err(ConfirmationError::TokenNotFound)), 401);
    let failure = ConfirmationError::UnexpectedError(ErrorChain::new("pool timed out"));
    assert_eq!(response_status(&Err(failure)), 500);
}
