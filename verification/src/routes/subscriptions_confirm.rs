//! Confirming a subscription with the token that was mailed out.

use vstd::prelude::*;
use vstd::string::*;
use uuid::Uuid;
use crate::domain::subscription_token::is_token;
use crate::domain::subscription_token::SubscriptionToken;
use crate::error_chain::render_chain;
use crate::error_chain::ErrorChain;

verus! {

/// The query parameters of a confirmation request.
#[derive(Debug)]
pub struct Parameters {
    pub subscription_token: String,
}

/// Why a confirmation did not go through.
#[derive(Debug)]
pub enum ConfirmationError {
    /// The token does not have the token format.
    InvalidTokenFormat,
    /// No subscriber is known under the token.
    TokenNotFound,
    /// The store failed; the chain says where and why.
    UnexpectedError(ErrorChain),
}

/// The model of a [`ConfirmationError`].
pub enum ConfirmationErrorModel {
    InvalidTokenFormat,
    TokenNotFound,
    UnexpectedError(Seq<Seq<char>>),
}

impl View for ConfirmationError {
    type V = ConfirmationErrorModel;

    open spec fn view(&self) -> ConfirmationErrorModel {
        match self {
            ConfirmationError::InvalidTokenFormat => ConfirmationErrorModel::InvalidTokenFormat,
            ConfirmationError::TokenNotFound => ConfirmationErrorModel::TokenNotFound,
            ConfirmationError::UnexpectedError(chain) => ConfirmationErrorModel::UnexpectedError(
                chain@,
            ),
        }
    }
}

/// The HTTP status that goes with an error.
pub open spec fn status_of(error: ConfirmationErrorModel) -> u16 {
    match error {
        ConfirmationErrorModel::InvalidTokenFormat => 400,
        ConfirmationErrorModel::TokenNotFound => 401,
        ConfirmationErrorModel::UnexpectedError(_) => 500,
    }
}

/// The HTTP status that answers an outcome: 200 for success, else the status
/// of the error.
pub open spec fn outcome_status(outcome: Result<(), ConfirmationErrorModel>) -> u16 {
    match outcome {
        Ok(_) => 200,
        Err(error) => status_of(error),
    }
}

/// The model of an outcome.
pub open spec fn outcome_model(outcome: Result<(), ConfirmationError>) -> Result<
    (),
    ConfirmationErrorModel,
> {
    match outcome {
        Ok(_) => Ok(()),
        Err(error) => Err(error@),
    }
}

/// The HTTP status that answers `outcome`; a success has an empty body.
pub fn response_status(outcome: &Result<(), ConfirmationError>) -> (code: u16)
    ensures
        code == outcome_status(outcome_model(*outcome)),
{
    match outcome {
        Ok(_) => 200,
        Err(error) => error.status_code(),
    }
}

/// The chain of messages of an error, its own message first.
pub open spec fn chain_of(error: ConfirmationErrorModel) -> Seq<Seq<char>> {
    match error {
        ConfirmationErrorModel::InvalidTokenFormat => seq!["Invalid subscription token format."@],
        ConfirmationErrorModel::TokenNotFound => seq![
            "Subscription token does not exist in database."@,
        ],
        ConfirmationErrorModel::UnexpectedError(chain) => chain,
    }
}

impl ConfirmationError {
    /// The HTTP status that the error is answered with: 400 for a malformed
    /// token, 401 for an unknown one, 500 for a failure of the store.
    pub fn status_code(&self) -> (code: u16)
        ensures
            code == status_of(self@),
    {
        match self {
            ConfirmationError::InvalidTokenFormat => 400,
            ConfirmationError::TokenNotFound => 401,
            ConfirmationError::UnexpectedError(_) => 500,
        }
    }

    /// The error as a chain: its message, then whatever caused it.
    pub fn chain(&self) -> (chain: ErrorChain)
        ensures
            chain@ == chain_of(self@),
    {
        match self {
            ConfirmationError::InvalidTokenFormat => ErrorChain::new(
                "Invalid subscription token format.",
            ),
            ConfirmationError::TokenNotFound => ErrorChain::new(
                "Subscription token does not exist in database.",
            ),
            ConfirmationError::UnexpectedError(chain) => chain.duplicate(),
        }
    }

    /// The error with all its causes as text, for diagnostics.
    pub fn render(&self) -> (text: String)
        ensures
            text@ == render_chain(chain_of(self@)),
    {
        self.chain().render()
    }
}

/// Where a confirmation stands.
#[derive(Debug, Clone, Copy, PartialEq, Eq, Structural)]
pub enum ConfirmationState {
    /// Nothing has been looked at yet.
    Received,
    /// The store was asked whose token this is.
    AwaitingLookup,
    /// The store was asked to mark the subscriber as confirmed.
    AwaitingWrite,
    /// The response has been decided.
    Finished,
}

/// What the caller reports to the workflow.
#[derive(Debug)]
pub enum ConfirmationEvent<'a> {
    /// The request has come in.
    Requested(&'a Parameters),
    /// The store has answered the token lookup.
    TokenLookup(Result<Option<Uuid>, ErrorChain>),
    /// The store has answered the status write.
    StatusWritten(Result<(), ErrorChain>),
}

/// The model of a [`ConfirmationEvent`].
pub enum ConfirmationEventModel {
    Requested(Seq<char>),
    TokenLookup(Result<Option<Uuid>, Seq<Seq<char>>>),
    StatusWritten(Result<(), Seq<Seq<char>>>),
}

impl<'a> View for ConfirmationEvent<'a> {
    type V = ConfirmationEventModel;

    open spec fn view(&self) -> ConfirmationEventModel {
        match self {
            ConfirmationEvent::Requested(parameters) => ConfirmationEventModel::Requested(
                parameters.subscription_token@,
            ),
            ConfirmationEvent::TokenLookup(Ok(found)) => ConfirmationEventModel::TokenLookup(
                Ok(*found),
            ),
            ConfirmationEvent::TokenLookup(Err(chain)) => ConfirmationEventModel::TokenLookup(
                Err(chain@),
            ),
            ConfirmationEvent::StatusWritten(Ok(_)) => ConfirmationEventModel::StatusWritten(
                Ok(()),
            ),
            ConfirmationEvent::StatusWritten(Err(chain)) => ConfirmationEventModel::StatusWritten(
                Err(chain@),
            ),
        }
    }
}

/// What the workflow asks the caller to do next.
#[derive(Debug)]
pub enum ConfirmationAction<'a> {
    /// Look up the subscriber that the token was issued to.
    FindTokenRecord(SubscriptionToken<'a>),
    /// Set the subscriber's status to confirmed, whatever it was.
    SetConfirmed(Uuid),
    /// Answer the request.
    Respond(Result<(), ConfirmationError>),
}

/// The model of a [`ConfirmationAction`].
pub enum ConfirmationActionModel {
    FindTokenRecord(Seq<char>),
    SetConfirmed(Uuid),
    Respond(Result<(), ConfirmationErrorModel>),
}

impl<'a> View for ConfirmationAction<'a> {
    type V = ConfirmationActionModel;

    open spec fn view(&self) -> ConfirmationActionModel {
        match self {
            ConfirmationAction::FindTokenRecord(token) => ConfirmationActionModel::FindTokenRecord(
                token@,
            ),
            ConfirmationAction::SetConfirmed(id) => ConfirmationActionModel::SetConfirmed(*id),
            ConfirmationAction::Respond(Ok(_)) => ConfirmationActionModel::Respond(Ok(())),
            ConfirmationAction::Respond(Err(error)) => ConfirmationActionModel::Respond(
                Err(error@),
            ),
        }
    }
}

/// The model of an action that may be absent.
pub open spec fn action_model(action: Option<ConfirmationAction>) -> Option<
    ConfirmationActionModel,
> {
    match action {
        Some(action) => Some(action@),
        None => None,
    }
}

/// What is said above a failure of the token lookup.
pub open spec fn lookup_context() -> Seq<char> {
    "Failed to query subscription_token from database."@
}

/// What is said above a failure of the status write.
pub open spec fn write_context() -> Seq<char> {
    "Failed to set subscriber status to 'confirmed'."@
}

/// The step of the confirmation workflow: the state that follows `state` on
/// `event`, and the action to take. An event that `state` does not wait for
/// changes nothing and asks for nothing.
pub open spec fn confirm_model(state: ConfirmationState, event: ConfirmationEventModel) -> (
    ConfirmationState,
    Option<ConfirmationActionModel>,
) {
    match (state, event) {
        (ConfirmationState::Received, ConfirmationEventModel::Requested(raw)) => if is_token(raw) {
            (
                ConfirmationState::AwaitingLookup,
                Some(ConfirmationActionModel::FindTokenRecord(raw)),
            )
        } else {
            (
                ConfirmationState::Finished,
                Some(
                    ConfirmationActionModel::Respond(
                        Err(ConfirmationErrorModel::InvalidTokenFormat),
                    ),
                ),
            )
        },
        (
            ConfirmationState::AwaitingLookup,
            ConfirmationEventModel::TokenLookup(Ok(Some(id))),
        ) => (ConfirmationState::AwaitingWrite, Some(ConfirmationActionModel::SetConfirmed(id))),
        (ConfirmationState::AwaitingLookup, ConfirmationEventModel::TokenLookup(Ok(None))) => (
            ConfirmationState::Finished,
            Some(ConfirmationActionModel::Respond(Err(ConfirmationErrorModel::TokenNotFound))),
        ),
        (ConfirmationState::AwaitingLookup, ConfirmationEventModel::TokenLookup(Err(cause))) => (
            ConfirmationState::Finished,
            Some(
                ConfirmationActionModel::Respond(
                    Err(ConfirmationErrorModel::UnexpectedError(seq![lookup_context()] + cause)),
                ),
            ),
        ),
        (ConfirmationState::AwaitingWrite, ConfirmationEventModel::StatusWritten(Ok(_))) => (
            ConfirmationState::Finished,
            Some(ConfirmationActionModel::Respond(Ok(()))),
        ),
        (ConfirmationState::AwaitingWrite, ConfirmationEventModel::StatusWritten(Err(cause))) => (
            ConfirmationState::Finished,
            Some(
                ConfirmationActionModel::Respond(
                    Err(ConfirmationErrorModel::UnexpectedError(seq![write_context()] + cause)),
                ),
            ),
        ),
        _ => (state, None),
    }
}

/// Advances a confirmation by one event.
///
/// The caller starts in `Received` with `Requested`, performs each action it
/// is handed and reports the outcome, until the action is `Respond`.
pub fn confirm<'a>(state: ConfirmationState, event: ConfirmationEvent<'a>) -> (out: (
    ConfirmationState,
    Option<ConfirmationAction<'a>>,
))
    ensures
        out.0 == confirm_model(state, event@).0,
        action_model(out.1) == confirm_model(state, event@).1,
{
    match (state, event) {
        (ConfirmationState::Received, ConfirmationEvent::Requested(parameters)) => {
            match SubscriptionToken::parse(parameters.subscription_token.as_str()) {
                Ok(token) => (
                    ConfirmationState::AwaitingLookup,
                    Some(ConfirmationAction::FindTokenRecord(token)),
                ),
                Err(_) => (
                    ConfirmationState::Finished,
                    Some(ConfirmationAction::Respond(Err(ConfirmationError::InvalidTokenFormat))),
                ),
            }
        },
        (ConfirmationState::AwaitingLookup, ConfirmationEvent::TokenLookup(Ok(Some(id)))) => (
            ConfirmationState::AwaitingWrite,
            Some(ConfirmationAction::SetConfirmed(id)),
        ),
        (ConfirmationState::AwaitingLookup, ConfirmationEvent::TokenLookup(Ok(None))) => (
            ConfirmationState::Finished,
            Some(ConfirmationAction::Respond(Err(ConfirmationError::TokenNotFound))),
        ),
        (ConfirmationState::AwaitingLookup, ConfirmationEvent::TokenLookup(Err(cause))) => {
            let chain = cause.context("Failed to query subscription_token from database.");
            (
                ConfirmationState::Finished,
                Some(ConfirmationAction::Respond(Err(ConfirmationError::UnexpectedError(chain)))),
            )
        },
        (ConfirmationState::AwaitingWrite, ConfirmationEvent::StatusWritten(Ok(_))) => (
            ConfirmationState::Finished,
            Some(ConfirmationAction::Respond(Ok(()))),
        ),
        (ConfirmationState::AwaitingWrite, ConfirmationEvent::StatusWritten(Err(cause))) => {
            let chain = cause.context("Failed to set subscriber status to 'confirmed'.");
            (
                ConfirmationState::Finished,
                Some(ConfirmationAction::Respond(Err(ConfirmationError::UnexpectedError(chain)))),
            )
        },
        (state, _) => (state, None),
    }
}

} // verus!
