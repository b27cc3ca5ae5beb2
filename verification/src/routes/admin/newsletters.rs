//! Publishing a newsletter issue to the confirmed subscribers.

use vstd::prelude::*;
use vstd::string::*;
use uuid::Uuid;
use crate::domain::subscriber_email::row_model;
use crate::domain::subscriber_email::row_models;
use crate::domain::subscriber_email::validated;
use crate::domain::subscriber_email::validated_rows;
use crate::domain::subscriber_email::ConfirmedSubscriber;
use crate::domain::subscriber_email::RowModel;
use crate::domain::subscriber_email::SubscriberEmail;
use crate::error_chain::render_chain;
use crate::error_chain::texts_of;
use crate::error_chain::ErrorChain;

verus! {

/// A newsletter issue as the form submits it.
#[derive(Debug)]
pub struct BodyData {
    pub title: String,
    pub text: String,
    pub html: String,
}

/// The model of a [`BodyData`].
pub struct IssueModel {
    pub title: Seq<char>,
    pub text: Seq<char>,
    pub html: Seq<char>,
}

impl View for BodyData {
    type V = IssueModel;

    open spec fn view(&self) -> IssueModel {
        IssueModel { title: self.title@, text: self.text@, html: self.html@ }
    }
}

/// Why an issue was not published.
#[derive(Debug)]
pub enum PublishError {
    /// Nobody is logged in; the chain says what was missing.
    AuthError(ErrorChain),
    /// The store or the mail transport failed; the chain says where and why.
    UnexpectedError(ErrorChain),
}

/// The model of a [`PublishError`].
pub enum PublishErrorModel {
    AuthError(Seq<Seq<char>>),
    UnexpectedError(Seq<Seq<char>>),
}

impl View for PublishError {
    type V = PublishErrorModel;

    open spec fn view(&self) -> PublishErrorModel {
        match self {
            PublishError::AuthError(chain) => PublishErrorModel::AuthError(chain@),
            PublishError::UnexpectedError(chain) => PublishErrorModel::UnexpectedError(chain@),
        }
    }
}

/// The response that answers a failed publish request.
#[derive(Debug)]
pub struct ErrorResponse {
    /// The HTTP status.
    pub status: u16,
    /// The value of the `WWW-Authenticate` header, where there is one.
    pub www_authenticate: Option<String>,
}

/// The model of an [`ErrorResponse`].
pub struct ErrorResponseModel {
    pub status: u16,
    pub www_authenticate: Option<Seq<char>>,
}

impl View for ErrorResponse {
    type V = ErrorResponseModel;

    open spec fn view(&self) -> ErrorResponseModel {
        ErrorResponseModel {
            status: self.status,
            www_authenticate: match self.www_authenticate {
                Some(value) => Some(value@),
                None => None,
            },
        }
    }
}

/// The challenge that asks the client for credentials.
pub open spec fn publish_challenge() -> Seq<char> {
    "Basic realm=\"publish\""@
}

/// The response that goes with an error: 401 with the challenge where nobody
/// is authenticated, a bare 500 for everything else.
pub open spec fn response_of(error: PublishErrorModel) -> ErrorResponseModel {
    match error {
        PublishErrorModel::AuthError(_) => ErrorResponseModel {
            status: 401,
            www_authenticate: Some(publish_challenge()),
        },
        PublishErrorModel::UnexpectedError(_) => ErrorResponseModel {
            status: 500,
            www_authenticate: None,
        },
    }
}

/// The chain of messages of an error, its own message first.
pub open spec fn publish_chain_of(error: PublishErrorModel) -> Seq<Seq<char>> {
    match error {
        PublishErrorModel::AuthError(cause) => seq!["Authentication failed."@] + cause,
        PublishErrorModel::UnexpectedError(chain) => chain,
    }
}

impl PublishError {
    /// The response that the error is answered with.
    pub fn error_response(&self) -> (response: ErrorResponse)
        ensures
            response@ == response_of(self@),
    {
        match self {
            PublishError::AuthError(_) => ErrorResponse {
                status: 401,
                www_authenticate: Some(String::from_str("Basic realm=\"publish\"")),
            },
            PublishError::UnexpectedError(_) => ErrorResponse {
                status: 500,
                www_authenticate: None,
            },
        }
    }

    /// The error as a chain: its message, then whatever caused it.
    pub fn chain(&self) -> (chain: ErrorChain)
        ensures
            chain@ == publish_chain_of(self@),
    {
        match self {
            PublishError::AuthError(cause) => cause.duplicate().context("Authentication failed."),
            PublishError::UnexpectedError(chain) => chain.duplicate(),
        }
    }

    /// The error with all its causes as text, for diagnostics.
    pub fn render(&self) -> (text: String)
        ensures
            text@ == render_chain(publish_chain_of(self@)),
    {
        self.chain().render()
    }
}

/// The HTTP status that answers an outcome: 200 for success, else the status
/// of the error's response.
pub open spec fn publish_status(outcome: Result<(), PublishErrorModel>) -> u16 {
    match outcome {
        Ok(_) => 200,
        Err(error) => response_of(error).status,
    }
}

/// The model of an outcome.
pub open spec fn publish_outcome_model(outcome: Result<(), PublishError>) -> Result<
    (),
    PublishErrorModel,
> {
    match outcome {
        Ok(_) => Ok(()),
        Err(error) => Err(error@),
    }
}

/// The HTTP status that answers `outcome`; a success has an empty body.
pub fn response_status(outcome: &Result<(), PublishError>) -> (code: u16)
    ensures
        code == publish_status(publish_outcome_model(*outcome)),
{
    match outcome {
        Ok(_) => 200,
        Err(PublishError::AuthError(_)) => 401,
        Err(PublishError::UnexpectedError(_)) => 500,
    }
}

/// Validates every stored address on its own: a row that fails becomes an
/// error in its place and takes nothing from the rows around it.
pub fn get_confirmed_subscribers(addresses: Vec<String>) -> (rows: Vec<
    Result<ConfirmedSubscriber, ErrorChain>,
>)
    ensures
        row_models(rows@) == validated_rows(texts_of(addresses@)),
{
    let mut rows: Vec<Result<ConfirmedSubscriber, ErrorChain>> = Vec::new();
    let mut i: usize = 0;
    while i < addresses.len()
        invariant
            i <= addresses.len(),
            rows@.len() == i,
            forall|j: int| 0 <= j < i ==> row_model(#[trigger] rows@[j]) == validated(addresses@[j]@),
        decreases addresses.len() - i,
    {
        let row = match SubscriberEmail::parse(addresses[i].clone()) {
            Ok(email) => Ok(ConfirmedSubscriber { email }),
            Err(message) => {
                let chain = ErrorChain::new(message.as_str());
                Err(chain)
            },
        };
        rows.push(row);
        i += 1;
    }
    assert(row_models(rows@) =~= validated_rows(texts_of(addresses@)));
    rows
}

/// Where a publish request stands.
#[derive(Debug)]
pub enum PublishState {
    /// Nothing has been looked at yet.
    Received,
    /// The store was asked for the confirmed subscribers.
    Loading(BodyData),
    /// The row at `next` is being dealt with: a delivery for a valid row, a
    /// warning for an invalid one. The rows before it are done.
    Delivering { issue: BodyData, rows: Vec<Result<ConfirmedSubscriber, ErrorChain>>, next: usize },
    /// The response has been decided.
    Finished,
}

/// The model of a [`PublishState`].
pub enum PublishStateModel {
    Received,
    Loading(IssueModel),
    Delivering { issue: IssueModel, rows: Seq<RowModel>, next: nat },
    Finished,
}

impl View for PublishState {
    type V = PublishStateModel;

    open spec fn view(&self) -> PublishStateModel {
        match self {
            PublishState::Received => PublishStateModel::Received,
            PublishState::Loading(issue) => PublishStateModel::Loading(issue@),
            PublishState::Delivering { issue, rows, next } => PublishStateModel::Delivering {
                issue: issue@,
                rows: row_models(rows@),
                next: *next as nat,
            },
            PublishState::Finished => PublishStateModel::Finished,
        }
    }
}

/// What the caller reports to the workflow.
#[derive(Debug)]
pub enum PublishEvent {
    /// The request has come in, from `user` if anybody is logged in.
    Requested { user: Option<Uuid>, form: BodyData },
    /// The store has answered with the addresses of the confirmed subscribers.
    Loaded(Result<Vec<String>, ErrorChain>),
    /// The mail transport has answered the delivery that was asked for.
    Sent(Result<(), ErrorChain>),
    /// The warning that was asked for has been logged.
    SkipLogged,
}

/// The model of a [`PublishEvent`].
pub enum PublishEventModel {
    Requested { user: Option<Uuid>, form: IssueModel },
    Loaded(Result<Seq<Seq<char>>, Seq<Seq<char>>>),
    Sent(Result<(), Seq<Seq<char>>>),
    SkipLogged,
}

impl View for PublishEvent {
    type V = PublishEventModel;

    open spec fn view(&self) -> PublishEventModel {
        match self {
            PublishEvent::Requested { user, form } => PublishEventModel::Requested {
                user: *user,
                form: form@,
            },
            PublishEvent::Loaded(Ok(addresses)) => PublishEventModel::Loaded(
                Ok(texts_of(addresses@)),
            ),
            PublishEvent::Loaded(Err(chain)) => PublishEventModel::Loaded(Err(chain@)),
            PublishEvent::Sent(Ok(_)) => PublishEventModel::Sent(Ok(())),
            PublishEvent::Sent(Err(chain)) => PublishEventModel::Sent(Err(chain@)),
            PublishEvent::SkipLogged => PublishEventModel::SkipLogged,
        }
    }
}

/// What the workflow asks the caller to do next.
#[derive(Debug)]
pub enum PublishAction {
    /// Load the addresses of all confirmed subscribers.
    LoadConfirmed,
    /// Send the issue to one subscriber.
    Send { to: String, title: String, html: String, text: String },
    /// Log a warning: a confirmed subscriber is skipped for the given reason.
    LogSkipped(ErrorChain),
    /// Answer the request.
    Respond(Result<(), PublishError>),
}

/// The model of a [`PublishAction`].
pub enum PublishActionModel {
    LoadConfirmed,
    Send { to: Seq<char>, title: Seq<char>, html: Seq<char>, text: Seq<char> },
    LogSkipped(Seq<Seq<char>>),
    Respond(Result<(), PublishErrorModel>),
}

impl View for PublishAction {
    type V = PublishActionModel;

    open spec fn view(&self) -> PublishActionModel {
        match self {
            PublishAction::LoadConfirmed => PublishActionModel::LoadConfirmed,
            PublishAction::Send { to, title, html, text } => PublishActionModel::Send {
                to: to@,
                title: title@,
                html: html@,
                text: text@,
            },
            PublishAction::LogSkipped(chain) => PublishActionModel::LogSkipped(chain@),
            PublishAction::Respond(Ok(_)) => PublishActionModel::Respond(Ok(())),
            PublishAction::Respond(Err(error)) => PublishActionModel::Respond(Err(error@)),
        }
    }
}

/// The model of an action that may be absent.
pub open spec fn publish_action_model(action: Option<PublishAction>) -> Option<
    PublishActionModel,
> {
    match action {
        Some(action) => Some(action@),
        None => None,
    }
}

/// What is said of a request that nobody is logged in for.
pub open spec fn missing_user() -> Seq<char> {
    "The user has not logged in."@
}

/// What is said above a failed delivery, before the recipient's address.
pub open spec fn send_context() -> Seq<char> {
    "Failed to send newsletter issue to "@
}

/// What to do about the row at `next`, and the state to do it in: a delivery
/// for a valid row, a warning for an invalid one, and past the last row the
/// response that all went well.
pub open spec fn turn_to(issue: IssueModel, rows: Seq<RowModel>, next: nat) -> (
    PublishStateModel,
    Option<PublishActionModel>,
) {
    if next >= rows.len() {
        (PublishStateModel::Finished, Some(PublishActionModel::Respond(Ok(()))))
    } else {
        (
            PublishStateModel::Delivering { issue, rows, next },
            Some(
                match rows[next as int] {
                    Ok(to) => PublishActionModel::Send {
                        to,
                        title: issue.title,
                        html: issue.html,
                        text: issue.text,
                    },
                    Err(reason) => PublishActionModel::LogSkipped(reason),
                },
            ),
        )
    }
}

/// The step of the publish workflow: the state that follows `state` on
/// `event`, and the action to take. An event that `state` does not wait for
/// changes nothing and asks for nothing.
pub open spec fn publish_model(state: PublishStateModel, event: PublishEventModel) -> (
    PublishStateModel,
    Option<PublishActionModel>,
) {
    match (state, event) {
        (PublishStateModel::Received, PublishEventModel::Requested { user: None, form }) => (
            PublishStateModel::Finished,
            Some(
                PublishActionModel::Respond(
                    Err(PublishErrorModel::AuthError(seq![missing_user()])),
                ),
            ),
        ),
        (PublishStateModel::Received, PublishEventModel::Requested { user: Some(_), form }) => (
            PublishStateModel::Loading(form),
            Some(PublishActionModel::LoadConfirmed),
        ),
        (PublishStateModel::Loading(issue), PublishEventModel::Loaded(Err(cause))) => (
            PublishStateModel::Finished,
            Some(PublishActionModel::Respond(Err(PublishErrorModel::UnexpectedError(cause)))),
        ),
        (PublishStateModel::Loading(issue), PublishEventModel::Loaded(Ok(addresses))) => turn_to(
            issue,
            validated_rows(addresses),
            0,
        ),
        (
            PublishStateModel::Delivering { issue, rows, next },
            PublishEventModel::Sent(outcome),
        ) => if next < rows.len() && rows[next as int] is Ok {
            match outcome {
                Ok(_) => turn_to(issue, rows, next + 1),
                Err(cause) => (
                    PublishStateModel::Finished,
                    Some(
                        PublishActionModel::Respond(
                            Err(
                                PublishErrorModel::UnexpectedError(
                                    seq![send_context() + rows[next as int]->Ok_0] + cause,
                                ),
                            ),
                        ),
                    ),
                ),
            }
        } else {
            (state, None)
        },
        (PublishStateModel::Delivering { issue, rows, next }, PublishEventModel::SkipLogged) => if next
            < rows.len() && rows[next as int] is Err {
            turn_to(issue, rows, next + 1)
        } else {
            (state, None)
        },
        _ => (state, None),
    }
}

/// Turns to the row at `next`: the exec side of [`turn_to`].
fn turn(issue: BodyData, rows: Vec<Result<ConfirmedSubscriber, ErrorChain>>, next: usize) -> (out: (
    PublishState,
    Option<PublishAction>,
))
    ensures
        out.0@ == turn_to(issue@, row_models(rows@), next as nat).0,
        publish_action_model(out.1) == turn_to(issue@, row_models(rows@), next as nat).1,
{
    if next >= rows.len() {
        return (PublishState::Finished, Some(PublishAction::Respond(Ok(()))));
    }
    let action = match &rows[next] {
        Ok(subscriber) => PublishAction::Send {
            to: String::from_str(subscriber.email.as_ref()),
            title: issue.title.clone(),
            html: issue.html.clone(),
            text: issue.text.clone(),
        },
        Err(reason) => PublishAction::LogSkipped(reason.duplicate()),
    };
    (PublishState::Delivering { issue, rows, next }, Some(action))
}

/// Advances a publish request by one event.
///
/// The caller starts in `Received` with `Requested`, performs each action it
/// is handed and reports the outcome, until the action is `Respond`. The
/// subscribers are dealt with one at a time, in the order of the store's answer.
pub fn publish_newsletter(state: PublishState, event: PublishEvent) -> (out: (
    PublishState,
    Option<PublishAction>,
))
    ensures
        out.0@ == publish_model(state@, event@).0,
        publish_action_model(out.1) == publish_model(state@, event@).1,
{
    match (state, event) {
        (PublishState::Received, PublishEvent::Requested { user: None, form }) => {
            let cause = ErrorChain::new("The user has not logged in.");
            (
                PublishState::Finished,
                Some(PublishAction::Respond(Err(PublishError::AuthError(cause)))),
            )
        },
        (PublishState::Received, PublishEvent::Requested { user: Some(_), form }) => (
            PublishState::Loading(form),
            Some(PublishAction::LoadConfirmed),
        ),
        (PublishState::Loading(issue), PublishEvent::Loaded(Err(cause))) => (
            PublishState::Finished,
            Some(PublishAction::Respond(Err(PublishError::UnexpectedError(cause)))),
        ),
        (PublishState::Loading(issue), PublishEvent::Loaded(Ok(addresses))) => {
            let rows = get_confirmed_subscribers(addresses);
            turn(issue, rows, 0)
        },
        (PublishState::Delivering { issue, rows, next }, PublishEvent::Sent(outcome)) => {
            if next < rows.len() {
                if let Ok(subscriber) = &rows[next] {
                    match outcome {
                        Ok(_) => turn(issue, rows, next + 1),
                        Err(cause) => {
                            let context = String::from_str("Failed to send newsletter issue to ")
                                .concat(subscriber.email.as_ref());
                            let chain = cause.context(context.as_str());
                            (
                                PublishState::Finished,
                                Some(
                                    PublishAction::Respond(
                                        Err(PublishError::UnexpectedError(chain)),
                                    ),
                                ),
                            )
                        },
                    }
                } else {
                    (PublishState::Delivering { issue, rows, next }, None)
                }
            } else {
                (PublishState::Delivering { issue, rows, next }, None)
            }
        },
        (PublishState::Delivering { issue, rows, next }, PublishEvent::SkipLogged) => {
            if next < rows.len() {
                if let Err(_) = &rows[next] {
                    turn(issue, rows, next + 1)
                } else {
                    (PublishState::Delivering { issue, rows, next }, None)
                }
            } else {
                (PublishState::Delivering { issue, rows, next }, None)
            }
        },
        (state, _) => (state, None),
    }
}

} // verus!
