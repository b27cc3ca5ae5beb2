//! Whole runs of the two workflows, in the model: what a request comes to when
//! the workflow is driven against a store and a mail transport that answer
//! every call.

use vstd::prelude::*;
use uuid::Uuid;
use crate::domain::subscriber_email::is_valid_email;
use crate::domain::subscriber_email::rejection_message;
use crate::domain::subscriber_email::validated_rows;
use crate::domain::subscriber_email::RowModel;
use crate::domain::subscription_token::is_token;
use crate::routes::admin::newsletters::missing_user;
use crate::routes::admin::newsletters::publish_model;
use crate::routes::admin::newsletters::response_of;
use crate::routes::admin::newsletters::send_context;
use crate::routes::admin::newsletters::turn_to;
use crate::routes::admin::newsletters::IssueModel;
use crate::routes::admin::newsletters::PublishActionModel;
use crate::routes::admin::newsletters::PublishErrorModel;
use crate::routes::admin::newsletters::PublishEventModel;
use crate::routes::admin::newsletters::PublishStateModel;
use crate::routes::subscriptions_confirm::confirm_model;
use crate::routes::subscriptions_confirm::status_of;
use crate::routes::subscriptions_confirm::ConfirmationActionModel;
use crate::routes::subscriptions_confirm::ConfirmationErrorModel;
use crate::routes::subscriptions_confirm::ConfirmationEventModel;
use crate::routes::subscriptions_confirm::ConfirmationState;

verus! {

/// What the store knows that a confirmation reads or writes: which subscriber
/// each token was issued to, and which subscribers are confirmed. Several
/// tokens may name one subscriber.
pub struct StoreModel {
    pub tokens: Map<Seq<char>, Uuid>,
    pub confirmed: Set<Uuid>,
}

/// The store's answer to a token lookup.
pub open spec fn find_token_record(store: StoreModel, token: Seq<char>) -> Option<Uuid> {
    if store.tokens.contains_key(token) {
        Some(store.tokens[token])
    } else {
        None
    }
}

/// The store after the status of `id` was written as confirmed.
pub open spec fn set_confirmed(store: StoreModel, id: Uuid) -> StoreModel {
    StoreModel { tokens: store.tokens, confirmed: store.confirmed.insert(id) }
}

/// A confirmation request for `raw`, driven to its end against `store`: the
/// store afterwards, and the last action of the workflow.
pub open spec fn confirmation_run(store: StoreModel, raw: Seq<char>) -> (
    StoreModel,
    Option<ConfirmationActionModel>,
) {
    let first = confirm_model(
        ConfirmationState::Received,
        ConfirmationEventModel::Requested(raw),
    );
    match first.1 {
        Some(ConfirmationActionModel::FindTokenRecord(token)) => {
            let second = confirm_model(
                first.0,
                ConfirmationEventModel::TokenLookup(Ok(find_token_record(store, token))),
            );
            match second.1 {
                Some(ConfirmationActionModel::SetConfirmed(id)) => (
                    set_confirmed(store, id),
                    confirm_model(second.0, ConfirmationEventModel::StatusWritten(Ok(()))).1,
                ),
                last => (store, last),
            }
        },
        last => (store, last),
    }
}

/// A token of the right format that the store does not know is answered as
/// not found, with status 401, and the store is left as it was.
pub proof fn lemma_unknown_token_is_not_found(store: StoreModel, raw: Seq<char>)
    requires
        is_token(raw),
        !store.tokens.contains_key(raw),
    ensures
        confirmation_run(store, raw) == (
            store,
            Some(ConfirmationActionModel::Respond(Err(ConfirmationErrorModel::TokenNotFound))),
        ),
        status_of(ConfirmationErrorModel::TokenNotFound) == 401,
{
}

/// A string that is no token is refused with status 400 before the store is
/// asked anything.
pub proof fn lemma_malformed_token_is_refused(store: StoreModel, raw: Seq<char>)
    requires
        !is_token(raw),
    ensures
        confirmation_run(store, raw) == (
            store,
            Some(
                ConfirmationActionModel::Respond(Err(ConfirmationErrorModel::InvalidTokenFormat)),
            ),
        ),
        status_of(ConfirmationErrorModel::InvalidTokenFormat) == 400,
{
}

/// Confirming with a known token succeeds and leaves the subscriber
/// confirmed, whatever the status was before; nothing else in the store
/// changes. Confirming with it once more succeeds again and changes nothing.
pub proof fn lemma_confirming_twice(store: StoreModel, raw: Seq<char>)
    requires
        is_token(raw),
        store.tokens.contains_key(raw),
    ensures
        ({
            let once = confirmation_run(store, raw);
            let twice = confirmation_run(once.0, raw);
            &&& once.1 == Some(ConfirmationActionModel::Respond(Ok(())))
            &&& once.0 == set_confirmed(store, store.tokens[raw])
            &&& once.0.confirmed.contains(store.tokens[raw])
            &&& twice.1 == Some(ConfirmationActionModel::Respond(Ok(())))
            &&& twice.0 == once.0
        }),
{
    let id = store.tokens[raw];
    let once = confirmation_run(store, raw);
    assert(once.0 == set_confirmed(store, id));
    assert(once.0.confirmed.insert(id) =~= once.0.confirmed);
}

/// The store is written to for one reason only: the lookup has just found
/// the subscriber that the token belongs to. No other state or report, and so
/// no failure, leads to a write.
pub proof fn lemma_only_a_found_token_is_written(
    state: ConfirmationState,
    event: ConfirmationEventModel,
    id: Uuid,
)
    requires
        confirm_model(state, event).1 == Some(ConfirmationActionModel::SetConfirmed(id)),
    ensures
        state == ConfirmationState::AwaitingLookup,
        event == ConfirmationEventModel::TokenLookup(Ok(Some(id))),
{
}

/// What a working mail transport and log report back for an action; nothing
/// for an action that is not theirs.
pub open spec fn healthy_reply(action: PublishActionModel) -> Option<PublishEventModel> {
    match action {
        PublishActionModel::Send { .. } => Some(PublishEventModel::Sent(Ok(()))),
        PublishActionModel::LogSkipped(_) => Some(PublishEventModel::SkipLogged),
        _ => None,
    }
}

/// The actions that the workflow asks for from `action` on, in order, when
/// every delivery succeeds; at most `fuel` of them are followed up.
pub open spec fn healthy_run(
    state: PublishStateModel,
    action: Option<PublishActionModel>,
    fuel: nat,
) -> Seq<PublishActionModel>
    decreases fuel,
{
    match action {
        None => Seq::empty(),
        Some(action) => match healthy_reply(action) {
            Some(event) if fuel > 0 => {
                let next = publish_model(state, event);
                seq![action] + healthy_run(next.0, next.1, (fuel - 1) as nat)
            },
            _ => seq![action],
        },
    }
}

/// All actions of a publish request by `user` for `form`, when the store
/// answers the load with `loaded` and every delivery succeeds.
pub open spec fn publish_run(
    user: Option<Uuid>,
    form: IssueModel,
    loaded: Result<Seq<Seq<char>>, Seq<Seq<char>>>,
) -> Seq<PublishActionModel> {
    let first = publish_model(
        PublishStateModel::Received,
        PublishEventModel::Requested { user, form },
    );
    if first.1 == Some(PublishActionModel::LoadConfirmed) {
        let second = publish_model(first.0, PublishEventModel::Loaded(loaded));
        let rows: nat = match loaded {
            Ok(addresses) => addresses.len(),
            Err(_) => 0,
        };
        seq![PublishActionModel::LoadConfirmed] + healthy_run(second.0, second.1, rows)
    } else {
        healthy_run(first.0, first.1, 0)
    }
}

/// What is done about one row: a delivery of `issue` to a valid address, a
/// warning for an invalid one.
pub open spec fn action_for(issue: IssueModel, row: RowModel) -> PublishActionModel {
    match row {
        Ok(to) => PublishActionModel::Send {
            to,
            title: issue.title,
            html: issue.html,
            text: issue.text,
        },
        Err(reason) => PublishActionModel::LogSkipped(reason),
    }
}

/// What is done about each of `rows`, in order.
pub open spec fn actions_for(issue: IssueModel, rows: Seq<RowModel>) -> Seq<PublishActionModel> {
    Seq::new(rows.len(), |i: int| action_for(issue, rows[i]))
}

/// What is done about the stored address at `i`: it is delivered to, as it
/// stands, exactly if it is a valid email address, and else it is skipped
/// with a warning that names it.
pub proof fn lemma_row_is_delivered_iff_valid(issue: IssueModel, addresses: Seq<Seq<char>>, i: int)
    requires
        0 <= i < addresses.len(),
    ensures
        is_valid_email(addresses[i]) ==> actions_for(issue, validated_rows(addresses))[i]
            == (PublishActionModel::Send {
            to: addresses[i],
            title: issue.title,
            html: issue.html,
            text: issue.text,
        }),
        !is_valid_email(addresses[i]) ==> actions_for(issue, validated_rows(addresses))[i]
            == PublishActionModel::LogSkipped(seq![rejection_message(addresses[i])]),
{
}

/// From any row on, a run in which every delivery succeeds deals with each
/// remaining row once, in order, and then answers that all went well.
pub proof fn lemma_healthy_run_from(issue: IssueModel, rows: Seq<RowModel>, next: nat, fuel: nat)
    requires
        next <= rows.len(),
        fuel >= rows.len() - next,
    ensures
        healthy_run(turn_to(issue, rows, next).0, turn_to(issue, rows, next).1, fuel)
            == actions_for(issue, rows).skip(next as int) + seq![
            PublishActionModel::Respond(Ok(())),
        ],
    decreases rows.len() - next,
{
    let planned = actions_for(issue, rows);
    let done = seq![PublishActionModel::Respond(Ok(()))];
    let turned = turn_to(issue, rows, next);
    if next >= rows.len() {
        assert(planned.skip(next as int) + done =~= done);
    } else {
        let action = action_for(issue, rows[next as int]);
        assert(turned.1 == Some(action));
        let event = healthy_reply(action)->Some_0;
        assert(publish_model(turned.0, event) == turn_to(issue, rows, next + 1));
        lemma_healthy_run_from(issue, rows, next + 1, (fuel - 1) as nat);
        assert(planned.skip(next as int) =~= seq![action] + planned.skip((next + 1) as int));
        assert(healthy_run(turned.0, turned.1, fuel) =~= planned.skip(next as int) + done);
    }
}

/// A publish request by a logged-in user, against a store that answers and a
/// transport that delivers, loads the confirmed subscribers once, then deals
/// with every row in the store's order (one delivery for each valid address,
/// one warning for each invalid one, which stops nothing) and succeeds.
pub proof fn lemma_publish_reaches_every_valid_row(
    user: Uuid,
    form: IssueModel,
    addresses: Seq<Seq<char>>,
)
    ensures
        publish_run(Some(user), form, Ok(addresses)) == seq![PublishActionModel::LoadConfirmed]
            + actions_for(form, validated_rows(addresses)) + seq![
            PublishActionModel::Respond(Ok(())),
        ],
{
    let rows = validated_rows(addresses);
    lemma_healthy_run_from(form, rows, 0, addresses.len());
    assert(actions_for(form, rows).skip(0) =~= actions_for(form, rows));
    assert(publish_run(Some(user), form, Ok(addresses)) =~= seq![PublishActionModel::LoadConfirmed]
        + actions_for(form, rows) + seq![PublishActionModel::Respond(Ok(()))]);
}

/// With no confirmed subscriber a publish request succeeds and asks for no
/// delivery: the load is followed at once by the response.
pub proof fn lemma_publish_to_nobody(user: Uuid, form: IssueModel)
    ensures
        publish_run(Some(user), form, Ok(Seq::<Seq<char>>::empty())) == seq![
            PublishActionModel::LoadConfirmed,
            PublishActionModel::Respond(Ok(())),
        ],
{
    lemma_publish_reaches_every_valid_row(user, form, Seq::<Seq<char>>::empty());
    assert(actions_for(form, validated_rows(Seq::<Seq<char>>::empty())) =~= Seq::empty());
    assert(publish_run(Some(user), form, Ok(Seq::<Seq<char>>::empty())) =~= seq![
        PublishActionModel::LoadConfirmed,
        PublishActionModel::Respond(Ok(())),
    ]);
}

/// Where the store cannot be read, the request fails with the store's error
/// before any delivery is asked for.
pub proof fn lemma_failed_load_aborts(user: Uuid, form: IssueModel, cause: Seq<Seq<char>>)
    ensures
        publish_run(Some(user), form, Err(cause)) == seq![
            PublishActionModel::LoadConfirmed,
            PublishActionModel::Respond(Err(PublishErrorModel::UnexpectedError(cause))),
        ],
        response_of(PublishErrorModel::UnexpectedError(cause)).status == 500,
{
    assert(publish_run(Some(user), form, Err(cause)) =~= seq![
        PublishActionModel::LoadConfirmed,
        PublishActionModel::Respond(Err(PublishErrorModel::UnexpectedError(cause))),
    ]);
}

/// A delivery that fails ends the request at once: the answer is an
/// unexpected error that names the recipient above the transport's own
/// chain, and the rows that follow are never turned to.
pub proof fn lemma_failed_delivery_aborts(
    issue: IssueModel,
    rows: Seq<RowModel>,
    next: nat,
    cause: Seq<Seq<char>>,
    later: PublishEventModel,
)
    requires
        next < rows.len(),
        rows[next as int] is Ok,
    ensures
        publish_model(
            PublishStateModel::Delivering { issue, rows, next },
            PublishEventModel::Sent(Err(cause)),
        ) == (
            PublishStateModel::Finished,
            Some(
                PublishActionModel::Respond(
                    Err(
                        PublishErrorModel::UnexpectedError(
                            seq![send_context() + rows[next as int]->Ok_0] + cause,
                        ),
                    ),
                ),
            ),
        ),
        publish_model(PublishStateModel::Finished, later).1 == None::<PublishActionModel>,
{
}

/// A publish request that nobody is logged in for is answered as
/// unauthenticated, with status 401, and that is its only action: the store
/// and the mail transport are never asked, and no later event changes that.
pub proof fn lemma_unauthenticated_publish_stops(
    form: IssueModel,
    loaded: Result<Seq<Seq<char>>, Seq<Seq<char>>>,
    later: PublishEventModel,
)
    ensures
        publish_run(None, form, loaded) == seq![
            PublishActionModel::Respond(
                Err(PublishErrorModel::AuthError(seq![missing_user()])),
            ),
        ],
        publish_model(
            PublishStateModel::Received,
            PublishEventModel::Requested { user: None, form },
        ).0 == PublishStateModel::Finished,
        publish_model(PublishStateModel::Finished, later) == (
            PublishStateModel::Finished,
            None::<PublishActionModel>,
        ),
        response_of(PublishErrorModel::AuthError(seq![missing_user()])).status == 401,
{
}

} // verus!
