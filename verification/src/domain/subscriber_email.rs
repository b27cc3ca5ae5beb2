//! Email addresses that delivery may use.

use vstd::prelude::*;
use vstd::string::*;
use crate::error_chain::ErrorChain;

verus! {

/// Whether `validator` accepts `address` as an email address.
pub uninterp spec fn is_valid_email(address: Seq<char>) -> bool;

/// `validator::ValidateEmail::validate_email` on a string slice: the HTML5
/// rules for an email address, which depend on the characters of the string
/// alone. The contract claims no more than that the answer is the one that
/// `is_valid_email` names.
#[verifier::external_body]
fn validate_email(address: &str) -> (ok: bool)
    ensures
        ok == is_valid_email(address@),
{
    validator::ValidateEmail::validate_email(&address)
}

/// What is said of a stored address that is not an email address.
pub open spec fn rejection_suffix() -> Seq<char> {
    " is not a valid subscriber email."@
}

/// The message that rejects `address`.
pub open spec fn rejection_message(address: Seq<char>) -> Seq<char> {
    address + rejection_suffix()
}

/// The email address of a subscriber, as validation let it through.
#[derive(Debug)]
pub struct SubscriberEmail(String);

impl View for SubscriberEmail {
    type V = Seq<char>;

    closed spec fn view(&self) -> Seq<char> {
        self.0@
    }
}

impl SubscriberEmail {
    /// Makes the value for an address whose validation answered `valid`, or
    /// the message that rejects it. The answer is taken on trust: `parse` is
    /// the way in for an address that nobody has looked at yet.
    pub fn from_checked(address: String, valid: bool) -> (r: Result<SubscriberEmail, String>)
        ensures
            match r {
                Ok(email) => valid && email@ == address@,
                Err(message) => !valid && message@ == rejection_message(address@),
            },
    {
        if valid {
            Ok(SubscriberEmail(address))
        } else {
            Err(address.concat(" is not a valid subscriber email."))
        }
    }

    /// Validates `address`; a rejected one comes back inside the message.
    pub fn parse(address: String) -> (r: Result<SubscriberEmail, String>)
        ensures
            match r {
                Ok(email) => is_valid_email(address@) && email@ == address@,
                Err(message) => !is_valid_email(address@) && message@ == rejection_message(
                    address@,
                ),
            },
    {
        let valid = validate_email(address.as_str());
        SubscriberEmail::from_checked(address, valid)
    }

    /// The address, unchanged.
    pub fn as_ref(&self) -> (s: &str)
        ensures
            s@ == self@,
    {
        self.0.as_str()
    }
}

/// A confirmed subscriber as delivery sees one: a validated address.
#[derive(Debug)]
pub struct ConfirmedSubscriber {
    pub email: SubscriberEmail,
}

/// What a stored row is worth in the model: its address, or the chain of the
/// error that rejected it.
pub type RowModel = Result<Seq<char>, Seq<Seq<char>>>;

/// The model of a validated row.
pub open spec fn row_model(row: Result<ConfirmedSubscriber, ErrorChain>) -> RowModel {
    match row {
        Ok(subscriber) => Ok(subscriber.email@),
        Err(error) => Err(error@),
    }
}

/// What validation makes of the stored address `address`.
pub open spec fn validated(address: Seq<char>) -> RowModel {
    if is_valid_email(address) {
        Ok(address)
    } else {
        Err(seq![rejection_message(address)])
    }
}

/// What validation makes of each of `addresses`, in order.
pub open spec fn validated_rows(addresses: Seq<Seq<char>>) -> Seq<RowModel> {
    Seq::new(addresses.len(), |i: int| validated(addresses[i]))
}

/// The models of `rows`, in order.
pub open spec fn row_models(rows: Seq<Result<ConfirmedSubscriber, ErrorChain>>) -> Seq<RowModel> {
    Seq::new(rows.len(), |i: int| row_model(rows[i]))
}

} // verus!
