use zero2prod::domain::SubscriberEmail;
use zero2prod::routes::admin::newsletters::get_confirmed_subscribers;

#[test]
fn a_plain_address_is_accepted_unchanged() {
    let email = SubscriberEmail::parse("ursula_le_guin@gmail.com".to_string()).unwrap();
    assert_eq!(email.as_ref(), "ursula_le_guin@gmail.com");
}

#[test]
fn an_address_without_an_at_sign_is_rejected_with_its_text() {
    let error = SubscriberEmail::parse("ursuladomain.com".to_string()).unwrap_err();
    assert_eq!(error, "ursuladomain.com is not a valid subscriber email.");
}

#[test]
fn an_empty_address_is_rejected() {
    let error = SubscriberEmail::parse(String::new()).unwrap_err();
    assert_eq!(error, " is not a valid subscriber email.");
}

#[test]
fn an_address_without_a_subject_is_rejected() {
    assert!(SubscriberEmail::parse("@domain.com".to_string()).is_err());
}

#[test]
fn from_checked_follows_the_answer_it_is_given() {
    let kept = SubscriberEmail::from_checked("a@b.com".to_string(), true).unwrap();
    assert_eq!(kept.as_ref(), "a@b.com");
    let refused = SubscriberEmail::from_checked("nonsense".to_string(), false).unwrap_err();
    assert_eq!(refused, "nonsense is not a valid subscriber email.");
}

#[test]
fn each_row_is_validated_on_its_own() {
    let rows = get_confirmed_subscribers(vec![
        "first@example.com".to_string(),
        "broken".to_string(),
        "second@example.com".to_string(),
    ]);
    assert_eq!(rows.len(), 3);
    assert_eq!(rows[0].as_ref().unwrap().email.as_ref(), "first@example.com");
    let error = rows[1].as_ref().unwrap_err();
    assert_eq!(error.message, "broken is not a valid subscriber email.");
    assert!(error.causes.is_empty());
    assert_eq!(rows[2].as_ref().unwrap().email.as_ref(), "second@example.com");
}

#[test]
fn no_rows_give_no_subscribers() {
    assert!(get_confirmed_subscribers(Vec::new()).is_empty());
}
