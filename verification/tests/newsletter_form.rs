use uuid::Uuid;
use zero2prod::error_chain::ErrorChain;
use zero2prod::routes::admin::newsletter_form::FormResponse;
use zero2prod::routes::send_newsletter_form;

const OPENING: &str = "<!DOCTYPE html>
            <html lang=\"en\">
                <head>
                    <meta http-equiv=\"content-type\" content=\"text/html; charset=utf-8\">
                    <title>Send newsletter</title>
                </head>
                <body>
                    ";

const CLOSING: &str = "
                    <form action=\"/admin/newsletters\" method=\"post\">
                        <label>Title
                            <input
                            placeholder=\"Enter title\"
                            name=\"title\"
                            >
                        </label>
                        <br>
                        <label>HTML content
                            <textarea
                                placeholder=\"Enter content as HTML\"
                                name=\"html\"
                            >
                        </label>
                        <label>Plaintext content
                            <textarea
                                placeholder=\"Enter content as plaintext\"
                                name=\"text\"
                            >
                        </label>
                        <br>
                        <button type=\"submit\">Submit newsletter</button>
                    </form>
                    <p><a href=\"/admin/dashboard\">&lt;- Back</a></p>
                </body>
            </html>";

#[test]
fn without_a_user_the_form_sends_to_the_login_page() {
    match send_newsletter_form(Ok(None), vec!["ignored".to_string()]) {
        FormResponse::Redirect(location) => assert_eq!(location, "/login"),
        _ => panic!("expected a redirect"),
    }
    assert_eq!(send_newsletter_form(Ok(None), Vec::new()).status_code(), 302);
}

#[test]
fn a_session_that_cannot_be_read_is_an_internal_error() {
    match send_newsletter_form(Err(ErrorChain::new("cookie store down")), Vec::new()) {
        FormResponse::InternalError(chain) => assert_eq!(chain.render(), "cookie store down"),
        _ => panic!("expected an internal error"),
    }
    let failed = send_newsletter_form(Err(ErrorChain::new("cookie store down")), Vec::new());
    assert_eq!(failed.status_code(), 500);
    let page = send_newsletter_form(Ok(Some(Uuid::from_u128(1))), Vec::new());
    assert_eq!(page.status_code(), 200);
}

#[test]
fn the_form_without_flash_messages() {
    match send_newsletter_form(Ok(Some(Uuid::from_u128(1))), Vec::new()) {
        FormResponse::Page(html) => assert_eq!(html, format!("{}{}", OPENING, CLOSING)),
        _ => panic!("expected the page"),
    }
}

#[test]
fn flash_messages_stand_above_the_form_in_order() {
    let messages = vec!["The issue has been published!".to_string(), "second".to_string()];
    match send_newsletter_form(Ok(Some(Uuid::from_u128(1))), messages) {
        FormResponse::Page(html) => assert_eq!(
            html,
            format!(
                "{}<p><i>The issue has been published!</i></p>\n<p><i>second</i></p>\n{}",
                OPENING, CLOSING
            )
        ),
        _ => panic!("expected the page"),
    }
}
