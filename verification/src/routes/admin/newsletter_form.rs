//! The page with the form that a newsletter issue is submitted from.

use vstd::prelude::*;
use vstd::string::*;
use uuid::Uuid;
use crate::error_chain::texts_of;
use crate::error_chain::ErrorChain;

verus! {

/// The page up to the place of the flash messages.
pub open spec fn page_opening() -> Seq<char> {
    "<!DOCTYPE html>\n"@
    + "            <html lang=\"en\">\n"@
    + "                <head>\n"@
    + "                    <meta http-equiv=\"content-type\" content=\"text/html; charset=utf-8\">\n"@
    + "                    <title>Send newsletter</title>\n"@
    + "                </head>\n"@
    + "                <body>\n"@
    + "                    "@
}

/// The page after the flash messages: the form and the way back.
pub open spec fn page_closing() -> Seq<char> {
    "\n"@
    + "                    <form action=\"/admin/newsletters\" method=\"post\">\n"@
    + "                        <label>Title\n"@
    + "                            <input\n"@
    + "                            placeholder=\"Enter title\"\n"@
    + "                            name=\"title\"\n"@
    + "                            >\n"@
    + "                        </label>\n"@
    + "                        <br>\n"@
    + "                        <label>HTML content\n"@
    + "                            <textarea\n"@
    + "                                placeholder=\"Enter content as HTML\"\n"@
    + "                                name=\"html\"\n"@
    + "                            >\n"@
    + "                        </label>\n"@
    + "                        <label>Plaintext content\n"@
    + "                            <textarea\n"@
    + "                                placeholder=\"Enter content as plaintext\"\n"@
    + "                                name=\"text\"\n"@
    + "                            >\n"@
    + "                        </label>\n"@
    + "                        <br>\n"@
    + "                        <button type=\"submit\">Submit newsletter</button>\n"@
    + "                    </form>\n"@
    + "                    <p><a href=\"/admin/dashboard\">&lt;- Back</a></p>\n"@
    + "                </body>\n"@
    + "            </html>"@
}

/// The flash messages as HTML, one paragraph each, in order.
pub open spec fn flash_paragraphs(messages: Seq<Seq<char>>) -> Seq<char>
    decreases messages.len(),
{
    if messages.len() == 0 {
        Seq::empty()
    } else {
        flash_paragraphs(messages.drop_last()) + "<p><i>"@ + messages.last() + "</i></p>\n"@
    }
}

/// The whole page for the given flash messages.
pub open spec fn form_page(messages: Seq<Seq<char>>) -> Seq<char> {
    page_opening() + flash_paragraphs(messages) + page_closing()
}

/// Where somebody who is not logged in is sent.
pub open spec fn login_location() -> Seq<char> {
    "/login"@
}

/// The HTTP status of the redirect to the login page.
pub const REDIRECT_STATUS: u16 = 302;

/// The HTTP status of the page.
pub const PAGE_STATUS: u16 = 200;

/// The HTTP status of a failure to read the session.
pub const FAILURE_STATUS: u16 = 500;

/// The answer to a request for the form.
#[derive(Debug)]
pub enum FormResponse {
    /// The session could not be read.
    InternalError(ErrorChain),
    /// Nobody is logged in: a redirect to the given location.
    Redirect(String),
    /// The page, as HTML.
    Page(String),
}

/// The model of a [`FormResponse`].
pub enum FormResponseModel {
    InternalError(Seq<Seq<char>>),
    Redirect(Seq<char>),
    Page(Seq<char>),
}

impl View for FormResponse {
    type V = FormResponseModel;

    open spec fn view(&self) -> FormResponseModel {
        match self {
            FormResponse::InternalError(chain) => FormResponseModel::InternalError(chain@),
            FormResponse::Redirect(location) => FormResponseModel::Redirect(location@),
            FormResponse::Page(html) => FormResponseModel::Page(html@),
        }
    }
}

/// The HTTP status that goes with an answer.
pub open spec fn form_status(response: FormResponseModel) -> u16 {
    match response {
        FormResponseModel::InternalError(_) => FAILURE_STATUS,
        FormResponseModel::Redirect(_) => REDIRECT_STATUS,
        FormResponseModel::Page(_) => PAGE_STATUS,
    }
}

impl FormResponse {
    /// The HTTP status of the answer: 500, 302 or 200.
    pub fn status_code(&self) -> (code: u16)
        ensures
            code == form_status(self@),
    {
        match self {
            FormResponse::InternalError(_) => FAILURE_STATUS,
            FormResponse::Redirect(_) => REDIRECT_STATUS,
            FormResponse::Page(_) => PAGE_STATUS,
        }
    }
}

/// The answer that is owed for a session that says `user` and the given
/// flash messages.
pub open spec fn form_response(
    user: Result<Option<Uuid>, Seq<Seq<char>>>,
    messages: Seq<Seq<char>>,
) -> FormResponseModel {
    match user {
        Err(cause) => FormResponseModel::InternalError(cause),
        Ok(None) => FormResponseModel::Redirect(login_location()),
        Ok(Some(_)) => FormResponseModel::Page(form_page(messages)),
    }
}

/// The model of what the session said.
pub open spec fn session_model(user: Result<Option<Uuid>, ErrorChain>) -> Result<
    Option<Uuid>,
    Seq<Seq<char>>,
> {
    match user {
        Ok(user) => Ok(user),
        Err(cause) => Err(cause@),
    }
}

/// Writes the page up to the place of the flash messages.
fn opening() -> (text: String)
    ensures
        text@ == page_opening(),
{
    let mut text = String::from_str("<!DOCTYPE html>\n");
    text.append("            <html lang=\"en\">\n");
    text.append("                <head>\n");
    text.append("                    <meta http-equiv=\"content-type\" content=\"text/html; charset=utf-8\">\n");
    text.append("                    <title>Send newsletter</title>\n");
    text.append("                </head>\n");
    text.append("                <body>\n");
    text.append("                    ");
    text
}

/// Writes the page after the flash messages.
fn closing() -> (text: String)
    ensures
        text@ == page_closing(),
{
    let mut text = String::from_str("\n");
    text.append("                    <form action=\"/admin/newsletters\" method=\"post\">\n");
    text.append("                        <label>Title\n");
    text.append("                            <input\n");
    text.append("                            placeholder=\"Enter title\"\n");
    text.append("                            name=\"title\"\n");
    text.append("                            >\n");
    text.append("                        </label>\n");
    text.append("                        <br>\n");
    text.append("                        <label>HTML content\n");
    text.append("                            <textarea\n");
    text.append("                                placeholder=\"Enter content as HTML\"\n");
    text.append("                                name=\"html\"\n");
    text.append("                            >\n");
    text.append("                        </label>\n");
    text.append("                        <label>Plaintext content\n");
    text.append("                            <textarea\n");
    text.append("                                placeholder=\"Enter content as plaintext\"\n");
    text.append("                                name=\"text\"\n");
    text.append("                            >\n");
    text.append("                        </label>\n");
    text.append("                        <br>\n");
    text.append("                        <button type=\"submit\">Submit newsletter</button>\n");
    text.append("                    </form>\n");
    text.append("                    <p><a href=\"/admin/dashboard\">&lt;- Back</a></p>\n");
    text.append("                </body>\n");
    text.append("            </html>");
    text
}

/// Writes the flash messages as HTML.
fn paragraphs(messages: &Vec<String>) -> (text: String)
    ensures
        text@ == flash_paragraphs(texts_of(messages@)),
{
    let mut text = String::new();
    let mut i: usize = 0;
    assert(texts_of(messages@).take(0) =~= Seq::empty());
    while i < messages.len()
        invariant
            i <= messages.len(),
            text@ == flash_paragraphs(texts_of(messages@).take(i as int)),
        decreases messages.len() - i,
    {
        let ghost all = texts_of(messages@);
        assert(all.take(i + 1).drop_last() =~= all.take(i as int));
        assert(all.take(i + 1).last() == messages@[i as int]@);
        text.append("<p><i>");
        text.append(messages[i].as_str());
        text.append("</i></p>\n");
        i += 1;
    }
    assert(texts_of(messages@).take(i as int) =~= texts_of(messages@));
    text
}

/// Answers a request for the form: a failure where the session cannot be
/// read, the way to the login page where nobody is logged in, and else the
/// page with the flash messages above the form.
pub fn send_newsletter_form(
    user: Result<Option<Uuid>, ErrorChain>,
    flash_messages: Vec<String>,
) -> (response: FormResponse)
    ensures
        response@ == form_response(session_model(user), texts_of(flash_messages@)),
{
    match user {
        Err(cause) => FormResponse::InternalError(cause),
        Ok(None) => FormResponse::Redirect(String::from_str("/login")),
        Ok(Some(_)) => {
            let mut page = opening();
            let flashes = paragraphs(&flash_messages);
            page.append(flashes.as_str());
            let rest = closing();
            page.append(rest.as_str());
            FormResponse::Page(page)
        },
    }
}

} // verus!
