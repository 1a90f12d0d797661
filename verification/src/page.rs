//! Pages and the responses that carry them.
//!
//! Everything here works on plain text and numbers: a status code is its
//! number, a page is its markup, a redirect is its target. Whoever serves
//! them turns a [`Response`] into what the HTTP stack sends.

use vstd::prelude::*;
use vstd::string::*;

verus! {

/// An HTTP status code: a number from 100 to 999.
#[derive(Debug, Clone, Copy, PartialEq, Eq, Structural)]
pub struct StatusCode {
    code: u16,
}

impl View for StatusCode {
    type V = u16;

    /// The number of the status code.
    closed spec fn view(&self) -> u16 {
        self.code
    }
}

impl StatusCode {
    #[verifier::type_invariant]
    spec fn in_range(self) -> bool {
        100 <= self.code <= 999
    }

    /// The status code with the number `code`, if there is one.
    pub fn from_u16(code: u16) -> (status: Option<Self>)
        ensures
            status is Some <==> 100 <= code <= 999,
            status matches Some(status) ==> status@ == code,
    {
        if 100 <= code && code <= 999 {
            Some(StatusCode { code })
        } else {
            None
        }
    }

    /// The number of the status code.
    pub fn as_u16(&self) -> (code: u16)
        ensures
            code == self@,
            100 <= code <= 999,
    {
        proof {
            use_type_invariant(self);
        }
        self.code
    }

    /// 200 OK
    pub fn ok() -> (status: Self)
        ensures
            status@ == 200,
    {
        StatusCode { code: 200 }
    }

    /// 303 See Other
    pub fn see_other() -> (status: Self)
        ensures
            status@ == 303,
    {
        StatusCode { code: 303 }
    }

    /// 404 Not Found
    pub fn not_found() -> (status: Self)
        ensures
            status@ == 404,
    {
        StatusCode { code: 404 }
    }

    /// 405 Method Not Allowed
    pub fn method_not_allowed() -> (status: Self)
        ensures
            status@ == 405,
    {
        StatusCode { code: 405 }
    }

    /// 500 Internal Server Error
    pub fn internal_server_error() -> (status: Self)
        ensures
            status@ == 500,
    {
        StatusCode { code: 500 }
    }

    /// 502 Bad Gateway
    pub fn bad_gateway() -> (status: Self)
        ensures
            status@ == 502,
    {
        StatusCode { code: 502 }
    }
}

/// Status codes are the same when their numbers are.
pub proof fn lemma_status_is_its_number(a: StatusCode, b: StatusCode)
    ensures
        a == b <==> a@ == b@,
{
}

/// The line that names the status with the number `code`: the number, a
/// space, and the reason phrase that belongs to it.
pub uninterp spec fn status_text(code: u16) -> Seq<char>;

/// Calls `StatusCode::from_u16` of the http crate and formats what it gives
/// with its `Display`. The contract claims no more than that the line
/// depends on the number alone.
#[verifier::external_body]
fn status_line(code: u16) -> (line: String)
    requires
        100 <= code <= 999,
    ensures
        line@ == status_text(code),
{
    match axum::http::StatusCode::from_u16(code) {
        Ok(status) => status.to_string(),
        Err(_) => String::new(),
    }
}

/// What stands for `c` in markup.
pub open spec fn escaped_char(c: char) -> Seq<char> {
    if c == '&' {
        "&amp;"@
    } else if c == '<' {
        "&lt;"@
    } else if c == '>' {
        "&gt;"@
    } else if c == '"' {
        "&quot;"@
    } else {
        seq![c]
    }
}

/// `text` as it stands in markup: `&`, `<`, `>` and `"` replaced by their
/// entities, everything else as it is.
pub open spec fn escaped(text: Seq<char>) -> Seq<char>
    decreases text.len(),
{
    if text.len() == 0 {
        Seq::empty()
    } else {
        escaped(text.drop_last()) + escaped_char(text.last())
    }
}

/// Calls `Render::render` of maud on a `str`, which escapes the four
/// characters that maud documents and passes every other one through.
#[verifier::external_body]
fn escape(text: &str) -> (html: String)
    ensures
        html@ == escaped(text@),
{
    maud::Render::render(text).into_string()
}

/// `text` without the white space at its start and at its end.
pub uninterp spec fn trimmed(text: Seq<char>) -> Seq<char>;

/// Calls `str::trim`. The contract claims no more than that the result
/// depends on the text alone.
#[verifier::external_body]
fn trim(text: &str) -> (short: &str)
    ensures
        short@ == trimmed(text@),
{
    text.trim()
}

/// Whether `flag` switches a setting on.
pub open spec fn affirmative(flag: Seq<char>) -> bool {
    flag == "true"@ || flag == "1"@
}

/// Whether `flag` is one of the two spellings that switch a setting on:
/// `true` and `1`.
pub fn is_affirmative(flag: &str) -> (yes: bool)
    ensures
        yes == affirmative(flag@),
{
    let flag = String::from_str(flag);
    flag == String::from_str("true") || flag == String::from_str("1")
}

/// Whether every user is shown the details of an error, given what the
/// environment holds under `DEBUG` (the empty text if it holds nothing).
pub fn detailed_errors(debug: &str) -> (detailed: bool)
    ensures
        detailed == affirmative(trimmed(debug@)),
{
    is_affirmative(trim(debug))
}

/// The texts of `strings`.
pub open spec fn texts(strings: Seq<String>) -> Seq<Seq<char>> {
    strings.map_values(|s: String| s@)
}

/// The markup that lists `messages`: a rule and a preformatted block for
/// each.
pub open spec fn details_html(messages: Seq<Seq<char>>) -> Seq<char>
    decreases messages.len(),
{
    if messages.len() == 0 {
        Seq::empty()
    } else {
        details_html(messages.drop_last()) + "<hr><pre>"@ + escaped(messages.last()) + "</pre>"@
    }
}

/// The markup of an error page: the status line as the heading, and the
/// messages beneath it if the details are shown.
pub open spec fn error_page_html(
    status_line: Seq<char>,
    messages: Seq<Seq<char>>,
    show_details: bool,
) -> Seq<char> {
    "<DOCTYPE><html><body><h1>"@ + escaped(status_line) + "</h1>"@ + (if show_details {
        details_html(messages)
    } else {
        Seq::empty()
    }) + "</body></html>"@
}

/// Writes the error page for a status line and the messages of an error.
pub fn error_page(status_line: &str, messages: &Vec<String>, show_details: bool) -> (html: String)
    ensures
        html@ == error_page_html(status_line@, texts(messages@), show_details),
{
    let mut html = String::from_str("<DOCTYPE><html><body><h1>");
    let heading = escape(status_line);
    html.append(heading.as_str());
    html.append("</h1>");
    let ghost head = html@;
    let ghost all = texts(messages@);
    if show_details {
        let mut i: usize = 0;
        while i < messages.len()
            invariant
                i <= messages@.len(),
                all == texts(messages@),
                html@ == head + details_html(all.take(i as int)),
            decreases messages@.len() - i,
        {
            let message = escape(messages[i].as_str());
            html.append("<hr><pre>");
            html.append(message.as_str());
            html.append("</pre>");
            proof {
                assert(all.take(i + 1).drop_last() =~= all.take(i as int));
            }
            i = i + 1;
        }
        proof {
            assert(all.take(messages@.len() as int) =~= all);
        }
    }
    html.append("</body></html>");
    html
}

/// The status code of an error that names none: 500 Internal Server Error.
pub fn default_status_code() -> (status: StatusCode)
    ensures
        status@ == 500,
{
    StatusCode::internal_server_error()
}

/// Whether an error with the status code `status` is shown to users, unless
/// the error says otherwise: every error but an internal one is.
pub fn default_user_visible(status: StatusCode) -> (visible: bool)
    ensures
        visible == (status@ != 500),
{
    status.as_u16() != 500
}

/// An error that can be shown as a page.
///
/// An error that leaves a method as it is given here has what
/// [`default_status_code`] and [`default_user_visible`] state.
pub trait AppError {
    /// The error code associated with a given error.
    fn status_code(&self) -> (status: StatusCode)
        default_ensures
            status@ == 500,
    {
        default_status_code()
    }

    /// Whether or not details about the error should be displayed to regular users.
    fn user_visible(&self) -> (visible: bool)
        default_ensures
            exists|status: StatusCode| #[trigger]
                call_ensures(Self::status_code, (self,), status) && visible == (status@ != 500),
    {
        default_user_visible(self.status_code())
    }

    /// What the error says of itself, followed by what each error behind it
    /// says, the cause of the one before it.
    fn messages(&self) -> Vec<String>;
}

/// One header of a response.
#[derive(Debug, PartialEq, Eq)]
pub enum Header {
    /// `Content-Type`
    ContentType(String),
    /// `Location`
    Location(String),
}

/// A response, as plain values.
#[derive(Debug)]
pub struct Response {
    pub status: StatusCode,
    pub header: Header,
    pub body: String,
}

/// An error message page.
///
/// Whether a user is shown the details of the error is settled when the page
/// is rendered, by the error and by the setting handed to the call.
#[derive(Debug)]
pub struct ErrorPage<E>(E);

impl<E> View for ErrorPage<E> {
    type V = E;

    /// The error that the page shows.
    closed spec fn view(&self) -> E {
        self.0
    }
}

impl<E> ErrorPage<E> {
    /// The page for `value`.
    pub fn from(value: E) -> (page: Self)
        ensures
            page@ == value,
    {
        ErrorPage(value)
    }

    /// The error that the page shows.
    pub fn error(&self) -> (error: &E)
        ensures
            *error == self@,
    {
        &self.0
    }
}

/// Whether the page for `error` shows the details of the error: it does if
/// `detailed_errors` is set, and else if the error says that users may see
/// it.
pub open spec fn shows_details<E: AppError>(error: &E, detailed_errors: bool) -> bool {
    detailed_errors || call_ensures(E::user_visible, (error,), true)
}

/// Whether the page for `error` keeps the details of the error back.
pub open spec fn hides_details<E: AppError>(error: &E, detailed_errors: bool) -> bool {
    !detailed_errors && call_ensures(E::user_visible, (error,), false)
}

/// Whether `html` is the markup of the page for `error`: its heading is the
/// line of the status code that the error gives, and beneath it stand the
/// messages that the error gives, if the details are shown.
pub open spec fn is_page_of<E: AppError>(error: &E, detailed_errors: bool, html: Seq<char>) -> bool {
    exists|status: StatusCode| #[trigger]
        call_ensures(E::status_code, (error,), status) && {
            ||| hides_details(error, detailed_errors) && html == error_page_html(
                status_text(status@),
                Seq::empty(),
                false,
            )
            ||| shows_details(error, detailed_errors) && exists|messages: Vec<String>| #[trigger]
                call_ensures(E::messages, (error,), messages) && html == error_page_html(
                    status_text(status@),
                    texts(messages@),
                    true,
                )
        }
}

impl<E: AppError> ErrorPage<E> {
    /// Renders the page. The details of the error are on it if
    /// `detailed_errors` is set or the error is one that users may see.
    pub fn render(&self, detailed_errors: bool) -> (html: String)
        ensures
            is_page_of(&self@, detailed_errors, html@),
    {
        let status = self.0.status_code();
        let line = status_line(status.as_u16());
        if detailed_errors || self.0.user_visible() {
            let messages = self.0.messages();
            error_page(line.as_str(), &messages, true)
        } else {
            error_page(line.as_str(), &Vec::new(), false)
        }
    }

    /// The response that carries the page: the status of the error, and the
    /// rendered page as HTML.
    pub fn into_response(self, detailed_errors: bool) -> (response: Response)
        ensures
            call_ensures(E::status_code, (&self@,), response.status),
            response.header matches Header::ContentType(value) && value@
                == "text/html; charset=utf-8"@,
            is_page_of(&self@, detailed_errors, response.body@),
    {
        let status = self.0.status_code();
        let body = self.render(detailed_errors);
        Response {
            status,
            header: Header::ContentType(String::from_str("text/html; charset=utf-8")),
            body,
        }
    }
}

/// No page answers to the URI.
#[derive(Debug)]
pub struct NotFound(pub String);

impl NotFound {
    /// The error for the URI written as `uri`.
    pub fn new(uri: String) -> (error: Self)
        ensures
            error.0@ == uri@,
    {
        NotFound(uri)
    }

    /// The page that answers a request for which there is no route.
    pub fn handler(uri: String) -> (page: ErrorPage<Self>)
        ensures
            page@.0@ == uri@,
    {
        ErrorPage::from(Self::new(uri))
    }
}

impl AppError for NotFound {
    fn status_code(&self) -> (status: StatusCode)
        ensures
            status@ == 404,
    {
        StatusCode::not_found()
    }

    fn user_visible(&self) -> (visible: bool)
        ensures
            visible,
    {
        default_user_visible(self.status_code())
    }

    fn messages(&self) -> (messages: Vec<String>)
        ensures
            texts(messages@) == seq!["uri not found: "@ + self.0@],
    {
        let mut messages: Vec<String> = Vec::new();
        messages.push(String::from_str("uri not found: ").concat(self.0.as_str()));
        messages
    }
}

/// The route does not take the method of the request.
#[derive(Debug)]
pub struct MethodNotAllowed(String);

impl View for MethodNotAllowed {
    type V = Seq<char>;

    /// The name of the method.
    closed spec fn view(&self) -> Seq<char> {
        self.0@
    }
}

impl MethodNotAllowed {
    /// The error for the method named `method`.
    pub fn new(method: String) -> (error: Self)
        ensures
            error@ == method@,
    {
        MethodNotAllowed(method)
    }

    /// What the server sends in place of a response with the status
    /// `status` to a request with the method `method`: the error page, if
    /// the route refused the method, and nothing otherwise, so that the
    /// response goes out as it is.
    pub fn middleware(method: String, status: StatusCode, detailed_errors: bool) -> (replaced: Option<Response>)
        ensures
            replaced is Some <==> status@ == 405,
            replaced matches Some(response) ==> {
                &&& response.status@ == 405
                &&& response.header matches Header::ContentType(value) && value@
                    == "text/html; charset=utf-8"@
                &&& response.body@ == error_page_html(
                    status_text(405),
                    seq!["method not allowed: "@ + method@],
                    true,
                )
            },
    {
        if status.as_u16() == 405 {
            Some(ErrorPage::from(MethodNotAllowed::new(method)).into_response(detailed_errors))
        } else {
            None
        }
    }
}

impl AppError for MethodNotAllowed {
    fn status_code(&self) -> (status: StatusCode)
        ensures
            status@ == 405,
    {
        StatusCode::method_not_allowed()
    }

    fn user_visible(&self) -> (visible: bool)
        ensures
            visible,
    {
        default_user_visible(self.status_code())
    }

    fn messages(&self) -> (messages: Vec<String>)
        ensures
            texts(messages@) == seq!["method not allowed: "@ + self@],
    {
        let mut messages: Vec<String> = Vec::new();
        messages.push(String::from_str("method not allowed: ").concat(self.0.as_str()));
        messages
    }
}

/// A page: its markup.
#[derive(Debug)]
pub struct Page(pub String);

impl Page {
    /// The page with the rendered `content`, as the success of a handler.
    pub fn ok<E>(content: String) -> (page: Result<Self, E>)
        ensures
            page matches Ok(page) && page.0@ == content@,
    {
        Ok(Page(content))
    }

    /// The response that carries the page: 200 with the markup as HTML.
    pub fn into_response(self) -> (response: Response)
        ensures
            response.status@ == 200,
            response.header matches Header::ContentType(value) && value@
                == "text/html; charset=utf8"@,
            response.body@ == self.0@,
    {
        Response {
            status: StatusCode::ok(),
            header: Header::ContentType(String::from_str("text/html; charset=utf8")),
            body: self.0,
        }
    }
}

/// Whether `c` can stand in the value of a header.
pub open spec fn is_header_char(c: char) -> bool {
    (c >= ' ' && c != '\x7f') || c == '\t'
}

/// Whether `text` can be the value of a header.
pub open spec fn is_header_text(text: Seq<char>) -> bool {
    forall|i: int| 0 <= i < text.len() ==> is_header_char(#[trigger] text[i])
}

/// A redirect to another URI with the status 303 See Other.
#[derive(Debug)]
pub struct Redirect {
    location: String,
}

impl View for Redirect {
    type V = Seq<char>;

    /// The URI that the redirect leads to.
    closed spec fn view(&self) -> Seq<char> {
        self.location@
    }
}

impl Redirect {
    /// Whether `uri` can be the target of a redirect.
    pub fn accepts(uri: &str) -> (yes: bool)
        ensures
            yes == is_header_text(uri@),
    {
        let mut yes = true;
        for c in it: uri.chars()
            invariant
                it.seq() == uri@,
                yes == is_header_text(uri@.take(it.index() as int)),
        {
            proof {
                let done = uri@.take(it.index() as int);
                let more = uri@.take(it.index() + 1);
                assert(more[it.index() as int] == c);
                if is_header_text(more) {
                    assert forall|i: int| 0 <= i < done.len() implies is_header_char(
                        #[trigger] done[i],
                    ) by {
                        assert(done[i] == more[i]);
                    }
                }
            }
            if !((c >= ' ' && c != '\x7f') || c == '\t') {
                yes = false;
            }
        }
        proof {
            assert(uri@.take(uri@.len() as int) =~= uri@);
        }
        yes
    }

    /// The redirect to `uri`.
    pub fn to(uri: &str) -> (redirect: Self)
        requires
            is_header_text(uri@),
        ensures
            redirect@ == uri@,
    {
        Redirect { location: String::from_str(uri) }
    }

    /// The URI that the redirect leads to.
    pub fn location(&self) -> (uri: &str)
        ensures
            uri@ == self@,
    {
        self.location.as_str()
    }

    /// The response that carries the redirect: 303 with the target as
    /// `Location`, and no body.
    pub fn into_response(self) -> (response: Response)
        ensures
            response.status@ == 303,
            response.header matches Header::Location(value) && value@ == self@,
            response.body@.len() == 0,
    {
        Response {
            status: StatusCode::see_other(),
            header: Header::Location(self.location),
            body: String::new(),
        }
    }
}

/// What a handler answers with when it succeeds: a page, or a redirect to
/// one.
#[derive(Debug)]
pub enum RedirectOnSuccess {
    Page(Page),
    Redirect(Redirect),
}

impl RedirectOnSuccess {
    /// The page with the rendered `content`, as the success of a handler.
    pub fn ok<E>(content: String) -> (answer: Result<RedirectOnSuccess, E>)
        ensures
            answer matches Ok(RedirectOnSuccess::Page(page)) && page.0@ == content@,
    {
        Ok(RedirectOnSuccess::Page(Page(content)))
    }

    /// The redirect to `uri`, as the success of a handler.
    pub fn success<E>(uri: &str) -> (answer: Result<RedirectOnSuccess, E>)
        requires
            is_header_text(uri@),
        ensures
            answer matches Ok(RedirectOnSuccess::Redirect(redirect)) && redirect@ == uri@,
    {
        Ok(RedirectOnSuccess::Redirect(Redirect::to(uri)))
    }

    /// The response of the page or of the redirect.
    pub fn into_response(self) -> (response: Response)
        ensures
            match self {
                RedirectOnSuccess::Page(page) => {
                    &&& response.status@ == 200
                    &&& response.header matches Header::ContentType(value) && value@
                        == "text/html; charset=utf8"@
                    &&& response.body@ == page.0@
                },
                RedirectOnSuccess::Redirect(redirect) => {
                    &&& response.status@ == 303
                    &&& response.header matches Header::Location(value) && value@ == redirect@
                    &&& response.body@.len() == 0
                },
            },
    {
        match self {
            RedirectOnSuccess::Page(page) => page.into_response(),
            RedirectOnSuccess::Redirect(redirect) => redirect.into_response(),
        }
    }
}

} // verus!
