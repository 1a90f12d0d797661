use twelve::page::{
    default_status_code, default_user_visible, detailed_errors, error_page, is_affirmative, AppError,
    ErrorPage, Header, MethodNotAllowed, NotFound, Page, Redirect, RedirectOnSuccess, StatusCode,
};

#[derive(Debug)]
struct Broken {
    visible: bool,
}

impl AppError for Broken {
    fn user_visible(&self) -> bool {
        self.visible
    }

    fn messages(&self) -> Vec<String> {
        vec!["could not load <state>".to_owned(), "file \"state.json\" & more".to_owned()]
    }
}

#[test]
fn status_code_is_a_number_from_100_to_999() {
    assert!(StatusCode::from_u16(99).is_none());
    assert!(StatusCode::from_u16(1000).is_none());
    assert!(StatusCode::from_u16(0).is_none());
    assert_eq!(StatusCode::from_u16(100).unwrap().as_u16(), 100);
    assert_eq!(StatusCode::from_u16(999).unwrap().as_u16(), 999);
    assert_eq!(StatusCode::from_u16(404), Some(StatusCode::not_found()));
    assert_eq!(StatusCode::ok().as_u16(), 200);
    assert_eq!(StatusCode::see_other().as_u16(), 303);
    assert_eq!(StatusCode::method_not_allowed().as_u16(), 405);
    assert_eq!(StatusCode::internal_server_error().as_u16(), 500);
    assert_eq!(StatusCode::bad_gateway().as_u16(), 502);
}

#[derive(Debug)]
struct Plain;

impl AppError for Plain {
    fn messages(&self) -> Vec<String> {
        vec!["plain".to_owned()]
    }
}

#[test]
fn defaults_of_an_error() {
    assert_eq!(default_status_code(), StatusCode::internal_server_error());
    assert!(!default_user_visible(StatusCode::internal_server_error()));
    assert!(default_user_visible(StatusCode::not_found()));
    assert!(default_user_visible(StatusCode::bad_gateway()));
    assert_eq!(Plain.status_code(), StatusCode::internal_server_error());
    assert!(!Plain.user_visible());
    assert!(Odd.user_visible());
    assert!(!Broken { visible: false }.user_visible());
    assert_eq!(
        ErrorPage::from(Plain).render(false),
        "<DOCTYPE><html><body><h1>500 Internal Server Error</h1></body></html>"
    );
    assert_eq!(
        ErrorPage::from(Plain).render(true),
        "<DOCTYPE><html><body><h1>500 Internal Server Error</h1><hr><pre>plain</pre></body></html>"
    );
}

#[test]
fn detailed_errors_takes_true_and_one() {
    assert!(detailed_errors("true"));
    assert!(detailed_errors("1"));
    assert!(detailed_errors("  true\n"));
    assert!(detailed_errors("\t1 "));
    assert!(detailed_errors("\u{a0}1\u{2003}"));
    assert!(!detailed_errors(""));
    assert!(!detailed_errors("TRUE"));
    assert!(!detailed_errors("yes"));
    assert!(!detailed_errors("0"));
    assert!(!detailed_errors("true 1"));
    assert!(!detailed_errors("11"));
}

#[test]
fn is_affirmative_does_not_trim() {
    assert!(is_affirmative("true"));
    assert!(is_affirmative("1"));
    assert!(!is_affirmative(" true"));
    assert!(!is_affirmative("1 "));
    assert!(!is_affirmative(""));
}

#[test]
fn error_page_without_details() {
    assert_eq!(
        error_page("500 Internal Server Error", &vec!["secret".to_owned()], false),
        "<DOCTYPE><html><body><h1>500 Internal Server Error</h1></body></html>"
    );
}

#[test]
fn error_page_lists_messages_in_order() {
    assert_eq!(
        error_page("418 I'm a teapot", &vec!["first".to_owned(), "second".to_owned()], true),
        "<DOCTYPE><html><body><h1>418 I'm a teapot</h1><hr><pre>first</pre><hr><pre>second</pre></body></html>"
    );
    assert_eq!(
        error_page("404 Not Found", &Vec::new(), true),
        "<DOCTYPE><html><body><h1>404 Not Found</h1></body></html>"
    );
}

#[test]
fn error_page_escapes_heading_and_messages() {
    assert_eq!(
        error_page("<b>&", &vec!["a < b > c & \"d\" 'e'".to_owned()], true),
        "<DOCTYPE><html><body><h1>&lt;b&gt;&amp;</h1><hr><pre>a &lt; b &gt; c &amp; &quot;d&quot; 'e'</pre></body></html>"
    );
}

#[test]
fn not_found_page_shows_uri_to_users() {
    let page = NotFound::handler("/missing?x=<1>".to_owned());
    assert_eq!(page.error().0, "/missing?x=<1>");
    assert_eq!(page.error().status_code(), StatusCode::not_found());
    assert!(page.error().user_visible());
    assert_eq!(page.error().messages(), vec!["uri not found: /missing?x=<1>".to_owned()]);
    let expected =
        "<DOCTYPE><html><body><h1>404 Not Found</h1><hr><pre>uri not found: /missing?x=&lt;1&gt;</pre></body></html>";
    assert_eq!(page.render(false), expected);
    assert_eq!(page.render(true), expected);
    let response = page.into_response(false);
    assert_eq!(response.status, StatusCode::not_found());
    assert_eq!(response.header, Header::ContentType("text/html; charset=utf-8".to_owned()));
    assert_eq!(response.body, expected);
}

#[test]
fn internal_error_page_hides_details_unless_detailed() {
    let hidden = ErrorPage::from(Broken { visible: false });
    assert_eq!(
        hidden.render(false),
        "<DOCTYPE><html><body><h1>500 Internal Server Error</h1></body></html>"
    );
    let detailed = "<DOCTYPE><html><body><h1>500 Internal Server Error</h1><hr><pre>could not load &lt;state&gt;</pre><hr><pre>file &quot;state.json&quot; &amp; more</pre></body></html>";
    assert_eq!(hidden.render(true), detailed);
    let visible = ErrorPage::from(Broken { visible: true });
    assert_eq!(visible.render(false), detailed);
    let response = hidden.into_response(true);
    assert_eq!(response.status.as_u16(), 500);
    assert_eq!(response.body, detailed);
}

#[derive(Debug)]
struct Odd;

impl AppError for Odd {
    fn status_code(&self) -> StatusCode {
        StatusCode::from_u16(599).unwrap()
    }

    fn messages(&self) -> Vec<String> {
        Vec::new()
    }
}

#[test]
fn status_without_reason_phrase_is_escaped() {
    assert_eq!(
        ErrorPage::from(Odd).render(false),
        "<DOCTYPE><html><body><h1>599 &lt;unknown status code&gt;</h1></body></html>"
    );
}

#[test]
fn method_not_allowed_replaces_only_405() {
    assert!(MethodNotAllowed::middleware("PUT".to_owned(), StatusCode::ok(), false).is_none());
    assert!(MethodNotAllowed::middleware("PUT".to_owned(), StatusCode::not_found(), true).is_none());
    let replaced =
        MethodNotAllowed::middleware("PUT".to_owned(), StatusCode::method_not_allowed(), false).unwrap();
    assert_eq!(replaced.status, StatusCode::method_not_allowed());
    assert_eq!(replaced.header, Header::ContentType("text/html; charset=utf-8".to_owned()));
    assert_eq!(
        replaced.body,
        "<DOCTYPE><html><body><h1>405 Method Not Allowed</h1><hr><pre>method not allowed: PUT</pre></body></html>"
    );
    let error = MethodNotAllowed::new("DELETE".to_owned());
    assert_eq!(error.status_code().as_u16(), 405);
    assert!(error.user_visible());
    assert_eq!(error.messages(), vec!["method not allowed: DELETE".to_owned()]);
}

#[test]
fn page_is_sent_as_html_with_200() {
    let page = Page::ok::<()>("<p>hi</p>".to_owned()).unwrap();
    assert_eq!(page.0, "<p>hi</p>");
    let response = page.into_response();
    assert_eq!(response.status, StatusCode::ok());
    assert_eq!(response.header, Header::ContentType("text/html; charset=utf8".to_owned()));
    assert_eq!(response.body, "<p>hi</p>");
}

#[test]
fn redirect_on_success_is_page_or_redirect() {
    let page = RedirectOnSuccess::ok::<()>("<p>done</p>".to_owned()).unwrap();
    assert!(matches!(&page, RedirectOnSuccess::Page(page) if page.0 == "<p>done</p>"));
    let response = page.into_response();
    assert_eq!(response.status.as_u16(), 200);
    assert_eq!(response.body, "<p>done</p>");

    let redirect = RedirectOnSuccess::success::<()>("/items/3").unwrap();
    assert!(matches!(&redirect, RedirectOnSuccess::Redirect(to) if to.location() == "/items/3"));
    let response = redirect.into_response();
    assert_eq!(response.status, StatusCode::see_other());
    assert_eq!(response.header, Header::Location("/items/3".to_owned()));
    assert_eq!(response.body, "");
}

#[test]
fn redirect_accepts_header_text_only() {
    assert!(Redirect::accepts("/items/3?x=a b\tc"));
    assert!(Redirect::accepts(""));
    assert!(Redirect::accepts("/caf\u{e9}"));
    assert!(!Redirect::accepts("/a\nb"));
    assert!(!Redirect::accepts("/a\u{7f}"));
    assert!(!Redirect::accepts("\u{0}"));
    assert_eq!(Redirect::to("/x").location(), "/x");
}
