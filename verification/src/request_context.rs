//! Where an application lives on its domain, as the reverse proxy in front
//! of it says in the `X-Script-Name` header of a request.

use vstd::prelude::*;
use vstd::string::*;
use crate::page::{is_header_text, Redirect, StatusCode};

verus! {

/// The name of the header in which a reverse proxy hands on the path that
/// the application is mounted under.
pub const SCRIPT_NAME_HEADER: &'static str = "X-Script-Name";

/// What a URI made of nothing but the path and query `text` is written as,
/// or nothing where `text` is no path and query.
pub uninterp spec fn relative_uri(text: Seq<char>) -> Option<Seq<char>>;

/// Parses `text` with `PathAndQuery::from_str` of the http crate, makes a
/// URI of it alone with `Uri::from_parts`, and writes that with its
/// `Display`. The contract claims that the outcome depends on the text
/// alone, and that what is written holds no control character: the parser
/// refuses them, and what is written is made of what it read and `/`.
#[verifier::external_body]
fn write_relative_uri(text: &str) -> (uri: Option<String>)
    ensures
        match uri {
            Some(uri) => relative_uri(text@) == Some(uri@) && is_header_text(uri@),
            None => relative_uri(text@) is None,
        },
{
    let mut parts = axum::http::uri::Parts::default();
    match text.parse::<axum::http::uri::PathAndQuery>() {
        Ok(path_and_query) => {
            parts.path_and_query = Some(path_and_query);
            match axum::http::Uri::from_parts(parts) {
                Ok(uri) => Some(uri.to_string()),
                Err(_) => None,
            }
        },
        Err(_) => None,
    }
}

/// The path on the domain that stands for `path` in an application mounted
/// under `script_name`.
pub open spec fn mounted(script_name: Option<Seq<char>>, path: Seq<char>) -> Seq<char> {
    match script_name {
        Some(script_name) => script_name + "/"@ + path,
        None => path,
    }
}

/// What is known of a request beyond its own URI.
#[derive(Debug)]
pub struct RequestContext {
    /// The absolute path on the domain that the app is running under.
    script_name: Option<String>,
}

impl View for RequestContext {
    type V = Option<Seq<char>>;

    /// The path that the application is mounted under, if it is mounted
    /// under one.
    closed spec fn view(&self) -> Option<Seq<char>> {
        match self.script_name {
            Some(script_name) => Some(script_name@),
            None => None,
        }
    }
}

impl RequestContext {
    /// The context of a request to an application mounted under
    /// `script_name`, or at the root of its domain if there is none.
    pub fn new(script_name: Option<String>) -> (context: Self)
        ensures
            context@ == match script_name {
                Some(script_name) => Some(script_name@),
                None => None::<Seq<char>>,
            },
    {
        RequestContext { script_name }
    }

    /// The context of a request, given its `X-Script-Name` header: nothing
    /// if the request has none, and within it nothing if its value is not
    /// text. A value that is not text is the fault of the proxy, and the
    /// request is answered with 502 Bad Gateway.
    pub fn from_request_parts(header: Option<Option<String>>) -> (context: Result<
        Self,
        StatusCode,
    >)
        ensures
            match header {
                None => context matches Ok(context) && context@ is None,
                Some(Some(script_name)) => context matches Ok(context) && context@ == Some(
                    script_name@,
                ),
                Some(None) => context matches Err(status) && status@ == 502,
            },
    {
        match header {
            None => Ok(RequestContext { script_name: None }),
            Some(Some(script_name)) => Ok(RequestContext { script_name: Some(script_name) }),
            Some(None) => Err(StatusCode::bad_gateway()),
        }
    }

    /// The path on the domain that stands for `path`: `path` itself at the
    /// root, and else the script name, a slash and `path`.
    pub fn mount(&self, path: &str) -> (target: String)
        ensures
            target@ == mounted(self@, path@),
    {
        match &self.script_name {
            Some(script_name) => {
                script_name.clone().concat("/").concat(path)
            },
            None => String::from_str(path),
        }
    }

    /// Constructs an relative url (no scheme or host).
    ///
    /// `path` is to be one that gives a valid URI: see [`Self::try_internal`].
    pub fn internal(&self, path: &str) -> (url: String)
        requires
            relative_uri(mounted(self@, path@)) is Some,
        ensures
            relative_uri(mounted(self@, path@)) == Some(url@),
            is_header_text(url@),
    {
        let target = self.mount(path);
        match write_relative_uri(target.as_str()) {
            Some(url) => url,
            None => String::new(),
        }
    }

    /// Constructs a relative url as [`Self::internal`] does, or nothing
    /// where `path` gives no valid URI.
    pub fn try_internal(&self, path: &str) -> (url: Option<String>)
        ensures
            match url {
                Some(url) => relative_uri(mounted(self@, path@)) == Some(url@) && is_header_text(
                    url@,
                ),
                None => relative_uri(mounted(self@, path@)) is None,
            },
    {
        let target = self.mount(path);
        if write_relative_uri(target.as_str()).is_some() {
            Some(self.internal(path))
        } else {
            None
        }
    }

    /// The redirect to `path` within the application.
    ///
    /// `path` is to be one that gives a valid URI: see
    /// [`Self::try_redirect_to`].
    pub fn redirect_to(&self, path: &str) -> (redirect: Redirect)
        requires
            relative_uri(mounted(self@, path@)) is Some,
        ensures
            relative_uri(mounted(self@, path@)) == Some(redirect@),
    {
        let url = self.internal(path);
        Redirect::to(url.as_str())
    }

    /// The redirect to `path` within the application, or nothing where
    /// `path` gives no valid URI.
    pub fn try_redirect_to(&self, path: &str) -> (redirect: Option<Redirect>)
        ensures
            match redirect {
                Some(redirect) => relative_uri(mounted(self@, path@)) == Some(redirect@),
                None => relative_uri(mounted(self@, path@)) is None,
            },
    {
        let target = self.mount(path);
        if write_relative_uri(target.as_str()).is_some() {
            Some(self.redirect_to(path))
        } else {
            None
        }
    }
}

} // verus!
