//! Plain descriptions of HTTP traffic.
//!
//! The flows never touch the network.  Each step hands the caller an
//! [`HttpRequest`] describing what to send, and consumes an
//! [`HttpResponse`] summarising what came back: the status, the `Location`
//! header if any, and the body text.  The transport must have automatic
//! redirect-following disabled: every hop the protocol takes is an explicit
//! step here.

use vstd::prelude::*;

verus! {

/// The request method.
#[derive(Debug, Clone, Copy, PartialEq, Eq, Structural)]
pub enum Method {
    /// An HTTP GET.
    Get,
    /// An HTTP POST.
    Post,
}

/// The view of a list of name/value pairs.
pub open spec fn pairs_view(v: Seq<(String, String)>) -> Seq<(Seq<char>, Seq<char>)> {
    v.map_values(|p: (String, String)| (p.0@, p.1@))
}

/// One request the caller is asked to send.
#[derive(Debug, Clone)]
pub struct HttpRequest {
    /// The method.
    pub method: Method,
    /// The bare URL, without the query pairs below.
    pub url: String,
    /// Query pairs for the transport to encode into the URL.
    pub query: Vec<(String, String)>,
    /// Form pairs for the transport to encode as the body.
    pub form: Vec<(String, String)>,
    /// A token to send as `Authorization: Bearer <token>`.
    pub bearer: Option<String>,
    /// An extra `Cookie` header value, beside the session's own cookies.
    pub extra_cookie: Option<String>,
}

/// The view of a request.
pub struct HttpRequestView {
    /// The method.
    pub method: Method,
    /// The view of the bare URL.
    pub url: Seq<char>,
    /// The views of the query pairs.
    pub query: Seq<(Seq<char>, Seq<char>)>,
    /// The views of the form pairs.
    pub form: Seq<(Seq<char>, Seq<char>)>,
    /// The view of the bearer token, if one is sent.
    pub bearer: Option<Seq<char>>,
    /// The view of the extra cookie header, if one is sent.
    pub extra_cookie: Option<Seq<char>>,
}

impl View for HttpRequest {
    type V = HttpRequestView;

    open spec fn view(&self) -> HttpRequestView {
        HttpRequestView {
            method: self.method,
            url: self.url@,
            query: pairs_view(self.query@),
            form: pairs_view(self.form@),
            bearer: match self.bearer {
                None => None,
                Some(ref b) => Some(b@),
            },
            extra_cookie: match self.extra_cookie {
                None => None,
                Some(ref c) => Some(c@),
            },
        }
    }
}

impl HttpRequest {
    /// A bare GET of `url`.
    pub fn get(url: String) -> (r: Self)
        ensures
            r@ == (HttpRequestView {
                method: Method::Get,
                url: url@,
                query: Seq::empty(),
                form: Seq::empty(),
                bearer: None,
                extra_cookie: None,
            }),
    {
        let r = HttpRequest {
            method: Method::Get,
            url,
            query: Vec::new(),
            form: Vec::new(),
            bearer: None,
            extra_cookie: None,
        };
        assert(r@.query =~= Seq::<(Seq<char>, Seq<char>)>::empty());
        assert(r@.form =~= Seq::<(Seq<char>, Seq<char>)>::empty());
        r
    }

    /// A POST of `form` to `url`.
    pub fn post_form(url: String, form: Vec<(String, String)>) -> (r: Self)
        ensures
            r@ == (HttpRequestView {
                method: Method::Post,
                url: url@,
                query: Seq::empty(),
                form: pairs_view(form@),
                bearer: None,
                extra_cookie: None,
            }),
    {
        let r = HttpRequest {
            method: Method::Post,
            url,
            query: Vec::new(),
            form,
            bearer: None,
            extra_cookie: None,
        };
        assert(r@.query =~= Seq::<(Seq<char>, Seq<char>)>::empty());
        r
    }
}

/// The summary of one response the caller received.
#[derive(Debug, Clone)]
pub struct HttpResponse {
    /// The status code.
    pub status: u16,
    /// The `Location` header, if the response carried one.
    pub location: Option<String>,
    /// The body, as text; empty when the caller did not read it.
    pub body: String,
}

/// The view of a response summary.
pub struct HttpResponseView {
    /// The status code.
    pub status: u16,
    /// The view of the `Location` header, if any.
    pub location: Option<Seq<char>>,
    /// The view of the body text.
    pub body: Seq<char>,
}

impl View for HttpResponse {
    type V = HttpResponseView;

    open spec fn view(&self) -> HttpResponseView {
        HttpResponseView {
            status: self.status,
            location: match self.location {
                None => None,
                Some(ref l) => Some(l@),
            },
            body: self.body@,
        }
    }
}

} // verus!
