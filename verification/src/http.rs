//! Requests and responses as plain values.
//!
//! The clients of this library say what is to be sent and read what came
//! back. Sending is left to the caller.

use vstd::prelude::*;

verus! {

/// The method of a request.
#[derive(Debug, Clone, Copy, PartialEq, Eq, Structural)]
pub enum Method {
    Get,
    Post,
    Put,
}

/// The model of a list of names and values, in order.
pub open spec fn pair_views(pairs: Seq<(String, String)>) -> Seq<(Seq<char>, Seq<char>)> {
    Seq::new(pairs.len(), |i: int| (pairs[i].0@, pairs[i].1@))
}

/// A request to be sent.
///
/// `query` holds the parameters that follow the address, unencoded, and
/// `body` the text to send along, where there is any.
#[derive(Debug, Clone, PartialEq, Eq)]
pub struct Request {
    pub method: Method,
    pub url: String,
    pub headers: Vec<(String, String)>,
    pub query: Vec<(String, String)>,
    pub body: Option<String>,
}

/// The mathematical model of a [`Request`].
pub struct RequestView {
    pub method: Method,
    pub url: Seq<char>,
    pub headers: Seq<(Seq<char>, Seq<char>)>,
    pub query: Seq<(Seq<char>, Seq<char>)>,
    pub body: Option<Seq<char>>,
}

impl View for Request {
    type V = RequestView;

    open spec fn view(&self) -> RequestView {
        RequestView {
            method: self.method,
            url: self.url@,
            headers: pair_views(self.headers@),
            query: pair_views(self.query@),
            body: match self.body {
                Some(text) => Some(text@),
                None => None,
            },
        }
    }
}

/// A response that came back.
#[derive(Debug, Clone, PartialEq, Eq)]
pub struct Response {
    pub status: u16,
    pub body: String,
}

/// The mathematical model of a [`Response`].
pub struct ResponseView {
    pub status: u16,
    pub body: Seq<char>,
}

impl View for Response {
    type V = ResponseView;

    open spec fn view(&self) -> ResponseView {
        ResponseView { status: self.status, body: self.body@ }
    }
}

/// Why a response is of no use.
#[derive(Debug, Clone, PartialEq, Eq)]
pub enum HttpError {
    /// The status is not one of success.
    Rejected { status: u16, body: String },
    /// The body is not what was asked for.
    Unreadable { body: String },
}

/// The mathematical model of an [`HttpError`].
pub enum HttpErrorView {
    Rejected { status: u16, body: Seq<char> },
    Unreadable { body: Seq<char> },
}

impl View for HttpError {
    type V = HttpErrorView;

    open spec fn view(&self) -> HttpErrorView {
        match self {
            HttpError::Rejected { status, body } => HttpErrorView::Rejected {
                status: *status,
                body: body@,
            },
            HttpError::Unreadable { body } => HttpErrorView::Unreadable { body: body@ },
        }
    }
}

/// Whether a status is one of success: 200 to 299.
pub open spec fn is_success(status: u16) -> bool {
    200 <= status < 300
}

/// The body of a response that succeeded, and its rejection otherwise.
pub open spec fn accepted(response: ResponseView) -> Result<Seq<char>, HttpErrorView> {
    if is_success(response.status) {
        Ok(response.body)
    } else {
        Err(HttpErrorView::Rejected { status: response.status, body: response.body })
    }
}

/// What a response holds, given what its body holds once decoded: the
/// rejection where the status is not one of success, and otherwise what was
/// found in the body or the body as unreadable.
pub open spec fn answer<T>(response: ResponseView, found: Option<T>) -> Result<T, HttpErrorView> {
    if !is_success(response.status) {
        Err(HttpErrorView::Rejected { status: response.status, body: response.body })
    } else {
        match found {
            Some(value) => Ok(value),
            None => Err(HttpErrorView::Unreadable { body: response.body }),
        }
    }
}

/// The model of a body or an error.
pub open spec fn text_result_view(outcome: Result<String, HttpError>) -> Result<
    Seq<char>,
    HttpErrorView,
> {
    match outcome {
        Ok(text) => Ok(text@),
        Err(error) => Err(error@),
    }
}

/// No names and values.
pub fn no_pairs() -> (made: Vec<(String, String)>)
    ensures
        pair_views(made@) == Seq::<(Seq<char>, Seq<char>)>::empty(),
{
    let made: Vec<(String, String)> = Vec::new();
    assert(pair_views(made@) =~= Seq::<(Seq<char>, Seq<char>)>::empty());
    made
}

/// One name and value.
pub fn pair(name: &str, value: &str) -> (made: (String, String))
    ensures
        made.0@ == name@,
        made.1@ == value@,
{
    (String::from_str(name), String::from_str(value))
}

impl Response {
    /// Whether the status is one of success.
    pub fn succeeded(&self) -> (ok: bool)
        ensures
            ok == is_success(self.status),
    {
        200 <= self.status && self.status < 300
    }

    /// The body of a response that succeeded. Any other status is a
    /// rejection, which keeps the status and the body.
    pub fn accept(&self) -> (outcome: Result<String, HttpError>)
        ensures
            text_result_view(outcome) == accepted(self@),
    {
        if self.succeeded() {
            Ok(self.body.clone())
        } else {
            Err(HttpError::Rejected { status: self.status, body: self.body.clone() })
        }
    }
}

} // verus!
