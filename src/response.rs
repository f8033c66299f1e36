//! The failure taxonomy of a request and the HTTP answers it leads to.
use crate::decode::MapError;
use crate::render::RenderError;
use vstd::prelude::*;

verus! {

/// Status of a request that produced the page.
pub const STATUS_OK: u16 = 200;

/// Status of a request that failed anywhere in the pipeline.
pub const STATUS_SERVER_ERROR: u16 = 500;

/// Content type of the page.
pub const HTML_CONTENT_TYPE: &'static str = "text/html";

/// Content type of an error answer.
pub const TEXT_CONTENT_TYPE: &'static str = "text/plain; charset=utf-8";

/// Body of the answer when no connection could be had.
pub const POOL_MESSAGE: &'static str = "Failed get connection";

/// Body of the answer when the listing query failed.
pub const QUERY_MESSAGE: &'static str = "Failed SQL execution";

/// Body of the answer when the page could not be rendered.
pub const RENDER_MESSAGE: &'static str = "Failed to render HTML";

/// Why the listing query produced no entries.
#[derive(Debug, Clone, PartialEq, Eq)]
pub enum FetchError {
    /// The store refused to prepare the statement; the store's words.
    QueryPreparation(String),
    /// The store failed while running the statement; the store's words.
    Execution(String),
    /// A row could not be decoded.
    Mapping(MapError),
}

/// The stage of the pipeline at which a request failed.
#[derive(Debug, Clone, Copy, PartialEq, Eq, Structural)]
pub enum ErrorKind {
    ConnectionPool,
    QueryExecution,
    Render,
}

/// A failed request, with what is known of the cause for the log.
#[derive(Debug, Clone, PartialEq, Eq)]
pub enum HandlerError {
    /// The pool handed out no connection; the pool's words.
    ConnectionPool(String),
    QueryExecution(FetchError),
    Render(RenderError),
}

/// An HTTP answer.
#[derive(Debug, Clone, PartialEq, Eq)]
pub struct Response {
    pub status: u16,
    pub content_type: String,
    pub body: String,
}

/// What an HTTP answer says.
pub struct ResponseView {
    pub status: u16,
    pub content_type: Seq<char>,
    pub body: Seq<char>,
}

impl View for Response {
    type V = ResponseView;

    open spec fn view(&self) -> ResponseView {
        ResponseView { status: self.status, content_type: self.content_type@, body: self.body@ }
    }
}

/// The answer that carries a rendered page.
pub open spec fn page_response(page: Seq<char>) -> ResponseView {
    ResponseView { status: STATUS_OK, content_type: HTML_CONTENT_TYPE@, body: page }
}

/// The short message that tells the client which stage failed.
pub open spec fn error_message(kind: ErrorKind) -> Seq<char> {
    match kind {
        ErrorKind::ConnectionPool => POOL_MESSAGE@,
        ErrorKind::QueryExecution => QUERY_MESSAGE@,
        ErrorKind::Render => RENDER_MESSAGE@,
    }
}

/// The answer to a request that failed at `kind`: a server error whose body
/// names the stage and nothing of the cause.
pub open spec fn error_response(kind: ErrorKind) -> ResponseView {
    ResponseView {
        status: STATUS_SERVER_ERROR,
        content_type: TEXT_CONTENT_TYPE@,
        body: error_message(kind),
    }
}

impl Response {
    /// The answer that carries `page`.
    pub fn page(page: String) -> (r: Response)
        ensures
            r@ == page_response(page@),
    {
        Response {
            status: STATUS_OK,
            content_type: String::from_str(HTML_CONTENT_TYPE),
            body: page,
        }
    }

    /// Whether this answer reports success.
    pub fn is_success(&self) -> (r: bool)
        ensures
            r == (200 <= self.status < 300),
    {
        200 <= self.status && self.status < 300
    }
}

impl HandlerError {
    pub open spec fn spec_kind(&self) -> ErrorKind {
        match self {
            HandlerError::ConnectionPool(_) => ErrorKind::ConnectionPool,
            HandlerError::QueryExecution(_) => ErrorKind::QueryExecution,
            HandlerError::Render(_) => ErrorKind::Render,
        }
    }

    /// The stage at which the request failed.
    #[verifier::when_used_as_spec(spec_kind)]
    pub fn kind(&self) -> (k: ErrorKind)
        ensures
            k == self.spec_kind(),
    {
        match self {
            HandlerError::ConnectionPool(_) => ErrorKind::ConnectionPool,
            HandlerError::QueryExecution(_) => ErrorKind::QueryExecution,
            HandlerError::Render(_) => ErrorKind::Render,
        }
    }

    /// The short message shown to the client.
    pub fn message(&self) -> (r: &'static str)
        ensures
            r@ == error_message(self.spec_kind()),
    {
        match self {
            HandlerError::ConnectionPool(_) => POOL_MESSAGE,
            HandlerError::QueryExecution(_) => QUERY_MESSAGE,
            HandlerError::Render(_) => RENDER_MESSAGE,
        }
    }

    /// The answer sent to the client for this failure.
    pub fn to_response(&self) -> (r: Response)
        ensures
            r@ == error_response(self.spec_kind()),
    {
        Response {
            status: STATUS_SERVER_ERROR,
            content_type: String::from_str(TEXT_CONTENT_TYPE),
            body: String::from_str(self.message()),
        }
    }
}

} // verus!
