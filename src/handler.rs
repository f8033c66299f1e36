//! One request's way through the pipeline, as a state machine.
//!
//! The machine never touches the pool, the store or the network: each step
//! takes what the outside world reported and says what to do next.
use crate::decode::{decode_row, decoded, CellValue, TodoEntry};
use crate::render::{entry_views, page_of, render_page};
use crate::response::{
    page_response, ErrorKind, FetchError, HandlerError, Response, ResponseView,
};
use vstd::prelude::*;

verus! {

/// The statement that reads every entry.
pub const LISTING_QUERY: &'static str = "SELECT id, text FROM todo";

/// Where a request stands.
#[derive(Debug, Clone, Copy, PartialEq, Eq, Structural)]
pub enum Stage {
    /// Nothing has happened yet.
    Start,
    /// A connection has been asked of the pool.
    PoolAcquire,
    /// The listing query runs and its rows are being decoded.
    Fetch,
    /// The page has been handed out.
    Responded,
    /// The request failed at the given stage.
    Failed(ErrorKind),
}

/// What the outside world reports to the machine.
#[derive(Debug, Clone, PartialEq, Eq)]
pub enum Event {
    /// The request arrived.
    Request,
    /// The pool handed out a connection.
    Connected,
    /// The pool handed out no connection; the pool's words.
    PoolFailed(String),
    /// The store refused to prepare the listing query; the store's words.
    PrepareFailed(String),
    /// The query produced one more row, column by column.
    Row(Vec<CellValue>),
    /// The store failed while running the query; the store's words.
    ExecFailed(String),
    /// The query has no more rows.
    RowsEnd,
}

/// What the machine asks of the outside world.
#[derive(Debug, Clone, PartialEq, Eq)]
pub enum Action {
    /// Take a connection from the pool.
    AcquireConnection,
    /// Prepare and run `LISTING_QUERY` on the connection, then report its first row.
    RunQuery,
    /// Report the next row of the query.
    NextRow,
    /// Release the connection and send this answer.
    Respond(Response),
    /// Release the connection, log this failure and send its answer.
    Fail(HandlerError),
    /// The event does not apply at this stage: nothing to do.
    Ignore,
}

/// What an action says.
pub enum ActionView {
    AcquireConnection,
    RunQuery,
    NextRow,
    Respond(ResponseView),
    Fail(HandlerError),
    Ignore,
}

impl View for Action {
    type V = ActionView;

    open spec fn view(&self) -> ActionView {
        match self {
            Action::AcquireConnection => ActionView::AcquireConnection,
            Action::RunQuery => ActionView::RunQuery,
            Action::NextRow => ActionView::NextRow,
            Action::Respond(r) => ActionView::Respond(r@),
            Action::Fail(e) => ActionView::Fail(*e),
            Action::Ignore => ActionView::Ignore,
        }
    }
}

/// The state of a request: its stage and the entries decoded so far.
pub struct HandlerView {
    pub stage: Stage,
    pub entries: Seq<(u32, Seq<char>)>,
}

/// The state of a request before anything happened.
pub open spec fn initial() -> HandlerView {
    HandlerView { stage: Stage::Start, entries: seq![] }
}

/// The state a request ends in after failing at `kind`: nothing decoded is kept.
pub open spec fn failed(kind: ErrorKind) -> HandlerView {
    HandlerView { stage: Stage::Failed(kind), entries: seq![] }
}

/// One step: the state after `ev` and the action it calls for.
pub open spec fn next(h: HandlerView, ev: Event) -> (HandlerView, ActionView) {
    match h.stage {
        Stage::Start => match ev {
            Event::Request => (
                HandlerView { stage: Stage::PoolAcquire, entries: seq![] },
                ActionView::AcquireConnection,
            ),
            _ => (h, ActionView::Ignore),
        },
        Stage::PoolAcquire => match ev {
            Event::Connected => (
                HandlerView { stage: Stage::Fetch, entries: seq![] },
                ActionView::RunQuery,
            ),
            Event::PoolFailed(d) => (
                failed(ErrorKind::ConnectionPool),
                ActionView::Fail(HandlerError::ConnectionPool(d)),
            ),
            _ => (h, ActionView::Ignore),
        },
        Stage::Fetch => match ev {
            Event::Row(cells) => match decoded(cells@) {
                Ok(e) => (
                    HandlerView { stage: Stage::Fetch, entries: h.entries.push(e) },
                    ActionView::NextRow,
                ),
                Err(m) => (
                    failed(ErrorKind::QueryExecution),
                    ActionView::Fail(HandlerError::QueryExecution(FetchError::Mapping(m))),
                ),
            },
            Event::PrepareFailed(d) => (
                failed(ErrorKind::QueryExecution),
                ActionView::Fail(HandlerError::QueryExecution(FetchError::QueryPreparation(d))),
            ),
            Event::ExecFailed(d) => (
                failed(ErrorKind::QueryExecution),
                ActionView::Fail(HandlerError::QueryExecution(FetchError::Execution(d))),
            ),
            Event::RowsEnd => (
                HandlerView { stage: Stage::Responded, entries: seq![] },
                ActionView::Respond(page_response(page_of(h.entries))),
            ),
            _ => (h, ActionView::Ignore),
        },
        Stage::Responded | Stage::Failed(_) => (h, ActionView::Ignore),
    }
}

/// The state after `events`, and the action each of them called for.
pub open spec fn run(h: HandlerView, events: Seq<Event>) -> (HandlerView, Seq<ActionView>)
    decreases events.len(),
{
    if events.len() == 0 {
        (h, seq![])
    } else {
        let (h1, acts) = run(h, events.drop_last());
        let (h2, a) = next(h1, events.last());
        (h2, acts.push(a))
    }
}

/// The request handler: one per request, fed the events of that request.
pub struct RequestHandler {
    stage: Stage,
    entries: Vec<TodoEntry>,
}

impl View for RequestHandler {
    type V = HandlerView;

    closed spec fn view(&self) -> HandlerView {
        HandlerView { stage: self.stage, entries: entry_views(self.entries@) }
    }
}

impl RequestHandler {
    /// A handler for a request that has not arrived yet.
    pub fn new() -> (r: RequestHandler)
        ensures
            r@ == initial(),
    {
        let r = RequestHandler { stage: Stage::Start, entries: Vec::new() };
        assert(r@.entries =~= seq![]);
        r
    }

    /// Where the request stands.
    pub fn stage(&self) -> (s: Stage)
        ensures
            s == self@.stage,
    {
        self.stage
    }

    fn fail(&mut self, kind: ErrorKind)
        ensures
            final(self)@ == failed(kind),
    {
        self.stage = Stage::Failed(kind);
        self.entries = Vec::new();
        assert(final(self)@.entries =~= seq![]);
    }

    /// Takes in what happened and says what to do next.
    pub fn step(&mut self, event: Event) -> (action: Action)
        ensures
            (final(self)@, action@) == next(old(self)@, event),
    {
        match self.stage {
            Stage::Start => match event {
                Event::Request => {
                    self.stage = Stage::PoolAcquire;
                    self.entries = Vec::new();
                    assert(self@.entries =~= seq![]);
                    Action::AcquireConnection
                },
                _ => Action::Ignore,
            },
            Stage::PoolAcquire => match event {
                Event::Connected => {
                    self.stage = Stage::Fetch;
                    self.entries = Vec::new();
                    assert(self@.entries =~= seq![]);
                    Action::RunQuery
                },
                Event::PoolFailed(d) => {
                    self.fail(ErrorKind::ConnectionPool);
                    Action::Fail(HandlerError::ConnectionPool(d))
                },
                _ => Action::Ignore,
            },
            Stage::Fetch => match event {
                Event::Row(cells) => match decode_row(&cells) {
                    Ok(e) => {
                        let ghost before = self.entries@;
                        self.entries.push(e);
                        assert(entry_views(self.entries@) =~= entry_views(before).push(e@));
                        Action::NextRow
                    },
                    Err(m) => {
                        self.fail(ErrorKind::QueryExecution);
                        Action::Fail(HandlerError::QueryExecution(FetchError::Mapping(m)))
                    },
                },
                Event::PrepareFailed(d) => {
                    self.fail(ErrorKind::QueryExecution);
                    Action::Fail(HandlerError::QueryExecution(FetchError::QueryPreparation(d)))
                },
                Event::ExecFailed(d) => {
                    self.fail(ErrorKind::QueryExecution);
                    Action::Fail(HandlerError::QueryExecution(FetchError::Execution(d)))
                },
                Event::RowsEnd => match render_page(&self.entries) {
                    Ok(page) => {
                        self.stage = Stage::Responded;
                        self.entries = Vec::new();
                        assert(self@.entries =~= seq![]);
                        Action::Respond(Response::page(page))
                    },
                    Err(r) => {
                        self.fail(ErrorKind::Render);
                        Action::Fail(HandlerError::Render(r))
                    },
                },
                _ => Action::Ignore,
            },
            _ => Action::Ignore,
        }
    }
}

} // verus!
