use todo_web::{
    Action, CellKind, CellValue, ErrorKind, Event, FetchError, HandlerError, MapError,
    RenderError, RequestHandler, Response, Stage, HTML_CONTENT_TYPE, LISTING_QUERY, PAGE_HEAD,
    PAGE_TAIL, POOL_MESSAGE, QUERY_MESSAGE, RENDER_MESSAGE, STATUS_OK, STATUS_SERVER_ERROR,
    TEXT_CONTENT_TYPE,
};

fn row(id: i64, text: &str) -> Vec<CellValue> {
    vec![CellValue::Integer(id), CellValue::Text(text.as_bytes().to_vec())]
}

/// Feeds a whole request that reads `rows` and returns every action.
fn listing(rows: Vec<Vec<CellValue>>) -> (RequestHandler, Vec<Action>) {
    let mut h = RequestHandler::new();
    let mut actions = vec![h.step(Event::Request), h.step(Event::Connected)];
    for r in rows {
        actions.push(h.step(Event::Row(r)));
    }
    actions.push(h.step(Event::RowsEnd));
    (h, actions)
}

fn response_of(action: &Action) -> Response {
    match action {
        Action::Respond(r) => r.clone(),
        Action::Fail(e) => e.to_response(),
        other => panic!("no answer in {:?}", other),
    }
}

#[test]
fn two_rows_listing() {
    let (h, actions) = listing(vec![row(1, "buy milk"), row(2, "walk dog")]);
    assert_eq!(h.stage(), Stage::Responded);
    let resp = response_of(actions.last().unwrap());
    assert_eq!(resp.status, 200);
    assert!(resp.is_success());
    assert_eq!(resp.content_type, "text/html");
    assert!(resp.body.contains("buy milk"));
    assert!(resp.body.contains("walk dog"));
    assert_eq!(resp.body.matches("<li>").count(), 2);
    assert!(resp.body.find("buy milk").unwrap() < resp.body.find("walk dog").unwrap());
}

#[test]
fn pool_outage_answers_server_error() {
    let mut h = RequestHandler::new();
    assert_eq!(h.step(Event::Request), Action::AcquireConnection);
    let a = h.step(Event::PoolFailed("timed out waiting for connection".to_string()));
    assert_eq!(
        a,
        Action::Fail(HandlerError::ConnectionPool("timed out waiting for connection".to_string()))
    );
    assert_eq!(h.stage(), Stage::Failed(ErrorKind::ConnectionPool));
    let resp = response_of(&a);
    assert!(!resp.is_success());
    assert_eq!(resp.status, 500);
    assert_eq!(resp.body, "Failed get connection");
}

#[test]
fn empty_table_gives_empty_list() {
    let (h, actions) = listing(vec![]);
    assert_eq!(h.stage(), Stage::Responded);
    assert_eq!(
        actions[..2],
        [Action::AcquireConnection, Action::RunQuery]
    );
    let resp = response_of(&actions[2]);
    assert_eq!(resp.status, STATUS_OK);
    assert_eq!(resp.body, format!("{}{}", PAGE_HEAD, PAGE_TAIL));
    assert!(!resp.body.contains("<li>"));
}

#[test]
fn listing_shows_every_row_in_store_order() {
    let rows: Vec<Vec<CellValue>> =
        vec![row(9, "third"), row(3, "first"), row(5, "<second>")];
    let (_, actions) = listing(rows);
    assert_eq!(actions.len(), 6);
    assert!(actions[2..5].iter().all(|a| *a == Action::NextRow));
    let resp = response_of(&actions[5]);
    let expected = format!(
        "{}<li>9: third</li>\n<li>3: first</li>\n<li>5: &lt;second&gt;</li>\n{}",
        PAGE_HEAD, PAGE_TAIL
    );
    assert_eq!(resp.body, expected);
}

#[test]
fn repeated_requests_give_identical_bodies() {
    let rows = vec![row(1, "buy milk"), row(2, "walk dog")];
    let (_, first) = listing(rows.clone());
    let (_, second) = listing(rows);
    assert_eq!(first, second);
    assert_eq!(response_of(&first[4]).body, response_of(&second[4]).body);
}

#[test]
fn bad_row_fails_whole_listing() {
    let mut h = RequestHandler::new();
    h.step(Event::Request);
    h.step(Event::Connected);
    assert_eq!(h.step(Event::Row(row(1, "buy milk"))), Action::NextRow);
    let a = h.step(Event::Row(vec![CellValue::Null, CellValue::Null]));
    assert_eq!(
        a,
        Action::Fail(HandlerError::QueryExecution(FetchError::Mapping(MapError::WrongType {
            column: 0,
            found: CellKind::Null,
        })))
    );
    assert_eq!(h.stage(), Stage::Failed(ErrorKind::QueryExecution));
    // whatever is reported afterwards, no page is ever handed out
    assert_eq!(h.step(Event::Row(row(2, "walk dog"))), Action::Ignore);
    assert_eq!(h.step(Event::RowsEnd), Action::Ignore);
    let resp = response_of(&a);
    assert_eq!(resp.status, 500);
    assert!(!resp.body.contains("buy milk"));
}

#[test]
fn store_failure_midway_fails_whole_listing() {
    let mut h = RequestHandler::new();
    h.step(Event::Request);
    h.step(Event::Connected);
    h.step(Event::Row(row(1, "buy milk")));
    let a = h.step(Event::ExecFailed("disk I/O error".to_string()));
    assert_eq!(
        a,
        Action::Fail(HandlerError::QueryExecution(FetchError::Execution(
            "disk I/O error".to_string()
        )))
    );
    assert_eq!(h.step(Event::RowsEnd), Action::Ignore);
    assert_eq!(response_of(&a).body, QUERY_MESSAGE);
}

#[test]
fn prepare_failure_fails_request() {
    let mut h = RequestHandler::new();
    h.step(Event::Request);
    assert_eq!(h.step(Event::Connected), Action::RunQuery);
    let a = h.step(Event::PrepareFailed("no such table: todo".to_string()));
    assert_eq!(
        a,
        Action::Fail(HandlerError::QueryExecution(FetchError::QueryPreparation(
            "no such table: todo".to_string()
        )))
    );
    assert_eq!(h.stage(), Stage::Failed(ErrorKind::QueryExecution));
}

#[test]
fn out_of_order_events_are_ignored() {
    let mut h = RequestHandler::new();
    assert_eq!(h.stage(), Stage::Start);
    assert_eq!(h.step(Event::RowsEnd), Action::Ignore);
    assert_eq!(h.step(Event::Connected), Action::Ignore);
    assert_eq!(h.stage(), Stage::Start);
    h.step(Event::Request);
    assert_eq!(h.stage(), Stage::PoolAcquire);
    assert_eq!(h.step(Event::Row(row(1, "x"))), Action::Ignore);
    assert_eq!(h.step(Event::Request), Action::Ignore);
    assert_eq!(h.stage(), Stage::PoolAcquire);
    h.step(Event::Connected);
    assert_eq!(h.stage(), Stage::Fetch);
    assert_eq!(h.step(Event::PoolFailed("late".to_string())), Action::Ignore);
    assert_eq!(h.stage(), Stage::Fetch);
}

#[test]
fn answered_request_ignores_further_events() {
    let (mut h, _) = listing(vec![row(1, "a")]);
    assert_eq!(h.step(Event::Row(row(2, "b"))), Action::Ignore);
    assert_eq!(h.step(Event::RowsEnd), Action::Ignore);
    assert_eq!(h.stage(), Stage::Responded);
}

#[test]
fn error_answers_per_kind() {
    let pool = HandlerError::ConnectionPool("x".to_string());
    let query = HandlerError::QueryExecution(FetchError::Execution("y".to_string()));
    let render = HandlerError::Render(RenderError::Filter);
    assert_eq!(pool.kind(), ErrorKind::ConnectionPool);
    assert_eq!(query.kind(), ErrorKind::QueryExecution);
    assert_eq!(render.kind(), ErrorKind::Render);
    for (e, msg) in [(pool, POOL_MESSAGE), (query, QUERY_MESSAGE), (render, RENDER_MESSAGE)] {
        let r = e.to_response();
        assert_eq!(r.status, STATUS_SERVER_ERROR);
        assert_eq!(r.content_type, TEXT_CONTENT_TYPE);
        assert_eq!(r.body, msg);
        assert_eq!(e.message(), msg);
    }
    assert_eq!(RENDER_MESSAGE, "Failed to render HTML");
    assert_eq!(QUERY_MESSAGE, "Failed SQL execution");
}

#[test]
fn page_answer() {
    let r = Response::page("<p>hi</p>".to_string());
    assert_eq!(r.status, 200);
    assert_eq!(r.content_type, HTML_CONTENT_TYPE);
    assert_eq!(r.body, "<p>hi</p>");
    assert!(r.is_success());
}

#[test]
fn listing_query_reads_both_columns() {
    assert_eq!(LISTING_QUERY, "SELECT id, text FROM todo");
}
