//! What holds of whole requests, proved over the step function.
use crate::decode::{decoded, CellValue};
use crate::handler::{failed, initial, next, run, ActionView, Event, HandlerView, Stage};
use crate::render::{item_markup, items_markup, page_of, PAGE_HEAD, PAGE_TAIL};
use crate::response::{page_response, ErrorKind, FetchError, HandlerError};
use vstd::prelude::*;

verus! {

/// The events of a row-by-row read of `rows`.
pub open spec fn row_events(rows: Seq<Vec<CellValue>>) -> Seq<Event> {
    rows.map_values(|r: Vec<CellValue>| Event::Row(r))
}

/// The events of a request up to the end of a successful read of `rows`.
pub open spec fn fetch_events(rows: Seq<Vec<CellValue>>) -> Seq<Event> {
    seq![Event::Request, Event::Connected] + row_events(rows)
}

/// The events of a request that reads `rows` and finds no more.
pub open spec fn listing_events(rows: Seq<Vec<CellValue>>) -> Seq<Event> {
    fetch_events(rows).push(Event::RowsEnd)
}

/// Whether every row decodes.
pub open spec fn all_decode(rows: Seq<Vec<CellValue>>) -> bool {
    forall|i: int| 0 <= i < rows.len() ==> decoded(#[trigger] rows[i]@) is Ok
}

/// The entries that `rows` decode to.
pub open spec fn decoded_rows(rows: Seq<Vec<CellValue>>) -> Seq<(u32, Seq<char>)> {
    rows.map_values(|r: Vec<CellValue>| decoded(r@)->Ok_0)
}

/// Whether two events report the same thing: rows with the same cells, or
/// else the same event.
pub open spec fn same_report(a: Event, b: Event) -> bool {
    match (a, b) {
        (Event::Row(x), Event::Row(y)) => x@ == y@,
        _ => a == b,
    }
}

/// Whether a stage is final.
pub open spec fn settled(s: Stage) -> bool {
    s is Responded || s is Failed
}

proof fn lemma_run_append(h: HandlerView, a: Seq<Event>, b: Seq<Event>)
    ensures
        run(h, a + b) == (run(run(h, a).0, b).0, run(h, a).1 + run(run(h, a).0, b).1),
    decreases b.len(),
{
    if b.len() == 0 {
        assert(a + b =~= a);
        assert(run(h, a).1 + run(run(h, a).0, b).1 =~= run(h, a).1);
    } else {
        lemma_run_append(h, a, b.drop_last());
        assert((a + b).drop_last() =~= a + b.drop_last());
        assert((a + b).last() == b.last());
        let mid = run(h, a);
        let tail = run(mid.0, b.drop_last());
        assert(mid.1 + tail.1.push(next(tail.0, b.last()).1) =~= (mid.1 + tail.1).push(
            next(tail.0, b.last()).1,
        ));
    }
}

proof fn lemma_run_settled(h: HandlerView, events: Seq<Event>)
    requires
        settled(h.stage),
    ensures
        run(h, events).0 == h,
        run(h, events).1.len() == events.len(),
        forall|j: int| 0 <= j < events.len() ==> #[trigger] run(h, events).1[j] is Ignore,
    decreases events.len(),
{
    if events.len() > 0 {
        lemma_run_settled(h, events.drop_last());
    }
}

proof fn lemma_fetching(rows: Seq<Vec<CellValue>>)
    requires
        all_decode(rows),
    ensures
        run(initial(), fetch_events(rows)).0 == (HandlerView {
            stage: Stage::Fetch,
            entries: decoded_rows(rows),
        }),
        run(initial(), fetch_events(rows)).1.len() == rows.len() + 2,
        forall|j: int|
            0 <= j < rows.len() + 2 ==> !(#[trigger] run(initial(), fetch_events(rows)).1[j] is Respond),
    decreases rows.len(),
{
    let evs = fetch_events(rows);
    if rows.len() == 0 {
        let first = seq![Event::Request];
        assert(first.drop_last() =~= Seq::<Event>::empty());
        assert(run(initial(), Seq::<Event>::empty()).1 =~= Seq::<ActionView>::empty());
        assert(run(initial(), first).0 == (HandlerView { stage: Stage::PoolAcquire, entries: seq![] }));
        assert(evs.drop_last() =~= first);
        assert(evs.last() == Event::Connected);
        assert(decoded_rows(rows) =~= seq![]);
    } else {
        let prev = rows.drop_last();
        assert(all_decode(prev)) by {
            assert forall|i: int| 0 <= i < prev.len() implies decoded(#[trigger] prev[i]@) is Ok by {
                assert(prev[i] == rows[i]);
            }
        }
        lemma_fetching(prev);
        assert(evs.drop_last() =~= fetch_events(prev));
        assert(evs.last() == Event::Row(rows.last()));
        assert(decoded(rows[rows.len() - 1]@) is Ok);
        assert(decoded_rows(rows) =~= decoded_rows(prev).push(decoded(rows.last()@)->Ok_0));
        let acts = run(initial(), evs).1;
        assert(acts == run(initial(), fetch_events(prev)).1.push(ActionView::NextRow));
    }
}

/// A request that reads rows which all decode answers with the page that
/// lists exactly those rows, one entry per row with its identifier and its
/// text, in the order the store returned them; no earlier step answers.
pub proof fn law_listing_shows_every_row(rows: Seq<Vec<CellValue>>)
    requires
        all_decode(rows),
    ensures
        decoded_rows(rows).len() == rows.len(),
        forall|i: int|
            0 <= i < rows.len() ==> Ok::<(u32, Seq<char>), crate::decode::MapError>(
                #[trigger] decoded_rows(rows)[i],
            ) == decoded(rows[i]@),
        run(initial(), listing_events(rows)).0.stage == Stage::Responded,
        run(initial(), listing_events(rows)).1.len() == rows.len() + 3,
        run(initial(), listing_events(rows)).1.last() == ActionView::Respond(
            page_response(page_of(decoded_rows(rows))),
        ),
        forall|j: int|
            0 <= j < rows.len() + 2 ==> !(#[trigger] run(
                initial(),
                listing_events(rows),
            ).1[j] is Respond),
{
    lemma_fetching(rows);
    let evs = listing_events(rows);
    assert(evs.drop_last() =~= fetch_events(rows));
    assert forall|i: int| 0 <= i < rows.len() implies Ok::<(u32, Seq<char>), crate::decode::MapError>(
        #[trigger] decoded_rows(rows)[i],
    ) == decoded(rows[i]@) by {
        assert(decoded(rows[i]@) is Ok);
    }
}

/// A request on an empty table answers with the page whose list holds no item.
pub proof fn law_empty_listing()
    ensures
        run(initial(), listing_events(seq![])).0.stage == Stage::Responded,
        run(initial(), listing_events(seq![])).1.last() == ActionView::Respond(
            page_response(PAGE_HEAD@ + PAGE_TAIL@),
        ),
{
    law_listing_shows_every_row(seq![]);
    assert(decoded_rows(seq![]) =~= seq![]);
    assert(PAGE_HEAD@ + Seq::<char>::empty() + PAGE_TAIL@ =~= PAGE_HEAD@ + PAGE_TAIL@);
}

proof fn lemma_run_same(h: HandlerView, a: Seq<Event>, b: Seq<Event>)
    requires
        a.len() == b.len(),
        forall|i: int| 0 <= i < a.len() ==> same_report(#[trigger] a[i], b[i]),
    ensures
        run(h, a) == run(h, b),
    decreases a.len(),
{
    if a.len() > 0 {
        lemma_run_same(h, a.drop_last(), b.drop_last());
        assert(same_report(a.last(), b.last()));
    }
}

/// Two requests that read rows with the same cells get identical answers,
/// down to every step: nothing carries over from one request to the next.
pub proof fn law_listing_is_reproducible(rows1: Seq<Vec<CellValue>>, rows2: Seq<Vec<CellValue>>)
    requires
        rows1.len() == rows2.len(),
        forall|i: int| 0 <= i < rows1.len() ==> (#[trigger] rows1[i])@ == rows2[i]@,
    ensures
        run(initial(), listing_events(rows1)) == run(initial(), listing_events(rows2)),
{
    let a = listing_events(rows1);
    let b = listing_events(rows2);
    assert forall|i: int| 0 <= i < a.len() implies same_report(#[trigger] a[i], b[i]) by {
        if 2 <= i < rows1.len() + 2 {
            assert(rows1[i - 2]@ == rows2[i - 2]@);
        }
    }
    lemma_run_same(initial(), a, b);
}

/// A row that does not decode fails the request, whatever is reported after
/// it: the failure names the row's decoding error, the entries decoded
/// before it are dropped, and no answer carrying a page is ever given.
pub proof fn law_bad_row_fails_whole_listing(
    rows: Seq<Vec<CellValue>>,
    k: int,
    rest: Seq<Event>,
)
    requires
        0 <= k < rows.len(),
        all_decode(rows.take(k)),
        decoded(rows[k]@) is Err,
    ensures
        ({
            let (h, acts) = run(initial(), fetch_events(rows.take(k + 1)) + rest);
            &&& h == failed(ErrorKind::QueryExecution)
            &&& acts[k + 2] == ActionView::Fail(
                HandlerError::QueryExecution(FetchError::Mapping(decoded(rows[k]@)->Err_0)),
            )
            &&& forall|j: int| 0 <= j < acts.len() ==> !(#[trigger] acts[j] is Respond)
        }),
{
    let good = rows.take(k);
    lemma_fetching(good);
    let evs = fetch_events(rows.take(k + 1));
    assert(evs.drop_last() =~= fetch_events(good));
    assert(evs.last() == Event::Row(rows[k]));
    let h = run(initial(), evs).0;
    assert(h == failed(ErrorKind::QueryExecution));
    lemma_run_append(initial(), evs, rest);
    lemma_run_settled(h, rest);
    let acts = run(initial(), evs + rest).1;
    assert forall|j: int| 0 <= j < acts.len() implies !(#[trigger] acts[j] is Respond) by {
        if j >= k + 3 {
            assert(acts[j] == run(h, rest).1[j - (k + 3)]);
        }
    }
}

/// A store failure while the rows are read fails the request, whatever is
/// reported after it: the entries read before it are dropped and no answer
/// carrying a page is ever given.
pub proof fn law_store_failure_fails_whole_listing(
    rows: Seq<Vec<CellValue>>,
    detail: String,
    rest: Seq<Event>,
)
    requires
        all_decode(rows),
    ensures
        ({
            let (h, acts) = run(
                initial(),
                fetch_events(rows).push(Event::ExecFailed(detail)) + rest,
            );
            &&& h == failed(ErrorKind::QueryExecution)
            &&& acts[rows.len() + 2int] == ActionView::Fail(
                HandlerError::QueryExecution(FetchError::Execution(detail)),
            )
            &&& forall|j: int| 0 <= j < acts.len() ==> !(#[trigger] acts[j] is Respond)
        }),
{
    lemma_fetching(rows);
    let evs = fetch_events(rows).push(Event::ExecFailed(detail));
    assert(evs.drop_last() =~= fetch_events(rows));
    let h = run(initial(), evs).0;
    lemma_run_append(initial(), evs, rest);
    lemma_run_settled(h, rest);
    let acts = run(initial(), evs + rest).1;
    assert forall|j: int| 0 <= j < acts.len() implies !(#[trigger] acts[j] is Respond) by {
        if j >= rows.len() + 3 {
            assert(acts[j] == run(h, rest).1[j - (rows.len() + 3)]);
        }
    }
}

proof fn lemma_items_append(a: Seq<(u32, Seq<char>)>, b: Seq<(u32, Seq<char>)>)
    ensures
        items_markup(a + b) == items_markup(a) + items_markup(b),
    decreases b.len(),
{
    if b.len() == 0 {
        assert(a + b =~= a);
        assert(items_markup(a) + items_markup(b) =~= items_markup(a));
    } else {
        lemma_items_append(a, b.drop_last());
        assert((a + b).drop_last() =~= a + b.drop_last());
        assert((a + b).last() == b.last());
        assert(items_markup(a) + items_markup(b) =~= items_markup(a) + items_markup(b.drop_last())
            + item_markup(b.last()));
    }
}

/// The page shows the `i`-th entry as one item, after the items of the
/// entries before it and before the items of the entries after it.
pub proof fn law_page_shows_entry_in_place(es: Seq<(u32, Seq<char>)>, i: int)
    requires
        0 <= i < es.len(),
    ensures
        page_of(es) == PAGE_HEAD@ + items_markup(es.take(i)) + item_markup(es[i]) + items_markup(
            es.skip(i + 1),
        ) + PAGE_TAIL@,
{
    let before = es.take(i);
    let after = es.skip(i + 1);
    assert(es =~= before.push(es[i]) + after);
    lemma_items_append(before.push(es[i]), after);
    assert(before.push(es[i]).drop_last() =~= before);
    assert(page_of(es) =~= PAGE_HEAD@ + items_markup(before) + item_markup(es[i]) + items_markup(
        after,
    ) + PAGE_TAIL@);
}

} // verus!
