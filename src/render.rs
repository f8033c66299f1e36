//! Rendering the listing page from a sequence of entries.
use crate::decode::TodoEntry;
use vstd::prelude::*;

verus! {

/// The page up to the first item of the list.
pub const PAGE_HEAD: &'static str = "<!DOCTYPE html>\n<html>\n<head>\n<meta charset=\"utf-8\">\n<title>ToDo</title>\n</head>\n<body>\n<h1>ToDo</h1>\n<ul>\n";

/// The page after the last item of the list.
pub const PAGE_TAIL: &'static str = "</ul>\n</body>\n</html>\n";

/// Opens one item of the list.
pub const ITEM_OPEN: &'static str = "<li>";

/// Stands between an item's identifier and its text.
pub const ITEM_SEPARATOR: &'static str = ": ";

/// Closes one item of the list.
pub const ITEM_CLOSE: &'static str = "</li>\n";

/// Why the page could not be rendered.
#[derive(Debug, Clone, Copy, PartialEq, Eq, Structural)]
pub enum RenderError {
    /// The template's escaping filter refused a value.
    Filter,
}

/// The decimal digit for `d`.
pub open spec fn digit(d: nat) -> char {
    seq!['0', '1', '2', '3', '4', '5', '6', '7', '8', '9'][d as int]
}

/// The decimal notation of `n`, without leading zeros.
pub open spec fn decimal(n: nat) -> Seq<char>
    decreases n,
{
    if n < 10 {
        seq![digit(n)]
    } else {
        decimal(n / 10).push(digit(n % 10))
    }
}

/// What HTML escaping writes for the character `c`.
pub open spec fn escaped_char(c: char) -> Seq<char> {
    if c == '<' {
        "&lt;"@
    } else if c == '>' {
        "&gt;"@
    } else if c == '&' {
        "&amp;"@
    } else if c == '"' {
        "&quot;"@
    } else if c == '\'' {
        "&#x27;"@
    } else {
        seq![c]
    }
}

/// `s` with each character replaced by its HTML escape.
pub open spec fn html_escaped(s: Seq<char>) -> Seq<char>
    decreases s.len(),
{
    if s.len() == 0 {
        seq![]
    } else {
        html_escaped(s.drop_last()) + escaped_char(s.last())
    }
}

/// The markup of one entry in the list.
pub open spec fn item_markup(e: (u32, Seq<char>)) -> Seq<char> {
    ITEM_OPEN@ + decimal(e.0 as nat) + ITEM_SEPARATOR@ + html_escaped(e.1) + ITEM_CLOSE@
}

/// The markup of all entries, one item after another in their order.
pub open spec fn items_markup(es: Seq<(u32, Seq<char>)>) -> Seq<char>
    decreases es.len(),
{
    if es.len() == 0 {
        seq![]
    } else {
        items_markup(es.drop_last()) + item_markup(es.last())
    }
}

/// The whole page listing `es`.
pub open spec fn page_of(es: Seq<(u32, Seq<char>)>) -> Seq<char> {
    PAGE_HEAD@ + items_markup(es) + PAGE_TAIL@
}

/// The views of a sequence of entries.
pub open spec fn entry_views(es: Seq<TodoEntry>) -> Seq<(u32, Seq<char>)> {
    es.map_values(|e: TodoEntry| e@)
}

/// askama's error type, carried through unread.
#[verifier::external_type_specification]
#[verifier::external_body]
pub struct ExAskamaError(askama::Error);

/// Relies on askama's `escape` filter with its `Html` escaper, the filter
/// that an `.html` template applies to each value it prints: it always
/// succeeds, and each of `<`, `>`, `&`, `"` and `'` becomes an entity while
/// every other character is kept.
#[verifier::external_body]
fn escape_html(s: &str) -> (r: Result<String, askama::Error>)
    ensures
        r is Ok,
        r matches Ok(t) ==> t@ == html_escaped(s@),
{
    match askama::filters::escape(askama::Html, s) {
        Ok(m) => Ok(m.to_string()),
        Err(e) => Err(e),
    }
}

fn digit_str(d: u32) -> (r: &'static str)
    requires
        d < 10,
    ensures
        r@ == seq![digit(d as nat)],
{
    proof {
        reveal_strlit("0");
        reveal_strlit("1");
        reveal_strlit("2");
        reveal_strlit("3");
        reveal_strlit("4");
        reveal_strlit("5");
        reveal_strlit("6");
        reveal_strlit("7");
        reveal_strlit("8");
        reveal_strlit("9");
    }
    let r = if d == 0 {
        "0"
    } else if d == 1 {
        "1"
    } else if d == 2 {
        "2"
    } else if d == 3 {
        "3"
    } else if d == 4 {
        "4"
    } else if d == 5 {
        "5"
    } else if d == 6 {
        "6"
    } else if d == 7 {
        "7"
    } else if d == 8 {
        "8"
    } else {
        "9"
    };
    assert(r@ =~= seq![digit(d as nat)]);
    r
}

/// Appends the decimal notation of `n` to `out`.
fn push_decimal(out: &mut String, n: u32)
    ensures
        final(out)@ == old(out)@ + decimal(n as nat),
    decreases n,
{
    if n >= 10 {
        push_decimal(out, n / 10);
    }
    out.append(digit_str(n % 10));
    assert(old(out)@ + decimal(n as nat) =~= final(out)@) by {
        if n >= 10 {
            assert(decimal(n as nat) == decimal((n / 10) as nat).push(digit((n % 10) as nat)));
        }
    }
}

/// Renders the page that lists `entries` in their order.
pub fn render_page(entries: &Vec<TodoEntry>) -> (r: Result<String, RenderError>)
    ensures
        r is Ok,
        r matches Ok(page) ==> page@ == page_of(entry_views(entries@)),
{
    let mut page = String::from_str(PAGE_HEAD);
    let ghost views = entry_views(entries@);
    for i in 0..entries.len()
        invariant
            views == entry_views(entries@),
            page@ == PAGE_HEAD@ + items_markup(views.take(i as int)),
    {
        let e = &entries[i];
        let ghost before = page@;
        page.append(ITEM_OPEN);
        push_decimal(&mut page, e.id);
        page.append(ITEM_SEPARATOR);
        match escape_html(e.text.as_str()) {
            Ok(t) => page.append(t.as_str()),
            Err(_) => return Err(RenderError::Filter),
        }
        page.append(ITEM_CLOSE);
        assert(views.take(i + 1).drop_last() =~= views.take(i as int));
        assert(page@ =~= before + item_markup(views[i as int]));
    }
    assert(views.take(entries.len() as int) =~= views);
    page.append(PAGE_TAIL);
    Ok(page)
}

} // verus!
