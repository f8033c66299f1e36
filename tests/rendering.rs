use todo_web::{render_page, TodoEntry, ITEM_CLOSE, ITEM_OPEN, PAGE_HEAD, PAGE_TAIL};

fn entry(id: u32, text: &str) -> TodoEntry {
    TodoEntry { id, text: text.to_string() }
}

#[test]
fn empty_page_has_no_items() {
    let page = render_page(&vec![]).unwrap();
    assert_eq!(page, format!("{}{}", PAGE_HEAD, PAGE_TAIL));
    assert!(!page.contains(ITEM_OPEN));
    assert!(page.starts_with("<!DOCTYPE html>"));
    assert!(page.ends_with("</html>\n"));
}

#[test]
fn page_lists_entries_in_order() {
    let page = render_page(&vec![entry(2, "walk dog"), entry(1, "buy milk")]).unwrap();
    let expected = format!(
        "{}<li>2: walk dog</li>\n<li>1: buy milk</li>\n{}",
        PAGE_HEAD, PAGE_TAIL
    );
    assert_eq!(page, expected);
}

#[test]
fn identifiers_in_decimal() {
    let page = render_page(&vec![entry(0, "a"), entry(10, "b"), entry(4294967295, "c")]).unwrap();
    assert!(page.contains("<li>0: a</li>"));
    assert!(page.contains("<li>10: b</li>"));
    assert!(page.contains("<li>4294967295: c</li>"));
}

#[test]
fn text_is_html_escaped() {
    let page = render_page(&vec![entry(5, "<b>Tom & \"Jerry\"'s</b>")]).unwrap();
    assert!(page.contains("<li>5: &lt;b&gt;Tom &amp; &quot;Jerry&quot;&#x27;s&lt;/b&gt;</li>\n"));
    assert!(!page.contains("<b>Tom"));
}

#[test]
fn non_ascii_text_is_kept() {
    let page = render_page(&vec![entry(3, "café ☕")]).unwrap();
    assert!(page.contains("<li>3: café ☕</li>"));
}

#[test]
fn one_item_per_entry() {
    let entries: Vec<TodoEntry> = (1..=20).map(|i| entry(i, "task")).collect();
    let page = render_page(&entries).unwrap();
    assert_eq!(page.matches(ITEM_OPEN).count(), 20);
    assert_eq!(page.matches(ITEM_CLOSE).count(), 20);
}

#[test]
fn rendering_twice_gives_identical_pages() {
    let entries = vec![entry(1, "buy milk"), entry(2, "walk dog")];
    assert_eq!(render_page(&entries), render_page(&entries.clone()));
}
