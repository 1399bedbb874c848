use vstd::prelude::*;

use crate::course::{SIAKCourse, views};
use crate::rows::{CellView, RowCell, SiblingRow, decode_rows, row_views, rows_courses, text_view};
use ego_tree::NodeId;
use scraper::{Html, Selector};

verus! {

#[verifier::external_type_specification]
#[verifier::external_body]
pub struct ExHtml(Html);

#[verifier::external_type_specification]
#[verifier::external_body]
pub struct ExSelector(Selector);

#[verifier::external_type_specification]
#[verifier::external_body]
pub struct ExNodeId(NodeId);

/// Selects the rows of the results table that are neither header nor
/// alternate rows; the last of them is the anchor row.
pub const ANCHOR_ROW: &'static str = "table.box > tbody > tr:not(.x, .alt)";

/// Whether scraper accepts `selector` as a CSS selector.
pub uninterp spec fn selector_valid(selector: Seq<char>) -> bool;

/// The nodes of the document parsed from `text` that `selector` matches, in document order.
pub uninterp spec fn html_matches(text: Seq<char>, selector: Seq<char>) -> Seq<NodeId>;

/// The node after `id` among its siblings, in the document parsed from `text`.
pub uninterp spec fn html_next_sibling(text: Seq<char>, id: NodeId) -> Option<NodeId>;

/// The first child of `id`, in the document parsed from `text`.
pub uninterp spec fn html_first_child(text: Seq<char>, id: NodeId) -> Option<NodeId>;

/// The text of `id` where it is a text node, in the document parsed from `text`.
pub uninterp spec fn html_text(text: Seq<char>, id: NodeId) -> Option<Seq<char>>;

/// The number of nodes of the document parsed from `text`.
pub uninterp spec fn html_node_count(text: Seq<char>) -> nat;

/// A parsed document together with the text it was parsed from. Its fields
/// are private and only `Page::parse` builds it, so `doc` is always the
/// parse of `text`.
struct Page {
    text: String,
    doc: Html,
}

/// A compiled selector together with its source text, built only by `Pattern::parse`.
struct Pattern {
    source: String,
    sel: Selector,
}

/// Relies on scraper::Html::parse_document to build the document tree.
#[verifier::external_body]
fn parse_document(text: &str) -> (r: Html) {
    Html::parse_document(text)
}

/// Relies on scraper::Selector::parse, which accepts a selector or reports an
/// error depending on its text alone; the error is dropped.
#[verifier::external_body]
fn parse_selector(text: &str) -> (r: Option<Selector>)
    ensures
        r is Some <==> selector_valid(text@),
{
    Selector::parse(text).ok()
}

/// Relies on scraper::Html::select for every element that the pattern matches,
/// in document order.
#[verifier::external_body]
fn select_all(page: &Page, pat: &Pattern) -> (r: Vec<NodeId>)
    ensures
        r@ == html_matches(page.text@, pat.source@),
{
    page.doc.select(&pat.sel).map(|e| e.id()).collect()
}

/// Relies on ego_tree's NodeRef::next_sibling for the node after `id`.
#[verifier::external_body]
fn next_sibling(page: &Page, id: NodeId) -> (r: Option<NodeId>)
    ensures
        r == html_next_sibling(page.text@, id),
{
    page.doc.tree.get(id).and_then(|n| n.next_sibling()).map(|n| n.id())
}

/// Relies on ego_tree's NodeRef::first_child for the first child of `id`.
#[verifier::external_body]
fn first_child(page: &Page, id: NodeId) -> (r: Option<NodeId>)
    ensures
        r == html_first_child(page.text@, id),
{
    page.doc.tree.get(id).and_then(|n| n.first_child()).map(|n| n.id())
}

/// Relies on scraper's Node::as_text for the text of `id`, if it is a text node.
#[verifier::external_body]
fn node_text(page: &Page, id: NodeId) -> (r: Option<String>)
    ensures
        text_view(r) == html_text(page.text@, id),
{
    page.doc.tree.get(id).and_then(|n| n.value().as_text()).map(|t| t.to_string())
}

/// Relies on ego_tree's Tree::nodes for the number of nodes of the document.
#[verifier::external_body]
fn node_count(page: &Page) -> (r: usize)
    ensures
        r as nat == html_node_count(page.text@),
{
    page.doc.tree.nodes().count()
}

impl Page {
    fn parse(body: &str) -> (r: Page)
        ensures
            r.text@ == body@,
    {
        Page { text: String::from_str(body), doc: parse_document(body) }
    }
}

impl Pattern {
    fn parse(text: &str) -> (r: Option<Pattern>)
        ensures
            r is Some <==> selector_valid(text@),
            r matches Some(p) ==> p.source@ == text@,
    {
        match parse_selector(text) {
            Some(sel) => Some(Pattern { source: String::from_str(text), sel }),
            None => None,
        }
    }
}

/// What a row reads of its child node `c`: the text of its first child, and
/// that of the first child's own first child.
pub open spec fn cell_at(t: Seq<char>, c: NodeId) -> CellView {
    match html_first_child(t, c) {
        None => CellView { text: None, inner_text: None },
        Some(f) => CellView {
            text: html_text(t, f),
            inner_text: match html_first_child(t, f) {
                Some(g) => html_text(t, g),
                None => None,
            },
        },
    }
}

/// The cells of the child nodes from `next` on, at most `fuel` of them.
pub open spec fn cells_from(t: Seq<char>, next: Option<NodeId>, fuel: nat) -> Seq<CellView>
    decreases fuel,
{
    if fuel == 0 {
        Seq::empty()
    } else {
        match next {
            None => Seq::empty(),
            Some(c) => seq![cell_at(t, c)] + cells_from(t, html_next_sibling(t, c), (fuel - 1) as nat),
        }
    }
}

/// The rows from `next` on among the anchor's following siblings, at most
/// `fuel` of them, each read to at most `fuel` cells.
pub open spec fn rows_from(t: Seq<char>, next: Option<NodeId>, fuel: nat, width: nat) -> Seq<Seq<CellView>>
    decreases fuel,
{
    if fuel == 0 {
        Seq::empty()
    } else {
        match next {
            None => Seq::empty(),
            Some(s) => seq![cells_from(t, html_first_child(t, s), width)] + rows_from(
                t,
                html_next_sibling(t, s),
                (fuel - 1) as nat,
                width,
            ),
        }
    }
}

/// The rows that the page `t` lists: `None` where no row matches the anchor
/// selector, else the sibling nodes that follow the last match, in document
/// order, each as the cells of its child nodes. No walk is longer than the
/// document has nodes.
pub open spec fn scraped_rows(t: Seq<char>) -> Option<Seq<Seq<CellView>>> {
    if !selector_valid(ANCHOR_ROW@) {
        None
    } else {
        let m = html_matches(t, ANCHOR_ROW@);
        if m.len() == 0 {
            None
        } else {
            let n = html_node_count(t);
            Some(rows_from(t, html_next_sibling(t, m.last()), n, n))
        }
    }
}

/// The text of the first child of `cell`, and that of the first child's own first child.
fn read_cell(page: &Page, cell: NodeId) -> (r: RowCell)
    ensures
        r@ == cell_at(page.text@, cell),
{
    match first_child(page, cell) {
        None => RowCell { text: None, inner_text: None },
        Some(f) => {
            let text = node_text(page, f);
            let inner_text = match first_child(page, f) {
                Some(g) => node_text(page, g),
                None => None,
            };
            RowCell { text, inner_text }
        },
    }
}

/// The child nodes of `row`, at most `limit` of them.
fn read_row(page: &Page, row: NodeId, limit: usize) -> (r: SiblingRow)
    ensures
        r@ == cells_from(page.text@, html_first_child(page.text@, row), limit as nat),
{
    let ghost t = page.text@;
    let mut cells: Vec<RowCell> = Vec::new();
    let mut next = first_child(page, row);
    let mut n: usize = 0;
    while n < limit && next.is_some()
        invariant
            n <= limit,
            t == page.text@,
            cells@.map_values(|c: RowCell| c@) + cells_from(t, next, (limit - n) as nat)
                == cells_from(t, html_first_child(t, row), limit as nat),
        decreases limit - n,
    {
        match next {
            None => {},
            Some(c) => {
                let ghost before = cells@.map_values(|c: RowCell| c@);
                let cell = read_cell(page, c);
                cells.push(cell);
                assert(cells@.map_values(|c: RowCell| c@) =~= before.push(cell@));
                assert(cells_from(t, next, (limit - n) as nat) == seq![cell@] + cells_from(
                    t,
                    html_next_sibling(t, c),
                    (limit - n - 1) as nat,
                ));
                assert(before.push(cell@) + cells_from(t, html_next_sibling(t, c), (limit - n - 1) as nat)
                    =~= before + (seq![cell@] + cells_from(t, html_next_sibling(t, c), (limit - n - 1) as nat)));
                next = next_sibling(page, c);
            },
        }
        n = n + 1;
    }
    assert(cells_from(t, next, (limit - n) as nat) =~= Seq::<CellView>::empty());
    assert(cells@.map_values(|c: RowCell| c@) =~= cells_from(t, html_first_child(t, row), limit as nat));
    SiblingRow { cells }
}

/// The sibling rows from `start` on, each read to at most `limit` cells.
fn read_rows(page: &Page, start: Option<NodeId>, limit: usize) -> (r: Vec<SiblingRow>)
    ensures
        row_views(r@) == rows_from(page.text@, start, limit as nat, limit as nat),
{
    let ghost t = page.text@;
    let mut rows: Vec<SiblingRow> = Vec::new();
    let mut next = start;
    let mut n: usize = 0;
    while n < limit && next.is_some()
        invariant
            n <= limit,
            t == page.text@,
            row_views(rows@) + rows_from(t, next, (limit - n) as nat, limit as nat)
                == rows_from(t, start, limit as nat, limit as nat),
        decreases limit - n,
    {
        match next {
            None => {},
            Some(s) => {
                let ghost before = row_views(rows@);
                let row = read_row(page, s, limit);
                rows.push(row);
                assert(row_views(rows@) =~= before.push(row@));
                let ghost rest = rows_from(t, html_next_sibling(t, s), (limit - n - 1) as nat, limit as nat);
                assert(rows_from(t, next, (limit - n) as nat, limit as nat) == seq![row@] + rest);
                assert(before.push(row@) + rest =~= before + (seq![row@] + rest));
                next = next_sibling(page, s);
            },
        }
        n = n + 1;
    }
    assert(rows_from(t, next, (limit - n) as nat, limit as nat) =~= Seq::<Seq<CellView>>::empty());
    assert(row_views(rows@) =~= rows_from(t, start, limit as nat, limit as nat));
    rows
}

/// The rows that follow the last row matching the anchor selector, or `None`
/// where no row matches it.
fn rows_after_anchor(page: &Page) -> (r: Option<Vec<SiblingRow>>)
    ensures
        match scraped_rows(page.text@) {
            None => r is None,
            Some(rows) => r is Some && row_views(r->Some_0@) == rows,
        },
{
    let pat = match Pattern::parse(ANCHOR_ROW) {
        Some(p) => p,
        None => return None,
    };
    let matches = select_all(page, &pat);
    if matches.len() == 0 {
        return None;
    }
    let anchor = matches[matches.len() - 1];
    let limit = node_count(page);
    let start = next_sibling(page, anchor);
    Some(read_rows(page, start, limit))
}

/// Parses the score page: `None` where the page holds no anchor row (the
/// session has most likely expired), else the courses of the rows that follow
/// the last anchor row, which may be none.
pub fn parse_scores(body: &str) -> (r: Option<Vec<SIAKCourse>>)
    ensures
        match scraped_rows(body@) {
            None => r is None,
            Some(rows) => r is Some && views(r->Some_0@) == rows_courses(rows),
        },
{
    let page = Page::parse(body);
    let rows = rows_after_anchor(&page);
    let ghost before = rows;
    let r = decode_rows(rows);
    proof {
        match before {
            Some(v) => {
                assert(views(r->Some_0@) == rows_courses(row_views(v@)));
            },
            None => {},
        }
    }
    r
}

} // verus!
