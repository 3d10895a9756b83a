//! The trusted boundary to the HTML parser.
//!
//! Everything the extraction logic reads from a page comes through the
//! functions here as plain strings, in document order. Each scan is a pure
//! function of the page text: parsing and selector matching walk the
//! document tree in a fixed order, so the same text always yields the same
//! fragments. The uninterpreted functions below name those results; all
//! contracts downstream are stated over them.

use vstd::prelude::*;
use scraper::Html;
use scraper::Selector;

verus! {

/// One anchor of the course page: its link target and its inner markup.
#[derive(Debug, Clone, PartialEq, Eq)]
pub struct CourseAnchor {
    pub href: String,
    pub text: String,
}

/// Spec-level shape of a `CourseAnchor`.
pub struct AnchorView {
    pub href: Seq<char>,
    pub text: Seq<char>,
}

impl DeepView for CourseAnchor {
    type V = AnchorView;

    open spec fn deep_view(&self) -> AnchorView {
        AnchorView { href: self.href@, text: self.text@ }
    }
}

/// One table cell of an assignment row, read in the few ways the column
/// schema needs: its raw inner markup, the inner markup of its first anchor,
/// its first text node (trimmed), and the inner markup of its first `span`
/// marker element (trimmed).
#[derive(Debug, Clone, PartialEq, Eq)]
pub struct CellFragment {
    pub raw: String,
    pub anchor: Option<String>,
    pub state_text: Option<String>,
    pub marker: Option<String>,
}

/// Spec-level shape of a `CellFragment`.
pub struct CellView {
    pub raw: Seq<char>,
    pub anchor: Option<Seq<char>>,
    pub state_text: Option<Seq<char>>,
    pub marker: Option<Seq<char>>,
}

impl DeepView for CellFragment {
    type V = CellView;

    open spec fn deep_view(&self) -> CellView {
        CellView {
            raw: self.raw@,
            anchor: self.anchor.deep_view(),
            state_text: self.state_text.deep_view(),
            marker: self.marker.deep_view(),
        }
    }
}

/// One assignment-table row: its cells in document order.
#[derive(Debug, Clone, PartialEq, Eq)]
pub struct RowFragments {
    pub cells: Vec<CellFragment>,
}

impl DeepView for RowFragments {
    type V = Seq<CellView>;

    open spec fn deep_view(&self) -> Seq<CellView> {
        self.cells.deep_view()
    }
}

/// The `(href, inner markup)` pairs of the anchors of `html` whose link
/// target begins with `course_`, in document order.
pub uninterp spec fn course_anchors_in(html: Seq<char>) -> Seq<AnchorView>;

/// The cell fragments of the assignment-table rows of `html` (every row of a
/// `table.stdlist` except the header row), in document order.
pub uninterp spec fn assignment_rows_in(html: Seq<char>) -> Seq<Seq<CellView>>;

/// Whether `html` holds the organisation header element that only an
/// authenticated page carries.
pub uninterp spec fn org_header_in(html: Seq<char>) -> bool;

/// Relies on scraper: `Html::parse_document` on the page text, `Html::select`
/// with the constant selector `a[href^='course_']` (valid CSS, so
/// `Selector::parse` cannot fail), and `ElementRef::attr` / `inner_html` to
/// read each match. Yields one entry per matching anchor, in document order;
/// the selector guarantees every match carries an `href`.
#[verifier::external_body]
pub(crate) fn scan_course_anchors(html: &str) -> (r: Vec<CourseAnchor>)
    ensures
        r.deep_view() == course_anchors_in(html@),
{
    let doc = Html::parse_document(html);
    let sel = Selector::parse("a[href^='course_']").unwrap();
    let mut out = Vec::new();
    for el in doc.select(&sel) {
        let href = el.attr("href").unwrap_or("").to_string();
        out.push(CourseAnchor { href, text: el.inner_html() });
    }
    out
}

/// Relies on scraper: `Html::parse_document`, `Html::select` with the
/// constant selector `table.stdlist tr:not(.title)` for the rows, and per
/// cell `ElementRef::select` (`td`, `a`, `span`), `inner_html` and `text`
/// (first text node) to read each cell; the selectors are valid CSS, so
/// `Selector::parse` cannot fail. Yields rows and cells in document order.
#[verifier::external_body]
pub(crate) fn scan_assignment_rows(html: &str) -> (r: Vec<RowFragments>)
    ensures
        r.deep_view() == assignment_rows_in(html@),
{
    let doc = Html::parse_document(html);
    let sel = |s| Selector::parse(s).unwrap();
    let (tr, td, a, sp) = (sel("table.stdlist tr:not(.title)"), sel("td"), sel("a"), sel("span"));
    doc.select(&tr).map(|r| RowFragments {
        cells: r.select(&td).map(|c| CellFragment {
            raw: c.inner_html(),
            anchor: c.select(&a).next().map(|e| e.inner_html()),
            state_text: c.text().next().map(|t| t.trim().to_string()),
            marker: c.select(&sp).next().map(|e| e.inner_html().trim().to_string()),
        }).collect(),
    }).collect()
}

/// Relies on scraper: `Html::parse_document` and `Html::select` with the
/// constant selector `div#orgheader` (valid CSS, so `Selector::parse` cannot
/// fail); reports whether any element matches.
#[verifier::external_body]
fn has_org_header(html: &str) -> (r: bool)
    ensures
        r == org_header_in(html@),
{
    let doc = Html::parse_document(html);
    let sel = Selector::parse("div#orgheader").unwrap();
    doc.select(&sel).next().is_some()
}

/// Whether a fetched page belongs to an authenticated session: the server
/// answers a request with a stale cookie with a page that lacks the
/// organisation header.
pub fn session_page_is_valid(html: &str) -> (r: bool)
    ensures
        r == org_header_in(html@),
{
    has_org_header(html)
}

} // verus!
