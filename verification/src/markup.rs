//! Reading the listing's table out of the page's markup.
//!
//! The markup is parsed and queried by the `scraper` crate. Its documents,
//! selectors and elements are carried through as they are. What a query
//! finds is not described here but named, so that the table read from a
//! page is stated over those names. What is read out of an element is plain
//! text, and from there on everything is stated in full.

use vstd::prelude::*;
use scraper::{ElementRef, Html, Selector};
use crate::link::{link_of, resolve, text_of};
use crate::row::{cell_texts, RawRow, RawRowView};
use crate::text::{clean, cleaned};

verus! {

/// A parsed document of `scraper`.
#[verifier::external_type_specification]
#[verifier::external_body]
pub struct ExHtml(Html);

/// A parsed selector of `scraper`.
#[verifier::external_type_specification]
#[verifier::external_body]
pub struct ExSelector(Selector);

/// An element of a parsed document of `scraper`.
#[verifier::external_type_specification]
#[verifier::external_body]
pub struct ExElementRef<'a>(ElementRef<'a>);

/// Selects the body of the table that lists the entries.
pub const TABLE_BODY: &'static str =
    ".contentMain > table:nth-child(1) > tbody:nth-child(1) > tr:nth-child(6) > td:nth-child(1) > table:nth-child(1) > tbody:nth-child(1)";

/// Selects the rows of the table.
pub const TABLE_ROW: &'static str = "tr";

/// Selects the cells of a row.
pub const TABLE_CELL: &'static str = "td";

/// Selects the anchor of an entry's title within its row.
pub const TITLE_ANCHOR: &'static str = "td.pricelist_02[align=\"left\"] > div > a";

/// The attribute of an anchor that holds its reference.
pub const REFERENCE: &'static str = "href";

/// The document that `scraper::Html::parse_document` makes of the markup.
pub uninterp spec fn document_of(markup: Seq<char>) -> Html;

/// `scraper::Html::parse_document`: the document that the markup describes.
/// It depends on the markup alone and is given the name `document_of`.
#[verifier::external_body]
fn parse_document(markup: &str) -> (document: Html)
    ensures
        document == document_of(markup@),
{
    Html::parse_document(markup)
}

/// Whether `scraper::Selector::parse` reads the text as a selector.
pub uninterp spec fn is_selector(css: Seq<char>) -> bool;

/// `scraper::Selector::parse`: the selector that the text writes, where the
/// text is a selector. Whether it is depends on the text alone and is given
/// the name `is_selector`; nothing is claimed of the selector.
#[verifier::external_body]
fn parse_selector(css: &str) -> (selector: Option<Selector>)
    ensures
        selector is Some <==> is_selector(css@),
{
    Selector::parse(css).ok()
}

/// The elements of the document that `scraper::Html::select` finds for the
/// selector, in the order in which it yields them.
pub uninterp spec fn matches_in(document: &Html, selector: Selector) -> Seq<ElementRef>;

/// `scraper::Html::select`: the elements of the document that the selector
/// matches, in the order of the iterator. They depend on the document and
/// the selector alone and are given the name `matches_in`.
#[verifier::external_body]
fn select_in_document<'a>(document: &'a Html, selector: &Selector) -> (found: Vec<ElementRef<'a>>)
    ensures
        found@ == matches_in(document, *selector),
{
    document.select(selector).collect()
}

/// The elements below `element` that `scraper::ElementRef::select` finds for
/// the selector, in the order in which it yields them.
pub uninterp spec fn matches_below(element: ElementRef, selector: Selector) -> Seq<ElementRef>;

/// `scraper::ElementRef::select`: the elements below `element` that the
/// selector matches, in the order of the iterator. They depend on the
/// element and the selector alone and are given the name `matches_below`.
#[verifier::external_body]
fn select_below<'a>(element: &ElementRef<'a>, selector: &Selector) -> (found: Vec<ElementRef<'a>>)
    ensures
        found@ == matches_below(*element, *selector),
{
    element.select(selector).collect()
}

/// The text below `element`: the pieces that `scraper::ElementRef::text`
/// yields, joined.
pub uninterp spec fn text_in(element: ElementRef) -> Seq<char>;

/// `scraper::ElementRef::text`: the pieces of text below `element`, joined
/// in the order of the iterator. The text depends on the element alone and
/// is given the name `text_in`.
#[verifier::external_body]
fn text_below(element: &ElementRef) -> (text: String)
    ensures
        text@ == text_in(*element),
{
    element.text().collect()
}

/// The value that `scraper::ElementRef::attr` gives for the element's
/// attribute of the given name, where the element has that attribute.
pub uninterp spec fn attribute_in(element: ElementRef, name: Seq<char>) -> Option<Seq<char>>;

/// `scraper::ElementRef::attr`: the value of the element's attribute of the
/// given name, where it has one. It depends on the element and the name
/// alone and is given the name `attribute_in`.
#[verifier::external_body]
fn attribute(element: &ElementRef, name: &str) -> (value: Option<String>)
    ensures
        text_of(value) == attribute_in(*element, name@),
{
    element.attr(name).map(String::from)
}

/// The selector that `scraper` does not read.
#[derive(Clone, Copy, Debug, PartialEq, Eq, Structural)]
pub enum SelectorError {
    TableBody,
    TableRow,
    TableCell,
    TitleAnchor,
}

/// The first of the four selectors that `scraper` does not read, if there
/// is one.
pub open spec fn first_unreadable(
    body: Seq<char>,
    row: Seq<char>,
    cell: Seq<char>,
    anchor: Seq<char>,
) -> Option<SelectorError> {
    if !is_selector(body) {
        Some(SelectorError::TableBody)
    } else if !is_selector(row) {
        Some(SelectorError::TableRow)
    } else if !is_selector(cell) {
        Some(SelectorError::TableCell)
    } else if !is_selector(anchor) {
        Some(SelectorError::TitleAnchor)
    } else {
        None
    }
}

/// The selectors that find a listing's table on its page, parsed once.
pub struct Selectors {
    body: Selector,
    row: Selector,
    cell: Selector,
    anchor: Selector,
}

impl Selectors {
    /// The selector of the table's body.
    pub closed spec fn body(&self) -> Selector {
        self.body
    }

    /// The selector of the table's rows.
    pub closed spec fn row(&self) -> Selector {
        self.row
    }

    /// The selector of a row's cells.
    pub closed spec fn cell(&self) -> Selector {
        self.cell
    }

    /// The selector of the anchor of a row's title.
    pub closed spec fn anchor(&self) -> Selector {
        self.anchor
    }

    /// Parses the selectors of a table's body, of its rows, of a row's
    /// cells and of the anchor of a row's title. Fails with the first of
    /// them that `scraper` does not read.
    pub fn parse(body: &str, row: &str, cell: &str, anchor: &str) -> (r: Result<
        Selectors,
        SelectorError,
    >)
        ensures
            match r {
                Ok(_) => first_unreadable(body@, row@, cell@, anchor@) is None,
                Err(e) => first_unreadable(body@, row@, cell@, anchor@) == Some(e),
            },
    {
        let body = match parse_selector(body) {
            Some(s) => s,
            None => {
                return Err(SelectorError::TableBody);
            },
        };
        let row = match parse_selector(row) {
            Some(s) => s,
            None => {
                return Err(SelectorError::TableRow);
            },
        };
        let cell = match parse_selector(cell) {
            Some(s) => s,
            None => {
                return Err(SelectorError::TableCell);
            },
        };
        let anchor = match parse_selector(anchor) {
            Some(s) => s,
            None => {
                return Err(SelectorError::TitleAnchor);
            },
        };
        Ok(Selectors { body, row, cell, anchor })
    }

    /// The selectors of the forum's listing.
    pub fn listing() -> (r: Result<Selectors, SelectorError>)
        ensures
            match r {
                Ok(_) => first_unreadable(TABLE_BODY@, TABLE_ROW@, TABLE_CELL@, TITLE_ANCHOR@)
                    is None,
                Err(e) => first_unreadable(TABLE_BODY@, TABLE_ROW@, TABLE_CELL@, TITLE_ANCHOR@)
                    == Some(e),
            },
    {
        Selectors::parse(TABLE_BODY, TABLE_ROW, TABLE_CELL, TITLE_ANCHOR)
    }
}

/// What a `TableRow` holds.
pub struct TableRowView {
    pub texts: Seq<Seq<char>>,
    pub references: Seq<Option<Seq<char>>>,
}

/// A row of the table as the markup has it: the text below each of its
/// cells, and for each of its title anchors the reference that the anchor
/// holds, if it holds one.
#[derive(Debug)]
pub struct TableRow {
    pub texts: Vec<String>,
    pub references: Vec<Option<String>>,
}

impl View for TableRow {
    type V = TableRowView;

    open spec fn view(&self) -> TableRowView {
        TableRowView {
            texts: cell_texts(self.texts@),
            references: self.references@.map_values(|r: Option<String>| text_of(r)),
        }
    }
}

impl DeepView for TableRow {
    type V = TableRowView;

    open spec fn deep_view(&self) -> TableRowView {
        self@
    }
}

/// The reference that decides a row's link: that of its last title anchor.
pub open spec fn deciding_reference(references: Seq<Option<Seq<char>>>) -> Option<Seq<char>> {
    if references.len() > 0 {
        references.last()
    } else {
        None
    }
}

/// The listing row that a row of the table gives on the page at `base`: its
/// texts cleaned, and the link that its deciding reference resolves to.
pub open spec fn raw_row_of(row: TableRowView, base: Seq<char>) -> RawRowView {
    RawRowView {
        cells: row.texts.map_values(|t: Seq<char>| cleaned(t)),
        link: link_of(base, deciding_reference(row.references)),
    }
}

/// The listing rows that a table gives on the page at `base`: one for each
/// of its rows but the first, which is the table's header, in their order.
pub open spec fn raw_rows(table: Seq<TableRowView>, base: Seq<char>) -> Seq<RawRowView> {
    if table.len() == 0 {
        Seq::empty()
    } else {
        table.skip(1).map_values(|row: TableRowView| raw_row_of(row, base))
    }
}

/// The row that a row element of the table holds: the text below each of
/// the cells that `cell` finds below it, and the reference of each of the
/// anchors that `anchor` finds below it, both in the order found.
pub open spec fn row_in(element: ElementRef, cell: Selector, anchor: Selector) -> TableRowView {
    TableRowView {
        texts: matches_below(element, cell).map_values(|c: ElementRef| text_in(c)),
        references: matches_below(element, anchor).map_values(
            |a: ElementRef| attribute_in(a, REFERENCE@),
        ),
    }
}

/// The table that a document holds: the rows found below the first element
/// that the body selector matches, each read as `row_in` says, in the order
/// found; no rows where the body selector matches nothing.
pub open spec fn table_in(document: &Html, selectors: Selectors) -> Seq<TableRowView> {
    let bodies = matches_in(document, selectors.body());
    if bodies.len() == 0 {
        Seq::empty()
    } else {
        matches_below(bodies[0], selectors.row()).map_values(
            |r: ElementRef| row_in(r, selectors.cell(), selectors.anchor()),
        )
    }
}

/// The table that a page's markup holds.
pub open spec fn table_of(markup: Seq<char>, selectors: Selectors) -> Seq<TableRowView> {
    table_in(&document_of(markup), selectors)
}

/// Reads one row of the table: the text below each of its cells, and the
/// reference of each of its title anchors.
fn read_row(element: &ElementRef, selectors: &Selectors) -> (row: TableRow)
    ensures
        row@ == row_in(*element, selectors.cell(), selectors.anchor()),
{
    let cells = select_below(element, &selectors.cell);
    let mut texts: Vec<String> = Vec::new();
    let mut j: usize = 0;
    while j < cells.len()
        invariant
            j <= cells.len(),
            texts.len() == j,
            forall|n: int| 0 <= n < j ==> texts@[n]@ == text_in(cells@[n]),
        decreases cells.len() - j,
    {
        texts.push(text_below(&cells[j]));
        j += 1;
    }
    let anchors = select_below(element, &selectors.anchor);
    let mut references: Vec<Option<String>> = Vec::new();
    let mut k: usize = 0;
    while k < anchors.len()
        invariant
            k <= anchors.len(),
            references.len() == k,
            forall|n: int|
                0 <= n < k ==> text_of(references@[n]) == attribute_in(anchors@[n], REFERENCE@),
        decreases anchors.len() - k,
    {
        references.push(attribute(&anchors[k], REFERENCE));
        k += 1;
    }
    let row = TableRow { texts, references };
    proof {
        let said = row_in(*element, selectors.cell(), selectors.anchor());
        assert(row@.texts =~= said.texts);
        assert(row@.references =~= said.references);
    }
    row
}

/// Reads the listing's table out of the markup: its rows in page order, the
/// header among them. A page without the table has no rows.
pub fn read_table(markup: &str, selectors: &Selectors) -> (table: Vec<TableRow>)
    ensures
        table.deep_view() == table_of(markup@, *selectors),
{
    let mut table: Vec<TableRow> = Vec::new();
    let document = parse_document(markup);
    let bodies = select_in_document(&document, &selectors.body);
    if bodies.len() == 0 {
        assert(table.deep_view() =~= table_of(markup@, *selectors));
        return table;
    }
    let found = select_below(&bodies[0], &selectors.row);
    let mut i: usize = 0;
    while i < found.len()
        invariant
            i <= found.len(),
            table.len() == i,
            forall|n: int|
                0 <= n < i ==> table@[n]@ == row_in(
                    found@[n],
                    selectors.cell(),
                    selectors.anchor(),
                ),
        decreases found.len() - i,
    {
        table.push(read_row(&found[i], selectors));
        i += 1;
    }
    assert(table.deep_view() =~= table_of(markup@, *selectors));
    table
}

/// The listing row that a row of the table gives on the page at `base`.
fn row_of(row: &TableRow, base: &str) -> (raw: RawRow)
    ensures
        raw@ == raw_row_of(row@, base@),
{
    let mut cells: Vec<String> = Vec::new();
    let mut j: usize = 0;
    while j < row.texts.len()
        invariant
            j <= row.texts.len(),
            cells.len() == j,
            forall|k: int| 0 <= k < j ==> cells@[k]@ == cleaned(row.texts@[k]@),
        decreases row.texts.len() - j,
    {
        cells.push(clean(row.texts[j].as_str()));
        j += 1;
    }
    let n = row.references.len();
    let link = if n > 0 {
        resolve(base, &row.references[n - 1])
    } else {
        None
    };
    let raw = RawRow { cells, link };
    assert(raw@.cells =~= raw_row_of(row@, base@).cells);
    raw
}

/// The listing rows that a table gives on the page at `base`: every row but
/// the header, with its texts cleaned and its link resolved.
pub fn rows_of(table: &Vec<TableRow>, base: &str) -> (rows: Vec<RawRow>)
    ensures
        rows.deep_view() == raw_rows(table.deep_view(), base@),
{
    let mut rows: Vec<RawRow> = Vec::new();
    if table.len() == 0 {
        return rows;
    }
    let mut i: usize = 1;
    while i < table.len()
        invariant
            1 <= i <= table.len(),
            rows.len() == i - 1,
            forall|k: int| 0 <= k < rows.len() ==> rows@[k]@ == raw_row_of(table@[k + 1]@, base@),
        decreases table.len() - i,
    {
        rows.push(row_of(&table[i], base));
        i += 1;
    }
    rows
}

/// Reads the rows of the listing out of the markup of the page at `base`,
/// in page order: `rows_of` what `read_table` finds.
pub fn extract_rows(markup: &str, selectors: &Selectors, base: &str) -> (rows: Vec<RawRow>)
    ensures
        rows.deep_view() == raw_rows(table_of(markup@, *selectors), base@),
{
    let table = read_table(markup, selectors);
    rows_of(&table, base)
}

} // verus!
