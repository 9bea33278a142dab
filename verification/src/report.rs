//! The report of one poll: a table of the new entries, laid out here and
//! drawn by the `term_table` crate.

use vstd::prelude::*;
use vstd::string::StringExecFns;
use term_table::row::Row as TableRow;
use term_table::table_cell::{Alignment, TableCell};
use term_table::{Table, TableStyle};
use crate::row::{Field, Row, RowView};
use crate::text::{decimal, decimal_text};

verus! {

/// The widest that a column of the report gets.
pub const MAX_COLUMN_WIDTH: usize = 80;

/// Heading of the column of titles.
pub const TITLE_HEADING: &'static str = "原始標題";

/// Heading of the column of links.
pub const LINK_HEADING: &'static str = "連結";

/// What the closing line says before the count.
pub const COUNT_PREFIX: &'static str = "本次計有 ";

/// What the closing line says after the count.
pub const COUNT_SUFFIX: &'static str = " 篇新文章";

/// How a cell's text stands in its cell.
#[derive(Clone, Copy, Debug, PartialEq, Eq, Structural)]
pub enum Align {
    Left,
    Center,
}

/// What a `Cell` holds.
pub struct CellView {
    pub text: Seq<char>,
    pub span: nat,
    pub align: Align,
}

/// A cell of the report: its text, how many columns it spans, and how the
/// text stands in it.
#[derive(Debug)]
pub struct Cell {
    pub text: String,
    pub span: usize,
    pub align: Align,
}

impl View for Cell {
    type V = CellView;

    open spec fn view(&self) -> CellView {
        CellView { text: self.text@, span: self.span as nat, align: self.align }
    }
}

impl DeepView for Cell {
    type V = CellView;

    open spec fn deep_view(&self) -> CellView {
        self@
    }
}

/// A centred cell.
pub open spec fn centred(text: Seq<char>, span: nat) -> CellView {
    CellView { text, span, align: Align::Center }
}

/// A cell of one column with its text on the left.
pub open spec fn plain(text: Seq<char>) -> CellView {
    CellView { text, span: 1, align: Align::Left }
}

/// The closing line of a report of `count` entries.
pub open spec fn closing(count: nat) -> Seq<char> {
    COUNT_PREFIX@ + decimal(count) + COUNT_SUFFIX@
}

/// The line of the report that shows one entry: its title and its link.
pub open spec fn entry_line(post: RowView) -> Seq<CellView> {
    seq![plain(post.title()), plain(post.link)]
}

/// The lines of the report of a poll, top to bottom: the time of the poll
/// across both columns, the two headings, one line for each new entry in page
/// order, and the count across both columns.
pub open spec fn layout(posts: Seq<RowView>, stamp: Seq<char>) -> Seq<Seq<CellView>> {
    seq![seq![centred(stamp, 2)], seq![centred(TITLE_HEADING@, 1), centred(LINK_HEADING@, 1)]]
        + posts.map_values(|post: RowView| entry_line(post)) + seq![
        seq![centred(closing(posts.len()), 2)],
    ]
}

/// The lines are fit to be drawn: each has a cell, and each cell spans one
/// column or two.
pub open spec fn drawable(lines: Seq<Seq<CellView>>) -> bool {
    &&& forall|i: int| 0 <= i < lines.len() ==> (#[trigger] lines[i]).len() > 0
    &&& forall|i: int, j: int|
        0 <= i < lines.len() && 0 <= j < lines[i].len() ==> 1 <= (#[trigger] lines[i][j]).span <= 2
}

/// The text that `term_table` draws for the lines, in its extended style
/// with columns of at most `max_column_width`.
pub uninterp spec fn rendered(lines: Seq<Seq<CellView>>, max_column_width: nat) -> Seq<char>;

/// `term_table::Table::render`, on a table that `Table::builder` makes of
/// the lines in the style `TableStyle::extended`, each cell made by
/// `TableCell::builder` with its text, span and alignment and each line by
/// `Row::new`: the drawn table as text. The drawing depends on the lines and
/// the width alone. The result is given the name `rendered`.
#[verifier::external_body]
fn render_table(lines: &Vec<Vec<Cell>>, max_column_width: usize) -> (text: String)
    requires
        drawable(lines.deep_view()),
    ensures
        text@ == rendered(lines.deep_view(), max_column_width as nat),
{
    let rows = lines.iter().map(|line| TableRow::new(line.iter().map(|cell| {
        let alignment = match cell.align {
            Align::Left => Alignment::Left,
            Align::Center => Alignment::Center,
        };
        TableCell::builder(cell.text.as_str()).col_span(cell.span).alignment(alignment).build()
    }))).collect();
    Table::builder()
        .max_column_width(max_column_width)
        .style(TableStyle::extended())
        .rows(rows)
        .build()
        .render()
}

/// A centred cell.
fn centred_cell(text: &str, span: usize) -> (cell: Cell)
    ensures
        cell@ == centred(text@, span as nat),
{
    Cell { text: String::from_str(text), span, align: Align::Center }
}

/// A cell of one column with its text on the left.
fn plain_cell(text: &str) -> (cell: Cell)
    ensures
        cell@ == plain(text@),
{
    Cell { text: String::from_str(text), span: 1, align: Align::Left }
}

/// The closing line of a report of `count` entries.
pub fn closing_text(count: usize) -> (text: String)
    ensures
        text@ == closing(count as nat),
{
    let mut text = String::from_str(COUNT_PREFIX);
    text.append(decimal_text(count).as_str());
    text.append(COUNT_SUFFIX);
    text
}

/// Lays out the report of a poll that found `posts` new at the time `stamp`.
pub fn lay_out(posts: &Vec<Row>, stamp: &str) -> (lines: Vec<Vec<Cell>>)
    ensures
        lines.deep_view() == layout(posts.deep_view(), stamp@),
        drawable(lines.deep_view()),
{
    let ghost entries = posts.deep_view().map_values(|post: RowView| entry_line(post));
    let ghost head = seq![
        seq![centred(stamp@, 2)],
        seq![centred(TITLE_HEADING@, 1), centred(LINK_HEADING@, 1)],
    ];
    let mut lines: Vec<Vec<Cell>> = Vec::new();
    let mut top: Vec<Cell> = Vec::new();
    top.push(centred_cell(stamp, 2));
    assert(top.deep_view() =~= seq![centred(stamp@, 2)]);
    lines.push(top);
    let mut headings: Vec<Cell> = Vec::new();
    headings.push(centred_cell(TITLE_HEADING, 1));
    headings.push(centred_cell(LINK_HEADING, 1));
    assert(headings.deep_view() =~= seq![centred(TITLE_HEADING@, 1), centred(LINK_HEADING@, 1)]);
    lines.push(headings);
    let mut i: usize = 0;
    while i < posts.len()
        invariant
            i <= posts.len(),
            entries == posts.deep_view().map_values(|post: RowView| entry_line(post)),
            head.len() == 2,
            lines.deep_view() == head + entries.take(i as int),
        decreases posts.len() - i,
    {
        let post = &posts[i];
        let mut line: Vec<Cell> = Vec::new();
        match post.get(Field::OriginalTitle) {
            Some(title) => {
                line.push(plain_cell(title.as_str()));
            },
            None => {
                line.push(plain_cell(""));
                proof {
                    reveal_strlit("");
                    assert(""@ =~= Seq::<char>::empty());
                }
            },
        }
        line.push(plain_cell(post.link.as_str()));
        assert(line.deep_view() =~= entry_line(post@));
        lines.push(line);
        assert(head + entries.take(i + 1) =~= (head + entries.take(i as int)).push(
            entry_line(post@),
        ));
        i += 1;
    }
    let ghost before = lines.deep_view();
    let mut bottom: Vec<Cell> = Vec::new();
    let count = closing_text(posts.len());
    bottom.push(centred_cell(count.as_str(), 2));
    assert(bottom.deep_view() =~= seq![centred(closing(posts.len() as nat), 2)]);
    lines.push(bottom);
    assert(lines.deep_view() =~= before.push(seq![centred(closing(posts.len() as nat), 2)]));
    lines
}

/// The report of a poll that found `posts` new at the time `stamp`, drawn as
/// a table.
pub fn report(posts: &Vec<Row>, stamp: &str) -> (text: String)
    ensures
        text@ == rendered(layout(posts.deep_view(), stamp@), MAX_COLUMN_WIDTH as nat),
{
    let lines = lay_out(posts, stamp);
    render_table(&lines, MAX_COLUMN_WIDTH)
}

} // verus!
