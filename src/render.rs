//! What the screen shows for a given list: a header, the headlines with a
//! status mark and alternating shading, the selected article's text, and a
//! line of help. Drawing it is left to the terminal front end.
use vstd::prelude::*;

use crate::article::{ArticleItem, ArticleList, ItemView, ListView, Status};

verus! {

/// Rows the header takes.
pub const HEADER_HEIGHT: u16 = 2;

/// Rows the help line takes.
pub const FOOTER_HEIGHT: u16 = 1;

/// The background of a headline row, alternating by position.
#[derive(Clone, Copy, Debug, PartialEq, Eq, Structural)]
pub enum RowShade {
    Normal,
    Alternate,
}

/// Even rows are plain, odd rows shaded.
pub open spec fn shade_of(i: int) -> RowShade {
    if i % 2 == 0 {
        RowShade::Normal
    } else {
        RowShade::Alternate
    }
}

/// The mark that shows an article's status.
pub open spec fn mark_of(s: Status) -> Seq<char> {
    match s {
        Status::Unread => "\u{2610}"@,
        Status::Completed => "\u{2713}"@,
    }
}

/// A headline row: a space, the mark, a space, the headline.
pub open spec fn row_text(item: ItemView) -> Seq<char> {
    " "@ + mark_of(item.status) + " "@ + item.headline
}

/// The detail pane: the selected article's mark and text, or a placeholder.
pub open spec fn detail_of(v: ListView) -> Seq<char> {
    match v.selected {
        Some(i) => mark_of(v.items[i].status) + " "@ + v.items[i].detail,
        None => "Nothing selected..."@,
    }
}

/// The shade of the row at position `i`.
pub fn alternate_colors(i: usize) -> (r: RowShade)
    ensures
        r == shade_of(i as int),
{
    if i % 2 == 0 {
        RowShade::Normal
    } else {
        RowShade::Alternate
    }
}

/// The mark for a status.
pub fn status_mark(s: Status) -> (r: &'static str)
    ensures
        r@ == mark_of(s),
{
    match s {
        Status::Unread => "\u{2610}",
        Status::Completed => "\u{2713}",
    }
}

/// One headline row as drawn.
pub struct ListRow {
    pub text: String,
    pub shade: RowShade,
    pub completed: bool,
}

/// The row for `item` at position `i`.
pub fn list_row(item: &ArticleItem, i: usize) -> (r: ListRow)
    ensures
        r.text@ == row_text(item@),
        r.shade == shade_of(i as int),
        r.completed == (item@.status == Status::Completed),
{
    let mut text = String::from_str(" ");
    text.append(status_mark(item.status()));
    text.append(" ");
    text.append(item.headline());
    let status = item.status();
    ListRow { text, shade: alternate_colors(i), completed: status == Status::Completed }
}

/// The text of the detail pane.
pub fn detail_text(list: &ArticleList) -> (r: String)
    requires
        list.wf(),
    ensures
        r@ == detail_of(list@),
{
    match list.selected() {
        Some(i) => {
            let item = list.item(i);
            let mut text = String::from_str(status_mark(item.status()));
            text.append(" ");
            text.append(item.detail());
            text
        },
        None => String::from_str("Nothing selected..."),
    }
}

/// The title in the header.
pub open spec fn header_of() -> Seq<char> {
    "Terminal News Reader"@
}

/// The help line.
pub open spec fn footer_of() -> Seq<char> {
    "Use \u{2193}\u{2191} to move, \u{2190} to unselect, \u{2192} to change status, g/G to go top/bottom."@
}

/// Everything a draw shows, recomputed from the list alone.
pub struct Screen {
    pub header: String,
    pub rows: Vec<ListRow>,
    pub selected: Option<usize>,
    pub detail: String,
    pub footer: String,
}

/// What the screen shows for `list`.
pub fn render(list: &ArticleList) -> (r: Screen)
    requires
        list.wf(),
    ensures
        r.header@ == header_of(),
        r.footer@ == footer_of(),
        r.detail@ == detail_of(list@),
        r.rows@.len() == list@.items.len(),
        forall|i: int|
            0 <= i < r.rows@.len() ==> {
                &&& (#[trigger] r.rows@[i]).text@ == row_text(list@.items[i])
                &&& r.rows@[i].shade == shade_of(i)
                &&& r.rows@[i].completed == (list@.items[i].status == Status::Completed)
            },
        match r.selected {
            Some(i) => list@.selected == Some(i as int),
            None => list@.selected is None,
        },
{
    let n = list.len();
    let mut rows: Vec<ListRow> = Vec::new();
    let mut i: usize = 0;
    while i < n
        invariant
            n == list@.items.len(),
            i <= n,
            rows@.len() == i,
            forall|k: int|
                0 <= k < i ==> {
                    &&& (#[trigger] rows@[k]).text@ == row_text(list@.items[k])
                    &&& rows@[k].shade == shade_of(k)
                    &&& rows@[k].completed == (list@.items[k].status == Status::Completed)
                },
        decreases n - i,
    {
        let row = list_row(list.item(i), i);
        rows.push(row);
        i = i + 1;
    }
    Screen {
        header: String::from_str("Terminal News Reader"),
        rows,
        selected: list.selected(),
        detail: detail_text(list),
        footer: String::from_str(
            "Use \u{2193}\u{2191} to move, \u{2190} to unselect, \u{2192} to change status, g/G to go top/bottom.",
        ),
    }
}

} // verus!
