//! The article list and its single-selection cursor.
use vstd::prelude::*;

verus! {

/// Whether the reader has finished an article.
#[derive(Clone, Copy, Debug, PartialEq, Eq, Structural)]
pub enum Status {
    Unread,
    Completed,
}

/// The status an article has after the reader flips it.
pub open spec fn flipped(s: Status) -> Status {
    match s {
        Status::Unread => Status::Completed,
        Status::Completed => Status::Unread,
    }
}

impl Status {
    /// The other status.
    pub fn flip(self) -> (r: Status)
        ensures
            r == flipped(self),
    {
        match self {
            Status::Unread => Status::Completed,
            Status::Completed => Status::Unread,
        }
    }
}

/// What an article shows: its headline, its readable text, its status.
pub struct ItemView {
    pub headline: Seq<char>,
    pub detail: Seq<char>,
    pub status: Status,
}

/// One article as the list displays it.
pub struct ArticleItem {
    headline: String,
    detail: String,
    status: Status,
}

impl View for ArticleItem {
    type V = ItemView;

    closed spec fn view(&self) -> ItemView {
        ItemView { headline: self.headline@, detail: self.detail@, status: self.status }
    }
}

impl ArticleItem {
    /// A new article with the given status.
    pub fn new(status: Status, headline: &str, detail: &str) -> (r: ArticleItem)
        ensures
            r@ == (ItemView { headline: headline@, detail: detail@, status }),
    {
        ArticleItem {
            headline: String::from_str(headline),
            detail: String::from_str(detail),
            status,
        }
    }

    pub fn headline(&self) -> (r: &str)
        ensures
            r@ == self@.headline,
    {
        self.headline.as_str()
    }

    pub fn detail(&self) -> (r: &str)
        ensures
            r@ == self@.detail,
    {
        self.detail.as_str()
    }

    pub fn status(&self) -> (r: Status)
        ensures
            r == self@.status,
    {
        self.status
    }
}

/// The list as a value: its articles in order and the optional cursor.
pub struct ListView {
    pub items: Seq<ItemView>,
    pub selected: Option<int>,
}

/// An article as `replace_all` creates it: unread.
pub open spec fn fresh_item(entry: (Seq<char>, Seq<char>)) -> ItemView {
    ItemView { headline: entry.0, detail: entry.1, status: Status::Unread }
}

impl ListView {
    /// The cursor, where there is one, points at an article.
    pub open spec fn wf(self) -> bool {
        match self.selected {
            Some(i) => 0 <= i < self.items.len(),
            None => true,
        }
    }

    pub open spec fn len(self) -> int {
        self.items.len() as int
    }

    /// One step down, stopping at the last article; from no cursor, the first.
    pub open spec fn next(self) -> ListView {
        if self.len() == 0 {
            self
        } else {
            match self.selected {
                None => ListView { selected: Some(0), ..self },
                Some(i) => ListView {
                    selected: Some(if i + 1 < self.len() { i + 1 } else { self.len() - 1 }),
                    ..self
                },
            }
        }
    }

    /// One step up, stopping at the first article; from no cursor, the last.
    pub open spec fn previous(self) -> ListView {
        if self.len() == 0 {
            self
        } else {
            match self.selected {
                None => ListView { selected: Some(self.len() - 1), ..self },
                Some(i) => ListView { selected: Some(if i > 0 { i - 1 } else { 0 }), ..self },
            }
        }
    }

    pub open spec fn first(self) -> ListView {
        if self.len() == 0 {
            self
        } else {
            ListView { selected: Some(0), ..self }
        }
    }

    pub open spec fn last(self) -> ListView {
        if self.len() == 0 {
            self
        } else {
            ListView { selected: Some(self.len() - 1), ..self }
        }
    }

    pub open spec fn none(self) -> ListView {
        ListView { selected: None, ..self }
    }

    /// The selected article with its status flipped; nothing changes without a cursor.
    pub open spec fn toggle(self) -> ListView {
        match self.selected {
            Some(i) => ListView {
                items: self.items.update(
                    i,
                    ItemView { status: flipped(self.items[i].status), ..self.items[i] },
                ),
                ..self
            },
            None => self,
        }
    }

    /// The list that `replace_all` makes of the given pairs of headline and text.
    pub open spec fn replaced(entries: Seq<(Seq<char>, Seq<char>)>) -> ListView {
        ListView { items: entries.map_values(|e: (Seq<char>, Seq<char>)| fresh_item(e)), selected: None }
    }
}

/// The articles on display, in feed order, and the cursor over them.
pub struct ArticleList {
    items: Vec<ArticleItem>,
    selected: Option<usize>,
}

impl View for ArticleList {
    type V = ListView;

    closed spec fn view(&self) -> ListView {
        ListView {
            items: self.items@.map_values(|it: ArticleItem| it@),
            selected: match self.selected {
                Some(i) => Some(i as int),
                None => None,
            },
        }
    }
}

impl ArticleList {
    pub open spec fn wf(&self) -> bool {
        self@.wf()
    }

    /// An empty list with no cursor.
    pub fn new() -> (r: ArticleList)
        ensures
            r.wf(),
            r@.items.len() == 0,
            r@.selected is None,
    {
        let r = ArticleList { items: Vec::new(), selected: None };
        assert(r@.items =~= Seq::<ItemView>::empty());
        r
    }

    pub fn len(&self) -> (r: usize)
        ensures
            r == self@.items.len(),
    {
        self.items.len()
    }

    /// The cursor's position, if any.
    pub fn selected(&self) -> (r: Option<usize>)
        ensures
            match r {
                Some(i) => self@.selected == Some(i as int),
                None => self@.selected is None,
            },
    {
        self.selected
    }

    /// The article at position `i`.
    pub fn item(&self, i: usize) -> (r: &ArticleItem)
        requires
            i < self@.items.len(),
        ensures
            r@ == self@.items[i as int],
    {
        &self.items[i]
    }

    /// Replaces every article by the given pairs of headline and text, in
    /// order, all unread, and drops the cursor.
    pub fn replace_all(&mut self, entries: &Vec<(String, String)>)
        ensures
            final(self).wf(),
            final(self)@ == ListView::replaced(entries@.map_values(|e: (String, String)| (e.0@, e.1@))),
            final(self)@.selected is None,
    {
        let mut items: Vec<ArticleItem> = Vec::new();
        let ghost want = entries@.map_values(|e: (String, String)| (e.0@, e.1@));
        let mut i: usize = 0;
        while i < entries.len()
            invariant
                i <= entries@.len(),
                want == entries@.map_values(|e: (String, String)| (e.0@, e.1@)),
                items@.len() == i,
                forall|k: int| 0 <= k < i ==> (#[trigger] items@[k])@ == fresh_item(want[k]),
            decreases entries@.len() - i,
        {
            let entry = &entries[i];
            let item = ArticleItem::new(Status::Unread, entry.0.as_str(), entry.1.as_str());
            items.push(item);
            i = i + 1;
        }
        self.items = items;
        self.selected = None;
        assert(self@.items =~= ListView::replaced(want).items);
    }

    /// Moves the cursor one article down; see [`ListView::next`].
    pub fn select_next(&mut self)
        requires
            old(self).wf(),
        ensures
            final(self).wf(),
            final(self)@ == old(self)@.next(),
    {
        let n = self.items.len();
        if n > 0 {
            self.selected = match self.selected {
                None => Some(0),
                Some(i) => Some(if i + 1 < n { i + 1 } else { n - 1 }),
            };
        }
    }

    /// Moves the cursor one article up; see [`ListView::previous`].
    pub fn select_previous(&mut self)
        requires
            old(self).wf(),
        ensures
            final(self).wf(),
            final(self)@ == old(self)@.previous(),
    {
        let n = self.items.len();
        if n > 0 {
            self.selected = match self.selected {
                None => Some(n - 1),
                Some(i) => Some(if i > 0 { i - 1 } else { 0 }),
            };
        }
    }

    /// Puts the cursor on the first article, if there is one.
    pub fn select_first(&mut self)
        requires
            old(self).wf(),
        ensures
            final(self).wf(),
            final(self)@ == old(self)@.first(),
    {
        if self.items.len() > 0 {
            self.selected = Some(0);
        }
    }

    /// Puts the cursor on the last article, if there is one.
    pub fn select_last(&mut self)
        requires
            old(self).wf(),
        ensures
            final(self).wf(),
            final(self)@ == old(self)@.last(),
    {
        let n = self.items.len();
        if n > 0 {
            self.selected = Some(n - 1);
        }
    }

    /// Drops the cursor.
    pub fn select_none(&mut self)
        requires
            old(self).wf(),
        ensures
            final(self).wf(),
            final(self)@ == old(self)@.none(),
    {
        self.selected = None;
    }

    /// Flips the status of the selected article; without a cursor nothing changes.
    pub fn toggle_selected_status(&mut self)
        requires
            old(self).wf(),
        ensures
            final(self).wf(),
            final(self)@ == old(self)@.toggle(),
    {
        if let Some(i) = self.selected {
            let s = self.items[i].status.flip();
            self.items[i].status = s;
            assert(self@.items =~= old(self)@.toggle().items);
        }
    }
}

/// A single move of the cursor.
pub enum CursorMove {
    Next,
    Previous,
}

/// The list after the given cursor moves, taken in order.
pub open spec fn after_moves(v: ListView, moves: Seq<CursorMove>) -> ListView
    decreases moves.len(),
{
    if moves.len() == 0 {
        v
    } else {
        let stepped = match moves[0] {
            CursorMove::Next => v.next(),
            CursorMove::Previous => v.previous(),
        };
        after_moves(stepped, moves.drop_first())
    }
}

/// However the cursor is moved up and down, it stays on an article or stays
/// absent, and the articles stay as they were.
pub proof fn lemma_moves_stay_in_bounds(v: ListView, moves: Seq<CursorMove>)
    requires
        v.wf(),
    ensures
        after_moves(v, moves).wf(),
        after_moves(v, moves).items == v.items,
        after_moves(v, moves).selected is Some ==> 0 <= after_moves(v, moves).selected->Some_0
            < v.items.len(),
    decreases moves.len(),
{
    if moves.len() > 0 {
        let stepped = match moves[0] {
            CursorMove::Next => v.next(),
            CursorMove::Previous => v.previous(),
        };
        lemma_moves_stay_in_bounds(stepped, moves.drop_first());
    }
}

/// Dropping the cursor and then moving down selects the first article.
pub proof fn lemma_none_then_next_selects_first(v: ListView)
    requires
        v.wf(),
        v.items.len() >= 1,
    ensures
        v.none().next().selected == Some(0int),
{
}

/// Flipping the selected article twice gives back the list as it was.
pub proof fn lemma_toggle_twice_restores(v: ListView)
    requires
        v.wf(),
    ensures
        v.toggle().toggle() == v,
{
    if let Some(i) = v.selected {
        assert(v.toggle().toggle().items =~= v.items);
    }
}

/// Without a cursor, flipping changes no article.
pub proof fn lemma_toggle_without_cursor(v: ListView)
    requires
        v.selected is None,
    ensures
        v.toggle() == v,
{
}

} // verus!
