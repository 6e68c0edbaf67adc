//! The reading session: the exit flag, the article list, the key protocol
//! that drives them, and the one-time population from a feed batch.
use vstd::prelude::*;

use crate::article::{ArticleList, ItemView, ListView, Status, fresh_item};
use crate::content::{detail_for_page, detail_of_page, fallback_text, page_view};

verus! {

/// At most this many articles of a feed batch are shown.
pub const BATCH_SIZE: usize = 10;

/// A key of the keyboard, as far as the session tells keys apart.
#[derive(Clone, Copy, Debug, PartialEq, Eq, Structural)]
pub enum KeyCode {
    Char(char),
    Esc,
    Left,
    Right,
    Up,
    Down,
    Home,
    End,
    Enter,
    Other,
}

/// Whether a key went down, repeats, or came up.
#[derive(Clone, Copy, Debug, PartialEq, Eq, Structural)]
pub enum KeyEventKind {
    Press,
    Repeat,
    Release,
}

/// One keyboard event.
#[derive(Clone, Copy, Debug, PartialEq, Eq, Structural)]
pub struct KeyEvent {
    pub code: KeyCode,
    pub kind: KeyEventKind,
}

/// What the session does in answer to a key.
#[derive(Clone, Copy, Debug, PartialEq, Eq, Structural)]
pub enum Action {
    Exit,
    SelectNone,
    SelectNext,
    SelectPrevious,
    SelectFirst,
    SelectLast,
    ToggleStatus,
    Ignore,
}

/// The key table: only presses act; `q`/Esc quit, `h`/Left unselect,
/// `j`/Down and `k`/Up move, `g`/Home and `G`/End jump, `l`/Right/Enter flip.
pub open spec fn action_of(key: KeyEvent) -> Action {
    if key.kind != KeyEventKind::Press {
        Action::Ignore
    } else {
        match key.code {
            KeyCode::Char('q') | KeyCode::Esc => Action::Exit,
            KeyCode::Char('h') | KeyCode::Left => Action::SelectNone,
            KeyCode::Char('j') | KeyCode::Down => Action::SelectNext,
            KeyCode::Char('k') | KeyCode::Up => Action::SelectPrevious,
            KeyCode::Char('g') | KeyCode::Home => Action::SelectFirst,
            KeyCode::Char('G') | KeyCode::End => Action::SelectLast,
            KeyCode::Char('l') | KeyCode::Right | KeyCode::Enter => Action::ToggleStatus,
            _ => Action::Ignore,
        }
    }
}

/// The action for a key event; see [`action_of`].
pub fn action_for(key: &KeyEvent) -> (r: Action)
    ensures
        r == action_of(*key),
{
    if key.kind != KeyEventKind::Press {
        return Action::Ignore;
    }
    match key.code {
        KeyCode::Char('q') | KeyCode::Esc => Action::Exit,
        KeyCode::Char('h') | KeyCode::Left => Action::SelectNone,
        KeyCode::Char('j') | KeyCode::Down => Action::SelectNext,
        KeyCode::Char('k') | KeyCode::Up => Action::SelectPrevious,
        KeyCode::Char('g') | KeyCode::Home => Action::SelectFirst,
        KeyCode::Char('G') | KeyCode::End => Action::SelectLast,
        KeyCode::Char('l') | KeyCode::Right | KeyCode::Enter => Action::ToggleStatus,
        _ => Action::Ignore,
    }
}

/// The session as a value.
pub struct AppView {
    pub should_exit: bool,
    pub list: ListView,
}

/// The session after an action.
pub open spec fn step(s: AppView, a: Action) -> AppView {
    match a {
        Action::Exit => AppView { should_exit: true, ..s },
        Action::SelectNone => AppView { list: s.list.none(), ..s },
        Action::SelectNext => AppView { list: s.list.next(), ..s },
        Action::SelectPrevious => AppView { list: s.list.previous(), ..s },
        Action::SelectFirst => AppView { list: s.list.first(), ..s },
        Action::SelectLast => AppView { list: s.list.last(), ..s },
        Action::ToggleStatus => AppView { list: s.list.toggle(), ..s },
        Action::Ignore => s,
    }
}

/// Once the session has been asked to end, no action takes that back.
pub proof fn lemma_exit_is_final(s: AppView, a: Action)
    requires
        s.should_exit,
    ensures
        step(s, a).should_exit,
{
}

/// An article of a feed batch, with its page as fetched from its address
/// (`None` where fetching failed).
pub struct FetchedArticle {
    pub title: String,
    pub url: String,
    pub page: Option<Vec<u8>>,
}

/// A fetched article as a value.
pub struct FetchedView {
    pub title: Seq<char>,
    pub url: Seq<char>,
    pub page: Option<Seq<u8>>,
}

impl View for FetchedArticle {
    type V = FetchedView;

    open spec fn view(&self) -> FetchedView {
        FetchedView { title: self.title@, url: self.url@, page: page_view(&self.page) }
    }
}

/// The article a fetched one becomes: its title, its page's text, unread.
pub open spec fn item_of(a: FetchedView) -> ItemView {
    ItemView { headline: a.title, detail: detail_of_page(a.url, a.page), status: Status::Unread }
}

/// The articles a batch gives: the first ten at most, in feed order.
pub open spec fn populated(batch: Seq<FetchedView>) -> Seq<ItemView> {
    batch.take(batch_count(batch.len() as int)).map_values(|a: FetchedView| item_of(a))
}

/// How many articles of a batch of `n` are shown.
pub open spec fn batch_count(n: int) -> int {
    if n < BATCH_SIZE as int { n } else { BATCH_SIZE as int }
}

/// How many of `n` feed articles are shown: the first ten at most, in feed order.
pub fn batch_len(n: usize) -> (r: usize)
    ensures
        r == batch_count(n as int),
{
    if n < BATCH_SIZE { n } else { BATCH_SIZE }
}

/// The reading session.
pub struct App {
    should_exit: bool,
    article_list: ArticleList,
}

impl View for App {
    type V = AppView;

    closed spec fn view(&self) -> AppView {
        AppView { should_exit: self.should_exit, list: self.article_list@ }
    }
}

impl App {
    pub open spec fn wf(&self) -> bool {
        self@.list.wf()
    }

    /// A running session whose list holds one unread placeholder article,
    /// shown while the batch loads.
    pub fn new() -> (r: App)
        ensures
            r.wf(),
            !r@.should_exit,
            r@.list.selected is None,
            r@.list.items =~= seq![fresh_item(("Loading..."@, "Loading..."@))],
    {
        let mut entries: Vec<(String, String)> = Vec::new();
        entries.push((String::from_str("Loading..."), String::from_str("Loading...")));
        let mut article_list = ArticleList::new();
        article_list.replace_all(&entries);
        App { should_exit: false, article_list }
    }

    /// Whether the session has been asked to end.
    pub fn should_exit(&self) -> (r: bool)
        ensures
            r == self@.should_exit,
    {
        self.should_exit
    }

    /// The list on display.
    pub fn article_list(&self) -> (r: &ArticleList)
        ensures
            r@ == self@.list,
            self.wf() ==> r.wf(),
    {
        &self.article_list
    }

    /// Carries out an action; see [`step`].
    pub fn apply(&mut self, action: Action)
        requires
            old(self).wf(),
        ensures
            final(self).wf(),
            final(self)@ == step(old(self)@, action),
    {
        match action {
            Action::Exit => self.should_exit = true,
            Action::SelectNone => self.article_list.select_none(),
            Action::SelectNext => self.article_list.select_next(),
            Action::SelectPrevious => self.article_list.select_previous(),
            Action::SelectFirst => self.article_list.select_first(),
            Action::SelectLast => self.article_list.select_last(),
            Action::ToggleStatus => self.article_list.toggle_selected_status(),
            Action::Ignore => {},
        }
    }

    /// Answers one key event; see [`action_of`].
    pub fn handle_key(&mut self, key: &KeyEvent)
        requires
            old(self).wf(),
        ensures
            final(self).wf(),
            final(self)@ == step(old(self)@, action_of(*key)),
    {
        let action = action_for(key);
        self.apply(action);
    }

    /// Fills the list from a feed batch: the first ten articles at most, in
    /// feed order, unread, each with its readable text or the fallback text,
    /// and no cursor. An empty batch gives an empty list.
    pub fn add_articles(&mut self, articles: &Vec<FetchedArticle>)
        ensures
            final(self).wf(),
            final(self)@.should_exit == old(self)@.should_exit,
            final(self)@.list == (ListView {
                items: populated(articles@.map_values(|a: FetchedArticle| a@)),
                selected: None,
            }),
    {
        let ghost batch = articles@.map_values(|a: FetchedArticle| a@);
        let count = batch_len(articles.len());
        let mut entries: Vec<(String, String)> = Vec::new();
        let mut i: usize = 0;
        while i < count
            invariant
                batch == articles@.map_values(|a: FetchedArticle| a@),
                count == batch_count(articles@.len() as int),
                i <= count,
                entries@.len() == i,
                forall|k: int|
                    0 <= k < i ==> fresh_item(
                        ((#[trigger] entries@[k]).0@, entries@[k].1@),
                    ) == item_of(batch[k]),
            decreases count - i,
        {
            let article = &articles[i];
            let detail = detail_for_page(article.url.as_str(), &article.page);
            entries.push((article.title.clone(), detail));
            i = i + 1;
        }
        self.article_list.replace_all(&entries);
        assert(self@.list.items =~= populated(batch));
    }
}

impl Default for App {
    /// The same as [`App::new`].
    fn default() -> (r: App)
        ensures
            r.wf(),
            !r@.should_exit,
            r@.list.selected is None,
            r@.list.items =~= seq![fresh_item(("Loading..."@, "Loading..."@))],
    {
        App::new()
    }
}

/// Articles after the first ten have no effect on what a batch gives.
pub proof fn lemma_only_first_batch_counts(a: Seq<FetchedView>, b: Seq<FetchedView>)
    requires
        a.len() >= BATCH_SIZE,
        b.len() >= BATCH_SIZE,
        a.take(BATCH_SIZE as int) == b.take(BATCH_SIZE as int),
    ensures
        populated(a) == populated(b),
{
}

/// An article whose page could not be fetched shows the fallback text, the
/// batch keeps its length, and every other article keeps its own text.
pub proof fn lemma_unreachable_article_falls_back(a: Seq<FetchedView>, j: int)
    requires
        0 <= j < batch_count(a.len() as int),
        a[j].page is None,
    ensures
        populated(a).len() == batch_count(a.len() as int),
        populated(a)[j].detail == fallback_text(),
        forall|i: int|
            0 <= i < populated(a).len() && i != j ==> (#[trigger] populated(a)[i]).detail
                == detail_of_page(a[i].url, a[i].page),
{
}

/// What happens to one article of a batch shows in its own item only: two
/// batches that differ at one position give the same items everywhere else.
pub proof fn lemma_failure_stays_local(a: Seq<FetchedView>, b: Seq<FetchedView>, j: int)
    requires
        a.len() == b.len(),
        forall|i: int| 0 <= i < a.len() && i != j ==> a[i] == b[i],
    ensures
        populated(a).len() == populated(b).len(),
        forall|i: int|
            0 <= i < populated(a).len() && i != j ==> #[trigger] populated(a)[i] == populated(b)[i],
{
}

} // verus!
