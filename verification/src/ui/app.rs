use vstd::prelude::*;

use crate::domain::Article;

verus! {

/// Which screen the reader shows.
#[derive(Debug, Clone, PartialEq, Eq, Structural)]
pub enum Screen {
    ArticleList,
    Quitting,
}

/// A key as the reader's controls see it; every key the controls do not use
/// is `Other`.
#[derive(Debug, Clone, Copy, PartialEq, Eq, Structural)]
pub enum Key {
    Char(char),
    Esc,
    Up,
    Down,
    Home,
    End,
    Other,
}

/// The state of the reader: the articles shown, the selected row, the
/// screen, and a status line.
pub struct App {
    pub articles: Vec<Article>,
    pub selected: usize,
    pub screen: Screen,
    pub status: String,
}

/// The last row of a list of `len` rows; 0 for an empty list.
pub open spec fn last_row(len: nat) -> nat {
    if len == 0 {
        0
    } else {
        (len - 1) as nat
    }
}

/// A selection is in range when it names a row, or is 0 on an empty list.
pub open spec fn selection_in_range(selected: nat, len: nat) -> bool {
    selected <= last_row(len)
}

pub open spec fn is_quit_key(key: Key) -> bool {
    key == Key::Char('q') || key == Key::Esc
}

pub open spec fn is_down_key(key: Key) -> bool {
    key == Key::Down || key == Key::Char('j')
}

pub open spec fn is_up_key(key: Key) -> bool {
    key == Key::Up || key == Key::Char('k')
}

pub open spec fn is_top_key(key: Key) -> bool {
    key == Key::Char('g') || key == Key::Home
}

pub open spec fn is_bottom_key(key: Key) -> bool {
    key == Key::Char('G') || key == Key::End
}

pub open spec fn is_bookmark_key(key: Key) -> bool {
    key == Key::Char('b')
}

/// The keys that the article list reacts to.
pub open spec fn is_list_key(key: Key) -> bool {
    is_quit_key(key) || is_down_key(key) || is_up_key(key) || is_top_key(key)
        || is_bottom_key(key) || is_bookmark_key(key)
}

/// The selected row after `key` on the article list.
pub open spec fn selection_after(key: Key, selected: nat, len: nat) -> nat {
    if is_down_key(key) {
        if selected < last_row(len) {
            selected + 1
        } else {
            selected
        }
    } else if is_up_key(key) {
        if selected > 0 {
            (selected - 1) as nat
        } else {
            0
        }
    } else if is_top_key(key) {
        0
    } else if is_bottom_key(key) {
        last_row(len)
    } else {
        selected
    }
}

/// The title of row `row`, or the empty text when there is no such row.
pub open spec fn title_at(articles: Seq<Article>, row: int) -> Seq<char> {
    if 0 <= row < articles.len() {
        articles[row].title@
    } else {
        Seq::empty()
    }
}

/// The status line shown after bookmarking the article titled `title`.
pub open spec fn bookmark_status(title: Seq<char>) -> Seq<char> {
    "bookmarked: "@ + title
}

impl App {
    /// A reader on the article list with the first row selected.
    pub fn new(articles: Vec<Article>) -> (app: App)
        ensures
            app.articles == articles,
            app.selected == 0,
            app.screen == Screen::ArticleList,
            app.status@ == Seq::<char>::empty(),
    {
        App { articles, selected: 0, screen: Screen::ArticleList, status: String::new() }
    }

    /// Reacts to a key press; returns whether the key was used.
    ///
    /// On the quitting screen no key is used and nothing changes. On the
    /// article list, `q`/Esc quit, Down/`j` and Up/`k` move the selection
    /// within the list, `g`/Home and `G`/End jump to the first and the last
    /// row, and `b` reports the selected article as bookmarked.
    pub fn handle_key(&mut self, key: Key) -> (used: bool)
        ensures
            old(self).screen == Screen::Quitting ==> !used && *final(self) == *old(self),
            old(self).screen == Screen::ArticleList ==> {
                &&& used == is_list_key(key)
                &&& final(self).articles == old(self).articles
                &&& final(self).selected == selection_after(
                    key,
                    old(self).selected as nat,
                    old(self).articles@.len(),
                )
                &&& final(self).screen == if is_quit_key(key) {
                    Screen::Quitting
                } else {
                    Screen::ArticleList
                }
                &&& final(self).status@ == if is_bookmark_key(key) {
                    bookmark_status(title_at(old(self).articles@, old(self).selected as int))
                } else {
                    old(self).status@
                }
            },
            selection_in_range(old(self).selected as nat, old(self).articles@.len())
                ==> selection_in_range(final(self).selected as nat, final(self).articles@.len()),
    {
        proof {
            lemma_selection_stays_in_range(key, self.selected as nat, self.articles@.len());
        }
        match self.screen {
            Screen::ArticleList => self.handle_list_key(key),
            Screen::Quitting => false,
        }
    }

    fn handle_list_key(&mut self, key: Key) -> (used: bool)
        ensures
            used == is_list_key(key),
            final(self).articles == old(self).articles,
            final(self).selected == selection_after(
                key,
                old(self).selected as nat,
                old(self).articles@.len(),
            ),
            final(self).screen == if is_quit_key(key) {
                Screen::Quitting
            } else {
                old(self).screen
            },
            final(self).status@ == if is_bookmark_key(key) {
                bookmark_status(title_at(old(self).articles@, old(self).selected as int))
            } else {
                old(self).status@
            },
            selection_in_range(old(self).selected as nat, old(self).articles@.len())
                ==> selection_in_range(final(self).selected as nat, final(self).articles@.len()),
    {
        proof {
            lemma_selection_stays_in_range(key, self.selected as nat, self.articles@.len());
        }
        match key {
            Key::Char('q') | Key::Esc => {
                self.screen = Screen::Quitting;
            },
            Key::Down | Key::Char('j') => {
                self.next();
            },
            Key::Up | Key::Char('k') => {
                self.previous();
            },
            Key::Char('g') | Key::Home => {
                self.selected = 0;
            },
            Key::Char('G') | Key::End => {
                self.selected = if self.articles.len() > 0 {
                    self.articles.len() - 1
                } else {
                    0
                };
            },
            Key::Char('b') => {
                let status = String::from_str("bookmarked: ").concat(self.current_title());
                self.status = status;
            },
            _ => {
                return false;
            },
        }
        true
    }

    fn next(&mut self)
        ensures
            final(self).articles == old(self).articles,
            final(self).screen == old(self).screen,
            final(self).status == old(self).status,
            final(self).selected == if old(self).selected < last_row(old(self).articles@.len()) {
                old(self).selected + 1
            } else {
                old(self).selected as int
            },
    {
        let last = if self.articles.len() > 0 {
            self.articles.len() - 1
        } else {
            0
        };
        if self.selected < last {
            self.selected = self.selected + 1;
        }
    }

    fn previous(&mut self)
        ensures
            final(self).articles == old(self).articles,
            final(self).screen == old(self).screen,
            final(self).status == old(self).status,
            final(self).selected == if old(self).selected > 0 {
                old(self).selected - 1
            } else {
                0
            },
    {
        if self.selected > 0 {
            self.selected = self.selected - 1;
        }
    }

    /// The title of the selected article, or "" when no article is selected.
    pub fn current_title(&self) -> (title: &str)
        ensures
            title@ == title_at(self.articles@, self.selected as int),
    {
        if self.selected < self.articles.len() {
            self.articles[self.selected].title.as_str()
        } else {
            let empty = "";
            proof {
                reveal_strlit("");
            }
            empty
        }
    }
}

/// Whatever key is pressed, a selection in range stays in range.
pub proof fn lemma_selection_stays_in_range(key: Key, selected: nat, len: nat)
    ensures
        selection_in_range(selected, len) ==> selection_in_range(
            selection_after(key, selected, len),
            len,
        ),
{
}

/// Moving down and then up returns to the row one started from, unless the
/// first move was blocked by the end of the list.
pub proof fn lemma_down_then_up_returns(selected: nat, len: nat)
    requires
        selected < last_row(len),
    ensures
        selection_after(Key::Up, selection_after(Key::Down, selected, len), len) == selected,
{
}

/// Moving up and then down returns to the row one started from, unless the
/// first move was blocked by the top of the list.
pub proof fn lemma_up_then_down_returns(selected: nat, len: nat)
    requires
        0 < selected <= last_row(len),
    ensures
        selection_after(Key::Down, selection_after(Key::Up, selected, len), len) == selected,
{
}

} // verus!
