//! The application state and its input-mode state machine.
//!
//! The state owns the selectable list of text items and the current input
//! mode. A single transition function interprets one key event according
//! to the mode: in Normal mode keys move or clear the cursor, switch
//! modes, or request termination; in Update mode printable characters are
//! appended to the selected item's text and Enter returns to Normal mode;
//! Add and Delete modes are reserved and ignore all keys.

use vstd::prelude::*;
use crate::list::{next_index, prev_index, StatefulList};

verus! {

/// The active input mode, gating how keys are interpreted.
#[derive(Clone, Copy, PartialEq, Eq, Debug)]
pub enum Mode {
    Add,
    Delete,
    Update,
    Normal,
}

/// A key event, reduced to the distinctions the state machine reads: a
/// printable character, the arrow and editing keys it reacts to, or
/// anything else.
#[derive(Clone, Copy, PartialEq, Eq, Debug)]
pub enum Key {
    Char(char),
    Left,
    Down,
    Up,
    Backspace,
    Enter,
    Other,
}

/// Whether this key, in this mode, requests that the event loop stop:
/// only `q` in Normal mode does.
pub open spec fn quit_requested(m: Mode, key: Key) -> bool {
    m == Mode::Normal && key == Key::Char('q')
}

/// The mode after one key. Normal mode enters Add on `a` and Update on
/// `e` — the latter only when an item is selected, since Update mode
/// edits the selected item. Update mode returns to Normal on Enter.
/// Add and Delete modes never change.
pub open spec fn mode_after(m: Mode, sel: Option<usize>, key: Key) -> Mode {
    match m {
        Mode::Normal => match key {
            Key::Char(c) => if c == 'a' {
                Mode::Add
            } else if c == 'e' && sel is Some {
                Mode::Update
            } else {
                Mode::Normal
            },
            _ => Mode::Normal,
        },
        Mode::Update => match key {
            Key::Enter => Mode::Normal,
            _ => Mode::Update,
        },
        Mode::Add => Mode::Add,
        Mode::Delete => Mode::Delete,
    }
}

/// The cursor after one key on a list of length `n`. Only Normal mode
/// moves it: Left clears it, Down steps forward and Up steps back with
/// wrap-around; on an empty list the arrow keys leave it untouched.
pub open spec fn sel_after(m: Mode, sel: Option<usize>, n: int, key: Key) -> Option<usize> {
    if m == Mode::Normal {
        match key {
            Key::Left => None,
            Key::Down => if n > 0 {
                next_index(sel, n)
            } else {
                sel
            },
            Key::Up => if n > 0 {
                prev_index(sel, n)
            } else {
                sel
            },
            _ => sel,
        }
    } else {
        sel
    }
}

/// The item texts after one key. Only a printable character in Update
/// mode changes them: it is appended to the selected item's text, and
/// every other item is untouched.
pub open spec fn texts_after(m: Mode, sel: Option<usize>, texts: Seq<Seq<char>>, key: Key) -> Seq<
    Seq<char>,
> {
    if m == Mode::Update {
        match key {
            Key::Char(c) => if sel is Some && sel->0 < texts.len() {
                texts.update(sel->0 as int, texts[sel->0 as int].push(c))
            } else {
                texts
            },
            _ => texts,
        }
    } else {
        texts
    }
}

/// Relies on std's `String::push`, which appends the given character to
/// the end of the string.
pub assume_specification[ String::push ](s: &mut String, ch: char)
    ensures
        final(s)@ == old(s)@.push(ch),
;

/// The whole application state: the selectable list of to-do texts and
/// the current input mode.
pub struct AppState {
    pub list: StatefulList<String>,
    pub mode: Mode,
}

impl AppState {
    /// The list's cursor is valid, and Update mode is only ever active
    /// while an item is selected, so editing always has a target.
    pub open spec fn wf(self) -> bool {
        &&& self.list.wf()
        &&& self.mode == Mode::Update ==> self.list.selected is Some
    }

    /// The item texts as a sequence of character sequences.
    pub open spec fn texts(self) -> Seq<Seq<char>> {
        self.list.items@.map_values(|s: String| s@)
    }

    /// Builds the initial state: the given items, no cursor, Normal mode.
    pub fn new(items: Vec<String>) -> (app: AppState)
        ensures
            app.list.items == items,
            app.list.selected is None,
            app.mode == Mode::Normal,
            app.wf(),
    {
        AppState { list: StatefulList::with_items(items), mode: Mode::Normal }
    }

    /// Interprets one key event in the current mode: exactly the mode,
    /// cursor and text transitions of `mode_after`, `sel_after` and
    /// `texts_after`, and the result says whether termination was
    /// requested.
    pub fn handle_key(&mut self, key: Key) -> (quit: bool)
        requires
            old(self).wf(),
        ensures
            final(self).wf(),
            quit == quit_requested(old(self).mode, key),
            final(self).mode == mode_after(old(self).mode, old(self).list.selected, key),
            final(self).list.selected == sel_after(
                old(self).mode,
                old(self).list.selected,
                old(self).list.items@.len() as int,
                key,
            ),
            final(self).texts() == texts_after(
                old(self).mode,
                old(self).list.selected,
                old(self).texts(),
                key,
            ),
            final(self).list.items@.len() == old(self).list.items@.len(),
    {
        let ghost pre = *self;
        match self.mode {
            Mode::Update => {
                match key {
                    Key::Char(c) => {
                        let i: usize = self.list.selected.unwrap();
                        self.list.items[i].push(c);
                        proof {
                            assert(self.texts() =~~= texts_after(
                                pre.mode,
                                pre.list.selected,
                                pre.texts(),
                                key,
                            ));
                        }
                        false
                    },
                    Key::Enter => {
                        self.mode = Mode::Normal;
                        false
                    },
                    _ => false,
                }
            },
            Mode::Add => false,
            Mode::Delete => false,
            Mode::Normal => {
                match key {
                    Key::Char(c) => {
                        if c == 'q' {
                            true
                        } else if c == 'a' {
                            self.mode = Mode::Add;
                            false
                        } else if c == 'e' {
                            if self.list.selected.is_some() {
                                self.mode = Mode::Update;
                            }
                            false
                        } else {
                            false
                        }
                    },
                    Key::Left => {
                        self.list.unselect();
                        false
                    },
                    Key::Down => {
                        self.list.next();
                        false
                    },
                    Key::Up => {
                        self.list.previous();
                        false
                    },
                    _ => false,
                }
            },
        }
    }
}

/// The three texts the application starts from.
pub fn seed_items() -> (items: Vec<String>)
    ensures
        items@.len() == 3,
        items@[0]@ == "Be a gangster"@,
        items@[1]@ == "Finish a project"@,
        items@[2]@ == "Be a coder"@,
{
    let mut items: Vec<String> = Vec::new();
    items.push(String::from_str("Be a gangster"));
    items.push(String::from_str("Finish a project"));
    items.push(String::from_str("Be a coder"));
    items
}

/// In Normal mode, `a` enters Add mode and nothing else changes: the
/// cursor and the texts stay as they were, and no termination is
/// requested.
pub proof fn lemma_normal_key_a(sel: Option<usize>, n: int, texts: Seq<Seq<char>>)
    ensures
        mode_after(Mode::Normal, sel, Key::Char('a')) == Mode::Add,
        sel_after(Mode::Normal, sel, n, Key::Char('a')) == sel,
        texts_after(Mode::Normal, sel, texts, Key::Char('a')) == texts,
        !quit_requested(Mode::Normal, Key::Char('a')),
{
}

/// In Normal mode with an item selected, `e` enters Update mode and
/// nothing else changes.
pub proof fn lemma_normal_key_e(sel: Option<usize>, n: int, texts: Seq<Seq<char>>)
    requires
        sel is Some,
    ensures
        mode_after(Mode::Normal, sel, Key::Char('e')) == Mode::Update,
        sel_after(Mode::Normal, sel, n, Key::Char('e')) == sel,
        texts_after(Mode::Normal, sel, texts, Key::Char('e')) == texts,
        !quit_requested(Mode::Normal, Key::Char('e')),
{
}

/// In Normal mode, `q` requests loop termination and mutates nothing:
/// mode, cursor and texts are all left as they were.
pub proof fn lemma_normal_key_q(sel: Option<usize>, n: int, texts: Seq<Seq<char>>)
    ensures
        quit_requested(Mode::Normal, Key::Char('q')),
        mode_after(Mode::Normal, sel, Key::Char('q')) == Mode::Normal,
        sel_after(Mode::Normal, sel, n, Key::Char('q')) == sel,
        texts_after(Mode::Normal, sel, texts, Key::Char('q')) == texts,
{
}

/// In Update mode a character key appends exactly that character to the
/// selected item's text, leaves every other item untouched, stays in
/// Update mode with the same cursor, and requests no termination.
pub proof fn lemma_update_char(sel: Option<usize>, n: int, texts: Seq<Seq<char>>, c: char)
    requires
        sel is Some,
        sel->0 < texts.len(),
    ensures
        mode_after(Mode::Update, sel, Key::Char(c)) == Mode::Update,
        sel_after(Mode::Update, sel, n, Key::Char(c)) == sel,
        texts_after(Mode::Update, sel, texts, Key::Char(c)).len() == texts.len(),
        texts_after(Mode::Update, sel, texts, Key::Char(c))[sel->0 as int] == texts[
            sel->0 as int
        ].push(c),
        forall|j: int|
            0 <= j < texts.len() && j != sel->0 ==> texts_after(
                Mode::Update,
                sel,
                texts,
                Key::Char(c),
            )[j] == texts[j],
        !quit_requested(Mode::Update, Key::Char(c)),
{
}

/// In Update mode, Enter returns to Normal mode with the cursor and
/// every text exactly as they were.
pub proof fn lemma_update_enter(sel: Option<usize>, n: int, texts: Seq<Seq<char>>)
    ensures
        mode_after(Mode::Update, sel, Key::Enter) == Mode::Normal,
        sel_after(Mode::Update, sel, n, Key::Enter) == sel,
        texts_after(Mode::Update, sel, texts, Key::Enter) == texts,
        !quit_requested(Mode::Update, Key::Enter),
{
}

} // verus!
