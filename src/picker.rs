//! The picker: a two-mode state machine over the loaded list. It takes one key
//! at a time and tells its caller what to do next (redraw, rewrite the list
//! file, hand a path over, or quit); the caller performs that work.
use vstd::prelude::*;

use crate::decimal::{decimal, to_decimal};
use crate::store::{file_of, lines_of, parse_list, remove_dir, texts};

verus! {

/// Which input handler and which screen is active.
#[derive(Clone, Copy, Debug, PartialEq, Eq, Structural)]
pub enum Mode {
    /// Browsing the list.
    View,
    /// Asking whether the selected entry is to be deleted.
    Delete,
}

/// A key press, as the picker sees it.
#[derive(Clone, Copy, Debug, PartialEq, Eq, Structural)]
pub enum Key {
    Up,
    Down,
    Enter,
    Char(char),
    /// Any other key.
    Other,
}

/// What the caller does after a key press.
#[derive(Debug, PartialEq, Eq)]
pub enum Action {
    /// Draw the new state and wait for the next key.
    Redraw,
    /// Rewrite the list file with this text, then redraw.
    Rewrite(String),
    /// End the session: this entry was chosen.
    GoTo(String),
    /// End the session with nothing chosen.
    Quit,
}

/// The mathematical value of an [`Action`].
pub enum ActionView {
    Redraw,
    Rewrite(Seq<char>),
    GoTo(Seq<char>),
    Quit,
}

impl View for Action {
    type V = ActionView;

    open spec fn view(&self) -> ActionView {
        match self {
            Action::Redraw => ActionView::Redraw,
            Action::Rewrite(s) => ActionView::Rewrite(s@),
            Action::GoTo(s) => ActionView::GoTo(s@),
            Action::Quit => ActionView::Quit,
        }
    }
}

/// What the hand-off file holds once the session ends with this action: the
/// chosen path with no line end, or nothing at all when cancelled.
pub open spec fn handoff_of(a: ActionView) -> Option<Seq<char>> {
    match a {
        ActionView::GoTo(p) => Some(p),
        ActionView::Quit => Some(Seq::empty()),
        _ => None,
    }
}

impl Action {
    /// The text of the hand-off file for an action that ends the session;
    /// `None` for one that does not.
    pub fn handoff_text(&self) -> (r: Option<String>)
        ensures
            r matches Some(t) ==> handoff_of(self@) == Some(t@),
            r is None ==> handoff_of(self@) is None,
    {
        match self {
            Action::GoTo(p) => Some(p.clone()),
            Action::Quit => Some(String::new()),
            _ => None,
        }
    }
}

/// The picker's state: the list, the cursor and the mode.
pub struct AppView {
    pub dirs: Seq<Seq<char>>,
    pub selected: nat,
    pub mode: Mode,
}

/// The cursor lies on an entry while the list is non-empty, and is 0 when it
/// is empty; the deletion question is only asked of an existing entry.
pub open spec fn wf_view(s: AppView) -> bool {
    &&& s.dirs.len() == 0 ==> s.selected == 0
    &&& s.dirs.len() > 0 ==> s.selected < s.dirs.len()
    &&& s.mode == Mode::Delete ==> s.dirs.len() > 0
}

/// The entry index that a digit key jumps to: `'1'` to `'9'` name the first
/// to the ninth entry; `'0'` and any other character name none.
pub open spec fn digit_target(c: char) -> Option<nat> {
    if '1' as u32 <= c as u32 && c as u32 <= '9' as u32 {
        Some((c as u32 - '1' as u32) as nat)
    } else {
        None
    }
}

/// The cursor after the entry under it was removed from a list that now has
/// `len` entries: it stays, unless it would lie past the end.
pub open spec fn clamp_cursor(sel: nat, len: nat) -> nat {
    if sel < len {
        sel
    } else if len > 0 {
        (len - 1) as nat
    } else {
        0
    }
}

/// One key press in browsing mode. Moving stops at either end of the list;
/// a digit out of range, and an unknown key, change nothing; Enter chooses the
/// entry under the cursor; deleting and choosing need a non-empty list.
pub open spec fn step_view(s: AppView, k: Key) -> (AppView, ActionView) {
    let n = s.dirs.len();
    match k {
        Key::Down => {
            let sel = if s.selected + 1 < n { s.selected + 1 } else { s.selected };
            (AppView { dirs: s.dirs, selected: sel, mode: s.mode }, ActionView::Redraw)
        },
        Key::Up => {
            let sel = if s.selected > 0 { (s.selected - 1) as nat } else { s.selected };
            (AppView { dirs: s.dirs, selected: sel, mode: s.mode }, ActionView::Redraw)
        },
        Key::Enter => {
            if n > 0 {
                (s, ActionView::GoTo(s.dirs[s.selected as int]))
            } else {
                (s, ActionView::Redraw)
            }
        },
        Key::Char(c) => {
            if c == 'q' || c == 'Q' {
                (s, ActionView::Quit)
            } else if (c == 'd' || c == 'D') && n > 0 {
                (AppView { dirs: s.dirs, selected: s.selected, mode: Mode::Delete }, ActionView::Redraw)
            } else if digit_target(c) is Some && digit_target(c)->0 < n {
                (AppView { dirs: s.dirs, selected: digit_target(c)->0, mode: s.mode }, ActionView::Redraw)
            } else {
                (s, ActionView::Redraw)
            }
        },
        Key::Other => (s, ActionView::Redraw),
    }
}

/// One key press while the deletion question is asked: `y` removes the
/// entry and has the file rewritten, `n` goes back, `q` quits, and any other
/// key is ignored.
pub open spec fn step_delete(s: AppView, k: Key) -> (AppView, ActionView) {
    match k {
        Key::Char('y') => {
            let d = s.dirs.remove(s.selected as int);
            (
                AppView { dirs: d, selected: clamp_cursor(s.selected, d.len()), mode: Mode::View },
                ActionView::Rewrite(file_of(d)),
            )
        },
        Key::Char('n') => (AppView { dirs: s.dirs, selected: s.selected, mode: Mode::View }, ActionView::Redraw),
        Key::Char('q') => (s, ActionView::Quit),
        _ => (s, ActionView::Redraw),
    }
}

/// The next state and the action for one key press.
pub open spec fn step(s: AppView, k: Key) -> (AppView, ActionView) {
    match s.mode {
        Mode::View => step_view(s, k),
        Mode::Delete => step_delete(s, k),
    }
}

/// The interactive picker over a loaded list.
pub struct App {
    dirs: Vec<String>,
    selected: usize,
    mode: Mode,
}

impl View for App {
    type V = AppView;

    closed spec fn view(&self) -> AppView {
        AppView { dirs: texts(self.dirs@), selected: self.selected as nat, mode: self.mode }
    }
}

impl App {
    pub open spec fn wf(&self) -> bool {
        wf_view(self@)
    }

    /// Starts a session over the entries of a list file's text, browsing, with
    /// the cursor on the first entry.
    pub fn new(content: &str) -> (r: App)
        ensures
            r.wf(),
            r@.dirs == lines_of(content@),
            r@.selected == 0,
            r@.mode == Mode::View,
    {
        App { dirs: parse_list(content), selected: 0, mode: Mode::View }
    }

    /// Takes one key press while browsing.
    pub fn handle_view_input(&mut self, key: Key) -> (r: Action)
        requires
            old(self).wf(),
            old(self)@.mode == Mode::View,
        ensures
            final(self).wf(),
            (final(self)@, r@) == step_view(old(self)@, key),
    {
        let n = self.dirs.len();
        match key {
            Key::Down => {
                if self.selected + 1 < n {
                    self.selected = self.selected + 1;
                }
                Action::Redraw
            },
            Key::Up => {
                if self.selected > 0 {
                    self.selected = self.selected - 1;
                }
                Action::Redraw
            },
            Key::Enter => {
                if n > 0 {
                    Action::GoTo(self.dirs[self.selected].clone())
                } else {
                    Action::Redraw
                }
            },
            Key::Char(c) => {
                if c == 'q' || c == 'Q' {
                    Action::Quit
                } else if (c == 'd' || c == 'D') && n > 0 {
                    self.mode = Mode::Delete;
                    Action::Redraw
                } else if '1' as u32 <= c as u32 && c as u32 <= '9' as u32 && ((c as u32 - '1' as u32) as usize) < n {
                    self.selected = (c as u32 - '1' as u32) as usize;
                    Action::Redraw
                } else {
                    Action::Redraw
                }
            },
            Key::Other => Action::Redraw,
        }
    }

    /// Takes one key press while the deletion question is asked.
    pub fn handle_delete_input(&mut self, key: Key) -> (r: Action)
        requires
            old(self).wf(),
            old(self)@.mode == Mode::Delete,
        ensures
            final(self).wf(),
            (final(self)@, r@) == step_delete(old(self)@, key),
    {
        match key {
            Key::Char('y') => {
                let ghost before = self.dirs@;
                let content = remove_dir(self.selected, &mut self.dirs);
                assert(texts(self.dirs@) =~= texts(before).remove(self.selected as int));
                let n = self.dirs.len();
                if self.selected >= n {
                    self.selected = if n > 0 { n - 1 } else { 0 };
                }
                self.mode = Mode::View;
                Action::Rewrite(content)
            },
            Key::Char('n') => {
                self.mode = Mode::View;
                Action::Redraw
            },
            Key::Char('q') => Action::Quit,
            _ => Action::Redraw,
        }
    }

    /// Takes one key press: updates the state and says what the caller does next.
    pub fn handle_input(&mut self, key: Key) -> (r: Action)
        requires
            old(self).wf(),
        ensures
            final(self).wf(),
            (final(self)@, r@) == step(old(self)@, key),
    {
        match self.mode {
            Mode::View => self.handle_view_input(key),
            Mode::Delete => self.handle_delete_input(key),
        }
    }
}

/// An entry as listed: its 1-based position in square brackets, then the entry.
pub open spec fn labeled(i: nat, d: Seq<char>) -> Seq<char> {
    seq!['['] + decimal(i + 1) + seq![']', ' '] + d
}

/// All entries as listed, top to bottom.
pub open spec fn labeled_lines(dirs: Seq<Seq<char>>) -> Seq<Seq<char>> {
    Seq::new(dirs.len(), |i: int| labeled(i as nat, dirs[i]))
}

/// The line shown in place of the entries when the list is empty.
pub open spec fn placeholder_text() -> Seq<char> {
    "(no entries)"@
}

/// The question asked before an entry is deleted.
pub open spec fn confirm_text(d: Seq<char>) -> Seq<char> {
    "Are you sure you want to delete "@ + d + " ? (y/n)"@
}

/// What one redraw shows.
#[derive(Debug, PartialEq, Eq)]
pub enum Screen {
    /// A bordered panel at the bottom of the terminal with these rows; the
    /// row at `selected`, if any, is highlighted.
    List { lines: Vec<String>, selected: Option<usize> },
    /// One line at the bottom of the terminal.
    Confirm(String),
}

/// The mathematical value of a [`Screen`].
pub enum ScreenView {
    List { lines: Seq<Seq<char>>, selected: Option<nat> },
    Confirm(Seq<char>),
}

impl View for Screen {
    type V = ScreenView;

    open spec fn view(&self) -> ScreenView {
        match self {
            Screen::List { lines, selected } => ScreenView::List {
                lines: texts(lines@),
                selected: match selected {
                    Some(k) => Some(*k as nat),
                    None => None,
                },
            },
            Screen::Confirm(t) => ScreenView::Confirm(t@),
        }
    }
}

/// What a redraw of the state shows: the listed entries with the cursor's row
/// highlighted, a placeholder row for an empty list, or the deletion question
/// about the entry under the cursor.
pub open spec fn screen_of(s: AppView) -> ScreenView {
    match s.mode {
        Mode::View => if s.dirs.len() == 0 {
            ScreenView::List { lines: seq![placeholder_text()], selected: None }
        } else {
            ScreenView::List { lines: labeled_lines(s.dirs), selected: Some(s.selected) }
        },
        Mode::Delete => ScreenView::Confirm(confirm_text(s.dirs[s.selected as int])),
    }
}

/// The height of the panel that holds `rows` rows inside its border, as far
/// as a terminal's height can go.
pub fn panel_height(rows: usize) -> (r: u16)
    ensures
        r == if rows + 2 <= u16::MAX { rows + 2 } else { u16::MAX as int },
{
    if rows <= (u16::MAX - 2) as usize {
        rows as u16 + 2
    } else {
        u16::MAX
    }
}

impl App {
    /// The entries, in order.
    pub fn dirs(&self) -> (r: &Vec<String>)
        ensures
            texts(r@) == self@.dirs,
    {
        &self.dirs
    }

    /// The index of the entry under the cursor.
    pub fn selected(&self) -> (r: usize)
        ensures
            r == self@.selected,
    {
        self.selected
    }

    /// The active mode.
    pub fn mode(&self) -> (r: Mode)
        ensures
            r == self@.mode,
    {
        self.mode
    }

    /// The entry under the cursor; `None` when the list is empty.
    pub fn get_selected_dir(&self) -> (r: Option<String>)
        requires
            self.wf(),
        ensures
            self@.dirs.len() == 0 ==> r is None,
            self@.dirs.len() > 0 ==> (r matches Some(d) && d@ == self@.dirs[self@.selected as int]),
    {
        if self.dirs.len() > 0 {
            Some(self.dirs[self.selected].clone())
        } else {
            None
        }
    }

    /// Each entry with its 1-based position in front, e.g. `[1] /home/user`.
    pub fn get_dirs_with_prefix(&self) -> (r: Vec<String>)
        ensures
            texts(r@) == labeled_lines(self@.dirs),
    {
        let mut r: Vec<String> = Vec::new();
        let mut i: usize = 0;
        while i < self.dirs.len()
            invariant
                i <= self.dirs.len(),
                texts(r@) == labeled_lines(texts(self.dirs@)).take(i as int),
            decreases self.dirs.len() - i,
        {
            let mut line = String::from_str("[");
            let num = to_decimal(i + 1);
            line.append(num.as_str());
            line.append("] ");
            line.append(self.dirs[i].as_str());
            proof {
                reveal_strlit("[");
                reveal_strlit("] ");
                assert(line@ =~= labeled(i as nat, texts(self.dirs@)[i as int]));
            }
            let ghost before = r@;
            r.push(line);
            assert(texts(r@) =~= labeled_lines(texts(self.dirs@)).take(i + 1)) by {
                assert(texts(r@) =~= texts(before).push(line@));
            }
            i = i + 1;
        }
        assert(labeled_lines(texts(self.dirs@)).take(i as int) =~= labeled_lines(texts(self.dirs@)));
        r
    }

    /// What to draw for the current state. Drawing does not change the state,
    /// so redrawing without a key press in between shows the same screen.
    pub fn render(&self) -> (r: Screen)
        requires
            self.wf(),
        ensures
            r@ == screen_of(self@),
    {
        match self.mode {
            Mode::View => if self.dirs.len() == 0 {
                let mut lines: Vec<String> = Vec::new();
                lines.push(String::from_str("(no entries)"));
                assert(texts(lines@) =~= seq![placeholder_text()]);
                Screen::List { lines, selected: None }
            } else {
                Screen::List { lines: self.get_dirs_with_prefix(), selected: Some(self.selected) }
            },
            Mode::Delete => {
                let mut t = String::from_str("Are you sure you want to delete ");
                t.append(self.dirs[self.selected].as_str());
                t.append(" ? (y/n)");
                Screen::Confirm(t)
            },
        }
    }
}

/// At either end of a non-empty list moving further keeps the cursor where it
/// is: `Up` on the first entry and `Down` on the last change nothing.
pub proof fn lemma_moves_stop_at_ends(s: AppView)
    requires
        wf_view(s),
        s.mode == Mode::View,
        s.dirs.len() > 0,
    ensures
        s.selected == 0 ==> step(s, Key::Up) == (s, ActionView::Redraw),
        s.selected == s.dirs.len() - 1 ==> step(s, Key::Down) == (s, ActionView::Redraw),
{
}

/// Pressing `q` or `Q` while browsing ends the session as cancelled and
/// leaves the list, the cursor and the mode as they were; the hand-off file is
/// then left empty.
pub proof fn lemma_quit_cancels(s: AppView, c: char)
    requires
        s.mode == Mode::View,
        c == 'q' || c == 'Q',
    ensures
        step(s, Key::Char(c)) == (s, ActionView::Quit),
        handoff_of(ActionView::Quit) == Some(Seq::<char>::empty()),
{
}

} // verus!
