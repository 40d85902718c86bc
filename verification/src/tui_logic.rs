//! The decisions of the terminal interface: which field has focus, how the cursor of
//! the file picker moves, which entries a search keeps, and what each key does on
//! each screen. Drawing and reading keys are left to the program.

use vstd::prelude::*;
use crate::ir::opt_string_view;
use crate::text::{chars_contain, chars_of, contains, to_lowercase, unicode_lowercase};

verus! {

/// The fields of the main screen, in the order the arrow keys visit them.
#[derive(Debug, Clone, Copy, PartialEq, Eq, Structural)]
pub enum Focus {
    Input,
    OutputDir,
    From,
    To,
    Run,
}

/// The field before `f` (the left arrow); it wraps around.
pub fn focus_left(f: Focus) -> (r: Focus)
    ensures
        r == match f {
            Focus::Input => Focus::Run,
            Focus::OutputDir => Focus::Input,
            Focus::From => Focus::OutputDir,
            Focus::To => Focus::From,
            Focus::Run => Focus::To,
        },
{
    match f {
        Focus::Input => Focus::Run,
        Focus::OutputDir => Focus::Input,
        Focus::From => Focus::OutputDir,
        Focus::To => Focus::From,
        Focus::Run => Focus::To,
    }
}

/// The field after `f` (the right arrow); it wraps around.
pub fn focus_right(f: Focus) -> (r: Focus)
    ensures
        r == match f {
            Focus::Input => Focus::OutputDir,
            Focus::OutputDir => Focus::From,
            Focus::From => Focus::To,
            Focus::To => Focus::Run,
            Focus::Run => Focus::Input,
        },
{
    match f {
        Focus::Input => Focus::OutputDir,
        Focus::OutputDir => Focus::From,
        Focus::From => Focus::To,
        Focus::To => Focus::Run,
        Focus::Run => Focus::Input,
    }
}

pub open spec fn spec_focus_left(f: Focus) -> Focus {
    match f {
        Focus::Input => Focus::Run,
        Focus::OutputDir => Focus::Input,
        Focus::From => Focus::OutputDir,
        Focus::To => Focus::From,
        Focus::Run => Focus::To,
    }
}

pub open spec fn spec_focus_right(f: Focus) -> Focus {
    match f {
        Focus::Input => Focus::OutputDir,
        Focus::OutputDir => Focus::From,
        Focus::From => Focus::To,
        Focus::To => Focus::Run,
        Focus::Run => Focus::Input,
    }
}

/// Left undoes right and right undoes left.
pub proof fn law_focus_moves_undo_each_other(f: Focus)
    ensures
        spec_focus_left(spec_focus_right(f)) == f,
        spec_focus_right(spec_focus_left(f)) == f,
{
}

/// Once both an input and an output folder are chosen, focus goes to Run.
pub fn focus_after_choice(f: Focus, has_input: bool, has_output: bool) -> (r: Focus)
    ensures
        r == if has_input && has_output { Focus::Run } else { f },
{
    if has_input && has_output { Focus::Run } else { f }
}

// ---------------------------------------------------------------------------
// The picker's cursor

/// The highlighted row of a list of `len` entries, if any.
#[derive(Debug, Clone, Copy, PartialEq, Eq, Structural)]
pub struct Cursor {
    pub selected: Option<usize>,
    pub len: usize,
}

/// The row the cursor counts from: the selected one, or the first.
pub open spec fn current(c: Cursor) -> int {
    match c.selected {
        Some(i) => i as int,
        None => 0,
    }
}

impl Cursor {
    /// A fresh list selects its first row when it has one.
    pub fn fresh(len: usize) -> (r: Cursor)
        ensures
            r == spec_fresh(len),
    {
        if len > 0 {
            Cursor { selected: Some(0), len }
        } else {
            Cursor { selected: None, len }
        }
    }

    /// One row up; from the first row to the last.
    pub fn move_up(&self) -> (r: Cursor)
        ensures
            r == spec_move_up(*self),
    {
        let i = match self.selected {
            Some(i) => i,
            None => 0,
        };
        if i == 0 {
            let last = if self.len == 0 { 0 } else { self.len - 1 };
            Cursor { selected: Some(last), len: self.len }
        } else {
            Cursor { selected: Some(i - 1), len: self.len }
        }
    }

    /// One row down; from the last row (or beyond) to the first.
    pub fn move_down(&self) -> (r: Cursor)
        ensures
            r == spec_move_down(*self),
    {
        let i = match self.selected {
            Some(i) => i,
            None => 0,
        };
        let last = if self.len == 0 { 0 } else { self.len - 1 };
        if i >= last {
            Cursor { selected: Some(0), len: self.len }
        } else {
            Cursor { selected: Some(i + 1), len: self.len }
        }
    }

    /// Ten rows up, stopping at the first.
    pub fn page_up(&self) -> (r: Cursor)
        ensures
            r == spec_page_up(*self),
    {
        let i = match self.selected {
            Some(i) => i,
            None => 0,
        };
        let new = if i >= 10 { i - 10 } else { 0 };
        Cursor { selected: Some(new), len: self.len }
    }

    /// Ten rows down, stopping at the last.
    pub fn page_down(&self) -> (r: Cursor)
        requires
            current(*self) + 10 <= usize::MAX,
        ensures
            r == spec_page_down(*self),
    {
        let i = match self.selected {
            Some(i) => i,
            None => 0,
        };
        let last = if self.len == 0 { 0 } else { self.len - 1 };
        let down = i + 10;
        let new = if down <= last { down } else { last };
        Cursor { selected: Some(new), len: self.len }
    }

    /// The first row, when the list has one.
    pub fn select_first(&self) -> (r: Cursor)
        ensures
            r == spec_select_first(*self),
    {
        if self.len > 0 {
            Cursor { selected: Some(0), len: self.len }
        } else {
            *self
        }
    }

    /// The last row, when the list has one.
    pub fn select_last(&self) -> (r: Cursor)
        ensures
            r == spec_select_last(*self),
    {
        if self.len > 0 {
            Cursor { selected: Some(self.len - 1), len: self.len }
        } else {
            *self
        }
    }
}

/// A fresh cursor over `len` rows.
pub open spec fn spec_fresh(len: usize) -> Cursor {
    Cursor { selected: if len > 0 { Some(0usize) } else { None }, len }
}

/// The cursor that `page_up` gives.
pub open spec fn spec_page_up(c: Cursor) -> Cursor {
    Cursor { selected: Some((if current(c) >= 10 { current(c) - 10 } else { 0 }) as usize), len: c.len }
}

/// The cursor that `page_down` gives.
pub open spec fn spec_page_down(c: Cursor) -> Cursor {
    let last = if c.len == 0 { 0 } else { c.len - 1 };
    Cursor { selected: Some((if current(c) + 10 <= last { current(c) + 10 } else { last }) as usize), len: c.len }
}

/// The cursor that `select_first` gives.
pub open spec fn spec_select_first(c: Cursor) -> Cursor {
    if c.len > 0 { Cursor { selected: Some(0usize), len: c.len } } else { c }
}

/// The cursor that `select_last` gives.
pub open spec fn spec_select_last(c: Cursor) -> Cursor {
    if c.len > 0 { Cursor { selected: Some((c.len - 1) as usize), len: c.len } } else { c }
}

/// The cursor that `move_up` gives.
pub open spec fn spec_move_up(c: Cursor) -> Cursor {
    Cursor {
        selected: Some((if current(c) == 0 { if c.len == 0 { 0 } else { c.len - 1 } } else { current(c) - 1 }) as usize),
        len: c.len,
    }
}

/// The cursor that `move_down` gives.
pub open spec fn spec_move_down(c: Cursor) -> Cursor {
    Cursor {
        selected: Some((if current(c) + 1 >= c.len { 0 } else { current(c) + 1 }) as usize),
        len: c.len,
    }
}

/// On a row of the list, one step down and one step up (or up, then down) lead back
/// to the same row.
pub proof fn law_cursor_steps_undo_each_other(c: Cursor)
    requires
        c.selected matches Some(i) && i < c.len,
    ensures
        spec_move_up(spec_move_down(c)) == c,
        spec_move_down(spec_move_up(c)) == c,
{
}

// ---------------------------------------------------------------------------
// Searching the picker

/// Entry `i` is kept by a search for `query`: with an empty query every entry is, and
/// otherwise an entry whose lower-cased name contains the lower-cased query.
pub open spec fn search_keeps(names: Seq<Option<Seq<char>>>, query: Seq<char>, i: int) -> bool {
    query.len() == 0 || (names[i] matches Some(n) && contains(unicode_lowercase(n), unicode_lowercase(query)))
}

/// The positions among the first `n` entries that a search for `query` keeps, in order.
pub open spec fn search_positions(names: Seq<Option<Seq<char>>>, query: Seq<char>, n: nat) -> Seq<usize>
    decreases n,
{
    if n == 0 {
        Seq::empty()
    } else {
        let prev = search_positions(names, query, (n - 1) as nat);
        if search_keeps(names, query, n - 1) { prev.push((n - 1) as usize) } else { prev }
    }
}

/// Every position that a search keeps among the first `n` entries is below `n`.
pub proof fn lemma_search_positions_below(names: Seq<Option<Seq<char>>>, query: Seq<char>, n: nat)
    requires
        n <= usize::MAX,
    ensures
        forall|k: int| 0 <= k < search_positions(names, query, n).len() ==> (#[trigger] search_positions(names, query, n)[k]) < n,
        search_positions(names, query, n).len() <= n,
    decreases n,
{
    if n > 0 {
        lemma_search_positions_below(names, query, (n - 1) as nat);
    }
}

pub open spec fn names_view(names: Seq<Option<String>>) -> Seq<Option<Seq<char>>> {
    names.map_values(|o: Option<String>| opt_string_view(o))
}

/// The positions of the entries that a search for `query` keeps, in order. An entry
/// without a readable name is `None` and is kept only by the empty query.
pub fn search_matches(names: &Vec<Option<String>>, query: &str) -> (r: Vec<usize>)
    ensures
        r@ == search_positions(names_view(names@), query@, names@.len()),
{
    let ghost nv = names_view(names@);
    let q = to_lowercase(query);
    let empty = query.is_empty();
    let mut r: Vec<usize> = Vec::new();
    for i in 0..names.len()
        invariant
            nv == names_view(names@),
            q@ == unicode_lowercase(query@),
            empty == (query@.len() == 0),
            r@ == search_positions(nv, query@, i as nat),
    {
        let keep = if empty {
            true
        } else {
            match &names[i] {
                Some(n) => {
                    let lower = to_lowercase(n.as_str());
                    let lc = chars_of(lower.as_str());
                    chars_contain(&lc, q.as_str())
                },
                None => false,
            }
        };
        assert(keep == search_keeps(nv, query@, i as int));
        if keep {
            r.push(i);
        }
    }
    r
}

// ---------------------------------------------------------------------------
// Keys

/// A key press, as far as the interface tells keys apart.
#[derive(Debug, Clone, Copy, PartialEq, Eq, Structural)]
pub enum Key {
    Char(char),
    Esc,
    Left,
    Right,
    Up,
    Down,
    PageUp,
    PageDown,
    Home,
    End,
    Backspace,
    Enter,
    Tab,
    BackTab,
    Other,
}

/// What a key does on the main screen.
#[derive(Debug, Clone, Copy, PartialEq, Eq, Structural)]
pub enum MainAction {
    Quit,
    PickInput,
    PickOutputDir,
    Run,
    SwapDialects,
    ToggleDryRun,
    MoveFocus(Focus),
    /// The focused dialect (From or To) becomes the next one.
    NextDialect,
    /// The focused dialect (From or To) becomes the previous one.
    PrevDialect,
    Nothing,
}

/// `q` or Esc quits; `i`/`o` open the input and output pickers; `r` runs, and so does
/// Enter with the focus on Run; `x` swaps the dialects; `d` toggles the dry run. Tab and
/// Shift+Tab move the focus forward and back. On From or To, Up and Left choose the
/// previous dialect and Down and Right the next; elsewhere Left and Right move the
/// focus. Letters are read in either case.
pub open spec fn spec_main_action(key: Key, focus: Focus) -> MainAction {
    let on_dialect = focus is From || focus is To;
    match key {
        Key::Char('q') | Key::Esc => MainAction::Quit,
        Key::Char('i') | Key::Char('I') => MainAction::PickInput,
        Key::Char('o') | Key::Char('O') => MainAction::PickOutputDir,
        Key::Char('r') | Key::Char('R') => MainAction::Run,
        Key::Char('x') | Key::Char('X') => MainAction::SwapDialects,
        Key::Char('d') | Key::Char('D') => MainAction::ToggleDryRun,
        Key::Enter => if focus is Run { MainAction::Run } else { MainAction::Nothing },
        Key::Tab => MainAction::MoveFocus(spec_focus_right(focus)),
        Key::BackTab => MainAction::MoveFocus(spec_focus_left(focus)),
        Key::Up => if on_dialect { MainAction::PrevDialect } else { MainAction::Nothing },
        Key::Down => if on_dialect { MainAction::NextDialect } else { MainAction::Nothing },
        Key::Left => if on_dialect { MainAction::PrevDialect } else { MainAction::MoveFocus(spec_focus_left(focus)) },
        Key::Right => if on_dialect { MainAction::NextDialect } else { MainAction::MoveFocus(spec_focus_right(focus)) },
        _ => MainAction::Nothing,
    }
}

pub fn main_action(key: Key, focus: Focus) -> (r: MainAction)
    ensures
        r == spec_main_action(key, focus),
{
    let on_dialect = focus == Focus::From || focus == Focus::To;
    match key {
        Key::Char('q') | Key::Esc => MainAction::Quit,
        Key::Char('i') | Key::Char('I') => MainAction::PickInput,
        Key::Char('o') | Key::Char('O') => MainAction::PickOutputDir,
        Key::Char('r') | Key::Char('R') => MainAction::Run,
        Key::Char('x') | Key::Char('X') => MainAction::SwapDialects,
        Key::Char('d') | Key::Char('D') => MainAction::ToggleDryRun,
        Key::Enter => if focus == Focus::Run { MainAction::Run } else { MainAction::Nothing },
        Key::Tab => MainAction::MoveFocus(focus_right(focus)),
        Key::BackTab => MainAction::MoveFocus(focus_left(focus)),
        Key::Up => if on_dialect { MainAction::PrevDialect } else { MainAction::Nothing },
        Key::Down => if on_dialect { MainAction::NextDialect } else { MainAction::Nothing },
        Key::Left => if on_dialect { MainAction::PrevDialect } else { MainAction::MoveFocus(focus_left(focus)) },
        Key::Right => if on_dialect { MainAction::NextDialect } else { MainAction::MoveFocus(focus_right(focus)) },
        _ => MainAction::Nothing,
    }
}

/// What a key does in the file picker.
#[derive(Debug, Clone, Copy, PartialEq, Eq, Structural)]
pub enum PickerAction {
    Close,
    Up,
    Down,
    PageUp,
    PageDown,
    First,
    Last,
    Parent,
    StartSearch,
    Type(char),
    Erase,
    StopSearch,
    Choose,
    /// Take the highlighted entry as it is (`s`).
    Select,
    Nothing,
}

/// The picker's keys, tried in order: `q`/Esc close it unless a search is typed;
/// arrows, page keys, Home and End move the cursor; Backspace or Left go to the parent
/// folder unless searching; `/` starts a search; while searching, a character extends
/// the query, Backspace erases and Esc ends the search; Right or Enter choose; `s`
/// takes the highlighted entry as it is.
pub open spec fn spec_picker_action(key: Key, searching: bool) -> PickerAction {
    match key {
        Key::Char('q') if !searching => PickerAction::Close,
        Key::Esc if !searching => PickerAction::Close,
        Key::Up => PickerAction::Up,
        Key::Down => PickerAction::Down,
        Key::PageUp => PickerAction::PageUp,
        Key::PageDown => PickerAction::PageDown,
        Key::Home => PickerAction::First,
        Key::End => PickerAction::Last,
        Key::Backspace if !searching => PickerAction::Parent,
        Key::Left if !searching => PickerAction::Parent,
        Key::Char('/') => PickerAction::StartSearch,
        Key::Char(c) if searching => PickerAction::Type(c),
        Key::Backspace if searching => PickerAction::Erase,
        Key::Esc if searching => PickerAction::StopSearch,
        Key::Right | Key::Enter => PickerAction::Choose,
        Key::Char('s') | Key::Char('S') => PickerAction::Select,
        _ => PickerAction::Nothing,
    }
}

pub fn picker_action(key: Key, searching: bool) -> (r: PickerAction)
    ensures
        r == spec_picker_action(key, searching),
{
    match key {
        Key::Char('q') if !searching => PickerAction::Close,
        Key::Esc if !searching => PickerAction::Close,
        Key::Up => PickerAction::Up,
        Key::Down => PickerAction::Down,
        Key::PageUp => PickerAction::PageUp,
        Key::PageDown => PickerAction::PageDown,
        Key::Home => PickerAction::First,
        Key::End => PickerAction::Last,
        Key::Backspace if !searching => PickerAction::Parent,
        Key::Left if !searching => PickerAction::Parent,
        Key::Char('/') => PickerAction::StartSearch,
        Key::Char(c) if searching => PickerAction::Type(c),
        Key::Backspace if searching => PickerAction::Erase,
        Key::Esc if searching => PickerAction::StopSearch,
        Key::Right | Key::Enter => PickerAction::Choose,
        Key::Char('s') | Key::Char('S') => PickerAction::Select,
        _ => PickerAction::Nothing,
    }
}

/// What a key does when a folder has been chosen as input.
#[derive(Debug, Clone, Copy, PartialEq, Eq, Structural)]
pub enum ConfirmAction {
    /// Convert every file of the folder, into `<folder>/xsql`.
    AllFiles,
    /// Pick single files inside the folder.
    PickFiles,
    Cancel,
    Nothing,
}

pub open spec fn spec_confirm_action(key: Key) -> ConfirmAction {
    match key {
        Key::Char('a') | Key::Char('A') => ConfirmAction::AllFiles,
        Key::Char('f') | Key::Char('F') => ConfirmAction::PickFiles,
        Key::Char('q') | Key::Esc => ConfirmAction::Cancel,
        _ => ConfirmAction::Nothing,
    }
}

pub fn confirm_action(key: Key) -> (r: ConfirmAction)
    ensures
        r == spec_confirm_action(key),
{
    match key {
        Key::Char('a') | Key::Char('A') => ConfirmAction::AllFiles,
        Key::Char('f') | Key::Char('F') => ConfirmAction::PickFiles,
        Key::Char('q') | Key::Esc => ConfirmAction::Cancel,
        _ => ConfirmAction::Nothing,
    }
}

/// The status line after toggling the dry run to `dry_run`.
pub fn dry_run_status(dry_run: bool) -> (r: &'static str)
    ensures
        r@ == if dry_run { "Dry-run enabled"@ } else { "Dry-run disabled"@ },
{
    if dry_run { "Dry-run enabled" } else { "Dry-run disabled" }
}

} // verus!
