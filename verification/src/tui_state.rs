//! The terminal interface as a state machine: `tui_step` takes the state and a key
//! and gives the next state and the work the program has to do (open a folder, plan
//! or run a conversion, quit). The program performs that work and reports back
//! through `picker_opened`, `planned`, `output_checked`, `converted` and
//! `folder_chosen`; it also draws the state.

use vstd::prelude::*;
use crate::cli::{push_char, Dialect};
use crate::ir::opt_string_view;
use crate::text::{append_decimal, chars_of, decimal};
use crate::tui_logic::{
    confirm_action, lemma_search_positions_below, main_action, names_view, picker_action,
    search_matches, search_positions, spec_confirm_action, spec_focus_left, spec_fresh,
    spec_main_action, spec_move_down, spec_move_up, spec_page_down, spec_page_up,
    spec_picker_action, spec_select_first, spec_select_last, current, ConfirmAction, Cursor,
    Focus, Key, MainAction, PickerAction,
};
use crate::v2::{copy_opt_string, copy_string};

verus! {

/// The screen shown.
#[derive(Debug, Clone, Copy, PartialEq, Eq, Structural)]
pub enum Screen {
    Main,
    PickInput,
    PickOutputDir,
    ConfirmDir,
    ConfirmCreate,
}

/// An entry of a folder listed in the picker.
#[derive(Debug)]
pub struct Entry {
    pub path: String,
    /// The entry's file name, when it is valid UTF-8.
    pub name: Option<String>,
    pub is_dir: bool,
    pub is_file: bool,
}

#[verifier::ext_equal]
pub struct EntryView {
    pub path: Seq<char>,
    pub name: Option<Seq<char>>,
    pub is_dir: bool,
    pub is_file: bool,
}

impl View for Entry {
    type V = EntryView;

    open spec fn view(&self) -> EntryView {
        EntryView { path: self.path@, name: opt_string_view(self.name), is_dir: self.is_dir, is_file: self.is_file }
    }
}

/// The file picker: the folder listed, its entries in the order shown, the cursor over
/// the entries that the search keeps, and the search.
#[derive(Debug)]
pub struct PickerState {
    pub dir: String,
    pub entries: Vec<Entry>,
    pub cursor: Cursor,
    pub query: String,
    pub searching: bool,
}

#[verifier::ext_equal]
pub struct PickerView {
    pub dir: Seq<char>,
    pub entries: Seq<EntryView>,
    pub cursor: Cursor,
    pub query: Seq<char>,
    pub searching: bool,
}

pub open spec fn entries_view(v: Seq<Entry>) -> Seq<EntryView> {
    v.map_values(|e: Entry| e@)
}

impl View for PickerState {
    type V = PickerView;

    open spec fn view(&self) -> PickerView {
        PickerView {
            dir: self.dir@,
            entries: entries_view(self.entries@),
            cursor: self.cursor,
            query: self.query@,
            searching: self.searching,
        }
    }
}

/// The whole state of the interface.
#[derive(Debug)]
pub struct TuiState {
    pub screen: Screen,
    pub focus: Focus,
    pub input: Option<String>,
    pub output_dir: Option<String>,
    pub from: Dialect,
    pub to: Dialect,
    pub dry_run: bool,
    pub status: String,
    /// A folder chosen as input, waiting for "all files" or "pick files".
    pub pending_dir: Option<String>,
    pub picker: Option<PickerState>,
}

#[verifier::ext_equal]
pub struct TuiStateView {
    pub screen: Screen,
    pub focus: Focus,
    pub input: Option<Seq<char>>,
    pub output_dir: Option<Seq<char>>,
    pub from: Dialect,
    pub to: Dialect,
    pub dry_run: bool,
    pub status: Seq<char>,
    pub pending_dir: Option<Seq<char>>,
    pub picker: Option<PickerView>,
}

pub open spec fn opt_picker_view(p: Option<PickerState>) -> Option<PickerView> {
    match p {
        Some(p) => Some(p@),
        None => None,
    }
}

impl View for TuiState {
    type V = TuiStateView;

    open spec fn view(&self) -> TuiStateView {
        TuiStateView {
            screen: self.screen,
            focus: self.focus,
            input: opt_string_view(self.input),
            output_dir: opt_string_view(self.output_dir),
            from: self.from,
            to: self.to,
            dry_run: self.dry_run,
            status: self.status@,
            pending_dir: opt_string_view(self.pending_dir),
            picker: opt_picker_view(self.picker),
        }
    }
}

/// The work that a step leaves to the program.
#[derive(Debug)]
pub enum TuiEffect {
    Nothing,
    Quit,
    /// Open the picker (of files when `files`) at the nearest existing folder of
    /// `start`, or at the project's root when there is none, and report the listing
    /// with `picker_opened`.
    OpenPicker { start: Option<String>, files: bool },
    /// List this folder in the picker (`picker_opened`).
    OpenFolder(String),
    /// List the parent of this folder in the picker, when it has one.
    OpenParent(String),
    /// Plan the conversion of `input` into `output` and report with `planned`;
    /// `dry_run` says whether a dry run asked for it.
    Plan { input: String, output: String, dry_run: bool },
    /// Find out whether the output folder exists and report with `output_checked`.
    CheckOutput { input: String, output: String },
    /// Convert `input` into `output` and report with `converted`.
    Convert { input: String, output: String },
    /// Take this whole folder as input, with its `xsql` subfolder as output, and report
    /// with `folder_chosen`.
    ChooseFolder(String),
}

pub enum TuiEffectView {
    Nothing,
    Quit,
    OpenPicker { start: Option<Seq<char>>, files: bool },
    OpenFolder(Seq<char>),
    OpenParent(Seq<char>),
    Plan { input: Seq<char>, output: Seq<char>, dry_run: bool },
    CheckOutput { input: Seq<char>, output: Seq<char> },
    Convert { input: Seq<char>, output: Seq<char> },
    ChooseFolder(Seq<char>),
}

impl View for TuiEffect {
    type V = TuiEffectView;

    open spec fn view(&self) -> TuiEffectView {
        match self {
            TuiEffect::Nothing => TuiEffectView::Nothing,
            TuiEffect::Quit => TuiEffectView::Quit,
            TuiEffect::OpenPicker { start, files } => TuiEffectView::OpenPicker { start: opt_string_view(*start), files: *files },
            TuiEffect::OpenFolder(d) => TuiEffectView::OpenFolder(d@),
            TuiEffect::OpenParent(d) => TuiEffectView::OpenParent(d@),
            TuiEffect::Plan { input, output, dry_run } => TuiEffectView::Plan { input: input@, output: output@, dry_run: *dry_run },
            TuiEffect::CheckOutput { input, output } => TuiEffectView::CheckOutput { input: input@, output: output@ },
            TuiEffect::Convert { input, output } => TuiEffectView::Convert { input: input@, output: output@ },
            TuiEffect::ChooseFolder(d) => TuiEffectView::ChooseFolder(d@),
        }
    }
}

// ---------------------------------------------------------------------------
// The step, as a specification

/// The dialect after `d` in the order MySQL, PostgreSQL, SQLite (wrapping around).
pub open spec fn next_dialect(d: Dialect) -> Dialect {
    match d {
        Dialect::Mysql => Dialect::Postgres,
        Dialect::Postgres => Dialect::Sqlite,
        Dialect::Sqlite => Dialect::Mysql,
    }
}

/// The dialect before `d` in that order.
pub open spec fn prev_dialect(d: Dialect) -> Dialect {
    match d {
        Dialect::Mysql => Dialect::Sqlite,
        Dialect::Postgres => Dialect::Mysql,
        Dialect::Sqlite => Dialect::Postgres,
    }
}

pub open spec fn entry_names(es: Seq<EntryView>) -> Seq<Option<Seq<char>>> {
    es.map_values(|e: EntryView| e.name)
}

/// The positions of the entries that the picker shows.
pub open spec fn shown(p: PickerView) -> Seq<usize> {
    search_positions(entry_names(p.entries), p.query, p.entries.len())
}

/// The entry under the cursor, if any.
pub open spec fn selected_entry(p: PickerView) -> Option<EntryView> {
    match p.cursor.selected {
        Some(i) => if (i as int) < shown(p).len() { Some(p.entries[shown(p)[i as int] as int]) } else { None },
        None => None,
    }
}

/// The picker with a new query and search flag; the cursor goes back to the first
/// entry shown.
pub open spec fn with_query(p: PickerView, query: Seq<char>, searching: bool) -> PickerView {
    PickerView {
        cursor: spec_fresh(search_positions(entry_names(p.entries), query, p.entries.len()).len() as usize),
        query,
        searching,
        ..p
    }
}

/// Once both an input and an output are chosen, the focus goes to Run.
pub open spec fn focus_after(s: TuiStateView) -> Focus {
    if s.input is Some && s.output_dir is Some { Focus::Run } else { s.focus }
}

/// The plan to make after a change, when both an input and an output are chosen.
pub open spec fn plan_effect(s: TuiStateView, dry_run: bool) -> TuiEffectView {
    match (s.input, s.output_dir) {
        (Some(i), Some(o)) => TuiEffectView::Plan { input: i, output: o, dry_run },
        _ => TuiEffectView::Nothing,
    }
}

/// Running: a dry run plans; a real run first checks the output folder; without an
/// input and an output there is nothing to run.
pub open spec fn run_step(s: TuiStateView) -> (TuiStateView, TuiEffectView) {
    match (s.input, s.output_dir) {
        (Some(i), Some(o)) => (
            TuiStateView { status: "Running..."@, ..s },
            if s.dry_run { TuiEffectView::Plan { input: i, output: o, dry_run: true } } else { TuiEffectView::CheckOutput { input: i, output: o } },
        ),
        _ => (TuiStateView { status: "Select input and output first"@, ..s }, TuiEffectView::Nothing),
    }
}

pub open spec fn dry_run_text(dry_run: bool) -> Seq<char> {
    if dry_run { "Dry-run enabled"@ } else { "Dry-run disabled"@ }
}

pub open spec fn main_step(s: TuiStateView, key: Key) -> (TuiStateView, TuiEffectView) {
    match spec_main_action(key, s.focus) {
        MainAction::Quit => (s, TuiEffectView::Quit),
        MainAction::PickInput => (
            TuiStateView { screen: Screen::PickInput, picker: None, ..s },
            TuiEffectView::OpenPicker { start: s.input, files: true },
        ),
        MainAction::PickOutputDir => (
            TuiStateView { screen: Screen::PickOutputDir, picker: None, ..s },
            TuiEffectView::OpenPicker { start: s.output_dir, files: false },
        ),
        MainAction::Run => run_step(s),
        MainAction::SwapDialects => {
            let t = TuiStateView { from: s.to, to: s.from, status: "Swapped dialects"@, ..s };
            (t, plan_effect(t, false))
        },
        MainAction::ToggleDryRun => {
            let t = TuiStateView { dry_run: !s.dry_run, status: dry_run_text(!s.dry_run), ..s };
            (t, plan_effect(t, false))
        },
        MainAction::MoveFocus(f) => (TuiStateView { focus: f, ..s }, TuiEffectView::Nothing),
        MainAction::NextDialect => (
            if s.focus is From { TuiStateView { from: next_dialect(s.from), ..s } }
            else if s.focus is To { TuiStateView { to: next_dialect(s.to), ..s } }
            else { s },
            TuiEffectView::Nothing,
        ),
        MainAction::PrevDialect => (
            if s.focus is From { TuiStateView { from: prev_dialect(s.from), ..s } }
            else if s.focus is To { TuiStateView { to: prev_dialect(s.to), ..s } }
            else { s },
            TuiEffectView::Nothing,
        ),
        MainAction::Nothing => (s, TuiEffectView::Nothing),
    }
}

/// The state with the picker replaced.
pub open spec fn with_picker(s: TuiStateView, p: PickerView) -> TuiStateView {
    TuiStateView { picker: Some(p), ..s }
}

/// The picker's cursor after Page Down; a cursor at the very end of `usize` stays.
pub open spec fn page_down_guarded(c: Cursor) -> Cursor {
    if current(c) + 10 <= usize::MAX { spec_page_down(c) } else { c }
}

/// Leaving the picker with `path` chosen as input (`as_input`) or as output.
pub open spec fn chosen(s: TuiStateView, path: Seq<char>, as_input: bool) -> (TuiStateView, TuiEffectView) {
    let t0 = if as_input { TuiStateView { input: Some(path), ..s } } else { TuiStateView { output_dir: Some(path), ..s } };
    let t = TuiStateView { screen: Screen::Main, picker: None, focus: focus_after(t0), ..t0 };
    (t, plan_effect(t, false))
}

pub open spec fn picker_step(s: TuiStateView, p: PickerView, key: Key) -> (TuiStateView, TuiEffectView) {
    let nothing = TuiEffectView::Nothing;
    match spec_picker_action(key, p.searching) {
        PickerAction::Close => (TuiStateView { screen: Screen::Main, picker: None, ..s }, nothing),
        PickerAction::Up => (with_picker(s, PickerView { cursor: spec_move_up(p.cursor), ..p }), nothing),
        PickerAction::Down => (with_picker(s, PickerView { cursor: spec_move_down(p.cursor), ..p }), nothing),
        PickerAction::PageUp => (with_picker(s, PickerView { cursor: spec_page_up(p.cursor), ..p }), nothing),
        PickerAction::PageDown => (with_picker(s, PickerView { cursor: page_down_guarded(p.cursor), ..p }), nothing),
        PickerAction::First => (with_picker(s, PickerView { cursor: spec_select_first(p.cursor), ..p }), nothing),
        PickerAction::Last => (with_picker(s, PickerView { cursor: spec_select_last(p.cursor), ..p }), nothing),
        PickerAction::Parent => (s, TuiEffectView::OpenParent(p.dir)),
        PickerAction::StartSearch => (with_picker(s, with_query(p, Seq::empty(), true)), nothing),
        PickerAction::Type(c) => (with_picker(s, with_query(p, p.query.push(c), true)), nothing),
        PickerAction::Erase => (
            with_picker(s, with_query(p, if p.query.len() > 0 { p.query.drop_last() } else { p.query }, true)),
            nothing,
        ),
        PickerAction::StopSearch => (with_picker(s, with_query(p, Seq::empty(), false)), nothing),
        PickerAction::Choose => match selected_entry(p) {
            Some(e) =>
                if e.is_file && s.screen is PickInput {
                    chosen(s, e.path, true)
                } else if e.is_dir {
                    (s, TuiEffectView::OpenFolder(e.path))
                } else {
                    (s, nothing)
                },
            None => (s, nothing),
        },
        PickerAction::Select => match selected_entry(p) {
            Some(e) =>
                if e.is_dir && s.screen is PickInput {
                    (TuiStateView { screen: Screen::ConfirmDir, pending_dir: Some(e.path), picker: None, ..s }, nothing)
                } else {
                    chosen(s, e.path, s.screen is PickInput)
                },
            None => (s, nothing),
        },
        PickerAction::Nothing => (s, nothing),
    }
}

pub open spec fn confirm_step(s: TuiStateView, dir: Seq<char>, key: Key) -> (TuiStateView, TuiEffectView) {
    match spec_confirm_action(key) {
        ConfirmAction::AllFiles => (TuiStateView { screen: Screen::Main, pending_dir: None, ..s }, TuiEffectView::ChooseFolder(dir)),
        ConfirmAction::PickFiles => (
            TuiStateView { screen: Screen::PickInput, pending_dir: None, picker: None, ..s },
            TuiEffectView::OpenFolder(dir),
        ),
        ConfirmAction::Cancel => (TuiStateView { screen: Screen::Main, pending_dir: None, ..s }, TuiEffectView::Nothing),
        ConfirmAction::Nothing => (s, TuiEffectView::Nothing),
    }
}

/// Asked whether to create the missing output folder: `y` converts (which creates
/// it), `n`, `q` or Esc cancel.
pub open spec fn create_step(s: TuiStateView, key: Key) -> (TuiStateView, TuiEffectView) {
    match (s.input, s.output_dir) {
        (Some(i), Some(o)) => match key {
            Key::Char('y') | Key::Char('Y') => (
                TuiStateView { screen: Screen::Main, status: "Running..."@, ..s },
                TuiEffectView::Convert { input: i, output: o },
            ),
            Key::Char('n') | Key::Char('N') | Key::Char('q') | Key::Esc => (
                TuiStateView { screen: Screen::Main, status: "Conversion cancelled"@, ..s },
                TuiEffectView::Nothing,
            ),
            _ => (s, TuiEffectView::Nothing),
        },
        _ => (TuiStateView { screen: Screen::Main, ..s }, TuiEffectView::Nothing),
    }
}

/// One key on the screen shown: the main screen's keys, the picker's, the folder
/// confirmation's or the create-folder question's.
pub open spec fn spec_tui_step(s: TuiStateView, key: Key) -> (TuiStateView, TuiEffectView) {
    match s.screen {
        Screen::Main => main_step(s, key),
        Screen::PickInput | Screen::PickOutputDir => match s.picker {
            Some(p) => picker_step(s, p, key),
            None => (TuiStateView { screen: Screen::Main, ..s }, TuiEffectView::Nothing),
        },
        Screen::ConfirmDir => match s.pending_dir {
            Some(d) => confirm_step(s, d, key),
            None => (TuiStateView { screen: Screen::Main, ..s }, TuiEffectView::Nothing),
        },
        Screen::ConfirmCreate => create_step(s, key),
    }
}

// ---------------------------------------------------------------------------
// The step

fn next_dialect_of(d: Dialect) -> (r: Dialect)
    ensures
        r == next_dialect(d),
{
    match d {
        Dialect::Mysql => Dialect::Postgres,
        Dialect::Postgres => Dialect::Sqlite,
        Dialect::Sqlite => Dialect::Mysql,
    }
}

fn prev_dialect_of(d: Dialect) -> (r: Dialect)
    ensures
        r == prev_dialect(d),
{
    match d {
        Dialect::Mysql => Dialect::Sqlite,
        Dialect::Postgres => Dialect::Mysql,
        Dialect::Sqlite => Dialect::Postgres,
    }
}

fn entry_names_of(es: &Vec<Entry>) -> (r: Vec<Option<String>>)
    ensures
        r@.len() == es@.len(),
        names_view(r@) == entry_names(entries_view(es@)),
{
    let mut r: Vec<Option<String>> = Vec::new();
    for i in 0..es.len()
        invariant
            r@.len() == i,
            forall|k: int| 0 <= k < i ==> opt_string_view(#[trigger] r@[k]) == es@[k]@.name,
    {
        r.push(copy_opt_string(&es[i].name));
    }
    assert(names_view(r@) =~= entry_names(entries_view(es@)));
    r
}

/// The positions of the entries shown for `query`.
fn positions_for(es: &Vec<Entry>, query: &String) -> (r: Vec<usize>)
    ensures
        r@ == search_positions(entry_names(entries_view(es@)), query@, es@.len()),
        forall|k: int| 0 <= k < r@.len() ==> (#[trigger] r@[k]) < es@.len(),
{
    let names = entry_names_of(es);
    let r = search_matches(&names, query.as_str());
    let n = es.len();
    proof {
        lemma_search_positions_below(entry_names(entries_view(es@)), query@, n as nat);
    }
    r
}

/// The position, among all entries, of the entry under the cursor.
fn selected_index(p: &PickerState) -> (r: Option<usize>)
    ensures
        match r {
            Some(j) => j < p.entries@.len() && selected_entry(p@) == Some(p@.entries[j as int]),
            None => selected_entry(p@) is None,
        },
{
    let shown = positions_for(&p.entries, &p.query);
    match p.cursor.selected {
        Some(i) => {
            if i < shown.len() {
                Some(shown[i])
            } else {
                None
            }
        },
        None => None,
    }
}

fn set_query(p: PickerState, query: String, searching: bool) -> (r: PickerState)
    ensures
        r@ == with_query(p@, query@, searching),
{
    let shown = positions_for(&p.entries, &query);
    let cursor = Cursor::fresh(shown.len());
    PickerState { dir: p.dir, entries: p.entries, cursor, query, searching }
}

fn without_last(s: &String) -> (r: String)
    ensures
        r@ == if s@.len() > 0 { s@.drop_last() } else { s@ },
{
    let cs = chars_of(s.as_str());
    let n = if cs.len() > 0 { cs.len() - 1 } else { 0 };
    let mut r = String::new();
    for i in 0..n
        invariant
            cs@ == s@,
            n == (if cs@.len() > 0 { cs@.len() - 1 } else { 0 }),
            r@ == s@.take(i as int),
    {
        push_char(&mut r, cs[i]);
        assert(r@ =~= s@.take(i + 1));
    }
    proof {
        if s@.len() > 0 {
            assert(s@.take(n as int) =~= s@.drop_last());
        } else {
            assert(s@.take(0) =~= s@);
        }
    }
    r
}

fn plan_of(s: &TuiState, dry_run: bool) -> (r: TuiEffect)
    ensures
        r@ == plan_effect(s@, dry_run),
{
    match (&s.input, &s.output_dir) {
        (Some(i), Some(o)) => TuiEffect::Plan { input: copy_string(i), output: copy_string(o), dry_run },
        _ => TuiEffect::Nothing,
    }
}

fn run_of(s: TuiState) -> (r: (TuiState, TuiEffect))
    ensures
        (r.0@, r.1@) == run_step(s@),
{
    let mut s = s;
    let e = match (&s.input, &s.output_dir) {
        (Some(i), Some(o)) => {
            let input = copy_string(i);
            let output = copy_string(o);
            if s.dry_run {
                TuiEffect::Plan { input, output, dry_run: true }
            } else {
                TuiEffect::CheckOutput { input, output }
            }
        },
        _ => TuiEffect::Nothing,
    };
    if s.input.is_some() && s.output_dir.is_some() {
        s.status = String::from_str("Running...");
    } else {
        s.status = String::from_str("Select input and output first");
    }
    (s, e)
}

fn main_step_of(s: TuiState, key: Key) -> (r: (TuiState, TuiEffect))
    ensures
        (r.0@, r.1@) == main_step(s@, key),
{
    let mut s = s;
    match main_action(key, s.focus) {
        MainAction::Quit => (s, TuiEffect::Quit),
        MainAction::PickInput => {
            let start = copy_opt_string(&s.input);
            s.screen = Screen::PickInput;
            s.picker = None;
            (s, TuiEffect::OpenPicker { start, files: true })
        },
        MainAction::PickOutputDir => {
            let start = copy_opt_string(&s.output_dir);
            s.screen = Screen::PickOutputDir;
            s.picker = None;
            (s, TuiEffect::OpenPicker { start, files: false })
        },
        MainAction::Run => run_of(s),
        MainAction::SwapDialects => {
            let f = s.from;
            s.from = s.to;
            s.to = f;
            s.status = String::from_str("Swapped dialects");
            let e = plan_of(&s, false);
            (s, e)
        },
        MainAction::ToggleDryRun => {
            s.dry_run = !s.dry_run;
            s.status = if s.dry_run { String::from_str("Dry-run enabled") } else { String::from_str("Dry-run disabled") };
            let e = plan_of(&s, false);
            (s, e)
        },
        MainAction::MoveFocus(f) => {
            s.focus = f;
            (s, TuiEffect::Nothing)
        },
        MainAction::NextDialect => {
            if s.focus == Focus::From {
                s.from = next_dialect_of(s.from);
            } else if s.focus == Focus::To {
                s.to = next_dialect_of(s.to);
            }
            (s, TuiEffect::Nothing)
        },
        MainAction::PrevDialect => {
            if s.focus == Focus::From {
                s.from = prev_dialect_of(s.from);
            } else if s.focus == Focus::To {
                s.to = prev_dialect_of(s.to);
            }
            (s, TuiEffect::Nothing)
        },
        MainAction::Nothing => (s, TuiEffect::Nothing),
    }
}

/// Leaves the picker with the entry at `j` chosen as input (`as_input`) or output.
fn choose_entry(s: TuiState, p: PickerState, j: usize, as_input: bool) -> (r: (TuiState, TuiEffect))
    requires
        j < p.entries@.len(),
        s.picker is None,
    ensures
        (r.0@, r.1@) == chosen(with_picker(s@, p@), p@.entries[j as int].path, as_input),
{
    let mut s = s;
    let path = copy_string(&p.entries[j].path);
    if as_input {
        s.input = Some(path);
    } else {
        s.output_dir = Some(path);
    }
    s.screen = Screen::Main;
    s.picker = None;
    if s.input.is_some() && s.output_dir.is_some() {
        s.focus = Focus::Run;
    }
    let e = plan_of(&s, false);
    (s, e)
}

fn picker_step_of(s: TuiState, p: PickerState, key: Key) -> (r: (TuiState, TuiEffect))
    requires
        s.picker is None,
    ensures
        (r.0@, r.1@) == picker_step(with_picker(s@, p@), p@, key),
{
    let mut s = s;
    let mut p = p;
    let ghost s0 = with_picker(s@, p@);
    match picker_action(key, p.searching) {
        PickerAction::Close => {
            s.screen = Screen::Main;
            (s, TuiEffect::Nothing)
        },
        PickerAction::Up => {
            p.cursor = p.cursor.move_up();
            s.picker = Some(p);
            (s, TuiEffect::Nothing)
        },
        PickerAction::Down => {
            p.cursor = p.cursor.move_down();
            s.picker = Some(p);
            (s, TuiEffect::Nothing)
        },
        PickerAction::PageUp => {
            p.cursor = p.cursor.page_up();
            s.picker = Some(p);
            (s, TuiEffect::Nothing)
        },
        PickerAction::PageDown => {
            let at = match p.cursor.selected {
                Some(i) => i,
                None => 0,
            };
            if at <= usize::MAX - 10 {
                p.cursor = p.cursor.page_down();
            }
            s.picker = Some(p);
            (s, TuiEffect::Nothing)
        },
        PickerAction::First => {
            p.cursor = p.cursor.select_first();
            s.picker = Some(p);
            (s, TuiEffect::Nothing)
        },
        PickerAction::Last => {
            p.cursor = p.cursor.select_last();
            s.picker = Some(p);
            (s, TuiEffect::Nothing)
        },
        PickerAction::Parent => {
            let dir = copy_string(&p.dir);
            s.picker = Some(p);
            (s, TuiEffect::OpenParent(dir))
        },
        PickerAction::StartSearch => {
            s.picker = Some(set_query(p, String::new(), true));
            (s, TuiEffect::Nothing)
        },
        PickerAction::Type(c) => {
            let mut q = copy_string(&p.query);
            push_char(&mut q, c);
            s.picker = Some(set_query(p, q, true));
            (s, TuiEffect::Nothing)
        },
        PickerAction::Erase => {
            let q = without_last(&p.query);
            s.picker = Some(set_query(p, q, true));
            (s, TuiEffect::Nothing)
        },
        PickerAction::StopSearch => {
            s.picker = Some(set_query(p, String::new(), false));
            (s, TuiEffect::Nothing)
        },
        PickerAction::Choose => match selected_index(&p) {
            Some(j) => {
                if p.entries[j].is_file && s.screen == Screen::PickInput {
                    choose_entry(s, p, j, true)
                } else if p.entries[j].is_dir {
                    let dir = copy_string(&p.entries[j].path);
                    s.picker = Some(p);
                    (s, TuiEffect::OpenFolder(dir))
                } else {
                    s.picker = Some(p);
                    (s, TuiEffect::Nothing)
                }
            },
            None => {
                s.picker = Some(p);
                (s, TuiEffect::Nothing)
            },
        },
        PickerAction::Select => match selected_index(&p) {
            Some(j) => {
                if p.entries[j].is_dir && s.screen == Screen::PickInput {
                    s.pending_dir = Some(copy_string(&p.entries[j].path));
                    s.screen = Screen::ConfirmDir;
                    (s, TuiEffect::Nothing)
                } else {
                    let as_input = s.screen == Screen::PickInput;
                    choose_entry(s, p, j, as_input)
                }
            },
            None => {
                s.picker = Some(p);
                (s, TuiEffect::Nothing)
            },
        },
        PickerAction::Nothing => {
            s.picker = Some(p);
            (s, TuiEffect::Nothing)
        },
    }
}

fn confirm_step_of(s: TuiState, key: Key) -> (r: (TuiState, TuiEffect))
    requires
        s.pending_dir is Some,
    ensures
        (r.0@, r.1@) == confirm_step(s@, s@.pending_dir->0, key),
{
    let mut s = s;
    match confirm_action(key) {
        ConfirmAction::AllFiles => {
            let d = s.pending_dir.take();
            s.screen = Screen::Main;
            match d {
                Some(d) => (s, TuiEffect::ChooseFolder(d)),
                None => (s, TuiEffect::Nothing),
            }
        },
        ConfirmAction::PickFiles => {
            let d = s.pending_dir.take();
            s.screen = Screen::PickInput;
            s.picker = None;
            match d {
                Some(d) => (s, TuiEffect::OpenFolder(d)),
                None => (s, TuiEffect::Nothing),
            }
        },
        ConfirmAction::Cancel => {
            s.pending_dir = None;
            s.screen = Screen::Main;
            (s, TuiEffect::Nothing)
        },
        ConfirmAction::Nothing => (s, TuiEffect::Nothing),
    }
}

fn create_step_of(s: TuiState, key: Key) -> (r: (TuiState, TuiEffect))
    ensures
        (r.0@, r.1@) == create_step(s@, key),
{
    let mut s = s;
    let e = match (&s.input, &s.output_dir) {
        (Some(i), Some(o)) => match key {
            Key::Char('y') | Key::Char('Y') => TuiEffect::Convert { input: copy_string(i), output: copy_string(o) },
            _ => TuiEffect::Nothing,
        },
        _ => TuiEffect::Nothing,
    };
    if s.input.is_some() && s.output_dir.is_some() {
        match key {
            Key::Char('y') | Key::Char('Y') => {
                s.screen = Screen::Main;
                s.status = String::from_str("Running...");
            },
            Key::Char('n') | Key::Char('N') | Key::Char('q') | Key::Esc => {
                s.screen = Screen::Main;
                s.status = String::from_str("Conversion cancelled");
            },
            _ => {},
        }
    } else {
        s.screen = Screen::Main;
    }
    (s, e)
}

/// One key: the next state, and the work left to the program.
pub fn tui_step(state: TuiState, key: Key) -> (r: (TuiState, TuiEffect))
    ensures
        (r.0@, r.1@) == spec_tui_step(state@, key),
{
    let mut s = state;
    match s.screen {
        Screen::Main => main_step_of(s, key),
        Screen::PickInput | Screen::PickOutputDir => {
            let picker = s.picker.take();
            match picker {
                Some(p) => picker_step_of(s, p, key),
                None => {
                    s.screen = Screen::Main;
                    (s, TuiEffect::Nothing)
                },
            }
        },
        Screen::ConfirmDir => {
            if s.pending_dir.is_some() {
                confirm_step_of(s, key)
            } else {
                s.screen = Screen::Main;
                (s, TuiEffect::Nothing)
            }
        },
        Screen::ConfirmCreate => create_step_of(s, key),
    }
}

// ---------------------------------------------------------------------------
// What the program reports back

/// The state the interface starts in: the main screen, the output set to the
/// project's folder, MySQL to PostgreSQL, no dry run.
pub open spec fn initial_view(project: Seq<char>) -> TuiStateView {
    TuiStateView {
        screen: Screen::Main,
        focus: Focus::Input,
        input: None,
        output_dir: Some(project),
        from: Dialect::Mysql,
        to: Dialect::Postgres,
        dry_run: false,
        status: "Ready"@,
        pending_dir: None,
        picker: None,
    }
}

/// The state after the picker has listed `dir`: no search, the cursor on the first entry.
pub open spec fn opened_view(s: TuiStateView, dir: Seq<char>, entries: Seq<EntryView>) -> TuiStateView {
    with_picker(s, with_query(PickerView { dir, entries, cursor: spec_fresh(0), query: Seq::empty(), searching: false }, Seq::empty(), false))
}

/// The status after planning: the number of files to convert (for a dry run,
/// `Dry-run: ...`), or the planning error.
pub open spec fn plan_status(outcome: Result<u64, Seq<char>>, dry_run: bool) -> Seq<char> {
    match outcome {
        Ok(n) => (if dry_run { "Dry-run: "@ } else { "Plan: "@ }) + decimal(n as nat) + " files"@,
        Err(e) => "Plan error: "@ + e,
    }
}

pub open spec fn result_view<T>(r: Result<T, String>) -> Result<T, Seq<char>> {
    match r {
        Ok(v) => Ok(v),
        Err(e) => Err(e@),
    }
}

/// After checking the output folder: convert when it exists, otherwise ask whether to
/// create it.
pub open spec fn checked_view(s: TuiStateView, exists: bool) -> (TuiStateView, TuiEffectView) {
    match (s.input, s.output_dir) {
        (Some(i), Some(o)) =>
            if exists {
                (s, TuiEffectView::Convert { input: i, output: o })
            } else {
                (
                    TuiStateView { screen: Screen::ConfirmCreate, status: "Output folder "@ + o + " does not exist. Create it? (y/n)"@, ..s },
                    TuiEffectView::Nothing,
                )
            },
        _ => (s, TuiEffectView::Nothing),
    }
}

pub open spec fn converted_status(outcome: Result<(), Seq<char>>) -> Seq<char> {
    match outcome {
        Ok(()) => "Conversion complete"@,
        Err(e) => "Conversion failed: "@ + e,
    }
}

/// After a whole folder was chosen: input and output set, focus to Run, and a plan.
pub open spec fn folder_view(s: TuiStateView, input: Seq<char>, output: Seq<char>) -> (TuiStateView, TuiEffectView) {
    let t0 = TuiStateView { input: Some(input), output_dir: Some(output), ..s };
    let t = TuiStateView { focus: focus_after(t0), ..t0 };
    (t, plan_effect(t, false))
}

impl TuiState {
    pub fn initial(project: String) -> (r: TuiState)
        ensures
            r@ == initial_view(project@),
    {
        TuiState {
            screen: Screen::Main,
            focus: Focus::Input,
            input: None,
            output_dir: Some(project),
            from: Dialect::Mysql,
            to: Dialect::Postgres,
            dry_run: false,
            status: String::from_str("Ready"),
            pending_dir: None,
            picker: None,
        }
    }
}

/// The picker has listed `dir` with these entries.
pub fn picker_opened(s: TuiState, dir: String, entries: Vec<Entry>) -> (r: TuiState)
    ensures
        r@ == opened_view(s@, dir@, entries_view(entries@)),
{
    let mut s = s;
    let p = PickerState { dir, entries, cursor: Cursor::fresh(0), query: String::new(), searching: false };
    s.picker = Some(set_query(p, String::new(), false));
    s
}

/// The plan has been made: `outcome` is the number of files or the error.
pub fn planned(s: TuiState, outcome: Result<u64, String>, dry_run: bool) -> (r: TuiState)
    ensures
        r@ == (TuiStateView { status: plan_status(result_view(outcome), dry_run), ..s@ }),
{
    let mut s = s;
    let mut m = String::new();
    match outcome {
        Ok(n) => {
            if dry_run {
                m.append("Dry-run: ");
            } else {
                m.append("Plan: ");
            }
            append_decimal(&mut m, n);
            m.append(" files");
        },
        Err(e) => {
            m.append("Plan error: ");
            m.append(e.as_str());
        },
    }
    s.status = m;
    s
}

/// The output folder exists or not.
pub fn output_checked(s: TuiState, exists: bool) -> (r: (TuiState, TuiEffect))
    ensures
        (r.0@, r.1@) == checked_view(s@, exists),
{
    let mut s = s;
    let e = match (&s.input, &s.output_dir) {
        (Some(i), Some(o)) => {
            if exists {
                TuiEffect::Convert { input: copy_string(i), output: copy_string(o) }
            } else {
                let mut m = String::new();
                m.append("Output folder ");
                m.append(o.as_str());
                m.append(" does not exist. Create it? (y/n)");
                s.screen = Screen::ConfirmCreate;
                s.status = m;
                TuiEffect::Nothing
            }
        },
        _ => TuiEffect::Nothing,
    };
    (s, e)
}

/// The conversion has been made, or has failed.
pub fn converted(s: TuiState, outcome: Result<(), String>) -> (r: TuiState)
    ensures
        r@ == (TuiStateView { status: converted_status(result_view(outcome)), ..s@ }),
{
    let mut s = s;
    match outcome {
        Ok(()) => s.status = String::from_str("Conversion complete"),
        Err(e) => {
            let mut m = String::new();
            m.append("Conversion failed: ");
            m.append(e.as_str());
            s.status = m;
        },
    }
    s
}

/// A whole folder was chosen as input, with `output` as its output folder.
pub fn folder_chosen(s: TuiState, input: String, output: String) -> (r: (TuiState, TuiEffect))
    ensures
        (r.0@, r.1@) == folder_view(s@, input@, output@),
{
    let mut s = s;
    s.input = Some(input);
    s.output_dir = Some(output);
    if s.input.is_some() && s.output_dir.is_some() {
        s.focus = Focus::Run;
    }
    let e = plan_of(&s, false);
    (s, e)
}

// ---------------------------------------------------------------------------
// Laws

/// Only the main screen quits: on a picker or a question, no key ends the program
/// (Esc there closes the picker or cancels).
pub proof fn law_only_main_screen_quits(s: TuiStateView, key: Key)
    requires
        !(s.screen is Main),
    ensures
        !(spec_tui_step(s, key).1 is Quit),
{
}

/// On the main screen, Tab and Shift+Tab undo each other and change nothing but the
/// focus.
pub proof fn law_tab_and_back_tab_undo_each_other(s: TuiStateView)
    requires
        s.screen is Main,
    ensures
        spec_tui_step(spec_tui_step(s, Key::Tab).0, Key::BackTab).0 == s,
        spec_tui_step(spec_tui_step(s, Key::BackTab).0, Key::Tab).0 == s,
{
    crate::tui_logic::law_focus_moves_undo_each_other(s.focus);
}

/// On From or To, the next dialect and the previous one undo each other.
pub proof fn law_dialect_keys_undo_each_other(s: TuiStateView)
    requires
        s.screen is Main,
        s.focus is From || s.focus is To,
    ensures
        spec_tui_step(spec_tui_step(s, Key::Down).0, Key::Up).0 == s,
        spec_tui_step(spec_tui_step(s, Key::Up).0, Key::Down).0 == s,
{
}

} // verus!
