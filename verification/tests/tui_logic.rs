use xsql::cli::Dialect;
use xsql::tui_state::{converted, folder_chosen, output_checked, picker_opened, planned, tui_step, Entry, Screen, TuiEffect, TuiState};
use xsql::tui_logic::{confirm_action, dry_run_status, focus_after_choice, focus_left, focus_right, main_action, picker_action, search_matches, ConfirmAction, Cursor, Focus, Key, MainAction, PickerAction};

#[test]
fn focus_cycles() {
    assert_eq!(focus_right(Focus::Run), Focus::Input);
    assert_eq!(focus_left(Focus::Input), Focus::Run);
    for f in [Focus::Input, Focus::OutputDir, Focus::From, Focus::To, Focus::Run] {
        assert_eq!(focus_left(focus_right(f)), f);
    }
    assert_eq!(focus_after_choice(Focus::Input, true, true), Focus::Run);
    assert_eq!(focus_after_choice(Focus::Input, true, false), Focus::Input);
}

#[test]
fn cursor_moves() {
    let c = Cursor::fresh(3);
    assert_eq!(c.selected, Some(0));
    assert_eq!(c.move_up().selected, Some(2));
    assert_eq!(c.move_down().selected, Some(1));
    assert_eq!(c.move_up().move_down(), c);
    let last = Cursor { selected: Some(2), len: 3 };
    assert_eq!(last.move_down().selected, Some(0));
    let big = Cursor { selected: Some(12), len: 30 };
    assert_eq!(big.page_up().selected, Some(2));
    assert_eq!(big.page_down().selected, Some(22));
    assert_eq!(Cursor { selected: Some(25), len: 30 }.page_down().selected, Some(29));
    assert_eq!(Cursor { selected: Some(5), len: 30 }.page_up().selected, Some(0));
    assert_eq!(big.select_first().selected, Some(0));
    assert_eq!(big.select_last().selected, Some(29));
    let empty = Cursor::fresh(0);
    assert_eq!(empty.selected, None);
    assert_eq!(empty.move_up().selected, Some(0));
    assert_eq!(empty.select_last().selected, None);
}

#[test]
fn search_filters_names() {
    let names = vec![Some("Schema.sql".to_string()), Some("notes.txt".to_string()), None, Some("old_SCHEMA".to_string())];
    assert_eq!(search_matches(&names, "schema"), vec![0, 3]);
    assert_eq!(search_matches(&names, ""), vec![0, 1, 2, 3]);
    assert_eq!(search_matches(&names, "zzz"), Vec::<usize>::new());
}

#[test]
fn keys() {
    assert_eq!(main_action(Key::Char('q'), Focus::Input), MainAction::Quit);
    assert_eq!(main_action(Key::Char('I'), Focus::Input), MainAction::PickInput);
    assert_eq!(main_action(Key::Right, Focus::To), MainAction::NextDialect);
    assert_eq!(main_action(Key::Right, Focus::OutputDir), MainAction::MoveFocus(Focus::From));
    assert_eq!(main_action(Key::Enter, Focus::Run), MainAction::Run);
    assert_eq!(main_action(Key::Enter, Focus::Input), MainAction::Nothing);
    assert_eq!(main_action(Key::Tab, Focus::Input), MainAction::MoveFocus(Focus::OutputDir));
    assert_eq!(main_action(Key::BackTab, Focus::Input), MainAction::MoveFocus(Focus::Run));
    assert_eq!(main_action(Key::Up, Focus::From), MainAction::PrevDialect);
    assert_eq!(main_action(Key::Down, Focus::To), MainAction::NextDialect);
    assert_eq!(main_action(Key::Up, Focus::Input), MainAction::Nothing);
    assert_eq!(picker_action(Key::Char('q'), false), PickerAction::Close);
    assert_eq!(picker_action(Key::Char('q'), true), PickerAction::Type('q'));
    assert_eq!(picker_action(Key::Char('/'), true), PickerAction::StartSearch);
    assert_eq!(picker_action(Key::Backspace, true), PickerAction::Erase);
    assert_eq!(picker_action(Key::Backspace, false), PickerAction::Parent);
    assert_eq!(picker_action(Key::Esc, true), PickerAction::StopSearch);
    assert_eq!(picker_action(Key::Left, true), PickerAction::Nothing);
    assert_eq!(picker_action(Key::Enter, false), PickerAction::Choose);
    assert_eq!(confirm_action(Key::Char('A')), ConfirmAction::AllFiles);
    assert_eq!(confirm_action(Key::Esc), ConfirmAction::Cancel);
    assert_eq!(dry_run_status(true), "Dry-run enabled");
}

#[test]
fn picker_select_key() {
    assert_eq!(picker_action(Key::Char('s'), false), PickerAction::Select);
    assert_eq!(picker_action(Key::Char('S'), false), PickerAction::Select);
    assert_eq!(picker_action(Key::Char('s'), true), PickerAction::Type('s'));
}

fn entry(name: &str, dir: bool) -> Entry {
    Entry { path: format!("/p/{name}"), name: Some(name.to_string()), is_dir: dir, is_file: !dir }
}

fn step(s: TuiState, k: Key) -> (TuiState, TuiEffect) {
    tui_step(s, k)
}

#[test]
fn tui_starts_ready_without_dry_run() {
    let s = TuiState::initial("/proj".to_string());
    assert_eq!(s.screen, Screen::Main);
    assert_eq!(s.focus, Focus::Input);
    assert_eq!(s.output_dir.as_deref(), Some("/proj"));
    assert!(!s.dry_run);
    assert_eq!(s.status, "Ready");
}

#[test]
fn tui_tab_and_dialect_keys() {
    let s = TuiState::initial("/proj".to_string());
    let (s, _) = step(s, Key::Tab);
    assert_eq!(s.focus, Focus::OutputDir);
    let (s, _) = step(s, Key::Tab);
    assert_eq!(s.focus, Focus::From);
    let (s, _) = step(s, Key::Down);
    assert_eq!(s.from, Dialect::Postgres);
    assert_eq!(s.focus, Focus::From);
    let (s, _) = step(s, Key::Left);
    assert_eq!(s.from, Dialect::Mysql);
    let (s, _) = step(s, Key::Up);
    assert_eq!(s.from, Dialect::Sqlite);
    let (s, _) = step(s, Key::BackTab);
    assert_eq!(s.focus, Focus::OutputDir);
    let (s, e) = step(s, Key::Esc);
    assert!(matches!(e, TuiEffect::Quit));
    assert_eq!(s.screen, Screen::Main);
}

#[test]
fn tui_enter_on_run_runs() {
    let mut s = TuiState::initial("/out".to_string());
    s.input = Some("/in.sql".to_string());
    s.focus = Focus::Run;
    let (s, e) = step(s, Key::Enter);
    assert!(matches!(e, TuiEffect::CheckOutput { ref input, ref output } if input == "/in.sql" && output == "/out"));
    assert_eq!(s.status, "Running...");
    let (s, e) = output_checked(s, false);
    assert!(matches!(e, TuiEffect::Nothing));
    assert_eq!(s.screen, Screen::ConfirmCreate);
    assert_eq!(s.status, "Output folder /out does not exist. Create it? (y/n)");
    let (s, e) = step(s, Key::Char('y'));
    assert!(matches!(e, TuiEffect::Convert { .. }));
    assert_eq!(s.screen, Screen::Main);
    let s = converted(s, Err("boom".to_string()));
    assert_eq!(s.status, "Conversion failed: boom");
    let s = converted(s, Ok(()));
    assert_eq!(s.status, "Conversion complete");
}

#[test]
fn tui_run_without_input_and_dry_run_plans() {
    let s = TuiState::initial("/out".to_string());
    let (s, e) = step(s, Key::Char('r'));
    assert!(matches!(e, TuiEffect::Nothing));
    assert_eq!(s.status, "Select input and output first");
    let (mut s, e) = step(s, Key::Char('d'));
    assert!(s.dry_run);
    assert_eq!(s.status, "Dry-run enabled");
    assert!(matches!(e, TuiEffect::Nothing));
    s.input = Some("/in".to_string());
    let (s, e) = step(s, Key::Char('r'));
    assert!(matches!(e, TuiEffect::Plan { dry_run: true, .. }));
    let s = planned(s, Ok(3), true);
    assert_eq!(s.status, "Dry-run: 3 files");
    let s = planned(s, Err("bad".to_string()), true);
    assert_eq!(s.status, "Plan error: bad");
}

#[test]
fn tui_picker_flow() {
    let s = TuiState::initial("/proj".to_string());
    let (s, e) = step(s, Key::Char('i'));
    assert_eq!(s.screen, Screen::PickInput);
    assert!(matches!(e, TuiEffect::OpenPicker { start: None, files: true }));
    let s = picker_opened(s, "/p".to_string(), vec![entry("sub", true), entry("a.sql", false), entry("b.txt", false)]);
    assert_eq!(s.picker.as_ref().unwrap().cursor.selected, Some(0));
    // Enter on a folder opens it
    let (s, e) = step(s, Key::Enter);
    assert!(matches!(e, TuiEffect::OpenFolder(ref d) if d == "/p/sub"));
    // search narrows the entries, and Esc ends the search without leaving the picker
    let (s, _) = step(s, Key::Char('/'));
    let (s, _) = step(s, Key::Char('S'));
    let (s, _) = step(s, Key::Char('q'));
    assert_eq!(s.picker.as_ref().unwrap().query, "Sq");
    assert_eq!(s.picker.as_ref().unwrap().cursor.len, 1);
    let (s, _) = step(s, Key::Backspace);
    assert_eq!(s.picker.as_ref().unwrap().query, "S");
    let (s, _) = step(s, Key::Char('q'));
    let (s, e) = step(s, Key::Enter);
    assert_eq!(s.screen, Screen::Main);
    assert_eq!(s.input.as_deref(), Some("/p/a.sql"));
    assert_eq!(s.focus, Focus::Run);
    assert!(matches!(e, TuiEffect::Plan { dry_run: false, .. }));
}

#[test]
fn tui_esc_closes_picker_without_quitting() {
    let s = TuiState::initial("/proj".to_string());
    let (s, _) = step(s, Key::Char('o'));
    let s = picker_opened(s, "/p".to_string(), vec![entry("out", true)]);
    let (s, e) = step(s, Key::Esc);
    assert!(matches!(e, TuiEffect::Nothing));
    assert_eq!(s.screen, Screen::Main);
    assert!(s.picker.is_none());
}

#[test]
fn tui_output_picker_selects_a_folder() {
    let s = TuiState::initial("/proj".to_string());
    let (s, _) = step(s, Key::Char('o'));
    let s = picker_opened(s, "/p".to_string(), vec![entry("out", true)]);
    let (s, _) = step(s, Key::Char('s'));
    assert_eq!(s.screen, Screen::Main);
    assert_eq!(s.output_dir.as_deref(), Some("/p/out"));
}

#[test]
fn tui_folder_as_input() {
    let s = TuiState::initial("/proj".to_string());
    let (s, _) = step(s, Key::Char('i'));
    let s = picker_opened(s, "/p".to_string(), vec![entry("schemas", true)]);
    let (s, _) = step(s, Key::Char('s'));
    assert_eq!(s.screen, Screen::ConfirmDir);
    assert_eq!(s.pending_dir.as_deref(), Some("/p/schemas"));
    let (s, e) = step(s, Key::Char('a'));
    assert_eq!(s.screen, Screen::Main);
    let TuiEffect::ChooseFolder(d) = e else { panic!("expected a folder choice") };
    let (s, e) = folder_chosen(s, d, "/p/schemas/xsql".to_string());
    assert_eq!(s.input.as_deref(), Some("/p/schemas"));
    assert_eq!(s.focus, Focus::Run);
    assert!(matches!(e, TuiEffect::Plan { .. }));
}
