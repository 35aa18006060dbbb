use crossterm::event::{Event as CtEvent, KeyCode, KeyEvent, KeyModifiers};
use tecarius::app::{App, State};
use tecarius::config::Colors;
use tecarius::keyboard::{translate, Events, Key, KeyKind, KeyPress, KeyboardEvent, Move};
use tecarius::pacman::PackageData;

fn pkg(name: &str, upgradable: bool) -> PackageData {
    PackageData {
        name: name.to_string(),
        version: "1.0.0".to_string(),
        new_version: if upgradable { Some("2.0.0".to_string()) } else { None },
        description: None,
        architecture: None,
        url: None,
        licenses: Vec::new(),
        provides: Vec::new(),
        dependencies: Vec::new(),
        optional_dependencies: Vec::new(),
        conflicts: Vec::new(),
        replaces: Vec::new(),
        size: "1.0 MiB".to_string(),
        packager: None,
        install_date: None,
    }
}

fn cmd(event: Events) -> KeyboardEvent {
    KeyboardEvent { event: Some(event), raw: CtEvent::FocusGained }
}

fn raw_char(c: char) -> KeyboardEvent {
    let key = KeyEvent::new(KeyCode::Char(c), KeyModifiers::NONE);
    KeyboardEvent { event: None, raw: CtEvent::Key(key) }
}

fn press(key: Key, ctrl: bool, alt: bool, shift: bool) -> KeyPress {
    KeyPress { key, ctrl, alt, shift, kind: KeyKind::Press }
}

#[test]
fn scenario_all_packages_in_source_order() {
    let app = App::new(vec![pkg("vim", true), pkg("zsh", false)], Colors::default());
    assert_eq!(app.state, State::Normal);
    assert_eq!(app.query(), "".to_string());
    assert!(!app.filter_upgradables);
    assert_eq!(app.filtered(), vec![0, 1]);
    assert_eq!(app.cursor, Some(0));
}

#[test]
fn scenario_filter_upgradables_only() {
    let mut app = App::new(vec![pkg("vim", true), pkg("zsh", false)], Colors::default());
    app.handle_keyboard_event(cmd(Events::Filter));
    assert!(app.filter_upgradables);
    assert_eq!(app.query(), "".to_string());
    assert_eq!(app.filtered(), vec![0]);
    assert_eq!(app.packages[0].name, "vim".to_string());
}

#[test]
fn scenario_bulk_toggle_upgradables() {
    let mut app = App::new(
        vec![pkg("a", true), pkg("b", false), pkg("c", true)],
        Colors::default(),
    );
    assert!(app.selected_packages.is_empty());
    app.handle_keyboard_event(cmd(Events::SelectUpgradables));
    assert!(app.selected_packages.contains(&"a".to_string()));
    assert!(!app.selected_packages.contains(&"b".to_string()));
    assert!(app.selected_packages.contains(&"c".to_string()));
    assert_eq!(app.selected_packages.len(), 2);
    app.handle_keyboard_event(cmd(Events::SelectUpgradables));
    assert!(app.selected_packages.is_empty());
}

#[test]
fn scenario_sync_confirmation_and_back() {
    let mut app = App::new(vec![pkg("a", true)], Colors::default());
    app.handle_keyboard_event(cmd(Events::Select));
    assert!(app.selected_packages.contains(&"a".to_string()));
    let r = app.handle_keyboard_event(cmd(Events::Sync));
    assert_eq!(r, None);
    assert_eq!(app.state, State::Syncing(false));
    app.handle_keyboard_event(cmd(Events::Back));
    assert_eq!(app.state, State::Normal);
    assert!(app.selected_packages.contains(&"a".to_string()));
    assert_eq!(app.selected_packages.len(), 1);
}

#[test]
fn scenario_confirm_spawns_and_output_grows() {
    let mut app = App::new(vec![pkg("a", true)], Colors::default());
    app.handle_keyboard_event(cmd(Events::Select));
    app.handle_keyboard_event(cmd(Events::Sync));
    assert_eq!(app.state, State::Syncing(false));
    let r = app.handle_keyboard_event(cmd(Events::Confirm));
    assert_eq!(r, Some(vec!["a".to_string()]));
    assert_eq!(app.state, State::Syncing(true));
    assert_eq!(app.sync_widget.output, "".to_string());
    app.sync_widget.append_output("resolving dependencies\n");
    assert_eq!(app.sync_widget.output, "resolving dependencies\n".to_string());
    app.sync_widget.append_output("upgrading a\n");
    assert_eq!(
        app.sync_widget.output,
        "resolving dependencies\nupgrading a\n".to_string()
    );
}

#[test]
fn sync_with_empty_selection_is_a_no_op() {
    let mut app = App::new(vec![pkg("a", true)], Colors::default());
    let r = app.handle_keyboard_event(cmd(Events::Sync));
    assert_eq!(r, None);
    assert_eq!(app.state, State::Normal);
}

#[test]
fn confirm_while_running_is_a_no_op() {
    let mut app = App::new(vec![pkg("a", true)], Colors::default());
    app.handle_keyboard_event(cmd(Events::Select));
    app.handle_keyboard_event(cmd(Events::Sync));
    app.handle_keyboard_event(cmd(Events::Confirm));
    assert_eq!(app.state, State::Syncing(true));
    let r = app.handle_keyboard_event(cmd(Events::Confirm));
    assert_eq!(r, None);
    assert_eq!(app.state, State::Syncing(true));
}

#[test]
fn scroll_while_syncing() {
    let mut app = App::new(vec![pkg("a", true)], Colors::default());
    app.handle_keyboard_event(cmd(Events::Select));
    app.handle_keyboard_event(cmd(Events::Sync));
    assert_eq!(app.sync_widget.vertical_scroll, 0);
    app.handle_keyboard_event(cmd(Events::Navigate(Move::Next)));
    assert_eq!(app.sync_widget.vertical_scroll, 1);
    app.handle_keyboard_event(cmd(Events::Navigate(Move::Previous)));
    app.handle_keyboard_event(cmd(Events::Navigate(Move::Previous)));
    assert_eq!(app.sync_widget.vertical_scroll, -1);
    // other movements leave the scroll alone
    app.handle_keyboard_event(cmd(Events::Navigate(Move::First)));
    assert_eq!(app.sync_widget.vertical_scroll, -1);
}

#[test]
fn spawn_failure_returns_to_normal() {
    let mut app = App::new(vec![pkg("a", true)], Colors::default());
    app.handle_keyboard_event(cmd(Events::Select));
    app.handle_keyboard_event(cmd(Events::Sync));
    app.handle_keyboard_event(cmd(Events::Confirm));
    assert_eq!(app.state, State::Syncing(true));
    app.sync_spawn_failed();
    assert_eq!(app.state, State::Normal);
    assert!(app.selected_packages.contains(&"a".to_string()));
}

#[test]
fn toggle_select_twice_restores_selection() {
    let mut app = App::new(vec![pkg("a", true), pkg("b", false)], Colors::default());
    app.handle_keyboard_event(cmd(Events::Select));
    assert!(app.selected_packages.contains(&"a".to_string()));
    app.handle_keyboard_event(cmd(Events::Select));
    assert!(app.selected_packages.is_empty());
}

#[test]
fn quit_from_normal() {
    let mut app = App::new(vec![pkg("a", true)], Colors::default());
    app.handle_keyboard_event(cmd(Events::Quit));
    assert_eq!(app.state, State::Exiting);
    // Exiting is terminal
    app.handle_keyboard_event(cmd(Events::Back));
    assert_eq!(app.state, State::Exiting);
}

#[test]
fn back_in_normal_with_empty_query_exits() {
    let mut app = App::new(vec![pkg("a", true)], Colors::default());
    app.handle_keyboard_event(cmd(Events::Back));
    assert_eq!(app.state, State::Exiting);
}

#[test]
fn back_in_normal_with_query_clears_it_and_stays() {
    let mut app = App::new(vec![pkg("vim", true), pkg("zsh", false)], Colors::default());
    app.handle_keyboard_event(cmd(Events::Search));
    assert_eq!(app.state, State::Searching);
    app.handle_keyboard_event(raw_char('v'));
    app.handle_keyboard_event(cmd(Events::Confirm));
    assert_eq!(app.state, State::Normal);
    assert_eq!(app.query(), "v".to_string());
    app.handle_keyboard_event(cmd(Events::Back));
    assert_eq!(app.state, State::Normal);
    assert_eq!(app.query(), "".to_string());
}

#[test]
fn searching_passthrough_edits_query_and_filters() {
    let mut app = App::new(vec![pkg("vim", true), pkg("zsh", false)], Colors::default());
    app.handle_keyboard_event(cmd(Events::Search));
    assert_eq!(app.state, State::Searching);
    app.handle_keyboard_event(raw_char('v'));
    assert_eq!(app.query(), "v".to_string());
    // only "vim" matches the fuzzy query "v"
    assert_eq!(app.filtered(), vec![0]);
    assert_eq!(app.cursor, Some(0));
    // an unmapped key in searching mode is also passed through
    app.handle_keyboard_event(raw_char('i'));
    assert_eq!(app.query(), "vi".to_string());
    assert_eq!(app.filtered(), vec![0]);
}

#[test]
fn searching_back_clears_query() {
    let mut app = App::new(vec![pkg("vim", true), pkg("zsh", false)], Colors::default());
    app.handle_keyboard_event(cmd(Events::Search));
    app.handle_keyboard_event(raw_char('z'));
    assert_eq!(app.filtered(), vec![1]);
    app.handle_keyboard_event(cmd(Events::Back));
    assert_eq!(app.state, State::Normal);
    assert_eq!(app.query(), "".to_string());
    assert_eq!(app.filtered(), vec![0, 1]);
}

#[test]
fn query_without_subsequence_matches_nothing() {
    let mut app = App::new(vec![pkg("vim", true), pkg("zsh", false)], Colors::default());
    app.handle_keyboard_event(cmd(Events::Search));
    app.handle_keyboard_event(raw_char('q'));
    assert_eq!(app.filtered(), Vec::<usize>::new());
    assert_eq!(app.cursor, None);
}

#[test]
fn cursor_navigation_clamps_at_both_ends() {
    let mut app = App::new(
        vec![pkg("a", false), pkg("b", false), pkg("c", false)],
        Colors::default(),
    );
    assert_eq!(app.cursor, Some(0));
    app.handle_keyboard_event(cmd(Events::Navigate(Move::Previous)));
    assert_eq!(app.cursor, Some(0));
    app.handle_keyboard_event(cmd(Events::Navigate(Move::Next)));
    assert_eq!(app.cursor, Some(1));
    app.handle_keyboard_event(cmd(Events::Navigate(Move::Next)));
    app.handle_keyboard_event(cmd(Events::Navigate(Move::Next)));
    assert_eq!(app.cursor, Some(2));
    app.handle_keyboard_event(cmd(Events::Navigate(Move::First)));
    assert_eq!(app.cursor, Some(0));
    app.handle_keyboard_event(cmd(Events::Navigate(Move::Last)));
    assert_eq!(app.cursor, Some(2));
    app.handle_keyboard_event(cmd(Events::Navigate(Move::JumpDown)));
    assert_eq!(app.cursor, Some(2));
    app.handle_keyboard_event(cmd(Events::Navigate(Move::JumpUp)));
    assert_eq!(app.cursor, Some(0));
}

#[test]
fn cursor_reclamps_when_view_shrinks() {
    let mut app = App::new(
        vec![pkg("a", false), pkg("b", false), pkg("c", true)],
        Colors::default(),
    );
    app.handle_keyboard_event(cmd(Events::Navigate(Move::Last)));
    assert_eq!(app.cursor, Some(2));
    // only "c" is upgradable: the view shrinks to one row
    app.handle_keyboard_event(cmd(Events::Filter));
    assert_eq!(app.filtered(), vec![2]);
    assert_eq!(app.cursor, Some(0));
}

#[test]
fn cursor_is_none_on_empty_view() {
    let mut app = App::new(vec![pkg("a", false)], Colors::default());
    app.handle_keyboard_event(cmd(Events::Filter));
    assert_eq!(app.filtered(), Vec::<usize>::new());
    assert_eq!(app.cursor, None);
    app.handle_keyboard_event(cmd(Events::Navigate(Move::Next)));
    assert_eq!(app.cursor, None);
    // back to the full view: the cursor comes back
    app.handle_keyboard_event(cmd(Events::Filter));
    assert_eq!(app.cursor, Some(0));
}

#[test]
fn current_package_follows_the_cursor() {
    let mut app = App::new(
        vec![pkg("a", false), pkg("b", true), pkg("c", false)],
        Colors::default(),
    );
    app.handle_keyboard_event(cmd(Events::Navigate(Move::Next)));
    let p = app.current_package().expect("cursor rests on a package");
    assert_eq!(p.name, "b".to_string());
    app.handle_keyboard_event(cmd(Events::Filter));
    let p = app.current_package().expect("cursor reclamped to the view");
    assert_eq!(p.name, "b".to_string());
}

#[test]
fn toggle_selection_without_valid_cursor_changes_nothing() {
    let mut app = App::new(vec![pkg("a", false)], Colors::default());
    app.handle_keyboard_event(cmd(Events::Filter));
    assert_eq!(app.cursor, None);
    app.handle_keyboard_event(cmd(Events::Select));
    assert!(app.selected_packages.is_empty());
}

#[test]
fn translate_maps_the_key_table() {
    assert_eq!(
        translate(&press(Key::Char('j'), false, false, false)),
        Some(Events::Navigate(Move::Next))
    );
    assert_eq!(
        translate(&press(Key::Down, false, false, false)),
        Some(Events::Navigate(Move::Next))
    );
    assert_eq!(
        translate(&press(Key::Char('k'), false, false, false)),
        Some(Events::Navigate(Move::Previous))
    );
    assert_eq!(
        translate(&press(Key::Char('g'), false, false, false)),
        Some(Events::Navigate(Move::First))
    );
    assert_eq!(
        translate(&press(Key::Char('G'), false, false, true)),
        Some(Events::Navigate(Move::Last))
    );
    assert_eq!(translate(&press(Key::Tab, false, false, false)), Some(Events::Tab(Move::Next)));
    assert_eq!(
        translate(&press(Key::BackTab, false, false, true)),
        Some(Events::Tab(Move::Previous))
    );
    assert_eq!(translate(&press(Key::Char('x'), false, false, false)), Some(Events::Select));
    assert_eq!(translate(&press(Key::Char('/'), false, false, false)), Some(Events::Search));
    assert_eq!(translate(&press(Key::Char('q'), false, false, false)), Some(Events::Quit));
    assert_eq!(translate(&press(Key::Esc, false, false, false)), Some(Events::Back));
    assert_eq!(translate(&press(Key::Enter, false, false, false)), Some(Events::Confirm));
    assert_eq!(
        translate(&press(Key::Char('u'), true, false, false)),
        Some(Events::Navigate(Move::JumpUp))
    );
    assert_eq!(
        translate(&press(Key::Char('d'), true, false, false)),
        Some(Events::Navigate(Move::JumpDown))
    );
    assert_eq!(translate(&press(Key::Char('u'), false, true, false)), Some(Events::Filter));
    assert_eq!(
        translate(&press(Key::Char('X'), false, false, true)),
        Some(Events::SelectUpgradables)
    );
    assert_eq!(translate(&press(Key::Char('S'), false, false, true)), Some(Events::Sync));
}

#[test]
fn translate_ignores_unmapped_and_non_press() {
    assert_eq!(translate(&press(Key::Char('X'), false, false, false)), None);
    assert_eq!(translate(&press(Key::Char('S'), false, false, false)), None);
    assert_eq!(translate(&press(Key::Char('u'), false, false, false)), None);
    assert_eq!(translate(&press(Key::Char('d'), false, false, false)), None);
    assert_eq!(translate(&press(Key::Char('z'), false, false, false)), None);
    assert_eq!(translate(&press(Key::Other, false, false, false)), None);
    let released = KeyPress {
        key: Key::Char('q'),
        ctrl: false,
        alt: false,
        shift: false,
        kind: KeyKind::Release,
    };
    assert_eq!(translate(&released), None);
    let repeated = KeyPress {
        key: Key::Char('q'),
        ctrl: false,
        alt: false,
        shift: false,
        kind: KeyKind::Repeat,
    };
    assert_eq!(translate(&repeated), None);
}

#[test]
fn commands_are_mode_dependent_but_translation_is_not() {
    // the same key press translates the same way; the session decides
    let quit = press(Key::Char('q'), false, false, false);
    let as_command = translate(&quit);
    assert_eq!(as_command, Some(Events::Quit));
    // in searching mode that same command is passed to the query
    let mut app = App::new(vec![pkg("quilt", false)], Colors::default());
    app.handle_keyboard_event(cmd(Events::Search));
    let key = KeyEvent::new(KeyCode::Char('q'), KeyModifiers::NONE);
    app.handle_keyboard_event(KeyboardEvent {
        event: as_command,
        raw: CtEvent::Key(key),
    });
    assert_eq!(app.state, State::Searching);
    assert_eq!(app.query(), "q".to_string());
}
