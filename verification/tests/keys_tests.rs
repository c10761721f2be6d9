use zellij_tab_config::config::ConfigError;
use zellij_tab_config::theme::{Theme, ThemeComponentType};
use zellij_tab_config::ui::events::{IoRequest, KeyCode, KeyInput, KeyOutcome};
use zellij_tab_config::ui::keys::handle_key;
use zellij_tab_config::ui::loader::ThemeFilter;
use zellij_tab_config::ui::{App, InputMode, PreviewAttribute, PreviewElement};

fn press(code: KeyCode) -> KeyInput {
    KeyInput { code, shift: false }
}

fn type_keys(app: &mut App, keys: &[KeyCode]) {
    for k in keys {
        handle_key(app, press(*k));
    }
}

fn names(v: &[&str]) -> Vec<String> {
    v.iter().map(|s| s.to_string()).collect()
}

fn loader_with(themes: &[&str]) -> App {
    let mut app = App::new();
    assert!(matches!(handle_key(&mut app, press(KeyCode::Char('l'))), KeyOutcome::Io(IoRequest::OpenLoadDialog)));
    app.finish_open_load_dialog(Ok(names(themes)));
    assert_eq!(app.input_mode, InputMode::ThemeLoad);
    app
}

#[test]
fn tab_is_ignored_on_frames() {
    let mut app = App::new();
    type_keys(&mut app, &[KeyCode::Char('j'), KeyCode::Char('j'), KeyCode::Char('j')]);
    assert_eq!(app.selected_element, PreviewElement::PaneSelected);
    handle_key(&mut app, press(KeyCode::Tab));
    assert_eq!(app.selected_attribute, PreviewAttribute::Foreground);
}

#[test]
fn moving_onto_a_frame_selects_its_foreground() {
    let mut app = App::new();
    handle_key(&mut app, press(KeyCode::Tab));
    assert_eq!(app.selected_attribute, PreviewAttribute::Background);
    type_keys(&mut app, &[KeyCode::Char('j'), KeyCode::Char('j')]);
    assert_eq!(app.selected_attribute, PreviewAttribute::Background);
    handle_key(&mut app, press(KeyCode::Char('j')));
    assert_eq!(app.selected_element, PreviewElement::PaneSelected);
    assert_eq!(app.selected_attribute, PreviewAttribute::Foreground);
}

#[test]
fn digits_jump_to_groups() {
    let mut app = App::new();
    handle_key(&mut app, press(KeyCode::Char('4')));
    assert_eq!(app.selected_element, PreviewElement::StatusBar);
    handle_key(&mut app, press(KeyCode::Char('3')));
    assert_eq!(app.selected_element, PreviewElement::TableTitle);
    handle_key(&mut app, press(KeyCode::Char('2')));
    assert_eq!(app.selected_element, PreviewElement::PaneSelected);
    handle_key(&mut app, press(KeyCode::Char('1')));
    assert_eq!(app.selected_element, PreviewElement::TabSelected);
}

#[test]
fn paste_writes_the_yanked_colour_and_undo_restores() {
    let mut app = App::new();
    let yanked = app.theme.get(ThemeComponentType::RibbonSelected).base;
    handle_key(&mut app, press(KeyCode::Char('y')));
    handle_key(&mut app, press(KeyCode::Char('3')));
    assert_eq!(app.selected_element, PreviewElement::TableTitle);
    let before = app.theme.clone();
    handle_key(&mut app, press(KeyCode::Char('p')));
    assert_eq!(app.theme.get(ThemeComponentType::TableTitle).base, yanked);
    assert!(app.dirty);
    handle_key(&mut app, press(KeyCode::Char('u')));
    assert_eq!(app.theme, before);
}

#[test]
fn undo_after_keeping_a_picker_change() {
    let mut app = App::new();
    let before = app.theme.clone();
    type_keys(&mut app, &[KeyCode::Char('c'), KeyCode::Tab, KeyCode::PageUp, KeyCode::Enter]);
    assert_ne!(app.theme, before);
    handle_key(&mut app, press(KeyCode::Char('u')));
    assert_eq!(app.theme, before);
}

#[test]
fn paste_without_a_yank_changes_nothing() {
    let mut app = App::new();
    handle_key(&mut app, press(KeyCode::Char('p')));
    assert_eq!(app.theme, Theme::default());
    assert!(!app.dirty);
}

#[test]
fn loader_search_and_filters() {
    let mut app = loader_with(&["gamma", "alpha", "beta"]);
    assert_eq!(app.loadable_themes, names(&["alpha", "beta", "gamma"]));
    handle_key(&mut app, press(KeyCode::Char('b')));
    assert_eq!(app.theme_filter, ThemeFilter::Builtin);
    assert!(app.loadable_themes.is_empty());
    handle_key(&mut app, press(KeyCode::Char('s')));
    assert_eq!(app.theme_filter, ThemeFilter::Saved);
    assert_eq!(app.loadable_themes.len(), 3);
    handle_key(&mut app, press(KeyCode::Char('E')));
    assert_eq!(app.theme_search_query, "e");
    assert_eq!(app.loadable_themes, names(&["beta"]));
    handle_key(&mut app, press(KeyCode::Backspace));
    assert_eq!(app.loadable_themes.len(), 3);
    handle_key(&mut app, press(KeyCode::Char('m')));
    assert_eq!(app.loadable_themes, names(&["gamma"]));
    handle_key(&mut app, press(KeyCode::Esc));
    assert_eq!(app.theme_search_query, "");
    assert_eq!(app.input_mode, InputMode::ThemeLoad);
    handle_key(&mut app, press(KeyCode::Esc));
    assert_eq!(app.input_mode, InputMode::Preview);
    assert_eq!(app.message.as_deref(), Some("Load cancelled"));
}

#[test]
fn loader_apply_selected_theme() {
    let mut app = loader_with(&["alpha", "beta"]);
    handle_key(&mut app, press(KeyCode::Down));
    match handle_key(&mut app, press(KeyCode::Char('a'))) {
        KeyOutcome::Io(IoRequest::ApplySaved(n)) => assert_eq!(n, "beta"),
        _ => panic!("expected an apply request"),
    }
    app.finish_apply_saved("beta", Ok(()));
    assert_eq!(app.message.as_deref(), Some("✓ Applied \"beta\" — restart Zellij to see changes"));
}

#[test]
fn loader_rename_flow() {
    let mut app = loader_with(&["alpha", "beta"]);
    handle_key(&mut app, press(KeyCode::Char('r')));
    assert_eq!(app.input_mode, InputMode::ThemeLoadRename);
    assert_eq!(app.theme_name_input, "alpha");
    assert_eq!(app.message.as_deref(), Some("Enter a new name, then press Enter to rename"));
    for _ in 0..5 {
        handle_key(&mut app, press(KeyCode::Backspace));
    }
    type_keys(&mut app, &[KeyCode::Char('N'), KeyCode::Char('e'), KeyCode::Char('w')]);
    match handle_key(&mut app, press(KeyCode::Enter)) {
        KeyOutcome::Io(IoRequest::Rename(old, new)) => {
            assert_eq!(old, "alpha");
            assert_eq!(new, "new");
        }
        _ => panic!("expected a rename request"),
    }
    app.finish_rename("alpha", "new", Ok(()), Ok(names(&["beta", "new"])));
    assert_eq!(app.input_mode, InputMode::ThemeLoad);
    assert_eq!(app.message.as_deref(), Some("✓ Renamed: alpha → new"));
    assert_eq!(app.loadable_themes, names(&["beta", "new"]));
}

#[test]
fn loader_delete_flow() {
    let mut app = loader_with(&["alpha", "beta"]);
    handle_key(&mut app, press(KeyCode::Char('d')));
    assert_eq!(app.input_mode, InputMode::ThemeLoadDeleteConfirm);
    assert_eq!(app.theme_filter, ThemeFilter::All);
    assert_eq!(app.message.as_deref(), Some("Delete \"alpha\"? (y/n)"));
    handle_key(&mut app, press(KeyCode::Char('n')));
    assert_eq!(app.input_mode, InputMode::ThemeLoad);
    handle_key(&mut app, press(KeyCode::Char('d')));
    match handle_key(&mut app, press(KeyCode::Char('y'))) {
        KeyOutcome::Io(IoRequest::Delete(n)) => assert_eq!(n, "alpha"),
        _ => panic!("expected a delete request"),
    }
    app.finish_delete("alpha", Ok(()), Ok(names(&["beta"])));
    assert_eq!(app.input_mode, InputMode::ThemeLoad);
    assert_eq!(app.message.as_deref(), Some("✓ Deleted: alpha"));
    assert_eq!(app.loadable_themes, names(&["beta"]));
}

#[test]
fn loader_reports_missing_selection() {
    let mut app = loader_with(&["alpha"]);
    handle_key(&mut app, press(KeyCode::Char('b')));
    assert!(app.loadable_themes.is_empty());
    handle_key(&mut app, press(KeyCode::Char('d')));
    assert_eq!(app.input_mode, InputMode::ThemeLoad);
    assert_eq!(app.message.as_deref(), Some("✗ No theme selected"));
    let mut failed = loader_with(&["alpha"]);
    failed.finish_delete("alpha", Err(ConfigError::Io("gone".to_string())), Ok(names(&["alpha"])));
    assert_eq!(failed.message.as_deref(), Some("✗ Error: IO error: gone"));
}

#[test]
fn capital_u_asks_for_a_self_update() {
    let mut app = App::new();
    assert!(matches!(handle_key(&mut app, press(KeyCode::Char('U'))), KeyOutcome::Io(IoRequest::SelfUpdate)));
    app.finish_self_update(Ok(None));
    assert_eq!(app.message.as_deref(), Some("Already up to date"));
    app.finish_self_update(Ok(Some("v1.2.3".to_string())));
    assert_eq!(app.message.as_deref(), Some("✓ Updated to v1.2.3 — restart to use it"));
    app.finish_self_update(Err("offline".to_string()));
    assert_eq!(app.message.as_deref(), Some("✗ Update failed: offline"));
}

#[test]
fn picker_f_toggles_and_y_yanks() {
    let mut app = App::new();
    handle_key(&mut app, press(KeyCode::Char('c')));
    handle_key(&mut app, press(KeyCode::Char('f')));
    assert_eq!(app.editing_attribute, PreviewAttribute::Background);
    let picked = app.color_editor.to_rgb();
    handle_key(&mut app, press(KeyCode::Char('y')));
    assert_eq!(app.yanked_color, Some(picked));
    handle_key(&mut app, press(KeyCode::Esc));
    assert_eq!(app.input_mode, InputMode::Preview);
    handle_key(&mut app, press(KeyCode::Char('3')));
    handle_key(&mut app, press(KeyCode::Char('p')));
    assert_eq!(app.theme.get(ThemeComponentType::TableTitle).base, picked);
}

#[test]
fn picker_f_is_ignored_on_frames() {
    let mut app = App::new();
    handle_key(&mut app, press(KeyCode::Char('2')));
    assert_eq!(app.selected_element, PreviewElement::PaneSelected);
    handle_key(&mut app, press(KeyCode::Char('c')));
    handle_key(&mut app, press(KeyCode::Char('f')));
    assert_eq!(app.editing_attribute, PreviewAttribute::Foreground);
}
