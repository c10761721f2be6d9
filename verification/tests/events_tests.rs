use zellij_tab_config::theme::ThemeComponentType;
use zellij_tab_config::ui::events::{process_key, IoRequest, KeyCode, KeyInput, KeyOutcome};
use zellij_tab_config::ui::state::{normalize_theme_name, App, InputMode, PreviewAttribute, PreviewElement};

fn key(code: KeyCode) -> KeyInput {
    KeyInput { code, shift: false }
}

#[test]
fn j_onto_a_frame_resets_to_the_base_colour() {
    let mut app = App::new();
    process_key(&mut app, key(KeyCode::Char('j')));
    process_key(&mut app, key(KeyCode::Tab));
    assert_eq!(app.selected_attribute, PreviewAttribute::Background);
    let mut steps = 0;
    while !app.selected_element.is_frame() && steps < 15 {
        process_key(&mut app, key(KeyCode::Char('j')));
        steps += 1;
    }
    assert!(app.selected_element.is_frame());
    assert_eq!(app.selected_attribute, PreviewAttribute::Base);
    process_key(&mut app, key(KeyCode::Tab));
    assert_eq!(app.selected_attribute, PreviewAttribute::Base);
}

#[test]
fn four_jumps_to_the_status_bar() {
    let mut app = App::new();
    app.selected_element = PreviewElement::PaneHighlight;
    assert!(matches!(process_key(&mut app, key(KeyCode::Char('4'))), KeyOutcome::Continue));
    assert_eq!(app.selected_element, PreviewElement::StatusBar);
    process_key(&mut app, key(KeyCode::Char('1')));
    assert_eq!(app.selected_element, PreviewElement::TabSelected);
}

#[test]
fn yank_move_paste_then_undo() {
    let mut app = App::new();
    let c = app.theme.get(ThemeComponentType::RibbonSelected).base;
    process_key(&mut app, key(KeyCode::Char('y')));
    process_key(&mut app, key(KeyCode::Char('3')));
    let ty = app.selected_element.component_type();
    let before = app.theme.clone();
    process_key(&mut app, key(KeyCode::Char('p')));
    assert_eq!(app.theme.get(ty).base, c);
    assert!(app.dirty);
    process_key(&mut app, key(KeyCode::Char('u')));
    assert_eq!(app.theme, before);
}

#[test]
fn delete_from_the_loader_asks_first() {
    let mut app = App::new();
    process_key(&mut app, key(KeyCode::Char('l')));
    app.finish_open_load_dialog(Ok(vec!["mine".to_string()]));
    assert_eq!(app.input_mode, InputMode::ThemeLoad);
    process_key(&mut app, key(KeyCode::Char('d')));
    assert_eq!(app.input_mode, InputMode::ThemeLoadDeleteConfirm);
    match process_key(&mut app, key(KeyCode::Char('y'))) {
        KeyOutcome::Io(IoRequest::Delete(n)) => assert_eq!(n, "mine"),
        _ => panic!("expected a delete request"),
    }
}

#[test]
fn picker_y_yanks_the_edited_colour() {
    let mut app = App::new();
    process_key(&mut app, key(KeyCode::Char('c')));
    assert_eq!(app.input_mode, InputMode::ColorPicker);
    process_key(&mut app, key(KeyCode::PageDown));
    let picked = app.color_editor.to_rgb();
    process_key(&mut app, key(KeyCode::Char('y')));
    assert_eq!(app.yanked_color, Some(picked));
}

#[test]
fn capital_u_requests_a_self_update() {
    let mut app = App::new();
    assert!(matches!(process_key(&mut app, key(KeyCode::Char('U'))), KeyOutcome::Io(IoRequest::SelfUpdate)));
}

#[test]
fn names_without_letters_digits_or_underscores_normalize_to_nothing() {
    assert_eq!(normalize_theme_name("  -- !! ?"), "");
    assert_eq!(normalize_theme_name(" - _ - "), "_");
    assert_eq!(normalize_theme_name("\u{3000}x\u{3000}"), "x");
}
