use zellij_tab_config::theme::{RgbColor, Theme, ThemeComponentType};
use zellij_tab_config::ui::events::{IoRequest, KeyCode, KeyInput, KeyOutcome};
use zellij_tab_config::ui::keys::handle_key;
use zellij_tab_config::ui::{App, InputMode, PreviewAttribute, PreviewElement};

fn press(code: KeyCode) -> KeyInput {
    KeyInput { code, shift: false }
}

#[test]
fn attribute_toggle_and_labels() {
    let mut a = PreviewAttribute::Foreground;
    assert_eq!(a.label(), "FG");
    a.toggle();
    assert_eq!(a, PreviewAttribute::Background);
    assert_eq!(a.label(), "BG");
    a.toggle();
    assert_eq!(a, PreviewAttribute::Foreground);
}

#[test]
fn picker_edits_its_own_attribute() {
    let mut app = App::new();
    handle_key(&mut app, press(KeyCode::Char('c')));
    assert_eq!(app.input_mode, InputMode::ColorPicker);
    assert_eq!(app.editing_attribute, PreviewAttribute::Foreground);
    handle_key(&mut app, press(KeyCode::Tab));
    assert_eq!(app.editing_attribute, PreviewAttribute::Background);
    assert_eq!(app.selected_attribute, PreviewAttribute::Foreground);
    assert_eq!(app.color_editor.to_rgb(), RgbColor::new(80, 80, 80));
    handle_key(&mut app, press(KeyCode::PageUp));
    assert_eq!(app.theme.get(ThemeComponentType::RibbonSelected).background, RgbColor::new(105, 80, 80));
    handle_key(&mut app, press(KeyCode::Down));
    handle_key(&mut app, KeyInput { code: KeyCode::Right, shift: true });
    assert_eq!(app.theme.get(ThemeComponentType::RibbonSelected).background, RgbColor::new(105, 81, 80));
    handle_key(&mut app, press(KeyCode::Enter));
    assert_eq!(app.input_mode, InputMode::Preview);
    assert_eq!(app.theme.get(ThemeComponentType::RibbonSelected).background, RgbColor::new(105, 81, 80));
}

#[test]
fn pending_apply_goes_through_naming() {
    let mut app = App::new();
    assert!(matches!(handle_key(&mut app, press(KeyCode::Char('a'))), KeyOutcome::Continue));
    assert!(app.pending_apply);
    assert_eq!(app.input_mode, InputMode::ThemeNameInput);
    assert_eq!(app.message.as_deref(), Some("Name this theme before applying"));
    handle_key(&mut app, press(KeyCode::Char('2')));
    assert!(matches!(handle_key(&mut app, press(KeyCode::Enter)), KeyOutcome::Io(IoRequest::ApplyAs)));
    assert!(!app.pending_apply);
    assert_eq!(app.theme.name, "default2");
    app.finish_apply_as(Ok(()), Ok(vec![]));
    assert_eq!(app.input_mode, InputMode::Preview);
}

#[test]
fn cancelling_the_name_drops_the_pending_apply() {
    let mut app = App::new();
    handle_key(&mut app, press(KeyCode::Char('a')));
    handle_key(&mut app, press(KeyCode::Esc));
    assert!(!app.pending_apply);
    assert_eq!(app.message.as_deref(), Some("Save cancelled"));
    handle_key(&mut app, press(KeyCode::Char('s')));
    assert!(matches!(handle_key(&mut app, press(KeyCode::Enter)), KeyOutcome::Io(IoRequest::SaveAs)));
}

#[test]
fn quitting_and_help() {
    let mut app = App::new();
    handle_key(&mut app, press(KeyCode::Char('?')));
    assert_eq!(app.input_mode, InputMode::Help);
    assert!(matches!(handle_key(&mut app, press(KeyCode::Char('q'))), KeyOutcome::Continue));
    assert_eq!(app.input_mode, InputMode::Preview);
    assert!(matches!(handle_key(&mut app, press(KeyCode::Char('q'))), KeyOutcome::Quit));
}

#[test]
fn keys_outside_the_picker_keep_editor_colours() {
    let mut app = App::new();
    for code in [
        KeyCode::Up,
        KeyCode::Tab,
        KeyCode::Left,
        KeyCode::Char('k'),
        KeyCode::Char('s'),
        KeyCode::Char('q'),
        KeyCode::Enter,
        KeyCode::Char('?'),
        KeyCode::Esc,
    ] {
        handle_key(&mut app, press(code));
    }
    let mut expected = Theme::default();
    expected.name = app.theme.name.clone();
    assert_eq!(app.theme, expected);
}
