use zellij_tab_config::config::ConfigError;
use zellij_tab_config::theme::{RgbColor, Theme, ThemeComponentType};
use zellij_tab_config::ui::events::{process_key, IoRequest, KeyCode, KeyInput, KeyOutcome};
use zellij_tab_config::ui::state::{
    normalize_theme_name, App, ColorEditor, InputMode, PreviewAttribute, PreviewElement,
};

fn key(code: KeyCode) -> KeyInput {
    KeyInput { code, shift: false }
}

#[test]
fn normalize_keeps_letters_digits_dash_underscore() {
    assert_eq!(normalize_theme_name("  My Theme! "), "my-theme");
    assert_eq!(normalize_theme_name("--a  b--"), "a--b");
    assert_eq!(normalize_theme_name("Nord_2"), "nord_2");
    assert_eq!(normalize_theme_name("!!!"), "");
    assert_eq!(normalize_theme_name(""), "");
}

#[test]
fn normalize_is_idempotent_on_examples() {
    for s in ["  My Theme! ", "--a  b--", "x\ty", "Ünïcode Näme"] {
        let once = normalize_theme_name(s);
        assert_eq!(normalize_theme_name(&once), once);
    }
}

#[test]
fn vertical_moves_wrap_and_undo_each_other() {
    let mut e = PreviewElement::TabSelected;
    e.move_up();
    assert_eq!(e, PreviewElement::StatusBar);
    e.move_down();
    assert_eq!(e, PreviewElement::TabSelected);
    e.move_down();
    assert_eq!(e, PreviewElement::TabUnselected1);
    let mut f = PreviewElement::ExitError;
    f.move_down();
    assert_eq!(f, PreviewElement::StatusBar);
}

#[test]
fn horizontal_moves() {
    let mut e = PreviewElement::TabSelected;
    e.move_right();
    assert_eq!(e, PreviewElement::TabUnselected1);
    e.move_right();
    e.move_right();
    assert_eq!(e, PreviewElement::TabUnselected2);
    let mut p = PreviewElement::TextSelected;
    p.move_right();
    assert_eq!(p, PreviewElement::PaneHighlight);
    p.move_left();
    assert_eq!(p, PreviewElement::PaneSelected);
    let mut x = PreviewElement::ExitSuccess;
    x.move_right();
    assert_eq!(x, PreviewElement::ExitError);
}

#[test]
fn element_labels_and_types() {
    assert_eq!(PreviewElement::TabUnselected2.label(), "Tab (Unselected)");
    assert_eq!(PreviewElement::StatusBar.component_type(), ThemeComponentType::TextUnselected);
    assert!(PreviewElement::PaneHighlight.is_frame());
    assert!(!PreviewElement::TableTitle.is_frame());
    let mut a = PreviewAttribute::Base;
    assert_eq!(a.label(), "FG");
    a.cycle();
    assert_eq!(a, PreviewAttribute::Background);
    a.cycle();
    assert_eq!(a, PreviewAttribute::Base);
}

#[test]
fn editor_hex_entry() {
    let mut e = ColorEditor::from_rgb(1, 2, 3);
    e.start_hex_input();
    assert_eq!(e.hex_input.as_deref(), Some("010203"));
    assert!(e.pop_hex_char());
    e.push_hex_char('F');
    e.push_hex_char('z');
    e.push_hex_char('f');
    assert_eq!(e.hex_input.as_deref(), Some("01020f"));
    assert_eq!(e.commit_hex(), Some(RgbColor::new(1, 2, 15)));
    assert_eq!(e.hex_input, None);
    assert_eq!(e.to_rgb(), RgbColor::new(1, 2, 15));
    assert!(!e.pop_hex_char());
}

#[test]
fn editor_short_hex_is_dropped() {
    let mut e = ColorEditor::from_rgb(1, 2, 3);
    e.start_hex_input();
    e.pop_hex_char();
    assert_eq!(e.commit_hex(), None);
    assert_eq!(e.to_rgb(), RgbColor::new(1, 2, 3));
}

#[test]
fn editor_adjust_clamps_and_channels_cycle() {
    let mut e = ColorEditor::from_rgb(250, 3, 100);
    e.adjust(10);
    assert_eq!(e.r, 255);
    e.select_next_channel();
    e.adjust(-10);
    assert_eq!(e.g, 0);
    e.select_prev_channel();
    e.select_prev_channel();
    assert_eq!(e.editing_channel, 2);
    e.select_next_channel();
    assert_eq!(e.editing_channel, 0);
}

#[test]
fn new_app_starts_on_default_theme() {
    let app = App::new();
    assert_eq!(app.theme, Theme::default());
    assert_eq!(app.theme_name_input, "default");
    assert_eq!(app.input_mode, InputMode::Preview);
    assert_eq!(app.selected_element, PreviewElement::TabSelected);
    assert!(!app.dirty);
}

#[test]
fn quit_keys() {
    let mut app = App::new();
    assert!(matches!(process_key(&mut app, key(KeyCode::Char('q'))), KeyOutcome::Quit));
    assert!(matches!(process_key(&mut app, key(KeyCode::Esc)), KeyOutcome::Quit));
}

#[test]
fn selecting_a_frame_resets_to_foreground() {
    let mut app = App::new();
    process_key(&mut app, key(KeyCode::Tab));
    assert_eq!(app.selected_attribute, PreviewAttribute::Background);
    process_key(&mut app, key(KeyCode::Down));
    process_key(&mut app, key(KeyCode::Down));
    process_key(&mut app, key(KeyCode::Down));
    assert_eq!(app.selected_element, PreviewElement::PaneSelected);
    assert_eq!(app.selected_attribute, PreviewAttribute::Base);
    process_key(&mut app, key(KeyCode::Tab));
    assert_eq!(app.selected_attribute, PreviewAttribute::Base);
}

#[test]
fn picker_nudges_then_cancel_restores() {
    let mut app = App::new();
    process_key(&mut app, key(KeyCode::Char('c')));
    assert_eq!(app.input_mode, InputMode::ColorPicker);
    process_key(&mut app, key(KeyCode::Left));
    assert_eq!(app.theme.get(ThemeComponentType::RibbonSelected).base, RgbColor::new(250, 255, 255));
    process_key(&mut app, KeyInput { code: KeyCode::Left, shift: true });
    assert_eq!(app.theme.get(ThemeComponentType::RibbonSelected).base, RgbColor::new(249, 255, 255));
    assert!(app.dirty);
    process_key(&mut app, key(KeyCode::Esc));
    assert_eq!(app.input_mode, InputMode::Preview);
    assert_eq!(app.theme.get(ThemeComponentType::RibbonSelected).base, RgbColor::new(255, 255, 255));
}

#[test]
fn picker_hex_typing_applies_at_six_digits() {
    let mut app = App::new();
    process_key(&mut app, key(KeyCode::Enter));
    process_key(&mut app, key(KeyCode::Char('#')));
    for _ in 0..6 {
        process_key(&mut app, key(KeyCode::Backspace));
    }
    for c in "12ab".chars() {
        process_key(&mut app, key(KeyCode::Char(c)));
    }
    assert_eq!(app.color_editor.hex_input.as_deref(), Some("12ab"));
    process_key(&mut app, key(KeyCode::Char('C')));
    process_key(&mut app, key(KeyCode::Char('d')));
    assert_eq!(app.color_editor.hex_input, None);
    assert_eq!(app.theme.get(ThemeComponentType::RibbonSelected).base, RgbColor::new(0x12, 0xab, 0xcd));
    process_key(&mut app, key(KeyCode::Enter));
    assert_eq!(app.input_mode, InputMode::Preview);
    assert_eq!(app.theme.get(ThemeComponentType::RibbonSelected).base, RgbColor::new(0x12, 0xab, 0xcd));
}

#[test]
fn applying_the_default_theme_asks_for_a_name() {
    let mut app = App::new();
    assert!(matches!(process_key(&mut app, key(KeyCode::Char('a'))), KeyOutcome::Continue));
    assert_eq!(app.input_mode, InputMode::ThemeNameInputApply);
    assert_eq!(app.message.as_deref(), Some("Name this theme before applying"));
    for _ in 0..7 {
        process_key(&mut app, key(KeyCode::Backspace));
    }
    for c in "My Theme!".chars() {
        process_key(&mut app, key(KeyCode::Char(c)));
    }
    assert_eq!(app.theme_name_input, "My Theme");
    assert!(matches!(process_key(&mut app, key(KeyCode::Enter)), KeyOutcome::Io(IoRequest::ApplyAs)));
    assert_eq!(app.theme.name, "my-theme");
    app.finish_apply_as(Ok(()), Ok(vec![String::from("my-theme")]));
    assert_eq!(app.input_mode, InputMode::Preview);
    assert_eq!(app.message.as_deref(), Some("✓ Saved + applied \"my-theme\" — restart Zellij to see changes"));
    assert!(matches!(process_key(&mut app, key(KeyCode::Char('a'))), KeyOutcome::Io(IoRequest::Apply)));
}

#[test]
fn empty_name_is_refused() {
    let mut app = App::new();
    process_key(&mut app, key(KeyCode::Char('s')));
    assert_eq!(app.input_mode, InputMode::ThemeNameInput);
    for _ in 0..7 {
        process_key(&mut app, key(KeyCode::Backspace));
    }
    process_key(&mut app, key(KeyCode::Char('?')));
    assert!(matches!(process_key(&mut app, key(KeyCode::Enter)), KeyOutcome::Continue));
    assert_eq!(app.message.as_deref(), Some("✗ Theme name must contain letters or numbers"));
    assert_eq!(app.input_mode, InputMode::ThemeNameInput);
    process_key(&mut app, key(KeyCode::Esc));
    assert_eq!(app.message.as_deref(), Some("Save cancelled"));
    assert_eq!(app.input_mode, InputMode::Preview);
}

#[test]
fn save_as_reports_errors() {
    let mut app = App::new();
    process_key(&mut app, key(KeyCode::Char('s')));
    assert!(matches!(process_key(&mut app, key(KeyCode::Enter)), KeyOutcome::Io(IoRequest::SaveAs)));
    app.finish_save_as(Err(ConfigError::Io(String::from("denied"))), Err(ConfigError::Io(String::from("gone"))));
    assert_eq!(app.message.as_deref(), Some("✗ Error: IO error: gone"));
    assert!(app.loadable_themes.is_empty());
    assert_eq!(app.input_mode, InputMode::Preview);
}

#[test]
fn load_dialog_lists_sorted_and_selects_current() {
    let mut app = App::new();
    assert!(matches!(process_key(&mut app, key(KeyCode::Char('l'))), KeyOutcome::Io(IoRequest::OpenLoadDialog)));
    app.finish_open_load_dialog(Ok(vec![String::from("zeta"), String::from("default"), String::from("alpha")]));
    assert_eq!(app.loadable_themes, vec!["alpha", "default", "zeta"]);
    assert_eq!(app.selected_theme_index, 1);
    assert_eq!(app.input_mode, InputMode::ThemeLoad);
    process_key(&mut app, key(KeyCode::Down));
    process_key(&mut app, key(KeyCode::Down));
    assert_eq!(app.selected_theme_index, 0);
    process_key(&mut app, key(KeyCode::Up));
    assert_eq!(app.selected_theme_index, 2);
    match process_key(&mut app, key(KeyCode::Enter)) {
        KeyOutcome::Io(IoRequest::Load(name)) => assert_eq!(name, "zeta"),
        _ => panic!("expected a load request"),
    }
    app.finish_load("zeta", Err(ConfigError::ThemeNotFound(String::from("zeta"))));
    assert_eq!(app.message.as_deref(), Some("✗ Error: Theme not found: zeta"));
    assert_eq!(app.input_mode, InputMode::Preview);
}

#[test]
fn loading_replaces_the_theme() {
    let mut app = App::new();
    let mut t = Theme::default();
    t.name = String::from("other");
    t.get_mut(ThemeComponentType::TableTitle).base = RgbColor::new(1, 1, 1);
    app.dirty = true;
    app.finish_load("other", Ok(t.clone()));
    assert_eq!(app.theme, t);
    assert_eq!(app.theme_name_input, "other");
    assert_eq!(app.message.as_deref(), Some("✓ Loaded: other"));
    assert!(!app.dirty);
}

#[test]
fn empty_listing_keeps_preview() {
    let mut app = App::new();
    app.finish_open_load_dialog(Ok(vec![]));
    assert_eq!(app.input_mode, InputMode::Preview);
    assert_eq!(app.message.as_deref(), Some("✗ No saved themes found in ~/.config/zellij/themes"));
}

#[test]
fn help_and_load_cancel() {
    let mut app = App::new();
    process_key(&mut app, key(KeyCode::Char('?')));
    assert_eq!(app.input_mode, InputMode::Help);
    process_key(&mut app, key(KeyCode::Char('x')));
    assert_eq!(app.input_mode, InputMode::Help);
    process_key(&mut app, key(KeyCode::Char('q')));
    assert_eq!(app.input_mode, InputMode::Preview);
    app.finish_open_load_dialog(Ok(vec![String::from("a")]));
    process_key(&mut app, key(KeyCode::Esc));
    assert_eq!(app.message.as_deref(), Some("Load cancelled"));
    assert_eq!(app.input_mode, InputMode::Preview);
}

#[test]
fn save_success_clears_dirty() {
    let mut app = App::new();
    app.dirty = true;
    app.finish_save(Ok(()));
    assert_eq!(app.message.as_deref(), Some("✓ Saved: default"));
    assert!(!app.dirty);
}

#[test]
fn keys_outside_the_picker_keep_colours() {
    let mut app = App::new();
    for code in [
        KeyCode::Down,
        KeyCode::Tab,
        KeyCode::Right,
        KeyCode::Char('j'),
        KeyCode::Char('y'),
        KeyCode::Char('s'),
        KeyCode::Char('x'),
        KeyCode::Backspace,
        KeyCode::Esc,
        KeyCode::Char('?'),
        KeyCode::Esc,
    ] {
        process_key(&mut app, key(code));
    }
    assert_eq!(app.theme, Theme::default());
    assert!(!app.dirty);
}
