use zellij_tab_config::theme::{RgbColor, Theme, ThemeComponentType};
use zellij_tab_config::ui::events::{process_key, KeyCode, KeyInput};
use zellij_tab_config::ui::keys::handle_key;
use zellij_tab_config::ui::screen::{picker_text, SpanColor};
use zellij_tab_config::ui::search::find_element;
use zellij_tab_config::ui::state;
use zellij_tab_config::ui::{App, InputMode, PreviewAttribute, PreviewElement};

fn press(code: KeyCode) -> KeyInput {
    KeyInput { code, shift: false }
}

fn type_text(app: &mut App, text: &str) {
    for c in text.chars() {
        handle_key(app, press(KeyCode::Char(c)));
    }
}

#[test]
fn find_element_takes_the_first_match_from_the_top() {
    assert_eq!(find_element("tt"), Some(PreviewElement::TabSelected));
    assert_eq!(find_element("EXer"), Some(PreviewElement::ExitError));
    assert_eq!(find_element("stbar"), Some(PreviewElement::StatusBar));
    assert_eq!(find_element(""), Some(PreviewElement::TabSelected));
    assert_eq!(find_element("zzz"), None);
}

#[test]
fn slash_searches_and_jumps() {
    let mut app = App::new();
    handle_key(&mut app, press(KeyCode::Char('/')));
    assert_eq!(app.input_mode, InputMode::ElementSearch);
    type_text(&mut app, "exerx");
    handle_key(&mut app, press(KeyCode::Backspace));
    assert_eq!(app.element_query, "exer");
    handle_key(&mut app, press(KeyCode::Enter));
    assert_eq!(app.input_mode, InputMode::Preview);
    assert_eq!(app.selected_element, PreviewElement::ExitError);
    assert_eq!(app.element_query, "");
}

#[test]
fn search_without_a_match_reports_it() {
    let mut app = App::new();
    handle_key(&mut app, press(KeyCode::Char('/')));
    type_text(&mut app, "zzz");
    handle_key(&mut app, press(KeyCode::Enter));
    assert_eq!(app.input_mode, InputMode::Preview);
    assert_eq!(app.selected_element, PreviewElement::TabSelected);
    assert_eq!(app.message.as_deref(), Some("✗ No element matches"));
    handle_key(&mut app, press(KeyCode::Char('/')));
    type_text(&mut app, "pane");
    handle_key(&mut app, press(KeyCode::Esc));
    assert_eq!(app.input_mode, InputMode::Preview);
    assert_eq!(app.selected_element, PreviewElement::TabSelected);
}

#[test]
fn slash_search_in_the_state_handler() {
    let mut app = state::App::new();
    process_key(&mut app, press(KeyCode::Char('/')));
    assert_eq!(app.input_mode, state::InputMode::ElementSearch);
    for c in "table t".chars() {
        process_key(&mut app, press(KeyCode::Char(c)));
    }
    process_key(&mut app, press(KeyCode::Enter));
    assert_eq!(app.selected_element, PreviewElement::TableTitle);
}

#[test]
fn picker_text_pieces() {
    let t = picker_text(
        PreviewElement::TableTitle,
        PreviewAttribute::Background,
        RgbColor::new(200, 16, 0),
        None,
        &Some("ab".to_string()),
    );
    assert_eq!(t.title, " Table Title — BG ");
    assert_eq!(t.swatch.len(), 4);
    assert_eq!(t.swatch[1].bg, Some(SpanColor::Rgb(RgbColor::new(200, 16, 0))));
    assert_eq!(t.swatch[3].text, "BG — #c81000");
    assert_eq!(t.rgb_line[0].text, "  rgb(200 16 0)");
    assert_eq!(t.hex_line[0].text, "  #ab    █");
    assert_eq!(t.hint_lines.len(), 2);

    let theme = Theme::default();
    let before = *theme.get(ThemeComponentType::TableTitle);
    let k = picker_text(
        PreviewElement::TableTitle,
        PreviewAttribute::Foreground,
        RgbColor::new(1, 2, 3),
        Some(before),
        &None,
    );
    assert_eq!(k.swatch.len(), 6);
    assert_eq!(k.swatch[1].bg, Some(SpanColor::Rgb(before.base)));
    assert_eq!(
        k.swatch[5].text,
        format!("#{:02x}{:02x}{:02x} → #010203", before.base.r, before.base.g, before.base.b)
    );
    assert_eq!(k.hex_line[0].text, "  press # to enter hex code");
}

#[test]
fn yank_move_paste_then_move_and_undo() {
    let mut app = App::new();
    let copied = app.theme.get(ThemeComponentType::RibbonSelected).base;
    handle_key(&mut app, press(KeyCode::Char('y')));
    for code in [KeyCode::Char('j'), KeyCode::Down, KeyCode::Tab, KeyCode::Tab, KeyCode::Left] {
        handle_key(&mut app, press(code));
    }
    let before = app.theme.clone();
    let ty = app.selected_element.component_type();
    handle_key(&mut app, press(KeyCode::Char('p')));
    assert_eq!(app.theme.get(ty).base, copied);
    for code in [KeyCode::Up, KeyCode::Char('k'), KeyCode::Right] {
        handle_key(&mut app, press(code));
    }
    handle_key(&mut app, press(KeyCode::Char('u')));
    assert_eq!(app.theme, before);
}

#[test]
fn cancelling_after_direct_calls_restores_the_theme() {
    let mut app = state::App::new();
    app.selected_element = PreviewElement::ListSelected;
    let before = app.theme.clone();
    app.open_color_picker();
    app.set_color_by_attr(state::PreviewAttribute::Base, RgbColor::new(9, 9, 9));
    app.switch_editing_attribute();
    app.color_editor = state::ColorEditor::from_rgb(1, 2, 3);
    app.apply_current_color();
    app.close_color_picker(false);
    assert_eq!(app.theme, before);
    assert!(app.original_component.is_none());
    assert_eq!(app.input_mode, state::InputMode::Preview);
}
