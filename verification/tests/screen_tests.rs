use zellij_tab_config::theme::{RgbColor, Theme, ThemeComponentType};
use zellij_tab_config::ui::color_picker::{picker_constraints, ColorPickerMode, LayoutConstraint, Rect};
use zellij_tab_config::ui::screen::{
    lighten, pane_highlight_lines, picker_overlay_rect, status_bar_spans, tab_bar_spans, SpanColor,
};
use zellij_tab_config::ui::{InputMode, PreviewAttribute, PreviewElement};

fn rgb(c: RgbColor) -> Option<SpanColor> {
    Some(SpanColor::Rgb(c))
}

#[test]
fn lighten_saturates_each_channel() {
    assert_eq!(lighten(RgbColor::new(250, 10, 0), 30), RgbColor::new(255, 40, 30));
    assert_eq!(lighten(RgbColor::new(1, 2, 3), 0), RgbColor::new(1, 2, 3));
}

#[test]
fn tab_bar_marks_the_selected_tab() {
    let t = Theme::default();
    let rs = *t.get(ThemeComponentType::RibbonSelected);
    let ru = *t.get(ThemeComponentType::RibbonUnselected);
    let spans = tab_bar_spans(&t, PreviewElement::TabSelected, 80);
    assert_eq!(spans.len(), 13);
    assert_eq!(spans[2].text, " 1:terminal ");
    assert_eq!(spans[2].fg, rgb(rs.base));
    assert_eq!(spans[2].bg, rgb(lighten(rs.background, 30)));
    assert!(spans[2].bold);
    assert_eq!(spans[5].text, " 2:bash ");
    assert_eq!(spans[5].bg, rgb(ru.background));
    assert_eq!(spans[11].text, " ".repeat(26));
    assert_eq!(spans[12].text, " layout: default ");

    let other = tab_bar_spans(&t, PreviewElement::TabUnselected1, 40);
    assert_eq!(other[2].bg, rgb(rs.background));
    assert_eq!(other[5].bg, rgb(lighten(ru.background, 30)));
    assert_eq!(other[11].text, "");
}

#[test]
fn picker_overlay_sits_away_from_the_element() {
    let r = picker_overlay_rect(Rect { x: 0, y: 0, width: 100, height: 40 }, PreviewElement::TabSelected);
    assert_eq!((r.x, r.y, r.width, r.height), (46, 10, 52, 20));
    let small = picker_overlay_rect(Rect { x: 0, y: 0, width: 10, height: 6 }, PreviewElement::StatusBar);
    assert_eq!((small.x, small.y, small.width, small.height), (2, 2, 6, 2));
    let left = picker_overlay_rect(Rect { x: 0, y: 0, width: 120, height: 40 }, PreviewElement::TableTitle);
    assert_eq!((left.x, left.y, left.width, left.height), (2, 10, 52, 20));
    assert!(left.x + left.width <= 72);
    let tiny = picker_overlay_rect(Rect { x: 0, y: 0, width: 3, height: 3 }, PreviewElement::ExitError);
    assert_eq!((tiny.x, tiny.width, tiny.height), (2, 0, 0));
}

#[test]
fn highlighted_pane_lightens_the_selected_piece() {
    let t = Theme::default();
    let tu = *t.get(ThemeComponentType::TextUnselected);
    let tt = *t.get(ThemeComponentType::TableTitle);
    let framed = pane_highlight_lines(&t, PreviewElement::PaneHighlight);
    assert_eq!(framed.pane_bg, lighten(tu.background, 25));
    assert!(framed.border_bold);
    assert_eq!(framed.border, t.get(ThemeComponentType::FrameHighlight).base);
    assert_eq!(framed.lines.len(), 9);
    assert_eq!(framed.lines[0][0].bg, rgb(tt.background));

    let title = pane_highlight_lines(&t, PreviewElement::TableTitle);
    assert_eq!(title.pane_bg, tu.background);
    assert!(!title.border_bold);
    assert_eq!(title.lines[0][0].text, " Name         Size ");
    assert_eq!(title.lines[0][0].fg, rgb(tt.base));
    assert_eq!(title.lines[0][0].bg, rgb(lighten(tt.background, 45)));
    assert_eq!(title.lines[8].len(), 4);
}

#[test]
fn status_bar_shows_mode_hints_and_info() {
    let t = Theme::default();
    let rs = *t.get(ThemeComponentType::RibbonSelected);
    let message = Some("✗ broken".to_string());
    let spans = status_bar_spans(
        &t,
        PreviewElement::TabSelected,
        PreviewAttribute::Foreground,
        InputMode::Preview,
        true,
        &message,
        200,
    );
    assert_eq!(spans.len(), 4 + 5 * 8 + 3);
    assert_eq!(spans[1].text, " NORMAL ");
    assert_eq!(spans[5].text, " ↑↓←→ ");
    assert_eq!(spans[6].text, "NAVIGATE ");
    let info = format!(" default* │ Tab (Selected) FG #{:02x}{:02x}{:02x} ", rs.base.r, rs.base.g, rs.base.b);
    let last = &spans[spans.len() - 1];
    assert_eq!(last.text, info);
    assert_eq!(last.fg, Some(SpanColor::Yellow));
    let msg = &spans[spans.len() - 2];
    assert_eq!(msg.text, " ✗ broken ");
    assert_eq!(msg.fg, Some(SpanColor::Red));
    let fill = &spans[spans.len() - 3];
    let expected = 200 - 101 - info.len() - ("✗ broken".len() + 3);
    assert_eq!(fill.text, " ".repeat(expected));
}

#[test]
fn status_bar_on_itself_and_in_the_loader() {
    let t = Theme::default();
    let rs = *t.get(ThemeComponentType::RibbonSelected);
    let spans = status_bar_spans(
        &t,
        PreviewElement::StatusBar,
        PreviewAttribute::Background,
        InputMode::ThemeLoadDeleteConfirm,
        false,
        &Some("✓ done".to_string()),
        10,
    );
    assert_eq!(spans[1].text, " STATUS ");
    assert_eq!(spans[1].bg, rgb(lighten(rs.background, 40)));
    assert_eq!(spans.len(), 4 + 5 * 2 + 3);
    assert_eq!(spans[5].text, " y ");
    assert_eq!(spans[6].text, "DELETE ");
    assert_eq!(spans[spans.len() - 2].fg, Some(SpanColor::Green));
    assert_eq!(spans[spans.len() - 3].text, "");
}

#[test]
fn picker_layout_asks_for_its_constraints() {
    let rgb = picker_constraints(ColorPickerMode::RgbSliders);
    assert_eq!(rgb.rows, vec![LayoutConstraint::Length(1), LayoutConstraint::Min(16), LayoutConstraint::Length(2)]);
    assert_eq!(rgb.cols, vec![LayoutConstraint::Percentage(62), LayoutConstraint::Percentage(38)]);
    assert_eq!(rgb.main, vec![LayoutConstraint::Length(7), LayoutConstraint::Min(1)]);
    let hsl = picker_constraints(ColorPickerMode::HslField);
    assert_eq!(hsl.main, vec![LayoutConstraint::Fill(1), LayoutConstraint::Length(6)]);
    assert_eq!(hsl.fields.len(), 3);
    assert_eq!(hsl.head, vec![LayoutConstraint::Length(16), LayoutConstraint::Fill(1)]);
}
