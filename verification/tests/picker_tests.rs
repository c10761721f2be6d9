use zellij_tab_config::theme::RgbColor;
use zellij_tab_config::ui::color_picker::{
    centered_rect, contrast_text, picker_layout, split_three, ColorDragTarget, ColorEditor,
    ColorPickerFocus, ColorPickerMode, EditableField, PickerRects, Rect, TextCommit,
};

fn rect(x: u16, y: u16, width: u16, height: u16) -> Rect {
    Rect { x, y, width, height }
}

#[test]
fn mode_toggles_back_and_forth() {
    assert_eq!(ColorPickerMode::RgbSliders.toggle(), ColorPickerMode::HslField);
    assert_eq!(ColorPickerMode::HslField.toggle(), ColorPickerMode::RgbSliders);
}

#[test]
fn from_rgb_starts_on_red_slider() {
    let e = ColorEditor::from_rgb(1, 2, 3);
    assert_eq!(e.mode, ColorPickerMode::RgbSliders);
    assert_eq!(e.focus, ColorPickerFocus::RgbSlider(0));
    assert_eq!(e.to_rgb(), RgbColor::new(1, 2, 3));
    assert_eq!(e.hex(), "#010203");
    assert!(!e.is_editing_text());
}

#[test]
fn hex_entry_commits_colour() {
    let mut e = ColorEditor::from_rgb(1, 2, 3);
    e.start_hex_input();
    assert_eq!(e.focus, ColorPickerFocus::HexField);
    assert_eq!(e.field_value(EditableField::Hex, "", "", ""), "010203");
    assert!(!e.push_input_char('a'));
    for _ in 0..6 {
        assert!(e.pop_input_char());
    }
    assert!(!e.push_input_char('g'));
    for c in "A0b0C0".chars() {
        assert!(e.push_input_char(c));
    }
    assert!(matches!(e.commit_text_edit(), TextCommit::RgbSet));
    assert_eq!(e.to_rgb(), RgbColor::new(0xa0, 0xb0, 0xc0));
    assert!(matches!(e.commit_text_edit(), TextCommit::NoEdit));
    assert!(!e.pop_input_char());
}

#[test]
fn short_hex_is_rejected() {
    let mut e = ColorEditor::from_rgb(1, 2, 3);
    e.start_hex_input();
    e.pop_input_char();
    assert!(matches!(e.commit_text_edit(), TextCommit::Rejected));
    assert_eq!(e.to_rgb(), RgbColor::new(1, 2, 3));
    assert!(!e.is_editing_text());
}

#[test]
fn rgb_field_takes_values_up_to_255() {
    let mut e = ColorEditor::from_rgb(10, 20, 30);
    e.set_focus(ColorPickerFocus::RgbField(1));
    e.start_editing_focused("0", "0", "0");
    assert_eq!(e.field_value(EditableField::Rgb(1), "", "", ""), "20");
    assert_eq!(e.field_value(EditableField::Rgb(2), "", "", ""), "30");
    assert!(e.push_input_char('0'));
    assert!(e.push_input_char('0'));
    assert!(!e.push_input_char('.'));
    assert!(!e.push_input_char('x'));
    assert!(matches!(e.commit_text_edit(), TextCommit::Rejected));
    assert_eq!(e.to_rgb(), RgbColor::new(10, 20, 30));
    e.start_editing_focused("0", "0", "0");
    e.pop_input_char();
    e.pop_input_char();
    for c in "255".chars() {
        e.push_input_char(c);
    }
    assert!(matches!(e.commit_text_edit(), TextCommit::RgbSet));
    assert_eq!(e.to_rgb(), RgbColor::new(10, 255, 30));
}

#[test]
fn empty_rgb_field_is_rejected() {
    let mut e = ColorEditor::from_rgb(10, 20, 30);
    e.set_focus(ColorPickerFocus::RgbField(0));
    e.start_editing_focused("", "", "");
    e.pop_input_char();
    e.pop_input_char();
    assert!(matches!(e.commit_text_edit(), TextCommit::Rejected));
}

#[test]
fn hsl_field_text_is_handed_back() {
    let mut e = ColorEditor::from_rgb(10, 20, 30);
    e.set_focus(ColorPickerFocus::HslFieldValue(2));
    e.start_editing_focused("210", "50", "8");
    assert_eq!(e.field_value(EditableField::Hsl(2), "x", "y", "z"), "8");
    assert_eq!(e.field_value(EditableField::Hsl(0), "x", "y", "z"), "x");
    assert!(e.push_input_char('.'));
    assert!(!e.push_input_char('.'));
    assert!(e.push_input_char('5'));
    match e.commit_text_edit() {
        TextCommit::Hsl(i, text) => {
            assert_eq!(i, 2);
            assert_eq!(text, "8.5");
        }
        _ => panic!("expected HSL text"),
    }
}

#[test]
fn editing_starts_only_on_value_fields() {
    let mut e = ColorEditor::from_rgb(1, 2, 3);
    e.start_editing_focused("", "", "");
    assert!(!e.is_editing_text());
    e.set_focus(ColorPickerFocus::HexField);
    e.start_editing_focused("", "", "");
    assert!(e.is_editing_text());
    e.cancel_text_edit();
    assert!(!e.is_editing_text());
}

#[test]
fn tab_order_in_slider_mode() {
    let mut e = ColorEditor::from_rgb(0, 0, 0);
    e.set_focus(ColorPickerFocus::ModeToggle);
    let mut seen = vec![e.focus];
    for _ in 0..11 {
        e.focus_next(false);
        seen.push(e.focus);
    }
    assert_eq!(seen[1], ColorPickerFocus::RgbSlider(0));
    assert_eq!(seen[4], ColorPickerFocus::HexField);
    assert_eq!(seen[10], ColorPickerFocus::HslFieldValue(2));
    assert_eq!(seen[11], ColorPickerFocus::ModeToggle);
    e.focus_next(true);
    assert_eq!(e.focus, ColorPickerFocus::HslFieldValue(2));
    e.set_focus(ColorPickerFocus::LightnessSlider);
    e.focus_next(false);
    assert_eq!(e.focus, ColorPickerFocus::RgbSlider(0));
}

#[test]
fn colour_field_mode_alternates_field_and_slider() {
    let mut e = ColorEditor::from_rgb(0, 0, 0);
    e.toggle_mode();
    assert_eq!(e.mode, ColorPickerMode::HslField);
    assert_eq!(e.focus, ColorPickerFocus::HslField);
    e.focus_next(false);
    assert_eq!(e.focus, ColorPickerFocus::LightnessSlider);
    e.focus_next(true);
    assert_eq!(e.focus, ColorPickerFocus::HslField);
    e.set_focus(ColorPickerFocus::HexField);
    e.focus_next(false);
    assert_eq!(e.focus, ColorPickerFocus::LightnessSlider);
    e.toggle_mode();
    assert_eq!(e.focus, ColorPickerFocus::RgbSlider(0));
}

#[test]
fn toggling_mode_ends_drag_and_typing() {
    let mut e = ColorEditor::from_rgb(0, 0, 0);
    e.set_drag_target(Some(ColorDragTarget::HslField));
    assert_eq!(e.drag_target, Some(ColorDragTarget::HslField));
    e.start_hex_input();
    e.toggle_mode();
    assert_eq!(e.drag_target, None);
    assert!(!e.is_editing_text());
}

#[test]
fn slider_adjustment_clamps() {
    let mut e = ColorEditor::from_rgb(250, 5, 0);
    assert!(e.adjust_rgb_slider_selection(10));
    assert_eq!(e.to_rgb(), RgbColor::new(255, 5, 0));
    e.move_rgb_slider_focus(false);
    assert!(e.adjust_rgb_slider_selection(-10));
    assert_eq!(e.to_rgb(), RgbColor::new(255, 0, 0));
    e.set_focus(ColorPickerFocus::HexField);
    assert!(!e.adjust_rgb_slider_selection(3));
    assert_eq!(e.to_rgb(), RgbColor::new(255, 0, 0));
}

#[test]
fn slider_focus_wraps() {
    let mut e = ColorEditor::from_rgb(0, 0, 0);
    e.move_rgb_slider_focus(true);
    assert_eq!(e.focus, ColorPickerFocus::RgbSlider(2));
    e.move_rgb_slider_focus(false);
    assert_eq!(e.focus, ColorPickerFocus::RgbSlider(0));
    e.set_focus(ColorPickerFocus::HexField);
    e.move_rgb_slider_focus(false);
    assert_eq!(e.focus, ColorPickerFocus::RgbSlider(1));
}

#[test]
fn focus_labels() {
    let mut e = ColorEditor::from_rgb(0, 0, 0);
    assert_eq!(e.focus_label(), "red slider");
    e.set_focus(ColorPickerFocus::RgbField(2));
    assert_eq!(e.focus_label(), "blue field");
    e.set_focus(ColorPickerFocus::HslFieldValue(1));
    assert_eq!(e.focus_label(), "sat field");
    e.set_focus(ColorPickerFocus::RgbSlider(7));
    assert_eq!(e.focus_label(), "rgb slider");
    e.set_focus(ColorPickerFocus::LightnessSlider);
    assert_eq!(e.focus_label(), "value slider");
}

#[test]
fn clicks_land_on_controls() {
    let mut rects = PickerRects::default();
    rects.mode_switch = rect(0, 0, 10, 1);
    rects.main_view = rect(0, 2, 20, 7);
    rects.aux_slider = rect(21, 2, 4, 7);
    rects.hex_field = rect(30, 2, 10, 3);
    rects.rgb_fields = [rect(30, 5, 3, 3), rect(33, 5, 3, 3), rect(36, 5, 3, 3)];
    rects.hsl_fields = [rect(30, 8, 3, 3), rect(33, 8, 3, 3), rect(36, 8, 3, 3)];
    let mut e = ColorEditor::from_rgb(0, 0, 0);
    assert_eq!(e.focus_for_point(&rects, 5, 0), Some(ColorPickerFocus::ModeToggle));
    assert_eq!(e.focus_for_point(&rects, 5, 2), Some(ColorPickerFocus::RgbSlider(0)));
    assert_eq!(e.focus_for_point(&rects, 5, 5), Some(ColorPickerFocus::RgbSlider(1)));
    assert_eq!(e.focus_for_point(&rects, 5, 8), Some(ColorPickerFocus::RgbSlider(2)));
    assert_eq!(e.focus_for_point(&rects, 22, 3), Some(ColorPickerFocus::RgbSlider(2)));
    assert_eq!(e.focus_for_point(&rects, 31, 3), Some(ColorPickerFocus::HexField));
    assert_eq!(e.focus_for_point(&rects, 34, 6), Some(ColorPickerFocus::RgbField(1)));
    assert_eq!(e.focus_for_point(&rects, 38, 10), Some(ColorPickerFocus::HslFieldValue(2)));
    assert_eq!(e.focus_for_point(&rects, 20, 0), None);
    assert_eq!(e.focus_for_point(&rects, 39, 5), None);
    e.toggle_mode();
    assert_eq!(e.focus_for_point(&rects, 5, 5), Some(ColorPickerFocus::HslField));
    assert_eq!(e.focus_for_point(&rects, 22, 3), Some(ColorPickerFocus::LightnessSlider));
}

#[test]
fn edge_rectangles_do_not_overflow() {
    let mut rects = PickerRects::default();
    rects.hex_field = rect(65530, 65530, 10, 10);
    let e = ColorEditor::from_rgb(0, 0, 0);
    assert_eq!(e.focus_for_point(&rects, 65535, 65535), Some(ColorPickerFocus::HexField));
}

#[test]
fn rect_new_keeps_edges_in_range() {
    assert_eq!(Rect::new(65530, 1, 10, 2), rect(65530, 1, 5, 2));
    assert_eq!(Rect::new(1, 2, 3, 4), rect(1, 2, 3, 4));
}

#[test]
fn centered_popups() {
    assert_eq!(centered_rect(rect(0, 0, 100, 40), 20, 10), rect(40, 15, 20, 10));
    assert_eq!(centered_rect(rect(10, 5, 12, 6), 20, 10), rect(11, 6, 10, 4));
    assert_eq!(centered_rect(rect(0, 0, 0, 0), 5, 5), rect(0, 0, 1, 1));
}

#[test]
fn contrast_text_switches_near_mid_luminance() {
    assert_eq!(contrast_text(RgbColor::new(255, 255, 255)), RgbColor::new(18, 18, 24));
    assert_eq!(contrast_text(RgbColor::new(0, 0, 0)), RgbColor::new(245, 245, 250));
    assert_eq!(contrast_text(RgbColor::new(140, 141, 140)), RgbColor::new(18, 18, 24));
    assert_eq!(contrast_text(RgbColor::new(141, 140, 140)), RgbColor::new(245, 245, 250));
    assert_eq!(contrast_text(RgbColor::new(0, 255, 0)), RgbColor::new(18, 18, 24));
    assert_eq!(contrast_text(RgbColor::new(255, 0, 0)), RgbColor::new(245, 245, 250));
}

#[test]
fn three_fields_cover_the_row() {
    let parts = split_three(rect(0, 0, 30, 3));
    assert_eq!(parts[0].x, 0);
    assert_eq!(parts[0].y, 0);
    assert_eq!(parts[2].x + parts[2].width, 30);
    assert_eq!(parts[0].width + parts[1].width + parts[2].width, 30);
    for p in parts {
        assert_eq!(p.height, 3);
    }
}

#[test]
fn picker_layout_in_a_large_terminal() {
    let area = rect(0, 0, 100, 40);
    let l = picker_layout(area, ColorPickerMode::RgbSliders);
    assert_eq!(l.overlay, rect(12, 8, 76, 24));
    assert_eq!(l.mode_switch, rect(13, 9, 16, 1));
    assert_eq!(l.main_view.x, 13);
    assert_eq!(l.main_view.y, 10);
    assert_eq!(l.main_view.height, 7);
    assert_eq!(l.aux_slider, rect(0, 0, 0, 0));
    let h = picker_layout(area, ColorPickerMode::HslField);
    assert_eq!(h.aux_slider.width, 6);
    assert_eq!(h.aux_slider.y, 10);
    assert_eq!(h.main_view.x + h.main_view.width, h.aux_slider.x);
    assert_eq!(h.hex_field.height, 3);
}
