use zellij_tab_config::theme::{ColorAttribute, RgbColor, Theme, ThemeComponent, ThemeComponentType};

#[test]
fn from_hex_reads_six_digits_with_or_without_hash() {
    assert_eq!(RgbColor::from_hex("#ff8000"), Some(RgbColor::new(255, 128, 0)));
    assert_eq!(RgbColor::from_hex("FF8000"), Some(RgbColor::new(255, 128, 0)));
    assert_eq!(RgbColor::from_hex("##0a0b0c"), Some(RgbColor::new(10, 11, 12)));
}

#[test]
fn from_hex_rejects_bad_input() {
    assert_eq!(RgbColor::from_hex("#ff80"), None);
    assert_eq!(RgbColor::from_hex("#ff80001"), None);
    assert_eq!(RgbColor::from_hex("#gg0000"), None);
    assert_eq!(RgbColor::from_hex(""), None);
}

#[test]
fn from_hex_accepts_plus_signed_pairs_like_from_str_radix() {
    assert_eq!(RgbColor::from_hex("+f0a+b"), Some(RgbColor::new(15, 10, 11)));
}

#[test]
fn to_hex_is_lower_case_with_hash() {
    assert_eq!(RgbColor::new(255, 128, 0).to_hex(), "#ff8000");
    assert_eq!(RgbColor::new(0, 10, 171).to_hex(), "#000aab");
}

#[test]
fn hex_round_trip() {
    for c in [RgbColor::new(1, 2, 3), RgbColor::new(255, 255, 255), RgbColor::new(0, 0, 0)] {
        assert_eq!(RgbColor::from_hex(&c.to_hex()), Some(c));
    }
}

#[test]
fn saturating_add_uses_the_packed_value() {
    assert_eq!(RgbColor::new(0, 0, 10).saturating_add(-20), 0);
    assert_eq!(RgbColor::new(0, 0, 10).saturating_add(5), 15);
    assert_eq!(RgbColor::new(0, 1, 0).saturating_add(0), 255);
    assert_eq!(RgbColor::new(0, 0, 250).saturating_add_unsigned(10), 255);
    assert_eq!(RgbColor::new(0, 0, 100).saturating_add_unsigned(10), 110);
}

#[test]
fn conversions_to_integers() {
    assert_eq!(i32::from(RgbColor::new(1, 2, 3)), 65536 + 2 * 256 + 3);
    assert_eq!(u8::from(RgbColor::new(7, 8, 9)), 7);
}

#[test]
fn component_new_fills_emphasis_greys() {
    let c = ThemeComponent::new(RgbColor::new(1, 1, 1), RgbColor::new(2, 2, 2));
    assert_eq!(c.base, RgbColor::new(1, 1, 1));
    assert_eq!(c.background, RgbColor::new(2, 2, 2));
    assert_eq!(c.emphasis_0, RgbColor::new(255, 255, 255));
    assert_eq!(c.emphasis_1, RgbColor::new(200, 200, 200));
    assert_eq!(c.emphasis_2, RgbColor::new(150, 150, 150));
    assert_eq!(c.emphasis_3, RgbColor::new(100, 100, 100));
}

#[test]
fn default_theme_colours() {
    let t = Theme::default();
    assert_eq!(t.name, "default");
    assert_eq!(t.get(ThemeComponentType::RibbonSelected).base, RgbColor::new(255, 255, 255));
    assert_eq!(t.get(ThemeComponentType::RibbonSelected).background, RgbColor::new(80, 80, 80));
    assert_eq!(t.get(ThemeComponentType::FrameHighlight).base, RgbColor::new(255, 200, 100));
    assert_eq!(t.get(ThemeComponentType::ExitCodeError).base, RgbColor::new(255, 100, 100));
}

#[test]
fn get_mut_edits_only_that_component() {
    let mut t = Theme::default();
    t.get_mut(ThemeComponentType::ListSelected).base = RgbColor::new(1, 2, 3);
    assert_eq!(t.get(ThemeComponentType::ListSelected).base, RgbColor::new(1, 2, 3));
    assert_eq!(t.get(ThemeComponentType::ListUnselected).base, RgbColor::new(180, 180, 180));
}

#[test]
fn component_type_labels_and_keys() {
    assert_eq!(ThemeComponentType::all().len(), 14);
    assert_eq!(ThemeComponentType::all()[0], ThemeComponentType::TextUnselected);
    assert_eq!(ThemeComponentType::all()[13], ThemeComponentType::ExitCodeError);
    assert_eq!(ThemeComponentType::RibbonSelected.label(), "Ribbon/Tab (Selected)");
    assert_eq!(ThemeComponentType::TableCellUnselected.component_key(), "table_cell_unselected");
    assert_eq!(ColorAttribute::Emphasis2.label(), "Emphasis 2");
}
