use zellij_tab_config::config::{
    component_type_from_key, config_with_theme, parse_component, parse_theme_kdl, path_join,
    theme_from_kdl_nodes, theme_name_of_file, theme_to_kdl, ConfigError, ConfigManager,
};
use zellij_tab_config::kdl_tree::KdlNodeData;
use zellij_tab_config::theme::{RgbColor, Theme, ThemeComponent, ThemeComponentType};

#[test]
fn saved_theme_round_trips_component_edits() {
    let mut theme = Theme::default();
    theme.name = "round-trip".to_string();
    theme.get_mut(ThemeComponentType::RibbonSelected).background = RgbColor::new(1, 2, 3);
    theme.get_mut(ThemeComponentType::TextSelected).base = RgbColor::new(9, 8, 7);

    let saved = theme_to_kdl(&theme);
    let loaded = parse_theme_kdl(&saved, &theme.name).expect("saved theme should parse");

    assert_eq!(
        loaded.get(ThemeComponentType::RibbonSelected).background,
        RgbColor::new(1, 2, 3)
    );
    assert_eq!(
        loaded.get(ThemeComponentType::TextSelected).base,
        RgbColor::new(9, 8, 7)
    );
}

#[test]
fn saved_theme_reloads_identically() {
    let mut theme = Theme::default();
    theme.name = "whole".to_string();
    theme.get_mut(ThemeComponentType::FrameHighlight).emphasis_2 = RgbColor::new(4, 5, 6);
    theme.get_mut(ThemeComponentType::ExitCodeError).background = RgbColor::new(0, 0, 255);
    let loaded = parse_theme_kdl(&theme_to_kdl(&theme), "whole").unwrap();
    assert_eq!(loaded, theme);
}

#[test]
fn theme_to_kdl_layout() {
    let mut theme = Theme::default();
    theme.name = "t".to_string();
    let text = theme_to_kdl(&theme);
    assert!(text.starts_with("themes {\n    t {\n        fg 200 200 200\n        bg 30 30 30\n"));
    assert!(text.contains("        orange 255 200 100\n        text_unselected {\n            base 200 200 200\n"));
    assert!(text.ends_with("            emphasis_3 100 100 100\n        }\n    }\n}\n"));
    assert_eq!(text.lines().count(), 2 + 11 + 14 * 8 + 2);
}

const DRACULA: &str = "themes {
    dracula {
        fg 248 248 242
        bg 40 42 54
        black 0 0 0
        red 255 85 85
        green 80 250 123
        yellow 241 250 140
        blue 98 114 164
        magenta 255 121 198
        cyan 139 233 253
        white 255 255 255
        orange 255 184 108
    }
}
";

#[test]
fn palette_theme_builds_components() {
    let t = parse_theme_kdl(DRACULA, "dracula").unwrap();
    assert_eq!(t.name, "dracula");
    let text = t.get(ThemeComponentType::TextUnselected);
    assert_eq!(text.base, RgbColor::new(248, 248, 242));
    assert_eq!(text.background, RgbColor::new(40, 42, 54));
    assert_eq!(text.emphasis_0, RgbColor::new(255, 255, 255));
    assert_eq!(text.emphasis_1, RgbColor::new(248, 248, 242));
    assert_eq!(text.emphasis_2, RgbColor::new(184, 184, 181));
    assert_eq!(text.emphasis_3, RgbColor::new(0, 0, 0));
    assert_eq!(t.get(ThemeComponentType::TextSelected).background, RgbColor::new(65, 67, 79));
    assert_eq!(t.get(ThemeComponentType::RibbonSelected).base, RgbColor::new(40, 42, 54));
    assert_eq!(t.get(ThemeComponentType::RibbonSelected).background, RgbColor::new(98, 114, 164));
    assert_eq!(t.get(ThemeComponentType::FrameHighlight).base, RgbColor::new(255, 184, 108));
    assert_eq!(t.get(ThemeComponentType::ExitCodeError).base, RgbColor::new(255, 85, 85));
}

#[test]
fn palette_defaults_fill_missing_keys() {
    let t = parse_theme_kdl("themes {\n    p {\n        fg 1 2 3\n        yellow 9 9 9\n    }\n}\n", "p").unwrap();
    assert_eq!(t.get(ThemeComponentType::TextUnselected).base, RgbColor::new(1, 2, 3));
    assert_eq!(t.get(ThemeComponentType::TextUnselected).background, RgbColor::new(40, 40, 40));
    assert_eq!(t.get(ThemeComponentType::FrameHighlight).base, RgbColor::new(9, 9, 9));
    assert_eq!(t.get(ThemeComponentType::FrameUnselected).base, RgbColor::new(30, 30, 30));
    assert_eq!(t.get(ThemeComponentType::TextSelected).background, RgbColor::new(65, 65, 65));
}

#[test]
fn component_blocks_override_defaults_and_clamp() {
    let text = "mine {\n    text_selected {\n        base 300 -5 10\n        background 1 2\n        unknown 4 4 4\n    }\n}\n";
    let t = parse_theme_kdl(text, "mine").unwrap();
    let c = t.get(ThemeComponentType::TextSelected);
    assert_eq!(c.base, RgbColor::new(255, 0, 10));
    assert_eq!(c.background, RgbColor::new(0, 0, 0));
    assert_eq!(c.emphasis_0, RgbColor::new(0, 0, 0));
    assert_eq!(t.get(ThemeComponentType::TextUnselected).base, RgbColor::new(200, 200, 200));
}

#[test]
fn component_blocks_win_over_palette_keys() {
    let text = "themes {\n    both {\n        fg 1 1 1\n        list_selected {\n            base 7 7 7\n        }\n    }\n}\n";
    let t = parse_theme_kdl(text, "both").unwrap();
    assert_eq!(t.get(ThemeComponentType::ListSelected).base, RgbColor::new(7, 7, 7));
    assert_eq!(t.get(ThemeComponentType::TextUnselected).base, RgbColor::new(200, 200, 200));
}

#[test]
fn missing_theme_is_reported() {
    match parse_theme_kdl("themes {\n    other {\n    }\n}\n", "missing") {
        Err(ConfigError::ThemeNotFound(n)) => assert_eq!(n, "missing"),
        other => panic!("unexpected: {:?}", other),
    }
    match parse_theme_kdl("something 1\n", "missing") {
        Err(ConfigError::ThemeNotFound(n)) => assert_eq!(n, "missing"),
        other => panic!("unexpected: {:?}", other),
    }
}

#[test]
fn invalid_kdl_is_a_parse_error() {
    let expected = "themes {".parse::<kdl::KdlDocument>().unwrap_err().to_string();
    match parse_theme_kdl("themes {", "x") {
        Err(ConfigError::KdlParse(m)) => {
            assert!(!m.is_empty());
            assert_eq!(m, expected);
        }
        other => panic!("unexpected: {:?}", other),
    }
}

#[test]
fn error_texts() {
    assert_eq!(ConfigError::Io(String::from("denied")).text(), "IO error: denied");
    assert_eq!(ConfigError::KdlParse(String::from("bad")).text(), "KDL parse error: bad");
    assert_eq!(ConfigError::ThemeNotFound(String::from("x")).text(), "Theme not found: x");
}

fn node(name: &str, entries: Vec<Option<i64>>, children: Option<Vec<KdlNodeData>>) -> KdlNodeData {
    KdlNodeData { name: name.to_string(), entries, children }
}

#[test]
fn theme_from_plain_nodes() {
    let doc = vec![node(
        "themes",
        vec![],
        Some(vec![node("x", vec![], Some(vec![node("fg", vec![Some(1), Some(2), Some(3)], None)]))]),
    )];
    let t = theme_from_kdl_nodes(&doc, "x").unwrap();
    assert_eq!(t.get(ThemeComponentType::TextUnselected).base, RgbColor::new(1, 2, 3));
    assert!(matches!(theme_from_kdl_nodes(&doc, "y"), Err(ConfigError::ThemeNotFound(_))));
}

#[test]
fn palette_key_with_non_integer_entry_falls_back() {
    let doc = vec![node("p", vec![], Some(vec![node("fg", vec![Some(1), None, Some(3)], None)]))];
    let t = theme_from_kdl_nodes(&doc, "p").unwrap();
    assert_eq!(t.get(ThemeComponentType::TextUnselected).base, RgbColor::new(200, 200, 200));
}

#[test]
fn parse_component_reads_colour_children() {
    let n = node(
        "frame_selected",
        vec![],
        Some(vec![
            node("base", vec![Some(1), Some(2), Some(3)], None),
            node("emphasis_3", vec![None, Some(999), Some(-1)], None),
        ]),
    );
    let c = parse_component(&n);
    assert_eq!(c.base, RgbColor::new(1, 2, 3));
    assert_eq!(c.emphasis_3, RgbColor::new(0, 255, 0));
    assert_eq!(parse_component(&node("x", vec![], None)), ThemeComponent::default());
}

#[test]
fn component_keys_map_to_types() {
    assert_eq!(component_type_from_key("frame_highlight"), Some(ThemeComponentType::FrameHighlight));
    assert_eq!(component_type_from_key("exit_code_success"), Some(ThemeComponentType::ExitCodeSuccess));
    assert_eq!(component_type_from_key("fg"), None);
}

#[test]
fn config_gets_a_theme_line_appended() {
    assert_eq!(config_with_theme("", "x"), "theme \"x\"\n");
    assert_eq!(config_with_theme("keybinds {}\n\n", "x"), "keybinds {}\ntheme \"x\"\n");
}

#[test]
fn config_theme_lines_are_replaced() {
    assert_eq!(
        config_with_theme("a\n  theme \"old\"\nb", "new"),
        "a\ntheme \"new\"\nb\n"
    );
    assert_eq!(
        config_with_theme("theme \"one\"\r\ntheme \"two\"\n", "z"),
        "theme \"z\"\ntheme \"z\"\n"
    );
}

#[test]
fn theme_files_are_recognised_by_extension() {
    assert_eq!(theme_name_of_file("dracula.kdl"), Some(String::from("dracula")));
    assert_eq!(theme_name_of_file("a.b.kdl"), Some(String::from("a.b")));
    assert_eq!(theme_name_of_file("notes.txt"), None);
    assert_eq!(theme_name_of_file(".kdl"), None);
    assert_eq!(theme_name_of_file("kdl"), None);
}

#[test]
fn paths_are_joined_like_path_join() {
    assert_eq!(path_join("/home/u/.config", "zellij"), "/home/u/.config/zellij");
    assert_eq!(path_join("a/", "b"), "a/b");
    assert_eq!(path_join("a", "/b"), "/b");
    assert_eq!(path_join("", "b"), "b");
}

#[test]
fn manager_paths() {
    let m = ConfigManager::from_config_base(Some(String::from("/cfg")));
    assert_eq!(m.config_dir(), "/cfg/zellij");
    assert_eq!(m.themes_dir(), "/cfg/zellij/themes");
    assert_eq!(m.theme_path("x"), "/cfg/zellij/themes/x.kdl");
    assert_eq!(m.config_path(), "/cfg/zellij/config.kdl");
    let local = ConfigManager::from_config_base(None);
    assert_eq!(local.theme_path("y"), "./zellij/themes/y.kdl");
}

#[test]
fn selecting_a_theme_twice_changes_nothing() {
    for existing in ["keybinds {}\ntheme \"old\"\n  theme \"x\"\n", "a  \n\n", "", "plain"] {
        let once = config_with_theme(existing, "mine");
        let twice = config_with_theme(&once, "mine");
        assert_eq!(once, twice);
    }
    let crlf = config_with_theme("a\r\nb\r\n", "mine");
    assert_eq!(crlf, "a\r\nb\ntheme \"mine\"\n");
    assert_ne!(config_with_theme(&crlf, "mine"), crlf);
}
