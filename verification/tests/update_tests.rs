use zellij_tab_config::update::{parse_ver, release_asset_name_for, version_check_outcome};

#[test]
fn parses_versions_with_optional_v_prefix() {
    assert_eq!(parse_ver("v0.3.5"), Some((0, 3, 5)));
    assert_eq!(parse_ver("0.3.5"), Some((0, 3, 5)));
}

#[test]
fn parse_ver_strips_every_leading_v() {
    assert_eq!(parse_ver("vv1.20.300"), Some((1, 20, 300)));
}

#[test]
fn parse_ver_accepts_plus_signs_like_u32_parsing() {
    assert_eq!(parse_ver("+1.+2.+3"), Some((1, 2, 3)));
}

#[test]
fn parse_ver_rejects_malformed_versions() {
    assert_eq!(parse_ver("1.2"), None);
    assert_eq!(parse_ver("1.2.x"), None);
    assert_eq!(parse_ver("1.2.3.4"), None);
    assert_eq!(parse_ver("1..3"), None);
    assert_eq!(parse_ver(""), None);
    assert_eq!(parse_ver("4294967296.0.0"), None);
    assert_eq!(parse_ver("4294967295.0.0"), Some((4294967295, 0, 0)));
}

#[test]
fn release_asset_only_for_linux_x86_64() {
    assert_eq!(release_asset_name_for("linux", "x86_64"), Some("zellij-tab-config-linux-x86_64"));
    assert_eq!(release_asset_name_for("macos", "aarch64"), None);
    assert_eq!(release_asset_name_for("linux", "aarch64"), None);
}

#[test]
fn newer_release_is_reported() {
    assert_eq!(version_check_outcome(Some("v0.4.0"), "0.3.5"), Ok(Some(String::from("v0.4.0"))));
    assert_eq!(version_check_outcome(Some("v0.3.6"), "0.3.5"), Ok(Some(String::from("v0.3.6"))));
    assert_eq!(version_check_outcome(Some("v1.0.0"), "0.9.9"), Ok(Some(String::from("v1.0.0"))));
}

#[test]
fn same_or_older_release_is_not_reported() {
    assert_eq!(version_check_outcome(Some("v0.3.5"), "0.3.5"), Ok(None));
    assert_eq!(version_check_outcome(Some("0.2.9"), "0.3.0"), Ok(None));
}

#[test]
fn version_check_errors() {
    assert_eq!(version_check_outcome(None, "0.3.5"), Err(String::from("no tag_name in response")));
    assert_eq!(
        version_check_outcome(Some("latest"), "0.3.5"),
        Err(String::from("unparseable tag: latest"))
    );
    assert_eq!(
        version_check_outcome(Some("v1.0.0"), "dev"),
        Err(String::from("unparseable current version: dev"))
    );
}

#[test]
fn formatted_versions_read_back() {
    for (p, a, b, c) in [("", 0u32, 0u32, 0u32), ("v", 1, 22, 333), ("vvv", 4294967295, 10, 7)] {
        assert_eq!(parse_ver(&format!("{}{}.{}.{}", p, a, b, c)), Some((a, b, c)));
    }
    assert_eq!(parse_ver("1.2.3.4"), None);
    assert_eq!(parse_ver("1.2.3-beta"), None);
}
