//! Theme files: reading a KDL theme into a `Theme`, writing a `Theme` as
//! KDL, and the paths and the `config.kdl` edit that saving and applying use.

use vstd::prelude::*;
use crate::kdl_tree::{
    KdlNodeData, KdlNodeModel, node_view, nodes_view, kdl_parse, parse_kdl_document,
    kdl_parse_error, document_data,
};
use crate::text::{str_eq, dec_string, u32_to_decimal, chars_of, string_of, push_char, is_unicode_space, char_is_unicode_space};
use vstd::string::StringExecFns;
use crate::theme::{
    RgbColor, ThemeComponent, Theme, ThemeComponentType, rgb, black_component, clamp_byte,
    all_component_types, default_components, lemma_component_index, lemma_components_index,
    lemma_with_comp_components,
};

verus! {

/// Why loading, saving or applying a theme failed.
#[derive(Debug)]
pub enum ConfigError {
    /// A file operation failed; the text is the operating system's message.
    Io(String),
    /// The file is not valid KDL; the text is the parser's message.
    KdlParse(String),
    /// No node with the theme's name was found.
    ThemeNotFound(String),
}

impl ConfigError {
    /// The error's message: what went wrong, followed by the detail.
    pub open spec fn spec_text(&self) -> Seq<char> {
        match self {
            ConfigError::Io(m) => "IO error: "@ + m@,
            ConfigError::KdlParse(m) => "KDL parse error: "@ + m@,
            ConfigError::ThemeNotFound(n) => "Theme not found: "@ + n@,
        }
    }

    pub fn text(&self) -> (res: String)
        ensures
            res@ == self.spec_text(),
    {
        match self {
            ConfigError::Io(m) => String::from_str("IO error: ").concat(m.as_str()),
            ConfigError::KdlParse(m) => String::from_str("KDL parse error: ").concat(m.as_str()),
            ConfigError::ThemeNotFound(n) => String::from_str("Theme not found: ").concat(n.as_str()),
        }
    }
}

// ---------------------------------------------------------------------------
// Reading a theme
// ---------------------------------------------------------------------------

/// The first node named `name`.
pub open spec fn find_node(nodes: Seq<KdlNodeModel>, name: Seq<char>) -> Option<KdlNodeModel>
    decreases nodes.len(),
{
    if nodes.len() == 0 {
        None
    } else if nodes[0].name == name {
        Some(nodes[0])
    } else {
        find_node(nodes.drop_first(), name)
    }
}

/// A node's children, or none when it has no children block.
pub open spec fn children_of(n: KdlNodeModel) -> Seq<KdlNodeModel> {
    match n.children {
        Some(c) => c,
        None => Seq::empty(),
    }
}

/// The node holding the theme `name`: looked up among the children of the
/// first top-level `themes` node when there is one, else at the top level.
pub open spec fn theme_node(doc: Seq<KdlNodeModel>, name: Seq<char>) -> Option<KdlNodeModel> {
    match find_node(doc, "themes"@) {
        Some(themes) => find_node(children_of(themes), name),
        None => find_node(doc, name),
    }
}

/// The component type whose key is `key`.
pub open spec fn component_type_for_key(key: Seq<char>) -> Option<ThemeComponentType> {
    if key == ThemeComponentType::TextUnselected.spec_key() {
        Some(ThemeComponentType::TextUnselected)
    } else if key == ThemeComponentType::TextSelected.spec_key() {
        Some(ThemeComponentType::TextSelected)
    } else if key == ThemeComponentType::RibbonUnselected.spec_key() {
        Some(ThemeComponentType::RibbonUnselected)
    } else if key == ThemeComponentType::RibbonSelected.spec_key() {
        Some(ThemeComponentType::RibbonSelected)
    } else if key == ThemeComponentType::TableTitle.spec_key() {
        Some(ThemeComponentType::TableTitle)
    } else if key == ThemeComponentType::TableCellUnselected.spec_key() {
        Some(ThemeComponentType::TableCellUnselected)
    } else if key == ThemeComponentType::TableCellSelected.spec_key() {
        Some(ThemeComponentType::TableCellSelected)
    } else if key == ThemeComponentType::ListUnselected.spec_key() {
        Some(ThemeComponentType::ListUnselected)
    } else if key == ThemeComponentType::ListSelected.spec_key() {
        Some(ThemeComponentType::ListSelected)
    } else if key == ThemeComponentType::FrameUnselected.spec_key() {
        Some(ThemeComponentType::FrameUnselected)
    } else if key == ThemeComponentType::FrameSelected.spec_key() {
        Some(ThemeComponentType::FrameSelected)
    } else if key == ThemeComponentType::FrameHighlight.spec_key() {
        Some(ThemeComponentType::FrameHighlight)
    } else if key == ThemeComponentType::ExitCodeSuccess.spec_key() {
        Some(ThemeComponentType::ExitCodeSuccess)
    } else if key == ThemeComponentType::ExitCodeError.spec_key() {
        Some(ThemeComponentType::ExitCodeError)
    } else {
        None
    }
}

/// The keys of a palette-only theme.
pub open spec fn is_palette_key(key: Seq<char>) -> bool {
    ||| key == "fg"@
    ||| key == "bg"@
    ||| key == "black"@
    ||| key == "red"@
    ||| key == "green"@
    ||| key == "yellow"@
    ||| key == "blue"@
    ||| key == "magenta"@
    ||| key == "cyan"@
    ||| key == "white"@
}

/// Some child is a component block.
pub open spec fn has_component_node(children: Seq<KdlNodeModel>) -> bool {
    exists|i: int| 0 <= i < children.len() && (#[trigger] component_type_for_key(children[i].name)) is Some
}

/// Some child is a palette key.
pub open spec fn has_palette_node(children: Seq<KdlNodeModel>) -> bool {
    exists|i: int| 0 <= i < children.len() && #[trigger] is_palette_key(children[i].name)
}

/// An entry value as a channel: integers clamped into `0..=255`, anything else 0.
pub open spec fn entry_byte(e: Option<i64>) -> u8 {
    match e {
        Some(v) => clamp_byte(v as int),
        None => 0,
    }
}

/// The colour of a line `name r g b` of a component block.
pub open spec fn entry_color(entries: Seq<Option<i64>>) -> RgbColor {
    rgb(entry_byte(entries[0]), entry_byte(entries[1]), entry_byte(entries[2]))
}

/// `c` with the colour named `key` set to `color`; other keys leave it unchanged.
pub open spec fn set_attribute(c: ThemeComponent, key: Seq<char>, color: RgbColor) -> ThemeComponent {
    if key == "base"@ {
        ThemeComponent { base: color, ..c }
    } else if key == "background"@ {
        ThemeComponent { background: color, ..c }
    } else if key == "emphasis_0"@ {
        ThemeComponent { emphasis_0: color, ..c }
    } else if key == "emphasis_1"@ {
        ThemeComponent { emphasis_1: color, ..c }
    } else if key == "emphasis_2"@ {
        ThemeComponent { emphasis_2: color, ..c }
    } else if key == "emphasis_3"@ {
        ThemeComponent { emphasis_3: color, ..c }
    } else {
        c
    }
}

/// The component after reading the first `k` lines of a component block:
/// starting from all black, each line with at least three entries sets the
/// colour its name selects.
pub open spec fn component_after(lines: Seq<KdlNodeModel>, k: nat) -> ThemeComponent
    decreases k,
{
    if k == 0 || k > lines.len() {
        black_component()
    } else {
        let prev = component_after(lines, (k - 1) as nat);
        let line = lines[k - 1];
        if line.entries.len() >= 3 {
            set_attribute(prev, line.name, entry_color(line.entries))
        } else {
            prev
        }
    }
}

/// The component a component block describes.
pub open spec fn spec_parse_component(node: KdlNodeModel) -> ThemeComponent {
    component_after(children_of(node), children_of(node).len())
}

/// The components after reading the first `k` children of a theme node:
/// starting from the default theme, each component block replaces its component.
pub open spec fn components_after(children: Seq<KdlNodeModel>, k: nat) -> Seq<ThemeComponent>
    decreases k,
{
    if k == 0 || k > children.len() {
        default_components()
    } else {
        let prev = components_after(children, (k - 1) as nat);
        match component_type_for_key(children[k - 1].name) {
            Some(ty) => prev.update(ty.index(), spec_parse_component(children[k - 1])),
            None => prev,
        }
    }
}

/// The colour a palette line gives: its first three entries, which must be integers.
pub open spec fn palette_color(nodes: Seq<KdlNodeModel>, key: Seq<char>) -> Option<RgbColor> {
    match find_node(nodes, key) {
        Some(n) => if n.entries.len() >= 3 && n.entries[0] is Some && n.entries[1] is Some
            && n.entries[2] is Some {
            Some(
                rgb(
                    clamp_byte(n.entries[0]->0 as int),
                    clamp_byte(n.entries[1]->0 as int),
                    clamp_byte(n.entries[2]->0 as int),
                ),
            )
        } else {
            None
        },
        None => None,
    }
}

pub open spec fn palette_or(nodes: Seq<KdlNodeModel>, key: Seq<char>, dflt: RgbColor) -> RgbColor {
    match palette_color(nodes, key) {
        Some(c) => c,
        None => dflt,
    }
}

/// `v + 25`, saturating at 255.
pub open spec fn plus_25(v: u8) -> u8 {
    if v as int + 25 > 255 {
        255
    } else {
        (v + 25) as u8
    }
}

/// A component of a palette theme.
pub open spec fn palette_component(
    base: RgbColor,
    background: RgbColor,
    white: RgbColor,
    fg: RgbColor,
    black: RgbColor,
) -> ThemeComponent {
    ThemeComponent {
        base,
        background,
        emphasis_0: white,
        emphasis_1: fg,
        emphasis_2: rgb((fg.r / 2 + 60) as u8, (fg.g / 2 + 60) as u8, (fg.b / 2 + 60) as u8),
        emphasis_3: black,
    }
}

/// The components of a theme given by palette keys only, in the order of
/// `all_component_types()`.
pub open spec fn palette_components(nodes: Seq<KdlNodeModel>) -> Seq<ThemeComponent> {
    let black = palette_or(nodes, "black"@, rgb(30, 30, 30));
    let fg = palette_or(nodes, "fg"@, rgb(200, 200, 200));
    let bg = palette_or(nodes, "bg"@, rgb(40, 40, 40));
    let white = palette_or(nodes, "white"@, rgb(240, 240, 240));
    let red = palette_or(nodes, "red"@, rgb(220, 80, 80));
    let green = palette_or(nodes, "green"@, rgb(80, 200, 80));
    let yellow = palette_or(nodes, "yellow"@, rgb(220, 190, 100));
    let blue = palette_or(nodes, "blue"@, rgb(80, 130, 210));
    let orange = palette_or(nodes, "orange"@, yellow);
    let bg_sel = rgb(plus_25(bg.r), plus_25(bg.g), plus_25(bg.b));
    seq![
        palette_component(fg, bg, white, fg, black),
        palette_component(white, bg_sel, white, fg, black),
        palette_component(fg, bg, white, fg, black),
        palette_component(bg, blue, white, fg, black),
        palette_component(blue, bg, white, fg, black),
        palette_component(fg, bg, white, fg, black),
        palette_component(white, bg_sel, white, fg, black),
        palette_component(fg, bg, white, fg, black),
        palette_component(white, blue, white, fg, black),
        palette_component(black, bg, white, fg, black),
        palette_component(blue, bg, white, fg, black),
        palette_component(orange, bg, white, fg, black),
        palette_component(green, bg, white, fg, black),
        palette_component(red, bg, white, fg, black),
    ]
}

/// The components of theme `name` in a KDL document, or `None` when the
/// document has no node for it. A theme node with component blocks is read
/// block by block; one with palette keys and no component blocks is read as
/// a palette.
pub open spec fn spec_theme_from_nodes(doc: Seq<KdlNodeModel>, name: Seq<char>) -> Option<
    Seq<ThemeComponent>,
> {
    match theme_node(doc, name) {
        None => None,
        Some(t) => {
            let ch = children_of(t);
            if !has_component_node(ch) && has_palette_node(ch) {
                Some(palette_components(ch))
            } else {
                Some(components_after(ch, ch.len()))
            }
        },
    }
}

/// `res` is the theme `name` with the components `comps`, or the
/// not-found error for `name` when `comps` is `None`.
pub open spec fn theme_result(
    res: Result<Theme, ConfigError>,
    comps: Option<Seq<ThemeComponent>>,
    name: Seq<char>,
) -> bool {
    match comps {
        Some(cs) => res matches Ok(t) && t.name@ == name && t.components() == cs,
        None => res matches Err(ConfigError::ThemeNotFound(n)) && n@ == name,
    }
}

proof fn lemma_nodes_view_index(v: Seq<KdlNodeData>, i: int)
    requires
        0 <= i < v.len(),
    ensures
        nodes_view(v).len() == v.len(),
        nodes_view(v)[i] == node_view(v[i]),
{
}

proof fn lemma_find_node_skip(nodes: Seq<KdlNodeModel>, name: Seq<char>, i: int)
    requires
        0 <= i < nodes.len(),
        nodes[i].name != name,
    ensures
        find_node(nodes.skip(i), name) == find_node(nodes.skip(i + 1), name),
{
    assert(nodes.skip(i).drop_first() =~= nodes.skip(i + 1));
}

/// Index of the first node named `key`.
fn find_node_index(nodes: &Vec<KdlNodeData>, key: &str) -> (res: Option<usize>)
    ensures
        match res {
            Some(i) => i < nodes@.len() && find_node(nodes_view(nodes@), key@) == Some(
                node_view(nodes@[i as int]),
            ),
            None => find_node(nodes_view(nodes@), key@) is None,
        },
{
    let ghost nv = nodes_view(nodes@);
    let mut i: usize = 0;
    assert(nv.skip(0) =~= nv);
    while i < nodes.len()
        invariant
            nv == nodes_view(nodes@),
            nv.len() == nodes@.len(),
            i <= nodes@.len(),
            find_node(nv, key@) == find_node(nv.skip(i as int), key@),
        decreases nodes@.len() - i,
    {
        proof {
            lemma_nodes_view_index(nodes@, i as int);
        }
        if str_eq(nodes[i].name.as_str(), key) {
            assert(nv.skip(i as int)[0] == nv[i as int]);
            return Some(i);
        }
        proof {
            lemma_find_node_skip(nv, key@, i as int);
        }
        i = i + 1;
    }
    assert(nv.skip(i as int).len() == 0);
    None
}

/// The component type named by a component block's key.
pub fn component_type_from_key(key: &str) -> (res: Option<ThemeComponentType>)
    ensures
        res == component_type_for_key(key@),
{
    if str_eq(key, "text_unselected") {
        Some(ThemeComponentType::TextUnselected)
    } else if str_eq(key, "text_selected") {
        Some(ThemeComponentType::TextSelected)
    } else if str_eq(key, "ribbon_unselected") {
        Some(ThemeComponentType::RibbonUnselected)
    } else if str_eq(key, "ribbon_selected") {
        Some(ThemeComponentType::RibbonSelected)
    } else if str_eq(key, "table_title") {
        Some(ThemeComponentType::TableTitle)
    } else if str_eq(key, "table_cell_unselected") {
        Some(ThemeComponentType::TableCellUnselected)
    } else if str_eq(key, "table_cell_selected") {
        Some(ThemeComponentType::TableCellSelected)
    } else if str_eq(key, "list_unselected") {
        Some(ThemeComponentType::ListUnselected)
    } else if str_eq(key, "list_selected") {
        Some(ThemeComponentType::ListSelected)
    } else if str_eq(key, "frame_unselected") {
        Some(ThemeComponentType::FrameUnselected)
    } else if str_eq(key, "frame_selected") {
        Some(ThemeComponentType::FrameSelected)
    } else if str_eq(key, "frame_highlight") {
        Some(ThemeComponentType::FrameHighlight)
    } else if str_eq(key, "exit_code_success") {
        Some(ThemeComponentType::ExitCodeSuccess)
    } else if str_eq(key, "exit_code_error") {
        Some(ThemeComponentType::ExitCodeError)
    } else {
        None
    }
}

fn is_palette_key_str(key: &str) -> (res: bool)
    ensures
        res == is_palette_key(key@),
{
    str_eq(key, "fg") || str_eq(key, "bg") || str_eq(key, "black") || str_eq(key, "red")
        || str_eq(key, "green") || str_eq(key, "yellow") || str_eq(key, "blue") || str_eq(
        key,
        "magenta",
    ) || str_eq(key, "cyan") || str_eq(key, "white")
}

fn clamp_entry(v: i64) -> (res: u8)
    ensures
        res == clamp_byte(v as int),
{
    if v < 0 {
        0
    } else if v > 255 {
        255
    } else {
        v as u8
    }
}

fn entry_byte_of(e: Option<i64>) -> (res: u8)
    ensures
        res == entry_byte(e),
{
    match e {
        Some(v) => clamp_entry(v),
        None => 0,
    }
}

fn set_attribute_exec(c: &mut ThemeComponent, key: &str, color: RgbColor)
    ensures
        *final(c) == set_attribute(*old(c), key@, color),
{
    if str_eq(key, "base") {
        c.base = color;
    } else if str_eq(key, "background") {
        c.background = color;
    } else if str_eq(key, "emphasis_0") {
        c.emphasis_0 = color;
    } else if str_eq(key, "emphasis_1") {
        c.emphasis_1 = color;
    } else if str_eq(key, "emphasis_2") {
        c.emphasis_2 = color;
    } else if str_eq(key, "emphasis_3") {
        c.emphasis_3 = color;
    }
}

/// Reads a component block: each line `name r g b` with at least three
/// entries sets the colour `name` selects, starting from all black.
pub fn parse_component(node: &KdlNodeData) -> (res: ThemeComponent)
    ensures
        res == spec_parse_component(node_view(*node)),
{
    let mut component = ThemeComponent::default();
    let lines = match &node.children {
        Some(v) => v,
        None => {
            return component;
        },
    };
    let ghost lv = nodes_view(lines@);
    assert(children_of(node_view(*node)) == lv);
    let mut i: usize = 0;
    while i < lines.len()
        invariant
            lv == nodes_view(lines@),
            lv.len() == lines@.len(),
            i <= lines@.len(),
            component == component_after(lv, i as nat),
        decreases lines@.len() - i,
    {
        proof {
            lemma_nodes_view_index(lines@, i as int);
        }
        let line = &lines[i];
        if line.entries.len() >= 3 {
            let r = entry_byte_of(line.entries[0]);
            let g = entry_byte_of(line.entries[1]);
            let b = entry_byte_of(line.entries[2]);
            let color = RgbColor::new(r, g, b);
            set_attribute_exec(&mut component, line.name.as_str(), color);
        }
        i = i + 1;
    }
    component
}

/// The colour of the palette line `key`, when it exists and starts with
/// three integers.
fn parse_palette_color(nodes: &Vec<KdlNodeData>, key: &str) -> (res: Option<RgbColor>)
    ensures
        res == palette_color(nodes_view(nodes@), key@),
{
    let idx = find_node_index(nodes, key);
    match idx {
        None => None,
        Some(i) => {
            let node = &nodes[i];
            if node.entries.len() < 3 {
                return None;
            }
            match (node.entries[0], node.entries[1], node.entries[2]) {
                (Some(r), Some(g), Some(b)) => Some(
                    RgbColor::new(clamp_entry(r), clamp_entry(g), clamp_entry(b)),
                ),
                _ => None,
            }
        },
    }
}

fn palette_or_exec(nodes: &Vec<KdlNodeData>, key: &str, dflt: RgbColor) -> (res: RgbColor)
    ensures
        res == palette_or(nodes_view(nodes@), key@, dflt),
{
    match parse_palette_color(nodes, key) {
        Some(c) => c,
        None => dflt,
    }
}

fn add_25(v: u8) -> (res: u8)
    ensures
        res == plus_25(v),
{
    if v > 230 {
        255
    } else {
        v + 25
    }
}

fn make_palette_component(
    base: RgbColor,
    background: RgbColor,
    white: RgbColor,
    fg: RgbColor,
    black: RgbColor,
) -> (res: ThemeComponent)
    ensures
        res == palette_component(base, background, white, fg, black),
{
    ThemeComponent {
        base,
        background,
        emphasis_0: white,
        emphasis_1: fg,
        emphasis_2: RgbColor::new(fg.r / 2 + 60, fg.g / 2 + 60, fg.b / 2 + 60),
        emphasis_3: black,
    }
}

/// Builds a theme from the palette keys of a theme node.
fn theme_from_palette(nodes: &Vec<KdlNodeData>, name: &str) -> (res: Theme)
    ensures
        res.name@ == name@,
        res.components() == palette_components(nodes_view(nodes@)),
{
    let black = palette_or_exec(nodes, "black", RgbColor::new(30, 30, 30));
    let fg = palette_or_exec(nodes, "fg", RgbColor::new(200, 200, 200));
    let bg = palette_or_exec(nodes, "bg", RgbColor::new(40, 40, 40));
    let white = palette_or_exec(nodes, "white", RgbColor::new(240, 240, 240));
    let red = palette_or_exec(nodes, "red", RgbColor::new(220, 80, 80));
    let green = palette_or_exec(nodes, "green", RgbColor::new(80, 200, 80));
    let yellow = palette_or_exec(nodes, "yellow", RgbColor::new(220, 190, 100));
    let blue = palette_or_exec(nodes, "blue", RgbColor::new(80, 130, 210));
    let _magenta = palette_or_exec(nodes, "magenta", RgbColor::new(180, 100, 200));
    let orange = palette_or_exec(nodes, "orange", yellow);
    let bg_sel = RgbColor::new(add_25(bg.r), add_25(bg.g), add_25(bg.b));
    let t = Theme {
        name: name.to_owned(),
        text_unselected: make_palette_component(fg, bg, white, fg, black),
        text_selected: make_palette_component(white, bg_sel, white, fg, black),
        ribbon_unselected: make_palette_component(fg, bg, white, fg, black),
        ribbon_selected: make_palette_component(bg, blue, white, fg, black),
        table_title: make_palette_component(blue, bg, white, fg, black),
        table_cell_unselected: make_palette_component(fg, bg, white, fg, black),
        table_cell_selected: make_palette_component(white, bg_sel, white, fg, black),
        list_unselected: make_palette_component(fg, bg, white, fg, black),
        list_selected: make_palette_component(white, blue, white, fg, black),
        frame_unselected: make_palette_component(black, bg, white, fg, black),
        frame_selected: make_palette_component(blue, bg, white, fg, black),
        frame_highlight: make_palette_component(orange, bg, white, fg, black),
        exit_code_success: make_palette_component(green, bg, white, fg, black),
        exit_code_error: make_palette_component(red, bg, white, fg, black),
    };
    assert(t.components() =~= palette_components(nodes_view(nodes@)));
    t
}

/// Reads theme `name` from the nodes of a KDL document.
///
/// The theme node is the child `name` of the first top-level `themes` node
/// when there is one, else the top-level node `name`. When its children hold
/// palette keys and no component block, the theme is built from the palette;
/// otherwise the default theme is taken and every component block replaces
/// its component, later blocks winning.
pub fn theme_from_kdl_nodes(doc: &Vec<KdlNodeData>, name: &str) -> (res: Result<Theme, ConfigError>)
    ensures
        theme_result(res, spec_theme_from_nodes(nodes_view(doc@), name@), name@),
{
    let theme_node_ref: &KdlNodeData = match find_node_index(doc, "themes") {
        Some(ti) => {
            let themes = &doc[ti];
            match &themes.children {
                Some(tc) => match find_node_index(tc, name) {
                    Some(k) => &tc[k],
                    None => {
                        return Err(ConfigError::ThemeNotFound(name.to_owned()));
                    },
                },
                None => {
                    assert(children_of(node_view(*themes)) =~= Seq::<KdlNodeModel>::empty());
                    return Err(ConfigError::ThemeNotFound(name.to_owned()));
                },
            }
        },
        None => match find_node_index(doc, name) {
            Some(k) => &doc[k],
            None => {
                return Err(ConfigError::ThemeNotFound(name.to_owned()));
            },
        },
    };
    assert(theme_node(nodes_view(doc@), name@) == Some(node_view(*theme_node_ref)));
    let empty: Vec<KdlNodeData> = Vec::new();
    let children: &Vec<KdlNodeData> = match &theme_node_ref.children {
        Some(c) => c,
        None => &empty,
    };
    let ghost cv = nodes_view(children@);
    assert(cv =~= children_of(node_view(*theme_node_ref)));
    // Component blocks win over palette keys.
    let mut has_component = false;
    let mut has_palette = false;
    let mut i: usize = 0;
    while i < children.len()
        invariant
            cv == nodes_view(children@),
            cv.len() == children@.len(),
            i <= children@.len(),
            has_component == exists|j: int|
                0 <= j < i && (#[trigger] component_type_for_key(cv[j].name)) is Some,
            has_palette == exists|j: int| 0 <= j < i && #[trigger] is_palette_key(cv[j].name),
        decreases children@.len() - i,
    {
        proof {
            lemma_nodes_view_index(children@, i as int);
        }
        let is_component = component_type_from_key(children[i].name.as_str()).is_some();
        let is_palette = is_palette_key_str(children[i].name.as_str());
        assert(cv[i as int].name == children@[i as int].name@);
        assert(is_component == (component_type_for_key(cv[i as int].name) is Some));
        assert(is_palette == is_palette_key(cv[i as int].name));
        if is_component {
            has_component = true;
        }
        if is_palette {
            has_palette = true;
        }
        i = i + 1;
    }
    if !has_component && has_palette {
        let t = theme_from_palette(children, name);
        return Ok(t);
    }
    let mut theme = Theme::default();
    proof {
        assert forall|k: int| 0 <= k < 14 implies theme.components()[k]
            == default_components()[k] by {
            let ty = all_component_types()[k];
            lemma_component_index(ty);
            assert(theme.comp(ty) == crate::theme::default_component(ty));
        }
        assert(theme.components() =~= default_components());
    }
    let ghost before = theme.components();
    theme.name = name.to_owned();
    assert(theme.components() =~= before);
    let mut j: usize = 0;
    while j < children.len()
        invariant
            cv == nodes_view(children@),
            cv.len() == children@.len(),
            j <= children@.len(),
            theme.name@ == name@,
            theme.components() == components_after(cv, j as nat),
        decreases children@.len() - j,
    {
        proof {
            lemma_nodes_view_index(children@, j as int);
        }
        let child = &children[j];
        match component_type_from_key(child.name.as_str()) {
            Some(ty) => {
                let component = parse_component(child);
                proof {
                    lemma_with_comp_components(theme, ty, component);
                }
                theme.set(ty, component);
            },
            None => {},
        }
        j = j + 1;
    }
    Ok(theme)
}

/// Parses a KDL theme file and reads theme `name` from it.
pub fn parse_theme_kdl(content: &str, name: &str) -> (res: Result<Theme, ConfigError>)
    ensures
        res matches Err(ConfigError::KdlParse(_)) <==> kdl_parse(content@) is None,
        res matches Err(ConfigError::KdlParse(m)) ==> m@ == kdl_parse_error(content@),
        kdl_parse(content@) matches Some(doc) ==> theme_result(
            res,
            spec_theme_from_nodes(doc, name@),
            name@,
        ),
{
    match parse_kdl_document(content) {
        Ok(doc) => {
            let nodes = document_data(&doc);
            theme_from_kdl_nodes(&nodes, name)
        },
        Err(e) => Err(ConfigError::KdlParse(e)),
    }
}


// ---------------------------------------------------------------------------
// Writing a theme
// ---------------------------------------------------------------------------

/// The concatenation of a sequence of strings.
pub open spec fn concat_all(parts: Seq<Seq<char>>) -> Seq<char>
    decreases parts.len(),
{
    if parts.len() == 0 {
        Seq::empty()
    } else {
        concat_all(parts.drop_last()) + parts.last()
    }
}

/// `r g b` in decimal.
pub open spec fn color_text(c: RgbColor) -> Seq<char> {
    dec_string(c.r as nat) + " "@ + dec_string(c.g as nat) + " "@ + dec_string(c.b as nat)
}

/// One line `indent key r g b`.
pub open spec fn color_line(indent: Seq<char>, key: Seq<char>, c: RgbColor) -> Seq<char> {
    indent + key + " "@ + color_text(c) + "\n"@
}

/// The palette keys written at the top of a saved theme, with their colours.
pub open spec fn palette_entries(t: Theme) -> Seq<(Seq<char>, RgbColor)> {
    let tu = t.comp(ThemeComponentType::TextUnselected);
    let fh = t.comp(ThemeComponentType::FrameHighlight);
    let ru = t.comp(ThemeComponentType::RibbonUnselected);
    seq![
        ("fg"@, tu.base),
        ("bg"@, tu.background),
        ("black"@, tu.emphasis_3),
        ("red"@, t.comp(ThemeComponentType::ExitCodeError).base),
        ("green"@, t.comp(ThemeComponentType::ExitCodeSuccess).base),
        ("yellow"@, fh.base),
        ("blue"@, t.comp(ThemeComponentType::RibbonSelected).background),
        ("magenta"@, ru.emphasis_0),
        ("cyan"@, ru.emphasis_2),
        ("white"@, t.comp(ThemeComponentType::TextSelected).base),
        ("orange"@, fh.base),
    ]
}

/// The six attribute lines of a component, with their colours.
pub open spec fn attribute_entries(c: ThemeComponent) -> Seq<(Seq<char>, RgbColor)> {
    seq![
        ("base"@, c.base),
        ("background"@, c.background),
        ("emphasis_0"@, c.emphasis_0),
        ("emphasis_1"@, c.emphasis_1),
        ("emphasis_2"@, c.emphasis_2),
        ("emphasis_3"@, c.emphasis_3),
    ]
}

pub open spec fn lines_of(indent: Seq<char>, entries: Seq<(Seq<char>, RgbColor)>) -> Seq<char> {
    concat_all(entries.map_values(|e: (Seq<char>, RgbColor)| color_line(indent, e.0, e.1)))
}

/// The block of one component in a saved theme.
pub open spec fn component_block(ty: ThemeComponentType, c: ThemeComponent) -> Seq<char> {
    "        "@ + ty.spec_key() + " {\n"@ + lines_of("            "@, attribute_entries(c))
        + "        }\n"@
}

/// The text `theme_to_kdl` writes: a `themes` node holding the theme's
/// node, which lists the palette keys and then the fourteen component blocks.
pub open spec fn spec_theme_to_kdl(t: Theme) -> Seq<char> {
    "themes {\n"@ + "    "@ + t.name@ + " {\n"@ + lines_of("        "@, palette_entries(t))
        + concat_all(
        all_component_types().map_values(|ty: ThemeComponentType| component_block(ty, t.comp(ty))),
    ) + "    }\n"@ + "}\n"@
}

proof fn lemma_concat_push(parts: Seq<Seq<char>>, i: int)
    requires
        0 <= i < parts.len(),
    ensures
        concat_all(parts.take(i + 1)) == concat_all(parts.take(i)) + parts[i],
{
    assert(parts.take(i + 1).drop_last() =~= parts.take(i));
}

fn append_color_line(out: &mut String, indent: &str, key: &str, c: RgbColor)
    ensures
        final(out)@ == old(out)@ + color_line(indent@, key@, c),
{
    out.append(indent);
    out.append(key);
    out.append(" ");
    let r = u32_to_decimal(c.r as u32);
    out.append(r.as_str());
    out.append(" ");
    let g = u32_to_decimal(c.g as u32);
    out.append(g.as_str());
    out.append(" ");
    let b = u32_to_decimal(c.b as u32);
    out.append(b.as_str());
    out.append("\n");
    assert(final(out)@ =~= old(out)@ + color_line(indent@, key@, c));
}

fn append_lines(out: &mut String, indent: &str, keys: &[&str], colors: &[RgbColor])
    requires
        keys@.len() == colors@.len(),
    ensures
        final(out)@ == old(out)@ + lines_of(
            indent@,
            Seq::new(keys@.len(), |i: int| (keys@[i]@, colors@[i])),
        ),
{
    let ghost entries = Seq::new(keys@.len(), |i: int| (keys@[i]@, colors@[i]));
    let ghost parts = entries.map_values(|e: (Seq<char>, RgbColor)| color_line(indent@, e.0, e.1));
    let ghost start = out@;
    let mut i: usize = 0;
    assert(parts.take(0) =~= Seq::<Seq<char>>::empty());
    while i < keys.len()
        invariant
            keys@.len() == colors@.len(),
            i <= keys@.len(),
            parts.len() == keys@.len(),
            entries == Seq::new(keys@.len(), |i: int| (keys@[i]@, colors@[i])),
            parts == entries.map_values(|e: (Seq<char>, RgbColor)| color_line(indent@, e.0, e.1)),
            out@ == start + concat_all(parts.take(i as int)),
        decreases keys@.len() - i,
    {
        append_color_line(out, indent, keys[i], colors[i]);
        proof {
            lemma_concat_push(parts, i as int);
        }
        i = i + 1;
    }
    assert(parts.take(keys@.len() as int) =~= parts);
}

fn append_component_block(out: &mut String, ty: ThemeComponentType, c: &ThemeComponent)
    ensures
        final(out)@ == old(out)@ + component_block(ty, *c),
{
    let ghost start = out@;
    out.append("        ");
    out.append(ty.component_key());
    out.append(" {\n");
    let keys: [&str; 6] = ["base", "background", "emphasis_0", "emphasis_1", "emphasis_2", "emphasis_3"];
    let colors: [RgbColor; 6] = [c.base, c.background, c.emphasis_0, c.emphasis_1, c.emphasis_2, c.emphasis_3];
    append_lines(out, "            ", keys.as_slice(), colors.as_slice());
    out.append("        }\n");
    assert(Seq::new(keys@.len(), |i: int| (keys@[i]@, colors@[i])) =~= attribute_entries(*c));
    assert(final(out)@ =~= start + component_block(ty, *c));
}

/// The KDL text of a saved theme: a `themes` node holding the theme's node,
/// which lists the palette keys (`fg`, `bg`, ... `orange`, taken from the
/// components) and then the fourteen component blocks.
pub fn theme_to_kdl(theme: &Theme) -> (res: String)
    ensures
        res@ == spec_theme_to_kdl(*theme),
{
    let mut out = String::new();
    out.append("themes {\n");
    out.append("    ");
    out.append(theme.name.as_str());
    out.append(" {\n");
    let tu = theme.get(ThemeComponentType::TextUnselected);
    let fh = theme.get(ThemeComponentType::FrameHighlight);
    let ru = theme.get(ThemeComponentType::RibbonUnselected);
    let keys: [&str; 11] = [
        "fg", "bg", "black", "red", "green", "yellow", "blue", "magenta", "cyan", "white", "orange",
    ];
    let colors: [RgbColor; 11] = [
        tu.base,
        tu.background,
        tu.emphasis_3,
        theme.get(ThemeComponentType::ExitCodeError).base,
        theme.get(ThemeComponentType::ExitCodeSuccess).base,
        fh.base,
        theme.get(ThemeComponentType::RibbonSelected).background,
        ru.emphasis_0,
        ru.emphasis_2,
        theme.get(ThemeComponentType::TextSelected).base,
        fh.base,
    ];
    append_lines(&mut out, "        ", keys.as_slice(), colors.as_slice());
    assert(Seq::new(keys@.len(), |i: int| (keys@[i]@, colors@[i])) =~= palette_entries(*theme));
    let ghost head = out@;
    let types = ThemeComponentType::all();
    let ghost blocks = all_component_types().map_values(
        |ty: ThemeComponentType| component_block(ty, theme.comp(ty)),
    );
    let mut i: usize = 0;
    assert(blocks.take(0) =~= Seq::<Seq<char>>::empty());
    while i < types.len()
        invariant
            types@ == all_component_types(),
            blocks.len() == 14,
            blocks == all_component_types().map_values(
                |ty: ThemeComponentType| component_block(ty, theme.comp(ty)),
            ),
            i <= 14,
            out@ == head + concat_all(blocks.take(i as int)),
        decreases 14 - i,
    {
        let ty = types[i];
        append_component_block(&mut out, ty, theme.get(ty));
        proof {
            lemma_concat_push(blocks, i as int);
        }
        i = i + 1;
    }
    assert(blocks.take(14) =~= blocks);
    out.append("    }\n");
    out.append("}\n");
    assert(out@ =~= spec_theme_to_kdl(*theme));
    out
}


// ---------------------------------------------------------------------------
// The document a saved theme stands for
// ---------------------------------------------------------------------------

/// A node `key r g b` with no children.
pub open spec fn color_node(key: Seq<char>, c: RgbColor) -> KdlNodeModel {
    KdlNodeModel {
        name: key,
        entries: seq![Some(c.r as i64), Some(c.g as i64), Some(c.b as i64)],
        children: None,
    }
}

pub open spec fn color_nodes(entries: Seq<(Seq<char>, RgbColor)>) -> Seq<KdlNodeModel> {
    entries.map_values(|e: (Seq<char>, RgbColor)| color_node(e.0, e.1))
}

/// The block of one component as a node.
pub open spec fn component_node(ty: ThemeComponentType, c: ThemeComponent) -> KdlNodeModel {
    KdlNodeModel {
        name: ty.spec_key(),
        entries: Seq::empty(),
        children: Some(color_nodes(attribute_entries(c))),
    }
}

/// The nodes of the document that `theme_to_kdl` writes for `t`: a
/// `themes` node holding the theme's node, whose children are the palette
/// lines followed by the fourteen component blocks.
pub open spec fn theme_document(t: Theme) -> Seq<KdlNodeModel> {
    let theme_children = color_nodes(palette_entries(t)) + all_component_types().map_values(
        |ty: ThemeComponentType| component_node(ty, t.comp(ty)),
    );
    seq![
        KdlNodeModel {
            name: "themes"@,
            entries: Seq::empty(),
            children: Some(
                seq![KdlNodeModel { name: t.name@, entries: Seq::empty(), children: Some(theme_children) }],
            ),
        },
    ]
}

/// Each component key names its own component type.
pub proof fn lemma_key_names_type(ty: ThemeComponentType)
    ensures
        component_type_for_key(ty.spec_key()) == Some(ty),
{
    reveal_strlit("text_unselected");
    reveal_strlit("text_selected");
    reveal_strlit("ribbon_unselected");
    reveal_strlit("ribbon_selected");
    reveal_strlit("table_title");
    reveal_strlit("table_cell_unselected");
    reveal_strlit("table_cell_selected");
    reveal_strlit("list_unselected");
    reveal_strlit("list_selected");
    reveal_strlit("frame_unselected");
    reveal_strlit("frame_selected");
    reveal_strlit("frame_highlight");
    reveal_strlit("exit_code_success");
    reveal_strlit("exit_code_error");
    match ty {
        ThemeComponentType::TextUnselected => {
        },
        ThemeComponentType::TextSelected => {
            assert("text_selected"@.len() != "text_unselected"@.len());
        },
        ThemeComponentType::RibbonUnselected => {
            assert("ribbon_unselected"@.len() != "text_unselected"@.len());
            assert("ribbon_unselected"@.len() != "text_selected"@.len());
        },
        ThemeComponentType::RibbonSelected => {
            assert("ribbon_selected"@[0] != "text_unselected"@[0]);
            assert("ribbon_selected"@.len() != "text_selected"@.len());
            assert("ribbon_selected"@.len() != "ribbon_unselected"@.len());
        },
        ThemeComponentType::TableTitle => {
            assert("table_title"@.len() != "text_unselected"@.len());
            assert("table_title"@.len() != "text_selected"@.len());
            assert("table_title"@.len() != "ribbon_unselected"@.len());
            assert("table_title"@.len() != "ribbon_selected"@.len());
        },
        ThemeComponentType::TableCellUnselected => {
            assert("table_cell_unselected"@.len() != "text_unselected"@.len());
            assert("table_cell_unselected"@.len() != "text_selected"@.len());
            assert("table_cell_unselected"@.len() != "ribbon_unselected"@.len());
            assert("table_cell_unselected"@.len() != "ribbon_selected"@.len());
            assert("table_cell_unselected"@.len() != "table_title"@.len());
        },
        ThemeComponentType::TableCellSelected => {
            assert("table_cell_selected"@.len() != "text_unselected"@.len());
            assert("table_cell_selected"@.len() != "text_selected"@.len());
            assert("table_cell_selected"@.len() != "ribbon_unselected"@.len());
            assert("table_cell_selected"@.len() != "ribbon_selected"@.len());
            assert("table_cell_selected"@.len() != "table_title"@.len());
            assert("table_cell_selected"@.len() != "table_cell_unselected"@.len());
        },
        ThemeComponentType::ListUnselected => {
            assert("list_unselected"@[0] != "text_unselected"@[0]);
            assert("list_unselected"@.len() != "text_selected"@.len());
            assert("list_unselected"@.len() != "ribbon_unselected"@.len());
            assert("list_unselected"@[0] != "ribbon_selected"@[0]);
            assert("list_unselected"@.len() != "table_title"@.len());
            assert("list_unselected"@.len() != "table_cell_unselected"@.len());
            assert("list_unselected"@.len() != "table_cell_selected"@.len());
        },
        ThemeComponentType::ListSelected => {
            assert("list_selected"@.len() != "text_unselected"@.len());
            assert("list_selected"@[0] != "text_selected"@[0]);
            assert("list_selected"@.len() != "ribbon_unselected"@.len());
            assert("list_selected"@.len() != "ribbon_selected"@.len());
            assert("list_selected"@.len() != "table_title"@.len());
            assert("list_selected"@.len() != "table_cell_unselected"@.len());
            assert("list_selected"@.len() != "table_cell_selected"@.len());
            assert("list_selected"@.len() != "list_unselected"@.len());
        },
        ThemeComponentType::FrameUnselected => {
            assert("frame_unselected"@.len() != "text_unselected"@.len());
            assert("frame_unselected"@.len() != "text_selected"@.len());
            assert("frame_unselected"@.len() != "ribbon_unselected"@.len());
            assert("frame_unselected"@.len() != "ribbon_selected"@.len());
            assert("frame_unselected"@.len() != "table_title"@.len());
            assert("frame_unselected"@.len() != "table_cell_unselected"@.len());
            assert("frame_unselected"@.len() != "table_cell_selected"@.len());
            assert("frame_unselected"@.len() != "list_unselected"@.len());
            assert("frame_unselected"@.len() != "list_selected"@.len());
        },
        ThemeComponentType::FrameSelected => {
            assert("frame_selected"@.len() != "text_unselected"@.len());
            assert("frame_selected"@.len() != "text_selected"@.len());
            assert("frame_selected"@.len() != "ribbon_unselected"@.len());
            assert("frame_selected"@.len() != "ribbon_selected"@.len());
            assert("frame_selected"@.len() != "table_title"@.len());
            assert("frame_selected"@.len() != "table_cell_unselected"@.len());
            assert("frame_selected"@.len() != "table_cell_selected"@.len());
            assert("frame_selected"@.len() != "list_unselected"@.len());
            assert("frame_selected"@.len() != "list_selected"@.len());
            assert("frame_selected"@.len() != "frame_unselected"@.len());
        },
        ThemeComponentType::FrameHighlight => {
            assert("frame_highlight"@[0] != "text_unselected"@[0]);
            assert("frame_highlight"@.len() != "text_selected"@.len());
            assert("frame_highlight"@.len() != "ribbon_unselected"@.len());
            assert("frame_highlight"@[0] != "ribbon_selected"@[0]);
            assert("frame_highlight"@.len() != "table_title"@.len());
            assert("frame_highlight"@.len() != "table_cell_unselected"@.len());
            assert("frame_highlight"@.len() != "table_cell_selected"@.len());
            assert("frame_highlight"@[0] != "list_unselected"@[0]);
            assert("frame_highlight"@.len() != "list_selected"@.len());
            assert("frame_highlight"@.len() != "frame_unselected"@.len());
            assert("frame_highlight"@.len() != "frame_selected"@.len());
        },
        ThemeComponentType::ExitCodeSuccess => {
            assert("exit_code_success"@.len() != "text_unselected"@.len());
            assert("exit_code_success"@.len() != "text_selected"@.len());
            assert("exit_code_success"@[0] != "ribbon_unselected"@[0]);
            assert("exit_code_success"@.len() != "ribbon_selected"@.len());
            assert("exit_code_success"@.len() != "table_title"@.len());
            assert("exit_code_success"@.len() != "table_cell_unselected"@.len());
            assert("exit_code_success"@.len() != "table_cell_selected"@.len());
            assert("exit_code_success"@.len() != "list_unselected"@.len());
            assert("exit_code_success"@.len() != "list_selected"@.len());
            assert("exit_code_success"@.len() != "frame_unselected"@.len());
            assert("exit_code_success"@.len() != "frame_selected"@.len());
            assert("exit_code_success"@.len() != "frame_highlight"@.len());
        },
        ThemeComponentType::ExitCodeError => {
            assert("exit_code_error"@[0] != "text_unselected"@[0]);
            assert("exit_code_error"@.len() != "text_selected"@.len());
            assert("exit_code_error"@.len() != "ribbon_unselected"@.len());
            assert("exit_code_error"@[0] != "ribbon_selected"@[0]);
            assert("exit_code_error"@.len() != "table_title"@.len());
            assert("exit_code_error"@.len() != "table_cell_unselected"@.len());
            assert("exit_code_error"@.len() != "table_cell_selected"@.len());
            assert("exit_code_error"@[0] != "list_unselected"@[0]);
            assert("exit_code_error"@.len() != "list_selected"@.len());
            assert("exit_code_error"@.len() != "frame_unselected"@.len());
            assert("exit_code_error"@.len() != "frame_selected"@.len());
            assert("exit_code_error"@[0] != "frame_highlight"@[0]);
            assert("exit_code_error"@.len() != "exit_code_success"@.len());
        },
    }
}


/// Keys shorter than every component key name no component.
proof fn lemma_short_key_not_component(key: Seq<char>)
    requires
        key.len() < 11,
    ensures
        component_type_for_key(key) is None,
{
    reveal_strlit("text_unselected");
    reveal_strlit("text_selected");
    reveal_strlit("ribbon_unselected");
    reveal_strlit("ribbon_selected");
    reveal_strlit("table_title");
    reveal_strlit("table_cell_unselected");
    reveal_strlit("table_cell_selected");
    reveal_strlit("list_unselected");
    reveal_strlit("list_selected");
    reveal_strlit("frame_unselected");
    reveal_strlit("frame_selected");
    reveal_strlit("frame_highlight");
    reveal_strlit("exit_code_success");
    reveal_strlit("exit_code_error");
}

/// No palette key is a component key.
proof fn lemma_palette_keys_not_components(t: Theme)
    ensures
        forall|i: int|
            0 <= i < 11 ==> (#[trigger] component_type_for_key(palette_entries(t)[i].0)) is None,
{
    reveal_strlit("fg");
    reveal_strlit("bg");
    reveal_strlit("black");
    reveal_strlit("red");
    reveal_strlit("green");
    reveal_strlit("yellow");
    reveal_strlit("blue");
    reveal_strlit("magenta");
    reveal_strlit("cyan");
    reveal_strlit("white");
    reveal_strlit("orange");
    assert forall|i: int| 0 <= i < 11 implies (#[trigger] component_type_for_key(
        palette_entries(t)[i].0,
    )) is None by {
        lemma_short_key_not_component(palette_entries(t)[i].0);
    }
}

/// Reading back a component block gives the component that was written.
proof fn lemma_component_node_round_trip(ty: ThemeComponentType, c: ThemeComponent)
    ensures
        spec_parse_component(component_node(ty, c)) == c,
{
    reveal_strlit("base");
    reveal_strlit("background");
    reveal_strlit("emphasis_0");
    reveal_strlit("emphasis_1");
    reveal_strlit("emphasis_2");
    reveal_strlit("emphasis_3");
    let lines = color_nodes(attribute_entries(c));
    assert(children_of(component_node(ty, c)) == lines);
    assert(lines.len() == 6);
    assert("background"@[0] != "emphasis_0"@[0]);
    assert("background"@[0] != "emphasis_1"@[0]);
    assert("background"@[0] != "emphasis_2"@[0]);
    assert("emphasis_0"@[9] != "emphasis_1"@[9]);
    assert("emphasis_0"@[9] != "emphasis_2"@[9]);
    assert("emphasis_0"@[9] != "emphasis_3"@[9]);
    assert("emphasis_1"@[9] != "emphasis_2"@[9]);
    assert("emphasis_1"@[9] != "emphasis_3"@[9]);
    assert("emphasis_2"@[9] != "emphasis_3"@[9]);
    assert("background"@[0] != "emphasis_3"@[0]);
    assert("base"@.len() != "background"@.len());
    assert("base"@.len() != "emphasis_0"@.len());
    assert("base"@.len() != "emphasis_1"@.len());
    assert("base"@.len() != "emphasis_2"@.len());
    assert("base"@.len() != "emphasis_3"@.len());
    assert(lines[0] == color_node("base"@, c.base));
    assert(lines[1] == color_node("background"@, c.background));
    assert(lines[2] == color_node("emphasis_0"@, c.emphasis_0));
    assert(lines[3] == color_node("emphasis_1"@, c.emphasis_1));
    assert(lines[4] == color_node("emphasis_2"@, c.emphasis_2));
    assert(lines[5] == color_node("emphasis_3"@, c.emphasis_3));
    assert(entry_color(lines[0].entries) == c.base);
    assert(entry_color(lines[1].entries) == c.background);
    assert(entry_color(lines[2].entries) == c.emphasis_0);
    assert(entry_color(lines[3].entries) == c.emphasis_1);
    assert(entry_color(lines[4].entries) == c.emphasis_2);
    assert(entry_color(lines[5].entries) == c.emphasis_3);
    assert(component_after(lines, 0) == black_component());
    let c1 = component_after(lines, 1);
    assert(c1 == ThemeComponent { base: c.base, ..black_component() });
    let c2 = component_after(lines, 2);
    assert(c2 == ThemeComponent { background: c.background, ..c1 });
    let c3 = component_after(lines, 3);
    assert(c3 == ThemeComponent { emphasis_0: c.emphasis_0, ..c2 });
    let c4 = component_after(lines, 4);
    assert(c4 == ThemeComponent { emphasis_1: c.emphasis_1, ..c3 });
    let c5 = component_after(lines, 5);
    assert(c5 == ThemeComponent { emphasis_2: c.emphasis_2, ..c4 });
    let c6 = component_after(lines, 6);
    assert(c6 == ThemeComponent { emphasis_3: c.emphasis_3, ..c5 });
}

proof fn lemma_palette_prefix(t: Theme, ch: Seq<KdlNodeModel>, k: int)
    requires
        0 <= k <= 11,
        ch == color_nodes(palette_entries(t)) + all_component_types().map_values(
            |ty: ThemeComponentType| component_node(ty, t.comp(ty)),
        ),
        forall|i: int|
            0 <= i < 11 ==> (#[trigger] component_type_for_key(palette_entries(t)[i].0)) is None,
    ensures
        components_after(ch, k as nat) == default_components(),
    decreases k,
{
    if k > 0 {
        lemma_palette_prefix(t, ch, k - 1);
        assert(ch[k - 1].name == palette_entries(t)[k - 1].0);
    }
}

proof fn lemma_blocks_prefix(t: Theme, ch: Seq<KdlNodeModel>, m: int)
    requires
        0 <= m <= 14,
        ch == color_nodes(palette_entries(t)) + all_component_types().map_values(
            |ty: ThemeComponentType| component_node(ty, t.comp(ty)),
        ),
        forall|i: int|
            0 <= i < 11 ==> (#[trigger] component_type_for_key(palette_entries(t)[i].0)) is None,
    ensures
        components_after(ch, (11 + m) as nat) == t.components().take(m) + default_components().skip(m),
    decreases m,
{
    if m == 0 {
        lemma_palette_prefix(t, ch, 11);
        assert(t.components().take(0) + default_components().skip(0) =~= default_components());
    } else {
        lemma_blocks_prefix(t, ch, m - 1);
        let ty = all_component_types()[m - 1];
        lemma_component_index(ty);
        lemma_key_names_type(ty);
        lemma_component_node_round_trip(ty, t.comp(ty));
        lemma_components_index(t, ty);
        assert(ch[11 + m - 1] == component_node(ty, t.comp(ty)));
        let prev = t.components().take(m - 1) + default_components().skip(m - 1);
        let next = t.components().take(m) + default_components().skip(m);
        assert(prev.update(m - 1, t.comp(ty)) =~= next);
    }
}

/// The theme document of `t`, read back as theme `t.name`, gives the
/// components of `t`: saving a theme and loading it again loses nothing.
pub proof fn lemma_theme_document_round_trip(t: Theme)
    ensures
        spec_theme_from_nodes(theme_document(t), t.name@) == Some(t.components()),
{
    let doc = theme_document(t);
    let themes = doc[0];
    assert(find_node(doc, "themes"@) == Some(themes));
    let tn = children_of(themes)[0];
    assert(find_node(children_of(themes), t.name@) == Some(tn));
    assert(theme_node(doc, t.name@) == Some(tn));
    let pal = color_nodes(palette_entries(t));
    let blocks = all_component_types().map_values(
        |ty: ThemeComponentType| component_node(ty, t.comp(ty)),
    );
    let ch = children_of(tn);
    assert(ch == pal + blocks);
    assert(ch.len() == 25);
    lemma_key_names_type(ThemeComponentType::TextUnselected);
    assert(ch[11] == blocks[0]);
    assert(component_type_for_key(ch[11].name) is Some);
    assert(has_component_node(ch));
    lemma_palette_keys_not_components(t);
    lemma_palette_prefix(t, ch, 11);
    lemma_blocks_prefix(t, ch, 14);
    assert(t.components().take(14) + default_components().skip(14) =~= t.components());
}


// ---------------------------------------------------------------------------
// Paths
// ---------------------------------------------------------------------------

/// `PathBuf::join` on Unix paths: an absolute `part` replaces `base`;
/// otherwise `part` is appended after a `/` (none is added after a base
/// that is empty or already ends in `/`).
pub open spec fn spec_path_join(base: Seq<char>, part: Seq<char>) -> Seq<char> {
    if part.len() > 0 && part[0] == '/' {
        part
    } else if base.len() == 0 || base.last() == '/' {
        base + part
    } else {
        base + "/"@ + part
    }
}

pub fn path_join(base: &str, part: &str) -> (res: String)
    ensures
        res@ == spec_path_join(base@, part@),
{
    let b = chars_of(base);
    let p = chars_of(part);
    if p.len() > 0 && p[0] == '/' {
        String::from_str(part)
    } else if b.len() == 0 || b[b.len() - 1] == '/' {
        String::from_str(base).concat(part)
    } else {
        String::from_str(base).concat("/").concat(part)
    }
}

/// Where themes and the Zellij configuration live.
pub struct ConfigManager {
    config_dir: String,
    themes_dir: String,
}

/// The Zellij configuration directory under the user's configuration
/// directory (`.` when there is none).
pub open spec fn spec_config_dir(base: Option<Seq<char>>) -> Seq<char> {
    let root = match base {
        Some(b) => b,
        None => "."@,
    };
    spec_path_join(root, "zellij"@)
}

/// `dirs::config_dir`, as text (`to_string_lossy`). It reads the
/// environment, so nothing is stated of the result.
#[verifier::external_body]
fn user_config_dir() -> Option<String> {
    dirs::config_dir().map(|p| p.to_string_lossy().to_string())
}

impl ConfigManager {
    pub closed spec fn spec_config_dir_of(&self) -> Seq<char> {
        self.config_dir@
    }

    pub closed spec fn spec_themes_dir_of(&self) -> Seq<char> {
        self.themes_dir@
    }

    /// The manager for the user's configuration directory.
    pub fn new() -> (res: Self)
        ensures
            exists|base: Option<Seq<char>>|
                res.spec_config_dir_of() == spec_config_dir(base) && res.spec_themes_dir_of()
                    == spec_path_join(spec_config_dir(base), "themes"@),
    {
        let base = user_config_dir();
        let ghost b: Option<Seq<char>> = match &base {
            Some(s) => Some(s@),
            None => None,
        };
        let res = Self::from_config_base(base);
        assert(res.spec_config_dir_of() == spec_config_dir(b));
        res
    }

    /// The manager for `<base>/zellij`, or `./zellij` when there is no base.
    pub fn from_config_base(base: Option<String>) -> (res: Self)
        ensures
            res.spec_config_dir_of() == spec_config_dir(
                match base {
                    Some(s) => Some(s@),
                    None => None,
                },
            ),
            res.spec_themes_dir_of() == spec_path_join(res.spec_config_dir_of(), "themes"@),
    {
        let root = match base {
            Some(b) => b,
            None => String::from_str("."),
        };
        let config_dir = path_join(root.as_str(), "zellij");
        let themes_dir = path_join(config_dir.as_str(), "themes");
        ConfigManager { config_dir, themes_dir }
    }

    pub fn config_dir(&self) -> (res: &str)
        ensures
            res@ == self.spec_config_dir_of(),
    {
        self.config_dir.as_str()
    }

    pub fn themes_dir(&self) -> (res: &str)
        ensures
            res@ == self.spec_themes_dir_of(),
    {
        self.themes_dir.as_str()
    }

    /// The file of theme `name`: `<themes dir>/<name>.kdl`.
    pub fn theme_path(&self, name: &str) -> (res: String)
        ensures
            res@ == spec_path_join(self.spec_themes_dir_of(), name@ + ".kdl"@),
    {
        let file = String::from_str(name).concat(".kdl");
        path_join(self.themes_dir.as_str(), file.as_str())
    }

    /// The Zellij configuration file: `<config dir>/config.kdl`.
    pub fn config_path(&self) -> (res: String)
        ensures
            res@ == spec_path_join(self.spec_config_dir_of(), "config.kdl"@),
    {
        path_join(self.config_dir.as_str(), "config.kdl")
    }
}

impl Default for ConfigManager {
    fn default() -> (res: Self)
        ensures
            exists|base: Option<Seq<char>>|
                res.spec_config_dir_of() == spec_config_dir(base) && res.spec_themes_dir_of()
                    == spec_path_join(spec_config_dir(base), "themes"@),
    {
        Self::new()
    }
}

/// Index of the last `c` in `s`.
pub open spec fn last_index(s: Seq<char>, c: char) -> Option<int>
    decreases s.len(),
{
    if s.len() == 0 {
        None
    } else if s.last() == c {
        Some(s.len() - 1)
    } else {
        last_index(s.drop_last(), c)
    }
}

/// The theme a directory entry holds: for a file name with the extension
/// `kdl`, its stem (`Path::extension` and `Path::file_stem`: the extension
/// follows the last dot, which must not be the first character).
pub open spec fn spec_theme_name_of_file(file: Seq<char>) -> Option<Seq<char>> {
    match last_index(file, '.') {
        Some(i) => if i > 0 && file.skip(i + 1) == "kdl"@ {
            Some(file.take(i))
        } else {
            None
        },
        None => None,
    }
}

/// The theme name of a file in the themes directory, when it is a `.kdl` file.
pub fn theme_name_of_file(file: &str) -> (res: Option<String>)
    ensures
        match spec_theme_name_of_file(file@) {
            Some(n) => res matches Some(r) && r@ == n,
            None => res is None,
        },
{
    let cs = chars_of(file);
    let mut i = cs.len();
    assert(cs@.take(i as int) =~= cs@);
    while i > 0 && cs[i - 1] != '.'
        invariant
            i <= cs@.len(),
            cs@ == file@,
            last_index(cs@, '.') == last_index(cs@.take(i as int), '.'),
        decreases i,
    {
        assert(cs@.take(i as int).drop_last() =~= cs@.take(i - 1));
        i = i - 1;
    }
    if i <= 1 {
        if i == 1 {
            assert(cs@.take(1).last() == '.');
        } else {
            assert(cs@.take(0).len() == 0);
        }
        return None;
    }
    let dot = i - 1;
    assert(last_index(cs@, '.') == Some(dot as int));
    let mut ext: Vec<char> = Vec::new();
    let mut k = dot + 1;
    while k < cs.len()
        invariant
            dot + 1 <= k <= cs@.len(),
            ext@ == cs@.subrange(dot + 1, k as int),
        decreases cs@.len() - k,
    {
        ext.push(cs[k]);
        k = k + 1;
    }
    assert(ext@ =~= cs@.skip(dot + 1));
    let ext_s = crate::text::string_of(&ext);
    if !str_eq(ext_s.as_str(), "kdl") {
        return None;
    }
    let mut stem: Vec<char> = Vec::new();
    let mut m: usize = 0;
    while m < dot
        invariant
            m <= dot < cs@.len(),
            stem@ == cs@.take(m as int),
        decreases dot - m,
    {
        stem.push(cs[m]);
        assert(cs@.take(m + 1) =~= cs@.take(m as int).push(cs@[m as int]));
        m = m + 1;
    }
    Some(crate::text::string_of(&stem))
}


// ---------------------------------------------------------------------------
// Selecting the theme in config.kdl
// ---------------------------------------------------------------------------

/// A line without the `\r` of a `\r\n` ending.
pub open spec fn strip_cr(l: Seq<char>) -> Seq<char> {
    if l.len() > 0 && l.last() == '\r' {
        l.drop_last()
    } else {
        l
    }
}

/// The lines of `s` after the partial line `cur`, as `str::lines` splits them.
pub open spec fn lines_from(s: Seq<char>, cur: Seq<char>) -> Seq<Seq<char>>
    decreases s.len(),
{
    if s.len() == 0 {
        if cur.len() == 0 {
            Seq::empty()
        } else {
            seq![cur]
        }
    } else if s[0] == '\n' {
        seq![strip_cr(cur)] + lines_from(s.drop_first(), Seq::empty())
    } else {
        lines_from(s.drop_first(), cur.push(s[0]))
    }
}

/// `str::lines`: split at `\n` (dropping a `\r` just before it), with no
/// empty line after a final line ending.
pub open spec fn spec_lines(s: Seq<char>) -> Seq<Seq<char>> {
    lines_from(s, Seq::empty())
}

/// `s` without its leading whitespace (`str::trim_start`).
pub open spec fn trim_start_ws(s: Seq<char>) -> Seq<char>
    decreases s.len(),
{
    if s.len() > 0 && is_unicode_space(s[0]) {
        trim_start_ws(s.drop_first())
    } else {
        s
    }
}

/// `s` without its trailing whitespace (`str::trim_end`).
pub open spec fn trim_end_ws(s: Seq<char>) -> Seq<char>
    decreases s.len(),
{
    if s.len() > 0 && is_unicode_space(s.last()) {
        trim_end_ws(s.drop_last())
    } else {
        s
    }
}

pub open spec fn starts_with(s: Seq<char>, p: Seq<char>) -> bool {
    s.len() >= p.len() && s.take(p.len() as int) == p
}

/// A line that selects a theme: after its indentation it starts with `theme `.
pub open spec fn is_theme_line(l: Seq<char>) -> bool {
    starts_with(trim_start_ws(l), "theme "@)
}

/// The line that selects theme `name`.
pub open spec fn theme_line(name: Seq<char>) -> Seq<char> {
    "theme \""@ + name + "\""@
}

/// The configuration text after selecting theme `name`: every line that
/// selects a theme is replaced by the new one and each line ends with a
/// newline; with no such line, the new line is appended after the text
/// with its trailing whitespace removed (or stands alone in an empty file).
pub open spec fn spec_config_with_theme(existing: Seq<char>, name: Seq<char>) -> Seq<char> {
    let ls = spec_lines(existing);
    if exists|i: int| 0 <= i < ls.len() && is_theme_line(#[trigger] ls[i]) {
        concat_all(
            ls.map_values(
                |l: Seq<char>|
                    if is_theme_line(l) {
                        theme_line(name)
                    } else {
                        l
                    } + "\n"@,
            ),
        )
    } else if existing.len() == 0 {
        theme_line(name) + "\n"@
    } else {
        trim_end_ws(existing) + "\n"@ + theme_line(name) + "\n"@
    }
}

fn strip_cr_exec(l: &mut Vec<char>)
    ensures
        final(l)@ == strip_cr(old(l)@),
{
    if l.len() > 0 && l[l.len() - 1] == '\r' {
        l.pop();
    }
}

/// The lines of `cs`, as `str::lines` splits them.
fn split_lines(cs: &Vec<char>) -> (res: Vec<Vec<char>>)
    ensures
        res@.len() == spec_lines(cs@).len(),
        forall|i: int| 0 <= i < res@.len() ==> (#[trigger] res@[i])@ == spec_lines(cs@)[i],
{
    let mut done: Vec<Vec<char>> = Vec::new();
    let mut cur: Vec<char> = Vec::new();
    let ghost done_v: Seq<Seq<char>> = Seq::empty();
    let mut i: usize = 0;
    assert(cs@.skip(0) =~= cs@);
    while i < cs.len()
        invariant
            i <= cs@.len(),
            done@.len() == done_v.len(),
            forall|k: int| 0 <= k < done@.len() ==> (#[trigger] done@[k])@ == done_v[k],
            spec_lines(cs@) == done_v + lines_from(cs@.skip(i as int), cur@),
        decreases cs@.len() - i,
    {
        assert(cs@.skip(i as int).drop_first() =~= cs@.skip(i + 1));
        assert(cs@.skip(i as int)[0] == cs@[i as int]);
        if cs[i] == '\n' {
            strip_cr_exec(&mut cur);
            proof {
                done_v = done_v.push(cur@);
                assert(done_v.drop_last() + seq![cur@] =~= done_v);
            }
            done.push(cur);
            cur = Vec::new();
            assert(cur@ =~= Seq::<char>::empty());
        } else {
            cur.push(cs[i]);
        }
        i = i + 1;
    }
    assert(cs@.skip(i as int).len() == 0);
    if cur.len() > 0 {
        proof {
            done_v = done_v.push(cur@);
        }
        done.push(cur);
    }
    assert(spec_lines(cs@) =~= done_v);
    done
}

pub fn trim_start_chars(l: &Vec<char>) -> (res: Vec<char>)
    ensures
        res@ == trim_start_ws(l@),
{
    let mut i: usize = 0;
    assert(l@.skip(0) =~= l@);
    while i < l.len() && char_is_unicode_space(l[i])
        invariant
            i <= l@.len(),
            trim_start_ws(l@) == trim_start_ws(l@.skip(i as int)),
        decreases l@.len() - i,
    {
        assert(l@.skip(i as int).drop_first() =~= l@.skip(i + 1));
        i = i + 1;
    }
    let mut res: Vec<char> = Vec::new();
    let mut k = i;
    while k < l.len()
        invariant
            i <= k <= l@.len(),
            res@ == l@.subrange(i as int, k as int),
        decreases l@.len() - k,
    {
        res.push(l[k]);
        k = k + 1;
    }
    assert(res@ =~= l@.skip(i as int));
    res
}

fn line_is_theme_line(l: &Vec<char>) -> (res: bool)
    ensures
        res == is_theme_line(l@),
{
    let t = trim_start_chars(l);
    let p = chars_of("theme ");
    if t.len() < p.len() {
        return false;
    }
    let mut k: usize = 0;
    while k < p.len()
        invariant
            p@ == "theme "@,
            p@.len() <= t@.len(),
            t@ == trim_start_ws(l@),
            k <= p@.len(),
            forall|j: int| 0 <= j < k ==> t@[j] == p@[j],
        decreases p@.len() - k,
    {
        if t[k] != p[k] {
            assert(t@.take(p@.len() as int)[k as int] != p@[k as int]);
            return false;
        }
        k = k + 1;
    }
    assert(t@.take(p@.len() as int) =~= p@);
    true
}

fn append_chars(out: &mut String, cs: &Vec<char>)
    ensures
        final(out)@ == old(out)@ + cs@,
{
    let mut i: usize = 0;
    let ghost start = out@;
    while i < cs.len()
        invariant
            i <= cs@.len(),
            out@ == start + cs@.take(i as int),
        decreases cs@.len() - i,
    {
        push_char(out, cs[i]);
        assert(cs@.take(i + 1) =~= cs@.take(i as int).push(cs@[i as int]));
        i = i + 1;
    }
    assert(cs@.take(cs@.len() as int) =~= cs@);
}

pub fn trim_end_chars(cs: &Vec<char>) -> (res: Vec<char>)
    ensures
        res@ == trim_end_ws(cs@),
{
    let mut n = cs.len();
    assert(cs@.take(n as int) =~= cs@);
    while n > 0 && char_is_unicode_space(cs[n - 1])
        invariant
            n <= cs@.len(),
            trim_end_ws(cs@) == trim_end_ws(cs@.take(n as int)),
        decreases n,
    {
        assert(cs@.take(n as int).drop_last() =~= cs@.take(n - 1));
        n = n - 1;
    }
    let mut res: Vec<char> = Vec::new();
    let mut k: usize = 0;
    while k < n
        invariant
            k <= n <= cs@.len(),
            res@ == cs@.take(k as int),
        decreases n - k,
    {
        res.push(cs[k]);
        assert(cs@.take(k + 1) =~= cs@.take(k as int).push(cs@[k as int]));
        k = k + 1;
    }
    res
}

/// The Zellij configuration text after selecting theme `name` (the edit
/// that applying a theme makes to `config.kdl`).
pub fn config_with_theme(existing: &str, name: &str) -> (res: String)
    ensures
        res@ == spec_config_with_theme(existing@, name@),
{
    let line = String::from_str("theme \"").concat(name).concat("\"");
    assert(line@ == theme_line(name@));
    let cs = chars_of(existing);
    let lines = split_lines(&cs);
    let ghost ls = spec_lines(existing@);
    let mut any = false;
    let mut i: usize = 0;
    while i < lines.len()
        invariant
            cs@ == existing@,
            ls == spec_lines(existing@),
            lines@.len() == ls.len(),
            forall|k: int| 0 <= k < lines@.len() ==> (#[trigger] lines@[k])@ == ls[k],
            i <= lines@.len(),
            any == exists|k: int| 0 <= k < i && is_theme_line(#[trigger] ls[k]),
        decreases lines@.len() - i,
    {
        let t = line_is_theme_line(&lines[i]);
        assert(lines@[i as int]@ == ls[i as int]);
        if t {
            any = true;
        }
        i = i + 1;
    }
    if any {
        let ghost parts = ls.map_values(
            |l: Seq<char>|
                if is_theme_line(l) {
                    theme_line(name@)
                } else {
                    l
                } + "\n"@,
        );
        let mut out = String::new();
        let mut j: usize = 0;
        assert(parts.take(0) =~= Seq::<Seq<char>>::empty());
        while j < lines.len()
            invariant
                line@ == theme_line(name@),
                ls == spec_lines(existing@),
                lines@.len() == ls.len(),
                forall|k: int| 0 <= k < lines@.len() ==> (#[trigger] lines@[k])@ == ls[k],
                parts == ls.map_values(
                    |l: Seq<char>|
                        if is_theme_line(l) {
                            theme_line(name@)
                        } else {
                            l
                        } + "\n"@,
                ),
                j <= lines@.len(),
                out@ == concat_all(parts.take(j as int)),
            decreases lines@.len() - j,
        {
            assert(lines@[j as int]@ == ls[j as int]);
            if line_is_theme_line(&lines[j]) {
                out.append(line.as_str());
            } else {
                append_chars(&mut out, &lines[j]);
            }
            out.append("\n");
            proof {
                lemma_concat_push(parts, j as int);
            }
            j = j + 1;
        }
        assert(parts.take(lines@.len() as int) =~= parts);
        out
    } else if cs.len() == 0 {
        line.concat("\n")
    } else {
        let trimmed = trim_end_chars(&cs);
        let mut out = String::new();
        append_chars(&mut out, &trimmed);
        out.append("\n");
        out.append(line.as_str());
        out.append("\n");
        assert(out@ =~= spec_config_with_theme(existing@, name@));
        out
    }
}


/// `p` is a prefix of `s`.
pub open spec fn is_prefix(p: Seq<char>, s: Seq<char>) -> bool {
    p.len() <= s.len() && s.take(p.len() as int) == p
}

proof fn lemma_prefix_trans(a: Seq<char>, b: Seq<char>, c: Seq<char>)
    requires
        is_prefix(a, b),
        is_prefix(b, c),
    ensures
        is_prefix(a, c),
{
    assert(c.take(a.len() as int) =~= c.take(b.len() as int).take(a.len() as int));
}

/// Trimming the indentation of a prefix gives a prefix of the trimmed line.
proof fn lemma_trim_start_prefix(p: Seq<char>, l: Seq<char>)
    requires
        is_prefix(p, l),
    ensures
        is_prefix(trim_start_ws(p), trim_start_ws(l)),
    decreases l.len(),
{
    if p.len() == 0 {
        assert(trim_start_ws(p) =~= Seq::<char>::empty());
        assert(trim_start_ws(l).take(0) =~= Seq::<char>::empty());
    } else {
        assert(p[0] == l[0]);
        if is_unicode_space(l[0]) {
            assert(p.drop_first() =~= l.drop_first().take(p.len() - 1));
            lemma_trim_start_prefix(p.drop_first(), l.drop_first());
            assert(trim_start_ws(p) == trim_start_ws(p.drop_first()));
            assert(trim_start_ws(l) == trim_start_ws(l.drop_first()));
        } else {
            assert(trim_start_ws(p) == p);
            assert(trim_start_ws(l) == l);
        }
    }
}

/// A prefix of a line that selects no theme selects none either.
proof fn lemma_not_theme_prefix(p: Seq<char>, l: Seq<char>)
    requires
        is_prefix(p, l),
        !is_theme_line(l),
    ensures
        !is_theme_line(p),
{
    reveal_strlit("theme ");
    lemma_trim_start_prefix(p, l);
    let tp = trim_start_ws(p);
    let tl = trim_start_ws(l);
    if starts_with(tp, "theme "@) {
        assert(tl.take(tp.len() as int) == tp);
        assert(tl.take(6) =~= tl.take(tp.len() as int).take(6));
        assert(tl.take(6) =~= tp.take(6));
    }
}

proof fn lemma_strip_cr_prefix(l: Seq<char>)
    ensures
        is_prefix(strip_cr(l), l),
{
    assert(l.take(strip_cr(l).len() as int) =~= strip_cr(l));
}

/// No line holds a line break.
proof fn lemma_lines_no_newline(s: Seq<char>, cur: Seq<char>)
    requires
        !cur.contains('\n'),
    ensures
        forall|i: int| 0 <= i < lines_from(s, cur).len() ==> !(#[trigger] lines_from(s, cur)[i]).contains('\n'),
    decreases s.len(),
{
    if s.len() == 0 {
        if cur.len() > 0 {
            assert(lines_from(s, cur) =~= seq![cur]);
            assert(lines_from(s, cur)[0] == cur);
        }
    } else if s[0] == '\n' {
        lemma_lines_no_newline(s.drop_first(), Seq::empty());
        let first = strip_cr(cur);
        assert forall|j: int| 0 <= j < first.len() implies first[j] != '\n' by {
            assert(first[j] == cur[j]);
        }
        let rest = lines_from(s.drop_first(), Seq::empty());
        assert forall|i: int| 0 <= i < lines_from(s, cur).len() implies !(#[trigger] lines_from(s, cur)[i]).contains('\n') by {
            if i > 0 {
                assert(lines_from(s, cur)[i] == rest[i - 1]);
            } else {
                assert(lines_from(s, cur)[0] == first);
            }
        }
    } else {
        let c2 = cur.push(s[0]);
        assert(lines_from(s, cur) == lines_from(s.drop_first(), c2));
        assert forall|j: int| 0 <= j < c2.len() implies c2[j] != '\n' by {
            if j < cur.len() {
                assert(c2[j] == cur[j]);
            }
        }
        lemma_lines_no_newline(s.drop_first(), c2);
    }
}

/// A text line followed by a line ending: it is split off as one line.
proof fn lemma_lines_one_line(x: Seq<char>, rest: Seq<char>, cur: Seq<char>)
    requires
        !x.contains('\n'),
    ensures
        lines_from(x + "\n"@ + rest, cur) == seq![strip_cr(cur + x)] + lines_from(rest, Seq::empty()),
    decreases x.len(),
{
    reveal_strlit("\n");
    let s = x + "\n"@ + rest;
    if x.len() == 0 {
        assert(s[0] == '\n');
        assert(s.drop_first() =~= rest);
        assert(cur + x =~= cur);
    } else {
        assert(s[0] == x[0]);
        assert(s.drop_first() =~= x.drop_first() + "\n"@ + rest);
        assert forall|j: int| 0 <= j < x.drop_first().len() implies x.drop_first()[j] != '\n' by {
            assert(x.drop_first()[j] == x[j + 1]);
        }
        lemma_lines_one_line(x.drop_first(), rest, cur.push(x[0]));
        assert(cur.push(x[0]) + x.drop_first() =~= cur + x);
    }
}

/// Text cut after a line ending splits into its lines and those of the rest.
proof fn lemma_lines_split(a: Seq<char>, b: Seq<char>, cur: Seq<char>)
    requires
        a.len() > 0,
        a.last() == '\n',
    ensures
        lines_from(a + b, cur) == lines_from(a, cur) + lines_from(b, Seq::empty()),
    decreases a.len(),
{
    let s = a + b;
    assert(s[0] == a[0]);
    assert(s.drop_first() =~= a.drop_first() + b);
    if a[0] == '\n' {
        if a.len() == 1 {
            assert(a.drop_first() =~= Seq::<char>::empty());
            assert(a.drop_first() + b =~= b);
            assert(lines_from(a.drop_first(), Seq::empty()) =~= Seq::<Seq<char>>::empty());
            assert(lines_from(a, cur) =~= seq![strip_cr(cur)]);
        } else {
            lemma_lines_split(a.drop_first(), b, Seq::empty());
        }
    } else {
        lemma_lines_split(a.drop_first(), b, cur.push(a[0]));
    }
}

/// Lines each followed by a line ending, put together.
pub open spec fn joined(ys: Seq<Seq<char>>) -> Seq<char> {
    concat_all(ys.map_values(|y: Seq<char>| y + "\n"@))
}

proof fn lemma_concat_front(parts: Seq<Seq<char>>)
    requires
        parts.len() > 0,
    ensures
        concat_all(parts) == parts[0] + concat_all(parts.drop_first()),
    decreases parts.len(),
{
    if parts.len() == 1 {
        assert(parts.drop_last() =~= Seq::<Seq<char>>::empty());
        assert(parts.drop_first() =~= Seq::<Seq<char>>::empty());
        assert(concat_all(parts.drop_last()) =~= Seq::<char>::empty());
        assert(concat_all(parts.drop_first()) =~= Seq::<char>::empty());
        assert(concat_all(parts) =~= parts[0]);
    } else {
        lemma_concat_front(parts.drop_last());
        assert(parts.drop_last().drop_first() =~= parts.drop_first().drop_last());
        assert(parts.drop_first().last() == parts.last());
    }
}

/// Splitting lines put together gives them back, less a trailing `\r`.
proof fn lemma_lines_of_joined(ys: Seq<Seq<char>>)
    requires
        forall|i: int| 0 <= i < ys.len() ==> !(#[trigger] ys[i]).contains('\n'),
    ensures
        spec_lines(joined(ys)) == ys.map_values(|y: Seq<char>| strip_cr(y)),
    decreases ys.len(),
{
    reveal_strlit("\n");
    let parts = ys.map_values(|y: Seq<char>| y + "\n"@);
    if ys.len() == 0 {
        assert(joined(ys) =~= Seq::<char>::empty());
        assert(spec_lines(joined(ys)) =~= ys.map_values(|y: Seq<char>| strip_cr(y)));
    } else {
        lemma_concat_front(parts);
        let tail = ys.drop_first();
        assert(parts.drop_first() =~= tail.map_values(|y: Seq<char>| y + "\n"@));
        assert forall|i: int| 0 <= i < tail.len() implies !(#[trigger] tail[i]).contains('\n') by {
            assert(tail[i] == ys[i + 1]);
        }
        lemma_lines_of_joined(tail);
        assert(joined(ys) == ys[0] + "\n"@ + joined(tail));
        lemma_lines_one_line(ys[0], joined(tail), Seq::empty());
        assert(Seq::<char>::empty() + ys[0] =~= ys[0]);
        assert(spec_lines(joined(ys)) =~= ys.map_values(|y: Seq<char>| strip_cr(y)));
    }
}

/// The first line starts with the partial line before it.
proof fn lemma_first_line_prefix(s: Seq<char>, cur: Seq<char>)
    ensures
        lines_from(s, cur).len() == 0 ==> cur.len() == 0,
        lines_from(s, cur).len() > 0 ==> is_prefix(strip_cr(cur), lines_from(s, cur)[0]),
    decreases s.len(),
{
    lemma_strip_cr_prefix(cur);
    if s.len() == 0 {
    } else if s[0] == '\n' {
        assert(lines_from(s, cur)[0] == strip_cr(cur));
        assert(strip_cr(cur).take(strip_cr(cur).len() as int) =~= strip_cr(cur));
    } else {
        let c2 = cur.push(s[0]);
        lemma_first_line_prefix(s.drop_first(), c2);
        lemma_strip_cr_prefix(c2);
        assert(is_prefix(cur, strip_cr(c2))) by {
            assert(strip_cr(c2).take(cur.len() as int) =~= cur);
        }
        lemma_prefix_trans(strip_cr(cur), cur, strip_cr(c2));
        lemma_prefix_trans(strip_cr(cur), strip_cr(c2), lines_from(s, cur)[0]);
    }
}

/// Cutting the text short and ending the line there creates no line that
/// selects a theme when the whole text has none.
proof fn lemma_cut_lines_no_theme(s: Seq<char>, cur: Seq<char>, k: int)
    requires
        0 <= k <= s.len(),
        forall|i: int| 0 <= i < lines_from(s, cur).len() ==> !is_theme_line(#[trigger] lines_from(s, cur)[i]),
    ensures
        forall|i: int|
            0 <= i < lines_from(s.take(k) + "\n"@, cur).len() ==> !is_theme_line(
                #[trigger] lines_from(s.take(k) + "\n"@, cur)[i],
            ),
    decreases s.len(),
{
    reveal_strlit("\n");
    reveal_strlit("theme ");
    let t = s.take(k) + "\n"@;
    if k == 0 {
        assert(t =~= "\n"@);
        assert(t.drop_first() =~= Seq::<char>::empty());
        assert(t[0] == '\n');
        assert(lines_from(Seq::<char>::empty(), Seq::<char>::empty()) =~= Seq::<Seq<char>>::empty());
        assert(lines_from(t, cur) =~= seq![strip_cr(cur)]);
        lemma_first_line_prefix(s, cur);
        if lines_from(s, cur).len() > 0 {
            lemma_not_theme_prefix(strip_cr(cur), lines_from(s, cur)[0]);
        } else {
            assert(strip_cr(cur) =~= Seq::<char>::empty());
            assert(trim_start_ws(Seq::<char>::empty()) =~= Seq::<char>::empty());
        }
    } else {
        assert(t[0] == s[0]);
        assert(t.drop_first() =~= s.drop_first().take(k - 1) + "\n"@);
        if s[0] == '\n' {
            let rest = lines_from(s.drop_first(), Seq::empty());
            assert(lines_from(s, cur)[0] == strip_cr(cur));
            assert forall|i: int| 0 <= i < rest.len() implies !is_theme_line(#[trigger] rest[i]) by {
                assert(lines_from(s, cur)[i + 1] == rest[i]);
            }
            lemma_cut_lines_no_theme(s.drop_first(), Seq::empty(), k - 1);
            let rest_t = lines_from(s.drop_first().take(k - 1) + "\n"@, Seq::empty());
            assert forall|i: int| 0 <= i < lines_from(t, cur).len() implies !is_theme_line(
                #[trigger] lines_from(t, cur)[i],
            ) by {
                if i > 0 {
                    assert(lines_from(t, cur)[i] == rest_t[i - 1]);
                }
            }
        } else {
            assert(lines_from(s, cur) == lines_from(s.drop_first(), cur.push(s[0])));
            assert(lines_from(t, cur) == lines_from(t.drop_first(), cur.push(s[0])));
            lemma_cut_lines_no_theme(s.drop_first(), cur.push(s[0]), k - 1);
        }
    }
}

/// Trailing whitespace is cut from the end of the text.
proof fn lemma_trim_end_is_take(s: Seq<char>)
    ensures
        trim_end_ws(s).len() <= s.len(),
        trim_end_ws(s) == s.take(trim_end_ws(s).len() as int),
        trim_end_ws(s).len() > 0 ==> !is_unicode_space(trim_end_ws(s).last()),
    decreases s.len(),
{
    if s.len() > 0 && is_unicode_space(s.last()) {
        lemma_trim_end_is_take(s.drop_last());
        assert(s.drop_last().take(trim_end_ws(s).len() as int) =~= s.take(trim_end_ws(s).len() as int));
    } else {
        assert(s.take(s.len() as int) =~= s);
    }
}

/// Applying theme `name` leaves a configuration in which some line selects
/// `name` and every line that selects a theme selects `name`.
pub proof fn lemma_config_selects_theme(existing: Seq<char>, name: Seq<char>)
    requires
        !name.contains('\n'),
    ensures
        exists|i: int|
            0 <= i < spec_lines(spec_config_with_theme(existing, name)).len()
                && #[trigger] spec_lines(spec_config_with_theme(existing, name))[i] == theme_line(name),
        forall|i: int|
            0 <= i < spec_lines(spec_config_with_theme(existing, name)).len() && is_theme_line(
                #[trigger] spec_lines(spec_config_with_theme(existing, name))[i],
            ) ==> spec_lines(spec_config_with_theme(existing, name))[i] == theme_line(name),
{
    reveal_strlit("\n");
    reveal_strlit("theme \"");
    reveal_strlit("\"");
    let ls = spec_lines(existing);
    let tl = theme_line(name);
    let out = spec_config_with_theme(existing, name);
    assert(!tl.contains('\n')) by {
        assert forall|j: int| 0 <= j < tl.len() implies tl[j] != '\n' by {
            if 7 <= j < 7 + name.len() {
                assert(tl[j] == name[j - 7]);
            }
        }
    }
    assert(strip_cr(tl) == tl) by {
        assert(tl.last() == '"');
    }
    if exists|i: int| 0 <= i < ls.len() && is_theme_line(#[trigger] ls[i]) {
        let k = choose|i: int| 0 <= i < ls.len() && is_theme_line(#[trigger] ls[i]);
        let f = |l: Seq<char>| if is_theme_line(l) { tl } else { l };
        let ys = ls.map_values(f);
        lemma_lines_no_newline(existing, Seq::empty());
        assert forall|i: int| 0 <= i < ys.len() implies !(#[trigger] ys[i]).contains('\n') by {
            assert(!ls[i].contains('\n'));
        }
        assert(ls.map_values(|l: Seq<char>| if is_theme_line(l) { tl } else { l } + "\n"@)
            =~= ys.map_values(|y: Seq<char>| y + "\n"@));
        lemma_lines_of_joined(ys);
        let outs = ys.map_values(|y: Seq<char>| strip_cr(y));
        assert(spec_lines(out) == outs);
        assert(outs[k] == tl);
        assert forall|i: int| 0 <= i < outs.len() && is_theme_line(#[trigger] outs[i]) implies outs[i] == tl by {
            if !is_theme_line(ls[i]) {
                lemma_strip_cr_prefix(ls[i]);
                lemma_not_theme_prefix(strip_cr(ls[i]), ls[i]);
            }
        }
    } else if existing.len() == 0 {
        assert(out == tl + "\n"@);
        lemma_lines_one_line(tl, Seq::empty(), Seq::empty());
        assert(tl + "\n"@ + Seq::<char>::empty() =~= tl + "\n"@);
        assert(Seq::<char>::empty() + tl =~= tl);
        assert(lines_from(Seq::<char>::empty(), Seq::empty()) =~= Seq::<Seq<char>>::empty());
        assert(spec_lines(out) =~= seq![tl]);
        assert(spec_lines(out)[0] == tl);
    } else {
        let t = trim_end_ws(existing);
        lemma_trim_end_is_take(existing);
        let a = t + "\n"@;
        let b = tl + "\n"@;
        assert(out =~= a + b);
        lemma_lines_split(a, b, Seq::empty());
        lemma_lines_one_line(tl, Seq::empty(), Seq::empty());
        assert(tl + "\n"@ + Seq::<char>::empty() =~= b);
        assert(Seq::<char>::empty() + tl =~= tl);
        assert(lines_from(Seq::<char>::empty(), Seq::empty()) =~= Seq::<Seq<char>>::empty());
        assert(lines_from(b, Seq::empty()) =~= seq![tl]);
        let first = lines_from(a, Seq::empty());
        assert forall|i: int| 0 <= i < ls.len() implies !is_theme_line(#[trigger] lines_from(existing, Seq::empty())[i]) by {
            assert(ls[i] == lines_from(existing, Seq::empty())[i]);
        }
        lemma_cut_lines_no_theme(existing, Seq::empty(), t.len() as int);
        assert(spec_lines(out) =~= first + seq![tl]);
        assert(spec_lines(out)[first.len() as int] == tl);
        assert forall|i: int|
            0 <= i < spec_lines(out).len() && is_theme_line(#[trigger] spec_lines(out)[i]) implies spec_lines(out)[i] == tl by {
            if i < first.len() {
                assert(spec_lines(out)[i] == first[i]);
            }
        }
    }
}


/// `t` has a carriage return right before a line feed.
pub open spec fn has_crlf(t: Seq<char>) -> bool {
    exists|i: int| 0 <= i < t.len() - 1 && #[trigger] t[i] == '\r' && t[i + 1] == '\n'
}

/// Putting the lines of a text back together, each followed by a line
/// ending, gives the text again when it ends with a line ending and has no
/// `\r\n`.
proof fn lemma_joined_lines(s: Seq<char>, cur: Seq<char>)
    requires
        !cur.contains('\n'),
        !has_crlf(cur + s),
        s.len() == 0 ==> cur.len() == 0,
        s.len() > 0 ==> s.last() == '\n',
    ensures
        joined(lines_from(s, cur)) == cur + s,
    decreases s.len(),
{
    reveal_strlit("\n");
    if s.len() == 0 {
        assert(lines_from(s, cur) =~= Seq::<Seq<char>>::empty());
        assert(joined(lines_from(s, cur)) =~= Seq::<char>::empty());
        assert(cur + s =~= Seq::<char>::empty());
    } else if s[0] == '\n' {
        let rest = s.drop_first();
        assert(strip_cr(cur) == cur) by {
            if cur.len() > 0 && cur.last() == '\r' {
                let i = cur.len() - 1;
                assert((cur + s)[i] == '\r');
                assert((cur + s)[i + 1] == '\n');
            }
        }
        assert(!has_crlf(Seq::<char>::empty() + rest)) by {
            assert(Seq::<char>::empty() + rest =~= rest);
            if has_crlf(rest) {
                let i = choose|i: int| 0 <= i < rest.len() - 1 && #[trigger] rest[i] == '\r' && rest[i + 1] == '\n';
                assert((cur + s)[cur.len() + 1 + i] == rest[i]);
                assert((cur + s)[cur.len() + 1 + i + 1] == rest[i + 1]);
            }
        }
        if rest.len() > 0 {
            assert(rest.last() == s.last());
        }
        lemma_joined_lines(rest, Seq::empty());
        let ls = lines_from(s, cur);
        assert(ls == seq![cur] + lines_from(rest, Seq::empty()));
        let parts = ls.map_values(|y: Seq<char>| y + "\n"@);
        lemma_concat_front(parts);
        assert(parts.drop_first() =~= lines_from(rest, Seq::empty()).map_values(|y: Seq<char>| y + "\n"@));
        assert(Seq::<char>::empty() + rest =~= rest);
        assert(cur + s =~= cur + "\n"@ + rest);
    } else {
        let c2 = cur.push(s[0]);
        assert(c2 + s.drop_first() =~= cur + s);
        assert forall|j: int| 0 <= j < c2.len() implies c2[j] != '\n' by {
            if j < cur.len() {
                assert(c2[j] == cur[j]);
            }
        }
        assert(s.len() > 1);
        assert(s.drop_first().last() == s.last());
        lemma_joined_lines(s.drop_first(), c2);
    }
}

/// Selecting theme `name` a second time changes nothing, when the
/// configuration after the first time has no `\r\n` line ending.
pub proof fn lemma_config_with_theme_idempotent(existing: Seq<char>, name: Seq<char>)
    requires
        !name.contains('\n'),
        !has_crlf(spec_config_with_theme(existing, name)),
    ensures
        spec_config_with_theme(spec_config_with_theme(existing, name), name) == spec_config_with_theme(
            existing,
            name,
        ),
{
    reveal_strlit("\n");
    reveal_strlit("theme \"");
    reveal_strlit("\"");
    reveal_strlit("theme ");
    let c1 = spec_config_with_theme(existing, name);
    let tl = theme_line(name);
    lemma_config_selects_theme(existing, name);
    let ls1 = spec_lines(c1);
    let k = choose|i: int| 0 <= i < ls1.len() && #[trigger] ls1[i] == tl;
    assert(is_theme_line(tl)) by {
        assert(tl[0] == 't');
        assert(trim_start_ws(tl) == tl);
        assert(tl.take(6) =~= "theme "@);
    }
    assert(is_theme_line(ls1[k]));
    assert(ls1.map_values(|l: Seq<char>| if is_theme_line(l) { tl } else { l } + "\n"@)
        =~= ls1.map_values(|y: Seq<char>| y + "\n"@));
    assert(spec_config_with_theme(c1, name) == joined(ls1));
    // The first result ends with a line ending.
    let ls = spec_lines(existing);
    if exists|i: int| 0 <= i < ls.len() && is_theme_line(#[trigger] ls[i]) {
        let parts = ls.map_values(|l: Seq<char>| if is_theme_line(l) { tl } else { l } + "\n"@);
        assert(parts.len() > 0);
        assert(c1 == concat_all(parts.drop_last()) + parts.last());
        assert(c1.last() == '\n');
    } else if existing.len() == 0 {
        assert(c1.last() == '\n');
    } else {
        assert(c1.last() == '\n');
    }
    assert(Seq::<char>::empty() + c1 =~= c1);
    lemma_joined_lines(c1, Seq::empty());
}


/// The colour a palette line `key r g b` names, read from its three
/// integer entries.
pub open spec fn line_rgb(line: KdlNodeModel) -> RgbColor {
    rgb(
        clamp_byte(line.entries[0]->0 as int),
        clamp_byte(line.entries[1]->0 as int),
        clamp_byte(line.entries[2]->0 as int),
    )
}

/// The line holds three integer entries.
pub open spec fn has_three_ints(line: KdlNodeModel) -> bool {
    line.entries.len() >= 3 && line.entries[0] is Some && line.entries[1] is Some && line.entries[2] is Some
}

/// In a theme given by palette keys only, the success exit code is drawn
/// in the palette's `green` (80 200 80 when the palette has no usable
/// `green` line) and the error exit code in its `red` (220 80 80 when it
/// has none).
pub proof fn lemma_palette_exit_codes(doc: Seq<KdlNodeModel>, name: Seq<char>, t: KdlNodeModel)
    requires
        theme_node(doc, name) == Some(t),
        !has_component_node(children_of(t)),
        has_palette_node(children_of(t)),
    ensures
        ({
            let ch = children_of(t);
            let cs = spec_theme_from_nodes(doc, name)->0;
            let success = cs[ThemeComponentType::ExitCodeSuccess.index()].base;
            let error = cs[ThemeComponentType::ExitCodeError.index()].base;
            let gl = find_node(ch, "green"@);
            let rl = find_node(ch, "red"@);
            &&& spec_theme_from_nodes(doc, name) is Some
            &&& cs.len() == 14
            &&& (gl is Some && has_three_ints(gl->0) ==> success == line_rgb(gl->0))
            &&& (!(gl is Some && has_three_ints(gl->0)) ==> success == rgb(80, 200, 80))
            &&& (rl is Some && has_three_ints(rl->0) ==> error == line_rgb(rl->0))
            &&& (!(rl is Some && has_three_ints(rl->0)) ==> error == rgb(220, 80, 80))
        }),
{
}

/// `concat_all` of two lists of texts is the two concatenations joined.
proof fn lemma_concat_all_append(a: Seq<Seq<char>>, b: Seq<Seq<char>>)
    ensures
        concat_all(a + b) == concat_all(a) + concat_all(b),
    decreases b.len(),
{
    if b.len() == 0 {
        assert(a + b =~= a);
        assert(concat_all(a) + concat_all(b) =~= concat_all(a));
    } else {
        lemma_concat_all_append(a, b.drop_last());
        assert((a + b).drop_last() =~= a + b.drop_last());
        assert((a + b).last() == b.last());
        assert(concat_all(a) + concat_all(b) =~= concat_all(a) + concat_all(b.drop_last()) + b.last());
    }
}

/// The text of a list holds each of its parts, between the parts before
/// and after it.
proof fn lemma_concat_all_at(parts: Seq<Seq<char>>, i: int)
    requires
        0 <= i < parts.len(),
    ensures
        concat_all(parts) == concat_all(parts.take(i)) + parts[i] + concat_all(parts.skip(i + 1)),
{
    assert(parts =~= parts.take(i) + seq![parts[i]] + parts.skip(i + 1));
    lemma_concat_all_append(parts.take(i) + seq![parts[i]], parts.skip(i + 1));
    lemma_concat_all_append(parts.take(i), seq![parts[i]]);
    let one = seq![parts[i]];
    assert(one.drop_last() =~= Seq::<Seq<char>>::empty());
    assert(one.last() == parts[i]);
    assert(concat_all(one.drop_last()) =~= Seq::<char>::empty());
    assert(concat_all(one) =~= parts[i]);
}

/// A palette line of a saved theme: eight spaces of indent, the key, and the
/// colour's three channels in decimal.
pub open spec fn palette_line(key: Seq<char>, c: RgbColor) -> Seq<char> {
    "        "@ + key + " "@ + dec_string(c.r as nat) + " "@ + dec_string(c.g as nat) + " "@
        + dec_string(c.b as nat) + "\n"@
}

/// The saved text around its palette lines.
proof fn lemma_saved_text_parts(t: Theme)
    ensures
        spec_theme_to_kdl(t) == ("themes {\n"@ + "    "@ + t.name@ + " {\n"@) + concat_all(
            palette_entries(t).map_values(|e: (Seq<char>, RgbColor)| color_line("        "@, e.0, e.1)),
        ) + (concat_all(
            all_component_types().map_values(|ty: ThemeComponentType| component_block(ty, t.comp(ty))),
        ) + "    }\n"@ + "}\n"@),
{
    let a = "themes {\n"@ + "    "@ + t.name@ + " {\n"@;
    let b = concat_all(
        palette_entries(t).map_values(|e: (Seq<char>, RgbColor)| color_line("        "@, e.0, e.1)),
    );
    let c = concat_all(
        all_component_types().map_values(|ty: ThemeComponentType| component_block(ty, t.comp(ty))),
    );
    assert(a + b + c + "    }\n"@ + "}\n"@ =~= a + b + (c + "    }\n"@ + "}\n"@));
}

/// The saved text holds the palette line at position `i` of the palette.
proof fn lemma_saved_palette_line(t: Theme, i: int)
    requires
        0 <= i < palette_entries(t).len(),
    ensures
        exists|p: Seq<char>, q: Seq<char>|
            spec_theme_to_kdl(t) == p + palette_line(palette_entries(t)[i].0, palette_entries(t)[i].1) + q,
{
    let entries = palette_entries(t);
    let parts = entries.map_values(|e: (Seq<char>, RgbColor)| color_line("        "@, e.0, e.1));
    let head = "themes {\n"@ + "    "@ + t.name@ + " {\n"@;
    let tail = concat_all(
        all_component_types().map_values(|ty: ThemeComponentType| component_block(ty, t.comp(ty))),
    ) + "    }\n"@ + "}\n"@;
    lemma_saved_text_parts(t);
    lemma_concat_all_at(parts, i);
    let line = palette_line(entries[i].0, entries[i].1);
    assert(parts[i] =~= line);
    let p = head + concat_all(parts.take(i));
    let q = concat_all(parts.skip(i + 1)) + tail;
    assert(spec_theme_to_kdl(t) =~= p + line + q);
}

/// A saved theme's palette says `green` with the success exit code's base
/// colour and `red` with the error exit code's: the text holds those two
/// lines.
pub proof fn lemma_saved_palette_exit_codes(t: Theme)
    ensures
        exists|p: Seq<char>, q: Seq<char>|
            spec_theme_to_kdl(t) == p + palette_line(
                "green"@,
                t.comp(ThemeComponentType::ExitCodeSuccess).base,
            ) + q,
        exists|p: Seq<char>, q: Seq<char>|
            spec_theme_to_kdl(t) == p + palette_line("red"@, t.comp(ThemeComponentType::ExitCodeError).base)
                + q,
{
    lemma_saved_palette_line(t, 4);
    lemma_saved_palette_line(t, 3);
}

} // verus!
