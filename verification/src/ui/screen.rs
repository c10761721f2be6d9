//! What the simulated Zellij screen shows: the text of each piece of the
//! tab bar, the highlighted pane and the status bar, the theme colour each
//! piece is drawn in, how the selected element is lightened, and where the
//! colour picker overlay goes. Drawing these pieces is left to the caller.

use vstd::prelude::*;
use vstd::string::{StringExecFns, StrSliceExecFns};
use crate::theme::{RgbColor, Theme, ThemeComponentType, hex_byte};
use crate::text::{push_char, utf8_len, utf8_len_capped};
use crate::ui::state::{PreviewElement, push_hex_pair};
use crate::ui::editor::{InputMode, PreviewAttribute};
use crate::ui::color_picker::{Rect, spec_rect_new, hex_digits};
use crate::text::{chars_of, dec_string, u32_to_decimal};
use crate::theme::ThemeComponent;

verus! {

/// A colour a piece of text is drawn in: a theme colour or one of the
/// terminal's named colours.
#[derive(Debug, Clone, Copy, PartialEq, Eq, Structural)]
pub enum SpanColor {
    Rgb(RgbColor),
    Yellow,
    Red,
    Green,
    DarkGray,
    White,
}

/// A piece of text with its colours and weight.
#[derive(Debug, Clone)]
pub struct StyledSpan {
    pub text: String,
    pub fg: Option<SpanColor>,
    pub bg: Option<SpanColor>,
    pub bold: bool,
}

/// A plain-value picture of a `StyledSpan`.
pub struct SpanView {
    pub text: Seq<char>,
    pub fg: Option<SpanColor>,
    pub bg: Option<SpanColor>,
    pub bold: bool,
}

impl StyledSpan {
    pub open spec fn view(&self) -> SpanView {
        SpanView { text: self.text@, fg: self.fg, bg: self.bg, bold: self.bold }
    }
}

pub open spec fn spans_view(v: Seq<StyledSpan>) -> Seq<SpanView> {
    v.map_values(|s: StyledSpan| s.view())
}

pub open spec fn sv(text: Seq<char>, fg: Option<SpanColor>, bg: Option<SpanColor>, bold: bool) -> SpanView {
    SpanView { text, fg, bg, bold }
}

pub open spec fn rgb(c: RgbColor) -> Option<SpanColor> {
    Some(SpanColor::Rgb(c))
}

fn span(text: &str, fg: Option<SpanColor>, bg: Option<SpanColor>, bold: bool) -> (res: StyledSpan)
    ensures
        res.view() == sv(text@, fg, bg, bold),
{
    StyledSpan { text: String::from_str(text), fg, bg, bold }
}

/// `v + amount`, or 255 when that is larger.
pub open spec fn sat_add(v: u8, amount: u8) -> u8 {
    if v + amount > 255 { 255 } else { (v + amount) as u8 }
}

/// `c` with `amount` added to each channel, each kept within 255: how the
/// selected element's background is marked.
pub open spec fn spec_lighten(c: RgbColor, amount: u8) -> RgbColor {
    RgbColor { r: sat_add(c.r, amount), g: sat_add(c.g, amount), b: sat_add(c.b, amount) }
}

/// Lightens `c` by `amount` per channel, stopping at 255.
pub fn lighten(c: RgbColor, amount: u8) -> (res: RgbColor)
    ensures
        res == spec_lighten(c, amount),
{
    RgbColor::new(c.r.saturating_add(amount), c.g.saturating_add(amount), c.b.saturating_add(amount))
}

/// `n` spaces.
pub open spec fn spaces(n: nat) -> Seq<char> {
    Seq::new(n, |i: int| ' ')
}

fn space_string(n: usize) -> (res: String)
    ensures
        res@ == spaces(n as nat),
{
    let mut s = String::new();
    let mut i: usize = 0;
    while i < n
        invariant
            i <= n,
            s@ == spaces(i as nat),
        decreases n - i,
    {
        push_char(&mut s, ' ');
        assert(s@ =~= spaces((i + 1) as nat));
        i = i + 1;
    }
    s
}

/// `a - b` on cell counts, or 0 when `b` is larger.
pub open spec fn fill_width(a: int, b: int) -> nat {
    if a > b { (a - b) as nat } else { 0 }
}

// ---------------------------------------------------------------------------
// Tab bar
// ---------------------------------------------------------------------------

/// The tab bar: the session name, three tabs (the first selected) and the
/// layout name at the right, with blank cells between. A selected tab's
/// background is lightened by 30. The pieces other than the blank take 54
/// cells.
pub open spec fn spec_tab_bar(t: Theme, selected: PreviewElement, width: u16) -> Seq<SpanView> {
    let rs = t.comp(ThemeComponentType::RibbonSelected);
    let ru = t.comp(ThemeComponentType::RibbonUnselected);
    let tu = t.comp(ThemeComponentType::TextUnselected);
    let bar = tu.background;
    let sel_bg = if selected == PreviewElement::TabSelected { spec_lighten(rs.background, 30) } else { rs.background };
    let u1_bg = if selected == PreviewElement::TabUnselected1 { spec_lighten(ru.background, 30) } else { ru.background };
    let u2_bg = if selected == PreviewElement::TabUnselected2 { spec_lighten(ru.background, 30) } else { ru.background };
    seq![
        sv(" zellij "@, rgb(tu.base), rgb(bar), true),
        sv(""@, rgb(sel_bg), rgb(bar), false),
        sv(" 1:terminal "@, rgb(rs.base), rgb(sel_bg), true),
        sv(""@, rgb(sel_bg), rgb(ru.background), false),
        sv(""@, rgb(u1_bg), rgb(bar), false),
        sv(" 2:bash "@, rgb(ru.base), rgb(u1_bg), true),
        sv(""@, rgb(u1_bg), rgb(bar), false),
        sv(" "@, None, rgb(bar), false),
        sv(""@, rgb(u2_bg), rgb(bar), false),
        sv(" 3:nvim "@, rgb(ru.base), rgb(u2_bg), true),
        sv(""@, rgb(u2_bg), rgb(bar), false),
        sv(spaces(fill_width(width as int, 54)), None, rgb(bar), false),
        sv(" layout: default "@, rgb(tu.base), rgb(bar), false),
    ]
}

/// The pieces of the tab bar for a screen `width` cells wide.
pub fn tab_bar_spans(theme: &Theme, selected: PreviewElement, width: u16) -> (res: Vec<StyledSpan>)
    ensures
        spans_view(res@) == spec_tab_bar(*theme, selected, width),
{
    let rs = *theme.get(ThemeComponentType::RibbonSelected);
    let ru = *theme.get(ThemeComponentType::RibbonUnselected);
    let tu = *theme.get(ThemeComponentType::TextUnselected);
    let bar = Some(SpanColor::Rgb(tu.background));
    let sel_bg = if selected == PreviewElement::TabSelected { lighten(rs.background, 30) } else { rs.background };
    let u1_bg = if selected == PreviewElement::TabUnselected1 { lighten(ru.background, 30) } else { ru.background };
    let u2_bg = if selected == PreviewElement::TabUnselected2 { lighten(ru.background, 30) } else { ru.background };
    let fill: usize = if width > 54 { (width - 54) as usize } else { 0 };
    let mut v: Vec<StyledSpan> = Vec::new();
    v.push(span(" zellij ", Some(SpanColor::Rgb(tu.base)), bar, true));
    v.push(span("", Some(SpanColor::Rgb(sel_bg)), bar, false));
    v.push(span(" 1:terminal ", Some(SpanColor::Rgb(rs.base)), Some(SpanColor::Rgb(sel_bg)), true));
    v.push(span("", Some(SpanColor::Rgb(sel_bg)), Some(SpanColor::Rgb(ru.background)), false));
    v.push(span("", Some(SpanColor::Rgb(u1_bg)), bar, false));
    v.push(span(" 2:bash ", Some(SpanColor::Rgb(ru.base)), Some(SpanColor::Rgb(u1_bg)), true));
    v.push(span("", Some(SpanColor::Rgb(u1_bg)), bar, false));
    v.push(span(" ", None, bar, false));
    v.push(span("", Some(SpanColor::Rgb(u2_bg)), bar, false));
    v.push(span(" 3:nvim ", Some(SpanColor::Rgb(ru.base)), Some(SpanColor::Rgb(u2_bg)), true));
    v.push(span("", Some(SpanColor::Rgb(u2_bg)), bar, false));
    v.push(StyledSpan { text: space_string(fill), fg: None, bg: bar, bold: false });
    v.push(span(" layout: default ", Some(SpanColor::Rgb(tu.base)), bar, false));
    assert(spans_view(v@) =~= spec_tab_bar(*theme, selected, width));
    v
}

// ---------------------------------------------------------------------------
// Picker overlay placement
// ---------------------------------------------------------------------------

/// The element is drawn in the right-hand pane of the simulated screen
/// (the right 40% of its width): the highlighted pane and what it shows.
pub open spec fn drawn_in_right_pane(e: PreviewElement) -> bool {
    match e {
        PreviewElement::PaneHighlight | PreviewElement::TableTitle | PreviewElement::TableCellSelected
        | PreviewElement::TableCellUnselected | PreviewElement::ListSelected
        | PreviewElement::ListUnselected | PreviewElement::ExitSuccess | PreviewElement::ExitError => true,
        _ => false,
    }
}

fn is_drawn_in_right_pane(e: PreviewElement) -> (res: bool)
    ensures
        res == drawn_in_right_pane(e),
{
    match e {
        PreviewElement::PaneHighlight | PreviewElement::TableTitle | PreviewElement::TableCellSelected
        | PreviewElement::TableCellUnselected | PreviewElement::ListSelected
        | PreviewElement::ListUnselected | PreviewElement::ExitSuccess | PreviewElement::ExitError => true,
        _ => false,
    }
}

/// Where the colour picker overlay goes in a screen of `area` while
/// `selected` is edited: 52 by 20 cells (less on a small screen), centred
/// vertically, on the side away from the element: at the left edge with a
/// margin of two cells when the element is in the right-hand pane, else at
/// the right edge with the same margin.
pub open spec fn spec_picker_overlay_rect(area: Rect, selected: PreviewElement) -> Rect {
    let w: u16 = if area.width >= 56 { 52 } else if area.width >= 4 { (area.width - 4) as u16 } else { 0 };
    let h: u16 = if area.height >= 24 { 20 } else if area.height >= 4 { (area.height - 4) as u16 } else { 0 };
    let x: u16 = if drawn_in_right_pane(selected) {
        if area.width >= w + 2 { 2 } else { (area.width - w) as u16 }
    } else {
        if area.width >= w + 2 { (area.width - (w + 2)) as u16 } else { 0 }
    };
    let y: u16 = if area.height >= h { ((area.height - h) / 2) as u16 } else { 0 };
    spec_rect_new(x, y, w, h)
}

/// Places the colour picker overlay for editing `selected`.
pub fn picker_overlay_rect(area: Rect, selected: PreviewElement) -> (res: Rect)
    ensures
        res == spec_picker_overlay_rect(area, selected),
{
    let w = 52u16.min(area.width.saturating_sub(4));
    let h = 20u16.min(area.height.saturating_sub(4));
    let x = if is_drawn_in_right_pane(selected) {
        if area.width >= w + 2 { 2 } else { area.width - w }
    } else {
        area.width.saturating_sub(w + 2)
    };
    let y = area.height.saturating_sub(h) / 2;
    Rect::new(x, y, w, h)
}

/// The overlay keeps clear of the element being edited: for an element in
/// the right-hand pane it ends within the left 60% of a screen at least 90
/// cells wide; for any other element it starts in the right half of a
/// screen at least 108 cells wide.
pub proof fn lemma_overlay_opposite(area: Rect, selected: PreviewElement)
    ensures
        drawn_in_right_pane(selected) && area.width >= 90 ==> spec_picker_overlay_rect(area, selected).x
            + spec_picker_overlay_rect(area, selected).width <= area.width * 3 / 5,
        !drawn_in_right_pane(selected) && area.width >= 108 ==> spec_picker_overlay_rect(area, selected).x
            >= area.width / 2,
{
}

// ---------------------------------------------------------------------------
// Highlighted pane
// ---------------------------------------------------------------------------

/// What the highlighted pane shows: its background, its border colour and
/// weight, and its lines.
pub struct PaneContent {
    pub pane_bg: RgbColor,
    pub border: RgbColor,
    pub border_bold: bool,
    pub lines: Vec<Vec<StyledSpan>>,
}

/// A plain-value picture of `PaneContent`.
pub struct PaneView {
    pub pane_bg: RgbColor,
    pub border: RgbColor,
    pub border_bold: bool,
    pub lines: Seq<Seq<SpanView>>,
}

impl PaneContent {
    pub open spec fn view(&self) -> PaneView {
        PaneView {
            pane_bg: self.pane_bg,
            border: self.border,
            border_bold: self.border_bold,
            lines: self.lines@.map_values(|l: Vec<StyledSpan>| spans_view(l@)),
        }
    }
}

/// The background of `e`'s piece of the pane: lightened by 45 when `e` is
/// the selected element.
pub open spec fn piece_bg(t: Theme, selected: PreviewElement, e: PreviewElement) -> Option<SpanColor> {
    let c = t.comp(e.spec_component_type()).background;
    rgb(if selected == e { spec_lighten(c, 45) } else { c })
}

/// `e`'s piece of the pane: its text in its component's foreground, bold
/// when selected (or always, with `bold`).
pub open spec fn piece(t: Theme, selected: PreviewElement, e: PreviewElement, text: Seq<char>, bold: bool) -> SpanView {
    sv(text, rgb(t.comp(e.spec_component_type()).base), piece_bg(t, selected, e), bold || selected == e)
}

/// The highlighted pane: a table, a list and two exit codes drawn in their
/// components' colours on the text background (lightened by 25 when the
/// pane's frame is selected), with the frame-highlight border.
pub open spec fn spec_pane_highlight(t: Theme, selected: PreviewElement) -> PaneView {
    let tu = t.comp(ThemeComponentType::TextUnselected);
    let lu = t.comp(ThemeComponentType::ListUnselected);
    let pane_bg = if selected == PreviewElement::PaneHighlight { spec_lighten(tu.background, 25) } else { tu.background };
    PaneView {
        pane_bg,
        border: t.comp(ThemeComponentType::FrameHighlight).base,
        border_bold: selected == PreviewElement::PaneHighlight,
        lines: seq![
            seq![piece(t, selected, PreviewElement::TableTitle, " Name         Size "@, true)],
            seq![piece(t, selected, PreviewElement::TableCellSelected, " main.rs      4.2K "@, false)],
            seq![piece(t, selected, PreviewElement::TableCellUnselected, " Cargo.toml   1.1K "@, false)],
            seq![sv(""@, None, None, false)],
            seq![piece(t, selected, PreviewElement::ListSelected, " > main.rs          "@, false)],
            seq![piece(t, selected, PreviewElement::ListUnselected, "   Cargo.toml       "@, false)],
            seq![sv("   README.md        "@, rgb(lu.base), rgb(lu.background), false)],
            seq![sv(""@, None, rgb(pane_bg), false)],
            seq![
                sv(" "@, None, rgb(pane_bg), false),
                piece(t, selected, PreviewElement::ExitSuccess, " exit:0 "@, false),
                sv("  "@, None, None, false),
                piece(t, selected, PreviewElement::ExitError, " exit:1 "@, false),
            ],
        ],
    }
}

fn piece_exec(t: &Theme, selected: PreviewElement, e: PreviewElement, text: &str, bold: bool) -> (res: StyledSpan)
    ensures
        res.view() == piece(*t, selected, e, text@, bold),
{
    let c = *t.get(e.component_type());
    let bg = if selected == e { lighten(c.background, 45) } else { c.background };
    span(text, Some(SpanColor::Rgb(c.base)), Some(SpanColor::Rgb(bg)), bold || selected == e)
}

fn one(s: StyledSpan) -> (res: Vec<StyledSpan>)
    ensures
        spans_view(res@) == seq![s.view()],
{
    let mut v: Vec<StyledSpan> = Vec::new();
    v.push(s);
    assert(spans_view(v@) =~= seq![s.view()]);
    v
}

/// The contents, background and border of the highlighted pane.
pub fn pane_highlight_lines(theme: &Theme, selected: PreviewElement) -> (res: PaneContent)
    ensures
        res.view() == spec_pane_highlight(*theme, selected),
{
    let tu = *theme.get(ThemeComponentType::TextUnselected);
    let lu = *theme.get(ThemeComponentType::ListUnselected);
    let framed = selected == PreviewElement::PaneHighlight;
    let pane_bg = if framed { lighten(tu.background, 25) } else { tu.background };
    let mut lines: Vec<Vec<StyledSpan>> = Vec::new();
    lines.push(one(piece_exec(theme, selected, PreviewElement::TableTitle, " Name         Size ", true)));
    lines.push(one(piece_exec(theme, selected, PreviewElement::TableCellSelected, " main.rs      4.2K ", false)));
    lines.push(one(piece_exec(theme, selected, PreviewElement::TableCellUnselected, " Cargo.toml   1.1K ", false)));
    lines.push(one(span("", None, None, false)));
    lines.push(one(piece_exec(theme, selected, PreviewElement::ListSelected, " > main.rs          ", false)));
    lines.push(one(piece_exec(theme, selected, PreviewElement::ListUnselected, "   Cargo.toml       ", false)));
    lines.push(one(span("   README.md        ", Some(SpanColor::Rgb(lu.base)), Some(SpanColor::Rgb(lu.background)), false)));
    lines.push(one(span("", None, Some(SpanColor::Rgb(pane_bg)), false)));
    let mut exits: Vec<StyledSpan> = Vec::new();
    exits.push(span(" ", None, Some(SpanColor::Rgb(pane_bg)), false));
    exits.push(piece_exec(theme, selected, PreviewElement::ExitSuccess, " exit:0 ", false));
    exits.push(span("  ", None, None, false));
    exits.push(piece_exec(theme, selected, PreviewElement::ExitError, " exit:1 ", false));
    assert(spans_view(exits@) =~= spec_pane_highlight(*theme, selected).lines[8]);
    lines.push(exits);
    let res = PaneContent {
        pane_bg,
        border: theme.get(ThemeComponentType::FrameHighlight).base,
        border_bold: framed,
        lines,
    };
    assert(res.view().lines =~= spec_pane_highlight(*theme, selected).lines);
    res
}

// ---------------------------------------------------------------------------
// Status bar
// ---------------------------------------------------------------------------

/// The mode pill's text: the status bar's own name when it is the selected
/// element, else the input mode.
pub open spec fn mode_label(selected: PreviewElement, mode: InputMode) -> Seq<char> {
    if selected == PreviewElement::StatusBar {
        " STATUS "@
    } else {
        match mode {
            InputMode::ColorPicker => " COLOR  "@,
            InputMode::Preview => " NORMAL "@,
            InputMode::ThemeNameInput => " SAVE   "@,
            InputMode::Help => " HELP   "@,
            InputMode::ElementSearch => " SEARCH "@,
            _ => " LOAD   "@,
        }
    }
}

/// The key hints shown for an input mode: the key and what it does.
pub open spec fn bindings(mode: InputMode) -> Seq<(Seq<char>, Seq<char>)> {
    match mode {
        InputMode::Preview => seq![
            ("↑↓←→"@, "NAVIGATE"@), ("c"@, "COLOR"@), ("tab"@, "FG/BG"@), ("s"@, "SAVE AS"@),
            ("l"@, "LOAD"@), ("a"@, "SAVE+APPLY"@), ("?"@, "HELP"@), ("q"@, "QUIT"@),
        ],
        InputMode::ColorPicker => seq![
            ("↑↓"@, "CHANNEL"@), ("←→"@, "±5"@), ("S+←→"@, "±1"@), ("PgUp/Dn"@, "±25"@),
            ("#"@, "HEX"@), ("tab"@, "FG/BG"@), ("Enter"@, "KEEP"@), ("Esc"@, "CANCEL"@),
        ],
        InputMode::ThemeNameInput => seq![("type"@, "NAME"@), ("Enter"@, "SAVE"@), ("Esc"@, "CANCEL"@)],
        InputMode::ThemeLoad => seq![("↑↓"@, "SELECT"@), ("Enter"@, "LOAD"@), ("Esc"@, "CANCEL"@)],
        InputMode::Help => seq![("Esc"@, "CLOSE"@)],
        InputMode::ThemeLoadRename => seq![("type"@, "NAME"@), ("Enter"@, "RENAME"@), ("Esc"@, "CANCEL"@)],
        InputMode::ThemeLoadDeleteConfirm => seq![("y"@, "DELETE"@), ("n"@, "KEEP"@)],
        InputMode::ElementSearch => seq![("type"@, "ELEMENT"@), ("Enter"@, "JUMP"@), ("Esc"@, "CANCEL"@)],
    }
}

fn bindings_exec(mode: InputMode) -> (res: Vec<(&'static str, &'static str)>)
    ensures
        res@.map_values(|p: (&'static str, &'static str)| (p.0@, p.1@)) == bindings(mode),
{
    let v: Vec<(&'static str, &'static str)> = match mode {
        InputMode::Preview => vec![
            ("↑↓←→", "NAVIGATE"), ("c", "COLOR"), ("tab", "FG/BG"), ("s", "SAVE AS"),
            ("l", "LOAD"), ("a", "SAVE+APPLY"), ("?", "HELP"), ("q", "QUIT"),
        ],
        InputMode::ColorPicker => vec![
            ("↑↓", "CHANNEL"), ("←→", "±5"), ("S+←→", "±1"), ("PgUp/Dn", "±25"),
            ("#", "HEX"), ("tab", "FG/BG"), ("Enter", "KEEP"), ("Esc", "CANCEL"),
        ],
        InputMode::ThemeNameInput => vec![("type", "NAME"), ("Enter", "SAVE"), ("Esc", "CANCEL")],
        InputMode::ThemeLoad => vec![("↑↓", "SELECT"), ("Enter", "LOAD"), ("Esc", "CANCEL")],
        InputMode::Help => vec![("Esc", "CLOSE")],
        InputMode::ThemeLoadRename => vec![("type", "NAME"), ("Enter", "RENAME"), ("Esc", "CANCEL")],
        InputMode::ThemeLoadDeleteConfirm => vec![("y", "DELETE"), ("n", "KEEP")],
        InputMode::ElementSearch => vec![("type", "ELEMENT"), ("Enter", "JUMP"), ("Esc", "CANCEL")],
    };
    assert(v@.map_values(|p: (&'static str, &'static str)| (p.0@, p.1@)) =~= bindings(mode));
    v
}

proof fn lemma_label_len(selected: PreviewElement, mode: InputMode)
    ensures
        mode_label(selected, mode).len() == 8,
{
    reveal_strlit(" STATUS ");
    reveal_strlit(" COLOR  ");
    reveal_strlit(" NORMAL ");
    reveal_strlit(" SAVE   ");
    reveal_strlit(" HELP   ");
    reveal_strlit(" LOAD   ");
    reveal_strlit(" SEARCH ");
}

proof fn lemma_binding_lengths(mode: InputMode)
    ensures
        bindings(mode).len() <= 8,
        forall|j: int|
            0 <= j < bindings(mode).len() ==> (#[trigger] bindings(mode)[j]).0.len() <= 8
                && bindings(mode)[j].1.len() <= 10,
{
    reveal_strlit("↑↓←→");
    reveal_strlit("NAVIGATE");
    reveal_strlit("c");
    reveal_strlit("COLOR");
    reveal_strlit("tab");
    reveal_strlit("FG/BG");
    reveal_strlit("s");
    reveal_strlit("SAVE AS");
    reveal_strlit("l");
    reveal_strlit("LOAD");
    reveal_strlit("a");
    reveal_strlit("SAVE+APPLY");
    reveal_strlit("?");
    reveal_strlit("HELP");
    reveal_strlit("q");
    reveal_strlit("QUIT");
    reveal_strlit("↑↓");
    reveal_strlit("CHANNEL");
    reveal_strlit("←→");
    reveal_strlit("±5");
    reveal_strlit("S+←→");
    reveal_strlit("±1");
    reveal_strlit("PgUp/Dn");
    reveal_strlit("±25");
    reveal_strlit("#");
    reveal_strlit("HEX");
    reveal_strlit("Enter");
    reveal_strlit("KEEP");
    reveal_strlit("Esc");
    reveal_strlit("CANCEL");
    reveal_strlit("type");
    reveal_strlit("NAME");
    reveal_strlit("SAVE");
    reveal_strlit("SELECT");
    reveal_strlit("CLOSE");
    reveal_strlit("RENAME");
    reveal_strlit("y");
    reveal_strlit("DELETE");
    reveal_strlit("n");
    reveal_strlit("ELEMENT");
    reveal_strlit("JUMP");
}

/// One key hint: the key in a pill, bold, then what it does, then a gap.
pub open spec fn pill(k: Seq<char>, a: Seq<char>, ru: RgbColor, rs_fg: RgbColor, ru_fg: RgbColor, bar: RgbColor) -> Seq<SpanView> {
    seq![
        sv(""@, rgb(ru), rgb(bar), false),
        sv(" "@ + k + " "@, rgb(rs_fg), rgb(ru), true),
        sv(a + " "@, rgb(ru_fg), rgb(ru), false),
        sv(""@, rgb(ru), rgb(bar), false),
        sv(" "@, None, rgb(bar), false),
    ]
}

/// The hints of `b`, one after another.
pub open spec fn pills(b: Seq<(Seq<char>, Seq<char>)>, ru: RgbColor, rs_fg: RgbColor, ru_fg: RgbColor, bar: RgbColor) -> Seq<SpanView>
    decreases b.len(),
{
    if b.len() == 0 {
        Seq::empty()
    } else {
        pills(b.drop_last(), ru, rs_fg, ru_fg, bar) + pill(b.last().0, b.last().1, ru, rs_fg, ru_fg, bar)
    }
}

/// Cells the hints of `b` take (each character of these texts is one cell).
pub open spec fn pills_width(b: Seq<(Seq<char>, Seq<char>)>) -> int
    decreases b.len(),
{
    if b.len() == 0 {
        0
    } else {
        pills_width(b.drop_last()) + b.last().0.len() + 2 + b.last().1.len() + 1 + 1
    }
}

/// The text at the right of the status bar: theme name (with `*` when
/// there are unsaved changes), the selected element and attribute, and that
/// colour in hex.
pub open spec fn info_text(name: Seq<char>, dirty: bool, e: PreviewElement, attr: PreviewAttribute, c: RgbColor) -> Seq<char> {
    " "@ + name + (if dirty { "*"@ } else { ""@ }) + " │ "@ + e.spec_label() + " "@ + attr.spec_label() + " #"@
        + hex_digits(c) + " "@
}

/// The colour of the selected element's selected attribute.
pub open spec fn attr_color(t: Theme, e: PreviewElement, attr: PreviewAttribute) -> RgbColor {
    match attr {
        PreviewAttribute::Foreground => t.comp(e.spec_component_type()).base,
        PreviewAttribute::Background => t.comp(e.spec_component_type()).background,
    }
}

/// A message is an error when it starts with `✗`; errors show in red, the
/// rest in green.
pub open spec fn message_color(m: Seq<char>) -> SpanColor {
    if m.len() > 0 && m[0] == '✗' { SpanColor::Red } else { SpanColor::Green }
}

/// The status bar: a mode pill, the key hints of the mode, blank cells,
/// the message if any, and the info text. The blank fills the width left
/// after the pill and hints (in cells) and the info text and message (in
/// bytes, with three more for the message's padding).
pub open spec fn spec_status_bar(
    t: Theme,
    selected: PreviewElement,
    attr: PreviewAttribute,
    mode: InputMode,
    dirty: bool,
    message: Option<Seq<char>>,
    width: u16,
) -> Seq<SpanView> {
    let bar = t.comp(ThemeComponentType::TextUnselected).background;
    let rs = t.comp(ThemeComponentType::RibbonSelected);
    let ru = t.comp(ThemeComponentType::RibbonUnselected);
    let mode_bg = if selected == PreviewElement::StatusBar { spec_lighten(rs.background, 40) } else { rs.background };
    let b = bindings(mode);
    let info = info_text(t.name@, dirty, selected, attr, attr_color(t, selected, attr));
    let right = utf8_len(info) + match message {
        Some(m) => utf8_len(m) + 3,
        None => 0,
    };
    let head = seq![
        sv(""@, rgb(mode_bg), rgb(bar), false),
        sv(mode_label(selected, mode), rgb(rs.base), rgb(mode_bg), true),
        sv(""@, rgb(mode_bg), rgb(bar), false),
        sv(" "@, None, rgb(bar), false),
    ];
    let used = mode_label(selected, mode).len() + 1 + pills_width(b);
    let tail = match message {
        Some(m) => seq![sv(" "@ + m + " "@, Some(message_color(m)), rgb(bar), true)],
        None => Seq::empty(),
    };
    head + pills(b, ru.background, rs.base, ru.base, bar) + seq![sv(spaces(fill_width(width as int, used + right)), None, rgb(bar), false)]
        + tail + seq![sv(info, Some(SpanColor::Yellow), rgb(bar), true)]
}

/// The pieces of the status bar for a screen `width` cells wide, with the
/// message shown if there is one.
pub fn status_bar_spans(
    theme: &Theme,
    selected: PreviewElement,
    attr: PreviewAttribute,
    mode: InputMode,
    dirty: bool,
    message: &Option<String>,
    width: u16,
) -> (res: Vec<StyledSpan>)
    ensures
        spans_view(res@) == spec_status_bar(
            *theme,
            selected,
            attr,
            mode,
            dirty,
            match message {
                Some(m) => Some(m@),
                None => None,
            },
            width,
        ),
{
    let ghost msg: Option<Seq<char>> = match message {
        Some(m) => Some(m@),
        None => None,
    };
    let ghost spec = spec_status_bar(*theme, selected, attr, mode, dirty, msg, width);
    let bar_c = theme.get(ThemeComponentType::TextUnselected).background;
    let rs = *theme.get(ThemeComponentType::RibbonSelected);
    let ru = *theme.get(ThemeComponentType::RibbonUnselected);
    let bar = Some(SpanColor::Rgb(bar_c));
    let mode_bg = if selected == PreviewElement::StatusBar { lighten(rs.background, 40) } else { rs.background };
    let label: &str = if selected == PreviewElement::StatusBar {
        " STATUS "
    } else {
        match mode {
            InputMode::ColorPicker => " COLOR  ",
            InputMode::Preview => " NORMAL ",
            InputMode::ThemeNameInput => " SAVE   ",
            InputMode::Help => " HELP   ",
            InputMode::ElementSearch => " SEARCH ",
            _ => " LOAD   ",
        }
    };
    let mut v: Vec<StyledSpan> = Vec::new();
    v.push(span("", Some(SpanColor::Rgb(mode_bg)), bar, false));
    v.push(span(label, Some(SpanColor::Rgb(rs.base)), Some(SpanColor::Rgb(mode_bg)), true));
    v.push(span("", Some(SpanColor::Rgb(mode_bg)), bar, false));
    v.push(span(" ", None, bar, false));
    assert(spans_view(v@) =~= spec.take(4));
    let b = bindings_exec(mode);
    let ghost bs = bindings(mode);
    let ghost head = spec.take(4);
    proof {
        lemma_label_len(selected, mode);
        lemma_binding_lengths(mode);
    }
    assert(label@ == mode_label(selected, mode));
    let mut used: usize = label.unicode_len() + 1;
    let mut i: usize = 0;
    assert(bs.take(0) =~= Seq::<(Seq<char>, Seq<char>)>::empty());
    while i < b.len()
        invariant
            i <= b@.len(),
            bs == bindings(mode),
            bar == Some(SpanColor::Rgb(bar_c)),
            b@.map_values(|p: (&'static str, &'static str)| (p.0@, p.1@)) == bs,
            bs.len() <= 8,
            forall|j: int| 0 <= j < bs.len() ==> (#[trigger] bs[j]).0.len() <= 8 && bs[j].1.len() <= 10,
            spans_view(v@) == head + pills(bs.take(i as int), ru.background, rs.base, ru.base, bar_c),
            used == mode_label(selected, mode).len() + 1 + pills_width(bs.take(i as int)),
            used <= 9 + 22 * i,
        decreases b@.len() - i,
    {
        let (k, a) = b[i];
        assert(bs[i as int] == (k@, a@));
        assert(bs.take(i + 1).drop_last() =~= bs.take(i as int));
        assert(bs.take(i + 1).last() == bs[i as int]);
        let ghost before = v@;
        let s0 = span("", Some(SpanColor::Rgb(ru.background)), bar, false);
        let s1 = StyledSpan {
            text: String::from_str(" ").concat(k).concat(" "),
            fg: Some(SpanColor::Rgb(rs.base)),
            bg: Some(SpanColor::Rgb(ru.background)),
            bold: true,
        };
        let s2 = StyledSpan {
            text: String::from_str(a).concat(" "),
            fg: Some(SpanColor::Rgb(ru.base)),
            bg: Some(SpanColor::Rgb(ru.background)),
            bold: false,
        };
        let s3 = span("", Some(SpanColor::Rgb(ru.background)), bar, false);
        let s4 = span(" ", None, bar, false);
        let ghost five = seq![s0, s1, s2, s3, s4];
        assert(s1.text@ == " "@ + k@ + " "@);
        assert(s2.text@ == a@ + " "@);
        assert(spans_view(five).len() == 5);
        assert(spans_view(five)[0] == s0.view());
        assert(spans_view(five)[1] == s1.view());
        assert(spans_view(five)[2] == s2.view());
        assert(spans_view(five)[3] == s3.view());
        assert(spans_view(five)[4] == s4.view());
        assert(spans_view(five) =~= pill(k@, a@, ru.background, rs.base, ru.base, bar_c));
        v.push(s0);
        v.push(s1);
        v.push(s2);
        v.push(s3);
        v.push(s4);
        assert(v@ =~= before + five);
        assert(spans_view(before + five) =~= spans_view(before) + spans_view(five));
        assert(spans_view(v@) =~= head + pills(bs.take(i + 1), ru.background, rs.base, ru.base, bar_c));
        used = used + k.unicode_len() + 2 + a.unicode_len() + 1 + 1;
        i = i + 1;
    }
    assert(bs.take(b@.len() as int) =~= bs);
    let c = match attr {
        PreviewAttribute::Foreground => theme.get(selected.component_type()).base,
        PreviewAttribute::Background => theme.get(selected.component_type()).background,
    };
    assert(c == attr_color(*theme, selected, attr));
    let mut info = String::from_str(" ").concat(theme.name.as_str());
    assert(info@ == " "@ + theme.name@);
    proof {
        reveal_strlit("");
    }
    if dirty {
        info.append("*");
    }
    info.append(" │ ");
    info.append(selected.label());
    info.append(" ");
    info.append(attr.label());
    info.append(" #");
    push_hex_pair(&mut info, c.r);
    push_hex_pair(&mut info, c.g);
    push_hex_pair(&mut info, c.b);
    info.append(" ");
    assert(info@ =~= info_text(theme.name@, dirty, selected, attr, attr_color(*theme, selected, attr)));
    let info_len = utf8_len_capped(info.as_str(), 65536);
    let msg_len: usize = match message {
        Some(m) => utf8_len_capped(m.as_str(), 65536) + 3,
        None => 0,
    };
    let total = used + info_len + msg_len;
    let fill: usize = if (width as usize) > total { width as usize - total } else { 0 };
    assert(fill == fill_width(width as int, used + utf8_len(info@) + match msg {
        Some(m) => utf8_len(m) + 3,
        None => 0,
    }));
    let ghost pre = head + pills(bs, ru.background, rs.base, ru.base, bar_c);
    assert(spans_view(v@) == pre);
    let fill_span = StyledSpan { text: space_string(fill), fg: None, bg: bar, bold: false };
    let ghost v1 = v@;
    v.push(fill_span);
    assert(spans_view(v@) =~= spans_view(v1).push(fill_span.view()));
    let ghost tail: Seq<SpanView> = Seq::empty();
    match message {
        Some(m) => {
            let cs = chars_of(m.as_str());
            let err = cs.len() > 0 && cs[0] == '✗';
            let msg_span = StyledSpan {
                text: String::from_str(" ").concat(m.as_str()).concat(" "),
                fg: Some(if err { SpanColor::Red } else { SpanColor::Green }),
                bg: bar,
                bold: true,
            };
            assert(msg_span.view() == sv(" "@ + m@ + " "@, Some(message_color(m@)), rgb(bar_c), true));
            let ghost v2 = v@;
            v.push(msg_span);
            assert(spans_view(v@) =~= spans_view(v2).push(msg_span.view()));
            proof {
                tail = seq![msg_span.view()];
            }
        },
        None => {},
    }
    assert(spans_view(v@) =~= pre + seq![fill_span.view()] + tail);
    let info_span = StyledSpan { text: info, fg: Some(SpanColor::Yellow), bg: bar, bold: true };
    let ghost v3 = v@;
    v.push(info_span);
    assert(spans_view(v@) =~= spans_view(v3).push(info_span.view()));
    assert(spans_view(v@) =~= spec);
    v
}

// ---------------------------------------------------------------------------
// Picker overlay text
// ---------------------------------------------------------------------------

/// The text of the colour picker overlay, apart from its channel sliders.
pub struct PickerText {
    pub title: String,
    /// The colour before and after, or the colour alone.
    pub swatch: Vec<StyledSpan>,
    /// The colour in decimal.
    pub rgb_line: Vec<StyledSpan>,
    /// The hex text being typed, or how to start typing it.
    pub hex_line: Vec<StyledSpan>,
    /// The key hints, one line each.
    pub hint_lines: Vec<StyledSpan>,
}

/// A plain-value picture of `PickerText`.
pub struct PickerTextView {
    pub title: Seq<char>,
    pub swatch: Seq<SpanView>,
    pub rgb_line: Seq<SpanView>,
    pub hex_line: Seq<SpanView>,
    pub hint_lines: Seq<SpanView>,
}

impl PickerText {
    pub open spec fn view(&self) -> PickerTextView {
        PickerTextView {
            title: self.title@,
            swatch: spans_view(self.swatch@),
            rgb_line: spans_view(self.rgb_line@),
            hex_line: spans_view(self.hex_line@),
            hint_lines: spans_view(self.hint_lines@),
        }
    }
}

/// `#rrggbb`.
pub open spec fn hash_hex(c: RgbColor) -> Seq<char> {
    seq!['#'] + hex_digits(c)
}

/// The colour of `o` the picker edits.
pub open spec fn attr_of(o: ThemeComponent, attr: PreviewAttribute) -> RgbColor {
    match attr {
        PreviewAttribute::Foreground => o.base,
        PreviewAttribute::Background => o.background,
    }
}

/// The picker overlay's text while `attr` of `selected` is edited, with
/// `current` the colour picked so far, `original` the component as it was
/// when the picker opened, and `hex` the hex text being typed.
pub open spec fn spec_picker_text(
    selected: PreviewElement,
    attr: PreviewAttribute,
    current: RgbColor,
    original: Option<ThemeComponent>,
    hex: Option<Seq<char>>,
) -> PickerTextView {
    let swatch_cells = spaces(8);
    PickerTextView {
        title: " "@ + selected.spec_label() + " — "@ + attr.spec_label() + " "@,
        swatch: match original {
            Some(o) => seq![
                sv(" "@, None, None, false),
                sv(swatch_cells, None, rgb(attr_of(o, attr)), false),
                sv("  →  "@, Some(SpanColor::DarkGray), None, false),
                sv(swatch_cells, None, rgb(current), false),
                sv("  "@, None, None, false),
                sv(hash_hex(attr_of(o, attr)) + " → "@ + hash_hex(current), Some(SpanColor::White), None, false),
            ],
            None => seq![
                sv(" "@, None, None, false),
                sv(swatch_cells, None, rgb(current), false),
                sv("  "@, None, None, false),
                sv(attr.spec_label() + " — "@ + hash_hex(current), Some(SpanColor::White), None, true),
            ],
        },
        rgb_line: seq![
            sv(
                "  rgb("@ + dec_string(current.r as nat) + " "@ + dec_string(current.g as nat) + " "@
                    + dec_string(current.b as nat) + ")"@,
                Some(SpanColor::DarkGray),
                None,
                false,
            ),
        ],
        hex_line: match hex {
            Some(h) => seq![
                sv("  #"@ + h + spaces(fill_width(6, h.len() as int)) + "█"@, Some(SpanColor::Yellow), None, true),
                sv("  type hex, Enter to apply, Esc to cancel"@, Some(SpanColor::DarkGray), None, false),
            ],
            None => seq![sv("  press # to enter hex code"@, Some(SpanColor::DarkGray), None, false)],
        },
        hint_lines: seq![
            sv(" ↑↓:channel  ←→:±5  Shift+←→:±1  PgUp/Dn:±25"@, Some(SpanColor::DarkGray), None, false),
            sv(" tab/f:fg/bg  y:yank  Enter:keep  Esc:cancel"@, Some(SpanColor::DarkGray), None, false),
        ],
    }
}

fn hash_hex_string(c: RgbColor) -> (res: String)
    ensures
        res@ == hash_hex(c),
{
    let mut s = String::new();
    push_char(&mut s, '#');
    push_hex_pair(&mut s, c.r);
    push_hex_pair(&mut s, c.g);
    push_hex_pair(&mut s, c.b);
    assert(s@ =~= hash_hex(c));
    s
}

fn text_span(text: String, fg: Option<SpanColor>, bg: Option<SpanColor>, bold: bool) -> (res: StyledSpan)
    ensures
        res.view() == sv(text@, fg, bg, bold),
{
    StyledSpan { text, fg, bg, bold }
}

/// Builds the picker overlay's text (see `spec_picker_text`).
pub fn picker_text(
    selected: PreviewElement,
    attr: PreviewAttribute,
    current: RgbColor,
    original: Option<ThemeComponent>,
    hex: &Option<String>,
) -> (res: PickerText)
    ensures
        res.view() == spec_picker_text(
            selected,
            attr,
            current,
            original,
            match hex {
                Some(h) => Some(h@),
                None => None,
            },
        ),
{
    let ghost hv: Option<Seq<char>> = match hex {
        Some(h) => Some(h@),
        None => None,
    };
    let ghost spec = spec_picker_text(selected, attr, current, original, hv);
    let title = String::from_str(" ").concat(selected.label()).concat(" — ").concat(attr.label()).concat(" ");
    let cur_hex = hash_hex_string(current);
    let mut swatch: Vec<StyledSpan> = Vec::new();
    match original {
        Some(o) => {
            let before = match attr {
                PreviewAttribute::Foreground => o.base,
                PreviewAttribute::Background => o.background,
            };
            let before_hex = hash_hex_string(before);
            swatch.push(span(" ", None, None, false));
            swatch.push(text_span(space_string(8), None, Some(SpanColor::Rgb(before)), false));
            swatch.push(span("  →  ", Some(SpanColor::DarkGray), None, false));
            swatch.push(text_span(space_string(8), None, Some(SpanColor::Rgb(current)), false));
            swatch.push(span("  ", None, None, false));
            swatch.push(text_span(before_hex.concat(" → ").concat(cur_hex.as_str()), Some(SpanColor::White), None, false));
        },
        None => {
            swatch.push(span(" ", None, None, false));
            swatch.push(text_span(space_string(8), None, Some(SpanColor::Rgb(current)), false));
            swatch.push(span("  ", None, None, false));
            swatch.push(text_span(String::from_str(attr.label()).concat(" — ").concat(cur_hex.as_str()), Some(SpanColor::White), None, true));
        },
    }
    assert(spans_view(swatch@) =~= spec.swatch);
    let rgb_text = String::from_str("  rgb(")
        .concat(u32_to_decimal(current.r as u32).as_str())
        .concat(" ")
        .concat(u32_to_decimal(current.g as u32).as_str())
        .concat(" ")
        .concat(u32_to_decimal(current.b as u32).as_str())
        .concat(")");
    let mut rgb_line: Vec<StyledSpan> = Vec::new();
    rgb_line.push(text_span(rgb_text, Some(SpanColor::DarkGray), None, false));
    assert(spans_view(rgb_line@) =~= spec.rgb_line);
    let mut hex_line: Vec<StyledSpan> = Vec::new();
    match hex {
        Some(h) => {
            let n = chars_of(h.as_str()).len();
            let pad: usize = if n < 6 { 6 - n } else { 0 };
            let typed = String::from_str("  #").concat(h.as_str()).concat(space_string(pad).as_str()).concat("█");
            hex_line.push(text_span(typed, Some(SpanColor::Yellow), None, true));
            hex_line.push(span("  type hex, Enter to apply, Esc to cancel", Some(SpanColor::DarkGray), None, false));
        },
        None => {
            hex_line.push(span("  press # to enter hex code", Some(SpanColor::DarkGray), None, false));
        },
    }
    assert(spans_view(hex_line@) =~= spec.hex_line);
    let mut hint_lines: Vec<StyledSpan> = Vec::new();
    hint_lines.push(span(" ↑↓:channel  ←→:±5  Shift+←→:±1  PgUp/Dn:±25", Some(SpanColor::DarkGray), None, false));
    hint_lines.push(span(" tab/f:fg/bg  y:yank  Enter:keep  Esc:cancel", Some(SpanColor::DarkGray), None, false));
    assert(spans_view(hint_lines@) =~= spec.hint_lines);
    PickerText { title, swatch, rgb_line, hex_line, hint_lines }
}

// ---------------------------------------------------------------------------
// Laws of the preview layout
// ---------------------------------------------------------------------------

/// The element is drawn in the left column of panes: the selected pane's
/// frame and text, and the unselected pane.
pub open spec fn drawn_in_left_pane(e: PreviewElement) -> bool {
    e == PreviewElement::PaneSelected || e == PreviewElement::TextSelected || e == PreviewElement::PaneUnselected
}

/// Moving right from anywhere in the left column crosses to the right-hand
/// pane, landing on its frame; moving left from there returns to the left
/// column.
pub proof fn lemma_move_right_crosses_panes(e: PreviewElement)
    requires
        drawn_in_left_pane(e),
    ensures
        e.spec_right() == PreviewElement::PaneHighlight,
        drawn_in_right_pane(e.spec_right()),
        drawn_in_left_pane(e.spec_right().spec_left()),
{
}

/// In the tab bar, each tab's pill is lightened by 30 exactly when that
/// tab's element is the selected one, and otherwise keeps its ribbon's
/// background: the first tab (` 1:terminal `) is the selected ribbon, the
/// second (` 2:bash `) and third (` 3:nvim `) the unselected ribbon.
pub proof fn lemma_tab_pill_lightened(t: Theme, selected: PreviewElement, width: u16)
    ensures
        ({
            let bar = spec_tab_bar(t, selected, width);
            let rs = t.comp(ThemeComponentType::RibbonSelected).background;
            let ru = t.comp(ThemeComponentType::RibbonUnselected).background;
            &&& bar[2].text == " 1:terminal "@
            &&& bar[5].text == " 2:bash "@
            &&& bar[9].text == " 3:nvim "@
            &&& (selected == PreviewElement::TabSelected ==> bar[2].bg == Some(SpanColor::Rgb(spec_lighten(rs, 30))))
            &&& (selected != PreviewElement::TabSelected ==> bar[2].bg == Some(SpanColor::Rgb(rs)))
            &&& (selected == PreviewElement::TabUnselected1 ==> bar[5].bg == Some(SpanColor::Rgb(spec_lighten(ru, 30))))
            &&& (selected != PreviewElement::TabUnselected1 ==> bar[5].bg == Some(SpanColor::Rgb(ru)))
            &&& (selected == PreviewElement::TabUnselected2 ==> bar[9].bg == Some(SpanColor::Rgb(spec_lighten(ru, 30))))
            &&& (selected != PreviewElement::TabUnselected2 ==> bar[9].bg == Some(SpanColor::Rgb(ru)))
        }),
{
}

} // verus!
