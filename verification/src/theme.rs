//! Colours, theme components and whole themes.

use vstd::prelude::*;
use vstd::utf8::is_ascii_chars;
use vstd::string::StringExecFns;
use crate::text::{utf8_len, utf8_width, push_char, chars_of, is_hex_digit, hex_value, hex_char, char_is_hex_digit, char_hex_value, hex_digit_char};

verus! {

/// A 24-bit sRGB colour.
#[derive(Debug, Clone, Copy, PartialEq, Eq, Structural)]
pub struct RgbColor {
    pub r: u8,
    pub g: u8,
    pub b: u8,
}

/// The characters of `s` after every leading `c` has been removed
/// (`str::trim_start_matches` with a single character).
pub open spec fn strip_leading(s: Seq<char>, c: char) -> Seq<char>
    decreases s.len(),
{
    if s.len() > 0 && s[0] == c {
        strip_leading(s.drop_first(), c)
    } else {
        s
    }
}

/// Byte offset `b` of the encoding of `s` falls between two characters.
pub open spec fn is_char_boundary(s: Seq<char>, b: nat) -> bool {
    exists|k: int| 0 <= k <= s.len() && utf8_len(#[trigger] s.take(k)) == b
}

/// Inputs on which `from_hex` can slice its argument into three two-byte
/// pieces; on the others the byte-offset slicing would panic.
pub open spec fn hex_sliceable(hex: Seq<char>) -> bool {
    let s = strip_leading(hex, '#');
    utf8_len(s) == 6 ==> (is_char_boundary(s, 2) && is_char_boundary(s, 4))
}

/// `u8::from_str_radix(piece, 16)` on a two-character piece: two hex digits,
/// or a `+` sign followed by one.
pub open spec fn hex_pair(a: char, b: char) -> Option<u8> {
    if is_hex_digit(a) && is_hex_digit(b) {
        Some((hex_value(a) * 16 + hex_value(b)) as u8)
    } else if a == '+' && is_hex_digit(b) {
        Some(hex_value(b) as u8)
    } else {
        None
    }
}

/// What `RgbColor::from_hex` returns: after the leading `#` characters,
/// exactly six ASCII characters forming three two-character hex pieces.
pub open spec fn spec_from_hex(hex: Seq<char>) -> Option<RgbColor> {
    let s = strip_leading(hex, '#');
    if s.len() == 6 && is_ascii_chars(s) {
        match (hex_pair(s[0], s[1]), hex_pair(s[2], s[3]), hex_pair(s[4], s[5])) {
            (Some(r), Some(g), Some(b)) => Some(RgbColor { r, g, b }),
            _ => None,
        }
    } else {
        None
    }
}

/// The two lower-case hex digits of a byte.
pub open spec fn hex_byte(v: u8) -> Seq<char> {
    seq![hex_char(v as nat / 16), hex_char(v as nat % 16)]
}

/// `#rrggbb` in lower case.
pub open spec fn spec_to_hex(c: RgbColor) -> Seq<char> {
    seq!['#'] + hex_byte(c.r) + hex_byte(c.g) + hex_byte(c.b)
}

/// The three channels packed as `r * 65536 + g * 256 + b`.
pub open spec fn packed(c: RgbColor) -> int {
    c.r * 65536 + c.g * 256 + c.b
}

/// `v` clamped into `0..=255`.
pub open spec fn clamp_byte(v: int) -> u8 {
    if v < 0 {
        0
    } else if v > 255 {
        255
    } else {
        v as u8
    }
}

pub proof fn lemma_ascii_utf8_len(s: Seq<char>)
    requires
        is_ascii_chars(s),
    ensures
        utf8_len(s) == s.len(),
    decreases s.len(),
{
    if s.len() > 0 {
        assert(is_ascii_chars(s.drop_last()));
        lemma_ascii_utf8_len(s.drop_last());
    }
}

/// Strings of ASCII characters can always be sliced.
pub proof fn lemma_ascii_hex_sliceable(hex: Seq<char>)
    requires
        is_ascii_chars(hex),
    ensures
        hex_sliceable(hex),
{
    let s = strip_leading(hex, '#');
    lemma_strip_leading_suffix(hex, '#');
    assert(is_ascii_chars(s));
    lemma_ascii_utf8_len(s);
    if utf8_len(s) == 6 {
        assert(is_ascii_chars(s.take(2)));
        assert(is_ascii_chars(s.take(4)));
        lemma_ascii_utf8_len(s.take(2));
        lemma_ascii_utf8_len(s.take(4));
        assert(is_char_boundary(s, 2));
        assert(is_char_boundary(s, 4));
    }
}

/// Stripping leading characters leaves a suffix of the input.
pub proof fn lemma_strip_leading_suffix(s: Seq<char>, c: char)
    ensures
        strip_leading(s, c).len() <= s.len(),
        strip_leading(s, c) == s.skip(s.len() - strip_leading(s, c).len()),
        strip_leading(s, c).len() > 0 ==> strip_leading(s, c)[0] != c,
    decreases s.len(),
{
    if s.len() > 0 && s[0] == c {
        lemma_strip_leading_suffix(s.drop_first(), c);
        let t = strip_leading(s.drop_first(), c);
        assert(s.drop_first().skip(s.drop_first().len() - t.len()) == s.skip(s.len() - t.len()));
    } else {
        assert(s.skip(0) == s);
    }
}

/// Drops the leading `c` characters of `cs`.
pub fn strip_leading_chars(cs: &Vec<char>, c: char) -> (res: Vec<char>)
    ensures
        res@ == strip_leading(cs@, c),
{
    let mut i: usize = 0;
    assert(cs@.skip(0) == cs@);
    while i < cs.len() && cs[i] == c
        invariant
            i <= cs.len(),
            strip_leading(cs@, c) == strip_leading(cs@.skip(i as int), c),
        decreases cs.len() - i,
    {
        assert(cs@.skip(i as int).drop_first() == cs@.skip(i + 1));
        i = i + 1;
    }
    let mut res: Vec<char> = Vec::new();
    let mut j: usize = i;
    while j < cs.len()
        invariant
            i <= j <= cs.len(),
            res@ == cs@.subrange(i as int, j as int),
        decreases cs.len() - j,
    {
        res.push(cs[j]);
        j = j + 1;
    }
    assert(res@ == cs@.skip(i as int));
    res
}

fn parse_hex_pair(a: char, b: char) -> (res: Option<u8>)
    ensures
        res == hex_pair(a, b),
{
    if char_is_hex_digit(a) && char_is_hex_digit(b) {
        let hi = char_hex_value(a);
        let lo = char_hex_value(b);
        Some(hi * 16 + lo)
    } else if a == '+' && char_is_hex_digit(b) {
        Some(char_hex_value(b))
    } else {
        None
    }
}

impl RgbColor {
    pub fn new(r: u8, g: u8, b: u8) -> (c: Self)
        ensures
            c == (RgbColor { r, g, b }),
    {
        RgbColor { r, g, b }
    }

    /// Parses `#rrggbb` (any number of leading `#`, digits in either case).
    pub fn from_hex(hex: &str) -> (res: Option<Self>)
        requires
            hex_sliceable(hex@),
        ensures
            res == spec_from_hex(hex@),
    {
        let all = chars_of(hex);
        let s = strip_leading_chars(&all, '#');
        if s.len() != 6 {
            return None;
        }
        let mut k: usize = 0;
        while k < 6
            invariant
                s@.len() == 6,
                s@ == strip_leading(hex@, '#'),
                0 <= k <= 6,
                forall|j: int| 0 <= j < k ==> s@[j] <= '\u{7f}',
            decreases 6 - k,
        {
            if s[k] > '\u{7f}' {
                assert(s@[k as int] > '\u{7f}');
                assert(!is_ascii_chars(s@));
                return None;
            }
            k = k + 1;
        }
        let r = parse_hex_pair(s[0], s[1]);
        let g = parse_hex_pair(s[2], s[3]);
        let b = parse_hex_pair(s[4], s[5]);
        match (r, g, b) {
            (Some(r), Some(g), Some(b)) => Some(RgbColor { r, g, b }),
            _ => None,
        }
    }

    /// `#rrggbb` with lower-case digits.
    pub fn to_hex(&self) -> (res: String)
        ensures
            res@ == spec_to_hex(*self),
    {
        let mut s = String::new();
        push_char(&mut s, '#');
        push_hex_byte(&mut s, self.r);
        push_hex_byte(&mut s, self.g);
        push_hex_byte(&mut s, self.b);
        proof {
            res_eq_helper(*self, s@);
        }
        s
    }

    /// `self` packed as `r * 65536 + g * 256 + b`, plus `delta`, clamped into `0..=255`.
    pub fn saturating_add(self, delta: i8) -> (res: u8)
        ensures
            res == clamp_byte(packed(self) + delta),
    {
        let val: i32 = i32::from(self) + delta as i32;
        if val < 0 {
            0
        } else if val > 255 {
            255
        } else {
            val as u8
        }
    }

    /// `self` packed as `r * 65536 + g * 256 + b`, plus `delta`, clamped into `0..=255`.
    pub fn saturating_add_unsigned(self, delta: u8) -> (res: u8)
        ensures
            res == clamp_byte(packed(self) + delta),
    {
        let val: i32 = i32::from(self) + delta as i32;
        if val > 255 {
            255
        } else {
            val as u8
        }
    }
}

proof fn res_eq_helper(c: RgbColor, s: Seq<char>)
    requires
        s == seq!['#'].add(hex_byte(c.r)).add(hex_byte(c.g)).add(hex_byte(c.b)),
    ensures
        s == spec_to_hex(c),
{
}

fn push_hex_byte(s: &mut String, v: u8)
    ensures
        final(s)@ == old(s)@ + hex_byte(v),
{
    push_char(s, hex_digit_char(v / 16));
    push_char(s, hex_digit_char(v % 16));
}

impl From<RgbColor> for i32 {
    fn from(color: RgbColor) -> (res: i32) {
        color.r as i32 * 256 * 256 + color.g as i32 * 256 + color.b as i32
    }
}

impl vstd::std_specs::convert::FromSpecImpl<RgbColor> for i32 {
    open spec fn obeys_from_spec() -> bool {
        true
    }

    open spec fn from_spec(v: RgbColor) -> i32 {
        packed(v) as i32
    }
}

impl From<RgbColor> for u8 {
    fn from(color: RgbColor) -> (res: u8) {
        color.r
    }
}

impl vstd::std_specs::convert::FromSpecImpl<RgbColor> for u8 {
    open spec fn obeys_from_spec() -> bool {
        true
    }

    open spec fn from_spec(v: RgbColor) -> u8 {
        v.r
    }
}

/// Reading back what `to_hex` wrote gives the same colour.
pub proof fn lemma_hex_round_trip(c: RgbColor)
    ensures
        spec_from_hex(spec_to_hex(c)) == Some(c),
{
    let h = spec_to_hex(c);
    assert(h[0] == '#');
    assert(h.drop_first() == hex_byte(c.r) + hex_byte(c.g) + hex_byte(c.b));
    let s = h.drop_first();
    assert(s.len() > 0 ==> s[0] != '#') by {
        assert(s[0] == hex_char(c.r as nat / 16));
    }
    assert(strip_leading(s, '#') == s);
    assert(strip_leading(h, '#') == s);
    assert(is_ascii_chars(s));
    assert(hex_pair(s[0], s[1]) == Some(c.r));
    assert(hex_pair(s[2], s[3]) == Some(c.g));
    assert(hex_pair(s[4], s[5]) == Some(c.b));
}


/// The six colours of one styled element.
#[derive(Debug, Clone, Copy, PartialEq, Eq, Structural)]
pub struct ThemeComponent {
    pub base: RgbColor,
    pub background: RgbColor,
    pub emphasis_0: RgbColor,
    pub emphasis_1: RgbColor,
    pub emphasis_2: RgbColor,
    pub emphasis_3: RgbColor,
}

pub open spec fn rgb(r: u8, g: u8, b: u8) -> RgbColor {
    RgbColor { r, g, b }
}

/// The all-black colour (`RgbColor::default()`).
pub open spec fn black() -> RgbColor {
    rgb(0, 0, 0)
}

/// A component with the given base and background and the fixed grey emphasis ramp.
pub open spec fn spec_component(base: RgbColor, background: RgbColor) -> ThemeComponent {
    ThemeComponent {
        base,
        background,
        emphasis_0: rgb(255, 255, 255),
        emphasis_1: rgb(200, 200, 200),
        emphasis_2: rgb(150, 150, 150),
        emphasis_3: rgb(100, 100, 100),
    }
}

/// The component whose six colours are all black (`ThemeComponent::default()`).
pub open spec fn black_component() -> ThemeComponent {
    ThemeComponent {
        base: black(),
        background: black(),
        emphasis_0: black(),
        emphasis_1: black(),
        emphasis_2: black(),
        emphasis_3: black(),
    }
}

impl Default for RgbColor {
    fn default() -> (c: Self)
        ensures
            c == black(),
    {
        RgbColor { r: 0, g: 0, b: 0 }
    }
}

impl Default for ThemeComponent {
    fn default() -> (c: Self)
        ensures
            c == black_component(),
    {
        let z = RgbColor { r: 0, g: 0, b: 0 };
        ThemeComponent {
            base: z,
            background: z,
            emphasis_0: z,
            emphasis_1: z,
            emphasis_2: z,
            emphasis_3: z,
        }
    }
}

impl ThemeComponent {
    pub fn new(base: RgbColor, background: RgbColor) -> (c: Self)
        ensures
            c == spec_component(base, background),
    {
        ThemeComponent {
            base,
            background,
            emphasis_0: RgbColor::new(255, 255, 255),
            emphasis_1: RgbColor::new(200, 200, 200),
            emphasis_2: RgbColor::new(150, 150, 150),
            emphasis_3: RgbColor::new(100, 100, 100),
        }
    }
}

/// The fourteen styled elements of a Zellij theme.
#[derive(Debug, Clone, Copy, PartialEq, Eq, Structural)]
pub enum ThemeComponentType {
    TextUnselected,
    TextSelected,
    RibbonUnselected,
    RibbonSelected,
    TableTitle,
    TableCellUnselected,
    TableCellSelected,
    ListUnselected,
    ListSelected,
    FrameUnselected,
    FrameSelected,
    FrameHighlight,
    ExitCodeSuccess,
    ExitCodeError,
}

/// The component types in the order `ThemeComponentType::all` lists them.
pub open spec fn all_component_types() -> Seq<ThemeComponentType> {
    seq![
        ThemeComponentType::TextUnselected,
        ThemeComponentType::TextSelected,
        ThemeComponentType::RibbonUnselected,
        ThemeComponentType::RibbonSelected,
        ThemeComponentType::TableTitle,
        ThemeComponentType::TableCellUnselected,
        ThemeComponentType::TableCellSelected,
        ThemeComponentType::ListUnselected,
        ThemeComponentType::ListSelected,
        ThemeComponentType::FrameUnselected,
        ThemeComponentType::FrameSelected,
        ThemeComponentType::FrameHighlight,
        ThemeComponentType::ExitCodeSuccess,
        ThemeComponentType::ExitCodeError,
    ]
}

impl ThemeComponentType {
    pub open spec fn spec_label(self) -> Seq<char> {
        match self {
            ThemeComponentType::TextUnselected => "Text (Unselected)"@,
            ThemeComponentType::TextSelected => "Text (Selected)"@,
            ThemeComponentType::RibbonUnselected => "Ribbon/Tab (Unselected)"@,
            ThemeComponentType::RibbonSelected => "Ribbon/Tab (Selected)"@,
            ThemeComponentType::TableTitle => "Table Title"@,
            ThemeComponentType::TableCellUnselected => "Table Cell (Unselected)"@,
            ThemeComponentType::TableCellSelected => "Table Cell (Selected)"@,
            ThemeComponentType::ListUnselected => "List Item (Unselected)"@,
            ThemeComponentType::ListSelected => "List Item (Selected)"@,
            ThemeComponentType::FrameUnselected => "Frame (Unselected)"@,
            ThemeComponentType::FrameSelected => "Frame (Selected)"@,
            ThemeComponentType::FrameHighlight => "Frame Highlight"@,
            ThemeComponentType::ExitCodeSuccess => "Exit Code (Success)"@,
            ThemeComponentType::ExitCodeError => "Exit Code (Error)"@,
        }
    }

    /// The node name of the component in a KDL theme file.
    pub open spec fn spec_key(self) -> Seq<char> {
        match self {
            ThemeComponentType::TextUnselected => "text_unselected"@,
            ThemeComponentType::TextSelected => "text_selected"@,
            ThemeComponentType::RibbonUnselected => "ribbon_unselected"@,
            ThemeComponentType::RibbonSelected => "ribbon_selected"@,
            ThemeComponentType::TableTitle => "table_title"@,
            ThemeComponentType::TableCellUnselected => "table_cell_unselected"@,
            ThemeComponentType::TableCellSelected => "table_cell_selected"@,
            ThemeComponentType::ListUnselected => "list_unselected"@,
            ThemeComponentType::ListSelected => "list_selected"@,
            ThemeComponentType::FrameUnselected => "frame_unselected"@,
            ThemeComponentType::FrameSelected => "frame_selected"@,
            ThemeComponentType::FrameHighlight => "frame_highlight"@,
            ThemeComponentType::ExitCodeSuccess => "exit_code_success"@,
            ThemeComponentType::ExitCodeError => "exit_code_error"@,
        }
    }

    /// Position of the type in `all_component_types()`.
    pub open spec fn index(self) -> int {
        match self {
            ThemeComponentType::TextUnselected => 0,
            ThemeComponentType::TextSelected => 1,
            ThemeComponentType::RibbonUnselected => 2,
            ThemeComponentType::RibbonSelected => 3,
            ThemeComponentType::TableTitle => 4,
            ThemeComponentType::TableCellUnselected => 5,
            ThemeComponentType::TableCellSelected => 6,
            ThemeComponentType::ListUnselected => 7,
            ThemeComponentType::ListSelected => 8,
            ThemeComponentType::FrameUnselected => 9,
            ThemeComponentType::FrameSelected => 10,
            ThemeComponentType::FrameHighlight => 11,
            ThemeComponentType::ExitCodeSuccess => 12,
            ThemeComponentType::ExitCodeError => 13,
        }
    }

    pub fn label(&self) -> (res: &'static str)
        ensures
            res@ == self.spec_label(),
    {
        match self {
            ThemeComponentType::TextUnselected => "Text (Unselected)",
            ThemeComponentType::TextSelected => "Text (Selected)",
            ThemeComponentType::RibbonUnselected => "Ribbon/Tab (Unselected)",
            ThemeComponentType::RibbonSelected => "Ribbon/Tab (Selected)",
            ThemeComponentType::TableTitle => "Table Title",
            ThemeComponentType::TableCellUnselected => "Table Cell (Unselected)",
            ThemeComponentType::TableCellSelected => "Table Cell (Selected)",
            ThemeComponentType::ListUnselected => "List Item (Unselected)",
            ThemeComponentType::ListSelected => "List Item (Selected)",
            ThemeComponentType::FrameUnselected => "Frame (Unselected)",
            ThemeComponentType::FrameSelected => "Frame (Selected)",
            ThemeComponentType::FrameHighlight => "Frame Highlight",
            ThemeComponentType::ExitCodeSuccess => "Exit Code (Success)",
            ThemeComponentType::ExitCodeError => "Exit Code (Error)",
        }
    }

    pub fn component_key(&self) -> (res: &'static str)
        ensures
            res@ == self.spec_key(),
    {
        match self {
            ThemeComponentType::TextUnselected => "text_unselected",
            ThemeComponentType::TextSelected => "text_selected",
            ThemeComponentType::RibbonUnselected => "ribbon_unselected",
            ThemeComponentType::RibbonSelected => "ribbon_selected",
            ThemeComponentType::TableTitle => "table_title",
            ThemeComponentType::TableCellUnselected => "table_cell_unselected",
            ThemeComponentType::TableCellSelected => "table_cell_selected",
            ThemeComponentType::ListUnselected => "list_unselected",
            ThemeComponentType::ListSelected => "list_selected",
            ThemeComponentType::FrameUnselected => "frame_unselected",
            ThemeComponentType::FrameSelected => "frame_selected",
            ThemeComponentType::FrameHighlight => "frame_highlight",
            ThemeComponentType::ExitCodeSuccess => "exit_code_success",
            ThemeComponentType::ExitCodeError => "exit_code_error",
        }
    }

    /// Every component type, in the order the theme file lists them.
    pub fn all() -> (res: &'static [Self])
        ensures
            res@ == all_component_types(),
    {
        let res: &'static [Self] = &[
            ThemeComponentType::TextUnselected,
            ThemeComponentType::TextSelected,
            ThemeComponentType::RibbonUnselected,
            ThemeComponentType::RibbonSelected,
            ThemeComponentType::TableTitle,
            ThemeComponentType::TableCellUnselected,
            ThemeComponentType::TableCellSelected,
            ThemeComponentType::ListUnselected,
            ThemeComponentType::ListSelected,
            ThemeComponentType::FrameUnselected,
            ThemeComponentType::FrameSelected,
            ThemeComponentType::FrameHighlight,
            ThemeComponentType::ExitCodeSuccess,
            ThemeComponentType::ExitCodeError,
        ];
        assert(res@ == all_component_types());
        res
    }
}


/// A named set of fourteen components.
#[derive(Debug, Clone, PartialEq, Eq)]
pub struct Theme {
    pub name: String,
    pub text_unselected: ThemeComponent,
    pub text_selected: ThemeComponent,
    pub ribbon_unselected: ThemeComponent,
    pub ribbon_selected: ThemeComponent,
    pub table_title: ThemeComponent,
    pub table_cell_unselected: ThemeComponent,
    pub table_cell_selected: ThemeComponent,
    pub list_unselected: ThemeComponent,
    pub list_selected: ThemeComponent,
    pub frame_unselected: ThemeComponent,
    pub frame_selected: ThemeComponent,
    pub frame_highlight: ThemeComponent,
    pub exit_code_success: ThemeComponent,
    pub exit_code_error: ThemeComponent,
}

/// The component of the built-in default theme for each type.
pub open spec fn default_component(ty: ThemeComponentType) -> ThemeComponent {
    match ty {
        ThemeComponentType::TextUnselected => spec_component(rgb(200, 200, 200), rgb(30, 30, 30)),
        ThemeComponentType::TextSelected => spec_component(rgb(255, 255, 255), rgb(60, 60, 60)),
        ThemeComponentType::RibbonUnselected => spec_component(rgb(180, 180, 180), rgb(40, 40, 40)),
        ThemeComponentType::RibbonSelected => spec_component(rgb(255, 255, 255), rgb(80, 80, 80)),
        ThemeComponentType::TableTitle => spec_component(rgb(200, 200, 200), rgb(50, 50, 50)),
        ThemeComponentType::TableCellUnselected => spec_component(rgb(180, 180, 180), rgb(35, 35, 35)),
        ThemeComponentType::TableCellSelected => spec_component(rgb(255, 255, 255), rgb(60, 60, 60)),
        ThemeComponentType::ListUnselected => spec_component(rgb(180, 180, 180), rgb(30, 30, 30)),
        ThemeComponentType::ListSelected => spec_component(rgb(255, 255, 255), rgb(70, 70, 70)),
        ThemeComponentType::FrameUnselected => spec_component(rgb(100, 100, 100), rgb(30, 30, 30)),
        ThemeComponentType::FrameSelected => spec_component(rgb(255, 255, 255), rgb(50, 50, 50)),
        ThemeComponentType::FrameHighlight => spec_component(rgb(255, 200, 100), rgb(60, 50, 30)),
        ThemeComponentType::ExitCodeSuccess => spec_component(rgb(100, 255, 100), rgb(30, 30, 30)),
        ThemeComponentType::ExitCodeError => spec_component(rgb(255, 100, 100), rgb(30, 30, 30)),
    }
}

impl Theme {
    /// The component of type `ty`.
    pub open spec fn comp(&self, ty: ThemeComponentType) -> ThemeComponent {
        match ty {
            ThemeComponentType::TextUnselected => self.text_unselected,
            ThemeComponentType::TextSelected => self.text_selected,
            ThemeComponentType::RibbonUnselected => self.ribbon_unselected,
            ThemeComponentType::RibbonSelected => self.ribbon_selected,
            ThemeComponentType::TableTitle => self.table_title,
            ThemeComponentType::TableCellUnselected => self.table_cell_unselected,
            ThemeComponentType::TableCellSelected => self.table_cell_selected,
            ThemeComponentType::ListUnselected => self.list_unselected,
            ThemeComponentType::ListSelected => self.list_selected,
            ThemeComponentType::FrameUnselected => self.frame_unselected,
            ThemeComponentType::FrameSelected => self.frame_selected,
            ThemeComponentType::FrameHighlight => self.frame_highlight,
            ThemeComponentType::ExitCodeSuccess => self.exit_code_success,
            ThemeComponentType::ExitCodeError => self.exit_code_error,
        }
    }

    /// `self` with the component of type `ty` replaced by `c`.
    pub open spec fn with_comp(self, ty: ThemeComponentType, c: ThemeComponent) -> Theme {
        match ty {
            ThemeComponentType::TextUnselected => Theme { text_unselected: c, ..self },
            ThemeComponentType::TextSelected => Theme { text_selected: c, ..self },
            ThemeComponentType::RibbonUnselected => Theme { ribbon_unselected: c, ..self },
            ThemeComponentType::RibbonSelected => Theme { ribbon_selected: c, ..self },
            ThemeComponentType::TableTitle => Theme { table_title: c, ..self },
            ThemeComponentType::TableCellUnselected => Theme { table_cell_unselected: c, ..self },
            ThemeComponentType::TableCellSelected => Theme { table_cell_selected: c, ..self },
            ThemeComponentType::ListUnselected => Theme { list_unselected: c, ..self },
            ThemeComponentType::ListSelected => Theme { list_selected: c, ..self },
            ThemeComponentType::FrameUnselected => Theme { frame_unselected: c, ..self },
            ThemeComponentType::FrameSelected => Theme { frame_selected: c, ..self },
            ThemeComponentType::FrameHighlight => Theme { frame_highlight: c, ..self },
            ThemeComponentType::ExitCodeSuccess => Theme { exit_code_success: c, ..self },
            ThemeComponentType::ExitCodeError => Theme { exit_code_error: c, ..self },
        }
    }

    /// The fourteen components in the order of `all_component_types()`.
    pub open spec fn components(&self) -> Seq<ThemeComponent> {
        all_component_types().map_values(|ty: ThemeComponentType| self.comp(ty))
    }

    /// Both themes hold the same fourteen components.
    pub open spec fn same_components(self, other: Theme) -> bool {
        forall|ty: ThemeComponentType| #[trigger] self.comp(ty) == other.comp(ty)
    }

    pub fn get(&self, ty: ThemeComponentType) -> (res: &ThemeComponent)
        ensures
            *res == self.comp(ty),
    {
        match ty {
            ThemeComponentType::TextUnselected => &self.text_unselected,
            ThemeComponentType::TextSelected => &self.text_selected,
            ThemeComponentType::RibbonUnselected => &self.ribbon_unselected,
            ThemeComponentType::RibbonSelected => &self.ribbon_selected,
            ThemeComponentType::TableTitle => &self.table_title,
            ThemeComponentType::TableCellUnselected => &self.table_cell_unselected,
            ThemeComponentType::TableCellSelected => &self.table_cell_selected,
            ThemeComponentType::ListUnselected => &self.list_unselected,
            ThemeComponentType::ListSelected => &self.list_selected,
            ThemeComponentType::FrameUnselected => &self.frame_unselected,
            ThemeComponentType::FrameSelected => &self.frame_selected,
            ThemeComponentType::FrameHighlight => &self.frame_highlight,
            ThemeComponentType::ExitCodeSuccess => &self.exit_code_success,
            ThemeComponentType::ExitCodeError => &self.exit_code_error,
        }
    }

    pub fn get_mut(&mut self, ty: ThemeComponentType) -> (res: &mut ThemeComponent)
        ensures
            *res == old(self).comp(ty),
            *final(self) == old(self).with_comp(ty, *final(res)),
    {
        match ty {
            ThemeComponentType::TextUnselected => &mut self.text_unselected,
            ThemeComponentType::TextSelected => &mut self.text_selected,
            ThemeComponentType::RibbonUnselected => &mut self.ribbon_unselected,
            ThemeComponentType::RibbonSelected => &mut self.ribbon_selected,
            ThemeComponentType::TableTitle => &mut self.table_title,
            ThemeComponentType::TableCellUnselected => &mut self.table_cell_unselected,
            ThemeComponentType::TableCellSelected => &mut self.table_cell_selected,
            ThemeComponentType::ListUnselected => &mut self.list_unselected,
            ThemeComponentType::ListSelected => &mut self.list_selected,
            ThemeComponentType::FrameUnselected => &mut self.frame_unselected,
            ThemeComponentType::FrameSelected => &mut self.frame_selected,
            ThemeComponentType::FrameHighlight => &mut self.frame_highlight,
            ThemeComponentType::ExitCodeSuccess => &mut self.exit_code_success,
            ThemeComponentType::ExitCodeError => &mut self.exit_code_error,
        }
    }

    /// Replaces the component of type `ty`.
    pub fn set(&mut self, ty: ThemeComponentType, c: ThemeComponent)
        ensures
            *final(self) == old(self).with_comp(ty, c),
    {
        let slot = self.get_mut(ty);
        *slot = c;
    }
}

impl Default for Theme {
    fn default() -> (t: Self)
        ensures
            t.name@ == "default"@,
            forall|ty: ThemeComponentType| #[trigger] t.comp(ty) == default_component(ty),
    {
        Theme {
            name: String::from_str("default"),
            text_unselected: ThemeComponent::new(RgbColor::new(200, 200, 200), RgbColor::new(30, 30, 30)),
            text_selected: ThemeComponent::new(RgbColor::new(255, 255, 255), RgbColor::new(60, 60, 60)),
            ribbon_unselected: ThemeComponent::new(RgbColor::new(180, 180, 180), RgbColor::new(40, 40, 40)),
            ribbon_selected: ThemeComponent::new(RgbColor::new(255, 255, 255), RgbColor::new(80, 80, 80)),
            table_title: ThemeComponent::new(RgbColor::new(200, 200, 200), RgbColor::new(50, 50, 50)),
            table_cell_unselected: ThemeComponent::new(RgbColor::new(180, 180, 180), RgbColor::new(35, 35, 35)),
            table_cell_selected: ThemeComponent::new(RgbColor::new(255, 255, 255), RgbColor::new(60, 60, 60)),
            list_unselected: ThemeComponent::new(RgbColor::new(180, 180, 180), RgbColor::new(30, 30, 30)),
            list_selected: ThemeComponent::new(RgbColor::new(255, 255, 255), RgbColor::new(70, 70, 70)),
            frame_unselected: ThemeComponent::new(RgbColor::new(100, 100, 100), RgbColor::new(30, 30, 30)),
            frame_selected: ThemeComponent::new(RgbColor::new(255, 255, 255), RgbColor::new(50, 50, 50)),
            frame_highlight: ThemeComponent::new(RgbColor::new(255, 200, 100), RgbColor::new(60, 50, 30)),
            exit_code_success: ThemeComponent::new(RgbColor::new(100, 255, 100), RgbColor::new(30, 30, 30)),
            exit_code_error: ThemeComponent::new(RgbColor::new(255, 100, 100), RgbColor::new(30, 30, 30)),
        }
    }
}

/// One of the six colours of a component.
#[derive(Debug, Clone, Copy, PartialEq, Eq, Structural)]
pub enum ColorAttribute {
    Base,
    Background,
    Emphasis0,
    Emphasis1,
    Emphasis2,
    Emphasis3,
}

impl ColorAttribute {
    pub open spec fn spec_label(self) -> Seq<char> {
        match self {
            ColorAttribute::Base => "Base"@,
            ColorAttribute::Background => "Background"@,
            ColorAttribute::Emphasis0 => "Emphasis 0"@,
            ColorAttribute::Emphasis1 => "Emphasis 1"@,
            ColorAttribute::Emphasis2 => "Emphasis 2"@,
            ColorAttribute::Emphasis3 => "Emphasis 3"@,
        }
    }

    pub fn label(&self) -> (res: &'static str)
        ensures
            res@ == self.spec_label(),
    {
        match self {
            ColorAttribute::Base => "Base",
            ColorAttribute::Background => "Background",
            ColorAttribute::Emphasis0 => "Emphasis 0",
            ColorAttribute::Emphasis1 => "Emphasis 1",
            ColorAttribute::Emphasis2 => "Emphasis 2",
            ColorAttribute::Emphasis3 => "Emphasis 3",
        }
    }
}


/// The components of the default theme, in the order of `all_component_types()`.
pub open spec fn default_components() -> Seq<ThemeComponent> {
    all_component_types().map_values(|ty: ThemeComponentType| default_component(ty))
}

/// The type at each position of `all_component_types()` has that index.
pub proof fn lemma_component_index(ty: ThemeComponentType)
    ensures
        0 <= ty.index() < 14,
        all_component_types().len() == 14,
        all_component_types()[ty.index()] == ty,
{
}

/// The component of a type sits at the type's index in `components()`.
pub proof fn lemma_components_index(t: Theme, ty: ThemeComponentType)
    ensures
        t.components().len() == 14,
        t.components()[ty.index()] == t.comp(ty),
{
    lemma_component_index(ty);
}

/// Replacing one component updates one position of `components()`.
pub proof fn lemma_with_comp_components(t: Theme, ty: ThemeComponentType, c: ThemeComponent)
    ensures
        t.with_comp(ty, c).components() == t.components().update(ty.index(), c),
        t.with_comp(ty, c).name == t.name,
{
    lemma_component_index(ty);
    let a = t.with_comp(ty, c).components();
    let b = t.components().update(ty.index(), c);
    assert forall|i: int| 0 <= i < 14 implies a[i] == b[i] by {
        let u = all_component_types()[i];
        assert(u.index() == i);
    }
    assert(a =~= b);
}

} // verus!
