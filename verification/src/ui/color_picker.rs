//! The colour picker's controls: its two modes, which control has the
//! focus, text entry into the value fields, and hit-testing of the areas
//! the picker is laid out in.
//!
//! The picker also keeps HSL and HSV readings of the colour as floating
//! point numbers; those live with the caller, which updates them whenever
//! an operation here reports that the RGB channels changed.

use vstd::prelude::*;
use vstd::string::StrSliceExecFns;
use crate::theme::{
    RgbColor, hex_byte, hex_sliceable, spec_from_hex, spec_to_hex, clamp_byte, strip_leading,
    lemma_hex_round_trip, lemma_ascii_utf8_len,
};
use vstd::utf8::is_ascii_chars;
use crate::text::{
    chars_of, push_char, pop_char, is_digit, is_hex_digit, to_lower, utf8_len, utf8_len_capped,
    char_is_digit, char_is_hex_digit, char_to_lower, dec_string, u32_to_decimal,
};
use crate::update::{spec_parse_u32, parse_u32_chars};
use crate::ui::state::push_hex_pair;
use ratatui::layout::{Constraint, Layout};

verus! {

/// The two ways the picker shows the colour.
#[derive(Debug, Clone, Copy, PartialEq, Eq, Structural)]
pub enum ColorPickerMode {
    RgbSliders,
    HslField,
}

impl ColorPickerMode {
    /// The other mode.
    pub open spec fn other(self) -> ColorPickerMode {
        match self {
            ColorPickerMode::RgbSliders => ColorPickerMode::HslField,
            ColorPickerMode::HslField => ColorPickerMode::RgbSliders,
        }
    }

    pub fn toggle(self) -> (res: Self)
        ensures
            res == self.other(),
    {
        match self {
            ColorPickerMode::RgbSliders => ColorPickerMode::HslField,
            ColorPickerMode::HslField => ColorPickerMode::RgbSliders,
        }
    }
}

/// Toggling the mode always changes it, and toggling twice gives it back.
pub proof fn lemma_mode_toggle(m: ColorPickerMode)
    ensures
        m.other() != m,
        m.other().other() == m,
{
}

/// The control that has the keyboard focus.
#[derive(Debug, Clone, Copy, PartialEq, Eq, Structural)]
pub enum ColorPickerFocus {
    ModeToggle,
    RgbSlider(usize),
    HslField,
    LightnessSlider,
    HexField,
    RgbField(usize),
    HslFieldValue(usize),
}

/// What a mouse drag moves.
#[derive(Debug, Clone, Copy, PartialEq, Eq, Structural)]
pub enum ColorDragTarget {
    HslField,
    LightnessSlider,
}

/// A value field that text can be typed into.
#[derive(Debug, Clone, Copy, PartialEq, Eq, Structural)]
pub enum EditableField {
    Hex,
    Rgb(usize),
    Hsl(usize),
}

/// Text being typed into a value field.
#[derive(Debug, Clone)]
pub struct TextEditState {
    pub target: EditableField,
    pub value: String,
}

/// A rectangle of terminal cells: its top-left corner and its size.
#[derive(Debug, Clone, Copy, PartialEq, Eq, Structural)]
pub struct Rect {
    pub x: u16,
    pub y: u16,
    pub width: u16,
    pub height: u16,
}

/// The rectangle `Rect::new` makes: the size is cut down so that the right
/// and bottom edges stay within `u16`.
pub open spec fn spec_rect_new(x: u16, y: u16, width: u16, height: u16) -> Rect {
    Rect {
        x,
        y,
        width: if x + width > u16::MAX { (u16::MAX - x) as u16 } else { width },
        height: if y + height > u16::MAX { (u16::MAX - y) as u16 } else { height },
    }
}

/// Whether the cell `(x, y)` lies inside `r`.
pub open spec fn spec_contains(r: Rect, x: u16, y: u16) -> bool {
    &&& r.x <= x < r.x + r.width
    &&& r.y <= y < r.y + r.height
}

impl Rect {
    pub fn new(x: u16, y: u16, width: u16, height: u16) -> (res: Self)
        ensures
            res == spec_rect_new(x, y, width, height),
    {
        let w = if width > u16::MAX - x { u16::MAX - x } else { width };
        let h = if height > u16::MAX - y { u16::MAX - y } else { height };
        Rect { x, y, width: w, height: h }
    }
}

fn contains(rect: Rect, point: (u16, u16)) -> (res: bool)
    ensures
        res == spec_contains(rect, point.0, point.1),
{
    let (px, py) = point;
    let right: u32 = rect.x as u32 + rect.width as u32;
    let bottom: u32 = rect.y as u32 + rect.height as u32;
    px >= rect.x && (px as u32) < right && py >= rect.y && (py as u32) < bottom
}

/// Where the picker's controls were drawn.
#[derive(Debug, Clone, Copy)]
pub struct PickerRects {
    pub overlay: Rect,
    pub mode_switch: Rect,
    pub main_view: Rect,
    pub aux_slider: Rect,
    pub hex_field: Rect,
    pub rgb_fields: [Rect; 3],
    pub hsl_fields: [Rect; 3],
}

/// The empty rectangle at the origin.
pub open spec fn zero_rect() -> Rect {
    Rect { x: 0, y: 0, width: 0, height: 0 }
}

impl Default for PickerRects {
    fn default() -> (res: Self)
        ensures
            res.overlay == zero_rect(),
            res.mode_switch == zero_rect(),
            res.main_view == zero_rect(),
            res.aux_slider == zero_rect(),
            res.hex_field == zero_rect(),
            forall|i: int| 0 <= i < 3 ==> res.rgb_fields[i] == zero_rect(),
            forall|i: int| 0 <= i < 3 ==> res.hsl_fields[i] == zero_rect(),
    {
        let zero = Rect::new(0, 0, 0, 0);
        PickerRects {
            overlay: zero,
            mode_switch: zero,
            main_view: zero,
            aux_slider: zero,
            hex_field: zero,
            rgb_fields: [zero, zero, zero],
            hsl_fields: [zero, zero, zero],
        }
    }
}

/// Text colour that stays readable on `rgb`: dark on light colours, light
/// on dark ones, split at a relative luminance of 0.55 (Rec. 709 weights).
pub open spec fn spec_contrast_text(rgb: RgbColor) -> RgbColor {
    if 2126 * rgb.r + 7152 * rgb.g + 722 * rgb.b > 1402500 {
        RgbColor { r: 18, g: 18, b: 24 }
    } else {
        RgbColor { r: 245, g: 245, b: 250 }
    }
}

pub fn contrast_text(rgb: RgbColor) -> (res: RgbColor)
    ensures
        res == spec_contrast_text(rgb),
{
    let weighted: u32 = 2126 * (rgb.r as u32) + 7152 * (rgb.g as u32) + 722 * (rgb.b as u32);
    if weighted > 1402500 {
        RgbColor::new(18, 18, 24)
    } else {
        RgbColor::new(245, 245, 250)
    }
}

/// A plain-value picture of a `TextEditState`.
pub struct TextEditView {
    pub target: EditableField,
    pub value: Seq<char>,
}

impl TextEditState {
    pub open spec fn view(&self) -> TextEditView {
        TextEditView { target: self.target, value: self.value@ }
    }
}

/// The picker's controls and the colour under edit, as RGB channels.
#[derive(Debug, Clone)]
pub struct ColorEditor {
    pub mode: ColorPickerMode,
    pub focus: ColorPickerFocus,
    pub rgb: [u8; 3],
    pub drag_target: Option<ColorDragTarget>,
    pub text_edit: Option<TextEditState>,
}

/// A plain-value picture of a picker `ColorEditor`.
pub struct PickerView {
    pub mode: ColorPickerMode,
    pub focus: ColorPickerFocus,
    pub rgb: RgbColor,
    pub drag_target: Option<ColorDragTarget>,
    pub text_edit: Option<TextEditView>,
}

/// Channel `i` (red, green, blue) of `c`.
pub open spec fn channel(c: RgbColor, i: int) -> u8 {
    if i == 0 {
        c.r
    } else if i == 1 {
        c.g
    } else {
        c.b
    }
}

/// `c` with channel `i` set to `v`.
pub open spec fn with_channel(c: RgbColor, i: int, v: u8) -> RgbColor {
    if i == 0 {
        RgbColor { r: v, ..c }
    } else if i == 1 {
        RgbColor { g: v, ..c }
    } else {
        RgbColor { b: v, ..c }
    }
}

/// The colour as six lower-case hex digits, without `#`.
pub open spec fn hex_digits(c: RgbColor) -> Seq<char> {
    hex_byte(c.r) + hex_byte(c.g) + hex_byte(c.b)
}

/// `u16::from_str`: an optional `+` and decimal digits whose value fits in `u16`.
pub open spec fn spec_parse_u16(s: Seq<char>) -> Option<u16> {
    match spec_parse_u32(s) {
        Some(n) => if n <= u16::MAX {
            Some(n as u16)
        } else {
            None
        },
        None => None,
    }
}

/// The order `Tab` walks through the controls in each mode.
pub open spec fn spec_focus_order(mode: ColorPickerMode) -> Seq<ColorPickerFocus> {
    match mode {
        ColorPickerMode::RgbSliders => seq![
            ColorPickerFocus::ModeToggle,
            ColorPickerFocus::RgbSlider(0),
            ColorPickerFocus::RgbSlider(1),
            ColorPickerFocus::RgbSlider(2),
            ColorPickerFocus::HexField,
            ColorPickerFocus::RgbField(0),
            ColorPickerFocus::RgbField(1),
            ColorPickerFocus::RgbField(2),
            ColorPickerFocus::HslFieldValue(0),
            ColorPickerFocus::HslFieldValue(1),
            ColorPickerFocus::HslFieldValue(2),
        ],
        ColorPickerMode::HslField => seq![
            ColorPickerFocus::ModeToggle,
            ColorPickerFocus::HslField,
            ColorPickerFocus::LightnessSlider,
            ColorPickerFocus::HexField,
            ColorPickerFocus::RgbField(0),
            ColorPickerFocus::RgbField(1),
            ColorPickerFocus::RgbField(2),
            ColorPickerFocus::HslFieldValue(0),
            ColorPickerFocus::HslFieldValue(1),
            ColorPickerFocus::HslFieldValue(2),
        ],
    }
}

/// Index of the first `f` in `s`.
pub open spec fn focus_position(s: Seq<ColorPickerFocus>, f: ColorPickerFocus) -> Option<int>
    decreases s.len(),
{
    if s.len() == 0 {
        None
    } else if s[0] == f {
        Some(0)
    } else {
        match focus_position(s.drop_first(), f) {
            Some(i) => Some(i + 1),
            None => None,
        }
    }
}

/// The control `Tab` (or, with `reverse`, `Shift+Tab`) moves the focus to.
/// The colour-field mode only alternates between the field and its slider.
pub open spec fn spec_focus_next(
    mode: ColorPickerMode,
    focus: ColorPickerFocus,
    reverse: bool,
) -> ColorPickerFocus {
    if mode == ColorPickerMode::HslField {
        if focus == ColorPickerFocus::LightnessSlider {
            ColorPickerFocus::HslField
        } else {
            ColorPickerFocus::LightnessSlider
        }
    } else {
        let order = spec_focus_order(mode);
        let idx = match focus_position(order, focus) {
            Some(i) => i,
            None => 0,
        };
        let next = if reverse {
            if idx == 0 {
                order.len() - 1
            } else {
                idx - 1
            }
        } else {
            (idx + 1) % (order.len() as int)
        };
        order[next]
    }
}

/// The name the status line shows for a focused control.
pub open spec fn spec_focus_label(f: ColorPickerFocus) -> Seq<char> {
    match f {
        ColorPickerFocus::ModeToggle => "mode switch"@,
        ColorPickerFocus::RgbSlider(i) => if i == 0 {
            "red slider"@
        } else if i == 1 {
            "green slider"@
        } else if i == 2 {
            "blue slider"@
        } else {
            "rgb slider"@
        },
        ColorPickerFocus::HslField => "color field"@,
        ColorPickerFocus::LightnessSlider => "value slider"@,
        ColorPickerFocus::HexField => "hex field"@,
        ColorPickerFocus::RgbField(i) => if i == 0 {
            "red field"@
        } else if i == 1 {
            "green field"@
        } else if i == 2 {
            "blue field"@
        } else {
            "rgb field"@
        },
        ColorPickerFocus::HslFieldValue(i) => if i == 0 {
            "hue field"@
        } else if i == 1 {
            "sat field"@
        } else if i == 2 {
            "light field"@
        } else {
            "hsl field"@
        },
    }
}

/// The first of three fields that contains `(x, y)`.
pub open spec fn first_hit(fields: [Rect; 3], x: u16, y: u16) -> Option<usize> {
    if spec_contains(fields[0], x, y) {
        Some(0)
    } else if spec_contains(fields[1], x, y) {
        Some(1)
    } else if spec_contains(fields[2], x, y) {
        Some(2)
    } else {
        None
    }
}

/// The slider row of the RGB sliders view that cell row `y` falls on:
/// each slider takes two rows, and rows below the last belong to it.
pub open spec fn slider_row(view: Rect, y: u16) -> usize {
    let below = if y >= view.y { y - view.y } else { 0 };
    if below / 2 > 2 {
        2
    } else {
        (below / 2) as usize
    }
}

/// The control a click at `(x, y)` lands on, if any.
pub open spec fn spec_focus_for_point(
    mode: ColorPickerMode,
    rects: PickerRects,
    x: u16,
    y: u16,
) -> Option<ColorPickerFocus> {
    if spec_contains(rects.mode_switch, x, y) {
        Some(ColorPickerFocus::ModeToggle)
    } else if spec_contains(rects.main_view, x, y) {
        Some(
            match mode {
                ColorPickerMode::RgbSliders => ColorPickerFocus::RgbSlider(slider_row(rects.main_view, y)),
                ColorPickerMode::HslField => ColorPickerFocus::HslField,
            },
        )
    } else if spec_contains(rects.aux_slider, x, y) {
        Some(
            match mode {
                ColorPickerMode::RgbSliders => ColorPickerFocus::RgbSlider(2),
                ColorPickerMode::HslField => ColorPickerFocus::LightnessSlider,
            },
        )
    } else if spec_contains(rects.hex_field, x, y) {
        Some(ColorPickerFocus::HexField)
    } else if let Some(i) = first_hit(rects.rgb_fields, x, y) {
        Some(ColorPickerFocus::RgbField(i))
    } else if let Some(i) = first_hit(rects.hsl_fields, x, y) {
        Some(ColorPickerFocus::HslFieldValue(i))
    } else {
        None
    }
}

fn first_hit_exec(fields: &[Rect; 3], x: u16, y: u16) -> (res: Option<usize>)
    ensures
        res == first_hit(*fields, x, y),
{
    let mut idx: usize = 0;
    while idx < 3
        invariant
            idx <= 3,
            forall|j: int| 0 <= j < idx ==> !spec_contains(fields[j], x, y),
        decreases 3 - idx,
    {
        if contains(fields[idx], (x, y)) {
            return Some(idx);
        }
        idx = idx + 1;
    }
    None
}


/// The text a field starts from when editing begins: six hex digits, a
/// channel in decimal, or the HSL reading the caller supplies.
pub open spec fn edit_text(
    rgb: RgbColor,
    field: EditableField,
    hue: Seq<char>,
    sat: Seq<char>,
    light: Seq<char>,
) -> Seq<char> {
    match field {
        EditableField::Hex => hex_digits(rgb),
        EditableField::Rgb(i) => dec_string(channel(rgb, i as int) as nat),
        EditableField::Hsl(i) => if i == 0 {
            hue
        } else if i == 1 {
            sat
        } else if i == 2 {
            light
        } else {
            Seq::empty()
        },
    }
}

/// The text a field shows when it is not being edited: `#rrggbb`, a
/// channel in decimal, or the HSL reading the caller supplies.
pub open spec fn display_text(
    rgb: RgbColor,
    field: EditableField,
    hue: Seq<char>,
    sat: Seq<char>,
    light: Seq<char>,
) -> Seq<char> {
    match field {
        EditableField::Hex => spec_to_hex(rgb),
        _ => edit_text(rgb, field, hue, sat, light),
    }
}

/// The field that editing the focused control types into.
pub open spec fn focused_field(f: ColorPickerFocus) -> Option<EditableField> {
    match f {
        ColorPickerFocus::HexField => Some(EditableField::Hex),
        ColorPickerFocus::RgbField(i) => Some(EditableField::Rgb(i)),
        ColorPickerFocus::HslFieldValue(i) => Some(EditableField::Hsl(i)),
        _ => None,
    }
}

/// What committing typed text did.
pub enum TextCommit {
    /// No text was being typed.
    NoEdit,
    /// The text is not a value the field takes; it is dropped.
    Rejected,
    /// The RGB channels were set from the text.
    RgbSet,
    /// Text typed into HSL field `index`, for the caller to read as a number.
    Hsl(usize, String),
}

/// A plain-value picture of a `TextCommit`.
pub enum CommitView {
    NoEdit,
    Rejected,
    RgbSet,
    Hsl(usize, Seq<char>),
}

pub open spec fn commit_view(c: TextCommit) -> CommitView {
    match c {
        TextCommit::NoEdit => CommitView::NoEdit,
        TextCommit::Rejected => CommitView::Rejected,
        TextCommit::RgbSet => CommitView::RgbSet,
        TextCommit::Hsl(i, s) => CommitView::Hsl(i, s@),
    }
}

/// Committing `e` does not index past the three channels or slice the hex
/// text inside a character.
pub open spec fn commit_ok(e: TextEditView) -> bool {
    match e.target {
        EditableField::Hex => hex_sliceable(e.value),
        EditableField::Rgb(i) => (spec_parse_u16(e.value) matches Some(v) && v <= 255) ==> i < 3,
        EditableField::Hsl(_) => true,
    }
}

impl PickerView {
    pub open spec fn start_hex(self) -> PickerView {
        PickerView {
            focus: ColorPickerFocus::HexField,
            text_edit: Some(TextEditView { target: EditableField::Hex, value: hex_digits(self.rgb) }),
            ..self
        }
    }

    pub open spec fn start_focused(self, hue: Seq<char>, sat: Seq<char>, light: Seq<char>) -> PickerView {
        match focused_field(self.focus) {
            Some(t) => PickerView {
                text_edit: Some(TextEditView { target: t, value: edit_text(self.rgb, t, hue, sat, light) }),
                ..self
            },
            None => self,
        }
    }

    pub open spec fn push_input(self, c: char) -> (PickerView, bool) {
        match self.text_edit {
            None => (self, false),
            Some(e) => {
                let pushed = |x: char| PickerView {
                    text_edit: Some(TextEditView { value: e.value.push(x), ..e }),
                    ..self
                };
                match e.target {
                    EditableField::Hex => if utf8_len(e.value) < 6 && is_hex_digit(c) {
                        (pushed(to_lower(c)), true)
                    } else {
                        (self, false)
                    },
                    _ => if is_digit(c) {
                        (pushed(c), true)
                    } else if c == '.' && e.target is Hsl && !e.value.contains('.') {
                        (pushed(c), true)
                    } else {
                        (self, false)
                    },
                }
            },
        }
    }

    pub open spec fn pop_input(self) -> (PickerView, bool) {
        match self.text_edit {
            None => (self, false),
            Some(e) => (
                PickerView {
                    text_edit: Some(
                        TextEditView {
                            value: if e.value.len() > 0 {
                                e.value.drop_last()
                            } else {
                                e.value
                            },
                            ..e
                        },
                    ),
                    ..self
                },
                true,
            ),
        }
    }

    pub open spec fn cancel_edit(self) -> PickerView {
        PickerView { text_edit: None, ..self }
    }

    pub open spec fn commit(self) -> (PickerView, CommitView) {
        let cleared = self.cancel_edit();
        match self.text_edit {
            None => (cleared, CommitView::NoEdit),
            Some(e) => match e.target {
                EditableField::Hex => match spec_from_hex(e.value) {
                    Some(c) => (PickerView { rgb: c, ..cleared }, CommitView::RgbSet),
                    None => (cleared, CommitView::Rejected),
                },
                EditableField::Rgb(i) => match spec_parse_u16(e.value) {
                    Some(v) => if v <= 255 {
                        (
                            PickerView { rgb: with_channel(self.rgb, i as int, v as u8), ..cleared },
                            CommitView::RgbSet,
                        )
                    } else {
                        (cleared, CommitView::Rejected)
                    },
                    None => (cleared, CommitView::Rejected),
                },
                EditableField::Hsl(i) => (cleared, CommitView::Hsl(i, e.value)),
            },
        }
    }

    pub open spec fn toggle_mode(self) -> PickerView {
        let m = self.mode.other();
        PickerView {
            mode: m,
            focus: match m {
                ColorPickerMode::RgbSliders => ColorPickerFocus::RgbSlider(0),
                ColorPickerMode::HslField => ColorPickerFocus::HslField,
            },
            drag_target: None,
            text_edit: None,
            ..self
        }
    }

    pub open spec fn with_focus(self, f: ColorPickerFocus) -> PickerView {
        PickerView { focus: f, text_edit: None, drag_target: None, ..self }
    }

    pub open spec fn focus_next(self, reverse: bool) -> PickerView {
        self.with_focus(spec_focus_next(self.mode, self.focus, reverse))
    }

    pub open spec fn adjust_slider(self, delta: i32) -> (PickerView, bool) {
        match self.focus {
            ColorPickerFocus::RgbSlider(i) => (
                PickerView {
                    rgb: with_channel(self.rgb, i as int, clamp_byte(channel(self.rgb, i as int) + delta)),
                    ..self
                },
                true,
            ),
            _ => (self, false),
        }
    }

    pub open spec fn slider_index(self) -> usize {
        match self.focus {
            ColorPickerFocus::RgbSlider(i) => i,
            _ => 0,
        }
    }

    pub open spec fn move_slider_focus(self, reverse: bool) -> PickerView {
        let current = self.slider_index();
        let next: usize = if reverse {
            if current == 0 {
                2
            } else {
                (current - 1) as usize
            }
        } else {
            ((current + 1) % 3) as usize
        };
        PickerView { focus: ColorPickerFocus::RgbSlider(next), ..self }
    }

    pub open spec fn field_value(
        self,
        field: EditableField,
        hue: Seq<char>,
        sat: Seq<char>,
        light: Seq<char>,
    ) -> Seq<char> {
        match self.text_edit {
            Some(e) => if e.target == field {
                e.value
            } else {
                display_text(self.rgb, field, hue, sat, light)
            },
            None => display_text(self.rgb, field, hue, sat, light),
        }
    }

    /// Whether showing `field` reads a channel that exists.
    pub open spec fn field_ok(self, field: EditableField) -> bool {
        let shown_from_edit = match self.text_edit {
            Some(e) => e.target == field,
            None => false,
        };
        !shown_from_edit ==> (field matches EditableField::Rgb(i) ==> i < 3)
    }
}

/// The editor `from_rgb` makes.
pub open spec fn picker_from_rgb(c: RgbColor) -> PickerView {
    PickerView {
        mode: ColorPickerMode::RgbSliders,
        focus: ColorPickerFocus::RgbSlider(0),
        rgb: c,
        drag_target: None,
        text_edit: None,
    }
}

/// `s` contains the character `c`.
fn str_has_char(s: &str, c: char) -> (res: bool)
    ensures
        res == s@.contains(c),
{
    let cs = chars_of(s);
    let mut i: usize = 0;
    while i < cs.len()
        invariant
            cs@ == s@,
            i <= cs@.len(),
            forall|j: int| 0 <= j < i ==> cs@[j] != c,
        decreases cs@.len() - i,
    {
        if cs[i] == c {
            return true;
        }
        i = i + 1;
    }
    false
}

/// `u16::from_str`.
fn parse_u16(s: &str) -> (res: Option<u16>)
    ensures
        res == spec_parse_u16(s@),
{
    let cs = chars_of(s);
    assert(cs@.subrange(0, cs@.len() as int) =~= s@);
    match parse_u32_chars(&cs, 0, cs.len()) {
        Some(n) => if n <= 65535 {
            Some(n as u16)
        } else {
            None
        },
        None => None,
    }
}

impl ColorEditor {
    pub open spec fn view(&self) -> PickerView {
        PickerView {
            mode: self.mode,
            focus: self.focus,
            rgb: RgbColor { r: self.rgb[0], g: self.rgb[1], b: self.rgb[2] },
            drag_target: self.drag_target,
            text_edit: match self.text_edit {
                Some(e) => Some(e.view()),
                None => None,
            },
        }
    }

    pub fn from_rgb(r: u8, g: u8, b: u8) -> (res: Self)
        ensures
            res.view() == picker_from_rgb(RgbColor { r, g, b }),
    {
        ColorEditor {
            mode: ColorPickerMode::RgbSliders,
            focus: ColorPickerFocus::RgbSlider(0),
            rgb: [r, g, b],
            drag_target: None,
            text_edit: None,
        }
    }

    pub fn to_rgb(&self) -> (res: RgbColor)
        ensures
            res == self.view().rgb,
    {
        RgbColor::new(self.rgb[0], self.rgb[1], self.rgb[2])
    }

    /// The colour as `#rrggbb`.
    pub fn hex(&self) -> (res: String)
        ensures
            res@ == spec_to_hex(self.view().rgb),
    {
        self.to_rgb().to_hex()
    }

    fn hex_digit_string(&self) -> (res: String)
        ensures
            res@ == hex_digits(self.view().rgb),
    {
        let mut s = String::new();
        push_hex_pair(&mut s, self.rgb[0]);
        push_hex_pair(&mut s, self.rgb[1]);
        push_hex_pair(&mut s, self.rgb[2]);
        s
    }

    /// Focuses the hex field and starts typing over the current hex digits.
    pub fn start_hex_input(&mut self)
        ensures
            final(self).view() == old(self).view().start_hex(),
    {
        let value = self.hex_digit_string();
        self.focus = ColorPickerFocus::HexField;
        self.text_edit = Some(TextEditState { target: EditableField::Hex, value });
    }

    /// Starts typing into the focused value field, from its current text;
    /// `hue`, `saturation` and `lightness` are the rounded HSL readings.
    pub fn start_editing_focused(&mut self, hue: &str, saturation: &str, lightness: &str)
        requires
            old(self).focus matches ColorPickerFocus::RgbField(i) ==> i < 3,
        ensures
            final(self).view() == old(self).view().start_focused(hue@, saturation@, lightness@),
    {
        let target = match self.focus {
            ColorPickerFocus::HexField => EditableField::Hex,
            ColorPickerFocus::RgbField(i) => EditableField::Rgb(i),
            ColorPickerFocus::HslFieldValue(i) => EditableField::Hsl(i),
            _ => return,
        };
        let value = match target {
            EditableField::Hex => self.hex_digit_string(),
            EditableField::Rgb(i) => u32_to_decimal(self.rgb[i] as u32),
            EditableField::Hsl(0) => String::from_str(hue),
            EditableField::Hsl(1) => String::from_str(saturation),
            EditableField::Hsl(2) => String::from_str(lightness),
            EditableField::Hsl(_) => String::new(),
        };
        self.text_edit = Some(TextEditState { target, value });
    }

    pub fn is_editing_text(&self) -> (res: bool)
        ensures
            res == self.text_edit is Some,
    {
        self.text_edit.is_some()
    }

    /// Types `c` into the field being edited, if the field takes it:
    /// up to six hex digits (lower-cased) for the hex field, decimal
    /// digits for the others, and one `.` for an HSL field.
    pub fn push_input_char(&mut self, c: char) -> (res: bool)
        ensures
            (final(self).view(), res) == old(self).view().push_input(c),
    {
        match &mut self.text_edit {
            None => false,
            Some(edit) => match edit.target {
                EditableField::Hex => {
                    if utf8_len_capped(edit.value.as_str(), 6) < 6 && char_is_hex_digit(c) {
                        push_char(&mut edit.value, char_to_lower(c));
                        true
                    } else {
                        false
                    }
                },
                EditableField::Rgb(_) | EditableField::Hsl(_) => {
                    if char_is_digit(c) {
                        push_char(&mut edit.value, c);
                        true
                    } else if c == '.' && matches!(edit.target, EditableField::Hsl(_))
                        && !str_has_char(edit.value.as_str(), '.') {
                        push_char(&mut edit.value, c);
                        true
                    } else {
                        false
                    }
                },
            },
        }
    }

    /// Deletes the last typed character; returns whether text is being edited.
    pub fn pop_input_char(&mut self) -> (res: bool)
        ensures
            (final(self).view(), res) == old(self).view().pop_input(),
    {
        match &mut self.text_edit {
            None => false,
            Some(edit) => {
                pop_char(&mut edit.value);
                true
            },
        }
    }

    pub fn cancel_text_edit(&mut self)
        ensures
            final(self).view() == old(self).view().cancel_edit(),
    {
        self.text_edit = None;
    }

    /// Ends text entry and sets the value typed: a hex colour, or a channel
    /// in `0..=255`. Text for an HSL field is handed back to be read as a
    /// number.
    pub fn commit_text_edit(&mut self) -> (res: TextCommit)
        requires
            old(self).view().text_edit matches Some(e) ==> commit_ok(e),
        ensures
            (final(self).view(), commit_view(res)) == old(self).view().commit(),
    {
        let edit = match self.text_edit.take() {
            None => return TextCommit::NoEdit,
            Some(e) => e,
        };
        match edit.target {
            EditableField::Hex => {
                match RgbColor::from_hex(edit.value.as_str()) {
                    Some(c) => {
                        self.rgb = [c.r, c.g, c.b];
                        TextCommit::RgbSet
                    },
                    None => TextCommit::Rejected,
                }
            },
            EditableField::Rgb(i) => {
                match parse_u16(edit.value.as_str()) {
                    Some(v) => if v <= 255 {
                        self.rgb[i] = v as u8;
                        TextCommit::RgbSet
                    } else {
                        TextCommit::Rejected
                    },
                    None => TextCommit::Rejected,
                }
            },
            EditableField::Hsl(i) => TextCommit::Hsl(i, edit.value),
        }
    }

    /// Switches mode; the focus moves to the new mode's main control and
    /// any drag or text entry ends.
    pub fn toggle_mode(&mut self)
        ensures
            final(self).view() == old(self).view().toggle_mode(),
    {
        self.mode = self.mode.toggle();
        self.focus = match self.mode {
            ColorPickerMode::RgbSliders => ColorPickerFocus::RgbSlider(0),
            ColorPickerMode::HslField => ColorPickerFocus::HslField,
        };
        self.drag_target = None;
        self.text_edit = None;
    }

    /// Moves the focus to the next control (the previous one with
    /// `reverse`), ending any drag or text entry.
    pub fn focus_next(&mut self, reverse: bool)
        ensures
            final(self).view() == old(self).view().focus_next(reverse),
    {
        self.text_edit = None;
        self.drag_target = None;
        if self.mode == ColorPickerMode::HslField {
            self.focus = match self.focus {
                ColorPickerFocus::LightnessSlider => ColorPickerFocus::HslField,
                _ => ColorPickerFocus::LightnessSlider,
            };
            return;
        }
        let order = self.focus_order();
        proof {
            lemma_focus_position_bound(order@, self.focus);
        }
        let idx = match focus_index(&order, self.focus) {
            Some(i) => i,
            None => 0,
        };
        let next = if reverse {
            if idx == 0 {
                order.len() - 1
            } else {
                idx - 1
            }
        } else {
            (idx + 1) % order.len()
        };
        self.focus = order[next];
    }

    /// Adds `delta` to the channel whose slider has the focus, clamped into
    /// `0..=255`; returns whether a slider had the focus (and the channels
    /// were set).
    pub fn adjust_rgb_slider_selection(&mut self, delta: i32) -> (res: bool)
        requires
            old(self).focus matches ColorPickerFocus::RgbSlider(i) ==> i < 3,
        ensures
            (final(self).view(), res) == old(self).view().adjust_slider(delta),
    {
        match self.focus {
            ColorPickerFocus::RgbSlider(idx) => {
                let v: i64 = self.rgb[idx] as i64 + delta as i64;
                self.rgb[idx] = if v < 0 {
                    0
                } else if v > 255 {
                    255
                } else {
                    v as u8
                };
                true
            },
            _ => false,
        }
    }

    /// Moves the focus to the next RGB slider (the previous one with
    /// `reverse`), wrapping around; from any other control it counts from
    /// the red slider.
    pub fn move_rgb_slider_focus(&mut self, reverse: bool)
        requires
            !reverse ==> old(self).view().slider_index() < usize::MAX,
        ensures
            final(self).view() == old(self).view().move_slider_focus(reverse),
    {
        let current = match self.focus {
            ColorPickerFocus::RgbSlider(idx) => idx,
            _ => 0,
        };
        let next = if reverse {
            if current == 0 {
                2
            } else {
                current - 1
            }
        } else {
            (current + 1) % 3
        };
        self.focus = ColorPickerFocus::RgbSlider(next);
    }

    pub fn set_drag_target(&mut self, target: Option<ColorDragTarget>)
        ensures
            final(self).view() == (PickerView { drag_target: target, ..old(self).view() }),
    {
        self.drag_target = target;
    }

    /// The text a value field shows: what is being typed into it, or else
    /// its value (`hue`, `saturation` and `lightness` are the caller's
    /// formatted HSL readings).
    pub fn field_value(&self, field: EditableField, hue: &str, saturation: &str, lightness: &str) -> (res: String)
        requires
            self.view().field_ok(field),
        ensures
            res@ == self.view().field_value(field, hue@, saturation@, lightness@),
    {
        match &self.text_edit {
            Some(edit) => {
                if edit.target == field {
                    return String::from_str(edit.value.as_str());
                }
            },
            None => {},
        }
        match field {
            EditableField::Hex => self.hex(),
            EditableField::Rgb(i) => u32_to_decimal(self.rgb[i] as u32),
            EditableField::Hsl(0) => String::from_str(hue),
            EditableField::Hsl(1) => String::from_str(saturation),
            EditableField::Hsl(2) => String::from_str(lightness),
            EditableField::Hsl(_) => String::new(),
        }
    }

    pub fn focus_label(&self) -> (res: &'static str)
        ensures
            res@ == spec_focus_label(self.focus),
    {
        match self.focus {
            ColorPickerFocus::ModeToggle => "mode switch",
            ColorPickerFocus::RgbSlider(0) => "red slider",
            ColorPickerFocus::RgbSlider(1) => "green slider",
            ColorPickerFocus::RgbSlider(2) => "blue slider",
            ColorPickerFocus::RgbSlider(_) => "rgb slider",
            ColorPickerFocus::HslField => "color field",
            ColorPickerFocus::LightnessSlider => "value slider",
            ColorPickerFocus::HexField => "hex field",
            ColorPickerFocus::RgbField(0) => "red field",
            ColorPickerFocus::RgbField(1) => "green field",
            ColorPickerFocus::RgbField(2) => "blue field",
            ColorPickerFocus::RgbField(_) => "rgb field",
            ColorPickerFocus::HslFieldValue(0) => "hue field",
            ColorPickerFocus::HslFieldValue(1) => "sat field",
            ColorPickerFocus::HslFieldValue(2) => "light field",
            ColorPickerFocus::HslFieldValue(_) => "hsl field",
        }
    }

    /// The control a click at `(x, y)` lands on, if any.
    pub fn focus_for_point(&self, rects: &PickerRects, x: u16, y: u16) -> (res: Option<ColorPickerFocus>)
        ensures
            res == spec_focus_for_point(self.mode, *rects, x, y),
    {
        let point = (x, y);
        if contains(rects.mode_switch, point) {
            return Some(ColorPickerFocus::ModeToggle);
        }
        if contains(rects.main_view, point) {
            return Some(
                match self.mode {
                    ColorPickerMode::RgbSliders => {
                        let below = if y >= rects.main_view.y { y - rects.main_view.y } else { 0 };
                        let row = if below / 2 > 2 { 2 } else { below / 2 };
                        ColorPickerFocus::RgbSlider(row as usize)
                    },
                    ColorPickerMode::HslField => ColorPickerFocus::HslField,
                },
            );
        }
        if contains(rects.aux_slider, point) {
            return Some(
                match self.mode {
                    ColorPickerMode::RgbSliders => ColorPickerFocus::RgbSlider(2),
                    ColorPickerMode::HslField => ColorPickerFocus::LightnessSlider,
                },
            );
        }
        if contains(rects.hex_field, point) {
            return Some(ColorPickerFocus::HexField);
        }
        if let Some(idx) = first_hit_exec(&rects.rgb_fields, x, y) {
            return Some(ColorPickerFocus::RgbField(idx));
        }
        if let Some(idx) = first_hit_exec(&rects.hsl_fields, x, y) {
            return Some(ColorPickerFocus::HslFieldValue(idx));
        }
        None
    }

    /// Gives `focus` the focus, ending any drag or text entry.
    pub fn set_focus(&mut self, focus: ColorPickerFocus)
        ensures
            final(self).view() == old(self).view().with_focus(focus),
    {
        self.focus = focus;
        self.text_edit = None;
        self.drag_target = None;
    }

    fn focus_order(&self) -> (res: Vec<ColorPickerFocus>)
        ensures
            res@ == spec_focus_order(self.mode),
    {
        match self.mode {
            ColorPickerMode::RgbSliders => vec![
                ColorPickerFocus::ModeToggle,
                ColorPickerFocus::RgbSlider(0),
                ColorPickerFocus::RgbSlider(1),
                ColorPickerFocus::RgbSlider(2),
                ColorPickerFocus::HexField,
                ColorPickerFocus::RgbField(0),
                ColorPickerFocus::RgbField(1),
                ColorPickerFocus::RgbField(2),
                ColorPickerFocus::HslFieldValue(0),
                ColorPickerFocus::HslFieldValue(1),
                ColorPickerFocus::HslFieldValue(2),
            ],
            ColorPickerMode::HslField => vec![
                ColorPickerFocus::ModeToggle,
                ColorPickerFocus::HslField,
                ColorPickerFocus::LightnessSlider,
                ColorPickerFocus::HexField,
                ColorPickerFocus::RgbField(0),
                ColorPickerFocus::RgbField(1),
                ColorPickerFocus::RgbField(2),
                ColorPickerFocus::HslFieldValue(0),
                ColorPickerFocus::HslFieldValue(1),
                ColorPickerFocus::HslFieldValue(2),
            ],
        }
    }
}


proof fn lemma_focus_position_bound(s: Seq<ColorPickerFocus>, f: ColorPickerFocus)
    ensures
        focus_position(s, f) matches Some(k) ==> 0 <= k < s.len() && s[k] == f,
    decreases s.len(),
{
    if s.len() > 0 && s[0] != f {
        lemma_focus_position_bound(s.drop_first(), f);
    }
}

fn focus_index(order: &Vec<ColorPickerFocus>, f: ColorPickerFocus) -> (res: Option<usize>)
    ensures
        match focus_position(order@, f) {
            Some(k) => res == Some(k as usize),
            None => res is None,
        },
{
    let mut i: usize = 0;
    assert(order@.skip(0) =~= order@);
    while i < order.len()
        invariant
            i <= order@.len(),
            focus_position(order@, f) == match focus_position(order@.skip(i as int), f) {
                Some(k) => Some(k + i),
                None => None,
            },
        decreases order@.len() - i,
    {
        assert(order@.skip(i as int)[0] == order@[i as int]);
        if order[i] == f {
            return Some(i);
        }
        assert(order@.skip(i as int).drop_first() =~= order@.skip(i + 1));
        i = i + 1;
    }
    assert(order@.skip(i as int).len() == 0);
    None
}


/// How much room one area of a split asks for.
#[derive(Debug, Clone, Copy, PartialEq, Eq, Structural)]
pub enum LayoutConstraint {
    Length(u16),
    Min(u16),
    Percentage(u16),
    Fill(u16),
}

/// `ratatui::layout::Layout::vertical(constraints).split(area)`: one area
/// per constraint, each as wide as `area` and at its left edge. Where each
/// area starts and how tall it is comes from the crate's constraint solver,
/// which walks hash maps seeded per process; nothing is stated of it.
#[verifier::external_body]
fn split_vertical(area: Rect, constraints: &[LayoutConstraint]) -> (res: Vec<Rect>)
    ensures
        res@.len() == constraints@.len(),
        forall|i: int| 0 <= i < res@.len() ==> res@[i].x == area.x && res@[i].width == area.width,
{
    let cs: Vec<Constraint> = constraints.iter().map(|c| match *c {
        LayoutConstraint::Length(n) => Constraint::Length(n),
        LayoutConstraint::Min(n) => Constraint::Min(n),
        LayoutConstraint::Percentage(n) => Constraint::Percentage(n),
        LayoutConstraint::Fill(n) => Constraint::Fill(n),
    }).collect();
    let r = ratatui::layout::Rect { x: area.x, y: area.y, width: area.width, height: area.height };
    Layout::vertical(cs).split(r).iter().map(|a| Rect { x: a.x, y: a.y, width: a.width, height: a.height }).collect()
}

/// `ratatui::layout::Layout::horizontal(constraints).split(area)`: one area
/// per constraint, each as tall as `area` and at its top edge. Where each
/// area starts and how wide it is comes from the crate's constraint solver,
/// which walks hash maps seeded per process; nothing is stated of it.
#[verifier::external_body]
fn split_horizontal(area: Rect, constraints: &[LayoutConstraint]) -> (res: Vec<Rect>)
    ensures
        res@.len() == constraints@.len(),
        forall|i: int| 0 <= i < res@.len() ==> res@[i].y == area.y && res@[i].height == area.height,
{
    let cs: Vec<Constraint> = constraints.iter().map(|c| match *c {
        LayoutConstraint::Length(n) => Constraint::Length(n),
        LayoutConstraint::Min(n) => Constraint::Min(n),
        LayoutConstraint::Percentage(n) => Constraint::Percentage(n),
        LayoutConstraint::Fill(n) => Constraint::Fill(n),
    }).collect();
    let r = ratatui::layout::Rect { x: area.x, y: area.y, width: area.width, height: area.height };
    Layout::horizontal(cs).split(r).iter().map(|a| Rect { x: a.x, y: a.y, width: a.width, height: a.height }).collect()
}

/// `a - b`, or 0 when `b` is larger.
pub open spec fn sat_sub(a: u16, b: u16) -> u16 {
    if a >= b { (a - b) as u16 } else { 0 }
}

pub open spec fn min_u16(a: u16, b: u16) -> u16 {
    if a <= b { a } else { b }
}

/// The popup's size: the asked size, at most the area less a border cell
/// on each side, and at least one cell.
pub open spec fn popup_size(asked: u16, room: u16) -> u16 {
    let s = min_u16(asked, sat_sub(room, 2));
    if s < 1 { 1 } else { s }
}

/// Left and top corner of a `width` by `height` popup centred in `area`.
pub open spec fn centered_origin(area: Rect, width: u16, height: u16) -> (int, int) {
    let pw = popup_size(width, area.width);
    let ph = popup_size(height, area.height);
    (area.x + sat_sub(area.width, pw) / 2, area.y + sat_sub(area.height, ph) / 2)
}

/// The corner of the centred popup is a cell coordinate.
pub open spec fn centered_ok(area: Rect, width: u16, height: u16) -> bool {
    let (x, y) = centered_origin(area, width, height);
    x <= u16::MAX && y <= u16::MAX
}

/// A `width` by `height` popup centred in `area`, kept inside it.
pub open spec fn spec_centered_rect(area: Rect, width: u16, height: u16) -> Rect {
    let (x, y) = centered_origin(area, width, height);
    spec_rect_new(x as u16, y as u16, popup_size(width, area.width), popup_size(height, area.height))
}

pub fn centered_rect(area: Rect, width: u16, height: u16) -> (res: Rect)
    requires
        centered_ok(area, width, height),
    ensures
        res == spec_centered_rect(area, width, height),
{
    let popup_width = width.min(area.width.saturating_sub(2)).max(1);
    let popup_height = height.min(area.height.saturating_sub(2)).max(1);
    let x = area.x + area.width.saturating_sub(popup_width) / 2;
    let y = area.y + area.height.saturating_sub(popup_height) / 2;
    Rect::new(x, y, popup_width, popup_height)
}

/// Three areas side by side on the row of `area`: each at its top edge and
/// as tall as it.
pub open spec fn on_row(parts: Seq<Rect>, area: Rect) -> bool {
    &&& parts.len() == 3
    &&& forall|i: int| 0 <= i < 3 ==> (#[trigger] parts[i]).y == area.y && parts[i].height == area.height
}

/// Splits a row into three value fields of about a third each.
pub fn split_three(area: Rect) -> (res: [Rect; 3])
    ensures
        on_row(res@, area),
{
    let cs = [LayoutConstraint::Percentage(33), LayoutConstraint::Percentage(34), LayoutConstraint::Percentage(33)];
    let v = split_horizontal(area, &cs);
    let res = [v[0], v[1], v[2]];
    assert(res@ =~= v@);
    res
}

/// A plain-value picture of `PickerRects`.
pub struct PickerLayout {
    pub overlay: Rect,
    pub mode_switch: Rect,
    pub main_view: Rect,
    pub aux_slider: Rect,
    pub hex_field: Rect,
    pub rgb_fields: Seq<Rect>,
    pub hsl_fields: Seq<Rect>,
}

impl PickerRects {
    pub open spec fn view(&self) -> PickerLayout {
        PickerLayout {
            overlay: self.overlay,
            mode_switch: self.mode_switch,
            main_view: self.main_view,
            aux_slider: self.aux_slider,
            hex_field: self.hex_field,
            rgb_fields: self.rgb_fields@,
            hsl_fields: self.hsl_fields@,
        }
    }
}

/// The picker overlay's size in `area`: 76 by 24 cells, less where the
/// area (minus a margin of two cells each side) is smaller.
pub open spec fn overlay_of(area: Rect) -> Rect {
    spec_centered_rect(area, min_u16(76, sat_sub(area.width, 4)), min_u16(24, sat_sub(area.height, 4)))
}

/// The overlay fits in `area` with room for its one-cell border.
pub open spec fn picker_layout_ok(area: Rect) -> bool {
    &&& centered_ok(area, min_u16(76, sat_sub(area.width, 4)), min_u16(24, sat_sub(area.height, 4)))
    &&& overlay_of(area).x < u16::MAX
    &&& overlay_of(area).y < u16::MAX
}

/// What holds of where the picker draws its controls in `area`, whatever
/// sizes the layout solver picks: the overlay is centred as
/// `overlay_of` says, the slider mode has no side slider, and the three RGB
/// fields share one row, as do the three HSL fields.
pub open spec fn picker_layout_holds(l: PickerLayout, area: Rect, mode: ColorPickerMode) -> bool {
    &&& l.overlay == overlay_of(area)
    &&& mode == ColorPickerMode::RgbSliders ==> l.aux_slider == zero_rect()
    &&& l.rgb_fields.len() == 3
    &&& l.hsl_fields.len() == 3
    &&& forall|i: int| 0 <= i < 3 ==> (#[trigger] l.rgb_fields[i]).y == l.rgb_fields[0].y
        && l.rgb_fields[i].height == l.rgb_fields[0].height
    &&& forall|i: int| 0 <= i < 3 ==> (#[trigger] l.hsl_fields[i]).y == l.hsl_fields[0].y
        && l.hsl_fields[i].height == l.hsl_fields[0].height
}

/// The constraints each split of the picker layout is asked for.
pub struct PickerConstraints {
    /// Header, body and footer of the overlay's inside.
    pub rows: Vec<LayoutConstraint>,
    /// Main and side column of the body.
    pub cols: Vec<LayoutConstraint>,
    /// The main column: the view and, with the HSL field, its side slider.
    pub main: Vec<LayoutConstraint>,
    /// The side column: a gap above the value fields.
    pub side: Vec<LayoutConstraint>,
    /// The header: the mode switch and the rest.
    pub head: Vec<LayoutConstraint>,
    /// The three rows of value fields.
    pub fields: Vec<LayoutConstraint>,
    /// The hex row: the hex field and nothing beside it.
    pub hex: Vec<LayoutConstraint>,
}

/// A plain-value picture of `PickerConstraints`.
pub struct ConstraintsView {
    pub rows: Seq<LayoutConstraint>,
    pub cols: Seq<LayoutConstraint>,
    pub main: Seq<LayoutConstraint>,
    pub side: Seq<LayoutConstraint>,
    pub head: Seq<LayoutConstraint>,
    pub fields: Seq<LayoutConstraint>,
    pub hex: Seq<LayoutConstraint>,
}

impl PickerConstraints {
    pub open spec fn view(&self) -> ConstraintsView {
        ConstraintsView {
            rows: self.rows@,
            cols: self.cols@,
            main: self.main@,
            side: self.side@,
            head: self.head@,
            fields: self.fields@,
            hex: self.hex@,
        }
    }
}

/// The picker layout's constraints: a one-row header, a body of at least
/// 16 rows and a two-row footer; the body split 62% / 38%; in slider mode
/// a 7-row view above the rest, with the HSL field the field beside a
/// 6-column slider; a 5-row gap above three 3-row field rows; a 16-column
/// mode switch.
pub open spec fn spec_picker_constraints(mode: ColorPickerMode) -> ConstraintsView {
    ConstraintsView {
        rows: seq![LayoutConstraint::Length(1), LayoutConstraint::Min(16), LayoutConstraint::Length(2)],
        cols: seq![LayoutConstraint::Percentage(62), LayoutConstraint::Percentage(38)],
        main: match mode {
            ColorPickerMode::RgbSliders => seq![LayoutConstraint::Length(7), LayoutConstraint::Min(1)],
            ColorPickerMode::HslField => seq![LayoutConstraint::Fill(1), LayoutConstraint::Length(6)],
        },
        side: seq![LayoutConstraint::Length(5), LayoutConstraint::Fill(1)],
        head: seq![LayoutConstraint::Length(16), LayoutConstraint::Fill(1)],
        fields: seq![LayoutConstraint::Length(3), LayoutConstraint::Length(3), LayoutConstraint::Length(3)],
        hex: seq![LayoutConstraint::Fill(1), LayoutConstraint::Length(0)],
    }
}

pub fn picker_constraints(mode: ColorPickerMode) -> (res: PickerConstraints)
    ensures
        res.view() == spec_picker_constraints(mode),
{
    let res = PickerConstraints {
        rows: vec![LayoutConstraint::Length(1), LayoutConstraint::Min(16), LayoutConstraint::Length(2)],
        cols: vec![LayoutConstraint::Percentage(62), LayoutConstraint::Percentage(38)],
        main: match mode {
            ColorPickerMode::RgbSliders => vec![LayoutConstraint::Length(7), LayoutConstraint::Min(1)],
            ColorPickerMode::HslField => vec![LayoutConstraint::Fill(1), LayoutConstraint::Length(6)],
        },
        side: vec![LayoutConstraint::Length(5), LayoutConstraint::Fill(1)],
        head: vec![LayoutConstraint::Length(16), LayoutConstraint::Fill(1)],
        fields: vec![LayoutConstraint::Length(3), LayoutConstraint::Length(3), LayoutConstraint::Length(3)],
        hex: vec![LayoutConstraint::Fill(1), LayoutConstraint::Length(0)],
    };
    assert(res.view() =~~= spec_picker_constraints(mode));
    res
}

/// The pieces the layout's splits gave back.
pub struct PickerSplits {
    pub rows: Seq<Rect>,
    pub cols: Seq<Rect>,
    pub main: Seq<Rect>,
    pub side: Seq<Rect>,
    pub head: Seq<Rect>,
    pub fields: Seq<Rect>,
    pub hex: Seq<Rect>,
    pub rgb: Seq<Rect>,
    pub hsl: Seq<Rect>,
}

/// `parts` is a vertical split of `area` into `n` pieces: each at its left
/// edge and as wide as it.
pub open spec fn stacked_in(parts: Seq<Rect>, area: Rect, n: nat) -> bool {
    &&& parts.len() == n
    &&& forall|i: int| 0 <= i < n ==> (#[trigger] parts[i]).x == area.x && parts[i].width == area.width
}

/// `parts` is a horizontal split of `area` into `n` pieces: each at its top
/// edge and as tall as it.
pub open spec fn side_by_side_in(parts: Seq<Rect>, area: Rect, n: nat) -> bool {
    &&& parts.len() == n
    &&& forall|i: int| 0 <= i < n ==> (#[trigger] parts[i]).y == area.y && parts[i].height == area.height
}

/// The overlay's inside: the overlay less its one-cell border.
pub open spec fn inner_of(overlay: Rect) -> Rect {
    spec_rect_new((overlay.x + 1) as u16, (overlay.y + 1) as u16, sat_sub(overlay.width, 2), sat_sub(overlay.height, 2))
}

/// Which area each split divides, and into how many pieces: the inside
/// into rows, the body row into columns, the main column (down in slider
/// mode, across with the HSL field), the side column, the header, the
/// field area under the side column's gap, the hex row, and the RGB and
/// HSL rows into three fields each.
pub open spec fn splits_fit(s: PickerSplits, area: Rect, mode: ColorPickerMode) -> bool {
    let c = spec_picker_constraints(mode);
    &&& stacked_in(s.rows, inner_of(overlay_of(area)), c.rows.len())
    &&& side_by_side_in(s.cols, s.rows[1], c.cols.len())
    &&& match mode {
        ColorPickerMode::RgbSliders => stacked_in(s.main, s.cols[0], c.main.len()),
        ColorPickerMode::HslField => side_by_side_in(s.main, s.cols[0], c.main.len()),
    }
    &&& stacked_in(s.side, s.cols[1], c.side.len())
    &&& side_by_side_in(s.head, s.rows[0], c.head.len())
    &&& stacked_in(s.fields, s.side[1], c.fields.len())
    &&& side_by_side_in(s.hex, s.fields[0], c.hex.len())
    &&& side_by_side_in(s.rgb, s.fields[1], 3)
    &&& side_by_side_in(s.hsl, s.fields[2], 3)
}

/// The controls taken from the pieces: the mode switch is the header's
/// first piece, the main view the main column's first, the side slider its
/// second with the HSL field (none in slider mode), the hex field the hex
/// row's first, and the three RGB and HSL fields.
pub open spec fn assembled(overlay: Rect, s: PickerSplits, mode: ColorPickerMode) -> PickerLayout {
    PickerLayout {
        overlay,
        mode_switch: s.head[0],
        main_view: s.main[0],
        aux_slider: match mode {
            ColorPickerMode::RgbSliders => zero_rect(),
            ColorPickerMode::HslField => s.main[1],
        },
        hex_field: s.hex[0],
        rgb_fields: s.rgb,
        hsl_fields: s.hsl,
    }
}

/// Puts the picker's controls together from the pieces of its splits.
pub fn assemble_picker_rects(
    overlay: Rect,
    head: &Vec<Rect>,
    main: &Vec<Rect>,
    hex: &Vec<Rect>,
    rgb: [Rect; 3],
    hsl: [Rect; 3],
    mode: ColorPickerMode,
) -> (res: PickerRects)
    requires
        head@.len() >= 1,
        main@.len() >= 2,
        hex@.len() >= 1,
    ensures
        res.view() == assembled(
            overlay,
            PickerSplits {
                rows: Seq::empty(),
                cols: Seq::empty(),
                main: main@,
                side: Seq::empty(),
                head: head@,
                fields: Seq::empty(),
                hex: hex@,
                rgb: rgb@,
                hsl: hsl@,
            },
            mode,
        ),
{
    let aux_slider = match mode {
        ColorPickerMode::RgbSliders => Rect::new(0, 0, 0, 0),
        ColorPickerMode::HslField => main[1],
    };
    PickerRects {
        overlay,
        mode_switch: head[0],
        main_view: main[0],
        aux_slider,
        hex_field: hex[0],
        rgb_fields: rgb,
        hsl_fields: hsl,
    }
}

/// Where the picker draws its controls in `area`: the overlay centred as
/// `overlay_of` says, and each control taken by `assembled` from splits of
/// the areas `splits_fit` names, asked for with `picker_constraints(mode)`.
/// How the solver sizes the pieces along each split is not stated.
pub fn picker_layout(area: Rect, mode: ColorPickerMode) -> (res: PickerRects)
    requires
        picker_layout_ok(area),
    ensures
        picker_layout_holds(res.view(), area, mode),
        exists|s: PickerSplits| splits_fit(s, area, mode) && res.view() == assembled(overlay_of(area), s, mode),
{
    let c = picker_constraints(mode);
    let overlay_w = 76u16.min(area.width.saturating_sub(4));
    let overlay_h = 24u16.min(area.height.saturating_sub(4));
    let overlay = centered_rect(area, overlay_w, overlay_h);
    let inner = Rect::new(overlay.x + 1, overlay.y + 1, overlay.width.saturating_sub(2), overlay.height.saturating_sub(2));
    let rows = split_vertical(inner, c.rows.as_slice());
    let cols = split_horizontal(rows[1], c.cols.as_slice());
    let main = match mode {
        ColorPickerMode::RgbSliders => split_vertical(cols[0], c.main.as_slice()),
        ColorPickerMode::HslField => split_horizontal(cols[0], c.main.as_slice()),
    };
    let side = split_vertical(cols[1], c.side.as_slice());
    let head = split_horizontal(rows[0], c.head.as_slice());
    let fields = split_vertical(side[1], c.fields.as_slice());
    let hex = split_horizontal(fields[0], c.hex.as_slice());
    let rgb = split_three(fields[1]);
    let hsl = split_three(fields[2]);
    let res = assemble_picker_rects(overlay, &head, &main, &hex, rgb, hsl, mode);
    let ghost s = PickerSplits {
        rows: rows@,
        cols: cols@,
        main: main@,
        side: side@,
        head: head@,
        fields: fields@,
        hex: hex@,
        rgb: rgb@,
        hsl: hsl@,
    };
    assert(splits_fit(s, area, mode));
    assert(res.view() == assembled(overlay_of(area), s, mode));
    res
}


/// The first occurrence of an element is found at its own index.
proof fn lemma_position_first(s: Seq<ColorPickerFocus>, k: int)
    requires
        0 <= k < s.len(),
        forall|j: int| 0 <= j < k ==> s[j] != s[k],
    ensures
        focus_position(s, s[k]) == Some(k),
    decreases k,
{
    if k > 0 {
        let t = s.drop_first();
        assert forall|j: int| 0 <= j < k - 1 implies #[trigger] t[j] != t[k - 1] by {
            assert(t[j] == s[j + 1]);
        }
        lemma_position_first(t, k - 1);
        assert(t[k - 1] == s[k]);
    }
}

/// No control appears twice in the slider mode's `Tab` order.
proof fn lemma_slider_order_distinct()
    ensures
        forall|i: int, j: int|
            0 <= i < j < 11 ==> spec_focus_order(ColorPickerMode::RgbSliders)[i]
                != spec_focus_order(ColorPickerMode::RgbSliders)[j],
{
}

/// `Tab` followed by `Shift+Tab`, or the other way round, gives the focus
/// back to the control it started on: in the slider mode for every control
/// in the `Tab` order, in the colour-field mode for the field and its
/// slider, between which the two keys alternate.
pub proof fn lemma_focus_next_prev(mode: ColorPickerMode, f: ColorPickerFocus)
    requires
        mode == ColorPickerMode::RgbSliders ==> spec_focus_order(mode).contains(f),
        mode == ColorPickerMode::HslField ==> (f == ColorPickerFocus::HslField
            || f == ColorPickerFocus::LightnessSlider),
    ensures
        spec_focus_next(mode, spec_focus_next(mode, f, false), true) == f,
        spec_focus_next(mode, spec_focus_next(mode, f, true), false) == f,
{
    if mode == ColorPickerMode::RgbSliders {
        let order = spec_focus_order(mode);
        lemma_slider_order_distinct();
        let k = choose|k: int| 0 <= k < order.len() && order[k] == f;
        lemma_position_first(order, k);
        let up = (k + 1) % 11;
        let down = if k == 0 { 10 } else { k - 1 };
        lemma_position_first(order, up);
        lemma_position_first(order, down);
    }
}

/// Typing a character the field takes and then deleting it leaves the
/// text as it was.
pub proof fn lemma_push_pop_input(v: PickerView, c: char)
    requires
        v.push_input(c).1,
    ensures
        v.push_input(c).0.pop_input().0 == v,
{
    let e = v.text_edit->0;
    let x = if e.target == EditableField::Hex { to_lower(c) } else { c };
    assert(e.value.push(x).drop_last() =~= e.value);
}

/// Moving the slider focus down and then up (or up and then down) comes
/// back to the same slider.
pub proof fn lemma_slider_focus_round_trip(v: PickerView, i: usize)
    requires
        v.focus == ColorPickerFocus::RgbSlider(i),
        i < 3,
    ensures
        v.move_slider_focus(false).move_slider_focus(true) == v,
        v.move_slider_focus(true).move_slider_focus(false) == v,
{
}

/// Starting hex entry and committing it unchanged keeps the colour.
pub proof fn lemma_hex_entry_keeps_color(v: PickerView)
    ensures
        v.start_hex().commit().0.rgb == v.rgb,
        v.start_hex().commit().1 == CommitView::RgbSet,
{
    let h = hex_digits(v.rgb);
    lemma_hex_round_trip(v.rgb);
    let full = spec_to_hex(v.rgb);
    assert(full.drop_first() =~= h);
    assert(h.len() > 0 && h[0] != '#');
    assert(strip_leading(h, '#') == h);
    assert(strip_leading(full, '#') == strip_leading(full.drop_first(), '#'));
    assert(is_ascii_chars(h));
    lemma_ascii_utf8_len(h);
}

/// In slider mode, a click inside the main view (and not on the mode
/// switch) picks a slider by the row it falls on, counted from the view's
/// top: rows 0 and 1 are the red slider, rows 2 and 3 the green one, and
/// row 4 and everything below it the blue one.
pub proof fn lemma_click_picks_slider_by_row(rects: PickerRects, x: u16, y: u16)
    requires
        !spec_contains(rects.mode_switch, x, y),
        spec_contains(rects.main_view, x, y),
    ensures
        ({
            let d = y - rects.main_view.y;
            let res = spec_focus_for_point(ColorPickerMode::RgbSliders, rects, x, y);
            &&& (0 <= d < 2 ==> res == Some(ColorPickerFocus::RgbSlider(0)))
            &&& (2 <= d < 4 ==> res == Some(ColorPickerFocus::RgbSlider(1)))
            &&& (4 <= d ==> res == Some(ColorPickerFocus::RgbSlider(2)))
        }),
{
}

} // verus!
