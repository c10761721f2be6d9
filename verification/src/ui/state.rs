//! Editor state: the element and colour under edit, the RGB editor, the
//! input modes, and the operations the key bindings trigger.

use vstd::prelude::*;
use vstd::utf8::is_ascii_chars;
use crate::theme::{
    RgbColor, ThemeComponentType, Theme, ThemeComponent, default_component, default_components,
    all_component_types, lemma_component_index, lemma_components_index, lemma_with_comp_components, hex_byte, spec_from_hex, hex_sliceable, clamp_byte,
    spec_to_hex, strip_leading, lemma_hex_round_trip, lemma_ascii_hex_sliceable,
    lemma_ascii_utf8_len,
};
use crate::ui::loader::{ThemeFilter, visible, visible_themes};
use crate::config::{
    trim_start_ws, trim_end_ws, trim_start_chars, trim_end_chars, ConfigError, ConfigManager,
};
use vstd::string::{StringExecFns, StrSliceExecFns};
use crate::text::{
    chars_of, string_of, str_eq, views, str_order, sort_strings, is_alnum, is_digit, is_ascii_space, char_is_alnum, char_is_ascii_space, is_unicode_space,
    push_char, pop_char, is_hex_digit, to_lower, utf8_len, utf8_len_capped, char_is_hex_digit,
    char_to_lower, hex_digit_char,
};

verus! {

/// Which colour of the selected element is edited.
#[derive(Debug, Clone, Copy, PartialEq, Eq, Structural)]
pub enum PreviewAttribute {
    Base,
    Background,
}

impl PreviewAttribute {
    pub open spec fn spec_label(self) -> Seq<char> {
        match self {
            PreviewAttribute::Base => "FG"@,
            PreviewAttribute::Background => "BG"@,
        }
    }

    /// The other attribute.
    pub open spec fn other(self) -> PreviewAttribute {
        match self {
            PreviewAttribute::Base => PreviewAttribute::Background,
            PreviewAttribute::Background => PreviewAttribute::Base,
        }
    }

    pub fn label(&self) -> (res: &'static str)
        ensures
            res@ == self.spec_label(),
    {
        match self {
            PreviewAttribute::Base => "FG",
            PreviewAttribute::Background => "BG",
        }
    }

    /// Switches to the other attribute.
    pub fn cycle(&mut self)
        ensures
            *final(self) == old(self).other(),
    {
        *self = match self {
            PreviewAttribute::Base => PreviewAttribute::Background,
            PreviewAttribute::Background => PreviewAttribute::Base,
        };
    }
}

/// Cycling twice gives the attribute back.
pub proof fn lemma_attribute_cycle_twice(a: PreviewAttribute)
    ensures
        a.other().other() == a,
{
}

/// The parts of the simulated Zellij screen that can be selected.
#[derive(Debug, Clone, Copy, PartialEq, Eq, Structural)]
pub enum PreviewElement {
    TabSelected,
    TabUnselected1,
    TabUnselected2,
    StatusBar,
    PaneSelected,
    TextSelected,
    PaneUnselected,
    PaneHighlight,
    TableTitle,
    TableCellSelected,
    TableCellUnselected,
    ListSelected,
    ListUnselected,
    ExitSuccess,
    ExitError,
}

/// The elements from the top of the screen to the bottom.
pub open spec fn vertical_order() -> Seq<PreviewElement> {
    seq![
        PreviewElement::TabSelected,
        PreviewElement::TabUnselected1,
        PreviewElement::TabUnselected2,
        PreviewElement::PaneSelected,
        PreviewElement::TextSelected,
        PreviewElement::PaneUnselected,
        PreviewElement::PaneHighlight,
        PreviewElement::TableTitle,
        PreviewElement::TableCellSelected,
        PreviewElement::TableCellUnselected,
        PreviewElement::ListSelected,
        PreviewElement::ListUnselected,
        PreviewElement::ExitSuccess,
        PreviewElement::ExitError,
        PreviewElement::StatusBar,
    ]
}

impl PreviewElement {
    /// Pane frames, which only have a foreground colour.
    pub open spec fn spec_is_frame(self) -> bool {
        self == PreviewElement::PaneSelected || self == PreviewElement::PaneUnselected || self
            == PreviewElement::PaneHighlight
    }

    pub open spec fn spec_component_type(self) -> ThemeComponentType {
        match self {
            PreviewElement::TabSelected => ThemeComponentType::RibbonSelected,
            PreviewElement::TabUnselected1 => ThemeComponentType::RibbonUnselected,
            PreviewElement::TabUnselected2 => ThemeComponentType::RibbonUnselected,
            PreviewElement::StatusBar => ThemeComponentType::TextUnselected,
            PreviewElement::PaneSelected => ThemeComponentType::FrameSelected,
            PreviewElement::TextSelected => ThemeComponentType::TextSelected,
            PreviewElement::PaneUnselected => ThemeComponentType::FrameUnselected,
            PreviewElement::PaneHighlight => ThemeComponentType::FrameHighlight,
            PreviewElement::TableTitle => ThemeComponentType::TableTitle,
            PreviewElement::TableCellSelected => ThemeComponentType::TableCellSelected,
            PreviewElement::TableCellUnselected => ThemeComponentType::TableCellUnselected,
            PreviewElement::ListSelected => ThemeComponentType::ListSelected,
            PreviewElement::ListUnselected => ThemeComponentType::ListUnselected,
            PreviewElement::ExitSuccess => ThemeComponentType::ExitCodeSuccess,
            PreviewElement::ExitError => ThemeComponentType::ExitCodeError,
        }
    }

    pub open spec fn spec_label(self) -> Seq<char> {
        match self {
            PreviewElement::TabSelected => "Tab (Selected)"@,
            PreviewElement::TabUnselected1 => "Tab (Unselected)"@,
            PreviewElement::TabUnselected2 => "Tab (Unselected)"@,
            PreviewElement::StatusBar => "Status Bar"@,
            PreviewElement::PaneSelected => "Pane (Selected)"@,
            PreviewElement::TextSelected => "Text (Selected)"@,
            PreviewElement::PaneUnselected => "Pane (Unselected)"@,
            PreviewElement::PaneHighlight => "Pane (Highlight)"@,
            PreviewElement::TableTitle => "Table Title"@,
            PreviewElement::TableCellSelected => "Table Cell (Selected)"@,
            PreviewElement::TableCellUnselected => "Table Cell (Unselected)"@,
            PreviewElement::ListSelected => "List (Selected)"@,
            PreviewElement::ListUnselected => "List (Unselected)"@,
            PreviewElement::ExitSuccess => "Exit (Success)"@,
            PreviewElement::ExitError => "Exit (Error)"@,
        }
    }

    /// Position in `vertical_order()`.
    pub open spec fn spec_vertical_index(self) -> int {
        match self {
            PreviewElement::TabSelected => 0,
            PreviewElement::TabUnselected1 => 1,
            PreviewElement::TabUnselected2 => 2,
            PreviewElement::PaneSelected => 3,
            PreviewElement::TextSelected => 4,
            PreviewElement::PaneUnselected => 5,
            PreviewElement::PaneHighlight => 6,
            PreviewElement::TableTitle => 7,
            PreviewElement::TableCellSelected => 8,
            PreviewElement::TableCellUnselected => 9,
            PreviewElement::ListSelected => 10,
            PreviewElement::ListUnselected => 11,
            PreviewElement::ExitSuccess => 12,
            PreviewElement::ExitError => 13,
            PreviewElement::StatusBar => 14,
        }
    }

    /// The element above, wrapping from the top to the bottom.
    pub open spec fn above(self) -> PreviewElement {
        vertical_order()[(self.spec_vertical_index() + 14) % 15]
    }

    /// The element below, wrapping from the bottom to the top.
    pub open spec fn below(self) -> PreviewElement {
        vertical_order()[(self.spec_vertical_index() + 1) % 15]
    }

    /// Moving left: tabs move towards the first tab, the right pane's
    /// contents jump to the left column, the rest stays.
    pub open spec fn spec_left(self) -> PreviewElement {
        match self {
            PreviewElement::TabSelected => PreviewElement::TabSelected,
            PreviewElement::TabUnselected1 => PreviewElement::TabSelected,
            PreviewElement::TabUnselected2 => PreviewElement::TabUnselected1,
            PreviewElement::StatusBar => PreviewElement::StatusBar,
            PreviewElement::PaneSelected => PreviewElement::PaneSelected,
            PreviewElement::TextSelected => PreviewElement::TextSelected,
            PreviewElement::PaneUnselected => PreviewElement::PaneUnselected,
            PreviewElement::PaneHighlight => PreviewElement::PaneSelected,
            PreviewElement::TableTitle => PreviewElement::PaneSelected,
            PreviewElement::TableCellSelected => PreviewElement::PaneSelected,
            PreviewElement::TableCellUnselected => PreviewElement::PaneSelected,
            PreviewElement::ListSelected => PreviewElement::PaneSelected,
            PreviewElement::ListUnselected => PreviewElement::PaneSelected,
            PreviewElement::ExitSuccess => PreviewElement::PaneSelected,
            PreviewElement::ExitError => PreviewElement::PaneSelected,
        }
    }

    /// Moving right: tabs move towards the last tab, the left column jumps
    /// to the right pane, the success exit code moves to the error one, the
    /// rest stays.
    pub open spec fn spec_right(self) -> PreviewElement {
        match self {
            PreviewElement::TabSelected => PreviewElement::TabUnselected1,
            PreviewElement::TabUnselected1 => PreviewElement::TabUnselected2,
            PreviewElement::TabUnselected2 => PreviewElement::TabUnselected2,
            PreviewElement::StatusBar => PreviewElement::StatusBar,
            PreviewElement::PaneSelected => PreviewElement::PaneHighlight,
            PreviewElement::TextSelected => PreviewElement::PaneHighlight,
            PreviewElement::PaneUnselected => PreviewElement::PaneHighlight,
            PreviewElement::PaneHighlight => PreviewElement::PaneHighlight,
            PreviewElement::TableTitle => PreviewElement::TableTitle,
            PreviewElement::TableCellSelected => PreviewElement::TableCellSelected,
            PreviewElement::TableCellUnselected => PreviewElement::TableCellUnselected,
            PreviewElement::ListSelected => PreviewElement::ListSelected,
            PreviewElement::ListUnselected => PreviewElement::ListUnselected,
            PreviewElement::ExitSuccess => PreviewElement::ExitError,
            PreviewElement::ExitError => PreviewElement::ExitError,
        }
    }

    pub fn is_frame(&self) -> (res: bool)
        ensures
            res == self.spec_is_frame(),
    {
        match self {
            PreviewElement::PaneSelected | PreviewElement::PaneUnselected
            | PreviewElement::PaneHighlight => true,
            _ => false,
        }
    }

    pub fn component_type(&self) -> (res: ThemeComponentType)
        ensures
            res == self.spec_component_type(),
    {
        match self {
            PreviewElement::TabSelected => ThemeComponentType::RibbonSelected,
            PreviewElement::TabUnselected1 => ThemeComponentType::RibbonUnselected,
            PreviewElement::TabUnselected2 => ThemeComponentType::RibbonUnselected,
            PreviewElement::StatusBar => ThemeComponentType::TextUnselected,
            PreviewElement::PaneSelected => ThemeComponentType::FrameSelected,
            PreviewElement::TextSelected => ThemeComponentType::TextSelected,
            PreviewElement::PaneUnselected => ThemeComponentType::FrameUnselected,
            PreviewElement::PaneHighlight => ThemeComponentType::FrameHighlight,
            PreviewElement::TableTitle => ThemeComponentType::TableTitle,
            PreviewElement::TableCellSelected => ThemeComponentType::TableCellSelected,
            PreviewElement::TableCellUnselected => ThemeComponentType::TableCellUnselected,
            PreviewElement::ListSelected => ThemeComponentType::ListSelected,
            PreviewElement::ListUnselected => ThemeComponentType::ListUnselected,
            PreviewElement::ExitSuccess => ThemeComponentType::ExitCodeSuccess,
            PreviewElement::ExitError => ThemeComponentType::ExitCodeError,
        }
    }

    pub fn label(&self) -> (res: &'static str)
        ensures
            res@ == self.spec_label(),
    {
        match self {
            PreviewElement::TabSelected => "Tab (Selected)",
            PreviewElement::TabUnselected1 => "Tab (Unselected)",
            PreviewElement::TabUnselected2 => "Tab (Unselected)",
            PreviewElement::StatusBar => "Status Bar",
            PreviewElement::PaneSelected => "Pane (Selected)",
            PreviewElement::TextSelected => "Text (Selected)",
            PreviewElement::PaneUnselected => "Pane (Unselected)",
            PreviewElement::PaneHighlight => "Pane (Highlight)",
            PreviewElement::TableTitle => "Table Title",
            PreviewElement::TableCellSelected => "Table Cell (Selected)",
            PreviewElement::TableCellUnselected => "Table Cell (Unselected)",
            PreviewElement::ListSelected => "List (Selected)",
            PreviewElement::ListUnselected => "List (Unselected)",
            PreviewElement::ExitSuccess => "Exit (Success)",
            PreviewElement::ExitError => "Exit (Error)",
        }
    }

    /// Full vertical order (top to bottom of the screen).
    pub(crate) fn vertical_order() -> (res: &'static [PreviewElement])
        ensures
            res@ == vertical_order(),
    {
        let res: &'static [PreviewElement] = &[
            PreviewElement::TabSelected,
            PreviewElement::TabUnselected1,
            PreviewElement::TabUnselected2,
            PreviewElement::PaneSelected,
            PreviewElement::TextSelected,
            PreviewElement::PaneUnselected,
            PreviewElement::PaneHighlight,
            PreviewElement::TableTitle,
            PreviewElement::TableCellSelected,
            PreviewElement::TableCellUnselected,
            PreviewElement::ListSelected,
            PreviewElement::ListUnselected,
            PreviewElement::ExitSuccess,
            PreviewElement::ExitError,
            PreviewElement::StatusBar,
        ];
        assert(res@ == vertical_order());
        res
    }

    /// Position of `self` in the vertical order.
    fn vertical_index(&self) -> (res: usize)
        ensures
            res == self.spec_vertical_index(),
    {
        let order = Self::vertical_order();
        let mut i: usize = 0;
        while i < order.len()
            invariant
                order@ == vertical_order(),
                i <= 15,
                forall|j: int| 0 <= j < i ==> order@[j] != *self,
            decreases 15 - i,
        {
            if order[i] == *self {
                proof {
                    lemma_vertical_index(*self);
                }
                return i;
            }
            i = i + 1;
        }
        proof {
            lemma_vertical_index(*self);
        }
        0
    }

    pub fn move_up(&mut self)
        ensures
            *final(self) == old(self).above(),
    {
        let order = Self::vertical_order();
        let idx = self.vertical_index();
        let next = if idx == 0 {
            order.len() - 1
        } else {
            idx - 1
        };
        *self = order[next];
    }

    pub fn move_down(&mut self)
        ensures
            *final(self) == old(self).below(),
    {
        let order = Self::vertical_order();
        let idx = self.vertical_index();
        let next = (idx + 1) % order.len();
        *self = order[next];
    }

    pub fn move_left(&mut self)
        ensures
            *final(self) == old(self).spec_left(),
    {
        *self = match self {
            PreviewElement::TabSelected => PreviewElement::TabSelected,
            PreviewElement::TabUnselected1 => PreviewElement::TabSelected,
            PreviewElement::TabUnselected2 => PreviewElement::TabUnselected1,
            PreviewElement::StatusBar => PreviewElement::StatusBar,
            PreviewElement::PaneSelected => PreviewElement::PaneSelected,
            PreviewElement::TextSelected => PreviewElement::TextSelected,
            PreviewElement::PaneUnselected => PreviewElement::PaneUnselected,
            PreviewElement::PaneHighlight => PreviewElement::PaneSelected,
            PreviewElement::TableTitle => PreviewElement::PaneSelected,
            PreviewElement::TableCellSelected => PreviewElement::PaneSelected,
            PreviewElement::TableCellUnselected => PreviewElement::PaneSelected,
            PreviewElement::ListSelected => PreviewElement::PaneSelected,
            PreviewElement::ListUnselected => PreviewElement::PaneSelected,
            PreviewElement::ExitSuccess => PreviewElement::PaneSelected,
            PreviewElement::ExitError => PreviewElement::PaneSelected,
        };
    }

    pub fn move_right(&mut self)
        ensures
            *final(self) == old(self).spec_right(),
    {
        *self = match self {
            PreviewElement::TabSelected => PreviewElement::TabUnselected1,
            PreviewElement::TabUnselected1 => PreviewElement::TabUnselected2,
            PreviewElement::TabUnselected2 => PreviewElement::TabUnselected2,
            PreviewElement::StatusBar => PreviewElement::StatusBar,
            PreviewElement::PaneSelected => PreviewElement::PaneHighlight,
            PreviewElement::TextSelected => PreviewElement::PaneHighlight,
            PreviewElement::PaneUnselected => PreviewElement::PaneHighlight,
            PreviewElement::PaneHighlight => PreviewElement::PaneHighlight,
            PreviewElement::TableTitle => PreviewElement::TableTitle,
            PreviewElement::TableCellSelected => PreviewElement::TableCellSelected,
            PreviewElement::TableCellUnselected => PreviewElement::TableCellUnselected,
            PreviewElement::ListSelected => PreviewElement::ListSelected,
            PreviewElement::ListUnselected => PreviewElement::ListUnselected,
            PreviewElement::ExitSuccess => PreviewElement::ExitError,
            PreviewElement::ExitError => PreviewElement::ExitError,
        };
    }
}

/// Each element sits at its index in the vertical order, and only there.
pub proof fn lemma_vertical_index(e: PreviewElement)
    ensures
        0 <= e.spec_vertical_index() < 15,
        vertical_order().len() == 15,
        vertical_order()[e.spec_vertical_index()] == e,
        forall|j: int| 0 <= j < 15 && vertical_order()[j] == e ==> j == e.spec_vertical_index(),
{
}

/// Moving down undoes moving up, and moving up undoes moving down.
pub proof fn lemma_move_up_down_inverse(e: PreviewElement)
    ensures
        e.above().below() == e,
        e.below().above() == e,
{
    lemma_vertical_index(e);
    lemma_vertical_index(e.above());
    lemma_vertical_index(e.below());
}


/// `e` moved down `n` times.
pub open spec fn below_n(e: PreviewElement, n: nat) -> PreviewElement
    decreases n,
{
    if n == 0 {
        e
    } else {
        below_n(e, (n - 1) as nat).below()
    }
}

/// `e` moved up `n` times.
pub open spec fn above_n(e: PreviewElement, n: nat) -> PreviewElement
    decreases n,
{
    if n == 0 {
        e
    } else {
        above_n(e, (n - 1) as nat).above()
    }
}

proof fn lemma_moves_index(e: PreviewElement, n: nat)
    ensures
        below_n(e, n).spec_vertical_index() == (e.spec_vertical_index() + n) % 15,
        above_n(e, n).spec_vertical_index() == (e.spec_vertical_index() + 14 * n) % 15,
    decreases n,
{
    lemma_vertical_index(e);
    if n > 0 {
        lemma_moves_index(e, (n - 1) as nat);
        let b = below_n(e, (n - 1) as nat);
        let a = above_n(e, (n - 1) as nat);
        lemma_vertical_index(b);
        lemma_vertical_index(a);
        lemma_vertical_index(b.below());
        lemma_vertical_index(a.above());
        assert((e.spec_vertical_index() + 14 * n) % 15 == ((e.spec_vertical_index() + 14 * (n - 1)) % 15 + 14) % 15) by (nonlinear_arith)
            requires n > 0;
        assert((e.spec_vertical_index() + n) % 15 == ((e.spec_vertical_index() + (n - 1)) % 15 + 1) % 15) by (nonlinear_arith)
            requires n > 0;
    }
}

/// Fifteen moves in one direction pass every element once and come back.
pub proof fn lemma_fifteen_moves_cycle(e: PreviewElement)
    ensures
        below_n(e, 15) == e,
        above_n(e, 15) == e,
        forall|n: nat| 0 < n < 15 ==> #[trigger] below_n(e, n) != e,
{
    lemma_vertical_index(e);
    lemma_moves_index(e, 15);
    lemma_vertical_index(below_n(e, 15));
    lemma_vertical_index(above_n(e, 15));
    assert((e.spec_vertical_index() + 14 * 15) % 15 == e.spec_vertical_index()) by (nonlinear_arith)
        requires 0 <= e.spec_vertical_index() < 15;
    assert forall|n: nat| 0 < n < 15 implies #[trigger] below_n(e, n) != e by {
        lemma_moves_index(e, n);
    }
}

/// The RGB colour editor: three channels, the channel the arrow keys
/// adjust, and the hex text being typed, if any.
pub struct ColorEditor {
    pub r: u8,
    pub g: u8,
    pub b: u8,
    pub editing_channel: usize,
    pub hex_input: Option<String>,
}

/// A plain-value picture of a `ColorEditor`.
pub struct EditorView {
    pub r: u8,
    pub g: u8,
    pub b: u8,
    pub editing_channel: usize,
    pub hex_input: Option<Seq<char>>,
}

/// The editor `from_rgb` makes.
pub open spec fn editor_from_rgb(c: RgbColor) -> EditorView {
    EditorView { r: c.r, g: c.g, b: c.b, editing_channel: 0, hex_input: None }
}

/// All characters are hex digits.
pub open spec fn all_hex(s: Seq<char>) -> bool {
    forall|i: int| 0 <= i < s.len() ==> is_hex_digit(#[trigger] s[i])
}

/// `channel + delta` fits in an `i32`.
pub open spec fn adjust_fits(v: u8, delta: i32) -> bool {
    v + delta <= i32::MAX
}

impl EditorView {
    pub open spec fn rgb(self) -> RgbColor {
        RgbColor { r: self.r, g: self.g, b: self.b }
    }

    /// The invariant the key bindings keep: a channel index in `0..3` and
    /// hex text made of hex digits only.
    pub open spec fn wf(self) -> bool {
        &&& self.editing_channel < 3
        &&& self.hex_input matches Some(h) ==> all_hex(h)
    }

    pub open spec fn start_hex(self) -> EditorView {
        EditorView {
            hex_input: Some(hex_byte(self.r) + hex_byte(self.g) + hex_byte(self.b)),
            ..self
        }
    }

    pub open spec fn push_hex(self, c: char) -> EditorView {
        match self.hex_input {
            Some(h) => if utf8_len(h) < 6 && is_hex_digit(c) {
                EditorView { hex_input: Some(h.push(to_lower(c))), ..self }
            } else {
                self
            },
            None => self,
        }
    }

    pub open spec fn pop_hex(self) -> EditorView {
        match self.hex_input {
            Some(h) => if h.len() > 0 {
                EditorView { hex_input: Some(h.drop_last()), ..self }
            } else {
                self
            },
            None => self,
        }
    }

    /// The editor after committing the hex text, and the colour committed.
    pub open spec fn commit_hex(self) -> (EditorView, Option<RgbColor>) {
        let cleared = EditorView { hex_input: None, ..self };
        match self.hex_input {
            Some(h) => if utf8_len(h) == 6 {
                match spec_from_hex(h) {
                    Some(c) => (EditorView { r: c.r, g: c.g, b: c.b, ..cleared }, Some(c)),
                    None => (cleared, None),
                }
            } else {
                (cleared, None)
            },
            None => (cleared, None),
        }
    }

    pub open spec fn adjust(self, delta: i32) -> EditorView {
        if self.editing_channel == 0 {
            EditorView { r: clamp_byte(self.r + delta), ..self }
        } else if self.editing_channel == 1 {
            EditorView { g: clamp_byte(self.g + delta), ..self }
        } else if self.editing_channel == 2 {
            EditorView { b: clamp_byte(self.b + delta), ..self }
        } else {
            self
        }
    }

    pub open spec fn adjust_ok(self, delta: i32) -> bool {
        &&& self.editing_channel == 0 ==> adjust_fits(self.r, delta)
        &&& self.editing_channel == 1 ==> adjust_fits(self.g, delta)
        &&& self.editing_channel == 2 ==> adjust_fits(self.b, delta)
    }

    pub open spec fn next_channel(self) -> EditorView {
        EditorView { editing_channel: ((self.editing_channel + 1) % 3) as usize, ..self }
    }

    pub open spec fn prev_channel(self) -> EditorView {
        EditorView {
            editing_channel: if self.editing_channel == 0 {
                2
            } else {
                (self.editing_channel - 1) as usize
            },
            ..self
        }
    }
}

impl ColorEditor {
    pub open spec fn view(&self) -> EditorView {
        EditorView {
            r: self.r,
            g: self.g,
            b: self.b,
            editing_channel: self.editing_channel,
            hex_input: match self.hex_input {
                Some(h) => Some(h@),
                None => None,
            },
        }
    }

    pub fn from_rgb(r: u8, g: u8, b: u8) -> (res: Self)
        ensures
            res.view() == editor_from_rgb(RgbColor { r, g, b }),
    {
        ColorEditor { r, g, b, editing_channel: 0, hex_input: None }
    }

    /// Starts hex entry with the current colour as six lower-case digits.
    pub fn start_hex_input(&mut self)
        ensures
            final(self).view() == old(self).view().start_hex(),
    {
        let mut s = String::new();
        push_hex_pair(&mut s, self.r);
        push_hex_pair(&mut s, self.g);
        push_hex_pair(&mut s, self.b);
        self.hex_input = Some(s);
    }

    /// Types a hex digit (lower-cased) while fewer than six bytes are entered.
    pub fn push_hex_char(&mut self, c: char)
        ensures
            final(self).view() == old(self).view().push_hex(c),
    {
        match &mut self.hex_input {
            Some(s) => {
                if utf8_len_capped(s.as_str(), 6) < 6 && char_is_hex_digit(c) {
                    push_char(s, char_to_lower(c));
                }
            },
            None => {},
        }
    }

    /// Deletes the last typed character; returns whether hex entry is active.
    pub fn pop_hex_char(&mut self) -> (res: bool)
        ensures
            final(self).view() == old(self).view().pop_hex(),
            res == old(self).hex_input is Some,
    {
        match &mut self.hex_input {
            Some(s) => {
                pop_char(s);
                true
            },
            None => false,
        }
    }

    /// Ends hex entry; six bytes of valid hex set and return the colour.
    pub fn commit_hex(&mut self) -> (res: Option<RgbColor>)
        requires
            old(self).hex_input matches Some(h) ==> hex_sliceable(h@),
        ensures
            (final(self).view(), res) == old(self).view().commit_hex(),
    {
        let committed = match &self.hex_input {
            Some(s) => if utf8_len_capped(s.as_str(), 7) == 6 {
                RgbColor::from_hex(s.as_str())
            } else {
                None
            },
            None => None,
        };
        self.hex_input = None;
        match committed {
            Some(c) => {
                self.r = c.r;
                self.g = c.g;
                self.b = c.b;
                Some(c)
            },
            None => None,
        }
    }

    pub fn cancel_hex(&mut self)
        ensures
            final(self).view() == (EditorView { hex_input: None, ..old(self).view() }),
    {
        self.hex_input = None;
    }

    pub fn to_rgb(&self) -> (res: RgbColor)
        ensures
            res == self.view().rgb(),
    {
        RgbColor::new(self.r, self.g, self.b)
    }

    /// Adds `delta` to the edited channel, clamped into `0..=255`.
    pub fn adjust(&mut self, delta: i32)
        requires
            old(self).view().adjust_ok(delta),
        ensures
            final(self).view() == old(self).view().adjust(delta),
    {
        match self.editing_channel {
            0 => self.r = clamp_to_byte(self.r as i32 + delta),
            1 => self.g = clamp_to_byte(self.g as i32 + delta),
            2 => self.b = clamp_to_byte(self.b as i32 + delta),
            _ => {},
        }
    }

    pub fn select_next_channel(&mut self)
        requires
            old(self).editing_channel < usize::MAX,
        ensures
            final(self).view() == old(self).view().next_channel(),
    {
        self.editing_channel = (self.editing_channel + 1) % 3;
    }

    pub fn select_prev_channel(&mut self)
        ensures
            final(self).view() == old(self).view().prev_channel(),
    {
        self.editing_channel = if self.editing_channel == 0 {
            2
        } else {
            self.editing_channel - 1
        };
    }
}

fn clamp_to_byte(v: i32) -> (res: u8)
    ensures
        res == clamp_byte(v as int),
{
    if v < 0 {
        0
    } else if v > 255 {
        255
    } else {
        v as u8
    }
}

pub(crate) fn push_hex_pair(s: &mut String, v: u8)
    ensures
        final(s)@ == old(s)@ + hex_byte(v),
{
    push_char(s, hex_digit_char(v / 16));
    push_char(s, hex_digit_char(v % 16));
}

/// Selecting the next channel and then the previous one (or the other way
/// round) returns to the channel selected before.
pub proof fn lemma_channel_next_prev(e: EditorView)
    requires
        e.editing_channel < 3,
    ensures
        e.next_channel().prev_channel() == e,
        e.prev_channel().next_channel() == e,
{
}

/// Hex text made of hex digits can always be committed without slicing
/// inside a character.
pub proof fn lemma_all_hex_sliceable(h: Seq<char>)
    requires
        all_hex(h),
    ensures
        hex_sliceable(h),
{
    assert(is_ascii_chars(h));
    lemma_ascii_hex_sliceable(h);
}

/// Committing hex text typed over the current colour's own digits keeps the colour.
pub proof fn lemma_start_commit_keeps_color(e: EditorView)
    ensures
        e.start_hex().commit_hex().1 == Some(e.rgb()),
        e.start_hex().commit_hex().0.rgb() == e.rgb(),
{
    let h = hex_byte(e.r) + hex_byte(e.g) + hex_byte(e.b);
    lemma_hex_round_trip(e.rgb());
    let full = spec_to_hex(e.rgb());
    assert(full.drop_first() =~= h);
    assert(h.len() > 0 && h[0] != '#');
    assert(strip_leading(h, '#') == h);
    assert(strip_leading(full, '#') == strip_leading(full.drop_first(), '#'));
    assert(is_ascii_chars(h));
    lemma_ascii_utf8_len(h);
}


/// What a character of a typed theme name becomes in the saved name:
/// letters (lower-cased), digits, `-` and `_` stay, ASCII whitespace turns
/// into `-`, anything else is dropped.
pub open spec fn name_char(c: char) -> Option<char> {
    if is_alnum(c) || c == '-' || c == '_' {
        Some(to_lower(c))
    } else if is_ascii_space(c) {
        Some('-')
    } else {
        None
    }
}

/// `name_char` applied to each character, dropped characters removed.
pub open spec fn filter_name(s: Seq<char>) -> Seq<char>
    decreases s.len(),
{
    if s.len() == 0 {
        s
    } else {
        filter_name(s.drop_last()) + match name_char(s.last()) {
            Some(x) => seq![x],
            None => Seq::empty(),
        }
    }
}

/// `s` without the trailing `c` characters.
pub open spec fn strip_trailing(s: Seq<char>, c: char) -> Seq<char>
    decreases s.len(),
{
    if s.len() > 0 && s.last() == c {
        strip_trailing(s.drop_last(), c)
    } else {
        s
    }
}

/// The theme name saved for typed text: trimmed, mapped character by
/// character with `name_char`, and stripped of leading and trailing `-`.
pub open spec fn spec_normalize_theme_name(input: Seq<char>) -> Seq<char> {
    strip_leading(strip_trailing(filter_name(trim_end_ws(trim_start_ws(input))), '-'), '-')
}

fn name_char_exec(c: char) -> (res: Option<char>)
    ensures
        res == name_char(c),
{
    if char_is_alnum(c) || c == '-' || c == '_' {
        Some(char_to_lower(c))
    } else if char_is_ascii_space(c) {
        Some('-')
    } else {
        None
    }
}

/// Turns typed text into a theme name (see `spec_normalize_theme_name`).
pub fn normalize_theme_name(input: &str) -> (res: String)
    ensures
        res@ == spec_normalize_theme_name(input@),
{
    let cs = chars_of(input);
    let t1 = trim_start_chars(&cs);
    let t2 = trim_end_chars(&t1);
    let mut mapped: Vec<char> = Vec::new();
    let mut i: usize = 0;
    assert(t2@.take(0) =~= Seq::<char>::empty());
    while i < t2.len()
        invariant
            i <= t2@.len(),
            mapped@ == filter_name(t2@.take(i as int)),
        decreases t2@.len() - i,
    {
        assert(t2@.take(i + 1).drop_last() =~= t2@.take(i as int));
        match name_char_exec(t2[i]) {
            Some(x) => {
                mapped.push(x);
                assert(mapped@ =~= filter_name(t2@.take(i + 1)));
            },
            None => {
                assert(mapped@ =~= filter_name(t2@.take(i + 1)));
            },
        }
        i = i + 1;
    }
    assert(t2@.take(i as int) =~= t2@);
    let mut end = mapped.len();
    assert(mapped@.take(end as int) =~= mapped@);
    while end > 0 && mapped[end - 1] == '-'
        invariant
            end <= mapped@.len(),
            strip_trailing(mapped@, '-') == strip_trailing(mapped@.take(end as int), '-'),
        decreases end,
    {
        assert(mapped@.take(end as int).drop_last() =~= mapped@.take(end - 1));
        end = end - 1;
    }
    let mut start: usize = 0;
    let ghost tr = mapped@.take(end as int);
    assert(tr.skip(0) =~= tr);
    while start < end && mapped[start] == '-'
        invariant
            start <= end <= mapped@.len(),
            tr == mapped@.take(end as int),
            strip_leading(tr, '-') == strip_leading(tr.skip(start as int), '-'),
        decreases end - start,
    {
        assert(tr.skip(start as int).drop_first() =~= tr.skip(start + 1));
        start = start + 1;
    }
    let mut out: Vec<char> = Vec::new();
    let mut k = start;
    while k < end
        invariant
            start <= k <= end <= mapped@.len(),
            out@ == mapped@.subrange(start as int, k as int),
        decreases end - k,
    {
        out.push(mapped[k]);
        k = k + 1;
    }
    assert(out@ =~= tr.skip(start as int));
    string_of(&out)
}

/// Characters a normalized theme name is made of.
pub open spec fn is_name_char(c: char) -> bool {
    ('a' <= c && c <= 'z') || is_digit(c) || c == '-' || c == '_'
}

pub open spec fn clean_name(s: Seq<char>) -> bool {
    forall|i: int| 0 <= i < s.len() ==> is_name_char(#[trigger] s[i])
}

proof fn lemma_filter_name_clean(s: Seq<char>)
    ensures
        clean_name(filter_name(s)),
    decreases s.len(),
{
    if s.len() > 0 {
        lemma_filter_name_clean(s.drop_last());
    }
}

proof fn lemma_filter_name_identity(s: Seq<char>)
    requires
        clean_name(s),
    ensures
        filter_name(s) == s,
    decreases s.len(),
{
    if s.len() > 0 {
        assert(clean_name(s.drop_last()));
        lemma_filter_name_identity(s.drop_last());
        assert(is_name_char(s.last()));
        assert(s.drop_last() + seq![s.last()] =~= s);
    }
}

proof fn lemma_strip_trailing_props(s: Seq<char>, c: char)
    ensures
        strip_trailing(s, c) == s.take(strip_trailing(s, c).len() as int),
        strip_trailing(s, c).len() <= s.len(),
        strip_trailing(s, c).len() > 0 ==> strip_trailing(s, c).last() != c,
    decreases s.len(),
{
    if s.len() > 0 && s.last() == c {
        lemma_strip_trailing_props(s.drop_last(), c);
        let t = strip_trailing(s.drop_last(), c);
        assert(s.drop_last().take(t.len() as int) =~= s.take(t.len() as int));
    } else {
        assert(s.take(s.len() as int) =~= s);
    }
}

proof fn lemma_strip_leading_props(s: Seq<char>, c: char)
    ensures
        strip_leading(s, c) == s.skip(s.len() - strip_leading(s, c).len()),
        strip_leading(s, c).len() <= s.len(),
        strip_leading(s, c).len() > 0 ==> strip_leading(s, c)[0] != c,
    decreases s.len(),
{
    crate::theme::lemma_strip_leading_suffix(s, c);
}

/// A normalized name is made of lower-case ASCII letters, digits, `-` and
/// `_` only, and neither starts nor ends with `-`.
pub proof fn lemma_normalized_shape(input: Seq<char>)
    ensures
        clean_name(spec_normalize_theme_name(input)),
        spec_normalize_theme_name(input).len() > 0 ==> spec_normalize_theme_name(input)[0] != '-',
        spec_normalize_theme_name(input).len() > 0 ==> spec_normalize_theme_name(input).last()
            != '-',
{
    let f = filter_name(trim_end_ws(trim_start_ws(input)));
    lemma_filter_name_clean(trim_end_ws(trim_start_ws(input)));
    let t = strip_trailing(f, '-');
    lemma_strip_trailing_props(f, '-');
    assert(clean_name(t));
    let u = strip_leading(t, '-');
    lemma_strip_leading_props(t, '-');
    assert(clean_name(u));
    if u.len() > 0 {
        assert(u.last() == t.last());
    }
}

proof fn lemma_trim_start_clean(s: Seq<char>)
    requires
        clean_name(s),
    ensures
        trim_start_ws(s) == s,
{
    if s.len() > 0 {
        assert(is_name_char(s[0]));
    }
}

proof fn lemma_trim_end_clean(s: Seq<char>)
    requires
        clean_name(s),
    ensures
        trim_end_ws(s) == s,
{
    if s.len() > 0 {
        assert(is_name_char(s.last()));
    }
}

/// Normalizing a normalized name changes nothing.
pub proof fn lemma_normalize_idempotent(input: Seq<char>)
    ensures
        spec_normalize_theme_name(spec_normalize_theme_name(input)) == spec_normalize_theme_name(
            input,
        ),
{
    let n = spec_normalize_theme_name(input);
    lemma_normalized_shape(input);
    lemma_trim_start_clean(n);
    lemma_trim_end_clean(n);
    lemma_filter_name_identity(n);
    if n.len() > 0 {
        assert(strip_trailing(n, '-') == n);
        assert(strip_leading(n, '-') == n);
    } else {
        assert(strip_trailing(n, '-') == n);
    }
}


/// `c` gives a name character other than `-`: a letter, a digit or `_`.
pub open spec fn is_name_content(c: char) -> bool {
    name_char(c) is Some && name_char(c)->0 != '-'
}

/// Some character of `s` is a letter, a digit or `_`.
pub open spec fn has_name_content(s: Seq<char>) -> bool {
    exists|i: int| 0 <= i < s.len() && is_name_content(#[trigger] s[i])
}

pub open spec fn all_dashes(s: Seq<char>) -> bool {
    forall|i: int| 0 <= i < s.len() ==> #[trigger] s[i] == '-'
}

proof fn lemma_strip_leading_empty(t: Seq<char>)
    ensures
        strip_leading(t, '-').len() == 0 <==> all_dashes(t),
    decreases t.len(),
{
    if t.len() > 0 && t[0] == '-' {
        lemma_strip_leading_empty(t.drop_first());
        if all_dashes(t.drop_first()) {
            assert forall|i: int| 0 <= i < t.len() implies #[trigger] t[i] == '-' by {
                if i > 0 {
                    assert(t[i] == t.drop_first()[i - 1]);
                }
            }
        }
        if all_dashes(t) {
            assert forall|i: int| 0 <= i < t.drop_first().len() implies #[trigger] t.drop_first()[i] == '-' by {
                assert(t.drop_first()[i] == t[i + 1]);
            }
        }
    } else if t.len() > 0 {
        assert(t[0] != '-');
    }
}

proof fn lemma_strip_both_empty(f: Seq<char>)
    ensures
        strip_leading(strip_trailing(f, '-'), '-').len() == 0 <==> all_dashes(f),
    decreases f.len(),
{
    if f.len() > 0 && f.last() == '-' {
        lemma_strip_both_empty(f.drop_last());
        if all_dashes(f.drop_last()) {
            assert forall|i: int| 0 <= i < f.len() implies #[trigger] f[i] == '-' by {
                if i < f.len() - 1 {
                    assert(f[i] == f.drop_last()[i]);
                }
            }
        }
        if all_dashes(f) {
            assert forall|i: int| 0 <= i < f.drop_last().len() implies #[trigger] f.drop_last()[i] == '-' by {
                assert(f.drop_last()[i] == f[i]);
            }
        }
    } else {
        lemma_strip_leading_empty(f);
    }
}

proof fn lemma_filter_all_dashes(t: Seq<char>)
    ensures
        all_dashes(filter_name(t)) <==> !has_name_content(t),
    decreases t.len(),
{
    if t.len() > 0 {
        let p = t.drop_last();
        lemma_filter_all_dashes(p);
        let fp = filter_name(p);
        let tail: Seq<char> = match name_char(t.last()) {
            Some(x) => seq![x],
            None => Seq::empty(),
        };
        assert(filter_name(t) == fp + tail);
        if has_name_content(t) {
            let i = choose|i: int| 0 <= i < t.len() && is_name_content(#[trigger] t[i]);
            if i < t.len() - 1 {
                assert(p[i] == t[i]);
                assert(has_name_content(p));
                let j = choose|j: int| 0 <= j < fp.len() && fp[j] != '-';
                assert((fp + tail)[j] == fp[j]);
            } else {
                assert((fp + tail)[fp.len() as int] == name_char(t.last())->0);
            }
        } else {
            assert(!has_name_content(p)) by {
                if has_name_content(p) {
                    let i = choose|i: int| 0 <= i < p.len() && is_name_content(#[trigger] p[i]);
                    assert(t[i] == p[i]);
                }
            }
            assert(!is_name_content(t[t.len() - 1]));
            assert forall|i: int| 0 <= i < (fp + tail).len() implies #[trigger] (fp + tail)[i] == '-' by {
                if i < fp.len() {
                    assert(fp[i] == '-');
                }
            }
        }
    }
}

proof fn lemma_space_not_content(c: char)
    requires
        is_unicode_space(c),
    ensures
        !is_name_content(c),
{
}

proof fn lemma_trim_start_content(s: Seq<char>)
    ensures
        has_name_content(trim_start_ws(s)) <==> has_name_content(s),
    decreases s.len(),
{
    if s.len() > 0 && is_unicode_space(s[0]) {
        let d = s.drop_first();
        lemma_trim_start_content(d);
        lemma_space_not_content(s[0]);
        if has_name_content(s) {
            let i = choose|i: int| 0 <= i < s.len() && is_name_content(#[trigger] s[i]);
            assert(d[i - 1] == s[i]);
        }
        if has_name_content(d) {
            let i = choose|i: int| 0 <= i < d.len() && is_name_content(#[trigger] d[i]);
            assert(s[i + 1] == d[i]);
        }
    }
}

proof fn lemma_trim_end_content(s: Seq<char>)
    ensures
        has_name_content(trim_end_ws(s)) <==> has_name_content(s),
    decreases s.len(),
{
    if s.len() > 0 && is_unicode_space(s.last()) {
        let d = s.drop_last();
        lemma_trim_end_content(d);
        lemma_space_not_content(s.last());
        if has_name_content(s) {
            let i = choose|i: int| 0 <= i < s.len() && is_name_content(#[trigger] s[i]);
            assert(d[i] == s[i]);
        }
        if has_name_content(d) {
            let i = choose|i: int| 0 <= i < d.len() && is_name_content(#[trigger] d[i]);
            assert(s[i] == d[i]);
        }
    }
}

/// A typed name normalizes to nothing exactly when it holds no ASCII
/// letter, digit or `_`.
pub proof fn lemma_normalize_empty(input: Seq<char>)
    ensures
        spec_normalize_theme_name(input).len() == 0 <==> !has_name_content(input),
{
    let t = trim_end_ws(trim_start_ws(input));
    lemma_trim_start_content(input);
    lemma_trim_end_content(trim_start_ws(input));
    lemma_filter_all_dashes(t);
    lemma_strip_both_empty(filter_name(t));
}

/// What the keyboard currently drives.
#[derive(Debug, Clone, Copy, PartialEq, Eq, Structural)]
pub enum InputMode {
    Preview,
    ColorPicker,
    ThemeNameInput,
    ThemeNameInputApply,
    ThemeLoad,
    Help,
    ThemeLoadRename,
    ThemeLoadDeleteConfirm,
    ElementSearch,
}

/// The whole editor state.
pub struct App {
    pub theme: Theme,
    pub selected_element: PreviewElement,
    pub selected_attribute: PreviewAttribute,
    pub config_manager: ConfigManager,
    pub message: Option<String>,
    pub input_mode: InputMode,
    pub color_editor: ColorEditor,
    pub original_component: Option<ThemeComponent>,
    pub theme_name_input: String,
    pub loadable_themes: Vec<String>,
    pub selected_theme_index: usize,
    pub dirty: bool,
    pub yanked_color: Option<RgbColor>,
    pub undo_stack: Vec<(ThemeComponentType, ThemeComponent)>,
    pub all_themes: Vec<String>,
    pub theme_search_query: String,
    pub theme_filter: ThemeFilter,
    pub element_query: String,
}

/// A plain-value picture of an `App`.
pub struct AppView {
    pub theme_name: Seq<char>,
    pub components: Seq<ThemeComponent>,
    pub selected_element: PreviewElement,
    pub selected_attribute: PreviewAttribute,
    pub config_dir: Seq<char>,
    pub themes_dir: Seq<char>,
    pub message: Option<Seq<char>>,
    pub input_mode: InputMode,
    pub editor: EditorView,
    pub original_component: Option<ThemeComponent>,
    pub theme_name_input: Seq<char>,
    pub loadable_themes: Seq<Seq<char>>,
    pub selected_theme_index: usize,
    pub dirty: bool,
    pub yanked: Option<RgbColor>,
    pub undo: Seq<(ThemeComponentType, ThemeComponent)>,
    pub all_themes: Seq<Seq<char>>,
    pub query: Seq<char>,
    pub filter: ThemeFilter,
    pub element_query: Seq<char>,
}

pub open spec fn opt_view(o: Option<String>) -> Option<Seq<char>> {
    match o {
        Some(s) => Some(s@),
        None => None,
    }
}

/// The message for a failed file operation.
pub open spec fn error_message(e: ConfigError) -> Seq<char> {
    "✗ Error: "@ + e.spec_text()
}

/// The message a typed name with nothing usable in it gets.
pub open spec fn bad_name_message() -> Seq<char> {
    "✗ Theme name must contain letters or numbers"@
}

/// Index of the first `x` in `s`.
pub open spec fn position_of(s: Seq<Seq<char>>, x: Seq<char>) -> Option<int>
    decreases s.len(),
{
    if s.len() == 0 {
        None
    } else if s[0] == x {
        Some(0)
    } else {
        match position_of(s.drop_first(), x) {
            Some(i) => Some(i + 1),
            None => None,
        }
    }
}

impl AppView {
    /// The component type of the selected element.
    pub open spec fn selected_type(self) -> ThemeComponentType {
        self.selected_element.spec_component_type()
    }

    pub open spec fn selected_component(self) -> ThemeComponent {
        self.components[self.selected_type().index()]
    }

    pub open spec fn color_of(self, attr: PreviewAttribute) -> RgbColor {
        match attr {
            PreviewAttribute::Base => self.selected_component().base,
            PreviewAttribute::Background => self.selected_component().background,
        }
    }

    pub open spec fn with_color(self, attr: PreviewAttribute, color: RgbColor) -> AppView {
        let c = self.selected_component();
        let updated = match attr {
            PreviewAttribute::Base => ThemeComponent { base: color, ..c },
            PreviewAttribute::Background => ThemeComponent { background: color, ..c },
        };
        AppView {
            components: self.components.update(self.selected_type().index(), updated),
            dirty: true,
            ..self
        }
    }

    pub open spec fn apply_current_color(self) -> AppView {
        self.with_color(self.selected_attribute, self.editor.rgb())
    }

    pub open spec fn open_color_picker(self) -> AppView {
        AppView {
            original_component: Some(self.selected_component()),
            editor: editor_from_rgb(self.color_of(self.selected_attribute)),
            input_mode: InputMode::ColorPicker,
            ..self
        }
    }

    pub open spec fn close_color_picker(self, save: bool) -> AppView {
        let restored = if !save && self.original_component is Some {
            AppView {
                components: self.components.update(
                    self.selected_type().index(),
                    self.original_component->0,
                ),
                ..self
            }
        } else {
            self
        };
        let recorded = if save && self.original_component is Some {
            AppView { undo: restored.undo.push((self.selected_type(), self.original_component->0)), ..restored }
        } else {
            restored
        };
        AppView { original_component: None, input_mode: InputMode::Preview, ..recorded }
    }

    pub open spec fn switch_editing_attribute(self) -> AppView {
        let attr = self.selected_attribute.other();
        AppView {
            selected_attribute: attr,
            editor: editor_from_rgb(self.color_of(attr)),
            ..self
        }
    }

    pub open spec fn sync_name(self) -> AppView {
        AppView { theme_name_input: self.theme_name, ..self }
    }

    pub open spec fn open_theme_name_input(self) -> AppView {
        AppView {
            input_mode: InputMode::ThemeNameInput,
            message: Some("Enter a theme name, then press Enter to save"@),
            ..self.sync_name()
        }
    }

    pub open spec fn push_name_char(self, c: char) -> AppView {
        if is_alnum(c) || c == '-' || c == '_' || c == ' ' {
            AppView { theme_name_input: self.theme_name_input.push(c), ..self }
        } else {
            self
        }
    }

    pub open spec fn pop_name_char(self) -> AppView {
        if self.theme_name_input.len() > 0 {
            AppView { theme_name_input: self.theme_name_input.drop_last(), ..self }
        } else {
            self
        }
    }

    pub open spec fn selection_up(self) -> AppView {
        AppView {
            selected_theme_index: if self.loadable_themes.len() == 0 {
                0
            } else if self.selected_theme_index == 0 {
                (self.loadable_themes.len() - 1) as usize
            } else {
                (self.selected_theme_index - 1) as usize
            },
            ..self
        }
    }

    pub open spec fn selection_down(self) -> AppView {
        AppView {
            selected_theme_index: if self.loadable_themes.len() == 0 {
                0
            } else {
                ((self.selected_theme_index + 1) % (self.loadable_themes.len() as int)) as usize
            },
            ..self
        }
    }

    /// Accepting the typed name: `None` with a message when it normalizes
    /// to nothing, else the state with the theme renamed.
    pub open spec fn accept_name(self) -> (AppView, bool) {
        let n = spec_normalize_theme_name(self.theme_name_input);
        if n.len() == 0 {
            (AppView { message: Some(bad_name_message()), ..self }, false)
        } else {
            (AppView { theme_name: n, theme_name_input: n, ..self }, true)
        }
    }

    /// After saving: `err` is the error text when the save failed.
    pub open spec fn after_save(self, err: Option<Seq<char>>) -> AppView {
        match err {
            None => AppView { message: Some("✓ Saved: "@ + self.theme_name), dirty: false, ..self },
            Some(e) => AppView { message: Some("✗ Error: "@ + e), ..self },
        }
    }

    /// After applying the theme to the Zellij configuration.
    pub open spec fn after_apply(self, err: Option<Seq<char>>) -> AppView {
        match err {
            None => AppView {
                message: Some(
                    "✓ Saved + applied \""@ + self.theme_name
                        + "\" — restart Zellij to see changes"@,
                ),
                ..self
            },
            Some(e) => AppView { message: Some("✗ Error: "@ + e), ..self },
        }
    }

    /// After listing the saved themes: the list, sorted, or the error text.
    pub open spec fn after_refresh(self, listed: Result<Seq<Seq<char>>, Seq<char>>) -> AppView {
        match listed {
            Ok(names) => {
                let sorted = names.sort_by(str_order());
                let shown = visible(sorted, self.filter, self.query);
                AppView {
                    all_themes: sorted,
                    loadable_themes: shown,
                    selected_theme_index: if self.selected_theme_index >= shown.len() {
                        if shown.len() == 0 {
                            0
                        } else {
                            (shown.len() - 1) as usize
                        }
                    } else {
                        self.selected_theme_index
                    },
                    ..self
                }
            },
            Err(e) => AppView {
                all_themes: Seq::empty(),
                loadable_themes: Seq::empty(),
                selected_theme_index: 0,
                message: Some("✗ Error: "@ + e),
                ..self
            },
        }
    }

    /// Opening the load dialog once the saved themes are listed.
    pub open spec fn after_open_load_dialog(self, listed: Result<Seq<Seq<char>>, Seq<char>>) -> AppView {
        let s = AppView { query: Seq::empty(), filter: ThemeFilter::All, ..self }.after_refresh(listed);
        if s.loadable_themes.len() == 0 {
            AppView { message: Some("✗ No saved themes found in ~/.config/zellij/themes"@), ..s }
        } else {
            AppView {
                selected_theme_index: match position_of(s.loadable_themes, s.theme_name) {
                    Some(i) => i as usize,
                    None => 0,
                },
                input_mode: InputMode::ThemeLoad,
                message: Some("Select a theme to load"@),
                ..s
            }
        }
    }

    /// The listing shown again under the current search text and filter,
    /// with the first entry selected.
    pub open spec fn relist(self) -> AppView {
        AppView { loadable_themes: visible(self.all_themes, self.filter, self.query), selected_theme_index: 0, ..self }
    }

    /// Copies the selected attribute's colour.
    pub open spec fn yank(self) -> AppView {
        AppView { yanked: Some(self.color_of(self.selected_attribute)), ..self }
    }

    /// Writes the copied colour into the selected attribute, remembering
    /// the component as it was for undo.
    pub open spec fn paste(self) -> AppView {
        match self.yanked {
            Some(c) => AppView {
                undo: self.undo.push((self.selected_type(), self.selected_component())),
                ..self.with_color(self.selected_attribute, c)
            },
            None => self,
        }
    }

    /// Puts back the component as it was before the last colour change.
    pub open spec fn undo_change(self) -> AppView {
        if self.undo.len() > 0 {
            let (ty, c) = self.undo.last();
            AppView {
                components: self.components.update(ty.index(), c),
                undo: self.undo.drop_last(),
                dirty: true,
                ..self
            }
        } else {
            self
        }
    }

    /// The name of the selected listed theme.
    pub open spec fn selected_theme(self) -> Option<Seq<char>> {
        if self.selected_theme_index < self.loadable_themes.len() {
            Some(self.loadable_themes[self.selected_theme_index as int])
        } else {
            None
        }
    }

    pub open spec fn no_selection(self) -> AppView {
        AppView { message: Some("✗ No theme selected"@), ..self }
    }

    /// Starts renaming the selected saved theme, with its name to edit.
    pub open spec fn start_rename(self) -> AppView {
        match self.selected_theme() {
            Some(n) => AppView {
                input_mode: InputMode::ThemeLoadRename,
                theme_name_input: n,
                message: Some("Enter a new name, then press Enter to rename"@),
                ..self
            },
            None => self.no_selection(),
        }
    }

    /// Asks to confirm deleting the selected saved theme.
    pub open spec fn start_delete(self) -> AppView {
        match self.selected_theme() {
            Some(n) => AppView {
                input_mode: InputMode::ThemeLoadDeleteConfirm,
                message: Some("Delete \""@ + n + "\"? (y/n)"@),
                ..self
            },
            None => self.no_selection(),
        }
    }

    /// Accepting the new name of the theme being renamed: the old and new
    /// names, or the state with a message when the name normalizes to nothing.
    pub open spec fn accept_rename(self) -> (AppView, Option<(Seq<char>, Seq<char>)>) {
        let n = spec_normalize_theme_name(self.theme_name_input);
        if n.len() == 0 {
            (AppView { message: Some(bad_name_message()), ..self }, None)
        } else {
            match self.selected_theme() {
                Some(old) => (self, Some((old, n))),
                None => (AppView { input_mode: InputMode::ThemeLoad, ..self.no_selection() }, None),
            }
        }
    }

    /// After renaming `old` to `new`, with the new listing; back to the loader.
    pub open spec fn after_rename(
        self,
        old: Seq<char>,
        new: Seq<char>,
        err: Option<Seq<char>>,
        listed: Result<Seq<Seq<char>>, Seq<char>>,
    ) -> AppView {
        let m = match err {
            None => "✓ Renamed: "@ + old + " → "@ + new,
            Some(e) => "✗ Error: "@ + e,
        };
        AppView { input_mode: InputMode::ThemeLoad, ..AppView { message: Some(m), ..self }.after_refresh(listed) }
    }

    /// After deleting `name`, with the new listing; back to the loader.
    pub open spec fn after_delete(
        self,
        name: Seq<char>,
        err: Option<Seq<char>>,
        listed: Result<Seq<Seq<char>>, Seq<char>>,
    ) -> AppView {
        let m = match err {
            None => "✓ Deleted: "@ + name,
            Some(e) => "✗ Error: "@ + e,
        };
        AppView { input_mode: InputMode::ThemeLoad, ..AppView { message: Some(m), ..self }.after_refresh(listed) }
    }

    /// After selecting the saved theme `name` in the Zellij configuration.
    pub open spec fn after_apply_saved(self, name: Seq<char>, err: Option<Seq<char>>) -> AppView {
        match err {
            None => AppView {
                message: Some("✓ Applied \""@ + name + "\" — restart Zellij to see changes"@),
                ..self
            },
            Some(e) => AppView { message: Some("✗ Error: "@ + e), ..self },
        }
    }

    /// Choosing the selected saved theme: its name, or the state after
    /// reporting that none is selected.
    pub open spec fn begin_load(self) -> (AppView, Option<Seq<char>>) {
        if self.selected_theme_index < self.loadable_themes.len() {
            (self, Some(self.loadable_themes[self.selected_theme_index as int]))
        } else {
            (
                AppView {
                    message: Some("✗ No theme selected"@),
                    input_mode: InputMode::Preview,
                    ..self
                },
                None,
            )
        }
    }

    /// After loading theme `name`: its name and components, or the error text.
    pub open spec fn after_load(
        self,
        name: Seq<char>,
        loaded: Result<(Seq<char>, Seq<ThemeComponent>), Seq<char>>,
    ) -> AppView {
        let s = match loaded {
            Ok(t) => AppView {
                theme_name: t.0,
                components: t.1,
                theme_name_input: t.0,
                message: Some("✓ Loaded: "@ + name),
                dirty: false,
                ..self
            },
            Err(e) => AppView { message: Some("✗ Error: "@ + e), ..self },
        };
        AppView { input_mode: InputMode::Preview, ..s }
    }

    /// The invariant the key bindings keep.
    pub open spec fn wf(self) -> bool {
        &&& self.components.len() == 14
        &&& self.editor.wf()
    }
}

pub open spec fn unit_result(r: Result<(), ConfigError>) -> Option<Seq<char>> {
    match r {
        Ok(()) => None,
        Err(e) => Some(e.spec_text()),
    }
}

pub open spec fn list_result(r: Result<Vec<String>, ConfigError>) -> Result<Seq<Seq<char>>, Seq<char>> {
    match r {
        Ok(v) => Ok(views(v@)),
        Err(e) => Err(e.spec_text()),
    }
}

pub open spec fn theme_load_result(r: Result<Theme, ConfigError>) -> Result<
    (Seq<char>, Seq<ThemeComponent>),
    Seq<char>,
> {
    match r {
        Ok(t) => Ok((t.name@, t.components())),
        Err(e) => Err(e.spec_text()),
    }
}

pub(crate) fn error_message_exec(e: &ConfigError) -> (res: String)
    ensures
        res@ == "✗ Error: "@ + e.spec_text(),
{
    String::from_str("✗ Error: ").concat(e.text().as_str())
}

/// Index of the first entry equal to `x`.
pub(crate) fn position_in(list: &Vec<String>, x: &str) -> (res: Option<usize>)
    ensures
        match position_of(views(list@), x@) {
            Some(k) => res == Some(k as usize),
            None => res is None,
        },
{
    let ghost names = views(list@);
    let mut i: usize = 0;
    assert(names.skip(0) =~= names);
    while i < list.len()
        invariant
            names == views(list@),
            i <= names.len(),
            position_of(names, x@) == match position_of(names.skip(i as int), x@) {
                Some(k) => Some(k + i),
                None => None,
            },
        decreases names.len() - i,
    {
        assert(names.skip(i as int)[0] == names[i as int]);
        if str_eq(list[i].as_str(), x) {
            return Some(i);
        }
        assert(names.skip(i as int).drop_first() =~= names.skip(i + 1));
        i = i + 1;
    }
    assert(names.skip(i as int).len() == 0);
    None
}

pub(crate) fn clone_string(s: &String) -> (res: String)
    ensures
        res@ == s@,
{
    String::from_str(s.as_str())
}

impl App {
    pub open spec fn view(&self) -> AppView {
        AppView {
            theme_name: self.theme.name@,
            components: self.theme.components(),
            selected_element: self.selected_element,
            selected_attribute: self.selected_attribute,
            config_dir: self.config_manager.spec_config_dir_of(),
            themes_dir: self.config_manager.spec_themes_dir_of(),
            message: opt_view(self.message),
            input_mode: self.input_mode,
            editor: self.color_editor.view(),
            original_component: self.original_component,
            theme_name_input: self.theme_name_input@,
            loadable_themes: views(self.loadable_themes@),
            selected_theme_index: self.selected_theme_index,
            dirty: self.dirty,
            yanked: self.yanked_color,
            undo: self.undo_stack@,
            all_themes: views(self.all_themes@),
            query: self.theme_search_query@,
            filter: self.theme_filter,
            element_query: self.element_query@,
        }
    }

    /// The editor state at start-up: the default theme, the first tab
    /// selected, preview mode.
    pub fn new() -> (res: Self)
        ensures
            res.view().theme_name == "default"@,
            res.view().components == default_components(),
            res.view().theme_name_input == "default"@,
            res.view().selected_element == PreviewElement::TabSelected,
            res.view().selected_attribute == PreviewAttribute::Base,
            res.view().message is None,
            res.view().input_mode == InputMode::Preview,
            res.view().editor == editor_from_rgb(RgbColor { r: 200, g: 200, b: 200 }),
            res.view().original_component is None,
            res.view().loadable_themes.len() == 0,
            res.view().selected_theme_index == 0,
            !res.view().dirty,
            res.view().yanked is None,
            res.view().undo.len() == 0,
            res.view().all_themes.len() == 0,
            res.view().query.len() == 0,
            res.view().filter == ThemeFilter::All,
    {
        let theme = Theme::default();
        proof {
            assert forall|k: int| 0 <= k < 14 implies theme.components()[k]
                == default_components()[k] by {
                let ty = all_component_types()[k];
                lemma_component_index(ty);
                assert(theme.comp(ty) == default_component(ty));
            }
            assert(theme.components() =~= default_components());
        }
        let mut app = App {
            theme,
            selected_element: PreviewElement::TabSelected,
            selected_attribute: PreviewAttribute::Base,
            config_manager: ConfigManager::new(),
            message: None,
            input_mode: InputMode::Preview,
            color_editor: ColorEditor::from_rgb(200, 200, 200),
            original_component: None,
            theme_name_input: String::from_str("default"),
            loadable_themes: Vec::new(),
            selected_theme_index: 0,
            dirty: false,
            yanked_color: None,
            undo_stack: Vec::new(),
            all_themes: Vec::new(),
            theme_search_query: String::new(),
            theme_filter: ThemeFilter::All,
            element_query: String::new(),
        };
        app.sync_theme_name_input();
        assert(views(app.loadable_themes@) =~= Seq::<Seq<char>>::empty());
        assert(views(app.all_themes@) =~= Seq::<Seq<char>>::empty());
        app
    }

    pub fn sync_theme_name_input(&mut self)
        ensures
            final(self).view() == old(self).view().sync_name(),
    {
        self.theme_name_input = clone_string(&self.theme.name);
    }

    pub fn open_theme_name_input(&mut self)
        ensures
            final(self).view() == old(self).view().open_theme_name_input(),
    {
        self.sync_theme_name_input();
        self.input_mode = InputMode::ThemeNameInput;
        self.message = Some(String::from_str("Enter a theme name, then press Enter to save"));
    }

    /// Takes the typed name for the theme; false (with a message) when it
    /// normalizes to nothing.
    pub fn accept_theme_name_input(&mut self) -> (res: bool)
        ensures
            (final(self).view(), res) == old(self).view().accept_name(),
    {
        let normalized_name = normalize_theme_name(self.theme_name_input.as_str());
        if normalized_name.as_str().unicode_len() == 0 {
            self.message = Some(String::from_str("✗ Theme name must contain letters or numbers"));
            return false;
        }
        let ghost comps = self.theme.components();
        self.theme.name = normalized_name;
        assert(self.theme.components() =~= comps);
        self.sync_theme_name_input();
        true
    }

    /// Reports the outcome of saving the theme.
    pub fn finish_save(&mut self, result: Result<(), ConfigError>)
        ensures
            final(self).view() == old(self).view().after_save(unit_result(result)),
    {
        match result {
            Ok(()) => {
                self.message = Some(String::from_str("✓ Saved: ").concat(self.theme.name.as_str()));
                self.dirty = false;
            },
            Err(e) => {
                self.message = Some(error_message_exec(&e));
            },
        }
    }

    /// Reports the outcome of applying the theme to the Zellij configuration.
    pub fn finish_apply(&mut self, result: Result<(), ConfigError>)
        ensures
            final(self).view() == old(self).view().after_apply(unit_result(result)),
    {
        match result {
            Ok(()) => {
                self.message = Some(
                    String::from_str("✓ Saved + applied \"").concat(self.theme.name.as_str()).concat(
                        "\" — restart Zellij to see changes",
                    ),
                );
            },
            Err(e) => {
                self.message = Some(error_message_exec(&e));
            },
        }
    }

    /// Takes the listing of the saved themes, sorted.
    pub fn finish_refresh(&mut self, result: Result<Vec<String>, ConfigError>)
        ensures
            final(self).view() == old(self).view().after_refresh(list_result(result)),
    {
        match result {
            Ok(themes) => {
                let sorted = sort_strings(themes);
                self.loadable_themes = visible_themes(&sorted, self.theme_filter, self.theme_search_query.as_str());
                self.all_themes = sorted;
                if self.selected_theme_index >= self.loadable_themes.len() {
                    self.selected_theme_index = if self.loadable_themes.len() == 0 {
                        0
                    } else {
                        self.loadable_themes.len() - 1
                    };
                }
            },
            Err(e) => {
                self.loadable_themes = Vec::new();
                self.all_themes = Vec::new();
                self.selected_theme_index = 0;
                self.message = Some(error_message_exec(&e));
                assert(views(self.loadable_themes@) =~= Seq::<Seq<char>>::empty());
                assert(views(self.all_themes@) =~= Seq::<Seq<char>>::empty());
            },
        }
    }

    /// Opens the load dialog on the listing of the saved themes, selecting
    /// the current theme when it is listed.
    pub fn finish_open_load_dialog(&mut self, result: Result<Vec<String>, ConfigError>)
        ensures
            final(self).view() == old(self).view().after_open_load_dialog(list_result(result)),
    {
        self.theme_search_query = String::new();
        self.theme_filter = ThemeFilter::All;
        self.finish_refresh(result);
        if self.loadable_themes.len() == 0 {
            self.message = Some(String::from_str("✗ No saved themes found in ~/.config/zellij/themes"));
            return;
        }
        let found = position_in(&self.loadable_themes, self.theme.name.as_str());
        self.selected_theme_index = match found {
            Some(k) => k,
            None => 0,
        };
        self.input_mode = InputMode::ThemeLoad;
        self.message = Some(String::from_str("Select a theme to load"));
    }

    /// The name of the selected saved theme, or `None` after reporting
    /// that none is selected.
    pub fn begin_load(&mut self) -> (res: Option<String>)
        ensures
            (final(self).view(), opt_view(res)) == old(self).view().begin_load(),
    {
        if self.selected_theme_index < self.loadable_themes.len() {
            Some(clone_string(&self.loadable_themes[self.selected_theme_index]))
        } else {
            self.message = Some(String::from_str("✗ No theme selected"));
            self.input_mode = InputMode::Preview;
            None
        }
    }

    /// Takes the loaded theme `name`, or reports why it could not be loaded.
    pub fn finish_load(&mut self, name: &str, result: Result<Theme, ConfigError>)
        ensures
            final(self).view() == old(self).view().after_load(name@, theme_load_result(result)),
    {
        match result {
            Ok(theme) => {
                self.theme = theme;
                self.sync_theme_name_input();
                self.message = Some(String::from_str("✓ Loaded: ").concat(name));
                self.dirty = false;
            },
            Err(e) => {
                self.message = Some(error_message_exec(&e));
            },
        }
        self.input_mode = InputMode::Preview;
    }

    pub fn move_theme_selection_up(&mut self)
        ensures
            final(self).view() == old(self).view().selection_up(),
    {
        if self.loadable_themes.len() == 0 {
            self.selected_theme_index = 0;
        } else if self.selected_theme_index == 0 {
            self.selected_theme_index = self.loadable_themes.len() - 1;
        } else {
            self.selected_theme_index = self.selected_theme_index - 1;
        }
    }

    pub fn move_theme_selection_down(&mut self)
        requires
            old(self).selected_theme_index < usize::MAX,
        ensures
            final(self).view() == old(self).view().selection_down(),
    {
        if self.loadable_themes.len() == 0 {
            self.selected_theme_index = 0;
        } else {
            self.selected_theme_index = (self.selected_theme_index + 1) % self.loadable_themes.len();
        }
    }

    /// Types a character of the theme name: letters, digits, `-`, `_` and space.
    pub fn push_theme_name_char(&mut self, c: char)
        ensures
            final(self).view() == old(self).view().push_name_char(c),
    {
        if char_is_alnum(c) || c == '-' || c == '_' || c == ' ' {
            push_char(&mut self.theme_name_input, c);
        }
    }

    pub fn pop_theme_name_char(&mut self)
        ensures
            final(self).view() == old(self).view().pop_name_char(),
    {
        pop_char(&mut self.theme_name_input);
    }

    pub fn get_color_by_attr(&self, attr: PreviewAttribute) -> (res: RgbColor)
        ensures
            res == self.view().color_of(attr),
    {
        let ty = self.selected_element.component_type();
        proof {
            lemma_components_index(self.theme, ty);
        }
        let component = self.theme.get(ty);
        match attr {
            PreviewAttribute::Base => component.base,
            PreviewAttribute::Background => component.background,
        }
    }

    pub fn get_color(&self) -> (res: RgbColor)
        ensures
            res == self.view().color_of(self.selected_attribute),
    {
        self.get_color_by_attr(self.selected_attribute)
    }

    pub fn set_color_by_attr(&mut self, attr: PreviewAttribute, color: RgbColor)
        ensures
            final(self).view() == old(self).view().with_color(attr, color),
    {
        let ty = self.selected_element.component_type();
        proof {
            lemma_components_index(self.theme, ty);
        }
        let mut c = *self.theme.get(ty);
        match attr {
            PreviewAttribute::Base => c.base = color,
            PreviewAttribute::Background => c.background = color,
        }
        proof {
            lemma_with_comp_components(self.theme, ty, c);
        }
        self.theme.set(ty, c);
        self.dirty = true;
    }

    pub fn apply_current_color(&mut self)
        ensures
            final(self).view() == old(self).view().apply_current_color(),
    {
        let color = self.color_editor.to_rgb();
        let attr = self.selected_attribute;
        self.set_color_by_attr(attr, color);
    }

    /// Opens the picker on the selected colour, remembering the component
    /// so that cancelling can restore it.
    pub fn open_color_picker(&mut self)
        ensures
            final(self).view() == old(self).view().open_color_picker(),
    {
        let ty = self.selected_element.component_type();
        proof {
            lemma_components_index(self.theme, ty);
        }
        self.original_component = Some(*self.theme.get(ty));
        let color = self.get_color();
        self.color_editor = ColorEditor::from_rgb(color.r, color.g, color.b);
        self.input_mode = InputMode::ColorPicker;
    }

    /// Closes the picker; without `save` the remembered component comes back.
    pub fn close_color_picker(&mut self, save: bool)
        ensures
            final(self).view() == old(self).view().close_color_picker(save),
    {
        if !save {
            match self.original_component {
                Some(original) => {
                    let ty = self.selected_element.component_type();
                    proof {
                        lemma_with_comp_components(self.theme, ty, original);
                    }
                    self.theme.set(ty, original);
                },
                None => {},
            }
        } else {
            match self.original_component {
                Some(original) => {
                    self.undo_stack.push((self.selected_element.component_type(), original));
                },
                None => {},
            }
        }
        self.original_component = None;
        self.input_mode = InputMode::Preview;
    }

    /// Switches between foreground and background and loads that colour
    /// into the editor.
    pub fn switch_editing_attribute(&mut self)
        ensures
            final(self).view() == old(self).view().switch_editing_attribute(),
    {
        self.selected_attribute.cycle();
        let attr = self.selected_attribute;
        let color = self.get_color_by_attr(attr);
        self.color_editor = ColorEditor::from_rgb(color.r, color.g, color.b);
    }
}

/// The pair of names as plain values.
pub open spec fn opt_pair_view(o: Option<(String, String)>) -> Option<(Seq<char>, Seq<char>)> {
    match o {
        Some((a, b)) => Some((a@, b@)),
        None => None,
    }
}

impl App {
    fn relist(&mut self)
        ensures
            final(self).view() == old(self).view().relist(),
    {
        self.loadable_themes = visible_themes(&self.all_themes, self.theme_filter, self.theme_search_query.as_str());
        self.selected_theme_index = 0;
    }

    /// Copies the selected attribute's colour.
    pub fn yank_color(&mut self)
        ensures
            final(self).view() == old(self).view().yank(),
    {
        let attr = self.selected_attribute;
        let c = self.get_color_by_attr(attr);
        self.yanked_color = Some(c);
    }

    /// Writes the copied colour, if any, into the selected attribute.
    pub fn paste_color(&mut self)
        ensures
            final(self).view() == old(self).view().paste(),
    {
        match self.yanked_color {
            Some(c) => {
                let ty = self.selected_element.component_type();
                proof {
                    lemma_components_index(self.theme, ty);
                }
                let before = *self.theme.get(ty);
                self.undo_stack.push((ty, before));
                let attr = self.selected_attribute;
                self.set_color_by_attr(attr, c);
            },
            None => {},
        }
    }

    /// Puts back the component changed last, if any change is recorded.
    pub fn undo_color(&mut self)
        ensures
            final(self).view() == old(self).view().undo_change(),
    {
        if self.undo_stack.len() > 0 {
            let entry = self.undo_stack.pop();
            match entry {
                Some((ty, c)) => {
                    proof {
                        lemma_with_comp_components(self.theme, ty, c);
                    }
                    self.theme.set(ty, c);
                    self.dirty = true;
                },
                None => {},
            }
        }
    }

    /// Types a character of the loader's search text (lower-cased).
    pub fn push_search_char(&mut self, c: char)
        ensures
            final(self).view() == (AppView { query: old(self).view().query.push(to_lower(c)), ..old(self).view() }).relist(),
    {
        push_char(&mut self.theme_search_query, char_to_lower(c));
        self.relist();
    }

    pub fn pop_search_char(&mut self)
        ensures
            final(self).view() == (AppView {
                query: if old(self).view().query.len() > 0 {
                    old(self).view().query.drop_last()
                } else {
                    old(self).view().query
                },
                ..old(self).view()
            }).relist(),
    {
        pop_char(&mut self.theme_search_query);
        self.relist();
    }

    pub fn clear_search(&mut self)
        ensures
            final(self).view() == (AppView { query: Seq::empty(), ..old(self).view() }).relist(),
    {
        self.theme_search_query = String::new();
        self.relist();
    }

    pub fn set_theme_filter(&mut self, filter: ThemeFilter)
        ensures
            final(self).view() == (AppView { filter, ..old(self).view() }).relist(),
    {
        self.theme_filter = filter;
        self.relist();
    }

    /// The name of the selected listed theme.
    pub fn selected_theme_name(&self) -> (res: Option<String>)
        ensures
            opt_view(res) == self.view().selected_theme(),
    {
        if self.selected_theme_index < self.loadable_themes.len() {
            Some(clone_string(&self.loadable_themes[self.selected_theme_index]))
        } else {
            None
        }
    }

    pub fn report_no_selection(&mut self)
        ensures
            final(self).view() == old(self).view().no_selection(),
    {
        self.message = Some(String::from_str("✗ No theme selected"));
    }

    /// Starts renaming the selected saved theme.
    pub fn begin_rename_selected_theme(&mut self)
        ensures
            final(self).view() == old(self).view().start_rename(),
    {
        match self.selected_theme_name() {
            Some(n) => {
                self.input_mode = InputMode::ThemeLoadRename;
                self.theme_name_input = n;
                self.message = Some(String::from_str("Enter a new name, then press Enter to rename"));
            },
            None => self.report_no_selection(),
        }
    }

    /// Asks to confirm deleting the selected saved theme.
    pub fn begin_delete_selected_theme(&mut self)
        ensures
            final(self).view() == old(self).view().start_delete(),
    {
        match self.selected_theme_name() {
            Some(n) => {
                self.input_mode = InputMode::ThemeLoadDeleteConfirm;
                self.message = Some(String::from_str("Delete \"").concat(n.as_str()).concat("\"? (y/n)"));
            },
            None => self.report_no_selection(),
        }
    }

    /// Takes the typed new name of the theme being renamed: the old and new
    /// names, or `None` after reporting why not.
    pub fn accept_rename(&mut self) -> (res: Option<(String, String)>)
        ensures
            (final(self).view(), opt_pair_view(res)) == old(self).view().accept_rename(),
    {
        let n = normalize_theme_name(self.theme_name_input.as_str());
        if n.as_str().unicode_len() == 0 {
            self.message = Some(String::from_str("✗ Theme name must contain letters or numbers"));
            return None;
        }
        match self.selected_theme_name() {
            Some(prev) => Some((prev, n)),
            None => {
                self.report_no_selection();
                self.input_mode = InputMode::ThemeLoad;
                None
            },
        }
    }

    /// After renaming `old` to `new`: the outcome and the new listing.
    pub fn finish_rename(
        &mut self,
        old_name: &str,
        new_name: &str,
        result: Result<(), ConfigError>,
        listed: Result<Vec<String>, ConfigError>,
    )
        ensures
            final(self).view() == old(self).view().after_rename(old_name@, new_name@, unit_result(result), list_result(listed)),
    {
        match result {
            Ok(()) => {
                self.message = Some(String::from_str("✓ Renamed: ").concat(old_name).concat(" → ").concat(new_name));
            },
            Err(e) => {
                self.message = Some(error_message_exec(&e));
            },
        }
        self.finish_refresh(listed);
        self.input_mode = InputMode::ThemeLoad;
    }

    /// After deleting `name`: the outcome and the new listing.
    pub fn finish_delete(&mut self, name: &str, result: Result<(), ConfigError>, listed: Result<Vec<String>, ConfigError>)
        ensures
            final(self).view() == old(self).view().after_delete(name@, unit_result(result), list_result(listed)),
    {
        match result {
            Ok(()) => {
                self.message = Some(String::from_str("✓ Deleted: ").concat(name));
            },
            Err(e) => {
                self.message = Some(error_message_exec(&e));
            },
        }
        self.finish_refresh(listed);
        self.input_mode = InputMode::ThemeLoad;
    }

    /// After selecting the saved theme `name` in the Zellij configuration.
    pub fn finish_apply_saved(&mut self, name: &str, result: Result<(), ConfigError>)
        ensures
            final(self).view() == old(self).view().after_apply_saved(name@, unit_result(result)),
    {
        match result {
            Ok(()) => {
                self.message = Some(
                    String::from_str("✓ Applied \"").concat(name).concat("\" — restart Zellij to see changes"),
                );
            },
            Err(e) => {
                self.message = Some(error_message_exec(&e));
            },
        }
    }
}

impl Default for App {
    /// The same state as `App::new`.
    fn default() -> (res: Self)
        ensures
            res.view().theme_name == "default"@,
            res.view().components == default_components(),
            res.view().theme_name_input == "default"@,
            res.view().selected_element == PreviewElement::TabSelected,
            res.view().selected_attribute == PreviewAttribute::Base,
            res.view().message is None,
            res.view().input_mode == InputMode::Preview,
            res.view().editor == editor_from_rgb(RgbColor { r: 200, g: 200, b: 200 }),
            res.view().original_component is None,
            res.view().loadable_themes.len() == 0,
            res.view().selected_theme_index == 0,
            !res.view().dirty,
            res.view().yanked is None,
            res.view().undo.len() == 0,
            res.view().all_themes.len() == 0,
            res.view().query.len() == 0,
            res.view().filter == ThemeFilter::All,
    {
        App::new()
    }
}

} // verus!
