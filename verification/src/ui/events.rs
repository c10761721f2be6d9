//! Key bindings: how a key press changes the editor state, and which file
//! operation, if any, the caller has to carry out next.

use vstd::prelude::*;
use crate::config::ConfigError;
use vstd::string::{StringExecFns, StrSliceExecFns};
use crate::text::{utf8_len, utf8_len_capped, hex_char, to_lower};
use crate::ui::loader::{ThemeFilter, lemma_visible_len};
use crate::theme::{hex_byte, RgbColor};
use crate::ui::search::{first_match, find_element};
use crate::text::{push_char, pop_char};
use crate::ui::state::{
    App, AppView, EditorView, InputMode, PreviewAttribute, PreviewElement, all_hex, opt_view,
    unit_result, list_result, lemma_all_hex_sliceable,
};

verus! {

/// The keys the editor distinguishes.
#[derive(Debug, Clone, Copy, PartialEq, Eq, Structural)]
pub enum KeyCode {
    Char(char),
    Up,
    Down,
    Left,
    Right,
    Tab,
    Enter,
    Esc,
    Backspace,
    PageUp,
    PageDown,
    Other,
}

/// A key press: the key and whether Shift was held.
#[derive(Debug, Clone, Copy, PartialEq, Eq, Structural)]
pub struct KeyInput {
    pub code: KeyCode,
    pub shift: bool,
}

/// A file operation a key press asks for. The caller carries it out and
/// hands the outcome back to the matching `App::finish_*` method.
pub enum IoRequest {
    /// Save the theme, then list the saved themes (`finish_save_as`).
    SaveAs,
    /// Apply the theme, then list the saved themes (`finish_apply_as`).
    ApplyAs,
    /// Save the theme and select it in the Zellij configuration (`finish_apply`).
    Apply,
    /// List the saved themes (`finish_open_load_dialog`).
    OpenLoadDialog,
    /// Load the saved theme of this name (`finish_load`).
    Load(String),
    /// Select the saved theme of this name in the Zellij configuration
    /// (`finish_apply_saved`).
    ApplySaved(String),
    /// Rename a saved theme, then list the saved themes (`finish_rename`).
    Rename(String, String),
    /// Delete a saved theme, then list the saved themes (`finish_delete`).
    Delete(String),
    /// Fetch and install the latest release (`finish_self_update`).
    SelfUpdate,
}

/// What the caller does after a key press.
pub enum KeyOutcome {
    Continue,
    Quit,
    Io(IoRequest),
}

/// A plain-value picture of a `KeyOutcome`.
pub enum OutcomeView {
    Continue,
    Quit,
    SaveAs,
    ApplyAs,
    Apply,
    OpenLoadDialog,
    Load(Seq<char>),
    ApplySaved(Seq<char>),
    Rename(Seq<char>, Seq<char>),
    Delete(Seq<char>),
    SelfUpdate,
}

pub open spec fn outcome_view(o: KeyOutcome) -> OutcomeView {
    match o {
        KeyOutcome::Continue => OutcomeView::Continue,
        KeyOutcome::Quit => OutcomeView::Quit,
        KeyOutcome::Io(IoRequest::SaveAs) => OutcomeView::SaveAs,
        KeyOutcome::Io(IoRequest::ApplyAs) => OutcomeView::ApplyAs,
        KeyOutcome::Io(IoRequest::Apply) => OutcomeView::Apply,
        KeyOutcome::Io(IoRequest::OpenLoadDialog) => OutcomeView::OpenLoadDialog,
        KeyOutcome::Io(IoRequest::Load(n)) => OutcomeView::Load(n@),
        KeyOutcome::Io(IoRequest::ApplySaved(n)) => OutcomeView::ApplySaved(n@),
        KeyOutcome::Io(IoRequest::Rename(a, b)) => OutcomeView::Rename(a@, b@),
        KeyOutcome::Io(IoRequest::Delete(n)) => OutcomeView::Delete(n@),
        KeyOutcome::Io(IoRequest::SelfUpdate) => OutcomeView::SelfUpdate,
    }
}

/// A frame has no background, so selecting one selects its foreground.
pub open spec fn select_element(s: AppView, e: PreviewElement) -> AppView {
    AppView {
        selected_element: e,
        selected_attribute: if e.spec_is_frame() {
            PreviewAttribute::Base
        } else {
            s.selected_attribute
        },
        message: None,
        ..s
    }
}

/// The first element of each group the number keys jump to: the tab bar,
/// the panes, the pane contents and the status bar.
pub open spec fn group_start(c: char) -> Option<PreviewElement> {
    if c == '1' {
        Some(PreviewElement::TabSelected)
    } else if c == '2' {
        Some(PreviewElement::PaneSelected)
    } else if c == '3' {
        Some(PreviewElement::TableTitle)
    } else if c == '4' {
        Some(PreviewElement::StatusBar)
    } else {
        None
    }
}

pub fn group_start_exec(c: char) -> (res: Option<PreviewElement>)
    ensures
        res == group_start(c),
{
    if c == '1' {
        Some(PreviewElement::TabSelected)
    } else if c == '2' {
        Some(PreviewElement::PaneSelected)
    } else if c == '3' {
        Some(PreviewElement::TableTitle)
    } else if c == '4' {
        Some(PreviewElement::StatusBar)
    } else {
        None
    }
}

pub open spec fn preview_key(s: AppView, key: KeyInput) -> (AppView, OutcomeView) {
    let cleared = AppView { message: None, ..s };
    match key.code {
        KeyCode::Char('q') | KeyCode::Esc => (s, OutcomeView::Quit),
        KeyCode::Up => (select_element(s, s.selected_element.above()), OutcomeView::Continue),
        KeyCode::Down => (select_element(s, s.selected_element.below()), OutcomeView::Continue),
        KeyCode::Left => (select_element(s, s.selected_element.spec_left()), OutcomeView::Continue),
        KeyCode::Right => (
            select_element(s, s.selected_element.spec_right()),
            OutcomeView::Continue,
        ),
        KeyCode::Tab => (
            if !s.selected_element.spec_is_frame() {
                AppView { selected_attribute: s.selected_attribute.other(), ..cleared }
            } else {
                cleared
            },
            OutcomeView::Continue,
        ),
        KeyCode::Char('c') | KeyCode::Enter => (cleared.open_color_picker(), OutcomeView::Continue),
        KeyCode::Char('s') => (cleared.open_theme_name_input(), OutcomeView::Continue),
        KeyCode::Char('l') => (cleared, OutcomeView::OpenLoadDialog),
        KeyCode::Char('a') => if s.theme_name == "default"@ {
            (
                AppView {
                    input_mode: InputMode::ThemeNameInputApply,
                    message: Some("Name this theme before applying"@),
                    ..cleared.sync_name()
                },
                OutcomeView::Continue,
            )
        } else {
            (cleared, OutcomeView::Apply)
        },
        KeyCode::Char('?') => (AppView { input_mode: InputMode::Help, ..cleared }, OutcomeView::Continue),
        KeyCode::Char('j') => (select_element(s, s.selected_element.below()), OutcomeView::Continue),
        KeyCode::Char('k') => (select_element(s, s.selected_element.above()), OutcomeView::Continue),
        KeyCode::Char('y') => (cleared.yank(), OutcomeView::Continue),
        KeyCode::Char('p') => (cleared.paste(), OutcomeView::Continue),
        KeyCode::Char('u') => (cleared.undo_change(), OutcomeView::Continue),
        KeyCode::Char('U') => (cleared, OutcomeView::SelfUpdate),
        KeyCode::Char('/') => (
            AppView { input_mode: InputMode::ElementSearch, element_query: Seq::empty(), ..cleared },
            OutcomeView::Continue,
        ),
        KeyCode::Char(c) => match group_start(c) {
            Some(e) => (select_element(s, e), OutcomeView::Continue),
            None => (s, OutcomeView::Continue),
        },
        _ => (s, OutcomeView::Continue),
    }
}

pub open spec fn with_editor(s: AppView, e: EditorView) -> AppView {
    AppView { editor: e, ..s }
}

/// Adjusts the edited channel and shows the result in the theme.
pub open spec fn nudge(s: AppView, delta: i32) -> AppView {
    with_editor(s, s.editor.adjust(delta)).apply_current_color()
}

pub open spec fn picker_key(s: AppView, key: KeyInput) -> AppView {
    let hex_active = s.editor.hex_input is Some;
    match key.code {
        KeyCode::Esc => if hex_active {
            with_editor(s, EditorView { hex_input: None, ..s.editor })
        } else {
            s.close_color_picker(false)
        },
        KeyCode::Enter => if hex_active {
            with_editor(s, s.editor.commit_hex().0).apply_current_color()
        } else {
            s.close_color_picker(true)
        },
        KeyCode::Tab => if !s.selected_element.spec_is_frame() {
            s.switch_editing_attribute()
        } else {
            s
        },
        KeyCode::Char('#') => with_editor(s, s.editor.start_hex()),
        KeyCode::Char(c) => if hex_active {
            let e1 = s.editor.push_hex(c);
            if utf8_len(e1.hex_input->0) == 6 {
                with_editor(s, e1.commit_hex().0).apply_current_color()
            } else {
                with_editor(s, e1)
            }
        } else if c == 'f' && !s.selected_element.spec_is_frame() {
            s.switch_editing_attribute()
        } else if c == 'y' {
            AppView { yanked: Some(s.editor.rgb()), ..s }
        } else {
            s
        },
        KeyCode::Backspace => if hex_active {
            with_editor(s, s.editor.pop_hex())
        } else {
            s
        },
        KeyCode::Up => with_editor(s, s.editor.prev_channel()),
        KeyCode::Down => with_editor(s, s.editor.next_channel()),
        KeyCode::Left => nudge(s, if key.shift { -1i32 } else { -5i32 }),
        KeyCode::Right => nudge(s, if key.shift { 1i32 } else { 5i32 }),
        KeyCode::PageUp => nudge(s, 25i32),
        KeyCode::PageDown => nudge(s, -25i32),
        _ => s,
    }
}

pub open spec fn name_key(s: AppView, key: KeyInput, apply: bool) -> (AppView, OutcomeView) {
    match key.code {
        KeyCode::Esc => (
            AppView { input_mode: InputMode::Preview, message: Some("Save cancelled"@), ..s },
            OutcomeView::Continue,
        ),
        KeyCode::Enter => {
            let (t, ok) = s.accept_name();
            if ok {
                (t, if apply { OutcomeView::ApplyAs } else { OutcomeView::SaveAs })
            } else {
                (t, OutcomeView::Continue)
            }
        },
        KeyCode::Backspace => (s.pop_name_char(), OutcomeView::Continue),
        KeyCode::Char(c) => (s.push_name_char(c), OutcomeView::Continue),
        _ => (s, OutcomeView::Continue),
    }
}

pub open spec fn load_key(s: AppView, key: KeyInput) -> (AppView, OutcomeView) {
    match key.code {
        KeyCode::Esc => if s.query.len() > 0 {
            (AppView { query: Seq::empty(), ..s }.relist(), OutcomeView::Continue)
        } else {
            (AppView { input_mode: InputMode::Preview, message: Some("Load cancelled"@), ..s }, OutcomeView::Continue)
        },
        KeyCode::Enter => {
            let (t, n) = s.begin_load();
            match n {
                Some(name) => (t, OutcomeView::Load(name)),
                None => (t, OutcomeView::Continue),
            }
        },
        KeyCode::Up => (s.selection_up(), OutcomeView::Continue),
        KeyCode::Down => (s.selection_down(), OutcomeView::Continue),
        KeyCode::Backspace => (
            AppView { query: if s.query.len() > 0 { s.query.drop_last() } else { s.query }, ..s }.relist(),
            OutcomeView::Continue,
        ),
        KeyCode::Char('b') => (AppView { filter: ThemeFilter::Builtin, ..s }.relist(), OutcomeView::Continue),
        KeyCode::Char('s') => (AppView { filter: ThemeFilter::Saved, ..s }.relist(), OutcomeView::Continue),
        KeyCode::Char('a') => match s.selected_theme() {
            Some(n) => (s, OutcomeView::ApplySaved(n)),
            None => (s.no_selection(), OutcomeView::Continue),
        },
        KeyCode::Char('r') => (s.start_rename(), OutcomeView::Continue),
        KeyCode::Char('d') => (s.start_delete(), OutcomeView::Continue),
        KeyCode::Char(c) => (AppView { query: s.query.push(to_lower(c)), ..s }.relist(), OutcomeView::Continue),
        _ => (s, OutcomeView::Continue),
    }
}

pub open spec fn rename_key(s: AppView, key: KeyInput) -> (AppView, OutcomeView) {
    match key.code {
        KeyCode::Esc => (AppView { input_mode: InputMode::ThemeLoad, message: None, ..s }, OutcomeView::Continue),
        KeyCode::Enter => {
            let (t, r) = s.accept_rename();
            match r {
                Some((a, b)) => (t, OutcomeView::Rename(a, b)),
                None => (t, OutcomeView::Continue),
            }
        },
        KeyCode::Backspace => (s.pop_name_char(), OutcomeView::Continue),
        KeyCode::Char(c) => (s.push_name_char(c), OutcomeView::Continue),
        _ => (s, OutcomeView::Continue),
    }
}

pub open spec fn delete_key(s: AppView, key: KeyInput) -> (AppView, OutcomeView) {
    match key.code {
        KeyCode::Char('y') => match s.selected_theme() {
            Some(n) => (s, OutcomeView::Delete(n)),
            None => (AppView { input_mode: InputMode::ThemeLoad, ..s.no_selection() }, OutcomeView::Continue),
        },
        KeyCode::Char('n') | KeyCode::Esc => (
            AppView { input_mode: InputMode::ThemeLoad, message: None, ..s },
            OutcomeView::Continue,
        ),
        _ => (s, OutcomeView::Continue),
    }
}

pub open spec fn help_key(s: AppView, key: KeyInput) -> AppView {
    match key.code {
        KeyCode::Esc | KeyCode::Char('q') | KeyCode::Char('?') => AppView {
            input_mode: InputMode::Preview,
            ..s
        },
        _ => s,
    }
}

/// The editor state after a key press and what the caller does next,
/// according to the current input mode.
/// Typing a search for a preview element: Enter jumps to the first element
/// whose label matches (see `first_match`), or says that none does; Esc
/// gives up; either way back to the preview.
pub open spec fn search_key(s: AppView, key: KeyInput) -> AppView {
    let done = AppView { input_mode: InputMode::Preview, element_query: Seq::empty(), ..s };
    match key.code {
        KeyCode::Esc => done,
        KeyCode::Enter => match first_match(s.element_query) {
            Some(e) => select_element(done, e),
            None => AppView { message: Some("✗ No element matches"@), ..done },
        },
        KeyCode::Backspace => AppView {
            element_query: if s.element_query.len() > 0 { s.element_query.drop_last() } else { s.element_query },
            ..s
        },
        KeyCode::Char(c) => AppView { element_query: s.element_query.push(c), ..s },
        _ => s,
    }
}

pub open spec fn spec_process_key(s: AppView, key: KeyInput) -> (AppView, OutcomeView) {
    match s.input_mode {
        InputMode::Preview => preview_key(s, key),
        InputMode::ColorPicker => (picker_key(s, key), OutcomeView::Continue),
        InputMode::ThemeNameInput => name_key(s, key, false),
        InputMode::ThemeNameInputApply => name_key(s, key, true),
        InputMode::ThemeLoad => load_key(s, key),
        InputMode::Help => (help_key(s, key), OutcomeView::Continue),
        InputMode::ThemeLoadRename => rename_key(s, key),
        InputMode::ThemeLoadDeleteConfirm => delete_key(s, key),
        InputMode::ElementSearch => (search_key(s, key), OutcomeView::Continue),
    }
}

/// The invariant that key handling keeps.
pub open spec fn app_wf(s: AppView) -> bool {
    &&& s.components.len() == 14
    &&& s.editor.wf()
    &&& s.selected_theme_index < usize::MAX
    &&& s.loadable_themes.len() <= usize::MAX
    &&& s.all_themes.len() <= usize::MAX
}

proof fn lemma_hex_byte_digits(v: u8)
    ensures
        all_hex(hex_byte(v)),
{
    let h = hex_byte(v);
    assert(crate::text::is_hex_digit(h[0]));
    assert(crate::text::is_hex_digit(h[1]));
}

pub(crate) proof fn lemma_start_hex_wf(e: EditorView)
    requires
        e.wf(),
    ensures
        e.start_hex().wf(),
{
    lemma_hex_byte_digits(e.r);
    lemma_hex_byte_digits(e.g);
    lemma_hex_byte_digits(e.b);
    let h = hex_byte(e.r) + hex_byte(e.g) + hex_byte(e.b);
    assert forall|i: int| 0 <= i < h.len() implies crate::text::is_hex_digit(#[trigger] h[i]) by {
        if i < 2 {
            assert(h[i] == hex_byte(e.r)[i]);
        } else if i < 4 {
            assert(h[i] == hex_byte(e.g)[i - 2]);
        } else {
            assert(h[i] == hex_byte(e.b)[i - 4]);
        }
    }
}

pub(crate) proof fn lemma_push_hex_wf(e: EditorView, c: char)
    requires
        e.wf(),
    ensures
        e.push_hex(c).wf(),
{
    if e.hex_input is Some {
        let h = e.hex_input->0;
        if utf8_len(h) < 6 && crate::text::is_hex_digit(c) {
            let h2 = h.push(crate::text::to_lower(c));
            assert forall|i: int| 0 <= i < h2.len() implies crate::text::is_hex_digit(#[trigger] h2[i]) by {
                if i < h.len() {
                    assert(h2[i] == h[i]);
                }
            }
        }
    }
}

pub(crate) proof fn lemma_pop_hex_wf(e: EditorView)
    requires
        e.wf(),
    ensures
        e.pop_hex().wf(),
{
    if e.hex_input is Some {
        let h = e.hex_input->0;
        if h.len() > 0 {
            assert forall|i: int| 0 <= i < h.drop_last().len() implies crate::text::is_hex_digit(
                #[trigger] h.drop_last()[i],
            ) by {
                assert(h.drop_last()[i] == h[i]);
            }
        }
    }
}

impl App {
    /// After "save as": the outcomes of saving the theme and of listing the
    /// saved themes; back to preview.
    pub fn finish_save_as(
        &mut self,
        saved: Result<(), ConfigError>,
        listed: Result<Vec<String>, ConfigError>,
    )
        ensures
            final(self).view() == (AppView {
                input_mode: InputMode::Preview,
                ..old(self).view().after_save(unit_result(saved)).after_refresh(list_result(listed))
            }),
    {
        self.finish_save(saved);
        self.finish_refresh(listed);
        self.input_mode = InputMode::Preview;
    }

    /// After "apply as": the outcomes of applying the theme and of listing
    /// the saved themes; back to preview.
    pub fn finish_apply_as(
        &mut self,
        applied: Result<(), ConfigError>,
        listed: Result<Vec<String>, ConfigError>,
    )
        ensures
            final(self).view() == (AppView {
                input_mode: InputMode::Preview,
                ..old(self).view().after_apply(unit_result(applied)).after_refresh(list_result(listed))
            }),
    {
        self.finish_apply(applied);
        self.finish_refresh(listed);
        self.input_mode = InputMode::Preview;
    }

    fn start_element_search(&mut self)
        ensures
            final(self).view() == (AppView {
                input_mode: InputMode::ElementSearch,
                element_query: Seq::empty(),
                message: None,
                ..old(self).view()
            }),
    {
        self.message = None;
        self.input_mode = InputMode::ElementSearch;
        self.element_query = String::new();
    }

    fn search_key(&mut self, key: KeyInput)
        ensures
            final(self).view() == search_key(old(self).view(), key),
    {
        match key.code {
            KeyCode::Esc => {
                self.input_mode = InputMode::Preview;
                self.element_query = String::new();
            },
            KeyCode::Enter => {
                let found = find_element(self.element_query.as_str());
                self.input_mode = InputMode::Preview;
                self.element_query = String::new();
                match found {
                    Some(e) => self.select_element(e),
                    None => {
                        self.message = Some(String::from_str("✗ No element matches"));
                    },
                }
            },
            KeyCode::Backspace => {
                pop_char(&mut self.element_query);
            },
            KeyCode::Char(c) => {
                push_char(&mut self.element_query, c);
            },
            _ => {},
        }
    }

    fn select_element(&mut self, e: PreviewElement)
        ensures
            final(self).view() == select_element(old(self).view(), e),
    {
        self.selected_element = e;
        if e.is_frame() {
            self.selected_attribute = PreviewAttribute::Base;
        }
        self.message = None;
    }

    fn picker_key(&mut self, key: KeyInput)
        requires
            app_wf(old(self).view()),
        ensures
            final(self).view() == picker_key(old(self).view(), key),
            app_wf(final(self).view()),
    {
        let hex_active = self.color_editor.hex_input.is_some();
        proof {
            if hex_active {
                lemma_all_hex_sliceable(self.color_editor.view().hex_input->0);
            }
        }
        match key.code {
            KeyCode::Esc => {
                if hex_active {
                    self.color_editor.cancel_hex();
                } else {
                    self.close_color_picker(false);
                }
            },
            KeyCode::Enter => {
                if hex_active {
                    self.color_editor.commit_hex();
                    self.apply_current_color();
                } else {
                    self.close_color_picker(true);
                }
            },
            KeyCode::Tab => {
                if !self.selected_element.is_frame() {
                    self.switch_editing_attribute();
                }
            },
            KeyCode::Char('#') => {
                proof {
                    lemma_start_hex_wf(self.color_editor.view());
                }
                self.color_editor.start_hex_input();
            },
            KeyCode::Char(c) => {
                if hex_active {
                    proof {
                        lemma_push_hex_wf(self.color_editor.view(), c);
                    }
                    self.color_editor.push_hex_char(c);
                    let full = match &self.color_editor.hex_input {
                        Some(h) => utf8_len_capped(h.as_str(), 7) == 6,
                        None => false,
                    };
                    if full {
                        proof {
                            lemma_all_hex_sliceable(self.color_editor.view().hex_input->0);
                        }
                        self.color_editor.commit_hex();
                        self.apply_current_color();
                    }
                } else if c == 'f' && !self.selected_element.is_frame() {
                    self.switch_editing_attribute();
                } else if c == 'y' {
                    self.yanked_color = Some(self.color_editor.to_rgb());
                }
            },
            KeyCode::Backspace => {
                if hex_active {
                    proof {
                        lemma_pop_hex_wf(self.color_editor.view());
                    }
                    self.color_editor.pop_hex_char();
                }
            },
            KeyCode::Up => {
                self.color_editor.select_prev_channel();
            },
            KeyCode::Down => {
                self.color_editor.select_next_channel();
            },
            KeyCode::Left => {
                let delta: i32 = if key.shift {
                    -1
                } else {
                    -5
                };
                self.color_editor.adjust(delta);
                self.apply_current_color();
            },
            KeyCode::Right => {
                let delta: i32 = if key.shift {
                    1
                } else {
                    5
                };
                self.color_editor.adjust(delta);
                self.apply_current_color();
            },
            KeyCode::PageUp => {
                self.color_editor.adjust(25);
                self.apply_current_color();
            },
            KeyCode::PageDown => {
                self.color_editor.adjust(-25);
                self.apply_current_color();
            },
            _ => {},
        }
    }
}

proof fn lemma_preview_wf(s: AppView, key: KeyInput)
    requires
        app_wf(s),
    ensures
        app_wf(preview_key(s, key).0),
{
}

proof fn lemma_picker_wf(s: AppView, key: KeyInput)
    requires
        app_wf(s),
    ensures
        app_wf(picker_key(s, key)),
{
    match key.code {
        KeyCode::Char(c) => {
            if c == '#' {
                lemma_start_hex_wf(s.editor);
            } else {
                lemma_push_hex_wf(s.editor, c);
            }
        },
        KeyCode::Backspace => {
            lemma_pop_hex_wf(s.editor);
        },
        _ => {},
    }
}

proof fn lemma_name_wf(s: AppView, key: KeyInput, apply: bool)
    requires
        app_wf(s),
    ensures
        app_wf(name_key(s, key, apply).0),
{
}

proof fn lemma_load_wf(s: AppView, key: KeyInput)
    requires
        app_wf(s),
    ensures
        app_wf(load_key(s, key).0),
{
    lemma_visible_len(s.all_themes, s.filter, s.query);
    lemma_visible_len(s.all_themes, ThemeFilter::Builtin, s.query);
    lemma_visible_len(s.all_themes, ThemeFilter::Saved, s.query);
    lemma_visible_len(s.all_themes, s.filter, Seq::empty());
    if s.query.len() > 0 {
        lemma_visible_len(s.all_themes, s.filter, s.query.drop_last());
    }
    if let KeyCode::Char(c) = key.code {
        lemma_visible_len(s.all_themes, s.filter, s.query.push(to_lower(c)));
    }
}

proof fn lemma_process_key_wf(s: AppView, key: KeyInput)
    requires
        app_wf(s),
    ensures
        app_wf(spec_process_key(s, key).0),
{
    match s.input_mode {
        InputMode::Preview => lemma_preview_wf(s, key),
        InputMode::ColorPicker => lemma_picker_wf(s, key),
        InputMode::ThemeNameInput => lemma_name_wf(s, key, false),
        InputMode::ThemeNameInputApply => lemma_name_wf(s, key, true),
        InputMode::ThemeLoad => lemma_load_wf(s, key),
        InputMode::Help => {},
        _ => {},
    }
}

impl App {
    fn loader_key(&mut self, key: KeyInput) -> (res: KeyOutcome)
        requires
            old(self).input_mode == InputMode::ThemeLoad,
            app_wf(old(self).view()),
        ensures
            (final(self).view(), outcome_view(res)) == load_key(old(self).view(), key),
    {
        match key.code {
            KeyCode::Esc => {
                if self.theme_search_query.as_str().unicode_len() > 0 {
                    self.clear_search();
                } else {
                    self.input_mode = InputMode::Preview;
                    self.message = Some(String::from_str("Load cancelled"));
                }
                KeyOutcome::Continue
            },
            KeyCode::Enter => {
                match self.begin_load() {
                    Some(name) => KeyOutcome::Io(IoRequest::Load(name)),
                    None => KeyOutcome::Continue,
                }
            },
            KeyCode::Up => {
                self.move_theme_selection_up();
                KeyOutcome::Continue
            },
            KeyCode::Down => {
                self.move_theme_selection_down();
                KeyOutcome::Continue
            },
            KeyCode::Backspace => {
                self.pop_search_char();
                KeyOutcome::Continue
            },
            KeyCode::Char('b') => {
                self.set_theme_filter(ThemeFilter::Builtin);
                KeyOutcome::Continue
            },
            KeyCode::Char('s') => {
                self.set_theme_filter(ThemeFilter::Saved);
                KeyOutcome::Continue
            },
            KeyCode::Char('a') => {
                match self.selected_theme_name() {
                    Some(n) => KeyOutcome::Io(IoRequest::ApplySaved(n)),
                    None => {
                        self.report_no_selection();
                        KeyOutcome::Continue
                    },
                }
            },
            KeyCode::Char('r') => {
                self.begin_rename_selected_theme();
                KeyOutcome::Continue
            },
            KeyCode::Char('d') => {
                self.begin_delete_selected_theme();
                KeyOutcome::Continue
            },
            KeyCode::Char(c) => {
                self.push_search_char(c);
                KeyOutcome::Continue
            },
            _ => KeyOutcome::Continue,
        }
    }

    fn rename_key(&mut self, key: KeyInput) -> (res: KeyOutcome)
        ensures
            (final(self).view(), outcome_view(res)) == rename_key(old(self).view(), key),
    {
        match key.code {
            KeyCode::Esc => {
                self.input_mode = InputMode::ThemeLoad;
                self.message = None;
                KeyOutcome::Continue
            },
            KeyCode::Enter => {
                match self.accept_rename() {
                    Some((a, b)) => KeyOutcome::Io(IoRequest::Rename(a, b)),
                    None => KeyOutcome::Continue,
                }
            },
            KeyCode::Backspace => {
                self.pop_theme_name_char();
                KeyOutcome::Continue
            },
            KeyCode::Char(c) => {
                self.push_theme_name_char(c);
                KeyOutcome::Continue
            },
            _ => KeyOutcome::Continue,
        }
    }

    fn delete_key(&mut self, key: KeyInput) -> (res: KeyOutcome)
        ensures
            (final(self).view(), outcome_view(res)) == delete_key(old(self).view(), key),
    {
        match key.code {
            KeyCode::Char('y') => {
                match self.selected_theme_name() {
                    Some(n) => KeyOutcome::Io(IoRequest::Delete(n)),
                    None => {
                        self.report_no_selection();
                        self.input_mode = InputMode::ThemeLoad;
                        KeyOutcome::Continue
                    },
                }
            },
            KeyCode::Char('n') | KeyCode::Esc => {
                self.input_mode = InputMode::ThemeLoad;
                self.message = None;
                KeyOutcome::Continue
            },
            _ => KeyOutcome::Continue,
        }
    }
}

/// Handles one key press: updates the editor state and says whether to go
/// on, quit, or carry out a file operation first.
pub fn process_key(app: &mut App, key: KeyInput) -> (res: KeyOutcome)
    requires
        app_wf(old(app).view()),
    ensures
        (final(app).view(), outcome_view(res)) == spec_process_key(old(app).view(), key),
        app_wf(final(app).view()),
{
    proof {
        lemma_process_key_wf(app.view(), key);
    }
    match app.input_mode {
        InputMode::Preview => {
            match key.code {
                KeyCode::Char('q') | KeyCode::Esc => {
                    return KeyOutcome::Quit;
                },
                KeyCode::Up => {
                    let mut e = app.selected_element;
                    e.move_up();
                    app.select_element(e);
                },
                KeyCode::Down => {
                    let mut e = app.selected_element;
                    e.move_down();
                    app.select_element(e);
                },
                KeyCode::Left => {
                    let mut e = app.selected_element;
                    e.move_left();
                    app.select_element(e);
                },
                KeyCode::Right => {
                    let mut e = app.selected_element;
                    e.move_right();
                    app.select_element(e);
                },
                KeyCode::Tab => {
                    app.message = None;
                    if !app.selected_element.is_frame() {
                        app.selected_attribute.cycle();
                    }
                },
                KeyCode::Char('c') | KeyCode::Enter => {
                    app.message = None;
                    app.open_color_picker();
                },
                KeyCode::Char('s') => {
                    app.message = None;
                    app.open_theme_name_input();
                },
                KeyCode::Char('l') => {
                    app.message = None;
                    return KeyOutcome::Io(IoRequest::OpenLoadDialog);
                },
                KeyCode::Char('a') => {
                    app.message = None;
                    if crate::text::str_eq(app.theme.name.as_str(), "default") {
                        app.sync_theme_name_input();
                        app.input_mode = InputMode::ThemeNameInputApply;
                        app.message = Some(
                            String::from_str("Name this theme before applying"),
                        );
                    } else {
                        return KeyOutcome::Io(IoRequest::Apply);
                    }
                },
                KeyCode::Char('?') => {
                    app.message = None;
                    app.input_mode = InputMode::Help;
                },
                KeyCode::Char('j') => {
                    let mut e = app.selected_element;
                    e.move_down();
                    app.select_element(e);
                },
                KeyCode::Char('k') => {
                    let mut e = app.selected_element;
                    e.move_up();
                    app.select_element(e);
                },
                KeyCode::Char('y') => {
                    app.message = None;
                    app.yank_color();
                },
                KeyCode::Char('p') => {
                    app.message = None;
                    app.paste_color();
                },
                KeyCode::Char('u') => {
                    app.message = None;
                    app.undo_color();
                },
                KeyCode::Char('U') => {
                    app.message = None;
                    return KeyOutcome::Io(IoRequest::SelfUpdate);
                },
                KeyCode::Char('/') => {
                    app.start_element_search();
                },
                KeyCode::Char(c) => {
                    match group_start_exec(c) {
                        Some(e) => app.select_element(e),
                        None => {},
                    }
                },
                _ => {},
            }
            KeyOutcome::Continue
        },
        InputMode::ColorPicker => {
            app.picker_key(key);
            KeyOutcome::Continue
        },
        InputMode::ThemeNameInput | InputMode::ThemeNameInputApply => {
            let apply = app.input_mode == InputMode::ThemeNameInputApply;
            match key.code {
                KeyCode::Esc => {
                    app.input_mode = InputMode::Preview;
                    app.message = Some(String::from_str("Save cancelled"));
                    KeyOutcome::Continue
                },
                KeyCode::Enter => {
                    if app.accept_theme_name_input() {
                        if apply {
                            KeyOutcome::Io(IoRequest::ApplyAs)
                        } else {
                            KeyOutcome::Io(IoRequest::SaveAs)
                        }
                    } else {
                        KeyOutcome::Continue
                    }
                },
                KeyCode::Backspace => {
                    app.pop_theme_name_char();
                    KeyOutcome::Continue
                },
                KeyCode::Char(c) => {
                    app.push_theme_name_char(c);
                    KeyOutcome::Continue
                },
                _ => KeyOutcome::Continue,
            }
        },
        InputMode::ThemeLoad => app.loader_key(key),
        InputMode::ThemeLoadRename => app.rename_key(key),
        InputMode::ThemeLoadDeleteConfirm => app.delete_key(key),
        InputMode::ElementSearch => {
            app.search_key(key);
            KeyOutcome::Continue
        },
        InputMode::Help => {
            match key.code {
                KeyCode::Esc | KeyCode::Char('q') | KeyCode::Char('?') => {
                    app.input_mode = InputMode::Preview;
                },
                _ => {},
            }
            KeyOutcome::Continue
        },
    }
}


/// `u` is the state of a colour-picker session opened on `s0`: still in the
/// picker, the same element selected, its component remembered as it was
/// in `s0`, the theme's name kept, and every other component as in `s0`.
pub open spec fn in_picker_session(s0: AppView, u: AppView) -> bool {
    let k = s0.selected_type().index();
    &&& u.input_mode == InputMode::ColorPicker
    &&& u.selected_element == s0.selected_element
    &&& u.original_component == Some(s0.selected_component())
    &&& u.theme_name == s0.theme_name
    &&& u.components.len() == s0.components.len()
    &&& forall|i: int| 0 <= i < u.components.len() && i != k ==> u.components[i] == s0.components[i]
}

/// Opening the picker starts a session.
pub proof fn lemma_open_picker_starts_session(s0: AppView)
    requires
        app_wf(s0),
    ensures
        in_picker_session(s0, s0.open_color_picker()),
{
}

/// Any key that leaves the picker open keeps the session: it only ever
/// changes the component being edited.
pub proof fn lemma_picker_key_keeps_session(s0: AppView, u: AppView, key: KeyInput)
    requires
        app_wf(s0),
        in_picker_session(s0, u),
        picker_key(u, key).input_mode == InputMode::ColorPicker,
    ensures
        in_picker_session(s0, picker_key(u, key)),
{
    crate::theme::lemma_component_index(s0.selected_type());
}

/// Cancelling the picker (Esc with no hex text pending) puts back every
/// component as it was when the picker was opened, whatever was edited.
pub proof fn lemma_cancel_restores_theme(s0: AppView, u: AppView)
    requires
        app_wf(s0),
        in_picker_session(s0, u),
        u.editor.hex_input is None,
    ensures
        picker_key(u, KeyInput { code: KeyCode::Esc, shift: false }).components == s0.components,
        picker_key(u, KeyInput { code: KeyCode::Esc, shift: false }).input_mode == InputMode::Preview,
{
    crate::theme::lemma_component_index(s0.selected_type());
    let r = picker_key(u, KeyInput { code: KeyCode::Esc, shift: false });
    assert(r.components =~= s0.components);
}

/// Only the colour picker, paste and undo change colours: in every other
/// mode, and for every other key, a key press leaves all fourteen
/// components as they were.
pub proof fn lemma_colours_change_only_in_picker(s: AppView, key: KeyInput)
    requires
        s.input_mode != InputMode::ColorPicker,
        s.input_mode == InputMode::Preview ==> key.code != KeyCode::Char('p') && key.code != KeyCode::Char('u'),
    ensures
        spec_process_key(s, key).0.components == s.components,
{
}

/// Pasting a copied colour and then undoing puts every component back as
/// it was.
pub proof fn lemma_paste_then_undo(s: AppView)
    requires
        app_wf(s),
        s.yanked is Some,
    ensures
        s.paste().undo_change().components == s.components,
{
    crate::theme::lemma_component_index(s.selected_type());
    assert(s.paste().undo_change().components =~= s.components);
}

/// Keeping the picker's edits and then undoing puts back every component as
/// it was when the picker was opened.
pub proof fn lemma_keep_then_undo(s0: AppView, u: AppView)
    requires
        app_wf(s0),
        in_picker_session(s0, u),
    ensures
        u.close_color_picker(true).undo_change().components == s0.components,
{
    crate::theme::lemma_component_index(s0.selected_type());
    assert(u.close_color_picker(true).undo_change().components =~= s0.components);
}

/// The state after the picker handles `keys` one after another.
pub open spec fn picker_keys(u: AppView, keys: Seq<KeyInput>) -> AppView
    decreases keys.len(),
{
    if keys.len() == 0 {
        u
    } else {
        picker_keys(picker_key(u, keys[0]), keys.drop_first())
    }
}

/// The picker stays open through all of `keys`.
pub open spec fn stays_in_picker(u: AppView, keys: Seq<KeyInput>) -> bool
    decreases keys.len(),
{
    keys.len() == 0 || (picker_key(u, keys[0]).input_mode == InputMode::ColorPicker && stays_in_picker(
        picker_key(u, keys[0]),
        keys.drop_first(),
    ))
}

/// Any sequence of keys that keeps the picker open keeps the session.
pub proof fn lemma_session_over_keys(s0: AppView, u: AppView, keys: Seq<KeyInput>)
    requires
        app_wf(s0),
        in_picker_session(s0, u),
        stays_in_picker(u, keys),
    ensures
        in_picker_session(s0, picker_keys(u, keys)),
    decreases keys.len(),
{
    if keys.len() > 0 {
        lemma_picker_key_keeps_session(s0, u, keys[0]);
        lemma_session_over_keys(s0, picker_key(u, keys[0]), keys.drop_first());
    }
}

/// Opening the picker, pressing any keys that keep it open, and cancelling
/// (Esc with no hex text pending) leaves every component as it was.
pub proof fn lemma_cancel_after_keys(s0: AppView, keys: Seq<KeyInput>)
    requires
        app_wf(s0),
        stays_in_picker(s0.open_color_picker(), keys),
        picker_keys(s0.open_color_picker(), keys).editor.hex_input is None,
    ensures
        picker_key(picker_keys(s0.open_color_picker(), keys), KeyInput { code: KeyCode::Esc, shift: false }).components
            == s0.components,
        picker_key(picker_keys(s0.open_color_picker(), keys), KeyInput { code: KeyCode::Esc, shift: false }).input_mode
            == InputMode::Preview,
{
    lemma_open_picker_starts_session(s0);
    lemma_session_over_keys(s0, s0.open_color_picker(), keys);
    lemma_cancel_restores_theme(s0, picker_keys(s0.open_color_picker(), keys));
}


/// A key that only moves around the preview: the arrows, `j`, `k` and Tab.
pub open spec fn is_nav_key(k: KeyInput) -> bool {
    k.code == KeyCode::Up || k.code == KeyCode::Down || k.code == KeyCode::Left || k.code == KeyCode::Right
        || k.code == KeyCode::Char('j') || k.code == KeyCode::Char('k') || k.code == KeyCode::Tab
}

pub open spec fn nav_keys_only(keys: Seq<KeyInput>) -> bool {
    forall|i: int| 0 <= i < keys.len() ==> is_nav_key(#[trigger] keys[i])
}

/// The state after `keys` are handled one after another.
pub open spec fn run_keys(s: AppView, keys: Seq<KeyInput>) -> AppView
    decreases keys.len(),
{
    if keys.len() == 0 {
        s
    } else {
        run_keys(spec_process_key(s, keys[0]).0, keys.drop_first())
    }
}

pub open spec fn press(c: char) -> KeyInput {
    KeyInput { code: KeyCode::Char(c), shift: false }
}

/// Moving around the preview changes no colour, keeps what was copied and
/// what undo would restore, and stays in the preview.
pub proof fn lemma_nav_keeps_colours(s: AppView, keys: Seq<KeyInput>)
    requires
        s.input_mode == InputMode::Preview,
        nav_keys_only(keys),
    ensures
        run_keys(s, keys).components == s.components,
        run_keys(s, keys).yanked == s.yanked,
        run_keys(s, keys).undo == s.undo,
        run_keys(s, keys).input_mode == InputMode::Preview,
    decreases keys.len(),
{
    if keys.len() > 0 {
        assert(is_nav_key(keys[0]));
        let s1 = spec_process_key(s, keys[0]).0;
        assert(nav_keys_only(keys.drop_first())) by {
            assert forall|i: int| 0 <= i < keys.drop_first().len() implies is_nav_key(#[trigger] keys.drop_first()[i]) by {
                assert(keys.drop_first()[i] == keys[i + 1]);
            }
        }
        lemma_nav_keeps_colours(s1, keys.drop_first());
    }
}

/// Copying a colour with `y`, moving around, and pasting with `p` gives
/// the selected attribute of the element now selected the copied colour,
/// marks the theme changed, and leaves every other component as it was.
pub proof fn lemma_yank_nav_paste(s: AppView, keys: Seq<KeyInput>)
    requires
        app_wf(s),
        s.input_mode == InputMode::Preview,
        nav_keys_only(keys),
    ensures
        ({
            let s2 = run_keys(spec_process_key(s, press('y')).0, keys);
            let s3 = spec_process_key(s2, press('p')).0;
            &&& s3.color_of(s3.selected_attribute) == s.color_of(s.selected_attribute)
            &&& s3.dirty
            &&& s3.components.len() == s.components.len()
            &&& forall|i: int|
                0 <= i < s.components.len() && i != s2.selected_type().index() ==> s3.components[i]
                    == #[trigger] s.components[i]
        }),
{
    let s1 = spec_process_key(s, press('y')).0;
    lemma_nav_keeps_colours(s1, keys);
    let s2 = run_keys(s1, keys);
    crate::theme::lemma_component_index(s2.selected_type());
}

/// Pasting a copied colour, moving around, and undoing with `u` puts every
/// component back as it was before the paste.
pub proof fn lemma_paste_nav_undo(s: AppView, keys: Seq<KeyInput>)
    requires
        app_wf(s),
        s.input_mode == InputMode::Preview,
        s.yanked is Some,
        nav_keys_only(keys),
    ensures
        spec_process_key(run_keys(spec_process_key(s, press('p')).0, keys), press('u')).0.components
            == s.components,
{
    let s1 = spec_process_key(s, press('p')).0;
    crate::theme::lemma_component_index(s.selected_type());
    lemma_nav_keeps_colours(s1, keys);
    let s2 = run_keys(s1, keys);
    assert(spec_process_key(s2, press('u')).0.components =~= s.components);
}

/// Keeping the picker's edits with Enter, moving around, and undoing with
/// `u` puts every component back as it was when the picker was opened.
pub proof fn lemma_keep_nav_undo(s0: AppView, u: AppView, keys: Seq<KeyInput>)
    requires
        app_wf(s0),
        in_picker_session(s0, u),
        u.editor.hex_input is None,
        nav_keys_only(keys),
    ensures
        spec_process_key(
            run_keys(picker_key(u, KeyInput { code: KeyCode::Enter, shift: false }), keys),
            press('u'),
        ).0.components == s0.components,
{
    let s1 = picker_key(u, KeyInput { code: KeyCode::Enter, shift: false });
    crate::theme::lemma_component_index(s0.selected_type());
    lemma_nav_keeps_colours(s1, keys);
    let s2 = run_keys(s1, keys);
    assert(spec_process_key(s2, press('u')).0.components =~= s0.components);
}

/// A call the program may make while the picker is open: an edit of the
/// picker's own colour, showing that colour in the theme, setting a colour
/// of the selected element, or switching which of its colours is edited.
pub enum PickerCall {
    Edit(EditorView),
    ApplyCurrent,
    SetColor(PreviewAttribute, RgbColor),
    SwitchAttribute,
}

pub open spec fn apply_call(u: AppView, c: PickerCall) -> AppView {
    match c {
        PickerCall::Edit(e) => with_editor(u, e),
        PickerCall::ApplyCurrent => u.apply_current_color(),
        PickerCall::SetColor(a, col) => u.with_color(a, col),
        PickerCall::SwitchAttribute => u.switch_editing_attribute(),
    }
}

pub open spec fn apply_calls(u: AppView, calls: Seq<PickerCall>) -> AppView
    decreases calls.len(),
{
    if calls.len() == 0 {
        u
    } else {
        apply_calls(apply_call(u, calls[0]), calls.drop_first())
    }
}

proof fn lemma_calls_keep_session(s0: AppView, u: AppView, calls: Seq<PickerCall>)
    requires
        app_wf(s0),
        in_picker_session(s0, u),
    ensures
        in_picker_session(s0, apply_calls(u, calls)),
    decreases calls.len(),
{
    if calls.len() > 0 {
        crate::theme::lemma_component_index(s0.selected_type());
        let u1 = apply_call(u, calls[0]);
        assert(in_picker_session(s0, u1));
        lemma_calls_keep_session(s0, u1, calls.drop_first());
    }
}

/// Opening the picker, making any of the picker's calls, and closing it
/// without keeping (cancel) leaves the theme as it was, forgets the
/// remembered component and returns to the preview.
pub proof fn lemma_cancel_after_calls(s0: AppView, calls: Seq<PickerCall>)
    requires
        app_wf(s0),
    ensures
        apply_calls(s0.open_color_picker(), calls).close_color_picker(false).components == s0.components,
        apply_calls(s0.open_color_picker(), calls).close_color_picker(false).theme_name == s0.theme_name,
        apply_calls(s0.open_color_picker(), calls).close_color_picker(false).original_component is None,
        apply_calls(s0.open_color_picker(), calls).close_color_picker(false).input_mode == InputMode::Preview,
{
    lemma_open_picker_starts_session(s0);
    lemma_calls_keep_session(s0, s0.open_color_picker(), calls);
    let u = apply_calls(s0.open_color_picker(), calls);
    crate::theme::lemma_component_index(s0.selected_type());
    assert(u.close_color_picker(false).components =~= s0.components);
}

} // verus!
