//! Key bindings of the editor in `ui::editor`: how a key press changes its
//! state, and which file operation, if any, the caller carries out next.

use vstd::prelude::*;
use vstd::string::StringExecFns;
use crate::text::{utf8_len, utf8_len_capped, str_eq, chars_of, char_is_hex_digit, to_lower};
use crate::ui::loader::{ThemeFilter, lemma_visible_len};
use crate::ui::state::PreviewElement;
use vstd::string::StrSliceExecFns;
use crate::ui::state::{EditorView, all_hex, lemma_all_hex_sliceable};
use crate::ui::events::{
    KeyCode, KeyInput, IoRequest, KeyOutcome, OutcomeView, outcome_view, lemma_start_hex_wf, group_start,
    group_start_exec,
    lemma_push_hex_wf, lemma_pop_hex_wf, is_nav_key, nav_keys_only, press,
};
use crate::theme::RgbColor;
use crate::ui::search::{first_match, find_element};
use crate::text::{push_char, pop_char};
use crate::ui::editor::{App, AppView, InputMode, PreviewAttribute};

verus! {

/// A frame has no background, so selecting one selects its foreground.
pub open spec fn select_element(s: AppView, e: PreviewElement) -> AppView {
    AppView {
        selected_element: e,
        selected_attribute: if e.spec_is_frame() {
            PreviewAttribute::Foreground
        } else {
            s.selected_attribute
        },
        message: None,
        ..s
    }
}

pub open spec fn preview_key(s: AppView, key: KeyInput) -> (AppView, OutcomeView) {
    let cleared = AppView { message: None, ..s };
    let e = s.selected_element;
    match key.code {
        KeyCode::Char('q') | KeyCode::Esc => (s, OutcomeView::Quit),
        KeyCode::Up | KeyCode::Char('k') => (select_element(s, e.above()), OutcomeView::Continue),
        KeyCode::Down | KeyCode::Char('j') => (select_element(s, e.below()), OutcomeView::Continue),
        KeyCode::Left => (select_element(s, e.spec_left()), OutcomeView::Continue),
        KeyCode::Right => (select_element(s, e.spec_right()), OutcomeView::Continue),
        KeyCode::Tab => (
            if !e.spec_is_frame() {
                AppView { selected_attribute: s.selected_attribute.other(), ..cleared }
            } else {
                cleared
            },
            OutcomeView::Continue,
        ),
        KeyCode::Char('c') | KeyCode::Enter => (cleared.open_color_picker(), OutcomeView::Continue),
        KeyCode::Char('s') => (cleared.open_theme_name_input(), OutcomeView::Continue),
        KeyCode::Char('l') => (cleared, OutcomeView::OpenLoadDialog),
        KeyCode::Char('a') => if s.theme_name == "default"@ {
            (
                AppView {
                    message: Some("Name this theme before applying"@),
                    ..AppView { pending_apply: true, ..cleared }.open_theme_name_input()
                },
                OutcomeView::Continue,
            )
        } else {
            (cleared, OutcomeView::Apply)
        },
        KeyCode::Char('?') => (AppView { input_mode: InputMode::Help, ..cleared }, OutcomeView::Continue),
        KeyCode::Char('y') => (cleared.yank(), OutcomeView::Continue),
        KeyCode::Char('p') => (cleared.paste(), OutcomeView::Continue),
        KeyCode::Char('u') => (cleared.undo_change(), OutcomeView::Continue),
        KeyCode::Char('U') => (cleared, OutcomeView::SelfUpdate),
        KeyCode::Char('/') => (
            AppView { input_mode: InputMode::ElementSearch, element_query: Seq::empty(), ..cleared },
            OutcomeView::Continue,
        ),
        KeyCode::Char(c) => match group_start(c) {
            Some(g) => (select_element(s, g), OutcomeView::Continue),
            None => (s, OutcomeView::Continue),
        },
        _ => (s, OutcomeView::Continue),
    }
}

pub open spec fn with_editor(s: AppView, e: EditorView) -> AppView {
    AppView { editor: e, ..s }
}

/// Adjusts the edited channel and shows the result in the theme.
pub open spec fn nudge(s: AppView, delta: i32) -> AppView {
    with_editor(s, s.editor.adjust(delta)).apply_current_color()
}

pub open spec fn picker_key(s: AppView, key: KeyInput) -> AppView {
    let hex_active = s.editor.hex_input is Some;
    match key.code {
        KeyCode::Esc => if hex_active {
            with_editor(s, EditorView { hex_input: None, ..s.editor })
        } else {
            s.close_color_picker(false)
        },
        KeyCode::Enter => if hex_active {
            with_editor(s, s.editor.commit_hex().0).apply_current_color()
        } else {
            s.close_color_picker(true)
        },
        KeyCode::Tab => if !s.selected_element.spec_is_frame() {
            s.switch_editing_attribute()
        } else {
            s
        },
        KeyCode::Char('#') => with_editor(s, s.editor.start_hex()),
        KeyCode::Char(c) => if hex_active {
            let e1 = s.editor.push_hex(c);
            if utf8_len(e1.hex_input->0) == 6 {
                with_editor(s, e1.commit_hex().0).apply_current_color()
            } else {
                with_editor(s, e1)
            }
        } else if c == 'f' && !s.selected_element.spec_is_frame() {
            s.switch_editing_attribute()
        } else if c == 'y' {
            AppView { yanked: Some(s.editor.rgb()), ..s }
        } else {
            s
        },
        KeyCode::Backspace => if hex_active {
            with_editor(s, s.editor.pop_hex())
        } else {
            s
        },
        KeyCode::Up => with_editor(s, s.editor.prev_channel()),
        KeyCode::Down => with_editor(s, s.editor.next_channel()),
        KeyCode::Left => nudge(s, if key.shift { -1i32 } else { -5i32 }),
        KeyCode::Right => nudge(s, if key.shift { 1i32 } else { 5i32 }),
        KeyCode::PageUp => nudge(s, 25i32),
        KeyCode::PageDown => nudge(s, -25i32),
        _ => s,
    }
}

pub open spec fn name_key(s: AppView, key: KeyInput) -> (AppView, OutcomeView) {
    match key.code {
        KeyCode::Esc => (
            AppView {
                pending_apply: false,
                input_mode: InputMode::Preview,
                message: Some("Save cancelled"@),
                ..s
            },
            OutcomeView::Continue,
        ),
        KeyCode::Enter => {
            let (t, ok) = s.accept_name();
            if !ok {
                (t, OutcomeView::Continue)
            } else if s.pending_apply {
                (AppView { pending_apply: false, ..t }, OutcomeView::ApplyAs)
            } else {
                (t, OutcomeView::SaveAs)
            }
        },
        KeyCode::Backspace => (s.pop_name_char(), OutcomeView::Continue),
        KeyCode::Char(c) => (s.push_name_char(c), OutcomeView::Continue),
        _ => (s, OutcomeView::Continue),
    }
}

pub open spec fn load_key(s: AppView, key: KeyInput) -> (AppView, OutcomeView) {
    match key.code {
        KeyCode::Esc => if s.query.len() > 0 {
            (AppView { query: Seq::empty(), ..s }.relist(), OutcomeView::Continue)
        } else {
            (AppView { input_mode: InputMode::Preview, message: Some("Load cancelled"@), ..s }, OutcomeView::Continue)
        },
        KeyCode::Enter => {
            let (t, n) = s.begin_load();
            match n {
                Some(name) => (t, OutcomeView::Load(name)),
                None => (t, OutcomeView::Continue),
            }
        },
        KeyCode::Up => (s.selection_up(), OutcomeView::Continue),
        KeyCode::Down => (s.selection_down(), OutcomeView::Continue),
        KeyCode::Backspace => (
            AppView { query: if s.query.len() > 0 { s.query.drop_last() } else { s.query }, ..s }.relist(),
            OutcomeView::Continue,
        ),
        KeyCode::Char('b') => (AppView { filter: ThemeFilter::Builtin, ..s }.relist(), OutcomeView::Continue),
        KeyCode::Char('s') => (AppView { filter: ThemeFilter::Saved, ..s }.relist(), OutcomeView::Continue),
        KeyCode::Char('a') => match s.selected_theme() {
            Some(n) => (s, OutcomeView::ApplySaved(n)),
            None => (s.no_selection(), OutcomeView::Continue),
        },
        KeyCode::Char('r') => (s.start_rename(), OutcomeView::Continue),
        KeyCode::Char('d') => (s.start_delete(), OutcomeView::Continue),
        KeyCode::Char(c) => (AppView { query: s.query.push(to_lower(c)), ..s }.relist(), OutcomeView::Continue),
        _ => (s, OutcomeView::Continue),
    }
}

pub open spec fn rename_key(s: AppView, key: KeyInput) -> (AppView, OutcomeView) {
    match key.code {
        KeyCode::Esc => (AppView { input_mode: InputMode::ThemeLoad, message: None, ..s }, OutcomeView::Continue),
        KeyCode::Enter => {
            let (t, r) = s.accept_rename();
            match r {
                Some((a, b)) => (t, OutcomeView::Rename(a, b)),
                None => (t, OutcomeView::Continue),
            }
        },
        KeyCode::Backspace => (s.pop_name_char(), OutcomeView::Continue),
        KeyCode::Char(c) => (s.push_name_char(c), OutcomeView::Continue),
        _ => (s, OutcomeView::Continue),
    }
}

pub open spec fn delete_key(s: AppView, key: KeyInput) -> (AppView, OutcomeView) {
    match key.code {
        KeyCode::Char('y') => match s.selected_theme() {
            Some(n) => (s, OutcomeView::Delete(n)),
            None => (AppView { input_mode: InputMode::ThemeLoad, ..s.no_selection() }, OutcomeView::Continue),
        },
        KeyCode::Char('n') | KeyCode::Esc => (
            AppView { input_mode: InputMode::ThemeLoad, message: None, ..s },
            OutcomeView::Continue,
        ),
        _ => (s, OutcomeView::Continue),
    }
}

pub open spec fn help_key(s: AppView, key: KeyInput) -> AppView {
    match key.code {
        KeyCode::Esc | KeyCode::Char('q') | KeyCode::Char('?') => AppView {
            input_mode: InputMode::Preview,
            ..s
        },
        _ => s,
    }
}

/// The editor state after a key press and what the caller does next,
/// according to the current input mode.
/// Typing a search for a preview element: Enter jumps to the first element
/// whose label matches (see `first_match`), or says that none does; Esc
/// gives up; either way back to the preview.
pub open spec fn search_key(s: AppView, key: KeyInput) -> AppView {
    let done = AppView { input_mode: InputMode::Preview, element_query: Seq::empty(), ..s };
    match key.code {
        KeyCode::Esc => done,
        KeyCode::Enter => match first_match(s.element_query) {
            Some(e) => select_element(done, e),
            None => AppView { message: Some("✗ No element matches"@), ..done },
        },
        KeyCode::Backspace => AppView {
            element_query: if s.element_query.len() > 0 { s.element_query.drop_last() } else { s.element_query },
            ..s
        },
        KeyCode::Char(c) => AppView { element_query: s.element_query.push(c), ..s },
        _ => s,
    }
}

pub open spec fn spec_handle_key(s: AppView, key: KeyInput) -> (AppView, OutcomeView) {
    match s.input_mode {
        InputMode::Preview => preview_key(s, key),
        InputMode::ColorPicker => (picker_key(s, key), OutcomeView::Continue),
        InputMode::ThemeNameInput => name_key(s, key),
        InputMode::ThemeLoad => load_key(s, key),
        InputMode::Help => (help_key(s, key), OutcomeView::Continue),
        InputMode::ThemeLoadRename => rename_key(s, key),
        InputMode::ThemeLoadDeleteConfirm => delete_key(s, key),
        InputMode::ElementSearch => (search_key(s, key), OutcomeView::Continue),
    }
}

/// The invariant that key handling keeps.
pub open spec fn app_wf(s: AppView) -> bool {
    &&& s.components.len() == 14
    &&& s.editor.wf()
    &&& s.selected_theme_index < usize::MAX
    &&& s.loadable_themes.len() <= usize::MAX
    &&& s.all_themes.len() <= usize::MAX
}

proof fn lemma_picker_wf(s: AppView, key: KeyInput)
    requires
        app_wf(s),
    ensures
        app_wf(picker_key(s, key)),
{
    match key.code {
        KeyCode::Char(c) => {
            if c == '#' {
                lemma_start_hex_wf(s.editor);
            } else {
                lemma_push_hex_wf(s.editor, c);
            }
        },
        KeyCode::Backspace => {
            lemma_pop_hex_wf(s.editor);
        },
        _ => {},
    }
}

proof fn lemma_handle_key_wf(s: AppView, key: KeyInput)
    requires
        app_wf(s),
    ensures
        app_wf(spec_handle_key(s, key).0),
{
    if s.input_mode == InputMode::ColorPicker {
        lemma_picker_wf(s, key);
    }
    if s.input_mode == InputMode::ThemeLoad {
        lemma_visible_len(s.all_themes, s.filter, s.query);
        lemma_visible_len(s.all_themes, ThemeFilter::Builtin, s.query);
        lemma_visible_len(s.all_themes, ThemeFilter::Saved, s.query);
        lemma_visible_len(s.all_themes, s.filter, Seq::empty());
        if s.query.len() > 0 {
            lemma_visible_len(s.all_themes, s.filter, s.query.drop_last());
        }
        if let KeyCode::Char(c) = key.code {
            lemma_visible_len(s.all_themes, s.filter, s.query.push(to_lower(c)));
        }
    }
}

fn all_hex_exec(s: &str) -> (res: bool)
    ensures
        res == all_hex(s@),
{
    let cs = chars_of(s);
    let mut i: usize = 0;
    while i < cs.len()
        invariant
            cs@ == s@,
            i <= cs@.len(),
            forall|j: int| 0 <= j < i ==> crate::text::is_hex_digit(#[trigger] cs@[j]),
        decreases cs@.len() - i,
    {
        if !char_is_hex_digit(cs[i]) {
            return false;
        }
        i = i + 1;
    }
    true
}

/// Whether `app` is in a state `handle_key` accepts: a channel index in
/// `0..3`, hex text of hex digits only, and room to move the theme
/// selection down.
pub fn ready_for_keys(app: &App) -> (res: bool)
    ensures
        res == app_wf(app.view()),
{
    proof {
        crate::theme::lemma_components_index(app.theme, crate::theme::ThemeComponentType::TextUnselected);
        assert(app.view().loadable_themes.len() == app.loadable_themes@.len());
        assert(app.view().all_themes.len() == app.all_themes@.len());
    }
    let hex_ok = match &app.color_editor.hex_input {
        Some(h) => all_hex_exec(h.as_str()),
        None => true,
    };
    let listed = app.loadable_themes.len();
    assert(listed == app.view().loadable_themes.len());
    let all = app.all_themes.len();
    assert(all == app.view().all_themes.len());
    app.color_editor.editing_channel < 3 && hex_ok && app.selected_theme_index < usize::MAX
}

impl App {
    fn select_element(&mut self, e: PreviewElement)
        ensures
            final(self).view() == select_element(old(self).view(), e),
    {
        self.selected_element = e;
        if e.is_frame() {
            self.selected_attribute = PreviewAttribute::Foreground;
        }
        self.message = None;
    }

    #[verifier::rlimit(40)]
    fn picker_key(&mut self, key: KeyInput)
        requires
            app_wf(old(self).view()),
        ensures
            final(self).view() == picker_key(old(self).view(), key),
            app_wf(final(self).view()),
    {
        let hex_active = self.color_editor.hex_input.is_some();
        proof {
            lemma_picker_wf(self.view(), key);
            if hex_active {
                lemma_all_hex_sliceable(self.color_editor.view().hex_input->0);
            }
        }
        match key.code {
            KeyCode::Esc => {
                if hex_active {
                    self.color_editor.cancel_hex();
                } else {
                    self.close_color_picker(false);
                }
            },
            KeyCode::Enter => {
                if hex_active {
                    self.color_editor.commit_hex();
                    self.apply_current_color();
                } else {
                    self.close_color_picker(true);
                }
            },
            KeyCode::Tab => {
                if !self.selected_element.is_frame() {
                    self.switch_editing_attribute();
                }
            },
            KeyCode::Char('#') => {
                self.color_editor.start_hex_input();
            },
            KeyCode::Char(c) => {
                if hex_active {
                    proof {
                        lemma_push_hex_wf(self.color_editor.view(), c);
                    }
                    self.color_editor.push_hex_char(c);
                    let full = match &self.color_editor.hex_input {
                        Some(h) => utf8_len_capped(h.as_str(), 7) == 6,
                        None => false,
                    };
                    if full {
                        proof {
                            lemma_all_hex_sliceable(self.color_editor.view().hex_input->0);
                        }
                        self.color_editor.commit_hex();
                        self.apply_current_color();
                    }
                } else if c == 'f' && !self.selected_element.is_frame() {
                    self.switch_editing_attribute();
                } else if c == 'y' {
                    self.yanked_color = Some(self.color_editor.to_rgb());
                }
            },
            KeyCode::Backspace => {
                if hex_active {
                    self.color_editor.pop_hex_char();
                }
            },
            KeyCode::Up => {
                self.color_editor.select_prev_channel();
            },
            KeyCode::Down => {
                self.color_editor.select_next_channel();
            },
            KeyCode::Left => {
                let delta: i32 = if key.shift {
                    -1
                } else {
                    -5
                };
                self.color_editor.adjust(delta);
                self.apply_current_color();
            },
            KeyCode::Right => {
                let delta: i32 = if key.shift {
                    1
                } else {
                    5
                };
                self.color_editor.adjust(delta);
                self.apply_current_color();
            },
            KeyCode::PageUp => {
                self.color_editor.adjust(25);
                self.apply_current_color();
            },
            KeyCode::PageDown => {
                self.color_editor.adjust(-25);
                self.apply_current_color();
            },
            _ => {},
        }
    }
}

impl App {
    fn loader_key(&mut self, key: KeyInput) -> (res: KeyOutcome)
        requires
            old(self).input_mode == InputMode::ThemeLoad,
            app_wf(old(self).view()),
        ensures
            (final(self).view(), outcome_view(res)) == load_key(old(self).view(), key),
    {
        match key.code {
            KeyCode::Esc => {
                if self.theme_search_query.as_str().unicode_len() > 0 {
                    self.clear_search();
                } else {
                    self.input_mode = InputMode::Preview;
                    self.message = Some(String::from_str("Load cancelled"));
                }
                KeyOutcome::Continue
            },
            KeyCode::Enter => {
                match self.begin_load() {
                    Some(name) => KeyOutcome::Io(IoRequest::Load(name)),
                    None => KeyOutcome::Continue,
                }
            },
            KeyCode::Up => {
                self.move_theme_selection_up();
                KeyOutcome::Continue
            },
            KeyCode::Down => {
                self.move_theme_selection_down();
                KeyOutcome::Continue
            },
            KeyCode::Backspace => {
                self.pop_search_char();
                KeyOutcome::Continue
            },
            KeyCode::Char('b') => {
                self.set_theme_filter(ThemeFilter::Builtin);
                KeyOutcome::Continue
            },
            KeyCode::Char('s') => {
                self.set_theme_filter(ThemeFilter::Saved);
                KeyOutcome::Continue
            },
            KeyCode::Char('a') => {
                match self.selected_theme_name() {
                    Some(n) => KeyOutcome::Io(IoRequest::ApplySaved(n)),
                    None => {
                        self.report_no_selection();
                        KeyOutcome::Continue
                    },
                }
            },
            KeyCode::Char('r') => {
                self.begin_rename_selected_theme();
                KeyOutcome::Continue
            },
            KeyCode::Char('d') => {
                self.begin_delete_selected_theme();
                KeyOutcome::Continue
            },
            KeyCode::Char(c) => {
                self.push_search_char(c);
                KeyOutcome::Continue
            },
            _ => KeyOutcome::Continue,
        }
    }

    fn rename_key(&mut self, key: KeyInput) -> (res: KeyOutcome)
        ensures
            (final(self).view(), outcome_view(res)) == rename_key(old(self).view(), key),
    {
        match key.code {
            KeyCode::Esc => {
                self.input_mode = InputMode::ThemeLoad;
                self.message = None;
                KeyOutcome::Continue
            },
            KeyCode::Enter => {
                match self.accept_rename() {
                    Some((a, b)) => KeyOutcome::Io(IoRequest::Rename(a, b)),
                    None => KeyOutcome::Continue,
                }
            },
            KeyCode::Backspace => {
                self.pop_theme_name_char();
                KeyOutcome::Continue
            },
            KeyCode::Char(c) => {
                self.push_theme_name_char(c);
                KeyOutcome::Continue
            },
            _ => KeyOutcome::Continue,
        }
    }

    fn delete_key(&mut self, key: KeyInput) -> (res: KeyOutcome)
        ensures
            (final(self).view(), outcome_view(res)) == delete_key(old(self).view(), key),
    {
        match key.code {
            KeyCode::Char('y') => {
                match self.selected_theme_name() {
                    Some(n) => KeyOutcome::Io(IoRequest::Delete(n)),
                    None => {
                        self.report_no_selection();
                        self.input_mode = InputMode::ThemeLoad;
                        KeyOutcome::Continue
                    },
                }
            },
            KeyCode::Char('n') | KeyCode::Esc => {
                self.input_mode = InputMode::ThemeLoad;
                self.message = None;
                KeyOutcome::Continue
            },
            _ => KeyOutcome::Continue,
        }
    }
}

impl App {
    fn search_key(&mut self, key: KeyInput)
        ensures
            final(self).view() == search_key(old(self).view(), key),
    {
        match key.code {
            KeyCode::Esc => {
                self.input_mode = InputMode::Preview;
                self.element_query = String::new();
            },
            KeyCode::Enter => {
                let found = find_element(self.element_query.as_str());
                self.input_mode = InputMode::Preview;
                self.element_query = String::new();
                match found {
                    Some(e) => self.select_element(e),
                    None => {
                        self.message = Some(String::from_str("✗ No element matches"));
                    },
                }
            },
            KeyCode::Backspace => {
                pop_char(&mut self.element_query);
            },
            KeyCode::Char(c) => {
                push_char(&mut self.element_query, c);
            },
            _ => {},
        }
    }

    fn start_element_search(&mut self)
        ensures
            final(self).view() == (AppView {
                input_mode: InputMode::ElementSearch,
                element_query: Seq::empty(),
                message: None,
                ..old(self).view()
            }),
    {
        self.message = None;
        self.input_mode = InputMode::ElementSearch;
        self.element_query = String::new();
    }

    #[verifier::rlimit(60)]
    fn preview_key(&mut self, key: KeyInput) -> (res: KeyOutcome)
        ensures
            (final(self).view(), outcome_view(res)) == preview_key(old(self).view(), key),
    {
            match key.code {
                KeyCode::Char('q') | KeyCode::Esc => {
                    return KeyOutcome::Quit;
                },
                KeyCode::Up | KeyCode::Char('k') => {
                    let mut e = self.selected_element;
                    e.move_up();
                    self.select_element(e);
                },
                KeyCode::Down | KeyCode::Char('j') => {
                    let mut e = self.selected_element;
                    e.move_down();
                    self.select_element(e);
                },
                KeyCode::Left => {
                    let mut e = self.selected_element;
                    e.move_left();
                    self.select_element(e);
                },
                KeyCode::Right => {
                    let mut e = self.selected_element;
                    e.move_right();
                    self.select_element(e);
                },
                KeyCode::Tab => {
                    self.message = None;
                    if !self.selected_element.is_frame() {
                        self.selected_attribute.toggle();
                    }
                },
                KeyCode::Char('c') | KeyCode::Enter => {
                    self.message = None;
                    self.open_color_picker();
                },
                KeyCode::Char('s') => {
                    self.message = None;
                    self.open_theme_name_input();
                },
                KeyCode::Char('l') => {
                    self.message = None;
                    return KeyOutcome::Io(IoRequest::OpenLoadDialog);
                },
                KeyCode::Char('a') => {
                    self.message = None;
                    if str_eq(self.theme.name.as_str(), "default") {
                        self.pending_apply = true;
                        self.open_theme_name_input();
                        self.message = Some(String::from_str("Name this theme before applying"));
                    } else {
                        return KeyOutcome::Io(IoRequest::Apply);
                    }
                },
                KeyCode::Char('?') => {
                    self.message = None;
                    self.input_mode = InputMode::Help;
                },
                KeyCode::Char('y') => {
                    self.message = None;
                    self.yank_color();
                },
                KeyCode::Char('p') => {
                    self.message = None;
                    self.paste_color();
                },
                KeyCode::Char('u') => {
                    self.message = None;
                    self.undo_color();
                },
                KeyCode::Char('U') => {
                    self.message = None;
                    return KeyOutcome::Io(IoRequest::SelfUpdate);
                },
                KeyCode::Char('/') => {
                    self.start_element_search();
                },
                KeyCode::Char(c) => {
                    match group_start_exec(c) {
                        Some(g) => self.select_element(g),
                        None => {},
                    }
                },
                _ => {},
            }
            KeyOutcome::Continue
        
    }
}

/// Handles one key press: updates the editor state and says whether to go
/// on, quit, or carry out a file operation first.
pub fn handle_key(app: &mut App, key: KeyInput) -> (res: KeyOutcome)
    requires
        app_wf(old(app).view()),
    ensures
        (final(app).view(), outcome_view(res)) == spec_handle_key(old(app).view(), key),
        app_wf(final(app).view()),
{
    proof {
        lemma_handle_key_wf(app.view(), key);
    }
    match app.input_mode {
        InputMode::Preview => app.preview_key(key),
        InputMode::ColorPicker => {
            app.picker_key(key);
            KeyOutcome::Continue
        },
        InputMode::ThemeNameInput => {
            match key.code {
                KeyCode::Esc => {
                    app.pending_apply = false;
                    app.input_mode = InputMode::Preview;
                    app.message = Some(String::from_str("Save cancelled"));
                    KeyOutcome::Continue
                },
                KeyCode::Enter => {
                    let pending = app.pending_apply;
                    if !app.accept_theme_name_input() {
                        KeyOutcome::Continue
                    } else if pending {
                        app.pending_apply = false;
                        KeyOutcome::Io(IoRequest::ApplyAs)
                    } else {
                        KeyOutcome::Io(IoRequest::SaveAs)
                    }
                },
                KeyCode::Backspace => {
                    app.pop_theme_name_char();
                    KeyOutcome::Continue
                },
                KeyCode::Char(c) => {
                    app.push_theme_name_char(c);
                    KeyOutcome::Continue
                },
                _ => KeyOutcome::Continue,
            }
        },
        InputMode::ThemeLoad => app.loader_key(key),
        InputMode::ThemeLoadRename => app.rename_key(key),
        InputMode::ThemeLoadDeleteConfirm => app.delete_key(key),
        InputMode::ElementSearch => {
            app.search_key(key);
            KeyOutcome::Continue
        },
        InputMode::Help => {
            match key.code {
                KeyCode::Esc | KeyCode::Char('q') | KeyCode::Char('?') => {
                    app.input_mode = InputMode::Preview;
                },
                _ => {},
            }
            KeyOutcome::Continue
        },
    }
}

/// `u` is the state of a colour-picker session opened on `s0`: still in the
/// picker, the same element selected, its component remembered as it was
/// in `s0`, and every other component as in `s0`.
pub open spec fn in_picker_session(s0: AppView, u: AppView) -> bool {
    let k = s0.selected_type().index();
    &&& u.input_mode == InputMode::ColorPicker
    &&& u.selected_element == s0.selected_element
    &&& u.original_component == Some(s0.selected_component())
    &&& u.theme_name == s0.theme_name
    &&& u.components.len() == s0.components.len()
    &&& forall|i: int| 0 <= i < u.components.len() && i != k ==> u.components[i] == s0.components[i]
}

/// Opening the picker starts a session.
pub proof fn lemma_open_picker_starts_session(s0: AppView)
    requires
        app_wf(s0),
    ensures
        in_picker_session(s0, s0.open_color_picker()),
{
}

/// Any key that leaves the picker open keeps the session: it only ever
/// changes the component being edited.
pub proof fn lemma_picker_key_keeps_session(s0: AppView, u: AppView, key: KeyInput)
    requires
        app_wf(s0),
        in_picker_session(s0, u),
        picker_key(u, key).input_mode == InputMode::ColorPicker,
    ensures
        in_picker_session(s0, picker_key(u, key)),
{
    crate::theme::lemma_component_index(s0.selected_type());
}

/// Cancelling the picker (Esc with no hex text pending) puts back every
/// component as it was when the picker was opened, whatever was edited.
pub proof fn lemma_cancel_restores_theme(s0: AppView, u: AppView)
    requires
        app_wf(s0),
        in_picker_session(s0, u),
        u.editor.hex_input is None,
    ensures
        picker_key(u, KeyInput { code: KeyCode::Esc, shift: false }).components == s0.components,
        picker_key(u, KeyInput { code: KeyCode::Esc, shift: false }).input_mode == InputMode::Preview,
{
    crate::theme::lemma_component_index(s0.selected_type());
    let r = picker_key(u, KeyInput { code: KeyCode::Esc, shift: false });
    assert(r.components =~= s0.components);
}

/// An apply that waits for a name is carried out once, by the next accepted
/// name, and dropped when naming is cancelled: after either key the apply
/// is no longer pending.
pub proof fn lemma_pending_apply_settles(s: AppView)
    requires
        s.input_mode == InputMode::ThemeNameInput,
        s.pending_apply,
    ensures
        !name_key(s, KeyInput { code: KeyCode::Esc, shift: false }).0.pending_apply,
        name_key(s, KeyInput { code: KeyCode::Enter, shift: false }).1 == OutcomeView::ApplyAs
            ==> !name_key(s, KeyInput { code: KeyCode::Enter, shift: false }).0.pending_apply,
        name_key(s, KeyInput { code: KeyCode::Enter, shift: false }).1 != OutcomeView::SaveAs,
{
}

/// Only the colour picker, paste and undo change colours: in every other
/// mode, and for every other key, a key press leaves all fourteen
/// components as they were.
pub proof fn lemma_colours_change_only_in_picker(s: AppView, key: KeyInput)
    requires
        s.input_mode != InputMode::ColorPicker,
        s.input_mode == InputMode::Preview ==> key.code != KeyCode::Char('p') && key.code != KeyCode::Char('u'),
    ensures
        spec_handle_key(s, key).0.components == s.components,
{
}

/// Pasting a copied colour and then undoing puts every component back as
/// it was.
pub proof fn lemma_paste_then_undo(s: AppView)
    requires
        app_wf(s),
        s.yanked is Some,
    ensures
        s.paste().undo_change().components == s.components,
{
    crate::theme::lemma_component_index(s.selected_type());
    assert(s.paste().undo_change().components =~= s.components);
}

/// Keeping the picker's edits and then undoing puts back every component as
/// it was when the picker was opened.
pub proof fn lemma_keep_then_undo(s0: AppView, u: AppView)
    requires
        app_wf(s0),
        in_picker_session(s0, u),
    ensures
        u.close_color_picker(true).undo_change().components == s0.components,
{
    crate::theme::lemma_component_index(s0.selected_type());
    assert(u.close_color_picker(true).undo_change().components =~= s0.components);
}

/// The state after the picker handles `keys` one after another.
pub open spec fn picker_keys(u: AppView, keys: Seq<KeyInput>) -> AppView
    decreases keys.len(),
{
    if keys.len() == 0 {
        u
    } else {
        picker_keys(picker_key(u, keys[0]), keys.drop_first())
    }
}

/// The picker stays open through all of `keys`.
pub open spec fn stays_in_picker(u: AppView, keys: Seq<KeyInput>) -> bool
    decreases keys.len(),
{
    keys.len() == 0 || (picker_key(u, keys[0]).input_mode == InputMode::ColorPicker && stays_in_picker(
        picker_key(u, keys[0]),
        keys.drop_first(),
    ))
}

/// Any sequence of keys that keeps the picker open keeps the session.
pub proof fn lemma_session_over_keys(s0: AppView, u: AppView, keys: Seq<KeyInput>)
    requires
        app_wf(s0),
        in_picker_session(s0, u),
        stays_in_picker(u, keys),
    ensures
        in_picker_session(s0, picker_keys(u, keys)),
    decreases keys.len(),
{
    if keys.len() > 0 {
        lemma_picker_key_keeps_session(s0, u, keys[0]);
        lemma_session_over_keys(s0, picker_key(u, keys[0]), keys.drop_first());
    }
}

/// Opening the picker, pressing any keys that keep it open, and cancelling
/// (Esc with no hex text pending) leaves every component as it was.
pub proof fn lemma_cancel_after_keys(s0: AppView, keys: Seq<KeyInput>)
    requires
        app_wf(s0),
        stays_in_picker(s0.open_color_picker(), keys),
        picker_keys(s0.open_color_picker(), keys).editor.hex_input is None,
    ensures
        picker_key(picker_keys(s0.open_color_picker(), keys), KeyInput { code: KeyCode::Esc, shift: false }).components
            == s0.components,
        picker_key(picker_keys(s0.open_color_picker(), keys), KeyInput { code: KeyCode::Esc, shift: false }).input_mode
            == InputMode::Preview,
{
    lemma_open_picker_starts_session(s0);
    lemma_session_over_keys(s0, s0.open_color_picker(), keys);
    lemma_cancel_restores_theme(s0, picker_keys(s0.open_color_picker(), keys));
}


/// The state after the program handles `keys` one after another.
pub open spec fn run_handled_keys(s: AppView, keys: Seq<KeyInput>) -> AppView
    decreases keys.len(),
{
    if keys.len() == 0 {
        s
    } else {
        run_handled_keys(spec_handle_key(s, keys[0]).0, keys.drop_first())
    }
}

/// Moving around the preview changes no colour, keeps what was copied and
/// what undo would restore, and stays in the preview.
pub proof fn lemma_nav_keeps_colours(s: AppView, keys: Seq<KeyInput>)
    requires
        s.input_mode == InputMode::Preview,
        nav_keys_only(keys),
    ensures
        run_handled_keys(s, keys).components == s.components,
        run_handled_keys(s, keys).yanked == s.yanked,
        run_handled_keys(s, keys).undo == s.undo,
        run_handled_keys(s, keys).input_mode == InputMode::Preview,
    decreases keys.len(),
{
    if keys.len() > 0 {
        assert(is_nav_key(keys[0]));
        let s1 = spec_handle_key(s, keys[0]).0;
        assert(nav_keys_only(keys.drop_first())) by {
            assert forall|i: int| 0 <= i < keys.drop_first().len() implies is_nav_key(#[trigger] keys.drop_first()[i]) by {
                assert(keys.drop_first()[i] == keys[i + 1]);
            }
        }
        lemma_nav_keeps_colours(s1, keys.drop_first());
    }
}

/// Copying a colour with `y`, moving around, and pasting with `p` gives
/// the selected attribute of the element now selected the copied colour,
/// marks the theme changed, and leaves every other component as it was.
pub proof fn lemma_yank_nav_paste(s: AppView, keys: Seq<KeyInput>)
    requires
        app_wf(s),
        s.input_mode == InputMode::Preview,
        nav_keys_only(keys),
    ensures
        ({
            let s2 = run_handled_keys(spec_handle_key(s, press('y')).0, keys);
            let s3 = spec_handle_key(s2, press('p')).0;
            &&& s3.color_of(s3.selected_attribute) == s.color_of(s.selected_attribute)
            &&& s3.dirty
            &&& s3.components.len() == s.components.len()
            &&& forall|i: int|
                0 <= i < s.components.len() && i != s2.selected_type().index() ==> s3.components[i]
                    == #[trigger] s.components[i]
        }),
{
    let s1 = spec_handle_key(s, press('y')).0;
    lemma_nav_keeps_colours(s1, keys);
    let s2 = run_handled_keys(s1, keys);
    crate::theme::lemma_component_index(s2.selected_type());
}

/// Pasting a copied colour, moving around, and undoing with `u` puts every
/// component back as it was before the paste.
pub proof fn lemma_paste_nav_undo(s: AppView, keys: Seq<KeyInput>)
    requires
        app_wf(s),
        s.input_mode == InputMode::Preview,
        s.yanked is Some,
        nav_keys_only(keys),
    ensures
        spec_handle_key(run_handled_keys(spec_handle_key(s, press('p')).0, keys), press('u')).0.components
            == s.components,
{
    let s1 = spec_handle_key(s, press('p')).0;
    crate::theme::lemma_component_index(s.selected_type());
    lemma_nav_keeps_colours(s1, keys);
    let s2 = run_handled_keys(s1, keys);
    assert(spec_handle_key(s2, press('u')).0.components =~= s.components);
}

/// Keeping the picker's edits with Enter, moving around, and undoing with
/// `u` puts every component back as it was when the picker was opened.
pub proof fn lemma_keep_nav_undo(s0: AppView, u: AppView, keys: Seq<KeyInput>)
    requires
        app_wf(s0),
        in_picker_session(s0, u),
        u.editor.hex_input is None,
        nav_keys_only(keys),
    ensures
        spec_handle_key(
            run_handled_keys(picker_key(u, KeyInput { code: KeyCode::Enter, shift: false }), keys),
            press('u'),
        ).0.components == s0.components,
{
    let s1 = picker_key(u, KeyInput { code: KeyCode::Enter, shift: false });
    crate::theme::lemma_component_index(s0.selected_type());
    lemma_nav_keeps_colours(s1, keys);
    let s2 = run_handled_keys(s1, keys);
    assert(spec_handle_key(s2, press('u')).0.components =~= s0.components);
}

/// A call the program may make while the picker is open: an edit of the
/// picker's own colour, showing that colour in the theme, setting a colour
/// of the selected element, or switching which of its colours is edited.
pub enum PickerStep {
    Edit(EditorView),
    ApplyCurrent,
    SetColor(PreviewAttribute, RgbColor),
    SwitchAttribute,
}

pub open spec fn apply_step(u: AppView, c: PickerStep) -> AppView {
    match c {
        PickerStep::Edit(e) => with_editor(u, e),
        PickerStep::ApplyCurrent => u.apply_current_color(),
        PickerStep::SetColor(a, col) => u.with_color(a, col),
        PickerStep::SwitchAttribute => u.switch_editing_attribute(),
    }
}

pub open spec fn apply_steps(u: AppView, steps: Seq<PickerStep>) -> AppView
    decreases steps.len(),
{
    if steps.len() == 0 {
        u
    } else {
        apply_steps(apply_step(u, steps[0]), steps.drop_first())
    }
}

proof fn lemma_steps_keep_session(s0: AppView, u: AppView, steps: Seq<PickerStep>)
    requires
        app_wf(s0),
        in_picker_session(s0, u),
    ensures
        in_picker_session(s0, apply_steps(u, steps)),
    decreases steps.len(),
{
    if steps.len() > 0 {
        crate::theme::lemma_component_index(s0.selected_type());
        let u1 = apply_step(u, steps[0]);
        assert(in_picker_session(s0, u1));
        lemma_steps_keep_session(s0, u1, steps.drop_first());
    }
}

/// Opening the picker, making any of the picker's calls, and closing it
/// without keeping (cancel) leaves the theme as it was, forgets the
/// remembered component and returns to the preview.
pub proof fn lemma_cancel_after_steps(s0: AppView, steps: Seq<PickerStep>)
    requires
        app_wf(s0),
    ensures
        apply_steps(s0.open_color_picker(), steps).close_color_picker(false).components == s0.components,
        apply_steps(s0.open_color_picker(), steps).close_color_picker(false).theme_name == s0.theme_name,
        apply_steps(s0.open_color_picker(), steps).close_color_picker(false).original_component is None,
        apply_steps(s0.open_color_picker(), steps).close_color_picker(false).input_mode == InputMode::Preview,
{
    lemma_open_picker_starts_session(s0);
    lemma_steps_keep_session(s0, s0.open_color_picker(), steps);
    let u = apply_steps(s0.open_color_picker(), steps);
    crate::theme::lemma_component_index(s0.selected_type());
    assert(u.close_color_picker(false).components =~= s0.components);
}

} // verus!
