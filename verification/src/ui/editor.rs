//! The editor driven by `ui::handle_key`: the colour picker edits an
//! attribute of its own (chosen when the picker opens and switched with
//! `Tab` inside it), and applying an unnamed theme first asks for a name,
//! remembering that an apply is pending.

use vstd::prelude::*;
use vstd::string::{StringExecFns, StrSliceExecFns};
use crate::theme::{
    RgbColor, ThemeComponentType, Theme, ThemeComponent, default_component, default_components,
    all_component_types, lemma_component_index, lemma_components_index, lemma_with_comp_components,
};
use crate::config::{ConfigError, ConfigManager};
use crate::text::{views, sort_strings, is_alnum, char_is_alnum, push_char, pop_char, str_order, to_lower, char_to_lower};
use crate::ui::loader::{ThemeFilter, visible, visible_themes};
use crate::ui::state::{
    PreviewElement, ColorEditor, EditorView, editor_from_rgb, opt_view, bad_name_message,
    position_of, spec_normalize_theme_name, normalize_theme_name, unit_result, list_result,
    theme_load_result, error_message_exec, position_in, clone_string,
};

verus! {

/// What the keyboard currently drives.
#[derive(Debug, Clone, Copy, PartialEq, Eq, Structural)]
pub enum InputMode {
    Preview,
    ColorPicker,
    ThemeNameInput,
    ThemeLoad,
    Help,
    ThemeLoadRename,
    ThemeLoadDeleteConfirm,
    ElementSearch,
}

/// Which colour of the selected element is meant.
#[derive(Debug, Clone, Copy, PartialEq, Eq, Structural)]
pub enum PreviewAttribute {
    Foreground,
    Background,
}

impl PreviewAttribute {
    pub open spec fn spec_label(self) -> Seq<char> {
        match self {
            PreviewAttribute::Foreground => "FG"@,
            PreviewAttribute::Background => "BG"@,
        }
    }

    /// The other attribute.
    pub open spec fn other(self) -> PreviewAttribute {
        match self {
            PreviewAttribute::Foreground => PreviewAttribute::Background,
            PreviewAttribute::Background => PreviewAttribute::Foreground,
        }
    }

    pub fn label(&self) -> (res: &'static str)
        ensures
            res@ == self.spec_label(),
    {
        match self {
            PreviewAttribute::Foreground => "FG",
            PreviewAttribute::Background => "BG",
        }
    }

    /// Switches to the other attribute.
    pub fn toggle(&mut self)
        ensures
            *final(self) == old(self).other(),
    {
        *self = match self {
            PreviewAttribute::Foreground => PreviewAttribute::Background,
            PreviewAttribute::Background => PreviewAttribute::Foreground,
        };
    }
}

/// Toggling twice gives the attribute back.
pub proof fn lemma_attribute_toggle_twice(a: PreviewAttribute)
    ensures
        a.other().other() == a,
        a.other() != a,
{
}

/// The whole editor state.
pub struct App {
    pub theme: Theme,
    pub selected_element: PreviewElement,
    pub selected_attribute: PreviewAttribute,
    pub editing_attribute: PreviewAttribute,
    pub config_manager: ConfigManager,
    pub message: Option<String>,
    pub input_mode: InputMode,
    pub color_editor: ColorEditor,
    pub original_component: Option<ThemeComponent>,
    pub theme_name_input: String,
    pub loadable_themes: Vec<String>,
    pub selected_theme_index: usize,
    pub dirty: bool,
    pub yanked_color: Option<RgbColor>,
    pub undo_stack: Vec<(ThemeComponentType, ThemeComponent)>,
    pub all_themes: Vec<String>,
    pub theme_search_query: String,
    pub theme_filter: ThemeFilter,
    pub pending_apply: bool,
    pub element_query: String,
}

/// A plain-value picture of an `App`.
pub struct AppView {
    pub theme_name: Seq<char>,
    pub components: Seq<ThemeComponent>,
    pub selected_element: PreviewElement,
    pub selected_attribute: PreviewAttribute,
    pub editing_attribute: PreviewAttribute,
    pub config_dir: Seq<char>,
    pub themes_dir: Seq<char>,
    pub message: Option<Seq<char>>,
    pub input_mode: InputMode,
    pub editor: EditorView,
    pub original_component: Option<ThemeComponent>,
    pub theme_name_input: Seq<char>,
    pub loadable_themes: Seq<Seq<char>>,
    pub selected_theme_index: usize,
    pub dirty: bool,
    pub yanked: Option<RgbColor>,
    pub undo: Seq<(ThemeComponentType, ThemeComponent)>,
    pub all_themes: Seq<Seq<char>>,
    pub query: Seq<char>,
    pub filter: ThemeFilter,
    pub pending_apply: bool,
    pub element_query: Seq<char>,
}

impl AppView {
    /// The component type of the selected element.
    pub open spec fn selected_type(self) -> ThemeComponentType {
        self.selected_element.spec_component_type()
    }

    pub open spec fn selected_component(self) -> ThemeComponent {
        self.components[self.selected_type().index()]
    }

    pub open spec fn color_of(self, attr: PreviewAttribute) -> RgbColor {
        match attr {
            PreviewAttribute::Foreground => self.selected_component().base,
            PreviewAttribute::Background => self.selected_component().background,
        }
    }

    pub open spec fn with_color(self, attr: PreviewAttribute, color: RgbColor) -> AppView {
        let c = self.selected_component();
        let updated = match attr {
            PreviewAttribute::Foreground => ThemeComponent { base: color, ..c },
            PreviewAttribute::Background => ThemeComponent { background: color, ..c },
        };
        AppView {
            components: self.components.update(self.selected_type().index(), updated),
            dirty: true,
            ..self
        }
    }

    /// Writes the picker's colour into the attribute being edited.
    pub open spec fn apply_current_color(self) -> AppView {
        self.with_color(self.editing_attribute, self.editor.rgb())
    }

    /// Opens the picker on the selected attribute's colour.
    pub open spec fn open_color_picker(self) -> AppView {
        let attr = self.selected_attribute;
        AppView {
            editing_attribute: attr,
            original_component: Some(self.selected_component()),
            editor: editor_from_rgb(self.color_of(attr)),
            input_mode: InputMode::ColorPicker,
            ..self
        }
    }

    pub open spec fn close_color_picker(self, save: bool) -> AppView {
        let restored = if !save && self.original_component is Some {
            AppView {
                components: self.components.update(
                    self.selected_type().index(),
                    self.original_component->0,
                ),
                ..self
            }
        } else {
            self
        };
        let recorded = if save && self.original_component is Some {
            AppView { undo: restored.undo.push((self.selected_type(), self.original_component->0)), ..restored }
        } else {
            restored
        };
        AppView { original_component: None, input_mode: InputMode::Preview, ..recorded }
    }

    /// Edits the other attribute, loading its colour into the picker.
    pub open spec fn switch_editing_attribute(self) -> AppView {
        let attr = self.editing_attribute.other();
        AppView { editing_attribute: attr, editor: editor_from_rgb(self.color_of(attr)), ..self }
    }

    pub open spec fn sync_name(self) -> AppView {
        AppView { theme_name_input: self.theme_name, ..self }
    }

    pub open spec fn open_theme_name_input(self) -> AppView {
        AppView {
            input_mode: InputMode::ThemeNameInput,
            message: Some("Enter a theme name, then press Enter to save"@),
            ..self.sync_name()
        }
    }

    pub open spec fn push_name_char(self, c: char) -> AppView {
        if is_alnum(c) || c == '-' || c == '_' || c == ' ' {
            AppView { theme_name_input: self.theme_name_input.push(c), ..self }
        } else {
            self
        }
    }

    pub open spec fn pop_name_char(self) -> AppView {
        if self.theme_name_input.len() > 0 {
            AppView { theme_name_input: self.theme_name_input.drop_last(), ..self }
        } else {
            self
        }
    }

    pub open spec fn selection_up(self) -> AppView {
        AppView {
            selected_theme_index: if self.loadable_themes.len() == 0 {
                0
            } else if self.selected_theme_index == 0 {
                (self.loadable_themes.len() - 1) as usize
            } else {
                (self.selected_theme_index - 1) as usize
            },
            ..self
        }
    }

    pub open spec fn selection_down(self) -> AppView {
        AppView {
            selected_theme_index: if self.loadable_themes.len() == 0 {
                0
            } else {
                ((self.selected_theme_index + 1) % (self.loadable_themes.len() as int)) as usize
            },
            ..self
        }
    }

    /// Accepting the typed name: the state with a message when it
    /// normalizes to nothing, else the state with the theme renamed.
    pub open spec fn accept_name(self) -> (AppView, bool) {
        let n = spec_normalize_theme_name(self.theme_name_input);
        if n.len() == 0 {
            (AppView { message: Some(bad_name_message()), ..self }, false)
        } else {
            (AppView { theme_name: n, theme_name_input: n, ..self }, true)
        }
    }

    /// After saving: `err` is the error text when the save failed.
    pub open spec fn after_save(self, err: Option<Seq<char>>) -> AppView {
        match err {
            None => AppView { message: Some("✓ Saved: "@ + self.theme_name), dirty: false, ..self },
            Some(e) => AppView { message: Some("✗ Error: "@ + e), ..self },
        }
    }

    /// After applying the theme to the Zellij configuration.
    pub open spec fn after_apply(self, err: Option<Seq<char>>) -> AppView {
        match err {
            None => AppView {
                message: Some(
                    "✓ Saved + applied \""@ + self.theme_name
                        + "\" — restart Zellij to see changes"@,
                ),
                ..self
            },
            Some(e) => AppView { message: Some("✗ Error: "@ + e), ..self },
        }
    }

    /// After listing the saved themes: the list, sorted, or the error text.
    pub open spec fn after_refresh(self, listed: Result<Seq<Seq<char>>, Seq<char>>) -> AppView {
        match listed {
            Ok(names) => {
                let sorted = names.sort_by(str_order());
                let shown = visible(sorted, self.filter, self.query);
                AppView {
                    all_themes: sorted,
                    loadable_themes: shown,
                    selected_theme_index: if self.selected_theme_index >= shown.len() {
                        if shown.len() == 0 {
                            0
                        } else {
                            (shown.len() - 1) as usize
                        }
                    } else {
                        self.selected_theme_index
                    },
                    ..self
                }
            },
            Err(e) => AppView {
                all_themes: Seq::empty(),
                loadable_themes: Seq::empty(),
                selected_theme_index: 0,
                message: Some("✗ Error: "@ + e),
                ..self
            },
        }
    }

    /// Opening the load dialog once the saved themes are listed.
    pub open spec fn after_open_load_dialog(self, listed: Result<Seq<Seq<char>>, Seq<char>>) -> AppView {
        let s = AppView { query: Seq::empty(), filter: ThemeFilter::All, ..self }.after_refresh(listed);
        if s.loadable_themes.len() == 0 {
            AppView { message: Some("✗ No saved themes found in ~/.config/zellij/themes"@), ..s }
        } else {
            AppView {
                selected_theme_index: match position_of(s.loadable_themes, s.theme_name) {
                    Some(i) => i as usize,
                    None => 0,
                },
                input_mode: InputMode::ThemeLoad,
                message: Some("Select a theme to load"@),
                ..s
            }
        }
    }

    /// The listing shown again under the current search text and filter,
    /// with the first entry selected.
    pub open spec fn relist(self) -> AppView {
        AppView { loadable_themes: visible(self.all_themes, self.filter, self.query), selected_theme_index: 0, ..self }
    }

    /// Copies the selected attribute's colour.
    pub open spec fn yank(self) -> AppView {
        AppView { yanked: Some(self.color_of(self.selected_attribute)), ..self }
    }

    /// Writes the copied colour into the selected attribute, remembering
    /// the component as it was for undo.
    pub open spec fn paste(self) -> AppView {
        match self.yanked {
            Some(c) => AppView {
                undo: self.undo.push((self.selected_type(), self.selected_component())),
                ..self.with_color(self.selected_attribute, c)
            },
            None => self,
        }
    }

    /// Puts back the component as it was before the last colour change.
    pub open spec fn undo_change(self) -> AppView {
        if self.undo.len() > 0 {
            let (ty, c) = self.undo.last();
            AppView {
                components: self.components.update(ty.index(), c),
                undo: self.undo.drop_last(),
                dirty: true,
                ..self
            }
        } else {
            self
        }
    }

    /// The name of the selected listed theme.
    pub open spec fn selected_theme(self) -> Option<Seq<char>> {
        if self.selected_theme_index < self.loadable_themes.len() {
            Some(self.loadable_themes[self.selected_theme_index as int])
        } else {
            None
        }
    }

    pub open spec fn no_selection(self) -> AppView {
        AppView { message: Some("✗ No theme selected"@), ..self }
    }

    /// Starts renaming the selected saved theme, with its name to edit.
    pub open spec fn start_rename(self) -> AppView {
        match self.selected_theme() {
            Some(n) => AppView {
                input_mode: InputMode::ThemeLoadRename,
                theme_name_input: n,
                message: Some("Enter a new name, then press Enter to rename"@),
                ..self
            },
            None => self.no_selection(),
        }
    }

    /// Asks to confirm deleting the selected saved theme.
    pub open spec fn start_delete(self) -> AppView {
        match self.selected_theme() {
            Some(n) => AppView {
                input_mode: InputMode::ThemeLoadDeleteConfirm,
                message: Some("Delete \""@ + n + "\"? (y/n)"@),
                ..self
            },
            None => self.no_selection(),
        }
    }

    /// Accepting the new name of the theme being renamed: the old and new
    /// names, or the state with a message when the name normalizes to nothing.
    pub open spec fn accept_rename(self) -> (AppView, Option<(Seq<char>, Seq<char>)>) {
        let n = spec_normalize_theme_name(self.theme_name_input);
        if n.len() == 0 {
            (AppView { message: Some(bad_name_message()), ..self }, None)
        } else {
            match self.selected_theme() {
                Some(old) => (self, Some((old, n))),
                None => (AppView { input_mode: InputMode::ThemeLoad, ..self.no_selection() }, None),
            }
        }
    }

    /// After renaming `old` to `new`, with the new listing; back to the loader.
    pub open spec fn after_rename(
        self,
        old: Seq<char>,
        new: Seq<char>,
        err: Option<Seq<char>>,
        listed: Result<Seq<Seq<char>>, Seq<char>>,
    ) -> AppView {
        let m = match err {
            None => "✓ Renamed: "@ + old + " → "@ + new,
            Some(e) => "✗ Error: "@ + e,
        };
        AppView { input_mode: InputMode::ThemeLoad, ..AppView { message: Some(m), ..self }.after_refresh(listed) }
    }

    /// After deleting `name`, with the new listing; back to the loader.
    pub open spec fn after_delete(
        self,
        name: Seq<char>,
        err: Option<Seq<char>>,
        listed: Result<Seq<Seq<char>>, Seq<char>>,
    ) -> AppView {
        let m = match err {
            None => "✓ Deleted: "@ + name,
            Some(e) => "✗ Error: "@ + e,
        };
        AppView { input_mode: InputMode::ThemeLoad, ..AppView { message: Some(m), ..self }.after_refresh(listed) }
    }

    /// After selecting the saved theme `name` in the Zellij configuration.
    pub open spec fn after_apply_saved(self, name: Seq<char>, err: Option<Seq<char>>) -> AppView {
        match err {
            None => AppView {
                message: Some("✓ Applied \""@ + name + "\" — restart Zellij to see changes"@),
                ..self
            },
            Some(e) => AppView { message: Some("✗ Error: "@ + e), ..self },
        }
    }

    /// After a self-update: the release installed (`Some(tag)`), none
    /// newer than the running one (`None`), or the reason it failed.
    pub open spec fn after_self_update(self, r: Result<Option<Seq<char>>, Seq<char>>) -> AppView {
        let m = match r {
            Ok(Some(tag)) => "✓ Updated to "@ + tag + " — restart to use it"@,
            Ok(None) => "Already up to date"@,
            Err(e) => "✗ Update failed: "@ + e,
        };
        AppView { message: Some(m), ..self }
    }

    /// Choosing the selected saved theme: its name, or the state after
    /// reporting that none is selected.
    pub open spec fn begin_load(self) -> (AppView, Option<Seq<char>>) {
        if self.selected_theme_index < self.loadable_themes.len() {
            (self, Some(self.loadable_themes[self.selected_theme_index as int]))
        } else {
            (
                AppView {
                    message: Some("✗ No theme selected"@),
                    input_mode: InputMode::Preview,
                    ..self
                },
                None,
            )
        }
    }

    /// After loading theme `name`: its name and components, or the error text.
    pub open spec fn after_load(
        self,
        name: Seq<char>,
        loaded: Result<(Seq<char>, Seq<ThemeComponent>), Seq<char>>,
    ) -> AppView {
        let s = match loaded {
            Ok(t) => AppView {
                theme_name: t.0,
                components: t.1,
                theme_name_input: t.0,
                message: Some("✓ Loaded: "@ + name),
                dirty: false,
                ..self
            },
            Err(e) => AppView { message: Some("✗ Error: "@ + e), ..self },
        };
        AppView { input_mode: InputMode::Preview, ..s }
    }
}

impl App {
    pub open spec fn view(&self) -> AppView {
        AppView {
            theme_name: self.theme.name@,
            components: self.theme.components(),
            selected_element: self.selected_element,
            selected_attribute: self.selected_attribute,
            editing_attribute: self.editing_attribute,
            config_dir: self.config_manager.spec_config_dir_of(),
            themes_dir: self.config_manager.spec_themes_dir_of(),
            message: opt_view(self.message),
            input_mode: self.input_mode,
            editor: self.color_editor.view(),
            original_component: self.original_component,
            theme_name_input: self.theme_name_input@,
            loadable_themes: views(self.loadable_themes@),
            selected_theme_index: self.selected_theme_index,
            dirty: self.dirty,
            yanked: self.yanked_color,
            undo: self.undo_stack@,
            all_themes: views(self.all_themes@),
            query: self.theme_search_query@,
            filter: self.theme_filter,
            pending_apply: self.pending_apply,
            element_query: self.element_query@,
        }
    }

    /// The editor state at start-up: the default theme, the first tab
    /// selected, foregrounds chosen, preview mode.
    pub fn new() -> (res: Self)
        ensures
            res.view().theme_name == "default"@,
            res.view().components == default_components(),
            res.view().theme_name_input == "default"@,
            res.view().selected_element == PreviewElement::TabSelected,
            res.view().selected_attribute == PreviewAttribute::Foreground,
            res.view().editing_attribute == PreviewAttribute::Foreground,
            res.view().message is None,
            res.view().input_mode == InputMode::Preview,
            res.view().editor == editor_from_rgb(RgbColor { r: 200, g: 200, b: 200 }),
            res.view().original_component is None,
            res.view().loadable_themes.len() == 0,
            res.view().selected_theme_index == 0,
            !res.view().dirty,
            res.view().yanked is None,
            res.view().undo.len() == 0,
            res.view().all_themes.len() == 0,
            res.view().query.len() == 0,
            res.view().filter == ThemeFilter::All,
            !res.view().pending_apply,
            res.view().element_query.len() == 0,
    {
        let theme = Theme::default();
        proof {
            assert forall|k: int| 0 <= k < 14 implies theme.components()[k]
                == default_components()[k] by {
                let ty = all_component_types()[k];
                lemma_component_index(ty);
                assert(theme.comp(ty) == default_component(ty));
            }
            assert(theme.components() =~= default_components());
        }
        let mut app = App {
            theme,
            selected_element: PreviewElement::TabSelected,
            selected_attribute: PreviewAttribute::Foreground,
            editing_attribute: PreviewAttribute::Foreground,
            config_manager: ConfigManager::new(),
            message: None,
            input_mode: InputMode::Preview,
            color_editor: ColorEditor::from_rgb(200, 200, 200),
            original_component: None,
            theme_name_input: String::from_str("default"),
            loadable_themes: Vec::new(),
            selected_theme_index: 0,
            dirty: false,
            yanked_color: None,
            undo_stack: Vec::new(),
            all_themes: Vec::new(),
            theme_search_query: String::new(),
            theme_filter: ThemeFilter::All,
            pending_apply: false,
            element_query: String::new(),
        };
        app.sync_theme_name_input();
        assert(views(app.loadable_themes@) =~= Seq::<Seq<char>>::empty());
        assert(views(app.all_themes@) =~= Seq::<Seq<char>>::empty());
        app
    }

    pub fn sync_theme_name_input(&mut self)
        ensures
            final(self).view() == old(self).view().sync_name(),
    {
        self.theme_name_input = clone_string(&self.theme.name);
    }

    pub fn open_theme_name_input(&mut self)
        ensures
            final(self).view() == old(self).view().open_theme_name_input(),
    {
        self.sync_theme_name_input();
        self.input_mode = InputMode::ThemeNameInput;
        self.message = Some(String::from_str("Enter a theme name, then press Enter to save"));
    }

    /// Takes the typed name for the theme; false (with a message) when it
    /// normalizes to nothing.
    pub fn accept_theme_name_input(&mut self) -> (res: bool)
        ensures
            (final(self).view(), res) == old(self).view().accept_name(),
    {
        let normalized_name = normalize_theme_name(self.theme_name_input.as_str());
        if normalized_name.as_str().unicode_len() == 0 {
            self.message = Some(String::from_str("✗ Theme name must contain letters or numbers"));
            return false;
        }
        let ghost comps = self.theme.components();
        self.theme.name = normalized_name;
        assert(self.theme.components() =~= comps);
        self.sync_theme_name_input();
        true
    }

    /// Reports the outcome of saving the theme.
    pub fn finish_save(&mut self, result: Result<(), ConfigError>)
        ensures
            final(self).view() == old(self).view().after_save(unit_result(result)),
    {
        match result {
            Ok(()) => {
                self.message = Some(String::from_str("✓ Saved: ").concat(self.theme.name.as_str()));
                self.dirty = false;
            },
            Err(e) => {
                self.message = Some(error_message_exec(&e));
            },
        }
    }

    /// Reports the outcome of applying the theme to the Zellij configuration.
    pub fn finish_apply(&mut self, result: Result<(), ConfigError>)
        ensures
            final(self).view() == old(self).view().after_apply(unit_result(result)),
    {
        match result {
            Ok(()) => {
                self.message = Some(
                    String::from_str("✓ Saved + applied \"").concat(self.theme.name.as_str()).concat(
                        "\" — restart Zellij to see changes",
                    ),
                );
            },
            Err(e) => {
                self.message = Some(error_message_exec(&e));
            },
        }
    }

    /// Takes the listing of the saved themes, sorted.
    pub fn finish_refresh(&mut self, result: Result<Vec<String>, ConfigError>)
        ensures
            final(self).view() == old(self).view().after_refresh(list_result(result)),
    {
        match result {
            Ok(themes) => {
                let sorted = sort_strings(themes);
                self.loadable_themes = visible_themes(&sorted, self.theme_filter, self.theme_search_query.as_str());
                self.all_themes = sorted;
                if self.selected_theme_index >= self.loadable_themes.len() {
                    self.selected_theme_index = if self.loadable_themes.len() == 0 {
                        0
                    } else {
                        self.loadable_themes.len() - 1
                    };
                }
            },
            Err(e) => {
                self.loadable_themes = Vec::new();
                self.all_themes = Vec::new();
                self.selected_theme_index = 0;
                self.message = Some(error_message_exec(&e));
                assert(views(self.loadable_themes@) =~= Seq::<Seq<char>>::empty());
                assert(views(self.all_themes@) =~= Seq::<Seq<char>>::empty());
            },
        }
    }

    /// After "save as": the outcomes of saving the theme and of listing the
    /// saved themes; back to preview.
    pub fn finish_save_as(
        &mut self,
        saved: Result<(), ConfigError>,
        listed: Result<Vec<String>, ConfigError>,
    )
        ensures
            final(self).view() == (AppView {
                input_mode: InputMode::Preview,
                ..old(self).view().after_save(unit_result(saved)).after_refresh(list_result(listed))
            }),
    {
        self.finish_save(saved);
        self.finish_refresh(listed);
        self.input_mode = InputMode::Preview;
    }

    /// After applying a freshly named theme: the outcomes of applying it
    /// and of listing the saved themes; back to preview.
    pub fn finish_apply_as(
        &mut self,
        applied: Result<(), ConfigError>,
        listed: Result<Vec<String>, ConfigError>,
    )
        ensures
            final(self).view() == (AppView {
                input_mode: InputMode::Preview,
                ..old(self).view().after_apply(unit_result(applied)).after_refresh(list_result(listed))
            }),
    {
        self.finish_apply(applied);
        self.finish_refresh(listed);
        self.input_mode = InputMode::Preview;
    }

    /// Opens the load dialog on the listing of the saved themes, selecting
    /// the current theme when it is listed.
    pub fn finish_open_load_dialog(&mut self, result: Result<Vec<String>, ConfigError>)
        ensures
            final(self).view() == old(self).view().after_open_load_dialog(list_result(result)),
    {
        self.theme_search_query = String::new();
        self.theme_filter = ThemeFilter::All;
        self.finish_refresh(result);
        if self.loadable_themes.len() == 0 {
            self.message = Some(String::from_str("✗ No saved themes found in ~/.config/zellij/themes"));
            return;
        }
        let found = position_in(&self.loadable_themes, self.theme.name.as_str());
        self.selected_theme_index = match found {
            Some(k) => k,
            None => 0,
        };
        self.input_mode = InputMode::ThemeLoad;
        self.message = Some(String::from_str("Select a theme to load"));
    }

    /// The name of the selected saved theme, or `None` after reporting
    /// that none is selected.
    pub fn begin_load(&mut self) -> (res: Option<String>)
        ensures
            (final(self).view(), opt_view(res)) == old(self).view().begin_load(),
    {
        if self.selected_theme_index < self.loadable_themes.len() {
            Some(clone_string(&self.loadable_themes[self.selected_theme_index]))
        } else {
            self.message = Some(String::from_str("✗ No theme selected"));
            self.input_mode = InputMode::Preview;
            None
        }
    }

    /// Takes the loaded theme `name`, or reports why it could not be loaded.
    pub fn finish_load(&mut self, name: &str, result: Result<Theme, ConfigError>)
        ensures
            final(self).view() == old(self).view().after_load(name@, theme_load_result(result)),
    {
        match result {
            Ok(theme) => {
                self.theme = theme;
                self.sync_theme_name_input();
                self.message = Some(String::from_str("✓ Loaded: ").concat(name));
                self.dirty = false;
            },
            Err(e) => {
                self.message = Some(error_message_exec(&e));
            },
        }
        self.input_mode = InputMode::Preview;
    }

    pub fn move_theme_selection_up(&mut self)
        ensures
            final(self).view() == old(self).view().selection_up(),
    {
        if self.loadable_themes.len() == 0 {
            self.selected_theme_index = 0;
        } else if self.selected_theme_index == 0 {
            self.selected_theme_index = self.loadable_themes.len() - 1;
        } else {
            self.selected_theme_index = self.selected_theme_index - 1;
        }
    }

    pub fn move_theme_selection_down(&mut self)
        requires
            old(self).selected_theme_index < usize::MAX,
        ensures
            final(self).view() == old(self).view().selection_down(),
    {
        if self.loadable_themes.len() == 0 {
            self.selected_theme_index = 0;
        } else {
            self.selected_theme_index = (self.selected_theme_index + 1) % self.loadable_themes.len();
        }
    }

    /// Types a character of the theme name: letters, digits, `-`, `_` and space.
    pub fn push_theme_name_char(&mut self, c: char)
        ensures
            final(self).view() == old(self).view().push_name_char(c),
    {
        if char_is_alnum(c) || c == '-' || c == '_' || c == ' ' {
            push_char(&mut self.theme_name_input, c);
        }
    }

    pub fn pop_theme_name_char(&mut self)
        ensures
            final(self).view() == old(self).view().pop_name_char(),
    {
        pop_char(&mut self.theme_name_input);
    }

    pub fn get_color_by_attr(&self, attr: PreviewAttribute) -> (res: RgbColor)
        ensures
            res == self.view().color_of(attr),
    {
        let ty = self.selected_element.component_type();
        proof {
            lemma_components_index(self.theme, ty);
        }
        let component = self.theme.get(ty);
        match attr {
            PreviewAttribute::Foreground => component.base,
            PreviewAttribute::Background => component.background,
        }
    }

    /// The colour of the attribute being edited.
    pub fn get_color(&self) -> (res: RgbColor)
        ensures
            res == self.view().color_of(self.editing_attribute),
    {
        self.get_color_by_attr(self.editing_attribute)
    }

    pub fn set_color_by_attr(&mut self, attr: PreviewAttribute, color: RgbColor)
        ensures
            final(self).view() == old(self).view().with_color(attr, color),
    {
        let ty = self.selected_element.component_type();
        proof {
            lemma_components_index(self.theme, ty);
        }
        let mut c = *self.theme.get(ty);
        match attr {
            PreviewAttribute::Foreground => c.base = color,
            PreviewAttribute::Background => c.background = color,
        }
        proof {
            lemma_with_comp_components(self.theme, ty, c);
        }
        self.theme.set(ty, c);
        self.dirty = true;
    }

    pub fn apply_current_color(&mut self)
        ensures
            final(self).view() == old(self).view().apply_current_color(),
    {
        let color = self.color_editor.to_rgb();
        let attr = self.editing_attribute;
        self.set_color_by_attr(attr, color);
    }

    /// Opens the picker on the selected attribute's colour, remembering the
    /// component so that cancelling can restore it.
    pub fn open_color_picker(&mut self)
        ensures
            final(self).view() == old(self).view().open_color_picker(),
    {
        self.editing_attribute = self.selected_attribute;
        let ty = self.selected_element.component_type();
        proof {
            lemma_components_index(self.theme, ty);
        }
        self.original_component = Some(*self.theme.get(ty));
        let color = self.get_color();
        self.color_editor = ColorEditor::from_rgb(color.r, color.g, color.b);
        self.input_mode = InputMode::ColorPicker;
    }

    /// Closes the picker; without `save` the remembered component comes back.
    pub fn close_color_picker(&mut self, save: bool)
        ensures
            final(self).view() == old(self).view().close_color_picker(save),
    {
        if !save {
            match self.original_component {
                Some(original) => {
                    let ty = self.selected_element.component_type();
                    proof {
                        lemma_with_comp_components(self.theme, ty, original);
                    }
                    self.theme.set(ty, original);
                },
                None => {},
            }
        } else {
            match self.original_component {
                Some(original) => {
                    self.undo_stack.push((self.selected_element.component_type(), original));
                },
                None => {},
            }
        }
        self.original_component = None;
        self.input_mode = InputMode::Preview;
    }

    /// Edits the other attribute and loads its colour into the picker.
    pub fn switch_editing_attribute(&mut self)
        ensures
            final(self).view() == old(self).view().switch_editing_attribute(),
    {
        self.editing_attribute.toggle();
        let attr = self.editing_attribute;
        let color = self.get_color_by_attr(attr);
        self.color_editor = ColorEditor::from_rgb(color.r, color.g, color.b);
    }
}

/// The pair of names as plain values.
pub open spec fn opt_pair_view(o: Option<(String, String)>) -> Option<(Seq<char>, Seq<char>)> {
    match o {
        Some((a, b)) => Some((a@, b@)),
        None => None,
    }
}

impl App {
    fn relist(&mut self)
        ensures
            final(self).view() == old(self).view().relist(),
    {
        self.loadable_themes = visible_themes(&self.all_themes, self.theme_filter, self.theme_search_query.as_str());
        self.selected_theme_index = 0;
    }

    /// Copies the selected attribute's colour.
    pub fn yank_color(&mut self)
        ensures
            final(self).view() == old(self).view().yank(),
    {
        let attr = self.selected_attribute;
        let c = self.get_color_by_attr(attr);
        self.yanked_color = Some(c);
    }

    /// Writes the copied colour, if any, into the selected attribute.
    pub fn paste_color(&mut self)
        ensures
            final(self).view() == old(self).view().paste(),
    {
        match self.yanked_color {
            Some(c) => {
                let ty = self.selected_element.component_type();
                proof {
                    lemma_components_index(self.theme, ty);
                }
                let before = *self.theme.get(ty);
                self.undo_stack.push((ty, before));
                let attr = self.selected_attribute;
                self.set_color_by_attr(attr, c);
            },
            None => {},
        }
    }

    /// Puts back the component changed last, if any change is recorded.
    pub fn undo_color(&mut self)
        ensures
            final(self).view() == old(self).view().undo_change(),
    {
        if self.undo_stack.len() > 0 {
            let entry = self.undo_stack.pop();
            match entry {
                Some((ty, c)) => {
                    proof {
                        lemma_with_comp_components(self.theme, ty, c);
                    }
                    self.theme.set(ty, c);
                    self.dirty = true;
                },
                None => {},
            }
        }
    }

    /// Types a character of the loader's search text (lower-cased).
    pub fn push_search_char(&mut self, c: char)
        ensures
            final(self).view() == (AppView { query: old(self).view().query.push(to_lower(c)), ..old(self).view() }).relist(),
    {
        push_char(&mut self.theme_search_query, char_to_lower(c));
        self.relist();
    }

    pub fn pop_search_char(&mut self)
        ensures
            final(self).view() == (AppView {
                query: if old(self).view().query.len() > 0 {
                    old(self).view().query.drop_last()
                } else {
                    old(self).view().query
                },
                ..old(self).view()
            }).relist(),
    {
        pop_char(&mut self.theme_search_query);
        self.relist();
    }

    pub fn clear_search(&mut self)
        ensures
            final(self).view() == (AppView { query: Seq::empty(), ..old(self).view() }).relist(),
    {
        self.theme_search_query = String::new();
        self.relist();
    }

    pub fn set_theme_filter(&mut self, filter: ThemeFilter)
        ensures
            final(self).view() == (AppView { filter, ..old(self).view() }).relist(),
    {
        self.theme_filter = filter;
        self.relist();
    }

    /// The name of the selected listed theme.
    pub fn selected_theme_name(&self) -> (res: Option<String>)
        ensures
            opt_view(res) == self.view().selected_theme(),
    {
        if self.selected_theme_index < self.loadable_themes.len() {
            Some(clone_string(&self.loadable_themes[self.selected_theme_index]))
        } else {
            None
        }
    }

    pub fn report_no_selection(&mut self)
        ensures
            final(self).view() == old(self).view().no_selection(),
    {
        self.message = Some(String::from_str("✗ No theme selected"));
    }

    /// Starts renaming the selected saved theme.
    pub fn begin_rename_selected_theme(&mut self)
        ensures
            final(self).view() == old(self).view().start_rename(),
    {
        match self.selected_theme_name() {
            Some(n) => {
                self.input_mode = InputMode::ThemeLoadRename;
                self.theme_name_input = n;
                self.message = Some(String::from_str("Enter a new name, then press Enter to rename"));
            },
            None => self.report_no_selection(),
        }
    }

    /// Asks to confirm deleting the selected saved theme.
    pub fn begin_delete_selected_theme(&mut self)
        ensures
            final(self).view() == old(self).view().start_delete(),
    {
        match self.selected_theme_name() {
            Some(n) => {
                self.input_mode = InputMode::ThemeLoadDeleteConfirm;
                self.message = Some(String::from_str("Delete \"").concat(n.as_str()).concat("\"? (y/n)"));
            },
            None => self.report_no_selection(),
        }
    }

    /// Takes the typed new name of the theme being renamed: the old and new
    /// names, or `None` after reporting why not.
    pub fn accept_rename(&mut self) -> (res: Option<(String, String)>)
        ensures
            (final(self).view(), opt_pair_view(res)) == old(self).view().accept_rename(),
    {
        let n = normalize_theme_name(self.theme_name_input.as_str());
        if n.as_str().unicode_len() == 0 {
            self.message = Some(String::from_str("✗ Theme name must contain letters or numbers"));
            return None;
        }
        match self.selected_theme_name() {
            Some(prev) => Some((prev, n)),
            None => {
                self.report_no_selection();
                self.input_mode = InputMode::ThemeLoad;
                None
            },
        }
    }

    /// After renaming `old` to `new`: the outcome and the new listing.
    pub fn finish_rename(
        &mut self,
        old_name: &str,
        new_name: &str,
        result: Result<(), ConfigError>,
        listed: Result<Vec<String>, ConfigError>,
    )
        ensures
            final(self).view() == old(self).view().after_rename(old_name@, new_name@, unit_result(result), list_result(listed)),
    {
        match result {
            Ok(()) => {
                self.message = Some(String::from_str("✓ Renamed: ").concat(old_name).concat(" → ").concat(new_name));
            },
            Err(e) => {
                self.message = Some(error_message_exec(&e));
            },
        }
        self.finish_refresh(listed);
        self.input_mode = InputMode::ThemeLoad;
    }

    /// After deleting `name`: the outcome and the new listing.
    pub fn finish_delete(&mut self, name: &str, result: Result<(), ConfigError>, listed: Result<Vec<String>, ConfigError>)
        ensures
            final(self).view() == old(self).view().after_delete(name@, unit_result(result), list_result(listed)),
    {
        match result {
            Ok(()) => {
                self.message = Some(String::from_str("✓ Deleted: ").concat(name));
            },
            Err(e) => {
                self.message = Some(error_message_exec(&e));
            },
        }
        self.finish_refresh(listed);
        self.input_mode = InputMode::ThemeLoad;
    }

    /// After selecting the saved theme `name` in the Zellij configuration.
    pub fn finish_apply_saved(&mut self, name: &str, result: Result<(), ConfigError>)
        ensures
            final(self).view() == old(self).view().after_apply_saved(name@, unit_result(result)),
    {
        match result {
            Ok(()) => {
                self.message = Some(
                    String::from_str("✓ Applied \"").concat(name).concat("\" — restart Zellij to see changes"),
                );
            },
            Err(e) => {
                self.message = Some(error_message_exec(&e));
            },
        }
    }
}

impl App {
    /// After a self-update: reports what was installed, that the running
    /// release is the latest, or why the update failed.
    pub fn finish_self_update(&mut self, result: Result<Option<String>, String>)
        ensures
            final(self).view() == old(self).view().after_self_update(match result {
                Ok(Some(t)) => Ok(Some(t@)),
                Ok(None) => Ok(None),
                Err(e) => Err(e@),
            }),
    {
        let m = match result {
            Ok(Some(tag)) => String::from_str("✓ Updated to ").concat(tag.as_str()).concat(" — restart to use it"),
            Ok(None) => String::from_str("Already up to date"),
            Err(e) => String::from_str("✗ Update failed: ").concat(e.as_str()),
        };
        self.message = Some(m);
    }
}

impl Default for App {
    /// The same state as `App::new`.
    fn default() -> (res: Self)
        ensures
            res.view().theme_name == "default"@,
            res.view().components == default_components(),
            res.view().theme_name_input == "default"@,
            res.view().selected_element == PreviewElement::TabSelected,
            res.view().selected_attribute == PreviewAttribute::Foreground,
            res.view().editing_attribute == PreviewAttribute::Foreground,
            !res.view().pending_apply,
            res.view().message is None,
            res.view().input_mode == InputMode::Preview,
            res.view().editor == editor_from_rgb(RgbColor { r: 200, g: 200, b: 200 }),
            res.view().original_component is None,
            res.view().loadable_themes.len() == 0,
            res.view().selected_theme_index == 0,
            !res.view().dirty,
            res.view().yanked is None,
            res.view().undo.len() == 0,
            res.view().all_themes.len() == 0,
            res.view().query.len() == 0,
            res.view().filter == ThemeFilter::All,
    {
        App::new()
    }
}

} // verus!
