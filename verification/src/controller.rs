//! What the controller decides: what is to be done at startup, and what on
//! each thing that happens afterwards.
//!
//! The controller touches neither the window system nor the disk. It is
//! handed what happened as an [`Event`] and answers with the [`Effect`]s that
//! the application is to carry out, in their order. The theme registry is
//! known to it by the names of its themes.

use vstd::prelude::*;
use vstd::string::*;
use crate::json::json_text;
use crate::paths::{child_of, state_file, themes_dir, PathSet};
use crate::state::{load, loaded, members_of, PersistedState, PersistedStateView, ScrollbarShow};
use crate::text::{contains_name, names_view, text_view};

verus! {

/// The colour mode of the application.
#[derive(Debug, Clone, Copy, PartialEq, Eq, Structural)]
pub enum ThemeMode {
    Light,
    Dark,
}

/// The action that asks for the theme of the given name.
#[derive(Debug, Clone, PartialEq, Eq)]
pub struct SwitchTheme(pub String);

/// The action that asks for the given colour mode.
#[derive(Debug, Clone, Copy, PartialEq, Eq, Structural)]
pub struct SwitchThemeMode(pub ThemeMode);

/// One thing that the application is to do.
#[derive(Debug, Clone, PartialEq, Eq)]
pub enum Effect {
    /// Have the theme registry watch this directory of theme files, and
    /// report each reload as [`Event::RegistryReloaded`].
    WatchThemes(String),
    /// Apply the registry's theme of this name to the global theme.
    ApplyTheme(String),
    /// Write this scrollbar preference onto the global theme.
    SetScrollbarShow(ScrollbarShow),
    /// Change the colour mode, with no further argument.
    ChangeMode(ThemeMode),
    /// Refresh all open windows.
    RefreshWindows,
    /// Observe the global theme for as long as the application runs, and
    /// report each change as [`Event::ThemeChanged`].
    ObserveTheme,
    /// Register the handlers of the two actions, which report them as
    /// [`Event::SwitchTheme`] and [`Event::SwitchThemeMode`].
    HandleActions,
    /// Write `text` to the file at `path`, in place of what it held, and pass
    /// over a failure.
    WriteState { path: String, text: String },
    /// Log this message as an error.
    LogError(String),
}

/// The mathematical value of an [`Effect`].
pub enum EffectView {
    WatchThemes(Seq<char>),
    ApplyTheme(Seq<char>),
    SetScrollbarShow(ScrollbarShow),
    ChangeMode(ThemeMode),
    RefreshWindows,
    ObserveTheme,
    HandleActions,
    WriteState { path: Seq<char>, text: Seq<char> },
    LogError(Seq<char>),
}

impl View for Effect {
    type V = EffectView;

    open spec fn view(&self) -> EffectView {
        match *self {
            Effect::WatchThemes(dir) => EffectView::WatchThemes(dir@),
            Effect::ApplyTheme(name) => EffectView::ApplyTheme(name@),
            Effect::SetScrollbarShow(show) => EffectView::SetScrollbarShow(show),
            Effect::ChangeMode(mode) => EffectView::ChangeMode(mode),
            Effect::RefreshWindows => EffectView::RefreshWindows,
            Effect::ObserveTheme => EffectView::ObserveTheme,
            Effect::HandleActions => EffectView::HandleActions,
            Effect::WriteState { path, text } => EffectView::WriteState { path: path@, text: text@ },
            Effect::LogError(message) => EffectView::LogError(message@),
        }
    }
}

/// The effects of a list, each by its view.
pub open spec fn effects_view(effects: Seq<Effect>) -> Seq<EffectView> {
    Seq::new(effects.len(), |i: int| effects[i]@)
}

/// One thing that happened.
#[derive(Debug, Clone, PartialEq, Eq)]
pub enum Event {
    /// The theme registry has reloaded; `themes` are the names it now knows.
    RegistryReloaded { themes: Vec<String> },
    /// The global theme has changed; these are its name and its scrollbar
    /// setting now.
    ThemeChanged { theme: String, scrollbar_show: ScrollbarShow },
    /// The user asked for a theme; `themes` are the names that the registry
    /// knows.
    SwitchTheme { action: SwitchTheme, themes: Vec<String> },
    /// The user asked for a colour mode.
    SwitchThemeMode(SwitchThemeMode),
    /// The directory of theme files could not be watched.
    WatchFailed(String),
}

/// The mathematical value of an [`Event`].
pub enum EventView {
    RegistryReloaded { themes: Seq<Seq<char>> },
    ThemeChanged { theme: Seq<char>, scrollbar_show: ScrollbarShow },
    SwitchTheme { name: Seq<char>, themes: Seq<Seq<char>> },
    SwitchThemeMode(ThemeMode),
    WatchFailed(Seq<char>),
}

impl View for Event {
    type V = EventView;

    open spec fn view(&self) -> EventView {
        match *self {
            Event::RegistryReloaded { themes } => EventView::RegistryReloaded {
                themes: names_view(themes@),
            },
            Event::ThemeChanged { theme, scrollbar_show } => EventView::ThemeChanged {
                theme: theme@,
                scrollbar_show,
            },
            Event::SwitchTheme { action, themes } => EventView::SwitchTheme {
                name: action.0@,
                themes: names_view(themes@),
            },
            Event::SwitchThemeMode(action) => EventView::SwitchThemeMode(action.0),
            Event::WatchFailed(reason) => EventView::WatchFailed(reason@),
        }
    }
}

/// What the controller keeps for as long as the application runs.
#[derive(Debug, Clone, PartialEq, Eq)]
pub struct Controller {
    /// The directory of the state file.
    pub config_dir: String,
    /// The selection that was loaded at startup.
    pub saved: PersistedState,
}

/// The mathematical value of a [`Controller`].
pub struct ControllerView {
    pub config_dir: Seq<char>,
    pub saved: PersistedStateView,
}

impl View for Controller {
    type V = ControllerView;

    open spec fn view(&self) -> ControllerView {
        ControllerView { config_dir: self.config_dir@, saved: self.saved@ }
    }
}

/// What is done at startup, in this order: the directory of theme files is
/// watched; a saved scrollbar preference is written onto the global theme;
/// the windows are refreshed; the observer of the global theme and the
/// handlers of the two actions are installed.
pub open spec fn startup_effects(data_dir: Seq<char>, saved: PersistedStateView) -> Seq<EffectView> {
    seq![EffectView::WatchThemes(child_of(data_dir, "themes"@))] + match saved.scrollbar_show {
        Some(show) => seq![EffectView::SetScrollbarShow(show)],
        None => seq![],
    } + seq![EffectView::RefreshWindows, EffectView::ObserveTheme, EffectView::HandleActions]
}

/// What is done after a reload of the registry: the saved theme is applied
/// anew if the registry knows it, else nothing.
pub open spec fn reload_effects(saved_theme: Seq<char>, themes: Seq<Seq<char>>) -> Seq<EffectView> {
    if themes.contains(saved_theme) {
        seq![EffectView::ApplyTheme(saved_theme)]
    } else {
        seq![]
    }
}

/// What is done when the user asks for a theme: it is applied and the
/// windows are refreshed if the registry knows it, else nothing.
pub open spec fn switch_effects(name: Seq<char>, themes: Seq<Seq<char>>) -> Seq<EffectView> {
    if themes.contains(name) {
        seq![EffectView::ApplyTheme(name), EffectView::RefreshWindows]
    } else {
        seq![]
    }
}

/// What is done when the user asks for a colour mode.
pub open spec fn mode_effects(mode: ThemeMode) -> Seq<EffectView> {
    seq![EffectView::ChangeMode(mode), EffectView::RefreshWindows]
}

/// The record that is saved when the global theme is seen with this name and
/// this scrollbar setting. The setting always goes into the record.
pub open spec fn observed_state(theme: Seq<char>, scrollbar_show: ScrollbarShow) -> PersistedStateView {
    PersistedStateView { theme, scrollbar_show: Some(scrollbar_show) }
}

/// What is done with the text that was printed for a record: it goes to the
/// state file of the directory; where printing failed, nothing is done.
pub open spec fn write_effects(config_dir: Seq<char>, printed: Option<Seq<char>>) -> Seq<EffectView> {
    match printed {
        Some(text) => seq![
            EffectView::WriteState { path: child_of(config_dir, "state.json"@), text },
        ],
        None => seq![],
    }
}

/// What is done to save a record.
pub open spec fn save_effects(config_dir: Seq<char>, state: PersistedStateView) -> Seq<EffectView> {
    write_effects(config_dir, json_text(members_of(state)))
}

/// What is done when the directory of theme files could not be watched: the
/// failure is logged, and nothing else changes.
pub open spec fn failure_effects(reason: Seq<char>) -> Seq<EffectView> {
    seq![EffectView::LogError("Failed to watch themes directory: "@ + reason)]
}

/// What is done on an event.
pub open spec fn effects_of(controller: ControllerView, event: EventView) -> Seq<EffectView> {
    match event {
        EventView::RegistryReloaded { themes } => reload_effects(controller.saved.theme, themes),
        EventView::ThemeChanged { theme, scrollbar_show } => save_effects(
            controller.config_dir,
            observed_state(theme, scrollbar_show),
        ),
        EventView::SwitchTheme { name, themes } => switch_effects(name, themes),
        EventView::SwitchThemeMode(mode) => mode_effects(mode),
        EventView::WatchFailed(reason) => failure_effects(reason),
    }
}

/// One watcher and no more: startup asks for the watcher first and once, and
/// nothing that happens afterwards asks for another.
pub proof fn lemma_one_watcher(
    data_dir: Seq<char>,
    saved: PersistedStateView,
    controller: ControllerView,
    event: EventView,
)
    ensures
        startup_effects(data_dir, saved)[0] is WatchThemes,
        forall|i: int|
            1 <= i < startup_effects(data_dir, saved).len() ==> !(#[trigger] startup_effects(
                data_dir,
                saved,
            )[i] is WatchThemes),
        forall|i: int|
            0 <= i < effects_of(controller, event).len() ==> !(#[trigger] effects_of(
                controller,
                event,
            )[i] is WatchThemes),
{
}

/// Startup itself writes nothing to the state file, and touches the
/// scrollbar setting only where a preference was saved.
pub proof fn lemma_startup_is_quiet(data_dir: Seq<char>, saved: PersistedStateView)
    ensures
        forall|i: int|
            0 <= i < startup_effects(data_dir, saved).len() ==> !(#[trigger] startup_effects(
                data_dir,
                saved,
            )[i] is WriteState),
        saved.scrollbar_show is None ==> forall|i: int|
            0 <= i < startup_effects(data_dir, saved).len() ==> !(#[trigger] startup_effects(
                data_dir,
                saved,
            )[i] is SetScrollbarShow),
        saved.scrollbar_show matches Some(show) ==> startup_effects(data_dir, saved)[1]
            == EffectView::SetScrollbarShow(show),
{
}

/// A theme that the registry does not know changes nothing: neither a
/// request for it nor a reload applies a theme.
pub proof fn lemma_unknown_theme_changes_nothing(
    controller: ControllerView,
    name: Seq<char>,
    themes: Seq<Seq<char>>,
)
    requires
        !themes.contains(name),
    ensures
        effects_of(controller, EventView::SwitchTheme { name, themes }) == Seq::<EffectView>::empty(),
        controller.saved.theme == name ==> effects_of(
            controller,
            EventView::RegistryReloaded { themes },
        ) == Seq::<EffectView>::empty(),
{
}

/// Starts the controller. `paths` are the two directories, `file` is the
/// text of the state file, or `None` where it could not be read. Hands out
/// the controller, which holds the selection that was loaded, and what the
/// application is to do now.
pub fn init(paths: &PathSet, file: Option<String>) -> (started: (Controller, Vec<Effect>))
    ensures
        started.0@ == (ControllerView {
            config_dir: paths.config_dir@,
            saved: loaded(text_view(file)),
        }),
        effects_view(started.1@) == startup_effects(paths.data_dir@, loaded(text_view(file))),
{
    let saved = load(file);
    let mut effects: Vec<Effect> = Vec::new();
    effects.push(Effect::WatchThemes(themes_dir(paths.data_dir.as_str())));
    if let Some(show) = saved.scrollbar_show {
        effects.push(Effect::SetScrollbarShow(show));
    }
    effects.push(Effect::RefreshWindows);
    effects.push(Effect::ObserveTheme);
    effects.push(Effect::HandleActions);
    assert(effects_view(effects@) =~= startup_effects(paths.data_dir@, saved@));
    (Controller { config_dir: paths.config_dir.clone(), saved }, effects)
}

/// Decides what to do with the text that was printed for a record.
pub fn write_state(config_dir: &str, printed: Option<String>) -> (effects: Vec<Effect>)
    ensures
        effects_view(effects@) == write_effects(config_dir@, text_view(printed)),
{
    let mut effects: Vec<Effect> = Vec::new();
    if let Some(text) = printed {
        effects.push(Effect::WriteState { path: state_file(config_dir), text });
    }
    assert(effects_view(effects@) =~= write_effects(config_dir@, text_view(printed)));
    effects
}

/// Saves a record: prints it, and has the text written to the state file of
/// `config_dir`.
pub fn save(config_dir: &str, state: &PersistedState) -> (effects: Vec<Effect>)
    ensures
        effects_view(effects@) == save_effects(config_dir@, state@),
        effects@.len() == 1,
        effects@[0] is WriteState,
{
    let printed = state.encode();
    let effects = write_state(config_dir, printed);
    assert(effects_view(effects@).len() == 1);
    assert(effects_view(effects@)[0] is WriteState);
    effects
}

impl Controller {
    /// The registry has reloaded: the theme that was saved at startup is
    /// applied anew if the registry knows it now.
    pub fn on_registry_reloaded(&self, themes: &Vec<String>) -> (effects: Vec<Effect>)
        ensures
            effects_view(effects@) == reload_effects(self.saved.theme@, names_view(themes@)),
    {
        let mut effects: Vec<Effect> = Vec::new();
        if contains_name(themes, self.saved.theme.as_str()) {
            effects.push(Effect::ApplyTheme(self.saved.theme.clone()));
        }
        assert(effects_view(effects@) =~= reload_effects(self.saved.theme@, names_view(themes@)));
        effects
    }

    /// The global theme has changed: its name and its scrollbar setting are
    /// saved.
    pub fn on_theme_changed(&self, theme: &str, scrollbar_show: ScrollbarShow) -> (effects: Vec<
        Effect,
    >)
        ensures
            effects_view(effects@) == save_effects(
                self.config_dir@,
                observed_state(theme@, scrollbar_show),
            ),
            effects@.len() == 1,
            effects@[0] is WriteState,
    {
        let state = PersistedState {
            theme: String::from_str(theme),
            scrollbar_show: Some(scrollbar_show),
        };
        save(self.config_dir.as_str(), &state)
    }

    /// The user asked for a theme: it is applied if the registry knows it.
    /// A name that the registry does not know changes nothing.
    pub fn on_switch_theme(action: &SwitchTheme, themes: &Vec<String>) -> (effects: Vec<Effect>)
        ensures
            effects_view(effects@) == switch_effects(action.0@, names_view(themes@)),
    {
        let mut effects: Vec<Effect> = Vec::new();
        if contains_name(themes, action.0.as_str()) {
            effects.push(Effect::ApplyTheme(action.0.clone()));
            effects.push(Effect::RefreshWindows);
        }
        assert(effects_view(effects@) =~= switch_effects(action.0@, names_view(themes@)));
        effects
    }

    /// The user asked for a colour mode.
    pub fn on_switch_theme_mode(action: &SwitchThemeMode) -> (effects: Vec<Effect>)
        ensures
            effects_view(effects@) == mode_effects(action.0),
    {
        let mut effects: Vec<Effect> = Vec::new();
        effects.push(Effect::ChangeMode(action.0));
        effects.push(Effect::RefreshWindows);
        assert(effects_view(effects@) =~= mode_effects(action.0));
        effects
    }

    /// The directory of theme files could not be watched: this is logged, and
    /// the application goes on without reloads.
    pub fn on_watch_failed(reason: &str) -> (effects: Vec<Effect>)
        ensures
            effects_view(effects@) == failure_effects(reason@),
    {
        let mut message = String::from_str("Failed to watch themes directory: ");
        message.append(reason);
        let mut effects: Vec<Effect> = Vec::new();
        effects.push(Effect::LogError(message));
        assert(effects_view(effects@) =~= failure_effects(reason@));
        effects
    }

    /// Decides what to do on an event.
    pub fn handle(&self, event: &Event) -> (effects: Vec<Effect>)
        ensures
            effects_view(effects@) == effects_of(self@, event@),
    {
        match event {
            Event::RegistryReloaded { themes } => self.on_registry_reloaded(themes),
            Event::ThemeChanged { theme, scrollbar_show } => self.on_theme_changed(
                theme.as_str(),
                *scrollbar_show,
            ),
            Event::SwitchTheme { action, themes } => Controller::on_switch_theme(action, themes),
            Event::SwitchThemeMode(action) => Controller::on_switch_theme_mode(action),
            Event::WatchFailed(reason) => Controller::on_watch_failed(reason.as_str()),
        }
    }
}

} // verus!
