//! Actions that a click or gesture can stand for: a screenshot, or the launch
//! of an application.

use vstd::prelude::*;
use crate::error::{ErrorModel, ModuleError};
use crate::module::{Module, ShutdownReport, StartupReport};
use crate::settings::{SettingModel, Settings};
use crate::text::{lowercase_of, str_eq, string_views, to_lowercase};

verus! {

/// An action that a click or gesture can be mapped to.
#[derive(Debug, PartialEq, Eq)]
pub enum ActionType {
    Screenshot,
    LaunchApp(String),
    WindowLayout(String),
}

/// A key of the keyboard that the module asks the platform to work.
#[derive(Debug, Clone, Copy, PartialEq, Eq)]
pub enum Key {
    PrintScreen,
}

/// One movement of a key: down or up.
#[derive(Debug, Clone, Copy, PartialEq, Eq)]
pub struct KeyStroke {
    pub key: Key,
    /// Whether the key goes down; it goes up otherwise.
    pub pressed: bool,
}

/// The command that a lowercase name stands for: the short names of five
/// applications stand for their programs, and nothing else is a short name.
pub open spec fn known_command(lowered: Seq<char>) -> Option<Seq<char>> {
    if lowered == "notepad"@ {
        Some("notepad.exe"@)
    } else if lowered == "calculator"@ || lowered == "calc"@ {
        Some("calc.exe"@)
    } else if lowered == "explorer"@ {
        Some("explorer.exe"@)
    } else if lowered == "cmd"@ {
        Some("cmd.exe"@)
    } else if lowered == "powershell"@ {
        Some("powershell.exe"@)
    } else {
        None
    }
}

/// The command to run for `app_path`, whose lowercase form is `lowered`: the
/// program that a short name stands for, or `app_path` as it was given.
pub open spec fn command_for(app_path: Seq<char>, lowered: Seq<char>) -> Seq<char> {
    match known_command(lowered) {
        Some(command) => command,
        None => app_path,
    }
}

/// The command to run for `app_path`, whose lowercase form is `lowered`.
pub fn resolve_command(app_path: &str, lowered: &str) -> (r: String)
    ensures
        r@ == command_for(app_path@, lowered@),
{
    if str_eq(lowered, "notepad") {
        String::from_str("notepad.exe")
    } else if str_eq(lowered, "calculator") || str_eq(lowered, "calc") {
        String::from_str("calc.exe")
    } else if str_eq(lowered, "explorer") {
        String::from_str("explorer.exe")
    } else if str_eq(lowered, "cmd") {
        String::from_str("cmd.exe")
    } else if str_eq(lowered, "powershell") {
        String::from_str("powershell.exe")
    } else {
        app_path.to_owned()
    }
}

/// The mouse action module.
#[derive(Debug)]
pub struct MouseActionMapper {
    enabled: bool,
    settings: Settings,
}

/// The state of the mouse action module.
pub struct MapperModel {
    pub enabled: bool,
    pub settings: Map<Seq<char>, SettingModel>,
}

impl View for MouseActionMapper {
    type V = MapperModel;

    closed spec fn view(&self) -> MapperModel {
        MapperModel { enabled: self.enabled, settings: self.settings@ }
    }
}

/// The names of the actions on offer.
pub open spec fn available_actions() -> Seq<Seq<char>> {
    seq!["screenshot"@, "notepad"@, "calculator"@, "explorer"@]
}

impl MouseActionMapper {
    /// A module that is switched off and has no settings.
    pub fn new() -> (r: MouseActionMapper)
        ensures
            r@ == (MapperModel { enabled: false, settings: Map::empty() }),
    {
        MouseActionMapper { enabled: false, settings: Settings::new() }
    }

    /// The key strokes that take a screenshot: the print-screen key goes down
    /// and up again. They are for the platform to carry out.
    pub fn take_screenshot(&self) -> (r: Result<Vec<KeyStroke>, ModuleError>)
        ensures
            r matches Ok(strokes) && strokes@ == seq![
                KeyStroke { key: Key::PrintScreen, pressed: true },
                KeyStroke { key: Key::PrintScreen, pressed: false },
            ],
    {
        let mut strokes: Vec<KeyStroke> = Vec::new();
        strokes.push(KeyStroke { key: Key::PrintScreen, pressed: true });
        strokes.push(KeyStroke { key: Key::PrintScreen, pressed: false });
        assert(strokes@ =~= seq![
            KeyStroke { key: Key::PrintScreen, pressed: true },
            KeyStroke { key: Key::PrintScreen, pressed: false },
        ]);
        Ok(strokes)
    }

    /// The command to start for `app_path`: the program that a short name
    /// stands for, letter case aside, or `app_path` itself. Starting it is
    /// for the platform; where that fails, `launch_failed` gives the error.
    pub fn launch_app(&self, app_path: &str) -> (r: Result<String, ModuleError>)
        ensures
            r matches Ok(command) && command@ == command_for(app_path@, lowercase_of(app_path@)),
    {
        let lowered = to_lowercase(app_path);
        Ok(resolve_command(app_path, lowered.as_str()))
    }

    /// The error for an application that could not be started.
    pub fn launch_failed(reason: &str) -> (r: ModuleError)
        ensures
            r@ == ErrorModel::OsError("Failed to launch app: "@ + reason@),
    {
        ModuleError::OsError(String::from_str("Failed to launch app: ").concat(reason))
    }

    /// The names of the actions on offer.
    pub fn get_available_actions(&self) -> (r: Vec<String>)
        ensures
            string_views(r@) == available_actions(),
    {
        let mut actions: Vec<String> = Vec::new();
        actions.push(String::from_str("screenshot"));
        actions.push(String::from_str("notepad"));
        actions.push(String::from_str("calculator"));
        actions.push(String::from_str("explorer"));
        assert(string_views(actions@) =~= available_actions());
        actions
    }
}

impl Module for MouseActionMapper {
    open spec fn module_name(&self) -> Seq<char> {
        "mouse_action_mapper"@
    }

    open spec fn summary(&self) -> Seq<char> {
        "Map clicks/gestures to actions (screenshots, app launch)"@
    }

    open spec fn enabled(&self) -> bool {
        self@.enabled
    }

    open spec fn settings(&self) -> Map<Seq<char>, SettingModel> {
        self@.settings
    }

    fn name(&self) -> (r: &'static str) {
        "mouse_action_mapper"
    }

    fn description(&self) -> (r: &'static str) {
        "Map clicks/gestures to actions (screenshots, app launch)"
    }

    fn is_enabled(&self) -> (r: bool) {
        self.enabled
    }

    /// Switches the module on. Nothing else changes, and nothing fails.
    fn enable(&mut self, _report: StartupReport) -> (r: Result<(), ModuleError>)
        ensures
            r is Ok,
            final(self)@ == (MapperModel { enabled: true, ..old(self)@ }),
    {
        self.enabled = true;
        Ok(())
    }

    /// Switches the module off. Nothing else changes, and nothing fails.
    fn disable(&mut self, _report: ShutdownReport) -> (r: Result<(), ModuleError>)
        ensures
            r is Ok,
            final(self)@ == (MapperModel { enabled: false, ..old(self)@ }),
    {
        self.enabled = false;
        Ok(())
    }

    fn get_settings(&self) -> (r: Settings) {
        self.settings.duplicate()
    }

    /// Merges `settings` in: the module keeps whatever it is given, key by key.
    fn update_settings(&mut self, settings: Settings) -> (r: Result<(), ModuleError>)
        ensures
            final(self)@ == (MapperModel {
                settings: old(self)@.settings.union_prefer_right(settings@),
                ..old(self)@
            }),
    {
        self.settings.merge(&settings);
        Ok(())
    }
}

} // verus!
