//! The taskbar: shown or hidden, with a theme and an opacity.

use vstd::prelude::*;
use crate::error::{ErrorModel, ModuleError};
use crate::module::{Module, ShutdownReport, StartupReport};
use crate::settings::{SettingModel, SettingValue, Settings};

verus! {

/// How the search for the taskbar's window went.
#[derive(Debug, PartialEq, Eq)]
pub enum WindowLookup {
    /// The window is there.
    Found,
    /// The search ran and found no such window.
    Missing,
    /// The search itself failed; the text is the platform's.
    Failed(String),
}

/// What to do with the taskbar's window.
#[derive(Debug, Clone, Copy, PartialEq, Eq)]
pub enum TaskbarCommand {
    Show,
    Hide,
}

/// The state of the taskbar module.
pub struct TaskbarModel {
    pub enabled: bool,
    pub taskbar_visible: bool,
    pub theme: Seq<char>,
    pub opacity: u8,
}

impl TaskbarModel {
    /// The settings that the module reports.
    pub open spec fn settings(self) -> Map<Seq<char>, SettingModel> {
        Map::<Seq<char>, SettingModel>::empty().insert(
            "theme"@,
            SettingModel::Text(self.theme),
        ).insert("opacity"@, SettingModel::Unsigned(self.opacity as u64)).insert(
            "taskbar_visible"@,
            SettingModel::Bool(self.taskbar_visible),
        )
    }

    /// The state after `settings` were merged in: `theme` takes effect where
    /// its value is a text, and `opacity` where it is a non-negative integer,
    /// of which the lowest eight bits count.
    pub open spec fn after_update(self, settings: Map<Seq<char>, SettingModel>) -> TaskbarModel {
        TaskbarModel {
            theme: if settings.contains_key("theme"@) && settings["theme"@].as_str() is Some {
                settings["theme"@].as_str()->0
            } else {
                self.theme
            },
            opacity: if settings.contains_key("opacity"@) && settings["opacity"@].as_u64() is Some {
                settings["opacity"@].as_u64()->0 as u8
            } else {
                self.opacity
            },
            ..self
        }
    }
}

/// The taskbar module.
#[derive(Debug)]
pub struct TaskbarCustomizer {
    enabled: bool,
    taskbar_visible: bool,
    theme: String,
    opacity: u8,
}

impl View for TaskbarCustomizer {
    type V = TaskbarModel;

    closed spec fn view(&self) -> TaskbarModel {
        TaskbarModel {
            enabled: self.enabled,
            taskbar_visible: self.taskbar_visible,
            theme: self.theme@,
            opacity: self.opacity,
        }
    }
}

/// The three setting keys are different texts.
proof fn lemma_setting_keys_differ()
    ensures
        "theme"@ != "opacity"@,
        "theme"@ != "taskbar_visible"@,
        "opacity"@ != "taskbar_visible"@,
{
    reveal_strlit("theme");
    reveal_strlit("opacity");
    reveal_strlit("taskbar_visible");
    assert("theme"@.len() == 5);
    assert("opacity"@.len() == 7);
    assert("taskbar_visible"@.len() == 15);
}

impl TaskbarCustomizer {
    /// A module that is switched off, with a visible taskbar, the dark theme
    /// and full opacity.
    pub fn new() -> (r: TaskbarCustomizer)
        ensures
            r@ == (TaskbarModel {
                enabled: false,
                taskbar_visible: true,
                theme: "dark"@,
                opacity: 100,
            }),
    {
        TaskbarCustomizer {
            enabled: false,
            taskbar_visible: true,
            theme: String::from_str("dark"),
            opacity: 100,
        }
    }

    /// Turns the taskbar's visibility round. The new state is recorded even
    /// where the taskbar's window was not found, which is an `OsError`.
    pub fn toggle_taskbar(&mut self, taskbar: WindowLookup) -> (r: Result<
        TaskbarCommand,
        ModuleError,
    >)
        ensures
            final(self)@ == (TaskbarModel {
                taskbar_visible: !old(self)@.taskbar_visible,
                ..old(self)@
            }),
            lookup_result(taskbar, !old(self)@.taskbar_visible, r),
    {
        self.taskbar_visible = !self.taskbar_visible;
        let visible = self.taskbar_visible;
        self.set_taskbar_visibility(visible, taskbar)
    }

    /// Sets the taskbar's visibility. Where the taskbar's window was found,
    /// the new state is recorded and the command for the platform returned;
    /// where it was not, nothing changes and the error is an `OsError`.
    pub fn set_taskbar_visibility(&mut self, visible: bool, taskbar: WindowLookup) -> (r: Result<
        TaskbarCommand,
        ModuleError,
    >)
        ensures
            final(self)@ == (TaskbarModel {
                taskbar_visible: if taskbar is Found {
                    visible
                } else {
                    old(self)@.taskbar_visible
                },
                ..old(self)@
            }),
            lookup_result(taskbar, visible, r),
    {
        match taskbar {
            WindowLookup::Found => {
                self.taskbar_visible = visible;
                if visible {
                    Ok(TaskbarCommand::Show)
                } else {
                    Ok(TaskbarCommand::Hide)
                }
            },
            WindowLookup::Missing => Err(
                ModuleError::OsError(String::from_str("Taskbar window not found")),
            ),
            WindowLookup::Failed(text) => Err(ModuleError::OsError(text)),
        }
    }

    /// Whether the taskbar is visible, as far as this module has recorded it.
    pub fn is_taskbar_visible(&self) -> (r: bool)
        ensures
            r == self@.taskbar_visible,
    {
        self.taskbar_visible
    }
}

/// What setting the visibility returns for each way the search for the
/// taskbar's window can go.
pub open spec fn lookup_result(
    taskbar: WindowLookup,
    visible: bool,
    r: Result<TaskbarCommand, ModuleError>,
) -> bool {
    match taskbar {
        WindowLookup::Found => r == Ok::<TaskbarCommand, ModuleError>(
            if visible {
                TaskbarCommand::Show
            } else {
                TaskbarCommand::Hide
            },
        ),
        WindowLookup::Missing => r is Err && r->Err_0@ == ErrorModel::OsError(
            "Taskbar window not found"@,
        ),
        WindowLookup::Failed(text) => r is Err && r->Err_0@ == ErrorModel::OsError(text@),
    }
}

/// Settings under keys that the module does not take change nothing.
pub proof fn lemma_unknown_keys_change_nothing(
    state: TaskbarModel,
    settings: Map<Seq<char>, SettingModel>,
)
    requires
        !settings.contains_key("theme"@),
        !settings.contains_key("opacity"@),
    ensures
        state.after_update(settings) == state,
{
}

impl Module for TaskbarCustomizer {
    open spec fn module_name(&self) -> Seq<char> {
        "taskbar_customizer"@
    }

    open spec fn summary(&self) -> Seq<char> {
        "Hide/show elements, resize icons, theme selection"@
    }

    open spec fn enabled(&self) -> bool {
        self@.enabled
    }

    open spec fn settings(&self) -> Map<Seq<char>, SettingModel> {
        self@.settings()
    }

    fn name(&self) -> (r: &'static str) {
        "taskbar_customizer"
    }

    fn description(&self) -> (r: &'static str) {
        "Hide/show elements, resize icons, theme selection"
    }

    fn is_enabled(&self) -> (r: bool) {
        self.enabled
    }

    /// Switches the module on. Nothing else changes, and nothing fails.
    fn enable(&mut self, _report: StartupReport) -> (r: Result<(), ModuleError>)
        ensures
            r is Ok,
            final(self)@ == (TaskbarModel { enabled: true, ..old(self)@ }),
    {
        self.enabled = true;
        Ok(())
    }

    /// Switches the module off. Nothing else changes, and nothing fails.
    fn disable(&mut self, _report: ShutdownReport) -> (r: Result<(), ModuleError>)
        ensures
            r is Ok,
            final(self)@ == (TaskbarModel { enabled: false, ..old(self)@ }),
    {
        self.enabled = false;
        Ok(())
    }

    fn get_settings(&self) -> (r: Settings) {
        let mut settings = Settings::new();
        settings.insert(String::from_str("theme"), SettingValue::Text(self.theme.clone()));
        settings.insert(String::from_str("opacity"), SettingValue::Unsigned(self.opacity as u64));
        settings.insert(
            String::from_str("taskbar_visible"),
            SettingValue::Bool(self.taskbar_visible),
        );
        settings
    }

    /// Merges `settings` in; see `TaskbarModel::after_update`.
    fn update_settings(&mut self, settings: Settings) -> (r: Result<(), ModuleError>)
        ensures
            final(self)@ == old(self)@.after_update(settings@),
    {
        proof {
            lemma_setting_keys_differ();
        }
        match settings.get("theme") {
            Some(value) => {
                match value.as_str() {
                    Some(text) => {
                        self.theme = text.clone();
                    },
                    None => {},
                }
            },
            None => {},
        }
        match settings.get("opacity") {
            Some(value) => {
                match value.as_u64() {
                    Some(n) => {
                        self.opacity = n as u8;
                    },
                    None => {},
                }
            },
            None => {},
        }
        proof {
            let before = old(self)@.settings();
            let after = self@.settings();
            assert forall|key: Seq<char>| !settings@.contains_key(key) implies (
            #[trigger] after.contains_key(key) <==> before.contains_key(key)) by {}
            assert forall|key: Seq<char>|
                !settings@.contains_key(key) && before.contains_key(key) implies #[trigger] after[key]
                == before[key] by {}
        }
        Ok(())
    }
}

} // verus!
