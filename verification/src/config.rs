//! The configuration document: which modules are switched on, their settings,
//! and two choices of the user interface.

use vstd::prelude::*;
use crate::settings::{SettingModel, SettingValue, Settings};

verus! {

/// The state and settings of one module, as configured.
#[derive(Debug)]
pub struct ModuleConfig {
    pub enabled: bool,
    pub settings: Settings,
}

/// The choices of the user interface.
#[derive(Debug, PartialEq, Eq)]
pub struct UiConfig {
    pub theme: String,
    pub start_minimized: bool,
}

/// The configuration of every module.
#[derive(Debug)]
pub struct ModulesConfig {
    pub dynamic_split: ModuleConfig,
    pub taskbar_customizer: ModuleConfig,
    pub mouse_action_mapper: ModuleConfig,
    pub process_controller: ModuleConfig,
    pub clipboard_history: ModuleConfig,
}

/// The whole configuration.
#[derive(Debug)]
pub struct WinShaperConfig {
    pub modules: ModulesConfig,
    pub ui: UiConfig,
}

/// What a `ModuleConfig` stands for.
pub struct ModuleConfigModel {
    pub enabled: bool,
    pub settings: Map<Seq<char>, SettingModel>,
}

/// What a `UiConfig` stands for.
pub struct UiConfigModel {
    pub theme: Seq<char>,
    pub start_minimized: bool,
}

/// What a `ModulesConfig` stands for.
pub struct ModulesConfigModel {
    pub dynamic_split: ModuleConfigModel,
    pub taskbar_customizer: ModuleConfigModel,
    pub mouse_action_mapper: ModuleConfigModel,
    pub process_controller: ModuleConfigModel,
    pub clipboard_history: ModuleConfigModel,
}

/// What a `WinShaperConfig` stands for.
pub struct ConfigModel {
    pub modules: ModulesConfigModel,
    pub ui: UiConfigModel,
}

impl View for ModuleConfig {
    type V = ModuleConfigModel;

    open spec fn view(&self) -> ModuleConfigModel {
        ModuleConfigModel { enabled: self.enabled, settings: self.settings@ }
    }
}

impl View for UiConfig {
    type V = UiConfigModel;

    open spec fn view(&self) -> UiConfigModel {
        UiConfigModel { theme: self.theme@, start_minimized: self.start_minimized }
    }
}

impl View for ModulesConfig {
    type V = ModulesConfigModel;

    open spec fn view(&self) -> ModulesConfigModel {
        ModulesConfigModel {
            dynamic_split: self.dynamic_split@,
            taskbar_customizer: self.taskbar_customizer@,
            mouse_action_mapper: self.mouse_action_mapper@,
            process_controller: self.process_controller@,
            clipboard_history: self.clipboard_history@,
        }
    }
}

impl View for WinShaperConfig {
    type V = ConfigModel;

    open spec fn view(&self) -> ConfigModel {
        ConfigModel { modules: self.modules@, ui: self.ui@ }
    }
}

/// A module that is switched off, with the given settings.
pub open spec fn switched_off(settings: Map<Seq<char>, SettingModel>) -> ModuleConfigModel {
    ModuleConfigModel { enabled: false, settings }
}

/// The configuration of a first run: every module is switched off and has
/// its usual settings, and the interface is dark and starts minimized.
pub open spec fn default_config() -> ConfigModel {
    let none = Map::<Seq<char>, SettingModel>::empty();
    ConfigModel {
        modules: ModulesConfigModel {
            dynamic_split: switched_off(
                none.insert(
                    "layouts"@,
                    SettingModel::List(
                        seq![SettingModel::Text("60-40"@), SettingModel::Text("50-50"@)],
                    ),
                ),
            ),
            taskbar_customizer: switched_off(
                none.insert("theme"@, SettingModel::Text("dark"@)).insert(
                    "opacity"@,
                    SettingModel::Unsigned(100),
                ),
            ),
            mouse_action_mapper: switched_off(
                none.insert("sensitivity"@, SettingModel::Unsigned(50)),
            ),
            process_controller: switched_off(
                none.insert("threshold_cpu"@, SettingModel::Unsigned(80)).insert(
                    "threshold_ram"@,
                    SettingModel::Unsigned(1024),
                ),
            ),
            clipboard_history: switched_off(
                none.insert("max_items"@, SettingModel::Unsigned(200)).insert(
                    "expiry_days"@,
                    SettingModel::Unsigned(30),
                ),
            ),
        },
        ui: UiConfigModel { theme: "dark"@, start_minimized: true },
    }
}

/// A module that is switched off, with the given settings.
fn off(settings: Settings) -> (r: ModuleConfig)
    ensures
        r@ == switched_off(settings@),
{
    ModuleConfig { enabled: false, settings }
}

impl Default for WinShaperConfig {
    fn default() -> (r: WinShaperConfig)
        ensures
            r@ == default_config(),
    {
        let mut layouts: Vec<SettingValue> = Vec::new();
        layouts.push(SettingValue::Text(String::from_str("60-40")));
        layouts.push(SettingValue::Text(String::from_str("50-50")));
        assert(layouts@[0]@ == SettingModel::Text("60-40"@));
        assert(layouts@[1]@ == SettingModel::Text("50-50"@));
        let layout_list = SettingValue::List(layouts);
        assert(layout_list@->List_0 =~= seq![
            SettingModel::Text("60-40"@),
            SettingModel::Text("50-50"@),
        ]);
        let mut dynamic_split = Settings::new();
        dynamic_split.insert(String::from_str("layouts"), layout_list);

        let mut taskbar = Settings::new();
        taskbar.insert(String::from_str("theme"), SettingValue::Text(String::from_str("dark")));
        taskbar.insert(String::from_str("opacity"), SettingValue::Unsigned(100));

        let mut mouse = Settings::new();
        mouse.insert(String::from_str("sensitivity"), SettingValue::Unsigned(50));

        let mut process = Settings::new();
        process.insert(String::from_str("threshold_cpu"), SettingValue::Unsigned(80));
        process.insert(String::from_str("threshold_ram"), SettingValue::Unsigned(1024));

        let mut clipboard = Settings::new();
        clipboard.insert(String::from_str("max_items"), SettingValue::Unsigned(200));
        clipboard.insert(String::from_str("expiry_days"), SettingValue::Unsigned(30));

        WinShaperConfig {
            modules: ModulesConfig {
                dynamic_split: off(dynamic_split),
                taskbar_customizer: off(taskbar),
                mouse_action_mapper: off(mouse),
                process_controller: off(process),
                clipboard_history: off(clipboard),
            },
            ui: UiConfig { theme: String::from_str("dark"), start_minimized: true },
        }
    }
}

/// What was found where the configuration is kept.
#[derive(Debug)]
pub enum StoredConfig {
    /// There is no place to keep a configuration; the text says why.
    NoLocation(String),
    /// Nothing has been stored yet.
    Absent,
    /// Something is stored, but it could not be read or understood.
    Unreadable,
    /// The stored configuration.
    Loaded(WinShaperConfig),
}

/// The configuration to start with: the stored one, or that of a first run
/// where nothing usable is stored. Only a missing place to keep it is an
/// error.
pub fn load_config(stored: StoredConfig) -> (r: Result<WinShaperConfig, String>)
    ensures
        match stored {
            StoredConfig::NoLocation(why) => r is Err && r->Err_0@
                == "Failed to get config path: "@ + why@,
            StoredConfig::Loaded(config) => r is Ok && r->Ok_0@ == config@,
            _ => r is Ok && r->Ok_0@ == default_config(),
        },
{
    match stored {
        StoredConfig::NoLocation(why) => Err(
            String::from_str("Failed to get config path: ").concat(why.as_str()),
        ),
        StoredConfig::Loaded(config) => Ok(config),
        _ => Ok(WinShaperConfig::default()),
    }
}

/// How storing the configuration went.
#[derive(Debug, PartialEq, Eq)]
pub enum SaveOutcome {
    /// It is stored.
    Saved,
    /// There is no place to keep a configuration.
    NoLocation(String),
    /// The configuration could not be put into its stored form.
    NotSerialized(String),
    /// The stored form could not be written.
    NotWritten(String),
}

/// The result of storing the configuration, with the error as a line of text.
pub fn save_config(outcome: SaveOutcome) -> (r: Result<(), String>)
    ensures
        match outcome {
            SaveOutcome::Saved => r is Ok,
            SaveOutcome::NoLocation(why) => r is Err && r->Err_0@
                == "Failed to get config path: "@ + why@,
            SaveOutcome::NotSerialized(why) => r is Err && r->Err_0@
                == "Failed to serialize config: "@ + why@,
            SaveOutcome::NotWritten(why) => r is Err && r->Err_0@
                == "Failed to write config file: "@ + why@,
        },
{
    match outcome {
        SaveOutcome::Saved => Ok(()),
        SaveOutcome::NoLocation(why) => Err(
            String::from_str("Failed to get config path: ").concat(why.as_str()),
        ),
        SaveOutcome::NotSerialized(why) => Err(
            String::from_str("Failed to serialize config: ").concat(why.as_str()),
        ),
        SaveOutcome::NotWritten(why) => Err(
            String::from_str("Failed to write config file: ").concat(why.as_str()),
        ),
    }
}

} // verus!
