//! What every feature module offers: a name, a switch and settings.

use vstd::prelude::*;
use crate::clipboard_history::ClipboardItem;
use crate::error::{ModuleError, OsOutcome};
use crate::settings::{SettingModel, Settings};

verus! {

/// What was found where the clipboard history is kept between runs.
#[derive(Debug, PartialEq, Eq)]
pub enum StoredHistory {
    /// Nothing has been stored yet.
    Absent,
    /// The stored items, newest first.
    Loaded(Vec<ClipboardItem>),
    /// Something is stored, but it could not be read or understood.
    Unreadable(String),
}

/// What the platform layer did before a module is switched on.
#[derive(Debug, PartialEq, Eq)]
pub struct StartupReport {
    /// The clipboard history found in storage.
    pub stored_history: StoredHistory,
    /// Whether a handle to the system clipboard could be had.
    pub clipboard: OsOutcome,
}

/// What the platform layer did before a module is switched off.
#[derive(Debug, PartialEq, Eq)]
pub struct ShutdownReport {
    /// Whether the clipboard history could be written to storage.
    pub history_saved: OsOutcome,
}

/// A feature module. Modules talk to no platform API themselves: the platform
/// layer does, before or after a call, and says in a report how that went.
pub trait Module {
    /// The name under which the module is registered.
    spec fn module_name(&self) -> Seq<char>;

    /// What the module is for, in a line.
    spec fn summary(&self) -> Seq<char>;

    /// Whether the module is switched on.
    spec fn enabled(&self) -> bool;

    /// The settings that the module reports.
    spec fn settings(&self) -> Map<Seq<char>, SettingModel>;

    fn name(&self) -> (r: &'static str)
        ensures
            r@ == self.module_name(),
    ;

    fn description(&self) -> (r: &'static str)
        ensures
            r@ == self.summary(),
    ;

    fn is_enabled(&self) -> (r: bool)
        ensures
            r == self.enabled(),
    ;

    /// Switches the module on. It is on afterwards even where an error is
    /// returned; switching on what is on runs the same steps again.
    fn enable(&mut self, report: StartupReport) -> (r: Result<(), ModuleError>)
        ensures
            final(self).enabled(),
            final(self).module_name() == old(self).module_name(),
            final(self).settings() == old(self).settings(),
    ;

    /// Switches the module off. It is off afterwards even where an error is
    /// returned.
    fn disable(&mut self, report: ShutdownReport) -> (r: Result<(), ModuleError>)
        ensures
            !final(self).enabled(),
            final(self).module_name() == old(self).module_name(),
            final(self).settings() == old(self).settings(),
    ;

    fn get_settings(&self) -> (r: Settings)
        ensures
            r@ == self.settings(),
    ;

    /// Merges `settings` into the module's own. This never fails, and a key
    /// that `settings` does not hold keeps what it had.
    fn update_settings(&mut self, settings: Settings) -> (r: Result<(), ModuleError>)
        ensures
            r is Ok,
            final(self).enabled() == old(self).enabled(),
            final(self).module_name() == old(self).module_name(),
            forall|key: Seq<char>|
                !settings@.contains_key(key) ==> (#[trigger] final(self).settings().contains_key(
                    key,
                ) <==> old(self).settings().contains_key(key)),
            forall|key: Seq<char>|
                !settings@.contains_key(key) && old(self).settings().contains_key(key)
                    ==> #[trigger] final(self).settings()[key] == old(self).settings()[key],
    ;
}

} // verus!
