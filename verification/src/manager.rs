//! The registry of modules: it owns them and hands each call to the module
//! of the given name.

use vstd::prelude::*;
use crate::clipboard_history::{ClipboardHistory, HistoryModel};
use crate::dynamic_split::{DynamicSplit, SplitModel};
use crate::error::{ErrorModel, ModuleError, OsOutcome};
use crate::module::{Module, ShutdownReport, StartupReport};
use crate::mouse_action_mapper::{MapperModel, MouseActionMapper};
use crate::process_controller::{ControllerModel, ProcessController};
use crate::settings::{SettingModel, Settings};
use crate::taskbar_customizer::{TaskbarCustomizer, TaskbarModel};
use crate::text::str_eq;

verus! {

/// The kinds of module there are.
#[derive(Debug, Clone, Copy, PartialEq, Eq)]
pub enum ModuleKind {
    DynamicSplit,
    TaskbarCustomizer,
    MouseActionMapper,
    ProcessController,
    ClipboardHistory,
}

impl ModuleKind {
    /// The name under which a module of this kind is registered.
    pub open spec fn name(self) -> Seq<char> {
        match self {
            ModuleKind::DynamicSplit => "dynamic_split"@,
            ModuleKind::TaskbarCustomizer => "taskbar_customizer"@,
            ModuleKind::MouseActionMapper => "mouse_action_mapper"@,
            ModuleKind::ProcessController => "process_controller"@,
            ModuleKind::ClipboardHistory => "clipboard_history"@,
        }
    }

    /// The kind of module that has the given name.
    pub open spec fn named(name: Seq<char>) -> Option<ModuleKind> {
        if name == "dynamic_split"@ {
            Some(ModuleKind::DynamicSplit)
        } else if name == "taskbar_customizer"@ {
            Some(ModuleKind::TaskbarCustomizer)
        } else if name == "mouse_action_mapper"@ {
            Some(ModuleKind::MouseActionMapper)
        } else if name == "process_controller"@ {
            Some(ModuleKind::ProcessController)
        } else if name == "clipboard_history"@ {
            Some(ModuleKind::ClipboardHistory)
        } else {
            None
        }
    }

    /// The kind of module that has the given name.
    pub fn from_name(name: &str) -> (r: Option<ModuleKind>)
        ensures
            r == ModuleKind::named(name@),
    {
        if str_eq(name, "dynamic_split") {
            Some(ModuleKind::DynamicSplit)
        } else if str_eq(name, "taskbar_customizer") {
            Some(ModuleKind::TaskbarCustomizer)
        } else if str_eq(name, "mouse_action_mapper") {
            Some(ModuleKind::MouseActionMapper)
        } else if str_eq(name, "process_controller") {
            Some(ModuleKind::ProcessController)
        } else if str_eq(name, "clipboard_history") {
            Some(ModuleKind::ClipboardHistory)
        } else {
            None
        }
    }
}

/// Each kind is the kind that its name names.
pub proof fn lemma_kind_names_differ(kind: ModuleKind)
    ensures
        ModuleKind::named(kind.name()) == Some(kind),
{
    reveal_strlit("dynamic_split");
    reveal_strlit("taskbar_customizer");
    reveal_strlit("mouse_action_mapper");
    reveal_strlit("process_controller");
    reveal_strlit("clipboard_history");
    assert("dynamic_split"@.len() == 13);
    assert("taskbar_customizer"@.len() == 18);
    assert("mouse_action_mapper"@.len() == 19);
    assert("process_controller"@.len() == 18);
    assert("clipboard_history"@.len() == 17);
    assert("taskbar_customizer"@[0] == 't');
    assert("process_controller"@[0] == 'p');
}

/// A module of any kind.
#[derive(Debug)]
pub enum AnyModule {
    DynamicSplit(DynamicSplit),
    TaskbarCustomizer(TaskbarCustomizer),
    MouseActionMapper(MouseActionMapper),
    ProcessController(ProcessController),
    ClipboardHistory(ClipboardHistory),
}

/// The state of a module of any kind.
pub enum AnyModel {
    DynamicSplit(SplitModel),
    TaskbarCustomizer(TaskbarModel),
    MouseActionMapper(MapperModel),
    ProcessController(ControllerModel),
    ClipboardHistory(HistoryModel),
}

impl View for AnyModule {
    type V = AnyModel;

    open spec fn view(&self) -> AnyModel {
        match self {
            AnyModule::DynamicSplit(m) => AnyModel::DynamicSplit(m@),
            AnyModule::TaskbarCustomizer(m) => AnyModel::TaskbarCustomizer(m@),
            AnyModule::MouseActionMapper(m) => AnyModel::MouseActionMapper(m@),
            AnyModule::ProcessController(m) => AnyModel::ProcessController(m@),
            AnyModule::ClipboardHistory(m) => AnyModel::ClipboardHistory(m@),
        }
    }
}

impl AnyModel {
    /// The kind of the module.
    pub open spec fn kind(self) -> ModuleKind {
        match self {
            AnyModel::DynamicSplit(_) => ModuleKind::DynamicSplit,
            AnyModel::TaskbarCustomizer(_) => ModuleKind::TaskbarCustomizer,
            AnyModel::MouseActionMapper(_) => ModuleKind::MouseActionMapper,
            AnyModel::ProcessController(_) => ModuleKind::ProcessController,
            AnyModel::ClipboardHistory(_) => ModuleKind::ClipboardHistory,
        }
    }

    /// Whether the module is switched on.
    pub open spec fn enabled(self) -> bool {
        match self {
            AnyModel::DynamicSplit(m) => m.enabled,
            AnyModel::TaskbarCustomizer(m) => m.enabled,
            AnyModel::MouseActionMapper(m) => m.enabled,
            AnyModel::ProcessController(m) => m.enabled,
            AnyModel::ClipboardHistory(m) => m.enabled,
        }
    }

    /// The settings that the module reports.
    pub open spec fn settings(self) -> Map<Seq<char>, SettingModel> {
        match self {
            AnyModel::DynamicSplit(m) => m.settings,
            AnyModel::TaskbarCustomizer(m) => m.settings(),
            AnyModel::MouseActionMapper(m) => m.settings,
            AnyModel::ProcessController(m) => m.settings(),
            AnyModel::ClipboardHistory(m) => m.settings(),
        }
    }

    /// The state after the module was switched on.
    pub open spec fn after_enable(self, report: StartupReport) -> AnyModel {
        match self {
            AnyModel::DynamicSplit(m) => AnyModel::DynamicSplit(SplitModel { enabled: true, ..m }),
            AnyModel::TaskbarCustomizer(m) => AnyModel::TaskbarCustomizer(
                TaskbarModel { enabled: true, ..m },
            ),
            AnyModel::MouseActionMapper(m) => AnyModel::MouseActionMapper(
                MapperModel { enabled: true, ..m },
            ),
            AnyModel::ProcessController(m) => AnyModel::ProcessController(
                ControllerModel { enabled: true, ..m },
            ),
            AnyModel::ClipboardHistory(m) => AnyModel::ClipboardHistory(
                m.after_enable(report.stored_history, report.clipboard),
            ),
        }
    }

    /// The error of switching the module on, if that is one: only the
    /// clipboard history can fail, where no clipboard handle could be had.
    pub open spec fn enable_error(self, report: StartupReport) -> Option<ErrorModel> {
        match (self, report.clipboard) {
            (AnyModel::ClipboardHistory(_), OsOutcome::Failed(text)) => Some(
                ErrorModel::OsError(text@),
            ),
            _ => None,
        }
    }

    /// The state after the module was switched off.
    pub open spec fn after_disable(self, report: ShutdownReport) -> AnyModel {
        match self {
            AnyModel::DynamicSplit(m) => AnyModel::DynamicSplit(SplitModel { enabled: false, ..m }),
            AnyModel::TaskbarCustomizer(m) => AnyModel::TaskbarCustomizer(
                TaskbarModel { enabled: false, ..m },
            ),
            AnyModel::MouseActionMapper(m) => AnyModel::MouseActionMapper(
                MapperModel { enabled: false, ..m },
            ),
            AnyModel::ProcessController(m) => AnyModel::ProcessController(
                ControllerModel { enabled: false, ..m },
            ),
            AnyModel::ClipboardHistory(m) => AnyModel::ClipboardHistory(
                m.after_disable(report.history_saved),
            ),
        }
    }

    /// The error of switching the module off, if that is one: only the
    /// clipboard history can fail, where its items could not be saved.
    pub open spec fn disable_error(self, report: ShutdownReport) -> Option<ErrorModel> {
        match (self, report.history_saved) {
            (AnyModel::ClipboardHistory(_), OsOutcome::Failed(text)) => Some(
                ErrorModel::PersistenceError(text@),
            ),
            _ => None,
        }
    }

    /// The state after `settings` were merged in.
    pub open spec fn after_update(self, settings: Map<Seq<char>, SettingModel>) -> AnyModel {
        match self {
            AnyModel::DynamicSplit(m) => AnyModel::DynamicSplit(
                SplitModel { settings: m.settings.union_prefer_right(settings), ..m },
            ),
            AnyModel::TaskbarCustomizer(m) => AnyModel::TaskbarCustomizer(m.after_update(settings)),
            AnyModel::MouseActionMapper(m) => AnyModel::MouseActionMapper(
                MapperModel { settings: m.settings.union_prefer_right(settings), ..m },
            ),
            AnyModel::ProcessController(m) => AnyModel::ProcessController(m.after_update(settings)),
            AnyModel::ClipboardHistory(m) => AnyModel::ClipboardHistory(m.after_update(settings)),
        }
    }
}

/// Whether `r` is the result that goes with `error`: `Ok` where there is
/// none, and else that error.
pub open spec fn result_is(r: Result<(), ModuleError>, error: Option<ErrorModel>) -> bool {
    match error {
        None => r is Ok,
        Some(e) => r is Err && r->Err_0@ == e,
    }
}

/// The registry. It holds at most one module of each kind, under the name
/// of the kind.
///
/// The kinds are a closed set with one place each, and the view is the mapping
/// from names to modules. That way a call by name is known to do exactly what
/// the named module does: held as `dyn Module`, a module would be known by
/// the trait's contract alone, and keyed by `String` in a hash map, whose
/// hashing has no model, not even as present.
#[derive(Debug)]
pub struct ModuleManager {
    dynamic_split: Option<DynamicSplit>,
    taskbar_customizer: Option<TaskbarCustomizer>,
    mouse_action_mapper: Option<MouseActionMapper>,
    process_controller: Option<ProcessController>,
    clipboard_history: Option<ClipboardHistory>,
}

impl ModuleManager {
    /// The module of the given kind, if one is registered.
    pub closed spec fn slot(&self, kind: ModuleKind) -> Option<AnyModel> {
        match kind {
            ModuleKind::DynamicSplit => match self.dynamic_split {
                Some(m) => Some(AnyModel::DynamicSplit(m@)),
                None => None,
            },
            ModuleKind::TaskbarCustomizer => match self.taskbar_customizer {
                Some(m) => Some(AnyModel::TaskbarCustomizer(m@)),
                None => None,
            },
            ModuleKind::MouseActionMapper => match self.mouse_action_mapper {
                Some(m) => Some(AnyModel::MouseActionMapper(m@)),
                None => None,
            },
            ModuleKind::ProcessController => match self.process_controller {
                Some(m) => Some(AnyModel::ProcessController(m@)),
                None => None,
            },
            ModuleKind::ClipboardHistory => match self.clipboard_history {
                Some(m) => Some(AnyModel::ClipboardHistory(m@)),
                None => None,
            },
        }
    }
}

impl View for ModuleManager {
    type V = Map<Seq<char>, AnyModel>;

    /// The registered modules by name.
    open spec fn view(&self) -> Map<Seq<char>, AnyModel> {
        Map::new(
            |name: Seq<char>|
                ModuleKind::named(name) is Some && self.slot(ModuleKind::named(name)->0) is Some,
            |name: Seq<char>| self.slot(ModuleKind::named(name)->0)->0,
        )
    }
}

impl ModuleManager {
    /// A registry without modules.
    pub fn new() -> (r: ModuleManager)
        ensures
            r@ == Map::<Seq<char>, AnyModel>::empty(),
    {
        let r = ModuleManager {
            dynamic_split: None,
            taskbar_customizer: None,
            mouse_action_mapper: None,
            process_controller: None,
            clipboard_history: None,
        };
        assert(r@ =~= Map::<Seq<char>, AnyModel>::empty());
        r
    }

    /// Registers a module under the name of its kind, in place of the module
    /// that stood there, if any.
    pub fn register_module(&mut self, module: AnyModule)
        ensures
            final(self)@ == old(self)@.insert(module@.kind().name(), module@),
    {
        proof {
            lemma_kind_names_differ(module@.kind());
            lemma_kind_names_differ(ModuleKind::DynamicSplit);
            lemma_kind_names_differ(ModuleKind::TaskbarCustomizer);
            lemma_kind_names_differ(ModuleKind::MouseActionMapper);
            lemma_kind_names_differ(ModuleKind::ProcessController);
            lemma_kind_names_differ(ModuleKind::ClipboardHistory);
        }
        match module {
            AnyModule::DynamicSplit(m) => {
                self.dynamic_split = Some(m);
            },
            AnyModule::TaskbarCustomizer(m) => {
                self.taskbar_customizer = Some(m);
            },
            AnyModule::MouseActionMapper(m) => {
                self.mouse_action_mapper = Some(m);
            },
            AnyModule::ProcessController(m) => {
                self.process_controller = Some(m);
            },
            AnyModule::ClipboardHistory(m) => {
                self.clipboard_history = Some(m);
            },
        }
        assert(self@ =~= old(self)@.insert(module@.kind().name(), module@));
    }
}

/// The error for a name under which nothing is registered.
fn not_found(name: &str) -> (r: ModuleError)
    ensures
        r@ == ErrorModel::ModuleNotFound(name@),
{
    ModuleError::ModuleNotFound(name.to_owned())
}

/// The names of the five kinds are five different texts.
proof fn lemma_all_names_differ()
    ensures
        forall|kind: ModuleKind| ModuleKind::named(#[trigger] kind.name()) == Some(kind),
{
    assert forall|kind: ModuleKind| ModuleKind::named(#[trigger] kind.name()) == Some(kind) by {
        lemma_kind_names_differ(kind);
    }
}

impl ModuleManager {
    /// Switches on the module of the given name; without such a module this
    /// is a `ModuleNotFound`, and nothing changes.
    pub fn enable_module(&mut self, name: &str, report: StartupReport) -> (r: Result<
        (),
        ModuleError,
    >)
        ensures
            if old(self)@.contains_key(name@) {
                final(self)@ == old(self)@.insert(name@, old(self)@[name@].after_enable(report))
                    && result_is(r, old(self)@[name@].enable_error(report))
            } else {
                final(self)@ == old(self)@ && result_is(r, Some(ErrorModel::ModuleNotFound(name@)))
            },
    {
        proof {
            lemma_all_names_differ();
        }
        let r = match ModuleKind::from_name(name) {
            Some(ModuleKind::DynamicSplit) => match &mut self.dynamic_split {
                Some(m) => m.enable(report),
                None => Err(not_found(name)),
            },
            Some(ModuleKind::TaskbarCustomizer) => match &mut self.taskbar_customizer {
                Some(m) => m.enable(report),
                None => Err(not_found(name)),
            },
            Some(ModuleKind::MouseActionMapper) => match &mut self.mouse_action_mapper {
                Some(m) => m.enable(report),
                None => Err(not_found(name)),
            },
            Some(ModuleKind::ProcessController) => match &mut self.process_controller {
                Some(m) => m.enable(report),
                None => Err(not_found(name)),
            },
            Some(ModuleKind::ClipboardHistory) => match &mut self.clipboard_history {
                Some(m) => m.enable(report),
                None => Err(not_found(name)),
            },
            None => Err(not_found(name)),
        };
        proof {
            if old(self)@.contains_key(name@) {
                assert(self@ =~= old(self)@.insert(name@, old(self)@[name@].after_enable(report)));
            } else {
                assert(self@ =~= old(self)@);
            }
        }
        r
    }

    /// Switches off the module of the given name; without such a module this
    /// is a `ModuleNotFound`, and nothing changes.
    pub fn disable_module(&mut self, name: &str, report: ShutdownReport) -> (r: Result<
        (),
        ModuleError,
    >)
        ensures
            if old(self)@.contains_key(name@) {
                final(self)@ == old(self)@.insert(name@, old(self)@[name@].after_disable(report))
                    && result_is(r, old(self)@[name@].disable_error(report))
            } else {
                final(self)@ == old(self)@ && result_is(r, Some(ErrorModel::ModuleNotFound(name@)))
            },
    {
        proof {
            lemma_all_names_differ();
        }
        let r = match ModuleKind::from_name(name) {
            Some(ModuleKind::DynamicSplit) => match &mut self.dynamic_split {
                Some(m) => m.disable(report),
                None => Err(not_found(name)),
            },
            Some(ModuleKind::TaskbarCustomizer) => match &mut self.taskbar_customizer {
                Some(m) => m.disable(report),
                None => Err(not_found(name)),
            },
            Some(ModuleKind::MouseActionMapper) => match &mut self.mouse_action_mapper {
                Some(m) => m.disable(report),
                None => Err(not_found(name)),
            },
            Some(ModuleKind::ProcessController) => match &mut self.process_controller {
                Some(m) => m.disable(report),
                None => Err(not_found(name)),
            },
            Some(ModuleKind::ClipboardHistory) => match &mut self.clipboard_history {
                Some(m) => m.disable(report),
                None => Err(not_found(name)),
            },
            None => Err(not_found(name)),
        };
        proof {
            if old(self)@.contains_key(name@) {
                assert(self@ =~= old(self)@.insert(name@, old(self)@[name@].after_disable(report)));
            } else {
                assert(self@ =~= old(self)@);
            }
        }
        r
    }

    /// The settings of the module of the given name, if there is such a module.
    pub fn get_module_settings(&self, name: &str) -> (r: Option<Settings>)
        ensures
            match r {
                Some(settings) => self@.contains_key(name@) && settings@ == self@[name@].settings(),
                None => !self@.contains_key(name@),
            },
    {
        proof {
            lemma_all_names_differ();
        }
        match ModuleKind::from_name(name) {
            Some(ModuleKind::DynamicSplit) => match &self.dynamic_split {
                Some(m) => Some(m.get_settings()),
                None => None,
            },
            Some(ModuleKind::TaskbarCustomizer) => match &self.taskbar_customizer {
                Some(m) => Some(m.get_settings()),
                None => None,
            },
            Some(ModuleKind::MouseActionMapper) => match &self.mouse_action_mapper {
                Some(m) => Some(m.get_settings()),
                None => None,
            },
            Some(ModuleKind::ProcessController) => match &self.process_controller {
                Some(m) => Some(m.get_settings()),
                None => None,
            },
            Some(ModuleKind::ClipboardHistory) => match &self.clipboard_history {
                Some(m) => Some(m.get_settings()),
                None => None,
            },
            None => None,
        }
    }

    /// Merges `settings` into those of the module of the given name; without
    /// such a module this is a `ModuleNotFound`, and nothing changes.
    pub fn update_module_settings(&mut self, name: &str, settings: Settings) -> (r: Result<
        (),
        ModuleError,
    >)
        ensures
            if old(self)@.contains_key(name@) {
                final(self)@ == old(self)@.insert(name@, old(self)@[name@].after_update(settings@))
                    && r is Ok
            } else {
                final(self)@ == old(self)@ && result_is(r, Some(ErrorModel::ModuleNotFound(name@)))
            },
    {
        proof {
            lemma_all_names_differ();
        }
        let r = match ModuleKind::from_name(name) {
            Some(ModuleKind::DynamicSplit) => match &mut self.dynamic_split {
                Some(m) => m.update_settings(settings),
                None => Err(not_found(name)),
            },
            Some(ModuleKind::TaskbarCustomizer) => match &mut self.taskbar_customizer {
                Some(m) => m.update_settings(settings),
                None => Err(not_found(name)),
            },
            Some(ModuleKind::MouseActionMapper) => match &mut self.mouse_action_mapper {
                Some(m) => m.update_settings(settings),
                None => Err(not_found(name)),
            },
            Some(ModuleKind::ProcessController) => match &mut self.process_controller {
                Some(m) => m.update_settings(settings),
                None => Err(not_found(name)),
            },
            Some(ModuleKind::ClipboardHistory) => match &mut self.clipboard_history {
                Some(m) => m.update_settings(settings),
                None => Err(not_found(name)),
            },
            None => Err(not_found(name)),
        };
        proof {
            if old(self)@.contains_key(name@) {
                assert(self@ =~= old(self)@.insert(name@, old(self)@[name@].after_update(settings@)));
            } else {
                assert(self@ =~= old(self)@);
            }
        }
        r
    }
}

} // verus!
