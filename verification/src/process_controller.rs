//! Process control: a table of the running processes as last listed, a
//! whitelist of names that are never suspended or terminated, and limits on
//! memory and processor use.

use std::collections::HashMap;
use vstd::prelude::*;
use vstd::std_specs::iter::IteratorSpec;
use crate::error::{ErrorModel, ModuleError, OsOutcome, ProcessAction};
use crate::module::{Module, ShutdownReport, StartupReport};
use crate::percent::Percent;
use crate::settings::{texts_in, SettingModel, SettingValue, Settings};
use crate::text::{str_eq, string_views};

verus! {

broadcast use vstd::std_specs::hash::group_hash_axioms;

/// Bytes in a megabyte, as memory use is counted.
pub const BYTES_PER_MB: u64 = 1048576;

/// A running process, as the table holds it.
#[derive(Debug, PartialEq, Eq)]
pub struct ProcessInfo {
    /// The platform's identifier, which may be given to another process later.
    pub pid: u32,
    /// The base name of the executable, or `Unknown`.
    pub name: String,
    /// The resident working set, in whole megabytes.
    pub memory_mb: u64,
    /// Processor use. Nothing samples it yet: it is always zero.
    pub cpu_percent: Percent,
    /// Set and cleared by `suspend_process` and `resume_process` only; the
    /// platform is never asked, and a new listing forgets it.
    pub is_suspended: bool,
}

/// What a `ProcessInfo` stands for.
pub struct ProcessModel {
    pub pid: u32,
    pub name: Seq<char>,
    pub memory_mb: u64,
    pub cpu_percent: Percent,
    pub is_suspended: bool,
}

impl View for ProcessInfo {
    type V = ProcessModel;

    open spec fn view(&self) -> ProcessModel {
        ProcessModel {
            pid: self.pid,
            name: self.name@,
            memory_mb: self.memory_mb,
            cpu_percent: self.cpu_percent,
            is_suspended: self.is_suspended,
        }
    }
}

impl ProcessInfo {
    /// A copy of the entry.
    pub fn duplicate(&self) -> (r: ProcessInfo)
        ensures
            r@ == self@,
    {
        ProcessInfo {
            pid: self.pid,
            name: self.name.clone(),
            memory_mb: self.memory_mb,
            cpu_percent: self.cpu_percent,
            is_suspended: self.is_suspended,
        }
    }
}

impl Clone for ProcessInfo {
    fn clone(&self) -> (r: ProcessInfo)
        ensures
            r@ == self@,
    {
        self.duplicate()
    }
}

/// What the platform told of one process identifier of its list.
#[derive(Debug, PartialEq, Eq)]
pub struct ProcessProbe {
    pub pid: u32,
    /// Whether the process could be opened for questions, and let go again.
    pub accessible: bool,
    /// The base name of its executable, where the platform gave one.
    pub name: Option<String>,
    /// Its resident working set in bytes, where the platform gave it.
    pub working_set_bytes: Option<u64>,
}

/// What a `ProcessProbe` stands for.
pub struct ProbeModel {
    pub pid: u32,
    pub accessible: bool,
    pub name: Option<Seq<char>>,
    pub working_set_bytes: Option<u64>,
}

impl View for ProcessProbe {
    type V = ProbeModel;

    open spec fn view(&self) -> ProbeModel {
        ProbeModel {
            pid: self.pid,
            accessible: self.accessible,
            name: match self.name {
                Some(name) => Some(name@),
                None => None,
            },
            working_set_bytes: self.working_set_bytes,
        }
    }
}

/// The models of a run of table entries.
pub open spec fn process_models(items: Seq<ProcessInfo>) -> Seq<ProcessModel> {
    items.map_values(|item: ProcessInfo| item@)
}

/// The models of a run of probes.
pub open spec fn probe_models(items: Seq<ProcessProbe>) -> Seq<ProbeModel> {
    items.map_values(|item: ProcessProbe| item@)
}

impl ProbeModel {
    /// Whether the probe is of a process that can be listed: identifier zero
    /// stands for no process, and one that could not be opened is passed over.
    pub open spec fn listable(self) -> bool {
        self.pid != 0 && self.accessible
    }

    /// The table entry for the probed process: a missing or empty name reads
    /// `Unknown`, a missing working set counts as none, and nothing is known
    /// yet of processor use or suspension.
    pub open spec fn resolved(self) -> ProcessModel {
        ProcessModel {
            pid: self.pid,
            name: match self.name {
                Some(name) if name.len() > 0 => name,
                _ => "Unknown"@,
            },
            memory_mb: match self.working_set_bytes {
                Some(bytes) => bytes / BYTES_PER_MB,
                None => 0,
            },
            cpu_percent: Percent { thousandths: 0 },
            is_suspended: false,
        }
    }
}

/// The entries for the probes that can be listed, in the order of the probes.
pub open spec fn listing(probes: Seq<ProbeModel>) -> Seq<ProcessModel>
    decreases probes.len(),
{
    if probes.len() == 0 {
        Seq::empty()
    } else if probes.last().listable() {
        listing(probes.drop_last()).push(probes.last().resolved())
    } else {
        listing(probes.drop_last())
    }
}

/// The table made of a run of entries: each stands under its identifier, the
/// later of two with the same one.
pub open spec fn table_of(entries: Seq<ProcessModel>) -> Map<u32, ProcessModel>
    decreases entries.len(),
{
    if entries.len() == 0 {
        Map::empty()
    } else {
        table_of(entries.drop_last()).insert(entries.last().pid, entries.last())
    }
}

/// The state of a process controller.
pub struct ControllerModel {
    pub enabled: bool,
    /// The limit on processor use, by which entries are compared.
    pub cpu_threshold: Percent,
    /// The same limit as the number that it was given as.
    pub cpu_threshold_given: SettingModel,
    pub memory_threshold_mb: u64,
    /// The table: the processes as last listed, by identifier.
    pub processes: Map<u32, ProcessModel>,
    /// The names that are never suspended or terminated.
    pub whitelist: Seq<Seq<char>>,
}

impl ControllerModel {
    /// Whether the table holds `pid` under a whitelisted name. A process that
    /// the table does not hold is not whitelisted.
    pub open spec fn is_whitelisted(self, pid: u32) -> bool {
        self.processes.contains_key(pid) && self.whitelist.contains(self.processes[pid].name)
    }

    /// Whether an entry is over a limit and not whitelisted.
    pub open spec fn violates(self, process: ProcessModel) -> bool {
        (process.cpu_percent.thousandths > self.cpu_threshold.thousandths || process.memory_mb
            > self.memory_threshold_mb) && !self.whitelist.contains(process.name)
    }

    /// Whether `found` holds the violating entries of the table and nothing
    /// else, each once.
    pub open spec fn holds_violations(self, found: Seq<ProcessModel>) -> bool {
        &&& forall|j: int|
            0 <= j < found.len() ==> self.processes.contains_key((#[trigger] found[j]).pid)
                && self.processes[found[j].pid] == found[j] && self.violates(found[j])
        &&& forall|pid: u32|
            self.processes.contains_key(pid) && self.violates(#[trigger] self.processes[pid])
                ==> found.contains(self.processes[pid])
        &&& forall|j1: int, j2: int|
            0 <= j1 < j2 < found.len() ==> (#[trigger] found[j1]).pid != (#[trigger] found[j2]).pid
    }
}

/// The process controller module.
#[derive(Debug)]
pub struct ProcessController {
    enabled: bool,
    cpu_threshold: Percent,
    cpu_threshold_given: SettingValue,
    memory_threshold_mb: u64,
    monitored_processes: HashMap<u32, ProcessInfo>,
    whitelist: Vec<String>,
}

impl ProcessController {
    /// Every entry of the table stands under its own identifier.
    #[verifier::type_invariant]
    spec fn keyed_by_pid(self) -> bool {
        forall|pid: u32|
            self.monitored_processes@.contains_key(pid) ==> (
            #[trigger] self.monitored_processes@[pid]).pid == pid
    }
}

impl View for ProcessController {
    type V = ControllerModel;

    closed spec fn view(&self) -> ControllerModel {
        ControllerModel {
            enabled: self.enabled,
            cpu_threshold: self.cpu_threshold,
            cpu_threshold_given: self.cpu_threshold_given@,
            memory_threshold_mb: self.memory_threshold_mb,
            processes: self.monitored_processes@.map_values(|p: ProcessInfo| p@),
            whitelist: string_views(self.whitelist@),
        }
    }
}

/// Eighty in binary64 form (IEEE 754), bit by bit.
pub const EIGHTY_AS_REAL_BITS: u64 = 0x4054_0000_0000_0000;

/// The limit on processor use of a new controller: eighty percent.
pub open spec fn default_cpu_threshold() -> SettingModel {
    SettingModel::Real { bits: EIGHTY_AS_REAL_BITS, thousandths: 80000 }
}

/// The names that a new controller protects.
pub open spec fn default_whitelist() -> Seq<Seq<char>> {
    seq![
        "winshaper.exe"@,
        "explorer.exe"@,
        "dwm.exe"@,
        "csrss.exe"@,
        "winlogon.exe"@,
        "System"@,
    ]
}

/// Whether `names` holds `name`.
pub fn holds_name(names: &Vec<String>, name: &str) -> (r: bool)
    ensures
        r == string_views(names@).contains(name@),
{
    let mut i: usize = 0;
    while i < names.len()
        invariant
            i <= names.len(),
            forall|j: int| 0 <= j < i ==> string_views(names@)[j] != name@,
        decreases names.len() - i,
    {
        if str_eq(names[i].as_str(), name) {
            assert(string_views(names@)[i as int] == name@);
            return true;
        }
        i += 1;
    }
    false
}

/// The table entry for a probed process.
pub fn resolve_probe(probe: &ProcessProbe) -> (r: ProcessInfo)
    ensures
        r@ == probe@.resolved(),
{
    let name = match &probe.name {
        Some(name) => {
            if name.as_str().is_empty() {
                String::from_str("Unknown")
            } else {
                name.clone()
            }
        },
        None => String::from_str("Unknown"),
    };
    let memory_mb = match probe.working_set_bytes {
        Some(bytes) => bytes / BYTES_PER_MB,
        None => 0,
    };
    ProcessInfo {
        pid: probe.pid,
        name,
        memory_mb,
        cpu_percent: Percent { thousandths: 0 },
        is_suspended: false,
    }
}

impl ProcessController {
    /// A controller that is switched off, with an empty table, limits of 80
    /// percent and 1024 megabytes, and the default whitelist.
    pub fn new() -> (r: ProcessController)
        ensures
            r@ == (ControllerModel {
                enabled: false,
                cpu_threshold: Percent { thousandths: 80000 },
                cpu_threshold_given: default_cpu_threshold(),
                memory_threshold_mb: 1024,
                processes: Map::empty(),
                whitelist: default_whitelist(),
            }),
    {
        let mut whitelist: Vec<String> = Vec::new();
        whitelist.push(String::from_str("winshaper.exe"));
        whitelist.push(String::from_str("explorer.exe"));
        whitelist.push(String::from_str("dwm.exe"));
        whitelist.push(String::from_str("csrss.exe"));
        whitelist.push(String::from_str("winlogon.exe"));
        whitelist.push(String::from_str("System"));
        let r = ProcessController {
            enabled: false,
            cpu_threshold: Percent { thousandths: 80000 },
            cpu_threshold_given: SettingValue::Real {
                bits: EIGHTY_AS_REAL_BITS,
                thousandths: 80000,
            },
            memory_threshold_mb: 1024,
            monitored_processes: HashMap::new(),
            whitelist,
        };
        assert(r@.whitelist =~= default_whitelist());
        assert(r@.processes =~= Map::<u32, ProcessModel>::empty());
        r
    }

    /// Takes a new listing of the running processes: the probes that can be
    /// listed become the table, in place of the table that was, and are
    /// returned in the order of the probes.
    pub fn get_running_processes(&mut self, snapshot: &Vec<ProcessProbe>) -> (r: Result<
        Vec<ProcessInfo>,
        ModuleError,
    >)
        ensures
            r matches Ok(list) && process_models(list@) == listing(probe_models(snapshot@)),
            final(self)@ == (ControllerModel {
                processes: table_of(listing(probe_models(snapshot@))),
                ..old(self)@
            }),
    {
        let ghost probes = probe_models(snapshot@);
        let mut processes: Vec<ProcessInfo> = Vec::new();
        let mut i: usize = 0;
        proof {
            assert(probes.take(0) =~= Seq::<ProbeModel>::empty());
            assert(process_models(processes@) =~= Seq::<ProcessModel>::empty());
        }
        while i < snapshot.len()
            invariant
                i <= snapshot.len(),
                probes == probe_models(snapshot@),
                process_models(processes@) == listing(probes.take(i as int)),
            decreases snapshot.len() - i,
        {
            let ghost before = processes@;
            proof {
                assert(probes.take(i + 1).drop_last() =~= probes.take(i as int));
                assert(probes.take(i + 1).last() == snapshot@[i as int]@);
            }
            if snapshot[i].pid != 0 && snapshot[i].accessible {
                processes.push(resolve_probe(&snapshot[i]));
                assert(process_models(processes@) =~= process_models(before).push(
                    snapshot@[i as int]@.resolved(),
                ));
            }
            i += 1;
        }
        assert(probes.take(i as int) =~= probes);
        let mut table: HashMap<u32, ProcessInfo> = HashMap::new();
        let ghost entries = process_models(processes@);
        let mut k: usize = 0;
        proof {
            assert(entries.take(0) =~= Seq::<ProcessModel>::empty());
            assert(table@.map_values(|p: ProcessInfo| p@) =~= Map::<u32, ProcessModel>::empty());
        }
        while k < processes.len()
            invariant
                k <= processes.len(),
                entries == process_models(processes@),
                table@.map_values(|p: ProcessInfo| p@) == table_of(entries.take(k as int)),
                forall|pid: u32| table@.contains_key(pid) ==> (#[trigger] table@[pid]).pid == pid,
            decreases processes.len() - k,
        {
            let entry = processes[k].duplicate();
            proof {
                assert(entries.take(k + 1).drop_last() =~= entries.take(k as int));
                assert(entries.take(k + 1).last() == entry@);
            }
            let ghost before = table@;
            table.insert(entry.pid, entry);
            assert(table@.map_values(|p: ProcessInfo| p@) =~= before.map_values(
                |p: ProcessInfo| p@,
            ).insert(entry.pid, entry@));
            k += 1;
        }
        assert(entries.take(k as int) =~= entries);
        self.monitored_processes = table;
        Ok(processes)
    }
}

/// Leave to ask the platform to terminate a process. Only
/// `ProcessController::terminate_process` hands one out, and only for a
/// process that the whitelist does not protect.
#[derive(Debug, PartialEq, Eq)]
pub struct TerminationRequest {
    pid: u32,
}

impl TerminationRequest {
    /// The process to terminate.
    pub closed spec fn target(&self) -> u32 {
        self.pid
    }

    /// The process to terminate.
    pub fn pid(&self) -> (r: u32)
        ensures
            r == self.target(),
    {
        self.pid
    }
}

impl ControllerModel {
    /// The state after `pid` was marked as suspended or not: an entry of the
    /// table gets the mark, and nothing else changes.
    pub open spec fn with_suspension(self, pid: u32, suspended: bool) -> ControllerModel {
        if self.processes.contains_key(pid) {
            ControllerModel {
                processes: self.processes.insert(
                    pid,
                    ProcessModel { is_suspended: suspended, ..self.processes[pid] },
                ),
                ..self
            }
        } else {
            self
        }
    }

    /// The state after the platform has terminated `pid`.
    pub open spec fn without(self, pid: u32) -> ControllerModel {
        ControllerModel { processes: self.processes.remove(pid), ..self }
    }
}

impl ProcessController {
    /// Whether the table holds `pid`. Only a process that the table holds can
    /// be protected, so whoever is to terminate one that it does not hold
    /// lists the processes first.
    pub fn is_monitored(&self, pid: u32) -> (r: bool)
        ensures
            r == self@.processes.contains_key(pid),
    {
        self.monitored_processes.get(&pid).is_some()
    }

    /// Whether the table holds `pid` under a whitelisted name.
    pub fn is_whitelisted_process(&self, pid: u32) -> (r: Result<bool, ModuleError>)
        ensures
            r matches Ok(protected) && protected == self@.is_whitelisted(pid),
    {
        match self.monitored_processes.get(&pid) {
            Some(info) => Ok(holds_name(&self.whitelist, info.name.as_str())),
            None => Ok(false),
        }
    }

    /// Marks `pid` in the table with `suspended`, if the table holds it.
    fn mark_suspended(&mut self, pid: u32, suspended: bool)
        ensures
            final(self)@ == old(self)@.with_suspension(pid, suspended),
    {
        let marked = match self.monitored_processes.get(&pid) {
            Some(info) => Some(
                ProcessInfo {
                    pid: info.pid,
                    name: info.name.clone(),
                    memory_mb: info.memory_mb,
                    cpu_percent: info.cpu_percent,
                    is_suspended: suspended,
                },
            ),
            None => None,
        };
        match marked {
            Some(info) => {
                proof {
                    use_type_invariant(&*self);
                }
                let mut table: HashMap<u32, ProcessInfo> = HashMap::new();
                std::mem::swap(&mut self.monitored_processes, &mut table);
                table.insert(pid, info);
                std::mem::swap(&mut self.monitored_processes, &mut table);
                assert(self@.processes =~= old(self)@.processes.insert(pid, info@));
            },
            None => {},
        }
    }

    /// Marks a process as suspended, unless the whitelist protects it. The
    /// platform is not asked to suspend anything.
    pub fn suspend_process(&mut self, pid: u32) -> (r: Result<(), ModuleError>)
        ensures
            if old(self)@.is_whitelisted(pid) {
                r matches Err(e) && e@ == ErrorModel::WhitelistViolation(ProcessAction::Suspend)
                    && final(self)@ == old(self)@
            } else {
                r is Ok && final(self)@ == old(self)@.with_suspension(pid, true)
            },
    {
        match self.is_whitelisted_process(pid) {
            Ok(true) => Err(ModuleError::WhitelistViolation(ProcessAction::Suspend)),
            Ok(false) => {
                self.mark_suspended(pid, true);
                Ok(())
            },
            Err(e) => Err(e),
        }
    }

    /// Marks a process as not suspended.
    pub fn resume_process(&mut self, pid: u32) -> (r: Result<(), ModuleError>)
        ensures
            r is Ok,
            final(self)@ == old(self)@.with_suspension(pid, false),
    {
        self.mark_suspended(pid, false);
        Ok(())
    }

    /// Decides whether the platform may be asked to terminate `pid`: never
    /// where the table holds it under a whitelisted name, and always
    /// otherwise. A process that the table does not hold is not protected, so
    /// the processes are to be listed before any is terminated. The answer to
    /// the request goes to `finish_termination`.
    pub fn terminate_process(&self, pid: u32) -> (r: Result<TerminationRequest, ModuleError>)
        ensures
            if self@.is_whitelisted(pid) {
                r matches Err(e) && e@ == ErrorModel::WhitelistViolation(ProcessAction::Terminate)
            } else {
                r matches Ok(request) && request.target() == pid
            },
    {
        match self.is_whitelisted_process(pid) {
            Ok(true) => Err(ModuleError::WhitelistViolation(ProcessAction::Terminate)),
            Ok(false) => Ok(TerminationRequest { pid }),
            Err(e) => Err(e),
        }
    }

    /// Takes in the platform's answer to a termination request: a terminated
    /// process leaves the table, and a refusal is an error that leaves the
    /// table as it was.
    pub fn finish_termination(&mut self, request: TerminationRequest, outcome: OsOutcome) -> (r:
        Result<(), ModuleError>)
        ensures
            match outcome {
                OsOutcome::Done => r is Ok && final(self)@ == old(self)@.without(request.target()),
                OsOutcome::Failed(text) => r matches Err(e) && e@ == ErrorModel::OsError(text@)
                    && final(self)@ == old(self)@,
            },
    {
        match outcome {
            OsOutcome::Done => {
                let pid = request.pid;
                proof {
                    use_type_invariant(&*self);
                }
                let mut table: HashMap<u32, ProcessInfo> = HashMap::new();
                std::mem::swap(&mut self.monitored_processes, &mut table);
                table.remove(&pid);
                std::mem::swap(&mut self.monitored_processes, &mut table);
                assert(self@.processes =~= old(self)@.processes.remove(pid));
                Ok(())
            },
            OsOutcome::Failed(text) => Err(ModuleError::OsError(text)),
        }
    }
}

/// Whether one of the first `upto` pairs stands under `pid`.
spec fn walked<'a>(pairs: Seq<(&'a u32, &'a ProcessInfo)>, upto: int, pid: u32) -> bool {
    exists|i: int| 0 <= i < upto && *(#[trigger] pairs[i]).0 == pid
}

/// Whether `found` holds an entry for `pid`.
spec fn lists(found: Seq<ProcessInfo>, pid: u32) -> bool {
    exists|j: int| 0 <= j < found.len() && (#[trigger] found[j]).pid == pid
}

impl ProcessController {
    /// The entries of the table that are over a limit and not whitelisted,
    /// each once, in no particular order. The table is read as it is: nothing
    /// is listed anew. Nothing samples processor use yet: every entry counts as
    /// using none, so the processor limit is exceeded only where it is negative.
    pub fn check_thresholds(&self) -> (r: Result<Vec<ProcessInfo>, ModuleError>)
        ensures
            r matches Ok(found) && self@.holds_violations(process_models(found@)),
    {
        let mut violations: Vec<ProcessInfo> = Vec::new();
        let ghost pairs = vstd::std_specs::hash::spec_hash_map_iter(
            &self.monitored_processes,
        ).remaining();
        let ghost table = self.monitored_processes@;
        proof {
            use_type_invariant(self);
        }
        for pair in it: self.monitored_processes.iter()
            invariant
                it.seq() == pairs,
                pairs.no_duplicates(),
                table == self.monitored_processes@,
                forall|pid: u32| table.contains_key(pid) ==> (#[trigger] table[pid]).pid == pid,
                forall|i: int|
                    0 <= i < pairs.len() ==> table.contains_key(*(#[trigger] pairs[i]).0)
                        && table[*pairs[i].0] == *pairs[i].1,
                forall|j: int|
                    0 <= j < violations@.len() ==> table.contains_key((#[trigger] violations@[j]).pid)
                        && table[violations@[j].pid]@ == violations@[j]@ && self@.violates(
                        violations@[j]@,
                    ) && walked(pairs, it.index() as int, violations@[j].pid),
                forall|i: int|
                    0 <= i < it.index() && self@.violates((*(#[trigger] pairs[i]).1)@) ==> lists(
                        violations@,
                        *pairs[i].0,
                    ),
                forall|j1: int, j2: int|
                    0 <= j1 < j2 < violations@.len() ==> (#[trigger] violations@[j1]).pid != (
                    #[trigger] violations@[j2]).pid,
        {
            let (pid, process) = pair;
            let ghost at = it.index() as int;
            let ghost before = violations@;
            assert(pairs[at] == pair);
            assert(table.contains_key(*pairs[at].0) && table[*pairs[at].0] == *pairs[at].1);
            assert(process.pid == *pid);
            if (process.cpu_percent.exceeds(self.cpu_threshold) || process.memory_mb
                > self.memory_threshold_mb) && !holds_name(&self.whitelist, process.name.as_str()) {
                violations.push(process.duplicate());
                proof {
                    let last = violations@.len() - 1;
                    assert(violations@[last]@ == process@);
                    assert forall|j1: int, j2: int| 0 <= j1 < j2 < violations@.len() implies (
                    #[trigger] violations@[j1]).pid != (#[trigger] violations@[j2]).pid by {
                        assert(violations@[j1] == before[j1]);
                        if j2 == last {
                            assert(walked(pairs, at, before[j1].pid));
                            let i = choose|i: int|
                                0 <= i < at && *(#[trigger] pairs[i]).0 == before[j1].pid;
                            if *pairs[i].0 == *pairs[at].0 {
                                assert(table[*pairs[i].0] == *pairs[i].1);
                                assert(pairs[i] == pairs[at]);
                            }
                        } else {
                            assert(violations@[j2] == before[j2]);
                        }
                    }
                    assert forall|j: int| 0 <= j < violations@.len() implies table.contains_key(
                        (#[trigger] violations@[j]).pid,
                    ) && table[violations@[j].pid]@ == violations@[j]@ && self@.violates(
                        violations@[j]@,
                    ) && walked(pairs, at + 1, violations@[j].pid) by {
                        if j == last {
                            assert(*pairs[at].0 == violations@[j].pid);
                        } else {
                            assert(violations@[j] == before[j]);
                            assert(walked(pairs, at, before[j].pid));
                            let i = choose|i: int|
                                0 <= i < at && *(#[trigger] pairs[i]).0 == before[j].pid;
                            assert(*pairs[i].0 == violations@[j].pid);
                        }
                    }
                    assert forall|i: int|
                        0 <= i < at + 1 && self@.violates((*(#[trigger] pairs[i]).1)@) implies lists(
                        violations@,
                        *pairs[i].0,
                    ) by {
                        if i == at {
                            assert(violations@[last].pid == *pairs[i].0);
                        } else {
                            assert(lists(before, *pairs[i].0));
                            let j = choose|j: int|
                                0 <= j < before.len() && (#[trigger] before[j]).pid == *pairs[i].0;
                            assert(violations@[j] == before[j]);
                        }
                    }
                }
            } else {
                proof {
                    assert(!self@.violates(process@));
                    assert forall|j: int| 0 <= j < violations@.len() implies walked(
                        pairs,
                        at + 1,
                        (#[trigger] violations@[j]).pid,
                    ) by {
                        assert(walked(pairs, at, violations@[j].pid));
                        let i = choose|i: int|
                            0 <= i < at && *(#[trigger] pairs[i]).0 == violations@[j].pid;
                        assert(*pairs[i].0 == violations@[j].pid);
                    }
                }
            }
        }
        proof {
            let models = process_models(violations@);
            let state = self@;
            assert forall|j: int| 0 <= j < models.len() implies state.processes.contains_key(
                (#[trigger] models[j]).pid,
            ) && state.processes[models[j].pid] == models[j] && state.violates(models[j]) by {
                assert(table.contains_key(violations@[j].pid));
            }
            assert forall|pid: u32|
                state.processes.contains_key(pid) && state.violates(
                    #[trigger] state.processes[pid],
                ) implies models.contains(state.processes[pid]) by {
                assert(table.contains_key(pid));
                assert(pairs.contains((&pid, &table[pid])));
                let i = choose|i: int| 0 <= i < pairs.len() && pairs[i] == (&pid, &table[pid]);
                assert(self@.violates((*pairs[i].1)@));
                assert(lists(violations@, *pairs[i].0));
                let j = choose|j: int|
                    0 <= j < violations@.len() && (#[trigger] violations@[j]).pid == *pairs[i].0;
                assert(models[j] == state.processes[pid]);
            }
            assert forall|j1: int, j2: int| 0 <= j1 < j2 < models.len() implies (
            #[trigger] models[j1]).pid != (#[trigger] models[j2]).pid by {
                assert(violations@[j1].pid != violations@[j2].pid);
            }
        }
        Ok(violations)
    }
}

/// The names of a whitelist as settings: a list of texts.
pub open spec fn names_as_setting(names: Seq<Seq<char>>) -> SettingModel {
    SettingModel::List(names.map_values(|name: Seq<char>| SettingModel::Text(name)))
}

impl ControllerModel {
    /// The settings that the controller reports.
    pub open spec fn settings(self) -> Map<Seq<char>, SettingModel> {
        Map::<Seq<char>, SettingModel>::empty().insert(
            "threshold_cpu"@,
            self.cpu_threshold_given,
        ).insert("threshold_ram"@, SettingModel::Unsigned(self.memory_threshold_mb)).insert(
            "whitelist"@,
            names_as_setting(self.whitelist),
        )
    }

    /// The state after `settings` were merged in. `threshold_cpu` takes effect
    /// where its value is a number, which is kept as it was given and compared
    /// in thousandths; `threshold_ram` where it is a non-negative integer; and
    /// `whitelist` where it is a list: the texts of the list are then the
    /// whole whitelist, and its other elements are passed over.
    pub open spec fn after_update(self, settings: Map<Seq<char>, SettingModel>) -> ControllerModel {
        ControllerModel {
            cpu_threshold: if settings.contains_key("threshold_cpu"@)
                && settings["threshold_cpu"@].as_thousandths() is Some {
                Percent { thousandths: settings["threshold_cpu"@].as_thousandths()->0 }
            } else {
                self.cpu_threshold
            },
            cpu_threshold_given: if settings.contains_key("threshold_cpu"@)
                && settings["threshold_cpu"@].as_thousandths() is Some {
                settings["threshold_cpu"@]
            } else {
                self.cpu_threshold_given
            },
            memory_threshold_mb: if settings.contains_key("threshold_ram"@)
                && settings["threshold_ram"@].as_u64() is Some {
                settings["threshold_ram"@].as_u64()->0
            } else {
                self.memory_threshold_mb
            },
            whitelist: if settings.contains_key("whitelist"@) && settings["whitelist"@].as_array()
                is Some {
                texts_in(settings["whitelist"@].as_array()->0)
            } else {
                self.whitelist
            },
            ..self
        }
    }
}

/// The three setting keys are different texts.
proof fn lemma_setting_keys_differ()
    ensures
        "threshold_cpu"@ != "threshold_ram"@,
        "threshold_cpu"@ != "whitelist"@,
        "threshold_ram"@ != "whitelist"@,
{
    reveal_strlit("threshold_cpu");
    reveal_strlit("threshold_ram");
    reveal_strlit("whitelist");
    assert("threshold_cpu"@.len() == 13);
    assert("threshold_ram"@.len() == 13);
    assert("whitelist"@.len() == 9);
    assert("threshold_cpu"@[10] == 'c');
    assert("threshold_ram"@[10] == 'r');
}

/// A whitelist as a setting.
fn names_to_setting(names: &Vec<String>) -> (r: SettingValue)
    ensures
        r@ == names_as_setting(string_views(names@)),
{
    let mut items: Vec<SettingValue> = Vec::new();
    let mut i: usize = 0;
    while i < names.len()
        invariant
            i <= names.len(),
            items@.len() == i,
            forall|j: int| 0 <= j < i ==> (#[trigger] items@[j])@ == SettingModel::Text(names@[j]@),
        decreases names.len() - i,
    {
        items.push(SettingValue::Text(names[i].clone()));
        i += 1;
    }
    let r = SettingValue::List(items);
    assert(r@->List_0 =~= string_views(names@).map_values(
        |name: Seq<char>| SettingModel::Text(name),
    ));
    r
}

impl Module for ProcessController {
    open spec fn module_name(&self) -> Seq<char> {
        "process_controller"@
    }

    open spec fn summary(&self) -> Seq<char> {
        "Monitor, suspend, or kill resource-heavy processes"@
    }

    open spec fn enabled(&self) -> bool {
        self@.enabled
    }

    open spec fn settings(&self) -> Map<Seq<char>, SettingModel> {
        self@.settings()
    }

    fn name(&self) -> (r: &'static str) {
        "process_controller"
    }

    fn description(&self) -> (r: &'static str) {
        "Monitor, suspend, or kill resource-heavy processes"
    }

    fn is_enabled(&self) -> (r: bool) {
        self.enabled
    }

    /// Switches the controller on. Nothing else changes, and nothing fails.
    fn enable(&mut self, _report: StartupReport) -> (r: Result<(), ModuleError>)
        ensures
            r is Ok,
            final(self)@ == (ControllerModel { enabled: true, ..old(self)@ }),
    {
        proof {
            use_type_invariant(&*self);
        }
        self.enabled = true;
        Ok(())
    }

    /// Switches the controller off. Nothing else changes, and nothing fails.
    fn disable(&mut self, _report: ShutdownReport) -> (r: Result<(), ModuleError>)
        ensures
            r is Ok,
            final(self)@ == (ControllerModel { enabled: false, ..old(self)@ }),
    {
        proof {
            use_type_invariant(&*self);
        }
        self.enabled = false;
        Ok(())
    }

    fn get_settings(&self) -> (r: Settings) {
        let mut settings = Settings::new();
        settings.insert(String::from_str("threshold_cpu"), self.cpu_threshold_given.duplicate());
        settings.insert(
            String::from_str("threshold_ram"),
            SettingValue::Unsigned(self.memory_threshold_mb),
        );
        settings.insert(String::from_str("whitelist"), names_to_setting(&self.whitelist));
        settings
    }

    /// Merges `settings` in; see `ControllerModel::after_update`.
    fn update_settings(&mut self, settings: Settings) -> (r: Result<(), ModuleError>)
        ensures
            final(self)@ == old(self)@.after_update(settings@),
    {
        proof {
            use_type_invariant(&*self);
            lemma_setting_keys_differ();
        }
        match settings.get("threshold_cpu") {
            Some(value) => {
                match value.as_thousandths() {
                    Some(t) => {
                        self.cpu_threshold = Percent { thousandths: t };
                        self.cpu_threshold_given = value.duplicate();
                    },
                    None => {},
                }
            },
            None => {},
        }
        match settings.get("threshold_ram") {
            Some(value) => {
                match value.as_u64() {
                    Some(n) => {
                        self.memory_threshold_mb = n;
                    },
                    None => {},
                }
            },
            None => {},
        }
        match settings.get("whitelist") {
            Some(value) => {
                match value.as_array() {
                    Some(items) => {
                        self.whitelist = SettingValue::text_items(items);
                    },
                    None => {},
                }
            },
            None => {},
        }
        proof {
            let before = old(self)@.settings();
            let after = self@.settings();
            assert forall|key: Seq<char>| !settings@.contains_key(key) implies (
            #[trigger] after.contains_key(key) <==> before.contains_key(key)) by {}
            assert forall|key: Seq<char>|
                !settings@.contains_key(key) && before.contains_key(key) implies #[trigger] after[key]
                == before[key] by {}
        }
        Ok(())
    }
}

/// Settings under keys that the controller does not know change nothing.
pub proof fn lemma_unknown_keys_change_nothing(
    state: ControllerModel,
    settings: Map<Seq<char>, SettingModel>,
)
    requires
        !settings.contains_key("threshold_cpu"@),
        !settings.contains_key("threshold_ram"@),
        !settings.contains_key("whitelist"@),
    ensures
        state.after_update(settings) == state,
{
}

/// A whitelisted process is protected whatever the limits are: it counts as
/// whitelisted, and no report of violations holds it.
pub proof fn lemma_whitelisted_is_never_reported(state: ControllerModel, pid: u32)
    requires
        state.processes.contains_key(pid),
        state.whitelist.contains(state.processes[pid].name),
    ensures
        state.is_whitelisted(pid),
        forall|found: Seq<ProcessModel>|
            #[trigger] state.holds_violations(found) ==> !found.contains(state.processes[pid]),
{
    assert forall|found: Seq<ProcessModel>| #[trigger]
        state.holds_violations(found) implies !found.contains(state.processes[pid]) by {
        if found.contains(state.processes[pid]) {
            let j = choose|j: int| 0 <= j < found.len() && found[j] == state.processes[pid];
            assert(state.violates(found[j]));
        }
    }
}

} // verus!
