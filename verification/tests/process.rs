use winshaper::error::{ModuleError, OsOutcome, ProcessAction};
use winshaper::module::{Module, ShutdownReport, StartupReport, StoredHistory};
use winshaper::percent::Percent;
use winshaper::process_controller::{
    holds_name, resolve_probe, ProcessController, ProcessInfo, ProcessProbe,
};
use winshaper::settings::{SettingValue, Settings};

const MB: u64 = 1024 * 1024;

fn probe(pid: u32, name: &str, megabytes: u64) -> ProcessProbe {
    ProcessProbe {
        pid,
        accessible: true,
        name: Some(name.to_string()),
        working_set_bytes: Some(megabytes * MB),
    }
}

fn info(pid: u32, name: &str, memory_mb: u64) -> ProcessInfo {
    ProcessInfo {
        pid,
        name: name.to_string(),
        memory_mb,
        cpu_percent: Percent { thousandths: 0 },
        is_suspended: false,
    }
}

fn sorted(mut list: Vec<ProcessInfo>) -> Vec<ProcessInfo> {
    list.sort_by_key(|p| p.pid);
    list
}

fn one_setting(key: &str, value: SettingValue) -> Settings {
    let mut settings = Settings::new();
    settings.insert(key.to_string(), value);
    settings
}

fn fraction(number: f64) -> SettingValue {
    SettingValue::Real { bits: number.to_bits(), thousandths: (number * 1000.0).floor() as i64 }
}

fn texts(items: &[&str]) -> SettingValue {
    SettingValue::List(items.iter().map(|s| SettingValue::Text(s.to_string())).collect())
}

#[test]
fn new_controller_has_the_default_limits_and_whitelist() {
    let controller = ProcessController::new();
    assert!(!controller.is_enabled());
    let settings = controller.get_settings();
    assert_eq!(settings.get("threshold_cpu"), Some(&fraction(80.0)));
    assert_eq!(
        settings.get("threshold_cpu"),
        Some(&SettingValue::Real { bits: 0x4054_0000_0000_0000, thousandths: 80_000 })
    );
    assert_eq!(settings.get("threshold_ram"), Some(&SettingValue::Unsigned(1024)));
    assert_eq!(
        settings.get("whitelist"),
        Some(&texts(&[
            "winshaper.exe",
            "explorer.exe",
            "dwm.exe",
            "csrss.exe",
            "winlogon.exe",
            "System"
        ]))
    );
    assert_eq!(controller.check_thresholds().unwrap().len(), 0);
}

#[test]
fn a_probe_becomes_a_table_entry() {
    let resolved = resolve_probe(&ProcessProbe {
        pid: 42,
        accessible: true,
        name: Some("editor.exe".to_string()),
        working_set_bytes: Some(5 * MB + 1),
    });
    assert_eq!(resolved, info(42, "editor.exe", 5));
}

#[test]
fn memory_is_counted_in_whole_megabytes() {
    let bytes = |b: u64| ProcessProbe {
        pid: 1,
        accessible: true,
        name: Some("a".to_string()),
        working_set_bytes: Some(b),
    };
    assert_eq!(resolve_probe(&bytes(0)).memory_mb, 0);
    assert_eq!(resolve_probe(&bytes(MB - 1)).memory_mb, 0);
    assert_eq!(resolve_probe(&bytes(MB)).memory_mb, 1);
    assert_eq!(resolve_probe(&bytes(2 * MB - 1)).memory_mb, 1);
    assert_eq!(resolve_probe(&bytes(u64::MAX)).memory_mb, 17_592_186_044_415);
}

#[test]
fn a_probe_without_name_or_memory_reads_unknown_and_zero() {
    let resolved = resolve_probe(&ProcessProbe {
        pid: 7,
        accessible: true,
        name: None,
        working_set_bytes: None,
    });
    assert_eq!(resolved, info(7, "Unknown", 0));
    let resolved = resolve_probe(&ProcessProbe {
        pid: 8,
        accessible: true,
        name: Some(String::new()),
        working_set_bytes: Some(3 * MB),
    });
    assert_eq!(resolved, info(8, "Unknown", 3));
}

#[test]
fn a_listing_passes_over_pid_zero_and_what_cannot_be_opened() {
    let mut controller = ProcessController::new();
    let snapshot = vec![
        probe(0, "idle", 1),
        probe(4, "System", 2),
        ProcessProbe { pid: 5, accessible: false, name: None, working_set_bytes: None },
        probe(6, "app.exe", 300),
        ProcessProbe {
            pid: 9,
            accessible: false,
            name: Some("secret.exe".to_string()),
            working_set_bytes: Some(9 * MB),
        },
    ];
    let list = controller.get_running_processes(&snapshot).unwrap();
    assert_eq!(list, vec![info(4, "System", 2), info(6, "app.exe", 300)]);
}

#[test]
fn an_empty_listing_gives_an_empty_table() {
    let mut controller = ProcessController::new();
    controller.get_running_processes(&vec![probe(6, "big.exe", 5000)]).unwrap();
    assert_eq!(controller.check_thresholds().unwrap().len(), 1);
    assert_eq!(controller.get_running_processes(&Vec::new()).unwrap(), Vec::new());
    assert_eq!(controller.check_thresholds().unwrap().len(), 0);
}

#[test]
fn a_new_listing_replaces_the_table() {
    let mut controller = ProcessController::new();
    controller
        .get_running_processes(&vec![probe(1, "a.exe", 2000), probe(2, "b.exe", 3000)])
        .unwrap();
    controller.get_running_processes(&vec![probe(3, "c.exe", 4000)]).unwrap();
    assert_eq!(controller.check_thresholds().unwrap(), vec![info(3, "c.exe", 4000)]);
}

#[test]
fn of_two_probes_with_one_pid_the_table_holds_the_later() {
    let mut controller = ProcessController::new();
    let list = controller
        .get_running_processes(&vec![probe(1, "first.exe", 2000), probe(1, "second.exe", 3000)])
        .unwrap();
    assert_eq!(list, vec![info(1, "first.exe", 2000), info(1, "second.exe", 3000)]);
    assert_eq!(controller.check_thresholds().unwrap(), vec![info(1, "second.exe", 3000)]);
}

#[test]
fn whitelisted_processes_are_protected_and_others_are_not() {
    let mut controller = ProcessController::new();
    controller
        .get_running_processes(&vec![probe(10, "explorer.exe", 50), probe(20, "bad.exe", 2000)])
        .unwrap();

    assert_eq!(controller.check_thresholds().unwrap(), vec![info(20, "bad.exe", 2000)]);

    assert_eq!(
        controller.terminate_process(10),
        Err(ModuleError::WhitelistViolation(ProcessAction::Terminate))
    );

    let request = controller.terminate_process(20).unwrap();
    assert_eq!(request.pid(), 20);
    assert_eq!(controller.finish_termination(request, OsOutcome::Done), Ok(()));
    assert_eq!(controller.check_thresholds().unwrap(), Vec::new());
    assert_eq!(controller.is_whitelisted_process(10), Ok(true));
    assert_eq!(controller.is_whitelisted_process(20), Ok(false));
}

#[test]
fn a_whitelisted_process_over_the_limit_is_not_reported() {
    let mut controller = ProcessController::new();
    controller
        .get_running_processes(&vec![
            probe(10, "explorer.exe", 9000),
            probe(11, "dwm.exe", 9000),
            probe(20, "bad.exe", 2000),
            probe(21, "small.exe", 10),
        ])
        .unwrap();
    assert_eq!(controller.check_thresholds().unwrap(), vec![info(20, "bad.exe", 2000)]);
}

#[test]
fn the_memory_limit_must_be_exceeded() {
    let mut controller = ProcessController::new();
    controller
        .get_running_processes(&vec![
            probe(1, "at.exe", 1024),
            probe(2, "over.exe", 1025),
            probe(3, "under.exe", 1023),
        ])
        .unwrap();
    assert_eq!(controller.check_thresholds().unwrap(), vec![info(2, "over.exe", 1025)]);
}

#[test]
fn every_violation_is_reported_once() {
    let mut controller = ProcessController::new();
    let mut snapshot = Vec::new();
    for pid in 1..=40u32 {
        snapshot.push(probe(pid, &format!("p{}.exe", pid), if pid % 2 == 0 { 2000 } else { 10 }));
    }
    controller.get_running_processes(&snapshot).unwrap();
    let found = sorted(controller.check_thresholds().unwrap());
    let expected: Vec<ProcessInfo> =
        (1..=20u32).map(|n| info(2 * n, &format!("p{}.exe", 2 * n), 2000)).collect();
    assert_eq!(found, expected);
}

#[test]
fn a_negative_processor_limit_is_exceeded_by_every_process() {
    let mut controller = ProcessController::new();
    controller
        .get_running_processes(&vec![probe(10, "explorer.exe", 1), probe(20, "idle.exe", 1)])
        .unwrap();
    assert_eq!(controller.check_thresholds().unwrap(), Vec::new());
    controller.update_settings(one_setting("threshold_cpu", fraction(-0.0001))).unwrap();
    assert_eq!(controller.check_thresholds().unwrap(), vec![info(20, "idle.exe", 1)]);
    controller.update_settings(one_setting("threshold_cpu", fraction(0.0))).unwrap();
    assert_eq!(controller.check_thresholds().unwrap(), Vec::new());
    controller.update_settings(one_setting("threshold_cpu", SettingValue::Signed(-1))).unwrap();
    assert_eq!(controller.check_thresholds().unwrap(), vec![info(20, "idle.exe", 1)]);
    controller.update_settings(one_setting("threshold_cpu", SettingValue::Unsigned(0))).unwrap();
    assert_eq!(controller.check_thresholds().unwrap(), Vec::new());
}

#[test]
fn the_table_holds_what_was_listed_last() {
    let mut controller = ProcessController::new();
    assert!(!controller.is_monitored(10));
    controller.get_running_processes(&vec![probe(10, "explorer.exe", 50)]).unwrap();
    assert!(controller.is_monitored(10));
    assert!(!controller.is_monitored(11));
    let request = controller.terminate_process(11).unwrap();
    controller.finish_termination(request, OsOutcome::Done).unwrap();
    assert!(controller.is_monitored(10));
    controller.get_running_processes(&Vec::new()).unwrap();
    assert!(!controller.is_monitored(10));
}

#[test]
fn a_process_that_the_table_does_not_hold_is_not_whitelisted() {
    let controller = ProcessController::new();
    assert_eq!(controller.is_whitelisted_process(10), Ok(false));
    let request = controller.terminate_process(10).unwrap();
    assert_eq!(request.pid(), 10);
}

#[test]
fn a_refused_termination_leaves_the_table_alone() {
    let mut controller = ProcessController::new();
    controller.get_running_processes(&vec![probe(20, "bad.exe", 2000)]).unwrap();
    let request = controller.terminate_process(20).unwrap();
    assert_eq!(
        controller.finish_termination(request, OsOutcome::Failed("Access is denied.".to_string())),
        Err(ModuleError::OsError("Access is denied.".to_string()))
    );
    assert_eq!(controller.check_thresholds().unwrap(), vec![info(20, "bad.exe", 2000)]);
}

#[test]
fn terminating_one_process_leaves_the_others() {
    let mut controller = ProcessController::new();
    controller
        .get_running_processes(&vec![probe(20, "bad.exe", 2000), probe(30, "worse.exe", 3000)])
        .unwrap();
    let request = controller.terminate_process(30).unwrap();
    controller.finish_termination(request, OsOutcome::Done).unwrap();
    assert_eq!(controller.check_thresholds().unwrap(), vec![info(20, "bad.exe", 2000)]);
}

#[test]
fn suspend_marks_the_entry_and_resume_clears_the_mark() {
    let mut controller = ProcessController::new();
    controller.get_running_processes(&vec![probe(20, "bad.exe", 2000)]).unwrap();
    assert_eq!(controller.suspend_process(20), Ok(()));
    let mut marked = info(20, "bad.exe", 2000);
    marked.is_suspended = true;
    assert_eq!(controller.check_thresholds().unwrap(), vec![marked]);
    assert_eq!(controller.resume_process(20), Ok(()));
    assert_eq!(controller.check_thresholds().unwrap(), vec![info(20, "bad.exe", 2000)]);
}

#[test]
fn suspend_refuses_a_whitelisted_process() {
    let mut controller = ProcessController::new();
    controller.get_running_processes(&vec![probe(4, "System", 1)]).unwrap();
    assert_eq!(
        controller.suspend_process(4),
        Err(ModuleError::WhitelistViolation(ProcessAction::Suspend))
    );
    assert_eq!(controller.resume_process(4), Ok(()));
}

#[test]
fn suspend_and_resume_of_an_unknown_process_change_nothing() {
    let mut controller = ProcessController::new();
    controller.get_running_processes(&vec![probe(20, "bad.exe", 2000)]).unwrap();
    assert_eq!(controller.suspend_process(99), Ok(()));
    assert_eq!(controller.resume_process(99), Ok(()));
    assert_eq!(controller.check_thresholds().unwrap(), vec![info(20, "bad.exe", 2000)]);
}

#[test]
fn a_new_listing_forgets_suspension() {
    let mut controller = ProcessController::new();
    let snapshot = vec![probe(20, "bad.exe", 2000)];
    controller.get_running_processes(&snapshot).unwrap();
    controller.suspend_process(20).unwrap();
    controller.get_running_processes(&snapshot).unwrap();
    assert_eq!(controller.check_thresholds().unwrap(), vec![info(20, "bad.exe", 2000)]);
}

#[test]
fn the_whitelist_goes_by_the_exact_name() {
    let mut controller = ProcessController::new();
    controller
        .get_running_processes(&vec![
            probe(1, "Explorer.exe", 2000),
            probe(2, "explorer.exe ", 2000),
            probe(3, "system", 2000),
        ])
        .unwrap();
    assert_eq!(controller.is_whitelisted_process(1), Ok(false));
    assert_eq!(controller.is_whitelisted_process(2), Ok(false));
    assert_eq!(controller.is_whitelisted_process(3), Ok(false));
    assert_eq!(controller.check_thresholds().unwrap().len(), 3);
}

#[test]
fn holds_name_compares_whole_names() {
    let names = vec!["a.exe".to_string(), "b.exe".to_string()];
    assert!(holds_name(&names, "a.exe"));
    assert!(holds_name(&names, "b.exe"));
    assert!(!holds_name(&names, "a"));
    assert!(!holds_name(&names, "A.EXE"));
    assert!(!holds_name(&Vec::new(), "a.exe"));
}

#[test]
fn a_new_whitelist_replaces_the_old_one() {
    let mut controller = ProcessController::new();
    controller
        .get_running_processes(&vec![probe(10, "explorer.exe", 2000), probe(20, "mine.exe", 2000)])
        .unwrap();
    controller.update_settings(one_setting("whitelist", texts(&["mine.exe"]))).unwrap();
    assert_eq!(controller.get_settings().get("whitelist"), Some(&texts(&["mine.exe"])));
    assert_eq!(controller.is_whitelisted_process(10), Ok(false));
    assert_eq!(controller.is_whitelisted_process(20), Ok(true));
    assert_eq!(controller.check_thresholds().unwrap(), vec![info(10, "explorer.exe", 2000)]);
    assert_eq!(
        controller.terminate_process(20),
        Err(ModuleError::WhitelistViolation(ProcessAction::Terminate))
    );
}

#[test]
fn a_whitelist_keeps_its_texts_and_drops_the_rest() {
    let mut controller = ProcessController::new();
    let list = SettingValue::List(vec![
        SettingValue::Text("a.exe".to_string()),
        SettingValue::Unsigned(5),
        SettingValue::Null,
        SettingValue::Text("b.exe".to_string()),
        SettingValue::List(vec![SettingValue::Text("nested.exe".to_string())]),
        SettingValue::Text("a.exe".to_string()),
    ]);
    controller.update_settings(one_setting("whitelist", list)).unwrap();
    assert_eq!(
        controller.get_settings().get("whitelist"),
        Some(&texts(&["a.exe", "b.exe", "a.exe"]))
    );
    controller.update_settings(one_setting("whitelist", SettingValue::List(Vec::new()))).unwrap();
    assert_eq!(controller.get_settings().get("whitelist"), Some(&texts(&[])));
}

#[test]
fn limits_take_numbers_of_the_right_shape() {
    let mut controller = ProcessController::new();
    let mut update = Settings::new();
    update.insert("threshold_cpu".to_string(), SettingValue::Unsigned(50));
    update.insert("threshold_ram".to_string(), SettingValue::Unsigned(2048));
    assert_eq!(controller.update_settings(update), Ok(()));
    let settings = controller.get_settings();
    assert_eq!(settings.get("threshold_cpu"), Some(&SettingValue::Unsigned(50)));
    assert_eq!(settings.get("threshold_ram"), Some(&SettingValue::Unsigned(2048)));

    controller.update_settings(one_setting("threshold_cpu", fraction(12.34567))).unwrap();
    assert_eq!(
        controller.get_settings().get("threshold_cpu"),
        Some(&SettingValue::Real { bits: 12.34567f64.to_bits(), thousandths: 12_345 })
    );
    controller.update_settings(one_setting("threshold_cpu", SettingValue::Signed(-2))).unwrap();
    assert_eq!(controller.get_settings().get("threshold_cpu"), Some(&SettingValue::Signed(-2)));
}

#[test]
fn settings_of_the_wrong_shape_are_passed_over() {
    let mut controller = ProcessController::new();
    let mut update = Settings::new();
    update.insert("threshold_cpu".to_string(), SettingValue::Text("high".to_string()));
    update.insert("threshold_ram".to_string(), SettingValue::Signed(-1));
    update.insert("whitelist".to_string(), SettingValue::Text("explorer.exe".to_string()));
    assert_eq!(controller.update_settings(update), Ok(()));
    let fresh = ProcessController::new().get_settings();
    let settings = controller.get_settings();
    for key in ["threshold_cpu", "threshold_ram", "whitelist"] {
        assert_eq!(settings.get(key), fresh.get(key));
    }
    controller.update_settings(one_setting("threshold_ram", fraction(3.0))).unwrap();
    assert_eq!(controller.get_settings().get("threshold_ram"), Some(&SettingValue::Unsigned(1024)));
}

#[test]
fn an_unknown_key_changes_no_setting() {
    let mut controller = ProcessController::new();
    controller.update_settings(one_setting("threshold_ram", SettingValue::Unsigned(77))).unwrap();
    let mut update = Settings::new();
    update.insert("threshold".to_string(), SettingValue::Unsigned(1));
    update.insert("Whitelist".to_string(), texts(&["x"]));
    assert_eq!(controller.update_settings(update), Ok(()));
    let settings = controller.get_settings();
    assert_eq!(settings.get("threshold_cpu"), Some(&fraction(80.0)));
    assert_eq!(settings.get("threshold_ram"), Some(&SettingValue::Unsigned(77)));
    assert_eq!(settings.get("threshold"), None);
    assert_eq!(settings.get("Whitelist"), None);
    assert_eq!(settings.entries().len(), 3);
}

#[test]
fn settings_leave_the_table_alone() {
    let mut controller = ProcessController::new();
    controller.get_running_processes(&vec![probe(20, "bad.exe", 2000)]).unwrap();
    controller.update_settings(one_setting("threshold_ram", SettingValue::Unsigned(5000))).unwrap();
    assert_eq!(controller.check_thresholds().unwrap(), Vec::new());
    controller.update_settings(one_setting("threshold_ram", SettingValue::Unsigned(10))).unwrap();
    assert_eq!(controller.check_thresholds().unwrap(), vec![info(20, "bad.exe", 2000)]);
}

#[test]
fn the_controller_switches_on_and_off() {
    let mut controller = ProcessController::new();
    let report = StartupReport {
        stored_history: StoredHistory::Absent,
        clipboard: OsOutcome::Failed("not needed".to_string()),
    };
    assert_eq!(controller.enable(report), Ok(()));
    assert!(controller.is_enabled());
    let report = ShutdownReport { history_saved: OsOutcome::Failed("not needed".to_string()) };
    assert_eq!(controller.disable(report), Ok(()));
    assert!(!controller.is_enabled());
    assert_eq!(controller.name(), "process_controller");
    assert_eq!(controller.description(), "Monitor, suspend, or kill resource-heavy processes");
}
