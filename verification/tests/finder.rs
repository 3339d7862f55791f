use focus_governor::finder::{find, find_target, TARGET_PROCESS};
use sysinfo::{get_current_pid, Pid, PidExt, ProcessExt, System, SystemExt};

fn refreshed() -> System {
    let mut sys = System::new();
    sys.refresh_processes();
    sys
}

#[test]
fn monitored_process_name_is_the_configured_one() {
    assert_eq!(TARGET_PROCESS, "Roon.exe");
}

#[test]
fn nothing_is_found_in_an_empty_snapshot() {
    let sys = System::new();
    assert_eq!(find(&sys, "init"), None);
    assert_eq!(find(&sys, ""), None);
    assert_eq!(find_target(&sys), None);
}

#[test]
fn a_running_process_is_found_by_its_name() {
    let sys = refreshed();
    let own = get_current_pid().unwrap();
    let name = sys.process(own).unwrap().name().to_string();
    let found = find(&sys, &name).unwrap();
    assert_eq!(sys.process(Pid::from_u32(found)).unwrap().name(), name);
}

#[test]
fn every_process_of_the_snapshot_is_found_by_its_name() {
    let sys = refreshed();
    assert!(!sys.processes().is_empty());
    for process in sys.processes().values() {
        let found = find(&sys, process.name()).unwrap();
        assert_eq!(sys.process(Pid::from_u32(found)).unwrap().name(), process.name());
    }
}

#[test]
fn an_unknown_name_is_not_found() {
    let sys = refreshed();
    assert_eq!(find(&sys, "no process bears a name as long as this one"), None);
}

#[test]
fn the_name_is_matched_as_a_whole() {
    let sys = refreshed();
    let own = get_current_pid().unwrap();
    let name = sys.process(own).unwrap().name().to_string();
    let longer = format!("{}{}", name, " and then some more, beyond any name");
    assert_eq!(find(&sys, &longer), None);
}

#[test]
fn the_monitored_process_is_found_where_it_runs() {
    let sys = refreshed();
    let running = sys.processes().values().any(|process| process.name() == "Roon.exe");
    match find_target(&sys) {
        Some(pid) => {
            assert!(running);
            assert_eq!(sys.process(Pid::from_u32(pid)).unwrap().name(), "Roon.exe");
        },
        None => assert!(!running),
    }
}
