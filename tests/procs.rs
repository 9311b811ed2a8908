use sysinfo::SystemExt;
use weave_manager::procs::{fetch_minecraft_instances, get_memory_usage, kill_pid};

#[test]
fn kill_of_absent_process_is_false() {
    let sys = sysinfo::System::new();
    assert!(!kill_pid(&sys, 4_000_000_000));
}

#[test]
fn kill_of_absent_pid_in_full_table() {
    let mut sys = sysinfo::System::new();
    let _ = fetch_minecraft_instances(&mut sys);
    assert!(!kill_pid(&sys, 4_000_000_000));
}

#[test]
fn listed_instances_have_versions() {
    let mut sys = sysinfo::System::new();
    for inst in fetch_minecraft_instances(&mut sys) {
        let flag = inst.cmd.iter().position(|a| a == "--version").expect("flag");
        assert_eq!(inst.cmd[flag + 1], inst.version);
    }
}

#[test]
fn memory_usage_of_this_process() {
    let mut sys = sysinfo::System::new_all();
    if let Some((used, total)) = get_memory_usage(&mut sys) {
        assert!(total > 0);
        assert!(used <= total);
    }
}
