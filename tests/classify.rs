use weave_manager::classify::{classify, instances_of, ClientType, ProcessInfo};

fn strings(v: &[&str]) -> Vec<String> {
    v.iter().map(|s| s.to_string()).collect()
}

fn process(pid: u32, exe: Option<&str>, cmd: &[&str]) -> ProcessInfo {
    ProcessInfo {
        pid,
        exe_name: exe.map(|e| e.to_string()),
        cmd: strings(cmd),
        cwd: "/home/u/.minecraft".to_string(),
        start_time: 1700,
    }
}

#[test]
fn vanilla_instance_is_recognised() {
    let p = process(42, Some("java"), &["java", "-Dgame=/home/u/.minecraft", "--version", "1.8.9"]);
    let r = classify(&p).expect("recognised");
    assert_eq!(r.pid, 42);
    assert_eq!(r.version, "1.8.9");
    assert_eq!(r.client_type, ClientType::Vanilla);
    assert!(!r.weave_attached);
    assert_eq!(r.cmd, p.cmd);
    assert_eq!(r.cwd, "/home/u/.minecraft");
    assert_eq!(r.start_time, 1700);
}

#[test]
fn exe_name_matches_without_regard_to_case() {
    let p = process(1, Some("JavaW.EXE"), &["javaw.exe", "C:\\.minecraft", "--version", "1.20"]);
    assert!(classify(&p).is_some());
}

#[test]
fn other_executables_are_rejected() {
    let p = process(1, Some("python3"), &["python3", ".minecraft", "--version", "1.20"]);
    assert!(classify(&p).is_none());
    let q = process(2, None, &["java", ".minecraft", "--version", "1.20"]);
    assert!(classify(&q).is_none());
    let r = process(3, Some("javac"), &["javac", ".minecraft", "--version", "1.20"]);
    assert!(classify(&r).is_none());
}

#[test]
fn game_dir_marker_is_required() {
    let p = process(1, Some("java"), &["java", "/opt/server", "--version", "1.20"]);
    assert!(classify(&p).is_none());
}

#[test]
fn missing_or_trailing_version_flag_rejects() {
    let p = process(1, Some("java"), &["java", ".minecraft"]);
    assert!(classify(&p).is_none());
    let q = process(2, Some("java"), &["java", ".minecraft", "--version"]);
    assert!(classify(&q).is_none());
}

#[test]
fn version_follows_first_flag() {
    let p = process(1, Some("java"), &["java", ".minecraft", "--version", "1.7.10", "--version", "1.8"]);
    assert_eq!(classify(&p).unwrap().version, "1.7.10");
}

#[test]
fn client_type_by_priority() {
    let lunar = process(1, Some("java"), &["java", ".minecraft/lunar", "minecraftforge", "--version", "1"]);
    assert_eq!(classify(&lunar).unwrap().client_type, ClientType::LunarClient);
    let forge = process(2, Some("java"), &["java", ".minecraft", "net.minecraftforge.Main", "--version", "1"]);
    assert_eq!(classify(&forge).unwrap().client_type, ClientType::Forge);
    let plain = process(3, Some("java"), &["java", ".minecraft", "--version", "1"]);
    assert_eq!(classify(&plain).unwrap().client_type, ClientType::Vanilla);
}

#[test]
fn loader_attachment_is_detected() {
    let p = process(7, Some("java"), &["java", "-javaagent:/h/.weave/Weave-Loader-1.0.jar", ".minecraft", "--version", "1.8.9"]);
    assert!(classify(&p).unwrap().weave_attached);
}

#[test]
fn listing_keeps_only_recognised_processes_in_order() {
    let procs = vec![
        process(10, Some("java"), &["java", ".minecraft", "--version", "1.8.9"]),
        process(11, Some("bash"), &["bash", ".minecraft", "--version", "1.8.9"]),
        process(12, Some("java"), &["java", ".minecraft"]),
        process(13, Some("javaw.exe"), &["javaw.exe", ".minecraft", "lunar", "--version", "1.20"]),
        process(14, Some("java"), &["java", ".minecraft", "--version", "1.8.9"]),
    ];
    let r = instances_of(&procs);
    let pids: Vec<u32> = r.iter().map(|i| i.pid).collect();
    assert_eq!(pids, vec![10, 13, 14]);
    assert_eq!(r[1].client_type, ClientType::LunarClient);
    assert_eq!(r[2].version, "1.8.9");
}

#[test]
fn listing_empty_snapshot_is_empty() {
    assert!(instances_of(&Vec::new()).is_empty());
}
