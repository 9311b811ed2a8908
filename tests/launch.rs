use weave_manager::launch::{
    inject_agent, java_agent_arg, pick_loader, plan_relaunch, InjectionPolicy, RelaunchError,
};

fn strings(v: &[&str]) -> Vec<String> {
    v.iter().map(|s| s.to_string()).collect()
}

#[test]
fn first_loader_entry_is_picked() {
    let names = strings(&["logs", "analytics.json", "Weave-Loader-0.2.jar", "Weave-Loader-0.3.jar"]);
    assert_eq!(pick_loader(&names), Some(2));
}

#[test]
fn no_loader_entry() {
    assert_eq!(pick_loader(&strings(&["logs", "weave-loader.jar", "Weave"])), None);
    assert_eq!(pick_loader(&Vec::new()), None);
}

#[test]
fn agent_argument_text() {
    assert_eq!(java_agent_arg("/h/.weave/Weave-Loader.jar"), "-javaagent:/h/.weave/Weave-Loader.jar");
}

#[test]
fn agent_is_inserted_after_executable() {
    let cmd = strings(&["java", "-Xmx2G", "net.minecraft.Main", "--version", "1.8.9"]);
    let r = inject_agent(&cmd, "/w/Weave-Loader.jar");
    assert_eq!(
        r,
        strings(&["java", "-javaagent:/w/Weave-Loader.jar", "-Xmx2G", "net.minecraft.Main", "--version", "1.8.9"])
    );
    let single = inject_agent(&strings(&["java"]), "L");
    assert_eq!(single, strings(&["java", "-javaagent:L"]));
}

#[test]
fn missing_loader_skips_without_error() {
    let cmd = strings(&["java", "Main"]);
    assert_eq!(plan_relaunch(&cmd, None, InjectionPolicy::SkipSilently), Ok(None));
}

#[test]
fn missing_loader_fails_when_asked() {
    let cmd = strings(&["java", "Main"]);
    assert_eq!(plan_relaunch(&cmd, None, InjectionPolicy::Fail), Err(RelaunchError::InjectorUnavailable));
}

#[test]
fn empty_command_is_refused() {
    assert_eq!(plan_relaunch(&Vec::new(), Some("L"), InjectionPolicy::SkipSilently), Err(RelaunchError::EmptyCommand));
}

#[test]
fn found_loader_gives_injected_command() {
    let cmd = strings(&["java", "Main"]);
    let r = plan_relaunch(&cmd, Some("/w/Weave-Loader.jar"), InjectionPolicy::Fail);
    assert_eq!(r, Ok(Some(strings(&["java", "-javaagent:/w/Weave-Loader.jar", "Main"]))));
}
