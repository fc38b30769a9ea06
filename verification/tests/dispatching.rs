use apt_arch::command::{build_invocation, command_line, UsageError};
use apt_arch::dispatch::{dispatch, launch_exit_code, usage_text, Plan};
use apt_arch::verbs::Verb;

fn argv(parts: &[&str]) -> Vec<String> {
    parts.iter().map(|p| p.to_string()).collect()
}

fn dispatched_command_line(parts: &[&str]) -> (String, Vec<String>) {
    match dispatch(&argv(parts)) {
        Plan::Run(inv) => command_line(&inv),
        _ => panic!("expected a direct-mode invocation"),
    }
}

#[test]
fn no_arguments_is_a_usage_error() {
    let plan = dispatch(&argv(&["apt-arch"]));
    match &plan {
        Plan::Usage { error } => assert!(*error),
        _ => panic!("expected the usage plan"),
    }
    assert_eq!(plan.immediate_exit_code(), Some(1));
    assert!(usage_text().contains("apt-arch install <package>"));
}

#[test]
fn help_prints_usage_and_succeeds() {
    let plan = dispatch(&argv(&["apt-arch", "help"]));
    match &plan {
        Plan::Usage { error } => assert!(!*error),
        _ => panic!("expected the usage plan"),
    }
    assert_eq!(plan.immediate_exit_code(), Some(0));
}

#[test]
fn package_verbs_demand_packages() {
    for verb in ["install", "uninstall", "remove"] {
        let plan = dispatch(&argv(&["apt-arch", verb]));
        assert!(matches!(plan, Plan::MissingPackages));
        assert_eq!(plan.immediate_exit_code(), Some(1));
    }
}

#[test]
fn builder_reports_missing_packages() {
    let none: Vec<String> = Vec::new();
    for verb in [Verb::Install, Verb::Uninstall, Verb::Remove] {
        match build_invocation(verb, &none) {
            Err(e) => assert_eq!(e, UsageError::NoPackagesSpecified),
            Ok(_) => panic!("expected a usage error"),
        }
    }
}

#[test]
fn verbs_without_packages_still_build() {
    for verb in [
        Verb::Update,
        Verb::Upgrade,
        Verb::ForceUpdate,
        Verb::Search,
        Verb::Installed,
        Verb::List,
        Verb::Download,
        Verb::Show,
        Verb::Clean,
    ] {
        let none: Vec<String> = Vec::new();
        assert!(build_invocation(verb, &none).is_ok());
    }
}

#[test]
fn bare_verbs_reach_the_runner() {
    for verb in [
        "update",
        "upgrade",
        "forceupdate",
        "search",
        "installed",
        "list",
        "download",
        "show",
        "clean",
    ] {
        let plan = dispatch(&argv(&["apt-arch", verb]));
        assert!(matches!(plan, Plan::Run(_)));
        assert_eq!(plan.immediate_exit_code(), None);
    }
}

#[test]
fn install_command_line() {
    let (program, args) = dispatched_command_line(&["apt-arch", "install", "vim", "git"]);
    assert_eq!(program, "sudo");
    assert_eq!(args, ["pacman", "-S", "vim", "git"]);
}

#[test]
fn removal_verbs_share_the_install_flag() {
    for verb in ["uninstall", "remove"] {
        let (program, args) = dispatched_command_line(&["apt-arch", verb, "vim"]);
        assert_eq!(program, "sudo");
        assert_eq!(args, ["pacman", "-S", "vim"]);
    }
}

#[test]
fn update_family_command_lines() {
    let (program, args) = dispatched_command_line(&["apt-arch", "update"]);
    assert_eq!((program.as_str(), args), ("sudo", vec!["pacman".to_string(), "-Sy".to_string()]));
    let (program, args) = dispatched_command_line(&["apt-arch", "upgrade"]);
    assert_eq!((program.as_str(), args), ("sudo", vec!["pacman".to_string(), "-Syu".to_string()]));
    let (program, args) = dispatched_command_line(&["apt-arch", "forceupdate"]);
    assert_eq!((program.as_str(), args), ("sudo", vec!["pacman".to_string(), "-Syy".to_string()]));
}

#[test]
fn query_verbs_run_unprivileged() {
    let (program, args) = dispatched_command_line(&["apt-arch", "search", "vim"]);
    assert_eq!(program, "pacman");
    assert_eq!(args, ["-Ss", "vim"]);
    let (program, args) = dispatched_command_line(&["apt-arch", "installed"]);
    assert_eq!(program, "pacman");
    assert_eq!(args, ["-Q"]);
    let (program, args) = dispatched_command_line(&["apt-arch", "list"]);
    assert_eq!(program, "pacman");
    assert_eq!(args, ["-Ss"]);
    let (program, args) = dispatched_command_line(&["apt-arch", "show", "vim"]);
    assert_eq!(program, "pacman");
    assert_eq!(args, ["-Si"]);
}

#[test]
fn download_and_clean_are_privileged() {
    let (program, args) = dispatched_command_line(&["apt-arch", "download", "vim"]);
    assert_eq!(program, "sudo");
    assert_eq!(args, ["pacman", "-Sw"]);
    let (program, args) = dispatched_command_line(&["apt-arch", "clean"]);
    assert_eq!(program, "sudo");
    assert_eq!(args, ["pacman", "-Sc"]);
}

#[test]
fn autoremove_takes_the_pipe_path() {
    let plan = dispatch(&argv(&["apt-arch", "autoremove"]));
    assert!(matches!(plan, Plan::Autoremove));
    assert_eq!(plan.immediate_exit_code(), None);
}

#[test]
fn unknown_verb_suggests_and_succeeds() {
    let plan = dispatch(&argv(&["apt-arch", "isntall", "vim"]));
    match &plan {
        Plan::Unknown { suggestion } => assert_eq!(suggestion.as_deref(), Some("install")),
        _ => panic!("expected an unknown-verb plan"),
    }
    assert_eq!(plan.immediate_exit_code(), Some(0));
}

#[test]
fn hopeless_verb_gets_no_suggestion() {
    let plan = dispatch(&argv(&["apt-arch", "xyzxyzxyz"]));
    match &plan {
        Plan::Unknown { suggestion } => assert!(suggestion.is_none()),
        _ => panic!("expected an unknown-verb plan"),
    }
    assert_eq!(plan.immediate_exit_code(), Some(0));
}

#[test]
fn launch_exit_codes() {
    assert_eq!(launch_exit_code(true), 0);
    assert_eq!(launch_exit_code(false), 1);
}
