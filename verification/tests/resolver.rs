use upkeep::environment::env_var;
use upkeep::environment::path_exists;
use upkeep::environment::require;
use upkeep::environment::require_option;
use upkeep::environment::require_path;
use upkeep::environment::Arch;
use upkeep::environment::EnvVar;
use upkeep::environment::Environment;
use upkeep::environment::ExeEntry;
use upkeep::environment::PathEntry;
use upkeep::environment::Probe;

fn entry(dir: &str, names: &[&str]) -> PathEntry {
    PathEntry {
        dir: dir.to_string(),
        entries: names
            .iter()
            .map(|n| ExeEntry {
                name: n.to_string(),
                full_path: format!("{}/{}", dir, n),
            })
            .collect(),
    }
}

fn env_of(entries: Vec<PathEntry>, files: &[&str], vars: &[(&str, &str)]) -> Environment {
    Environment {
        path_entries: entries,
        files: files.iter().map(|f| f.to_string()).collect(),
        env_vars: vars
            .iter()
            .map(|(n, v)| EnvVar { name: n.to_string(), value: v.to_string() })
            .collect(),
        arch: Arch::X64,
        macos: false,
        nixos: false,
    }
}

#[test]
fn missing_binary_probes_missing() {
    let env = env_of(vec![entry("/usr/bin", &["ls"])], &[], &[]);
    match require(&env, "frobnicate") {
        Probe::Missing { reason } => assert_eq!(reason, "\"frobnicate\" not found"),
        Probe::Found { path } => panic!("unexpected: {}", path),
    }
}

#[test]
fn present_binary_probes_found_with_its_path() {
    let env = env_of(vec![entry("/usr/bin", &["fish", "ls"])], &[], &[]);
    match require(&env, "fish") {
        Probe::Found { path } => assert_eq!(path, "/usr/bin/fish"),
        Probe::Missing { reason } => panic!("unexpected: {}", reason),
    }
}

#[test]
fn search_path_order_picks_the_first_match() {
    let env = env_of(
        vec![entry("/opt/bin", &["tool"]), entry("/usr/bin", &["tool"])],
        &[],
        &[],
    );
    match require(&env, "tool") {
        Probe::Found { path } => assert_eq!(path, "/opt/bin/tool"),
        Probe::Missing { reason } => panic!("unexpected: {}", reason),
    }
}

#[test]
fn probing_twice_yields_the_same_result() {
    let env = env_of(vec![entry("/usr/bin", &["fish"])], &[], &[]);
    let first = match require(&env, "fish") {
        Probe::Found { path } => path,
        Probe::Missing { reason } => panic!("unexpected: {}", reason),
    };
    let second = match require(&env, "fish") {
        Probe::Found { path } => path,
        Probe::Missing { reason } => panic!("unexpected: {}", reason),
    };
    assert_eq!(first, second);
}

#[test]
fn path_probe_checks_existence_only() {
    let env = env_of(vec![], &["/home/user/.bash_it"], &[]);
    assert!(matches!(require_path(&env, "/home/user/.bash_it"), Probe::Found { .. }));
    match require_path(&env, "/home/user/.zsh_it") {
        Probe::Missing { reason } => {
            assert_eq!(reason, "\"/home/user/.zsh_it\" does not exist")
        },
        Probe::Found { path } => panic!("unexpected: {}", path),
    }
    assert!(path_exists(&env, "/home/user/.bash_it"));
    assert!(!path_exists(&env, "/home/user/.zsh_it"));
}

#[test]
fn option_probe_keeps_the_reason_verbatim() {
    match require_option(None, "no desktop".to_string()) {
        Probe::Missing { reason } => assert_eq!(reason, "no desktop"),
        Probe::Found { path } => panic!("unexpected: {}", path),
    }
    match require_option(Some("value".to_string()), "unused".to_string()) {
        Probe::Found { path } => assert_eq!(path, "value"),
        Probe::Missing { reason } => panic!("unexpected: {}", reason),
    }
}

#[test]
fn env_var_lookup_finds_set_variables() {
    let env = env_of(vec![], &[], &[("SDKMAN_DIR", "/opt/sdkman")]);
    assert_eq!(env_var(&env, "SDKMAN_DIR"), Some("/opt/sdkman".to_string()));
    assert_eq!(env_var(&env, "OTHER"), None);
}
