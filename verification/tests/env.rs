use twoliter::env::is_build_system_env;
use twoliter::env::EnvVarRule;
use twoliter::env::EnvironmentSurface;
use twoliter::env::ENV_VARS;
use twoliter::variables::Variables;

fn var(name: &str, value: &str) -> (String, String) {
    (name.to_string(), value.to_string())
}

#[test]
fn test_is_build_system_env() {
    assert!(is_build_system_env(
        "CARGO_MAKE_DEFAULT_TESTSYS_KUBECONFIG_PATH"
    ));
    assert!(is_build_system_env("BUILDSYS_PRETTY_NAME"));
    assert!(!is_build_system_env("PATH"));
    assert!(!is_build_system_env("HOME"));
}

#[test]
fn every_prefix_and_every_listed_name_passes() {
    for name in [
        "BUILDSYS_",
        "PUBLISH_REPO",
        "REPO_X",
        "TESTSYS_Y",
        "BOOT_CONFIG",
        "BOOT_CONFIG_ANYTHING",
    ] {
        assert!(is_build_system_env(name), "{}", name);
    }
    for name in ENV_VARS {
        assert!(is_build_system_env(name), "{}", name);
    }
    for name in ["", "BUILDSYS", "buildsys_arch", "XBUILDSYS_", "ALLOW_MISSING_KEYS", "REPO"] {
        assert!(!is_build_system_env(name), "{}", name);
    }
}

#[test]
fn build_system_surface_agrees_with_the_check() {
    let surface = EnvironmentSurface::build_system();
    for name in ["BUILDSYS_ARCH", "RELEASE_START_TIME", "PATH", "HOME", "", "REPO_"] {
        assert_eq!(surface.allows(name), is_build_system_env(name), "{}", name);
    }
}

#[test]
fn surface_passes_build_variables_only() {
    let host = vec![var("BUILDSYS_ARCH", "x86_64"), var("PATH", "/usr/bin")];
    let vars = EnvironmentSurface::build_system().build(&host, &vec![]);
    assert_eq!(vars.len(), 1);
    assert_eq!(vars.name(0), "BUILDSYS_ARCH");
    assert_eq!(vars.value(0), "x86_64");
    assert_eq!(vars.get("BUILDSYS_ARCH"), Some("x86_64".to_string()));
    assert_eq!(vars.get("PATH"), None);
}

#[test]
fn overrides_come_last_and_replace() {
    let host = vec![
        var("BUILDSYS_ARCH", "x86_64"),
        var("HOME", "/root"),
        var("PUBLISH_REPO", "default"),
        var("BUILDSYS_VARIANT", "a"),
    ];
    let overrides = vec![var("CARGO_HOME", "/c"), var("BUILDSYS_ARCH", "aarch64")];
    let vars = EnvironmentSurface::build_system().build(&host, &overrides);
    assert_eq!(
        vars.entries(),
        vec![
            var("PUBLISH_REPO", "default"),
            var("BUILDSYS_VARIANT", "a"),
            var("CARGO_HOME", "/c"),
            var("BUILDSYS_ARCH", "aarch64"),
        ]
    );
}

#[test]
fn a_name_set_twice_by_the_host_has_its_last_value() {
    let host = vec![var("REPO_A", "1"), var("REPO_B", "2"), var("REPO_A", "3")];
    let vars = EnvironmentSurface::build_system().build(&host, &vec![]);
    assert_eq!(vars.entries(), vec![var("REPO_B", "2"), var("REPO_A", "3")]);
}

#[test]
fn rules_of_ones_own() {
    let surface = EnvironmentSurface::new(vec![
        EnvVarRule::exact("ONE"),
        EnvVarRule::prefix("TWO_"),
    ]);
    assert!(surface.allows("ONE"));
    assert!(!surface.allows("ONE_MORE"));
    assert!(surface.allows("TWO_X"));
    assert!(!surface.allows("TWO"));
    assert!(!EnvironmentSurface::new(vec![]).allows("ONE"));
    assert!(EnvVarRule::prefix("").admits("anything"));
    assert!(!EnvVarRule::exact("").admits("anything"));
}

#[test]
fn variables_keep_each_name_once() {
    let mut vars = Variables::new();
    assert_eq!(vars.len(), 0);
    vars.insert("A", "1");
    vars.insert("B", "2");
    vars.insert("A", "3");
    assert_eq!(vars.len(), 2);
    assert_eq!(vars.entries(), vec![var("B", "2"), var("A", "3")]);
    assert_eq!(vars.get("A"), Some("3".to_string()));
    assert_eq!(vars.get("C"), None);
    assert_eq!(vars.clone().entries(), vars.entries());
}
