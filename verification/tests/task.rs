use twoliter::cmd::build_clean::BuildClean;
use twoliter::cmd::build_kit::BuildKit;
use twoliter::cmd::build_variant::BuildVariant;
use twoliter::cmd::exec::Exec;
use twoliter::cmd::install::InstallTools;
use twoliter::cmd::Project;
use twoliter::docker::image::ImageArchUri;
use twoliter::env::is_build_system_env;
use twoliter::error::ErrorKind;
use twoliter::mounts::CreatePolicy;
use twoliter::mounts::PathKind;
use twoliter::task::TaskInvocation;
use twoliter::tools::InstallAction;
use twoliter::tools::InstallEvent;
use twoliter::variables::Variables;

fn var(name: &str, value: &str) -> (String, String) {
    (name.to_string(), value.to_string())
}

fn project() -> Project {
    Project {
        project_dir: "/p".to_string(),
        sdk: Some(ImageArchUri::new(Some("reg".to_string()), "sdk", "", "v1")),
        release_version: "1.2.3".to_string(),
    }
}

fn bare_project() -> Project {
    Project {
        project_dir: "/p".to_string(),
        sdk: None,
        release_version: "1.2.3".to_string(),
    }
}

fn host() -> Vec<(String, String)> {
    vec![
        var("BUILDSYS_ARCH", "x86_64"),
        var("PATH", "/usr/bin"),
        var("HOME", "/root"),
        var("PUBLISH_REPO", "default"),
    ]
}

#[test]
fn task_arguments_in_order() {
    let mut env = Variables::new();
    env.insert("A", "1");
    env.insert("B", "x=y");
    let task = TaskInvocation {
        task: "build".to_string(),
        args: vec!["--foo".to_string(), "bar".to_string()],
        working_dir: "/p".to_string(),
        env,
        makefile: "/p/build/tools/Makefile.toml".to_string(),
    };
    assert_eq!(
        task.arguments(),
        vec![
            "make",
            "--disable-check-for-updates",
            "--makefile",
            "/p/build/tools/Makefile.toml",
            "--cwd",
            "/p",
            "-e",
            "A=1",
            "-e",
            "B=x=y",
            "build",
            "--foo",
            "bar",
        ]
    );
    let invocation = task.invocation();
    assert_eq!(invocation.program, "cargo");
    assert_eq!(invocation.args, task.arguments());
    assert!(invocation.env.is_empty());
}

#[test]
fn task_without_variables_or_arguments() {
    let task = TaskInvocation {
        task: "clean".to_string(),
        args: vec![],
        working_dir: "/p".to_string(),
        env: Variables::new(),
        makefile: "/m".to_string(),
    };
    assert_eq!(
        task.arguments(),
        vec![
            "make",
            "--disable-check-for-updates",
            "--makefile",
            "/m",
            "--cwd",
            "/p",
            "clean"
        ]
    );
}

#[test]
fn exec_build_ends_with_the_task_and_its_arguments() {
    let exec = Exec {
        project_path: None,
        cargo_home: "/cargo".to_string(),
        makefile_task: "build".to_string(),
        additional_args: vec!["--foo".to_string()],
    };
    let task = exec.task(&project(), &host());
    let args = task.arguments();
    assert_eq!(
        args,
        vec![
            "make",
            "--disable-check-for-updates",
            "--makefile",
            "/p/build/tools/Makefile.toml",
            "--cwd",
            "/p",
            "-e",
            "BUILDSYS_ARCH=x86_64",
            "-e",
            "PUBLISH_REPO=default",
            "-e",
            "CARGO_HOME=/cargo",
            "build",
            "--foo",
        ]
    );
    assert_eq!(args[args.len() - 2..], ["build", "--foo"]);
    let mut i = 6;
    while i + 2 < args.len() {
        assert_eq!(args[i], "-e");
        let name = args[i + 1].split('=').next().unwrap();
        assert!(is_build_system_env(name) || name == "CARGO_HOME");
        i += 2;
    }
}

#[test]
fn exec_installs_unforced_and_declares_cargo_home() {
    let exec = Exec {
        project_path: Some("/p/Twoliter.toml".to_string()),
        cargo_home: "/cargo".to_string(),
        makefile_task: "build".to_string(),
        additional_args: vec![],
    };
    let mut cache = exec.install(&project(), "H");
    assert!(matches!(
        cache.pending(),
        InstallAction::CreateDir { path } if path == "/p/build/tools"
    ));
    cache.step(InstallEvent::Done);
    cache.step(InstallEvent::Marker(Some("H".to_string())));
    assert!(matches!(cache.pending(), InstallAction::Finish(Ok(_))));
    let declared = exec.declared_paths();
    assert_eq!(declared.len(), 1);
    assert_eq!(declared[0].path, "/cargo");
    assert_eq!(declared[0].kind, PathKind::Dir);
    assert_eq!(declared[0].create, CreatePolicy::Create);
}

#[test]
fn install_command_can_force() {
    let install = InstallTools {
        project_path: None,
        force: true,
    };
    let mut cache = install.install(&project(), "H");
    cache.step(InstallEvent::Done);
    cache.step(InstallEvent::Marker(Some("H".to_string())));
    assert!(matches!(
        cache.pending(),
        InstallAction::Unpack { directory } if directory == "/p/build/tools"
    ));
}

#[test]
fn project_paths_and_variables() {
    assert_eq!(project().tools_dir(), "/p/build/tools");
    assert_eq!(project().makefile(), "/p/build/tools/Makefile.toml");
    assert_eq!(
        project().task_variables("aarch64").unwrap(),
        vec![
            var("BUILDSYS_ROOT_DIR", "/p"),
            var("TLPRIVATE_SDK_IMAGE", "reg/sdk-aarch64:v1"),
            var("TWOLITER_TOOLS_DIR", "/p/build/tools"),
        ]
    );
    let error = bare_project().task_variables("x86_64").unwrap_err();
    assert!(matches!(error.kind(), ErrorKind::MissingSdk));
    assert_eq!(
        error.chain(),
        vec!["No image is configured for the build environment"]
    );
}

#[test]
fn clean_runs_the_clean_task() {
    let clean = BuildClean { project_path: None };
    let task = clean.task(&project(), "x86_64", &host()).unwrap();
    assert_eq!(task.task, "clean");
    assert!(task.args.is_empty());
    assert_eq!(task.working_dir, "/p");
    assert_eq!(task.makefile, "/p/build/tools/Makefile.toml");
    assert_eq!(
        task.env.entries(),
        vec![
            var("BUILDSYS_ARCH", "x86_64"),
            var("PUBLISH_REPO", "default"),
            var("BUILDSYS_ROOT_DIR", "/p"),
            var("TLPRIVATE_SDK_IMAGE", "reg/sdk-x86_64:v1"),
            var("TWOLITER_TOOLS_DIR", "/p/build/tools"),
        ]
    );
    assert!(clean.task(&bare_project(), "x86_64", &host()).is_err());
}

#[test]
fn kit_build_sets_its_variables() {
    let kit = BuildKit {
        project_path: None,
        arch: "aarch64".to_string(),
        kit: "core".to_string(),
        lookaside_cache: None,
        upstream_source_fallback: false,
    };
    let go_modules = vec!["a".to_string(), "b".to_string()];
    assert_eq!(
        kit.overrides(&project(), &go_modules).unwrap(),
        vec![
            var("BUILDSYS_ROOT_DIR", "/p"),
            var("TLPRIVATE_SDK_IMAGE", "reg/sdk-aarch64:v1"),
            var("TWOLITER_TOOLS_DIR", "/p/build/tools"),
            var("BUILDSYS_ARCH", "aarch64"),
            var("BUILDSYS_KIT", "core"),
            var("BUILDSYS_VERSION_IMAGE", "1.2.3"),
            var("GO_MODULES", "a b"),
            var("BUILDSYS_UPSTREAM_SOURCE_FALLBACK", "false"),
        ]
    );
    let task = kit.task(&project(), &go_modules, &host()).unwrap();
    assert_eq!(task.task, "build-kit");
    assert_eq!(task.env.get("BUILDSYS_ARCH"), Some("aarch64".to_string()));
    assert_eq!(task.env.get("PUBLISH_REPO"), Some("default".to_string()));
    assert_eq!(task.env.get("PATH"), None);
    assert_eq!(task.env.len(), 9);
    assert!(kit.task(&bare_project(), &go_modules, &host()).is_err());
    assert!(kit.overrides(&bare_project(), &go_modules).is_err());
}

#[test]
fn variant_build_sets_its_variables() {
    let variant = BuildVariant {
        project_path: None,
        arch: "x86_64".to_string(),
        variant: "aws-dev".to_string(),
        lookaside_cache: Some("https://cache".to_string()),
        upstream_source_fallback: true,
        infra_toml: Some("/etc/Infra.toml".to_string()),
    };
    assert_eq!(variant.sbkeys_dir(&project()), "/p/sbkeys");
    assert_eq!(
        variant.overrides(&project(), &vec![]).unwrap(),
        vec![
            var("BUILDSYS_ROOT_DIR", "/p"),
            var("TLPRIVATE_SDK_IMAGE", "reg/sdk-x86_64:v1"),
            var("TWOLITER_TOOLS_DIR", "/p/build/tools"),
            var("BUILDSYS_ARCH", "x86_64"),
            var("BUILDSYS_VARIANT", "aws-dev"),
            var("BUILDSYS_VERSION_IMAGE", "1.2.3"),
            var("GO_MODULES", ""),
            var("BUILDSYS_UPSTREAM_SOURCE_FALLBACK", "true"),
            var("BUILDSYS_LOOKASIDE_CACHE", "https://cache"),
            var("BUILDSYS_SBKEYS_DIR", "/p/sbkeys"),
            var("PUBLISH_INFRA_CONFIG_PATH", "/etc/Infra.toml"),
        ]
    );
    let task = variant.task(&project(), &vec![], &host()).unwrap();
    assert_eq!(task.task, "build");
    assert_eq!(task.env.get("BUILDSYS_ARCH"), Some("x86_64".to_string()));
    assert_eq!(task.env.len(), 12);
    let declared = variant.declared_paths();
    assert_eq!(declared.len(), 1);
    assert_eq!(declared[0].path, "/etc/Infra.toml");
    assert_eq!(declared[0].kind, PathKind::File);
    assert_eq!(declared[0].create, CreatePolicy::MustExist);
    assert!(variant.task(&bare_project(), &vec![], &host()).is_err());
}

#[test]
fn variant_build_fetches_from_the_helper_container() {
    let variant = BuildVariant {
        project_path: None,
        arch: "x86_64".to_string(),
        variant: "aws-dev".to_string(),
        lookaside_cache: None,
        upstream_source_fallback: false,
        infra_toml: None,
    };
    assert!(variant.declared_paths().is_empty());
    let e = variant.extraction(&project(), "abc123", "/p/.tmpXYZ", false);
    assert_eq!(e.container, "sdk-abc123");
    assert_eq!(e.packages_dir, "/p/.tmpXYZ/sdk_rpms");
    assert_eq!(e.container_rpms, "twoliter/alpha/build/rpms");
    assert_eq!(e.copied_rpms, "/p/.tmpXYZ/sdk_rpms/rpms");
    assert_eq!(e.rpms_dir, "/p/build/rpms");
    assert_eq!(e.sbkeys_dir, "/p/sbkeys");
    assert_eq!(
        e.container_sbkeys,
        Some("twoliter/alpha/sbkeys/generate-local-sbkeys".to_string())
    );
    let e = variant.extraction(&project(), "abc123", "/p/.tmpXYZ", true);
    assert_eq!(e.container_sbkeys, None);
}

#[test]
fn models_placeholder_only_where_the_project_has_none() {
    assert_eq!(project().models_dir(), "/p/sources/models");
    assert!(project().models_placeholder(true).is_none());
    let placeholder = project().models_placeholder(false).unwrap();
    assert_eq!(placeholder.create, "/p/sources/models/src/variant");
    assert_eq!(placeholder.owned, "/p/sources/models");
}

#[test]
fn task_in_a_container_gets_the_mounts() {
    let task = TaskInvocation {
        task: "build".to_string(),
        args: vec!["--foo".to_string()],
        working_dir: "/p".to_string(),
        env: Variables::new(),
        makefile: "/m".to_string(),
    };
    let mounts = vec![
        twoliter::mounts::MountSpec {
            source: "/p".to_string(),
            destination: "/p".to_string(),
            kind: PathKind::Dir,
            read_only: false,
        },
        twoliter::mounts::MountSpec {
            source: "/etc/Infra.toml".to_string(),
            destination: "/etc/Infra.toml".to_string(),
            kind: PathKind::File,
            read_only: true,
        },
    ];
    let image = twoliter::docker::image::ImageUri::new(None, "twoliter", "latest");
    let run = task.container_run(&image, &mounts);
    assert_eq!(
        run.args(),
        vec![
            "run",
            "--rm",
            "--mount",
            "type=bind,source=/p,target=/p",
            "--mount",
            "type=bind,source=/etc/Infra.toml,target=/etc/Infra.toml,readonly",
            "--workdir",
            "/p",
            "twoliter:latest",
            "cargo",
            "make",
            "--disable-check-for-updates",
            "--makefile",
            "/m",
            "--cwd",
            "/p",
            "build",
            "--foo",
        ]
    );
    let invocation = run.invocation();
    assert_eq!(invocation.program, "docker");
    assert_eq!(invocation.args, run.args());
    assert!(invocation.env.is_empty());
    let bare = task.container_run(&image, &vec![]);
    assert_eq!(bare.args()[..5], ["run", "--rm", "--workdir", "/p", "twoliter:latest"]);
}
