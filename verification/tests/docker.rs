use twoliter::docker::commands::DockerBuild;
use twoliter::docker::commands::MountType;
use twoliter::docker::commands::_Mount;
use twoliter::docker::image::ImageUri;

fn var(name: &str, value: &str) -> (String, String) {
    (name.to_string(), value.to_string())
}

#[test]
fn default_build_is_of_the_current_directory() {
    assert_eq!(DockerBuild::default().args(), vec!["build", "."]);
}

#[test]
fn build_arguments_in_order() {
    let build = DockerBuild::default()
        .dockerfile("./Dockerfile")
        .context_dir("ctx")
        .tag(ImageUri::new(None, "twoliter", "latest"))
        .build_arg("BASE", "sdk-x86_64:v1")
        .build_arg("OTHER", "x");
    assert_eq!(
        build.args(),
        vec![
            "build",
            "--file",
            "./Dockerfile",
            "--tag",
            "twoliter:latest",
            "--build-arg=BASE=sdk-x86_64:v1",
            "--build-arg=OTHER=x",
            "ctx",
        ]
    );
}

#[test]
fn a_build_arg_set_again_has_its_new_value() {
    let build = DockerBuild::default()
        .build_arg("A", "1")
        .build_arg("B", "2")
        .build_arg("A", "3");
    assert_eq!(
        build.args(),
        vec!["build", "--build-arg=B=2", "--build-arg=A=3", "."]
    );
    let build = DockerBuild::default()
        .build_arg("A", "1")
        ._build_args(vec![var("B", "2"), var("A", "3"), var("C", "4")]);
    assert_eq!(
        build.args(),
        vec![
            "build",
            "--build-arg=B=2",
            "--build-arg=A=3",
            "--build-arg=C=4",
            "."
        ]
    );
}

#[test]
fn build_invocation_turns_buildkit_on() {
    let invocation = DockerBuild::default().context_dir("/c").invocation();
    assert_eq!(invocation.program, "docker");
    assert_eq!(invocation.args, vec!["build", "/c"]);
    assert_eq!(invocation.env, vec![var("DOCKER_BUILDKIT", "1")]);
}

#[test]
fn mount_as_argument() {
    let mount = _Mount::_new("/foo");
    assert_eq!(mount._type, MountType::Bind);
    assert_eq!(mount._source, "/foo");
    assert_eq!(mount._destination, "/foo");
    assert!(!mount._read_only);
    assert_eq!(mount._as_arg(), "type=bind,source=/foo,target=/foo");
}

#[test]
fn read_only_mount_as_argument() {
    let mut mount = _Mount::_new("/foo");
    mount._destination = "/bar".to_string();
    mount._read_only = true;
    assert_eq!(mount._as_arg(), "type=bind,source=/foo,target=/bar,readonly");
    assert_eq!(mount.clone()._as_arg(), mount._as_arg());
}

#[test]
fn mount_types_by_name() {
    assert_eq!(MountType::default(), MountType::Bind);
    assert_eq!(MountType::Bind.name(), "bind");
    assert_eq!(MountType::_Volume.name(), "__volume");
    assert_eq!(MountType::_Tmpfs.name(), "__tmpfs");
    assert_eq!(_Mount::default()._as_arg(), "type=bind,source=,target=");
}
