use twoliter::common::OutputMode;
use twoliter::common::ProcessOutput;
use twoliter::docker::image::ImageArchUri;
use twoliter::docker::twoliter::ImageProvisioner;
use twoliter::docker::twoliter::ProvisionAction;
use twoliter::docker::twoliter::ProvisionEvent;

fn sdk() -> ImageArchUri {
    ImageArchUri::new(Some("reg".to_string()), "sdk", "x86_64", "v1")
}

fn ran(success: bool, code: Option<i32>, mode: OutputMode) -> ProvisionEvent {
    ProvisionEvent::Ran {
        command: "docker build".to_string(),
        mode,
        ended: Ok(ProcessOutput {
            success,
            code,
            stdout: "out".to_string(),
            stderr: "err".to_string(),
        }),
    }
}

#[test]
fn image_is_built_in_four_steps() {
    let mut provisioner = ImageProvisioner::new(&sdk(), "/tmp/x");
    assert_eq!(provisioner.context_dir(), "/tmp/x/context");
    assert_eq!(provisioner.files_dir(), "/tmp/x/context/files");
    assert_eq!(provisioner.dockerfile_path(), "/tmp/x/Twoliter.dockerfile");
    assert!(matches!(
        provisioner.pending(),
        ProvisionAction::CreateDir { path } if path == "/tmp/x/context/files"
    ));
    provisioner.step(ProvisionEvent::Done);
    assert!(matches!(
        provisioner.pending(),
        ProvisionAction::WriteDockerfile { path } if path == "/tmp/x/Twoliter.dockerfile"
    ));
    provisioner.step(ProvisionEvent::Done);
    assert!(matches!(
        provisioner.pending(),
        ProvisionAction::UnpackTools { directory } if directory == "/tmp/x/context/files"
    ));
    provisioner.step(ProvisionEvent::Done);
    match provisioner.pending() {
        ProvisionAction::Run(invocation) => {
            assert_eq!(invocation.program, "docker");
            assert_eq!(
                invocation.args,
                vec![
                    "build",
                    "--file",
                    "/tmp/x/Twoliter.dockerfile",
                    "--tag",
                    "twoliter:latest",
                    "--build-arg=BASE=reg/sdk-x86_64:v1",
                    "/tmp/x/context",
                ]
            );
            assert_eq!(
                invocation.env,
                vec![("DOCKER_BUILDKIT".to_string(), "1".to_string())]
            );
        }
        other => panic!("unexpected {:?}", other),
    }
    provisioner.step(ran(true, Some(0), OutputMode::Buffered));
    match provisioner.pending() {
        ProvisionAction::Finish(Ok(image)) => assert_eq!(image.uri(), "twoliter:latest"),
        other => panic!("unexpected {:?}", other),
    }
    assert_eq!(ImageProvisioner::image().uri(), "twoliter:latest");
}

#[test]
fn failed_build_is_told_with_its_output() {
    let mut provisioner = ImageProvisioner::new(&sdk(), "/tmp/x");
    provisioner.step(ProvisionEvent::Done);
    provisioner.step(ProvisionEvent::Done);
    provisioner.step(ProvisionEvent::Done);
    provisioner.step(ran(false, Some(125), OutputMode::Buffered));
    match provisioner.pending() {
        ProvisionAction::Finish(Err(error)) => {
            assert_eq!(
                error.chain(),
                vec![
                    "Unable to build the twoliter container",
                    "Command 'docker build' was unsuccessful, exit code 125:\nout\nerr",
                ]
            );
            assert_eq!(error.exit_code(), 125);
        }
        other => panic!("unexpected {:?}", other),
    }
}

#[test]
fn build_that_does_not_start_fails() {
    let mut provisioner = ImageProvisioner::new(&sdk(), "/tmp/x");
    provisioner.step(ProvisionEvent::Done);
    provisioner.step(ProvisionEvent::Done);
    provisioner.step(ProvisionEvent::Done);
    provisioner.step(ProvisionEvent::Ran {
        command: "docker build".to_string(),
        mode: OutputMode::Streamed,
        ended: Err("No such file or directory".to_string()),
    });
    match provisioner.pending() {
        ProvisionAction::Finish(Err(error)) => assert_eq!(
            error.chain(),
            vec![
                "Unable to build the twoliter container",
                "Unable to start command 'docker build'",
                "No such file or directory",
            ]
        ),
        other => panic!("unexpected {:?}", other),
    }
}

#[test]
fn failures_while_preparing_end_the_attempt() {
    let mut provisioner = ImageProvisioner::new(&sdk(), "/s");
    provisioner.step(ProvisionEvent::Failed("denied".to_string()));
    match provisioner.pending() {
        ProvisionAction::Finish(Err(error)) => assert_eq!(
            error.chain(),
            vec![
                "Unable to prepare directory for building the twoliter image",
                "Unable to create directory '/s/context/files'",
                "denied",
            ]
        ),
        other => panic!("unexpected {:?}", other),
    }
    let mut provisioner = ImageProvisioner::new(&sdk(), "/s");
    provisioner.step(ProvisionEvent::Done);
    provisioner.step(ProvisionEvent::Failed("full".to_string()));
    match provisioner.pending() {
        ProvisionAction::Finish(Err(error)) => assert_eq!(
            error.chain(),
            vec![
                "Unable to prepare directory for building the twoliter image",
                "Unable to write to '/s/Twoliter.dockerfile'",
                "full",
            ]
        ),
        other => panic!("unexpected {:?}", other),
    }
    let mut provisioner = ImageProvisioner::new(&sdk(), "/s");
    provisioner.step(ProvisionEvent::Done);
    provisioner.step(ProvisionEvent::Done);
    provisioner.step(ProvisionEvent::Failed("bad archive".to_string()));
    match provisioner.pending() {
        ProvisionAction::Finish(Err(error)) => assert_eq!(
            error.chain(),
            vec![
                "Unable to prepare directory for building the twoliter image",
                "Unable to install tools",
                "Unable to unpack tarball into directory '/s/context/files'",
                "bad archive",
            ]
        ),
        other => panic!("unexpected {:?}", other),
    }
}

#[test]
fn provisioner_ignores_what_does_not_answer() {
    let mut provisioner = ImageProvisioner::new(&sdk(), "/s");
    provisioner.step(ran(true, Some(0), OutputMode::Streamed));
    assert!(matches!(provisioner.pending(), ProvisionAction::CreateDir { .. }));
    provisioner.step(ProvisionEvent::Done);
    provisioner.step(ProvisionEvent::Done);
    provisioner.step(ProvisionEvent::Done);
    provisioner.step(ProvisionEvent::Done);
    assert!(matches!(provisioner.pending(), ProvisionAction::Run(_)));
}
