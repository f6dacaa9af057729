use twoliter::docker::image::default_sdk;
use twoliter::docker::image::ImageArchUri;
use twoliter::docker::image::ImageUri;
use twoliter::docker::image::DEFAULT_ARCH;

#[test]
fn image_uri_without_registry() {
    assert_eq!(ImageUri::new(None, "repo", "v1").uri(), "repo:v1");
}

#[test]
fn image_uri_with_registry() {
    assert_eq!(
        ImageUri::new(Some("reg".to_string()), "repo", "v1").uri(),
        "reg/repo:v1"
    );
}

#[test]
fn image_arch_uri_without_registry() {
    assert_eq!(
        ImageArchUri::new(None, "sdk", "x86_64", "v1").uri(),
        "sdk-x86_64:v1"
    );
}

#[test]
fn image_arch_uri_with_registry() {
    assert_eq!(
        ImageArchUri::new(Some("reg".to_string()), "sdk", "x86_64", "v1").uri(),
        "reg/sdk-x86_64:v1"
    );
}

#[test]
fn default_sdk_is_the_pinned_toolchain() {
    assert_eq!(DEFAULT_ARCH, "x86_64");
    assert_eq!(
        default_sdk().uri(),
        "public.ecr.aws/bottlerocket/bottlerocket-sdk-x86_64:v0.32.0"
    );
}

#[test]
fn image_with_other_arch_keeps_the_rest() {
    let sdk = default_sdk().with_arch("aarch64");
    assert_eq!(
        sdk.uri(),
        "public.ecr.aws/bottlerocket/bottlerocket-sdk-aarch64:v0.32.0"
    );
}

#[test]
fn images_compare_by_their_parts() {
    let a = ImageUri::new(None, "repo", "v1");
    let b = ImageUri::new(None, "repo", "v1");
    let c = ImageUri::new(Some("reg".to_string()), "repo", "v1");
    assert!(a == b);
    assert!(a != c);
    assert!(a.clone() == a);
    assert!(ImageUri::default() == ImageUri::new(None, "", ""));
    let x = ImageArchUri::new(None, "sdk", "x86_64", "v1");
    assert!(x.clone() == x);
    assert!(x != ImageArchUri::default());
    assert_eq!(ImageArchUri::default().uri(), "-:");
}
