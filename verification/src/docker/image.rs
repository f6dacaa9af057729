//! Container image locators and the text that names them.

use vstd::prelude::*;
use vstd::string::StringExecFns;

verus! {

/// The architecture that is built for where none is asked for.
pub const DEFAULT_ARCH: &'static str = "x86_64";

/// The registry of the toolchain image that is used where none is configured.
pub const DEFAULT_REGISTRY: &'static str = "public.ecr.aws/bottlerocket";

/// The name of that toolchain image, before the architecture is added.
pub const DEFAULT_SDK_NAME: &'static str = "bottlerocket-sdk";

/// The version of that toolchain image.
pub const DEFAULT_SDK_VERSION: &'static str = "v0.32.0";

/// What an `ImageUri` stands for.
pub struct ImageUriView {
    pub registry: Option<Seq<char>>,
    pub repo: Seq<char>,
    pub tag: Seq<char>,
}

impl ImageUriView {
    /// The text `registry/repo:tag`, or `repo:tag` where there is no registry.
    pub open spec fn uri(self) -> Seq<char> {
        match self.registry {
            None => self.repo + seq![':'] + self.tag,
            Some(registry) => registry + seq!['/'] + self.repo + seq![':'] + self.tag,
        }
    }
}

/// A container image such as `public.ecr.aws/myregistry/myrepo:v0.1.0`. The
/// registry is optional: without one the image is looked for locally first.
#[derive(Debug, Hash)]
pub struct ImageUri {
    /// e.g. public.ecr.aws/bottlerocket
    registry: Option<String>,
    /// e.g. my-repo
    repo: String,
    /// e.g. v0.31.0
    tag: String,
}

impl View for ImageUri {
    type V = ImageUriView;

    closed spec fn view(&self) -> ImageUriView {
        ImageUriView { registry: self.registry.deep_view(), repo: self.repo@, tag: self.tag@ }
    }
}

impl DeepView for ImageUri {
    type V = ImageUriView;

    open spec fn deep_view(&self) -> ImageUriView {
        self@
    }
}

impl ImageUri {
    /// Create a new `ImageUri`.
    pub fn new(registry: Option<String>, repo: &str, tag: &str) -> (r: Self)
        ensures
            r@ == (ImageUriView { registry: registry.deep_view(), repo: repo@, tag: tag@ }),
    {
        Self { registry, repo: String::from_str(repo), tag: String::from_str(tag) }
    }

    /// The image's name for use with the container tool, e.g.
    /// `public.ecr.aws/myregistry/myrepo:v0.1.0`.
    pub fn uri(&self) -> (r: String)
        ensures
            r@ == self@.uri(),
    {
        proof {
            reveal_strlit(":");
            reveal_strlit("/");
        }
        let mut s = String::new();
        match &self.registry {
            None => {},
            Some(registry) => {
                s.append(registry.as_str());
                s.append("/");
            },
        }
        s.append(self.repo.as_str());
        s.append(":");
        s.append(self.tag.as_str());
        assert(s@ =~= self@.uri());
        s
    }
}

impl Clone for ImageUri {
    fn clone(&self) -> (r: Self)
        ensures
            r@ == self@,
    {
        let registry = match &self.registry {
            None => None,
            Some(registry) => Some(registry.clone()),
        };
        Self { registry, repo: self.repo.clone(), tag: self.tag.clone() }
    }
}

impl Default for ImageUri {
    fn default() -> (r: Self)
        ensures
            r@ == (ImageUriView { registry: None, repo: Seq::empty(), tag: Seq::empty() }),
    {
        Self { registry: None, repo: String::new(), tag: String::new() }
    }
}

impl PartialEq for ImageUri {
    fn eq(&self, other: &Self) -> (r: bool) {
        let same_registry = match (&self.registry, &other.registry) {
            (None, None) => true,
            (Some(a), Some(b)) => *a == *b,
            _ => false,
        };
        same_registry && self.repo == other.repo && self.tag == other.tag
    }
}

impl vstd::std_specs::cmp::PartialEqSpecImpl for ImageUri {
    open spec fn obeys_eq_spec() -> bool {
        true
    }

    open spec fn eq_spec(&self, other: &Self) -> bool {
        self@ == other@
    }
}

impl Eq for ImageUri {

}

/// What an `ImageArchUri` stands for.
pub struct ImageArchUriView {
    pub registry: Option<Seq<char>>,
    pub name: Seq<char>,
    pub arch: Seq<char>,
    pub tag: Seq<char>,
}

impl ImageArchUriView {
    /// The text `registry/name-arch:tag`, or `name-arch:tag` where there is no
    /// registry.
    pub open spec fn uri(self) -> Seq<char> {
        match self.registry {
            None => self.name + seq!['-'] + self.arch + seq![':'] + self.tag,
            Some(registry) => registry + seq!['/'] + self.name + seq!['-'] + self.arch + seq![':']
                + self.tag,
        }
    }
}

/// A container image that is specialized for a target architecture, e.g.
/// `public.ecr.aws/bottlerocket/bottlerocket-sdk-x86_64:v0.1.0`. The registry
/// is optional. The architecture is added to the name when the image's text is
/// made.
#[derive(Debug, Hash)]
pub struct ImageArchUri {
    /// e.g. public.ecr.aws/bottlerocket
    registry: Option<String>,
    /// e.g. bottlerocket-sdk
    name: String,
    /// e.g. x86_64
    arch: String,
    /// e.g. v0.31.0
    tag: String,
}

impl View for ImageArchUri {
    type V = ImageArchUriView;

    closed spec fn view(&self) -> ImageArchUriView {
        ImageArchUriView {
            registry: self.registry.deep_view(),
            name: self.name@,
            arch: self.arch@,
            tag: self.tag@,
        }
    }
}

impl DeepView for ImageArchUri {
    type V = ImageArchUriView;

    open spec fn deep_view(&self) -> ImageArchUriView {
        self@
    }
}

impl ImageArchUri {
    /// Create a new `ImageArchUri`.
    pub fn new(registry: Option<String>, name: &str, arch: &str, tag: &str) -> (r: Self)
        ensures
            r@ == (ImageArchUriView {
                registry: registry.deep_view(),
                name: name@,
                arch: arch@,
                tag: tag@,
            }),
    {
        Self {
            registry,
            name: String::from_str(name),
            arch: String::from_str(arch),
            tag: String::from_str(tag),
        }
    }

    /// The image's name for use with the container tool, e.g.
    /// `public.ecr.aws/bottlerocket/bottlerocket-sdk-x86_64:v0.1.0`.
    pub fn uri(&self) -> (r: String)
        ensures
            r@ == self@.uri(),
    {
        proof {
            reveal_strlit(":");
            reveal_strlit("/");
            reveal_strlit("-");
        }
        let mut s = String::new();
        match &self.registry {
            None => {},
            Some(registry) => {
                s.append(registry.as_str());
                s.append("/");
            },
        }
        s.append(self.name.as_str());
        s.append("-");
        s.append(self.arch.as_str());
        s.append(":");
        s.append(self.tag.as_str());
        assert(s@ =~= self@.uri());
        s
    }
}

impl ImageArchUri {
    /// The same image for another architecture.
    pub fn with_arch(&self, arch: &str) -> (r: Self)
        ensures
            r@ == (ImageArchUriView { arch: arch@, ..self@ }),
    {
        let registry = match &self.registry {
            None => None,
            Some(registry) => Some(registry.clone()),
        };
        Self {
            registry,
            name: self.name.clone(),
            arch: String::from_str(arch),
            tag: self.tag.clone(),
        }
    }
}

impl Clone for ImageArchUri {
    fn clone(&self) -> (r: Self)
        ensures
            r@ == self@,
    {
        let registry = match &self.registry {
            None => None,
            Some(registry) => Some(registry.clone()),
        };
        Self {
            registry,
            name: self.name.clone(),
            arch: self.arch.clone(),
            tag: self.tag.clone(),
        }
    }
}

impl Default for ImageArchUri {
    fn default() -> (r: Self)
        ensures
            r@ == (ImageArchUriView {
                registry: None,
                name: Seq::empty(),
                arch: Seq::empty(),
                tag: Seq::empty(),
            }),
    {
        Self { registry: None, name: String::new(), arch: String::new(), tag: String::new() }
    }
}

impl PartialEq for ImageArchUri {
    fn eq(&self, other: &Self) -> (r: bool) {
        let same_registry = match (&self.registry, &other.registry) {
            (None, None) => true,
            (Some(a), Some(b)) => *a == *b,
            _ => false,
        };
        same_registry && self.name == other.name && self.arch == other.arch && self.tag
            == other.tag
    }
}

impl vstd::std_specs::cmp::PartialEqSpecImpl for ImageArchUri {
    open spec fn obeys_eq_spec() -> bool {
        true
    }

    open spec fn eq_spec(&self, other: &Self) -> bool {
        self@ == other@
    }
}

impl Eq for ImageArchUri {

}

/// The toolchain image that is used where the project names none.
pub open spec fn default_sdk_view() -> ImageArchUriView {
    ImageArchUriView {
        registry: Some(DEFAULT_REGISTRY@),
        name: DEFAULT_SDK_NAME@,
        arch: DEFAULT_ARCH@,
        tag: DEFAULT_SDK_VERSION@,
    }
}

/// The toolchain image that is used where the project names none.
pub fn default_sdk() -> (r: ImageArchUri)
    ensures
        r@ == default_sdk_view(),
{
    ImageArchUri::new(
        Some(String::from_str(DEFAULT_REGISTRY)),
        DEFAULT_SDK_NAME,
        DEFAULT_ARCH,
        DEFAULT_SDK_VERSION,
    )
}

} // verus!
