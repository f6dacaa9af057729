//! The environment variables that reach the task runner: those of the host
//! that a rule lets through, and those that the tool sets itself.

use vstd::prelude::*;
use vstd::string::StringExecFns;
use crate::text::same_text;
use crate::text::starts_with;
use crate::variables::Variable;
use crate::variables::Variables;
use crate::variables::distinct_names;
use crate::variables::value_of;
use crate::variables::with_all;
use crate::variables::with_all_sets;

verus! {

/// Variables that do not follow the naming conventions but are let through to
/// the task runner all the same.
pub const ENV_VARS: [&'static str; 13] = [
    "ALLOW_MISSING_KEY",
    "AMI_DATA_FILE_SUFFIX",
    "BOOT_CONFIG",
    "BOOT_CONFIG_INPUT",
    "CARGO_MAKE_CARGO_ARGS",
    "CARGO_MAKE_DEFAULT_TESTSYS_KUBECONFIG_PATH",
    "CARGO_MAKE_TESTSYS_ARGS",
    "CARGO_MAKE_TESTSYS_KUBECONFIG_ARG",
    "MARK_OVA_AS_TEMPLATE",
    "RELEASE_START_TIME",
    "SSM_DATA_FILE_SUFFIX",
    "VMWARE_IMPORT_SPEC_PATH",
    "VMWARE_VM_NAME_DEFAULT",
];

/// Whether a variable of this name is one of the build system's: its name
/// begins with one of the build system's prefixes or is one of `ENV_VARS`.
pub open spec fn is_build_system_name(name: Seq<char>) -> bool {
    ||| "BUILDSYS_"@.is_prefix_of(name)
    ||| "PUBLISH_"@.is_prefix_of(name)
    ||| "REPO_"@.is_prefix_of(name)
    ||| "TESTSYS_"@.is_prefix_of(name)
    ||| "BOOT_CONFIG"@.is_prefix_of(name)
    ||| exists|i: int| 0 <= i < 13 && #[trigger] ENV_VARS[i]@ == name
}

/// Returns `true` if `key` is an environment variable that needs to be passed
/// to the task runner.
pub fn is_build_system_env(key: &str) -> (r: bool)
    ensures
        r == is_build_system_name(key@),
{
    if starts_with(key, "BUILDSYS_") || starts_with(key, "PUBLISH_") || starts_with(key, "REPO_")
        || starts_with(key, "TESTSYS_") || starts_with(key, "BOOT_CONFIG") {
        return true;
    }
    let mut i: usize = 0;
    while i < 13
        invariant
            i <= 13,
            forall|j: int| 0 <= j < i ==> #[trigger] ENV_VARS[j]@ != key@,
        decreases 13 - i,
    {
        if same_text(ENV_VARS[i], key) {
            return true;
        }
        i += 1;
    }
    false
}

/// A rule that lets host variables through by their name.
#[derive(Debug)]
pub enum EnvVarRule {
    /// The variable of exactly this name.
    Exact(String),
    /// Every variable whose name begins with this text.
    Prefix(String),
}

/// What an `EnvVarRule` stands for.
pub enum EnvVarRuleView {
    Exact(Seq<char>),
    Prefix(Seq<char>),
}

impl EnvVarRuleView {
    /// Whether the rule lets a variable of this name through.
    pub open spec fn admits(self, name: Seq<char>) -> bool {
        match self {
            EnvVarRuleView::Exact(exact) => name == exact,
            EnvVarRuleView::Prefix(prefix) => prefix.is_prefix_of(name),
        }
    }
}

impl View for EnvVarRule {
    type V = EnvVarRuleView;

    open spec fn view(&self) -> EnvVarRuleView {
        match self {
            EnvVarRule::Exact(exact) => EnvVarRuleView::Exact(exact@),
            EnvVarRule::Prefix(prefix) => EnvVarRuleView::Prefix(prefix@),
        }
    }
}

impl DeepView for EnvVarRule {
    type V = EnvVarRuleView;

    open spec fn deep_view(&self) -> EnvVarRuleView {
        self@
    }
}

impl EnvVarRule {
    /// The rule for the variable of exactly this name.
    pub fn exact(name: &str) -> (r: Self)
        ensures
            r@ == EnvVarRuleView::Exact(name@),
    {
        EnvVarRule::Exact(String::from_str(name))
    }

    /// The rule for every variable whose name begins with `prefix`.
    pub fn prefix(prefix: &str) -> (r: Self)
        ensures
            r@ == EnvVarRuleView::Prefix(prefix@),
    {
        EnvVarRule::Prefix(String::from_str(prefix))
    }

    /// Whether the rule lets a variable of this name through.
    pub fn admits(&self, name: &str) -> (r: bool)
        ensures
            r == self@.admits(name@),
    {
        match self {
            EnvVarRule::Exact(exact) => same_text(name, exact.as_str()),
            EnvVarRule::Prefix(prefix) => starts_with(name, prefix.as_str()),
        }
    }
}

/// Whether one of the rules lets a variable of this name through.
pub open spec fn admitted(rules: Seq<EnvVarRuleView>, name: Seq<char>) -> bool {
    exists|i: int| 0 <= i < rules.len() && #[trigger] rules[i].admits(name)
}

/// The host's variables that the rules let through, in the host's order.
pub open spec fn admitted_variables(rules: Seq<EnvVarRuleView>, host: Seq<Variable>) -> Seq<
    Variable,
> {
    host.filter(|v: Variable| admitted(rules, v.0))
}

/// The variables that reach the task runner: first the host's that the rules
/// let through, then the overrides. Where a name is set more than once, the
/// last setting is the one that stays, at its place.
pub open spec fn surface(
    rules: Seq<EnvVarRuleView>,
    host: Seq<Variable>,
    overrides: Seq<Variable>,
) -> Seq<Variable> {
    with_all(with_all(Seq::empty(), admitted_variables(rules, host)), overrides)
}

/// Of the host's variables that the rules let through: each is one of the
/// host's and is let through by a rule; a name that a rule lets through has
/// the value that the host gave it last, and another name has none.
pub proof fn admitted_variables_are_admitted(rules: Seq<EnvVarRuleView>, host: Seq<Variable>)
    ensures
        forall|v: Variable| #[trigger]
            admitted_variables(rules, host).contains(v) <==> host.contains(v) && admitted(
                rules,
                v.0,
            ),
        forall|name: Seq<char>| #[trigger]
            value_of(admitted_variables(rules, host), name) == (if admitted(rules, name) {
                value_of(host, name)
            } else {
                None
            }),
    decreases host.len(),
{
    reveal(Seq::filter);
    let out = admitted_variables(rules, host);
    if host.len() > 0 {
        let head = host.drop_last();
        let last = host.last();
        admitted_variables_are_admitted(rules, head);
        let head_out = admitted_variables(rules, head);
        assert forall|v: Variable| #[trigger] out.contains(v) <==> host.contains(v) && admitted(
            rules,
            v.0,
        ) by {
            if out.contains(v) {
                let i = choose|i: int| 0 <= i < out.len() && out[i] == v;
                if i < head_out.len() {
                    assert(head_out[i] == v);
                    assert(head_out.contains(v));
                    let k = choose|k: int| 0 <= k < head.len() && head[k] == v;
                    assert(host[k] == v);
                } else {
                    assert(host[host.len() - 1] == v);
                }
            }
            if host.contains(v) && admitted(rules, v.0) {
                let k = choose|k: int| 0 <= k < host.len() && host[k] == v;
                if k < head.len() {
                    assert(head[k] == v);
                    assert(head.contains(v));
                    assert(head_out.contains(v));
                    let i = choose|i: int| 0 <= i < head_out.len() && head_out[i] == v;
                    assert(out[i] == v);
                } else {
                    assert(out[out.len() - 1] == v);
                }
            }
        }
        assert forall|name: Seq<char>| #[trigger]
            value_of(out, name) == (if admitted(rules, name) {
                value_of(host, name)
            } else {
                None
            }) by {
            if admitted(rules, last.0) {
                assert(out.drop_last() =~= head_out);
            }
        }
    }
}

/// What the surface holds. No name occurs twice. Each variable is one of the
/// overrides, or one of the host's that a rule lets through. A name that an
/// override sets has the value of the last override of that name. Another
/// name has the value that the host gave it last where a rule lets it
/// through, and is absent where none does.
pub proof fn surface_law(
    rules: Seq<EnvVarRuleView>,
    host: Seq<Variable>,
    overrides: Seq<Variable>,
)
    ensures
        distinct_names(surface(rules, host, overrides)),
        forall|v: Variable| #[trigger]
            surface(rules, host, overrides).contains(v) ==> overrides.contains(v) || (
            host.contains(v) && admitted(rules, v.0)),
        forall|name: Seq<char>| #[trigger]
            value_of(surface(rules, host, overrides), name) == (match value_of(overrides, name) {
                Some(value) => Some(value),
                None => if admitted(rules, name) {
                    value_of(host, name)
                } else {
                    None
                },
            }),
{
    let let_through = admitted_variables(rules, host);
    let base = with_all(Seq::empty(), let_through);
    admitted_variables_are_admitted(rules, host);
    with_all_sets(Seq::empty(), let_through);
    with_all_sets(base, overrides);
    let out = surface(rules, host, overrides);
    assert forall|v: Variable| #[trigger] out.contains(v) implies overrides.contains(v) || (
    host.contains(v) && admitted(rules, v.0)) by {
        if !overrides.contains(v) {
            assert(base.contains(v));
            assert(let_through.contains(v));
        }
    }
    assert forall|name: Seq<char>| #[trigger]
        value_of(out, name) == (match value_of(overrides, name) {
            Some(value) => Some(value),
            None => if admitted(rules, name) {
                value_of(host, name)
            } else {
                None
            },
        }) by {
        assert(value_of(base, name) == (match value_of(let_through, name) {
            Some(value) => Some(value),
            None => value_of(Seq::<Variable>::empty(), name),
        }));
    }
}

/// The build system's rules: its five prefixes, then `ENV_VARS`.
pub open spec fn build_system_rules() -> Seq<EnvVarRuleView> {
    seq![
        EnvVarRuleView::Prefix("BUILDSYS_"@),
        EnvVarRuleView::Prefix("PUBLISH_"@),
        EnvVarRuleView::Prefix("REPO_"@),
        EnvVarRuleView::Prefix("TESTSYS_"@),
        EnvVarRuleView::Prefix("BOOT_CONFIG"@),
    ] + Seq::new(13, |i: int| EnvVarRuleView::Exact(ENV_VARS[i]@))
}

/// The build system's rules let through the build system's variables, and no
/// others.
pub proof fn build_system_rules_admit(name: Seq<char>)
    ensures
        admitted(build_system_rules(), name) == is_build_system_name(name),
{
    let rules = build_system_rules();
    assert(rules.len() == 18);
    if is_build_system_name(name) {
        if "BUILDSYS_"@.is_prefix_of(name) {
            assert(rules[0].admits(name));
        } else if "PUBLISH_"@.is_prefix_of(name) {
            assert(rules[1].admits(name));
        } else if "REPO_"@.is_prefix_of(name) {
            assert(rules[2].admits(name));
        } else if "TESTSYS_"@.is_prefix_of(name) {
            assert(rules[3].admits(name));
        } else if "BOOT_CONFIG"@.is_prefix_of(name) {
            assert(rules[4].admits(name));
        } else {
            let i = choose|i: int| 0 <= i < 13 && #[trigger] ENV_VARS[i]@ == name;
            assert(rules[i + 5].admits(name));
        }
    }
    if admitted(rules, name) {
        let i = choose|i: int| 0 <= i < rules.len() && #[trigger] rules[i].admits(name);
        if i >= 5 {
            assert(ENV_VARS[i - 5]@ == name);
        }
    }
}

/// The rules by which host variables reach the task runner.
#[derive(Debug)]
pub struct EnvironmentSurface {
    rules: Vec<EnvVarRule>,
}

impl View for EnvironmentSurface {
    type V = Seq<EnvVarRuleView>;

    closed spec fn view(&self) -> Seq<EnvVarRuleView> {
        self.rules.deep_view()
    }
}

impl EnvironmentSurface {
    /// The surface that these rules make, in their order.
    pub fn new(rules: Vec<EnvVarRule>) -> (r: Self)
        ensures
            r@ == rules.deep_view(),
    {
        EnvironmentSurface { rules }
    }

    /// The surface of the build system's rules.
    pub fn build_system() -> (r: Self)
        ensures
            r@ == build_system_rules(),
    {
        let mut rules: Vec<EnvVarRule> = Vec::new();
        rules.push(EnvVarRule::prefix("BUILDSYS_"));
        rules.push(EnvVarRule::prefix("PUBLISH_"));
        rules.push(EnvVarRule::prefix("REPO_"));
        rules.push(EnvVarRule::prefix("TESTSYS_"));
        rules.push(EnvVarRule::prefix("BOOT_CONFIG"));
        let mut i: usize = 0;
        while i < 13
            invariant
                i <= 13,
                rules.len() == 5 + i,
                forall|j: int| 0 <= j < 5 ==> #[trigger] rules[j]@ == build_system_rules()[j],
                forall|j: int|
                    5 <= j < 5 + i ==> #[trigger] rules[j]@ == EnvVarRuleView::Exact(
                        ENV_VARS[j - 5]@,
                    ),
            decreases 13 - i,
        {
            rules.push(EnvVarRule::exact(ENV_VARS[i]));
            i += 1;
        }
        assert(rules.deep_view() =~= build_system_rules());
        EnvironmentSurface { rules }
    }

    /// Whether one of the rules lets a variable of this name through.
    pub fn allows(&self, name: &str) -> (r: bool)
        ensures
            r == admitted(self@, name@),
    {
        let mut i: usize = 0;
        while i < self.rules.len()
            invariant
                i <= self.rules.len(),
                forall|j: int| 0 <= j < i ==> !(#[trigger] self@[j]).admits(name@),
            decreases self.rules.len() - i,
        {
            if self.rules[i].admits(name) {
                assert(self@[i as int].admits(name@));
                return true;
            }
            i += 1;
        }
        false
    }

    /// The variables that reach the task runner: those of `host_env` that a
    /// rule lets through, then `overrides`. No name occurs twice: where a name
    /// is set again, the later setting replaces the earlier one.
    pub fn build(&self, host_env: &Vec<(String, String)>, overrides: &Vec<(String, String)>) -> (r:
        Variables)
        ensures
            r@ == surface(self@, host_env.deep_view(), overrides.deep_view()),
    {
        let ghost host = host_env.deep_view();
        let ghost over = overrides.deep_view();
        let mut vars = Variables::new();
        let mut i: usize = 0;
        while i < host_env.len()
            invariant
                i <= host_env.len(),
                host == host_env.deep_view(),
                vars@ == with_all(Seq::empty(), admitted_variables(self@, host.take(i as int))),
            decreases host_env.len() - i,
        {
            proof {
                reveal(Seq::filter);
                assert(host.take(i + 1).drop_last() =~= host.take(i as int));
                assert(host.take(i + 1).last() == host[i as int]);
            }
            if self.allows(host_env[i].0.as_str()) {
                vars.insert(host_env[i].0.as_str(), host_env[i].1.as_str());
                proof {
                    let before = admitted_variables(self@, host.take(i as int));
                    let after = admitted_variables(self@, host.take(i + 1));
                    assert(after == before.push(host[i as int]));
                    assert(after.drop_last() =~= before);
                }
            }
            i += 1;
        }
        assert(host.take(i as int) =~= host);
        let ghost base = vars@;
        let mut j: usize = 0;
        while j < overrides.len()
            invariant
                j <= overrides.len(),
                over == overrides.deep_view(),
                vars@ == with_all(base, over.take(j as int)),
            decreases overrides.len() - j,
        {
            vars.insert(overrides[j].0.as_str(), overrides[j].1.as_str());
            proof {
                assert(over.take(j + 1).drop_last() =~= over.take(j as int));
                assert(over.take(j + 1).last() == over[j as int]);
            }
            j += 1;
        }
        assert(over.take(j as int) =~= over);
        vars
    }
}

} // verus!
