//! Build configuration: the unit that is loaded each run, diffed against
//! the snapshot of the previous successful run, and persisted on success.
//!
//! Field values are held as character vectors; [`Configuration::new`]
//! and [`FullConfig::new`] build them from string slices.

use vstd::prelude::*;
use crate::text::{char_lists_eq, chars_eq, chars_view, str_to_chars, strings_view};

verus! {

/// The configuration extracted from the project manifest: toolchain
/// version, project identity, dependency-fetch reference, compilation
/// entrypoint and the cached list of dependency identifiers.
pub struct Configuration {
    pub ucm_version: Vec<char>,
    pub project: Vec<char>,
    pub branch: Vec<char>,
    pub entrypoint: Vec<char>,
    pub dependencies_cache: Vec<Vec<char>>,
}

/// Mathematical model of a [`Configuration`]: every field as a sequence
/// of characters.
#[verifier::ext_equal]
pub struct ConfigModel {
    pub ucm_version: Seq<char>,
    pub project: Seq<char>,
    pub branch: Seq<char>,
    pub entrypoint: Seq<char>,
    pub dependencies_cache: Seq<Seq<char>>,
}

/// The configuration together with the environment inputs: target
/// platform triple and project root path. This is the unit that is
/// diffed and persisted across runs.
pub struct FullConfig {
    pub unison: Configuration,
    pub target_triple: Vec<char>,
    pub project_root: Vec<char>,
}

/// Mathematical model of a [`FullConfig`].
#[verifier::ext_equal]
pub struct FullModel {
    pub unison: ConfigModel,
    pub target_triple: Seq<char>,
    pub project_root: Seq<char>,
}

impl View for Configuration {
    type V = ConfigModel;

    open spec fn view(&self) -> ConfigModel {
        ConfigModel {
            ucm_version: self.ucm_version@,
            project: self.project@,
            branch: self.branch@,
            entrypoint: self.entrypoint@,
            dependencies_cache: chars_view(self.dependencies_cache@),
        }
    }
}

impl View for FullConfig {
    type V = FullModel;

    open spec fn view(&self) -> FullModel {
        FullModel {
            unison: self.unison@,
            target_triple: self.target_triple@,
            project_root: self.project_root@,
        }
    }
}

impl ConfigModel {
    /// The all-empty configuration, standing in for a missing snapshot.
    pub open spec fn empty() -> ConfigModel {
        ConfigModel {
            ucm_version: Seq::empty(),
            project: Seq::empty(),
            branch: Seq::empty(),
            entrypoint: Seq::empty(),
            dependencies_cache: Seq::empty(),
        }
    }
}

impl FullModel {
    /// The all-empty full configuration: the baseline assumed when no
    /// prior snapshot can be read, under which every field of a real
    /// configuration differs and a full build follows.
    pub open spec fn empty() -> FullModel {
        FullModel {
            unison: ConfigModel::empty(),
            target_triple: Seq::empty(),
            project_root: Seq::empty(),
        }
    }
}

impl Configuration {
    /// Builds a configuration from its five fields.
    pub fn new(
        ucm_version: &str,
        project: &str,
        branch: &str,
        entrypoint: &str,
        dependencies_cache: &Vec<String>,
    ) -> (c: Configuration)
        ensures
            c@ == (ConfigModel {
                ucm_version: ucm_version@,
                project: project@,
                branch: branch@,
                entrypoint: entrypoint@,
                dependencies_cache: strings_view(dependencies_cache@),
            }),
    {
        let n: usize = dependencies_cache.len();
        let mut deps: Vec<Vec<char>> = Vec::new();
        let mut i: usize = 0;
        while i < n
            invariant
                n == dependencies_cache@.len(),
                i <= n,
                deps@.len() == i,
                chars_view(deps@) =~= strings_view(dependencies_cache@).take(i as int),
            decreases n - i,
        {
            let item = str_to_chars(dependencies_cache[i].as_str());
            assert(item@ == strings_view(dependencies_cache@)[i as int]);
            let ghost pre = deps@;
            deps.push(item);
            proof {
                assert forall|k: int| 0 <= k < pre.len() + 1 implies chars_view(deps@)[k]
                    == strings_view(dependencies_cache@).take(i + 1)[k] by {
                    if k < pre.len() {
                        assert(deps@[k] == pre[k]);
                        assert(chars_view(pre)[k] == strings_view(dependencies_cache@).take(
                            i as int,
                        )[k]);
                    } else {
                        assert(deps@[k]@ == item@);
                    }
                }
                assert(chars_view(deps@) =~= strings_view(dependencies_cache@).take(i + 1));
            }
            i = i + 1;
        }
        assert(strings_view(dependencies_cache@).take(n as int) =~= strings_view(
            dependencies_cache@,
        ));
        let c = Configuration {
            ucm_version: str_to_chars(ucm_version),
            project: str_to_chars(project),
            branch: str_to_chars(branch),
            entrypoint: str_to_chars(entrypoint),
            dependencies_cache: deps,
        };
        assert(c@ =~~= (ConfigModel {
            ucm_version: ucm_version@,
            project: project@,
            branch: branch@,
            entrypoint: entrypoint@,
            dependencies_cache: strings_view(dependencies_cache@),
        }));
        c
    }

    /// Builds the all-empty configuration.
    pub fn empty() -> (c: Configuration)
        ensures
            c@ == ConfigModel::empty(),
    {
        let c = Configuration {
            ucm_version: Vec::new(),
            project: Vec::new(),
            branch: Vec::new(),
            entrypoint: Vec::new(),
            dependencies_cache: Vec::new(),
        };
        assert(c@ =~~= ConfigModel::empty());
        c
    }
}

impl FullConfig {
    /// Builds a full configuration from the manifest configuration and
    /// the environment inputs.
    pub fn new(unison: Configuration, target_triple: &str, project_root: &str) -> (c: FullConfig)
        ensures
            c@ == (FullModel {
                unison: unison@,
                target_triple: target_triple@,
                project_root: project_root@,
            }),
    {
        let c = FullConfig {
            unison,
            target_triple: str_to_chars(target_triple),
            project_root: str_to_chars(project_root),
        };
        assert(c@ =~~= (FullModel {
            unison: c.unison@,
            target_triple: target_triple@,
            project_root: project_root@,
        }));
        c
    }

    /// Builds the all-empty full configuration.
    pub fn empty() -> (c: FullConfig)
        ensures
            c@ == FullModel::empty(),
    {
        let c = FullConfig {
            unison: Configuration::empty(),
            target_triple: Vec::new(),
            project_root: Vec::new(),
        };
        assert(c@ =~~= FullModel::empty());
        c
    }
}

/// Equality of two configurations, compared field by field.
pub fn config_eq(a: &Configuration, b: &Configuration) -> (r: bool)
    ensures
        r == (a@ == b@),
{
    let r = chars_eq(&a.ucm_version, &b.ucm_version) && chars_eq(&a.project, &b.project)
        && chars_eq(&a.branch, &b.branch) && chars_eq(&a.entrypoint, &b.entrypoint)
        && char_lists_eq(&a.dependencies_cache, &b.dependencies_cache);
    if r {
        assert(a@ =~~= b@);
    }
    r
}

/// Equality of two full configurations, compared field by field.
pub fn full_config_eq(a: &FullConfig, b: &FullConfig) -> (r: bool)
    ensures
        r == (a@ == b@),
{
    let r = config_eq(&a.unison, &b.unison) && chars_eq(&a.target_triple, &b.target_triple)
        && chars_eq(&a.project_root, &b.project_root);
    if r {
        assert(a@ =~~= b@);
    }
    r
}

/// Whether the toolchain inputs differ between the prior and the current
/// run: the toolchain version or the target platform changed. This is
/// the broadest invalidation trigger.
pub open spec fn spec_toolchain_changed(prior: FullModel, current: FullModel) -> bool {
    prior.unison.ucm_version != current.unison.ucm_version || prior.target_triple
        != current.target_triple
}

/// Decides whether the toolchain inputs changed since the prior run.
pub fn toolchain_changed(prior: &FullConfig, current: &FullConfig) -> (r: bool)
    ensures
        r == spec_toolchain_changed(prior@, current@),
{
    !chars_eq(&prior.unison.ucm_version, &current.unison.ucm_version) || !chars_eq(
        &prior.target_triple,
        &current.target_triple,
    )
}

} // verus!
