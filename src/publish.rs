//! The payload that a registry's publish API receives.
use vstd::prelude::*;

use crate::dotcrate::{self, section, NormalizedManifest};
use crate::features::{keys_unique, FeatureMap};

verus! {

/// The index of the default public registry: the source of every dependency
/// that names no other.
pub const CRATES_IO_INDEX: &'static str = "https://github.com/rust-lang/crates.io-index";

/// Section of the manifest in which a dependency was declared.
#[derive(Copy, Clone, Debug, PartialEq, Eq, Structural, PartialOrd, Ord, Hash)]
pub enum DependencyKind {
    /// Used at run time
    Normal,
    /// Used at build time, not available at run time
    Build,
    /// Only used for tests, examples and benchmarks of the package itself
    Dev,
}

/// A version of a package as sent to a registry's publish API.
#[derive(Debug, Clone, PartialEq, Eq)]
pub struct CrateVersion {
    pub name: String,
    pub version: semver::Version,
    pub dependencies: Vec<Dependency>,
    pub features: FeatureMap,
    pub authors: Vec<String>,
    pub description: Option<String>,
    pub documentation: Option<String>,
    pub homepage: Option<String>,
    /// The text of the README.
    pub readme: Option<String>,
    /// The path of the README within the package.
    pub readme_file: Option<String>,
    pub keywords: Vec<String>,
    pub categories: Vec<String>,
    pub license: Option<String>,
    pub license_file: Option<String>,
    pub repository: Option<String>,
    pub links: Option<String>,
}

/// A dependency as sent to a registry's publish API.
#[derive(Debug, Clone, PartialEq, Eq)]
pub struct Dependency {
    pub optional: bool,
    pub default_features: bool,
    /// The real name of the dependency.
    pub name: String,
    pub features: Vec<String>,
    pub requirements: semver::VersionReq,
    pub target: Option<String>,
    pub kind: DependencyKind,
    /// The index the dependency comes from, where it is not the registry the
    /// payload is meant for.
    pub registry: Option<String>,
    /// The name under which the manifest declared the dependency, where it
    /// renamed it.
    pub explicit_name_in_toml: Option<String>,
}

/// `o`'s value, or `default` where there is none.
pub open spec fn value_or<T>(o: Option<T>, default: T) -> T {
    match o {
        Some(v) => v,
        None => default,
    }
}

/// The index a manifest dependency comes from.
pub open spec fn source_of(d: dotcrate::Dependency) -> Seq<char> {
    match d.registry_index {
        Some(r) => r@,
        None => CRATES_IO_INDEX@,
    }
}

impl Dependency {
    /// This is what the manifest's dependency `d`, declared as `name_in_toml`
    /// in the section of `kind`, becomes in a payload for the registry whose
    /// index is `is_for`.
    pub open spec fn is_published_from(
        self,
        name_in_toml: String,
        d: dotcrate::Dependency,
        kind: DependencyKind,
        is_for: Seq<char>,
    ) -> bool {
        &&& self.optional == value_or(d.optional, false)
        &&& self.default_features == value_or(d.default_features, true)
        &&& match d.package {
            Some(p) => self.name == p && self.explicit_name_in_toml == Some(name_in_toml),
            None => self.name == name_in_toml && self.explicit_name_in_toml is None,
        }
        &&& self.features@ == section(d.features)
        &&& self.requirements == d.version
        &&& self.target == d.target
        &&& self.kind == kind
        &&& if source_of(d) == is_for {
            self.registry is None
        } else {
            self.registry matches Some(r) && r@ == source_of(d)
        }
    }

    /// Turns one dependency of a manifest into its entry in a payload for the
    /// registry whose index is `is_for`.
    pub fn from_manifest(
        name_in_toml: String,
        d: dotcrate::Dependency,
        kind: DependencyKind,
        is_for: &str,
    ) -> (r: Dependency)
        ensures
            r.is_published_from(name_in_toml, d, kind, is_for@),
    {
        let (explicit_name_in_toml, name) = match d.package {
            Some(p) => (Some(name_in_toml), p),
            None => (None, name_in_toml),
        };
        let is_from = match d.registry_index {
            Some(r) => r,
            None => CRATES_IO_INDEX.to_owned(),
        };
        let registry = if is_from == is_for.to_owned() {
            None
        } else {
            Some(is_from)
        };
        let features = unwrap_or_empty(d.features);
        Dependency {
            optional: match d.optional {
                Some(b) => b,
                None => false,
            },
            default_features: match d.default_features {
                Some(b) => b,
                None => true,
            },
            name,
            features,
            requirements: d.version,
            target: d.target,
            kind,
            registry,
            explicit_name_in_toml,
        }
    }
}

/// The features of a manifest, as a payload lists them.
pub open spec fn features_of(m: NormalizedManifest) -> Seq<(String, Vec<String>)> {
    section(m.features)
}

impl CrateVersion {
    /// No feature name occurs twice.
    pub open spec fn wf(self) -> bool {
        keys_unique(self.features@)
    }

    /// The payload describes the manifest `m` for the registry whose index is
    /// `is_for`, with `readme` as the README's path and text.
    pub open spec fn describes(
        self,
        m: NormalizedManifest,
        readme: (Option<String>, Option<String>),
        is_for: Seq<char>,
    ) -> bool {
        let deps = m.all_dependencies();
        &&& self.name == m.package.name
        &&& self.version == m.package.version
        &&& self.dependencies@.len() == deps.len()
        &&& forall|i: int|
            0 <= i < deps.len() ==> (#[trigger] self.dependencies@[i]).is_published_from(
                deps[i].0,
                deps[i].1,
                deps[i].2,
                is_for,
            )
        &&& self.features@ == features_of(m)
        &&& self.authors@ == section(m.package.authors)
        &&& self.description == m.package.description
        &&& self.documentation == m.package.documentation
        &&& self.homepage == m.package.homepage
        &&& self.readme_file == readme.0
        &&& self.readme == readme.1
        &&& self.keywords@ == section(m.package.keywords)
        &&& self.categories@ == section(m.package.categories)
        &&& self.license == m.package.license
        &&& self.license_file == m.package.license_file
        &&& self.repository == m.package.repository
        &&& self.links == m.package.links
    }

    /// Builds the payload that publishes the manifest `m` to the registry
    /// whose index is `is_for`. The README is given as its path and its
    /// text, which the caller has read.
    pub fn new(m: NormalizedManifest, readme: (Option<String>, Option<String>), is_for: &str) -> (r:
        CrateVersion)
        ensures
            r.describes(m, readme, is_for@),
            m.wf() ==> r.wf(),
    {
        let mut m = m;
        let ghost orig = m;
        let taken = m.take_dependencies();
        let mut dependencies: Vec<Dependency> = Vec::new();
        for e in it: taken.into_iter()
            invariant
                it.seq() == taken@,
                taken@ == orig.all_dependencies(),
                dependencies@.len() == it.index(),
                forall|i: int|
                    0 <= i < it.index() ==> (#[trigger] dependencies@[i]).is_published_from(
                        taken@[i].0,
                        taken@[i].1,
                        taken@[i].2,
                        is_for@,
                    ),
        {
            let (name_in_toml, d, kind) = e;
            dependencies.push(Dependency::from_manifest(name_in_toml, d, kind, is_for));
        }
        let (readme_file, readme_text) = readme;
        let p = m.package;
        CrateVersion {
            name: p.name,
            version: p.version,
            dependencies,
            features: unwrap_or_empty(m.features),
            authors: unwrap_or_empty(p.authors),
            description: p.description,
            documentation: p.documentation,
            homepage: p.homepage,
            readme: readme_text,
            readme_file,
            keywords: unwrap_or_empty(p.keywords),
            categories: unwrap_or_empty(p.categories),
            license: p.license,
            license_file: p.license_file,
            repository: p.repository,
            links: p.links,
        }
    }
}

/// The list held by `o`, or an empty one.
fn unwrap_or_empty<T>(o: Option<Vec<T>>) -> (r: Vec<T>)
    ensures
        r@ == section(o),
{
    match o {
        Some(v) => v,
        None => Vec::new(),
    }
}

} // verus!
