//! The manifest of a package, as found in a `.crate` file.
use vstd::prelude::*;

use crate::features::keys_unique;
use crate::publish::DependencyKind;

mod deser;
pub use deser::{
    all_white_space, is_requirement, is_version, is_white_space, lemma_padding_ignored,
    parse_requirement, parse_version, parsed_requirement, parsed_version, trim_end, trim_start,
    trimmed, ManifestError, StringOrBool,
};

verus! {

/// One dependency section of a manifest: each entry pairs the name written in
/// the manifest with what was declared under it, in the manifest's order.
pub type DependencyTable = Vec<(String, Dependency)>;

/// A manifest from or for a `.crate` file.
#[derive(Debug, Clone)]
pub struct NormalizedManifest {
    pub package: Package,
    pub dependencies: Option<DependencyTable>,
    /// Read from `dev-dependencies` or `dev_dependencies`.
    pub dev_dependencies: Option<DependencyTable>,
    /// Read from `build-dependencies` or `build_dependencies`.
    pub build_dependencies: Option<DependencyTable>,
    /// Each feature with its list of feature specs.
    pub features: Option<Vec<(String, Vec<String>)>>,
}

/// A dependency as declared in the manifest.
#[derive(Debug, Clone)]
pub struct Dependency {
    pub version: semver::VersionReq,
    pub registry_index: Option<String>,
    pub features: Option<Vec<String>>,
    pub optional: Option<bool>,
    pub public: Option<bool>,
    pub default_features: Option<bool>,
    /// The real name of the dependency, where the manifest renames it.
    pub package: Option<String>,
    /// A platform name, like `x86_64-apple-darwin`
    pub target: Option<String>,
}

/// The `package` section of a manifest.
///
/// The order of the fields is the order in which they are written back to a
/// manifest: no plain value may follow a table there.
#[derive(Debug, Clone)]
pub struct Package {
    pub rust_version: Option<String>,
    pub name: String,
    /// Parsed from text with the surrounding whitespace removed.
    pub version: semver::Version,
    pub links: Option<String>,
    pub authors: Option<Vec<String>>,
    pub description: Option<String>,
    pub homepage: Option<String>,
    pub documentation: Option<String>,
    pub readme: Option<StringOrBool>,
    pub keywords: Option<Vec<String>>,
    pub categories: Option<Vec<String>>,
    pub license: Option<String>,
    pub license_file: Option<String>,
    pub repository: Option<String>,
}

/// The entries of a section that may be absent.
pub open spec fn section<T>(s: Option<Vec<T>>) -> Seq<T> {
    match s {
        Some(v) => v@,
        None => Seq::empty(),
    }
}

/// A section's entries, each tagged with the section's kind.
pub open spec fn tagged(s: Option<DependencyTable>, kind: DependencyKind) -> Seq<
    (String, Dependency, DependencyKind),
> {
    section(s).map_values(|e: (String, Dependency)| (e.0, e.1, kind))
}

impl NormalizedManifest {
    /// Within each dependency section, and among the features, no name
    /// occurs twice.
    pub open spec fn wf(self) -> bool {
        &&& keys_unique(section(self.dependencies))
        &&& keys_unique(section(self.dev_dependencies))
        &&& keys_unique(section(self.build_dependencies))
        &&& keys_unique(section(self.features))
    }

    /// All dependencies of the manifest: the normal ones, then the dev ones,
    /// then the build ones, each section in its own order.
    pub open spec fn all_dependencies(self) -> Seq<(String, Dependency, DependencyKind)> {
        tagged(self.dependencies, DependencyKind::Normal) + tagged(
            self.dev_dependencies,
            DependencyKind::Dev,
        ) + tagged(self.build_dependencies, DependencyKind::Build)
    }

    /// Takes the three dependency sections out of the manifest, as one
    /// sequence tagged by kind. The sections are left empty, so a second call
    /// yields nothing.
    pub fn take_dependencies(&mut self) -> (r: Vec<(String, Dependency, DependencyKind)>)
        ensures
            r@ == old(self).all_dependencies(),
            final(self).dependencies is None,
            final(self).dev_dependencies is None,
            final(self).build_dependencies is None,
            final(self).package == old(self).package,
            final(self).features == old(self).features,
    {
        let mut r: Vec<(String, Dependency, DependencyKind)> = Vec::new();
        append_tagged(&mut r, self.dependencies.take(), DependencyKind::Normal);
        append_tagged(&mut r, self.dev_dependencies.take(), DependencyKind::Dev);
        append_tagged(&mut r, self.build_dependencies.take(), DependencyKind::Build);
        r
    }
}

/// Moves the entries of a section to the end of `out`, tagged with `kind`.
fn append_tagged(
    out: &mut Vec<(String, Dependency, DependencyKind)>,
    s: Option<DependencyTable>,
    kind: DependencyKind,
)
    ensures
        final(out)@ == old(out)@ + tagged(s, kind),
{
    if let Some(v) = s {
        let ghost start = out@;
        for e in it: v.into_iter()
            invariant
                it.seq() == v@,
                out@ == start + v@.take(it.index() as int).map_values(
                    |e: (String, Dependency)| (e.0, e.1, kind),
                ),
        {
            let (name, dep) = e;
            out.push((name, dep, kind));
            assert(v@.take(it.index() as int + 1) == v@.take(it.index() as int).push(e));
        }
        assert(v@.take(v@.len() as int) == v@);
    }
}

} // verus!
