//! The line that a registry's index holds for one version of a package.
use vstd::prelude::*;

use crate::dotcrate::NormalizedManifest;
use crate::features::{
    extended_part, is_extended, keys_unique, lemma_partition_well_formed, partition_features,
    primary_part, FeatureMap,
};
use crate::publish::{self, CrateVersion, DependencyKind};

verus! {

/// One version of a package, as a line of the index.
#[derive(Debug, PartialEq, Eq)]
pub struct Entry {
    pub name: String,
    pub version: semver::Version,
    /// Normal dependencies come before dev and build ones: old readers of the
    /// index that meet one name twice may go by the first.
    pub dependencies: Vec<RegistryDependency>,
    /// The features that every reader of the index understands.
    pub features: FeatureMap,
    /// The features that use namespaced (`dep:`) or weak (`pkg?/feat`)
    /// specs, which readers of the first schema cannot parse. Present only
    /// where it has at least one feature.
    pub features2: Option<FeatureMap>,
    /// The digest of the packaged `.crate` file.
    pub checksum: [u8; 32],
    /// Whether resolution skips this version.
    pub yanked: bool,
    /// The native library the package links to.
    pub links: Option<String>,
    /// The version of the entry's schema; absent for the first, `2` where
    /// `features2` is present.
    pub schema_version: Option<u8>,
}

/// A dependency as the index records it.
#[derive(Debug, PartialEq, Eq)]
pub struct RegistryDependency {
    /// The real name of the dependency.
    pub name: String,
    pub kind: Option<DependencyKind>,
    pub requirements: semver::VersionReq,
    pub features: Vec<String>,
    pub optional: bool,
    pub default_features: bool,
    pub target: Option<String>,
    pub registry: Option<String>,
    /// The name under which the manifest declared the dependency, where it
    /// renamed it.
    pub package: Option<String>,
    pub public: Option<bool>,
}

/// The digits of `n` in lower-case hexadecimal, `n` below 16.
pub open spec fn hex_digit(n: u8) -> char {
    seq!['0', '1', '2', '3', '4', '5', '6', '7', '8', '9', 'a', 'b', 'c', 'd', 'e', 'f'][n as int]
}

/// `bytes` in lower-case hexadecimal, two digits a byte, the high one first.
pub open spec fn lower_hex(bytes: Seq<u8>) -> Seq<char> {
    Seq::new(
        2 * bytes.len(),
        |i: int|
            if i % 2 == 0 {
                hex_digit(bytes[i / 2] / 16)
            } else {
                hex_digit(bytes[i / 2] % 16)
            },
    )
}

/// Relies on `hex::encode`: two lower-case digits for each byte, the high
/// one first.
#[verifier::external_body]
fn encode_hex(bytes: &[u8; 32]) -> (r: String)
    ensures
        r@ == lower_hex(bytes@),
{
    hex::encode(bytes)
}

impl RegistryDependency {
    /// This is what the payload's dependency `d` becomes in the index.
    pub open spec fn is_indexed_from(self, d: publish::Dependency) -> bool {
        &&& match d.explicit_name_in_toml {
            Some(n) => self.name == d.name && self.package == Some(n),
            None => self.name == d.name && self.package is None,
        }
        &&& self.kind == Some(d.kind)
        &&& self.requirements == d.requirements
        &&& self.features == d.features
        &&& self.optional == (d.optional && d.kind == DependencyKind::Normal)
        &&& self.default_features == d.default_features
        &&& self.target == d.target
        &&& self.registry == d.registry
        &&& self.public is None
    }

    /// Turns a dependency of a payload into its record in the index. The real
    /// name is carried as `name`; a renamed dependency carries the name the
    /// manifest gave it as `package`. Only a normal dependency can be
    /// optional.
    pub fn from_publish(d: publish::Dependency) -> (r: RegistryDependency)
        ensures
            r.is_indexed_from(d),
    {
        let optional = d.optional && d.kind == DependencyKind::Normal;
        RegistryDependency {
            name: d.name,
            kind: Some(d.kind),
            requirements: d.requirements,
            features: d.features,
            optional,
            default_features: d.default_features,
            target: d.target,
            registry: d.registry,
            package: d.explicit_name_in_toml,
            public: None,
        }
    }
}

impl Entry {
    /// The feature maps hold unique names and share none; the primary map
    /// holds only features of the first schema and `features2` only the
    /// others. `features2` is present, and never empty, exactly when the
    /// schema version is 2; otherwise the version is absent.
    pub open spec fn wf(self) -> bool {
        &&& keys_unique(self.features@)
        &&& forall|i: int| 0 <= i < self.features@.len() ==> !is_extended(#[trigger] self.features@[i])
        &&& match self.features2 {
            None => self.schema_version is None,
            Some(f2) => {
                &&& self.schema_version == Some(2u8)
                &&& f2@.len() > 0
                &&& keys_unique(f2@)
                &&& forall|i: int| 0 <= i < f2@.len() ==> is_extended(#[trigger] f2@[i])
                &&& forall|i: int, j: int|
                    0 <= i < self.features@.len() && 0 <= j < f2@.len()
                        ==> (#[trigger] self.features@[i]).0@ != (#[trigger] f2@[j]).0@
            },
        }
    }

    /// The entry records the payload `v` with the digest `checksum`.
    pub open spec fn records(self, v: CrateVersion, checksum: [u8; 32]) -> bool {
        let extended = extended_part(v.features@);
        &&& self.name == v.name
        &&& self.version == v.version
        &&& self.dependencies@.len() == v.dependencies@.len()
        &&& forall|i: int|
            0 <= i < v.dependencies@.len() ==> (#[trigger] self.dependencies@[i]).is_indexed_from(
                v.dependencies@[i],
            )
        &&& self.features@ == primary_part(v.features@)
        &&& if extended.len() == 0 {
            &&& self.features2 is None
            &&& self.schema_version is None
        } else {
            &&& self.features2 matches Some(f) && f@ == extended
            &&& self.schema_version == Some(2u8)
        }
        &&& self.checksum == checksum
        &&& !self.yanked
        &&& self.links == v.links
    }

    /// The entry indexes the manifest `m`, published to the registry whose
    /// index is `via_registry`, with the digest `checksum`.
    pub open spec fn indexes(self, m: NormalizedManifest, via_registry: Seq<char>, checksum: [u8; 32]) -> bool {
        exists|v: CrateVersion| #[trigger]
            v.describes(m, (None, None), via_registry) && self.records(v, checksum)
    }

    /// Builds the index entry for the manifest `m`, published to the registry
    /// whose index is `via_registry`; `checksum` is the digest of the packaged
    /// `.crate` file.
    pub fn from_manifest(m: NormalizedManifest, via_registry: &str, checksum: [u8; 32]) -> (r: Self)
        ensures
            r.indexes(m, via_registry@, checksum),
            m.wf() ==> r.wf(),
    {
        let in_registry = CrateVersion::new(m, (None, None), via_registry);
        let r = Self::from_publish(in_registry, checksum);
        assert(in_registry.describes(m, (None, None), via_registry@) && r.records(in_registry, checksum));
        r
    }

    /// Builds the index entry for the payload `v`; `checksum` is the digest of
    /// the packaged `.crate` file.
    pub fn from_publish(v: CrateVersion, checksum: [u8; 32]) -> (r: Self)
        ensures
            r.records(v, checksum),
            v.wf() ==> r.wf(),
    {
        let ghost orig = v;
        proof {
            if v.wf() {
                lemma_partition_well_formed(v.features@);
            }
        }
        let (features, extended) = partition_features(v.features);
        let (features2, schema_version) = if extended.len() == 0 {
            (None, None)
        } else {
            (Some(extended), Some(2u8))
        };
        let mut dependencies: Vec<RegistryDependency> = Vec::new();
        for d in it: v.dependencies.into_iter()
            invariant
                it.seq() == orig.dependencies@,
                dependencies@.len() == it.index(),
                forall|i: int|
                    0 <= i < it.index() ==> (#[trigger] dependencies@[i]).is_indexed_from(
                        orig.dependencies@[i],
                    ),
        {
            dependencies.push(RegistryDependency::from_publish(d));
        }
        Entry {
            name: v.name,
            version: v.version,
            dependencies,
            features,
            features2,
            checksum,
            yanked: false,
            links: v.links,
            schema_version,
        }
    }

    /// The checksum as the index writes it: 64 lower-case hexadecimal digits.
    pub fn checksum_hex(&self) -> (r: String)
        ensures
            r@ == lower_hex(self.checksum@),
    {
        encode_hex(&self.checksum)
    }
}

} // verus!
