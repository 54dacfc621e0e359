//! What holds of the transforms together, proved from their contracts.
use vstd::prelude::*;

use crate::dotcrate::{section, NormalizedManifest};
use crate::features::{extended_part, needs_extended, primary_part};
use crate::index::Entry;
use crate::publish::{features_of, value_or, CrateVersion, DependencyKind};

verus! {

broadcast use {vstd::seq_lib::group_filter_ensures, Seq::lemma_filter_contains_rev};

/// The payload that the entry `e` for `m` was built from.
pub open spec fn payload_of(
    e: Entry,
    m: NormalizedManifest,
    via_registry: Seq<char>,
    checksum: [u8; 32],
) -> CrateVersion {
    choose|v: CrateVersion| #[trigger]
        v.describes(m, (None, None), via_registry) && e.records(v, checksum)
}

/// Each dependency of a manifest keeps, in the payload, its requirement, its
/// `optional` flag (false where absent), its `default-features` flag (true
/// where absent), and the real name that a rename gives it.
pub proof fn lemma_dependency_fields_kept(
    m: NormalizedManifest,
    readme: (Option<String>, Option<String>),
    is_for: Seq<char>,
    v: CrateVersion,
    i: int,
)
    requires
        v.describes(m, readme, is_for),
        0 <= i < m.all_dependencies().len(),
    ensures
        ({
            let d = m.all_dependencies()[i].1;
            let out = v.dependencies@[i];
            &&& out.requirements == d.version
            &&& out.optional == value_or(d.optional, false)
            &&& out.default_features == value_or(d.default_features, true)
            &&& d.package matches Some(p) ==> out.name == p
        }),
{
    assert(v.dependencies@[i].is_published_from(
        m.all_dependencies()[i].0,
        m.all_dependencies()[i].1,
        m.all_dependencies()[i].2,
        is_for,
    ));
}

/// Each dependency of a manifest keeps, in the index entry, its requirement,
/// its features and its `default-features` flag (true where absent). The
/// record's `name` is the real name; a dependency declared as `n` and renamed
/// to `P` is recorded with `name = P` and `package = n`.
pub proof fn lemma_index_keeps_dependency_fields(
    m: NormalizedManifest,
    via_registry: Seq<char>,
    checksum: [u8; 32],
    e: Entry,
    i: int,
)
    requires
        e.indexes(m, via_registry, checksum),
        0 <= i < m.all_dependencies().len(),
    ensures
        ({
            let (name_in_toml, d, kind) = m.all_dependencies()[i];
            let out = e.dependencies@[i];
            &&& out.requirements == d.version
            &&& out.features@ == section(d.features)
            &&& out.default_features == value_or(d.default_features, true)
            &&& match d.package {
                Some(p) => out.name == p && out.package == Some(name_in_toml),
                None => out.name == name_in_toml && out.package is None,
            }
        }),
{
    let v = payload_of(e, m, via_registry, checksum);
    assert(v.dependencies@[i].is_published_from(
        m.all_dependencies()[i].0,
        m.all_dependencies()[i].1,
        m.all_dependencies()[i].2,
        via_registry,
    ));
    assert(e.dependencies@[i].is_indexed_from(v.dependencies@[i]));
}

/// Position `k` of a manifest's dependencies holds a normal one exactly when
/// it falls within the normal section.
pub proof fn lemma_normal_section_first(m: NormalizedManifest, k: int)
    requires
        0 <= k < m.all_dependencies().len(),
    ensures
        (m.all_dependencies()[k].2 == DependencyKind::Normal) <==> k < section(
            m.dependencies,
        ).len(),
{
    let n = section(m.dependencies).len();
    let dev = section(m.dev_dependencies).len();
    if k >= n + dev {
        assert(m.all_dependencies()[k] == crate::dotcrate::tagged(
            m.build_dependencies,
            DependencyKind::Build,
        )[k - n - dev]);
    } else if k >= n {
        assert(m.all_dependencies()[k] == crate::dotcrate::tagged(
            m.dev_dependencies,
            DependencyKind::Dev,
        )[k - n]);
    }
}

/// Each dependency in an index entry carries the kind of the manifest section
/// it was declared in, and only a normal dependency is ever optional.
pub proof fn lemma_kind_fidelity(
    m: NormalizedManifest,
    via_registry: Seq<char>,
    checksum: [u8; 32],
    e: Entry,
    i: int,
)
    requires
        e.indexes(m, via_registry, checksum),
        0 <= i < m.all_dependencies().len(),
    ensures
        e.dependencies@.len() == m.all_dependencies().len(),
        e.dependencies@[i].kind == Some(m.all_dependencies()[i].2),
        m.all_dependencies()[i].2 != DependencyKind::Normal ==> !e.dependencies@[i].optional,
{
    let v = payload_of(e, m, via_registry, checksum);
    assert(v.dependencies@[i].is_published_from(
        m.all_dependencies()[i].0,
        m.all_dependencies()[i].1,
        m.all_dependencies()[i].2,
        via_registry,
    ));
    assert(e.dependencies@[i].is_indexed_from(v.dependencies@[i]));
}

/// In an entry built from a manifest, every normal dependency comes before
/// every dev or build one; so where a name occurs both as a normal dependency
/// and as another kind, the normal one comes first.
pub proof fn lemma_normal_before_other_kinds(
    m: NormalizedManifest,
    via_registry: Seq<char>,
    checksum: [u8; 32],
    e: Entry,
    i: int,
    j: int,
)
    requires
        e.indexes(m, via_registry, checksum),
        0 <= i < e.dependencies@.len(),
        0 <= j < e.dependencies@.len(),
        e.dependencies@[i].kind == Some(DependencyKind::Normal),
        e.dependencies@[j].kind != Some(DependencyKind::Normal),
    ensures
        i < j,
{
    lemma_kind_fidelity(m, via_registry, checksum, e, i);
    lemma_kind_fidelity(m, via_registry, checksum, e, j);
    lemma_normal_section_first(m, i);
    lemma_normal_section_first(m, j);
}

/// A feature with a `dep:` or `?/` spec is in `features2`, and the schema
/// version is then 2; any other feature is in `features`, whatever the
/// others hold. The schema version is absent exactly when no feature needs
/// the extended map, and `features2` is never present and empty.
pub proof fn lemma_feature_routing(
    m: NormalizedManifest,
    via_registry: Seq<char>,
    checksum: [u8; 32],
    e: Entry,
    k: int,
)
    requires
        e.indexes(m, via_registry, checksum),
        0 <= k < features_of(m).len(),
    ensures
        ({
            let f = features_of(m)[k];
            &&& needs_extended(f.1@) ==> e.schema_version == Some(2u8) && (e.features2 matches Some(
                f2,
            ) && f2@.contains(f))
            &&& !needs_extended(f.1@) ==> e.features@.contains(f)
        }),
        e.schema_version is None <==> forall|j: int|
            0 <= j < features_of(m).len() ==> !needs_extended(#[trigger] features_of(m)[j].1@),
        e.features2 matches Some(f2) ==> f2@.len() > 0,
{
    let v = payload_of(e, m, via_registry, checksum);
    let fs = features_of(m);
    assert(v.features@ == fs);
    let ext = extended_part(fs);
    if e.schema_version is None {
        assert forall|j: int| 0 <= j < fs.len() implies !needs_extended(#[trigger] fs[j].1@) by {
            if needs_extended(fs[j].1@) {
                assert(ext.contains(fs[j]));
            }
        }
    } else {
        let x = ext[0];
        assert(ext.contains(x));
        assert(fs.contains(x));
        let j = choose|j: int| 0 <= j < fs.len() && fs[j] == x;
        assert(needs_extended(fs[j].1@));
    }
    if needs_extended(fs[k].1@) {
        assert(ext.contains(fs[k]));
    } else {
        assert(primary_part(fs).contains(fs[k]));
    }
}

/// The digest handed to the index transform is the entry's checksum, byte
/// for byte.
pub proof fn lemma_checksum_passthrough(v: CrateVersion, checksum: [u8; 32], e: Entry)
    requires
        e.records(v, checksum),
    ensures
        e.checksum@ == checksum@,
{
}

} // verus!
