//! Which of the index's two feature maps a feature belongs in.
//!
//! A feature spec is one of
//! - `feat`: another feature of the same package;
//! - `dep:pkg`: enables the dependency `pkg` and none of its features;
//! - `pkg/feat`: enables `pkg` and its feature `feat`;
//! - `pkg?/feat`: enables `feat` of `pkg` only where `pkg` is enabled otherwise.
//!
//! The `dep:pkg` and `pkg?/feat` forms are not understood by older readers
//! of the index, so a feature that uses either goes to the extended map.
use vstd::prelude::*;

use crate::text::{chars_of, contains, has_infix, has_prefix, starts_with};

verus! {

/// One feature spec, by its form.
#[derive(Clone, Debug, PartialEq, Eq)]
pub enum FeatureSpec {
    /// `feat`: another feature of the same package.
    Local(String),
    /// `dep:pkg`: the dependency `pkg`, none of its features.
    ImplicitDep(String),
    /// `pkg/feat`: the dependency `pkg` and its feature `feat`.
    Strong(String, String),
    /// `pkg?/feat`: the feature `feat` of `pkg`, where `pkg` is enabled
    /// otherwise.
    Weak(String, String),
}

impl FeatureSpec {
    /// The spec as written in a manifest.
    pub open spec fn text(self) -> Seq<char> {
        match self {
            FeatureSpec::Local(f) => f@,
            FeatureSpec::ImplicitDep(d) => dep_prefix() + d@,
            FeatureSpec::Strong(d, f) => d@ + seq!['/'] + f@,
            FeatureSpec::Weak(d, f) => d@ + weak_marker() + f@,
        }
    }

    /// The form is the one that parsing its text gives: a spec with the
    /// `dep:` prefix is implicit, and otherwise the first `/` splits off the
    /// dependency, whose name then has no `/` and, for a strong spec, does
    /// not end in `?`.
    pub open spec fn wf(self) -> bool {
        &&& (self is ImplicitDep || !has_prefix(self.text(), dep_prefix()))
        &&& match self {
            FeatureSpec::Local(f) => !f@.contains('/'),
            FeatureSpec::ImplicitDep(_) => true,
            FeatureSpec::Strong(d, _) => !d@.contains('/') && !(d@.len() > 0 && d@.last() == '?'),
            FeatureSpec::Weak(d, _) => !d@.contains('/'),
        }
    }

    /// Reads a spec by its form.
    pub fn parse(spec: &str) -> (r: FeatureSpec)
        ensures
            r.wf(),
            r.text() == spec@,
    {
        proof {
            reveal_strlit("dep:");
            assert("dep:"@ =~= dep_prefix());
        }
        let n = spec.unicode_len();
        if starts_with(spec, "dep:") {
            let d = spec.substring_char(4, n).to_owned();
            assert(dep_prefix() + d@ =~= spec@);
            return FeatureSpec::ImplicitDep(d);
        }
        let cs = chars_of(spec);
        let mut k: usize = 0;
        while k < n && cs[k] != '/'
            invariant
                cs@ == spec@,
                n == spec@.len(),
                k <= n,
                forall|j: int| 0 <= j < k ==> cs@[j] != '/',
            decreases n - k,
        {
            k = k + 1;
        }
        if k == n {
            assert(!spec@.contains('/'));
            return FeatureSpec::Local(spec.to_owned());
        }
        let f = spec.substring_char(k + 1, n).to_owned();
        if k > 0 && cs[k - 1] == '?' {
            let d = spec.substring_char(0, k - 1).to_owned();
            assert(d@ + weak_marker() + f@ =~= spec@);
            assert(!d@.contains('/')) by {
                if d@.contains('/') {
                    let j = choose|j: int| 0 <= j < d@.len() && d@[j] == '/';
                    assert(cs@[j] == '/');
                }
            }
            FeatureSpec::Weak(d, f)
        } else {
            let d = spec.substring_char(0, k).to_owned();
            assert(d@ + seq!['/'] + f@ =~= spec@);
            assert(!d@.contains('/')) by {
                if d@.contains('/') {
                    let j = choose|j: int| 0 <= j < d@.len() && d@[j] == '/';
                    assert(cs@[j] == '/');
                }
            }
            FeatureSpec::Strong(d, f)
        }
    }

    /// The spec as written in a manifest.
    pub fn render(&self) -> (r: String)
        ensures
            r@ == self.text(),
    {
        proof {
            reveal_strlit("dep:");
            reveal_strlit("/");
            reveal_strlit("?/");
            assert("dep:"@ =~= dep_prefix());
            assert("/"@ =~= seq!['/']);
            assert("?/"@ =~= weak_marker());
        }
        match self {
            FeatureSpec::Local(f) => f.clone(),
            FeatureSpec::ImplicitDep(d) => "dep:".to_owned().concat(d.as_str()),
            FeatureSpec::Strong(d, f) => d.clone().concat("/").concat(f.as_str()),
            FeatureSpec::Weak(d, f) => d.clone().concat("?/").concat(f.as_str()),
        }
    }
}

/// An implicit (`dep:`) or weak (`?/`) spec always needs the extended
/// schema, and a local one never does.
pub proof fn lemma_form_decides_schema(x: FeatureSpec)
    requires
        x.wf(),
    ensures
        (x is ImplicitDep || x is Weak) ==> is_namespaced(x.text()),
        x is Local ==> !is_namespaced(x.text()),
{
    match x {
        FeatureSpec::ImplicitDep(d) => {
            assert(x.text().take(4) =~= dep_prefix());
        },
        FeatureSpec::Weak(d, f) => {
            assert(x.text().subrange(d@.len() as int, d@.len() + 2int) =~= weak_marker());
            assert(crate::text::occurs_at(x.text(), weak_marker(), d@.len() as int));
        },
        FeatureSpec::Local(f) => {
            if has_infix(f@, weak_marker()) {
                let i = choose|i: int| crate::text::occurs_at(f@, weak_marker(), i);
                assert(f@.subrange(i, i + 2)[1] == '/');
                assert(f@[i + 1] == '/');
            }
        },
        FeatureSpec::Strong(_, _) => {},
    }
}

/// Features, each with its list of feature specs.
pub type FeatureMap = Vec<(String, Vec<String>)>;

/// The prefix of a spec that enables a dependency by its own name.
pub open spec fn dep_prefix() -> Seq<char> {
    seq!['d', 'e', 'p', ':']
}

/// The marker of a weak reference to a dependency's feature.
pub open spec fn weak_marker() -> Seq<char> {
    seq!['?', '/']
}

/// A spec in one of the forms that only the extended schema admits.
pub open spec fn is_namespaced(spec: Seq<char>) -> bool {
    has_prefix(spec, dep_prefix()) || has_infix(spec, weak_marker())
}

/// A list of specs that holds at least one in a namespaced form.
pub open spec fn needs_extended(specs: Seq<String>) -> bool {
    exists|i: int| 0 <= i < specs.len() && is_namespaced(#[trigger] specs[i]@)
}

/// A feature whose specs send it to the extended map.
pub open spec fn is_extended(feature: (String, Vec<String>)) -> bool {
    needs_extended(feature.1@)
}

/// The features that stay in the primary map, in their order.
pub open spec fn primary_part(features: Seq<(String, Vec<String>)>) -> Seq<(String, Vec<String>)> {
    features.filter(|f: (String, Vec<String>)| !is_extended(f))
}

/// The features that go to the extended map, in their order.
pub open spec fn extended_part(features: Seq<(String, Vec<String>)>) -> Seq<(String, Vec<String>)> {
    features.filter(|f: (String, Vec<String>)| is_extended(f))
}

/// No two entries share a key.
pub open spec fn keys_unique<V>(s: Seq<(String, V)>) -> bool {
    forall|i: int, j: int| 0 <= i < j < s.len() ==> (#[trigger] s[i]).0@ != (#[trigger] s[j]).0@
}

/// Keeping some entries of a map keeps its keys unique.
pub proof fn lemma_filter_keys_unique<V>(s: Seq<(String, V)>, pred: spec_fn((String, V)) -> bool)
    requires
        keys_unique(s),
    ensures
        keys_unique(s.filter(pred)),
    decreases s.len(),
{
    reveal(Seq::filter);
    if s.len() > 0 {
        let rest = s.drop_last();
        assert(keys_unique(rest)) by {
            assert forall|i: int, j: int| 0 <= i < j < rest.len() implies (#[trigger] rest[i]).0@
                != (#[trigger] rest[j]).0@ by {
                assert(rest[i] == s[i] && rest[j] == s[j]);
            }
        }
        lemma_filter_keys_unique(rest, pred);
        let kept = rest.filter(pred);
        if pred(s.last()) {
            assert forall|i: int| 0 <= i < kept.len() implies (#[trigger] kept[i]).0@ != s.last().0@ by {
                assert(kept.contains(kept[i]));
                rest.lemma_filter_contains_rev(pred, kept[i]);
                let j = choose|j: int| 0 <= j < rest.len() && rest[j] == kept[i];
                assert(s[j] == rest[j]);
            }
            let out = kept.push(s.last());
            assert forall|i: int, j: int| 0 <= i < j < out.len() implies (#[trigger] out[i]).0@
                != (#[trigger] out[j]).0@ by {
                if j == out.len() - 1 {
                    assert(out[i] == kept[i]);
                } else {
                    assert(out[i] == kept[i] && out[j] == kept[j]);
                }
            }
        }
    }
}

/// The two parts of a map of features keep unique keys, share none, and
/// each holds only the features that belong in it.
pub proof fn lemma_partition_well_formed(features: Seq<(String, Vec<String>)>)
    requires
        keys_unique(features),
    ensures
        keys_unique(primary_part(features)),
        keys_unique(extended_part(features)),
        forall|i: int|
            0 <= i < primary_part(features).len() ==> !is_extended(
                #[trigger] primary_part(features)[i],
            ),
        forall|i: int|
            0 <= i < extended_part(features).len() ==> is_extended(
                #[trigger] extended_part(features)[i],
            ),
        forall|i: int, j: int|
            0 <= i < primary_part(features).len() && 0 <= j < extended_part(features).len()
                ==> (#[trigger] primary_part(features)[i]).0@ != (#[trigger] extended_part(
                features,
            )[j]).0@,
{
    broadcast use {vstd::seq_lib::group_filter_ensures, Seq::lemma_filter_contains_rev};

    let primary = primary_part(features);
    let extended = extended_part(features);
    lemma_filter_keys_unique(features, |f: (String, Vec<String>)| !is_extended(f));
    lemma_filter_keys_unique(features, |f: (String, Vec<String>)| is_extended(f));
    assert forall|i: int, j: int|
        0 <= i < primary.len() && 0 <= j < extended.len() implies (#[trigger] primary[i]).0@
        != (#[trigger] extended[j]).0@ by {
        assert(primary.contains(primary[i]));
        assert(extended.contains(extended[j]));
        let a = choose|a: int| 0 <= a < features.len() && features[a] == primary[i];
        let b = choose|b: int| 0 <= b < features.len() && features[b] == extended[j];
        if a < b {
            assert(features[a].0@ != features[b].0@);
        } else if b < a {
            assert(features[b].0@ != features[a].0@);
        }
    }
}

/// Whether one feature spec is in a namespaced form (`dep:pkg` or
/// `pkg?/feat`).
pub fn is_namespaced_spec(spec: &str) -> (r: bool)
    ensures
        r == is_namespaced(spec@),
{
    proof {
        reveal_strlit("dep:");
        reveal_strlit("?/");
        assert("dep:"@ =~= dep_prefix());
        assert("?/"@ =~= weak_marker());
    }
    starts_with(spec, "dep:") || contains(spec, "?/")
}

/// Whether a feature's list of specs needs the extended schema.
pub fn uses_extended_syntax(specs: &Vec<String>) -> (r: bool)
    ensures
        r == needs_extended(specs@),
{
    let mut i: usize = 0;
    while i < specs.len()
        invariant
            i <= specs.len(),
            forall|k: int| 0 <= k < i ==> !is_namespaced(#[trigger] specs@[k]@),
        decreases specs.len() - i,
    {
        if is_namespaced_spec(specs[i].as_str()) {
            return true;
        }
        i = i + 1;
    }
    false
}

/// Splits features into those for the primary map and those for the
/// extended map, each part in the original order.
pub fn partition_features(features: FeatureMap) -> (r: (FeatureMap, FeatureMap))
    ensures
        r.0@ == primary_part(features@),
        r.1@ == extended_part(features@),
{
    let mut primary: FeatureMap = Vec::new();
    let mut extended: FeatureMap = Vec::new();
    for f in it: features.into_iter()
        invariant
            it.seq() == features@,
            primary@ == primary_part(features@.take(it.index() as int)),
            extended@ == extended_part(features@.take(it.index() as int)),
    {
        let ghost done = features@.take(it.index() as int);
        let ghost next = features@.take(it.index() as int + 1);
        assert(next.drop_last() =~= done);
        assert(next.last() == f);
        reveal(Seq::filter);
        if uses_extended_syntax(&f.1) {
            extended.push(f);
        } else {
            primary.push(f);
        }
    }
    assert(features@.take(features@.len() as int) == features@);
    (primary, extended)
}

} // verus!
