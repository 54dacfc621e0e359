use vstd::prelude::*;

verus! {

/// A manifest value that is either a string or a boolean, like `readme`.
#[derive(Clone, Debug, PartialEq, Eq)]
pub enum StringOrBool {
    String(String),
    Bool(bool),
}

/// Why a manifest's text was refused. Each variant carries the text as it
/// was written in the manifest.
#[derive(Clone, Debug, PartialEq, Eq)]
pub enum ManifestError {
    /// Not a semantic version, even with surrounding whitespace removed.
    InvalidVersion(String),
    /// Not a version requirement.
    InvalidRequirement(String),
}

/// The characters with Unicode's White_Space property.
pub open spec fn is_white_space(c: char) -> bool {
    let n = c as u32;
    ||| 0x09 <= n <= 0x0d
    ||| n == 0x20
    ||| n == 0x85
    ||| n == 0xa0
    ||| n == 0x1680
    ||| 0x2000 <= n <= 0x200a
    ||| n == 0x2028
    ||| n == 0x2029
    ||| n == 0x202f
    ||| n == 0x205f
    ||| n == 0x3000
}

/// `s` without its leading white space.
pub open spec fn trim_start(s: Seq<char>) -> Seq<char>
    decreases s.len(),
{
    if s.len() > 0 && is_white_space(s[0]) {
        trim_start(s.drop_first())
    } else {
        s
    }
}

/// `s` without its trailing white space.
pub open spec fn trim_end(s: Seq<char>) -> Seq<char>
    decreases s.len(),
{
    if s.len() > 0 && is_white_space(s.last()) {
        trim_end(s.drop_last())
    } else {
        s
    }
}

/// `s` without the white space around it.
pub open spec fn trimmed(s: Seq<char>) -> Seq<char> {
    trim_end(trim_start(s))
}

/// Every character of `s` is white space.
pub open spec fn all_white_space(s: Seq<char>) -> bool {
    forall|i: int| 0 <= i < s.len() ==> is_white_space(#[trigger] s[i])
}

proof fn lemma_trim_start_skips(p: Seq<char>, t: Seq<char>)
    requires
        all_white_space(p),
    ensures
        trim_start(p + t) == trim_start(t),
    decreases p.len(),
{
    if p.len() > 0 {
        assert((p + t).drop_first() =~= p.drop_first() + t);
        assert((p + t)[0] == p[0]);
        lemma_trim_start_skips(p.drop_first(), t);
    } else {
        assert(p + t =~= t);
    }
}

proof fn lemma_trim_end_skips(t: Seq<char>, q: Seq<char>)
    requires
        all_white_space(q),
    ensures
        trim_end(t + q) == trim_end(t),
    decreases q.len(),
{
    if q.len() > 0 {
        assert((t + q).drop_last() =~= t + q.drop_last());
        assert((t + q).last() == q.last());
        lemma_trim_end_skips(t, q.drop_last());
    } else {
        assert(t + q =~= t);
    }
}

proof fn lemma_trimmed_ignores_suffix(t: Seq<char>, q: Seq<char>)
    requires
        all_white_space(q),
    ensures
        trimmed(t + q) == trimmed(t),
    decreases t.len(),
{
    if t.len() == 0 {
        assert(t + q =~= q);
        lemma_trim_start_skips(q, Seq::empty());
        assert(q + Seq::<char>::empty() =~= q);
    } else if is_white_space(t[0]) {
        assert((t + q).drop_first() =~= t.drop_first() + q);
        assert((t + q)[0] == t[0]);
        lemma_trimmed_ignores_suffix(t.drop_first(), q);
    } else {
        assert((t + q)[0] == t[0]);
        lemma_trim_end_skips(t, q);
    }
}

/// White space around a text never changes what is left after trimming, so
/// it never changes whether the text parses as a version, nor which version
/// it parses as.
pub proof fn lemma_padding_ignored(p: Seq<char>, s: Seq<char>, q: Seq<char>)
    requires
        all_white_space(p),
        all_white_space(q),
    ensures
        trimmed(p + s + q) == trimmed(s),
        parsed_version(trimmed(p + s + q)) == parsed_version(trimmed(s)),
{
    assert(p + s + q =~= p + (s + q));
    lemma_trim_start_skips(p, s + q);
    lemma_trimmed_ignores_suffix(s, q);
}

/// The version that `semver` reads from `s`, or none where it refuses `s`.
pub uninterp spec fn parsed_version(s: Seq<char>) -> Option<semver::Version>;

/// The requirement that `semver` reads from `s`, or none where it refuses
/// `s`.
pub uninterp spec fn parsed_requirement(s: Seq<char>) -> Option<semver::VersionReq>;

/// Whether `semver` accepts `s` as a version.
pub open spec fn is_version(s: Seq<char>) -> bool {
    parsed_version(s) is Some
}

/// Whether `semver` accepts `s` as a version requirement.
pub open spec fn is_requirement(s: Seq<char>) -> bool {
    parsed_requirement(s) is Some
}

/// Relies on `str::trim`: it removes the leading and trailing characters
/// that have the White_Space property.
#[verifier::external_body]
fn trim(s: &str) -> (r: &str)
    ensures
        r@ == trimmed(s@),
{
    s.trim()
}

/// `semver::Version::parse` succeeds exactly on the text that is a version,
/// and what it returns depends on the text alone.
pub assume_specification[ semver::Version::parse ](text: &str) -> (r: Result<
    semver::Version,
    semver::Error,
>)
    ensures
        r is Ok <==> parsed_version(text@) is Some,
        r matches Ok(v) ==> parsed_version(text@) == Some(v),
;

/// `semver::VersionReq::parse` succeeds exactly on the text that is a
/// requirement, and what it returns depends on the text alone.
pub assume_specification[ semver::VersionReq::parse ](text: &str) -> (r: Result<
    semver::VersionReq,
    semver::Error,
>)
    ensures
        r is Ok <==> parsed_requirement(text@) is Some,
        r matches Ok(q) ==> parsed_requirement(text@) == Some(q),
;

/// Parses a package version, ignoring whitespace around it.
pub fn parse_version(s: &str) -> (r: Result<semver::Version, ManifestError>)
    ensures
        r is Ok <==> is_version(trimmed(s@)),
        r matches Ok(v) ==> parsed_version(trimmed(s@)) == Some(v),
        r matches Err(e) ==> e matches ManifestError::InvalidVersion(raw) && raw@ == s@,
{
    match semver::Version::parse(trim(s)) {
        Ok(v) => Ok(v),
        Err(_) => Err(ManifestError::InvalidVersion(s.to_owned())),
    }
}

/// Parses a dependency's version requirement.
pub fn parse_requirement(s: &str) -> (r: Result<semver::VersionReq, ManifestError>)
    ensures
        r is Ok <==> is_requirement(s@),
        r matches Ok(q) ==> parsed_requirement(s@) == Some(q),
        r matches Err(e) ==> e matches ManifestError::InvalidRequirement(raw) && raw@ == s@,
{
    match semver::VersionReq::parse(s) {
        Ok(v) => Ok(v),
        Err(_) => Err(ManifestError::InvalidRequirement(s.to_owned())),
    }
}

} // verus!
