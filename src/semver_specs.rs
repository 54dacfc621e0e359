//! The items of `semver` that the library carries or calls, as Verus sees them.
use vstd::prelude::*;

verus! {

/// A parsed semantic version, carried through the transforms unread.
#[verifier::external_type_specification]
#[verifier::external_body]
pub struct ExVersion(semver::Version);

/// A parsed version requirement, carried through the transforms unread.
#[verifier::external_type_specification]
#[verifier::external_body]
pub struct ExVersionReq(semver::VersionReq);

/// The error that `semver` reports for text it cannot parse.
#[verifier::external_type_specification]
#[verifier::external_body]
pub struct ExError(semver::Error);

/// The derived `Clone` of `semver::Version`; nothing is claimed of the copy.
pub assume_specification[ <semver::Version as Clone>::clone ](v: &semver::Version) -> semver::Version;

/// The derived `Clone` of `semver::VersionReq`; nothing is claimed of the
/// copy.
pub assume_specification[ <semver::VersionReq as Clone>::clone ](
    r: &semver::VersionReq,
) -> semver::VersionReq;

} // verus!
