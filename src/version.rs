use vstd::prelude::*;

verus! {

/// Whether `semver::Version::parse` accepts the text.
pub uninterp spec fn semver_valid(s: Seq<char>) -> bool;

/// How `semver::Version` orders the versions parsed from two texts.
pub uninterp spec fn semver_order(a: Seq<char>, b: Seq<char>) -> core::cmp::Ordering;

/// Relies on `semver::Version::parse`: whether the text is a semantic version.
#[verifier::external_body]
pub(crate) fn is_semver(s: &str) -> (r: bool)
    ensures
        r == semver_valid(s@),
{
    semver::Version::parse(s).is_ok()
}

/// Relies on the `Ord` of `semver::Version` (major, minor, patch, pre-release,
/// then build metadata), on two texts that parse.
#[verifier::external_body]
pub(crate) fn compare_semver(a: &str, b: &str) -> (r: core::cmp::Ordering)
    requires
        semver_valid(a@),
        semver_valid(b@),
    ensures
        r == semver_order(a@, b@),
{
    let x = semver::Version::parse(a).unwrap();
    let y = semver::Version::parse(b).unwrap();
    x.cmp(&y)
}

} // verus!
