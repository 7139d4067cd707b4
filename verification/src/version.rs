//! Version annotations carried by declarations, and the
//! allowed-deprecated-version range predicate, backed by semver.

use vstd::prelude::*;

verus! {

/// A version triple attached to a declaration by the introspection data
/// (introduced-in or deprecated-since annotations).
#[derive(Clone, Copy, Debug, PartialEq, Eq, Structural)]
pub struct Version {
    pub major: u16,
    pub minor: u16,
    pub patch: u16,
}

impl Version {
    pub fn new(major: u16, minor: u16, patch: u16) -> (r: Version)
        ensures
            r == (Version { major, minor, patch }),
    {
        Version { major, minor, patch }
    }
}

/// Whether semver accepts `s` as a version-range expression.
pub uninterp spec fn req_parse_ok(s: Seq<char>) -> bool;

/// Whether the range expression `req` accepts the version triple
/// `major.minor.patch`; the result depends on the arguments alone.
pub uninterp spec fn req_matches(req: Seq<char>, major: int, minor: int, patch: int) -> bool;

/// semver's parsed version-range type, held opaquely: the contracts below
/// speak of it only through the text it was parsed from.
#[verifier::external_type_specification]
#[verifier::external_body]
pub struct ExVersionReq(semver::VersionReq);

/// A parsed version-range expression. `raw` is the text the range was
/// parsed from; `inner` is always the result of parsing `raw`, so the
/// contracts below can speak of the range through `raw` alone.
pub struct VersionRange {
    raw: String,
    inner: semver::VersionReq,
}

impl VersionRange {
    /// The text this range was parsed from.
    pub closed spec fn src(&self) -> Seq<char> {
        self.raw@
    }

    /// Relies on semver::VersionReq::parse: it accepts exactly the
    /// version-range grammar of that crate.
    #[verifier::external_body]
    pub fn parse(s: &str) -> (r: Option<VersionRange>)
        ensures
            r is Some <==> req_parse_ok(s@),
            r is Some ==> r->0.src() == s@,
    {
        match semver::VersionReq::parse(s) {
            Ok(inner) => Some(VersionRange { raw: s.to_owned(), inner }),
            Err(_) => None,
        }
    }

    /// Relies on semver::VersionReq::matches: whether a range accepts a
    /// version is a function of the range text and the version alone.
    #[verifier::external_body]
    pub fn matches(&self, v: &Version) -> (r: bool)
        ensures
            r == req_matches(self.src(), v.major as int, v.minor as int, v.patch as int),
    {
        self.inner.matches(&semver::Version::new(v.major as u64, v.minor as u64, v.patch as u64))
    }
}

} // verus!
