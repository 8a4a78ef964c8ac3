//! Versions of releases.

use crate::text;
use vstd::prelude::*;

verus! {

/// A semantic version.
#[derive(Debug, PartialEq, Eq)]
pub struct ReleaseVersion {
    pub major: u64,
    pub minor: u64,
    pub patch: u64,
    pub pre: String,
    pub build: String,
}

/// The mathematical value of [`ReleaseVersion`].
#[verifier::ext_equal]
pub struct VersionView {
    pub major: u64,
    pub minor: u64,
    pub patch: u64,
    pub pre: Seq<char>,
    pub build: Seq<char>,
}

impl View for ReleaseVersion {
    type V = VersionView;

    open spec fn view(&self) -> VersionView {
        VersionView {
            major: self.major,
            minor: self.minor,
            patch: self.patch,
            pre: self.pre@,
            build: self.build@,
        }
    }
}

impl Clone for ReleaseVersion {
    fn clone(&self) -> (r: Self)
        ensures
            r@ == self@,
    {
        ReleaseVersion {
            major: self.major,
            minor: self.minor,
            patch: self.patch,
            pre: self.pre.clone(),
            build: self.build.clone(),
        }
    }
}

/// The view of a version that may be missing.
pub open spec fn version_view(version: Option<ReleaseVersion>) -> Option<VersionView> {
    match version {
        Some(version) => Some(version@),
        None => None,
    }
}

/// The version that `semver::Version::parse` reads in a text, if it accepts it.
pub uninterp spec fn semver_of(text: Seq<char>) -> Option<VersionView>;

/// Whether a version comes before another one or is the same, as `semver::Version`
/// orders them.
pub uninterp spec fn semver_at_most(a: VersionView, b: VersionView) -> bool;

/// The version of three numbers.
pub open spec fn plain_version(major: u64, minor: u64, patch: u64) -> VersionView {
    VersionView { major, minor, patch, pre: Seq::empty(), build: Seq::empty() }
}

/// Calls `semver::Version::parse` and hands out the parts of the version. A text that it
/// accepts is just what the version is written as: nothing stands around it, and no
/// number begins with a needless zero. Three such numbers alone are accepted. Which
/// pre-releases and builds it accepts is only named.
#[verifier::external_body]
pub(crate) fn parse_version(text: &str) -> (r: Option<ReleaseVersion>)
    ensures
        version_view(r) == semver_of(text@),
        r matches Some(version) ==> version_text(version@) == text@,
        forall|major: u64, minor: u64, patch: u64|
            text@ == #[trigger] version_text(plain_version(major, minor, patch)) ==> version_view(r)
                == Some(plain_version(major, minor, patch)),
{
    let version = semver::Version::parse(text).ok()?;
    Some(
        ReleaseVersion {
            major: version.major,
            minor: version.minor,
            patch: version.patch,
            pre: version.pre.as_str().to_owned(),
            build: version.build.as_str().to_owned(),
        },
    )
}

/// The order of the numbers of two versions: -1, 0 or 1.
pub open spec fn number_order(a: VersionView, b: VersionView) -> int {
    if a.major != b.major {
        if a.major < b.major {
            -1
        } else {
            1
        }
    } else if a.minor != b.minor {
        if a.minor < b.minor {
            -1
        } else {
            1
        }
    } else if a.patch != b.patch {
        if a.patch < b.patch {
            -1
        } else {
            1
        }
    } else {
        0
    }
}

/// Compares two versions with `<=` of `semver::Version`. Versions with different
/// numbers are ordered by them, from left to right; a version is at most itself. How
/// pre-releases and builds of the same numbers are ordered is only named.
#[verifier::external_body]
pub(crate) fn at_most(a: &ReleaseVersion, b: &ReleaseVersion) -> (r: bool)
    ensures
        r == semver_at_most(a@, b@),
        number_order(a@, b@) < 0 ==> r,
        number_order(a@, b@) > 0 ==> !r,
        a@ == b@ ==> r,
{
    let mut left = semver::Version::new(a.major, a.minor, a.patch);
    left.pre = semver::Prerelease::new(a.pre.as_str()).unwrap_or_default();
    left.build = semver::BuildMetadata::new(a.build.as_str()).unwrap_or_default();
    let mut right = semver::Version::new(b.major, b.minor, b.patch);
    right.pre = semver::Prerelease::new(b.pre.as_str()).unwrap_or_default();
    right.build = semver::BuildMetadata::new(b.build.as_str()).unwrap_or_default();
    left <= right
}

/// A version as it is written.
pub open spec fn version_text(v: VersionView) -> Seq<char> {
    text::decimal(v.major as nat) + "."@ + text::decimal(v.minor as nat) + "."@ + text::decimal(
        v.patch as nat,
    ) + (if v.pre.len() > 0 {
        "-"@ + v.pre
    } else {
        Seq::empty()
    }) + (if v.build.len() > 0 {
        "+"@ + v.build
    } else {
        Seq::empty()
    })
}

/// Whether a version is read back from what it is written as. Every version that was read
/// in a text is.
pub open spec fn reads_back(v: VersionView) -> bool {
    semver_of(version_text(v)) == Some(v)
}

impl ReleaseVersion {
    /// The version of three numbers.
    pub fn new(major: u64, minor: u64, patch: u64) -> (r: Self)
        ensures
            r@ == plain_version(major, minor, patch),
    {
        ReleaseVersion { major, minor, patch, pre: String::new(), build: String::new() }
    }

    /// The version that a text names.
    pub fn parse(text: &str) -> (r: Option<Self>)
        ensures
            version_view(r) == semver_of(text@),
            r matches Some(version) ==> version_text(version@) == text@ && reads_back(version@),
            forall|major: u64, minor: u64, patch: u64|
                text@ == #[trigger] version_text(plain_version(major, minor, patch))
                    ==> version_view(r) == Some(plain_version(major, minor, patch)),
    {
        parse_version(text)
    }

    /// The version as it is written.
    pub fn text(&self) -> (r: String)
        ensures
            r@ == version_text(self@),
    {
        let mut r = String::new();
        text::push_decimal(&mut r, self.major);
        r.append(".");
        text::push_decimal(&mut r, self.minor);
        r.append(".");
        text::push_decimal(&mut r, self.patch);
        let ghost numbers = r@;
        assert(numbers =~= text::decimal(self@.major as nat) + "."@ + text::decimal(
            self@.minor as nat,
        ) + "."@ + text::decimal(self@.patch as nat));
        if !self.pre.as_str().is_empty() {
            r.append("-");
            r.append(self.pre.as_str());
        }
        if !self.build.as_str().is_empty() {
            r.append("+");
            r.append(self.build.as_str());
        }
        assert(r@ =~= version_text(self@));
        r
    }

    /// Whether the version is newer than another one.
    pub fn newer_than(&self, other: &ReleaseVersion) -> (r: bool)
        ensures
            r == !semver_at_most(self@, other@),
            number_order(self@, other@) > 0 ==> r,
            number_order(self@, other@) < 0 ==> !r,
            self@ == other@ ==> !r,
    {
        !at_most(self, other)
    }

    /// Whether two versions are the same.
    pub fn same(&self, other: &ReleaseVersion) -> (r: bool)
        ensures
            r == (self@ == other@),
    {
        self.major == other.major && self.minor == other.minor && self.patch == other.patch
            && text::same_text(self.pre.as_str(), other.pre.as_str()) && text::same_text(
            self.build.as_str(),
            other.build.as_str(),
        )
    }
}

/// Versions are ordered by their numbers, the first that differs decides, and no version is
/// newer than itself.
pub proof fn law_versions_are_ordered_by_their_numbers(a: &ReleaseVersion, b: &ReleaseVersion)
    ensures
        forall|r: bool|
            #![trigger call_ensures(ReleaseVersion::newer_than, (a, b), r)]
            call_ensures(ReleaseVersion::newer_than, (a, b), r) ==> {
                &&& a.major > b.major ==> r
                &&& a.major < b.major ==> !r
                &&& a.major == b.major && a.minor > b.minor ==> r
                &&& a.major == b.major && a.minor < b.minor ==> !r
                &&& a.major == b.major && a.minor == b.minor && a.patch > b.patch ==> r
                &&& a.major == b.major && a.minor == b.minor && a.patch < b.patch ==> !r
                &&& a@ == b@ ==> !r
            },
        forall|r: bool|
            #![trigger call_ensures(ReleaseVersion::same, (a, b), r)]
            call_ensures(ReleaseVersion::same, (a, b), r) ==> (r <==> a@ == b@),
{
}

/// A version is written as its three numbers with dots between them, and read back.
pub proof fn law_plain_versions_are_read_back(major: u64, minor: u64, patch: u64, s: &str)
    requires
        s@ == text::decimal(major as nat) + "."@ + text::decimal(minor as nat) + "."@
            + text::decimal(patch as nat),
    ensures
        forall|r: Option<ReleaseVersion>|
            #![trigger call_ensures(ReleaseVersion::parse, (s,), r)]
            call_ensures(ReleaseVersion::parse, (s,), r) ==> r is Some && r->0@.major == major
                && r->0@.minor == minor && r->0@.patch == patch && r->0@.pre.len() == 0
                && r->0@.build.len() == 0,
        forall|v: ReleaseVersion, written: String|
            #![trigger call_ensures(ReleaseVersion::text, (&v,), written)]
            call_ensures(ReleaseVersion::text, (&v,), written) && v@ == plain_version(
                major,
                minor,
                patch,
            ) ==> written@ == s@,
{
    let v = plain_version(major, minor, patch);
    assert(version_text(v) =~= s@);
}

}
