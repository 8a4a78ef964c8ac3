//! Which release is offered as an update, and why it is trusted.

use crate::text;
use crate::version;
use crate::version::ReleaseVersion;
use vstd::prelude::*;

verus! {

pub const API_ROOT: &'static str = "https://api.github.com/repos/oksyd/dogi";

pub const RELEASE_ROOT: &'static str = "https://github.com/oksyd/dogi/releases";

pub const API_VERSION: &'static str = "2026-03-10";

pub const API_BODY_LIMIT: u64 = 1048576;

pub const MAX_ARTIFACT_SIZE: u64 = 134217728;

/// Who signs the tags of the releases.
pub const TRUSTED_RELEASE_SIGNER: &'static str =
    "# The key that signs the release tags of Dogi.
* namespaces=\"git\" ssh-ed25519 AAAAC3NzaC1lZDI1NTE5AAAAIPWYbYLT0BRYQFKw9LYnVUPykby0hQHr5SWWg6C+mCu5
";

/// A package of a release.
#[derive(Debug, PartialEq, Eq)]
pub struct ReleaseArtifact {
    pub name: String,
    pub url: String,
    pub size: u64,
    pub sha256: String,
}

/// A release that may be installed.
#[derive(Debug, PartialEq, Eq)]
pub struct ReleaseCandidate {
    pub version: ReleaseVersion,
    pub artifact: ReleaseArtifact,
}

/// The mathematical value of [`ReleaseCandidate`].
#[verifier::ext_equal]
pub struct CandidateView {
    pub version: version::VersionView,
    pub name: Seq<char>,
    pub url: Seq<char>,
    pub size: u64,
    pub sha256: Seq<char>,
}

impl View for ReleaseCandidate {
    type V = CandidateView;

    open spec fn view(&self) -> CandidateView {
        CandidateView {
            version: self.version@,
            name: self.artifact.name@,
            url: self.artifact.url@,
            size: self.artifact.size,
            sha256: self.artifact.sha256@,
        }
    }
}

/// Which package of a release is meant.
#[derive(Clone, Copy, Debug, PartialEq, Eq)]
pub enum ReleaseAssetKind {
    Debian { architecture: &'static str },
    Portable { target: &'static str },
}

/// The name of a package.
pub open spec fn asset_name(kind: ReleaseAssetKind, version: Seq<char>) -> Seq<char> {
    match kind {
        ReleaseAssetKind::Debian { architecture } => "dogi_"@ + version + "_"@ + architecture@
            + ".deb"@,
        ReleaseAssetKind::Portable { target } => "dogi-"@ + version + "-"@ + target@
            + ".tar.zst"@,
    }
}

/// The name of a package: its product, its version, what it is for, and its ending.
fn package_name(
    product: &str,
    version: &str,
    separator: &str,
    platform: &str,
    ending: &str,
) -> (r: String)
    ensures
        r@ == product@ + version@ + separator@ + platform@ + ending@,
{
    let mut name = text::concat3(product, version, separator);
    name.append(platform);
    name.append(ending);
    name
}

impl ReleaseAssetKind {
    /// The name of the package of a version.
    pub fn expected_name(&self, version: &ReleaseVersion) -> (r: String)
        ensures
            r@ == asset_name(*self, version::version_text(version@)),
    {
        let written = version.text();
        match self {
            ReleaseAssetKind::Debian { architecture } => package_name(
                "dogi_",
                written.as_str(),
                "_",
                architecture,
                ".deb",
            ),
            ReleaseAssetKind::Portable { target } => package_name(
                "dogi-",
                written.as_str(),
                "-",
                target,
                ".tar.zst",
            ),
        }
    }
}

/// A package, as the service for releases describes it.
#[derive(Debug, PartialEq, Eq)]
pub struct ApiReleaseAsset {
    pub name: String,
    pub browser_download_url: String,
    pub state: String,
    pub size: u64,
    pub digest: String,
}

/// A release, as the service for releases describes it.
#[derive(Debug, PartialEq, Eq)]
pub struct ApiRelease {
    pub tag_name: String,
    pub html_url: String,
    pub draft: bool,
    pub prerelease: bool,
    pub immutable: bool,
    pub assets: Vec<ApiReleaseAsset>,
}

/// An object of the repository.
#[derive(Debug, PartialEq, Eq)]
pub struct ApiGitObject {
    pub sha: String,
    pub kind: String,
}

/// What a tag refers to.
#[derive(Debug, PartialEq, Eq)]
pub struct ApiTagReference {
    pub reference: String,
    pub object: ApiGitObject,
}

/// What the service for releases found out about the signature of a tag.
#[derive(Debug, PartialEq, Eq)]
pub struct ApiVerification {
    pub verified: bool,
    pub reason: String,
    pub signature: Option<String>,
    pub payload: Option<String>,
}

/// A tag, as the service for releases describes it.
#[derive(Debug, PartialEq, Eq)]
pub struct ApiTag {
    pub sha: String,
    pub tag: String,
    pub object: ApiGitObject,
    pub verification: ApiVerification,
}

/// Whether a text consists of `n` hexadecimal digits.
pub open spec fn is_hex_of(s: Seq<char>, n: nat) -> bool {
    s.len() == n && forall|i: int| 0 <= i < n ==> text::is_hex_digit(#[trigger] s[i])
}

/// Whether a text consists of `n` hexadecimal digits.
pub fn hex_of(s: &str, n: usize) -> (r: bool)
    ensures
        r == is_hex_of(s@, n as nat),
{
    let chars = text::chars_of(s);
    if chars.len() != n {
        return false;
    }
    let mut i: usize = 0;
    while i < n
        invariant
            chars@ == s@,
            chars@.len() == n,
            i <= n,
            forall|k: int| 0 <= k < i ==> text::is_hex_digit(#[trigger] s@[k]),
        decreases n - i,
    {
        if !text::hex_digit(chars[i]) {
            assert(!text::is_hex_digit(s@[i as int]));
            return false;
        }
        i += 1;
    }
    true
}

/// Whether a text names an object of the repository.
pub fn is_git_sha(value: &str) -> (r: bool)
    ensures
        r == is_hex_of(value@, 40),
{
    hex_of(value, 40)
}

/// The SHA-256 digest in a description of a package.
pub open spec fn digest_in(value: Seq<char>) -> Option<Seq<char>> {
    let rest = value.skip("sha256:"@.len() as int);
    if text::has_prefix(value, "sha256:"@) && is_hex_of(rest, 64) {
        Some(text::lowered(rest))
    } else {
        None
    }
}

/// The SHA-256 digest in a description of a package.
pub fn parse_sha256(value: &str) -> (r: Option<String>)
    ensures
        text::optional(r) == digest_in(value@),
{
    if !text::starts_with(value, "sha256:") {
        return None;
    }
    let chars = text::chars_of(value);
    proof {
        reveal_strlit("sha256:");
    }
    let rest = text::text_of(&chars, 7, chars.len());
    assert(rest@ =~= value@.skip("sha256:"@.len() as int));
    if hex_of(rest.as_str(), 64) {
        Some(text::lower_text(rest.as_str()))
    } else {
        None
    }
}

/// The place of a release on the web.
pub open spec fn release_url(version: Seq<char>) -> Seq<char> {
    RELEASE_ROOT@ + "/tag/"@ + version
}

/// The place of a package on the web.
pub open spec fn asset_url(version: Seq<char>, name: Seq<char>) -> Seq<char> {
    RELEASE_ROOT@ + "/download/"@ + version + "/"@ + name
}

/// The first package of a name, from position `i` on.
pub open spec fn asset_from(assets: Seq<ApiReleaseAsset>, name: Seq<char>, i: int) -> int
    decreases assets.len() - i,
{
    if 0 <= i < assets.len() && assets[i].name@ != name {
        asset_from(assets, name, i + 1)
    } else {
        i
    }
}

/// What is decided about a release.
pub enum Verdict {
    /// It is not trusted.
    Refuse(Seq<char>),
    /// It is not newer.
    UpToDate,
    Offer(CandidateView),
}

/// What is decided about a package of a newer release.
pub open spec fn asset_verdict(
    version: version::VersionView,
    name: Seq<char>,
    asset: ApiReleaseAsset,
) -> Verdict {
    if asset.state@ != "uploaded"@ || asset.size == 0 || asset.size > MAX_ARTIFACT_SIZE {
        Verdict::Refuse("the release asset has an invalid size or state"@)
    } else if asset.browser_download_url@ != asset_url(version::version_text(version), name) {
        Verdict::Refuse("the release asset URL is not trusted"@)
    } else {
        match digest_in(asset.digest@) {
            None => Verdict::Refuse("the release asset does not include a valid SHA-256 digest"@),
            Some(sha256) => Verdict::Offer(
                CandidateView {
                    version,
                    name,
                    url: asset.browser_download_url@,
                    size: asset.size,
                    sha256,
                },
            ),
        }
    }
}

/// What is decided about a release. `parsed` is the version that its tag names, and
/// `newer` tells that it is newer than the one that runs.
pub open spec fn release_verdict(
    kind: ReleaseAssetKind,
    release: ApiRelease,
    parsed: Option<version::VersionView>,
    newer: bool,
) -> Verdict {
    if release.draft || release.prerelease {
        Verdict::Refuse("GitHub returned a non-stable release as latest"@)
    } else {
        match parsed {
            None => Verdict::Refuse("the latest Dogi release tag is not a semantic version"@),
            Some(v) => if !newer {
                Verdict::UpToDate
            } else if !release.immutable {
                Verdict::Refuse(
                    "the latest release is not immutable, so Dogi will not install it automatically"@,
                )
            } else if release.html_url@ != release_url(version::version_text(v)) {
                Verdict::Refuse("the latest release URL is not trusted"@)
            } else {
                let name = asset_name(kind, version::version_text(v));
                let at = asset_from(release.assets@, name, 0);
                if at < release.assets@.len() {
                    asset_verdict(v, name, release.assets@[at])
                } else {
                    Verdict::Refuse(
                        "release "@ + version::version_text(v) + " does not contain "@ + name,
                    )
                }
            },
        }
    }
}

/// The verdict that an answer stands for.
pub open spec fn verdict_of(answer: Result<Option<ReleaseCandidate>, String>) -> Verdict {
    match answer {
        Ok(Some(candidate)) => Verdict::Offer(candidate@),
        Ok(None) => Verdict::UpToDate,
        Err(detail) => Verdict::Refuse(detail@),
    }
}

/// Finds the first package of a name.
fn find_asset(assets: &Vec<ApiReleaseAsset>, name: &str) -> (r: usize)
    ensures
        r == asset_from(assets@, name@, 0),
        r <= assets@.len(),
{
    let mut i: usize = 0;
    while i < assets.len()
        invariant
            i <= assets@.len(),
            asset_from(assets@, name@, 0) == asset_from(assets@, name@, i as int),
        decreases assets@.len() - i,
    {
        if text::same_text(assets[i].name.as_str(), name) {
            return i;
        }
        i += 1;
    }
    i
}

/// Decides about a package of a newer release.
fn validate_asset(version: ReleaseVersion, name: String, asset: &ApiReleaseAsset) -> (r: Result<
    Option<ReleaseCandidate>,
    String,
>)
    ensures
        verdict_of(r) == asset_verdict(version@, name@, *asset),
{
    if !text::same_text(asset.state.as_str(), "uploaded") || asset.size == 0 || asset.size
        > MAX_ARTIFACT_SIZE {
        return Err("the release asset has an invalid size or state".to_owned());
    }
    let written = version.text();
    let mut url = text::concat3(RELEASE_ROOT, "/download/", written.as_str());
    url.append("/");
    url.append(name.as_str());
    if !text::same_text(asset.browser_download_url.as_str(), url.as_str()) {
        return Err("the release asset URL is not trusted".to_owned());
    }
    match parse_sha256(asset.digest.as_str()) {
        None => Err("the release asset does not include a valid SHA-256 digest".to_owned()),
        Some(sha256) => Ok(
            Some(
                ReleaseCandidate {
                    version,
                    artifact: ReleaseArtifact { name, url, size: asset.size, sha256 },
                },
            ),
        ),
    }
}

/// Decides about a release, where `parsed` is the version that its tag names and `newer`
/// tells that it is newer than the one that runs.
pub fn judge_release(
    kind: &ReleaseAssetKind,
    release: &ApiRelease,
    parsed: Option<ReleaseVersion>,
    newer: bool,
) -> (r: Result<Option<ReleaseCandidate>, String>)
    ensures
        verdict_of(r) == release_verdict(*kind, *release, version::version_view(parsed), newer),
{
    if release.draft || release.prerelease {
        return Err("GitHub returned a non-stable release as latest".to_owned());
    }
    let version = match parsed {
        Some(version) => version,
        None => return Err("the latest Dogi release tag is not a semantic version".to_owned()),
    };
    if !newer {
        return Ok(None);
    }
    if !release.immutable {
        return Err(
            "the latest release is not immutable, so Dogi will not install it automatically".to_owned(),
        );
    }
    let written = version.text();
    let url = text::concat3(RELEASE_ROOT, "/tag/", written.as_str());
    if !text::same_text(release.html_url.as_str(), url.as_str()) {
        return Err("the latest release URL is not trusted".to_owned());
    }
    let name = kind.expected_name(&version);
    let at = find_asset(&release.assets, name.as_str());
    if at < release.assets.len() {
        return validate_asset(version, name, &release.assets[at]);
    }
    let mut detail = text::concat3("release ", written.as_str(), " does not contain ");
    detail.append(name.as_str());
    Err(detail)
}

/// What a release is worth to an installation of a version.
pub open spec fn verdict_on(
    current: version::VersionView,
    kind: ReleaseAssetKind,
    release: ApiRelease,
) -> Verdict {
    let parsed = version::semver_of(release.tag_name@);
    release_verdict(
        kind,
        release,
        parsed,
        match parsed {
            Some(v) => !version::semver_at_most(v, current),
            None => false,
        },
    )
}

/// Decides about a release: nothing where it is not newer than the version that runs.
pub fn validate_release(
    current: &ReleaseVersion,
    kind: &ReleaseAssetKind,
    release: &ApiRelease,
) -> (r: Result<Option<ReleaseCandidate>, String>)
    ensures
        verdict_of(r) == verdict_on(current@, *kind, *release),
        r matches Ok(Some(candidate)) ==> version::number_order(candidate@.version, current@) >= 0,
        r matches Ok(Some(candidate)) ==> candidate@.version != current@,
        r matches Ok(Some(candidate)) ==> version::reads_back(candidate@.version)
            && version::version_text(candidate@.version) == release.tag_name@,
{
    let parsed = ReleaseVersion::parse(release.tag_name.as_str());
    let newer = match &parsed {
        Some(version) => version.newer_than(current),
        None => false,
    };
    judge_release(kind, release, parsed, newer)
}

/// Only a release that cannot be changed any more, of a version that is newer, from the
/// known place and with a digest, is offered.
pub proof fn law_only_trusted_releases_are_offered(
    kind: ReleaseAssetKind,
    release: ApiRelease,
    parsed: Option<version::VersionView>,
    newer: bool,
)
    requires
        release_verdict(kind, release, parsed, newer) is Offer,
    ensures
        ({
            let offer = release_verdict(kind, release, parsed, newer)->Offer_0;
            let written = version::version_text(offer.version);
            &&& release.immutable && !release.draft && !release.prerelease
            &&& newer && parsed == Some(offer.version)
            &&& release.html_url@ == release_url(written)
            &&& offer.name == asset_name(kind, written)
            &&& offer.url == asset_url(written, offer.name)
            &&& 0 < offer.size <= MAX_ARTIFACT_SIZE
            &&& is_hex_of(offer.sha256, 64)
            &&& text::lowered(offer.sha256) == offer.sha256
        }),
{
    let offer = release_verdict(kind, release, parsed, newer)->Offer_0;
    let name = asset_name(kind, version::version_text(offer.version));
    let asset = release.assets@[asset_from(release.assets@, name, 0)];
    let rest = asset.digest@.skip("sha256:"@.len() as int);
    assert(digest_in(asset.digest@) == Some(offer.sha256));
    assert(offer.sha256 == text::lowered(rest));
    assert forall|i: int| 0 <= i < 64 implies text::is_hex_digit(#[trigger] offer.sha256[i]) by {
        assert(text::is_hex_digit(rest[i]));
    }
    assert(text::lowered(offer.sha256) =~= offer.sha256);
}

/// Whether a reference is that of an annotated tag of a version.
pub open spec fn is_annotated(reference: ApiTagReference, version: Seq<char>) -> bool {
    reference.reference@ == "refs/tags/"@ + version && reference.object.kind@ == "tag"@
        && is_hex_of(reference.object.sha@, 40)
}

/// Checks that a reference is that of an annotated tag of a version.
pub fn check_reference(version: &ReleaseVersion, reference: &ApiTagReference) -> (r: Result<
    (),
    String,
>)
    ensures
        match r {
            Ok(_) => is_annotated(*reference, version::version_text(version@)),
            Err(detail) => !is_annotated(*reference, version::version_text(version@)) && detail@
                == "the release does not reference an annotated tag"@,
        },
{
    let written = version.text();
    let expected = text::concat2("refs/tags/", written.as_str());
    if !text::same_text(reference.reference.as_str(), expected.as_str()) || !text::same_text(
        reference.object.kind.as_str(),
        "tag",
    ) || !is_git_sha(reference.object.sha.as_str()) {
        return Err("the release does not reference an annotated tag".to_owned());
    }
    Ok(())
}

/// A newer release that is published for good, stands where the project publishes its releases,
/// and holds the package under its name, uploaded, of a size of up to 128 MiB, at the address of
/// the release and with its SHA-256 digest, is offered, with just that package.
pub proof fn law_sound_release_is_offered(
    kind: ReleaseAssetKind,
    release: ApiRelease,
    v: version::VersionView,
    digest: Seq<char>,
    i: int,
)
    requires
        !release.draft && !release.prerelease && release.immutable,
        release.html_url@ == "https://github.com/oksyd/dogi/releases"@ + "/tag/"@
            + version::version_text(v),
        0 <= i < release.assets@.len(),
        release.assets@[i].name@ == asset_name(kind, version::version_text(v)),
        forall|k: int|
            0 <= k < i ==> (#[trigger] release.assets@[k]).name@ != asset_name(
                kind,
                version::version_text(v),
            ),
        release.assets@[i].state@ == "uploaded"@,
        0 < release.assets@[i].size <= 134_217_728,
        release.assets@[i].browser_download_url@ == "https://github.com/oksyd/dogi/releases"@
            + "/download/"@ + version::version_text(v) + "/"@ + asset_name(
            kind,
            version::version_text(v),
        ),
        release.assets@[i].digest@ == "sha256:"@ + digest,
        digest.len() == 64,
        forall|k: int|
            0 <= k < 64 ==> '0' <= #[trigger] digest[k] <= '9' || 'a' <= digest[k] <= 'f',
    ensures
        release_verdict(kind, release, Some(v), true) == Verdict::Offer(
            CandidateView {
                version: v,
                name: asset_name(kind, version::version_text(v)),
                url: release.assets@[i].browser_download_url@,
                size: release.assets@[i].size,
                sha256: digest,
            },
        ),
        release_verdict(kind, release, Some(v), false) == Verdict::UpToDate,
{
    let name = asset_name(kind, version::version_text(v));
    lemma_first_asset(release.assets@, name, 0);
    let at = asset_from(release.assets@, name, 0);
    if at < i {
        assert(release.assets@[at].name@ != name);
    }
    assert(at == i);
    let value = "sha256:"@ + digest;
    assert(value.take("sha256:"@.len() as int) =~= "sha256:"@);
    assert(value.skip("sha256:"@.len() as int) =~= digest);
    assert(text::lowered(digest) =~= digest);
}

proof fn lemma_first_asset(assets: Seq<ApiReleaseAsset>, name: Seq<char>, i: int)
    requires
        0 <= i <= assets.len(),
    ensures
        i <= asset_from(assets, name, i) <= assets.len(),
        asset_from(assets, name, i) < assets.len() ==> assets[asset_from(assets, name, i)].name@
            == name,
        forall|k: int|
            i <= k < asset_from(assets, name, i) ==> (#[trigger] assets[k]).name@ != name,
    decreases assets.len() - i,
{
    if i < assets.len() && assets[i].name@ != name {
        lemma_first_asset(assets, name, i + 1);
    }
}

/// A release that is a draft, that may still change, that is no newer, or that lacks the package
/// is not offered.
pub proof fn law_unsound_release_is_refused(
    kind: ReleaseAssetKind,
    release: ApiRelease,
    parsed: Option<version::VersionView>,
    newer: bool,
)
    ensures
        release.draft || release.prerelease ==> release_verdict(kind, release, parsed, newer)
            is Refuse,
        parsed is None ==> release_verdict(kind, release, parsed, newer) is Refuse,
        !release.draft && !release.prerelease && parsed is Some && !newer ==> release_verdict(
            kind,
            release,
            parsed,
            newer,
        ) is UpToDate,
        newer && !release.immutable ==> release_verdict(kind, release, parsed, newer) is Refuse,
        newer && (parsed matches Some(v) && forall|k: int|
            0 <= k < release.assets@.len() ==> (#[trigger] release.assets@[k]).name@ != asset_name(
                kind,
                version::version_text(v),
            )) ==> release_verdict(kind, release, parsed, newer) is Refuse,
        release_verdict(kind, release, parsed, newer) matches Verdict::Offer(candidate) ==> 0
            < candidate.size <= 134_217_728,
{
    match parsed {
        Some(v) => {
            lemma_first_asset(release.assets@, asset_name(kind, version::version_text(v)), 0);
        },
        None => {},
    }
}

/// The names of the packages of a release.
pub proof fn law_package_names(architecture: &'static str, target: &'static str, v: Seq<char>)
    ensures
        asset_name(ReleaseAssetKind::Debian { architecture }, v) == "dogi_"@ + v + "_"@
            + architecture@ + ".deb"@,
        asset_name(ReleaseAssetKind::Portable { target }, v) == "dogi-"@ + v + "-"@ + target@
            + ".tar.zst"@,
{
}

/// A reference is to an annotated tag where it is the reference of the version, to a tag, with
/// an identifier of 40 hexadecimal digits.
pub proof fn law_annotated_tags_are_known(reference: ApiTagReference, v: Seq<char>)
    ensures
        is_annotated(reference, v) <==> {
            &&& reference.reference@ == "refs/tags/"@ + v
            &&& reference.object.kind@ == "tag"@
            &&& reference.object.sha@.len() == 40
            &&& forall|i: int|
                0 <= i < 40 ==> {
                    let c = #[trigger] reference.object.sha@[i];
                    '0' <= c <= '9' || 'a' <= c <= 'f' || 'A' <= c <= 'F'
                }
        },
{
}

/// The judgement on a release is what its judge answers: a candidate where it is offered, none
/// where nothing is newer, and what is wrong with it where it is refused.
pub proof fn law_judgements_are_answered(
    kind: &ReleaseAssetKind,
    release: &ApiRelease,
    parsed: Option<ReleaseVersion>,
    newer: bool,
    current: &ReleaseVersion,
)
    ensures
        forall|r: Result<Option<ReleaseCandidate>, String>|
            #![trigger call_ensures(judge_release, (kind, release, parsed, newer), r)]
            call_ensures(judge_release, (kind, release, parsed, newer), r) ==> {
                let verdict = release_verdict(*kind, *release, version::version_view(parsed), newer);
                &&& r matches Ok(Some(candidate)) ==> verdict == Verdict::Offer(candidate@)
                &&& r matches Ok(None) ==> verdict == Verdict::UpToDate
                &&& r matches Err(detail) ==> verdict == Verdict::Refuse(detail@)
            },
        forall|r: Result<Option<ReleaseCandidate>, String>|
            #![trigger call_ensures(validate_release, (current, kind, release), r)]
            call_ensures(validate_release, (current, kind, release), r) ==> {
                let verdict = verdict_on(current@, *kind, *release);
                &&& r matches Ok(Some(candidate)) ==> verdict == Verdict::Offer(candidate@)
                &&& r matches Ok(None) ==> verdict == Verdict::UpToDate
                &&& r matches Err(detail) ==> verdict == Verdict::Refuse(detail@)
            },
        forall|v: &ReleaseVersion, reference: &ApiTagReference, r: Result<(), String>|
            #![trigger call_ensures(check_reference, (v, reference), r)]
            call_ensures(check_reference, (v, reference), r) ==> (r is Ok <==> is_annotated(
                *reference,
                version::version_text(v@),
            )),
        forall|value: &str, r: Option<String>|
            #![trigger call_ensures(parse_sha256, (value,), r)]
            call_ensures(parse_sha256, (value,), r) ==> (r matches Some(digest) ==> digest@.len()
                == 64 && text::has_prefix(value@, "sha256:"@)),
{
}

}
