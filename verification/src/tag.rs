//! The signed tag of a release.

use crate::release;
use crate::release::ApiTag;
use crate::text;
use crate::version;
use crate::version::ReleaseVersion;
use vstd::prelude::*;

verus! {

/// Whether `ssh_key::SshSig` accepts a text as a signature.
pub uninterp spec fn is_ssh_signature(text: Seq<char>) -> bool;

/// Whether `ssh_key::PublicKey` accepts a text as a key.
pub uninterp spec fn is_ssh_key(text: Seq<char>) -> bool;

/// Whether `ssh_key::PublicKey::verify` finds that a signature in a namespace was made
/// over a payload with a key.
pub uninterp spec fn ssh_verifies(
    key: Seq<char>,
    namespace: Seq<char>,
    payload: Seq<char>,
    signature: Seq<char>,
) -> bool;

/// Parses a text as `ssh_key::SshSig`, and tells whether it is one. Which texts are is
/// only named.
#[verifier::external_body]
pub(crate) fn signature_readable(signature: &str) -> (r: bool)
    ensures
        r == is_ssh_signature(signature@),
{
    signature.parse::<ssh_key::SshSig>().is_ok()
}

/// Parses a text as `ssh_key::PublicKey`, and tells whether it is one. Which texts are
/// is only named.
#[verifier::external_body]
pub(crate) fn key_readable(key: &str) -> (r: bool)
    ensures
        r == is_ssh_key(key@),
{
    key.parse::<ssh_key::PublicKey>().is_ok()
}

/// Calls `ssh_key::PublicKey::verify` with the key and the signature that two texts
/// stand for; nothing is verified where one of them stands for none. What it verifies is
/// only named.
#[verifier::external_body]
pub(crate) fn signature_verifies(
    key: &str,
    namespace: &str,
    payload: &str,
    signature: &str,
) -> (r: bool)
    ensures
        r == ssh_verifies(key@, namespace@, payload@, signature@),
        r ==> is_ssh_key(key@) && is_ssh_signature(signature@),
{
    match (key.parse::<ssh_key::PublicKey>(), signature.parse::<ssh_key::SshSig>()) {
        (Ok(key), Ok(signature)) => {
            key.verify(namespace, payload.as_bytes(), &signature).is_ok()
        },
        _ => false,
    }
}

/// Whether a line of the list of signers names one.
pub open spec fn is_signer_line(line: Seq<char>) -> bool {
    text::trimmed(line).len() > 0 && text::trimmed(line)[0] != '#'
}

/// The lines of the list that name signers, of the first `n`.
pub open spec fn signer_lines(lines: Seq<Seq<char>>, n: nat) -> Seq<Seq<char>>
    decreases n,
{
    if n == 0 {
        Seq::empty()
    } else if is_signer_line(lines[n - 1]) {
        signer_lines(lines, (n - 1) as nat).push(text::trimmed(lines[n - 1]))
    } else {
        signer_lines(lines, (n - 1) as nat)
    }
}

/// The one key of the list of signers, or what is wrong with the list.
pub open spec fn release_key(signers: Seq<char>) -> Result<Seq<char>, Seq<char>> {
    let all = text::lines_of(signers);
    let lines = signer_lines(all, all.len());
    if lines.len() == 0 {
        Err("the embedded Dogi release signer is missing"@)
    } else {
        let fields = text::words_of(lines[0]);
        if lines.len() > 1 || fields.len() != 4 || fields[0] != "*"@ || fields[1]
            != "namespaces=\"git\""@ || fields[2] != "ssh-ed25519"@ {
            Err("the embedded Dogi release signer is invalid"@)
        } else {
            Ok(fields[2] + " "@ + fields[3] + " dogi-release"@)
        }
    }
}

/// The first character of a text is a number sign.
fn is_comment(line: &str) -> (r: bool)
    requires
        line@.len() > 0,
    ensures
        r == (line@[0] == '#'),
{
    let chars = text::chars_of(line);
    chars[0] == '#'
}

/// The lines of a list that name signers.
fn signers_in(signers: &str) -> (r: Vec<String>)
    ensures
        text::texts(r@) == signer_lines(text::lines_of(signers@), text::lines_of(signers@).len()),
{
    let lines = text::lines(signers);
    let ghost all = text::lines_of(signers@);
    assert(text::texts(lines@).len() == lines@.len());
    let mut found: Vec<String> = Vec::new();
    assert(text::texts(found@) =~= Seq::empty());
    let mut i: usize = 0;
    while i < lines.len()
        invariant
            all == text::texts(lines@),
            all.len() == lines@.len(),
            i <= lines@.len(),
            text::texts(found@) == signer_lines(all, i as nat),
        decreases lines@.len() - i,
    {
        assert(all[i as int] == lines@[i as int]@);
        let line = text::trim(lines[i].as_str());
        let ghost before = found@;
        if !line.as_str().is_empty() && !is_comment(line.as_str()) {
            found.push(line);
            assert(text::texts(found@) =~= text::texts(before).push(line@));
        }
        i += 1;
    }
    found
}

/// The one key of the list of signers.
pub fn trusted_release_key(signers: &str) -> (r: Result<String, String>)
    ensures
        match r {
            Ok(key) => release_key(signers@) == Ok::<Seq<char>, Seq<char>>(key@),
            Err(detail) => release_key(signers@) == Err::<Seq<char>, Seq<char>>(detail@),
        },
{
    let lines = signers_in(signers);
    assert(text::texts(lines@).len() == lines@.len());
    if lines.len() == 0 {
        return Err("the embedded Dogi release signer is missing".to_owned());
    }
    assert(text::texts(lines@)[0] == lines@[0]@);
    let fields = text::words(lines[0].as_str());
    let ghost views = text::texts(fields@);
    assert(views.len() == fields@.len());
    if lines.len() > 1 || fields.len() != 4 {
        return Err("the embedded Dogi release signer is invalid".to_owned());
    }
    assert(views[0] == fields@[0]@ && views[1] == fields@[1]@ && views[2] == fields@[2]@ && views[3]
        == fields@[3]@);
    if !text::same_text(fields[0].as_str(), "*") || !text::same_text(
        fields[1].as_str(),
        "namespaces=\"git\"",
    ) || !text::same_text(fields[2].as_str(), "ssh-ed25519") {
        return Err("the embedded Dogi release signer is invalid".to_owned());
    }
    let mut key = text::concat3(fields[2].as_str(), " ", fields[3].as_str());
    key.append(" dogi-release");
    Ok(key)
}

/// Whether the service for releases vouches for a tag of a version.
pub open spec fn is_vouched_for(tag: ApiTag, version: Seq<char>, reference: Seq<char>) -> bool {
    tag.sha@ == reference && tag.tag@ == version && tag.object.kind@ == "commit"@
        && release::is_hex_of(tag.object.sha@, 40) && tag.verification.verified
        && tag.verification.reason@ == "valid"@
}

/// What a signed tag says first.
pub open spec fn payload_start(tag: ApiTag, version: Seq<char>) -> Seq<char> {
    "object "@ + tag.object.sha@ + "\ntype commit\ntag "@ + version + "\n"@
}

/// Why a tag is not trusted. `readable` tells that its signature is one, `key` is the
/// key of the releases, and `verifies` tells that the key made the signature.
pub open spec fn tag_fault(
    tag: ApiTag,
    version: Seq<char>,
    reference: Seq<char>,
    readable: bool,
    key: Result<Seq<char>, Seq<char>>,
    key_readable: bool,
    verifies: bool,
) -> Option<Seq<char>> {
    if !is_vouched_for(tag, version, reference) {
        Some("the release tag is not a verified signed tag"@)
    } else if tag.verification.signature is None {
        Some("the release tag signature is missing"@)
    } else if !readable {
        Some("the release tag SSH signature is invalid"@)
    } else if tag.verification.payload is None {
        Some("the release tag signed payload is missing"@)
    } else {
        match key {
            Err(detail) => Some(detail),
            Ok(_) => if !key_readable {
                Some("the embedded Dogi release key is invalid"@)
            } else if !verifies {
                Some("the release tag was not signed by the Dogi release key"@)
            } else if !text::has_prefix(
                tag.verification.payload->0@,
                payload_start(tag, version),
            ) {
                Some("the signed release tag payload does not match the release"@)
            } else {
                None
            },
        }
    }
}

/// The view of an answer.
pub open spec fn fault_of(answer: Result<(), String>) -> Option<Seq<char>> {
    match answer {
        Ok(_) => None,
        Err(detail) => Some(detail@),
    }
}

/// Whether the service for releases vouches for a tag of a version.
fn vouched_for(tag: &ApiTag, version: &str, reference: &str) -> (r: bool)
    ensures
        r == is_vouched_for(*tag, version@, reference@),
{
    text::same_text(tag.sha.as_str(), reference) && text::same_text(tag.tag.as_str(), version)
        && text::same_text(tag.object.kind.as_str(), "commit") && release::is_git_sha(
        tag.object.sha.as_str(),
    ) && tag.verification.verified && text::same_text(tag.verification.reason.as_str(), "valid")
}

/// Decides whether a tag is trusted, where `readable` tells that its signature is one,
/// `key` is the key of the releases, and `verifies` tells that the key made the
/// signature.
pub fn judge_tag(
    version: &ReleaseVersion,
    reference_sha: &str,
    tag: &ApiTag,
    readable: bool,
    key: Result<String, String>,
    key_readable: bool,
    verifies: bool,
) -> (r: Result<(), String>)
    ensures
        fault_of(r) == tag_fault(
            *tag,
            version::version_text(version@),
            reference_sha@,
            readable,
            match key {
                Ok(key) => Ok(key@),
                Err(detail) => Err(detail@),
            },
            key_readable,
            verifies,
        ),
{
    let written = version.text();
    if !vouched_for(tag, written.as_str(), reference_sha) {
        return Err("the release tag is not a verified signed tag".to_owned());
    }
    if tag.verification.signature.is_none() {
        return Err("the release tag signature is missing".to_owned());
    }
    if !readable {
        return Err("the release tag SSH signature is invalid".to_owned());
    }
    let payload = match &tag.verification.payload {
        Some(payload) => payload,
        None => return Err("the release tag signed payload is missing".to_owned()),
    };
    if let Err(detail) = key {
        return Err(detail);
    }
    if !key_readable {
        return Err("the embedded Dogi release key is invalid".to_owned());
    }
    if !verifies {
        return Err("the release tag was not signed by the Dogi release key".to_owned());
    }
    let mut start = text::concat3("object ", tag.object.sha.as_str(), "\ntype commit\ntag ");
    start.append(written.as_str());
    start.append("\n");
    assert(start@ =~= payload_start(*tag, written@));
    if !text::starts_with(payload.as_str(), start.as_str()) {
        return Err("the signed release tag payload does not match the release".to_owned());
    }
    Ok(())
}

/// A text that may be missing.
pub open spec fn text_or_empty(s: Option<String>) -> Seq<char> {
    match s {
        Some(s) => s@,
        None => Seq::empty(),
    }
}

/// The key of the releases, or nothing.
pub open spec fn key_or_empty(key: Result<Seq<char>, Seq<char>>) -> Seq<char> {
    match key {
        Ok(key) => key,
        Err(_) => Seq::empty(),
    }
}

/// A copy of a text that may be missing.
fn copy_or_empty(s: &Option<String>) -> (r: String)
    ensures
        r@ == text_or_empty(*s),
{
    match s {
        Some(s) => s.clone(),
        None => String::new(),
    }
}

/// Why a tag is not one that the signers vouch for, if it is not.
pub open spec fn distrust(
    version: version::VersionView,
    reference_sha: Seq<char>,
    tag: ApiTag,
    signers: Seq<char>,
) -> Option<Seq<char>> {
    tag_fault(
        tag,
        version::version_text(version),
        reference_sha,
        is_ssh_signature(text_or_empty(tag.verification.signature)),
        release_key(signers),
        is_ssh_key(key_or_empty(release_key(signers))),
        ssh_verifies(
            key_or_empty(release_key(signers)),
            "git"@,
            text_or_empty(tag.verification.payload),
            text_or_empty(tag.verification.signature),
        ),
    )
}

/// Decides whether a tag is trusted: it is signed with the key of the releases, and what
/// is signed is this tag.
pub fn verify_tag(
    version: &ReleaseVersion,
    reference_sha: &str,
    tag: &ApiTag,
    signers: &str,
) -> (r: Result<(), String>)
    ensures
        fault_of(r) == distrust(version@, reference_sha@, *tag, signers@),
{
    let signature = copy_or_empty(&tag.verification.signature);
    let payload = copy_or_empty(&tag.verification.payload);
    let key = trusted_release_key(signers);
    let key_text = match &key {
        Ok(key) => key.clone(),
        Err(_) => String::new(),
    };
    let readable = signature_readable(signature.as_str());
    let key_is_one = key_readable(key_text.as_str());
    let verifies = signature_verifies(
        key_text.as_str(),
        "git",
        payload.as_str(),
        signature.as_str(),
    );
    judge_tag(version, reference_sha, tag, readable, key, key_is_one, verifies)
}

/// What is accepted of one tag is not accepted under the name of another version: what
/// is signed names the version, and it ends the line.
pub proof fn law_signed_tags_are_not_relabelled(
    a: ApiTag,
    b: ApiTag,
    version_a: Seq<char>,
    version_b: Seq<char>,
    reference: Seq<char>,
    readable: bool,
    key: Result<Seq<char>, Seq<char>>,
    key_readable: bool,
    verifies: bool,
)
    requires
        a.verification.payload is Some && b.verification.payload is Some,
        a.verification.payload->0@ == b.verification.payload->0@,
        !version_a.contains('\n') && !version_b.contains('\n'),
        tag_fault(a, version_a, reference, readable, key, key_readable, verifies) is None,
        tag_fault(b, version_b, reference, readable, key, key_readable, verifies) is None,
    ensures
        version_a == version_b,
        a.object.sha@ == b.object.sha@,
{
    let payload = a.verification.payload->0@;
    let sa = a.object.sha@;
    let sb = b.object.sha@;
    let first = payload_start(a, version_a);
    let second = payload_start(b, version_b);
    let o = "object "@.len() as int;
    let m = "\ntype commit\ntag "@.len() as int;
    let from = o + 40 + m;
    reveal_strlit("\n");
    assert(payload.take(first.len() as int) == first);
    assert(payload.take(second.len() as int) == second);
    assert forall|i: int| 0 <= i < first.len() implies #[trigger] payload[i] == first[i] by {
        assert(payload.take(first.len() as int)[i] == payload[i]);
    }
    assert forall|i: int| 0 <= i < second.len() implies #[trigger] payload[i] == second[i] by {
        assert(payload.take(second.len() as int)[i] == payload[i]);
    }
    assert(sa =~= sb) by {
        assert forall|i: int| 0 <= i < 40 implies sa[i] == sb[i] by {
            assert(first[o + i] == sa[i]);
            assert(second[o + i] == sb[i]);
            assert(payload[o + i] == first[o + i]);
            assert(payload[o + i] == second[o + i]);
        }
    }
    assert(first.len() == from + version_a.len() + 1);
    assert(second.len() == from + version_b.len() + 1);
    assert forall|i: int| 0 <= i < version_a.len() implies first[from + i] == version_a[i] by {}
    assert forall|i: int| 0 <= i < version_b.len() implies second[from + i] == version_b[i] by {}
    assert(first[from + version_a.len()] == '\n');
    assert(second[from + version_b.len()] == '\n');
    if version_a.len() < version_b.len() {
        let k = version_a.len() as int;
        assert(payload[from + k] == '\n');
        assert(version_b[k] == '\n');
        assert(false);
    }
    if version_b.len() < version_a.len() {
        let k = version_b.len() as int;
        assert(payload[from + k] == '\n');
        assert(version_a[k] == '\n');
        assert(false);
    }
    assert(version_a =~= version_b) by {
        assert forall|i: int| 0 <= i < version_a.len() implies version_a[i] == version_b[i] by {
            assert(payload[from + i] == first[from + i]);
            assert(payload[from + i] == second[from + i]);
        }
    }
}

/// A tag of the version that names a commit, was found valid, and was signed by the key of the
/// release over the text that names that commit and that version, is trusted.
pub proof fn law_signed_tag_is_trusted(
    tag: ApiTag,
    version: Seq<char>,
    reference: Seq<char>,
    key: Seq<char>,
    rest: Seq<char>,
)
    requires
        tag.sha@ == reference && tag.tag@ == version,
        tag.object.kind@ == "commit"@,
        release::is_hex_of(tag.object.sha@, 40),
        tag.verification.verified && tag.verification.reason@ == "valid"@,
        tag.verification.signature is Some,
        tag.verification.payload is Some && tag.verification.payload->0@ == "object "@
            + tag.object.sha@ + "\ntype commit\ntag "@ + version + "\n"@ + rest,
    ensures
        tag_fault(tag, version, reference, true, Ok(key), true, true) is None,
        tag_fault(tag, version, reference, true, Ok(key), true, false) is Some,
        tag_fault(tag, version, reference, true, Ok(key), false, true) is Some,
        tag_fault(tag, version, reference, false, Ok(key), true, true) is Some,
        forall|detail: Seq<char>|
            #[trigger] tag_fault(tag, version, reference, true, Err(detail), true, true) == Some(
                detail,
            ),
{
    let start = "object "@ + tag.object.sha@ + "\ntype commit\ntag "@ + version + "\n"@;
    assert((start + rest).take(start.len() as int) =~= start);
}

/// A tag that differs from the release in its name, its identifier, what it names or the
/// verdict on it, that lacks a signature, or whose signed text names another commit or
/// version, is not trusted.
pub proof fn law_unsound_tag_is_refused(
    tag: ApiTag,
    version: Seq<char>,
    reference: Seq<char>,
    readable: bool,
    key: Result<Seq<char>, Seq<char>>,
    key_readable: bool,
    verifies: bool,
)
    requires
        tag_fault(tag, version, reference, readable, key, key_readable, verifies) is None,
    ensures
        readable && key_readable && verifies && key is Ok,
        tag.sha@ == reference && tag.tag@ == version && tag.object.kind@ == "commit"@,
        tag.object.sha@.len() == 40,
        tag.verification.verified && tag.verification.reason@ == "valid"@,
        tag.verification.signature is Some && tag.verification.payload is Some,
        ({
            let start = "object "@ + tag.object.sha@ + "\ntype commit\ntag "@ + version + "\n"@;
            let payload = tag.verification.payload->0@;
            start.len() <= payload.len() && payload.take(start.len() as int) == start
        }),
{
}

/// The key of the releases is the one of the only line of the list of signers that is neither
/// empty nor a comment, where that line lets the key sign for git alone.
pub proof fn law_release_key_is_the_listed_one(signers: Seq<char>, i: int)
    requires
        0 <= i < text::lines_of(signers).len(),
        is_signer_line(text::lines_of(signers)[i]),
        forall|k: int|
            0 <= k < text::lines_of(signers).len() && k != i ==> !is_signer_line(
                #[trigger] text::lines_of(signers)[k],
            ),
    ensures
        ({
            let fields = text::words_of(text::trimmed(text::lines_of(signers)[i]));
            let sound = fields.len() == 4 && fields[0] == "*"@ && fields[1]
                == "namespaces=\"git\""@ && fields[2] == "ssh-ed25519"@;
            &&& sound ==> release_key(signers) == Ok::<Seq<char>, Seq<char>>(
                "ssh-ed25519"@ + " "@ + fields[3] + " dogi-release"@,
            )
            &&& !sound ==> release_key(signers) is Err
        }),
{
    lemma_only_signer(text::lines_of(signers), text::lines_of(signers).len(), i);
}

proof fn lemma_only_signer(lines: Seq<Seq<char>>, n: nat, i: int)
    requires
        n <= lines.len(),
        0 <= i < lines.len(),
        is_signer_line(lines[i]),
        forall|k: int| 0 <= k < lines.len() && k != i ==> !is_signer_line(#[trigger] lines[k]),
    ensures
        i < n ==> signer_lines(lines, n) == seq![text::trimmed(lines[i])],
        n <= i ==> signer_lines(lines, n) == Seq::<Seq<char>>::empty(),
    decreases n,
{
    if n > 0 {
        lemma_only_signer(lines, (n - 1) as nat, i);
        if i == n - 1 {
            assert(signer_lines(lines, n) =~= seq![text::trimmed(lines[i])]);
        }
    }
}

/// A line of the list of signers is passed over where it is blank or starts with `#`.
pub proof fn law_signer_lines(line: Seq<char>)
    ensures
        text::trimmed(line).len() == 0 ==> !is_signer_line(line),
        text::trimmed(line).len() > 0 ==> (is_signer_line(line) <==> text::trimmed(line)[0] != '#'),
{
}

/// A tag is trusted exactly where nothing speaks against it.
pub proof fn law_trust_is_answered(
    v: &ReleaseVersion,
    reference: &str,
    tag: &ApiTag,
    signers: &str,
    key: String,
    readable: bool,
    key_readable: bool,
    verifies: bool,
)
    ensures
        forall|r: Result<(), String>|
            #![trigger call_ensures(judge_tag, (v, reference, tag, readable, Ok(key), key_readable, verifies), r)]
            call_ensures(
                judge_tag,
                (v, reference, tag, readable, Ok(key), key_readable, verifies),
                r,
            ) ==> {
                let fault = tag_fault(
                    *tag,
                    version::version_text(v@),
                    reference@,
                    readable,
                    Ok(key@),
                    key_readable,
                    verifies,
                );
                &&& r is Ok <==> fault is None
                &&& r matches Err(detail) ==> fault == Some(detail@)
            },
        forall|r: Result<(), String>|
            #![trigger call_ensures(verify_tag, (v, reference, tag, signers), r)]
            call_ensures(verify_tag, (v, reference, tag, signers), r) ==> {
                &&& r is Ok <==> distrust(v@, reference@, *tag, signers@) is None
                &&& r matches Err(detail) ==> distrust(v@, reference@, *tag, signers@) == Some(
                    detail@,
                )
            },
        forall|r: Result<String, String>|
            #![trigger call_ensures(trusted_release_key, (signers,), r)]
            call_ensures(trusted_release_key, (signers,), r) ==> (r is Ok <==> release_key(signers@)
                is Ok) && (r is Ok ==> release_key(signers@)->Ok_0 == r->Ok_0@),
{
}

}
