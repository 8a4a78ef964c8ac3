use dogi::app_config::StoredApplicationConfig;
use dogi::archive::{path_parts, Admission, ArchiveReader, EntryKind, PathPart};
use dogi::artifact::{verify_file, CheckedCopy, CopyPurpose};
use dogi::debian::{InstallStage, PrivilegedInstall};
use dogi::environment::{update_policy, BuildChannel, Distribution};
use dogi::install::{
    check_field, check_installed, check_installer_end, check_newer, debian_install_arguments,
    debian_install_error, health_fault, installed_dogi_version, package_fields,
    parse_install_integrity, platform_architecture, read_relaunch, read_request, refresh_fault,
    relaunch_step, sibling_is_free, staging_made, transaction_name, validate_portable_root,
    Installation, InstallationError, PackageAnswer, PortableFindings, PrivilegedInstallError,
    RefreshEnd, RefreshStage, RelaunchStep, ServiceRefresh, RELAUNCH_POLLS,
};
use dogi::persistence::FileFault;
use dogi::portable::{PortableInstall, PortableStage};
use dogi::release::{
    check_reference, parse_sha256, validate_release, ApiGitObject, ApiRelease, ApiReleaseAsset,
    ApiTag, ApiTagReference, ApiVerification, ReleaseArtifact, ReleaseAssetKind,
    ReleaseCandidate, MAX_ARTIFACT_SIZE, TRUSTED_RELEASE_SIGNER,
};
use dogi::tag::{trusted_release_key, verify_tag};
use dogi::update::{
    update_fault, ApplicationUpdateCheckIntent, ApplicationUpdateErrorKind,
    ApplicationUpdateResult, ReleaseCheck, UpdateError, UpdateErrorKind, UpdateService,
};
use dogi::version::ReleaseVersion;
use sha2::Digest;

const TEST_TARGET: &str = "x86_64-unknown-linux-gnu";
const TAG_SIGNATURE: &str = "-----BEGIN SSH SIGNATURE-----\nU1NIU0lHAAAAAQAAADMAAAALc3NoLWVkMjU1MTkAAAAg9ZhtgtPQFFhAUrD0tidVQ/KRvL\nSFAevlJZaDoL6YK7kAAAADZ2l0AAAAAAAAAAZzaGE1MTIAAABTAAAAC3NzaC1lZDI1NTE5\nAAAAQFu/v4xW2z4AkNAVR34w75nS6SSOKi/juyf8ck0CiAXOZVW7csZXQIOOMosHXenyZJ\nvxlYAiyUWCL7mXi0/M3QQ=\n-----END SSH SIGNATURE-----\n";
const TAG_PAYLOAD: &str = "object b1936c1e30dbf4b9cc2797b8887d06f2ace7b655\ntype commit\ntag 0.1.3\ntagger forust <150141651+forust@users.noreply.github.com> 1785939881 +0800\n\nchore: release 0.1.3\n";
const TAG_SHA: &str = "8bc4b909d3e6bfcfe58fc1246eafda1e985c42e9";
const AMD64: ReleaseAssetKind = ReleaseAssetKind::Debian {
    architecture: "amd64",
};

fn version(major: u64, minor: u64, patch: u64) -> ReleaseVersion {
    ReleaseVersion::new(major, minor, patch)
}

fn release_fixture(immutable: bool) -> ApiRelease {
    ApiRelease {
        tag_name: "0.1.3".to_owned(),
        html_url: "https://github.com/oksyd/dogi/releases/tag/0.1.3".to_owned(),
        draft: false,
        prerelease: false,
        immutable,
        assets: vec![ApiReleaseAsset {
            name: "dogi_0.1.3_amd64.deb".to_owned(),
            browser_download_url:
                "https://github.com/oksyd/dogi/releases/download/0.1.3/dogi_0.1.3_amd64.deb"
                    .to_owned(),
            state: "uploaded".to_owned(),
            size: 1024,
            digest: format!("sha256:{}", "a".repeat(64)),
        }],
    }
}

#[test]
fn release_validation_selects_the_asset_of_the_installation() {
    let candidate = validate_release(&version(0, 1, 2), &AMD64, &release_fixture(true))
        .unwrap()
        .unwrap();

    assert_eq!(candidate.version, version(0, 1, 3));
    assert_eq!(candidate.artifact.name, "dogi_0.1.3_amd64.deb");
    assert_eq!(candidate.artifact.sha256, "a".repeat(64));
}

#[test]
fn current_and_older_releases_do_not_prepare_an_update() {
    assert!(
        validate_release(&version(0, 1, 3), &AMD64, &release_fixture(true))
            .unwrap()
            .is_none()
    );
}

#[test]
fn mutable_releases_are_never_accepted_for_installation() {
    let error = validate_release(&version(0, 1, 2), &AMD64, &release_fixture(false)).unwrap_err();

    assert!(error.contains("not immutable"));
}

#[test]
fn releases_with_a_foreign_asset_are_refused() {
    let current = version(0, 1, 2);
    let mut release = release_fixture(true);
    release.assets[0].browser_download_url = "https://example.com/dogi_0.1.3_amd64.deb".to_owned();
    assert!(validate_release(&current, &AMD64, &release).is_err());
    let mut release = release_fixture(true);
    release.assets[0].digest = "sha256:abc".to_owned();
    assert!(validate_release(&current, &AMD64, &release).is_err());
    let mut release = release_fixture(true);
    release.assets[0].size = MAX_ARTIFACT_SIZE + 1;
    assert!(validate_release(&current, &AMD64, &release).is_err());
    let mut release = release_fixture(true);
    release.tag_name = "v0.1.3".to_owned();
    assert!(validate_release(&current, &AMD64, &release).is_err());
    let mut release = release_fixture(true);
    release.draft = true;
    assert!(validate_release(&current, &AMD64, &release).is_err());
    let kind = ReleaseAssetKind::Portable {
        target: TEST_TARGET,
    };
    assert!(validate_release(&current, &kind, &release_fixture(true)).is_err());
}

#[test]
fn digests_are_read_in_either_case() {
    assert_eq!(
        parse_sha256(&format!("sha256:{}", "A".repeat(64))),
        Some("a".repeat(64))
    );
    assert_eq!(parse_sha256(&"a".repeat(64)), None);
    assert_eq!(parse_sha256(&format!("sha256:{}", "g".repeat(64))), None);
}

fn signed_tag(name: &str) -> ApiTag {
    ApiTag {
        sha: TAG_SHA.to_owned(),
        tag: name.to_owned(),
        object: ApiGitObject {
            sha: "b1936c1e30dbf4b9cc2797b8887d06f2ace7b655".to_owned(),
            kind: "commit".to_owned(),
        },
        verification: ApiVerification {
            verified: true,
            reason: "valid".to_owned(),
            signature: Some(TAG_SIGNATURE.to_owned()),
            payload: Some(TAG_PAYLOAD.to_owned()),
        },
    }
}

#[test]
fn pinned_release_key_verifies_the_real_signed_tag_fixture() {
    verify_tag(
        &version(0, 1, 3),
        TAG_SHA,
        &signed_tag("0.1.3"),
        TRUSTED_RELEASE_SIGNER,
    )
    .unwrap();
}

#[test]
fn signed_tag_payload_cannot_be_relabelled() {
    assert!(verify_tag(
        &version(0, 1, 4),
        TAG_SHA,
        &signed_tag("0.1.4"),
        TRUSTED_RELEASE_SIGNER,
    )
    .is_err());
}

#[test]
fn a_changed_payload_does_not_verify() {
    let mut tag = signed_tag("0.1.3");
    tag.verification.payload = Some(TAG_PAYLOAD.replace("chore", "fixes"));
    assert!(verify_tag(&version(0, 1, 3), TAG_SHA, &tag, TRUSTED_RELEASE_SIGNER).is_err());
    let mut tag = signed_tag("0.1.3");
    tag.verification.signature = Some("no signature".to_owned());
    assert!(verify_tag(&version(0, 1, 3), TAG_SHA, &tag, TRUSTED_RELEASE_SIGNER).is_err());
    let mut tag = signed_tag("0.1.3");
    tag.verification.verified = false;
    assert!(verify_tag(&version(0, 1, 3), TAG_SHA, &tag, TRUSTED_RELEASE_SIGNER).is_err());
}

#[test]
fn another_key_does_not_verify_the_tag() {
    let other = TRUSTED_RELEASE_SIGNER.replace("IPWYbYLT", "IPWYbYLU");
    assert_ne!(other, TRUSTED_RELEASE_SIGNER);
    assert!(verify_tag(&version(0, 1, 3), TAG_SHA, &signed_tag("0.1.3"), &other).is_err());
    assert!(verify_tag(&version(0, 1, 3), TAG_SHA, &signed_tag("0.1.3"), "").is_err());
    assert!(trusted_release_key(TRUSTED_RELEASE_SIGNER)
        .unwrap()
        .starts_with("ssh-ed25519 "));
}

#[test]
fn the_reference_names_the_tag() {
    let reference = |name: &str, kind: &str| ApiTagReference {
        reference: name.to_owned(),
        object: ApiGitObject {
            sha: TAG_SHA.to_owned(),
            kind: kind.to_owned(),
        },
    };
    let release = version(0, 1, 3);
    assert!(check_reference(&release, &reference("refs/tags/0.1.3", "tag")).is_ok());
    assert!(check_reference(&release, &reference("refs/tags/0.1.4", "tag")).is_err());
    assert!(check_reference(&release, &reference("refs/tags/0.1.3", "commit")).is_err());
}

fn tag_reference(name: &str) -> ApiTagReference {
    ApiTagReference {
        reference: name.to_owned(),
        object: ApiGitObject {
            sha: TAG_SHA.to_owned(),
            kind: "tag".to_owned(),
        },
    }
}

#[test]
fn a_release_is_offered_after_all_its_checks() {
    let current = version(0, 1, 2);
    let release = release_fixture(true);
    let reference = tag_reference("refs/tags/0.1.3");
    let check = ReleaseCheck::begin().note_release(&current, &AMD64, &release);
    assert!(matches!(check, ReleaseCheck::AskingReference { .. }));
    let check = check.note_tag(&signed_tag("0.1.3"), TRUSTED_RELEASE_SIGNER);
    assert!(matches!(check, ReleaseCheck::AskingReference { .. }));
    let check = check.note_reference(&reference);
    assert!(matches!(&check, ReleaseCheck::AskingTag { sha, .. } if sha == TAG_SHA));
    match check.note_tag(&signed_tag("0.1.3"), TRUSTED_RELEASE_SIGNER) {
        ReleaseCheck::Offered { candidate } => assert_eq!(candidate.version, version(0, 1, 3)),
        other => panic!("{other:?}"),
    }
}

#[test]
fn a_release_is_refused_where_a_check_fails() {
    let current = version(0, 1, 2);
    let release = release_fixture(true);
    let begun = || ReleaseCheck::begin().note_release(&current, &AMD64, &release);
    assert_eq!(
        ReleaseCheck::begin().note_release(&version(0, 1, 3), &AMD64, &release),
        ReleaseCheck::UpToDate
    );
    assert!(matches!(
        ReleaseCheck::begin().note_release(&current, &AMD64, &release_fixture(false)),
        ReleaseCheck::Refused { .. }
    ));
    assert_eq!(
        begun().note_reference(&tag_reference("refs/tags/0.1.4")),
        ReleaseCheck::Refused {
            detail: "the release does not reference an annotated tag".to_owned()
        }
    );
    let checked = begun().note_reference(&tag_reference("refs/tags/0.1.3"));
    let mut tag = signed_tag("0.1.3");
    tag.verification.verified = false;
    assert_eq!(
        checked.note_tag(&tag, TRUSTED_RELEASE_SIGNER),
        ReleaseCheck::Refused {
            detail: "the release tag is not a verified signed tag".to_owned()
        }
    );
}

#[test]
fn versions_are_ordered_as_semantic_versions() {
    assert_eq!(ReleaseVersion::parse("1.2.3"), Some(version(1, 2, 3)));
    assert_eq!(ReleaseVersion::parse("1.2"), None);
    assert_eq!(ReleaseVersion::parse("01.2.3"), None);
    let beta = ReleaseVersion::parse("1.2.3-beta.1+7").unwrap();
    assert_eq!(beta.pre, "beta.1");
    assert_eq!(beta.build, "7");
    assert_eq!(beta.text(), "1.2.3-beta.1+7");
    assert!(version(1, 2, 3).newer_than(&beta));
    assert!(!beta.newer_than(&version(1, 2, 3)));
    assert!(version(1, 10, 0).newer_than(&version(1, 9, 9)));
    assert!(!version(1, 2, 3).newer_than(&version(1, 2, 3)));
    assert!(version(1, 2, 3).same(&version(1, 2, 3)));
}

// --- install -----------------------------------------------------------------

#[test]
fn install_platform_asset_names_match_release_packaging() {
    let version = version(1, 2, 3);
    assert_eq!(
        ReleaseAssetKind::Debian {
            architecture: "amd64"
        }
        .expected_name(&version),
        "dogi_1.2.3_amd64.deb"
    );
    assert_eq!(
        ReleaseAssetKind::Portable {
            target: "x86_64-unknown-linux-gnu"
        }
        .expected_name(&version),
        "dogi-1.2.3-x86_64-unknown-linux-gnu.tar.zst"
    );
}

#[test]
fn install_dismissed_authorization_is_a_neutral_cancellation() {
    assert_eq!(
        debian_install_error(Some(126), String::new()),
        InstallationError::Cancelled
    );
    assert!(matches!(
        debian_install_error(Some(127), String::new()),
        InstallationError::Authorization(_)
    ));
}

#[test]
fn other_ends_of_the_installer_are_told_apart() {
    let verification = PrivilegedInstallError::Verification("changed".to_owned());
    let installation = PrivilegedInstallError::Installation("dpkg".to_owned());
    assert_ne!(verification.exit_code(), installation.exit_code());
    assert!(matches!(
        debian_install_error(Some(i32::from(verification.exit_code())), "changed".to_owned()),
        InstallationError::Verification(detail) if detail == "changed"
    ));
    assert!(matches!(
        debian_install_error(Some(i32::from(installation.exit_code())), String::new()),
        InstallationError::Failed(detail) if !detail.is_empty()
    ));
    assert!(matches!(
        debian_install_error(None, "killed".to_owned()),
        InstallationError::Failed(_)
    ));
}

#[test]
fn installation_integrity_requires_bounded_size_and_sha256() {
    let digest = "A".repeat(64);
    assert_eq!(
        parse_install_integrity("1024", &digest).unwrap(),
        (1024, digest.to_ascii_lowercase())
    );
    for size in [
        "0".to_owned(),
        "-1".to_owned(),
        (MAX_ARTIFACT_SIZE + 1).to_string(),
    ] {
        assert!(parse_install_integrity(&size, &digest).is_err());
    }
    for digest in ["", "abc", &"g".repeat(64)] {
        assert!(parse_install_integrity("1024", digest).is_err());
    }
}

const PACKAGE: &[u8] = b"downloaded package bytes";

fn hex_digest(bytes: &[u8]) -> String {
    use_sha256(bytes)
        .iter()
        .map(|byte| format!("{byte:02x}"))
        .collect()
}

fn use_sha256(bytes: &[u8]) -> Vec<u8> {
    sha2::Sha256::digest(bytes).to_vec()
}

fn copy_package(bytes: &[u8], size: u64, digest: &str) -> Result<Vec<u8>, String> {
    let mut copy = CheckedCopy::begin(
        CopyPurpose::ProtectedPackage,
        size,
        digest.to_owned(),
        true,
        Some(bytes.len() as u64),
    )?;
    for chunk in bytes.chunks(5) {
        copy.take_chunk(chunk)?;
    }
    copy.finish()?;
    Ok(copy.bytes)
}

#[test]
fn privileged_staging_copy_requires_the_expected_size_and_digest() {
    let digest = hex_digest(PACKAGE);
    assert_eq!(
        copy_package(PACKAGE, PACKAGE.len() as u64, &digest).unwrap(),
        PACKAGE
    );
    assert!(copy_package(PACKAGE, PACKAGE.len() as u64, &"0".repeat(64)).is_err());
    assert!(copy_package(b"changed after verification", PACKAGE.len() as u64, &digest).is_err());
    assert!(copy_package(PACKAGE, 1, &digest).is_err());
}

#[test]
fn a_known_file_has_its_known_digest() {
    let abc = "ba7816bf8f01cfea414140de5dae2223b00361a396177a9cb410ff61f20015ad";
    assert!(verify_file(b"abc", 3, abc));
    assert!(!verify_file(b"abc", 4, abc));
    assert!(!verify_file(b"abd", 3, abc));
}

#[test]
fn a_download_ends_where_it_was_announced_to_end() {
    let digest = hex_digest(b"abcdef");
    let begin = || {
        CheckedCopy::begin(CopyPurpose::Download, 6, digest.clone(), true, None)
            .expect("a download of unknown length may begin")
    };
    let mut longer = begin();
    assert!(longer.take_chunk(b"abcdefg").is_err());
    let mut shorter = begin();
    assert!(shorter.take_chunk(b"abc").is_ok());
    assert!(shorter.finish().is_err());
    let mut exact = begin();
    assert!(exact.take_chunk(b"abc").is_ok());
    assert!(exact.take_chunk(b"def").is_ok());
    assert!(exact.finish().is_ok());
    assert!(exact.conclude(&use_sha256(b"abcdeg")).is_err());
}

fn candidate(bytes: &[u8]) -> ReleaseCandidate {
    ReleaseCandidate {
        version: version(1, 2, 3),
        artifact: ReleaseArtifact {
            name: "dogi_1.2.3_amd64.deb".to_owned(),
            url: String::new(),
            size: bytes.len() as u64,
            sha256: hex_digest(bytes),
        },
    }
}

#[test]
fn an_installation_takes_only_its_own_artifact() {
    assert_eq!(
        platform_architecture("x86_64").unwrap(),
        ("amd64", "x86_64-unknown-linux-gnu")
    );
    assert!(platform_architecture("sparc").is_err());
    let debian = Installation::for_environment("x86_64", &Distribution::Debian).unwrap();
    assert_eq!(debian.asset_kind(), AMD64);
    let update = candidate(b"x");
    assert!(debian
        .check_name("/c/dogi_1.2.3_amd64.deb", &update)
        .is_ok());
    assert!(matches!(
        debian.check_name("/c/other.deb", &update),
        Err(InstallationError::Verification(_))
    ));
    assert!(Installation::for_environment("x86_64", &Distribution::Unmanaged).is_err());
}

#[test]
fn the_privileged_request_is_read_back() {
    let update = candidate(PACKAGE);
    let arguments: Vec<Option<String>> =
        debian_install_arguments("/c/dogi_1.2.3_amd64.deb", &update, "amd64")
            .into_iter()
            .map(Some)
            .collect();
    let tail: Vec<Option<String>> = arguments[arguments.len() - 5..].to_vec();
    let request = read_request(&tail, "x86_64");
    match request {
        Ok(request) => {
            assert_eq!(request.artifact, "/c/dogi_1.2.3_amd64.deb");
            assert_eq!(request.size, PACKAGE.len() as u64);
            assert_eq!(request.sha256, hex_digest(PACKAGE));
            assert_eq!(request.version, version(1, 2, 3));
            assert_eq!(request.architecture, "amd64");
        }
        Err(error) => panic!("{error:?} {tail:?}"),
    }
    assert!(read_request(&vec![None], "x86_64").is_err());
    assert!(read_request(&Vec::new(), "x86_64").is_err());
}

fn answer(text: &str) -> PackageAnswer {
    PackageAnswer::Text(format!("{text}\n"))
}

fn asked_install() -> PrivilegedInstall {
    let arguments: Vec<Option<String>> =
        debian_install_arguments("/c/dogi_1.2.3_amd64.deb", &candidate(PACKAGE), "amd64")
            .into_iter()
            .skip(1)
            .map(Some)
            .collect();
    let start = arguments.len() - 5;
    PrivilegedInstall::begin(true, true, &arguments[start..].to_vec(), "x86_64").unwrap()
}

#[test]
fn a_package_is_installed_only_after_every_check() {
    let mut install = asked_install();
    install.note_installed(&answer("1.2.2")).unwrap();
    install.note_staged(Ok(())).unwrap();
    install.note_inspected(Ok(true)).unwrap();
    for (field, said) in [("Package", "dogi"), ("Version", "1.2.3"), ("Architecture", "amd64")] {
        assert_eq!(install.wanted_field(), (field, said.to_owned()));
        install.note_field(&answer(said)).unwrap();
    }
    assert_eq!(install.stage, InstallStage::Installing);
    install.note_end(Ok((true, Some(0)))).unwrap();
    install.note_confirmed(&answer("1.2.3")).unwrap();
    assert_eq!(install.stage, InstallStage::Done);
}

#[test]
fn a_failed_check_ends_the_installation() {
    let mut older = asked_install();
    let error = older.note_installed(&answer("1.2.3")).unwrap_err();
    assert_eq!(
        error,
        PrivilegedInstallError::Verification(
            "Dogi 1.2.3 is not newer than the installed version 1.2.3".to_owned()
        )
    );
    assert_eq!(older.stage, InstallStage::Failed);

    let mut foreign = asked_install();
    foreign.note_installed(&answer("1.2.2")).unwrap();
    foreign.note_staged(Ok(())).unwrap();
    foreign.note_inspected(Ok(true)).unwrap();
    assert_eq!(
        foreign.note_field(&answer("other")).unwrap_err().detail(),
        "the Debian package has an unexpected Package"
    );

    let mut wrong = asked_install();
    wrong.note_installed(&answer("1.2.2")).unwrap();
    wrong.note_staged(Ok(())).unwrap();
    assert!(wrong.note_inspected(Ok(false)).is_err());
    assert_eq!(wrong.stage, InstallStage::Failed);

    assert!(PrivilegedInstall::begin(false, true, &Vec::new(), "x86_64").is_err());
    assert!(PrivilegedInstall::begin(true, false, &Vec::new(), "x86_64").is_err());
}

#[test]
fn the_service_is_refreshed_step_by_step() {
    let mut refresh = ServiceRefresh::begin(true);
    assert_eq!(refresh.arguments(), vec!["--user", "daemon-reload"]);
    refresh.note_command(&RefreshEnd::Succeeded);
    assert_eq!(
        refresh.arguments(),
        vec!["--user", "try-restart", "dogi-runtime.service"]
    );
    refresh.note_command(&RefreshEnd::Succeeded);
    assert_eq!(refresh.stage, RefreshStage::CheckingHealth);
    refresh.note_health(&Ok(false));
    assert_eq!(refresh.warning, None);
    assert_eq!(refresh.stage, RefreshStage::Done);

    let mut failing = ServiceRefresh::begin(true);
    failing.note_command(&RefreshEnd::Failed(" no bus \n".to_owned()));
    assert_eq!(failing.stage, RefreshStage::Done);
    assert!(failing.warning.unwrap().ends_with(": no bus"));
    assert!(ServiceRefresh::begin(false).warning.is_some());
}

#[test]
fn working_directories_get_fresh_names() {
    assert_eq!(
        transaction_name(".dogi-update", 7, 99, 3),
        ".dogi-update-7-99-3"
    );
    let exists = || FileFault {
        exists: true,
        missing: false,
        detail: String::new(),
    };
    assert_eq!(staging_made(0, Ok(())), Ok(true));
    assert_eq!(staging_made(30, Err(exists())), Ok(false));
    assert!(staging_made(31, Err(exists())).is_err());
    assert_eq!(sibling_is_free(14, true), Ok(false));
    assert!(sibling_is_free(15, true).is_err());
    assert_eq!(sibling_is_free(15, false), Ok(true));
}

#[test]
fn the_application_starts_anew_once_it_has_ended() {
    assert_eq!(relaunch_step(0, true), RelaunchStep::Wait);
    assert_eq!(relaunch_step(1, false), RelaunchStep::Launch);
    assert!(matches!(
        relaunch_step(RELAUNCH_POLLS, false),
        RelaunchStep::GiveUp(_)
    ));
}

#[test]
fn packages_are_checked_before_and_after_the_installation() {
    let new = version(1, 2, 3);
    let described = PackageAnswer::Text("install ok installed 1.2.2\n".to_owned());
    assert!(installed_dogi_version(&described).is_err());
    let old = installed_dogi_version(&PackageAnswer::Text("1.2.2\n".to_owned())).unwrap();
    assert_eq!(old, version(1, 2, 2));
    assert!(check_newer(&new, &old).is_ok());
    assert!(check_newer(&old, &new).is_err());
    assert!(check_installed(&new, &new).is_ok());
    assert!(check_installed(&old, &new).is_err());
    assert!(check_installer_end(true, Some(0)).is_ok());
    assert!(check_installer_end(false, Some(1)).is_err());
    let fields = package_fields(&new, "amd64");
    assert!(fields.contains(&("Package", "dogi".to_owned())));
    for (field, expected) in fields {
        assert!(check_field(field, &expected, &PackageAnswer::Text(format!("{expected}\n"))).is_ok());
        assert!(check_field(field, &expected, &PackageAnswer::Text("other".to_owned())).is_err());
        assert!(check_field(field, &expected, &PackageAnswer::NotText).is_err());
    }
}

#[test]
fn portable_extraction_rejects_unsupported_entries() {
    let mut reader = ArchiveReader::new("1.2.3", TEST_TARGET);
    let error = reader
        .next_entry(
            0,
            EntryKind::Other,
            Ok(format!("dogi-1.2.3-{TEST_TARGET}/bin/dogi")),
        )
        .unwrap_err();
    assert!(error.contains("unsupported entry type"));
}

#[test]
fn install_portable_extraction_rejects_links() {
    let mut header = tar::Header::new_gnu();
    header.set_entry_type(tar::EntryType::Symlink);
    let entry = header.entry_type();
    let kind = if entry.is_file() {
        EntryKind::File
    } else if entry.is_dir() {
        EntryKind::Directory
    } else {
        EntryKind::Other
    };
    let error = ArchiveReader::new("1.2.3", TEST_TARGET)
        .next_entry(
            0,
            kind,
            Ok("dogi-1.2.3-x86_64-unknown-linux-gnu/bin/dogi".to_owned()),
        )
        .unwrap_err();
    assert!(error.contains("unsupported entry type"));
}

#[test]
fn entries_stay_below_the_archive_root() {
    let mut reader = ArchiveReader::new("1.2.3", TEST_TARGET);
    let root = format!("dogi-1.2.3-{TEST_TARGET}");
    assert_eq!(
        reader
            .next_entry(0, EntryKind::Directory, Ok(format!("{root}/")))
            .unwrap(),
        Admission::Skip
    );
    assert_eq!(
        reader
            .next_entry(3, EntryKind::File, Ok(format!("{root}/bin/dogi")))
            .unwrap(),
        Admission::WriteFile("bin/dogi".to_owned())
    );
    assert!(reader
        .next_entry(3, EntryKind::File, Ok(format!("{root}/bin/dogi")))
        .is_err());
    for path in [
        format!("{root}/../etc/passwd"),
        "/etc/passwd".to_owned(),
        "other/bin/dogi".to_owned(),
    ] {
        assert!(
            ArchiveReader::new("1.2.3", TEST_TARGET)
                .next_entry(3, EntryKind::File, Ok(path.clone()))
                .is_err(),
            "{path}"
        );
    }
    assert!(ArchiveReader::new("1.2.3", TEST_TARGET)
        .next_entry(u64::MAX, EntryKind::File, Ok(format!("{root}/big")))
        .is_err());
    assert_eq!(
        path_parts("/a/./../b"),
        vec![
            PathPart::Root,
            PathPart::Name("a".to_owned()),
            PathPart::Up,
            PathPart::Name("b".to_owned()),
        ]
    );
}

fn run_install(rotates: bool, fail_at: &str) -> (Vec<String>, PortableStage) {
    let mut install = PortableInstall::begin(rotates);
    let mut seen: Vec<String> = Vec::new();
    for _ in 0..40 {
        if matches!(
            install.stage,
            PortableStage::Installed | PortableStage::Failed { .. }
        ) {
            return (seen, install.stage);
        }
        let stage = format!("{:?}", install.stage);
        let result = if stage == fail_at {
            Err("step failed".to_owned())
        } else {
            Ok(())
        };
        seen.push(stage);
        install = install.advance(result);
    }
    panic!("the replacement does not end");
}

#[test]
fn portable_installation_rechecks_the_download_before_replacing_the_application() {
    let (seen, end) = run_install(false, "Verifying");
    assert!(matches!(
        end,
        PortableStage::Failed {
            verification: true,
            activated: false,
            ..
        }
    ));
    assert!(!seen.contains(&"Exchanging".to_owned()));

    let (seen, end) = run_install(false, "");
    assert_eq!(end, PortableStage::Installed);
    assert_eq!(seen[1], "Verifying");
}

#[test]
fn portable_installation_retains_exactly_one_previous_tree() {
    let (seen, end) = run_install(true, "");
    assert_eq!(end, PortableStage::Installed);
    for stage in ["Exchanging", "Rotating", "Keeping", "RemovingRetired"] {
        assert_eq!(
            seen.iter().filter(|name| name.as_str() == stage).count(),
            1,
            "{stage}"
        );
    }
    let (first, end) = run_install(false, "");
    assert_eq!(end, PortableStage::Installed);
    assert!(!first.contains(&"Rotating".to_owned()));
    assert!(!first.contains(&"RemovingRetired".to_owned()));
}

#[test]
fn every_failed_replacement_ends_and_is_reported() {
    for rotates in [false, true] {
        let (steps, _) = run_install(rotates, "");
        for stage in &steps {
            let (_, end) = run_install(rotates, stage);
            match end {
                PortableStage::Installed | PortableStage::Failed { .. } => {}
                other => panic!("{stage} {other:?}"),
            }
        }
    }
    for (stage, kept) in [
        ("Exchanging", false),
        ("SyncingActivation", false),
        ("Keeping", false),
    ] {
        match run_install(false, stage).1 {
            PortableStage::Failed { activated, .. } => assert_eq!(activated, kept, "{stage}"),
            other => panic!("{stage} {other:?}"),
        }
    }
}

#[test]
fn a_portable_root_is_complete_and_executable() {
    let complete = PortableFindings {
        binary_is_file: true,
        desktop_file: true,
        metadata_file: true,
        license: true,
        mode: 0o100755,
    };
    assert!(validate_portable_root(&complete).is_ok());
    assert!(validate_portable_root(&PortableFindings {
        license: false,
        ..complete
    })
    .is_err());
    assert!(validate_portable_root(&PortableFindings {
        mode: 0o100644,
        ..complete
    })
    .is_err());
    assert!(refresh_fault("restart", &RefreshEnd::Succeeded).is_none());
    assert!(refresh_fault("restart", &RefreshEnd::Failed("x".to_owned())).is_some());
    assert!(health_fault(&Ok(false)).is_none());
    assert!(health_fault(&Ok(true)).is_some());
    assert!(read_relaunch(&vec![Some("12".to_owned())]).is_ok());
    assert!(read_relaunch(&vec![Some("x".to_owned())]).is_err());
}

// --- service -----------------------------------------------------------------

#[test]
fn development_policy_is_enforced_before_network_setup() {
    let policy = update_policy(BuildChannel::Development, &Distribution::Unmanaged);
    let fault = update_fault(policy.enabled, &policy.detail, false).unwrap();
    assert_eq!(fault.kind, UpdateErrorKind::Policy);
    assert_eq!(
        fault.application_kind(),
        ApplicationUpdateErrorKind::Unavailable
    );
}

#[test]
fn updates_are_prepared_and_then_installed() {
    let mut service = UpdateService::new();
    assert_eq!(
        service.begin_check(ApplicationUpdateCheckIntent::Automatic, false),
        Some(ApplicationUpdateResult::Deferred)
    );
    assert_eq!(
        service.begin_check(ApplicationUpdateCheckIntent::Manual, false),
        None
    );
    assert_eq!(
        service.install_fault().map(|fault| fault.kind),
        Some(UpdateErrorKind::State)
    );
    assert_eq!(
        service.note_ready(ReleaseCheck::begin(), "/c/download".to_owned()),
        None
    );
    assert!(service.install_fault().is_some());
    assert_eq!(
        service.note_ready(
            ReleaseCheck::Offered {
                candidate: candidate(PACKAGE)
            },
            "/c/download".to_owned()
        ),
        Some(ApplicationUpdateResult::Ready {
            version: "1.2.3".to_owned()
        })
    );
    assert!(service.install_fault().is_none());
    assert!(service
        .conclude_install(Err(InstallationError::Cancelled))
        .is_ok());
    assert_eq!(
        service
            .conclude_install(Err(InstallationError::Verification("x".to_owned())))
            .map_err(|error: UpdateError| error.kind),
        Err(UpdateErrorKind::Verification)
    );
    assert_eq!(service.note_up_to_date(), ApplicationUpdateResult::UpToDate);
    assert!(service.install_fault().is_some());
}

#[test]
fn only_checks_that_succeed_are_recorded() {
    let offered = || {
        Ok(ReleaseCheck::Offered {
            candidate: candidate(PACKAGE),
        })
    };
    let place = || Ok("/c/download".to_owned());
    let lost = || UpdateError {
        kind: UpdateErrorKind::Network,
        detail: "lost".to_owned(),
    };
    let mut service = UpdateService::new();
    let mut config = StoredApplicationConfig::initial(true, true);

    let end = service.conclude_check(offered(), place()).unwrap();
    assert_eq!(
        end.result,
        Ok(ApplicationUpdateResult::Ready {
            version: "1.2.3".to_owned()
        })
    );
    end.record(&mut config, 1_000);
    assert_eq!(config.last_successful_check_unix_seconds, Some(1_000));

    let refused = ReleaseCheck::Refused {
        detail: "unsigned".to_owned(),
    };
    let failures = [
        service.conclude_check(Err(lost()), place()).unwrap(),
        service.conclude_check(offered(), Err(lost())).unwrap(),
        service.conclude_check(Ok(refused), place()).unwrap(),
    ];
    for end in failures {
        assert!(end.result.is_err() && !end.recorded);
        end.record(&mut config, 2_000);
        assert_eq!(config.last_successful_check_unix_seconds, Some(1_000));
        assert!(service.install_fault().is_none());
    }
    assert_eq!(service.conclude_check(Ok(ReleaseCheck::begin()), place()), None);

    let end = service.conclude_check(Ok(ReleaseCheck::UpToDate), place()).unwrap();
    assert_eq!(end.result, Ok(ApplicationUpdateResult::UpToDate));
    end.record(&mut config, 3_000);
    assert_eq!(config.last_successful_check_unix_seconds, Some(3_000));
    assert!(service.install_fault().is_some());
}

#[test]
fn the_previous_version_is_looked_for_once_the_new_one_is_complete() {
    let mut install = PortableInstall::begin(false).note_previous(true);
    assert!(!install.rotates);
    while !matches!(install.stage, PortableStage::SyncingTree) {
        install = install.advance(Ok(()));
    }
    let rotating = install.note_previous(true).advance(Ok(()));
    assert_eq!(rotating.stage, PortableStage::NamingRetired);
    assert!(rotating.note_previous(false).rotates);
}
