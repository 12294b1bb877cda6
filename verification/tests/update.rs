use std::cmp::Ordering;

use base64::engine::general_purpose::STANDARD;
use base64::Engine;
use p256::ecdsa::signature::Signer;
use p256::ecdsa::{Signature, SigningKey};
use p256::pkcs8::EncodePublicKey;
use sha2::Digest;

use flowtype::update::{
    assess_manifest_version, compare_versions, parse_version, validate_manifest,
    verify_manifest_with_key, AndroidAsset, PlatformAsset, UpdateError, UpdateManifest,
    VersionAssessment, RELEASE_DOWNLOAD_PREFIX, RELEASE_TAG_PREFIX, UPDATE_KEY_ID,
};
use flowtype::update_panel::{
    available_snapshot, download_file_name, friendly_update_error, should_auto_check,
    UpdateAction, UpdateSnapshot,
};

fn manifest() -> UpdateManifest {
    let version = "9.8.7";
    let base = format!("{RELEASE_DOWNLOAD_PREFIX}v{version}/");
    UpdateManifest {
        schema: 1,
        key_id: UPDATE_KEY_ID.to_owned(),
        version: version.to_owned(),
        published_at: "2026-08-26T10:00:00Z".to_owned(),
        release_url: format!("{RELEASE_TAG_PREFIX}v{version}"),
        notes_zh_cn: "测试".to_owned(),
        windows: PlatformAsset {
            url: format!("{base}FlowType-{version}-x64-setup.exe"),
            sha256: "a".repeat(64),
            size: 123,
        },
        android: AndroidAsset {
            version_code: 999,
            url: format!("{base}FlowType-{version}-android-release.apk"),
            sha256: "b".repeat(64),
            size: 456,
        },
        verified_raw: Vec::new(),
        verified_signature: Vec::new(),
    }
}

fn manifest_json(m: &UpdateManifest) -> Vec<u8> {
    format!(
        "{{\"schema\":{},\"key_id\":\"{}\",\"version\":\"{}\",\"published_at\":\"{}\",\"release_url\":\"{}\",\"notes_zh_cn\":\"{}\",\"windows\":{{\"url\":\"{}\",\"sha256\":\"{}\",\"size\":{}}},\"android\":{{\"version_code\":{},\"url\":\"{}\",\"sha256\":\"{}\",\"size\":{}}}}}",
        m.schema, m.key_id, m.version, m.published_at, m.release_url, m.notes_zh_cn,
        m.windows.url, m.windows.sha256, m.windows.size,
        m.android.version_code, m.android.url, m.android.sha256, m.android.size,
    )
    .into_bytes()
}

#[test]
fn verifies_signed_manifest_and_rejects_tampering() {
    let key = SigningKey::from_bytes((&[9_u8; 32]).into()).unwrap();
    let bytes = manifest_json(&manifest());
    let signature: Signature = key.sign(&bytes);
    let signature = STANDARD.encode(signature.to_der().as_bytes());
    let public = p256::PublicKey::from(key.verifying_key())
        .to_public_key_der()
        .unwrap();
    let accepted = verify_manifest_with_key(
        &bytes,
        signature.as_bytes(),
        public.as_bytes(),
        Some(manifest()),
    )
    .unwrap();
    assert_eq!(accepted.verified_raw, bytes);
    assert_eq!(accepted.verified_signature, signature.as_bytes());
    let mut changed = bytes;
    changed.push(b' ');
    assert_eq!(
        verify_manifest_with_key(&changed, signature.as_bytes(), public.as_bytes(), Some(manifest())),
        Err(UpdateError::SignatureMismatch)
    );
    let padded = format!("  {signature}\n");
    assert!(verify_manifest_with_key(
        &manifest_json(&manifest()),
        padded.as_bytes(),
        public.as_bytes(),
        Some(manifest())
    )
    .is_ok());
}

#[test]
fn compares_strict_three_part_versions() {
    assert_eq!(compare_versions("0.2.0", "0.1.18"), Some(Ordering::Greater));
    assert!(compare_versions("0.2", "0.1.18").is_none());
    assert!(compare_versions("0.2.0-beta", "0.1.18").is_none());
}

#[test]
fn versions_parse_as_std_parses_numbers() {
    assert_eq!(parse_version("1.2.3"), Some((1, 2, 3)));
    assert_eq!(parse_version("+1.2.3"), Some((1, 2, 3)));
    assert_eq!(parse_version("1.2.3.4"), None);
    assert_eq!(parse_version("1..3"), None);
    assert_eq!(parse_version("18446744073709551615.0.0"), Some((u64::MAX, 0, 0)));
    assert_eq!(parse_version("18446744073709551616.0.0"), None);
    assert_eq!(compare_versions("1.2.3", "1.2.3"), Some(Ordering::Equal));
    assert_eq!(compare_versions("1.2.3", "1.10.0"), Some(Ordering::Less));
}

#[test]
fn manifest_fields_are_checked() {
    assert_eq!(validate_manifest(&manifest()), Ok(()));
    let mut wrong_url = manifest();
    wrong_url.release_url = format!("{RELEASE_TAG_PREFIX}v1.0.0");
    assert_eq!(validate_manifest(&wrong_url), Err(UpdateError::InvalidReleaseUrl));
    let mut foreign = manifest();
    foreign.windows.url = "https://example.com/setup.exe".to_owned();
    assert_eq!(validate_manifest(&foreign), Err(UpdateError::InvalidAsset));
    let mut no_code = manifest();
    no_code.android.version_code = 0;
    assert_eq!(validate_manifest(&no_code), Err(UpdateError::InvalidAndroidVersionCode));
    let mut bad_version = manifest();
    bad_version.version = "9.8".to_owned();
    assert_eq!(validate_manifest(&bad_version), Err(UpdateError::InvalidVersion));
}

#[test]
fn an_older_manifest_is_a_rollback() {
    let mut highest = Some("1.5.0".to_owned());
    assert_eq!(assess_manifest_version("1.4.0", &mut highest, "1.0.0"), VersionAssessment::Rollback);
    assert_eq!(highest, Some("1.5.0".to_owned()));
    assert_eq!(assess_manifest_version("1.6.0", &mut highest, "1.0.0"), VersionAssessment::Newer);
    assert_eq!(highest, Some("1.6.0".to_owned()));
    assert_eq!(assess_manifest_version("1.6.0", &mut highest, "1.6.0"), VersionAssessment::UpToDate);
    let mut none = None;
    assert_eq!(assess_manifest_version("1.0.0", &mut none, "x"), VersionAssessment::InvalidVersion);
    assert_eq!(none, Some("1.0.0".to_owned()));
}

#[test]
fn the_tray_shows_the_offered_update() {
    let snapshot = available_snapshot("2.0.0");
    assert_eq!(snapshot.action, UpdateAction::Download);
    assert_eq!(snapshot.tray_label(), Some("更新到 2.0.0...".to_owned()));
    assert_eq!(UpdateSnapshot::idle().tray_label(), None);
}

#[test]
fn network_errors_read_friendlier() {
    assert_eq!(friendly_update_error("os error 12002"), "连接 GitHub 超时，请检查网络后重试");
    assert_eq!(friendly_update_error("HTTP 404"), "HTTP 404");
}

#[test]
fn checks_run_once_a_day() {
    assert!(should_auto_check(86_400, 0));
    assert!(!should_auto_check(86_399, 0));
    assert!(!should_auto_check(0, 10));
}

#[test]
fn the_installer_keeps_its_file_name() {
    assert_eq!(
        download_file_name("https://github.com/a/b/FlowType-setup.exe"),
        Some("FlowType-setup.exe".to_owned())
    );
    assert_eq!(download_file_name("https://github.com/a/b/"), None);
    assert_eq!(download_file_name("no-slash"), None);
}

#[test]
fn only_short_https_addresses_are_fetched() {
    assert!(flowtype::update::is_fetchable_url("https://github.com/x"));
    assert!(!flowtype::update::is_fetchable_url("http://github.com/x"));
    let long = format!("https://{}", "a".repeat(2040));
    assert!(flowtype::update::is_fetchable_url(&long));
    let too_long = format!("https://{}", "a".repeat(2041));
    assert!(!flowtype::update::is_fetchable_url(&too_long));
}

#[test]
fn an_installer_matches_its_size_and_digest() {
    let installer = b"installer bytes";
    let digest = format!("{:x}", sha2::Sha256::digest(installer));
    let asset = flowtype::update::PlatformAsset {
        url: "https://github.com/Henry10088/FlowType/releases/download/v1.2.0/setup.exe".into(),
        sha256: digest.clone(),
        size: installer.len() as u64,
    };
    assert!(flowtype::update::installer_matches(installer, &asset));
    assert!(!flowtype::update::installer_matches(b"installer bytez", &asset));
    let bigger = flowtype::update::PlatformAsset { size: asset.size + 1, ..asset.clone() };
    assert!(!flowtype::update::installer_matches(installer, &bigger));
    let upper = flowtype::update::PlatformAsset { sha256: digest.to_uppercase(), ..asset };
    assert!(!flowtype::update::installer_matches(installer, &upper));
}

#[test]
fn signatures_are_fetched_beside_their_manifest() {
    assert_eq!(
        flowtype::update::signature_url(flowtype::update::MANIFEST_URL, "1.2.0").as_deref(),
        Some("https://github.com/Henry10088/FlowType/releases/download/v1.2.0/flowtype-update.json.sig")
    );
    assert_eq!(
        flowtype::update::signature_url("https://example.test/beta/flowtype-update.json", "1.2.0").as_deref(),
        Some("https://example.test/beta/flowtype-update.json.sig")
    );
    assert_eq!(flowtype::update::signature_url("no-slash", "1.2.0"), None);
}
