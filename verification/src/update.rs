//! Self-update: strict three-part versions, the signed release manifest and
//! its checks, and the state the update panel shows.
use vstd::prelude::*;

use crate::crypto::{
    base64_standard_decoded, decode_base64, hex_lower, p256_key_accepted, sha256, sha256_of, to_hex_lower, p256_key_is_valid,
    p256_signature_accepted, p256_signature_is_valid, p256_signature_verifies, p256_verify,
};
use crate::media::{is_sha256_text, valid_sha256};
use crate::text::{
    copy_range, split_chars, split_on, chars_of, concat, is_trimmed, starts_with, str_equal, string_from_chars, text_from_utf8, trim,
};

verus! {

broadcast use vstd::string::group_string_axioms;

/// Where the latest release's manifest is published.
pub const MANIFEST_URL: &'static str =
    "https://github.com/Henry10088/FlowType/releases/latest/download/flowtype-update.json";

pub const RELEASE_DOWNLOAD_PREFIX: &'static str = "https://github.com/Henry10088/FlowType/releases/download/";

pub const RELEASE_TAG_PREFIX: &'static str = "https://github.com/Henry10088/FlowType/releases/tag/";

pub const UPDATE_KEY_ID: &'static str = "flowtype-update-2026";

pub const MAX_MANIFEST_BYTES: usize = 65536;

pub const MAX_SIGNATURE_BYTES: usize = 1024;

pub const MAX_INSTALLER_BYTES: u64 = 209715200;

/// Seconds between automatic update checks.
pub const CHECK_INTERVAL_SECONDS: u64 = 86400;

/// The value of a run of decimal digits.
pub open spec fn digits_value(digits: Seq<char>) -> nat
    decreases digits.len(),
{
    if digits.len() == 0 {
        0
    } else {
        digits_value(digits.drop_last()) * 10 + (digits.last() as nat - 48) as nat
    }
}

pub open spec fn all_digits(digits: Seq<char>) -> bool {
    forall|i: int| 0 <= i < digits.len() ==> '0' <= #[trigger] digits[i] <= '9'
}

/// What `u64::from_str` accepts: an optional `+`, then one or more decimal
/// digits whose value fits in 64 bits.
pub open spec fn parsed_u64(text: Seq<char>) -> Option<u64> {
    let digits = if text.len() > 0 && text[0] == '+' {
        text.drop_first()
    } else {
        text
    };
    if digits.len() > 0 && all_digits(digits) && digits_value(digits) <= u64::MAX {
        Some(digits_value(digits) as u64)
    } else {
        None
    }
}

/// Parses a decimal `u64` as `str::parse::<u64>` does.
pub fn parse_u64(text: &[char]) -> (value: Option<u64>)
    ensures
        value == parsed_u64(text@),
{
    let mut start: usize = 0;
    if text.len() > 0 && text[0] == '+' {
        start = 1;
    }
    let ghost digits = if text@.len() > 0 && text@[0] == '+' {
        text@.drop_first()
    } else {
        text@
    };
    assert(digits =~= text@.skip(start as int));
    if start >= text.len() {
        return None;
    }
    let mut value: u64 = 0;
    let mut index: usize = start;
    while index < text.len()
        invariant
            start <= index <= text@.len(),
            digits == text@.skip(start as int),
            digits == (if text@.len() > 0 && text@[0] == '+' {
                text@.drop_first()
            } else {
                text@
            }),
            all_digits(text@.subrange(start as int, index as int)),
            value == digits_value(text@.subrange(start as int, index as int)),
        decreases text.len() - index,
    {
        let c = text[index];
        let ghost prefix = text@.subrange(start as int, index as int);
        let ghost next = text@.subrange(start as int, index + 1);
        proof {
            assert(next.drop_last() =~= prefix);
            assert(next.last() == c);
        }
        if !('0' <= c && c <= '9') {
            proof {
                assert(digits[index - start] == c);
            }
            return None;
        }
        let digit = (c as u32 - 48) as u64;
        if value > 1844674407370955161 || (value == 1844674407370955161 && digit > 5) {
            proof {
                assert(digits_value(next) > u64::MAX);
                assert(text@.subrange(start as int, text@.len() as int) =~= digits);
                if all_digits(digits) {
                    lemma_prefix_value_bound(text@, start as int, index + 1, text@.len() as int);
                }
            }
            return None;
        }
        value = value * 10 + digit;
        proof {
            assert(all_digits(next));
        }
        index += 1;
    }
    proof {
        assert(text@.subrange(start as int, text@.len() as int) =~= digits);
    }
    Some(value)
}

proof fn lemma_prefix_value_bound(text: Seq<char>, start: int, k: int, j: int)
    requires
        0 <= start <= k <= j <= text.len(),
        all_digits(text.subrange(start, j)),
        digits_value(text.subrange(start, k)) > u64::MAX,
    ensures
        digits_value(text.subrange(start, j)) > u64::MAX,
    decreases j - k,
{
    if j > k {
        assert(text.subrange(start, j).drop_last() =~= text.subrange(start, j - 1));
        assert(all_digits(text.subrange(start, j - 1))) by {
            assert forall|i: int| 0 <= i < text.subrange(start, j - 1).len() implies '0'
                <= #[trigger] text.subrange(start, j - 1)[i] <= '9' by {
                assert(text.subrange(start, j - 1)[i] == text.subrange(start, j)[i]);
            }
        }
        lemma_prefix_value_bound(text, start, k, j - 1);
        assert('0' <= text.subrange(start, j).last() <= '9');
    }
}

/// A version `major.minor.patch` of three decimal numbers, nothing more.
pub open spec fn parsed_version(text: Seq<char>) -> Option<(u64, u64, u64)> {
    let pieces = split_on(text, '.');
    if pieces.len() == 3 && parsed_u64(pieces[0]) is Some && parsed_u64(pieces[1]) is Some
        && parsed_u64(pieces[2]) is Some {
        Some((parsed_u64(pieces[0])->0, parsed_u64(pieces[1])->0, parsed_u64(pieces[2])->0))
    } else {
        None
    }
}

/// Parses a strict three-part version such as `0.2.0`.
pub fn parse_version(value: &str) -> (version: Option<(u64, u64, u64)>)
    ensures
        version == parsed_version(value@),
{
    let pieces = split_chars(value, '.');
    if pieces.len() != 3 {
        return None;
    }
    let major = parse_u64(pieces[0].as_slice());
    let minor = parse_u64(pieces[1].as_slice());
    let patch = parse_u64(pieces[2].as_slice());
    match (major, minor, patch) {
        (Some(a), Some(b), Some(c)) => Some((a, b, c)),
        _ => None,
    }
}

/// Whether version `a` is below version `b`, part by part.
pub open spec fn version_less(a: (u64, u64, u64), b: (u64, u64, u64)) -> bool {
    a.0 < b.0 || (a.0 == b.0 && (a.1 < b.1 || (a.1 == b.1 && a.2 < b.2)))
}

/// The order of two version texts; `None` when either is not a strict
/// three-part version.
pub open spec fn version_order(left: Seq<char>, right: Seq<char>) -> Option<std::cmp::Ordering> {
    match (parsed_version(left), parsed_version(right)) {
        (Some(a), Some(b)) => Some(
            if version_less(a, b) {
                std::cmp::Ordering::Less
            } else if a == b {
                std::cmp::Ordering::Equal
            } else {
                std::cmp::Ordering::Greater
            },
        ),
        _ => None,
    }
}

/// Orders two versions; `None` when either is not a strict three-part version.
pub fn compare_versions(left: &str, right: &str) -> (order: Option<std::cmp::Ordering>)
    ensures
        order == version_order(left@, right@),
{
    let a = match parse_version(left) {
        Some(v) => v,
        None => return None,
    };
    let b = match parse_version(right) {
        Some(v) => v,
        None => return None,
    };
    if a.0 < b.0 || (a.0 == b.0 && (a.1 < b.1 || (a.1 == b.1 && a.2 < b.2))) {
        Some(std::cmp::Ordering::Less)
    } else if a.0 == b.0 && a.1 == b.1 && a.2 == b.2 {
        Some(std::cmp::Ordering::Equal)
    } else {
        Some(std::cmp::Ordering::Greater)
    }
}

/// The Windows installer of a release.
#[derive(Debug, Clone, PartialEq, Eq)]
pub struct PlatformAsset {
    pub url: String,
    pub sha256: String,
    pub size: u64,
}

/// The Android package of a release.
#[derive(Debug, Clone, PartialEq, Eq)]
pub struct AndroidAsset {
    pub version_code: u64,
    pub url: String,
    pub sha256: String,
    pub size: u64,
}

/// The signed description of the latest release.
#[derive(Debug, Clone, PartialEq, Eq)]
pub struct UpdateManifest {
    pub schema: u32,
    pub key_id: String,
    pub version: String,
    pub published_at: String,
    pub release_url: String,
    pub notes_zh_cn: String,
    pub windows: PlatformAsset,
    pub android: AndroidAsset,
    /// The manifest bytes the signature was checked over.
    pub verified_raw: Vec<u8>,
    /// The signature text that was checked.
    pub verified_signature: Vec<u8>,
}

/// Why a manifest was not accepted.
#[derive(Debug, Clone, Copy, PartialEq, Eq, Structural)]
pub enum UpdateError {
    ManifestTooLarge,
    InvalidPublicKey,
    InvalidSignatureFormat,
    SignatureMismatch,
    InvalidManifestFormat,
    UnsupportedManifest,
    InvalidVersion,
    FieldsTooLong,
    InvalidReleaseUrl,
    InvalidAsset,
    InvalidAndroidVersionCode,
}

pub open spec fn byte_len(text: Seq<char>) -> nat {
    vstd::utf8::encode_utf8(text).len()
}

/// The tag of a version: `v` and the version.
pub open spec fn release_tag(version: Seq<char>) -> Seq<char> {
    "v"@ + version
}

/// An asset must be a download of this release's tag, of at most 2048
/// bytes of URL, with a size in 1..=200 MiB and a hexadecimal SHA-256.
pub open spec fn asset_valid(url: Seq<char>, sha256: Seq<char>, size: u64, version: Seq<char>) -> bool {
    &&& (RELEASE_DOWNLOAD_PREFIX@ + release_tag(version) + "/"@).is_prefix_of(url)
    &&& byte_len(url) <= 2048
    &&& size > 0
    &&& size <= MAX_INSTALLER_BYTES
    &&& is_sha256_text(sha256)
}

/// The outcome of `validate_manifest`: the first failed check.
pub open spec fn manifest_check(m: UpdateManifest) -> Result<(), UpdateError> {
    if m.schema != 1 || m.key_id@ != UPDATE_KEY_ID@ {
        Err(UpdateError::UnsupportedManifest)
    } else if parsed_version(m.version@) is None {
        Err(UpdateError::InvalidVersion)
    } else if byte_len(m.published_at@) > 40 || byte_len(m.notes_zh_cn@) > 8192 || byte_len(
        m.release_url@,
    ) > 2048 {
        Err(UpdateError::FieldsTooLong)
    } else if m.release_url@ != RELEASE_TAG_PREFIX@ + release_tag(m.version@) {
        Err(UpdateError::InvalidReleaseUrl)
    } else if !asset_valid(m.windows.url@, m.windows.sha256@, m.windows.size, m.version@)
        || !asset_valid(m.android.url@, m.android.sha256@, m.android.size, m.version@) {
        Err(UpdateError::InvalidAsset)
    } else if m.android.version_code == 0 {
        Err(UpdateError::InvalidAndroidVersionCode)
    } else {
        Ok(())
    }
}

fn check_asset(url: &String, sha256: &String, size: u64, prefix: &str) -> (valid: bool)
    ensures
        valid == (prefix@.is_prefix_of(url@) && byte_len(url@) <= 2048 && size > 0 && size
            <= MAX_INSTALLER_BYTES && is_sha256_text(sha256@)),
{
    starts_with(url.as_str(), prefix) && url.as_str().as_bytes().len() <= 2048 && size > 0 && size
        <= MAX_INSTALLER_BYTES && valid_sha256(sha256.as_str())
}

/// Whether an address may be fetched: an `https://` URL of at most 2048
/// bytes.
pub fn is_fetchable_url(url: &str) -> (fetchable: bool)
    ensures
        fetchable == ("https://"@.is_prefix_of(url@) && byte_len(url@) <= 2048),
{
    starts_with(url, "https://") && url.as_bytes().len() <= 2048
}

/// Whether a downloaded installer is the one the manifest describes: its
/// size, and the lowercase hexadecimal SHA-256 of its bytes.
pub fn installer_matches(installer: &[u8], asset: &PlatformAsset) -> (matches: bool)
    ensures
        matches == (installer@.len() == asset.size && hex_lower(sha256_of(installer@)) == asset.sha256@),
{
    if installer.len() as u64 != asset.size {
        return false;
    }
    let digest = sha256(installer);
    let text = to_hex_lower(digest.as_slice());
    str_equal(text.as_str(), asset.sha256.as_str())
}

/// The index of the last `/` in a text, or -1 when it has none.
pub open spec fn last_slash(text: Seq<char>) -> int
    decreases text.len(),
{
    if text.len() == 0 {
        -1
    } else if text.last() == '/' {
        text.len() - 1
    } else {
        last_slash(text.drop_last())
    }
}

/// Where the signature of a manifest is published: for the default
/// manifest, the release of the manifest's version; for any other manifest
/// address, beside it. `None` for an address without a `/`.
pub open spec fn signature_url_of(manifest_url: Seq<char>, version: Seq<char>) -> Option<Seq<char>> {
    if manifest_url == MANIFEST_URL@ {
        Some(RELEASE_DOWNLOAD_PREFIX@ + "v"@ + version + "/flowtype-update.json.sig"@)
    } else if last_slash(manifest_url) < 0 {
        None
    } else {
        Some(manifest_url.take(last_slash(manifest_url)) + "/flowtype-update.json.sig"@)
    }
}

/// The signature address for a manifest fetched from `manifest_url` that
/// names `version`.
pub fn signature_url(manifest_url: &str, version: &str) -> (url: Option<String>)
    ensures
        match url {
            Some(u) => signature_url_of(manifest_url@, version@) == Some(u@),
            None => signature_url_of(manifest_url@, version@) is None,
        },
{
    if str_equal(manifest_url, MANIFEST_URL) {
        let head = concat(RELEASE_DOWNLOAD_PREFIX, "v");
        let tagged = concat(head.as_str(), version);
        return Some(concat(tagged.as_str(), "/flowtype-update.json.sig"));
    }
    let chars = chars_of(manifest_url);
    let ghost text = chars@;
    let mut i: usize = chars.len();
    proof {
        assert(text.take(i as int) =~= text);
    }
    while i > 0 && chars[i - 1] != '/'
        invariant
            text == chars@,
            i <= chars@.len(),
            last_slash(text) == last_slash(text.take(i as int)),
        decreases i,
    {
        proof {
            assert(text.take(i as int).drop_last() =~= text.take(i - 1));
        }
        i = i - 1;
    }
    if i == 0 {
        proof {
            assert(text.take(0) =~= Seq::<char>::empty());
        }
        return None;
    }
    proof {
        assert(text.take(i as int).last() == text[i - 1]);
        assert(last_slash(text) == i - 1);
    }
    let base = copy_range(&chars, 0, i - 1);
    let base_text = string_from_chars(base.as_slice());
    proof {
        assert(base_text@ =~= text.take(i - 1));
    }
    Some(concat(base_text.as_str(), "/flowtype-update.json.sig"))
}

/// Checks the fields of a manifest whose signature verified.
pub fn validate_manifest(manifest: &UpdateManifest) -> (result: Result<(), UpdateError>)
    ensures
        result == manifest_check(*manifest),
{
    if manifest.schema != 1 || !str_equal(manifest.key_id.as_str(), UPDATE_KEY_ID) {
        return Err(UpdateError::UnsupportedManifest);
    }
    if parse_version(manifest.version.as_str()).is_none() {
        return Err(UpdateError::InvalidVersion);
    }
    if manifest.published_at.as_str().as_bytes().len() > 40 || manifest.notes_zh_cn.as_str().as_bytes().len()
        > 8192 || manifest.release_url.as_str().as_bytes().len() > 2048 {
        return Err(UpdateError::FieldsTooLong);
    }
    let tag = concat("v", manifest.version.as_str());
    let release_url = concat(RELEASE_TAG_PREFIX, tag.as_str());
    if !str_equal(manifest.release_url.as_str(), release_url.as_str()) {
        return Err(UpdateError::InvalidReleaseUrl);
    }
    let base = concat(RELEASE_DOWNLOAD_PREFIX, tag.as_str());
    let prefix = concat(base.as_str(), "/");
    if !check_asset(&manifest.windows.url, &manifest.windows.sha256, manifest.windows.size, prefix.as_str())
        || !check_asset(&manifest.android.url, &manifest.android.sha256, manifest.android.size, prefix.as_str()) {
        return Err(UpdateError::InvalidAsset);
    }
    if manifest.android.version_code == 0 {
        return Err(UpdateError::InvalidAndroidVersionCode);
    }
    Ok(())
}

/// What the signature over a manifest amounts to: the signature text must
/// be UTF-8 whose trimmed content is base64 of a DER signature, and that
/// signature must verify over the manifest bytes with the key.
pub open spec fn manifest_signature_check(bytes: Seq<u8>, signature_text: Seq<u8>, public_der: Seq<u8>) -> Result<
    (),
    UpdateError,
> {
    if bytes.len() > MAX_MANIFEST_BYTES || signature_text.len() > MAX_SIGNATURE_BYTES {
        Err(UpdateError::ManifestTooLarge)
    } else if !p256_key_accepted(public_der) {
        Err(UpdateError::InvalidPublicKey)
    } else if !vstd::utf8::valid_utf8(signature_text) {
        Err(UpdateError::InvalidSignatureFormat)
    } else {
        let text = vstd::utf8::decode_utf8(signature_text);
        if forall|trimmed: Seq<char>| is_trimmed(trimmed, text) ==> match base64_standard_decoded(trimmed) {
            Some(der) => p256_signature_accepted(der) && p256_signature_verifies(public_der, bytes, der),
            None => false,
        } {
            Ok(())
        } else if forall|trimmed: Seq<char>| is_trimmed(trimmed, text) ==> match base64_standard_decoded(trimmed) {
            Some(der) => p256_signature_accepted(der),
            None => false,
        } {
            Err(UpdateError::SignatureMismatch)
        } else {
            Err(UpdateError::InvalidSignatureFormat)
        }
    }
}

/// Checks a release manifest against its detached signature and an ECDSA
/// P-256 public key, then its fields; `parsed` is the manifest the bytes
/// hold as JSON, or `None` where they are no manifest. The accepted
/// manifest keeps the bytes and the signature text it was checked with.
///
/// A signature text that is not UTF-8 is refused as malformed: its lossy
/// decoding would hold U+FFFD, which no base64 text contains.
pub fn verify_manifest_with_key(
    bytes: &[u8],
    signature_text: &[u8],
    public_der: &[u8],
    parsed: Option<UpdateManifest>,
) -> (result: Result<UpdateManifest, UpdateError>)
    ensures
        manifest_signature_check(bytes@, signature_text@, public_der@) is Err ==> result == Err::<
            UpdateManifest,
            UpdateError,
        >(manifest_signature_check(bytes@, signature_text@, public_der@)->Err_0),
        manifest_signature_check(bytes@, signature_text@, public_der@) is Ok ==> match parsed {
            None => result == Err::<UpdateManifest, UpdateError>(UpdateError::InvalidManifestFormat),
            Some(m) => match manifest_check(m) {
                Err(e) => result == Err::<UpdateManifest, UpdateError>(e),
                Ok(()) => result matches Ok(accepted) && accepted == (UpdateManifest {
                    verified_raw: accepted.verified_raw,
                    verified_signature: accepted.verified_signature,
                    ..m
                }) && accepted.verified_raw@ == bytes@ && accepted.verified_signature@
                    == signature_text@,
            },
        },
{
    if bytes.len() > MAX_MANIFEST_BYTES || signature_text.len() > MAX_SIGNATURE_BYTES {
        return Err(UpdateError::ManifestTooLarge);
    }
    if !p256_key_is_valid(public_der) {
        return Err(UpdateError::InvalidPublicKey);
    }
    let text = match text_from_utf8(signature_text) {
        Some(t) => t,
        None => return Err(UpdateError::InvalidSignatureFormat),
    };
    let trimmed = trim(text.as_str());
    proof {
        assert forall|t: Seq<char>| is_trimmed(t, text@) implies t == trimmed@ by {
            crate::text::lemma_trimmed_unique(t, trimmed@, text@);
        }
    }
    let signature = match decode_base64(trimmed.as_str()) {
        Some(der) => der,
        None => return Err(UpdateError::InvalidSignatureFormat),
    };
    if !p256_signature_is_valid(signature.as_slice()) {
        return Err(UpdateError::InvalidSignatureFormat);
    }
    if !p256_verify(public_der, bytes, signature.as_slice()) {
        return Err(UpdateError::SignatureMismatch);
    }
    let mut manifest = match parsed {
        Some(m) => m,
        None => return Err(UpdateError::InvalidManifestFormat),
    };
    validate_manifest(&manifest)?;
    manifest.verified_raw = vstd::slice::slice_to_vec(bytes);
    manifest.verified_signature = vstd::slice::slice_to_vec(signature_text);
    Ok(manifest)
}

/// What a manifest's version means against the highest version seen so far
/// and the running version.
#[derive(Debug, Clone, Copy, PartialEq, Eq, Structural)]
pub enum VersionAssessment {
    /// Older than a version already seen: the server replays an old manifest.
    Rollback,
    /// Newer than the running version.
    Newer,
    /// Not newer than the running version.
    UpToDate,
    /// Not a version the running one can be compared with.
    InvalidVersion,
}

/// The assessment of `assess_manifest_version`.
pub open spec fn assessment_of(version: Seq<char>, highest: Option<Seq<char>>, current: Seq<char>) -> VersionAssessment {
    if highest matches Some(h) && version_order(version, h) == Some(std::cmp::Ordering::Less) {
        VersionAssessment::Rollback
    } else {
        match version_order(version, current) {
            Some(std::cmp::Ordering::Greater) => VersionAssessment::Newer,
            Some(_) => VersionAssessment::UpToDate,
            None => VersionAssessment::InvalidVersion,
        }
    }
}

/// The highest version seen after accepting a manifest: it is raised to the
/// manifest's version unless that is no higher (or is a rollback).
pub open spec fn highest_after(version: Seq<char>, highest: Option<Seq<char>>) -> Option<Seq<char>> {
    match highest {
        None => Some(version),
        Some(h) => match version_order(version, h) {
            Some(std::cmp::Ordering::Less) => Some(h),
            Some(std::cmp::Ordering::Equal) => Some(h),
            _ => Some(version),
        },
    }
}

pub open spec fn text_view(value: Option<String>) -> Option<Seq<char>> {
    match value {
        Some(s) => Some(s@),
        None => None,
    }
}

/// Judges a verified manifest's version and raises the highest version seen.
pub fn assess_manifest_version(version: &str, highest: &mut Option<String>, current: &str) -> (assessment: VersionAssessment)
    ensures
        assessment == assessment_of(version@, text_view(*old(highest)), current@),
        text_view(*final(highest)) == highest_after(version@, text_view(*old(highest))),
{
    let against_highest = match highest {
        Some(h) => Some(compare_versions(version, h.as_str())),
        None => None,
    };
    match against_highest {
        Some(Some(std::cmp::Ordering::Less)) => {
            return VersionAssessment::Rollback;
        },
        Some(Some(std::cmp::Ordering::Equal)) => {},
        _ => {
            *highest = Some(version.to_owned());
        },
    }
    match compare_versions(version, current) {
        Some(std::cmp::Ordering::Greater) => VersionAssessment::Newer,
        Some(_) => VersionAssessment::UpToDate,
        None => VersionAssessment::InvalidVersion,
    }
}

/// Versions are ordered by major, then minor, then patch: a lower first
/// differing component makes a version older; the order is `Equal` exactly
/// for the same three numbers, and swapping the arguments turns `Less`
/// into `Greater`.
pub proof fn law_versions_order_by_components(left: Seq<char>, right: Seq<char>)
    requires
        parsed_version(left) is Some,
        parsed_version(right) is Some,
    ensures
        ({
            let a = parsed_version(left)->0;
            let b = parsed_version(right)->0;
            &&& a.0 < b.0 ==> version_order(left, right) == Some(std::cmp::Ordering::Less)
            &&& a.0 == b.0 && a.1 < b.1 ==> version_order(left, right) == Some(std::cmp::Ordering::Less)
            &&& a.0 == b.0 && a.1 == b.1 && a.2 < b.2 ==> version_order(left, right) == Some(
                std::cmp::Ordering::Less,
            )
            &&& (version_order(left, right) == Some(std::cmp::Ordering::Equal) <==> a == b)
            &&& (version_order(left, right) == Some(std::cmp::Ordering::Greater) <==> version_order(right, left)
                == Some(std::cmp::Ordering::Less))
        }),
{
}

} // verus!
