//! The computer's presence on the network: which local addresses the phone
//! is offered, the endpoint URLs, the pairing link, the advertised host
//! name, and the identity the injector must prove.
use rcgen::{generate_simple_self_signed, PublicKeyData};
use vstd::prelude::*;

use crate::crypto::{
    base64_standard_decoded, base64_standard_encoded, base64_url_encoded, decode_base64, encode_base64, encode_base64_url,
    sha256, sha256_of,
};
use crate::ipc::InjectorResponse;
use crate::settings::{decimal, i32_text};
use crate::text::{
    ascii_lowercase, chars_of, concat, eq_ignore_ascii_case, is_trimmed, str_equal, string_from_chars, trim,
};
use crate::update_panel::{contains, contains_text};
use crate::INJECTOR_IPC_VERSION;

verus! {

broadcast use vstd::string::group_string_axioms;

/// The port the computer listens on.
pub const PORT: u16 = 32187;

/// How many addresses the phone is offered at most.
pub const MAX_CANDIDATES: usize = 6;

/// The `i`-th octet of an IPv4 address held as a big-endian `u32`.
pub open spec fn octet(address: u32, i: int) -> nat {
    if i == 0 {
        (address / 16777216) as nat
    } else if i == 1 {
        ((address / 65536) % 256) as nat
    } else if i == 2 {
        ((address / 256) % 256) as nat
    } else {
        (address % 256) as nat
    }
}

/// Whether an IPv4 address is private (10/8, 172.16/12, 192.168/16).
pub open spec fn is_private(address: u32) -> bool {
    octet(address, 0) == 10 || (octet(address, 0) == 172 && 16 <= octet(address, 1) <= 31) || (
    octet(address, 0) == 192 && octet(address, 1) == 168)
}

/// How well an adapter's address suits the phone: Tailscale first, then
/// private networks, then other addresses; virtual switches of Hyper-V
/// and WSL are not offered.
pub open spec fn score_of(adapter_name: Seq<char>, address: u32) -> i32 {
    let name = ascii_lowercase(adapter_name);
    if contains_text(name, "tailscale"@) {
        1000
    } else if contains_text(name, "vEthernet"@) || contains_text(name, "vethernet"@) || contains_text(
        name,
        "hyper-v"@,
    ) || contains_text(name, "wsl"@) || contains_text(name, "default switch"@) {
        10
    } else if is_private(address) {
        200
    } else {
        100
    }
}

pub fn address_score(adapter_name: &str, address: u32) -> (score: i32)
    ensures
        score == score_of(adapter_name@, address),
{
    let name = lowercase(adapter_name);
    if contains(name.as_str(), "tailscale") {
        return 1000;
    }
    if contains(name.as_str(), "vEthernet") || contains(name.as_str(), "vethernet") || contains(
        name.as_str(),
        "hyper-v",
    ) || contains(name.as_str(), "wsl") || contains(name.as_str(), "default switch") {
        return 10;
    }
    let first = address / 16777216;
    let second = (address / 65536) % 256;
    if first == 10 || (first == 172 && 16 <= second && second <= 31) || (first == 192 && second
        == 168) {
        200
    } else {
        100
    }
}

/// `str::to_ascii_lowercase`.
pub fn lowercase(text: &str) -> (lower: String)
    ensures
        lower@ == ascii_lowercase(text@),
{
    let chars = chars_of(text);
    let mut out: Vec<char> = Vec::new();
    let mut i: usize = 0;
    while i < chars.len()
        invariant
            chars@ == text@,
            i <= chars@.len(),
            out@ == ascii_lowercase(chars@.take(i as int)),
        decreases chars.len() - i,
    {
        out.push(crate::text::char_ascii_lower(chars[i]));
        proof {
            assert(ascii_lowercase(chars@.take(i + 1)) =~= ascii_lowercase(chars@.take(i as int)).push(
                crate::text::ascii_lower(chars@[i as int]),
            ));
        }
        i += 1;
    }
    proof {
        assert(chars@.take(chars@.len() as int) =~= chars@);
    }
    string_from_chars(out.as_slice())
}

/// The addresses of a given score, in order.
pub open spec fn with_score(adapters: Seq<(Seq<char>, u32)>, score: i32) -> Seq<u32>
    decreases adapters.len(),
{
    if adapters.len() == 0 {
        Seq::empty()
    } else {
        let rest = with_score(adapters.drop_last(), score);
        if score_of(adapters.last().0, adapters.last().1) == score {
            rest.push(adapters.last().1)
        } else {
            rest
        }
    }
}

/// A sequence without runs: each element differs from the one before.
pub open spec fn without_runs(items: Seq<u32>) -> Seq<u32>
    decreases items.len(),
{
    if items.len() == 0 {
        items
    } else {
        let rest = without_runs(items.drop_last());
        if rest.len() > 0 && rest.last() == items.last() {
            rest
        } else {
            rest.push(items.last())
        }
    }
}

/// The addresses offered to the phone: those scoring 100 or more, best
/// score first (adapter order within a score), repeats next to each other
/// dropped, at most six.
pub open spec fn candidates_of(adapters: Seq<(Seq<char>, u32)>) -> Seq<u32> {
    let ranked = with_score(adapters, 1000) + with_score(adapters, 200) + with_score(adapters, 100);
    let distinct = without_runs(ranked);
    if distinct.len() > MAX_CANDIDATES {
        distinct.take(MAX_CANDIDATES as int)
    } else {
        distinct
    }
}

pub open spec fn adapter_views(adapters: Seq<(String, u32)>) -> Seq<(Seq<char>, u32)> {
    adapters.map_values(|a: (String, u32)| (a.0@, a.1))
}

fn collect_score(adapters: &Vec<(String, u32)>, score: i32, out: &mut Vec<u32>)
    ensures
        final(out)@ == old(out)@ + with_score(adapter_views(adapters@), score),
{
    let ghost views = adapter_views(adapters@);
    let ghost start = out@;
    let mut i: usize = 0;
    proof {
        assert(views.take(0) =~= Seq::<(Seq<char>, u32)>::empty());
        assert(start + with_score(Seq::<(Seq<char>, u32)>::empty(), score) =~= start);
    }
    while i < adapters.len()
        invariant
            views == adapter_views(adapters@),
            i <= adapters@.len(),
            out@ == start + with_score(views.take(i as int), score),
        decreases adapters.len() - i,
    {
        let s = address_score(adapters[i].0.as_str(), adapters[i].1);
        proof {
            assert(views.take(i + 1).drop_last() =~= views.take(i as int));
            assert(views.take(i + 1).last() == (adapters@[i as int].0@, adapters@[i as int].1));
        }
        if s == score {
            out.push(adapters[i].1);
        }
        i += 1;
    }
    proof {
        assert(views.take(adapters@.len() as int) =~= views);
    }
}

/// Picks the addresses offered to the phone from the adapters' addresses.
pub fn candidate_ipv4s(adapters: &Vec<(String, u32)>) -> (candidates: Vec<u32>)
    ensures
        candidates@ == candidates_of(adapter_views(adapters@)),
{
    let mut ranked: Vec<u32> = Vec::new();
    collect_score(adapters, 1000, &mut ranked);
    collect_score(adapters, 200, &mut ranked);
    collect_score(adapters, 100, &mut ranked);
    proof {
        assert(Seq::<u32>::empty() + with_score(adapter_views(adapters@), 1000) + with_score(
            adapter_views(adapters@),
            200,
        ) + with_score(adapter_views(adapters@), 100) =~= with_score(adapter_views(adapters@), 1000)
            + with_score(adapter_views(adapters@), 200) + with_score(adapter_views(adapters@), 100));
    }
    let mut distinct: Vec<u32> = Vec::new();
    let mut i: usize = 0;
    proof {
        assert(ranked@.take(0) =~= Seq::<u32>::empty());
    }
    while i < ranked.len()
        invariant
            i <= ranked@.len(),
            distinct@ == without_runs(ranked@.take(i as int)),
        decreases ranked.len() - i,
    {
        let address = ranked[i];
        proof {
            assert(ranked@.take(i + 1).drop_last() =~= ranked@.take(i as int));
        }
        let repeat = distinct.len() > 0 && distinct[distinct.len() - 1] == address;
        if !repeat {
            distinct.push(address);
        }
        i += 1;
    }
    proof {
        assert(ranked@.take(ranked@.len() as int) =~= ranked@);
    }
    if distinct.len() > MAX_CANDIDATES {
        distinct.truncate(MAX_CANDIDATES);
    }
    distinct
}

/// The dotted text of an IPv4 address.
pub open spec fn dotted(address: u32) -> Seq<char> {
    decimal(octet(address, 0)) + "."@ + decimal(octet(address, 1)) + "."@ + decimal(octet(address, 2))
        + "."@ + decimal(octet(address, 3))
}

fn byte_text(value: u32) -> (text: String)
    ensures
        text@ == decimal(value as nat),
{
    let digits = crate::settings::decimal_text(value as u64);
    string_from_chars(digits.as_slice())
}

/// `Ipv4Addr`'s display: four decimal numbers joined by dots.
pub fn dotted_text(address: u32) -> (text: String)
    ensures
        text@ == dotted(address),
{
    let a = byte_text(address / 16777216);
    let b = byte_text((address / 65536) % 256);
    let c = byte_text((address / 256) % 256);
    let d = byte_text(address % 256);
    let t = concat(a.as_str(), ".");
    let t = concat(t.as_str(), b.as_str());
    let t = concat(t.as_str(), ".");
    let t = concat(t.as_str(), c.as_str());
    let t = concat(t.as_str(), ".");
    concat(t.as_str(), d.as_str())
}

/// The WebSocket endpoint at an address.
pub open spec fn endpoint_at(address: u32) -> Seq<char> {
    "wss://"@ + dotted(address) + ":32187/v1/sync"@
}

pub fn endpoint_url(address: u32) -> (url: String)
    ensures
        url@ == endpoint_at(address),
{
    let host = dotted_text(address);
    let head = concat("wss://", host.as_str());
    concat(head.as_str(), ":32187/v1/sync")
}

/// Texts without runs: each differs from the one before.
pub open spec fn texts_without_runs(items: Seq<Seq<char>>) -> Seq<Seq<char>>
    decreases items.len(),
{
    if items.len() == 0 {
        items
    } else {
        let rest = texts_without_runs(items.drop_last());
        if rest.len() > 0 && rest.last() == items.last() {
            rest
        } else {
            rest.push(items.last())
        }
    }
}

/// The endpoints offered to the phone: the primary one if given, then one
/// per candidate address, repeats next to each other dropped.
pub open spec fn endpoints_of(primary: Option<Seq<char>>, addresses: Seq<u32>) -> Seq<Seq<char>> {
    let first = match primary {
        Some(p) => seq![p],
        None => Seq::empty(),
    };
    texts_without_runs(first + addresses.map_values(|a: u32| endpoint_at(a)))
}

pub fn endpoint_urls(primary: Option<&str>, addresses: &Vec<u32>) -> (urls: Vec<String>)
    ensures
        urls@.map_values(|u: String| u@) == endpoints_of(
            match primary {
                Some(p) => Some(p@),
                None => None,
            },
            addresses@,
        ),
{
    let ghost first = match primary {
        Some(p) => seq![p@],
        None => Seq::<Seq<char>>::empty(),
    };
    let ghost all = first + addresses@.map_values(|a: u32| endpoint_at(a));
    let mut urls: Vec<String> = Vec::new();
    let mut taken: usize = 0;
    match primary {
        Some(p) => {
            urls.push(p.to_owned());
            taken = 1;
            proof {
                assert(all.take(1).drop_last() =~= Seq::<Seq<char>>::empty());
                assert(all[0] == p@);
                assert(all.take(1).last() == p@);
                assert(texts_without_runs(Seq::<Seq<char>>::empty()) =~= Seq::<Seq<char>>::empty());
                assert(texts_without_runs(all.take(1)) =~= seq![p@]);
                assert(urls@.map_values(|u: String| u@) =~= seq![p@]);
            }
        },
        None => {
            proof {
                assert(urls@.map_values(|u: String| u@) =~= texts_without_runs(all.take(0)));
            }
        },
    }
    let mut i: usize = 0;
    while i < addresses.len()
        invariant
            all == first + addresses@.map_values(|a: u32| endpoint_at(a)),
            taken == first.len(),
            i <= addresses@.len(),
            urls@.map_values(|u: String| u@) == texts_without_runs(all.take(taken + i)),
        decreases addresses.len() - i,
    {
        let url = endpoint_url(addresses[i]);
        proof {
            assert(all.take(taken + i + 1).drop_last() =~= all.take(taken + i));
            assert(all.take(taken + i + 1).last() == endpoint_at(addresses@[i as int]));
        }
        let repeat = urls.len() > 0 && str_equal(urls[urls.len() - 1].as_str(), url.as_str());
        let ghost before = urls@;
        if !repeat {
            urls.push(url);
            proof {
                assert(urls@.map_values(|u: String| u@) =~= before.map_values(|u: String| u@).push(
                    endpoint_at(addresses@[i as int]),
                ));
            }
        } else {
            proof {
                assert(before.map_values(|u: String| u@).last() == before.last()@);
            }
        }
        i += 1;
    }
    proof {
        assert(all.take(taken + addresses@.len()) =~= all);
    }
    urls
}

/// The link the pairing QR code shows: the pairing payload's JSON in
/// unpadded URL-safe base64.
pub fn pairing_uri(payload_json: &[u8]) -> (uri: String)
    ensures
        uri@ == "flowtype://pair?data="@ + base64_url_encoded(payload_json@),
{
    let data = encode_base64_url(payload_json);
    concat("flowtype://pair?data=", data.as_str())
}

/// The fingerprint of the computer's TLS key that the phone pins: base64 of
/// the SHA-256 of its SubjectPublicKeyInfo.
pub fn spki_fingerprint(spki_der: &[u8]) -> (fingerprint: String)
    ensures
        fingerprint@ == base64_standard_encoded(sha256_of(spki_der@)),
{
    let digest = sha256(spki_der);
    encode_base64(digest.as_slice())
}

/// The host name advertised over mDNS: `flowtype-`, the first eight
/// characters of the computer id, `.local.`.
pub fn mdns_host_name(pc_id: &str) -> (host: String)
    ensures
        host@ == "flowtype-"@ + (if pc_id@.len() > 8 {
            pc_id@.take(8)
        } else {
            pc_id@
        }) + ".local."@,
{
    let chars = chars_of(pc_id);
    let end = if chars.len() > 8 {
        8
    } else {
        chars.len()
    };
    let short = crate::text::copy_range(&chars, 0, end);
    proof {
        if chars@.len() <= 8 {
            assert(chars@.subrange(0, end as int) =~= chars@);
        }
    }
    let short = string_from_chars(short.as_slice());
    let head = concat("flowtype-", short.as_str());
    concat(head.as_str(), ".local.")
}

/// Why a computer name was refused.
#[derive(Debug, Clone, Copy, PartialEq, Eq, Structural)]
pub enum NameError {
    /// The name, trimmed, must hold 1 to 64 characters.
    InvalidLength,
}

/// The computer name to save: trimmed, of 1 to 64 characters.
pub fn validate_pc_name(name: &str) -> (result: Result<String, NameError>)
    ensures
        match result {
            Ok(saved) => is_trimmed(saved@, name@) && 1 <= saved@.len() <= 64,
            Err(_) => forall|t: Seq<char>| is_trimmed(t, name@) ==> t.len() == 0 || t.len() > 64,
        },
{
    let trimmed = trim(name);
    proof {
        assert forall|t: Seq<char>| is_trimmed(t, name@) implies t == trimmed@ by {
            crate::text::lemma_trimmed_unique(t, trimmed@, name@);
        }
    }
    let count = chars_of(trimmed.as_str()).len();
    if count == 0 || count > 64 {
        Err(NameError::InvalidLength)
    } else {
        Ok(trimmed)
    }
}

/// Two Windows paths name the same file: equal but for ASCII case.
pub fn same_path(actual: &str, expected: &str) -> (same: bool)
    ensures
        same == (ascii_lowercase(actual@) == ascii_lowercase(expected@)),
{
    eq_ignore_ascii_case(actual, expected)
}

/// Why the injector's handshake was not trusted.
#[derive(Debug, Clone, Copy, PartialEq, Eq, Structural)]
pub enum HandshakeError {
    /// The answer is not a handshake.
    InvalidHandshake,
    /// Another protocol version, or another executable than the installed one.
    IdentityMismatch,
    /// The injector does not run elevated.
    NotElevated,
    /// The injector gave no instance id.
    MissingInstance,
}

/// What the handshake amounts to, and the injector instance it names.
pub open spec fn handshake_result(
    response: InjectorResponse,
    server_path: Seq<char>,
    expected_path: Seq<char>,
    dev_injector: bool,
) -> Result<Seq<char>, HandshakeError> {
    match response {
        InjectorResponse::Hello { ipc_version, instance_id, executable_path, elevated } => if ipc_version
            != INJECTOR_IPC_VERSION || ascii_lowercase(server_path) != ascii_lowercase(expected_path)
            || ascii_lowercase(executable_path@) != ascii_lowercase(expected_path) {
            Err(HandshakeError::IdentityMismatch)
        } else if !dev_injector && !elevated {
            Err(HandshakeError::NotElevated)
        } else if instance_id@.len() == 0 {
            Err(HandshakeError::MissingInstance)
        } else {
            Ok(instance_id@)
        },
        _ => Err(HandshakeError::InvalidHandshake),
    }
}

/// Checks the injector's answer to `Hello`: the current protocol, the
/// installed executable both as the pipe's server process and as reported,
/// elevation (unless a development injector is allowed), and an instance id.
pub fn verify_injector_handshake(
    response: InjectorResponse,
    server_path: &str,
    expected_path: &str,
    dev_injector: bool,
) -> (result: Result<String, HandshakeError>)
    ensures
        match result {
            Ok(id) => handshake_result(response, server_path@, expected_path@, dev_injector) == Ok::<
                Seq<char>,
                HandshakeError,
            >(id@),
            Err(e) => handshake_result(response, server_path@, expected_path@, dev_injector) == Err::<
                Seq<char>,
                HandshakeError,
            >(e),
        },
{
    match response {
        InjectorResponse::Hello { ipc_version, instance_id, executable_path, elevated } => {
            if ipc_version != INJECTOR_IPC_VERSION || !same_path(server_path, expected_path)
                || !same_path(executable_path.as_str(), expected_path) {
                return Err(HandshakeError::IdentityMismatch);
            }
            if !dev_injector && !elevated {
                return Err(HandshakeError::NotElevated);
            }
            if instance_id.as_str().is_empty() {
                return Err(HandshakeError::MissingInstance);
            }
            Ok(instance_id)
        },
        _ => Err(HandshakeError::InvalidHandshake),
    }
}

/// The computer's identity: its id and name, its TLS certificate and key,
/// and the fingerprint of its public key that phones pin.
#[derive(Debug, Clone, PartialEq, Eq)]
pub struct PcIdentity {
    pub pc_id: String,
    pub pc_name: String,
    pub cert_der: Vec<u8>,
    pub key_der: Vec<u8>,
    pub spki_sha256: String,
}

/// Where a stored identity's private key comes from.
#[derive(Debug, Clone, PartialEq, Eq)]
pub enum StoredKey {
    /// The key is stored protected by the user's DPAPI key: unprotect it.
    Protected(String),
    /// The key is stored in the clear by an older version: use it, and
    /// store it protected from now on.
    Migrate(String),
    /// The identity has no private key.
    Missing,
}

/// Picks the stored form of the private key: the protected one when
/// present, else the clear one.
pub fn stored_key(protected_key_der: Option<String>, key_der: Option<String>) -> (key: StoredKey)
    ensures
        key == match protected_key_der {
            Some(p) => StoredKey::Protected(p),
            None => match key_der {
                Some(k) => StoredKey::Migrate(k),
                None => StoredKey::Missing,
            },
        },
{
    match protected_key_der {
        Some(p) => StoredKey::Protected(p),
        None => match key_der {
            Some(k) => StoredKey::Migrate(k),
            None => StoredKey::Missing,
        },
    }
}

/// The identity read back from its stored form: the certificate and the
/// private key are stored as standard base64, the other fields as they are.
/// `None` when either text is not base64.
pub fn identity_from_stored(
    pc_id: String,
    pc_name: String,
    cert_der: &str,
    key_der: &str,
    spki_sha256: String,
) -> (identity: Option<PcIdentity>)
    ensures
        identity is None <==> (base64_standard_decoded(cert_der@) is None || base64_standard_decoded(
            key_der@,
        ) is None),
        identity matches Some(i) ==> base64_standard_decoded(cert_der@) == Some(i.cert_der@)
            && base64_standard_decoded(key_der@) == Some(i.key_der@) && i.pc_id == pc_id && i.pc_name
            == pc_name && i.spki_sha256 == spki_sha256,
{
    let cert = match decode_base64(cert_der) {
        Some(bytes) => bytes,
        None => return None,
    };
    let key = match decode_base64(key_der) {
        Some(bytes) => bytes,
        None => return None,
    };
    Some(PcIdentity { pc_id, pc_name, cert_der: cert, key_der: key, spki_sha256 })
}

/// The stored texts of an identity's certificate and private key: standard
/// base64 of each.
pub fn stored_identity_texts(identity: &PcIdentity) -> (texts: (String, String))
    ensures
        texts.0@ == base64_standard_encoded(identity.cert_der@),
        texts.1@ == base64_standard_encoded(identity.key_der@),
{
    (encode_base64(identity.cert_der.as_slice()), encode_base64(identity.key_der.as_slice()))
}

/// An identity from its parts; the pinned fingerprint is computed from the
/// DER SubjectPublicKeyInfo of the key.
pub fn new_identity(pc_id: String, pc_name: String, cert_der: Vec<u8>, key_der: Vec<u8>, spki_der: &[u8]) -> (identity: PcIdentity)
    ensures
        identity.pc_id == pc_id,
        identity.pc_name == pc_name,
        identity.cert_der@ == cert_der@,
        identity.key_der@ == key_der@,
        identity.spki_sha256@ == base64_standard_encoded(sha256_of(spki_der@)),
{
    PcIdentity { pc_id, pc_name, cert_der, key_der, spki_sha256: spki_fingerprint(spki_der) }
}

/// What rcgen reads from a private key's DER: `KeyPair::try_from(&[u8])`,
/// then `PublicKeyData::subject_public_key_info` of the key pair, that is
/// the DER SubjectPublicKeyInfo of its public key; `None` where rcgen
/// reports that it cannot read the key.
pub uninterp spec fn rcgen_key_spki(key_der: Seq<u8>) -> Option<Seq<u8>>;

/// Calls `rcgen::KeyPair::try_from(&[u8])` and, when it reads the key,
/// `subject_public_key_info` of the key pair; the contract names the result.
#[verifier::external_body]
fn key_pair_spki(key_der: &[u8]) -> (spki: Option<Vec<u8>>)
    ensures
        match spki {
            Some(s) => rcgen_key_spki(key_der@) == Some(s@),
            None => rcgen_key_spki(key_der@) is None,
        },
{
    rcgen::KeyPair::try_from(key_der).ok().map(|key| key.subject_public_key_info())
}

/// Calls `rcgen::generate_simple_self_signed` for the one subject name and
/// returns the certificate's DER and the key pair's PKCS#8 DER
/// (`KeyPair::serialize_der`); `None` where rcgen reports an error. The key
/// is random, so the contract states what holds of every outcome: both DER
/// encodings are non-empty, and rcgen reads the key back from its DER (the
/// generated P-256 key is a PKCS#8 document that `KeyPair::try_from`
/// accepts).
#[verifier::external_body]
fn generate_tls_identity(subject_alt_name: &str) -> (generated: Option<(Vec<u8>, Vec<u8>)>)
    ensures
        generated matches Some(g) ==> g.0@.len() > 0 && g.1@.len() > 0 && rcgen_key_spki(g.1@) is Some,
{
    generate_simple_self_signed(vec![subject_alt_name.to_owned()]).ok().map(
        |key| (key.cert.der().to_vec(), key.signing_key.serialize_der()),
    )
}

/// The name the computer's self-signed certificate is issued for.
pub fn tls_subject_name() -> (name: &'static str)
    ensures
        name@ == "flowtype.local"@,
{
    "flowtype.local"
}

/// Calls `uuid::Uuid::new_v4` and formats it with `to_string`: a random
/// version-4 UUID in its hyphenated form, which is always 36 characters.
#[verifier::external_body]
fn fresh_pc_id() -> (id: String)
    ensures
        id@.len() == 36,
{
    uuid::Uuid::new_v4().to_string()
}

/// Creates the identity of a computer on its first start: a fresh random
/// id, the given name, and a new self-signed certificate for
/// `tls_subject_name()` whose key is pinned: the fingerprint is the SHA-256
/// of the public key rcgen reads from the stored private key. `None` where
/// rcgen could not generate the certificate.
pub fn create_identity(pc_name: String) -> (identity: Option<PcIdentity>)
    ensures
        identity matches Some(i) ==> i.pc_name == pc_name && i.pc_id@.len() == 36 && i.cert_der@.len() > 0
            && i.key_der@.len() > 0 && (rcgen_key_spki(i.key_der@) matches Some(s) && i.spki_sha256@
            == base64_standard_encoded(sha256_of(s))),
{
    let (cert_der, key_der) = match generate_tls_identity(tls_subject_name()) {
        Some(generated) => generated,
        None => return None,
    };
    let spki_der = match key_pair_spki(key_der.as_slice()) {
        Some(spki) => spki,
        None => return None,
    };
    Some(new_identity(fresh_pc_id(), pc_name, cert_der, key_der, spki_der.as_slice()))
}

} // verus!
