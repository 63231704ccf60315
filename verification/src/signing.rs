//! Calls into the hashing, encoding and URL crates that request signing needs.

use vstd::prelude::*;
use vstd::utf8::encode_utf8;

verus! {

/// HMAC-SHA256 tag of `message` under `key`, as the `hmac` and `sha2` crates compute it.
pub uninterp spec fn hmac_sha256_tag(key: Seq<u8>, message: Seq<u8>) -> Seq<u8>;

/// HMAC-SHA256 tag of `message` under `key`, as the `hmac-sha256` crate computes it.
pub uninterp spec fn hmac_sha256_crate_tag(key: Seq<u8>, message: Seq<u8>) -> Seq<u8>;

/// HMAC-SHA512 tag of `message` under `key`, as the `hmac` and `sha2` crates compute it.
pub uninterp spec fn hmac_sha512_tag(key: Seq<u8>, message: Seq<u8>) -> Seq<u8>;

/// SHA-512 digest of `data`, as the `sha2` crate computes it.
pub uninterp spec fn sha512_digest(data: Seq<u8>) -> Seq<u8>;

/// Path of a URL, as `url::Url::parse(..).path()` gives it; none where the URL does not parse.
pub uninterp spec fn url_path(url: Seq<char>) -> Option<Seq<char>>;

/// The character of a six-bit value in the standard base64 alphabet (RFC 4648):
/// A-Z, a-z, 0-9, '+', '/'.
pub open spec fn base64_char(v: nat) -> char {
    if v < 26 {
        (65 + v) as char
    } else if v < 52 {
        (97 + v - 26) as char
    } else if v < 62 {
        (48 + v - 52) as char
    } else if v == 62 {
        '+'
    } else {
        '/'
    }
}

/// Standard base64 text (with padding) of bytes, as the `base64` crate's STANDARD engine
/// writes it: each three bytes become four characters of six bits each, most significant
/// first; a last one or two bytes become two or three characters and '=' padding.
pub open spec fn base64_standard(data: Seq<u8>) -> Seq<char>
    decreases data.len(),
{
    if data.len() == 0 {
        Seq::empty()
    } else if data.len() == 1 {
        let b0 = data[0] as nat;
        seq![base64_char(b0 / 4), base64_char((b0 % 4) * 16), '=', '=']
    } else if data.len() == 2 {
        let b0 = data[0] as nat;
        let b1 = data[1] as nat;
        seq![base64_char(b0 / 4), base64_char((b0 % 4) * 16 + b1 / 16), base64_char((b1 % 16) * 4), '=']
    } else {
        let b0 = data[0] as nat;
        let b1 = data[1] as nat;
        let b2 = data[2] as nat;
        seq![
            base64_char(b0 / 4),
            base64_char((b0 % 4) * 16 + b1 / 16),
            base64_char((b1 % 16) * 4 + b2 / 64),
            base64_char(b2 % 64),
        ] + base64_standard(data.skip(3))
    }
}

/// The bytes that standard base64 text (with padding) decodes to, as the `base64`
/// crate's STANDARD engine decodes it; none where the engine refuses the text.
pub uninterp spec fn base64_standard_decoded(text: Seq<u8>) -> Option<Seq<u8>>;

/// Host of a URL, as `url::Url::parse(..).host_str()` gives it.
pub uninterp spec fn url_host(url: Seq<char>) -> Option<Seq<char>>;

/// Trusted: `hmac::Hmac::<sha2::Sha256>` keyed with `key` (any key length is accepted,
/// `new_from_slice` cannot fail for HMAC), fed `message`, finalized into its 32 bytes.
/// The contract names the tag and states its length; the digest itself is not stated.
#[verifier::external_body]
pub(crate) fn hmac_sha256(key: &[u8], message: &[u8]) -> (tag: Vec<u8>)
    ensures
        tag@ == hmac_sha256_tag(key@, message@),
        tag@.len() == 32,
{
    let mut mac = <hmac::Hmac<sha2::Sha256> as hmac::digest::KeyInit>::new_from_slice(key).unwrap();
    <hmac::Hmac<sha2::Sha256> as hmac::Mac>::update(&mut mac, message);
    <hmac::Hmac<sha2::Sha256> as hmac::Mac>::finalize(mac).into_bytes().to_vec()
}

/// Trusted: `hmac_sha256::HMAC::new(key)`, `update(message)`, `finalize()` of the
/// `hmac-sha256` crate: the 32-byte tag. The digest itself is not stated.
#[verifier::external_body]
pub(crate) fn hmac_sha256_single(key: &[u8], message: &[u8]) -> (tag: Vec<u8>)
    ensures
        tag@ == hmac_sha256_crate_tag(key@, message@),
        tag@.len() == 32,
{
    let mut mac = hmac_sha256::HMAC::new(key);
    mac.update(message);
    mac.finalize().to_vec()
}

/// Lower-case hexadecimal digit of a value below 16.
pub open spec fn hex_lower(d: nat) -> char {
    if d < 10 {
        (48 + d) as char
    } else {
        (87 + d) as char
    }
}

/// Upper-case hexadecimal digit of a value below 16.
pub open spec fn hex_upper(d: nat) -> char {
    if d < 10 {
        (48 + d) as char
    } else {
        (55 + d) as char
    }
}

/// Two lower-case hexadecimal digits per byte, most significant first.
pub open spec fn hex_text(data: Seq<u8>) -> Seq<char>
    decreases data.len(),
{
    if data.len() == 0 {
        Seq::empty()
    } else {
        hex_text(data.drop_last()) + seq![
            hex_lower((data.last() / 16) as nat),
            hex_lower((data.last() % 16) as nat),
        ]
    }
}

/// Trusted: `hex::encode` writes two lower-case hexadecimal digits per byte, in order.
#[verifier::external_body]
pub(crate) fn hex_encode(data: &[u8]) -> (r: String)
    ensures
        r@ == hex_text(data@),
{
    hex::encode(data)
}

/// Trusted: `base64::engine::general_purpose::STANDARD.encode`: the padded standard base64 text above.
#[verifier::external_body]
pub(crate) fn base64_encode(data: &[u8]) -> (r: String)
    ensures
        r@ == base64_standard(data@),
{
    base64::Engine::encode(&base64::engine::general_purpose::STANDARD, data)
}

/// Trusted: `url::Url::parse(url)` followed by `host_str()`; `None` when either gives none.
/// Which host a URL has is named, not stated.
#[verifier::external_body]
pub(crate) fn parse_url_host(url: &str) -> (r: Option<String>)
    ensures
        match r {
            Some(h) => url_host(url@) == Some(h@),
            None => url_host(url@) is None,
        },
{
    match url::Url::parse(url) {
        Ok(parsed) => match parsed.host_str() {
            Some(h) => Some(h.to_string()),
            None => None,
        },
        Err(_) => None,
    }
}

/// Trusted: `getrandom::fill` on sixteen bytes: the bytes where the system's random
/// source gives them, `None` where it reports an error. Which bytes come out is chance
/// and not stated.
#[verifier::external_body]
pub(crate) fn random_bytes_16() -> (r: Option<Vec<u8>>)
    ensures
        r matches Some(b) ==> b@.len() == 16,
{
    let mut bytes = [0u8; 16];
    match getrandom::fill(&mut bytes) {
        Ok(()) => Some(bytes.to_vec()),
        Err(_) => None,
    }
}

/// The bytes of the version-4 UUID built from sixteen random bytes: the high four bits of
/// byte 6 set to the version (4), the high two bits of byte 8 to the RFC 4122 variant (10).
pub open spec fn uuid_v4_bytes(random: Seq<u8>) -> Seq<u8> {
    random.update(6, (random[6] & 0x0fu8) | 0x40u8).update(8, (random[8] & 0x3fu8) | 0x80u8)
}

/// The hyphenated text of that UUID: its bytes in lower-case hexadecimal, with hyphens
/// after the 8th, 12th, 16th and 20th digits.
pub open spec fn uuid_v4_text(random: Seq<u8>) -> Seq<char> {
    let h = hex_text(uuid_v4_bytes(random));
    h.subrange(0, 8) + seq!['-'] + h.subrange(8, 12) + seq!['-'] + h.subrange(12, 16) + seq!['-'] + h.subrange(16, 20)
        + seq!['-'] + h.subrange(20, 32)
}

/// Trusted: `uuid::Builder::from_random_bytes(bytes).into_uuid().to_string()`: the variant
/// and version bits set (`with_variant`, `with_version`), written hyphenated in lower-case
/// hexadecimal (`Display` writes `LowerHex`), so 36 characters, each a lower-case
/// hexadecimal digit or a hyphen.
#[verifier::external_body]
pub(crate) fn uuid_v4_from_random(bytes: &[u8]) -> (r: String)
    requires
        bytes@.len() == 16,
    ensures
        r@ == uuid_v4_text(bytes@),
        r@.len() == 36,
        crate::text::is_ascii_text(r@),
        forall|i: int| 0 <= i < r@.len() ==> (#[trigger] r@[i] == '-' || ('0' <= r@[i] && r@[i] <= '9') || ('a' <= r@[i] && r@[i] <= 'f')),
{
    let mut array = [0u8; 16];
    array.copy_from_slice(bytes);
    uuid::Builder::from_random_bytes(array).into_uuid().to_string()
}

/// A random version-4 UUID, hyphenated (what `uuid::Uuid::new_v4` gives); `None` where the
/// system's random source fails, where `new_v4` would panic.
pub fn new_uuid_v4() -> (r: Option<String>)
    ensures
        r matches Some(u) ==> exists|b: Seq<u8>| b.len() == 16 && u@ == #[trigger] uuid_v4_text(b),
        r matches Some(u) ==> u@.len() == 36 && crate::text::is_ascii_text(u@),
        r matches Some(u) ==> forall|i: int| 0 <= i < u@.len() ==> (#[trigger] u@[i] == '-' || ('0' <= u@[i] && u@[i] <= '9') || ('a' <= u@[i] && u@[i] <= 'f')),
{
    match random_bytes_16() {
        Some(b) => {
            let u = uuid_v4_from_random(b.as_slice());
            assert(u@ == uuid_v4_text(b@));
            Some(u)
        },
        None => None,
    }
}

/// Whether `url::form_urlencoded` writes the byte as it is.
pub open spec fn form_unchanged(b: u8) -> bool {
    b == 42 || b == 45 || b == 46 || (48 <= b <= 57) || (65 <= b <= 90) || b == 95 || (97 <= b
        <= 122)
}

/// How `application/x-www-form-urlencoded` serialization writes one byte.
pub open spec fn form_byte(b: u8) -> Seq<char> {
    if b == 32 {
        seq!['+']
    } else if form_unchanged(b) {
        seq![b as char]
    } else {
        seq!['%', hex_upper((b / 16) as nat), hex_upper((b % 16) as nat)]
    }
}

pub open spec fn form_bytes(data: Seq<u8>) -> Seq<char>
    decreases data.len(),
{
    if data.len() == 0 {
        Seq::empty()
    } else {
        form_bytes(data.drop_last()) + form_byte(data.last())
    }
}

/// `name=value`, both serialized from their UTF-8 bytes.
pub open spec fn form_pair(pair: (Seq<char>, Seq<char>)) -> Seq<char> {
    form_bytes(encode_utf8(pair.0)) + seq!['='] + form_bytes(encode_utf8(pair.1))
}

/// The pairs serialized in order, separated by '&'.
pub open spec fn form_text(pairs: Seq<(Seq<char>, Seq<char>)>) -> Seq<char>
    decreases pairs.len(),
{
    if pairs.len() == 0 {
        Seq::empty()
    } else if pairs.len() == 1 {
        form_pair(pairs[0])
    } else {
        form_text(pairs.drop_last()) + seq!['&'] + form_pair(pairs.last())
    }
}

/// The views of string pairs.
pub open spec fn pair_views(pairs: Seq<(String, String)>) -> Seq<(Seq<char>, Seq<char>)> {
    pairs.map_values(|p: (String, String)| (p.0@, p.1@))
}

/// Trusted: `url::form_urlencoded::Serializer::new(String::new())`, each pair appended
/// with `append_pair` in order, then `finish()`: pairs joined by '&', each `name=value`,
/// bytes `*-._`, digits and ASCII letters kept, space written '+', every other byte `%XX`.
#[verifier::external_body]
pub(crate) fn form_urlencode(pairs: &Vec<(String, String)>) -> (r: String)
    ensures
        r@ == form_text(pair_views(pairs@)),
{
    url::form_urlencoded::Serializer::new(String::new()).extend_pairs(pairs.iter()).finish()
}

/// Trusted: `base64::engine::general_purpose::STANDARD.decode`; its error becomes `None`.
/// Which texts it accepts and what they decode to is named, not stated.
#[verifier::external_body]
pub(crate) fn base64_decode(text: &[u8]) -> (r: Option<Vec<u8>>)
    ensures
        match r {
            Some(bytes) => base64_standard_decoded(text@) == Some(bytes@),
            None => base64_standard_decoded(text@) is None,
        },
{
    match base64::Engine::decode(&base64::engine::general_purpose::STANDARD, text) {
        Ok(bytes) => Some(bytes),
        Err(_) => None,
    }
}

/// Trusted: `hmac::Hmac::<sha2::Sha512>` keyed with `key` (HMAC takes keys of any length),
/// fed `message`, finalized into its 64 bytes. The digest itself is not stated.
#[verifier::external_body]
pub(crate) fn hmac_sha512(key: &[u8], message: &[u8]) -> (tag: Vec<u8>)
    ensures
        tag@ == hmac_sha512_tag(key@, message@),
        tag@.len() == 64,
{
    let mut mac = <hmac::Hmac<sha2::Sha512> as hmac::digest::KeyInit>::new_from_slice(key).unwrap();
    <hmac::Hmac<sha2::Sha512> as hmac::Mac>::update(&mut mac, message);
    <hmac::Hmac<sha2::Sha512> as hmac::Mac>::finalize(mac).into_bytes().to_vec()
}

/// Trusted: `sha2::Sha512` fed `data` and finalized into its 64 bytes. The digest itself
/// is not stated.
#[verifier::external_body]
pub(crate) fn sha512(data: &[u8]) -> (digest: Vec<u8>)
    ensures
        digest@ == sha512_digest(data@),
        digest@.len() == 64,
{
    let mut hasher = <sha2::Sha512 as sha2::Digest>::new();
    <sha2::Sha512 as sha2::Digest>::update(&mut hasher, data);
    <sha2::Sha512 as sha2::Digest>::finalize(hasher).to_vec()
}

/// Trusted: `url::Url::parse(url)` followed by `path()`; `None` when the URL does not parse.
/// Which path a URL has is named, not stated.
#[verifier::external_body]
pub(crate) fn parse_url_path(url: &str) -> (r: Option<String>)
    ensures
        match r {
            Some(p) => url_path(url@) == Some(p@),
            None => url_path(url@) is None,
        },
{
    match url::Url::parse(url) {
        Ok(parsed) => Some(parsed.path().to_string()),
        Err(_) => None,
    }
}

/// Ed25519 signature (RFC 8032, deterministic) of `message` under the 32-byte secret
/// key, as `ed25519_dalek` computes it.
pub uninterp spec fn ed25519_signature(secret_key: Seq<u8>, message: Seq<u8>) -> Seq<u8>;

/// The 32-byte Ed25519 secret key that a PKCS#8 PEM document holds, as `ed25519_dalek`
/// reads it; none where it refuses the document.
pub uninterp spec fn pkcs8_ed25519_secret_key(pem: Seq<char>) -> Option<Seq<u8>>;

/// Trusted: `ed25519_dalek::SigningKey::from_bytes(secret_key)` followed by `Signer::sign`
/// and `Signature::to_bytes`: the 64-byte signature, which depends on the key and the
/// message alone. The signature itself is named, not stated.
#[verifier::external_body]
pub(crate) fn ed25519_sign(secret_key: &[u8], message: &[u8]) -> (signature: Vec<u8>)
    requires
        secret_key@.len() == 32,
    ensures
        signature@ == ed25519_signature(secret_key@, message@),
        signature@.len() == 64,
{
    let mut bytes = [0u8; 32];
    bytes.copy_from_slice(secret_key);
    let signing_key = ed25519_dalek::SigningKey::from_bytes(&bytes);
    ed25519_dalek::Signer::sign(&signing_key, message).to_bytes().to_vec()
}

/// Trusted: `<ed25519_dalek::SigningKey as pkcs8::DecodePrivateKey>::from_pkcs8_pem(pem)`,
/// then `to_bytes`: the 32-byte secret key; its error becomes `None`. Which documents it
/// accepts is named, not stated.
#[verifier::external_body]
pub(crate) fn ed25519_secret_key_from_pkcs8_pem(pem: &str) -> (r: Option<Vec<u8>>)
    ensures
        match r {
            Some(key) => pkcs8_ed25519_secret_key(pem@) == Some(key@) && key@.len() == 32,
            None => pkcs8_ed25519_secret_key(pem@) is None,
        },
{
    match <ed25519_dalek::SigningKey as ed25519_dalek::pkcs8::DecodePrivateKey>::from_pkcs8_pem(pem) {
        Ok(key) => Some(key.to_bytes().to_vec()),
        Err(_) => None,
    }
}

/// Whether PEM text holds a private key that `openssl` reads with the empty passphrase.
pub uninterp spec fn pem_private_key_readable(pem: Seq<u8>) -> bool;

/// Trusted: `openssl::pkey::PKey::private_key_from_pem_passphrase(pem, b"")` succeeds:
/// the text is read with the empty passphrase, so an encrypted key is never asked for on
/// the terminal. `openssl` asserts that the text fits a C `int`. Which texts it reads is
/// named, not stated.
#[verifier::external_body]
pub(crate) fn read_private_key_pem(pem: &[u8]) -> (r: bool)
    requires
        pem@.len() <= i32::MAX,
    ensures
        r == pem_private_key_readable(pem@),
{
    openssl::pkey::PKey::private_key_from_pem_passphrase(pem, b"").is_ok()
}

/// Whether `openssl`'s verifier (SHA-256, PKCS#1 PSS padding, salt as long as the digest)
/// accepts a signature of the message under the public half of the PEM text's private key.
pub uninterp spec fn rsa_pss_sha256_verifies(pem: Seq<u8>, message: Seq<u8>, signature: Seq<u8>) -> bool;

/// Trusted: an `openssl` RSA-PSS signature of the message with SHA-256 and a salt as long
/// as the digest, under the private key of the PEM text (read with the empty passphrase); its errors become `None`. It
/// claims that a signature comes out only where the text reads as a private key, and that
/// it is one the matching verifier accepts for that message. The salt is random, so which
/// signature comes out is not stated, nor when signing a readable key fails.
#[verifier::external_body]
pub(crate) fn rsa_pss_sha256_sign(pem: &[u8], message: &[u8]) -> (r: Option<Vec<u8>>)
    requires
        pem@.len() <= i32::MAX,
    ensures
        r is Some ==> pem_private_key_readable(pem@),
        r matches Some(sig) ==> rsa_pss_sha256_verifies(pem@, message@, sig@),
{
    let key = openssl::pkey::PKey::private_key_from_pem_passphrase(pem, b"").ok()?;
    let mut signer = openssl::sign::Signer::new(openssl::hash::MessageDigest::sha256(), &key).ok()?;
    signer.set_rsa_padding(openssl::rsa::Padding::PKCS1_PSS).ok()?;
    signer.set_rsa_pss_saltlen(openssl::sign::RsaPssSaltlen::DIGEST_LENGTH).ok()?;
    signer.update(message).ok()?;
    signer.sign_to_vec().ok()
}

/// Keccak-256 digest of `data`, as `alloy`'s `keccak256` computes it.
pub uninterp spec fn keccak256_digest(data: Seq<u8>) -> Seq<u8>;

/// Trusted: `alloy::primitives::keccak256(data)`, its 32 bytes. The digest is named, not stated.
#[verifier::external_body]
pub(crate) fn keccak256(data: &[u8]) -> (digest: Vec<u8>)
    ensures
        digest@ == keccak256_digest(data@),
        digest@.len() == 32,
{
    alloy::primitives::keccak256(data).to_vec()
}

/// Whether bytes are a secp256k1 secret key that `alloy`'s local signer accepts.
pub uninterp spec fn secp256k1_secret_key_valid(secret_key: Seq<u8>) -> bool;

/// Trusted: `alloy::signers::local::PrivateKeySigner::from_slice(secret_key)` succeeds.
/// Which keys it accepts is named, not stated.
#[verifier::external_body]
pub(crate) fn check_secp256k1_secret_key(secret_key: &[u8]) -> (r: bool)
    ensures
        r == secp256k1_secret_key_valid(secret_key@),
{
    alloy::signers::local::PrivateKeySigner::from_slice(secret_key).is_ok()
}

/// The address of a secp256k1 secret key as `alloy` writes it: "0x" and the EIP-55
/// checksummed hexadecimal of the key's Ethereum address.
pub uninterp spec fn secp256k1_address_text(secret_key: Seq<u8>) -> Seq<char>;

/// Trusted: `PrivateKeySigner::from_slice(secret_key)` then `address().to_string()`. The
/// key is one the signer accepts, so `from_slice` succeeds. The text is named, not stated.
#[verifier::external_body]
pub(crate) fn secp256k1_address(secret_key: &[u8]) -> (r: String)
    requires
        secp256k1_secret_key_valid(secret_key@),
    ensures
        r@ == secp256k1_address_text(secret_key@),
{
    alloy::signers::local::PrivateKeySigner::from_slice(secret_key).unwrap().address().to_string()
}

/// The recoverable ECDSA signature of a 32-byte hash under a secp256k1 secret key, as
/// `alloy` makes it (deterministic nonces, RFC 6979) and writes it with `as_bytes`: `r`
/// and `s` as 32 big-endian bytes each, then `v` as 27 plus the parity of `y`.
pub uninterp spec fn secp256k1_hash_signature(secret_key: Seq<u8>, hash: Seq<u8>) -> Seq<u8>;

/// Whether `alloy`'s local signer signs the hash under the key: its nonces are derived
/// from the key and the hash alone (RFC 6979), so success depends on nothing else.
pub uninterp spec fn secp256k1_hash_signs(secret_key: Seq<u8>, hash: Seq<u8>) -> bool;

/// Trusted: `SignerSync::sign_hash_sync` of `PrivateKeySigner::from_slice(secret_key)` on the
/// hash, written with `Signature::as_bytes`; its error becomes `None`. It claims the 65
/// bytes are the named signature, that the last is 27 or 28 (`v_byte`), and that whether
/// a signature comes out is the named function of the key and the hash.
#[verifier::external_body]
pub(crate) fn secp256k1_sign_hash(secret_key: &[u8], hash: &[u8]) -> (r: Option<Vec<u8>>)
    requires
        secp256k1_secret_key_valid(secret_key@),
        hash@.len() == 32,
    ensures
        r is Some <==> secp256k1_hash_signs(secret_key@, hash@),
        r matches Some(sig) ==> sig@ == secp256k1_hash_signature(secret_key@, hash@) && sig@.len() == 65 && (
        sig@[64] == 27u8 || sig@[64] == 28u8),
{
    let signer = alloy::signers::local::PrivateKeySigner::from_slice(secret_key).unwrap();
    let digest = alloy::primitives::B256::from_slice(hash);
    match <alloy::signers::local::PrivateKeySigner as alloy::signers::SignerSync>::sign_hash_sync(&signer, &digest) {
        Ok(sig) => Some(sig.as_bytes().to_vec()),
        Err(_) => None,
    }
}

} // verus!
