//! The broker's services over outside crates: RSA-PSS signatures (openssl),
//! base64 transport encoding, the canonical JSON form of identifiers and
//! instants (serde_json), proof-of-work scores (pow), password hashes
//! (bcrypt), and fresh identifiers and challenges (uuid, rand).

use base64::Engine;
use rand::Rng;
use vstd::prelude::*;

verus! {

/// What the standard base64 alphabet decodes `s` to, if it is valid base64.
pub uninterp spec fn base64_decoded(s: Seq<char>) -> Option<Seq<u8>>;

/// The standard base64 text of `b`.
pub uninterp spec fn base64_encoded(b: Seq<u8>) -> Seq<char>;

/// Whether `der` is a DER-encoded RSA public key (SubjectPublicKeyInfo).
pub uninterp spec fn is_rsa_public_key(der: Seq<u8>) -> bool;

/// Whether `signature` is an RSA-PSS signature over the UTF-8 bytes of
/// `plaintext`, with SHA-256 and a 32-byte salt, under the DER public key
/// `key`.
pub uninterp spec fn pss_verifies(key: Seq<u8>, signature: Seq<u8>, plaintext: Seq<char>) -> bool;

/// The JSON text of the UUID whose integer form is `id`.
pub uninterp spec fn json_of_id(id: u128) -> Seq<char>;

/// The JSON text of the UTC instant `nanos` nanoseconds after the epoch.
pub uninterp spec fn json_of_instant(nanos: i64) -> Seq<char>;

/// The proof-of-work score of proof `proof` against the UUID `target`, if
/// the target serialises.
pub uninterp spec fn pow_score_of(proof: u128, target: u128) -> Option<u128>;

/// Whether `password` matches the bcrypt hash `hashed`, if `hashed` is a
/// well-formed bcrypt hash.
pub uninterp spec fn bcrypt_matches(password: Seq<char>, hashed: Seq<char>) -> Option<bool>;

/// Relies on base64's `STANDARD.decode`: the bytes that `s` encodes, or an
/// error for text that is not valid padded base64.
#[verifier::external_body]
fn base64_decode(s: &str) -> (r: Option<Vec<u8>>)
    ensures
        match r {
            Some(b) => base64_decoded(s@) == Some(b@),
            None => base64_decoded(s@) is None,
        },
{
    base64::engine::general_purpose::STANDARD.decode(s).ok()
}

/// Relies on base64's `STANDARD.encode`: the padded base64 text of `b`,
/// four characters for each started group of three bytes (`encoded_len`),
/// which decodes back to `b`.
#[verifier::external_body]
fn base64_encode(b: &[u8]) -> (r: String)
    ensures
        r@ == base64_encoded(b@),
        r@.len() == 4 * ((b@.len() + 2) / 3),
        base64_decoded(r@) == Some(b@),
{
    base64::engine::general_purpose::STANDARD.encode(b)
}

/// Relies on openssl's `Rsa::public_key_from_der`: it accepts exactly the
/// DER-encoded RSA SubjectPublicKeyInfo structures.
#[verifier::external_body]
fn rsa_public_key_parses(der: &[u8]) -> (r: bool)
    ensures
        r == is_rsa_public_key(der@),
{
    openssl::rsa::Rsa::public_key_from_der(der).is_ok()
}

/// Relies on openssl's `PKey::public_key_from_der` and `Verifier` with
/// PKCS#1 PSS padding, SHA-256 and a digest-length salt: whether `signature`
/// signs `plaintext` under `key`; any openssl error counts as no.
#[verifier::external_body]
fn pss_verify(key: &[u8], signature: &[u8], plaintext: &str) -> (r: bool)
    ensures
        r == pss_verifies(key@, signature@, plaintext@),
{
    let pkey = match openssl::pkey::PKey::public_key_from_der(key) {
        Ok(k) => k,
        Err(_) => return false,
    };
    let digest = openssl::hash::MessageDigest::sha256();
    let mut verifier = match openssl::sign::Verifier::new(digest, &pkey) {
        Ok(v) => v,
        Err(_) => return false,
    };
    let padded = verifier.set_rsa_padding(openssl::rsa::Padding::PKCS1_PSS).is_ok()
        && verifier.set_rsa_pss_saltlen(openssl::sign::RsaPssSaltlen::DIGEST_LENGTH).is_ok();
    padded && verifier.verify_oneshot(signature, plaintext.as_bytes()).unwrap_or(false)
}

/// Relies on openssl's `PKey::private_key_from_pem` and `Signer` with PKCS#1
/// PSS padding, SHA-256 and a digest-length salt. The salt is random, so
/// nothing is stated of the signature; an openssl error gives none.
#[verifier::external_body]
fn pss_sign(private_pem: &[u8], plaintext: &str) -> (r: Option<Vec<u8>>) {
    let pkey = openssl::pkey::PKey::private_key_from_pem(private_pem).ok()?;
    let digest = openssl::hash::MessageDigest::sha256();
    let mut signer = openssl::sign::Signer::new(digest, &pkey).ok()?;
    signer.set_rsa_padding(openssl::rsa::Padding::PKCS1_PSS).ok()?;
    signer.set_rsa_pss_saltlen(openssl::sign::RsaPssSaltlen::DIGEST_LENGTH).ok()?;
    signer.sign_oneshot_to_vec(plaintext.as_bytes()).ok()
}

/// Relies on openssl's `Rsa::generate(2048)`, `public_key_to_der` and
/// `private_key_to_pem`: a random key pair, as (SPKI DER public key, PEM
/// private key), whose public half is the DER form that
/// `Rsa::public_key_from_der` reads; an openssl error gives none.
#[verifier::external_body]
fn rsa_generate() -> (r: Option<(Vec<u8>, Vec<u8>)>)
    ensures
        r matches Some(p) ==> is_rsa_public_key(p.0@),
{
    let rsa = openssl::rsa::Rsa::generate(2048).ok()?;
    let public_der = rsa.public_key_to_der().ok()?;
    let private_pem = rsa.private_key_to_pem().ok()?;
    Some((public_der, private_pem))
}

/// Relies on serde_json's `to_string` of a `uuid::Uuid`: its hyphenated
/// lower-case form in quotes. Serialising a UUID cannot fail.
#[verifier::external_body]
fn uuid_json(id: u128) -> (r: String)
    ensures
        r@ == json_of_id(id),
{
    match serde_json::to_string(&uuid::Uuid::from_u128(id)) {
        Ok(s) => s,
        Err(_) => String::new(),
    }
}

/// Relies on serde_json's `to_string` of a `chrono::DateTime<Utc>` made by
/// `from_timestamp_nanos`: its RFC 3339 form in quotes. Serialising an
/// instant cannot fail.
#[verifier::external_body]
fn instant_json(nanos: i64) -> (r: String)
    ensures
        r@ == json_of_instant(nanos),
{
    match serde_json::to_string(&chrono::DateTime::from_timestamp_nanos(nanos)) {
        Ok(s) => s,
        Err(_) => String::new(),
    }
}

/// Relies on pow's `Pow::<Uuid>::score`: the score of the proof `proof`
/// (a `Pow` is its proof number alone) against `target`.
#[verifier::external_body]
fn pow_score(proof: u128, target: u128) -> (r: Option<u128>)
    ensures
        r == pow_score_of(proof, target),
{
    let text = format!("{{\"proof\":{}}}", proof);
    let work: pow::Pow<uuid::Uuid> = serde_json::from_str(&text).ok()?;
    work.score(&uuid::Uuid::from_u128(target)).ok()
}

/// Relies on bcrypt's `hash` with the default cost. The salt is random, so
/// nothing is stated of the hash; a bcrypt error gives none.
#[verifier::external_body]
fn bcrypt_hash(password: &str) -> (r: Option<String>) {
    bcrypt::hash(password, bcrypt::DEFAULT_COST).ok()
}

/// Relies on bcrypt's `verify`: whether `password` matches `hashed`, or an
/// error for a malformed hash.
#[verifier::external_body]
fn bcrypt_verify(password: &str, hashed: &str) -> (r: Option<bool>)
    ensures
        r == bcrypt_matches(password@, hashed@),
{
    bcrypt::verify(password, hashed).ok()
}

/// The UUID, as an integer, that `s` spells, if it spells one.
pub uninterp spec fn parsed_uuid(s: Seq<char>) -> Option<u128>;

/// Relies on uuid's `Uuid::parse_str`: the UUID that `s` spells, in any of
/// the textual forms that the crate reads, or an error.
#[verifier::external_body]
fn uuid_parse(s: &str) -> (r: Option<u128>)
    ensures
        r == parsed_uuid(s@),
{
    uuid::Uuid::parse_str(s).ok().map(|u| u.as_u128())
}

/// Relies on uuid's `Uuid::new_v4`: random bits, with the version bits set
/// to 4 and the variant bits to RFC 4122.
#[verifier::external_body]
fn uuid_v4() -> (r: u128)
    ensures
        r & 0x4000_8000_0000_0000_0000 == 0x4000_8000_0000_0000_0000,
{
    uuid::Uuid::new_v4().as_u128()
}

/// Relies on rand's `Alphanumeric` distribution over `thread_rng`: each
/// character is drawn from `A-Z`, `a-z` and `0-9`.
#[verifier::external_body]
fn random_alphanumeric(len: usize) -> (r: String)
    ensures
        r@.len() == len,
        forall|i: int| 0 <= i < len ==> is_alphanumeric(#[trigger] r@[i]),
{
    let bytes: Vec<u8> = rand::thread_rng().sample_iter(&rand::distributions::Alphanumeric).take(
        len,
    ).collect();
    bytes.into_iter().map(char::from).collect()
}

pub open spec fn is_alphanumeric(c: char) -> bool {
    ('a' <= c && c <= 'z') || ('A' <= c && c <= 'Z') || ('0' <= c && c <= '9')
}

/// Whether `public_key` is the base64 text of a DER RSA public key.
pub open spec fn valid_public_key(public_key: Seq<char>) -> bool {
    match base64_decoded(public_key) {
        Some(der) => is_rsa_public_key(der),
        None => false,
    }
}

/// Whether the base64 `signature` signs `plaintext` under the base64 DER
/// public key `public_key`. Text that is not base64 verifies nothing.
pub open spec fn signature_valid(
    plaintext: Seq<char>,
    signature: Seq<char>,
    public_key: Seq<char>,
) -> bool {
    match (base64_decoded(signature), base64_decoded(public_key)) {
        (Some(sig), Some(key)) => pss_verifies(key, sig, plaintext),
        _ => false,
    }
}

/// Whether `s` is the base64 text of some bytes.
pub open spec fn is_base64_text(s: Seq<char>) -> bool {
    exists|b: Seq<u8>| base64_encoded(b) == s
}

/// Signatures, keys and their transport encoding.
pub trait CryptographyService {
    fn validate_public_key(&self, public_key: &str) -> (r: bool)
        ensures
            r == valid_public_key(public_key@),
    ;

    fn validate_signature(&self, plaintext: &str, signature_base64: &str, public_key: &str) -> (r:
        bool)
        ensures
            r == signature_valid(plaintext@, signature_base64@, public_key@),
    ;

    /// A fresh key pair, as (base64 public key, base64 private key); the
    /// public key passes `validate_public_key`.
    fn generate_key_pair(&self) -> (r: Option<(String, String)>)
        ensures
            r matches Some(p) ==> valid_public_key(p.0@) && is_base64_text(p.1@),
    ;

    /// The base64 signature of `plaintext` under the base64 PEM private key
    /// `private_key`; none where the key does not decode, openssl fails, or
    /// the signature is empty.
    fn produce_signature(&self, plaintext: &str, private_key: &str) -> (r: Option<String>)
        ensures
            base64_decoded(private_key@) is None ==> r is None,
            r matches Some(s) ==> is_base64_text(s@) && s@.len() > 0,
    ;
}

/// RSA-PSS over SHA-256 by openssl, keys and signatures in base64.
pub struct OpensslCryptographyService;

impl CryptographyService for OpensslCryptographyService {
    fn validate_public_key(&self, public_key: &str) -> (r: bool) {
        match base64_decode(public_key) {
            Some(der) => rsa_public_key_parses(der.as_slice()),
            None => false,
        }
    }

    fn validate_signature(&self, plaintext: &str, signature_base64: &str, public_key: &str) -> (r:
        bool) {
        let signature = match base64_decode(signature_base64) {
            Some(b) => b,
            None => return false,
        };
        let key = match base64_decode(public_key) {
            Some(b) => b,
            None => return false,
        };
        pss_verify(key.as_slice(), signature.as_slice(), plaintext)
    }

    fn generate_key_pair(&self) -> (r: Option<(String, String)>) {
        match rsa_generate() {
            Some((public_der, private_pem)) => {
                let public_key = base64_encode(public_der.as_slice());
                let private_key = base64_encode(private_pem.as_slice());
                Some((public_key, private_key))
            },
            None => None,
        }
    }

    fn produce_signature(&self, plaintext: &str, private_key: &str) -> (r: Option<String>) {
        let pem = match base64_decode(private_key) {
            Some(b) => b,
            None => return None,
        };
        match pss_sign(pem.as_slice(), plaintext) {
            Some(signature) => if signature.len() == 0 {
                None
            } else {
                Some(base64_encode(signature.as_slice()))
            },
            None => None,
        }
    }
}

/// Password hashing; not used to authenticate, which goes by signatures.
pub trait PasswordService {
    /// A salted hash of `password`; none where hashing fails.
    fn hash_password(&self, password: String) -> (r: Option<String>);

    /// Whether `password` matches `hashed_password`; a malformed hash
    /// matches nothing.
    fn verify_password(&self, password: String, hashed_password: &str) -> (r: bool)
        ensures
            r == (bcrypt_matches(password@, hashed_password@) == Some(true)),
    ;
}

/// Passwords hashed with bcrypt at its default cost.
pub struct BcryptPasswordService;

impl PasswordService for BcryptPasswordService {
    fn hash_password(&self, password: String) -> (r: Option<String>) {
        bcrypt_hash(password.as_str())
    }

    fn verify_password(&self, password: String, hashed_password: &str) -> (r: bool) {
        match bcrypt_verify(password.as_str(), hashed_password) {
            Some(matched) => matched,
            None => false,
        }
    }
}

/// The canonical JSON forms of the values that stamps sign.
pub struct JsonService;

/// The JSON text of an optional instant: `null` when absent.
pub open spec fn json_of_optional_instant(t: Option<i64>) -> Seq<char> {
    match t {
        Some(nanos) => json_of_instant(nanos),
        None => "null"@,
    }
}

impl JsonService {
    pub fn serialize_id(&self, id: u128) -> (r: String)
        ensures
            r@ == json_of_id(id),
    {
        uuid_json(id)
    }

    pub fn serialize_instant(&self, nanos: i64) -> (r: String)
        ensures
            r@ == json_of_instant(nanos),
    {
        instant_json(nanos)
    }

    pub fn serialize_optional_instant(&self, t: Option<i64>) -> (r: String)
        ensures
            r@ == json_of_optional_instant(t),
    {
        match t {
            Some(nanos) => instant_json(nanos),
            None => String::from_str("null"),
        }
    }
}

/// The score of a proof of work against `target`; a target that does not
/// serialise scores 0.
pub open spec fn work_score(proof: u128, target: u128) -> u128 {
    match pow_score_of(proof, target) {
        Some(s) => s,
        None => 0,
    }
}

/// A proof of work, as the number that the prover found.
#[derive(Clone, Copy, Debug)]
pub struct ProofOfWork {
    pub proof: u128,
}

impl ProofOfWork {
    pub fn score(&self, target: u128) -> (r: u128)
        ensures
            r == work_score(self.proof, target),
    {
        match pow_score(self.proof, target) {
            Some(s) => s,
            None => 0,
        }
    }
}

/// The UUID that `s` spells, as an integer.
pub fn parse_identifier(s: &str) -> (r: Option<u128>)
    ensures
        r == parsed_uuid(s@),
{
    uuid_parse(s)
}

/// A fresh random identifier (a version 4 UUID); never the system issuer's.
pub fn new_identifier() -> (r: u128)
    ensures
        r != 0,
{
    let r = uuid_v4();
    assert(r & 0x4000_8000_0000_0000_0000 == 0x4000_8000_0000_0000_0000 ==> r != 0) by (bit_vector);
    r
}

/// A fresh random session challenge: 24 letters and digits.
pub fn new_challenge() -> (r: String)
    ensures
        r@.len() == 24,
        forall|i: int| 0 <= i < 24 ==> is_alphanumeric(#[trigger] r@[i]),
{
    random_alphanumeric(24)
}

} // verus!
