//! Trusted boundary to the cryptographic and encoding crates.
//!
//! Every function here is `external_body`: its contract states what the
//! underlying call returns, and nothing in this crate is proved beyond what
//! these contracts say. Results that have no short mathematical description
//! (a cipher's output, a digest) are given names by bodiless spec functions,
//! so that callers' contracts can still be exact.

use vstd::prelude::*;

use aes_gcm::aead::{Aead, AeadCore, KeyInit};
use aes_gcm::{Aes256Gcm, Key, Nonce};
use base64::engine::general_purpose::STANDARD;
use base64::Engine;
use rand::rngs::OsRng;
use rand::Rng;
use rsa::pkcs8::{DecodePrivateKey, DecodePublicKey, EncodePrivateKey, EncodePublicKey};
use rsa::sha2::Sha256;
use rsa::{Oaep, RsaPrivateKey, RsaPublicKey};
use std::time::{SystemTime, UNIX_EPOCH};

verus! {

/// The PKCS#8 public-key document derived from a PKCS#8 private-key document:
/// what `rsa::RsaPublicKey::from(&k)` encodes to, for the private key `k` that
/// the bytes parse to, or an empty sequence when they parse to none.
pub uninterp spec fn rsa_public_of(private_der: Seq<u8>) -> Seq<u8>;

/// Whether `rsa::RsaPublicKey::from_public_key_der` accepts the bytes and the
/// resulting key passes the crate's own sanity check on public keys.
pub uninterp spec fn rsa_pub_wf(public_der: Seq<u8>) -> bool;

/// What `rsa::RsaPublicKey::size` returns for the key the bytes encode:
/// the modulus size in bytes.
pub uninterp spec fn rsa_pub_size(public_der: Seq<u8>) -> nat;

/// What RSA-OAEP (SHA-256) decryption under the private key encoded by
/// `private_der` returns for `ciphertext`: `None` stands for any failure
/// (unparsable key, bad padding, wrong key), which the rsa crate reports as
/// an opaque error.
pub uninterp spec fn rsa_oaep_open(private_der: Seq<u8>, ciphertext: Seq<u8>) -> Option<Seq<u8>>;

/// What AES-256-GCM decryption (empty associated data) returns: the plaintext
/// when the authentication tag verifies, `None` otherwise.
pub uninterp spec fn aes_gcm_open(key: Seq<u8>, nonce: Seq<u8>, ciphertext: Seq<u8>) -> Option<Seq<u8>>;

/// What strict standard-alphabet base64 decoding returns; `None` stands for a
/// rejected input.
pub uninterp spec fn b64_decoded(text: Seq<char>) -> Option<Seq<u8>>;

/// The BLAKE3 digest of the data: 32 bytes, a function of the data alone.
pub uninterp spec fn blake3_of(data: Seq<u8>) -> Seq<u8>;

/// The greatest plaintext length (bytes) that AES-GCM accepts: 2^36.
pub const AES_GCM_MAX_PLAINTEXT: u64 = 68719476736;

/// The byte overhead of OAEP with SHA-256: 2 * 32 + 2.
pub const OAEP_SHA256_OVERHEAD: u64 = 66;

/// Relies on `rsa::RsaPrivateKey::new` (a fresh key with a modulus of exactly
/// `bits` bits), `rsa::RsaPublicKey::from`, and the PKCS#8 DER encoders of
/// both; the encoders are deterministic, so the public document equals
/// `rsa_public_of` of the private one.
#[verifier::external_body]
pub(crate) fn rsa_generate(bits: usize) -> (r: Result<(Vec<u8>, Vec<u8>), ()>)
    requires
        bits == 4096,
    ensures
        r matches Ok(pair) ==> {
            &&& pair.1@ == rsa_public_of(pair.0@)
            &&& rsa_pub_wf(pair.1@)
            &&& rsa_pub_size(pair.1@) == 512
        },
{
    let mut rng = OsRng;
    let private_key = match RsaPrivateKey::new(&mut rng, bits) {
        Ok(k) => k,
        Err(_) => return Err(()),
    };
    let public_key = RsaPublicKey::from(&private_key);
    let sk_der = match private_key.to_pkcs8_der() {
        Ok(d) => d.as_bytes().to_vec(),
        Err(_) => return Err(()),
    };
    let pk_der = match public_key.to_public_key_der() {
        Ok(d) => d.into_vec(),
        Err(_) => return Err(()),
    };
    Ok((sk_der, pk_der))
}

/// Relies on `rsa::RsaPublicKey::encrypt` with `Oaep::new::<Sha256>`: it fails
/// exactly when the key is rejected or the message exceeds the modulus minus
/// the OAEP overhead; on success the ciphertext is modulus-sized, and OAEP
/// correctness makes any matching private key recover the message.
#[verifier::external_body]
pub(crate) fn rsa_wrap(public_der: &Vec<u8>, msg: &Vec<u8>) -> (r: Result<Vec<u8>, ()>)
    ensures
        r is Err <==> !(rsa_pub_wf(public_der@) && msg@.len() + OAEP_SHA256_OVERHEAD
            <= rsa_pub_size(public_der@)),
        r matches Ok(ct) ==> {
            &&& ct@.len() == rsa_pub_size(public_der@)
            &&& forall|sk: Seq<u8>|
                #[trigger] rsa_public_of(sk) == public_der@ ==> rsa_oaep_open(sk, ct@)
                    == Some(msg@)
        },
{
    let key = match RsaPublicKey::from_public_key_der(public_der) {
        Ok(k) => k,
        Err(_) => return Err(()),
    };
    let mut rng = OsRng;
    key.encrypt(&mut rng, Oaep::new::<Sha256>(), msg.as_slice()).map_err(|_| ())
}

/// Relies on `rsa::RsaPrivateKey::decrypt` with `Oaep::new::<Sha256>`, which
/// is deterministic in the key and the ciphertext; every failure (unparsable
/// key document included) is reported as the opaque `None`.
#[verifier::external_body]
pub(crate) fn rsa_unwrap(private_der: &Vec<u8>, ciphertext: &Vec<u8>) -> (r: Option<Vec<u8>>)
    ensures
        r matches Some(v) ==> rsa_oaep_open(private_der@, ciphertext@) == Some(v@),
        r is None ==> rsa_oaep_open(private_der@, ciphertext@) is None,
{
    let key = match RsaPrivateKey::from_pkcs8_der(private_der) {
        Ok(k) => k,
        Err(_) => return None,
    };
    key.decrypt(Oaep::new::<Sha256>(), ciphertext).ok()
}

/// Relies on `aes_gcm::aead::KeyInit::generate_key` drawing an AES-256 key
/// from the operating system's secure source.
#[verifier::external_body]
pub(crate) fn aes_generate_key() -> (r: Vec<u8>)
    ensures
        r@.len() == 32,
{
    Aes256Gcm::generate_key(OsRng).to_vec()
}

/// Relies on `aes_gcm::aead::AeadCore::generate_nonce` drawing a 96-bit nonce
/// from the operating system's secure source.
#[verifier::external_body]
pub(crate) fn aes_generate_nonce() -> (r: Vec<u8>)
    ensures
        r@.len() == 12,
{
    Aes256Gcm::generate_nonce(&mut OsRng).to_vec()
}

/// Relies on `aes_gcm::aead::Aead::encrypt` for AES-256-GCM: it fails exactly
/// when the plaintext is over the algorithm's length ceiling; the output is
/// the ciphertext with the 16-byte tag appended, and decrypting it under the
/// same key and nonce returns the plaintext.
#[verifier::external_body]
pub(crate) fn aes_seal(key: &Vec<u8>, nonce: &Vec<u8>, plaintext: &[u8]) -> (r: Result<
    Vec<u8>,
    (),
>)
    requires
        key@.len() == 32,
        nonce@.len() == 12,
    ensures
        r is Err <==> plaintext@.len() > AES_GCM_MAX_PLAINTEXT,
        r matches Ok(ct) ==> {
            &&& ct@.len() == plaintext@.len() + 16
            &&& aes_gcm_open(key@, nonce@, ct@) == Some(plaintext@)
        },
{
    let cipher = Aes256Gcm::new(Key::<Aes256Gcm>::from_slice(key.as_slice()));
    cipher.encrypt(Nonce::from_slice(nonce.as_slice()), plaintext).map_err(|_| ())
}

/// Relies on `aes_gcm::aead::Aead::decrypt` for AES-256-GCM, deterministic in
/// key, nonce and ciphertext; `None` covers every failure, tag mismatch above
/// all, and no partial plaintext is ever returned.
#[verifier::external_body]
pub(crate) fn aes_open(key: &Vec<u8>, nonce: &Vec<u8>, ciphertext: &Vec<u8>) -> (r: Option<
    Vec<u8>,
>)
    requires
        key@.len() == 32,
        nonce@.len() == 12,
    ensures
        r matches Some(v) ==> aes_gcm_open(key@, nonce@, ciphertext@) == Some(v@),
        r is None ==> aes_gcm_open(key@, nonce@, ciphertext@) is None,
{
    let cipher = Aes256Gcm::new(Key::<Aes256Gcm>::from_slice(key.as_slice()));
    cipher.decrypt(Nonce::from_slice(nonce.as_slice()), ciphertext.as_slice()).ok()
}

/// Relies on `base64::Engine::encode` with the standard alphabet; decoding
/// what it produced gives the original bytes back.
#[verifier::external_body]
pub(crate) fn b64_encode(data: &Vec<u8>) -> (r: String)
    ensures
        b64_decoded(r@) == Some(data@),
{
    STANDARD.encode(data)
}

/// Relies on `base64::Engine::decode` with the standard alphabet, a
/// deterministic function of the text that rejects malformed input.
#[verifier::external_body]
pub(crate) fn b64_decode(text: &str) -> (r: Option<Vec<u8>>)
    ensures
        r matches Some(v) ==> b64_decoded(text@) == Some(v@),
        r is None ==> b64_decoded(text@) is None,
{
    STANDARD.decode(text).ok()
}

/// Relies on `hex::encode`: two lowercase hexadecimal digits per byte, high
/// nibble first, as `hex_of` spells out.
#[verifier::external_body]
pub(crate) fn hex_encode(data: &Vec<u8>) -> (r: String)
    ensures
        r@ == hex_of(data@),
{
    hex::encode(data)
}

/// Relies on `blake3::hash`: a 32-byte digest that depends on the data alone.
#[verifier::external_body]
pub(crate) fn blake3_hash(data: &[u8]) -> (r: Vec<u8>)
    ensures
        r@ == blake3_of(data@),
        r@.len() == 32,
{
    blake3::hash(data).as_bytes().to_vec()
}

/// Relies on `rand::Rng::gen` over the operating system's secure source for
/// 32 bytes of fresh entropy.
#[verifier::external_body]
pub(crate) fn random_bytes_32() -> (r: Vec<u8>)
    ensures
        r@.len() == 32,
{
    let bytes: [u8; 32] = OsRng.gen();
    bytes.to_vec()
}

/// Relies on `alloc::string::String::from_utf8`, which succeeds exactly on
/// valid UTF-8 and then returns the decoded characters.
#[verifier::external_body]
pub(crate) fn bytes_to_string(bytes: Vec<u8>) -> (r: Result<String, ()>)
    ensures
        r matches Ok(s) ==> vstd::utf8::valid_utf8(bytes@) && s@ == vstd::utf8::decode_utf8(
            bytes@,
        ),
        r is Err ==> !vstd::utf8::valid_utf8(bytes@),
{
    String::from_utf8(bytes).map_err(|_| ())
}

/// Relies on `std::time::SystemTime::now`; seconds since the Unix epoch, or 0
/// for a clock set before it. Nothing can be promised of a clock reading.
#[verifier::external_body]
pub(crate) fn now_unix_seconds() -> u64 {
    match SystemTime::now().duration_since(UNIX_EPOCH) {
        Ok(d) => d.as_secs(),
        Err(_) => 0,
    }
}

#[verifier::external_type_specification]
#[verifier::external_body]
pub struct ExInstant(std::time::Instant);

/// Relies on `std::time::Instant::now`. Nothing can be promised of a clock
/// reading.
#[verifier::external_body]
pub(crate) fn clock_now() -> std::time::Instant {
    std::time::Instant::now()
}

/// Relies on `std::time::Instant::elapsed`, converted to whole nanoseconds,
/// saturating at `u64::MAX`. Nothing can be promised of a clock reading.
#[verifier::external_body]
pub(crate) fn clock_elapsed_nanos(start: &std::time::Instant) -> u64 {
    let nanos = start.elapsed().as_nanos();
    if nanos > u64::MAX as u128 {
        u64::MAX
    } else {
        nanos as u64
    }
}

/// Relies on `String::from_iter` over characters: the string holds exactly
/// the characters handed in, in order.
#[verifier::external_body]
pub(crate) fn chars_to_string(chars: &Vec<char>) -> (r: String)
    ensures
        r@ == chars@,
{
    chars.iter().collect()
}

/// A lowercase hexadecimal digit for a value below 16.
pub open spec fn hex_digit_char(n: int) -> char {
    if n == 0 {
        '0'
    } else if n == 1 {
        '1'
    } else if n == 2 {
        '2'
    } else if n == 3 {
        '3'
    } else if n == 4 {
        '4'
    } else if n == 5 {
        '5'
    } else if n == 6 {
        '6'
    } else if n == 7 {
        '7'
    } else if n == 8 {
        '8'
    } else if n == 9 {
        '9'
    } else if n == 10 {
        'a'
    } else if n == 11 {
        'b'
    } else if n == 12 {
        'c'
    } else if n == 13 {
        'd'
    } else if n == 14 {
        'e'
    } else {
        'f'
    }
}

/// Lowercase hexadecimal encoding: two digits per byte, high nibble first.
pub open spec fn hex_of(data: Seq<u8>) -> Seq<char> {
    Seq::new(
        data.len() * 2,
        |i: int|
            if i % 2 == 0 {
                hex_digit_char((data[i / 2] >> 4u8) as int)
            } else {
                hex_digit_char((data[i / 2] & 0xfu8) as int)
            },
    )
}

/// Whether the character is a lowercase hexadecimal digit.
pub open spec fn is_hex_char(c: char) -> bool {
    ('0' <= c && c <= '9') || ('a' <= c && c <= 'f')
}

/// Every character of a hexadecimal encoding is a lowercase hexadecimal
/// digit, and there are two per byte.
pub proof fn lemma_hex_of_chars(data: Seq<u8>)
    ensures
        hex_of(data).len() == data.len() * 2,
        forall|i: int| 0 <= i < hex_of(data).len() ==> is_hex_char(#[trigger] hex_of(data)[i]),
{
    assert forall|i: int| 0 <= i < hex_of(data).len() implies is_hex_char(
        #[trigger] hex_of(data)[i],
    ) by {
        let b = data[i / 2];
        assert((b >> 4u8) < 16 && (b & 0xfu8) < 16) by (bit_vector);
    }
}

} // verus!
