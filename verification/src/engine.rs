//! The hybrid encryption engine: a fresh AES-256-GCM key encrypts each
//! message, and the recipient's RSA-4096 public key wraps that AES key with
//! OAEP (SHA-256) padding. The envelope carries everything a holder of the
//! matching private key needs to recover the plaintext.

use crate::primitives::aes_gcm_open;
use crate::primitives::aes_generate_key;
use crate::primitives::aes_generate_nonce;
use crate::primitives::aes_open;
use crate::primitives::aes_seal;
use crate::primitives::b64_decode;
use crate::primitives::b64_decoded;
use crate::primitives::b64_encode;
use crate::primitives::blake3_hash;
use crate::primitives::blake3_of;
use crate::primitives::bytes_to_string;
use crate::primitives::hex_encode;
use crate::primitives::hex_of;
use crate::primitives::is_hex_char;
use crate::primitives::lemma_hex_of_chars;
use crate::primitives::now_unix_seconds;
use crate::primitives::random_bytes_32;
use crate::primitives::rsa_generate;
use crate::primitives::rsa_oaep_open;
use crate::primitives::rsa_pub_size;
use crate::primitives::rsa_pub_wf;
use crate::primitives::rsa_public_of;
use crate::primitives::rsa_unwrap;
use crate::primitives::rsa_wrap;
use crate::primitives::AES_GCM_MAX_PLAINTEXT;
use crate::primitives::OAEP_SHA256_OVERHEAD;
use vstd::prelude::*;
use vstd::utf8::decode_utf8;
use vstd::utf8::encode_utf8;
use vstd::utf8::valid_utf8;

verus! {

/// Why an engine operation failed. Unwrap failures are opaque on purpose: the
/// same variant covers every OAEP rejection, so a caller cannot distinguish a
/// wrong key from a corrupted wrapped key.
#[derive(Debug, Clone, Copy, PartialEq, Eq, Structural)]
pub enum EncryptionError {
    /// The random source or primality search failed while producing a key pair.
    KeyGenerationError,
    /// Wrapping the one-time AES key under the recipient's public key failed.
    AsymmetricEncryptError,
    /// The bulk authenticated encryption itself failed.
    SymmetricEncryptError,
    /// A transport encoding in the envelope did not decode.
    DecodingError,
    /// The wrapped key did not unwrap under the offered private key.
    KeyUnwrapError,
    /// The unwrapped key is not exactly 32 bytes.
    InvalidKeyMaterial,
    /// The decoded nonce is not exactly 12 bytes.
    InvalidNonce,
    /// The authentication tag did not verify: tampering or a forged envelope.
    IntegrityError,
    /// The decrypted bytes are not the UTF-8 text the caller asked for.
    InvalidContentEncoding,
}

impl EncryptionError {
    /// A short description of the failure.
    pub fn describe(&self) -> (r: &'static str)
        ensures
            r@ == error_text(*self),
    {
        match self {
            EncryptionError::KeyGenerationError => "key pair generation failed",
            EncryptionError::AsymmetricEncryptError => "wrapping the symmetric key failed",
            EncryptionError::SymmetricEncryptError => "symmetric encryption failed",
            EncryptionError::DecodingError => "envelope field is not valid base64",
            EncryptionError::KeyUnwrapError => "symmetric key did not unwrap",
            EncryptionError::InvalidKeyMaterial => "unwrapped key has the wrong length",
            EncryptionError::InvalidNonce => "nonce has the wrong length",
            EncryptionError::IntegrityError => "authentication tag mismatch",
            EncryptionError::InvalidContentEncoding => "decrypted content is not UTF-8",
        }
    }
}

/// The description each error carries.
pub open spec fn error_text(e: EncryptionError) -> Seq<char> {
    match e {
        EncryptionError::KeyGenerationError => "key pair generation failed"@,
        EncryptionError::AsymmetricEncryptError => "wrapping the symmetric key failed"@,
        EncryptionError::SymmetricEncryptError => "symmetric encryption failed"@,
        EncryptionError::DecodingError => "envelope field is not valid base64"@,
        EncryptionError::KeyUnwrapError => "symmetric key did not unwrap"@,
        EncryptionError::InvalidKeyMaterial => "unwrapped key has the wrong length"@,
        EncryptionError::InvalidNonce => "nonce has the wrong length"@,
        EncryptionError::IntegrityError => "authentication tag mismatch"@,
        EncryptionError::InvalidContentEncoding => "decrypted content is not UTF-8"@,
    }
}

/// An RSA public key as its PKCS#8 DER document. The engine accepts any
/// bytes here and reports a wrap failure for documents that are no key.
pub struct PublicKey {
    der: Vec<u8>,
}

impl View for PublicKey {
    type V = Seq<u8>;

    closed spec fn view(&self) -> Seq<u8> {
        self.der@
    }
}

impl PublicKey {
    /// Wraps an existing PKCS#8 public-key document.
    pub fn from_der(der: Vec<u8>) -> (r: PublicKey)
        ensures
            r@ == der@,
    {
        PublicKey { der }
    }

    /// The PKCS#8 document, for export.
    pub fn der_bytes(&self) -> (r: &Vec<u8>)
        ensures
            r@ == self@,
    {
        &self.der
    }
}

/// An RSA private key as its PKCS#8 DER document. Hold it exclusively and
/// drop it as soon as it is no longer needed.
pub struct PrivateKey {
    der: Vec<u8>,
}

impl View for PrivateKey {
    type V = Seq<u8>;

    closed spec fn view(&self) -> Seq<u8> {
        self.der@
    }
}

impl PrivateKey {
    /// Wraps an existing PKCS#8 private-key document.
    pub fn from_der(der: Vec<u8>) -> (r: PrivateKey)
        ensures
            r@ == der@,
    {
        PrivateKey { der }
    }

    /// The PKCS#8 document, for protected storage.
    pub fn der_bytes(&self) -> (r: &Vec<u8>)
        ensures
            r@ == self@,
    {
        &self.der
    }
}

/// Whether the private key is the one the public key was derived from.
pub open spec fn keys_match(private_der: Seq<u8>, public_der: Seq<u8>) -> bool {
    rsa_public_of(private_der) == public_der
}

/// One encrypted message in its transport shape: every binary field is
/// base64 text, and the envelope is self-describing up to the private key.
#[derive(Debug)]
pub struct EncryptedMessage {
    /// AES-256-GCM output: ciphertext with the 16-byte tag appended, base64.
    pub encrypted_content: String,
    /// The one-time AES key, wrapped under the recipient's RSA key, base64.
    pub encrypted_symmetric_key: String,
    /// The 96-bit GCM nonce, base64.
    pub nonce: String,
    /// Seconds since the Unix epoch; informational only.
    pub timestamp: u64,
    /// 256 bits of correlation entropy, lowercase hex.
    pub message_id: String,
    /// Envelope schema tag.
    pub version: String,
}

/// The envelope schema tag this engine writes.
pub open spec fn version_tag() -> Seq<char> {
    "3.0-rust"@
}

/// What ties an envelope to the public key and plaintext it was made from:
/// each field decodes, the wrapped key is modulus-sized, any matching private
/// key unwraps it to the one AES key under which the content opens to the
/// plaintext.
pub open spec fn envelope_for(env: EncryptedMessage, public_der: Seq<u8>, plaintext: Seq<u8>) -> bool {
    &&& b64_decoded(env.encrypted_content@) is Some
    &&& b64_decoded(env.encrypted_symmetric_key@) is Some
    &&& b64_decoded(env.nonce@) is Some
    &&& b64_decoded(env.encrypted_symmetric_key@)->0.len() == rsa_pub_size(public_der)
    &&& b64_decoded(env.nonce@)->0.len() == 12
    &&& forall|sk: Seq<u8>|
        #[trigger] rsa_public_of(sk) == public_der ==> {
            let unwrapped = rsa_oaep_open(sk, b64_decoded(env.encrypted_symmetric_key@)->0);
            &&& unwrapped is Some
            &&& unwrapped->0.len() == 32
            &&& aes_gcm_open(unwrapped->0, b64_decoded(env.nonce@)->0, b64_decoded(env.encrypted_content@)->0)
                == Some(plaintext)
        }
}

/// What decrypting an envelope's fields with a private key yields, step by
/// step: decode the three base64 fields, unwrap the AES key, check its and
/// the nonce's length, open the authenticated ciphertext.
pub open spec fn decrypt_bytes_spec(
    content_text: Seq<char>,
    wrapped_text: Seq<char>,
    nonce_text: Seq<char>,
    private_der: Seq<u8>,
) -> Result<Seq<u8>, EncryptionError> {
    if b64_decoded(content_text) is None || b64_decoded(wrapped_text) is None || b64_decoded(
        nonce_text,
    ) is None {
        Err(EncryptionError::DecodingError)
    } else {
        let ciphertext = b64_decoded(content_text)->0;
        let wrapped = b64_decoded(wrapped_text)->0;
        let nonce = b64_decoded(nonce_text)->0;
        if rsa_oaep_open(private_der, wrapped) is None {
            Err(EncryptionError::KeyUnwrapError)
        } else {
            let key = rsa_oaep_open(private_der, wrapped)->0;
            if key.len() != 32 {
                Err(EncryptionError::InvalidKeyMaterial)
            } else if nonce.len() != 12 {
                Err(EncryptionError::InvalidNonce)
            } else if aes_gcm_open(key, nonce, ciphertext) is None {
                Err(EncryptionError::IntegrityError)
            } else {
                Ok(aes_gcm_open(key, nonce, ciphertext)->0)
            }
        }
    }
}

/// `decrypt_bytes_spec`, narrowed to UTF-8 text.
pub open spec fn decrypt_spec(
    content_text: Seq<char>,
    wrapped_text: Seq<char>,
    nonce_text: Seq<char>,
    private_der: Seq<u8>,
) -> Result<Seq<char>, EncryptionError> {
    match decrypt_bytes_spec(content_text, wrapped_text, nonce_text, private_der) {
        Err(e) => Err(e),
        Ok(plaintext) => if valid_utf8(plaintext) {
            Ok(decode_utf8(plaintext))
        } else {
            Err(EncryptionError::InvalidContentEncoding)
        },
    }
}

/// The digest string `secure_hash` returns for the given text.
pub open spec fn secure_hash_spec(data: Seq<char>) -> Seq<char> {
    hex_of(blake3_of(encode_utf8(data)))
}

/// The stateless hybrid encryption engine; it holds only the fixed modulus
/// size of the key pairs it generates.
pub struct RustEncryptionEngine {
    rsa_key_size: usize,
}

impl RustEncryptionEngine {
    /// The engine is configured for 4096-bit RSA key pairs.
    pub closed spec fn wf(&self) -> bool {
        self.rsa_key_size == 4096
    }

    /// An engine for 4096-bit RSA key pairs.
    pub fn new() -> (r: Self)
        ensures
            r.wf(),
    {
        RustEncryptionEngine { rsa_key_size: 4096 }
    }

    /// Produces a fresh 4096-bit RSA key pair from the secure random source.
    /// The two halves match, and the public modulus is 512 bytes.
    pub fn generate_rsa_keypair(&self) -> (r: Result<(PrivateKey, PublicKey), EncryptionError>)
        requires
            self.wf(),
        ensures
            r matches Ok(pair) ==> {
                &&& keys_match(pair.0@, pair.1@)
                &&& rsa_pub_wf(pair.1@)
                &&& rsa_pub_size(pair.1@) == 512
            },
            r matches Err(e) ==> e == EncryptionError::KeyGenerationError,
    {
        match rsa_generate(self.rsa_key_size) {
            Ok((sk_der, pk_der)) => Ok(
                (PrivateKey::from_der(sk_der), PublicKey::from_der(pk_der)),
            ),
            Err(_) => Err(EncryptionError::KeyGenerationError),
        }
    }

    /// Encrypts an arbitrary byte payload for the holder of the private key
    /// matching `public_key`. Succeeds on every well-formed public key large
    /// enough for the OAEP wrap, plaintext length permitting; the envelope it
    /// returns decrypts back to `plaintext` under any matching private key.
    pub fn encrypt_bytes(&self, plaintext: &[u8], public_key: &PublicKey) -> (r: Result<
        EncryptedMessage,
        EncryptionError,
    >)
        ensures
            r matches Ok(env) ==> {
                &&& envelope_for(env, public_key@, plaintext@)
                &&& env.version@ == version_tag()
                &&& env.message_id@.len() == 64
                &&& forall|i: int|
                    0 <= i < env.message_id@.len() ==> is_hex_char(#[trigger] env.message_id@[i])
            },
            r matches Err(e) ==> {
                ||| (e == EncryptionError::SymmetricEncryptError && plaintext@.len()
                    > AES_GCM_MAX_PLAINTEXT)
                ||| (e == EncryptionError::AsymmetricEncryptError && !(rsa_pub_wf(public_key@)
                    && 32 + OAEP_SHA256_OVERHEAD <= rsa_pub_size(public_key@)))
            },
            rsa_pub_wf(public_key@) && 32 + OAEP_SHA256_OVERHEAD <= rsa_pub_size(public_key@)
                && plaintext@.len() <= AES_GCM_MAX_PLAINTEXT ==> r is Ok,
    {
        let aes_key = aes_generate_key();
        let nonce = aes_generate_nonce();
        let ciphertext = match aes_seal(&aes_key, &nonce, plaintext) {
            Ok(c) => c,
            Err(_) => {
                return Err(EncryptionError::SymmetricEncryptError);
            },
        };
        let wrapped = match rsa_wrap(&public_key.der, &aes_key) {
            Ok(w) => w,
            Err(_) => {
                return Err(EncryptionError::AsymmetricEncryptError);
            },
        };
        let message_id = self.generate_secure_id();
        Ok(
            EncryptedMessage {
                encrypted_content: b64_encode(&ciphertext),
                encrypted_symmetric_key: b64_encode(&wrapped),
                nonce: b64_encode(&nonce),
                timestamp: now_unix_seconds(),
                message_id,
                version: "3.0-rust".to_owned(),
            },
        )
    }

    /// Encrypts a text message: its UTF-8 bytes go through `encrypt_bytes`.
    pub fn encrypt_message(&self, message: &str, rsa_public_key: &PublicKey) -> (r: Result<
        EncryptedMessage,
        EncryptionError,
    >)
        ensures
            r matches Ok(env) ==> {
                &&& envelope_for(env, rsa_public_key@, encode_utf8(message@))
                &&& env.version@ == version_tag()
                &&& env.message_id@.len() == 64
                &&& forall|i: int|
                    0 <= i < env.message_id@.len() ==> is_hex_char(#[trigger] env.message_id@[i])
            },
            r matches Err(e) ==> {
                ||| (e == EncryptionError::SymmetricEncryptError && encode_utf8(message@).len()
                    > AES_GCM_MAX_PLAINTEXT)
                ||| (e == EncryptionError::AsymmetricEncryptError && !(rsa_pub_wf(rsa_public_key@)
                    && 32 + OAEP_SHA256_OVERHEAD <= rsa_pub_size(rsa_public_key@)))
            },
            rsa_pub_wf(rsa_public_key@) && 32 + OAEP_SHA256_OVERHEAD <= rsa_pub_size(
                rsa_public_key@,
            ) && encode_utf8(message@).len() <= AES_GCM_MAX_PLAINTEXT ==> r is Ok,
    {
        self.encrypt_bytes(message.as_bytes(), rsa_public_key)
    }

    /// Recovers the byte payload of an envelope with the recipient's private
    /// key. All-or-nothing: any failure returns the error
    /// `decrypt_bytes_spec` assigns to it, and no partial plaintext.
    pub fn decrypt_bytes(&self, encrypted_msg: &EncryptedMessage, rsa_private_key: &PrivateKey) -> (r:
        Result<Vec<u8>, EncryptionError>)
        ensures
            r matches Ok(v) ==> decrypt_bytes_spec(
                encrypted_msg.encrypted_content@,
                encrypted_msg.encrypted_symmetric_key@,
                encrypted_msg.nonce@,
                rsa_private_key@,
            ) == Ok::<Seq<u8>, EncryptionError>(v@),
            r matches Err(e) ==> decrypt_bytes_spec(
                encrypted_msg.encrypted_content@,
                encrypted_msg.encrypted_symmetric_key@,
                encrypted_msg.nonce@,
                rsa_private_key@,
            ) == Err::<Seq<u8>, EncryptionError>(e),
    {
        let ciphertext = match b64_decode(encrypted_msg.encrypted_content.as_str()) {
            Some(v) => v,
            None => {
                return Err(EncryptionError::DecodingError);
            },
        };
        let wrapped = match b64_decode(encrypted_msg.encrypted_symmetric_key.as_str()) {
            Some(v) => v,
            None => {
                return Err(EncryptionError::DecodingError);
            },
        };
        let nonce = match b64_decode(encrypted_msg.nonce.as_str()) {
            Some(v) => v,
            None => {
                return Err(EncryptionError::DecodingError);
            },
        };
        let aes_key = match rsa_unwrap(&rsa_private_key.der, &wrapped) {
            Some(k) => k,
            None => {
                return Err(EncryptionError::KeyUnwrapError);
            },
        };
        if aes_key.len() != 32 {
            return Err(EncryptionError::InvalidKeyMaterial);
        }
        if nonce.len() != 12 {
            return Err(EncryptionError::InvalidNonce);
        }
        match aes_open(&aes_key, &nonce, &ciphertext) {
            Some(plaintext) => Ok(plaintext),
            None => Err(EncryptionError::IntegrityError),
        }
    }

    /// Recovers the text of an envelope with the recipient's private key,
    /// rejecting payloads that are not UTF-8.
    pub fn decrypt_message(&self, encrypted_msg: &EncryptedMessage, rsa_private_key: &PrivateKey) -> (r:
        Result<String, EncryptionError>)
        ensures
            r matches Ok(s) ==> decrypt_spec(
                encrypted_msg.encrypted_content@,
                encrypted_msg.encrypted_symmetric_key@,
                encrypted_msg.nonce@,
                rsa_private_key@,
            ) == Ok::<Seq<char>, EncryptionError>(s@),
            r matches Err(e) ==> decrypt_spec(
                encrypted_msg.encrypted_content@,
                encrypted_msg.encrypted_symmetric_key@,
                encrypted_msg.nonce@,
                rsa_private_key@,
            ) == Err::<Seq<char>, EncryptionError>(e),
    {
        let payload = match self.decrypt_bytes(encrypted_msg, rsa_private_key) {
            Ok(v) => v,
            Err(e) => {
                return Err(e);
            },
        };
        match bytes_to_string(payload) {
            Ok(s) => Ok(s),
            Err(_) => Err(EncryptionError::InvalidContentEncoding),
        }
    }

    /// 256 bits of secure-random entropy, as 64 lowercase hex characters.
    pub fn generate_secure_id(&self) -> (r: String)
        ensures
            r@.len() == 64,
            forall|i: int| 0 <= i < r@.len() ==> is_hex_char(#[trigger] r@[i]),
    {
        let bytes = random_bytes_32();
        let id = hex_encode(&bytes);
        proof {
            lemma_hex_of_chars(bytes@);
        }
        id
    }

    /// The BLAKE3 digest of the text's UTF-8 bytes, hex-encoded: a pure,
    /// deterministic content fingerprint.
    pub fn secure_hash(&self, data: &str) -> (r: String)
        ensures
            r@ == secure_hash_spec(data@),
    {
        let digest = blake3_hash(data.as_bytes());
        hex_encode(&digest)
    }
}

/// Round trip: an envelope produced for a public key and a byte payload
/// decrypts, under any private key matching that public key, to exactly that
/// payload.
pub proof fn lemma_round_trip_bytes(
    env: EncryptedMessage,
    public_der: Seq<u8>,
    private_der: Seq<u8>,
    plaintext: Seq<u8>,
)
    requires
        envelope_for(env, public_der, plaintext),
        keys_match(private_der, public_der),
    ensures
        decrypt_bytes_spec(
            env.encrypted_content@,
            env.encrypted_symmetric_key@,
            env.nonce@,
            private_der,
        ) == Ok::<Seq<u8>, EncryptionError>(plaintext),
{
    assert(rsa_public_of(private_der) == public_der);
}

/// Round trip for text: an envelope produced for a public key and a message's
/// UTF-8 bytes decrypts, under any matching private key, to the message.
pub proof fn lemma_round_trip(
    env: EncryptedMessage,
    public_der: Seq<u8>,
    private_der: Seq<u8>,
    message: Seq<char>,
)
    requires
        envelope_for(env, public_der, encode_utf8(message)),
        keys_match(private_der, public_der),
    ensures
        decrypt_spec(
            env.encrypted_content@,
            env.encrypted_symmetric_key@,
            env.nonce@,
            private_der,
        ) == Ok::<Seq<char>, EncryptionError>(message),
{
    lemma_round_trip_bytes(env, public_der, private_der, encode_utf8(message));
    vstd::utf8::encode_utf8_valid_utf8(message);
    vstd::utf8::encode_utf8_decode_utf8(message);
}

/// The wrapped key of an envelope made for a 512-byte-modulus public key
/// decodes from base64 to exactly 512 bytes.
pub proof fn lemma_wrapped_key_len(env: EncryptedMessage, public_der: Seq<u8>, plaintext: Seq<u8>)
    requires
        envelope_for(env, public_der, plaintext),
        rsa_pub_size(public_der) == 512,
    ensures
        b64_decoded(env.encrypted_symmetric_key@) matches Some(w) && w.len() == 512,
{
}

/// The content digest is deterministic: equal texts hash to equal digests.
pub proof fn lemma_secure_hash_deterministic(x: Seq<char>, y: Seq<char>)
    requires
        x == y,
    ensures
        secure_hash_spec(x) == secure_hash_spec(y),
{
}

} // verus!
