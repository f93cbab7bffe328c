use argon2::password_hash::PasswordHasher;
use base64::Engine;
use chacha20poly1305::aead::rand_core::RngCore;
use chacha20poly1305::aead::{Aead, KeyInit};
use vstd::prelude::*;

use crate::error::AppError;
use crate::text::{joined, starts_with};

verus! {

/// How many bytes of nonce lead a sealed message.
pub const NONCE_LENGTH: usize = 12;

/// How many bytes of authentication tag a sealed message carries.
pub const TAG_LENGTH: usize = 16;

/// How many bytes the message key has.
pub const KEY_LENGTH: usize = 32;

#[verifier::external_type_specification]
#[verifier::external_body]
pub struct ExAeadError(chacha20poly1305::aead::Error);

#[verifier::external_type_specification]
#[verifier::external_body]
pub struct ExDecodeError(base64::DecodeError);

#[verifier::external_type_specification]
#[verifier::external_body]
pub struct ExPasswordHashError(argon2::password_hash::Error);

#[verifier::external_type_specification]
#[verifier::external_body]
pub struct ExFromUtf8Error(std::string::FromUtf8Error);

/// `String::from_utf8` keeps the bytes as a string exactly when they are
/// valid UTF-8, and the string is then the text they encode.
pub assume_specification[ String::from_utf8 ](vec: Vec<u8>) -> (r: Result<
    String,
    std::string::FromUtf8Error,
>)
    ensures
        r is Ok <==> vstd::utf8::valid_utf8(vec@),
        r matches Ok(s) ==> s@ == vstd::utf8::decode_utf8(vec@),
;

/// The text that the standard base64 engine (`base64::engine::general_purpose::STANDARD`) writes for `bytes`.
pub uninterp spec fn base64_text(bytes: Seq<u8>) -> Seq<char>;

/// The bytes that the standard base64 engine reads from `text`, if it accepts it.
pub uninterp spec fn base64_bytes(text: Seq<char>) -> Option<Seq<u8>>;

/// The unpadded B64 text of a salt, as `argon2::password_hash::SaltString::encode_b64` writes it.
pub uninterp spec fn phc_b64(bytes: Seq<u8>) -> Seq<char>;

/// The hash that `Argon2::default().hash_password` computes for `password` under the B64 salt `salt`.
pub uninterp spec fn argon2_output(password: Seq<u8>, salt: Seq<char>) -> Seq<u8>;

/// The ciphertext and tag that ChaCha20-Poly1305 produces for `plaintext`
/// under `key` and `nonce`, with no associated data.
pub uninterp spec fn aead_seal(key: Seq<u8>, nonce: Seq<u8>, plaintext: Seq<u8>) -> Seq<u8>;

/// The plaintext that ChaCha20-Poly1305 recovers from `ciphertext` under
/// `key` and `nonce`, with no associated data, if it authenticates.
pub uninterp spec fn aead_open(key: Seq<u8>, nonce: Seq<u8>, ciphertext: Seq<u8>) -> Option<Seq<u8>>;

/// Encodes bytes with `base64::engine::general_purpose::STANDARD.encode`.
/// The contract claims: the text is a function of the bytes, has the padded
/// length, and the same engine's `decode` gives the bytes back. Its output
/// buffer must fit in memory (at most `isize::MAX` bytes), or it panics.
#[verifier::external_body]
fn base64_encode(bytes: &[u8]) -> (r: String)
    requires
        (bytes@.len() + 2) / 3 * 4 <= isize::MAX,
    ensures
        r@ == base64_text(bytes@),
        r@.len() == (bytes@.len() + 2) / 3 * 4,
        base64_bytes(r@) == Some(bytes@),
{
    base64::engine::general_purpose::STANDARD.encode(bytes)
}

/// Decodes text with `base64::engine::general_purpose::STANDARD.decode`. The
/// contract claims that the outcome is a function of the text.
#[verifier::external_body]
fn base64_decode(text: &str) -> (r: Result<Vec<u8>, base64::DecodeError>)
    ensures
        r is Ok <==> base64_bytes(text@) is Some,
        r matches Ok(v) ==> base64_bytes(text@) == Some(v@),
{
    base64::engine::general_purpose::STANDARD.decode(text)
}

/// Encodes salt bytes as a PHC salt string with
/// `argon2::password_hash::SaltString::encode_b64`, and hands back its text.
/// The contract claims what that code does: it succeeds exactly when the
/// unpadded encoding fits the 64 characters a salt may have (at most 48
/// bytes), and the text is a function of the bytes.
#[verifier::external_body]
fn phc_salt(salt: &[u8]) -> (r: Result<String, argon2::password_hash::Error>)
    ensures
        r is Ok <==> salt@.len() <= 48,
        r matches Ok(t) ==> t@ == phc_b64(salt@),
{
    match argon2::password_hash::SaltString::encode_b64(salt) {
        Ok(s) => Ok(s.as_str().to_string()),
        Err(e) => Err(e),
    }
}

/// Hashes `password` with `argon2::Argon2::default().hash_password` under the
/// B64 salt `salt` (read with `Salt::from_b64`), and hands back the hash
/// output. The contract claims what that code does: for a salt written by
/// `phc_salt` from 3 to 48 bytes and a password of at most 2^32 - 1 bytes, it
/// succeeds exactly when the salt has at least 8 bytes; on success the output
/// is there, has the default 32 bytes, and is a function of its arguments.
#[verifier::external_body]
fn argon2_hash(password: &[u8], salt: &str) -> (r: Result<Option<Vec<u8>>, argon2::password_hash::Error>)
    ensures
        forall|b: Seq<u8>|
            salt@ == #[trigger] phc_b64(b) && 3 <= b.len() <= 48 && password@.len() <= 0xffff_ffff
                ==> (r is Ok <==> b.len() >= 8),
        r matches Ok(h) ==> h matches Some(k) && k@ == argon2_output(password@, salt@) && k@.len()
            == 32,
{
    let salt = argon2::password_hash::Salt::from_b64(salt)?;
    let hash = argon2::Argon2::default().hash_password(password, salt)?;
    Ok(hash.hash.map(|out| out.as_bytes().to_vec()))
}

/// Encrypts with `ChaCha20Poly1305::new(key).encrypt(nonce, plaintext)`.
/// The contract claims what that code does: it fails only for a plaintext
/// of 2^32 - 1 blocks of 64 bytes or more; the ciphertext is a function of
/// the arguments, 16 bytes longer than the plaintext, and decrypts with the
/// same key and nonce to the plaintext.
#[verifier::external_body]
fn aead_encrypt(key: &[u8], nonce: &[u8], plaintext: &[u8]) -> (r: Result<Vec<u8>, chacha20poly1305::aead::Error>)
    requires
        key@.len() == KEY_LENGTH,
        nonce@.len() == NONCE_LENGTH,
        plaintext@.len() + TAG_LENGTH <= isize::MAX,
    ensures
        r is Ok <==> plaintext@.len() / 64 < 0xffff_ffff,
        r matches Ok(c) ==> {
            &&& c@ == aead_seal(key@, nonce@, plaintext@)
            &&& c@.len() == plaintext@.len() + TAG_LENGTH
            &&& aead_open(key@, nonce@, c@) == Some(plaintext@)
        },
{
    let cipher = chacha20poly1305::ChaCha20Poly1305::new(chacha20poly1305::Key::from_slice(key));
    cipher.encrypt(chacha20poly1305::Nonce::from_slice(nonce), plaintext)
}

/// Decrypts with `ChaCha20Poly1305::new(key).decrypt(nonce, ciphertext)`.
/// The contract claims that the outcome is a function of the arguments, and
/// that a ciphertext shorter than the 16-byte tag is refused.
#[verifier::external_body]
fn aead_decrypt(key: &[u8], nonce: &[u8], ciphertext: &[u8]) -> (r: Result<Vec<u8>, chacha20poly1305::aead::Error>)
    requires
        key@.len() == KEY_LENGTH,
        nonce@.len() == NONCE_LENGTH,
    ensures
        r is Ok <==> aead_open(key@, nonce@, ciphertext@) is Some,
        ciphertext@.len() < TAG_LENGTH ==> r is Err,
        r matches Ok(p) ==> aead_open(key@, nonce@, ciphertext@) == Some(p@),
{
    let cipher = chacha20poly1305::ChaCha20Poly1305::new(chacha20poly1305::Key::from_slice(key));
    cipher.decrypt(chacha20poly1305::Nonce::from_slice(nonce), ciphertext)
}

/// Twelve bytes from the operating system's generator (`aead::OsRng.fill_bytes`).
/// Nothing is claimed of their value; it panics where the operating system
/// gives no randomness.
#[verifier::external_body]
fn random_nonce() -> (r: Vec<u8>)
    ensures
        r@.len() == NONCE_LENGTH,
{
    let mut nonce = [0u8; 12];
    chacha20poly1305::aead::OsRng.fill_bytes(&mut nonce);
    nonce.to_vec()
}

/// What reading a sealed text gives.
pub enum Unsealed {
    /// The text opens to this message.
    Opened(Seq<char>),
    /// The text is not base64.
    BadBase64,
    /// The text holds fewer bytes than a nonce.
    TooShort,
    /// The ciphertext does not authenticate under the key.
    Rejected,
    /// The plaintext is not UTF-8.
    BadUtf8,
}

/// Reads a sealed text under `key`: base64 of a 12-byte nonce followed by
/// the ChaCha20-Poly1305 ciphertext of the message's UTF-8 bytes.
pub open spec fn unseal(key: Seq<u8>, text: Seq<char>) -> Unsealed {
    match base64_bytes(text) {
        None => Unsealed::BadBase64,
        Some(data) => if data.len() < NONCE_LENGTH {
            Unsealed::TooShort
        } else {
            match aead_open(key, data.take(NONCE_LENGTH as int), data.skip(NONCE_LENGTH as int)) {
                None => Unsealed::Rejected,
                Some(p) => if vstd::utf8::valid_utf8(p) {
                    Unsealed::Opened(vstd::utf8::decode_utf8(p))
                } else {
                    Unsealed::BadUtf8
                },
            }
        },
    }
}

/// `text` is `message` sealed under `key` with some nonce.
pub open spec fn sealed_with_some_nonce(key: Seq<u8>, message: Seq<char>, text: Seq<char>) -> bool {
    exists|nonce: Seq<u8>|
        nonce.len() == NONCE_LENGTH && text == base64_text(
            nonce + aead_seal(key, nonce, vstd::utf8::encode_utf8(message)),
        )
}

/// `e` is a server-side failure whose message begins with `prefix`.
pub open spec fn internal_starting(e: AppError, prefix: Seq<char>) -> bool {
    e matches AppError::Internal(m) && starts_with(m@, prefix)
}

/// Seals chat messages: ChaCha20-Poly1305 under a key derived with Argon2
/// from a configured salt, each message under a fresh random nonce.
pub struct SteganographyService {
    key: Vec<u8>,
}

impl Clone for SteganographyService {
    fn clone(&self) -> (r: Self)
        ensures
            r.key() == self.key(),
    {
        proof { use_type_invariant(self); }
        SteganographyService { key: self.key.clone() }
    }
}

impl SteganographyService {
    #[verifier::type_invariant]
    spec fn well_formed(&self) -> bool {
        self.key@.len() == KEY_LENGTH
    }

    /// The message key.
    pub closed spec fn key(&self) -> Seq<u8> {
        self.key@
    }

    /// Derives the message key from `salt`: Argon2 with default parameters,
    /// hashing the salt's bytes under the salt itself, first 32 bytes of the
    /// output. A salt of 8 to 48 bytes is accepted.
    pub fn new(salt: &str) -> (r: Result<Self, AppError>)
        requires
            vstd::utf8::encode_utf8(salt@).len() >= 3,
        ensures
            ({
                let bytes = vstd::utf8::encode_utf8(salt@);
                &&& r is Ok <==> 8 <= bytes.len() <= 48
                &&& r matches Ok(s) ==> s.key() == argon2_output(bytes, phc_b64(bytes)).take(
                    KEY_LENGTH as int,
                )
                &&& bytes.len() > 48 ==> (r matches Err(e) && internal_starting(e, "Invalid salt: "@))
                &&& bytes.len() < 8 ==> (r matches Err(e) && internal_starting(
                    e,
                    "Key derivation failed: "@,
                ))
            }),
    {
        let bytes = salt.as_bytes();
        let salt_text = match phc_salt(bytes) {
            Ok(t) => t,
            Err(e) => {
                let m = joined("Invalid salt: ", &e.to_string());
                proof { lemma_joined_starts_with("Invalid salt: "@, m@); }
                return Err(AppError::Internal(m));
            },
        };
        let output = match argon2_hash(bytes, salt_text.as_str()) {
            Ok(o) => o,
            Err(e) => {
                let m = joined("Key derivation failed: ", &e.to_string());
                proof { lemma_joined_starts_with("Key derivation failed: "@, m@); }
                return Err(AppError::Internal(m));
            },
        };
        let mut key = match output {
            Some(k) => k,
            None => {
                return Err(AppError::Internal("Failed to extract hast".to_string()));
            },
        };
        if key.len() < KEY_LENGTH {
            return Err(AppError::Internal("Key too short".to_string()));
        }
        let _rest = key.split_off(KEY_LENGTH);
        Ok(SteganographyService { key })
    }

    /// Seals a message: base64 of a fresh 12-byte nonce followed by the
    /// ChaCha20-Poly1305 ciphertext of the message's UTF-8 bytes. What comes
    /// out opens, under the same key, to the message.
    pub fn encode(&self, plaintext: &str) -> (r: Result<String, AppError>)
        requires
            (vstd::utf8::encode_utf8(plaintext@).len() + NONCE_LENGTH + TAG_LENGTH + 2) / 3 * 4
                <= isize::MAX,
        ensures
            r is Ok <==> vstd::utf8::encode_utf8(plaintext@).len() / 64 < 0xffff_ffff,
            r matches Ok(s) ==> unseal(self.key(), s@) == Unsealed::Opened(plaintext@),
            r matches Ok(s) ==> sealed_with_some_nonce(self.key(), plaintext@, s@),
            r matches Ok(s) ==> s@.len() == (vstd::utf8::encode_utf8(plaintext@).len()
                + NONCE_LENGTH + TAG_LENGTH + 2) / 3 * 4,
            r matches Ok(s) ==> (base64_bytes(s@) matches Some(d) && d.len()
                == NONCE_LENGTH + vstd::utf8::encode_utf8(plaintext@).len() + TAG_LENGTH),
            r matches Err(e) ==> internal_starting(e, "Encryption failed: "@),
    {
        proof { use_type_invariant(self); }
        let mut nonce = random_nonce();
        let bytes = plaintext.as_bytes();
        let mut ciphertext = match aead_encrypt(self.key.as_slice(), nonce.as_slice(), bytes) {
            Ok(c) => c,
            Err(e) => {
                let m = joined("Encryption failed: ", &e.to_string());
                proof { lemma_joined_starts_with("Encryption failed: "@, m@); }
                return Err(AppError::Internal(m));
            },
        };
        let ghost n = nonce@;
        let ghost c = ciphertext@;
        nonce.append(&mut ciphertext);
        let data = nonce;
        let encoded = base64_encode(data.as_slice());
        proof {
            assert(data@.take(NONCE_LENGTH as int) =~= n);
            assert(data@.skip(NONCE_LENGTH as int) =~= c);
            vstd::utf8::encode_utf8_valid_utf8(plaintext@);
            vstd::utf8::encode_utf8_decode_utf8(plaintext@);
        }
        Ok(encoded)
    }

    /// Opens a sealed text: base64-decodes it, splits off the 12-byte nonce,
    /// decrypts the rest and reads it as UTF-8.
    pub fn decode(&self, encoded: &str) -> (r: Result<String, AppError>)
        ensures
            match unseal(self.key(), encoded@) {
                Unsealed::Opened(m) => r matches Ok(s) && s@ == m,
                Unsealed::BadBase64 => r matches Err(e) && internal_starting(e, "Invalid base64: "@),
                Unsealed::TooShort => r matches Err(e) && e.is_internal_with("Data too short"@),
                Unsealed::Rejected => r matches Err(e) && internal_starting(
                    e,
                    "Decryption failed: "@,
                ),
                Unsealed::BadUtf8 => r matches Err(e) && internal_starting(e, "Invalid UTF-8: "@),
            },
            (base64_bytes(encoded@) matches Some(d) && NONCE_LENGTH <= d.len() < NONCE_LENGTH
                + TAG_LENGTH) ==> (r matches Err(e) && internal_starting(e, "Decryption failed: "@)),
    {
        proof { use_type_invariant(self); }
        let mut data = match base64_decode(encoded) {
            Ok(d) => d,
            Err(e) => {
                let m = joined("Invalid base64: ", &e.to_string());
                proof { lemma_joined_starts_with("Invalid base64: "@, m@); }
                return Err(AppError::Internal(m));
            },
        };
        if data.len() < NONCE_LENGTH {
            return Err(AppError::Internal("Data too short".to_string()));
        }
        let ghost whole = data@;
        let ciphertext = data.split_off(NONCE_LENGTH);
        let nonce = data;
        assert(nonce@ =~= whole.take(NONCE_LENGTH as int));
        assert(ciphertext@ =~= whole.skip(NONCE_LENGTH as int));
        let plain = match aead_decrypt(self.key.as_slice(), nonce.as_slice(), ciphertext.as_slice()) {
            Ok(p) => p,
            Err(e) => {
                let m = joined("Decryption failed: ", &e.to_string());
                proof { lemma_joined_starts_with("Decryption failed: "@, m@); }
                return Err(AppError::Internal(m));
            },
        };
        match String::from_utf8(plain) {
            Ok(s) => Ok(s),
            Err(e) => {
                let m = joined("Invalid UTF-8: ", &e.to_string());
                proof { lemma_joined_starts_with("Invalid UTF-8: "@, m@); }
                Err(AppError::Internal(m))
            },
        }
    }
}

/// A text made of `prefix` and something after it begins with `prefix`.
proof fn lemma_joined_starts_with(prefix: Seq<char>, whole: Seq<char>)
    requires
        exists|rest: Seq<char>| whole == prefix + rest,
    ensures
        starts_with(whole, prefix),
{
    let rest = choose|rest: Seq<char>| whole == prefix + rest;
    assert(whole.subrange(0, prefix.len() as int) =~= prefix);
}

} // verus!
