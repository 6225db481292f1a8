//! The decisions of the cryptography capability. Keys and ciphertexts travel
//! as base64 text; the ciphers are those of the `simple_crypt` and `rsa`
//! crates, and random bytes come from `ring`. What is decided here is the
//! order of the checks, the length of an AES key, and what each failure is
//! called.

use vstd::prelude::*;
use crate::codec::{base64_data, base64_decode_text, base64_encode_bytes, base64_text};
use ring::rand::SecureRandom;
use rsa::pkcs8::{DecodePrivateKey, DecodePublicKey, EncodePrivateKey, EncodePublicKey};

verus! {

/// Length of an AES-256 key in bytes.
pub const AES_KEY_LENGTH: usize = 32;

/// Size of a generated RSA key in bits.
pub const RSA_KEY_BITS: usize = 2048;

/// An RSA private key of the `rsa` crate. Verus sees nothing of what is
/// inside.
#[verifier::external_type_specification]
#[verifier::external_body]
pub struct ExRsaPrivateKey(rsa::RsaPrivateKey);

/// An RSA public key of the `rsa` crate. Verus sees nothing of what is
/// inside.
#[verifier::external_type_specification]
#[verifier::external_body]
pub struct ExRsaPublicKey(rsa::RsaPublicKey);

/// What `simple_crypt::decrypt` recovers from `data` under `key`, or nothing
/// where it fails.
pub uninterp spec fn aes_opened(data: Seq<u8>, key: Seq<u8>) -> Option<Seq<u8>>;

/// Whether `pem` reads as a public key in PEM form.
pub uninterp spec fn reads_as_public_key(pem: Seq<char>) -> bool;

/// The private key that `pem` holds in PKCS#8 PEM form, or nothing where
/// the text does not read as one.
pub uninterp spec fn private_key_in(pem: Seq<char>) -> Option<rsa::RsaPrivateKey>;

/// What the private key `key` recovers from `data` under PKCS#1 v1.5
/// padding, or nothing where the ciphertext does not open.
pub uninterp spec fn rsa_opened(key: rsa::RsaPrivateKey, data: Seq<u8>) -> Option<Seq<u8>>;

/// The public half of a private key, as `RsaPublicKey::from` takes it out.
pub uninterp spec fn public_half_of(key: rsa::RsaPrivateKey) -> rsa::RsaPublicKey;

/// What `to_pkcs8_pem` with line feeds writes for a private key, or nothing
/// where it fails.
pub uninterp spec fn private_pem_of(key: rsa::RsaPrivateKey) -> Option<Seq<char>>;

/// What `to_public_key_pem` with line feeds writes for a public key, or
/// nothing where it fails.
pub uninterp spec fn public_pem_of(key: rsa::RsaPublicKey) -> Option<Seq<char>>;

/// Why a cryptographic operation failed.
#[derive(Clone, Copy, Debug, PartialEq, Eq, Structural)]
pub enum CryptError {
    /// The system gave no random bytes.
    RandomFailed,
    /// The key is no base64 text.
    KeyNotBase64,
    /// The key has this many bytes instead of 32.
    KeyLength(usize),
    /// The ciphertext is no base64 text.
    CiphertextNotBase64,
    /// The cipher refused to encrypt.
    EncryptionFailed,
    /// The cipher could not decrypt: a wrong key or a damaged ciphertext.
    DecryptionFailed,
    /// The key is no PEM text of the expected form.
    KeyNotPem,
    /// No key could be generated.
    KeyGenerationFailed,
    /// The private key could not be written as PEM.
    PrivateKeyEncoding,
    /// The public key could not be written as PEM.
    PublicKeyEncoding,
}

/// A pair of RSA keys in PEM form.
#[derive(Clone, Debug, PartialEq, Eq)]
pub struct KeyPair {
    pub private: String,
    pub public: String,
}

/// `SystemRandom::fill` of `ring` on a fresh buffer of `count` bytes: the
/// random bytes, or nothing where the system gave none. The bytes depend on
/// chance; only their number is claimed.
#[verifier::external_body]
fn random_bytes(count: usize) -> (out: Option<Vec<u8>>)
    requires
        count <= 0x1_0000,
    ensures
        out matches Some(bytes) ==> bytes@.len() == count,
{
    let mut buffer = vec![0u8; count];
    match ring::rand::SystemRandom::new().fill(&mut buffer) {
        Ok(()) => Some(buffer),
        Err(_) => None,
    }
}

/// `simple_crypt::encrypt`: the ciphertext, or nothing where it fails. Salt
/// and nonce are drawn at random, so nothing is claimed of the bytes.
#[verifier::external_body]
fn aes_seal(data: &[u8], key: &[u8]) -> (out: Option<Vec<u8>>) {
    match simple_crypt::encrypt(data, key) {
        Ok(sealed) => Some(sealed),
        Err(_) => None,
    }
}

/// `simple_crypt::decrypt`: the plaintext, or nothing where the ciphertext
/// does not open under the key.
#[verifier::external_body]
fn aes_open(data: &[u8], key: &[u8]) -> (out: Option<Vec<u8>>)
    ensures
        match aes_opened(data@, key@) {
            Some(plain) => out matches Some(v) && v@ == plain,
            None => out is None,
        },
{
    match simple_crypt::decrypt(data, key) {
        Ok(plain) => Some(plain),
        Err(_) => None,
    }
}

/// `RsaPrivateKey::new` with the system's random source: a fresh key of
/// `bits` bits, or nothing where generation fails. Sizes outside the usual
/// range are left out.
#[verifier::external_body]
fn rsa_generate(bits: usize) -> (out: Option<rsa::RsaPrivateKey>)
    requires
        1024 <= bits <= 4096,
{
    match rsa::RsaPrivateKey::new(&mut rand::rngs::OsRng, bits) {
        Ok(key) => Some(key),
        Err(_) => None,
    }
}

/// `RsaPublicKey::from`: the public half of a private key.
#[verifier::external_body]
fn rsa_public_half(key: &rsa::RsaPrivateKey) -> (out: rsa::RsaPublicKey)
    ensures
        out == public_half_of(*key),
{
    rsa::RsaPublicKey::from(key)
}

/// `EncodePrivateKey::to_pkcs8_pem` with line feeds: the key as PEM text, or
/// nothing where encoding fails. The text is decided by the key alone.
#[verifier::external_body]
fn rsa_private_pem(key: &rsa::RsaPrivateKey) -> (out: Option<String>)
    ensures
        match private_pem_of(*key) {
            Some(pem) => out matches Some(s) && s@ == pem,
            None => out is None,
        },
{
    match key.to_pkcs8_pem(rsa::pkcs8::LineEnding::LF) {
        Ok(pem) => Some(pem.to_string()),
        Err(_) => None,
    }
}

/// `EncodePublicKey::to_public_key_pem` with line feeds: the key as PEM
/// text, or nothing where encoding fails. The text is decided by the key
/// alone.
#[verifier::external_body]
fn rsa_public_pem(key: &rsa::RsaPublicKey) -> (out: Option<String>)
    ensures
        match public_pem_of(*key) {
            Some(pem) => out matches Some(s) && s@ == pem,
            None => out is None,
        },
{
    match key.to_public_key_pem(rsa::pkcs8::LineEnding::LF) {
        Ok(pem) => Some(pem),
        Err(_) => None,
    }
}

/// `DecodePublicKey::from_public_key_pem`: the key that the PEM text holds,
/// or nothing where the text does not read as one.
#[verifier::external_body]
fn rsa_read_public(pem: &str) -> (out: Option<rsa::RsaPublicKey>)
    ensures
        out is Some == reads_as_public_key(pem@),
{
    match rsa::RsaPublicKey::from_public_key_pem(pem) {
        Ok(key) => Some(key),
        Err(_) => None,
    }
}

/// `DecodePrivateKey::from_pkcs8_pem`: the key that the PEM text holds, or
/// nothing where the text does not read as one.
#[verifier::external_body]
fn rsa_read_private(pem: &str) -> (out: Option<rsa::RsaPrivateKey>)
    ensures
        out == private_key_in(pem@),
{
    match rsa::RsaPrivateKey::from_pkcs8_pem(pem) {
        Ok(key) => Some(key),
        Err(_) => None,
    }
}

/// `RsaPublicKey::encrypt` with PKCS#1 v1.5 padding and the system's random
/// source: the ciphertext, or nothing where it fails. The padding is drawn
/// at random, so nothing is claimed of the bytes.
#[verifier::external_body]
fn rsa_seal(key: &rsa::RsaPublicKey, data: &[u8]) -> (out: Option<Vec<u8>>) {
    match key.encrypt(&mut rand::rngs::OsRng, rsa::Pkcs1v15Encrypt, data) {
        Ok(sealed) => Some(sealed),
        Err(_) => None,
    }
}

/// `RsaPrivateKey::decrypt` with PKCS#1 v1.5 padding: the plaintext, or
/// nothing where the ciphertext does not open under the key.
#[verifier::external_body]
fn rsa_open(key: &rsa::RsaPrivateKey, data: &[u8]) -> (out: Option<Vec<u8>>)
    ensures
        match rsa_opened(*key, data@) {
            Some(plain) => out matches Some(v) && v@ == plain,
            None => out is None,
        },
{
    match key.decrypt(rsa::Pkcs1v15Encrypt, data) {
        Ok(plain) => Some(plain),
        Err(_) => None,
    }
}

/// The bytes of an AES key given as base64 text: the text must decode, and
/// to exactly 32 bytes.
pub open spec fn aes_key_of(key: Seq<char>) -> Result<Seq<u8>, CryptError> {
    match base64_data(key) {
        None => Err(CryptError::KeyNotBase64),
        Some(bytes) => if bytes.len() != AES_KEY_LENGTH {
            Err(CryptError::KeyLength(bytes.len() as usize))
        } else {
            Ok(bytes)
        },
    }
}

/// What an AES decryption comes to: the ciphertext is decoded first, the key
/// after, and then the cipher is asked.
pub open spec fn aes_decryption(ciphertext: Seq<char>, key: Seq<char>) -> Result<
    Seq<u8>,
    CryptError,
> {
    match base64_data(ciphertext) {
        None => Err(CryptError::CiphertextNotBase64),
        Some(sealed) => match aes_key_of(key) {
            Err(e) => Err(e),
            Ok(bytes) => match aes_opened(sealed, bytes) {
                Some(plain) => Ok(plain),
                None => Err(CryptError::DecryptionFailed),
            },
        },
    }
}

/// The bytes of an AES key given as base64 text.
pub fn read_aes_key(key: &str) -> (out: Result<Vec<u8>, CryptError>)
    ensures
        crate::codec::decoded_view(out) == aes_key_of(key@),
{
    match base64_decode_text(key) {
        None => Err(CryptError::KeyNotBase64),
        Some(bytes) => if bytes.len() != AES_KEY_LENGTH {
            Err(CryptError::KeyLength(bytes.len()))
        } else {
            Ok(bytes)
        },
    }
}

/// A ciphertext as scripts get it: in base64; an encryption that gave
/// nothing is a failure.
pub fn seal_text(sealed: Option<Vec<u8>>) -> (out: Result<String, CryptError>)
    ensures
        match sealed {
            Some(bytes) => out matches Ok(text) && text@ == base64_text(bytes@),
            None => out == Err::<String, CryptError>(CryptError::EncryptionFailed),
        },
{
    match sealed {
        Some(bytes) => Ok(base64_encode_bytes(bytes.as_slice())),
        None => Err(CryptError::EncryptionFailed),
    }
}

/// A plaintext as scripts get it; a decryption that gave nothing is a
/// failure.
pub fn open_text(opened: Option<Vec<u8>>) -> (out: Result<Vec<u8>, CryptError>)
    ensures
        out == match opened {
            Some(bytes) => Ok::<Vec<u8>, CryptError>(bytes),
            None => Err::<Vec<u8>, CryptError>(CryptError::DecryptionFailed),
        },
{
    match opened {
        Some(bytes) => Ok(bytes),
        None => Err(CryptError::DecryptionFailed),
    }
}

/// A fresh AES-256 key in base64.
pub fn generate_aes_key() -> (out: Result<String, CryptError>)
    ensures
        out matches Ok(key) ==> exists|bytes: Seq<u8>|
            bytes.len() == AES_KEY_LENGTH && key@ == #[trigger] base64_text(bytes),
        out matches Err(e) ==> e == CryptError::RandomFailed,
{
    match random_bytes(AES_KEY_LENGTH) {
        Some(bytes) => Ok(base64_encode_bytes(bytes.as_slice())),
        None => Err(CryptError::RandomFailed),
    }
}

/// Encrypts `plaintext` under the base64 key `key` and gives the ciphertext
/// in base64. A key that does not decode to 32 bytes is refused before the
/// cipher is asked.
pub fn aes_encrypt(plaintext: &[u8], key: &str) -> (out: Result<String, CryptError>)
    ensures
        match aes_key_of(key@) {
            Err(e) => out == Err::<String, CryptError>(e),
            Ok(_) => match out {
                Ok(text) => exists|sealed: Seq<u8>| text@ == #[trigger] base64_text(sealed),
                Err(e) => e == CryptError::EncryptionFailed,
            },
        },
{
    match read_aes_key(key) {
        Err(e) => Err(e),
        Ok(bytes) => seal_text(aes_seal(plaintext, bytes.as_slice())),
    }
}

/// Decrypts the base64 ciphertext `ciphertext` under the base64 key `key`.
pub fn aes_decrypt(ciphertext: &str, key: &str) -> (out: Result<Vec<u8>, CryptError>)
    ensures
        crate::codec::decoded_view(out) == aes_decryption(ciphertext@, key@),
{
    match base64_decode_text(ciphertext) {
        None => Err(CryptError::CiphertextNotBase64),
        Some(sealed) => match read_aes_key(key) {
            Err(e) => Err(e),
            Ok(bytes) => open_text(aes_open(sealed.as_slice(), bytes.as_slice())),
        },
    }
}

/// The pair of PEM texts of a generated key; an encoding that gave nothing
/// is a failure, that of the private key first.
pub fn pair_keys(private: Option<String>, public: Option<String>) -> (out: Result<
    KeyPair,
    CryptError,
>)
    ensures
        match private {
            None => out == Err::<KeyPair, CryptError>(CryptError::PrivateKeyEncoding),
            Some(private_pem) => match public {
                None => out == Err::<KeyPair, CryptError>(CryptError::PublicKeyEncoding),
                Some(public_pem) => out matches Ok(pair) && pair.private == private_pem
                    && pair.public == public_pem,
            },
        },
{
    match private {
        None => Err(CryptError::PrivateKeyEncoding),
        Some(private_pem) => match public {
            None => Err(CryptError::PublicKeyEncoding),
            Some(public_pem) => Ok(KeyPair { private: private_pem, public: public_pem }),
        },
    }
}

/// The pair of PEM texts that a private key is handed out as: the key
/// itself and its public half, each as its encoder writes it. A key whose
/// private text cannot be written fails as such, before the public half is
/// looked at.
pub open spec fn key_pair_of(key: rsa::RsaPrivateKey) -> Result<(Seq<char>, Seq<char>), CryptError> {
    match private_pem_of(key) {
        None => Err(CryptError::PrivateKeyEncoding),
        Some(private) => match public_pem_of(public_half_of(key)) {
            None => Err(CryptError::PublicKeyEncoding),
            Some(public) => Ok((private, public)),
        },
    }
}

/// A pair of keys, or why there is none, over sequences.
pub open spec fn pair_view(out: Result<KeyPair, CryptError>) -> Result<
    (Seq<char>, Seq<char>),
    CryptError,
> {
    match out {
        Ok(pair) => Ok((pair.private@, pair.public@)),
        Err(e) => Err(e),
    }
}

/// The pair of PEM texts that `key` is handed out as.
pub fn encode_key_pair(key: &rsa::RsaPrivateKey) -> (out: Result<KeyPair, CryptError>)
    ensures
        pair_view(out) == key_pair_of(*key),
{
    let public = rsa_public_half(key);
    pair_keys(rsa_private_pem(key), rsa_public_pem(&public))
}

/// A fresh pair of RSA keys in PEM form: the two texts are those of one
/// generated key and of its public half. Which key is generated is left to
/// chance, and so is whether one is generated at all.
pub fn generate_rsa_keys() -> (out: Result<KeyPair, CryptError>)
    ensures
        out == Err::<KeyPair, CryptError>(CryptError::KeyGenerationFailed) || exists|
            key: rsa::RsaPrivateKey,
        | pair_view(out) == #[trigger] key_pair_of(key),
{
    match rsa_generate(RSA_KEY_BITS) {
        None => Err(CryptError::KeyGenerationFailed),
        Some(key) => encode_key_pair(&key),
    }
}

/// Encrypts `plaintext` for the holder of the private half of the public
/// key `public_pem`, and gives the ciphertext in base64. A key that does
/// not read is refused before the cipher is asked.
pub fn rsa_encrypt(plaintext: &[u8], public_pem: &str) -> (out: Result<String, CryptError>)
    ensures
        !reads_as_public_key(public_pem@) ==> out == Err::<String, CryptError>(
            CryptError::KeyNotPem,
        ),
        reads_as_public_key(public_pem@) ==> match out {
            Ok(text) => exists|sealed: Seq<u8>| text@ == #[trigger] base64_text(sealed),
            Err(e) => e == CryptError::EncryptionFailed,
        },
{
    match rsa_read_public(public_pem) {
        None => Err(CryptError::KeyNotPem),
        Some(key) => seal_text(rsa_seal(&key, plaintext)),
    }
}

/// What an RSA decryption comes to: the key is read first, the ciphertext
/// decoded after, and then the cipher is asked.
pub open spec fn rsa_decryption(ciphertext: Seq<char>, private_pem: Seq<char>) -> Result<
    Seq<u8>,
    CryptError,
> {
    match private_key_in(private_pem) {
        None => Err(CryptError::KeyNotPem),
        Some(key) => match base64_data(ciphertext) {
            None => Err(CryptError::CiphertextNotBase64),
            Some(sealed) => match rsa_opened(key, sealed) {
                Some(plain) => Ok(plain),
                None => Err(CryptError::DecryptionFailed),
            },
        },
    }
}

/// Decrypts the base64 ciphertext `ciphertext` with the private key
/// `private_pem`.
pub fn rsa_decrypt(ciphertext: &str, private_pem: &str) -> (out: Result<Vec<u8>, CryptError>)
    ensures
        crate::codec::decoded_view(out) == rsa_decryption(ciphertext@, private_pem@),
{
    match rsa_read_private(private_pem) {
        None => Err(CryptError::KeyNotPem),
        Some(key) => match base64_decode_text(ciphertext) {
            None => Err(CryptError::CiphertextNotBase64),
            Some(sealed) => open_text(rsa_open(&key, sealed.as_slice())),
        },
    }
}

} // verus!
