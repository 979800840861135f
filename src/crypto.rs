use vstd::prelude::*;
use vstd::utf8::{decode_utf8, encode_utf8, valid_utf8};
use aes_gcm::aead::{Aead, AeadCore, KeyInit, OsRng};

verus! {

/// The byte length of a key.
pub const KEY_LEN: usize = 32;

/// The byte length of a nonce.
pub const NONCE_LEN: usize = 12;

/// The longest plaintext AES-GCM seals, in bytes.
pub const MAX_PLAINTEXT: u64 = 68719476736;

/// The ciphertext (tag appended) AES-256-GCM gives for `plaintext` under
/// `key` and `nonce`, with no associated data.
pub uninterp spec fn aes256gcm_seal(key: Seq<u8>, nonce: Seq<u8>, plaintext: Seq<u8>) -> Seq<u8>;

/// The key of the password envelope: 32 bytes for AES-256-GCM.
pub struct PasswordCipher {
    key: Vec<u8>,
}

impl PasswordCipher {
    /// The key is 32 bytes long.
    pub closed spec fn wf(&self) -> bool {
        self.key@.len() == KEY_LEN
    }
}

impl View for PasswordCipher {
    type V = Seq<u8>;

    /// The key.
    closed spec fn view(&self) -> Seq<u8> {
        self.key@
    }
}

/// Why a password could not be sealed or opened.
#[derive(Clone, Copy, Debug, PartialEq, Eq, Structural)]
pub enum CryptoError {
    /// The key is not 32 bytes long.
    BadKey,
    /// The nonce is not 12 bytes long.
    BadNonce,
    /// The password is too long to be sealed.
    Encrypt,
    /// The ciphertext does not open under this key and nonce.
    Decrypt,
    /// The opened bytes are not UTF-8.
    NotUtf8,
}

/// Relies on AeadCore::generate_nonce with OsRng: twelve bytes drawn from
/// the operating system's generator.
#[verifier::external_body]
fn fresh_nonce() -> (r: Vec<u8>)
    ensures
        r@.len() == NONCE_LEN,
{
    aes_gcm::Aes256Gcm::generate_nonce(&mut OsRng).to_vec()
}

/// Relies on Aead::encrypt of Aes256Gcm (the cipher made from the 32-byte
/// key by KeyInit::new_from_slice): it fails only on a plaintext longer
/// than 2^36 bytes, and otherwise gives the sealed bytes.
#[verifier::external_body]
#[allow(deprecated)]
fn seal(key: &[u8], nonce: &[u8], plaintext: &[u8]) -> (r: Option<Vec<u8>>)
    requires
        key@.len() == KEY_LEN,
        nonce@.len() == NONCE_LEN,
    ensures
        r is Some <==> plaintext@.len() <= MAX_PLAINTEXT,
        r is Some ==> r->Some_0@ == aes256gcm_seal(key@, nonce@, plaintext@),
{
    let cipher = aes_gcm::Aes256Gcm::new_from_slice(key).ok()?;
    cipher.encrypt(aes_gcm::Nonce::from_slice(nonce), plaintext).ok()
}

/// Relies on Aead::decrypt of Aes256Gcm (the cipher made from the 32-byte
/// key by KeyInit::new_from_slice): bytes sealed under the same key and
/// nonce open to the plaintext they were sealed from.
#[verifier::external_body]
#[allow(deprecated)]
fn open(key: &[u8], nonce: &[u8], ciphertext: &[u8]) -> (r: Option<Vec<u8>>)
    requires
        key@.len() == KEY_LEN,
        nonce@.len() == NONCE_LEN,
    ensures
        forall|p: Seq<u8>|
            p.len() <= MAX_PLAINTEXT && ciphertext@ == #[trigger] aes256gcm_seal(key@, nonce@, p)
                ==> (r is Some && r->Some_0@ == p),
{
    let cipher = aes_gcm::Aes256Gcm::new_from_slice(key).ok()?;
    cipher.decrypt(aes_gcm::Nonce::from_slice(nonce), ciphertext).ok()
}

/// Relies on String::from_utf8: it fails exactly on bytes that are not
/// UTF-8, and otherwise holds the characters they encode.
#[verifier::external_body]
fn utf8_string(bytes: Vec<u8>) -> (r: Option<String>)
    ensures
        r is Some <==> valid_utf8(bytes@),
        r is Some ==> r->Some_0@ == decode_utf8(bytes@),
{
    String::from_utf8(bytes).ok()
}

impl PasswordCipher {
    /// A cipher under `key`, which must be 32 bytes long.
    pub fn new(key: &[u8]) -> (r: Result<PasswordCipher, CryptoError>)
        ensures
            r is Ok <==> key@.len() == KEY_LEN,
            r is Ok ==> r->Ok_0@ == key@ && r->Ok_0.wf(),
            r is Err ==> r->Err_0 == CryptoError::BadKey,
    {
        if key.len() == KEY_LEN {
            let mut k: Vec<u8> = Vec::new();
            let mut i: usize = 0;
            while i < key.len()
                invariant
                    i <= key@.len(),
                    k@ == key@.take(i as int),
                decreases key@.len() - i,
            {
                k.push(key[i]);
                i = i + 1;
                assert(k@ =~= key@.take(i as int));
            }
            assert(key@.take(i as int) =~= key@);
            Ok(PasswordCipher { key: k })
        } else {
            Err(CryptoError::BadKey)
        }
    }
}

/// Seals `password` under a fresh random nonce; gives the nonce and the
/// ciphertext.
pub fn encrypt_password(cipher: &PasswordCipher, password: &str) -> (r: Result<(Vec<u8>, Vec<u8>), CryptoError>)
    requires
        cipher.wf(),
    ensures
        r is Ok <==> encode_utf8(password@).len() <= MAX_PLAINTEXT,
        r is Ok ==> r->Ok_0.0@.len() == NONCE_LEN && r->Ok_0.1@ == aes256gcm_seal(
            cipher@,
            r->Ok_0.0@,
            encode_utf8(password@),
        ),
        r is Err ==> r->Err_0 == CryptoError::Encrypt,
{
    let nonce = fresh_nonce();
    let bytes = password.as_bytes();
    match seal(cipher.key.as_slice(), nonce.as_slice(), bytes) {
        Some(ct) => Ok((nonce, ct)),
        None => Err(CryptoError::Encrypt),
    }
}

/// Opens a password sealed by `encrypt_password` under the same key. A
/// ciphertext sealed from a password under this key and nonce always
/// opens to that password.
pub fn decrypt_password(cipher: &PasswordCipher, nonce: Vec<u8>, ciphertext: Vec<u8>) -> (r: Result<String, CryptoError>)
    requires
        cipher.wf(),
    ensures
        nonce@.len() != NONCE_LEN ==> r == Err::<String, CryptoError>(CryptoError::BadNonce),
        forall|p: Seq<char>|
            nonce@.len() == NONCE_LEN && encode_utf8(p).len() <= MAX_PLAINTEXT && ciphertext@
                == #[trigger] aes256gcm_seal(cipher@, nonce@, encode_utf8(p)) ==> (r is Ok
                && r->Ok_0@ == p),
        r is Err ==> r->Err_0 != CryptoError::BadKey && r->Err_0 != CryptoError::Encrypt,
{
    if nonce.len() != NONCE_LEN {
        return Err(CryptoError::BadNonce);
    }
    let opened = open(cipher.key.as_slice(), nonce.as_slice(), ciphertext.as_slice());
    match opened {
        Some(bytes) => {
            let ghost b = bytes@;
            match utf8_string(bytes) {
                Some(s) => {
                    assert forall|p: Seq<char>|
                        encode_utf8(p).len() <= MAX_PLAINTEXT && ciphertext@
                            == #[trigger] aes256gcm_seal(cipher@, nonce@, encode_utf8(p))
                            implies s@ == p by {
                        vstd::utf8::encode_utf8_decode_utf8(p);
                    }
                    Ok(s)
                },
                None => {
                    assert forall|p: Seq<char>|
                        encode_utf8(p).len() <= MAX_PLAINTEXT && ciphertext@
                            == #[trigger] aes256gcm_seal(cipher@, nonce@, encode_utf8(p))
                            implies false by {
                        vstd::utf8::encode_utf8_valid_utf8(p);
                    }
                    Err(CryptoError::NotUtf8)
                },
            }
        },
        None => Err(CryptoError::Decrypt),
    }
}

/// Sealing then opening under one key and nonce gives the password back:
/// the bytes sealed are the UTF-8 encoding, which decodes to the same
/// characters.
pub proof fn lemma_password_bytes_round_trip(password: Seq<char>)
    ensures
        valid_utf8(encode_utf8(password)),
        decode_utf8(encode_utf8(password)) == password,
{
    vstd::utf8::encode_utf8_valid_utf8(password);
    vstd::utf8::encode_utf8_decode_utf8(password);
}

} // verus!
