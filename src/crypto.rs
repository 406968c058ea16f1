//! Password encryption at rest: AES-256-GCM under a 32-byte key, with a
//! fresh random 12-byte nonce stored in front of the ciphertext.
use vstd::prelude::*;
use vstd::slice::{slice_subrange, slice_to_vec};
use vstd::utf8::{valid_utf8, decode_utf8};
use vstd::string::StringSliceAdditionalSpecFns;
use aes_gcm::aead::{Aead, KeyInit};
use aes_gcm::{Aes256Gcm, Nonce};
use rand::RngCore;

verus! {

pub const KEY_LEN: usize = 32;

pub const NONCE_LEN: usize = 12;

/// Largest plaintext, in bytes, that AES-GCM encrypts.
pub const MAX_PLAINTEXT: u64 = 68719476736;

/// Length of the authentication tag appended to each ciphertext.
pub const TAG_LEN: usize = 16;

pub const BAD_KEY_MSG: &'static str = "Encryption key must be 32 bytes";

pub const BAD_NONCE_MSG: &'static str = "Nonce must be 12 bytes";

pub const INVALID_DATA_MSG: &'static str = "Invalid encrypted data";

pub const ENCRYPT_FAILED_MSG: &'static str = "Encryption failed";

pub const DECRYPT_FAILED_MSG: &'static str = "Decryption failed";

pub const NOT_UTF8_MSG: &'static str = "UTF-8 conversion error";

pub uninterp spec fn aes_gcm_sealed(key: Seq<u8>, nonce: Seq<u8>, plaintext: Seq<u8>) -> Seq<u8>;

pub uninterp spec fn aes_gcm_opened(key: Seq<u8>, nonce: Seq<u8>, ciphertext: Seq<u8>) -> Option<Seq<u8>>;

/// Relies on aes-gcm's `Aes256Gcm::new_from_slice` (accepts any 32-byte key)
/// and `Aead::encrypt`: the ciphertext is a function of key, nonce and
/// plaintext, with a 16-byte tag appended; only a plaintext over 2^36
/// bytes is refused (`P_MAX`).
#[verifier::external_body]
fn seal(key: &[u8], nonce: &[u8], plaintext: &[u8]) -> (r: Option<Vec<u8>>)
    requires
        key@.len() == KEY_LEN,
        nonce@.len() == NONCE_LEN,
    ensures
        plaintext@.len() <= MAX_PLAINTEXT <==> r is Some,
        r matches Some(c) ==> c@ == aes_gcm_sealed(key@, nonce@, plaintext@)
            && c@.len() == plaintext@.len() + TAG_LEN,
{
    let cipher = Aes256Gcm::new_from_slice(key).ok()?;
    cipher.encrypt(Nonce::from_slice(nonce), plaintext).ok()
}

/// Relies on aes-gcm's `Aes256Gcm::new_from_slice` and `Aead::decrypt`:
/// whether the ciphertext authenticates, and the plaintext it gives, are
/// a function of key, nonce and ciphertext; a ciphertext that `encrypt`
/// produced under the same key and nonce opens to its plaintext.
#[verifier::external_body]
fn open(key: &[u8], nonce: &[u8], ciphertext: &[u8]) -> (r: Option<Vec<u8>>)
    requires
        key@.len() == KEY_LEN,
        nonce@.len() == NONCE_LEN,
    ensures
        match aes_gcm_opened(key@, nonce@, ciphertext@) {
            Some(p) => r matches Some(v) && v@ == p,
            None => r is None,
        },
        r is Some || forall|p: Seq<u8>| p.len() <= MAX_PLAINTEXT
            ==> #[trigger] aes_gcm_sealed(key@, nonce@, p) != ciphertext@,
        r matches Some(v) ==> forall|p: Seq<u8>| p.len() <= MAX_PLAINTEXT
            && #[trigger] aes_gcm_sealed(key@, nonce@, p) == ciphertext@ ==> v@ == p,
{
    let cipher = Aes256Gcm::new_from_slice(key).ok()?;
    cipher.decrypt(Nonce::from_slice(nonce), ciphertext).ok()
}

/// Relies on rand's `thread_rng` and `RngCore::fill_bytes`: `n` bytes, of
/// which nothing else is promised.
#[verifier::external_body]
fn random_bytes(n: usize) -> (r: Vec<u8>)
    ensures
        r@.len() == n,
{
    let mut v = vec![0u8; n];
    rand::thread_rng().fill_bytes(&mut v);
    v
}

/// Relies on `String::from_utf8`: it succeeds exactly on valid UTF-8 and
/// then holds the decoded characters.
#[verifier::external_body]
fn utf8_string(bytes: Vec<u8>) -> (r: Option<String>)
    ensures
        r is Some <==> valid_utf8(bytes@),
        r matches Some(s) ==> s@ == decode_utf8(bytes@),
{
    String::from_utf8(bytes).ok()
}

/// A fresh random key of the right length.
pub fn generate_random_key() -> (r: Vec<u8>)
    ensures
        r@.len() == KEY_LEN,
{
    random_bytes(KEY_LEN)
}

/// Encrypts `plaintext` under `key` with the given nonce, and stores the
/// nonce in front of the ciphertext.
pub fn encrypt_with_nonce(plaintext: &[u8], key: &[u8], nonce: &[u8]) -> (r: Result<Vec<u8>, String>)
    ensures
        key@.len() != KEY_LEN ==> (r matches Err(e) && e@ == BAD_KEY_MSG@),
        key@.len() == KEY_LEN && nonce@.len() != NONCE_LEN ==> (r matches Err(e) && e@ == BAD_NONCE_MSG@),
        key@.len() == KEY_LEN && nonce@.len() == NONCE_LEN && plaintext@.len() <= MAX_PLAINTEXT ==> r is Ok,
        r is Ok ==> plaintext@.len() <= MAX_PLAINTEXT,
        r matches Ok(v) ==> v@ == nonce@ + aes_gcm_sealed(key@, nonce@, plaintext@)
            && v@.len() == NONCE_LEN + plaintext@.len() + TAG_LEN,
{
    if key.len() != KEY_LEN {
        return Err(BAD_KEY_MSG.to_string());
    }
    if nonce.len() != NONCE_LEN {
        return Err(BAD_NONCE_MSG.to_string());
    }
    match seal(key, nonce, plaintext) {
        None => Err(ENCRYPT_FAILED_MSG.to_string()),
        Some(c) => {
            let mut out = slice_to_vec(nonce);
            let mut i: usize = 0;
            while i < c.len()
                invariant
                    i <= c@.len(),
                    out@ == nonce@ + c@.subrange(0, i as int),
                decreases c@.len() - i,
            {
                out.push(c[i]);
                proof {
                    assert(c@.subrange(0, i + 1) =~= c@.subrange(0, i as int).push(c@[i as int]));
                }
                i = i + 1;
            }
            assert(c@.subrange(0, c@.len() as int) =~= c@);
            Ok(out)
        },
    }
}

/// Encrypts a password under `key` with a fresh random nonce.
pub fn encrypt_password(password: &str, key: &[u8]) -> (r: Result<Vec<u8>, String>)
    ensures
        key@.len() != KEY_LEN ==> (r matches Err(e) && e@ == BAD_KEY_MSG@),
        key@.len() == KEY_LEN && password.spec_bytes().len() <= MAX_PLAINTEXT ==> r is Ok,
        r is Ok ==> password.spec_bytes().len() <= MAX_PLAINTEXT,
        r matches Ok(v) ==> v@.len() >= NONCE_LEN && v@.subrange(NONCE_LEN as int, v@.len() as int)
            == aes_gcm_sealed(key@, v@.subrange(0, NONCE_LEN as int), password.spec_bytes()),
{
    let nonce = random_bytes(NONCE_LEN);
    let r = encrypt_with_nonce(password.as_bytes(), key, nonce.as_slice());
    proof {
        if r is Ok {
            let v = r->Ok_0;
            assert(v@.subrange(0, NONCE_LEN as int) =~= nonce@);
            assert(v@.subrange(NONCE_LEN as int, v@.len() as int) =~= aes_gcm_sealed(key@, nonce@, password.spec_bytes()));
        }
    }
    r
}

/// What decrypting stored data gives: the nonce is its first 12 bytes and
/// the ciphertext the rest; the plaintext must be valid UTF-8.
pub open spec fn decrypted(encrypted: Seq<u8>, key: Seq<u8>) -> Result<Seq<char>, Seq<char>> {
    if key.len() != KEY_LEN {
        Err(BAD_KEY_MSG@)
    } else if encrypted.len() < NONCE_LEN {
        Err(INVALID_DATA_MSG@)
    } else {
        match aes_gcm_opened(key, encrypted.subrange(0, NONCE_LEN as int),
            encrypted.subrange(NONCE_LEN as int, encrypted.len() as int)) {
            None => Err(DECRYPT_FAILED_MSG@),
            Some(p) => if valid_utf8(p) {
                Ok(decode_utf8(p))
            } else {
                Err(NOT_UTF8_MSG@)
            },
        }
    }
}

/// Decrypts data written by `encrypt_password` under the same key.
pub fn decrypt_password(encrypted: &[u8], key: &[u8]) -> (r: Result<String, String>)
    ensures
        match decrypted(encrypted@, key@) {
            Ok(s) => r matches Ok(v) && v@ == s,
            Err(m) => r matches Err(e) && e@ == m,
        },
        key@.len() == KEY_LEN && encrypted@.len() >= NONCE_LEN ==> forall|p: Seq<u8>|
            p.len() <= MAX_PLAINTEXT && #[trigger] aes_gcm_sealed(key@, encrypted@.subrange(0, NONCE_LEN as int), p)
                == encrypted@.subrange(NONCE_LEN as int, encrypted@.len() as int) && valid_utf8(p)
            ==> (r matches Ok(v) && v@ == decode_utf8(p)),
{
    if key.len() != KEY_LEN {
        return Err(BAD_KEY_MSG.to_string());
    }
    if encrypted.len() < NONCE_LEN {
        return Err(INVALID_DATA_MSG.to_string());
    }
    let nonce = slice_subrange(encrypted, 0, NONCE_LEN);
    let ciphertext = slice_subrange(encrypted, NONCE_LEN, encrypted.len());
    match open(key, nonce, ciphertext) {
        None => Err(DECRYPT_FAILED_MSG.to_string()),
        Some(p) => match utf8_string(p) {
            Some(s) => Ok(s),
            None => Err(NOT_UTF8_MSG.to_string()),
        },
    }
}

} // verus!
