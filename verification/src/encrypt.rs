//! The credential cipher: the password encryption the login form demands,
//! and the student-id encryption one course-service call demands.
//!
//! The block ciphers, the base64 codec and the hex encoder are outside
//! code; each is reached through one trusted wrapper.  The padding and key
//! derivation around them are verified.

use vstd::prelude::*;
use vstd::string::StringSliceAdditionalSpecFns;

use base64::Engine;
use crypto::cipher::consts::{U16, U8};
use crypto::cipher::generic_array::GenericArray;
use crypto::cipher::{BlockEncryptMut, KeyInit};

use crate::errors::{ApiError, SSOError, SSOResult};

verus! {

/// What the standard base64 decoder yields on `s`: the decoded bytes, or
/// nothing when `s` is not well-formed base64.
pub uninterp spec fn b64_decode_of(s: Seq<char>) -> Option<Seq<u8>>;

/// What the standard base64 encoder yields on `b`.
pub uninterp spec fn b64_encode_of(b: Seq<u8>) -> Seq<char>;

/// What DES in ECB mode, under `key`, yields on the block-aligned `data`.
pub uninterp spec fn des_ecb_of(key: Seq<u8>, data: Seq<u8>) -> Seq<u8>;

/// What AES-128 in ECB mode, under `key`, yields on the block-aligned
/// `data`.
pub uninterp spec fn aes128_ecb_of(key: Seq<u8>, data: Seq<u8>) -> Seq<u8>;

/// Relies on `base64::engine::general_purpose::STANDARD`'s `decode`: the
/// result depends on the input characters alone, and decoding fails exactly
/// on ill-formed input.
#[verifier::external_body]
fn b64_decode(s: &str) -> (r: Option<Vec<u8>>)
    ensures
        r is Some <==> b64_decode_of(s@) is Some,
        r matches Some(v) ==> Some(v@) == b64_decode_of(s@),
{
    base64::engine::general_purpose::STANDARD.decode(s).ok()
}

/// Relies on `base64::engine::general_purpose::STANDARD`'s `encode`: the
/// result depends on the input bytes alone.
#[verifier::external_body]
fn b64_encode(b: &[u8]) -> (r: String)
    ensures
        r@ == b64_encode_of(b@),
{
    base64::engine::general_purpose::STANDARD.encode(b)
}

/// Relies on `ecb::Encryptor<des::Des>`: ECB mode encrypts each 8-byte
/// block independently under the 8-byte key, in place, so the result is a
/// function of key and data alone.
#[verifier::external_body]
fn des_ecb_encrypt(key: &[u8], data: &[u8]) -> (r: Vec<u8>)
    requires
        key@.len() == 8,
        data@.len() % 8 == 0,
    ensures
        r@ == des_ecb_of(key@, data@),
{
    let mut blocks: Vec<GenericArray<u8, U8>> =
        data.chunks(8).map(GenericArray::clone_from_slice).collect();
    let mut enc = ecb::Encryptor::<des::Des>::new_from_slice(key)
        .expect("the key is eight bytes");
    enc.encrypt_blocks_mut(&mut blocks);
    let mut out = Vec::with_capacity(data.len());
    for block in blocks {
        out.extend_from_slice(&block);
    }
    out
}

/// Relies on `ecb::Encryptor<aes::Aes128>`: ECB mode encrypts each 16-byte
/// block independently under the 16-byte key, in place, so the result is a
/// function of key and data alone.
#[verifier::external_body]
fn aes128_ecb_encrypt(key: &[u8], data: &[u8]) -> (r: Vec<u8>)
    requires
        key@.len() == 16,
        data@.len() % 16 == 0,
    ensures
        r@ == aes128_ecb_of(key@, data@),
{
    let mut blocks: Vec<GenericArray<u8, U16>> =
        data.chunks(16).map(GenericArray::clone_from_slice).collect();
    let mut enc = ecb::Encryptor::<aes::Aes128>::new_from_slice(key)
        .expect("the key is sixteen bytes");
    enc.encrypt_blocks_mut(&mut blocks);
    let mut out = Vec::with_capacity(data.len());
    for block in blocks {
        out.extend_from_slice(&block);
    }
    out
}

/// The upper-case hex digit of the value `v`.
pub open spec fn hex_digit_upper(v: u8) -> char
    recommends
        v < 16,
{
    if v == 0 {
        '0'
    } else if v == 1 {
        '1'
    } else if v == 2 {
        '2'
    } else if v == 3 {
        '3'
    } else if v == 4 {
        '4'
    } else if v == 5 {
        '5'
    } else if v == 6 {
        '6'
    } else if v == 7 {
        '7'
    } else if v == 8 {
        '8'
    } else if v == 9 {
        '9'
    } else if v == 10 {
        'A'
    } else if v == 11 {
        'B'
    } else if v == 12 {
        'C'
    } else if v == 13 {
        'D'
    } else if v == 14 {
        'E'
    } else {
        'F'
    }
}

/// The upper-case hex encoding of `data`: two digits for each byte, high
/// nibble first.
pub open spec fn hex_upper(data: Seq<u8>) -> Seq<char>
    decreases data.len(),
{
    if data.len() == 0 {
        seq![]
    } else {
        hex_upper(data.drop_last()) + seq![
            hex_digit_upper(data.last() / 16),
            hex_digit_upper(data.last() % 16),
        ]
    }
}

/// Relies on `hex::encode_upper`: two upper-case hex digits for each input
/// byte, high nibble first.
#[verifier::external_body]
fn hex_encode_upper(b: &[u8]) -> (r: String)
    ensures
        r@ == hex_upper(b@),
{
    hex::encode_upper(b)
}

/// `data` extended to a whole number of `bs`-byte blocks: `k` copies of the
/// byte `k` are appended, where `k` is the distance to the next block
/// boundary (a full block when `data` is already aligned).
pub open spec fn pkcs7_pad(data: Seq<u8>, bs: int) -> Seq<u8>
    recommends
        0 < bs <= 255,
{
    let k = bs - (data.len() as int) % bs;
    data + Seq::new(k as nat, |i: int| k as u8)
}

/// The padded sequence fills whole blocks.
pub proof fn lemma_pkcs7_pad_aligned(data: Seq<u8>, bs: int)
    requires
        0 < bs <= 255,
    ensures
        pkcs7_pad(data, bs).len() as int % bs == 0,
        pkcs7_pad(data, bs).len() > 0,
{
    let n = data.len() as int;
    let k = bs - n % bs;
    assert(pkcs7_pad(data, bs).len() == n + k);
    assert((n + (bs - n % bs)) % bs == 0) by (nonlinear_arith)
        requires
            0 < bs,
            n >= 0,
    ;
}

fn pad_with(data: &[u8], bs: usize) -> (r: Vec<u8>)
    requires
        0 < bs <= 255,
    ensures
        r@ == pkcs7_pad(data@, bs as int),
{
    let n = data.len();
    let k = bs - n % bs;
    let mut r: Vec<u8> = Vec::new();
    let mut i: usize = 0;
    while i < n
        invariant
            i <= n,
            n == data@.len(),
            r@ == data@.take(i as int),
        decreases n - i,
    {
        r.push(data[i]);
        assert(r@ =~= data@.take(i + 1 as int));
        i += 1;
    }
    assert(r@ =~= data@);
    let mut j: usize = 0;
    while j < k
        invariant
            j <= k,
            0 < k <= bs <= 255,
            n == data@.len(),
            k == bs - n % bs,
            r@.len() == n + j,
            r@ == data@ + Seq::new(j as nat, |t: int| k as u8),
        decreases k - j,
    {
        r.push(k as u8);
        assert(r@ =~= data@ + Seq::new((j + 1) as nat, |t: int| k as u8));
        j += 1;
    }
    assert(r@ =~= pkcs7_pad(data@, bs as int));
    r
}

/// `data` padded to 8-byte blocks, as the DES step of the login cipher
/// demands.
pub fn pad8(data: &[u8]) -> (r: Vec<u8>)
    ensures
        r@ == pkcs7_pad(data@, 8),
{
    pad_with(data, 8)
}

/// `data` padded to 16-byte blocks, as the AES step of the student-id
/// cipher demands.
pub fn pad16(data: &[u8]) -> (r: Vec<u8>)
    ensures
        r@ == pkcs7_pad(data@, 16),
{
    pad_with(data, 16)
}

/// The 8-byte DES key block derived from a decoded salt: the salt's bytes,
/// right-padded with `0xFF`.
pub open spec fn key_block_of(salt: Seq<u8>) -> Seq<u8>
    recommends
        salt.len() <= 8,
{
    Seq::new(8, |i: int| if i < salt.len() { salt[i] } else { 0xffu8 })
}

/// What encrypting `pwd_bytes` against the base64 salt `salt_b64` yields:
/// nothing when the salt does not decode, or decodes to more than the key
/// block holds; otherwise the base64 of the DES-ECB encryption of the
/// PKCS#7-padded password under the salt-derived key.
pub open spec fn spec_encrypt_password(salt_b64: Seq<char>, pwd_bytes: Seq<u8>) -> Option<
    Seq<char>,
> {
    match b64_decode_of(salt_b64) {
        None => None,
        Some(salt) => if salt.len() <= 8 {
            Some(b64_encode_of(des_ecb_of(key_block_of(salt), pkcs7_pad(pwd_bytes, 8))))
        } else {
            None
        },
    }
}

/// Encrypt `password` against the base64 salt `page_crypto`, exactly as
/// [`spec_encrypt_password`] states.  The one failure is a salt that cannot
/// serve: it does not decode, or it is longer than the 8-byte key block.
pub fn encrypt_password(page_crypto: &str, password: &str) -> (r: SSOResult<String>)
    ensures
        r is Ok <==> spec_encrypt_password(page_crypto@, password.spec_bytes()) is Some,
        r matches Ok(c) ==> Some(c@) == spec_encrypt_password(
            page_crypto@,
            password.spec_bytes(),
        ),
        r matches Err(e) ==> e == (ApiError::Inner {
            source: SSOError::PasswordEncryptError,
        }),
{
    let salt = match b64_decode(page_crypto) {
        None => {
            return Err(ApiError::Inner { source: SSOError::PasswordEncryptError });
        },
        Some(v) => v,
    };
    if salt.len() > 8 {
        return Err(ApiError::Inner { source: SSOError::PasswordEncryptError });
    }
    let mut key: Vec<u8> = Vec::new();
    let mut i: usize = 0;
    while i < 8
        invariant
            i <= 8,
            salt@.len() <= 8,
            key@.len() == i,
            forall|t: int| 0 <= t < i ==> key@[t] == key_block_of(salt@)[t],
        decreases 8 - i,
    {
        if i < salt.len() {
            key.push(salt[i]);
        } else {
            key.push(0xffu8);
        }
        i += 1;
    }
    assert(key@ =~= key_block_of(salt@));
    let padded = pad8(password.as_bytes());
    proof {
        lemma_pkcs7_pad_aligned(password.spec_bytes(), 8);
    }
    let cipher_bytes = des_ecb_encrypt(key.as_slice(), padded.as_slice());
    Ok(b64_encode(cipher_bytes.as_slice()))
}

/// The cipher is pure and deterministic: what it yields is a function of
/// the salt's characters and the password's bytes alone, so two runs on
/// identical inputs yield identical output.  `encrypt_password`'s contract
/// pins every run to [`spec_encrypt_password`], from which this follows.
pub proof fn lemma_encrypt_password_deterministic(
    salt_b64: Seq<char>,
    pwd_bytes: Seq<u8>,
    r1: Option<Seq<char>>,
    r2: Option<Seq<char>>,
)
    requires
        r1 == spec_encrypt_password(salt_b64, pwd_bytes),
        r2 == spec_encrypt_password(salt_b64, pwd_bytes),
    ensures
        r1 == r2,
{
}

/// The fixed AES key of the student-id cipher: the ASCII bytes of
/// `cquisse123456789`.
pub open spec fn student_id_key() -> Seq<u8> {
    seq![99u8, 113, 117, 105, 115, 115, 101, 49, 50, 51, 52, 53, 54, 55, 56, 57]
}

/// What encrypting a student id yields: the upper-case hex of the AES-ECB
/// encryption of the PKCS#7-padded id bytes under the fixed key.
pub open spec fn spec_encrypt_student_id(id_bytes: Seq<u8>) -> Seq<char> {
    hex_upper(aes128_ecb_of(student_id_key(), pkcs7_pad(id_bytes, 16)))
}

/// Encrypt a student id for the exam-list call, exactly as
/// [`spec_encrypt_student_id`] states.
pub fn encrypt_student_id(student_id: &str) -> (r: String)
    ensures
        r@ == spec_encrypt_student_id(student_id.spec_bytes()),
{
    let key: Vec<u8> = vec![
        99u8, 113, 117, 105, 115, 115, 101, 49, 50, 51, 52, 53, 54, 55, 56, 57,
    ];
    assert(key@ =~= student_id_key());
    let padded = pad16(student_id.as_bytes());
    proof {
        lemma_pkcs7_pad_aligned(student_id.spec_bytes(), 16);
    }
    let cipher_bytes = aes128_ecb_encrypt(key.as_slice(), padded.as_slice());
    hex_encode_upper(cipher_bytes.as_slice())
}

} // verus!
