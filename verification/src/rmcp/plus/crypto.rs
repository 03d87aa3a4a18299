//! Payload protection: HMAC tags, AES-128-CBC confidentiality and the
//! integrity trailer.
//!
//! The hash and the cipher themselves are computed by outside crates. What
//! they return is named here by functions without a definition; everything
//! built around them (padding, framing, truncation, comparison) is verified.

use crate::err::{ECrypto, Error};
use crate::helpers::{append_bytes, append_repeated, bytes_eq, copy_range, read_u128_le};
use aes::cipher::block_padding::NoPadding;
use aes::cipher::{BlockDecryptMut, BlockEncryptMut, KeyIvInit};
use hmac::{Hmac, Mac};
use sha2::Sha256;
use vstd::prelude::*;

verus! {

/// The HMAC-SHA1 tag of `data` under `key`.
pub uninterp spec fn hmac_sha1_of(key: Seq<u8>, data: Seq<u8>) -> Seq<u8>;

/// The HMAC-SHA256 tag of `data` under `key`.
pub uninterp spec fn hmac_sha256_of(key: Seq<u8>, data: Seq<u8>) -> Seq<u8>;

/// The AES-128-CBC encryption of the whole blocks `blocks` under `key`,
/// chained from `iv`.
pub uninterp spec fn aes128_cbc_encrypted(key: Seq<u8>, iv: Seq<u8>, blocks: Seq<u8>) -> Seq<u8>;

/// The AES-128-CBC decryption of the whole blocks `blocks` under `key`,
/// chained from `iv`.
pub uninterp spec fn aes128_cbc_decrypted(key: Seq<u8>, iv: Seq<u8>, blocks: Seq<u8>) -> Seq<u8>;

/// The error with which the cipher refuses a message that is not a whole
/// number of blocks.
#[verifier::external_type_specification]
#[verifier::external_body]
pub struct ExPadError(aes::cipher::inout::PadError);

/// The error with which the cipher refuses a ciphertext that is not a whole
/// number of blocks.
#[verifier::external_type_specification]
#[verifier::external_body]
pub struct ExUnpadError(aes::cipher::block_padding::UnpadError);

/// The AES block size, and the length of an initialisation vector.
pub const BLOCK_SIZE: usize = 16;

/// The length of the authentication code that ends an integrity trailer:
/// HMAC-SHA1 truncated to 96 bits.
pub const AUTH_CODE_LEN: usize = 12;

/// The next-header byte of an RMCP+ integrity trailer.
pub const NEXT_HEADER: u8 = 0x07;

/// Computes HMAC-SHA1 with `hmac_sha1::hmac_sha1`. The contract names the
/// tag; it claims nothing else of it than its twenty bytes.
#[verifier::external_body]
pub fn hash_hmac_sha1(key: &[u8], data: &[u8]) -> (tag: [u8; 20])
    ensures
        tag@ == hmac_sha1_of(key@, data@),
{
    hmac_sha1::hmac_sha1(key, data)
}

/// Computes HMAC-SHA256 with `hmac::Hmac<sha2::Sha256>`: `new_from_slice`,
/// which accepts a key of any length, then `update` and `finalize`. The
/// contract names the tag; it claims nothing else of it than its thirty-two
/// bytes.
#[verifier::external_body]
pub fn hash_hmac_sha_256(key: Vec<u8>, data: Vec<u8>) -> (tag: [u8; 32])
    ensures
        tag@ == hmac_sha256_of(key@, data@),
{
    let mut mac = Hmac::<Sha256>::new_from_slice(key.as_slice()).expect("any key length");
    mac.update(data.as_slice());
    mac.finalize().into_bytes().into()
}

/// One byte from `rand::random`. Nothing is claimed of it.
#[verifier::external_body]
fn random_byte() -> u8 {
    rand::random::<u8>()
}

/// Encrypts with `encrypt_padded_mut` of `cbc::Encryptor<aes::Aes128>`,
/// with `NoPadding`. The cipher refuses a message that is not a whole number
/// of blocks and accepts every other; the ciphertext is as long as the
/// message, and decrypting it under the same key and vector gives the
/// message back.
#[verifier::external_body]
fn cbc_encrypt_blocks(key: &[u8; 16], iv: &[u8; 16], blocks: Vec<u8>) -> (out: Result<
    Vec<u8>,
    aes::cipher::inout::PadError,
>)
    ensures
        out is Ok <==> blocks@.len() % 16 == 0,
        out matches Ok(ct) ==> {
            &&& ct@ == aes128_cbc_encrypted(key@, iv@, blocks@)
            &&& ct@.len() == blocks@.len()
            &&& aes128_cbc_decrypted(key@, iv@, ct@) == blocks@
        },
{
    let mut buf = blocks;
    let len = buf.len();
    let ct = cbc::Encryptor::<aes::Aes128>::new(key.into(), iv.into())
        .encrypt_padded_mut::<NoPadding>(&mut buf, len)?;
    Ok(ct.to_vec())
}

/// Decrypts with `decrypt_padded_mut` of `cbc::Decryptor<aes::Aes128>`,
/// with `NoPadding`. The cipher refuses a ciphertext that is not a whole
/// number of blocks and accepts every other; the plaintext is as long as
/// the ciphertext.
#[verifier::external_body]
fn cbc_decrypt_blocks(key: &[u8; 16], iv: &[u8; 16], blocks: Vec<u8>) -> (out: Result<
    Vec<u8>,
    aes::cipher::block_padding::UnpadError,
>)
    ensures
        out is Ok <==> blocks@.len() % 16 == 0,
        out matches Ok(pt) ==> {
            &&& pt@ == aes128_cbc_decrypted(key@, iv@, blocks@)
            &&& pt@.len() == blocks@.len()
        },
{
    let mut buf = blocks;
    let pt = cbc::Decryptor::<aes::Aes128>::new(key.into(), iv.into())
        .decrypt_padded_mut::<NoPadding>(&mut buf)?;
    Ok(pt.to_vec())
}

/// A fresh initialisation vector of sixteen random bytes.
pub fn generate_iv() -> (iv: [u8; 16]) {
    let mut iv = [0u8; 16];
    let mut i: usize = 0;
    while i < 16
        invariant
            i <= 16,
        decreases 16 - i,
    {
        iv[i] = random_byte();
        i += 1;
    }
    iv
}

/// A fresh random number of 128 bits, for the console's side of the key
/// exchange.
pub fn generate_nonce() -> (nonce: u128) {
    let bytes = generate_iv();
    read_u128_le(&bytes, 0)
}

/// The first sixteen bytes of the confidentiality key K2: the AES key.
pub fn aes_key(k2: &[u8; 20]) -> (key: [u8; 16])
    ensures
        key@ == k2@.subrange(0, 16),
{
    let mut key = [0u8; 16];
    let mut i: usize = 0;
    while i < 16
        invariant
            i <= 16,
            forall|j: int| 0 <= j < i ==> key@[j] == k2@[j],
        decreases 16 - i,
    {
        key[i] = k2[i];
        i += 1;
    }
    assert(key@ =~= k2@.subrange(0, 16));
    key
}

/// The number of pad bytes that follow a payload of `len` bytes: between 1
/// and `block_size`, such that payload, pad bytes and the pad-length byte
/// fill whole blocks.
pub open spec fn confidentiality_pad_len(len: nat, block_size: nat) -> nat {
    (block_size - (len + 1) % block_size) as nat
}

/// A payload with its confidentiality padding: the pad bytes `1, 2, .., n`
/// and then `n` itself.
pub open spec fn padded(data: Seq<u8>, block_size: nat) -> Seq<u8> {
    let n = confidentiality_pad_len(data.len(), block_size);
    data + Seq::new(n, |i: int| (i + 1) as u8) + seq![n as u8]
}

/// What is left of a decrypted payload once its padding is stripped: all
/// but the last byte and as many bytes before it as that byte says. There is
/// none where the last byte asks for more than there is.
pub open spec fn unpadded(plain: Seq<u8>) -> Option<Seq<u8>> {
    if plain.len() == 0 || plain.last() as int + 1 > plain.len() {
        None
    } else {
        Some(plain.subrange(0, plain.len() - plain.last() as int - 1))
    }
}

/// Stripping the padding gives the payload back, and a padded payload fills
/// whole blocks of sixteen bytes.
pub proof fn lemma_unpadded_padded(data: Seq<u8>)
    ensures
        unpadded(padded(data, 16)) == Some(data),
        padded(data, 16).len() == data.len() + (16 - (data.len() + 1) % 16) + 1,
        padded(data, 16).len() % 16 == 0,
        padded(data, 16).len() >= 16,
{
    let n = confidentiality_pad_len(data.len(), 16);
    let p = padded(data, 16);
    assert(1 <= n <= 16);
    assert(p.len() == data.len() + n + 1);
    assert(p.last() == n as u8);
    assert(p.subrange(0, p.len() - n - 1) =~= data);
}

/// Appends the confidentiality padding for blocks of `block_size` bytes.
pub fn padding_data(data: &mut Vec<u8>, block_size: usize)
    requires
        0 < block_size <= 255,
        old(data)@.len() + block_size + 1 <= usize::MAX,
    ensures
        final(data)@ == padded(old(data)@, block_size as nat),
{
    let origin_length = data.len();
    let m = (origin_length + 1) % block_size;
    let pad_len = block_size - m;
    let mut i: usize = 0;
    while i < pad_len
        invariant
            i <= pad_len <= block_size <= 255,
            data@ == old(data)@ + Seq::new(i as nat, |j: int| (j + 1) as u8),
        decreases pad_len - i,
    {
        data.push((i + 1) as u8);
        proof {
            assert(data@ =~= old(data)@ + Seq::new((i + 1) as nat, |j: int| (j + 1) as u8));
        }
        i += 1;
    }
    data.push(pad_len as u8);
}

/// Strips the confidentiality padding from a decrypted payload.
pub fn strip_padding(plain: &[u8]) -> (payload: Result<Vec<u8>, Error>)
    ensures
        match unpadded(plain@) {
            Some(p) => payload matches Ok(v) && v@ == p,
            None => payload == Err::<Vec<u8>, Error>(Error::Crypto(ECrypto::Unpad)),
        },
{
    let len = plain.len();
    if len == 0 {
        return Err(Error::Crypto(ECrypto::Unpad));
    }
    let number_of_padded_bytes = plain[len - 1] as usize;
    if number_of_padded_bytes + 1 > len {
        return Err(Error::Crypto(ECrypto::Unpad));
    }
    Ok(copy_range(plain, 0, len - (number_of_padded_bytes + 1)))
}

/// The wire form of an encrypted payload: the vector, then the ciphertext
/// of the padded payload.
pub open spec fn encrypted_payload(payload: Seq<u8>, key: Seq<u8>, iv: Seq<u8>) -> Seq<u8> {
    iv + aes128_cbc_encrypted(key, iv, padded(payload, 16))
}

/// The payload that the wire form `bytes` holds, or why it holds none.
pub open spec fn decrypted_payload(bytes: Seq<u8>, key: Seq<u8>) -> Result<Seq<u8>, Error> {
    if bytes.len() < 32 || bytes.len() % 16 != 0 {
        Err(Error::Crypto(ECrypto::Unpad))
    } else {
        match unpadded(
            aes128_cbc_decrypted(
                key,
                bytes.subrange(0, 16),
                bytes.subrange(16, bytes.len() as int),
            ),
        ) {
            Some(p) => Ok(p),
            None => Err(Error::Crypto(ECrypto::Unpad)),
        }
    }
}

/// The length of the wire form of an encrypted payload of `len` bytes: the
/// vector and the padded payload.
pub open spec fn encrypted_len(len: nat) -> nat {
    (16 + len + (16 - (len + 1) % 16) + 1) as nat
}

/// Pads and encrypts `payload_bytes` under `key`, chaining from `iv`, and
/// puts the vector in front. Decrypting the result gives the payload back.
pub fn aes_128_cbc_encrypt_with_iv(payload_bytes: Vec<u8>, key: [u8; 16], iv: [u8; 16]) -> (out:
    Vec<u8>)
    requires
        payload_bytes@.len() + 33 <= usize::MAX,
    ensures
        out@ == encrypted_payload(payload_bytes@, key@, iv@),
        out@.len() == encrypted_len(payload_bytes@.len()),
        out@.len() % 16 == 0,
        decrypted_payload(out@, key@) == Ok::<Seq<u8>, Error>(payload_bytes@),
{
    let mut data = payload_bytes;
    let ghost payload = data@;
    padding_data(&mut data, BLOCK_SIZE);
    proof {
        lemma_unpadded_padded(payload);
    }
    let mut ret: Vec<u8> = Vec::new();
    append_bytes(&mut ret, &iv);
    match cbc_encrypt_blocks(&key, &iv, data) {
        Ok(ct) => {
            append_bytes(&mut ret, ct.as_slice());
            proof {
                assert(ret@.subrange(0, 16) =~= iv@);
                assert(ret@.subrange(16, ret@.len() as int) =~= ct@);
            }
        },
        Err(_) => {
            assert(false);
        },
    }
    ret
}

/// Pads and encrypts `payload_bytes` under `key` with a fresh random vector,
/// which it puts in front. Decrypting the result gives the payload back.
pub fn aes_128_cbc_encrypt(payload_bytes: Vec<u8>, key: [u8; 16]) -> (out: Vec<u8>)
    requires
        payload_bytes@.len() + 33 <= usize::MAX,
    ensures
        out@ == encrypted_payload(payload_bytes@, key@, out@.subrange(0, 16)),
        out@.len() == encrypted_len(payload_bytes@.len()),
        decrypted_payload(out@, key@) == Ok::<Seq<u8>, Error>(payload_bytes@),
{
    let iv = generate_iv();
    let out = aes_128_cbc_encrypt_with_iv(payload_bytes, key, iv);
    proof {
        assert(out@.subrange(0, 16) =~= iv@);
    }
    out
}

/// Decrypts the wire form of an encrypted payload (the vector, then the
/// ciphertext) and strips the padding.
pub fn aes_128_cbc_decrypt(encrypted_bytes: &[u8], key: [u8; 16]) -> (payload: Result<
    Vec<u8>,
    Error,
>)
    ensures
        match decrypted_payload(encrypted_bytes@, key@) {
            Ok(p) => payload matches Ok(v) && v@ == p,
            Err(e) => payload == Err::<Vec<u8>, Error>(e),
        },
{
    let len = encrypted_bytes.len();
    if len < 32 || len % 16 != 0 {
        return Err(Error::Crypto(ECrypto::Unpad));
    }
    let mut iv = [0u8; 16];
    let mut i: usize = 0;
    while i < 16
        invariant
            i <= 16,
            len >= 32,
            len == encrypted_bytes@.len(),
            forall|j: int| 0 <= j < i ==> iv@[j] == encrypted_bytes@[j],
        decreases 16 - i,
    {
        iv[i] = encrypted_bytes[i];
        i += 1;
    }
    assert(iv@ =~= encrypted_bytes@.subrange(0, 16));
    let blocks = copy_range(encrypted_bytes, 16, len);
    match cbc_decrypt_blocks(&key, &iv, blocks) {
        Ok(plain) => strip_padding(plain.as_slice()),
        Err(_) => {
            assert(false);
            Err(Error::Crypto(ECrypto::Unpad))
        },
    }
}

/// The number of 0xFF bytes that the integrity trailer puts after `len`
/// bytes, so that they, the pad-length byte and the next-header byte end on
/// a multiple of four.
pub open spec fn integrity_pad_len(len: nat) -> nat {
    ((4 - (len + 2) % 4) % 4) as nat
}

/// What the authentication code of a trailer covers: the data, the
/// integrity pad, the pad length and the next-header byte.
pub open spec fn trailer_covered(data: Seq<u8>) -> Seq<u8> {
    let n = integrity_pad_len(data.len());
    data + Seq::new(n, |i: int| 0xffu8) + seq![n as u8, NEXT_HEADER]
}

/// Data followed by its integrity trailer under the integrity key `k1`.
pub open spec fn with_trailer(data: Seq<u8>, k1: Seq<u8>) -> Seq<u8> {
    trailer_covered(data) + hmac_sha1_of(k1, trailer_covered(data)).subrange(0, 12)
}

/// Whether `bytes` end in a trailer whose authentication code is the one
/// that `k1` gives for all that precedes it.
pub open spec fn trailer_verifies(bytes: Seq<u8>, k1: Seq<u8>) -> bool {
    &&& bytes.len() >= 14
    &&& bytes[bytes.len() - 13] == NEXT_HEADER
    &&& bytes.subrange(bytes.len() - 12, bytes.len() as int) == hmac_sha1_of(
        k1,
        bytes.subrange(0, bytes.len() - 12),
    ).subrange(0, 12)
}

/// The trailer that `add_tailer` appends verifies, and ends on a multiple of
/// four before its authentication code.
pub proof fn lemma_trailer_verifies(data: Seq<u8>, k1: Seq<u8>)
    requires
        hmac_sha1_of(k1, trailer_covered(data)).len() == 20,
    ensures
        trailer_verifies(with_trailer(data, k1), k1),
        with_trailer(data, k1).len() == data.len() + integrity_pad_len(data.len()) + 14,
        trailer_covered(data).len() % 4 == 0,
        with_trailer(data, k1)[with_trailer(data, k1).len() - 14] == integrity_pad_len(
            data.len(),
        ) as u8,
{
    let c = trailer_covered(data);
    let w = with_trailer(data, k1);
    let n = integrity_pad_len(data.len());
    assert(c.len() == data.len() + n + 2);
    assert(w.len() == c.len() + 12);
    assert(w.subrange(0, w.len() - 12) =~= c);
    assert(w.subrange(w.len() - 12, w.len() as int) =~= hmac_sha1_of(k1, c).subrange(0, 12));
    assert(w[w.len() - 13] == c[c.len() - 1]);
    assert(w[w.len() - 14] == c[c.len() - 2]);
}

/// Appends the integrity pad, the pad length and the next-header byte.
pub fn add_integrity_pad(data: &mut Vec<u8>)
    requires
        old(data)@.len() + 5 <= usize::MAX,
    ensures
        final(data)@ == trailer_covered(old(data)@),
{
    let origin_len = data.len();
    let m = (origin_len + 2) % 4;
    let pad_len = (4 - m) % 4;
    append_repeated(data, 0xff, pad_len);
    data.push(pad_len as u8);
    data.push(NEXT_HEADER);
    assert(data@ =~= trailer_covered(old(data)@));
}

/// Appends the first twelve bytes of `tag`.
pub fn append_auth_code(data: &mut Vec<u8>, tag: &[u8; 20])
    ensures
        final(data)@ == old(data)@ + tag@.subrange(0, 12),
{
    let mut i: usize = 0;
    while i < AUTH_CODE_LEN
        invariant
            i <= 12,
            data@ == old(data)@ + tag@.subrange(0, i as int),
        decreases 12 - i,
    {
        data.push(tag[i]);
        proof {
            assert(data@ =~= old(data)@ + tag@.subrange(0, i + 1));
        }
        i += 1;
    }
}

/// Appends the integrity trailer: 0xFF bytes up to a multiple of four, the
/// pad length, the next-header byte 0x07 and the first twelve bytes of the
/// HMAC-SHA1, under `k1`, of all that now precedes the code.
pub fn add_tailer(data: &mut Vec<u8>, k1: [u8; 20])
    requires
        old(data)@.len() + 17 <= usize::MAX,
    ensures
        final(data)@ == with_trailer(old(data)@, k1@),
        final(data)@.len() == old(data)@.len() + integrity_pad_len(old(data)@.len()) + 14,
        final(data)@[final(data)@.len() - 14] == integrity_pad_len(old(data)@.len()) as u8,
        trailer_verifies(final(data)@, k1@),
{
    add_integrity_pad(data);
    let auth_code = hash_hmac_sha1(&k1, data.as_slice());
    append_auth_code(data, &auth_code);
    proof {
        lemma_trailer_verifies(old(data)@, k1@);
    }
}

/// Whether the twelve bytes at the end of `bytes` are the start of `tag`.
pub fn auth_code_matches(bytes: &[u8], tag: &[u8; 20]) -> (same: bool)
    requires
        bytes@.len() >= 12,
    ensures
        same == (bytes@.subrange(bytes@.len() - 12, bytes@.len() as int) == tag@.subrange(0, 12)),
{
    let len = bytes.len();
    let received = vstd::slice::slice_subrange(bytes, len - 12, len);
    let expected = vstd::slice::slice_subrange(tag.as_slice(), 0, 12);
    bytes_eq(received, expected)
}

/// Checks the integrity trailer at the end of `bytes`: the next-header byte
/// and the authentication code, recomputed under `k1` over all that
/// precedes it.
pub fn verify_tailer(bytes: &[u8], k1: &[u8; 20]) -> (valid: bool)
    ensures
        valid == trailer_verifies(bytes@, k1@),
{
    let len = bytes.len();
    if len < 14 {
        return false;
    }
    if bytes[len - 13] != NEXT_HEADER {
        return false;
    }
    let covered = vstd::slice::slice_subrange(bytes, 0, len - 12);
    let tag = hash_hmac_sha1(k1.as_slice(), covered);
    auth_code_matches(bytes, &tag)
}

} // verus!
