use vstd::prelude::*;

use crate::errors::NcmError;

verus! {

/// What AES-128 decryption of a single 16-byte block returns for a given key
/// and block. The algorithm itself is the aes crate's concern; contracts only
/// need the value to be a function of the key and the block.
pub uninterp spec fn aes128_block_decryption(key: Seq<u8>, block: Seq<u8>) -> Seq<u8>;

/// What AES-128 encryption of a single 16-byte block returns for a given key
/// and block.
pub uninterp spec fn aes128_block_encryption(key: Seq<u8>, block: Seq<u8>) -> Seq<u8>;

/// Relies on aes::Aes128Dec with cipher::BlockDecrypt::decrypt_block: one
/// AES-128 block decryption in ECB fashion, whose 16-byte result is a
/// function of the key and the input block alone.
#[verifier::external_body]
fn aes128_decrypt_one_block(key: &[u8; 16], block: &Vec<u8>) -> (r: Vec<u8>)
    requires
        block@.len() == 16,
    ensures
        r@ == aes128_block_decryption(key@, block@),
        r@.len() == 16,
{
    let cipher = <aes::Aes128Dec as aes::cipher::KeyInit>::new(key.into());
    let mut b = aes::cipher::generic_array::GenericArray::clone_from_slice(block.as_slice());
    aes::cipher::BlockDecrypt::decrypt_block(&cipher, &mut b);
    b.to_vec()
}

/// Relies on aes::Aes128Enc with cipher::BlockEncrypt::encrypt_block: one
/// AES-128 block encryption, whose 16-byte result is a function of the key
/// and the input block alone; aes::Aes128Dec under the same key inverts it,
/// which is the defining property of the block cipher pair.
#[verifier::external_body]
fn aes128_encrypt_one_block(key: &[u8; 16], block: &Vec<u8>) -> (r: Vec<u8>)
    requires
        block@.len() == 16,
    ensures
        r@ == aes128_block_encryption(key@, block@),
        r@.len() == 16,
        aes128_block_decryption(key@, r@) == block@,
{
    let cipher = <aes::Aes128Enc as aes::cipher::KeyInit>::new(key.into());
    let mut b = aes::cipher::generic_array::GenericArray::clone_from_slice(block.as_slice());
    aes::cipher::BlockEncrypt::encrypt_block(&cipher, &mut b);
    b.to_vec()
}

/// The `k`-th 16-byte block of a byte sequence.
pub open spec fn block_at(s: Seq<u8>, k: int) -> Seq<u8> {
    s.subrange(16 * k, 16 * k + 16)
}

/// The concatenation of the first `k` blocks of `s`, each decrypted. Any
/// trailing partial block of `s` beyond the first `k` never contributes.
pub open spec fn decrypted_prefix(key: Seq<u8>, s: Seq<u8>, k: int) -> Seq<u8>
    decreases k,
{
    if k <= 0 {
        Seq::empty()
    } else {
        decrypted_prefix(key, s, k - 1) + aes128_block_decryption(key, block_at(s, k - 1))
    }
}

/// All complete blocks of `s` decrypted and concatenated; a trailing partial
/// block shorter than 16 bytes is silently dropped.
pub open spec fn ecb_decrypted(key: Seq<u8>, s: Seq<u8>) -> Seq<u8> {
    decrypted_prefix(key, s, s.len() as int / 16)
}

/// Reads the last byte as the padding count `p` and drops the final `p`
/// bytes; rejected when there is no last byte or `p` exceeds the length.
pub open spec fn strip_padding(d: Seq<u8>) -> Option<Seq<u8>> {
    if d.len() == 0 {
        None
    } else if d.last() > d.len() {
        None
    } else {
        Some(d.subrange(0, d.len() - d.last()))
    }
}

/// The whole block-decryption pipeline: group into 16-byte blocks (dropping
/// a trailing partial block), decrypt each independently, strip the padding.
pub open spec fn block_decrypt_pipeline(key: Seq<u8>, s: Seq<u8>) -> Option<Seq<u8>> {
    strip_padding(ecb_decrypted(key, s))
}

/// The concatenation of the first `k` blocks of `s`, each encrypted.
pub open spec fn encrypted_prefix(key: Seq<u8>, s: Seq<u8>, k: int) -> Seq<u8>
    decreases k,
{
    if k <= 0 {
        Seq::empty()
    } else {
        encrypted_prefix(key, s, k - 1) + aes128_block_encryption(key, block_at(s, k - 1))
    }
}

/// All complete blocks of `s` encrypted and concatenated.
pub open spec fn ecb_encrypted(key: Seq<u8>, s: Seq<u8>) -> Seq<u8> {
    encrypted_prefix(key, s, s.len() as int / 16)
}

/// A 16-byte-aligned plaintext followed by one full padding block: sixteen
/// bytes each holding the count 16.
pub open spec fn padded_aligned(s: Seq<u8>) -> Seq<u8> {
    s + Seq::new(16, |i: int| 16u8)
}

/// The decrypted prefix reads only the first `16 * k` bytes of the
/// ciphertext, so it is unchanged between sequences that agree there.
proof fn lemma_decrypted_prefix_depends_on_prefix(key: Seq<u8>, s1: Seq<u8>, s2: Seq<u8>, k: int)
    requires
        0 <= 16 * k <= s1.len(),
        16 * k <= s2.len(),
        s1.subrange(0, 16 * k) == s2.subrange(0, 16 * k),
    ensures
        decrypted_prefix(key, s1, k) == decrypted_prefix(key, s2, k),
    decreases k,
{
    if k > 0 {
        assert forall|q: int| 0 <= q < 16 * k implies s1[q] == s2[q] by {
            assert(s1.subrange(0, 16 * k)[q] == s1[q]);
            assert(s2.subrange(0, 16 * k)[q] == s2[q]);
        }
        assert(s1.subrange(0, 16 * (k - 1)) =~= s2.subrange(0, 16 * (k - 1)));
        lemma_decrypted_prefix_depends_on_prefix(key, s1, s2, k - 1);
        assert(block_at(s1, k - 1) =~= block_at(s2, k - 1));
    }
}

/// Copies the `k`-th 16-byte block of `v` out as its own vector.
fn copy_block(v: &Vec<u8>, k: usize) -> (r: Vec<u8>)
    requires
        16 * (k as int) + 16 <= v.len(),
    ensures
        r@ == block_at(v@, k as int),
{
    let mut blk: Vec<u8> = Vec::new();
    let mut t: usize = 0;
    while t < 16
        invariant
            t <= 16,
            16 * (k as int) + 16 <= v.len(),
            blk@.len() == t,
            forall|q: int| 0 <= q < t ==> blk@[q] == v@[16 * (k as int) + q],
        decreases 16 - t,
    {
        blk.push(v[16 * k + t]);
        t += 1;
    }
    assert(blk@ =~= block_at(v@, k as int));
    blk
}

/// Decrypts the ciphertext in independent 16-byte blocks under the given key
/// and strips the trailing padding. A trailing partial block is dropped
/// before decryption; a padding count larger than the decrypted length, or an
/// empty decrypted result, is `MalformedCiphertext`.
pub fn decrypt_aes128(vector: Vec<u8>, option_key: [u8; 16]) -> (r: Result<Vec<u8>, NcmError>)
    ensures
        match r {
            Ok(v) => block_decrypt_pipeline(option_key@, vector@) == Some(v@),
            Err(e) => block_decrypt_pipeline(option_key@, vector@) is None && e
                == NcmError::MalformedCiphertext,
        },
{
    let nblocks = vector.len() / 16;
    let mut out: Vec<u8> = Vec::new();
    let mut k: usize = 0;
    while k < nblocks
        invariant
            k <= nblocks,
            nblocks == vector@.len() as int / 16,
            out@.len() == 16 * k,
            out@ == decrypted_prefix(option_key@, vector@, k as int),
        decreases nblocks - k,
    {
        let blk = copy_block(&vector, k);
        let mut dec = aes128_decrypt_one_block(&option_key, &blk);
        out.append(&mut dec);
        k += 1;
        assert(out@ == decrypted_prefix(option_key@, vector@, k as int));
    }
    assert(out@ == ecb_decrypted(option_key@, vector@));
    if out.len() == 0 {
        return Err(NcmError::MalformedCiphertext);
    }
    let p = out[out.len() - 1] as usize;
    assert(p == ecb_decrypted(option_key@, vector@).last());
    if p > out.len() {
        return Err(NcmError::MalformedCiphertext);
    }
    let keep = out.len() - p;
    out.truncate(keep);
    assert(out@ =~= ecb_decrypted(option_key@, vector@).subrange(
        0,
        ecb_decrypted(option_key@, vector@).len() - ecb_decrypted(
            option_key@,
            vector@,
        ).last(),
    ));
    Ok(out)
}

/// Appends one full padding block to a 16-byte-aligned plaintext and
/// encrypts the whole in independent 16-byte blocks. Decrypting the result
/// with `decrypt_aes128` under the same key gives back exactly the plaintext:
/// the block cipher round trip.
pub fn encrypt_aes128(plain: Vec<u8>, option_key: [u8; 16]) -> (r: Vec<u8>)
    requires
        plain@.len() % 16 == 0,
    ensures
        r@ == ecb_encrypted(option_key@, padded_aligned(plain@)),
        block_decrypt_pipeline(option_key@, r@) == Some(plain@),
{
    let ghost original = plain@;
    let mut padded = plain;
    let mut t: usize = 0;
    while t < 16
        invariant
            t <= 16,
            padded@.len() == original.len() + t,
            padded@.subrange(0, original.len() as int) =~= original,
            forall|q: int| original.len() <= q < padded@.len() ==> padded@[q] == 16u8,
        decreases 16 - t,
    {
        padded.push(16u8);
        t += 1;
    }
    assert(padded@ =~= padded_aligned(original));

    let nblocks = padded.len() / 16;
    assert(16 * (nblocks as int) == padded@.len());
    let mut out: Vec<u8> = Vec::new();
    let mut k: usize = 0;
    while k < nblocks
        invariant
            k <= nblocks,
            padded@ == padded_aligned(original),
            16 * (nblocks as int) == padded@.len(),
            out@.len() == 16 * k,
            out@ == encrypted_prefix(option_key@, padded@, k as int),
            decrypted_prefix(option_key@, out@, k as int) == padded@.subrange(0, 16 * (k as int)),
        decreases nblocks - k,
    {
        let ghost out_before = out@;
        let blk = copy_block(&padded, k);
        let mut enc = aes128_encrypt_one_block(&option_key, &blk);
        let ghost enc_view = enc@;
        out.append(&mut enc);
        k += 1;
        proof {
            let kk = k as int;
            assert(out@ == out_before + enc_view);
            assert(out@.subrange(0, 16 * (kk - 1)) =~= out_before.subrange(0, 16 * (kk - 1)));
            lemma_decrypted_prefix_depends_on_prefix(option_key@, out@, out_before, kk - 1);
            assert(block_at(out@, kk - 1) =~= enc_view);
            assert(decrypted_prefix(option_key@, out@, kk) == decrypted_prefix(
                option_key@,
                out@,
                kk - 1,
            ) + aes128_block_decryption(option_key@, block_at(out@, kk - 1)));
            assert(aes128_block_decryption(option_key@, enc_view) == blk@);
            assert(padded@.subrange(0, 16 * (kk - 1)) + blk@ =~= padded@.subrange(0, 16 * kk));
            assert(decrypted_prefix(option_key@, out@, kk) == padded@.subrange(0, 16 * kk));
            assert(out@ == encrypted_prefix(option_key@, padded@, kk));
        }
    }
    proof {
        let key = option_key@;
        assert(out@.len() as int / 16 == nblocks as int);
        assert(padded@.subrange(0, 16 * (nblocks as int)) =~= padded@);
        assert(ecb_decrypted(key, out@) == padded@);
        assert(padded@.last() == 16u8);
        assert(strip_padding(padded@) == Some(padded@.subrange(0, padded@.len() - 16)));
        assert(padded@.subrange(0, padded@.len() - 16) =~= original);
        assert(out@ == ecb_encrypted(key, padded@));
    }
    out
}

} // verus!
