use vstd::prelude::*;

use crate::key_schedule::is_key_schedule;

verus! {

/// Audio is enciphered in fixed chunks of this many bytes; the keystream
/// index restarts at every chunk boundary.
pub const AUDIO_CHUNK_SIZE: usize = 0x8000;

/// The mask byte for position `rel` within a chunk: with `j = (rel + 1) mod
/// 256`, it is `table[(table[j] + table[(table[j] + j) mod 256]) mod 256]`.
pub open spec fn keystream_byte(table: Seq<u8>, rel: int) -> u8
    recommends
        is_key_schedule(table),
{
    let j = (rel + 1) % 256;
    table[(table[j] + table[(table[j] + j) % 256]) % 256]
}

/// The mask applied to the whole audio stream at absolute position `i`: the
/// chunk-relative keystream byte for `i mod AUDIO_CHUNK_SIZE`.
pub open spec fn audio_mask(table: Seq<u8>, i: int) -> u8
    recommends
        is_key_schedule(table),
{
    keystream_byte(table, i % (AUDIO_CHUNK_SIZE as int))
}

/// The cleartext stream: every byte XOR-ed with its positional mask.
pub open spec fn stream_decrypted(table: Seq<u8>, s: Seq<u8>) -> Seq<u8>
    recommends
        is_key_schedule(table),
{
    Seq::new(s.len(), |i: int| s[i] ^ audio_mask(table, i))
}

/// One XOR pass is its own inverse: applying the stream transform twice with
/// the same table, with indices aligned the same way, restores the input.
pub proof fn lemma_stream_decrypted_involution(table: Seq<u8>, s: Seq<u8>)
    requires
        is_key_schedule(table),
    ensures
        stream_decrypted(table, stream_decrypted(table, s)) =~= s,
{
    assert(forall|a: u8, m: u8| #[trigger] ((a ^ m) ^ m) == a) by (bit_vector);
}

/// Splitting the stream at a chunk-size multiple splits the transform: the
/// keystream index restarts there, so a long stream may be decrypted
/// incrementally, one chunk at a time, with the same result.
pub proof fn lemma_stream_decrypted_chunked(table: Seq<u8>, a: Seq<u8>, b: Seq<u8>)
    requires
        is_key_schedule(table),
        a.len() % (AUDIO_CHUNK_SIZE as nat) == 0,
    ensures
        stream_decrypted(table, a + b) =~= stream_decrypted(table, a) + stream_decrypted(table, b),
{
    let m = AUDIO_CHUNK_SIZE as int;
    assert forall|i: int| 0 <= i < a.len() + b.len() implies stream_decrypted(table, a + b)[i]
        == (stream_decrypted(table, a) + stream_decrypted(table, b))[i] by {
        if i < a.len() {
            assert((a + b)[i] == a[i]);
        } else {
            let r = i - a.len();
            assert((a + b)[i] == b[r]);
            vstd::arithmetic::div_mod::lemma_mod_multiples_vanish(
                a.len() as int / m,
                r,
                m,
            );
            assert(m * (a.len() as int / m) == a.len() as int) by {
                vstd::arithmetic::div_mod::lemma_fundamental_div_mod(a.len() as int, m);
            }
            assert(i % m == r % m);
        }
    }
}

/// Decrypts one chunk of the audio stream, the byte at chunk-relative index
/// `i` XOR-ed with `keystream_byte(table, i)`. The chunk must start at a
/// chunk boundary of the stream and so be at most `AUDIO_CHUNK_SIZE` long.
pub fn decrypt_chunk(table: &Vec<u8>, chunk: &Vec<u8>) -> (r: Vec<u8>)
    requires
        is_key_schedule(table@),
        chunk@.len() <= AUDIO_CHUNK_SIZE,
    ensures
        r@.len() == chunk@.len(),
        forall|i: int| 0 <= i < chunk@.len() ==> r@[i] == chunk@[i] ^ keystream_byte(table@, i),
{
    let mut out: Vec<u8> = Vec::new();
    let mut i: usize = 0;
    while i < chunk.len()
        invariant
            i <= chunk@.len(),
            chunk@.len() <= AUDIO_CHUNK_SIZE,
            is_key_schedule(table@),
            out@.len() == i,
            forall|k: int| 0 <= k < i ==> out@[k] == chunk@[k] ^ keystream_byte(table@, k),
        decreases chunk@.len() - i,
    {
        let j = (i + 1) % 256;
        let inner = (table[j] as usize + j) % 256;
        let m = (table[j] as usize + table[inner] as usize) % 256;
        out.push(chunk[i] ^ table[m]);
        i += 1;
    }
    out
}

/// Decrypts a whole audio stream at once, chunk-relative indexing included:
/// the result is exactly `stream_decrypted(table, audio)`.
pub fn decrypt_audio(table: &Vec<u8>, audio: &Vec<u8>) -> (r: Vec<u8>)
    requires
        is_key_schedule(table@),
    ensures
        r@ == stream_decrypted(table@, audio@),
{
    let mut out: Vec<u8> = Vec::new();
    let mut i: usize = 0;
    while i < audio.len()
        invariant
            i <= audio@.len(),
            is_key_schedule(table@),
            out@.len() == i,
            forall|k: int| 0 <= k < i ==> out@[k] == audio@[k] ^ audio_mask(table@, k),
        decreases audio@.len() - i,
    {
        let rel = i % AUDIO_CHUNK_SIZE;
        let j = (rel + 1) % 256;
        let inner = (table[j] as usize + j) % 256;
        let m = (table[j] as usize + table[inner] as usize) % 256;
        out.push(audio[i] ^ table[m]);
        i += 1;
    }
    assert(out@ =~= stream_decrypted(table@, audio@));
    out
}

} // verus!
