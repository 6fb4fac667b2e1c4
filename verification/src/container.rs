use vstd::prelude::*;

use crate::errors::NcmError;

verus! {

/// The 8-byte signature every NCM container starts with.
pub open spec fn magic_signature() -> Seq<u8> {
    seq![0x43u8, 0x54u8, 0x45u8, 0x4eu8, 0x46u8, 0x44u8, 0x41u8, 0x4du8]
}

/// Whether the input begins with the container signature. Inputs shorter
/// than the signature never match.
pub open spec fn magic_ok(bytes: Seq<u8>) -> bool {
    bytes.len() >= 8 && bytes.subrange(0, 8) == magic_signature()
}

/// The unsigned 32-bit little-endian integer stored at `pos`.
pub open spec fn le_u32_at(bytes: Seq<u8>, pos: int) -> int {
    bytes[pos] + 256 * bytes[pos + 1] + 65536 * bytes[pos + 2] + 16777216 * bytes[pos + 3]
}

/// Skipping `n` bytes from `pos` never moves past the end of the input.
pub open spec fn skip_to(len: int, pos: int, n: int) -> int {
    if pos + n > len {
        len
    } else {
        pos + n
    }
}

/// The outcome of reading one length-prefixed section: the section bytes and
/// the position of the first byte after them.
pub ghost struct SectionRead {
    pub data: Seq<u8>,
    pub next: int,
}

/// Reads the 4-byte little-endian length at `pos` and the that many bytes
/// after it. A prefix or body reaching past end-of-input yields an empty
/// section with the rest of the input consumed, never an error.
pub open spec fn section_at(bytes: Seq<u8>, pos: int) -> SectionRead {
    if pos + 4 > bytes.len() {
        SectionRead { data: Seq::empty(), next: bytes.len() as int }
    } else {
        let l = le_u32_at(bytes, pos);
        if pos + 4 + l > bytes.len() {
            SectionRead { data: Seq::empty(), next: bytes.len() as int }
        } else {
            SectionRead { data: bytes.subrange(pos + 4, pos + 4 + l), next: pos + 4 + l }
        }
    }
}

/// Every byte of `s` XOR-ed with the constant `mask`.
pub open spec fn xor_masked(s: Seq<u8>, mask: u8) -> Seq<u8> {
    Seq::new(s.len(), |i: int| s[i] ^ mask)
}

/// The container's logical sections, in file order, with the key and
/// metadata sections already deobfuscated by their XOR constants.
pub ghost struct ContainerModel {
    pub key_blob: Seq<u8>,
    pub meta_blob: Seq<u8>,
    pub cover: Seq<u8>,
    pub audio: Seq<u8>,
}

/// The layout after the signature: a 2-byte reserved skip, the key section
/// (XOR 0x64), the metadata section (XOR 0x63), a 9-byte reserved skip, the
/// cover section, and the raw audio stream running to end-of-input.
pub open spec fn parsed_container(bytes: Seq<u8>) -> ContainerModel {
    let len = bytes.len() as int;
    let key_sec = section_at(bytes, skip_to(len, 8, 2));
    let meta_sec = section_at(bytes, key_sec.next);
    let cover_sec = section_at(bytes, skip_to(len, meta_sec.next, 9));
    ContainerModel {
        key_blob: xor_masked(key_sec.data, 0x64),
        meta_blob: xor_masked(meta_sec.data, 0x63),
        cover: cover_sec.data,
        audio: bytes.subrange(cover_sec.next, len),
    }
}

/// One parsed container, sections materialised as byte vectors.
pub struct Container {
    pub key_blob: Vec<u8>,
    pub meta_blob: Vec<u8>,
    pub cover: Vec<u8>,
    pub audio: Vec<u8>,
}

/// Reads the 4-byte little-endian integer at `pos`.
fn read_u32_le(bytes: &Vec<u8>, pos: usize) -> (r: u32)
    requires
        pos + 4 <= bytes.len(),
    ensures
        r == le_u32_at(bytes@, pos as int),
{
    let b0 = bytes[pos] as u32;
    let b1 = bytes[pos + 1] as u32;
    let b2 = bytes[pos + 2] as u32;
    let b3 = bytes[pos + 3] as u32;
    b0 + 256 * b1 + 65536 * b2 + 16777216 * b3
}

/// Reads one length-prefixed section starting at `pos`, returning the
/// section bytes and the position after them, exactly as `section_at` says.
fn read_section(bytes: &Vec<u8>, pos: usize) -> (r: (Vec<u8>, usize))
    requires
        pos <= bytes.len(),
    ensures
        r.0@ == section_at(bytes@, pos as int).data,
        r.1 == section_at(bytes@, pos as int).next,
        pos <= r.1 <= bytes.len(),
{
    if bytes.len() - pos < 4 {
        let mut empty: Vec<u8> = Vec::new();
        assert(empty@ =~= section_at(bytes@, pos as int).data);
        return (empty, bytes.len());
    }
    let l = read_u32_le(bytes, pos) as usize;
    if l > bytes.len() - (pos + 4) {
        let mut empty: Vec<u8> = Vec::new();
        assert(empty@ =~= section_at(bytes@, pos as int).data);
        return (empty, bytes.len());
    }
    let start = pos + 4;
    let mut data: Vec<u8> = Vec::new();
    let mut i: usize = 0;
    while i < l
        invariant
            i <= l,
            start + l <= bytes.len(),
            data@.len() == i,
            forall|q: int| 0 <= q < i ==> data@[q] == bytes@[start + q],
        decreases l - i,
    {
        data.push(bytes[start + i]);
        i += 1;
    }
    assert(data@ =~= section_at(bytes@, pos as int).data);
    (data, start + l)
}

/// XORs every byte of `v` with the constant `mask`, in place.
fn xor_in_place(v: &mut Vec<u8>, mask: u8)
    ensures
        final(v)@ == xor_masked(old(v)@, mask),
{
    let mut i: usize = 0;
    while i < v.len()
        invariant
            i <= v@.len(),
            v@.len() == old(v)@.len(),
            forall|q: int| 0 <= q < i ==> v@[q] == (old(v)@[q] ^ mask),
            forall|q: int| i <= q < v@.len() ==> v@[q] == old(v)@[q],
        decreases v@.len() - i,
    {
        let b = v[i];
        v[i] = b ^ mask;
        i += 1;
    }
    assert(v@ =~= xor_masked(old(v)@, mask));
}

/// Checks the 8-byte signature at the start of the input.
fn check_magic(bytes: &Vec<u8>) -> (r: bool)
    ensures
        r == magic_ok(bytes@),
{
    if bytes.len() < 8 {
        return false;
    }
    let ok = bytes[0] == 0x43 && bytes[1] == 0x54 && bytes[2] == 0x45 && bytes[3] == 0x4e
        && bytes[4] == 0x46 && bytes[5] == 0x44 && bytes[6] == 0x41 && bytes[7] == 0x4d;
    proof {
        if ok {
            assert(bytes@.subrange(0, 8) =~= magic_signature());
        } else {
            assert(bytes@.subrange(0, 8)[0] == bytes@[0]);
            assert(bytes@.subrange(0, 8)[1] == bytes@[1]);
            assert(bytes@.subrange(0, 8)[2] == bytes@[2]);
            assert(bytes@.subrange(0, 8)[3] == bytes@[3]);
            assert(bytes@.subrange(0, 8)[4] == bytes@[4]);
            assert(bytes@.subrange(0, 8)[5] == bytes@[5]);
            assert(bytes@.subrange(0, 8)[6] == bytes@[6]);
            assert(bytes@.subrange(0, 8)[7] == bytes@[7]);
        }
    }
    ok
}

/// Parses the whole container layout out of the input bytes. The only
/// failure is a missing signature: every section read is total, short reads
/// yielding empty sections.
pub fn parse_container(bytes: &Vec<u8>) -> (r: Result<Container, NcmError>)
    ensures
        !magic_ok(bytes@) ==> (r matches Err(e) && e == NcmError::NotContainerFormat),
        magic_ok(bytes@) ==> (r matches Ok(c) && c.key_blob@ == parsed_container(bytes@).key_blob
            && c.meta_blob@ == parsed_container(bytes@).meta_blob && c.cover@ == parsed_container(
            bytes@,
        ).cover && c.audio@ == parsed_container(bytes@).audio),
{
    if !check_magic(bytes) {
        return Err(NcmError::NotContainerFormat);
    }
    let len = bytes.len();
    let after_skip = if len - 8 < 2 {
        len
    } else {
        10
    };
    assert(after_skip as int == skip_to(len as int, 8, 2));
    let (mut key_blob, pos1) = read_section(bytes, after_skip);
    xor_in_place(&mut key_blob, 0x64);
    let (mut meta_blob, pos2) = read_section(bytes, pos1);
    xor_in_place(&mut meta_blob, 0x63);
    let after_skip2 = if len - pos2 < 9 {
        len
    } else {
        pos2 + 9
    };
    assert(after_skip2 as int == skip_to(len as int, pos2 as int, 9));
    let (cover, pos3) = read_section(bytes, after_skip2);
    let mut audio: Vec<u8> = Vec::new();
    let mut i: usize = pos3;
    while i < len
        invariant
            pos3 <= i <= len,
            len == bytes@.len(),
            audio@.len() == i - pos3,
            forall|q: int| 0 <= q < audio@.len() ==> audio@[q] == bytes@[pos3 + q],
        decreases len - i,
    {
        audio.push(bytes[i]);
        i += 1;
    }
    assert(audio@ =~= bytes@.subrange(pos3 as int, len as int));
    Ok(Container { key_blob, meta_blob, cover, audio })
}

} // verus!
