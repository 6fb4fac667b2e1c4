use vstd::prelude::*;

verus! {

/// The media type embedded alongside a non-empty cover image.
#[derive(Clone, Copy, Debug, PartialEq, Eq, Structural)]
pub enum MediaType {
    Png,
    Jpeg,
}

/// The 8-byte signature every PNG file starts with.
pub open spec fn png_signature() -> Seq<u8> {
    seq![0x89u8, 0x50u8, 0x4eu8, 0x47u8, 0x0du8, 0x0au8, 0x1au8, 0x0au8]
}

/// The media type a cover is tagged with: PNG when the bytes start with the
/// PNG signature, JPEG for any other non-empty bytes, none for an empty
/// cover.
pub open spec fn classified_cover(cover: Seq<u8>) -> Option<MediaType> {
    if cover.len() == 0 {
        None
    } else if cover.len() >= 8 && cover.subrange(0, 8) == png_signature() {
        Some(MediaType::Png)
    } else {
        Some(MediaType::Jpeg)
    }
}

/// Sniffs the cover's media type from its leading bytes, exactly as
/// `classified_cover` says.
pub fn classify_cover(cover: &Vec<u8>) -> (r: Option<MediaType>)
    ensures
        r == classified_cover(cover@),
{
    if cover.len() == 0 {
        return None;
    }
    if cover.len() < 8 {
        return Some(MediaType::Jpeg);
    }
    let is_png = cover[0] == 0x89 && cover[1] == 0x50 && cover[2] == 0x4e && cover[3] == 0x47
        && cover[4] == 0x0d && cover[5] == 0x0a && cover[6] == 0x1a && cover[7] == 0x0a;
    proof {
        if is_png {
            assert(cover@.subrange(0, 8) =~= png_signature());
        } else {
            assert(cover@.subrange(0, 8)[0] == cover@[0]);
            assert(cover@.subrange(0, 8)[1] == cover@[1]);
            assert(cover@.subrange(0, 8)[2] == cover@[2]);
            assert(cover@.subrange(0, 8)[3] == cover@[3]);
            assert(cover@.subrange(0, 8)[4] == cover@[4]);
            assert(cover@.subrange(0, 8)[5] == cover@[5]);
            assert(cover@.subrange(0, 8)[6] == cover@[6]);
            assert(cover@.subrange(0, 8)[7] == cover@[7]);
        }
    }
    if is_png {
        Some(MediaType::Png)
    } else {
        Some(MediaType::Jpeg)
    }
}

/// The MIME label for a classified cover, as tag writers expect it.
pub fn media_type_label(t: MediaType) -> (r: String)
    ensures
        t == MediaType::Png ==> r@ == "image/png"@,
        t == MediaType::Jpeg ==> r@ == "image/jpeg"@,
{
    match t {
        MediaType::Png => String::from_str("image/png"),
        MediaType::Jpeg => String::from_str("image/jpeg"),
    }
}

} // verus!
