use vstd::prelude::*;

verus! {

/// The full-width stand-in for each character a track filename may not
/// carry: backslash, slash, colon, asterisk, double quote, the angle
/// brackets and the vertical bar. Every other character stays itself.
pub open spec fn replacement_char(c: char) -> char {
    if c == '\\' {
        '\u{ff3c}'
    } else if c == '/' {
        '\u{ff0f}'
    } else if c == ':' {
        '\u{ff1a}'
    } else if c == '*' {
        '\u{ff0a}'
    } else if c == '"' {
        '\u{ff02}'
    } else if c == '<' {
        '\u{ff1c}'
    } else if c == '>' {
        '\u{ff1e}'
    } else if c == '|' {
        '\u{ff5c}'
    } else {
        c
    }
}

/// A name with every reserved character replaced by its full-width
/// counterpart, character for character.
pub open spec fn sanitized_name(s: Seq<char>) -> Seq<char> {
    s.map_values(|c: char| replacement_char(c))
}

/// Replaces each reserved character of a track name with its designated
/// full-width counterpart, leaving all other characters unchanged.
pub fn sanitize_track_name(name: &Vec<char>) -> (r: Vec<char>)
    ensures
        r@ == sanitized_name(name@),
{
    let mut out: Vec<char> = Vec::new();
    let mut i: usize = 0;
    while i < name.len()
        invariant
            i <= name@.len(),
            out@.len() == i,
            forall|q: int| 0 <= q < i ==> out@[q] == replacement_char(name@[q]),
        decreases name@.len() - i,
    {
        let c = name[i];
        let rc = if c == '\\' {
            '\u{ff3c}'
        } else if c == '/' {
            '\u{ff0f}'
        } else if c == ':' {
            '\u{ff1a}'
        } else if c == '*' {
            '\u{ff0a}'
        } else if c == '"' {
            '\u{ff02}'
        } else if c == '<' {
            '\u{ff1c}'
        } else if c == '>' {
            '\u{ff1e}'
        } else if c == '|' {
            '\u{ff5c}'
        } else {
            c
        };
        out.push(rc);
        i += 1;
    }
    assert(out@ =~= sanitized_name(name@));
    out
}

/// Derives the track name from a source filename: the 4-character extension
/// is stripped and the reserved characters are replaced. Filenames shorter
/// than the extension carry no track name.
pub fn track_name_from_filename(filename: &Vec<char>) -> (r: Vec<char>)
    requires
        filename@.len() >= 4,
    ensures
        r@ == sanitized_name(filename@.subrange(0, filename@.len() - 4)),
{
    let stem_len = filename.len() - 4;
    let mut stem: Vec<char> = Vec::new();
    let mut i: usize = 0;
    while i < stem_len
        invariant
            i <= stem_len,
            stem_len == filename@.len() - 4,
            stem@.len() == i,
            forall|q: int| 0 <= q < i ==> stem@[q] == filename@[q],
        decreases stem_len - i,
    {
        stem.push(filename[i]);
        i += 1;
    }
    assert(stem@ =~= filename@.subrange(0, filename@.len() - 4));
    sanitize_track_name(&stem)
}

} // verus!
