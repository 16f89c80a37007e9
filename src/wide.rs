use vstd::prelude::*;

verus! {

/// The `\\?\` prefix of an extended-length path, as UTF-16 units.
pub open spec fn extended_prefix() -> Seq<u16> {
    seq![0x5Cu16, 0x5Cu16, 0x3Fu16, 0x5Cu16]
}

pub open spec fn has_extended_prefix(path: Seq<u16>) -> bool {
    path.len() >= 4 && path.subrange(0, 4) == extended_prefix()
}

/// `path` with a leading extended-length prefix taken off, if it has one.
pub open spec fn without_extended_prefix(path: Seq<u16>) -> Seq<u16> {
    if has_extended_prefix(path) {
        path.subrange(4, path.len() as int)
    } else {
        path
    }
}

/// Stripping takes off the extended-length prefix and nothing else: a path
/// written with the prefix comes out as the same path written without it,
/// and a path that does not start with the prefix comes out unchanged.
pub proof fn lemma_prefix_stripping(rest: Seq<u16>, path: Seq<u16>)
    ensures
        without_extended_prefix(extended_prefix() + rest) == rest,
        !has_extended_prefix(path) ==> without_extended_prefix(path) == path,
{
    let full = extended_prefix() + rest;
    assert(full.subrange(0, 4) =~= extended_prefix());
    assert(full.subrange(4, full.len() as int) =~= rest);
}

/// Removes a leading `\\?\` from a wide path; other paths come back unchanged.
pub fn strip_extended_prefix(path: &Vec<u16>) -> (r: Vec<u16>)
    ensures
        r@ == without_extended_prefix(path@),
{
    let n = path.len();
    let prefixed = n >= 4 && path[0] == 0x5Cu16 && path[1] == 0x5Cu16 && path[2] == 0x3Fu16
        && path[3] == 0x5Cu16;
    proof {
        if n >= 4 {
            assert(prefixed == (path@.subrange(0, 4) =~= extended_prefix()));
        }
    }
    let start: usize = if prefixed { 4 } else { 0 };
    let mut r: Vec<u16> = Vec::new();
    let mut i: usize = start;
    while i < n
        invariant
            start <= i <= n,
            n == path@.len(),
            r@ == path@.subrange(start as int, i as int),
        decreases n - i,
    {
        r.push(path[i]);
        i = i + 1;
        assert(r@ =~= path@.subrange(start as int, i as int));
    }
    assert(path@.subrange(0, n as int) =~= path@);
    r
}

/// The nul-terminated name that the shell parses for `path`: the path without
/// an extended-length prefix, followed by a zero unit.
pub fn parsing_name(path: &Vec<u16>) -> (r: Vec<u16>)
    ensures
        r@ == without_extended_prefix(path@).push(0u16),
{
    let mut r = strip_extended_prefix(path);
    r.push(0u16);
    r
}

/// The units of a nul-terminated buffer: all of them up to the first zero,
/// or all of them if there is no zero.
pub open spec fn before_nul(buf: Seq<u16>, r: Seq<u16>) -> bool {
    &&& r.len() <= buf.len()
    &&& r == buf.subrange(0, r.len() as int)
    &&& forall|i: int| 0 <= i < r.len() ==> r[i] != 0u16
    &&& (r.len() == buf.len() || buf[r.len() as int] == 0u16)
}

/// Reads a wide string up to its terminating zero.
pub fn units_before_nul(buf: &Vec<u16>) -> (r: Vec<u16>)
    ensures
        before_nul(buf@, r@),
{
    let mut r: Vec<u16> = Vec::new();
    let mut i: usize = 0;
    while i < buf.len() && buf[i] != 0u16
        invariant
            i <= buf@.len(),
            r@ == buf@.subrange(0, i as int),
            forall|j: int| 0 <= j < i ==> buf@[j] != 0u16,
        decreases buf@.len() - i,
    {
        r.push(buf[i]);
        i = i + 1;
        assert(r@ =~= buf@.subrange(0, i as int));
    }
    r
}

/// The UTF-16 units of one character: one unit below U+10000, else a high
/// and a low surrogate.
pub open spec fn utf16_of_char(c: char) -> Seq<u16> {
    let v = c as u32 as int;
    if v < 0x10000 {
        seq![v as u16]
    } else {
        seq![(0xD800 + (v - 0x10000) / 0x400) as u16, (0xDC00 + (v - 0x10000) % 0x400) as u16]
    }
}

/// The UTF-16 encoding of a text.
pub open spec fn utf16_of(text: Seq<char>) -> Seq<u16>
    decreases text.len(),
{
    if text.len() == 0 {
        Seq::empty()
    } else {
        utf16_of(text.drop_last()) + utf16_of_char(text.last())
    }
}

/// Relies on `String::from_utf16`: `Ok` with the text whose UTF-16 form the
/// units are, and `Err` where no text has them as its UTF-16 form (an
/// unpaired surrogate).
#[verifier::external_body]
pub(crate) fn decode_utf16(units: &Vec<u16>) -> (r: Option<String>)
    ensures
        match r {
            Some(s) => utf16_of(s@) == units@,
            None => forall|t: Seq<char>| #[trigger] utf16_of(t) != units@,
        },
{
    String::from_utf16(units).ok()
}

} // verus!
