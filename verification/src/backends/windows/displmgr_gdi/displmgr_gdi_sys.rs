//! Wide-string helpers and GDI flag values used by the GDI backend.
use vstd::prelude::*;
use vstd::std_specs::iter::IteratorSpec;

use crate::types::DisplayRotation;

/// GDI flag values for registry staging and the global flush.
pub mod gdi_flags;

verus! {

/// The first UTF-16 code unit that no scalar value below it needs a pair for.
pub open spec fn is_high_surrogate(u: u16) -> bool {
    0xD800 <= u <= 0xDBFF
}

/// A trailing half of a surrogate pair.
pub open spec fn is_low_surrogate(u: u16) -> bool {
    0xDC00 <= u <= 0xDFFF
}

/// The UTF-16 code units of one character.
pub open spec fn utf16_units(c: char) -> Seq<u16> {
    let v = c as int;
    if v < 0x10000 {
        seq![v as u16]
    } else {
        let w = v - 0x10000;
        seq![(0xD800 + w / 0x400) as u16, (0xDC00 + w % 0x400) as u16]
    }
}

/// The UTF-16 encoding of a character sequence.
pub open spec fn encode_utf16(s: Seq<char>) -> Seq<u16>
    decreases s.len(),
{
    if s.len() == 0 {
        Seq::empty()
    } else {
        utf16_units(s[0]) + encode_utf16(s.drop_first())
    }
}

/// The scalar value a surrogate pair stands for.
pub open spec fn surrogate_pair_value(hi: u16, lo: u16) -> int {
    0x10000 + (hi - 0xD800) * 0x400 + (lo - 0xDC00)
}

/// Lossy UTF-16 decoding: well-formed pairs and non-surrogate units become
/// their characters; every unpaired surrogate becomes U+FFFD.
pub open spec fn decode_utf16_lossy(u: Seq<u16>) -> Seq<char>
    decreases u.len(),
{
    if u.len() == 0 {
        Seq::empty()
    } else if is_high_surrogate(u[0]) && u.len() >= 2 && is_low_surrogate(u[1]) {
        seq![surrogate_pair_value(u[0], u[1]) as char] + decode_utf16_lossy(u.subrange(2, u.len() as int))
    } else if is_high_surrogate(u[0]) || is_low_surrogate(u[0]) {
        seq!['\u{FFFD}'] + decode_utf16_lossy(u.drop_first())
    } else {
        seq![u[0] as char] + decode_utf16_lossy(u.drop_first())
    }
}

/// The units before the first NUL, or all of them when there is none.
pub open spec fn until_nul(u: Seq<u16>) -> Seq<u16>
    decreases u.len(),
{
    if u.len() == 0 {
        Seq::empty()
    } else if u[0] == 0 {
        Seq::empty()
    } else {
        seq![u[0]] + until_nul(u.drop_first())
    }
}

/// Encoding distributes over concatenation.
pub proof fn lemma_encode_concat(a: Seq<char>, b: Seq<char>)
    ensures
        encode_utf16(a + b) == encode_utf16(a) + encode_utf16(b),
    decreases a.len(),
{
    if a.len() == 0 {
        assert(a + b =~= b);
    } else {
        lemma_encode_concat(a.drop_first(), b);
        assert((a + b).drop_first() =~= a.drop_first() + b);
    }
}

fn push_units(out: &mut Vec<u16>, c: char)
    ensures
        final(out)@ == old(out)@ + utf16_units(c),
{
    let v = c as u32;
    if v < 0x10000 {
        out.push(v as u16);
    } else {
        let w = v - 0x10000;
        out.push((0xD800 + w / 0x400) as u16);
        out.push((0xDC00 + w % 0x400) as u16);
    }
    assert(out@ =~= old(out)@ + utf16_units(c));
}

/// Converts a string into a null-terminated UTF-16 wide string, as Win32
/// calls expect.
pub fn to_wide(s: &str) -> (res: Vec<u16>)
    ensures
        res@ == encode_utf16(s@).push(0),
{
    broadcast use vstd::string::axiom_spec_iter, vstd::string::next_postcondition;
    let mut res: Vec<u16> = Vec::new();
    let mut it = s.chars();
    let ghost mut done: Seq<char> = Seq::empty();
    assert(it.remaining() == s@);
    loop
        invariant
            s@ == done + it.remaining(),
            res@ == encode_utf16(done),
            it.obeys_prophetic_iter_laws(),
            it.decrease() is Some,
        ensures
            res@ == encode_utf16(s@),
        decreases it.decrease()->0,
    {
        let ghost before = it.remaining();
        match it.next() {
            Some(c) => {
                proof {
                    lemma_encode_concat(done, seq![c]);
                    assert(seq![c].drop_first() =~= Seq::<char>::empty());
                    assert(encode_utf16(Seq::<char>::empty()) =~= Seq::<u16>::empty());
                    assert(encode_utf16(seq![c]) =~= utf16_units(c));
                    done = done + seq![c];
                    assert(s@ =~= done + it.remaining());
                }
                push_units(&mut res, c);
            },
            None => {
                assert(done =~= s@);
                break;
            },
        }
    }
    res.push(0);
    res
}

/// `char::from_u32`: the character whose scalar value is `v`, when `v` is a
/// Unicode scalar value (below U+D800, or from U+E000 to U+10FFFF).
#[verifier::external_body]
fn char_from_u32(v: u32) -> (res: Option<char>)
    ensures
        res is Some <==> (v < 0xD800 || (0xE000 <= v && v <= 0x10FFFF)),
        res matches Some(c) ==> c as int == v as int,
{
    char::from_u32(v)
}

/// `String::push`: appends one character.
#[verifier::external_body]
fn push_char(s: &mut String, c: char)
    ensures
        final(s)@ == old(s)@.push(c),
{
    s.push(c)
}

/// The units before a position that holds NUL (or the end), when none before
/// it does, are what [`until_nul`] keeps.
proof fn lemma_until_nul(u: Seq<u16>, k: int)
    requires
        0 <= k <= u.len(),
        forall|j: int| 0 <= j < k ==> u[j] != 0,
        k == u.len() || u[k] == 0,
    ensures
        until_nul(u) == u.subrange(0, k),
    decreases u.len(),
{
    if u.len() == 0 {
        assert(u.subrange(0, k) =~= Seq::<u16>::empty());
    } else if k == 0 {
        assert(u.subrange(0, k) =~= Seq::<u16>::empty());
    } else {
        lemma_until_nul(u.drop_first(), k - 1);
        assert(u.subrange(0, k) =~= seq![u[0]] + u.drop_first().subrange(0, k - 1));
    }
}

fn decode_one(data: &[u16], i: usize, end: usize, res: &mut String) -> (next: usize)
    requires
        i < end <= data@.len(),
    ensures
        i < next <= end,
        final(res)@.len() >= old(res)@.len(),
        decode_utf16_lossy(data@.subrange(i as int, end as int)) == (final(res)@.subrange(
            old(res)@.len() as int,
            final(res)@.len() as int,
        ) + decode_utf16_lossy(data@.subrange(next as int, end as int))),
        final(res)@.subrange(0, old(res)@.len() as int) == old(res)@,
{
    let ghost u = data@.subrange(i as int, end as int);
    let a = data[i];
    if 0xD800 <= a && a <= 0xDBFF && i + 1 < end && 0xDC00 <= data[i + 1] && data[i + 1] <= 0xDFFF {
        let b = data[i + 1];
        let v: u32 = 0x10000 + (a as u32 - 0xD800) * 0x400 + (b as u32 - 0xDC00);
        let c = char_from_u32(v);
        match c {
            Some(ch) => {
                push_char(res, ch);
                proof {
                    assert(u.subrange(2, u.len() as int) =~= data@.subrange(i + 2, end as int));
                    assert(ch == surrogate_pair_value(u[0], u[1]) as char);
                    assert(final(res)@.subrange(old(res)@.len() as int, final(res)@.len() as int)
                        =~= seq![ch]);
                    assert(final(res)@.subrange(0, old(res)@.len() as int) =~= old(res)@);
                }
                i + 2
            },
            None => {
                i + 2
            },
        }
    } else {
        let ch: char = if 0xD800 <= a && a <= 0xDFFF {
            '\u{FFFD}'
        } else {
            match char_from_u32(a as u32) {
                Some(c) => c,
                None => '\u{FFFD}',
            }
        };
        push_char(res, ch);
        proof {
            assert(u.drop_first() =~= data@.subrange(i + 1, end as int));
            assert(final(res)@.subrange(old(res)@.len() as int, final(res)@.len() as int) =~= seq![ch]);
            assert(final(res)@.subrange(0, old(res)@.len() as int) =~= old(res)@);
        }
        i + 1
    }
}

/// Converts a UTF-16 wide string back into a `String`, stopping at the first
/// NUL. Unpaired surrogates become U+FFFD, as `String::from_utf16_lossy` does.
pub fn from_wide(data: &[u16]) -> (res: String)
    ensures
        res@ == decode_utf16_lossy(until_nul(data@)),
{
    let n = data.len();
    let mut end: usize = 0;
    while end < n && data[end] != 0
        invariant
            end <= n,
            n == data@.len(),
            forall|j: int| 0 <= j < end ==> data@[j] != 0,
        decreases n - end,
    {
        end = end + 1;
    }
    proof {
        lemma_until_nul(data@, end as int);
    }
    let mut res = String::new();
    let mut i: usize = 0;
    while i < end
        invariant
            i <= end <= n,
            n == data@.len(),
            decode_utf16_lossy(data@.subrange(0, end as int)) == res@ + decode_utf16_lossy(
                data@.subrange(i as int, end as int),
            ),
        decreases end - i,
    {
        let ghost before = res@;
        i = decode_one(data, i, end, &mut res);
        proof {
            assert(res@ =~= before + res@.subrange(before.len() as int, res@.len() as int));
        }
    }
    assert(data@.subrange(end as int, end as int) =~= Seq::<u16>::empty());
    res
}

/// A character's value is a Unicode scalar value.
proof fn lemma_char_range(c: char)
    ensures
        0 <= c as int <= 0xD7FF || (0xE000 <= c as int <= 0x10FFFF),
{
}

/// Decoding undoes encoding: every character sequence survives a trip
/// through UTF-16.
pub proof fn lemma_decode_encode(s: Seq<char>)
    ensures
        decode_utf16_lossy(encode_utf16(s)) == s,
    decreases s.len(),
{
    if s.len() == 0 {
        assert(encode_utf16(s) =~= Seq::<u16>::empty());
        assert(decode_utf16_lossy(Seq::<u16>::empty()) =~= s);
    } else {
        let c = s[0];
        let rest = s.drop_first();
        let e = encode_utf16(s);
        lemma_decode_encode(rest);
        let v = c as int;
        lemma_char_range(c);
        if v < 0x10000 {
            assert(e =~= seq![v as u16] + encode_utf16(rest));
            assert(e[0] == v as u16);
            assert(e.drop_first() =~= encode_utf16(rest));
            assert(e[0] as int == v);
            assert(!is_high_surrogate(e[0]) && !is_low_surrogate(e[0]));
            assert((e[0] as char) as int == v);
            assert((v as char) == c);
            assert(e[0] as char == c);
        } else {
            let w = v - 0x10000;
            assert(e =~= seq![(0xD800 + w / 0x400) as u16, (0xDC00 + w % 0x400) as u16] + encode_utf16(rest));
            assert(e.subrange(2, e.len() as int) =~= encode_utf16(rest));
            assert(0 <= w <= 0xFFFFF);
            assert(e[0] as int == 0xD800 + w / 0x400);
            assert(e[1] as int == 0xDC00 + w % 0x400);
            assert(surrogate_pair_value(e[0], e[1]) == v);
            assert((v as char) == c);
        }
        assert(decode_utf16_lossy(e) =~= s);
    }
}

/// A character sequence without NUL encodes to units without NUL.
proof fn lemma_encode_no_nul(s: Seq<char>)
    requires
        forall|j: int| 0 <= j < s.len() ==> s[j] != '\0',
    ensures
        forall|j: int| 0 <= j < encode_utf16(s).len() ==> encode_utf16(s)[j] != 0,
    decreases s.len(),
{
    if s.len() > 0 {
        lemma_encode_no_nul(s.drop_first());
        let e = encode_utf16(s);
        let u = utf16_units(s[0]);
        assert(e =~= u + encode_utf16(s.drop_first()));
        let v = s[0] as int;
        lemma_char_range(s[0]);
        assert(v != 0);
        if v < 0x10000 {
            assert(u[0] as int == v);
        } else {
            let w = v - 0x10000;
            assert(0 <= w <= 0xFFFFF);
            assert(u[0] as int == 0xD800 + w / 0x400);
            assert(u[1] as int == 0xDC00 + w % 0x400);
        }
        assert forall|j: int| 0 <= j < e.len() implies e[j] != 0 by {
            if j >= u.len() {
                assert(e[j] == encode_utf16(s.drop_first())[j - u.len()]);
            }
        }
    }
}

/// A string without NUL comes back unchanged from [`to_wide`] followed by
/// [`from_wide`].
pub proof fn lemma_wide_roundtrip(s: Seq<char>)
    requires
        forall|j: int| 0 <= j < s.len() ==> s[j] != '\0',
    ensures
        decode_utf16_lossy(until_nul(encode_utf16(s).push(0))) == s,
{
    let e = encode_utf16(s);
    lemma_encode_no_nul(s);
    lemma_until_nul(e.push(0), e.len() as int);
    assert(e.push(0).subrange(0, e.len() as int) =~= e);
    lemma_decode_encode(s);
}

/// The wide form always ends in exactly one NUL, after the encoded text.
pub proof fn lemma_wide_terminated(s: Seq<char>)
    ensures
        encode_utf16(s).push(0).last() == 0,
        encode_utf16(s).push(0).len() == encode_utf16(s).len() + 1,
{
}

/// Size in bytes of a `DEVMODEW` record, which its `dmSize` field must hold.
pub const DEVMODEW_SIZE: u16 = 220;

/// `dmFields` bit: the position is set.
pub const DM_POSITION: u32 = 0x0000_0020;

/// `dmFields` bit: the orientation is set.
pub const DM_DISPLAYORIENTATION: u32 = 0x0000_0080;

/// `dmFields` bit: the width is set.
pub const DM_PELSWIDTH: u32 = 0x0008_0000;

/// `dmFields` bit: the height is set.
pub const DM_PELSHEIGHT: u32 = 0x0010_0000;

/// Orientation: none.
pub const DMDO_DEFAULT: u32 = 0;

/// Orientation: 90 degrees.
pub const DMDO_90: u32 = 1;

/// Orientation: 180 degrees.
pub const DMDO_180: u32 = 2;

/// Orientation: 270 degrees.
pub const DMDO_270: u32 = 3;

/// The fields of a `DEVMODEW` display record that the backend reads and
/// writes.
#[derive(Debug, Clone, Copy, PartialEq, Eq, Structural)]
pub struct GdiDevMode {
    /// `dmSize`: the size of the record.
    pub size: u16,
    /// `dmFields`: which of the fields below are set.
    pub fields: u32,
    /// `dmPelsWidth`.
    pub pels_width: u32,
    /// `dmPelsHeight`.
    pub pels_height: u32,
    /// `dmPosition.x`.
    pub position_x: i32,
    /// `dmPosition.y`.
    pub position_y: i32,
    /// `dmDisplayOrientation`.
    pub orientation: u32,
    /// `dmDisplayFrequency`, in hertz.
    pub display_frequency: u32,
}

/// An empty display record with only its size set.
pub open spec fn empty_devmode() -> GdiDevMode {
    GdiDevMode {
        size: DEVMODEW_SIZE,
        fields: 0,
        pels_width: 0,
        pels_height: 0,
        position_x: 0,
        position_y: 0,
        orientation: 0,
        display_frequency: 0,
    }
}

/// Initialises an empty display record with its size field set, as the GDI
/// calls that fill one require.
pub fn create_empty_devmode() -> (res: GdiDevMode)
    ensures
        res == empty_devmode(),
{
    GdiDevMode {
        size: DEVMODEW_SIZE,
        fields: 0,
        pels_width: 0,
        pels_height: 0,
        position_x: 0,
        position_y: 0,
        orientation: 0,
        display_frequency: 0,
    }
}

/// The orientation value of a rotation.
pub open spec fn dmdo_value(r: DisplayRotation) -> u32 {
    match r {
        DisplayRotation::Rotate0 => DMDO_DEFAULT,
        DisplayRotation::Rotate90 => DMDO_90,
        DisplayRotation::Rotate180 => DMDO_180,
        DisplayRotation::Rotate270 => DMDO_270,
    }
}

/// The rotation an orientation value stands for; anything unknown reads as
/// no rotation.
pub open spec fn dmdo_rotation(v: u32) -> DisplayRotation {
    if v == DMDO_90 {
        DisplayRotation::Rotate90
    } else if v == DMDO_180 {
        DisplayRotation::Rotate180
    } else if v == DMDO_270 {
        DisplayRotation::Rotate270
    } else {
        DisplayRotation::Rotate0
    }
}

/// Converts a rotation to the corresponding `dmDisplayOrientation` value.
pub fn rotation_to_dmdo(rotation: DisplayRotation) -> (res: u32)
    ensures
        res == dmdo_value(rotation),
{
    match rotation {
        DisplayRotation::Rotate0 => DMDO_DEFAULT,
        DisplayRotation::Rotate90 => DMDO_90,
        DisplayRotation::Rotate180 => DMDO_180,
        DisplayRotation::Rotate270 => DMDO_270,
    }
}

/// Reads a `dmDisplayOrientation` value.
pub fn dmdo_to_rotation(v: u32) -> (res: DisplayRotation)
    ensures
        res == dmdo_rotation(v),
{
    if v == DMDO_90 {
        DisplayRotation::Rotate90
    } else if v == DMDO_180 {
        DisplayRotation::Rotate180
    } else if v == DMDO_270 {
        DisplayRotation::Rotate270
    } else {
        DisplayRotation::Rotate0
    }
}

/// Reading back the orientation written for a rotation gives that rotation,
/// and distinct rotations are written as distinct values.
pub proof fn lemma_dmdo_roundtrip(r: DisplayRotation, q: DisplayRotation)
    ensures
        dmdo_rotation(dmdo_value(r)) == r,
        r != q ==> dmdo_value(r) != dmdo_value(q),
{
}

} // verus!
