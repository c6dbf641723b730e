use vstd::prelude::*;
use vstd::string::StringSliceAdditionalSpecFns;

verus! {

/// The UTF-16 code units of one character: itself below U+10000, otherwise a
/// surrogate pair.
pub open spec fn utf16_units(c: char) -> Seq<u16> {
    let v = c as int;
    if v < 0x10000 {
        seq![v as u16]
    } else {
        let w = v - 0x10000;
        seq![(0xD800 + w / 1024) as u16, (0xDC00 + w % 1024) as u16]
    }
}

/// The UTF-16 encoding of a character sequence.
pub open spec fn utf16_encode(s: Seq<char>) -> Seq<u16>
    decreases s.len(),
{
    if s.len() == 0 {
        Seq::empty()
    } else {
        utf16_encode(s.drop_last()) + utf16_units(s.last())
    }
}

/// The C string that holds `s`: its UTF-8 bytes followed by a NUL.
pub open spec fn c_string_bytes(s: &str) -> Seq<u8> {
    s.spec_bytes().push(0u8)
}

/// The code units of one character.
fn char_units(c: char) -> (r: Vec<u16>)
    ensures
        r@ == utf16_units(c),
{
    let v: u32 = c as u32;
    let mut r: Vec<u16> = Vec::new();
    if v < 0x10000 {
        r.push(v as u16);
    } else {
        let w: u32 = v - 0x10000;
        assert(w < 0x100000);
        r.push((0xD800 + w / 1024) as u16);
        r.push((0xDC00 + w % 1024) as u16);
    }
    assert(r@ =~= utf16_units(c));
    r
}

/// The UTF-16 encoding of `s`.
pub fn encode_utf16(s: &str) -> (r: Vec<u16>)
    ensures
        r@ == utf16_encode(s@),
{
    let mut r: Vec<u16> = Vec::new();
    let mut chars: Vec<char> = Vec::new();
    for c in it: s.chars()
        invariant
            it.seq() == s@,
            chars@ == it.seq().take(it.index() as int),
            r@ == utf16_encode(chars@),
    {
        let units = char_units(c);
        let ghost before = chars@;
        chars.push(c);
        assert(chars@.drop_last() =~= before);
        let mut i: usize = 0;
        while i < units.len()
            invariant
                i <= units@.len(),
                r@ == utf16_encode(before) + units@.take(i as int),
            decreases units@.len() - i,
        {
            r.push(units[i]);
            i = i + 1;
            assert(r@ =~= utf16_encode(before) + units@.take(i as int));
        }
        assert(units@.take(units@.len() as int) =~= units@);
        assert(chars@ =~= it.seq().take(it.index() as int + 1));
    }
    assert(chars@ =~= s@);
    r
}

/// Hands `v` to the rest of the program's lifetime: the memory is never freed
/// and the returned slice holds the elements of `v`. Calls `Vec::leak`, whose
/// documentation says that it returns the vector's contents.
#[verifier::external_body]
fn leak_units(v: Vec<u16>) -> (r: &'static [u16])
    ensures
        r@ == v@,
{
    v.leak()
}

/// A NUL-terminated UTF-16 copy of `s` that lives as long as the program.
pub fn leak_utf16(s: &str) -> (r: &'static [u16])
    ensures
        r@ == utf16_encode(s@).push(0u16),
{
    let mut units = encode_utf16(s);
    units.push(0);
    leak_units(units)
}

/// Writes `s` into a UTF-16 buffer of `max_len` units: as many code units as fit
/// before a terminating NUL, then the NUL. Units of `out` past the NUL keep
/// their values.
pub fn str_to_utf16(s: &str, out: &mut [u16], max_len: usize)
    requires
        1 <= max_len <= old(out)@.len(),
    ensures
        ({
            let u = utf16_encode(s@);
            let k: int = if u.len() < max_len - 1 {
                u.len() as int
            } else {
                max_len - 1
            };
            &&& final(out)@.len() == old(out)@.len()
            &&& forall|i: int| 0 <= i < k ==> #[trigger] final(out)@[i] == u[i]
            &&& final(out)@[k] == 0
            &&& forall|i: int| k < i < old(out)@.len() ==> #[trigger] final(out)@[i] == old(out)@[i]
        }),
{
    let units = encode_utf16(s);
    let limit: usize = max_len - 1;
    let mut i: usize = 0;
    while i < units.len() && i < limit
        invariant
            i <= units@.len(),
            i <= limit,
            limit < out@.len(),
            out@.len() == old(out)@.len(),
            units@ == utf16_encode(s@),
            forall|j: int| 0 <= j < i ==> #[trigger] out@[j] == units@[j],
            forall|j: int| i <= j < out@.len() ==> #[trigger] out@[j] == old(out)@[j],
        decreases units@.len() - i,
    {
        out[i] = units[i];
        i = i + 1;
    }
    out[i] = 0;
}

/// Copies `src` as a C string into `dst`: its UTF-8 bytes and a terminating NUL,
/// as many as fit. When the string does not fit, the last element of `dst` is
/// set to NUL. Elements after the copied ones keep their values. `src` holds no
/// NUL character.
pub fn copy_c_str(src: &str, dst: &mut [i8])
    requires
        !src@.contains('\0'),
    ensures
        ({
            let b = c_string_bytes(src);
            let n = old(dst)@.len();
            let len: int = if b.len() < n {
                b.len() as int
            } else {
                n as int
            };
            &&& final(dst)@.len() == n
            &&& forall|i: int|
                0 <= i < len && !(len == n && i == n - 1) ==> #[trigger] final(dst)@[i]
                    == b[i] as i8
            &&& len < n ==> final(dst)@[len] == 0
            &&& len == n && n > 0 ==> final(dst)@[n - 1] == 0
            &&& forall|i: int| len < i < n ==> #[trigger] final(dst)@[i] == old(dst)@[i]
        }),
{
    let bytes = src.as_bytes();
    let total: usize = bytes.len();
    let n: usize = dst.len();
    let len: usize = if total < n {
        total + 1
    } else {
        n
    };
    let mut i: usize = 0;
    while i < len
        invariant
            i <= len,
            len <= n,
            n == dst@.len(),
            n == old(dst)@.len(),
            total == bytes@.len(),
            bytes@ == src.spec_bytes(),
            len == (if total + 1 < n {
                total + 1
            } else {
                n as int
            }) || (len == total + 1 && total + 1 == n),
            forall|j: int| 0 <= j < i ==> #[trigger] dst@[j] == c_string_bytes(src)[j] as i8,
            forall|j: int| i <= j < n ==> #[trigger] dst@[j] == old(dst)@[j],
        decreases len - i,
    {
        let b: u8 = if i < total {
            bytes[i]
        } else {
            0
        };
        dst[i] = b as i8;
        i = i + 1;
    }
    if len < n {
        dst[len] = 0;
    } else if n > 0 {
        dst[n - 1] = 0;
    }
}

/// The C string of `s` (its bytes followed by a NUL), or none when `s` holds a
/// NUL byte itself.
pub fn to_c_string(s: &str) -> (r: Option<Vec<u8>>)
    ensures
        match r {
            Some(b) => b@ == c_string_bytes(s) && !s.spec_bytes().contains(0u8),
            None => s.spec_bytes().contains(0u8),
        },
{
    let bytes = s.as_bytes();
    let mut out: Vec<u8> = Vec::new();
    let mut i: usize = 0;
    while i < bytes.len()
        invariant
            i <= bytes@.len(),
            bytes@ == s.spec_bytes(),
            out@ == bytes@.take(i as int),
            forall|j: int| 0 <= j < i ==> bytes@[j] != 0u8,
        decreases bytes@.len() - i,
    {
        if bytes[i] == 0 {
            assert(bytes@[i as int] == 0u8);
            return None;
        }
        out.push(bytes[i]);
        i = i + 1;
        assert(out@ =~= bytes@.take(i as int));
    }
    out.push(0u8);
    assert(out@ =~= c_string_bytes(s));
    assert(!s.spec_bytes().contains(0u8)) by {
        if s.spec_bytes().contains(0u8) {
            let j = choose|j: int| 0 <= j < bytes@.len() && bytes@[j] == 0u8;
            assert(bytes@[j] != 0u8);
        }
    }
    Some(out)
}

/// `u` is a leading (high) surrogate.
pub open spec fn is_high_surrogate(u: u16) -> bool {
    0xD800 <= u <= 0xDBFF
}

/// `u` is a trailing (low) surrogate.
pub open spec fn is_low_surrogate(u: u16) -> bool {
    0xDC00 <= u <= 0xDFFF
}

/// The scalar value a surrogate pair stands for.
pub open spec fn pair_value(hi: u16, lo: u16) -> int {
    0x10000 + (hi - 0xD800) * 1024 + (lo - 0xDC00)
}

/// The characters of UTF-16 code units, read from the front: a leading
/// surrogate followed by a trailing one is one character, any other surrogate
/// becomes the replacement character U+FFFD, any other unit is the character
/// with its value.
pub open spec fn utf16_decode_lossy(s: Seq<u16>) -> Seq<char>
    decreases s.len(),
{
    if s.len() == 0 {
        Seq::empty()
    } else if s.len() >= 2 && is_high_surrogate(s[0]) && is_low_surrogate(s[1]) {
        seq![pair_value(s[0], s[1]) as char] + utf16_decode_lossy(s.skip(2))
    } else if is_high_surrogate(s[0]) || is_low_surrogate(s[0]) {
        seq!['\u{FFFD}'] + utf16_decode_lossy(s.skip(1))
    } else {
        seq![s[0] as char] + utf16_decode_lossy(s.skip(1))
    }
}

/// The number of units before the first NUL of `s` (all of them when there is
/// none).
pub open spec fn units_before_nul(s: Seq<u16>, n: int) -> bool {
    &&& 0 <= n <= s.len()
    &&& n < s.len() ==> s[n] == 0u16
    &&& forall|j: int| 0 <= j < n ==> s[j] != 0u16
}

/// The character with scalar value `v`. Calls `char::from_u32`, whose
/// documentation says that it gives the character when `v` is a Unicode scalar
/// value (at most U+10FFFF and not a surrogate) and none otherwise.
#[verifier::external_body]
fn char_from_scalar(v: u32) -> (r: Option<char>)
    ensures
        (v <= 0xD7FF || (0xE000 <= v && v <= 0x10FFFF)) ==> r == Some(v as char),
        !(v <= 0xD7FF || (0xE000 <= v && v <= 0x10FFFF)) ==> r is None,
{
    char::from_u32(v)
}

/// The text of a NUL-terminated UTF-16 string: the units before the first NUL
/// (all of them when there is none), decoded as `utf16_decode_lossy` says.
pub fn decode_utf16_until_nul(units: &[u16]) -> (r: Vec<char>)
    ensures
        exists|n: int| units_before_nul(units@, n) && r@ == utf16_decode_lossy(units@.take(n)),
{
    let mut end: usize = 0;
    while end < units.len() && units[end] != 0
        invariant
            end <= units@.len(),
            forall|j: int| 0 <= j < end ==> units@[j] != 0u16,
        decreases units@.len() - end,
    {
        end = end + 1;
    }
    let ghost t = units@.take(end as int);
    let mut out: Vec<char> = Vec::new();
    let mut i: usize = 0;
    assert(t.skip(0) =~= t);
    assert(out@ + utf16_decode_lossy(t.skip(0)) =~= utf16_decode_lossy(t));
    while i < end
        invariant
            i <= end <= units@.len(),
            t == units@.take(end as int),
            utf16_decode_lossy(t) == out@ + utf16_decode_lossy(t.skip(i as int)),
        decreases end - i,
    {
        let ghost rest = t.skip(i as int);
        let u = units[i];
        assert(rest[0] == u);
        if i + 1 < end && 0xD800 <= u && u <= 0xDBFF && 0xDC00 <= units[i + 1] && units[i + 1]
            <= 0xDFFF {
            let lo = units[i + 1];
            assert(rest[1] == lo);
            let v: u32 = 0x10000 + ((u - 0xD800) as u32) * 1024 + ((lo - 0xDC00) as u32);
            assert(v == pair_value(u, lo));
            let c = match char_from_scalar(v) {
                Some(c) => c,
                None => {
                    assert(false);
                    '\u{FFFD}'
                },
            };
            assert(rest.skip(2) =~= t.skip(i + 2));
            let ghost before = out@;
            out.push(c);
            assert(before + (seq![c] + utf16_decode_lossy(rest.skip(2))) =~= out@
                + utf16_decode_lossy(rest.skip(2)));
            i = i + 2;
        } else if 0xD800 <= u && u <= 0xDFFF {
            assert(rest.skip(1) =~= t.skip(i + 1));
            let ghost before = out@;
            out.push('\u{FFFD}');
            assert(before + (seq!['\u{FFFD}'] + utf16_decode_lossy(rest.skip(1))) =~= out@
                + utf16_decode_lossy(rest.skip(1)));
            i = i + 1;
        } else {
            let c = match char_from_scalar(u as u32) {
                Some(c) => c,
                None => {
                    assert(false);
                    '\u{FFFD}'
                },
            };
            assert(rest.skip(1) =~= t.skip(i + 1));
            let ghost before = out@;
            out.push(c);
            assert(before + (seq![c] + utf16_decode_lossy(rest.skip(1))) =~= out@
                + utf16_decode_lossy(rest.skip(1)));
            i = i + 1;
        }
    }
    assert(t.skip(end as int) =~= Seq::<u16>::empty());
    assert(out@ + Seq::<char>::empty() =~= out@);
    assert(units_before_nul(units@, end as int));
    out
}

/// The UTF-16 encoding of a non-empty text is that of its first character
/// followed by that of the rest.
proof fn lemma_encode_front(cs: Seq<char>)
    requires
        cs.len() > 0,
    ensures
        utf16_encode(cs) == utf16_units(cs[0]) + utf16_encode(cs.drop_first()),
    decreases cs.len(),
{
    if cs.len() == 1 {
        assert(cs.drop_last() =~= Seq::<char>::empty());
        assert(cs.drop_first() =~= Seq::<char>::empty());
        assert(utf16_encode(cs.drop_first()) == Seq::<u16>::empty());
        assert(utf16_encode(cs.drop_last()) == Seq::<u16>::empty());
        assert(utf16_units(cs[0]) + Seq::<u16>::empty() =~= utf16_units(cs[0]));
        assert(Seq::<u16>::empty() + utf16_units(cs[0]) =~= utf16_units(cs[0]));
    } else {
        let dl = cs.drop_last();
        lemma_encode_front(dl);
        assert(dl[0] == cs[0]);
        assert(dl.drop_first() =~= cs.drop_first().drop_last());
        assert(cs.drop_first().last() == cs.last());
        assert(utf16_encode(cs) == utf16_encode(dl) + utf16_units(cs.last()));
        assert(utf16_encode(cs.drop_first()) == utf16_encode(cs.drop_first().drop_last())
            + utf16_units(cs.drop_first().last()));
        assert(utf16_encode(cs) =~= utf16_units(cs[0]) + utf16_encode(cs.drop_first()));
    }
}

/// Decoding gives back what was encoded: the UTF-16 encoding of any text reads
/// back as that text.
pub proof fn law_utf16_round_trip(cs: Seq<char>)
    ensures
        utf16_decode_lossy(utf16_encode(cs)) == cs,
    decreases cs.len(),
{
    if cs.len() == 0 {
        assert(utf16_encode(cs) == Seq::<u16>::empty());
        assert(cs =~= Seq::<char>::empty());
    } else {
        lemma_encode_front(cs);
        let c = cs[0];
        let tail = cs.drop_first();
        law_utf16_round_trip(tail);
        let rest = utf16_encode(tail);
        let s = utf16_encode(cs);
        let v = c as int;
        let v32 = c as u32;
        vstd::utf8::char_is_scalar(c);
        vstd::utf8::char_u32_cast(c, v32);
        assert(v == v32 as int);
        if v < 0x10000 {
            assert(utf16_units(c) =~= seq![v as u16]);
            assert(s[0] == v as u16);
            assert(s.skip(1) =~= rest);
            assert((v as u16) as int == v);
            assert(!(0xD800 <= v <= 0xDFFF));
            assert(((v as u16) as char) == c);
            assert(utf16_decode_lossy(s) == seq![c] + utf16_decode_lossy(rest));
            assert(seq![c] + tail =~= cs);
        } else {
            let w = v - 0x10000;
            assert(0 <= w < 0x100000);
            let hi = w / 1024;
            let lo = w % 1024;
            assert(w == 1024 * hi + lo && 0 <= lo < 1024) by {
                vstd::arithmetic::div_mod::lemma_fundamental_div_mod(w, 1024);
                vstd::arithmetic::div_mod::lemma_mod_bound(w, 1024);
            }
            assert(0 <= hi < 1024);
            assert(utf16_units(c) =~= seq![(0xD800 + hi) as u16, (0xDC00 + lo) as u16]);
            assert(s[0] == (0xD800 + hi) as u16 && s[1] == (0xDC00 + lo) as u16);
            assert(pair_value(s[0], s[1]) == v);
            assert((v as char) == c);
            assert(s.skip(2) =~= rest);
            assert(utf16_decode_lossy(s) == seq![c] + utf16_decode_lossy(rest));
            assert(seq![c] + tail =~= cs);
        }
    }
}

} // verus!
