//! Null-terminated UTF-16 text for the wide-character Win32 calls.
//!
//! The functions here read the UTF-8 bytes of a `&str` and produce its UTF-16
//! code units, the form that the `W` entry points of Win32 take.
use vstd::prelude::*;
use vstd::utf8::*;

verus! {

broadcast use vstd::string::group_string_axioms;

/// The UTF-16 code units of one Unicode scalar value: a single unit inside
/// the Basic Multilingual Plane, a surrogate pair outside it.
pub open spec fn utf16_of_scalar(cp: u32) -> Seq<u16> {
    if cp < 0x10000 {
        seq![cp as u16]
    } else {
        seq![
            (0xD800 + (cp - 0x10000) / 0x400) as u16,
            (0xDC00 + (cp - 0x10000) % 0x400) as u16,
        ]
    }
}

/// The UTF-16 encoding of a character sequence (no terminator).
pub open spec fn utf16_encode(cs: Seq<char>) -> Seq<u16>
    decreases cs.len(),
{
    if cs.len() == 0 {
        seq![]
    } else {
        utf16_of_scalar(cs[0] as u32) + utf16_encode(cs.drop_first())
    }
}

/// The null-terminated UTF-16 form of a character sequence.
pub open spec fn wide_of(cs: Seq<char>) -> Seq<u16> {
    utf16_encode(cs).push(0u16)
}

proof fn lemma_encode_utf8_concat(a: Seq<char>, b: Seq<char>)
    ensures
        encode_utf8(a + b) == encode_utf8(a) + encode_utf8(b),
    decreases a.len(),
{
    if a.len() == 0 {
        assert(a + b =~= b);
        assert(encode_utf8(a) + encode_utf8(b) =~= encode_utf8(b));
    } else {
        assert((a + b).drop_first() =~= a.drop_first() + b);
        assert((a + b)[0] == a[0]);
        lemma_encode_utf8_concat(a.drop_first(), b);
        assert(encode_utf8(a + b) =~= encode_utf8(a) + encode_utf8(b));
    }
}

proof fn lemma_utf16_encode_concat(a: Seq<char>, b: Seq<char>)
    ensures
        utf16_encode(a + b) == utf16_encode(a) + utf16_encode(b),
    decreases a.len(),
{
    if a.len() == 0 {
        assert(a + b =~= b);
        assert(utf16_encode(a) + utf16_encode(b) =~= utf16_encode(b));
    } else {
        assert((a + b).drop_first() =~= a.drop_first() + b);
        assert((a + b)[0] == a[0]);
        lemma_utf16_encode_concat(a.drop_first(), b);
        assert(utf16_encode(a + b) =~= utf16_encode(a) + utf16_encode(b));
    }
}

proof fn lemma_single(c: char)
    ensures
        encode_utf8(seq![c]) == encode_scalar(c as u32),
        utf16_encode(seq![c]) == utf16_of_scalar(c as u32),
{
    let e = Seq::<char>::empty();
    assert(seq![c].drop_first() =~= e);
    assert(seq![c][0] == c);
    assert(encode_utf8(e) =~= Seq::<u8>::empty());
    assert(utf16_encode(e) =~= Seq::<u16>::empty());
    assert(encode_utf8(seq![c]) == encode_scalar(c as u32) + encode_utf8(e));
    assert(utf16_encode(seq![c]) == utf16_of_scalar(c as u32) + utf16_encode(e));
    assert(encode_utf8(seq![c]) =~= encode_scalar(c as u32));
    assert(utf16_encode(seq![c]) =~= utf16_of_scalar(c as u32));
}

/// How the encodings of `cs` decompose around the character at index `k`.
proof fn lemma_split_at(cs: Seq<char>, k: int)
    requires
        0 <= k < cs.len(),
    ensures
        encode_utf8(cs) == encode_utf8(cs.take(k)) + encode_scalar(cs[k] as u32) + encode_utf8(
            cs.skip(k + 1),
        ),
        encode_utf8(cs.take(k + 1)) == encode_utf8(cs.take(k)) + encode_scalar(cs[k] as u32),
        utf16_encode(cs.take(k + 1)) == utf16_encode(cs.take(k)) + utf16_of_scalar(cs[k] as u32),
        utf16_encode(cs) == utf16_encode(cs.take(k + 1)) + utf16_encode(cs.skip(k + 1)),
{
    let c = cs[k];
    assert(cs.take(k + 1) =~= cs.take(k) + seq![c]);
    assert(cs =~= cs.take(k + 1) + cs.skip(k + 1));
    lemma_single(c);
    lemma_encode_utf8_concat(cs.take(k), seq![c]);
    lemma_utf16_encode_concat(cs.take(k), seq![c]);
    lemma_encode_utf8_concat(cs.take(k + 1), cs.skip(k + 1));
    lemma_utf16_encode_concat(cs.take(k + 1), cs.skip(k + 1));
}

/// A character never needs more UTF-16 units than UTF-8 bytes.
proof fn lemma_utf16_le_utf8(cs: Seq<char>)
    ensures
        utf16_encode(cs).len() <= encode_utf8(cs).len(),
    decreases cs.len(),
{
    if cs.len() > 0 {
        let s = cs[0] as u32;
        char_is_scalar(cs[0]);
        lemma_utf16_le_utf8(cs.drop_first());
        assert(utf16_of_scalar(s).len() <= encode_scalar(s).len());
    }
}

proof fn lemma_take_all(cs: Seq<char>)
    ensures
        cs.take(cs.len() as int) == cs,
{
    assert(cs.take(cs.len() as int) =~= cs);
}

proof fn lemma_bv_width_1(s: u32)
    by (bit_vector)
    requires
        s <= 0x7F,
    ensures
        leading_byte_width_1(s) < 0x80,
        leading_byte_width_1(s) as u32 == s,
{
}

proof fn lemma_bv_width_2(s: u32)
    by (bit_vector)
    requires
        0x80 <= s <= 0x7FF,
    ensures
        0x80 <= leading_byte_width_2(s) < 0xE0,
        (((leading_byte_width_2(s) as u32 & 0x1F) << 6) | (last_continuation_byte(s) as u32
            & 0x3F)) == s,
{
}

proof fn lemma_bv_width_3(s: u32)
    by (bit_vector)
    requires
        0x800 <= s <= 0xFFFF,
    ensures
        0xE0 <= leading_byte_width_3(s) < 0xF0,
        (((leading_byte_width_3(s) as u32 & 0x0F) << 12) | ((second_last_continuation_byte(s) as u32
            & 0x3F) << 6) | (last_continuation_byte(s) as u32 & 0x3F)) == s,
{
}

proof fn lemma_bv_width_4(s: u32)
    by (bit_vector)
    requires
        0x10000 <= s <= 0x10FFFF,
    ensures
        0xF0 <= leading_byte_width_4(s),
        (((leading_byte_width_4(s) as u32 & 0x07) << 18) | ((third_last_continuation_byte(s) as u32
            & 0x3F) << 12) | ((second_last_continuation_byte(s) as u32 & 0x3F) << 6) | (
        last_continuation_byte(s) as u32 & 0x3F)) == s,
{
}

proof fn lemma_bv_surrogates(v: u32)
    by (bit_vector)
    requires
        v <= 0xFFFFF,
    ensures
        v >> 10 == v / 0x400,
        v & 0x3FF == v % 0x400,
        v >> 10 <= 0x3FF,
{
}

/// Facts about the UTF-8 bytes of `cs` at the start of the character at index `k`:
/// which branch the lead byte selects, and that decoding gives the character back.
proof fn lemma_scalar_at(cs: Seq<char>, k: int)
    requires
        0 <= k < cs.len(),
    ensures
        ({
            let bytes = encode_utf8(cs);
            let i = encode_utf8(cs.take(k)).len() as int;
            let s = cs[k] as u32;
            let w = encode_scalar(s).len() as int;
            &&& 1 <= w
            &&& i + w <= bytes.len()
            &&& encode_utf8(cs.take(k + 1)).len() == i + w
            &&& (bytes[i] < 0x80 ==> w == 1 && bytes[i] as u32 == s)
            &&& (0x80 <= bytes[i] < 0xE0 ==> w == 2 && (((bytes[i] as u32 & 0x1F) << 6) | (
            bytes[i + 1] as u32 & 0x3F)) == s)
            &&& (0xE0 <= bytes[i] < 0xF0 ==> w == 3 && (((bytes[i] as u32 & 0x0F) << 12) | ((
            bytes[i + 1] as u32 & 0x3F) << 6) | (bytes[i + 2] as u32 & 0x3F)) == s)
            &&& (0xF0 <= bytes[i] ==> w == 4 && (((bytes[i] as u32 & 0x07) << 18) | ((bytes[i
                + 1] as u32 & 0x3F) << 12) | ((bytes[i + 2] as u32 & 0x3F) << 6) | (bytes[i
                + 3] as u32 & 0x3F)) == s)
            &&& (s < 0x10000 <==> bytes[i] < 0xF0)
            &&& utf16_of_scalar(s).len() == (if s < 0x10000 { 1int } else { 2int })
        }),
{
    lemma_split_at(cs, k);
    let s = cs[k] as u32;
    char_is_scalar(cs[k]);
    let pre = encode_utf8(cs.take(k));
    let sc = encode_scalar(s);
    let i = pre.len() as int;
    let bytes = encode_utf8(cs);
    assert(forall|j: int| 0 <= j < sc.len() ==> bytes[i + j] == sc[j]);
    if has_width_1_encoding(s) {
        lemma_bv_width_1(s);
    } else if has_width_2_encoding(s) {
        lemma_bv_width_2(s);
    } else if has_width_3_encoding(s) {
        lemma_bv_width_3(s);
    } else {
        lemma_bv_width_4(s);
    }
}

/// Number of UTF-16 code units in `s`, not counting a terminator.
pub fn utf16_len(s: &str) -> (n: usize)
    ensures
        n == utf16_encode(s@).len(),
{
    let b = s.as_bytes();
    let ghost cs = s@;
    let mut i: usize = 0;
    let mut n: usize = 0;
    let ghost mut k: int = 0;
    proof {
        assert(cs.take(0) =~= Seq::<char>::empty());
        assert(encode_utf8(cs.take(0)) =~= Seq::<u8>::empty());
        assert(utf16_encode(cs.take(0)) =~= Seq::<u16>::empty());
        lemma_utf16_le_utf8(cs);
        if cs.len() > 0 {
            lemma_scalar_at(cs, 0);
        }
    }
    while i < b.len()
        invariant
            b@ == encode_utf8(cs),
            0 <= k <= cs.len(),
            i == encode_utf8(cs.take(k)).len(),
            n == utf16_encode(cs.take(k)).len(),
            i < b@.len() ==> k < cs.len(),
            k < cs.len() ==> i < b@.len(),
            k == cs.len() ==> i == b@.len(),
            utf16_encode(cs).len() <= b@.len(),
        decreases b@.len() - i,
    {
        proof {
            if k == cs.len() {
                lemma_take_all(cs);
            }
            lemma_scalar_at(cs, k);
            lemma_split_at(cs, k);
            lemma_utf16_encode_concat(cs.take(k + 1), cs.skip(k + 1));
        }
        let c = b[i];
        assert(utf16_encode(cs.take(k + 1)).len() <= utf16_encode(cs).len());
        if c < 0x80 {
            i += 1;
            n += 1;
        } else if c < 0xE0 {
            i += 2;
            n += 1;
        } else if c < 0xF0 {
            i += 3;
            n += 1;
        } else {
            i += 4;
            n += 2;
        }
        proof {
            k = k + 1;
            if k < cs.len() {
                lemma_scalar_at(cs, k);
            } else {
                lemma_take_all(cs);
            }
        }
    }
    proof {
        lemma_take_all(cs);
    }
    n
}

/// UTF-16 code units of one scalar value, as the two conversion loops emit them.
fn scalar_units(cp: u32) -> (r: (u16, Option<u16>))
    requires
        cp <= 0x10FFFF,
    ensures
        cp < 0x10000 ==> utf16_of_scalar(cp) == seq![r.0] && r.1 is None,
        cp >= 0x10000 ==> r.1 is Some && utf16_of_scalar(cp) == seq![r.0, r.1->0],
{
    if cp < 0x10000 {
        (cp as u16, None)
    } else {
        let v = cp - 0x10000;
        proof {
            lemma_bv_surrogates(v);
        }
        ((0xD800 + (v >> 10)) as u16, Some((0xDC00 + (v & 0x3FF)) as u16))
    }
}

/// Decodes the scalar whose UTF-8 encoding starts at byte `i` of `b`.
fn decode_at(b: &[u8], i: usize, Ghost(cs): Ghost<Seq<char>>, Ghost(k): Ghost<int>) -> (r: (
    u32,
    usize,
))
    requires
        b@ == encode_utf8(cs),
        0 <= k < cs.len(),
        i == encode_utf8(cs.take(k)).len(),
    ensures
        r.0 == cs[k] as u32,
        r.1 == encode_utf8(cs.take(k + 1)).len(),
        r.0 <= 0x10FFFF,
{
    proof {
        lemma_scalar_at(cs, k);
        char_is_scalar(cs[k]);
    }
    let c0 = b[i] as u32;
    if c0 < 0x80 {
        (c0, i + 1)
    } else if c0 < 0xE0 {
        (((c0 & 0x1F) << 6) | (b[i + 1] as u32 & 0x3F), i + 2)
    } else if c0 < 0xF0 {
        (((c0 & 0x0F) << 12) | ((b[i + 1] as u32 & 0x3F) << 6) | (b[i + 2] as u32 & 0x3F), i + 3)
    } else {
        (((c0 & 0x07) << 18) | ((b[i + 1] as u32 & 0x3F) << 12) | ((b[i + 2] as u32 & 0x3F) << 6)
            | (b[i + 3] as u32 & 0x3F), i + 4)
    }
}

/// The UTF-16 form of `s` in an array of `N` units; the units after the text stay 0.
/// With `N == utf16_len(s) + 1` the array is exactly the null-terminated text.
pub fn utf16_arr<const N: usize>(s: &str) -> (out: [u16; N])
    requires
        utf16_encode(s@).len() <= N,
    ensures
        out@ == utf16_encode(s@) + Seq::new((N - utf16_encode(s@).len()) as nat, |j: int| 0u16),
{
    let b = s.as_bytes();
    let ghost cs = s@;
    let mut out = [0u16; N];
    let mut i: usize = 0;
    let mut o: usize = 0;
    let ghost mut k: int = 0;
    proof {
        assert(cs.take(0) =~= Seq::<char>::empty());
        assert(encode_utf8(cs.take(0)) =~= Seq::<u8>::empty());
        assert(utf16_encode(cs.take(0)) =~= Seq::<u16>::empty());
        if cs.len() > 0 {
            lemma_scalar_at(cs, 0);
        }
    }
    while i < b.len()
        invariant
            b@ == encode_utf8(cs),
            0 <= k <= cs.len(),
            i == encode_utf8(cs.take(k)).len(),
            o == utf16_encode(cs.take(k)).len(),
            i < b@.len() ==> k < cs.len(),
            k < cs.len() ==> i < b@.len(),
            k == cs.len() ==> i == b@.len(),
            utf16_encode(cs).len() <= N,
            out@.len() == N,
            forall|j: int| 0 <= j < o ==> out@[j] == utf16_encode(cs.take(k))[j],
            forall|j: int| o <= j < N ==> out@[j] == 0u16,
        decreases b@.len() - i,
    {
        proof {
            lemma_split_at(cs, k);
            lemma_utf16_encode_concat(cs.take(k + 1), cs.skip(k + 1));
        }
        let (cp, next) = decode_at(b, i, Ghost(cs), Ghost(k));
        let (u0, u1) = scalar_units(cp);
        out[o] = u0;
        o += 1;
        match u1 {
            Some(u) => {
                out[o] = u;
                o += 1;
            },
            None => {},
        }
        i = next;
        proof {
            assert(forall|j: int|
                0 <= j < o ==> out@[j] == #[trigger] utf16_encode(cs.take(k + 1))[j]);
            k = k + 1;
            if k < cs.len() {
                lemma_scalar_at(cs, k);
            }
        }
    }
    proof {
        lemma_take_all(cs);
        assert(out@ =~= utf16_encode(s@) + Seq::new(
            (N - utf16_encode(s@).len()) as nat,
            |j: int| 0u16,
        ));
    }
    out
}

/// The null-terminated UTF-16 form of `s`, built at run time.
pub fn wide(s: &str) -> (w: Vec<u16>)
    ensures
        w@ == wide_of(s@),
{
    let b = s.as_bytes();
    let ghost cs = s@;
    let mut out: Vec<u16> = Vec::new();
    let mut i: usize = 0;
    let ghost mut k: int = 0;
    proof {
        assert(cs.take(0) =~= Seq::<char>::empty());
        assert(encode_utf8(cs.take(0)) =~= Seq::<u8>::empty());
        assert(utf16_encode(cs.take(0)) =~= Seq::<u16>::empty());
        if cs.len() > 0 {
            lemma_scalar_at(cs, 0);
        }
    }
    while i < b.len()
        invariant
            b@ == encode_utf8(cs),
            0 <= k <= cs.len(),
            i == encode_utf8(cs.take(k)).len(),
            out@ == utf16_encode(cs.take(k)),
            i < b@.len() ==> k < cs.len(),
            k < cs.len() ==> i < b@.len(),
            k == cs.len() ==> i == b@.len(),
        decreases b@.len() - i,
    {
        proof {
            lemma_split_at(cs, k);
        }
        let (cp, next) = decode_at(b, i, Ghost(cs), Ghost(k));
        let (u0, u1) = scalar_units(cp);
        out.push(u0);
        match u1 {
            Some(u) => {
                out.push(u);
            },
            None => {},
        }
        i = next;
        proof {
            assert(out@ =~= utf16_encode(cs.take(k + 1)));
            k = k + 1;
            if k < cs.len() {
                lemma_scalar_at(cs, k);
            }
        }
    }
    proof {
        lemma_take_all(cs);
    }
    out.push(0u16);
    out
}

/// A high (leading) surrogate unit.
pub open spec fn is_high_surrogate(u: u16) -> bool {
    0xD800 <= u <= 0xDBFF
}

/// A low (trailing) surrogate unit.
pub open spec fn is_low_surrogate(u: u16) -> bool {
    0xDC00 <= u <= 0xDFFF
}

/// The scalar value that a surrogate pair stands for.
pub open spec fn pair_scalar(hi: u16, lo: u16) -> u32 {
    (0x10000 + (hi - 0xD800) * 0x400 + (lo - 0xDC00)) as u32
}

/// The replacement character U+FFFD.
pub open spec fn replacement_char() -> char {
    0xFFFDu32 as char
}

/// UTF-16 decoding that replaces each unpaired surrogate with U+FFFD: a high
/// surrogate followed by a low one is one character, any other surrogate unit is
/// U+FFFD, and every other unit is the character of that value. This is what
/// `String::from_utf16_lossy` is documented to do.
pub open spec fn utf16_decode_lossy(units: Seq<u16>) -> Seq<char>
    decreases units.len(),
{
    if units.len() == 0 {
        seq![]
    } else if units.len() >= 2 && is_high_surrogate(units[0]) && is_low_surrogate(units[1]) {
        seq![pair_scalar(units[0], units[1]) as char] + utf16_decode_lossy(units.skip(2))
    } else if is_high_surrogate(units[0]) || is_low_surrogate(units[0]) {
        seq![replacement_char()] + utf16_decode_lossy(units.drop_first())
    } else {
        seq![(units[0] as u32) as char] + utf16_decode_lossy(units.drop_first())
    }
}

/// UTF-16 of a character sequence decodes back to exactly that sequence.
pub proof fn lemma_decode_encode(cs: Seq<char>)
    ensures
        utf16_decode_lossy(utf16_encode(cs)) == cs,
    decreases cs.len(),
{
    if cs.len() > 0 {
        let c = cs[0];
        let cp = c as u32;
        let rest = cs.drop_first();
        char_is_scalar(c);
        char_u32_cast(c, cp);
        lemma_decode_encode(rest);
        let head = utf16_of_scalar(cp);
        let units = utf16_encode(cs);
        assert(units == head + utf16_encode(rest));
        if cp < 0x10000 {
            assert(units.drop_first() =~= utf16_encode(rest));
            assert(units[0] == cp as u16);
            assert(((cp as u16) as u32) == cp);
            assert(cs =~= seq![c] + rest);
        } else {
            let hi = (0xD800 + (cp - 0x10000) / 0x400) as u16;
            let lo = (0xDC00 + (cp - 0x10000) % 0x400) as u16;
            assert((cp - 0x10000) / 0x400 <= 0x3FF);
            assert(units[0] == hi);
            assert(units[1] == lo);
            assert(units.skip(2) =~= utf16_encode(rest));
            assert(pair_scalar(hi, lo) == cp) by {
                let d = (cp - 0x10000) as int;
                assert(d == (d / 0x400) * 0x400 + d % 0x400);
            }
            assert(cs =~= seq![c] + rest);
        }
    }
}

/// Calls `String::from_utf16_lossy`, which std documents as decoding UTF-16 and
/// replacing each unpaired surrogate with U+FFFD. Claimed: the result is
/// `utf16_decode_lossy` of the units.
#[verifier::external_body]
pub(crate) fn string_from_utf16_lossy(units: &[u16]) -> (s: String)
    ensures
        s@ == utf16_decode_lossy(units@),
{
    String::from_utf16_lossy(units)
}

/// Length of a null-terminated wide string held in a buffer: the index of the
/// first 0 unit, or the whole buffer when there is none.
pub open spec fn wstr_len(buf: Seq<u16>) -> int
    decreases buf.len(),
{
    if buf.len() == 0 {
        0
    } else if buf[0] == 0 {
        0
    } else {
        1 + wstr_len(buf.drop_first())
    }
}

proof fn lemma_wstr_len(buf: Seq<u16>, k: int)
    requires
        0 <= k <= buf.len(),
        forall|j: int| 0 <= j < k ==> buf[j] != 0,
        k < buf.len() ==> buf[k] == 0,
    ensures
        wstr_len(buf) == k,
    decreases buf.len(),
{
    if buf.len() > 0 && k > 0 {
        assert forall|j: int| 0 <= j < k - 1 implies buf.drop_first()[j] != 0 by {
            assert(buf.drop_first()[j] == buf[j + 1]);
        }
        lemma_wstr_len(buf.drop_first(), k - 1);
    }
}

/// Decodes a null-terminated wide string held in a buffer (up to the first 0, or
/// the whole buffer), replacing ill-formed UTF-16 with U+FFFD.
pub fn wstr_to_string(buf: &[u16]) -> (s: String)
    ensures
        s@ == utf16_decode_lossy(buf@.take(wstr_len(buf@))),
{
    let mut len: usize = 0;
    while len < buf.len() && buf[len] != 0
        invariant
            len <= buf@.len(),
            forall|j: int| 0 <= j < len ==> buf@[j] != 0,
        decreases buf@.len() - len,
    {
        len = len + 1;
    }
    proof {
        lemma_wstr_len(buf@, len as int);
    }
    let head = vstd::slice::slice_subrange(buf, 0, len);
    assert(head@ == buf@.take(len as int));
    string_from_utf16_lossy(head)
}

/// The array that [`utf16_arr`] fills when `N` is the text length plus one is
/// exactly the null-terminated text that [`wide`] builds.
pub proof fn lemma_exact_array_is_wide(cs: Seq<char>, n: nat)
    requires
        n == utf16_encode(cs).len() + 1,
    ensures
        utf16_encode(cs) + Seq::new((n - utf16_encode(cs).len()) as nat, |j: int| 0u16)
            == wide_of(cs),
{
    assert(utf16_encode(cs) + Seq::new((n - utf16_encode(cs).len()) as nat, |j: int| 0u16)
        =~= wide_of(cs));
}

proof fn lemma_no_zero_unit(cs: Seq<char>)
    requires
        forall|i: int| 0 <= i < cs.len() ==> cs[i] != '\0',
    ensures
        forall|j: int| 0 <= j < utf16_encode(cs).len() ==> utf16_encode(cs)[j] != 0,
    decreases cs.len(),
{
    if cs.len() > 0 {
        let rest = cs.drop_first();
        assert forall|i: int| 0 <= i < rest.len() implies rest[i] != '\0' by {
            assert(rest[i] == cs[i + 1]);
        }
        lemma_no_zero_unit(rest);
        let cp = cs[0] as u32;
        char_is_scalar(cs[0]);
        if cp == 0 {
            char_u32_cast(cs[0], cp);
            char_u32_cast('\0', ('\0' as u32));
            assert(('\0' as u32) == 0);
            assert(false);
        }
        let head = utf16_of_scalar(cp);
        if cp >= 0x10000 {
            assert((cp - 0x10000) / 0x400 <= 0x3FF);
            assert((cp - 0x10000) % 0x400 <= 0x3FF);
        }
        assert(forall|j: int| 0 <= j < head.len() ==> head[j] != 0);
        let all = utf16_encode(cs);
        assert(all == head + utf16_encode(rest));
        assert forall|j: int| 0 <= j < all.len() implies all[j] != 0 by {
            if j >= head.len() {
                assert(all[j] == utf16_encode(rest)[j - head.len()]);
            }
        }
    }
}

/// Text without NUL characters survives the trip to a null-terminated wide
/// buffer and back: the part before the terminator is exactly its UTF-16
/// encoding, and decoding it (as [`wstr_to_string`] does) gives the text.
pub proof fn lemma_wide_round_trip(cs: Seq<char>)
    requires
        forall|i: int| 0 <= i < cs.len() ==> cs[i] != '\0',
    ensures
        wide_of(cs).take(wstr_len(wide_of(cs))) == utf16_encode(cs),
        utf16_decode_lossy(wide_of(cs).take(wstr_len(wide_of(cs)))) == cs,
{
    lemma_decode_encode(cs);
    lemma_no_zero_unit(cs);
    let w = wide_of(cs);
    let n = utf16_encode(cs).len() as int;
    assert forall|j: int| 0 <= j < n implies w[j] != 0 by {
        assert(w[j] == utf16_encode(cs)[j]);
    }
    lemma_wstr_len(w, n);
    assert(w.take(n) =~= utf16_encode(cs));
}

} // verus!
