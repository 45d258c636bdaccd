//! Character-level helpers: the characters of a string, splitting at a separator
//! and decimal numbers as `str::parse::<u64>` reads them.
use vstd::prelude::*;

verus! {

broadcast use vstd::string::group_string_axioms;

/// The characters of `s`.
pub fn chars_of(s: &str) -> (v: Vec<char>)
    ensures
        v@ == s@,
{
    let mut v: Vec<char> = Vec::new();
    for c in it: s.chars()
        invariant
            it.seq() == s@,
            v@ == it.seq().take(it.index()),
    {
        proof {
            assert(it.seq().take(it.index() + 1) =~= it.seq().take(it.index()).push(c));
        }
        v.push(c);
    }
    proof {
        assert(s@.take(s@.len() as int) =~= s@);
    }
    v
}

/// Index of the first `c` in `cs`, or -1.
pub open spec fn first_index_of(cs: Seq<char>, c: char) -> int
    decreases cs.len(),
{
    if cs.len() == 0 {
        -1
    } else if cs[0] == c {
        0
    } else {
        let r = first_index_of(cs.drop_first(), c);
        if r < 0 {
            -1
        } else {
            r + 1
        }
    }
}

/// The pieces of `cs` between occurrences of `sep`, as `str::split` yields them
/// (always at least one piece; empty pieces are kept).
pub open spec fn split_on(cs: Seq<char>, sep: char) -> Seq<Seq<char>>
    decreases cs.len(),
{
    let d = first_index_of(cs, sep);
    if d < 0 || d >= cs.len() {
        seq![cs]
    } else {
        seq![cs.take(d)] + split_on(cs.skip(d + 1), sep)
    }
}

pub proof fn lemma_first_index_of(cs: Seq<char>, c: char, k: int)
    requires
        0 <= k <= cs.len(),
        forall|j: int| 0 <= j < k ==> cs[j] != c,
        k < cs.len() ==> cs[k] == c,
    ensures
        first_index_of(cs, c) == (if k < cs.len() { k } else { -1 }),
    decreases cs.len(),
{
    if cs.len() > 0 && k > 0 {
        assert forall|j: int| 0 <= j < k - 1 implies cs.drop_first()[j] != c by {
            assert(cs.drop_first()[j] == cs[j + 1]);
        }
        lemma_first_index_of(cs.drop_first(), c, k - 1);
    }
}

/// `ch` is an ASCII decimal digit.
pub open spec fn is_digit(ch: char) -> bool {
    '0' <= ch <= '9'
}

/// Value of a sequence of decimal digits.
pub open spec fn digits_value(ds: Seq<char>) -> nat
    decreases ds.len(),
{
    if ds.len() == 0 {
        0
    } else {
        digits_value(ds.drop_last()) * 10 + (ds.last() as nat - '0' as nat) as nat
    }
}

/// The digits part of a number: an optional leading `+` is dropped.
pub open spec fn unsigned_digits(cs: Seq<char>) -> Seq<char> {
    if cs.len() > 0 && cs[0] == '+' {
        cs.drop_first()
    } else {
        cs
    }
}

/// What `str::parse::<u64>` gives: an optional `+` then one or more ASCII digits
/// whose value fits in 64 bits.
pub open spec fn parse_u64_spec(cs: Seq<char>) -> Option<u64> {
    let ds = unsigned_digits(cs);
    if ds.len() > 0 && (forall|i: int| 0 <= i < ds.len() ==> is_digit(#[trigger] ds[i]))
        && digits_value(ds) <= u64::MAX {
        Some(digits_value(ds) as u64)
    } else {
        None
    }
}

proof fn lemma_digits_value_prefix_grows(ds: Seq<char>, k: int)
    requires
        0 <= k <= ds.len(),
        forall|i: int| 0 <= i < ds.len() ==> is_digit(#[trigger] ds[i]),
    ensures
        digits_value(ds.take(k)) <= digits_value(ds),
    decreases ds.len() - k,
{
    if k < ds.len() {
        lemma_digits_value_prefix_grows(ds, k + 1);
        assert(ds.take(k + 1).drop_last() =~= ds.take(k));
        assert(ds.take(k + 1).last() == ds[k]);
    } else {
        assert(ds.take(k) =~= ds);
    }
}

/// Parses `cs[lo..hi]` as `str::parse::<u64>` does.
pub fn parse_u64_at(cs: &Vec<char>, lo: usize, hi: usize) -> (r: Option<u64>)
    requires
        lo <= hi <= cs@.len(),
    ensures
        r == parse_u64_spec(cs@.subrange(lo as int, hi as int)),
{
    let ghost whole = cs@.subrange(lo as int, hi as int);
    let mut i = lo;
    if i < hi && cs[i] == '+' {
        i = i + 1;
    }
    let ghost ds = unsigned_digits(whole);
    assert(ds =~= cs@.subrange(i as int, hi as int));
    if i == hi {
        return None;
    }
    let start = i;
    let mut acc: u64 = 0;
    assert(ds.take(0) =~= Seq::<char>::empty());
    while i < hi
        invariant
            lo <= start <= i <= hi <= cs@.len(),
            start < hi,
            ds == cs@.subrange(start as int, hi as int),
            ds == unsigned_digits(whole),
            whole == cs@.subrange(lo as int, hi as int),
            forall|j: int| 0 <= j < i - start ==> is_digit(#[trigger] ds[j]),
            acc == digits_value(ds.take(i - start)),
        decreases hi - i,
    {
        let c = cs[i];
        if !('0' <= c && c <= '9') {
            assert(!is_digit(ds[i - start]));
            return None;
        }
        let d = (c as u32 - '0' as u32) as u64;
        let ghost k = i - start;
        assert(ds.take(k + 1).drop_last() =~= ds.take(k));
        assert(ds.take(k + 1).last() == c);
        match acc.checked_mul(10) {
            Some(m) => match m.checked_add(d) {
                Some(v) => {
                    acc = v;
                },
                None => {
                    proof {
                        assert(digits_value(ds.take(k + 1)) > u64::MAX);
                        if forall|j: int| 0 <= j < ds.len() ==> is_digit(#[trigger] ds[j]) {
                            lemma_digits_value_prefix_grows(ds, k + 1);
                        }
                    }
                    return None;
                },
            },
            None => {
                proof {
                    assert(digits_value(ds.take(k + 1)) > u64::MAX) by (nonlinear_arith)
                        requires
                            digits_value(ds.take(k + 1)) == acc * 10 + d,
                            acc * 10 > u64::MAX,
                    ;
                    if forall|j: int| 0 <= j < ds.len() ==> is_digit(#[trigger] ds[j]) {
                        lemma_digits_value_prefix_grows(ds, k + 1);
                    }
                }
                return None;
            },
        }
        i = i + 1;
    }
    assert(ds.take(ds.len() as int) =~= ds);
    Some(acc)
}

/// The character of a decimal digit value (0 to 9).
pub open spec fn digit_char(d: nat) -> char {
    if d == 0 {
        '0'
    } else if d == 1 {
        '1'
    } else if d == 2 {
        '2'
    } else if d == 3 {
        '3'
    } else if d == 4 {
        '4'
    } else if d == 5 {
        '5'
    } else if d == 6 {
        '6'
    } else if d == 7 {
        '7'
    } else if d == 8 {
        '8'
    } else {
        '9'
    }
}

proof fn lemma_digit_char(d: nat)
    requires
        d < 10,
    ensures
        is_digit(digit_char(d)),
        digit_char(d) as nat - '0' as nat == d,
{
}

/// The decimal form of `n`, as `format!("{n}")` writes it: no sign, no leading zeros.
pub open spec fn decimal(n: nat) -> Seq<char>
    decreases n,
{
    if n < 10 {
        seq![digit_char(n)]
    } else {
        decimal(n / 10).push(digit_char(n % 10))
    }
}

/// The decimal form of a number is a non-empty run of digits that reads back as
/// the number.
pub proof fn lemma_decimal(n: nat)
    ensures
        decimal(n).len() > 0,
        forall|i: int| 0 <= i < decimal(n).len() ==> is_digit(#[trigger] decimal(n)[i]),
        digits_value(decimal(n)) == n,
    decreases n,
{
    if n >= 10 {
        let q = n / 10;
        let r = n % 10;
        lemma_decimal(q);
        let d = decimal(n);
        assert(d == decimal(q).push(digit_char(r)));
        lemma_digit_char(r);
        assert forall|i: int| 0 <= i < d.len() implies is_digit(#[trigger] d[i]) by {
            if i < decimal(q).len() {
                assert(d[i] == decimal(q)[i]);
            }
        }
        lemma_digit_char(r);
        assert(d.drop_last() =~= decimal(q));
        assert(d.last() == digit_char(r));
        assert(digits_value(d) == digits_value(decimal(q)) * 10 + r);
        assert(n == q * 10 + r);
    } else {
        lemma_digit_char(n);
        assert(seq![digit_char(n)].drop_last() =~= Seq::<char>::empty());
        assert(digits_value(Seq::<char>::empty()) == 0);
    }
}

/// `str::parse::<u64>` reads the decimal form of a 64-bit number back as that number.
pub proof fn lemma_parse_decimal(n: u64)
    ensures
        parse_u64_spec(decimal(n as nat)) == Some(n),
{
    lemma_decimal(n as nat);
    let d = decimal(n as nat);
    assert(is_digit(d[0]));
    assert(unsigned_digits(d) == d);
}

/// Splitting text with no separator in its first part peels that part off.
pub proof fn lemma_split_first(a: Seq<char>, rest: Seq<char>, sep: char)
    requires
        forall|i: int| 0 <= i < a.len() ==> a[i] != sep,
    ensures
        split_on(a + seq![sep] + rest, sep) == seq![a] + split_on(rest, sep),
{
    let cs = a + seq![sep] + rest;
    assert forall|j: int| 0 <= j < a.len() implies cs[j] != sep by {
        assert(cs[j] == a[j]);
    }
    lemma_first_index_of(cs, sep, a.len() as int);
    assert(cs.take(a.len() as int) =~= a);
    assert(cs.skip(a.len() as int + 1) =~= rest);
}

/// Text with no separator is one piece.
pub proof fn lemma_split_none(a: Seq<char>, sep: char)
    requires
        forall|i: int| 0 <= i < a.len() ==> a[i] != sep,
    ensures
        split_on(a, sep) == seq![a],
{
    lemma_first_index_of(a, sep, a.len() as int);
}

} // verus!
