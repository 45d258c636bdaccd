//! New-release check (GitHub Releases, once after start-up).
//!
//! `github.com/<owner>/<repo>/releases/latest` answers with a redirect to
//! `…/releases/tag/<tag>`; the application sends one HEAD request without following
//! redirects and reads the tag from the `Location` header. The decisions (what the
//! tag is, whether it is newer, what gets recorded) are made here.
use vstd::prelude::*;
use vstd::string::StrSliceExecFns;
use crate::text::{
    chars_of, decimal, first_index_of, is_digit, lemma_decimal, lemma_first_index_of,
    lemma_parse_decimal, lemma_split_first, lemma_split_none, parse_u64_at, parse_u64_spec, split_on,
};
use crate::wide::{string_from_utf16_lossy, utf16_decode_lossy};

verus! {

broadcast use vstd::string::group_string_axioms;

/// Version of this program.
pub const VERSION: &'static str = "0.1.0";

/// Release page opened in the browser.
pub const LATEST_RELEASE_URL: &'static str = "https://github.com/chohyojae/capslock_hangul/releases/latest";

/// Host of the HEAD request (the host part of [`LATEST_RELEASE_URL`]).
pub const HOST: &'static str = "github.com";

/// Path of the HEAD request (the path part of [`LATEST_RELEASE_URL`]).
pub const PATH: &'static str = "/chohyojae/capslock_hangul/releases/latest";

/// Network time-out (ms) for resolve, connect, send and receive.
pub const TIMEOUT_MS: i32 = 10_000;

/// The marker before the tag in a release page URL.
pub const TAG_MARKER: &'static str = "/releases/tag/";

/// `pat` occurs in `cs` starting at index `p`.
pub open spec fn occurs_at(cs: Seq<char>, pat: Seq<char>, p: int) -> bool {
    0 <= p && p + pat.len() <= cs.len() && cs.subrange(p, p + pat.len()) == pat
}

/// The largest start index `<= p` at which `pat` occurs in `cs`, or -1.
pub open spec fn last_occurrence(cs: Seq<char>, pat: Seq<char>, p: int) -> int
    decreases p + 1,
{
    if p < 0 {
        -1
    } else if occurs_at(cs, pat, p) {
        p
    } else {
        last_occurrence(cs, pat, p - 1)
    }
}

/// The tag in a `Location` value: what follows the last `/releases/tag/`, if that
/// is not empty.
pub open spec fn tag_of_location(cs: Seq<char>) -> Option<Seq<char>> {
    let pat = TAG_MARKER@;
    let p = last_occurrence(cs, pat, cs.len() - pat.len());
    if p < 0 || cs.len() <= p + pat.len() {
        None
    } else {
        Some(cs.skip(p + pat.len()))
    }
}

/// `last_occurrence` finds the rightmost occurrence at or before `p`.
pub proof fn lemma_last_occurrence(cs: Seq<char>, pat: Seq<char>, p: int)
    ensures
        ({
            let r = last_occurrence(cs, pat, p);
            &&& r == -1 || 0 <= r <= p
            &&& r >= 0 ==> occurs_at(cs, pat, r)
            &&& forall|q: int| r < q <= p ==> !occurs_at(cs, pat, q)
        }),
    decreases p + 1,
{
    if p >= 0 && !occurs_at(cs, pat, p) {
        lemma_last_occurrence(cs, pat, p - 1);
    }
}

fn matches_at(cs: &Vec<char>, pat: &Vec<char>, p: usize) -> (b: bool)
    requires
        p + pat@.len() <= cs@.len(),
    ensures
        b == occurs_at(cs@, pat@, p as int),
{
    let n = cs.len();
    let mut j: usize = 0;
    while j < pat.len()
        invariant
            p + pat@.len() <= cs@.len(),
            n == cs@.len(),
            j <= pat@.len(),
            forall|k: int| 0 <= k < j ==> cs@[p + k] == pat@[k],
        decreases pat@.len() - j,
    {
        if cs[p + j] != pat[j] {
            assert(cs@.subrange(p as int, p + pat@.len())[j as int] != pat@[j as int]);
            return false;
        }
        j = j + 1;
    }
    assert(cs@.subrange(p as int, p + pat@.len()) =~= pat@);
    true
}

/// The release tag in a `Location` header value (`…/releases/tag/<tag>`): the text
/// after the last `/releases/tag/`. `None` when the marker is missing (a repository
/// without releases redirects to `…/releases`) or nothing follows it.
pub fn tag_from_location(location: &str) -> (tag: Option<String>)
    ensures
        match tag {
            Some(t) => tag_of_location(location@) == Some(t@),
            None => tag_of_location(location@) is None,
        },
{
    let cs = chars_of(location);
    let pat = chars_of(TAG_MARKER);
    let n = cs.len();
    let m = pat.len();
    if n < m {
        proof {
            assert(last_occurrence(cs@, pat@, n - m) == -1);
        }
        return None;
    }
    let mut p: usize = n - m;
    loop
        invariant
            p + m <= n,
            n == cs@.len(),
            m == pat@.len(),
            cs@ == location@,
            pat@ == TAG_MARKER@,
            last_occurrence(cs@, pat@, n - m) == last_occurrence(cs@, pat@, p as int),
        ensures
            p + m <= n,
            occurs_at(cs@, pat@, p as int),
            last_occurrence(cs@, pat@, n - m) == last_occurrence(cs@, pat@, p as int),
        decreases p,
    {
        if matches_at(&cs, &pat, p) {
            break;
        }
        if p == 0 {
            assert(last_occurrence(cs@, pat@, -1) == -1);
            return None;
        }
        p = p - 1;
    }
    assert(last_occurrence(cs@, pat@, p as int) == p);
    if p + m == n {
        return None;
    }
    let rest = location.substring_char(p + m, n);
    assert(rest@ =~= cs@.skip(p + m));
    let t = rest.to_owned();
    assert(tag_of_location(location@) == Some(t@));
    Some(t)
}

/// The tag in a `Location` header received as UTF-16: the first `len_bytes` bytes
/// of `buf` hold the header value (ill-formed UTF-16 decodes to U+FFFD).
pub fn tag_from_header(buf: &[u16], len_bytes: u32) -> (tag: Option<String>)
    requires
        len_bytes / 2 <= buf@.len(),
    ensures
        ({
            let text = utf16_decode_lossy(buf@.take((len_bytes / 2) as int));
            match tag {
                Some(t) => tag_of_location(text) == Some(t@),
                None => tag_of_location(text) is None,
            }
        }),
{
    let n = (len_bytes / 2) as usize;
    let head = vstd::slice::slice_subrange(buf, 0, n);
    let location = string_from_utf16_lossy(head);
    tag_from_location(location.as_str())
}

/// A tag found in a `Location` value is exactly the non-empty text after an
/// occurrence of `/releases/tag/`, and no occurrence starts later.
pub proof fn lemma_tag_follows_last_marker(cs: Seq<char>)
    requires
        tag_of_location(cs) is Some,
    ensures
        ({
            let t = tag_of_location(cs)->0;
            let m = TAG_MARKER@.len();
            exists|p: int|
                #![trigger occurs_at(cs, TAG_MARKER@, p)]
                0 <= p && occurs_at(cs, TAG_MARKER@, p) && cs == cs.take(p) + TAG_MARKER@ + t
                    && t.len() > 0 && forall|q: int| p < q ==> !occurs_at(cs, TAG_MARKER@, q)
        }),
{
    let pat = TAG_MARKER@;
    let m = pat.len();
    let p = last_occurrence(cs, pat, cs.len() - m);
    lemma_last_occurrence(cs, pat, cs.len() - m);
    let t = tag_of_location(cs)->0;
    assert(cs =~= cs.take(p) + pat + t);
    assert forall|q: int| p < q implies !occurs_at(cs, pat, q) by {
        if q > cs.len() - m {
            assert(!occurs_at(cs, pat, q));
        }
    }
}

/// The version text without one leading `v` or `V`.
pub open spec fn strip_v(cs: Seq<char>) -> Seq<char> {
    if cs.len() > 0 && (cs[0] == 'v' || cs[0] == 'V') {
        cs.drop_first()
    } else {
        cs
    }
}

/// `v?major.minor.patch` as three numbers: exactly three `.`-separated parts, each a
/// number as `str::parse::<u64>` reads it.
pub open spec fn semver_of(cs: Seq<char>) -> Option<(u64, u64, u64)> {
    let parts = split_on(strip_v(cs), '.');
    if parts.len() == 3 && parse_u64_spec(parts[0]) is Some && parse_u64_spec(parts[1]) is Some
        && parse_u64_spec(parts[2]) is Some {
        Some(
            (
                parse_u64_spec(parts[0])->0,
                parse_u64_spec(parts[1])->0,
                parse_u64_spec(parts[2])->0,
            ),
        )
    } else {
        None
    }
}

/// Parses `v?major.minor.patch`. Any other form gives `None` (no notice is shown).
pub fn parse_semver(s: &str) -> (r: Option<(u64, u64, u64)>)
    ensures
        r == semver_of(s@),
{
    let cs = chars_of(s);
    let n = cs.len();
    let start: usize = if n > 0 && (cs[0] == 'v' || cs[0] == 'V') {
        1
    } else {
        0
    };
    let ghost t = cs@.subrange(start as int, n as int);
    assert(t =~= strip_v(s@));
    let mut fields: Vec<u64> = Vec::new();
    let ghost mut done: Seq<Seq<char>> = Seq::empty();
    let mut seg = start;
    let mut i = start;
    assert(cs@.subrange(seg as int, n as int) =~= t);
    while i < n
        invariant
            start <= seg <= i <= n,
            n == cs@.len(),
            cs@ == s@,
            t == cs@.subrange(start as int, n as int),
            t == strip_v(s@),
            split_on(t, '.') == done + split_on(cs@.subrange(seg as int, n as int), '.'),
            forall|j: int| seg <= j < i ==> cs@[j] != '.',
            fields@.len() == done.len(),
            done.len() <= 3,
            forall|k: int|
                0 <= k < done.len() ==> parse_u64_spec(#[trigger] done[k]) == Some(fields@[k]),
        decreases n - i,
    {
        if cs[i] == '.' {
            let ghost rest = cs@.subrange(seg as int, n as int);
            proof {
                assert forall|j: int| 0 <= j < i - seg implies rest[j] != '.' by {
                    assert(rest[j] == cs@[seg + j]);
                }
                lemma_first_index_of(rest, '.', i - seg);
                assert(rest.take(i - seg) =~= cs@.subrange(seg as int, i as int));
                assert(rest.skip(i - seg + 1) =~= cs@.subrange(i + 1, n as int));
            }
            if fields.len() == 3 {
                assert(split_on(t, '.').len() > 3);
                return None;
            }
            match parse_u64_at(&cs, seg, i) {
                Some(v) => {
                    fields.push(v);
                    proof {
                        let piece = cs@.subrange(seg as int, i as int);
                        assert(done.push(piece) + split_on(cs@.subrange(i + 1, n as int), '.')
                            =~= done + split_on(rest, '.'));
                        done = done.push(piece);
                    }
                },
                None => {
                    proof {
                        let parts = split_on(t, '.');
                        assert(parts[done.len() as int] == cs@.subrange(seg as int, i as int));
                    }
                    return None;
                },
            }
            seg = i + 1;
        }
        i = i + 1;
    }
    let ghost rest = cs@.subrange(seg as int, n as int);
    proof {
        assert forall|j: int| 0 <= j < rest.len() implies rest[j] != '.' by {
            assert(rest[j] == cs@[seg + j]);
        }
        lemma_first_index_of(rest, '.', rest.len() as int);
        assert(split_on(rest, '.') == seq![rest]);
    }
    if fields.len() != 2 {
        return None;
    }
    match parse_u64_at(&cs, seg, n) {
        Some(v) => Some((fields[0], fields[1], v)),
        None => None,
    }
}

/// `r` is a later version than `l` (numeric comparison, major first).
pub open spec fn later_version(r: (u64, u64, u64), l: (u64, u64, u64)) -> bool {
    r.0 > l.0 || (r.0 == l.0 && (r.1 > l.1 || (r.1 == l.1 && r.2 > l.2)))
}

/// The remote tag names a later version than the local version.
pub open spec fn newer_spec(remote: Seq<char>, local: Seq<char>) -> bool {
    match (semver_of(remote), semver_of(local)) {
        (Some(r), Some(l)) => later_version(r, l),
        _ => false,
    }
}

/// Whether the remote tag is a later version than the local one. False when
/// either does not parse.
pub fn is_newer(remote_tag: &str, local: &str) -> (b: bool)
    ensures
        b == newer_spec(remote_tag@, local@),
{
    match (parse_semver(remote_tag), parse_semver(local)) {
        (Some(r), Some(l)) => r.0 > l.0 || (r.0 == l.0 && (r.1 > l.1 || (r.1 == l.1 && r.2
            > l.2))),
        _ => false,
    }
}

/// No version is newer than itself, and of two versions at most one is newer.
pub proof fn lemma_newer_is_strict(a: Seq<char>, b: Seq<char>)
    ensures
        !newer_spec(a, a),
        !(newer_spec(a, b) && newer_spec(b, a)),
{
}

/// Newer is transitive.
pub proof fn lemma_newer_transitive(a: Seq<char>, b: Seq<char>, c: Seq<char>)
    requires
        newer_spec(a, b),
        newer_spec(b, c),
    ensures
        newer_spec(a, c),
{
}

/// One leading `v` or `V` does not change the parsed version.
pub proof fn lemma_v_prefix_ignored(cs: Seq<char>, v: char)
    requires
        v == 'v' || v == 'V',
        cs.len() == 0 || (cs[0] != 'v' && cs[0] != 'V'),
    ensures
        semver_of(seq![v] + cs) == semver_of(cs),
{
    assert((seq![v] + cs).drop_first() =~= cs);
}

/// The text `a.b.c` with each number in decimal, as `format!("{a}.{b}.{c}")` writes it.
pub open spec fn version_text(a: u64, b: u64, c: u64) -> Seq<char> {
    decimal(a as nat) + seq!['.'] + decimal(b as nat) + seq!['.'] + decimal(c as nat)
}

proof fn lemma_decimal_no_dot(n: u64)
    ensures
        forall|i: int| 0 <= i < decimal(n as nat).len() ==> #[trigger] decimal(n as nat)[i] != '.',
{
    lemma_decimal(n as nat);
    assert forall|i: int| 0 <= i < decimal(n as nat).len() implies #[trigger] decimal(n as nat)[i]
        != '.' by {
        assert(is_digit(decimal(n as nat)[i]));
    }
}

/// Any three 64-bit numbers written as `a.b.c`, with or without one leading `v`
/// or `V`, parse back as those numbers.
pub proof fn lemma_version_round_trip(a: u64, b: u64, c: u64, v: char)
    requires
        v == 'v' || v == 'V',
    ensures
        semver_of(version_text(a, b, c)) == Some((a, b, c)),
        semver_of(seq![v] + version_text(a, b, c)) == Some((a, b, c)),
{
    let (da, db, dc) = (decimal(a as nat), decimal(b as nat), decimal(c as nat));
    let t = version_text(a, b, c);
    lemma_decimal_no_dot(a);
    lemma_decimal_no_dot(b);
    lemma_decimal_no_dot(c);
    lemma_decimal(a as nat);
    lemma_parse_decimal(a);
    lemma_parse_decimal(b);
    lemma_parse_decimal(c);
    assert(t[0] == da[0]);
    assert(is_digit(da[0]));
    assert(strip_v(t) == t);
    assert(t =~= da + seq!['.'] + (db + seq!['.'] + dc));
    lemma_split_first(da, db + seq!['.'] + dc, '.');
    lemma_split_first(db, dc, '.');
    lemma_split_none(dc, '.');
    assert(split_on(t, '.') =~= seq![da, db, dc]);
    lemma_v_prefix_ignored(t, v);
}

/// Result of the release check kept for the user interface: the tag of a release
/// newer than [`VERSION`], once one was found.
pub struct UpdateState {
    latest_tag: Option<String>,
}

impl View for UpdateState {
    type V = Option<Seq<char>>;

    closed spec fn view(&self) -> Option<Seq<char>> {
        match self.latest_tag {
            Some(t) => Some(t@),
            None => None,
        }
    }
}

impl UpdateState {
    /// A kept tag always names a later version than this program's.
    #[verifier::type_invariant]
    closed spec fn well_formed(self) -> bool {
        match self.latest_tag {
            Some(t) => newer_spec(t@, VERSION@),
            None => true,
        }
    }

    /// No new version found yet.
    pub fn new() -> (u: UpdateState)
        ensures
            u@ is None,
    {
        UpdateState { latest_tag: None }
    }
}

/// The newer version's tag (such as "v0.1.5") if one was found. A tag returned
/// here always names a later version than [`VERSION`].
pub fn available_version(state: &UpdateState) -> (v: Option<&str>)
    ensures
        match v {
            Some(t) => state@ == Some(t@) && newer_spec(t@, VERSION@),
            None => state@ is None,
        },
{
    proof {
        use_type_invariant(state);
    }
    match &state.latest_tag {
        Some(t) => Some(t.as_str()),
        None => None,
    }
}

/// What one finished check makes of the kept tag: a fetched tag is kept when it
/// names a later version than [`VERSION`] and no tag was kept before.
pub open spec fn record_step(kept: Option<Seq<char>>, fetched: Option<Seq<char>>) -> Option<
    Seq<char>,
> {
    match (kept, fetched) {
        (None, Some(t)) => if newer_spec(t, VERSION@) {
            Some(t)
        } else {
            None
        },
        _ => kept,
    }
}

/// Records the outcome of one check (`fetched`: the tag read, if any): the tag is
/// kept when it names a later version than [`VERSION`] and no tag was kept before
/// (a tag, once kept, stays). Returns whether a tag was kept by this call.
pub fn record_check(state: &mut UpdateState, fetched: Option<String>) -> (found: bool)
    ensures
        found == (old(state)@ is None && fetched is Some && newer_spec(fetched->0@, VERSION@)),
        final(state)@ == record_step(
            old(state)@,
            match fetched {
                Some(t) => Some(t@),
                None => None,
            },
        ),
{
    proof {
        use_type_invariant(&*state);
    }
    match fetched {
        Some(tag) => {
            if state.latest_tag.is_none() && is_newer(tag.as_str(), VERSION) {
                state.latest_tag = Some(tag);
                true
            } else {
                false
            }
        },
        None => false,
    }
}

/// The kept tag after a series of finished checks, in the order they finished.
pub open spec fn record_run(kept: Option<Seq<char>>, fetched: Seq<Option<Seq<char>>>) -> Option<
    Seq<char>,
>
    decreases fetched.len(),
{
    if fetched.len() == 0 {
        kept
    } else {
        record_run(record_step(kept, fetched[0]), fetched.drop_first())
    }
}

/// Whatever checks finish, and in whatever order, a reported tag is always a
/// later version than this program's.
pub proof fn lemma_kept_tag_is_newer(kept: Option<Seq<char>>, fetched: Seq<Option<Seq<char>>>)
    requires
        kept matches Some(t) ==> newer_spec(t, VERSION@),
    ensures
        record_run(kept, fetched) matches Some(t) ==> newer_spec(t, VERSION@),
    decreases fetched.len(),
{
    if fetched.len() > 0 {
        lemma_kept_tag_is_newer(record_step(kept, fetched[0]), fetched.drop_first());
    }
}

/// Once a tag is kept, further checks never change it or take it away.
pub proof fn lemma_kept_tag_stays(kept: Option<Seq<char>>, fetched: Seq<Option<Seq<char>>>)
    requires
        kept is Some,
    ensures
        record_run(kept, fetched) == kept,
    decreases fetched.len(),
{
    if fetched.len() > 0 {
        lemma_kept_tag_stays(record_step(kept, fetched[0]), fetched.drop_first());
    }
}

/// The tag reported after the first `k` checks of a series, if any, is the one
/// reported after the whole series.
pub proof fn lemma_report_prefix_stable(
    kept: Option<Seq<char>>,
    fetched: Seq<Option<Seq<char>>>,
    k: int,
)
    requires
        0 <= k <= fetched.len(),
        record_run(kept, fetched.take(k)) is Some,
    ensures
        record_run(kept, fetched) == record_run(kept, fetched.take(k)),
    decreases k,
{
    if k > 0 {
        let rest = fetched.drop_first();
        assert(fetched.take(k).drop_first() =~= rest.take(k - 1));
        assert(fetched.take(k)[0] == fetched[0]);
        lemma_report_prefix_stable(record_step(kept, fetched[0]), rest, k - 1);
    } else {
        assert(fetched.take(0).len() == 0);
        lemma_kept_tag_stays(kept, fetched);
    }
}

proof fn lemma_last_occurrence_is(cs: Seq<char>, pat: Seq<char>, p: int, q: int)
    requires
        0 <= p <= q,
        occurs_at(cs, pat, p),
        forall|r: int| p < r ==> !occurs_at(cs, pat, r),
    ensures
        last_occurrence(cs, pat, q) == p,
    decreases q - p,
{
    if q > p {
        lemma_last_occurrence_is(cs, pat, p, q - 1);
    }
}

/// Whatever comes before it, a `/releases/tag/` followed by non-empty text in
/// which no further `/releases/tag/` starts gives exactly that text as the tag,
/// whatever its length or content.
pub proof fn lemma_tag_after_marker(pre: Seq<char>, t: Seq<char>)
    requires
        t.len() > 0,
        forall|q: int|
            pre.len() < q ==> !#[trigger] occurs_at(pre + TAG_MARKER@ + t, TAG_MARKER@, q),
    ensures
        tag_of_location(pre + TAG_MARKER@ + t) == Some(t),
{
    let pat = TAG_MARKER@;
    let cs = pre + pat + t;
    let p = pre.len() as int;
    assert(cs.subrange(p, p + pat.len()) =~= pat);
    lemma_last_occurrence_is(cs, pat, p, cs.len() - pat.len());
    assert(cs.skip(p + pat.len()) =~= t);
}

/// Versions compare by major number, then minor, then patch, each as a number:
/// `a1.b1.c1` is newer than `a2.b2.c2` exactly when `(a1, b1, c1)` comes after
/// `(a2, b2, c2)` in that order. So a larger minor number is newer whatever its
/// digits (`0.10.0` after `0.9.0`).
pub proof fn lemma_newer_is_numeric_order(a1: u64, b1: u64, c1: u64, a2: u64, b2: u64, c2: u64)
    ensures
        newer_spec(version_text(a1, b1, c1), version_text(a2, b2, c2)) <==> (a1 > a2 || (a1 == a2
            && b1 > b2) || (a1 == a2 && b1 == b2 && c1 > c2)),
{
    lemma_version_round_trip(a1, b1, c1, 'v');
    lemma_version_round_trip(a2, b2, c2, 'v');
}

/// With no tag kept yet, a finished check keeps the fetched tag exactly when it
/// names a later version than this program's; a failed check keeps nothing.
pub proof fn lemma_first_newer_tag_kept(t: Seq<char>)
    ensures
        newer_spec(t, VERSION@) ==> record_step(None, Some(t)) == Some(t),
        !newer_spec(t, VERSION@) ==> record_step(None, Some(t)) is None,
        record_step(None, None) is None,
{
}

/// A `Location` without `/releases/tag/` (such as the release list of a
/// repository without releases) has no tag.
pub proof fn lemma_no_marker_no_tag(cs: Seq<char>)
    requires
        forall|q: int| !#[trigger] occurs_at(cs, TAG_MARKER@, q),
    ensures
        tag_of_location(cs) is None,
{
    lemma_last_occurrence(cs, TAG_MARKER@, cs.len() - TAG_MARKER@.len());
}

} // verus!
