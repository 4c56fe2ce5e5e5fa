//! Character and string groundwork: Unicode lowercasing (named, supplied by
//! std), Unicode whitespace, trimming, and ASCII case-insensitive equality.

use vstd::prelude::*;
use vstd::string::*;

verus! {

/// The character sequence an optional string stands for: the string's
/// characters, or empty when it is absent.
pub open spec fn raw_view(raw: Option<&str>) -> Seq<char> {
    match raw {
        Some(s) => s@,
        None => Seq::empty(),
    }
}

/// What `str::to_lowercase` returns for a given character sequence.  The full
/// Unicode lowercasing table is not written out here; the name pins down only
/// that the result is a function of the input characters alone.
pub uninterp spec fn lower_of(s: Seq<char>) -> Seq<char>;

/// Whether `char::is_whitespace` holds of a character: the Unicode
/// `White_Space` property, named rather than written out.
pub uninterp spec fn whitespace_char(c: char) -> bool;

/// Relies on str::to_lowercase: the result depends on the input characters
/// alone.
#[verifier::external_body]
pub fn lowercase(s: &str) -> (r: String)
    ensures
        r@ == lower_of(s@),
{
    s.to_lowercase()
}

/// Relies on char::is_whitespace: true exactly for characters with the
/// Unicode `White_Space` property, a function of the character alone.
pub assume_specification[ char::is_whitespace ](c: char) -> (r: bool)
    ensures
        r == whitespace_char(c),
;

/// `s` with its leading whitespace removed.
pub open spec fn trim_front(s: Seq<char>) -> Seq<char>
    decreases s.len(),
{
    if s.len() > 0 && whitespace_char(s[0]) {
        trim_front(s.drop_first())
    } else {
        s
    }
}

/// `s` with its trailing whitespace removed.
pub open spec fn trim_back(s: Seq<char>) -> Seq<char>
    decreases s.len(),
{
    if s.len() > 0 && whitespace_char(s.last()) {
        trim_back(s.drop_last())
    } else {
        s
    }
}

/// `s` with leading and trailing whitespace removed, as `str::trim` does.
pub open spec fn trim(s: Seq<char>) -> Seq<char> {
    trim_back(trim_front(s))
}

proof fn lemma_trim_front_shape(s: Seq<char>)
    ensures
        trim_front(s).len() > 0 ==> !whitespace_char(trim_front(s)[0]),
        exists|k: int|
            0 <= k <= s.len() && trim_front(s) =~= s.subrange(k, s.len() as int)
                && (forall|j: int| 0 <= j < k ==> whitespace_char(s[j])),
    decreases s.len(),
{
    if s.len() > 0 && whitespace_char(s[0]) {
        lemma_trim_front_shape(s.drop_first());
        let k0 = choose|k: int|
            0 <= k <= s.drop_first().len() && trim_front(s.drop_first()) =~= s.drop_first()
                .subrange(k, s.drop_first().len() as int) && (forall|j: int|
                0 <= j < k ==> whitespace_char(s.drop_first()[j]));
        assert(s.drop_first().subrange(k0, s.drop_first().len() as int) =~= s.subrange(
            k0 + 1,
            s.len() as int,
        ));
        assert forall|j: int| 0 <= j < k0 + 1 implies whitespace_char(s[j]) by {
            if j > 0 {
                assert(s[j] == s.drop_first()[j - 1]);
            }
        }
        assert(trim_front(s) =~= s.subrange(k0 + 1, s.len() as int));
    } else {
        assert(trim_front(s) =~= s.subrange(0, s.len() as int));
    }
}

proof fn lemma_trim_back_shape(s: Seq<char>)
    ensures
        trim_back(s).len() > 0 ==> !whitespace_char(trim_back(s).last()),
        exists|k: int|
            0 <= k <= s.len() && trim_back(s) =~= s.subrange(0, k) && (forall|j: int|
                k <= j < s.len() ==> whitespace_char(s[j])),
    decreases s.len(),
{
    if s.len() > 0 && whitespace_char(s.last()) {
        lemma_trim_back_shape(s.drop_last());
        let k0 = choose|k: int|
            0 <= k <= s.drop_last().len() && trim_back(s.drop_last()) =~= s.drop_last().subrange(
                0,
                k,
            ) && (forall|j: int| k <= j < s.drop_last().len() ==> whitespace_char(s.drop_last()[j]));
        assert(s.drop_last().subrange(0, k0) =~= s.subrange(0, k0));
        assert forall|j: int| k0 <= j < s.len() implies whitespace_char(s[j]) by {
            if j < s.len() - 1 {
                assert(s[j] == s.drop_last()[j]);
            }
        }
        assert(trim_back(s) =~= s.subrange(0, k0));
    } else {
        assert(trim_back(s) =~= s.subrange(0, s.len() as int));
    }
}

/// The slice of `s` between character positions `lo` and `hi`, with leading
/// and trailing whitespace removed, as `str::trim` would leave it.
pub fn trim_substring<'a>(s: &'a str, lo: usize, hi: usize) -> (t: &'a str)
    requires
        lo <= hi <= s@.len(),
    ensures
        t@ == trim(s@.subrange(lo as int, hi as int)),
{
    let mut a = lo;
    while a < hi && s.get_char(a).is_whitespace()
        invariant
            lo <= a <= hi <= s@.len(),
            trim_front(s@.subrange(lo as int, hi as int)) == trim_front(
                s@.subrange(a as int, hi as int),
            ),
        decreases hi - a,
    {
        proof {
            let seg = s@.subrange(a as int, hi as int);
            assert(seg[0] == s@[a as int]);
            assert(seg.drop_first() =~= s@.subrange(a as int + 1, hi as int));
        }
        a = a + 1;
    }
    proof {
        let seg = s@.subrange(a as int, hi as int);
        if a < hi {
            assert(seg[0] == s@[a as int]);
        }
        assert(trim_front(seg) == seg);
    }
    let mut b = hi;
    while b > a && s.get_char(b - 1).is_whitespace()
        invariant
            lo <= a <= b <= hi <= s@.len(),
            trim_front(s@.subrange(lo as int, hi as int)) == s@.subrange(a as int, hi as int),
            trim_back(s@.subrange(a as int, hi as int)) == trim_back(
                s@.subrange(a as int, b as int),
            ),
        decreases b - a,
    {
        proof {
            let seg = s@.subrange(a as int, b as int);
            assert(seg.last() == s@[b as int - 1]);
            assert(seg.drop_last() =~= s@.subrange(a as int, b as int - 1));
        }
        b = b - 1;
    }
    proof {
        let seg = s@.subrange(a as int, b as int);
        if b > a {
            assert(seg.last() == s@[b as int - 1]);
        }
        assert(trim_back(seg) == seg);
    }
    s.substring_char(a, b)
}

/// Character-level ASCII case-insensitive equality, as
/// `str::eq_ignore_ascii_case` compares: equal outright, or equal up to the
/// ASCII upper/lower distinction.
pub open spec fn ascii_eq_char(a: char, b: char) -> bool {
    a == b || (65 <= a as u32 <= 90 && b as u32 == a as u32 + 32) || (65 <= b as u32 <= 90 && a
        as u32 == b as u32 + 32)
}

/// ASCII case-insensitive equality of two character sequences.
pub open spec fn ascii_eq(a: Seq<char>, b: Seq<char>) -> bool {
    a.len() == b.len() && forall|i: int| 0 <= i < a.len() ==> ascii_eq_char(a[i], b[i])
}

fn chars_ascii_eq(x: char, y: char) -> (r: bool)
    ensures
        r == ascii_eq_char(x, y),
{
    if x == y {
        true
    } else {
        let xu = x as u32;
        let yu = y as u32;
        (65 <= xu && xu <= 90 && yu == xu + 32) || (65 <= yu && yu <= 90 && xu == yu + 32)
    }
}

/// Exact string equality, decided character by character.
pub fn str_eq(a: &str, b: &str) -> (r: bool)
    ensures
        r == (a@ == b@),
{
    let an = a.unicode_len();
    let bn = b.unicode_len();
    if an != bn {
        return false;
    }
    let mut i: usize = 0;
    while i < an
        invariant
            0 <= i <= an == a@.len() == b@.len(),
            forall|j: int| 0 <= j < i ==> a@[j] == b@[j],
        decreases an - i,
    {
        if a.get_char(i) != b.get_char(i) {
            return false;
        }
        i = i + 1;
    }
    proof {
        assert(a@ =~= b@);
    }
    true
}

/// ASCII case-insensitive comparison of two strings, as
/// `str::eq_ignore_ascii_case` decides it.
pub fn eq_ignore_ascii_case(a: &str, b: &str) -> (r: bool)
    ensures
        r == ascii_eq(a@, b@),
{
    let an = a.unicode_len();
    let bn = b.unicode_len();
    if an != bn {
        return false;
    }
    let mut i: usize = 0;
    while i < an
        invariant
            0 <= i <= an == a@.len() == b@.len(),
            forall|j: int| 0 <= j < i ==> ascii_eq_char(a@[j], b@[j]),
        decreases an - i,
    {
        if !chars_ascii_eq(a.get_char(i), b.get_char(i)) {
            return false;
        }
        i = i + 1;
    }
    true
}

/// A trimmed, non-empty sequence neither starts nor ends in whitespace, so it
/// is not whitespace-only.
pub proof fn lemma_trim_nonempty_not_whitespace(s: Seq<char>)
    ensures
        trim(s).len() > 0 ==> !whitespace_char(trim(s)[0]),
        trim(s).len() > 0 ==> !whitespace_char(trim(s).last()),
{
    lemma_trim_front_shape(s);
    lemma_trim_back_shape(trim_front(s));
    if trim(s).len() > 0 {
        let k = choose|k: int|
            0 <= k <= trim_front(s).len() && trim_back(trim_front(s)) =~= trim_front(s).subrange(
                0,
                k,
            ) && (forall|j: int|
                k <= j < trim_front(s).len() ==> whitespace_char(trim_front(s)[j]));
        assert(trim(s)[0] == trim_front(s)[0]);
    }
}

} // verus!
