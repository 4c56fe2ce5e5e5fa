//! Parsing of the hypervisor's delimiter-separated tag strings.
//!
//! A raw tag field is split on `;` or `,`, each piece is trimmed, and empty
//! pieces are dropped, preserving the input order.

use vstd::prelude::*;
use vstd::seq_lib::*;

use crate::text::{raw_view, trim, trim_substring, whitespace_char};
use crate::text::lemma_trim_nonempty_not_whitespace;

verus! {

/// The characters a tag string is split on.
pub open spec fn is_tag_sep(c: char) -> bool {
    c == ';' || c == ','
}

/// Splitting state after reading the first `n` characters of `s`: the
/// completed segments, and the segment still being read.
pub open spec fn split_state(s: Seq<char>, n: int) -> (Seq<Seq<char>>, Seq<char>)
    decreases n,
{
    if n <= 0 {
        (Seq::empty(), Seq::empty())
    } else {
        let (done, cur) = split_state(s, n - 1);
        if is_tag_sep(s[n - 1]) {
            (done.push(cur), Seq::empty())
        } else {
            (done, cur.push(s[n - 1]))
        }
    }
}

/// `s` split on the separator characters.  A string with no separator is one
/// segment; each separator ends a segment, so `n` separators give `n + 1`
/// segments, empty ones included.
pub open spec fn split_on_seps(s: Seq<char>) -> Seq<Seq<char>> {
    let (done, cur) = split_state(s, s.len() as int);
    done.push(cur)
}

/// The tag list a raw string stands for: split on `;`/`,`, trim each piece,
/// drop the empty results.
pub open spec fn spec_parse_tags(s: Seq<char>) -> Seq<Seq<char>> {
    split_on_seps(s).map_values(|seg: Seq<char>| trim(seg)).filter(|t: Seq<char>| t.len() > 0)
}

proof fn lemma_trim_filter_push(done: Seq<Seq<char>>, cur: Seq<char>)
    ensures
        done.push(cur).map_values(|seg: Seq<char>| trim(seg)).filter(|t: Seq<char>| t.len() > 0)
            == if trim(cur).len() > 0 {
            done.map_values(|seg: Seq<char>| trim(seg)).filter(|t: Seq<char>| t.len() > 0).push(
                trim(cur),
            )
        } else {
            done.map_values(|seg: Seq<char>| trim(seg)).filter(|t: Seq<char>| t.len() > 0)
        },
{
    reveal(Seq::filter);
    let f = |seg: Seq<char>| trim(seg);
    let p = |t: Seq<char>| t.len() > 0;
    assert(done.push(cur).map_values(f) =~= done.map_values(f).push(trim(cur)));
    let m = done.map_values(f).push(trim(cur));
    assert(m.drop_last() =~= done.map_values(f));
    assert(m.last() == trim(cur));
}

/// Split a raw tag string on `;`/`,`, trim each piece, and drop the pieces
/// that end up empty, keeping the input order.  An absent string yields no
/// tags.
pub fn parse_tags(raw: Option<&str>) -> (r: Vec<String>)
    ensures
        r.deep_view() == spec_parse_tags(raw_view(raw)),
{
    let s: &str = match raw {
        Some(s) => s,
        None => "",
    };
    proof {
        reveal_strlit("");
        assert(s@ =~= raw_view(raw));
    }
    let n = s.unicode_len();
    let mut result: Vec<String> = Vec::new();
    let mut seg_start: usize = 0;
    let ghost mut done: Seq<Seq<char>> = Seq::empty();
    let mut i: usize = 0;
    proof {
        assert(s@.subrange(0, 0) =~= Seq::<char>::empty());
        assert(result.deep_view() =~= done.map_values(|seg: Seq<char>| trim(seg)).filter(
            |t: Seq<char>| t.len() > 0,
        ));
    }
    while i < n
        invariant
            seg_start <= i <= n == s@.len(),
            split_state(s@, i as int) == (done, s@.subrange(seg_start as int, i as int)),
            result.deep_view() == done.map_values(|seg: Seq<char>| trim(seg)).filter(
                |t: Seq<char>| t.len() > 0,
            ),
        decreases n - i,
    {
        let c = s.get_char(i);
        if c == ';' || c == ',' {
            let ghost cur = s@.subrange(seg_start as int, i as int);
            let t = trim_substring(s, seg_start, i);
            let ghost prev = result.deep_view();
            if !t.is_empty() {
                result.push(t.to_owned());
                proof {
                    assert(result.deep_view() =~= prev.push(trim(cur)));
                }
            }
            proof {
                lemma_trim_filter_push(done, cur);
                done = done.push(cur);
                assert(s@.subrange(i as int + 1, i as int + 1) =~= Seq::<char>::empty());
            }
            seg_start = i + 1;
        } else {
            proof {
                assert(s@.subrange(seg_start as int, i as int).push(s@[i as int]) =~= s@.subrange(
                    seg_start as int,
                    i as int + 1,
                ));
            }
        }
        i = i + 1;
    }
    let ghost cur = s@.subrange(seg_start as int, n as int);
    let t = trim_substring(s, seg_start, n);
    let ghost prev = result.deep_view();
    if !t.is_empty() {
        result.push(t.to_owned());
        proof {
            assert(result.deep_view() =~= prev.push(trim(cur)));
        }
    }
    proof {
        lemma_trim_filter_push(done, cur);
    }
    result
}

proof fn lemma_filter_members_from<A>(s: Seq<A>, p: spec_fn(A) -> bool)
    ensures
        forall|i: int|
            0 <= i < s.filter(p).len() ==> exists|j: int|
                0 <= j < s.len() && s[j] == #[trigger] s.filter(p)[i],
    decreases s.len(),
{
    reveal(Seq::filter);
    if s.len() > 0 {
        lemma_filter_members_from(s.drop_last(), p);
        let out = s.filter(p);
        assert forall|i: int| 0 <= i < out.len() implies exists|j: int|
            0 <= j < s.len() && s[j] == #[trigger] out[i] by {
            if p(s.last()) && i == out.len() - 1 {
                assert(s[s.len() - 1] == out[i]);
            } else {
                assert(s.drop_last().filter(p)[i] == out[i]);
                let j = choose|j: int|
                    0 <= j < s.drop_last().len() && s.drop_last()[j] == s.drop_last().filter(p)[i];
                assert(s[j] == out[i]);
            }
        }
    }
}

/// Every entry of a parsed tag list is non-empty and is not whitespace-only:
/// it neither starts nor ends with a whitespace character.
pub proof fn lemma_parse_tags_entries_not_blank(s: Seq<char>)
    ensures
        forall|i: int|
            0 <= i < spec_parse_tags(s).len() ==> {
                let t = #[trigger] spec_parse_tags(s)[i];
                t.len() > 0 && !whitespace_char(t[0]) && !whitespace_char(t.last())
            },
{
    let m = split_on_seps(s).map_values(|seg: Seq<char>| trim(seg));
    let p = |t: Seq<char>| t.len() > 0;
    lemma_filter_members_from(m, p);
    assert forall|i: int| 0 <= i < spec_parse_tags(s).len() implies {
        let t = #[trigger] spec_parse_tags(s)[i];
        t.len() > 0 && !whitespace_char(t[0]) && !whitespace_char(t.last())
    } by {
        let t = spec_parse_tags(s)[i];
        m.lemma_filter_pred(p, i);
        let j = choose|j: int| 0 <= j < m.len() && m[j] == t;
        assert(t == trim(split_on_seps(s)[j]));
        lemma_trim_nonempty_not_whitespace(split_on_seps(s)[j]);
    }
}

} // verus!
