//! Decimal rendering and parsing of unsigned integers, used for vmids and
//! other numbers that appear in hypervisor paths and messages.

use vstd::prelude::*;
use vstd::string::*;

verus! {

/// The digit character for a value below ten.
pub open spec fn dec_digit_char(d: nat) -> char {
    if d == 0 {
        '0'
    } else if d == 1 {
        '1'
    } else if d == 2 {
        '2'
    } else if d == 3 {
        '3'
    } else if d == 4 {
        '4'
    } else if d == 5 {
        '5'
    } else if d == 6 {
        '6'
    } else if d == 7 {
        '7'
    } else if d == 8 {
        '8'
    } else {
        '9'
    }
}

/// The decimal rendering of `n`, most significant digit first, with no
/// leading zeros (a single `'0'` for zero).
pub open spec fn dec_str(n: nat) -> Seq<char>
    decreases n,
{
    if n < 10 {
        seq![dec_digit_char(n)]
    } else {
        dec_str(n / 10).push(dec_digit_char(n % 10))
    }
}

/// Whether `c` is an ASCII decimal digit.
pub open spec fn is_dec_digit(c: char) -> bool {
    48 <= c as u32 <= 57
}

/// The numeric value of an ASCII digit character.
pub open spec fn dec_digit_val(c: char) -> nat {
    (c as u32 - 48) as nat
}

/// Whether every character of `s` is an ASCII decimal digit.
pub open spec fn all_dec_digits(s: Seq<char>) -> bool {
    forall|i: int| 0 <= i < s.len() ==> is_dec_digit(s[i])
}

/// The value of a sequence of ASCII digit characters, most significant
/// first.
pub open spec fn dec_val(s: Seq<char>) -> nat
    decreases s.len(),
{
    if s.len() == 0 {
        0
    } else {
        dec_val(s.drop_last()) * 10 + dec_digit_val(s.last())
    }
}

fn digit_char_str(d: u64) -> (r: &'static str)
    requires
        d < 10,
    ensures
        r@ =~= seq![dec_digit_char(d as nat)],
{
    proof {
        reveal_strlit("0");
        reveal_strlit("1");
        reveal_strlit("2");
        reveal_strlit("3");
        reveal_strlit("4");
        reveal_strlit("5");
        reveal_strlit("6");
        reveal_strlit("7");
        reveal_strlit("8");
        reveal_strlit("9");
    }
    match d {
        0 => "0",
        1 => "1",
        2 => "2",
        3 => "3",
        4 => "4",
        5 => "5",
        6 => "6",
        7 => "7",
        8 => "8",
        _ => "9",
    }
}

spec fn render_rev(rev: Seq<u64>) -> Seq<char>
    decreases rev.len(),
{
    if rev.len() == 0 {
        Seq::empty()
    } else {
        seq![dec_digit_char(rev.last() as nat)] + render_rev(rev.drop_last())
    }
}

/// Render `n` in decimal, as `u64`'s `Display` implementation writes it.
pub fn u64_to_string(n: u64) -> (s: String)
    ensures
        s@ == dec_str(n as nat),
{
    let mut rev: Vec<u64> = Vec::new();
    let mut m: u64 = n;
    proof {
        assert(dec_str(n as nat) =~= dec_str(m as nat) + render_rev(rev@));
    }
    while m >= 10
        invariant
            dec_str(n as nat) =~= dec_str(m as nat) + render_rev(rev@),
            forall|i: int| 0 <= i < rev@.len() ==> rev@[i] < 10,
        decreases m,
    {
        let d = m % 10;
        proof {
            assert(rev@.push(d).drop_last() =~= rev@);
            assert(render_rev(rev@.push(d)) =~= seq![dec_digit_char(d as nat)] + render_rev(rev@));
            assert(dec_str(m as nat) =~= dec_str((m / 10) as nat) + seq![
                dec_digit_char((m % 10) as nat),
            ]);
        }
        rev.push(d);
        m = m / 10;
    }
    proof {
        assert(rev@.push(m).drop_last() =~= rev@);
        assert(render_rev(rev@.push(m)) =~= seq![dec_digit_char(m as nat)] + render_rev(rev@));
        assert(dec_str(m as nat) =~= seq![dec_digit_char(m as nat)]);
    }
    rev.push(m);
    let mut s = String::new();
    let mut j: usize = rev.len();
    proof {
        assert(rev@.take(j as int) =~= rev@);
    }
    while j > 0
        invariant
            j <= rev@.len(),
            forall|i: int| 0 <= i < rev@.len() ==> rev@[i] < 10,
            dec_str(n as nat) =~= s@ + render_rev(rev@.take(j as int)),
        decreases j,
    {
        j = j - 1;
        proof {
            let t = rev@.take(j as int + 1);
            assert(t.last() == rev@[j as int]);
            assert(t.drop_last() =~= rev@.take(j as int));
        }
        let d = digit_char_str(rev[j]);
        s.append(d);
    }
    proof {
        assert(rev@.take(0) =~= Seq::<u64>::empty());
        assert(dec_str(n as nat) =~= s@);
    }
    s
}

/// Why a string failed to parse as an unsigned integer, mirroring the cases
/// std's integer parsing distinguishes.
#[derive(Debug, Clone, Copy, PartialEq, Eq, Structural)]
pub enum ParseUintError {
    Empty,
    InvalidDigit,
    Overflow,
}

/// The digit part of a decimal string: everything after an optional leading
/// `'+'` sign.
pub open spec fn dec_body(s: Seq<char>) -> Seq<char> {
    if s.len() > 0 && s[0] == '+' {
        s.drop_first()
    } else {
        s
    }
}

proof fn lemma_dec_val_prefix_grows(s: Seq<char>, j: int)
    requires
        0 <= j <= s.len(),
    ensures
        dec_val(s.take(j)) <= dec_val(s),
    decreases s.len() - j,
{
    if j < s.len() {
        lemma_dec_val_prefix_grows(s, j + 1);
        let t = s.take(j + 1);
        assert(t.drop_last() =~= s.take(j));
        assert(dec_val(s.take(j)) <= dec_val(s.take(j)) * 10 + dec_digit_val(t.last()));
    } else {
        assert(s.take(j) =~= s);
    }
}

/// Parse a decimal string as `u64`, accepting exactly what
/// `str::parse::<u64>` accepts: an optional leading `'+'`, then one or more
/// ASCII digits whose value fits in 64 bits.
pub fn parse_u64(s: &str) -> (r: Result<u64, ParseUintError>)
    ensures
        r is Ok <==> dec_body(s@).len() > 0 && all_dec_digits(dec_body(s@)) && dec_val(
            dec_body(s@),
        ) <= u64::MAX,
        match r {
            Ok(v) => v as nat == dec_val(dec_body(s@)),
            Err(ParseUintError::Empty) => s@.len() == 0,
            Err(ParseUintError::InvalidDigit) => s@.len() > 0 && (dec_body(s@).len() == 0
                || !all_dec_digits(dec_body(s@))),
            Err(ParseUintError::Overflow) => exists|j: int|
                0 <= j <= dec_body(s@).len() && all_dec_digits(#[trigger] dec_body(s@).take(j))
                    && dec_val(dec_body(s@).take(j)) > u64::MAX,
        },
{
    let n = s.unicode_len();
    if n == 0 {
        return Err(ParseUintError::Empty);
    }
    let start: usize = if s.get_char(0) == '+' {
        1
    } else {
        0
    };
    let ghost body = dec_body(s@);
    proof {
        assert(body =~= s@.subrange(start as int, n as int));
    }
    if start == n {
        return Err(ParseUintError::InvalidDigit);
    }
    let mut acc: u64 = 0;
    let mut i: usize = start;
    while i < n
        invariant
            start <= i <= n == s@.len(),
            start <= 1,
            body == dec_body(s@),
            body == s@.subrange(start as int, n as int),
            forall|j: int| start <= j < i ==> is_dec_digit(s@[j]),
            acc as nat == dec_val(body.take(i - start)),
        decreases n - i,
    {
        let c = s.get_char(i);
        let cu = c as u32;
        if !(48 <= cu && cu <= 57) {
            proof {
                assert(body[i - start] == s@[i as int]);
                assert(!is_dec_digit(body[i - start]));
            }
            return Err(ParseUintError::InvalidDigit);
        }
        let d: u64 = (cu - 48) as u64;
        let ghost prefix = body.take(i - start);
        let ghost next_prefix = body.take(i + 1 - start);
        proof {
            assert(next_prefix.last() == s@[i as int]);
            assert(next_prefix.drop_last() =~= prefix);
            assert(dec_val(next_prefix) == dec_val(prefix) * 10 + dec_digit_val(s@[i as int]));
            assert forall|k: int| 0 <= k < next_prefix.len() implies is_dec_digit(
                next_prefix[k],
            ) by {
                assert(next_prefix[k] == s@[k + start]);
            }
        }
        let shifted = match acc.checked_mul(10) {
            Some(v) => v,
            None => {
                proof {
                    lemma_dec_val_prefix_grows(body, i + 1 - start);
                    assert(all_dec_digits(body.take(i + 1 - start)));
                    assert(dec_val(body.take(i + 1 - start)) > u64::MAX);
                }
                return Err(ParseUintError::Overflow);
            },
        };
        let widened = match shifted.checked_add(d) {
            Some(v) => v,
            None => {
                proof {
                    lemma_dec_val_prefix_grows(body, i + 1 - start);
                    assert(all_dec_digits(body.take(i + 1 - start)));
                    assert(dec_val(body.take(i + 1 - start)) > u64::MAX);
                }
                return Err(ParseUintError::Overflow);
            },
        };
        acc = widened;
        i = i + 1;
    }
    proof {
        assert(body.take(n - start) =~= body);
        assert forall|j: int| 0 <= j < body.len() implies is_dec_digit(body[j]) by {
            assert(body[j] == s@[j + start]);
        }
    }
    Ok(acc)
}

} // verus!
