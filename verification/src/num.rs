//! Decimal text for unsigned integers, and an integer square root.
//!
//! Every number that the crate prints or parses goes through these
//! functions, so the JSON round-trip proofs reduce to the two lemmas
//! `lemma_dec_rep_digits` and `lemma_dec_rep_val` below.

use vstd::prelude::*;
use vstd::string::StrSliceExecFns;
use vstd::string::StringExecFns;

verus! {

/// Whether `c` is a decimal digit.
pub open spec fn is_digit(c: char) -> bool {
    48 <= c as u32 <= 57
}

/// The digit character for a value below ten.
pub open spec fn digit_char(d: int) -> char
    recommends
        0 <= d < 10,
{
    if d == 0 {
        '0'
    } else if d == 1 {
        '1'
    } else if d == 2 {
        '2'
    } else if d == 3 {
        '3'
    } else if d == 4 {
        '4'
    } else if d == 5 {
        '5'
    } else if d == 6 {
        '6'
    } else if d == 7 {
        '7'
    } else if d == 8 {
        '8'
    } else {
        '9'
    }
}

/// The numeric value of a digit character.
pub open spec fn char_digit(c: char) -> nat
    recommends
        is_digit(c),
{
    if 48 <= c as u32 {
        (c as u32 - 48) as nat
    } else {
        0
    }
}

/// The decimal representation of `n`, most significant digit first,
/// with no leading zero except for `n == 0` itself.
pub open spec fn dec_rep(n: nat) -> Seq<char>
    decreases n,
{
    if n < 10 {
        seq![digit_char(n as int)]
    } else {
        dec_rep(n / 10).push(digit_char((n % 10) as int))
    }
}

/// The value of a digit string, read most significant digit first.
pub open spec fn digits_val(s: Seq<char>) -> nat
    recommends
        forall|i: int| 0 <= i < s.len() ==> is_digit(#[trigger] s[i]),
    decreases s.len(),
{
    if s.len() == 0 {
        0
    } else {
        digits_val(s.drop_last()) * 10 + char_digit(s.last())
    }
}

/// Every decimal representation is a non-empty string of digits.
pub proof fn lemma_dec_rep_digits(n: nat)
    ensures
        dec_rep(n).len() >= 1,
        forall|i: int| 0 <= i < dec_rep(n).len() ==> is_digit(#[trigger] dec_rep(n)[i]),
    decreases n,
{
    if n >= 10 {
        lemma_dec_rep_digits(n / 10);
    }
}

/// `char_digit` undoes `digit_char`.
pub proof fn lemma_char_digit_inverse(d: int)
    requires
        0 <= d < 10,
    ensures
        char_digit(digit_char(d)) == d,
{
    assert('0' as u32 == 48);
    assert('1' as u32 == 49);
    assert('2' as u32 == 50);
    assert('3' as u32 == 51);
    assert('4' as u32 == 52);
    assert('5' as u32 == 53);
    assert('6' as u32 == 54);
    assert('7' as u32 == 55);
    assert('8' as u32 == 56);
    assert('9' as u32 == 57);
}

/// Reading a decimal representation back gives the number it was made from.
pub proof fn lemma_dec_rep_val(n: nat)
    ensures
        digits_val(dec_rep(n)) == n,
    decreases n,
{
    if n < 10 {
        lemma_char_digit_inverse(n as int);
        assert(dec_rep(n).len() == 1);
        assert(dec_rep(n).last() == digit_char(n as int));
        assert(dec_rep(n).drop_last() =~= Seq::<char>::empty());
        assert(digits_val(dec_rep(n)) == digits_val(dec_rep(n).drop_last()) * 10 + char_digit(
            dec_rep(n).last(),
        ));
    } else {
        lemma_dec_rep_val(n / 10);
        lemma_char_digit_inverse((n % 10) as int);
        assert(dec_rep(n).drop_last() =~= dec_rep(n / 10));
    }
}

/// Dropping trailing digits never increases the value of a digit string.
pub proof fn lemma_digits_val_prefix(s: Seq<char>, i: int)
    requires
        0 <= i <= s.len(),
    ensures
        digits_val(s.subrange(0, i)) <= digits_val(s),
    decreases s.len() - i,
{
    if i < s.len() {
        lemma_digits_val_prefix(s, i + 1);
        assert(s.subrange(0, i + 1).drop_last() =~= s.subrange(0, i));
        assert(s.subrange(0, s.len() as int) =~= s);
    } else {
        assert(s.subrange(0, i) =~= s);
    }
}

/// The one-character string for a value below ten.
fn digit_str(d: u128) -> (r: &'static str)
    requires
        d < 10,
    ensures
        r@ =~= seq![digit_char(d as int)],
{
    if d == 0 {
        proof {
            reveal_strlit("0");
        }
        "0"
    } else if d == 1 {
        proof {
            reveal_strlit("1");
        }
        "1"
    } else if d == 2 {
        proof {
            reveal_strlit("2");
        }
        "2"
    } else if d == 3 {
        proof {
            reveal_strlit("3");
        }
        "3"
    } else if d == 4 {
        proof {
            reveal_strlit("4");
        }
        "4"
    } else if d == 5 {
        proof {
            reveal_strlit("5");
        }
        "5"
    } else if d == 6 {
        proof {
            reveal_strlit("6");
        }
        "6"
    } else if d == 7 {
        proof {
            reveal_strlit("7");
        }
        "7"
    } else if d == 8 {
        proof {
            reveal_strlit("8");
        }
        "8"
    } else {
        proof {
            reveal_strlit("9");
        }
        "9"
    }
}

/// Render `n` in decimal.
pub fn u128_to_string(n: u128) -> (r: String)
    ensures
        r@ == dec_rep(n as nat),
    decreases n,
{
    if n < 10 {
        digit_str(n).to_owned()
    } else {
        let mut s = u128_to_string(n / 10);
        s.append(digit_str(n % 10));
        proof {
            assert(s@ =~= dec_rep(n as nat));
        }
        s
    }
}

/// Render `n` in decimal.
pub fn u64_to_string(n: u64) -> (r: String)
    ensures
        r@ == dec_rep(n as nat),
{
    u128_to_string(n as u128)
}

/// Render `n` in decimal.
pub fn usize_to_string(n: usize) -> (r: String)
    ensures
        r@ == dec_rep(n as nat),
{
    u128_to_string(n as u128)
}

/// First position at or after `start` that does not hold a digit.
pub open spec fn digit_run_end(s: Seq<char>, start: int) -> int
    recommends
        0 <= start <= s.len(),
    decreases s.len() - start,
{
    if start >= s.len() || !is_digit(s[start]) {
        start
    } else {
        digit_run_end(s, start + 1)
    }
}

/// Characterizes `digit_run_end`: the run covers exactly the digits.
pub proof fn lemma_digit_run_end(s: Seq<char>, start: int)
    requires
        0 <= start <= s.len(),
    ensures
        start <= digit_run_end(s, start) <= s.len(),
        forall|i: int|
            start <= i < digit_run_end(s, start) ==> is_digit(#[trigger] s[i]),
        digit_run_end(s, start) == s.len() || !is_digit(s[digit_run_end(s, start)]),
    decreases s.len() - start,
{
    if start < s.len() && is_digit(s[start]) {
        lemma_digit_run_end(s, start + 1);
    }
}

/// If the characters from `start` to `end` are digits and `end` sits on
/// the end of the string or a non-digit, the run stops exactly at `end`.
pub proof fn lemma_digit_run_exact(s: Seq<char>, start: int, end: int)
    requires
        0 <= start <= end <= s.len(),
        forall|i: int| start <= i < end ==> is_digit(#[trigger] s[i]),
        end == s.len() || !is_digit(s[end]),
    ensures
        digit_run_end(s, start) == end,
    decreases end - start,
{
    if start < end {
        lemma_digit_run_exact(s, start + 1, end);
    }
}

/// What a decimal number starting at `start` parses to: the value of the
/// maximal digit run there, or nothing when no digit stands at `start`.
pub open spec fn parse_number_spec(s: Seq<char>, start: int) -> Option<(nat, int)>
    recommends
        0 <= start <= s.len(),
{
    let end = digit_run_end(s, start);
    if end == start {
        None
    } else {
        Some((digits_val(s.subrange(start, end)), end))
    }
}

/// Whether the character at position `i` is a decimal digit.
fn digit_at(s: &str, i: usize) -> (r: bool)
    requires
        i < s@.len(),
    ensures
        r == is_digit(s@[i as int]),
{
    let c = s.get_char(i);
    (c as u32) >= 48 && (c as u32) <= 57
}

/// Parse a decimal number at position `start`: maximal digit run,
/// rejected only when absent or too large for `u128`.
pub fn parse_u128_at(s: &str, start: usize) -> (r: Option<(u128, usize)>)
    requires
        start <= s@.len(),
    ensures
        match r {
            Some(p) => parse_number_spec(s@, start as int) == Some(
                (p.0 as nat, p.1 as int),
            ),
            None => parse_number_spec(s@, start as int) is None || (
            parse_number_spec(s@, start as int) matches Some(q) && q.0 > u128::MAX),
        },
{
    proof {
        lemma_digit_run_end(s@, start as int);
    }
    let ghost end = digit_run_end(s@, start as int);
    let len = s.unicode_len();
    let mut i = start;
    let mut acc: u128 = 0;
    while i < len && digit_at(s, i)
        invariant
            start <= i <= len,
            len == s@.len(),
            end == digit_run_end(s@, start as int),
            start <= end <= len,
            forall|k: int| start <= k < end ==> is_digit(#[trigger] s@[k]),
            end == s@.len() || !is_digit(s@[end]),
            i <= end,
            i < end ==> is_digit(s@[i as int]),
            acc as nat == digits_val(s@.subrange(start as int, i as int)),
        decreases len - i,
    {
        let c = s.get_char(i);
        let d = (c as u32 - 48) as u128;
        proof {
            lemma_digit_run_exact(s@, i as int, end);
            assert(is_digit(s@[i as int]));
        }
        if acc > (u128::MAX - d) / 10 {
            // The full run is at least as large as this prefix, so the
            // number cannot be represented.
            proof {
                let full = s@.subrange(start as int, end);
                let pre = s@.subrange(start as int, i + 1);
                assert(pre.drop_last() =~= s@.subrange(start as int, i as int));
                assert(pre =~= full.subrange(0, i + 1 - start));
                lemma_digits_val_prefix(full, i + 1 - start);
                assert(digits_val(pre) == acc * 10 + char_digit(s@[i as int]));
                assert(digits_val(pre) > u128::MAX);
            }
            return None;
        }
        proof {
            let pre = s@.subrange(start as int, i + 1);
            assert(pre.drop_last() =~= s@.subrange(start as int, i as int));
        }
        acc = acc * 10 + d;
        i = i + 1;
    }
    proof {
        if i < end {
            assert(is_digit(s@[i as int]));
        }
        assert(i == end);
    }
    if i == start {
        None
    } else {
        Some((acc, i))
    }
}

/// The integer square root: the largest value whose square is at most `v`.
pub fn isqrt(v: u128) -> (r: u64)
    ensures
        (r as int) * (r as int) <= v as int,
        (v as int) < ((r as int) + 1) * ((r as int) + 1),
{
    // Binary search over `r` keeps `lo * lo <= v < hi * hi`.
    let mut lo: u128 = 0;
    let mut hi: u128 = 1 << 64;
    proof {
        assert((1u128 << 64) == 0x1_0000_0000_0000_0000u128) by (bit_vector);
        assert(v < (1u128 << 64) * (1u128 << 64)) by (nonlinear_arith)
            requires
                (1u128 << 64) == 0x1_0000_0000_0000_0000u128,
                v <= u128::MAX,
        ;
    }
    while lo + 1 < hi
        invariant
            0 <= lo < hi <= 1u128 << 64,
            (lo as int) * (lo as int) <= v as int,
            (v as int) < (hi as int) * (hi as int),
        decreases hi - lo,
    {
        let mid = lo + (hi - lo) / 2;
        // `mid < 2^64`, so the square fits in `u128`.
        proof {
            assert((1u128 << 64) == 0x1_0000_0000_0000_0000u128) by (bit_vector);
            assert((mid as int) * (mid as int) < 0x1_0000_0000_0000_0000i128 as int
                * 0x1_0000_0000_0000_0000i128 as int) by (nonlinear_arith)
                requires
                    0 <= mid < 0x1_0000_0000_0000_0000u128,
            ;
        }
        let sq = mid * mid;
        if sq <= v {
            lo = mid;
        } else {
            hi = mid;
        }
    }
    proof {
        assert((1u128 << 64) == 0x1_0000_0000_0000_0000u128) by (bit_vector);
        assert(lo < 0x1_0000_0000_0000_0000u128);
    }
    lo as u64
}


/// The first position at or after `start` holding `stop`, or the
/// string's end.
pub open spec fn run_until(s: Seq<char>, start: int, stop: char) -> int
    recommends
        0 <= start <= s.len(),
    decreases s.len() - start,
{
    if start >= s.len() || s[start] == stop {
        start
    } else {
        run_until(s, start + 1, stop)
    }
}

/// Characterizes `run_until`: everything before the result differs
/// from `stop`, and the result sits on `stop` or the end.
pub proof fn lemma_run_until(s: Seq<char>, start: int, stop: char)
    requires
        0 <= start <= s.len(),
    ensures
        start <= run_until(s, start, stop) <= s.len(),
        forall|i: int| start <= i < run_until(s, start, stop) ==> #[trigger] s[i] != stop,
        run_until(s, start, stop) == s.len() || s[run_until(s, start, stop)] == stop,
    decreases s.len() - start,
{
    if start < s.len() && s[start] != stop {
        lemma_run_until(s, start + 1, stop);
    }
}

/// If nothing in `[start, end)` is `stop` and `end` sits on `stop` or
/// the end, the scan stops exactly at `end`.
pub proof fn lemma_run_until_exact(s: Seq<char>, start: int, end: int, stop: char)
    requires
        0 <= start <= end <= s.len(),
        forall|i: int| start <= i < end ==> #[trigger] s[i] != stop,
        end == s.len() || s[end] == stop,
    ensures
        run_until(s, start, stop) == end,
    decreases end - start,
{
    if start < end {
        lemma_run_until_exact(s, start + 1, end, stop);
    }
}

/// The first position at or after `start` not holding `c`, or the
/// string's end.
pub open spec fn run_while(s: Seq<char>, start: int, c: char) -> int
    recommends
        0 <= start <= s.len(),
    decreases s.len() - start,
{
    if start >= s.len() || s[start] != c {
        start
    } else {
        run_while(s, start + 1, c)
    }
}

/// Characterizes `run_while`.
pub proof fn lemma_run_while(s: Seq<char>, start: int, c: char)
    requires
        0 <= start <= s.len(),
    ensures
        start <= run_while(s, start, c) <= s.len(),
        forall|i: int| start <= i < run_while(s, start, c) ==> #[trigger] s[i] == c,
        run_while(s, start, c) == s.len() || s[run_while(s, start, c)] != c,
    decreases s.len() - start,
{
    if start < s.len() && s[start] == c {
        lemma_run_while(s, start + 1, c);
    }
}

/// The largest position at or before `end` such that everything from
/// it to `end` holds `c`.
pub open spec fn back_while(s: Seq<char>, end: int, c: char) -> int
    recommends
        0 <= end <= s.len(),
    decreases end,
{
    if end <= 0 || s[end - 1] != c {
        end
    } else {
        back_while(s, end - 1, c)
    }
}

/// Characterizes `back_while`.
pub proof fn lemma_back_while(s: Seq<char>, end: int, c: char)
    requires
        0 <= end <= s.len(),
    ensures
        0 <= back_while(s, end, c) <= end,
        forall|i: int| back_while(s, end, c) <= i < end ==> #[trigger] s[i] == c,
        back_while(s, end, c) == 0 || s[back_while(s, end, c) - 1] != c,
    decreases end,
{
    if end > 0 && s[end - 1] == c {
        lemma_back_while(s, end - 1, c);
    }
}

/// Whether `lit` stands in `s` at position `pos`.
pub open spec fn expect_spec(s: Seq<char>, pos: int, lit: Seq<char>) -> bool {
    pos + lit.len() <= s.len() && s.subrange(pos, pos + lit.len()) == lit
}

/// Match the literal `lit` at position `pos`, returning the position
/// just after it.
pub fn expect_lit(s: &str, pos: usize, lit: &str) -> (r: Option<usize>)
    requires
        pos <= s@.len(),
    ensures
        match r {
            Some(j) => expect_spec(s@, pos as int, lit@) && j == pos + lit@.len(),
            None => !expect_spec(s@, pos as int, lit@),
        },
{
    let n = lit.unicode_len();
    let total = s.unicode_len();
    if n > total - pos {
        return None;
    }
    let mut i: usize = 0;
    while i < n
        invariant
            i <= n,
            n == lit@.len(),
            total == s@.len(),
            pos + n <= total,
            forall|k: int| 0 <= k < i ==> #[trigger] s@[pos + k] == lit@[k],
        decreases n - i,
    {
        if s.get_char(pos + i) != lit.get_char(i) {
            proof {
                assert(s@.subrange(pos as int, pos + lit@.len())[i as int] != lit@[i as int]);
            }
            return None;
        }
        i = i + 1;
    }
    proof {
        assert forall|k: int| 0 <= k < lit@.len() implies s@.subrange(
            pos as int,
            pos + lit@.len(),
        )[k] == lit@[k] by {
            assert(s@[pos + k] == lit@[k]);
        }
        assert(s@.subrange(pos as int, pos + lit@.len()) =~= lit@);
    }
    Some(pos + n)
}

/// The position of the first `stop` at or after `pos`, or the string's
/// end.
pub fn find_char(s: &str, pos: usize, stop: char) -> (r: usize)
    requires
        pos <= s@.len(),
    ensures
        r == run_until(s@, pos as int, stop),
{
    proof {
        lemma_run_until(s@, pos as int, stop);
    }
    let total = s.unicode_len();
    let mut i = pos;
    while i < total && s.get_char(i) != stop
        invariant
            pos <= i <= total,
            total == s@.len(),
            run_until(s@, pos as int, stop) == run_until(s@, i as int, stop),
            i < run_until(s@, pos as int, stop) || i == run_until(s@, pos as int, stop),
        decreases total - i,
    {
        proof {
            lemma_run_until(s@, i as int, stop);
        }
        i = i + 1;
    }
    proof {
        lemma_run_until(s@, i as int, stop);
    }
    i
}


/// The position of the first character at or after `pos` that is not
/// `c`, or the string's end.
pub fn skip_char(s: &str, pos: usize, c: char) -> (r: usize)
    requires
        pos <= s@.len(),
    ensures
        r == run_while(s@, pos as int, c),
{
    proof {
        lemma_run_while(s@, pos as int, c);
    }
    let total = s.unicode_len();
    let mut i = pos;
    while i < total && s.get_char(i) == c
        invariant
            pos <= i <= total,
            total == s@.len(),
            run_while(s@, pos as int, c) == run_while(s@, i as int, c),
        decreases total - i,
    {
        proof {
            lemma_run_while(s@, i as int, c);
        }
        i = i + 1;
    }
    proof {
        lemma_run_while(s@, i as int, c);
    }
    i
}

/// The largest position at or before `end` such that everything from
/// it to `end` is `c`.
pub fn trim_back(s: &str, end: usize, c: char) -> (r: usize)
    requires
        end <= s@.len(),
    ensures
        r == back_while(s@, end as int, c),
{
    proof {
        lemma_back_while(s@, end as int, c);
    }
    let mut i = end;
    while i > 0 && s.get_char(i - 1) == c
        invariant
            0 <= i <= end,
            end <= s@.len(),
            back_while(s@, end as int, c) == back_while(s@, i as int, c),
        decreases i,
    {
        proof {
            lemma_back_while(s@, i as int, c);
        }
        i = i - 1;
    }
    i
}

} // verus!
