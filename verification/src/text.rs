//! Character-level text utilities: equality, substring search and decimal
//! digit rendering, all specified over `Seq<char>` views.

use vstd::prelude::*;
use vstd::string::StrSliceExecFns;
use vstd::string::StringExecFns;

verus! {

/// True iff `pat` occurs in `s` starting at position `at`.
pub open spec fn spec_match_at(s: Seq<char>, pat: Seq<char>, at: int) -> bool {
    0 <= at && at + pat.len() <= s.len() && s.subrange(at, at + pat.len() as int) == pat
}

/// Position of the first occurrence of `pat` in `s` at or after `from`.
pub open spec fn spec_find(s: Seq<char>, pat: Seq<char>, from: int) -> Option<int>
    decreases s.len() - from + 1,
{
    if from < 0 || from + pat.len() > s.len() {
        None
    } else if spec_match_at(s, pat, from) {
        Some(from)
    } else {
        spec_find(s, pat, from + 1)
    }
}

/// Character-by-character string equality, decided over the views.
pub fn str_eq(a: &str, b: &str) -> (r: bool)
    ensures
        r == (a@ == b@),
{
    let alen = a.unicode_len();
    let blen = b.unicode_len();
    if alen != blen {
        return false;
    }
    let mut i: usize = 0;
    while i < alen
        invariant
            i <= alen,
            alen == a@.len(),
            alen == b@.len(),
            forall|j: int| 0 <= j < i ==> a@[j] == b@[j],
        decreases alen - i,
    {
        if a.get_char(i) != b.get_char(i) {
            return false;
        }
        i += 1;
    }
    proof {
        assert(a@ =~= b@);
    }
    true
}

/// Whether `pat` occurs in `text` starting at `at`.
pub fn match_at(text: &str, pat: &str, at: usize) -> (r: bool)
    ensures
        r == spec_match_at(text@, pat@, at as int),
{
    let tlen = text.unicode_len();
    let plen = pat.unicode_len();
    if at > tlen || plen > tlen - at {
        return false;
    }
    let mut i: usize = 0;
    while i < plen
        invariant
            i <= plen,
            plen == pat@.len(),
            tlen == text@.len(),
            at + plen <= tlen,
            forall|j: int| 0 <= j < i ==> text@[at + j] == pat@[j],
        decreases plen - i,
    {
        if text.get_char(at + i) != pat.get_char(i) {
            return false;
        }
        i += 1;
    }
    proof {
        assert(text@.subrange(at as int, at + pat@.len() as int) =~= pat@);
    }
    true
}

/// First occurrence of `pat` in `text`, as `spec_find` names it.
pub fn find_str(text: &str, pat: &str) -> (r: Option<usize>)
    ensures
        match r {
            Some(i) => spec_find(text@, pat@, 0) == Some(i as int),
            None => spec_find(text@, pat@, 0) is None,
        },
{
    let tlen = text.unicode_len();
    let plen = pat.unicode_len();
    if plen > tlen {
        return None;
    }
    if plen == 0 {
        proof {
            assert(text@.subrange(0, 0) =~= pat@);
        }
        return Some(0);
    }
    let mut i: usize = 0;
    while i <= tlen - plen
        invariant
            i <= tlen - plen + 1,
            1 <= plen <= tlen,
            plen == pat@.len(),
            tlen == text@.len(),
            spec_find(text@, pat@, 0) == spec_find(text@, pat@, i as int),
        decreases tlen - i,
    {
        if match_at(text, pat, i) {
            return Some(i);
        }
        i += 1;
    }
    None
}

/// Whether `text` begins with `pat`.
pub fn starts_with(text: &str, pat: &str) -> (r: bool)
    ensures
        r == spec_match_at(text@, pat@, 0),
{
    match_at(text, pat, 0)
}

/// The character for one decimal digit.
pub open spec fn spec_digit_char(d: int) -> char {
    if d == 0 {
        '0'
    } else if d == 1 {
        '1'
    } else if d == 2 {
        '2'
    } else if d == 3 {
        '3'
    } else if d == 4 {
        '4'
    } else if d == 5 {
        '5'
    } else if d == 6 {
        '6'
    } else if d == 7 {
        '7'
    } else if d == 8 {
        '8'
    } else {
        '9'
    }
}

/// Decimal rendering of a non-negative integer, most significant digit first.
pub open spec fn spec_digits(n: int) -> Seq<char>
    decreases n,
{
    if n < 10 {
        seq![spec_digit_char(n)]
    } else {
        spec_digits(n / 10) + seq![spec_digit_char(n % 10)]
    }
}

/// Decimal rendering of a signed integer.
pub open spec fn spec_int_str(n: int) -> Seq<char> {
    if n < 0 {
        seq!['-'] + spec_digits(-n)
    } else {
        spec_digits(n)
    }
}

fn digit_literal(d: u64) -> (r: &'static str)
    requires
        d < 10,
    ensures
        r@ == seq![spec_digit_char(d as int)],
{
    proof {
        reveal_strlit("0");
        reveal_strlit("1");
        reveal_strlit("2");
        reveal_strlit("3");
        reveal_strlit("4");
        reveal_strlit("5");
        reveal_strlit("6");
        reveal_strlit("7");
        reveal_strlit("8");
        reveal_strlit("9");
    }
    let r = if d == 0 {
        "0"
    } else if d == 1 {
        "1"
    } else if d == 2 {
        "2"
    } else if d == 3 {
        "3"
    } else if d == 4 {
        "4"
    } else if d == 5 {
        "5"
    } else if d == 6 {
        "6"
    } else if d == 7 {
        "7"
    } else if d == 8 {
        "8"
    } else {
        "9"
    };
    proof {
        assert(r@ =~= seq![spec_digit_char(d as int)]);
    }
    r
}

/// The digits held in reverse order, read back as characters.
pub open spec fn spec_rev_chars(ds: Seq<u64>) -> Seq<char>
    decreases ds.len(),
{
    if ds.len() == 0 {
        Seq::empty()
    } else {
        seq![spec_digit_char(ds.last() as int)] + spec_rev_chars(ds.drop_last())
    }
}

/// Renders `n` in decimal.
pub fn u64_to_string(n: u64) -> (r: String)
    ensures
        r@ == spec_digits(n as int),
{
    let mut rev_digits: Vec<u64> = Vec::new();
    let mut m: u64 = n;
    proof {
        assert(spec_digits(n as int) =~= spec_digits(m as int) + spec_rev_chars(rev_digits@));
    }
    while m >= 10
        invariant
            forall|j: int| 0 <= j < rev_digits@.len() ==> rev_digits@[j] < 10,
            spec_digits(n as int) == spec_digits(m as int) + spec_rev_chars(rev_digits@),
        decreases m,
    {
        let d: u64 = m % 10;
        let ghost prev = rev_digits@;
        rev_digits.push(d);
        proof {
            assert(rev_digits@.drop_last() =~= prev);
            assert(spec_rev_chars(rev_digits@) == seq![spec_digit_char(d as int)]
                + spec_rev_chars(prev));
            assert(spec_digits(m as int) == spec_digits(m as int / 10) + seq![
                spec_digit_char(m as int % 10),
            ]);
            assert(spec_digits(m as int / 10) + spec_rev_chars(rev_digits@) =~= spec_digits(
                m as int,
            ) + spec_rev_chars(prev));
        }
        m = m / 10;
    }
    let ghost prev = rev_digits@;
    rev_digits.push(m);
    proof {
        assert(rev_digits@.drop_last() =~= prev);
        assert(spec_rev_chars(rev_digits@) == seq![spec_digit_char(m as int)] + spec_rev_chars(
            prev,
        ));
        assert(spec_digits(m as int) =~= seq![spec_digit_char(m as int)]);
        assert(spec_digits(n as int) =~= spec_rev_chars(rev_digits@));
    }
    let mut s = String::new();
    let mut i: usize = rev_digits.len();
    proof {
        assert(rev_digits@.take(i as int) =~= rev_digits@);
    }
    while i > 0
        invariant
            i <= rev_digits@.len(),
            forall|j: int| 0 <= j < rev_digits@.len() ==> rev_digits@[j] < 10,
            spec_digits(n as int) == s@ + spec_rev_chars(rev_digits@.take(i as int)),
        decreases i,
    {
        i -= 1;
        let d = rev_digits[i];
        s.append(digit_literal(d));
        proof {
            assert(rev_digits@.take(i + 1).drop_last() =~= rev_digits@.take(i as int));
            assert(spec_rev_chars(rev_digits@.take(i + 1)) == seq![
                spec_digit_char(rev_digits@[i as int] as int),
            ] + spec_rev_chars(rev_digits@.take(i as int)));
            assert(s@ + spec_rev_chars(rev_digits@.take(i as int)) =~= spec_digits(n as int));
        }
    }
    proof {
        assert(spec_rev_chars(rev_digits@.take(0)) =~= Seq::<char>::empty());
        assert(spec_digits(n as int) =~= s@);
    }
    s
}

/// Renders `n` in decimal, with a leading minus sign when negative.
pub fn i64_to_string(n: i64) -> (r: String)
    ensures
        r@ == spec_int_str(n as int),
{
    if n >= 0 {
        u64_to_string(n as u64)
    } else {
        let mag: u64 = if n == i64::MIN {
            9223372036854775808u64
        } else {
            (-n) as u64
        };
        let mut s = String::from_str("-");
        proof {
            reveal_strlit("-");
        }
        s.append(u64_to_string(mag).as_str());
        proof {
            assert(s@ =~= spec_int_str(n as int));
        }
        s
    }
}

/// Value of a decimal digit character, `None` for any other character.
pub open spec fn spec_digit_val(c: char) -> Option<int> {
    if c == '0' {
        Some(0)
    } else if c == '1' {
        Some(1)
    } else if c == '2' {
        Some(2)
    } else if c == '3' {
        Some(3)
    } else if c == '4' {
        Some(4)
    } else if c == '5' {
        Some(5)
    } else if c == '6' {
        Some(6)
    } else if c == '7' {
        Some(7)
    } else if c == '8' {
        Some(8)
    } else if c == '9' {
        Some(9)
    } else {
        None
    }
}

pub fn digit_val(c: char) -> (r: Option<u32>)
    ensures
        match r {
            Some(d) => spec_digit_val(c) == Some(d as int) && d < 10,
            None => spec_digit_val(c) is None,
        },
{
    if c == '0' {
        Some(0)
    } else if c == '1' {
        Some(1)
    } else if c == '2' {
        Some(2)
    } else if c == '3' {
        Some(3)
    } else if c == '4' {
        Some(4)
    } else if c == '5' {
        Some(5)
    } else if c == '6' {
        Some(6)
    } else if c == '7' {
        Some(7)
    } else if c == '8' {
        Some(8)
    } else if c == '9' {
        Some(9)
    } else {
        None
    }
}

/// Integer value of a sequence of digit characters, most significant first;
/// `None` if any character is not a digit.
pub open spec fn spec_digits_val(s: Seq<char>) -> Option<int>
    decreases s.len(),
{
    if s.len() == 0 {
        Some(0)
    } else {
        match (spec_digits_val(s.drop_last()), spec_digit_val(s.last())) {
            (Some(hi), Some(lo)) => Some(hi * 10 + lo),
            _ => None,
        }
    }
}

pub open spec fn pow10(n: nat) -> int
    decreases n,
{
    if n == 0 {
        1
    } else {
        10 * pow10((n - 1) as nat)
    }
}

pub proof fn lemma_pow10_mono(a: nat, b: nat)
    requires
        a <= b,
    ensures
        pow10(a) <= pow10(b),
        pow10(a) >= 1,
    decreases b,
{
    if b == 0 {
    } else if a == b {
        lemma_pow10_mono((a - 1) as nat, (b - 1) as nat);
    } else {
        lemma_pow10_mono(a, (b - 1) as nat);
    }
}

/// A found occurrence lies within bounds and matches there.
pub proof fn lemma_find_some(s: Seq<char>, pat: Seq<char>, from: int)
    ensures
        match spec_find(s, pat, from) {
            Some(i) => from <= i && spec_match_at(s, pat, i),
            None => true,
        },
    decreases s.len() - from + 1,
{
    if from >= 0 && from + pat.len() <= s.len() && !spec_match_at(s, pat, from) {
        lemma_find_some(s, pat, from + 1);
    }
}

/// The value of a digit string is bounded by a power of ten in its length.
pub proof fn lemma_digits_val_bound(s: Seq<char>)
    ensures
        spec_digits_val(s) is Some ==> 0 <= spec_digits_val(s)->Some_0 < pow10(s.len()),
    decreases s.len(),
{
    if s.len() > 0 {
        lemma_digits_val_bound(s.drop_last());
    }
}

/// A non-digit character anywhere makes the whole string unparseable.
pub proof fn lemma_digits_val_none(s: Seq<char>, i: int)
    requires
        0 <= i < s.len(),
        spec_digit_val(s[i]) is None,
    ensures
        spec_digits_val(s) is None,
    decreases s.len(),
{
    if i < s.len() - 1 {
        lemma_digits_val_none(s.drop_last(), i);
    }
}

/// Parses a string of at most nine decimal digits.
pub fn parse_digits(s: &str) -> (r: Option<u32>)
    requires
        s@.len() <= 9,
    ensures
        match r {
            Some(v) => spec_digits_val(s@) == Some(v as int),
            None => spec_digits_val(s@) is None,
        },
{
    let slen = s.unicode_len();
    let mut acc: u32 = 0;
    let mut i: usize = 0;
    proof {
        assert(s@.take(0) =~= Seq::<char>::empty());
    }
    while i < slen
        invariant
            i <= slen,
            slen == s@.len() <= 9,
            spec_digits_val(s@.take(i as int)) == Some(acc as int),
        decreases slen - i,
    {
        let c = s.get_char(i);
        match digit_val(c) {
            None => {
                proof {
                    lemma_digits_val_none(s@, i as int);
                }
                return None;
            },
            Some(d) => {
                proof {
                    lemma_digits_val_bound(s@.take(i as int));
                    lemma_pow10_mono(i as nat, 8);
                    assert(pow10(0) == 1);
                    assert(pow10(1) == 10);
                    assert(pow10(2) == 100);
                    assert(pow10(3) == 1000);
                    assert(pow10(4) == 10000);
                    assert(pow10(5) == 100000);
                    assert(pow10(6) == 1000000);
                    assert(pow10(7) == 10000000);
                    assert(pow10(8) == 100000000);
                    assert(s@.take(i + 1).drop_last() =~= s@.take(i as int));
                    assert(s@.take(i + 1).last() == s@[i as int]);
                }
                acc = acc * 10 + d;
            },
        }
        i += 1;
    }
    proof {
        assert(s@.take(slen as int) =~= s@);
    }
    Some(acc)
}

} // verus!
