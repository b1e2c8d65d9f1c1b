//! Non-negative fixed-point numbers in thousandths, the representation used
//! for the portal's numeric cells (scores, credits).
//!
//! A numeric cell is accepted when it is one to six integer digits,
//! optionally followed by a point and one to three fraction digits; no
//! sign and no exponent notation. Anything else is unparseable and the
//! tolerant callers fall back to zero. This grammar is deliberately
//! narrower than a general floating-point parse: the portal's cells are
//! small non-negative grades and credits, and the fixed-point range keeps
//! every downstream aggregation provably free of overflow.

use vstd::prelude::*;
use vstd::string::StrSliceExecFns;
use crate::text::{
    find_str, parse_digits, lemma_digits_val_bound, pow10, spec_digits_val, spec_find,
};

verus! {

/// Largest representable value in thousandths: 999999.999.
pub const MILLI_MAX: u32 = 999999999;

/// Value in thousandths of a numeric-cell text, if it fits the accepted
/// grammar.
pub open spec fn spec_parse_milli(s: Seq<char>) -> Option<int> {
    match spec_find(s, seq!['.'], 0) {
        None => if 1 <= s.len() <= 6 {
            match spec_digits_val(s) {
                Some(v) => Some(v * 1000),
                None => None,
            }
        } else {
            None
        },
        Some(dot) => {
            let ip = s.subrange(0, dot);
            let fp = s.subrange(dot + 1, s.len() as int);
            if 1 <= ip.len() <= 6 && 1 <= fp.len() <= 3 {
                match (spec_digits_val(ip), spec_digits_val(fp)) {
                    (Some(iv), Some(fv)) => Some(
                        iv * 1000 + fv * pow10((3 - fp.len()) as nat),
                    ),
                    _ => None,
                }
            } else {
                None
            }
        },
    }
}

/// The tolerant coercion: the parsed value, or zero.
pub open spec fn spec_milli_or_zero(s: Seq<char>) -> int {
    match spec_parse_milli(s) {
        Some(v) => v,
        None => 0,
    }
}

/// The empty text is not a number, so it coerces to zero.
pub proof fn lemma_parse_milli_empty()
    ensures
        spec_parse_milli(Seq::<char>::empty()) is None,
        spec_milli_or_zero(Seq::<char>::empty()) == 0,
{
    assert(spec_find(Seq::<char>::empty(), seq!['.'], 0) is None);
}

/// A non-negative amount in thousandths, at most `MILLI_MAX`.
#[derive(Clone, Copy, Debug)]
pub struct Decimal {
    milli: u32,
}

impl View for Decimal {
    type V = int;

    closed spec fn view(&self) -> int {
        self.milli as int
    }
}

impl Decimal {
    #[verifier::type_invariant]
    pub closed spec fn wf(self) -> bool {
        self.milli <= MILLI_MAX
    }

    pub fn zero() -> (r: Decimal)
        ensures
            r@ == 0,
    {
        Decimal { milli: 0 }
    }

    pub fn from_milli(m: u32) -> (r: Decimal)
        requires
            m <= MILLI_MAX,
        ensures
            r@ == m as int,
    {
        Decimal { milli: m }
    }

    pub fn milli(&self) -> (r: u32)
        ensures
            r as int == self@,
            r <= MILLI_MAX,
    {
        proof {
            use_type_invariant(self);
        }
        self.milli
    }

    /// Parses a numeric-cell text.
    pub fn parse(s: &str) -> (r: Option<Decimal>)
        ensures
            match r {
                Some(d) => spec_parse_milli(s@) == Some(d@),
                None => spec_parse_milli(s@) is None,
            },
    {
        proof {
            reveal_strlit(".");
            assert("."@ =~= seq!['.']);
        }
        let slen = s.unicode_len();
        match find_str(s, ".") {
            None => {
                if slen < 1 || slen > 6 {
                    return None;
                }
                match parse_digits(s) {
                    None => None,
                    Some(v) => {
                        proof {
                            lemma_digits_val_bound(s@);
                            assert(pow10(0) == 1);
                            assert(pow10(1) == 10);
                            assert(pow10(2) == 100);
                            assert(pow10(3) == 1000);
                            assert(pow10(4) == 10000);
                            assert(pow10(5) == 100000);
                            assert(pow10(6) == 1000000);
                        }
                        Some(Decimal { milli: v * 1000 })
                    },
                }
            },
            Some(dot) => {
                proof {
                    crate::text::lemma_find_some(s@, seq!['.'], 0);
                }
                let ip = s.substring_char(0, dot);
                let fp = s.substring_char(dot + 1, slen);
                let iplen = ip.unicode_len();
                let fplen = fp.unicode_len();
                if iplen < 1 || iplen > 6 || fplen < 1 || fplen > 3 {
                    return None;
                }
                let iv = match parse_digits(ip) {
                    None => {
                        return None;
                    },
                    Some(v) => v,
                };
                let fv = match parse_digits(fp) {
                    None => {
                        return None;
                    },
                    Some(v) => v,
                };
                let scale: u32 = if fplen == 1 {
                    100
                } else if fplen == 2 {
                    10
                } else {
                    1
                };
                proof {
                    lemma_digits_val_bound(ip@);
                    lemma_digits_val_bound(fp@);
                    assert(pow10(0) == 1);
                    assert(pow10(1) == 10);
                    assert(pow10(2) == 100);
                    assert(pow10(3) == 1000);
                    assert(pow10(4) == 10000);
                    assert(pow10(5) == 100000);
                    assert(pow10(6) == 1000000);
                }
                Some(Decimal { milli: iv * 1000 + fv * scale })
            },
        }
    }

    /// The tolerant coercion of the parsers: a malformed numeric cell
    /// degrades to zero, it never aborts.
    pub fn parse_or_zero(s: &str) -> (r: Decimal)
        ensures
            r@ == spec_milli_or_zero(s@),
    {
        match Decimal::parse(s) {
            Some(d) => d,
            None => Decimal::zero(),
        }
    }
}

} // verus!
