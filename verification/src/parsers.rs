//! The response-parsing layer: shared query-parameter types, the error
//! taxonomy of the strict endpoints, and the tolerant field-extraction
//! helpers shared by every entity parser.

use vstd::prelude::*;
use vstd::string::StrSliceExecFns;
use crate::decimal::{Decimal, spec_milli_or_zero};
use crate::json::{JsonNode, spec_obj_get, spec_scalar, spec_text};
use crate::text::{spec_digits_val, spec_int_str, str_eq};

pub mod classes;
pub mod score;
pub mod timetable;
pub mod user_profile;

verus! {

/// A school-year filter: either every year, or one calendar year.
#[derive(Clone, Copy, Debug, PartialEq, Eq, Structural)]
pub enum SchoolYear {
    AllYear,
    SomeYear(i32),
}

/// The query-parameter text of a school year: the year in decimal, or empty
/// for all years.
pub open spec fn spec_school_year_str(y: SchoolYear) -> Seq<char> {
    match y {
        SchoolYear::AllYear => Seq::empty(),
        SchoolYear::SomeYear(n) => spec_int_str(n as int),
    }
}

impl SchoolYear {
    pub fn new(year: i32) -> (r: Self)
        ensures
            r == SchoolYear::SomeYear(year),
    {
        Self::SomeYear(year)
    }

    /// Renders the school year as the portal's query-parameter text.
    pub fn to_string(&self) -> (r: String)
        ensures
            r@ == spec_school_year_str(*self),
    {
        match self {
            SchoolYear::SomeYear(year) => crate::text::i64_to_string(*year as i64),
            SchoolYear::AllYear => String::new(),
        }
    }
}

/// A term filter, carried in requests as the portal's raw term code.
#[derive(Clone, Copy, Debug, PartialEq, Eq, Structural)]
pub enum Semester {
    All,
    FirstTerm,
    SecondTerm,
    MidTerm,
}

/// The portal's raw code for each term.
pub open spec fn spec_semester_raw(s: Semester) -> Seq<char> {
    match s {
        Semester::All => Seq::empty(),
        Semester::FirstTerm => seq!['3'],
        Semester::SecondTerm => seq!['1', '2'],
        Semester::MidTerm => seq!['1', '6'],
    }
}

/// The term encoded by a raw code, if the code is one the portal uses.
pub open spec fn spec_semester_from(s: Seq<char>) -> Option<Semester> {
    if s == Seq::<char>::empty() {
        Some(Semester::All)
    } else if s == seq!['3'] {
        Some(Semester::FirstTerm)
    } else if s == seq!['1', '2'] {
        Some(Semester::SecondTerm)
    } else if s == seq!['1', '6'] {
        Some(Semester::MidTerm)
    } else {
        None
    }
}

impl Semester {
    /// The raw term code sent to the portal.
    pub fn to_raw(&self) -> (r: &'static str)
        ensures
            r@ == spec_semester_raw(*self),
    {
        proof {
            reveal_strlit("");
            reveal_strlit("3");
            reveal_strlit("12");
            reveal_strlit("16");
            assert(""@ =~= Seq::<char>::empty());
            assert("3"@ =~= seq!['3']);
            assert("12"@ =~= seq!['1', '2']);
            assert("16"@ =~= seq!['1', '6']);
        }
        match self {
            Semester::All => "",
            Semester::FirstTerm => "3",
            Semester::SecondTerm => "12",
            Semester::MidTerm => "16",
        }
    }

    /// Decodes a raw term code; exactly the four codes the portal uses are
    /// accepted, anything else is a `SemesterError`.
    pub fn from_raw(raw: &str) -> (r: Result<Semester, ParserError>)
        ensures
            match r {
                Ok(sem) => spec_semester_from(raw@) == Some(sem),
                Err(e) => spec_semester_from(raw@) is None && e == ParserError::SemesterError,
            },
    {
        proof {
            reveal_strlit("");
            reveal_strlit("3");
            reveal_strlit("12");
            reveal_strlit("16");
            assert(""@ =~= Seq::<char>::empty());
            assert("3"@ =~= seq!['3']);
            assert("12"@ =~= seq!['1', '2']);
            assert("16"@ =~= seq!['1', '6']);
        }
        if str_eq(raw, "") {
            Ok(Semester::All)
        } else if str_eq(raw, "3") {
            Ok(Semester::FirstTerm)
        } else if str_eq(raw, "12") {
            Ok(Semester::SecondTerm)
        } else if str_eq(raw, "16") {
            Ok(Semester::MidTerm)
        } else {
            Err(ParserError::SemesterError)
        }
    }
}

/// What the response parsers can report: a strict endpoint missing a
/// required field, an unrecognized term code, or a body that is not the
/// expected document at all.
#[derive(Clone, Copy, Debug, PartialEq, Eq, Structural)]
pub enum ParserError {
    MissingField,
    SemesterError,
    Malformed,
}

/// The text of a string cell, empty when the cell is absent or not a string.
pub open spec fn spec_str_or_empty(x: Option<JsonNode>) -> Seq<char> {
    match x {
        Some(n) => match spec_text(n) {
            Some(t) => t,
            None => Seq::empty(),
        },
        None => Seq::empty(),
    }
}

/// The literal text of a scalar cell (string or number), empty when the
/// cell is absent or composite.
pub open spec fn spec_scalar_or_empty(x: Option<JsonNode>) -> Seq<char> {
    match x {
        Some(n) => match spec_scalar(n) {
            Some(t) => t,
            None => Seq::empty(),
        },
        None => Seq::empty(),
    }
}

/// The tolerant numeric reading of a cell: its literal text parsed as a
/// fixed-point number, zero when absent or malformed.
pub open spec fn spec_cell_milli(x: Option<JsonNode>) -> int {
    spec_milli_or_zero(spec_scalar_or_empty(x))
}

/// The tolerant string reading of a cell.
pub fn get_str(x: Option<&JsonNode>) -> (r: String)
    ensures
        match x {
            Some(n) => r@ == spec_str_or_empty(Some(*n)),
            None => r@ == Seq::<char>::empty(),
        },
{
    match x {
        Some(n) => match n.as_text() {
            Some(s) => s.clone(),
            None => String::new(),
        },
        None => String::new(),
    }
}

/// The tolerant numeric reading of a cell: a malformed cell degrades to
/// zero, it never aborts the record.
pub fn get_decimal(x: Option<&JsonNode>) -> (r: Decimal)
    ensures
        match x {
            Some(n) => r@ == spec_cell_milli(Some(*n)),
            None => r@ == 0,
        },
{
    proof {
        crate::decimal::lemma_parse_milli_empty();
    }
    match x {
        Some(n) => match n.as_scalar() {
            Some(s) => Decimal::parse_or_zero(s.as_str()),
            None => Decimal::zero(),
        },
        None => Decimal::zero(),
    }
}

/// The raw scalar text of a cell, as a fresh string.
pub fn get_scalar_text(x: Option<&JsonNode>) -> (r: String)
    ensures
        match x {
            Some(n) => r@ == spec_scalar_or_empty(Some(*n)),
            None => r@ == Seq::<char>::empty(),
        },
{
    match x {
        Some(n) => match n.as_scalar() {
            Some(s) => s.clone(),
            None => String::new(),
        },
        None => String::new(),
    }
}

/// One reusable extraction routine for the table-driven entity parsers:
/// reads each named string cell of `obj`, in table order, with the tolerant
/// empty-string default.
pub fn extract_str_fields(obj: &JsonNode, keys: &Vec<&str>) -> (r: Vec<String>)
    ensures
        r@.len() == keys@.len(),
        forall|j: int|
            0 <= j < keys@.len() ==> r@[j]@ == spec_str_or_empty(spec_obj_get(*obj, keys@[j]@)),
{
    let mut r: Vec<String> = Vec::new();
    let n = keys.len();
    let mut i: usize = 0;
    while i < n
        invariant
            i <= n,
            n == keys@.len(),
            r@.len() == i,
            forall|j: int|
                0 <= j < i ==> r@[j]@ == spec_str_or_empty(spec_obj_get(*obj, keys@[j]@)),
        decreases n - i,
    {
        r.push(get_str(obj.get(keys[i])));
        i += 1;
    }
    r
}

/// The entrance year derived from its source string: one to nine decimal
/// digits; anything else is not a year.
pub open spec fn spec_parse_year(s: Seq<char>) -> Option<int> {
    if 1 <= s.len() <= 9 {
        spec_digits_val(s)
    } else {
        None
    }
}

/// The guarded year derivation: the year's value, or zero when the source
/// string is not a plain year, so that one malformed cell never aborts a
/// list.
pub fn year_or_zero(s: &str) -> (r: i32)
    ensures
        r as int == match spec_parse_year(s@) {
            Some(v) => v,
            None => 0,
        },
{
    let len = s.unicode_len();
    if len < 1 || len > 9 {
        return 0;
    }
    match crate::text::parse_digits(s) {
        None => 0,
        Some(v) => {
            proof {
                crate::text::lemma_digits_val_bound(s@);
                crate::text::lemma_pow10_mono(s@.len() as nat, 9);
                assert(crate::text::pow10(0) == 1);
                assert(crate::text::pow10(1) == 10);
                assert(crate::text::pow10(2) == 100);
                assert(crate::text::pow10(3) == 1000);
                assert(crate::text::pow10(4) == 10000);
                assert(crate::text::pow10(5) == 100000);
                assert(crate::text::pow10(6) == 1000000);
                assert(crate::text::pow10(7) == 10000000);
                assert(crate::text::pow10(8) == 100000000);
                assert(crate::text::pow10(9) == 1000000000);
            }
            v as i32
        },
    }
}

} // verus!
