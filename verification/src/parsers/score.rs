//! Score records and the GPA aggregation.

use vstd::prelude::*;
use crate::decimal::Decimal;
use crate::json::{JsonNode, json_doc_of, parse_document, spec_as_array, spec_obj_get};
use crate::parsers::{
    ParserError, Semester, extract_str_fields, get_decimal, get_scalar_text, spec_cell_milli,
    spec_scalar_or_empty, spec_semester_from, spec_str_or_empty,
};

verus! {

/// The mathematical content of a [`Score`] record; the numeric cells in
/// thousandths.
pub struct ScoreV {
    pub score: int,
    pub course: Seq<char>,
    pub course_id: Seq<char>,
    pub class_id: Seq<char>,
    pub school_year: Seq<char>,
    pub semester: Semester,
    pub credit: int,
}

/// One score record: the numeric score and credit (fixed-point), the
/// course's name and identifiers, and the term.
#[derive(Clone, Debug)]
pub struct Score {
    pub score: Decimal,
    pub course: String,
    pub course_id: String,
    pub class_id: String,
    pub school_year: String,
    pub semester: Semester,
    pub credit: Decimal,
}

impl View for Score {
    type V = ScoreV;

    open spec fn view(&self) -> ScoreV {
        ScoreV {
            score: self.score@,
            course: self.course@,
            course_id: self.course_id@,
            class_id: self.class_id@,
            school_year: self.school_year@,
            semester: self.semester,
            credit: self.credit@,
        }
    }
}

/// The record read from one array element. Numeric cells degrade to zero
/// when malformed; an unrecognized term code is the one per-record failure
/// that propagates.
pub open spec fn spec_score_of(elem: JsonNode) -> Result<ScoreV, ParserError> {
    match spec_semester_from(spec_scalar_or_empty(spec_obj_get(elem, "xqm"@))) {
        None => Err(ParserError::SemesterError),
        Some(sem) => Ok(
            ScoreV {
                score: spec_cell_milli(spec_obj_get(elem, "cj"@)),
                course: spec_str_or_empty(spec_obj_get(elem, "kcmc"@)),
                course_id: spec_str_or_empty(spec_obj_get(elem, "kch"@)),
                class_id: spec_str_or_empty(spec_obj_get(elem, "jxb_id"@)),
                school_year: spec_str_or_empty(spec_obj_get(elem, "xnmmc"@)),
                semester: sem,
                credit: spec_cell_milli(spec_obj_get(elem, "xf"@)),
            },
        ),
    }
}

/// The views of an exec score list.
pub open spec fn score_views(ss: Seq<Score>) -> Seq<ScoreV> {
    ss.map_values(|x: Score| x@)
}

/// The records of a list of elements, stopping at the first per-record
/// failure.
pub open spec fn spec_scores_list(elems: Seq<JsonNode>) -> Result<Seq<ScoreV>, ParserError>
    decreases elems.len(),
{
    if elems.len() == 0 {
        Ok(Seq::empty())
    } else {
        match spec_scores_list(elems.drop_last()) {
            Err(e) => Err(e),
            Ok(s) => match spec_score_of(elems.last()) {
                Err(e) => Err(e),
                Ok(v) => Ok(s.push(v)),
            },
        }
    }
}

/// The score list denoted by a document: the array under the `items`
/// envelope key; an absent or non-array envelope yields the empty list.
pub open spec fn spec_scores_of(doc: JsonNode) -> Result<Seq<ScoreV>, ParserError> {
    match spec_obj_get(doc, "items"@) {
        Some(items) => match spec_as_array(items) {
            Some(elems) => spec_scores_list(elems),
            None => Ok(Seq::empty()),
        },
        None => Ok(Seq::empty()),
    }
}

/// A failure among the first `j` elements settles the whole list.
proof fn lemma_scores_err_persists(elems: Seq<JsonNode>, j: int)
    requires
        0 <= j <= elems.len(),
        spec_scores_list(elems.take(j)) is Err,
    ensures
        spec_scores_list(elems) == spec_scores_list(elems.take(j)),
    decreases elems.len() - j,
{
    if j < elems.len() {
        assert(elems.take(j + 1).drop_last() =~= elems.take(j));
        lemma_scores_err_persists(elems, j + 1);
    } else {
        assert(elems.take(j) =~= elems);
    }
}

/// Builds one score record from one array element.
pub fn score_from_node(node: &JsonNode) -> (r: Result<Score, ParserError>)
    ensures
        match (spec_score_of(*node), r) {
            (Ok(v), Ok(s)) => s@ == v,
            (Err(e1), Err(e2)) => e1 == e2,
            _ => false,
        },
{
    let sem_text = get_scalar_text(node.get("xqm"));
    let semester = match Semester::from_raw(sem_text.as_str()) {
        Err(e) => {
            return Err(e);
        },
        Ok(sem) => sem,
    };
    let keys: Vec<&str> = vec!["kcmc", "kch", "jxb_id", "xnmmc"];
    let fields = extract_str_fields(node, &keys);
    Ok(
        Score {
            score: get_decimal(node.get("cj")),
            course: fields[0].clone(),
            course_id: fields[1].clone(),
            class_id: fields[2].clone(),
            school_year: fields[3].clone(),
            semester,
            credit: get_decimal(node.get("xf")),
        },
    )
}

/// The records of a parsed score-list document.
pub fn scores_from_doc(doc: &JsonNode) -> (r: Result<Vec<Score>, ParserError>)
    ensures
        match (spec_scores_of(*doc), r) {
            (Ok(s), Ok(v)) => score_views(v@) == s,
            (Err(e1), Err(e2)) => e1 == e2,
            _ => false,
        },
{
    let mut r: Vec<Score> = Vec::new();
    let items = match doc.get("items") {
        None => {
            proof {
                assert(score_views(r@) =~= Seq::<ScoreV>::empty());
            }
            return Ok(r);
        },
        Some(items) => items,
    };
    let elems = match items.as_array() {
        None => {
            proof {
                assert(score_views(r@) =~= Seq::<ScoreV>::empty());
            }
            return Ok(r);
        },
        Some(elems) => elems,
    };
    let n = elems.len();
    let mut i: usize = 0;
    proof {
        assert(elems@.take(0) =~= Seq::<JsonNode>::empty());
        assert(score_views(r@) =~= Seq::<ScoreV>::empty());
    }
    while i < n
        invariant
            i <= n,
            n == elems@.len(),
            spec_obj_get(*doc, "items"@) == Some(*items),
            spec_as_array(*items) == Some(elems@),
            spec_scores_list(elems@.take(i as int)) == Ok::<Seq<ScoreV>, ParserError>(
                score_views(r@),
            ),
        decreases n - i,
    {
        proof {
            assert(elems@.take(i + 1).drop_last() =~= elems@.take(i as int));
            assert(elems@.take(i + 1).last() == elems@[i as int]);
        }
        match score_from_node(&elems[i]) {
            Err(e) => {
                proof {
                    lemma_scores_err_persists(elems@, i + 1);
                }
                return Err(e);
            },
            Ok(s) => {
                r.push(s);
                proof {
                    assert(score_views(r@) =~= spec_scores_list(elems@.take(i + 1))->Ok_0);
                }
            },
        }
        i += 1;
    }
    proof {
        assert(elems@.take(n as int) =~= elems@);
    }
    Ok(r)
}

/// Parses a score-list response body: `Malformed` when the body is not
/// JSON; otherwise the document's score list, or its first per-record
/// failure.
pub fn parse_score_list_page(page: &str) -> (r: Result<Vec<Score>, ParserError>)
    ensures
        match (json_doc_of(page@), r) {
            (None, Err(e)) => e == ParserError::Malformed,
            (Some(doc), Ok(v)) => spec_scores_of(doc) == Ok::<Seq<ScoreV>, ParserError>(
                score_views(v@),
            ),
            (Some(doc), Err(e)) => spec_scores_of(doc) == Err::<Seq<ScoreV>, ParserError>(e),
            _ => false,
        },
{
    match parse_document(page) {
        None => Err(ParserError::Malformed),
        Some(doc) => scores_from_doc(&doc),
    }
}

/// The credit-weighted sum of the scores, in millionths.
pub open spec fn spec_weighted(s: Seq<ScoreV>) -> int
    decreases s.len(),
{
    if s.len() == 0 {
        0
    } else {
        spec_weighted(s.drop_last()) + s.last().score * s.last().credit
    }
}

/// The total credit, in thousandths.
pub open spec fn spec_total_credit(s: Seq<ScoreV>) -> int
    decreases s.len(),
{
    if s.len() == 0 {
        0
    } else {
        spec_total_credit(s.drop_last()) + s.last().credit
    }
}

/// A grade-point average as an exact rational: `num / den` is
/// `(sum of score*credit) / (sum of credit) / 10 - 5`, the institution's
/// fixed scale transform.
#[derive(Clone, Copy, Debug, PartialEq, Eq, Structural)]
pub struct Gpa {
    pub num: i128,
    pub den: i128,
}

/// Why a GPA cannot be formed: a zero total credit would divide by zero,
/// and is reported rather than producing an unchecked value.
#[derive(Clone, Copy, Debug, PartialEq, Eq, Structural)]
pub enum GpaError {
    NoCredit,
}

/// Computes `(sum of score*credit) / (sum of credit) / 10 - 5` exactly, as
/// the rational `num / den` with `num == weighted - 50000*total` and
/// `den == 10000*total` over the thousandths representation. A zero total
/// credit is an explicit error, never an unchecked division.
pub fn calculate_gpa(scores: Vec<Score>) -> (r: Result<Gpa, GpaError>)
    ensures
        ({
            let views = score_views(scores@);
            match r {
                Err(e) => spec_total_credit(views) == 0 && e == GpaError::NoCredit,
                Ok(g) => spec_total_credit(views) != 0 && g.num == spec_weighted(views) - 50000
                    * spec_total_credit(views) && g.den == 10000 * spec_total_credit(views),
            }
        }),
{
    let ghost views = score_views(scores@);
    let n = scores.len();
    let mut w: i128 = 0;
    let mut c: i128 = 0;
    let mut i: usize = 0;
    proof {
        assert(views.take(0) =~= Seq::<ScoreV>::empty());
    }
    while i < n
        invariant
            i <= n,
            n == scores@.len(),
            views == score_views(scores@),
            views.len() == n,
            w == spec_weighted(views.take(i as int)),
            c == spec_total_credit(views.take(i as int)),
            0 <= w <= (i as int) * 1000000000000000000,
            0 <= c <= (i as int) * 1000000000,
        decreases n - i,
    {
        let sm = scores[i].score.milli();
        let cm = scores[i].credit.milli();
        proof {
            assert((sm as int) * (cm as int) <= 1000000000000000000 && (sm as int) * (cm as int)
                >= 0) by (nonlinear_arith)
                requires
                    0 <= sm <= 999999999,
                    0 <= cm <= 999999999,
            ;
        }
        let prod: i128 = (sm as i128) * (cm as i128);
        proof {
            assert(views.take(i + 1).drop_last() =~= views.take(i as int));
            assert(views.take(i + 1).last() == views[i as int]);
            assert(views[i as int] == scores@[i as int]@);
        }
        w = w + prod;
        c = c + cm as i128;
        i += 1;
    }
    proof {
        assert(views.take(n as int) =~= views);
    }
    if c == 0 {
        Err(GpaError::NoCredit)
    } else {
        Ok(Gpa { num: w - 50000i128 * c, den: 10000i128 * c })
    }
}

} // verus!
