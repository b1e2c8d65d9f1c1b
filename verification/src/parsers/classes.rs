//! Majors and administrative classes, parsed from the portal's list
//! endpoints under the tolerant policy.

use vstd::prelude::*;
use crate::json::{JsonNode, json_doc_of, parse_document, spec_as_array, spec_obj_get};
use crate::parsers::{
    ParserError, extract_str_fields, spec_parse_year, spec_str_or_empty, year_or_zero,
};

verus! {

broadcast use {Seq::lemma_push_map_commute, Seq::lemma_map_take_succ};

/// The mathematical content of a [`Major`] record.
pub struct MajorV {
    pub entrance_year: int,
    pub entrance_year_raw: Seq<char>,
    pub id: Seq<char>,
    pub name: Seq<char>,
    pub inner_id: Seq<char>,
    pub direction_id: Seq<char>,
    pub direction: Seq<char>,
}

/// One major: the entrance year (derived from its raw text), the major's
/// code, name, internal identifier, and direction.
#[derive(Clone, Debug)]
pub struct Major {
    pub entrance_year: i32,
    pub entrance_year_raw: String,
    pub id: String,
    pub name: String,
    pub inner_id: String,
    pub direction_id: String,
    pub direction: String,
}

impl View for Major {
    type V = MajorV;

    open spec fn view(&self) -> MajorV {
        MajorV {
            entrance_year: self.entrance_year as int,
            entrance_year_raw: self.entrance_year_raw@,
            id: self.id@,
            name: self.name@,
            inner_id: self.inner_id@,
            direction_id: self.direction_id@,
            direction: self.direction@,
        }
    }
}

/// The record read from one array element, under the tolerant per-field
/// policy: a missing or non-string cell is the empty string, and the year
/// derivation degrades to zero rather than aborting the list.
pub open spec fn spec_major_of(elem: JsonNode) -> MajorV {
    let raw = spec_str_or_empty(spec_obj_get(elem, "njdm"@));
    MajorV {
        entrance_year: match spec_parse_year(raw) {
            Some(v) => v,
            None => 0,
        },
        entrance_year_raw: raw,
        id: spec_str_or_empty(spec_obj_get(elem, "zyh"@)),
        name: spec_str_or_empty(spec_obj_get(elem, "zymc"@)),
        inner_id: spec_str_or_empty(spec_obj_get(elem, "zyh_id"@)),
        direction_id: spec_str_or_empty(spec_obj_get(elem, "zyfx_id"@)),
        direction: spec_str_or_empty(spec_obj_get(elem, "zyfxmc"@)),
    }
}

/// The records of a list of array elements.
pub open spec fn spec_major_records(elems: Seq<JsonNode>) -> Seq<MajorV> {
    elems.map_values(|e: JsonNode| spec_major_of(e))
}

/// The views of an exec major list.
pub open spec fn major_views(ms: Seq<Major>) -> Seq<MajorV> {
    ms.map_values(|m: Major| m@)
}

/// The major list denoted by a document: one record per element when the
/// document is an array, nothing otherwise.
pub open spec fn spec_majors_of(doc: JsonNode) -> Seq<MajorV> {
    match spec_as_array(doc) {
        Some(elems) => spec_major_records(elems),
        None => Seq::empty(),
    }
}

/// Builds one major record from one array element.
pub fn major_from_node(node: &JsonNode) -> (r: Major)
    ensures
        r@ == spec_major_of(*node),
{
    let keys: Vec<&str> = vec!["njdm", "zyh", "zymc", "zyh_id", "zyfx_id", "zyfxmc"];
    let fields = extract_str_fields(node, &keys);
    let year = year_or_zero(fields[0].as_str());
    Major {
        entrance_year: year,
        entrance_year_raw: fields[0].clone(),
        id: fields[1].clone(),
        name: fields[2].clone(),
        inner_id: fields[3].clone(),
        direction_id: fields[4].clone(),
        direction: fields[5].clone(),
    }
}

/// The records of a parsed major-list document.
pub fn majors_from_doc(doc: &JsonNode) -> (r: Vec<Major>)
    ensures
        major_views(r@) == spec_majors_of(*doc),
{
    let mut r: Vec<Major> = Vec::new();
    match doc.as_array() {
        None => {
            proof {
                assert(major_views(r@) =~= spec_majors_of(*doc));
            }
            r
        },
        Some(items) => {
            let n = items.len();
            let mut i: usize = 0;
            while i < n
                invariant
                    i <= n,
                    n == items@.len(),
                    spec_as_array(*doc) == Some(items@),
                    major_views(r@) =~= spec_major_records(items@.take(i as int)),
                decreases n - i,
            {
                r.push(major_from_node(&items[i]));
                proof {
                    assert(major_views(r@) =~= spec_major_records(items@.take(i + 1)));
                }
                i += 1;
            }
            proof {
                assert(items@.take(n as int) =~= items@);
                assert(major_views(r@) =~= spec_majors_of(*doc));
            }
            r
        },
    }
}

/// Parses a major-list response body. A body that is not JSON at all is
/// `Malformed`; a JSON document that is not an array yields the empty list
/// (tolerant policy).
pub fn parse_major_list_page(page: &str) -> (r: Result<Vec<Major>, ParserError>)
    ensures
        match (json_doc_of(page@), r) {
            (None, Err(e)) => e == ParserError::Malformed,
            (Some(doc), Ok(v)) => major_views(v@) == spec_majors_of(doc),
            _ => false,
        },
{
    match parse_document(page) {
        None => Err(ParserError::Malformed),
        Some(doc) => Ok(majors_from_doc(&doc)),
    }
}

/// A major list of N array elements yields exactly N records, the i-th
/// built from the i-th element; and wherever the source year cell is a
/// plain year, the derived numeric year is that year's value.
pub proof fn lemma_major_list_complete(doc: JsonNode)
    requires
        spec_as_array(doc) is Some,
    ensures
        spec_majors_of(doc).len() == spec_as_array(doc)->Some_0.len(),
        forall|i: int|
            0 <= i < spec_majors_of(doc).len() ==> spec_majors_of(doc)[i] == spec_major_of(
                spec_as_array(doc)->Some_0[i],
            ),
        forall|i: int|
            0 <= i < spec_majors_of(doc).len() && spec_parse_year(
                spec_majors_of(doc)[i].entrance_year_raw,
            ) is Some ==> Some(spec_majors_of(doc)[i].entrance_year) == spec_parse_year(
                spec_majors_of(doc)[i].entrance_year_raw,
            ),
{
}

/// The mathematical content of a [`Class`] record.
pub struct ClassV {
    pub grade: Seq<char>,
    pub college: Seq<char>,
    pub major_name: Seq<char>,
    pub major_id: Seq<char>,
    pub class_id: Seq<char>,
}

/// One administrative class: grade, college, major and class identifiers.
#[derive(Clone, Debug)]
pub struct Class {
    pub grade: String,
    pub college: String,
    pub major_name: String,
    pub major_id: String,
    pub class_id: String,
}

impl View for Class {
    type V = ClassV;

    open spec fn view(&self) -> ClassV {
        ClassV {
            grade: self.grade@,
            college: self.college@,
            major_name: self.major_name@,
            major_id: self.major_id@,
            class_id: self.class_id@,
        }
    }
}

/// The record read from one array element of the class list.
pub open spec fn spec_class_of(elem: JsonNode) -> ClassV {
    ClassV {
        grade: spec_str_or_empty(spec_obj_get(elem, "njmc"@)),
        college: spec_str_or_empty(spec_obj_get(elem, "jgmc"@)),
        major_name: spec_str_or_empty(spec_obj_get(elem, "zymc"@)),
        major_id: spec_str_or_empty(spec_obj_get(elem, "zyh_id"@)),
        class_id: spec_str_or_empty(spec_obj_get(elem, "bh"@)),
    }
}

/// The records of a list of array elements.
pub open spec fn spec_class_records(elems: Seq<JsonNode>) -> Seq<ClassV> {
    elems.map_values(|e: JsonNode| spec_class_of(e))
}

/// The views of an exec class list.
pub open spec fn class_views(cs: Seq<Class>) -> Seq<ClassV> {
    cs.map_values(|c: Class| c@)
}

/// The class list denoted by a document: the array under the `items`
/// envelope key, one record per element; an absent or non-array envelope
/// yields nothing.
pub open spec fn spec_classes_of(doc: JsonNode) -> Seq<ClassV> {
    match spec_obj_get(doc, "items"@) {
        Some(items) => match spec_as_array(items) {
            Some(elems) => spec_class_records(elems),
            None => Seq::empty(),
        },
        None => Seq::empty(),
    }
}

/// Builds one class record from one array element.
pub fn class_from_node(node: &JsonNode) -> (r: Class)
    ensures
        r@ == spec_class_of(*node),
{
    let keys: Vec<&str> = vec!["njmc", "jgmc", "zymc", "zyh_id", "bh"];
    let fields = extract_str_fields(node, &keys);
    Class {
        grade: fields[0].clone(),
        college: fields[1].clone(),
        major_name: fields[2].clone(),
        major_id: fields[3].clone(),
        class_id: fields[4].clone(),
    }
}

/// The records of a parsed class-list document.
pub fn classes_from_doc(doc: &JsonNode) -> (r: Vec<Class>)
    ensures
        class_views(r@) == spec_classes_of(*doc),
{
    let mut r: Vec<Class> = Vec::new();
    let items = match doc.get("items") {
        None => {
            proof {
                assert(class_views(r@) =~= spec_classes_of(*doc));
            }
            return r;
        },
        Some(items) => items,
    };
    match items.as_array() {
        None => {
            proof {
                assert(class_views(r@) =~= spec_classes_of(*doc));
            }
            r
        },
        Some(elems) => {
            let n = elems.len();
            let mut i: usize = 0;
            while i < n
                invariant
                    i <= n,
                    n == elems@.len(),
                    spec_obj_get(*doc, "items"@) == Some(*items),
                    spec_as_array(*items) == Some(elems@),
                    class_views(r@) =~= spec_class_records(elems@.take(i as int)),
                decreases n - i,
            {
                r.push(class_from_node(&elems[i]));
                proof {
                    assert(class_views(r@) =~= spec_class_records(elems@.take(i + 1)));
                }
                i += 1;
            }
            proof {
                assert(elems@.take(n as int) =~= elems@);
                assert(class_views(r@) =~= spec_classes_of(*doc));
            }
            r
        },
    }
}

/// Parses a class-list response body: `Malformed` when the body is not
/// JSON, the empty list when the `items` envelope is absent or not an
/// array.
pub fn parse_class_list_page(page: &str) -> (r: Result<Vec<Class>, ParserError>)
    ensures
        match (json_doc_of(page@), r) {
            (None, Err(e)) => e == ParserError::Malformed,
            (Some(doc), Ok(v)) => class_views(v@) == spec_classes_of(doc),
            _ => false,
        },
{
    match parse_document(page) {
        None => Err(ParserError::Malformed),
        Some(doc) => Ok(classes_from_doc(&doc)),
    }
}

} // verus!
