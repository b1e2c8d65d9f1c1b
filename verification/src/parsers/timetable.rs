//! Timetable courses and the grouping of a course list by course name.

use vstd::prelude::*;
use vstd::string::StrSliceExecFns;
use vstd::string::StringExecFns;
use crate::json::{JsonNode, json_doc_of, parse_document, spec_as_array, spec_obj_get};
use crate::parsers::{ParserError, extract_str_fields, spec_str_or_empty};
use crate::text::str_eq;

verus! {

broadcast use {Seq::lemma_push_map_commute, Seq::lemma_map_take_succ};

/// The mathematical content of a [`Course`] record.
pub struct CourseV {
    pub course_name: Seq<char>,
    pub course_id: Seq<char>,
}

/// One timetable entry: the course's name and identifier.
#[derive(Debug)]
pub struct Course {
    pub course_name: String,
    pub course_id: String,
}

impl View for Course {
    type V = CourseV;

    open spec fn view(&self) -> CourseV {
        CourseV { course_name: self.course_name@, course_id: self.course_id@ }
    }
}

/// One name's group: the name and its courses, in original relative order.
pub type GroupV = (Seq<char>, Seq<CourseV>);

/// The views of an exec course list.
pub open spec fn course_views(cs: Seq<Course>) -> Seq<CourseV> {
    cs.map_values(|c: Course| c@)
}

/// Position of the first group named `name` at or after `from`.
pub open spec fn spec_group_index(groups: Seq<GroupV>, name: Seq<char>, from: int) -> Option<int>
    decreases groups.len() - from + 1,
{
    if from < 0 || from >= groups.len() {
        None
    } else if groups[from].0 == name {
        Some(from)
    } else {
        spec_group_index(groups, name, from + 1)
    }
}

/// The courses grouped under `name`, if any.
pub open spec fn spec_group_entry(groups: Seq<GroupV>, name: Seq<char>) -> Option<Seq<CourseV>> {
    match spec_group_index(groups, name, 0) {
        Some(i) => Some(groups[i].1),
        None => None,
    }
}

/// Files one course under its name: appended to its existing group, or
/// opening a new group at the end (first-seen order of distinct names).
pub open spec fn spec_group_insert(groups: Seq<GroupV>, c: CourseV) -> Seq<GroupV> {
    match spec_group_index(groups, c.course_name, 0) {
        Some(i) => groups.update(i, (groups[i].0, groups[i].1.push(c))),
        None => groups.push((c.course_name, seq![c])),
    }
}

/// The grouping of a course list: distinct names in first-seen order, each
/// group holding its courses in the list's original relative order.
pub open spec fn spec_group_by_name(courses: Seq<CourseV>) -> Seq<GroupV>
    decreases courses.len(),
{
    if courses.len() == 0 {
        Seq::empty()
    } else {
        spec_group_insert(spec_group_by_name(courses.drop_last()), courses.last())
    }
}

/// The views of an exec group list.
pub open spec fn spec_group_views(groups: Seq<(String, Vec<Course>)>) -> Seq<GroupV> {
    groups.map_values(|g: (String, Vec<Course>)| (g.0@, course_views(g.1@)))
}

/// Groups a course list by exact course name, preserving the first-seen
/// order of distinct names and, within each group, the original relative
/// order of the courses.
pub fn group_by_course_name(courses: Vec<Course>) -> (r: Vec<(String, Vec<Course>)>)
    ensures
        spec_group_views(r@) == spec_group_by_name(course_views(courses@)),
{
    let ghost all = course_views(courses@);
    let mut rest = courses;
    let mut groups: Vec<(String, Vec<Course>)> = Vec::new();
    let ghost mut done: Seq<CourseV> = Seq::empty();
    proof {
        assert(spec_group_views(groups@) =~= Seq::<GroupV>::empty());
        assert(done + course_views(rest@) =~= all);
    }
    while rest.len() > 0
        invariant
            done + course_views(rest@) == all,
            spec_group_views(groups@) == spec_group_by_name(done),
        decreases rest@.len(),
    {
        let ghost rest0 = rest@;
        let c = rest.remove(0);
        let ghost cv = c@;
        proof {
            assert(course_views(rest0).drop_first() =~= course_views(rest@));
            assert(done.push(cv) + course_views(rest@) =~= all);
            assert(done.push(cv).drop_last() =~= done);
        }
        let ghost groups0 = spec_group_views(groups@);
        match find_group(&groups, c.course_name.as_str()) {
            Some(i) => {
                let entry = &mut groups[i];
                entry.1.push(c);
                proof {
                    assert(spec_group_views(groups@) =~= groups0.update(
                        i as int,
                        (groups0[i as int].0, groups0[i as int].1.push(cv)),
                    ));
                }
            },
            None => {
                let name = c.course_name.clone();
                let mut list: Vec<Course> = Vec::new();
                list.push(c);
                groups.push((name, list));
                proof {
                    assert(course_views(list@) =~= seq![cv]);
                    assert(spec_group_views(groups@) =~= groups0.push((cv.course_name, seq![cv])));
                }
            },
        }
        proof {
            done = done.push(cv);
        }
    }
    proof {
        assert(course_views(rest@) =~= Seq::<CourseV>::empty());
        assert(done =~= all);
    }
    groups
}

/// The record read from one array element of a timetable list.
pub open spec fn spec_course_of(elem: JsonNode) -> CourseV {
    CourseV {
        course_name: spec_str_or_empty(spec_obj_get(elem, "kcmc"@)),
        course_id: spec_str_or_empty(spec_obj_get(elem, "kch"@)),
    }
}

/// The records of a list of array elements.
pub open spec fn spec_course_records(elems: Seq<JsonNode>) -> Seq<CourseV> {
    elems.map_values(|e: JsonNode| spec_course_of(e))
}

/// The timetable denoted by a document: the array under the `kbList`
/// envelope key, one course per element; an absent or non-array envelope
/// yields nothing.
pub open spec fn spec_courses_of(doc: JsonNode) -> Seq<CourseV> {
    match spec_obj_get(doc, "kbList"@) {
        Some(items) => match spec_as_array(items) {
            Some(elems) => spec_course_records(elems),
            None => Seq::empty(),
        },
        None => Seq::empty(),
    }
}

/// Builds one course record from one array element.
pub fn course_from_node(node: &JsonNode) -> (r: Course)
    ensures
        r@ == spec_course_of(*node),
{
    let keys: Vec<&str> = vec!["kcmc", "kch"];
    let fields = extract_str_fields(node, &keys);
    Course { course_name: fields[0].clone(), course_id: fields[1].clone() }
}

/// The records of a parsed timetable document.
pub fn courses_from_doc(doc: &JsonNode) -> (r: Vec<Course>)
    ensures
        course_views(r@) == spec_courses_of(*doc),
{
    let mut r: Vec<Course> = Vec::new();
    let items = match doc.get("kbList") {
        None => {
            proof {
                assert(course_views(r@) =~= spec_courses_of(*doc));
            }
            return r;
        },
        Some(items) => items,
    };
    match items.as_array() {
        None => {
            proof {
                assert(course_views(r@) =~= spec_courses_of(*doc));
            }
            r
        },
        Some(elems) => {
            let n = elems.len();
            let mut i: usize = 0;
            while i < n
                invariant
                    i <= n,
                    n == elems@.len(),
                    spec_obj_get(*doc, "kbList"@) == Some(*items),
                    spec_as_array(*items) == Some(elems@),
                    course_views(r@) =~= spec_course_records(elems@.take(i as int)),
                decreases n - i,
            {
                r.push(course_from_node(&elems[i]));
                proof {
                    assert(course_views(r@) =~= spec_course_records(elems@.take(i + 1)));
                }
                i += 1;
            }
            proof {
                assert(elems@.take(n as int) =~= elems@);
                assert(course_views(r@) =~= spec_courses_of(*doc));
            }
            r
        },
    }
}

/// Parses a timetable response body: `Malformed` when the body is not
/// JSON, the empty list when the `kbList` envelope is absent or not an
/// array.
pub fn parse_timetable_page(page: &str) -> (r: Result<Vec<Course>, ParserError>)
    ensures
        match (json_doc_of(page@), r) {
            (None, Err(e)) => e == ParserError::Malformed,
            (Some(doc), Ok(v)) => course_views(v@) == spec_courses_of(doc),
            _ => false,
        },
{
    match parse_document(page) {
        None => Err(ParserError::Malformed),
        Some(doc) => Ok(courses_from_doc(&doc)),
    }
}

/// The entrance-year query parameter of the suggested-course endpoint:
/// the caller's year when given, else derived from the class identifier —
/// `20` followed by the identifier's first two characters.
pub open spec fn spec_entrance_year_param(
    entrance_year: Option<Seq<char>>,
    class_id: Seq<char>,
) -> Seq<char> {
    match entrance_year {
        Some(y) => y,
        None => "20"@ + class_id.take(
            if class_id.len() < 2 {
                class_id.len() as int
            } else {
                2
            },
        ),
    }
}

/// Derives the entrance-year query parameter, as
/// `spec_entrance_year_param` states it.
pub fn entrance_year_param(entrance_year: Option<&str>, class_id: &str) -> (r: String)
    ensures
        r@ == spec_entrance_year_param(
            match entrance_year {
                Some(s) => Some(s@),
                None => None,
            },
            class_id@,
        ),
{
    match entrance_year {
        Some(x) => String::from_str(x),
        None => {
            let mut year = String::from_str("20");
            let len = class_id.unicode_len();
            let upto = if len < 2 {
                len
            } else {
                2
            };
            year.append(class_id.substring_char(0, upto));
            proof {
                assert(class_id@.subrange(0, upto as int) =~= class_id@.take(upto as int));
            }
            year
        },
    }
}

/// The courses of `name`, in their original relative order.
pub open spec fn spec_filter_name(courses: Seq<CourseV>, name: Seq<char>) -> Seq<CourseV>
    decreases courses.len(),
{
    if courses.len() == 0 {
        Seq::empty()
    } else {
        let rest = spec_filter_name(courses.drop_last(), name);
        if courses.last().course_name == name {
            rest.push(courses.last())
        } else {
            rest
        }
    }
}

/// A found group is in range and carries `name`.
proof fn lemma_group_index_some(groups: Seq<GroupV>, name: Seq<char>, from: int)
    ensures
        match spec_group_index(groups, name, from) {
            Some(i) => from <= i < groups.len() && groups[i].0 == name,
            None => true,
        },
    decreases groups.len() - from + 1,
{
    if 0 <= from < groups.len() && groups[from].0 != name {
        lemma_group_index_some(groups, name, from + 1);
    }
}

/// The first group of a name depends only on the group keys.
proof fn lemma_group_index_same_keys(g1: Seq<GroupV>, g2: Seq<GroupV>, name: Seq<char>, from: int)
    requires
        g1.len() == g2.len(),
        forall|k: int| 0 <= k < g1.len() ==> g1[k].0 == g2[k].0,
    ensures
        spec_group_index(g1, name, from) == spec_group_index(g2, name, from),
    decreases g1.len() - from + 1,
{
    if 0 <= from < g1.len() && g1[from].0 != name {
        lemma_group_index_same_keys(g1, g2, name, from + 1);
    }
}

/// Appending a group leaves earlier lookups alone; a name found nowhere
/// before is found at the appended group exactly when it carries it.
proof fn lemma_group_index_push(g: Seq<GroupV>, e: GroupV, name: Seq<char>, from: int)
    requires
        0 <= from <= g.len(),
    ensures
        spec_group_index(g.push(e), name, from) == match spec_group_index(g, name, from) {
            Some(i) => Some(i),
            None => if e.0 == name {
                Some(g.len() as int)
            } else {
                None::<int>
            },
        },
    decreases g.len() - from + 1,
{
    if from < g.len() {
        assert(g.push(e)[from] == g[from]);
        if g[from].0 != name {
            lemma_group_index_push(g, e, name, from + 1);
        }
    } else {
        assert(g.push(e)[from] == e);
        if e.0 != name {
            assert(spec_group_index(g.push(e), name, from + 1) is None);
        }
    }
}

/// The grouping law: for every name, the group under that name holds
/// exactly the courses of that name, in the input's original relative
/// order — and a name with no course has no group.
pub proof fn lemma_group_by_name_filter(courses: Seq<CourseV>, name: Seq<char>)
    ensures
        spec_group_entry(spec_group_by_name(courses), name) == (if spec_filter_name(
            courses,
            name,
        ).len() == 0 {
            None::<Seq<CourseV>>
        } else {
            Some(spec_filter_name(courses, name))
        }),
    decreases courses.len(),
{
    if courses.len() > 0 {
        let prefix = courses.drop_last();
        let c = courses.last();
        let g = spec_group_by_name(prefix);
        lemma_group_by_name_filter(prefix, name);
        lemma_group_by_name_filter(prefix, c.course_name);
        lemma_group_index_some(g, c.course_name, 0);
        lemma_group_index_some(g, name, 0);
        match spec_group_index(g, c.course_name, 0) {
            Some(j) => {
                let g2 = g.update(j, (g[j].0, g[j].1.push(c)));
                assert(forall|k: int| 0 <= k < g.len() ==> g[k].0 == g2[k].0);
                lemma_group_index_same_keys(g, g2, name, 0);
                lemma_group_index_some(g2, name, 0);
            },
            None => {
                lemma_group_index_push(g, (c.course_name, seq![c]), name, 0);
            },
        }
    }
}

/// Finds the group of `name`, as `spec_group_index` names it.
fn find_group(groups: &Vec<(String, Vec<Course>)>, name: &str) -> (r: Option<usize>)
    ensures
        match r {
            Some(i) => i < groups@.len() && spec_group_index(spec_group_views(groups@), name@, 0)
                == Some(i as int),
            None => spec_group_index(spec_group_views(groups@), name@, 0) is None,
        },
{
    let n = groups.len();
    let mut i: usize = 0;
    while i < n
        invariant
            i <= n,
            n == groups@.len(),
            spec_group_index(spec_group_views(groups@), name@, 0) == spec_group_index(
                spec_group_views(groups@),
                name@,
                i as int,
            ),
        decreases n - i,
    {
        if str_eq(groups[i].0.as_str(), name) {
            return Some(i);
        }
        i += 1;
    }
    None
}

} // verus!
