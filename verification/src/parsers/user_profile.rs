//! The student profile, read from server-rendered HTML under the strict
//! all-or-nothing policy: a record is produced only when every one of the
//! eleven expected fields resolves.

use vstd::prelude::*;
use crate::html::{css_first_inner_html, select_inner_html};
use crate::parsers::ParserError;

verus! {

/// How many fields a profile has.
pub const PROFILE_FIELDS: usize = 11;

/// The mathematical content of a [`Profile`] record.
pub struct ProfileV {
    pub student_no: Seq<char>,
    pub name: Seq<char>,
    pub name_eng: Seq<char>,
    pub sex: Seq<char>,
    pub credential_type: Seq<char>,
    pub credential_id: Seq<char>,
    pub birth_date: Seq<char>,
    pub ethnicity: Seq<char>,
    pub hometown: Seq<char>,
    pub enrollment_date: Seq<char>,
    pub types: Seq<char>,
}

/// One student profile, each field the inner text of one fixed document
/// node.
#[derive(Clone, Debug)]
pub struct Profile {
    pub student_no: String,
    pub name: String,
    pub name_eng: String,
    pub sex: String,
    pub credential_type: String,
    pub credential_id: String,
    pub birth_date: String,
    pub ethnicity: String,
    pub hometown: String,
    pub enrollment_date: String,
    pub types: String,
}

impl View for Profile {
    type V = ProfileV;

    open spec fn view(&self) -> ProfileV {
        ProfileV {
            student_no: self.student_no@,
            name: self.name@,
            name_eng: self.name_eng@,
            sex: self.sex@,
            credential_type: self.credential_type@,
            credential_id: self.credential_id@,
            birth_date: self.birth_date@,
            ethnicity: self.ethnicity@,
            hometown: self.hometown@,
            enrollment_date: self.enrollment_date@,
            types: self.types@,
        }
    }
}

/// The fixed CSS selector of each profile field, in field order.
pub open spec fn spec_profile_selector(i: int) -> Seq<char> {
    if i == 0 {
        "#col_xh > p:nth-child(1)"@
    } else if i == 1 {
        "#col_xm > p:nth-child(1)"@
    } else if i == 2 {
        "#col_ywxm > p:nth-child(1)"@
    } else if i == 3 {
        "#col_xbm > p:nth-child(1)"@
    } else if i == 4 {
        "#col_zjlxm > p:nth-child(1)"@
    } else if i == 5 {
        "#col_zjhm > p:nth-child(1)"@
    } else if i == 6 {
        "#col_csrq > p:nth-child(1)"@
    } else if i == 7 {
        "#col_mzm > p:nth-child(1)"@
    } else if i == 8 {
        "#col_jg > p:nth-child(1)"@
    } else if i == 9 {
        "#col_rxrq > p:nth-child(1)"@
    } else {
        "#col_xslxdm > p:nth-child(1)"@
    }
}

/// The selector of field `i`.
pub fn profile_selector(i: usize) -> (r: &'static str)
    requires
        i < PROFILE_FIELDS,
    ensures
        r@ == spec_profile_selector(i as int),
{
    if i == 0 {
        "#col_xh > p:nth-child(1)"
    } else if i == 1 {
        "#col_xm > p:nth-child(1)"
    } else if i == 2 {
        "#col_ywxm > p:nth-child(1)"
    } else if i == 3 {
        "#col_xbm > p:nth-child(1)"
    } else if i == 4 {
        "#col_zjlxm > p:nth-child(1)"
    } else if i == 5 {
        "#col_zjhm > p:nth-child(1)"
    } else if i == 6 {
        "#col_csrq > p:nth-child(1)"
    } else if i == 7 {
        "#col_mzm > p:nth-child(1)"
    } else if i == 8 {
        "#col_jg > p:nth-child(1)"
    } else if i == 9 {
        "#col_rxrq > p:nth-child(1)"
    } else {
        "#col_xslxdm > p:nth-child(1)"
    }
}

/// The resolved text of profile field `i` in a document.
pub open spec fn spec_profile_field(doc: Seq<char>, i: int) -> Option<Seq<char>> {
    css_first_inner_html(doc, spec_profile_selector(i))
}

/// The views of a list of optionally-resolved field texts.
pub open spec fn spec_opt_views(vals: Seq<Option<String>>) -> Seq<Option<Seq<char>>> {
    vals.map_values(
        |o: Option<String>|
            match o {
                Some(s) => Some(s@),
                None => None,
            },
    )
}

/// The strict assembly policy: a profile exists only when exactly the
/// eleven expected field slots are present and every one resolved.
pub open spec fn spec_build_profile(vals: Seq<Option<Seq<char>>>) -> Option<ProfileV> {
    if vals.len() == PROFILE_FIELDS && (forall|i: int| 0 <= i < vals.len() ==> vals[i] is Some) {
        Some(
            ProfileV {
                student_no: vals[0]->Some_0,
                name: vals[1]->Some_0,
                name_eng: vals[2]->Some_0,
                sex: vals[3]->Some_0,
                credential_type: vals[4]->Some_0,
                credential_id: vals[5]->Some_0,
                birth_date: vals[6]->Some_0,
                ethnicity: vals[7]->Some_0,
                hometown: vals[8]->Some_0,
                enrollment_date: vals[9]->Some_0,
                types: vals[10]->Some_0,
            },
        )
    } else {
        None
    }
}

/// The profile denoted by a document: every field's node present, or
/// nothing.
pub open spec fn spec_profile_of(doc: Seq<char>) -> Option<ProfileV> {
    spec_build_profile(Seq::new(PROFILE_FIELDS as nat, |i: int| spec_profile_field(doc, i)))
}

/// Assembles a profile from the resolved field texts, in field order:
/// all eleven present, or `MissingField` — never a partially filled
/// record.
pub fn build_profile(vals: Vec<Option<String>>) -> (r: Result<Profile, ParserError>)
    ensures
        match (spec_build_profile(spec_opt_views(vals@)), r) {
            (Some(p), Ok(prof)) => prof@ == p,
            (None, Err(e)) => e == ParserError::MissingField,
            _ => false,
        },
{
    if vals.len() != PROFILE_FIELDS {
        return Err(ParserError::MissingField);
    }
    let mut texts: Vec<String> = Vec::new();
    let mut i: usize = 0;
    while i < PROFILE_FIELDS
        invariant
            i <= PROFILE_FIELDS,
            vals@.len() == PROFILE_FIELDS,
            texts@.len() == i,
            forall|j: int| 0 <= j < i ==> vals@[j] is Some,
            forall|j: int| 0 <= j < i ==> texts@[j]@ == vals@[j]->Some_0@,
        decreases PROFILE_FIELDS - i,
    {
        match &vals[i] {
            Some(s) => {
                texts.push(s.clone());
            },
            None => {
                proof {
                    assert(spec_opt_views(vals@)[i as int] is None);
                }
                return Err(ParserError::MissingField);
            },
        }
        i += 1;
    }
    let r = Profile {
        student_no: texts[0].clone(),
        name: texts[1].clone(),
        name_eng: texts[2].clone(),
        sex: texts[3].clone(),
        credential_type: texts[4].clone(),
        credential_id: texts[5].clone(),
        birth_date: texts[6].clone(),
        ethnicity: texts[7].clone(),
        hometown: texts[8].clone(),
        enrollment_date: texts[9].clone(),
        types: texts[10].clone(),
    };
    proof {
        assert(forall|j: int|
            0 <= j < PROFILE_FIELDS ==> spec_opt_views(vals@)[j] == Some(vals@[j]->Some_0@));
    }
    Ok(r)
}

/// Parses a profile page under the strict policy: the result is valid only
/// when every one of the eleven expected fields is present in the
/// document; otherwise `MissingField`.
pub fn parse_profile_page(text: &str) -> (r: Result<Profile, ParserError>)
    ensures
        match (spec_profile_of(text@), r) {
            (Some(p), Ok(prof)) => prof@ == p,
            (None, Err(e)) => e == ParserError::MissingField,
            _ => false,
        },
{
    let mut vals: Vec<Option<String>> = Vec::new();
    let mut i: usize = 0;
    while i < PROFILE_FIELDS
        invariant
            i <= PROFILE_FIELDS,
            vals@.len() == i,
            forall|j: int|
                0 <= j < i ==> spec_opt_views(vals@)[j] == spec_profile_field(text@, j),
        decreases PROFILE_FIELDS - i,
    {
        vals.push(select_inner_html(text, profile_selector(i)));
        i += 1;
    }
    proof {
        assert(spec_opt_views(vals@) =~= Seq::new(
            PROFILE_FIELDS as nat,
            |i: int| spec_profile_field(text@, i),
        ));
    }
    build_profile(vals)
}

} // verus!
