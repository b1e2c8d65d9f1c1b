//! The portal's fixed addresses and request constants.

use vstd::prelude::*;

verus! {

/// The portal's root address.
pub open spec fn spec_home_url() -> Seq<char> {
    "http://jwxt.sit.edu.cn"@
}

pub fn home_url() -> (r: &'static str)
    ensures
        r@ == spec_home_url(),
{
    "http://jwxt.sit.edu.cn"
}

/// The host under which session cookies are stored.
pub open spec fn spec_portal_host() -> Seq<char> {
    "jwxt.sit.edu.cn"@
}

pub fn portal_host() -> (r: &'static str)
    ensures
        r@ == spec_portal_host(),
{
    "jwxt.sit.edu.cn"
}

/// The login endpoint; a submission that resolves back to it was rejected.
pub open spec fn spec_login_url() -> Seq<char> {
    "http://jwxt.sit.edu.cn/jwglxt/xtgl/login_slogin.html"@
}

pub fn login_url() -> (r: &'static str)
    ensures
        r@ == spec_login_url(),
{
    "http://jwxt.sit.edu.cn/jwglxt/xtgl/login_slogin.html"
}

/// The endpoint issuing the RSA key material.
pub fn rsa_public_key_url() -> &'static str {
    "http://jwxt.sit.edu.cn/jwglxt/xtgl/login_getPublicKey.html"
}

/// The score-list endpoint.
pub fn score_list_url() -> &'static str {
    "http://jwxt.sit.edu.cn/jwglxt/cjcx/cjcx_cxDgXscj.html?doType=query&gnmkdm=N305005"
}

/// The timetable endpoint.
pub fn time_table_url() -> &'static str {
    "http://jwxt.sit.edu.cn/jwglxt/kbcx/xskbcx_cxXsKb.html?gnmkdm=N253508"
}

/// The profile endpoint.
pub fn profile_url() -> &'static str {
    "http://jwxt.sit.edu.cn/jwglxt/xsxxxggl/xsgrxxwh_cxXsgrxx.html?gnmkdm=N100801&layout=default"
}

/// The major-list endpoint.
pub fn major_list_url() -> &'static str {
    "http://jwxt.sit.edu.cn/jwglxt/xtgl/comm_cxZyfxList.html?gnmkdm=N214505"
}

/// The class-list endpoint.
pub fn class_list_url() -> &'static str {
    "http://jwxt.sit.edu.cn/jwglxt/xtgl/comm_cxBjdmList.html?gnmkdm=N214505"
}

/// The suggested-course (class timetable) endpoint.
pub fn suggested_course_url() -> &'static str {
    "http://jwxt.sit.edu.cn/jwglxt/kbdy/bjkbdy_cxBjKb.html?gnmkdm=N214505"
}

/// The course-selection endpoint.
pub fn avail_course_list_url() -> &'static str {
    "http://jwxt.sit.edu.cn/xsxk/zzxkyzb_cxZzxkYzbPartDisplay.html?gnmkdm=N253512"
}

/// The User-Agent presented to the portal.
pub fn user_agent() -> &'static str {
    "Mozilla/5.0 (Windows NT 10.0; Win64; x64) AppleWebKit/537.36 (KHTML, like Gecko) Chrome/87.0.4280.88 ' 'Safari/537.36 Edg/87.0.664.66"
}

} // verus!
