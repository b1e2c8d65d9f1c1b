use jwxt_client::decimal::Decimal;
use jwxt_client::parsers::classes::{parse_class_list_page, parse_major_list_page};
use jwxt_client::parsers::score::{calculate_gpa, parse_score_list_page, GpaError, Score};
use jwxt_client::parsers::timetable::{
    entrance_year_param, group_by_course_name, parse_timetable_page, Course,
};
use jwxt_client::parsers::{ParserError, SchoolYear, Semester};
use jwxt_client::text::u64_to_string;

#[test]
fn test_parse_major_list_page() {
    let page = r#"
[{
	"jgpxzd": "1",
	"listnav": "false",
	"localeKey": "zh_CN",
	"njdm": "2018",
	"njdm_id": "2018",
	"njmc": "2018",
	"pageable": true,
	"queryModel": {
		"currentPage": 1,
		"currentResult": 0,
		"entityOrField": false,
		"limit": 15,
		"offset": 0,
		"pageNo": 0,
		"pageSize": 15,
		"showCount": 10,
		"sorts": [],
		"totalCount": 0,
		"totalPage": 0,
		"totalResult": 0
	},
	"rangeable": true,
	"totalResult": "0",
	"userModel": {
		"monitor": false,
		"roleCount": 0,
		"roleKeys": "",
		"roleValues": "",
		"status": 0,
		"usable": false
	},
	"zyfx_id": "2018Y240101",
	"zyfxdm": "2018Y240101",
	"zyfxmc": "本科预科班",
	"zyh": "Y2401",
	"zyh_id": "Y2401",
	"zymc": "本科预科班"
}, {
	"jgpxzd": "1",
	"listnav": "false",
	"localeKey": "zh_CN",
	"njdm": "2018",
	"njdm_id": "2018",
	"njmc": "2018",
	"pageable": true,
	"queryModel": {
		"currentPage": 1,
		"currentResult": 0,
		"entityOrField": false,
		"limit": 15,
		"offset": 0,
		"pageNo": 0,
		"pageSize": 15,
		"showCount": 10,
		"sorts": [],
		"totalCount": 0,
		"totalPage": 0,
		"totalResult": 0
	},
	"rangeable": true,
	"totalResult": "0",
	"userModel": {
		"monitor": false,
		"roleCount": 0,
		"roleKeys": "",
		"roleValues": "",
		"status": 0,
		"usable": false
	},
	"zyfx_id": "2018B210000",
	"zyfxdm": "2018B210000",
	"zyfxmc": "人文学院大类(公共管理类、社会学类)",
	"zyh": "B2100",
	"zyh_id": "B2100",
	"zymc": "人文学院大类"
}]"#;

    let parsed_major_list = parse_major_list_page(page);
    println!("{:#?}", parsed_major_list);
    let majors = parsed_major_list.unwrap();
    assert_eq!(majors.len(), 2);
    assert_eq!(majors[0].entrance_year, 2018);
    assert_eq!(majors[0].entrance_year_raw, "2018");
    assert_eq!(majors[0].id, "Y2401");
    assert_eq!(majors[0].name, "本科预科班");
    assert_eq!(majors[1].id, "B2100");
    assert_eq!(majors[1].direction, "人文学院大类(公共管理类、社会学类)");
}

#[test]
fn major_list_yields_one_record_per_entry_with_derived_year() {
    let page = r#"[
        {"njdm":"2019","zyh":"A1","zymc":"m1","zyh_id":"i1","zyfx_id":"d1","zyfxmc":"n1"},
        {"njdm":"2020","zyh":"A2","zymc":"m2","zyh_id":"i2","zyfx_id":"d2","zyfxmc":"n2"},
        {"njdm":"2021","zyh":"A3","zymc":"m3","zyh_id":"i3","zyfx_id":"d3","zyfxmc":"n3"}
    ]"#;
    let majors = parse_major_list_page(page).unwrap();
    assert_eq!(majors.len(), 3);
    for (major, year) in majors.iter().zip([2019, 2020, 2021]) {
        assert_eq!(major.entrance_year, year);
        assert_eq!(major.entrance_year_raw.parse::<i32>().unwrap(), year);
    }
}

#[test]
fn major_list_malformed_year_degrades_to_zero() {
    let page = r#"[{"njdm":"20xy","zyh":"A","zymc":"m","zyh_id":"i","zyfx_id":"d","zyfxmc":"n"}]"#;
    let majors = parse_major_list_page(page).unwrap();
    assert_eq!(majors[0].entrance_year, 0);
    assert_eq!(majors[0].entrance_year_raw, "20xy");
}

#[test]
fn major_list_non_array_document_is_empty() {
    assert_eq!(parse_major_list_page("{}").unwrap().len(), 0);
    assert_eq!(parse_major_list_page("\"text\"").unwrap().len(), 0);
}

#[test]
fn major_list_invalid_json_is_malformed() {
    assert_eq!(
        parse_major_list_page("not json").unwrap_err(),
        ParserError::Malformed
    );
}

#[test]
fn class_list_reads_items_envelope() {
    let page = r#"{"items":[
        {"njmc":"2018","jgmc":"College","zymc":"Major","zyh_id":"Z1","bh":"B101"}
    ]}"#;
    let classes = parse_class_list_page(page).unwrap();
    assert_eq!(classes.len(), 1);
    assert_eq!(classes[0].grade, "2018");
    assert_eq!(classes[0].college, "College");
    assert_eq!(classes[0].major_name, "Major");
    assert_eq!(classes[0].major_id, "Z1");
    assert_eq!(classes[0].class_id, "B101");
}

#[test]
fn score_list_malformed_credit_degrades_to_zero() {
    let page = r#"{"items":[
        {"kcmc":"Math","kch":"K1","jxb_id":"J1","xnmmc":"2020-2021","xqm":"3","cj":90,"xf":"abc"},
        {"kcmc":"Physics","kch":"K2","jxb_id":"J2","xnmmc":"2020-2021","xqm":"3","cj":"85","xf":"2.5"}
    ]}"#;
    let scores = parse_score_list_page(page).unwrap();
    assert_eq!(scores.len(), 2);
    assert_eq!(scores[0].credit.milli(), 0);
    assert_eq!(scores[0].score.milli(), 90_000);
    assert_eq!(scores[1].credit.milli(), 2_500);
    assert_eq!(scores[1].score.milli(), 85_000);
    assert_eq!(scores[1].course, "Physics");
}

#[test]
fn score_list_unknown_semester_code_propagates() {
    let page = r#"{"items":[{"kcmc":"Math","xqm":"99"}]}"#;
    assert_eq!(
        parse_score_list_page(page).unwrap_err(),
        ParserError::SemesterError
    );
}

#[test]
fn score_list_missing_envelope_is_empty() {
    assert_eq!(parse_score_list_page("{}").unwrap().len(), 0);
    assert_eq!(
        parse_score_list_page(r#"{"items":"none"}"#).unwrap().len(),
        0
    );
}

#[test]
fn score_list_invalid_json_is_malformed() {
    assert_eq!(
        parse_score_list_page("<html>").unwrap_err(),
        ParserError::Malformed
    );
}

fn score(points_milli: u32, credit_milli: u32) -> Score {
    Score {
        score: Decimal::from_milli(points_milli),
        course: "c".to_string(),
        course_id: "id".to_string(),
        class_id: "cl".to_string(),
        school_year: "y".to_string(),
        semester: Semester::All,
        credit: Decimal::from_milli(credit_milli),
    }
}

#[test]
fn gpa_reproduces_the_fixed_scale_transform() {
    // (80*2 + 90*1) / 3 / 10 - 5 = 250/30 - 5 = 10/3
    let gpa = calculate_gpa(vec![score(80_000, 2_000), score(90_000, 1_000)]).unwrap();
    assert_eq!(gpa.num, 100_000_000);
    assert_eq!(gpa.den, 30_000_000);
    let value = gpa.num as f64 / gpa.den as f64;
    assert!((value - (250.0 / 3.0 / 10.0 - 5.0)).abs() < 1e-12);
}

#[test]
fn gpa_zero_total_credit_is_an_explicit_error() {
    assert_eq!(calculate_gpa(vec![]).unwrap_err(), GpaError::NoCredit);
    assert_eq!(
        calculate_gpa(vec![score(80_000, 0)]).unwrap_err(),
        GpaError::NoCredit
    );
}

fn course(name: &str, id: &str) -> Course {
    Course {
        course_name: name.to_string(),
        course_id: id.to_string(),
    }
}

#[test]
fn grouping_keeps_first_seen_and_relative_order() {
    let groups = group_by_course_name(vec![
        course("A", "A1"),
        course("B", "B1"),
        course("A", "A2"),
    ]);
    assert_eq!(groups.len(), 2);
    assert_eq!(groups[0].0, "A");
    assert_eq!(groups[0].1.len(), 2);
    assert_eq!(groups[0].1[0].course_id, "A1");
    assert_eq!(groups[0].1[1].course_id, "A2");
    assert_eq!(groups[1].0, "B");
    assert_eq!(groups[1].1.len(), 1);
    assert_eq!(groups[1].1[0].course_id, "B1");
}

#[test]
fn timetable_reads_kb_list_envelope() {
    let page = r#"{"kbList":[
        {"kcmc":"Calculus","kch":"C1"},
        {"kcmc":"Calculus","kch":"C2"},
        {"kcmc":"History","kch":"H1"}
    ]}"#;
    let courses = parse_timetable_page(page).unwrap();
    assert_eq!(courses.len(), 3);
    assert_eq!(courses[0].course_name, "Calculus");
    assert_eq!(courses[2].course_id, "H1");
    let groups = group_by_course_name(courses);
    assert_eq!(groups.len(), 2);
    assert_eq!(groups[0].1.len(), 2);
    assert_eq!(parse_timetable_page("{}").unwrap().len(), 0);
    assert_eq!(
        parse_timetable_page("oops").unwrap_err(),
        ParserError::Malformed
    );
}

#[test]
fn semester_raw_codes_round_trip() {
    for sem in [
        Semester::All,
        Semester::FirstTerm,
        Semester::SecondTerm,
        Semester::MidTerm,
    ] {
        assert_eq!(Semester::from_raw(sem.to_raw()).unwrap(), sem);
    }
    assert_eq!(Semester::FirstTerm.to_raw(), "3");
    assert_eq!(Semester::SecondTerm.to_raw(), "12");
    assert_eq!(Semester::MidTerm.to_raw(), "16");
    assert_eq!(Semester::All.to_raw(), "");
    assert_eq!(
        Semester::from_raw("99").unwrap_err(),
        ParserError::SemesterError
    );
}

#[test]
fn school_year_renders_as_query_text() {
    assert_eq!(SchoolYear::new(2021), SchoolYear::SomeYear(2021));
    assert_eq!(SchoolYear::SomeYear(2021).to_string(), "2021");
    assert_eq!(SchoolYear::AllYear.to_string(), "");
    assert_eq!(SchoolYear::SomeYear(-7).to_string(), "-7");
    assert_eq!(SchoolYear::SomeYear(0).to_string(), "0");
}

#[test]
fn decimal_grammar() {
    assert_eq!(Decimal::parse("80").unwrap().milli(), 80_000);
    assert_eq!(Decimal::parse("4.5").unwrap().milli(), 4_500);
    assert_eq!(Decimal::parse("0.125").unwrap().milli(), 125);
    assert_eq!(Decimal::parse("999999.999").unwrap().milli(), 999_999_999);
    assert!(Decimal::parse("abc").is_none());
    assert!(Decimal::parse("").is_none());
    assert!(Decimal::parse("-1").is_none());
    assert!(Decimal::parse("1.2345").is_none());
    assert!(Decimal::parse("1234567").is_none());
    assert_eq!(Decimal::parse_or_zero("abc").milli(), 0);
}

#[test]
fn entrance_year_parameter_falls_back_to_the_class_id() {
    assert_eq!(entrance_year_param(Some("2018"), "1905101"), "2018");
    assert_eq!(entrance_year_param(None, "1905101"), "2019");
    assert_eq!(entrance_year_param(None, "7"), "207");
    assert_eq!(entrance_year_param(None, ""), "20");
}

#[test]
fn digits_render() {
    assert_eq!(u64_to_string(0), "0");
    assert_eq!(u64_to_string(7), "7");
    assert_eq!(u64_to_string(1234567890), "1234567890");
}
