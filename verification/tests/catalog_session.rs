use ustc_get_grade::catalog::{parse_semesters, resolve_semester_ids, semester_id_map};
use ustc_get_grade::session::{check_login, contains_substr, grade_query, login_form};
use ustc_get_grade::Error;

const CATALOG: &str = r#"[
    {"id":221,"nameZh":"2023春","nameEn":"Spring 2023","schoolYear":"2022-2023","current":false},
    {"id":241,"nameZh":"2023秋","nameEn":"Fall 2023","schoolYear":"2023-2024","current":false},
    {"id":261,"nameZh":"2024春","nameEn":"Spring 2024","schoolYear":"2023-2024","current":true}
]"#;

#[test]
fn catalog_parses() {
    let cs = parse_semesters(CATALOG).expect("well-formed catalog");
    assert_eq!(cs.len(), 3);
    assert_eq!(cs[0].id, 221);
    assert_eq!(cs[0].name_zh, "2023春");
    assert_eq!(cs[0].name_en, "Spring 2023");
    assert_eq!(cs[0].school_year, "2022-2023");
    assert!(!cs[0].current);
    assert!(cs[2].current);
}

#[test]
fn catalog_shape_failures() {
    // Not an array.
    assert!(parse_semesters(r#"{"id":1}"#).is_none());
    // Not JSON at all.
    assert!(parse_semesters("nope").is_none());
    // One entry missing a field fails the whole catalog.
    let missing = r#"[
        {"id":221,"nameZh":"2023春","nameEn":"Spring 2023","schoolYear":"2022-2023","current":false},
        {"id":241,"nameZh":"2023秋","nameEn":"Fall 2023","schoolYear":"2023-2024"}
    ]"#;
    assert!(parse_semesters(missing).is_none());
    // A mistyped field fails too.
    let mistyped = r#"[{"id":"221","nameZh":"2023春","nameEn":"Spring 2023","schoolYear":"2022-2023","current":false}]"#;
    assert!(parse_semesters(mistyped).is_none());
}

#[test]
fn id_map_keeps_catalog_order() {
    let cs = parse_semesters(CATALOG).unwrap();
    let m = semester_id_map(&cs);
    assert_eq!(
        m,
        vec![
            (221, "2023春".to_string()),
            (241, "2023秋".to_string()),
            (261, "2024春".to_string())
        ]
    );
}

#[test]
fn resolve_keeps_catalog_order_and_joins() {
    let cs = parse_semesters(CATALOG).unwrap();
    // The caller's order does not matter; catalog order is kept.
    let selected = vec!["2024春".to_string(), "2023春".to_string()];
    assert_eq!(resolve_semester_ids(&cs, &selected), "221,261");
    // A single match: no separator.
    let one = vec!["2023秋".to_string()];
    assert_eq!(resolve_semester_ids(&cs, &one), "241");
    // No match, or nothing selected: empty filter, meaning "all semesters".
    let none: Vec<String> = vec!["2019春".to_string()];
    assert_eq!(resolve_semester_ids(&cs, &none), "");
    let empty: Vec<String> = Vec::new();
    assert_eq!(resolve_semester_ids(&cs, &empty), "");
}

#[test]
fn resolve_renders_large_ids() {
    let catalog = r#"[{"id":18446744073709551615,"nameZh":"X","nameEn":"X","schoolYear":"Y","current":false}]"#;
    let cs = parse_semesters(catalog).unwrap();
    let sel = vec!["X".to_string()];
    assert_eq!(resolve_semester_ids(&cs, &sel), "18446744073709551615");
}

#[test]
fn login_gate() {
    // The final URL decides: only a destination containing /home is success.
    assert!(check_login("https://jw.ustc.edu.cn/home").is_ok());
    assert!(check_login("https://jw.ustc.edu.cn/home?x=1").is_ok());
    match check_login("https://passport.ustc.edu.cn/login?service=jw") {
        Err(e) => {
            assert!(matches!(e, Error::JWLoginFailed));
            assert_eq!(e.message(), "Jiaowu login failed");
        },
        Ok(()) => panic!("login succeeded on a wrong redirect target"),
    }
}

#[test]
fn substring_search() {
    assert!(contains_substr("abc/home/def", "/home"));
    assert!(contains_substr("/home", "/home"));
    assert!(!contains_substr("/hom", "/home"));
    assert!(!contains_substr("", "/home"));
    assert!(contains_substr("anything", ""));
    assert!(!contains_substr("/hxome", "/home"));
}

#[test]
fn login_form_fields() {
    let form = login_form("u123", "p456");
    let expected: Vec<(String, String)> = vec![
        ("model".to_string(), "uplogin.jsp".to_string()),
        (
            "service".to_string(),
            "https://jw.ustc.edu.cn/ucas-sso/login".to_string(),
        ),
        ("warn".to_string(), "".to_string()),
        ("showCode".to_string(), "".to_string()),
        ("username".to_string(), "u123".to_string()),
        ("password".to_string(), "p456".to_string()),
        ("button".to_string(), "".to_string()),
    ];
    assert_eq!(form, expected);
}

#[test]
fn grade_query_parameters() {
    assert_eq!(
        grade_query(""),
        vec![
            ("trainTypeId".to_string(), "1".to_string()),
            ("semesterIds".to_string(), "".to_string())
        ]
    );
    assert_eq!(
        grade_query("221,261"),
        vec![
            ("trainTypeId".to_string(), "1".to_string()),
            ("semesterIds".to_string(), "221,261".to_string())
        ]
    );
}

#[test]
fn error_messages() {
    assert_eq!(Error::JWLoginFailed.message(), "Jiaowu login failed");
    assert_eq!(Error::GradeMalformed.message(), "Grade is malformed");
    assert_eq!(
        Error::ReqwestError("connection refused".to_string()).message(),
        "ReqwestError: connection refused"
    );
}
