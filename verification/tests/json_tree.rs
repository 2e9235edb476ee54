use ustc_get_grade::grade::extract_grade;
use ustc_get_grade::json::parse_json;

#[test]
fn tree_navigation() {
    let v = parse_json(r#"{"k":[1,2.5,"x",true,null],"m":{"n":7}}"#).expect("valid JSON");
    let arr = v.get("k").expect("key k").arr_value().expect("an array");
    assert_eq!(arr.len(), 5);
    assert_eq!(arr[0].num_u64(), Some(1));
    assert_eq!(arr[0].num_bits(), Some(1.0f64.to_bits()));
    assert_eq!(arr[1].num_u64(), None);
    assert_eq!(arr[1].num_bits(), Some(2.5f64.to_bits()));
    assert_eq!(arr[2].str_value().map(|s| s.as_str()), Some("x"));
    assert_eq!(arr[2].num_bits(), None);
    assert_eq!(arr[3].bool_value(), Some(true));
    assert!(arr[4].num_u64().is_none() && arr[4].str_value().is_none());
    let n = v.get("m").expect("key m").get("n").expect("key n");
    assert_eq!(n.num_u64(), Some(7));
    assert!(v.get("absent").is_none());
    assert!(n.get("x").is_none());
}

#[test]
fn negative_numbers_have_no_unsigned_reading() {
    let v = parse_json(r#"{"a":-3}"#).expect("valid JSON");
    let a = v.get("a").expect("key a");
    assert_eq!(a.num_u64(), None);
    assert_eq!(a.num_bits(), Some((-3.0f64).to_bits()));
}

#[test]
fn parse_rejects_non_json() {
    assert!(parse_json("").is_none());
    assert!(parse_json("{\"a\":").is_none());
    assert!(parse_json("[1,2,]").is_none());
    assert!(parse_json("null").is_some());
}

#[test]
fn extraction_tolerates_unknown_fields() {
    // Extra fields anywhere in the payloads are ignored; only the fields the
    // snapshot needs decide.
    let all = r#"{"overview":{"gpa":3.5,"passedCredits":120,"extra":"y"},"other":[]}"#;
    let filtered = r#"{"overview":{"gpa":3.8,"note":null},"semesters":[
        {"id":1,"unknown":{},"scores":[
            {"courseNameCh":"线性代数","scoreCh":"A","credits":4.0,"rank":5}
        ]}
    ],"trailer":7}"#;
    let m = vec![(1, "S1".to_string())];
    let g = extract_grade(all, filtered, &m).expect("well-formed payloads");
    assert_eq!(g.credits, 120);
    assert_eq!(g.scores[0].1[0].0, "线性代数");
}
