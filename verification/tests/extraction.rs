use ustc_get_grade::grade::{extract_grade, grade_eq, reconcile_grade};
use ustc_get_grade::Error;

fn one_sem_map() -> Vec<(u64, String)> {
    vec![(1, "2023\u{6625}".to_string())]
}

#[test]
fn concrete_scenario() {
    let all = r#"{"overview":{"gpa":3.5,"passedCredits":120}}"#;
    let filtered = r#"{"overview":{"gpa":3.8},"semesters":[{"id":1,"scores":[{"courseNameCh":"线性代数","scoreCh":"A","credits":4.0}]}]}"#;
    let g = extract_grade(all, filtered, &one_sem_map()).expect("well-formed payloads");
    assert_eq!(g.gpa, 3.5f64.to_bits());
    assert_eq!(g.sem_gpa, 3.8f64.to_bits());
    assert_eq!(g.credits, 120);
    assert_eq!(g.scores.len(), 1);
    assert_eq!(g.scores[0].0, "2023\u{6625}");
    assert_eq!(g.scores[0].1.len(), 1);
    assert_eq!(g.scores[0].1[0].0, "线性代数");
    assert_eq!(g.scores[0].1[0].1, "A");
    assert_eq!(g.scores[0].1[0].2, 4.0f64.to_bits());
}

#[test]
fn all_or_nothing_missing_credits() {
    let all = r#"{"overview":{"gpa":3.5,"passedCredits":120}}"#;
    // Two well-formed courses around one missing its credits: nothing comes back.
    let filtered = r#"{"overview":{"gpa":3.8},"semesters":[{"id":1,"scores":[
        {"courseNameCh":"数学分析","scoreCh":"A","credits":6.0},
        {"courseNameCh":"线性代数","scoreCh":"B"},
        {"courseNameCh":"大学物理","scoreCh":"A","credits":4.0}
    ]}]}"#;
    assert!(extract_grade(all, filtered, &one_sem_map()).is_none());
}

#[test]
fn all_or_nothing_mistyped_field() {
    let all = r#"{"overview":{"gpa":3.5,"passedCredits":120}}"#;
    let filtered = r#"{"overview":{"gpa":3.8},"semesters":[{"id":1,"scores":[
        {"courseNameCh":"线性代数","scoreCh":95,"credits":4.0}
    ]}]}"#;
    assert!(extract_grade(all, filtered, &one_sem_map()).is_none());
}

#[test]
fn id_unresolvable_fails_overall() {
    let all = r#"{"overview":{"gpa":3.5,"passedCredits":120}}"#;
    let filtered = r#"{"overview":{"gpa":3.8},"semesters":[
        {"id":1,"scores":[{"courseNameCh":"线性代数","scoreCh":"A","credits":4.0}]},
        {"id":2,"scores":[]}
    ]}"#;
    // id 2 is absent from the mapping: the whole extraction fails, the
    // well-formed semester with id 1 is not returned alone.
    assert!(extract_grade(all, filtered, &one_sem_map()).is_none());
}

#[test]
fn id_missing_fails_overall() {
    let all = r#"{"overview":{"gpa":3.5,"passedCredits":120}}"#;
    let filtered = r#"{"overview":{"gpa":3.8},"semesters":[{"scores":[]}]}"#;
    assert!(extract_grade(all, filtered, &one_sem_map()).is_none());
}

#[test]
fn field_separation() {
    // Deliberately different overview.gpa in the two payloads: gpa must come
    // from the unfiltered one, sem_gpa from the filtered one.
    let all = r#"{"overview":{"gpa":3.1,"passedCredits":80}}"#;
    let filtered = r#"{"overview":{"gpa":3.9},"semesters":[]}"#;
    let g = extract_grade(all, filtered, &one_sem_map()).expect("well-formed payloads");
    assert_eq!(g.gpa, 3.1f64.to_bits());
    assert_eq!(g.sem_gpa, 3.9f64.to_bits());
    assert_ne!(g.gpa, g.sem_gpa);
    assert_eq!(g.credits, 80);
    assert!(g.scores.is_empty());
}

#[test]
fn credits_must_be_unsigned_integer() {
    // passedCredits is an unsigned integer; a fractional value fails extraction.
    let all = r#"{"overview":{"gpa":3.5,"passedCredits":120.5}}"#;
    let filtered = r#"{"overview":{"gpa":3.8},"semesters":[]}"#;
    assert!(extract_grade(all, filtered, &one_sem_map()).is_none());

    // An integral credit value read as a double is fine for course credits.
    let all = r#"{"overview":{"gpa":3.5,"passedCredits":120}}"#;
    let filtered = r#"{"overview":{"gpa":3.8},"semesters":[{"id":1,"scores":[
        {"courseNameCh":"线性代数","scoreCh":"A","credits":4}
    ]}]}"#;
    let g = extract_grade(all, filtered, &one_sem_map()).expect("well-formed payloads");
    assert_eq!(g.scores[0].1[0].2, 4.0f64.to_bits());
}

#[test]
fn order_follows_filtered_payload() {
    let map: Vec<(u64, String)> = vec![(1, "S1".to_string()), (2, "S2".to_string())];
    let all = r#"{"overview":{"gpa":3.5,"passedCredits":120}}"#;
    // Semesters arrive as [S2, S1]; the snapshot must keep that order, not
    // the mapping's order.
    let filtered = r#"{"overview":{"gpa":3.8},"semesters":[
        {"id":2,"scores":[]},
        {"id":1,"scores":[]}
    ]}"#;
    let g = extract_grade(all, filtered, &map).expect("well-formed payloads");
    assert_eq!(g.scores.len(), 2);
    assert_eq!(g.scores[0].0, "S2");
    assert_eq!(g.scores[1].0, "S1");
}

#[test]
fn parse_failure_fails_extraction() {
    let good = r#"{"overview":{"gpa":3.5,"passedCredits":120}}"#;
    let filtered = r#"{"overview":{"gpa":3.8},"semesters":[]}"#;
    assert!(extract_grade("not json", filtered, &one_sem_map()).is_none());
    assert!(extract_grade(good, "{unterminated", &one_sem_map()).is_none());
    assert!(extract_grade(good, filtered, &one_sem_map()).is_some());
}

#[test]
fn missing_overview_fields_fail() {
    let filtered = r#"{"overview":{"gpa":3.8},"semesters":[]}"#;
    assert!(extract_grade(r#"{"overview":{"gpa":3.5}}"#, filtered, &one_sem_map()).is_none());
    assert!(extract_grade(r#"{"overview":{"passedCredits":120}}"#, filtered, &one_sem_map())
        .is_none());
    assert!(extract_grade(r#"{}"#, filtered, &one_sem_map()).is_none());
    let all = r#"{"overview":{"gpa":3.5,"passedCredits":120}}"#;
    assert!(extract_grade(all, r#"{"semesters":[]}"#, &one_sem_map()).is_none());
    assert!(extract_grade(all, r#"{"overview":{"gpa":3.8}}"#, &one_sem_map()).is_none());
}

#[test]
fn reconcile_reports_malformed() {
    let filtered = r#"{"overview":{"gpa":3.8},"semesters":[]}"#;
    match reconcile_grade("not json", filtered, &one_sem_map()) {
        Err(e) => assert!(matches!(e, Error::GradeMalformed)),
        Ok(_) => panic!("malformed payload must not reconcile"),
    }
    let all = r#"{"overview":{"gpa":3.5,"passedCredits":120}}"#;
    assert!(reconcile_grade(all, filtered, &one_sem_map()).is_ok());
}

#[test]
fn equality_and_idempotence() {
    let all = r#"{"overview":{"gpa":3.5,"passedCredits":120}}"#;
    let filtered = r#"{"overview":{"gpa":3.8},"semesters":[{"id":1,"scores":[{"courseNameCh":"线性代数","scoreCh":"A","credits":4.0}]}]}"#;
    let g1 = extract_grade(all, filtered, &one_sem_map()).expect("well-formed payloads");
    let g2 = extract_grade(all, filtered, &one_sem_map()).expect("well-formed payloads");
    assert!(grade_eq(&g1, &g2));
    assert!(g1 == g2);

    // A single changed score label flips the comparison.
    let changed = r#"{"overview":{"gpa":3.8},"semesters":[{"id":1,"scores":[{"courseNameCh":"线性代数","scoreCh":"B","credits":4.0}]}]}"#;
    let g3 = extract_grade(all, changed, &one_sem_map()).expect("well-formed payloads");
    assert!(!grade_eq(&g1, &g3));
    assert!(g1 != g3);
}

#[test]
fn comparator_sees_every_field() {
    let all_a = r#"{"overview":{"gpa":3.5,"passedCredits":120}}"#;
    let all_b = r#"{"overview":{"gpa":3.6,"passedCredits":120}}"#;
    let all_c = r#"{"overview":{"gpa":3.5,"passedCredits":121}}"#;
    let f_a = r#"{"overview":{"gpa":3.8},"semesters":[]}"#;
    let f_b = r#"{"overview":{"gpa":3.7},"semesters":[]}"#;
    let m = one_sem_map();
    let base = extract_grade(all_a, f_a, &m).unwrap();
    assert!(!grade_eq(&base, &extract_grade(all_b, f_a, &m).unwrap()));
    assert!(!grade_eq(&base, &extract_grade(all_c, f_a, &m).unwrap()));
    assert!(!grade_eq(&base, &extract_grade(all_a, f_b, &m).unwrap()));
    let f_sem = r#"{"overview":{"gpa":3.8},"semesters":[{"id":1,"scores":[]}]}"#;
    assert!(!grade_eq(&base, &extract_grade(all_a, f_sem, &m).unwrap()));
}
