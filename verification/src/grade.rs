//! The `Grade` snapshot and the all-or-nothing extraction that builds it.
//!
//! Extraction is a pure function from the two payload texts and the id-to-name
//! mapping to either a complete snapshot or a single malformed signal. Every
//! field access is fallible, and any failure anywhere fails the whole
//! extraction: a report with silently dropped courses would be worse than an
//! explicit failure.

use vstd::prelude::*;

use crate::error::Error;
use crate::json::{
    JVal, jget, jget_arr, jget_bits, jget_str, jget_u64, json_of, parse_json,
};

verus! {

/// Courses of one semester as `(name, score label, credit)` triples; the
/// credit is a double held by its IEEE-754 bit pattern.
pub type SemesterGrade = Vec<(String, String, u64)>;

/// One grade snapshot. The two GPAs and each credit value are doubles held by
/// their IEEE-754 bit patterns; `credits` is the count of credits passed.
pub struct Grade {
    /// Overall GPA, from the unfiltered query.
    pub gpa: u64,
    /// GPA over the selected semesters, from the filtered query.
    pub sem_gpa: u64,
    /// All the credits earned, from the unfiltered query.
    pub credits: u64,
    /// Scores of the selected semesters, in the order the filtered payload
    /// lists them.
    pub scores: Vec<(String, SemesterGrade)>,
}

/// Mathematical model of a `Grade`.
pub ghost struct GradeView {
    pub gpa: u64,
    pub sem_gpa: u64,
    pub credits: u64,
    pub scores: Seq<(Seq<char>, Seq<(Seq<char>, Seq<char>, u64)>)>,
}

/// Model of one course triple.
pub open spec fn course_view(c: (String, String, u64)) -> (Seq<char>, Seq<char>, u64) {
    (c.0@, c.1@, c.2)
}

/// Model of a semester's course list.
pub open spec fn courses_seq_view(cs: Seq<(String, String, u64)>) -> Seq<
    (Seq<char>, Seq<char>, u64),
> {
    Seq::new(cs.len(), |i: int| course_view(cs[i]))
}

/// Model of the `scores` sequence.
pub open spec fn scores_seq_view(ss: Seq<(String, SemesterGrade)>) -> Seq<
    (Seq<char>, Seq<(Seq<char>, Seq<char>, u64)>),
> {
    Seq::new(ss.len(), |i: int| (ss[i].0@, courses_seq_view(ss[i].1@)))
}

impl View for Grade {
    type V = GradeView;

    open spec fn view(&self) -> GradeView {
        GradeView {
            gpa: self.gpa,
            sem_gpa: self.sem_gpa,
            credits: self.credits,
            scores: scores_seq_view(self.scores@),
        }
    }
}

/// Model of the id-to-name mapping, an ordered list of pairs.
pub open spec fn id_map_view(m: Seq<(u64, String)>) -> Seq<(u64, Seq<char>)> {
    Seq::new(m.len(), |i: int| (m[i].0, m[i].1@))
}

/// Name bound to `id` in the mapping: the first match, if any.
pub open spec fn name_of_id(m: Seq<(u64, Seq<char>)>, id: u64) -> Option<Seq<char>>
    decreases m.len(),
{
    if m.len() == 0 {
        None
    } else if m[0].0 == id {
        Some(m[0].1)
    } else {
        name_of_id(m.drop_first(), id)
    }
}

/// What one course entry yields: its three fields, or nothing if any is
/// missing or of the wrong type.
pub open spec fn spec_course(v: JVal) -> Option<(Seq<char>, Seq<char>, u64)> {
    match (jget_str(v, "courseNameCh"@), jget_str(v, "scoreCh"@), jget_bits(v, "credits"@)) {
        (Some(name), Some(label), Some(credit)) => Some((name, label, credit)),
        _ => None,
    }
}

/// Every entry of a `scores` array is a complete course.
pub open spec fn all_courses_ok(items: Seq<JVal>) -> bool {
    forall|i: int| 0 <= i < items.len() ==> spec_course(#[trigger] items[i]) is Some
}

/// The course triples of a `scores` array, in order, assuming all are complete.
pub open spec fn courses_view(items: Seq<JVal>) -> Seq<(Seq<char>, Seq<char>, u64)> {
    Seq::new(items.len(), |i: int| spec_course(items[i]).unwrap())
}

/// What a `scores` array yields: all its courses, or nothing if any is
/// incomplete.
pub open spec fn spec_courses(items: Seq<JVal>) -> Option<Seq<(Seq<char>, Seq<char>, u64)>> {
    if all_courses_ok(items) {
        Some(courses_view(items))
    } else {
        None
    }
}

/// What one semester entry yields: its name resolved through the mapping and
/// its complete course list, or nothing on any failure.
pub open spec fn spec_semester(v: JVal, m: Seq<(u64, Seq<char>)>) -> Option<
    (Seq<char>, Seq<(Seq<char>, Seq<char>, u64)>),
> {
    match jget_u64(v, "id"@) {
        Some(id) => match name_of_id(m, id) {
            Some(name) => match jget_arr(v, "scores"@) {
                Some(items) => match spec_courses(items) {
                    Some(cs) => Some((name, cs)),
                    None => None,
                },
                None => None,
            },
            None => None,
        },
        None => None,
    }
}

/// Every entry of the `semesters` array resolves and is complete.
pub open spec fn all_semesters_ok(items: Seq<JVal>, m: Seq<(u64, Seq<char>)>) -> bool {
    forall|i: int| 0 <= i < items.len() ==> spec_semester(#[trigger] items[i], m) is Some
}

/// The semesters' scores, in the order the array lists them, assuming all
/// resolve.
pub open spec fn semesters_view(items: Seq<JVal>, m: Seq<(u64, Seq<char>)>) -> Seq<
    (Seq<char>, Seq<(Seq<char>, Seq<char>, u64)>),
> {
    Seq::new(items.len(), |i: int| spec_semester(items[i], m).unwrap())
}

/// What the `semesters` array yields: all of them, or nothing if any fails.
pub open spec fn spec_semesters(items: Seq<JVal>, m: Seq<(u64, Seq<char>)>) -> Option<
    Seq<(Seq<char>, Seq<(Seq<char>, Seq<char>, u64)>)>,
> {
    if all_semesters_ok(items, m) {
        Some(semesters_view(items, m))
    } else {
        None
    }
}

/// What the two parsed payload trees yield. `gpa` and `credits` come from the
/// unfiltered tree's overview alone; `sem_gpa` from the filtered tree's
/// overview alone; `scores` from the filtered tree's `semesters` array, each
/// id resolved through the mapping.
pub open spec fn grade_of_trees(all: JVal, sem: JVal, m: Seq<(u64, Seq<char>)>) -> Option<
    GradeView,
> {
    match jget(all, "overview"@) {
        Some(ov) => match (jget_bits(ov, "gpa"@), jget_u64(ov, "passedCredits"@)) {
            (Some(gpa), Some(credits)) => match jget(sem, "overview"@) {
                Some(sov) => match jget_bits(sov, "gpa"@) {
                    Some(sem_gpa) => match jget_arr(sem, "semesters"@) {
                        Some(items) => match spec_semesters(items, m) {
                            Some(ss) => Some(GradeView { gpa, sem_gpa, credits, scores: ss }),
                            None => None,
                        },
                        None => None,
                    },
                    None => None,
                },
                None => None,
            },
            _ => None,
        },
        None => None,
    }
}

/// What the two payload texts yield: both must parse as JSON, then the trees
/// decide.
pub open spec fn grade_of_payloads(all: Seq<char>, sem: Seq<char>, m: Seq<(u64, Seq<char>)>) -> Option<
    GradeView,
> {
    match (json_of(all), json_of(sem)) {
        (Some(a), Some(s)) => grade_of_trees(a, s, m),
        _ => None,
    }
}

/// Model of an extraction result.
pub open spec fn grade_view_of(r: Option<Grade>) -> Option<GradeView> {
    match r {
        Some(g) => Some(g@),
        None => None,
    }
}

/// Name bound to `id` in the mapping, as `name_of_id` says.
pub fn lookup_name(m: &Vec<(u64, String)>, id: u64) -> (r: Option<String>)
    ensures
        name_of_id(id_map_view(m@), id) == (match r {
            Some(s) => Some(s@),
            None => None::<Seq<char>>,
        }),
{
    let ghost mv = id_map_view(m@);
    let mut i: usize = 0;
    proof {
        assert(mv.subrange(0, mv.len() as int) =~= mv);
    }
    while i < m.len()
        invariant
            i <= m@.len(),
            mv == id_map_view(m@),
            name_of_id(mv, id) == name_of_id(mv.subrange(i as int, mv.len() as int), id),
        decreases m@.len() - i,
    {
        proof {
            assert(mv.subrange(i as int, mv.len() as int)[0] == mv[i as int]);
        }
        if m[i].0 == id {
            return Some(m[i].1.clone());
        }
        proof {
            assert(mv.subrange(i as int, mv.len() as int).drop_first() =~= mv.subrange(
                i + 1,
                mv.len() as int,
            ));
        }
        i += 1;
    }
    None
}

/// All courses of one `scores` array, or `None` as soon as any single course
/// entry is incomplete: no partial course list ever comes back.
pub fn extract_courses(items: &Vec<JVal>) -> (r: Option<SemesterGrade>)
    ensures
        spec_courses(items@) == (match r {
            Some(cs) => Some(courses_seq_view(cs@)),
            None => None::<Seq<(Seq<char>, Seq<char>, u64)>>,
        }),
{
    let mut out: SemesterGrade = Vec::new();
    let mut i: usize = 0;
    while i < items.len()
        invariant
            i <= items@.len(),
            out@.len() == i,
            forall|j: int| 0 <= j < i ==> spec_course(#[trigger] items@[j]) is Some,
            forall|j: int|
                0 <= j < i ==> course_view(#[trigger] out@[j]) == spec_course(
                    items@[j],
                ).unwrap(),
        decreases items@.len() - i,
    {
        let it = &items[i];
        let name = match it.get("courseNameCh") {
            Some(w) => match w.str_value() {
                Some(s) => s.clone(),
                None => {
                    proof {
                        assert(spec_course(items@[i as int]) is None);
                    }
                    return None;
                },
            },
            None => {
                proof {
                    assert(spec_course(items@[i as int]) is None);
                }
                return None;
            },
        };
        let label = match it.get("scoreCh") {
            Some(w) => match w.str_value() {
                Some(s) => s.clone(),
                None => {
                    proof {
                        assert(spec_course(items@[i as int]) is None);
                    }
                    return None;
                },
            },
            None => {
                proof {
                    assert(spec_course(items@[i as int]) is None);
                }
                return None;
            },
        };
        let credit = match it.get("credits") {
            Some(w) => match w.num_bits() {
                Some(b) => b,
                None => {
                    proof {
                        assert(spec_course(items@[i as int]) is None);
                    }
                    return None;
                },
            },
            None => {
                proof {
                    assert(spec_course(items@[i as int]) is None);
                }
                return None;
            },
        };
        proof {
            assert(spec_course(items@[i as int]) == Some((name@, label@, credit)));
        }
        out.push((name, label, credit));
        i += 1;
    }
    proof {
        assert(all_courses_ok(items@));
        assert(courses_seq_view(out@) =~= courses_view(items@));
    }
    Some(out)
}

/// One semester entry: its id resolved to a name through the mapping and its
/// complete course list; `None` if the id is missing, unresolvable, or any
/// course is incomplete.
pub fn extract_semester(v: &JVal, sem_map: &Vec<(u64, String)>) -> (r: Option<
    (String, SemesterGrade),
>)
    ensures
        spec_semester(*v, id_map_view(sem_map@)) == (match r {
            Some(p) => Some((p.0@, courses_seq_view(p.1@))),
            None => None::<(Seq<char>, Seq<(Seq<char>, Seq<char>, u64)>)>,
        }),
{
    let id = match v.get("id") {
        Some(w) => match w.num_u64() {
            Some(x) => x,
            None => {
                return None;
            },
        },
        None => {
            return None;
        },
    };
    let name = match lookup_name(sem_map, id) {
        Some(s) => s,
        None => {
            return None;
        },
    };
    let items = match v.get("scores") {
        Some(w) => match w.arr_value() {
            Some(a) => a,
            None => {
                return None;
            },
        },
        None => {
            return None;
        },
    };
    let courses = match extract_courses(items) {
        Some(cs) => cs,
        None => {
            return None;
        },
    };
    Some((name, courses))
}

/// The whole extraction over two parsed trees, as `grade_of_trees` says:
/// a complete snapshot or nothing.
pub fn extract_grade_trees(all: &JVal, sem: &JVal, sem_map: &Vec<(u64, String)>) -> (r: Option<
    Grade,
>)
    ensures
        grade_view_of(r) == grade_of_trees(*all, *sem, id_map_view(sem_map@)),
{
    let ghost m = id_map_view(sem_map@);
    let ov = match all.get("overview") {
        Some(w) => w,
        None => {
            return None;
        },
    };
    let gpa = match ov.get("gpa") {
        Some(w) => match w.num_bits() {
            Some(b) => b,
            None => {
                return None;
            },
        },
        None => {
            return None;
        },
    };
    let sem_gpa = match sem.get("overview") {
        Some(sov) => match sov.get("gpa") {
            Some(w) => match w.num_bits() {
                Some(b) => b,
                None => {
                    return None;
                },
            },
            None => {
                return None;
            },
        },
        None => {
            return None;
        },
    };
    let credits = match ov.get("passedCredits") {
        Some(w) => match w.num_u64() {
            Some(c) => c,
            None => {
                return None;
            },
        },
        None => {
            return None;
        },
    };
    let items = match sem.get("semesters") {
        Some(w) => match w.arr_value() {
            Some(a) => a,
            None => {
                return None;
            },
        },
        None => {
            return None;
        },
    };
    let mut scores: Vec<(String, SemesterGrade)> = Vec::new();
    let mut i: usize = 0;
    while i < items.len()
        invariant
            i <= items@.len(),
            scores@.len() == i,
            m == id_map_view(sem_map@),
            grade_of_trees(*all, *sem, m) == (match spec_semesters(items@, m) {
                Some(ss) => Some(GradeView { gpa, sem_gpa, credits, scores: ss }),
                None => None::<GradeView>,
            }),
            forall|j: int| 0 <= j < i ==> spec_semester(#[trigger] items@[j], m) is Some,
            forall|j: int|
                0 <= j < i ==> spec_semester(#[trigger] items@[j], m) == Some(
                    (scores@[j].0@, courses_seq_view(scores@[j].1@)),
                ),
        decreases items@.len() - i,
    {
        let entry = match extract_semester(&items[i], sem_map) {
            Some(p) => p,
            None => {
                proof {
                    assert(spec_semester(items@[i as int], m) is None);
                }
                return None;
            },
        };
        scores.push(entry);
        i += 1;
    }
    proof {
        assert(all_semesters_ok(items@, m));
        assert(scores_seq_view(scores@) =~= semesters_view(items@, m));
    }
    Some(Grade { gpa, sem_gpa, credits, scores })
}

/// The whole extraction over the two raw payload texts and the id-to-name
/// mapping, as `grade_of_payloads` says: parse both texts, then read the
/// trees, all or nothing.
pub fn extract_grade(all: &str, sem: &str, sem_map: &Vec<(u64, String)>) -> (r: Option<Grade>)
    ensures
        grade_view_of(r) == grade_of_payloads(all@, sem@, id_map_view(sem_map@)),
{
    let a = match parse_json(all) {
        Some(v) => v,
        None => {
            return None;
        },
    };
    let s = match parse_json(sem) {
        Some(v) => v,
        None => {
            return None;
        },
    };
    extract_grade_trees(&a, &s, sem_map)
}

/// The reconciliation step the pipeline ends with: extract, and turn the
/// single malformed signal into the pipeline's error. `Ok` exactly when both
/// payloads parse and every field the snapshot needs is present and
/// well-typed.
pub fn reconcile_grade(all: &str, sem: &str, sem_map: &Vec<(u64, String)>) -> (r: Result<
    Grade,
    Error,
>)
    ensures
        match r {
            Ok(g) => grade_of_payloads(all@, sem@, id_map_view(sem_map@)) == Some(g@),
            Err(e) => grade_of_payloads(all@, sem@, id_map_view(sem_map@)) is None && e
                == Error::GradeMalformed,
        },
{
    match extract_grade(all, sem, sem_map) {
        Some(g) => Ok(g),
        None => Err(Error::GradeMalformed),
    }
}

/// Course lists compare equal exactly when their models do.
fn courses_eq(a: &SemesterGrade, b: &SemesterGrade) -> (r: bool)
    ensures
        r == (courses_seq_view(a@) == courses_seq_view(b@)),
{
    if a.len() != b.len() {
        proof {
            assert(courses_seq_view(a@).len() != courses_seq_view(b@).len());
        }
        return false;
    }
    let mut i: usize = 0;
    while i < a.len()
        invariant
            i <= a@.len(),
            a@.len() == b@.len(),
            forall|j: int|
                0 <= j < i ==> course_view(#[trigger] a@[j]) == course_view(b@[j]),
        decreases a@.len() - i,
    {
        let ca = &a[i];
        let cb = &b[i];
        if !(ca.0 == cb.0) || !(ca.1 == cb.1) || ca.2 != cb.2 {
            proof {
                assert(courses_seq_view(a@)[i as int] != courses_seq_view(b@)[i as int]);
            }
            return false;
        }
        i += 1;
    }
    proof {
        assert(courses_seq_view(a@) =~= courses_seq_view(b@));
    }
    true
}

/// Structural comparison of two snapshots: equal exactly when all four fields
/// are, including the order of `scores` and of each course list. This is the
/// sole trigger the caller's polling loop uses to decide whether to notify.
pub fn grade_eq(a: &Grade, b: &Grade) -> (r: bool)
    ensures
        r == (a@ == b@),
{
    if a.gpa != b.gpa || a.sem_gpa != b.sem_gpa || a.credits != b.credits {
        return false;
    }
    if a.scores.len() != b.scores.len() {
        proof {
            assert(a@.scores.len() != b@.scores.len());
        }
        return false;
    }
    let mut i: usize = 0;
    while i < a.scores.len()
        invariant
            i <= a.scores@.len(),
            a.scores@.len() == b.scores@.len(),
            forall|j: int|
                0 <= j < i ==> scores_seq_view(a.scores@)[j] == scores_seq_view(b.scores@)[j],
        decreases a.scores@.len() - i,
    {
        let pa = &a.scores[i];
        let pb = &b.scores[i];
        if !(pa.0 == pb.0) {
            proof {
                assert(a@.scores[i as int] != b@.scores[i as int]);
            }
            return false;
        }
        if !courses_eq(&pa.1, &pb.1) {
            proof {
                assert(a@.scores[i as int] != b@.scores[i as int]);
            }
            return false;
        }
        i += 1;
    }
    proof {
        assert(a@.scores =~= b@.scores);
    }
    true
}

impl PartialEq for Grade {
    fn eq(&self, o: &Grade) -> (r: bool) {
        grade_eq(self, o)
    }
}

impl vstd::std_specs::cmp::PartialEqSpecImpl for Grade {
    open spec fn obeys_eq_spec() -> bool {
        true
    }

    open spec fn eq_spec(&self, o: &Grade) -> bool {
        self@ == o@
    }
}

/// All-or-nothing extraction: if any single course entry of any semester in
/// the filtered tree is incomplete, the whole extraction fails; no snapshot
/// carrying the other, well-formed courses ever comes back.
pub proof fn lemma_all_or_nothing(all: JVal, sem: JVal, m: Seq<(u64, Seq<char>)>, i: int, j: int)
    requires
        jget_arr(sem, "semesters"@) is Some,
        0 <= i < jget_arr(sem, "semesters"@).unwrap().len(),
        jget_arr(jget_arr(sem, "semesters"@).unwrap()[i], "scores"@) is Some,
        0 <= j < jget_arr(jget_arr(sem, "semesters"@).unwrap()[i], "scores"@).unwrap().len(),
        spec_course(jget_arr(jget_arr(sem, "semesters"@).unwrap()[i], "scores"@).unwrap()[j])
            is None,
    ensures
        grade_of_trees(all, sem, m) is None,
{
    let items = jget_arr(sem, "semesters"@).unwrap();
    let scores = jget_arr(items[i], "scores"@).unwrap();
    assert(!all_courses_ok(scores));
    assert(spec_semester(items[i], m) is None);
    assert(!all_semesters_ok(items, m));
}

/// Id resolution: if any semester entry of the filtered tree has no id, or an
/// id absent from the supplied mapping, the whole extraction fails rather than
/// silently dropping the entry.
pub proof fn lemma_id_resolution(all: JVal, sem: JVal, m: Seq<(u64, Seq<char>)>, i: int)
    requires
        jget_arr(sem, "semesters"@) is Some,
        0 <= i < jget_arr(sem, "semesters"@).unwrap().len(),
        match jget_u64(jget_arr(sem, "semesters"@).unwrap()[i], "id"@) {
            Some(id) => name_of_id(m, id) is None,
            None => true,
        },
    ensures
        grade_of_trees(all, sem, m) is None,
{
    let items = jget_arr(sem, "semesters"@).unwrap();
    assert(spec_semester(items[i], m) is None);
    assert(!all_semesters_ok(items, m));
}

/// Field separation, unfiltered side: `gpa` and `credits` come from the
/// unfiltered tree alone; exchanging the filtered payload or the mapping
/// cannot change them.
pub proof fn lemma_gpa_credits_from_unfiltered(
    all: JVal,
    sem1: JVal,
    sem2: JVal,
    m1: Seq<(u64, Seq<char>)>,
    m2: Seq<(u64, Seq<char>)>,
    g1: GradeView,
    g2: GradeView,
)
    requires
        grade_of_trees(all, sem1, m1) == Some(g1),
        grade_of_trees(all, sem2, m2) == Some(g2),
    ensures
        g1.gpa == g2.gpa,
        g1.credits == g2.credits,
{
}

/// Field separation, filtered side: `sem_gpa` and `scores` come from the
/// filtered tree and the mapping alone; exchanging the unfiltered payload
/// cannot change them.
pub proof fn lemma_sem_gpa_from_filtered(
    all1: JVal,
    all2: JVal,
    sem: JVal,
    m: Seq<(u64, Seq<char>)>,
    g1: GradeView,
    g2: GradeView,
)
    requires
        grade_of_trees(all1, sem, m) == Some(g1),
        grade_of_trees(all2, sem, m) == Some(g2),
    ensures
        g1.sem_gpa == g2.sem_gpa,
        g1.scores == g2.scores,
{
}

/// Order preservation: a successful extraction has one `scores` entry per
/// entry of the filtered tree's `semesters` array, in exactly that order —
/// not in catalog order.
pub proof fn lemma_order_preserved(all: JVal, sem: JVal, m: Seq<(u64, Seq<char>)>, g: GradeView)
    requires
        grade_of_trees(all, sem, m) == Some(g),
    ensures
        jget_arr(sem, "semesters"@) is Some,
        g.scores.len() == jget_arr(sem, "semesters"@).unwrap().len(),
        forall|i: int|
            0 <= i < g.scores.len() ==> #[trigger] g.scores[i] == spec_semester(
                jget_arr(sem, "semesters"@).unwrap()[i],
                m,
            ).unwrap(),
{
}

/// Extraction is a function of the two payload texts and the mapping: the
/// same inputs yield the same snapshot, so parsing twice and comparing
/// reports "unchanged".
pub proof fn lemma_extraction_deterministic(
    all: Seq<char>,
    sem: Seq<char>,
    m: Seq<(u64, Seq<char>)>,
    r1: Option<GradeView>,
    r2: Option<GradeView>,
)
    requires
        r1 == grade_of_payloads(all, sem, m),
        r2 == grade_of_payloads(all, sem, m),
    ensures
        r1 == r2,
{
}

} // verus!
