//! The semester catalog: parsing the catalog payload, the id-to-name mapping
//! built from it, and the comma-joined id filter for the grade query.
//!
//! The catalog is fetched once per pipeline run and held only long enough to
//! build the mapping and the filter; the filter keeps catalog order and takes
//! exactly the entries whose display name the caller selected.

use vstd::prelude::*;

use crate::grade::id_map_view;
use crate::json::{jarr, jbool, jget_bool, jget_str, jget_u64, json_of, parse_json, JVal};

verus! {

/// One entry of the semester catalog, as the upstream schema lists it.
pub struct SemesterInfo {
    /// Numeric id, the join key of the grade payloads.
    pub id: u64,
    /// Localized display name; the caller selects semesters by it.
    pub name_zh: String,
    /// English display name, part of the schema but unused by extraction.
    pub name_en: String,
    /// School-year label.
    pub school_year: String,
    /// Whether upstream designates this the current semester.
    pub current: bool,
}

/// Mathematical model of a catalog entry.
pub ghost struct SemesterInfoView {
    pub id: u64,
    pub name_zh: Seq<char>,
    pub name_en: Seq<char>,
    pub school_year: Seq<char>,
    pub current: bool,
}

impl View for SemesterInfo {
    type V = SemesterInfoView;

    open spec fn view(&self) -> SemesterInfoView {
        SemesterInfoView {
            id: self.id,
            name_zh: self.name_zh@,
            name_en: self.name_en@,
            school_year: self.school_year@,
            current: self.current,
        }
    }
}

/// Model of a catalog.
pub open spec fn catalog_seq_view(cs: Seq<SemesterInfo>) -> Seq<SemesterInfoView> {
    Seq::new(cs.len(), |i: int| cs[i]@)
}

/// What one catalog entry yields: all five fields present and well-typed, or
/// nothing.
pub open spec fn spec_semester_info(v: JVal) -> Option<SemesterInfoView> {
    match (
        jget_u64(v, "id"@),
        jget_str(v, "nameZh"@),
        jget_str(v, "nameEn"@),
        jget_str(v, "schoolYear"@),
        jget_bool(v, "current"@),
    ) {
        (Some(id), Some(nz), Some(ne), Some(sy), Some(cur)) => Some(
            SemesterInfoView { id, name_zh: nz, name_en: ne, school_year: sy, current: cur },
        ),
        _ => None,
    }
}

/// Every element of the catalog array is a well-formed entry.
pub open spec fn all_infos_ok(items: Seq<JVal>) -> bool {
    forall|i: int| 0 <= i < items.len() ==> spec_semester_info(#[trigger] items[i]) is Some
}

/// The catalog entries, in array order, assuming all are well-formed.
pub open spec fn infos_view(items: Seq<JVal>) -> Seq<SemesterInfoView> {
    Seq::new(items.len(), |i: int| spec_semester_info(items[i]).unwrap())
}

/// What the catalog payload yields: a JSON array of well-formed entries, or
/// nothing on any parse or shape failure.
pub open spec fn catalog_of(s: Seq<char>) -> Option<Seq<SemesterInfoView>> {
    match json_of(s) {
        Some(v) => match jarr(v) {
            Some(items) => if all_infos_ok(items) {
                Some(infos_view(items))
            } else {
                None
            },
            None => None,
        },
        None => None,
    }
}

/// Parse the catalog payload into its entries, as `catalog_of` says: the whole
/// array or nothing.
pub fn parse_semesters(s: &str) -> (r: Option<Vec<SemesterInfo>>)
    ensures
        catalog_of(s@) == (match r {
            Some(cs) => Some(catalog_seq_view(cs@)),
            None => None::<Seq<SemesterInfoView>>,
        }),
{
    let v = match parse_json(s) {
        Some(v) => v,
        None => {
            return None;
        },
    };
    let items = match v.arr_value() {
        Some(a) => a,
        None => {
            return None;
        },
    };
    let mut out: Vec<SemesterInfo> = Vec::new();
    let mut i: usize = 0;
    while i < items.len()
        invariant
            i <= items@.len(),
            out@.len() == i,
            catalog_of(s@) == (if all_infos_ok(items@) {
                Some(infos_view(items@))
            } else {
                None::<Seq<SemesterInfoView>>
            }),
            forall|j: int| 0 <= j < i ==> spec_semester_info(#[trigger] items@[j]) is Some,
            forall|j: int|
                0 <= j < i ==> spec_semester_info(#[trigger] items@[j]) == Some(out@[j]@),
        decreases items@.len() - i,
    {
        let it = &items[i];
        let id = match it.get("id") {
            Some(w) => match w.num_u64() {
                Some(x) => x,
                None => {
                    proof {
                        assert(spec_semester_info(items@[i as int]) is None);
                    }
                    return None;
                },
            },
            None => {
                proof {
                    assert(spec_semester_info(items@[i as int]) is None);
                }
                return None;
            },
        };
        let name_zh = match it.get("nameZh") {
            Some(w) => match w.str_value() {
                Some(x) => x.clone(),
                None => {
                    proof {
                        assert(spec_semester_info(items@[i as int]) is None);
                    }
                    return None;
                },
            },
            None => {
                proof {
                    assert(spec_semester_info(items@[i as int]) is None);
                }
                return None;
            },
        };
        let name_en = match it.get("nameEn") {
            Some(w) => match w.str_value() {
                Some(x) => x.clone(),
                None => {
                    proof {
                        assert(spec_semester_info(items@[i as int]) is None);
                    }
                    return None;
                },
            },
            None => {
                proof {
                    assert(spec_semester_info(items@[i as int]) is None);
                }
                return None;
            },
        };
        let school_year = match it.get("schoolYear") {
            Some(w) => match w.str_value() {
                Some(x) => x.clone(),
                None => {
                    proof {
                        assert(spec_semester_info(items@[i as int]) is None);
                    }
                    return None;
                },
            },
            None => {
                proof {
                    assert(spec_semester_info(items@[i as int]) is None);
                }
                return None;
            },
        };
        let current = match it.get("current") {
            Some(w) => match w.bool_value() {
                Some(x) => x,
                None => {
                    proof {
                        assert(spec_semester_info(items@[i as int]) is None);
                    }
                    return None;
                },
            },
            None => {
                proof {
                    assert(spec_semester_info(items@[i as int]) is None);
                }
                return None;
            },
        };
        out.push(SemesterInfo { id, name_zh, name_en, school_year, current });
        i += 1;
    }
    proof {
        assert(all_infos_ok(items@));
        assert(catalog_seq_view(out@) =~= infos_view(items@));
    }
    Some(out)
}

/// Model of the id-to-name mapping a catalog induces: each entry's id bound to
/// its localized name, in catalog order.
pub open spec fn spec_id_map(cat: Seq<SemesterInfoView>) -> Seq<(u64, Seq<char>)> {
    Seq::new(cat.len(), |i: int| (cat[i].id, cat[i].name_zh))
}

/// The id-to-name mapping of a catalog, as `spec_id_map` says.
pub fn semester_id_map(catalog: &Vec<SemesterInfo>) -> (r: Vec<(u64, String)>)
    ensures
        id_map_view(r@) == spec_id_map(catalog_seq_view(catalog@)),
{
    let mut out: Vec<(u64, String)> = Vec::new();
    let mut i: usize = 0;
    while i < catalog.len()
        invariant
            i <= catalog@.len(),
            out@.len() == i,
            forall|j: int|
                0 <= j < i ==> (#[trigger] out@[j]).0 == catalog@[j].id && out@[j].1@
                    == catalog@[j].name_zh@,
        decreases catalog@.len() - i,
    {
        let c = &catalog[i];
        out.push((c.id, c.name_zh.clone()));
        i += 1;
    }
    proof {
        assert(id_map_view(out@) =~= spec_id_map(catalog_seq_view(catalog@)));
    }
    out
}

/// Model of a list of display names.
pub open spec fn strings_view(ss: Seq<String>) -> Seq<Seq<char>> {
    Seq::new(ss.len(), |i: int| ss[i]@)
}

/// Whether a display name is among the selected ones.
pub open spec fn name_selected(sel: Seq<Seq<char>>, name: Seq<char>) -> bool {
    exists|i: int| 0 <= i < sel.len() && sel[i] == name
}

/// The ids of the catalog entries whose localized name is selected, in
/// catalog order.
pub open spec fn selected_ids(cat: Seq<SemesterInfoView>, sel: Seq<Seq<char>>) -> Seq<u64>
    decreases cat.len(),
{
    if cat.len() == 0 {
        Seq::empty()
    } else {
        let rest = selected_ids(cat.drop_last(), sel);
        if name_selected(sel, cat.last().name_zh) {
            rest.push(cat.last().id)
        } else {
            rest
        }
    }
}

/// The decimal digit characters.
pub open spec fn dec_digit(d: u64) -> char {
    if d == 0 {
        '0'
    } else if d == 1 {
        '1'
    } else if d == 2 {
        '2'
    } else if d == 3 {
        '3'
    } else if d == 4 {
        '4'
    } else if d == 5 {
        '5'
    } else if d == 6 {
        '6'
    } else if d == 7 {
        '7'
    } else if d == 8 {
        '8'
    } else {
        '9'
    }
}

/// The decimal digit string of a number: no sign, no leading zeros.
pub open spec fn dec_digits(n: u64) -> Seq<char>
    decreases n,
{
    if n < 10 {
        seq![dec_digit(n)]
    } else {
        dec_digits(n / 10).push(dec_digit(n % 10))
    }
}

/// Relies on `u64`'s `Display` formatting (through `ToString`): the decimal
/// digit string of the value, no sign, no leading zeros.
#[verifier::external_body]
fn u64_to_string(n: u64) -> (r: String)
    ensures
        r@ == dec_digits(n),
{
    n.to_string()
}

/// The ids joined with commas: empty for none, no trailing separator.
pub open spec fn joined_ids(ids: Seq<u64>) -> Seq<char>
    decreases ids.len(),
{
    if ids.len() == 0 {
        Seq::empty()
    } else if ids.len() == 1 {
        dec_digits(ids[0])
    } else {
        joined_ids(ids.drop_last()) + ","@ + dec_digits(ids.last())
    }
}

/// Comma-join a list of ids, as `joined_ids` says.
fn join_ids(ids: &Vec<u64>) -> (r: String)
    ensures
        r@ == joined_ids(ids@),
{
    let mut out = String::new();
    let mut i: usize = 0;
    while i < ids.len()
        invariant
            i <= ids@.len(),
            out@ == joined_ids(ids@.subrange(0, i as int)),
        decreases ids@.len() - i,
    {
        if i > 0 {
            out.append(",");
        }
        let d = u64_to_string(ids[i]);
        out.append(d.as_str());
        proof {
            let pre = ids@.subrange(0, i as int);
            let cur = ids@.subrange(0, i + 1);
            assert(cur.drop_last() =~= pre);
            assert(cur.last() == ids@[i as int]);
            assert(out@ =~= joined_ids(cur));
        }
        i += 1;
    }
    proof {
        assert(ids@.subrange(0, ids@.len() as int) =~= ids@);
    }
    out
}

/// Whether `name` occurs among the selected display names, as `name_selected`
/// says.
fn contains_name(selected: &Vec<String>, name: &String) -> (r: bool)
    ensures
        r == name_selected(strings_view(selected@), name@),
{
    let mut i: usize = 0;
    while i < selected.len()
        invariant
            i <= selected@.len(),
            forall|j: int| 0 <= j < i ==> strings_view(selected@)[j] != name@,
        decreases selected@.len() - i,
    {
        if selected[i] == *name {
            proof {
                assert(strings_view(selected@)[i as int] == name@);
            }
            return true;
        }
        i += 1;
    }
    false
}

/// The comma-joined id filter for the grade query: intersect the caller's
/// display names with the catalog, keeping catalog order, and join the matched
/// entries' ids.
pub fn resolve_semester_ids(catalog: &Vec<SemesterInfo>, selected: &Vec<String>) -> (r: String)
    ensures
        r@ == joined_ids(
            selected_ids(catalog_seq_view(catalog@), strings_view(selected@)),
        ),
{
    let ghost cat = catalog_seq_view(catalog@);
    let ghost sel = strings_view(selected@);
    let mut ids: Vec<u64> = Vec::new();
    let mut i: usize = 0;
    proof {
        assert(cat.subrange(0, 0) =~= Seq::<SemesterInfoView>::empty());
    }
    while i < catalog.len()
        invariant
            i <= catalog@.len(),
            cat == catalog_seq_view(catalog@),
            sel == strings_view(selected@),
            ids@ == selected_ids(cat.subrange(0, i as int), sel),
        decreases catalog@.len() - i,
    {
        let c = &catalog[i];
        proof {
            let pre = cat.subrange(0, i as int);
            let cur = cat.subrange(0, i + 1);
            assert(cur.drop_last() =~= pre);
            assert(cur.last() == cat[i as int]);
        }
        if contains_name(selected, &c.name_zh) {
            ids.push(c.id);
        }
        i += 1;
    }
    proof {
        assert(cat.subrange(0, cat.len() as int) =~= cat);
    }
    join_ids(&ids)
}

} // verus!
