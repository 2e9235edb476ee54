//! The wire shape of the pipeline's requests and the login gate.
//!
//! The driver that owns the HTTP client takes everything it sends from here:
//! the identity string, the endpoints, the form-encoded login field set and
//! the grade-query parameters. The one decision made on a response at this
//! stage — whether the post-login redirect landed on the expected location —
//! is `check_login`.

use vstd::prelude::*;

use crate::error::Error;

verus! {

/// The pattern matches `u` at position `i`.
pub open spec fn match_at(u: Seq<char>, pat: Seq<char>, i: int) -> bool {
    0 <= i && i + pat.len() <= u.len() && u.subrange(i, i + pat.len() as int) == pat
}

/// The pattern occurs somewhere in `u`.
pub open spec fn contains_seq(u: Seq<char>, pat: Seq<char>) -> bool {
    exists|i: int| match_at(u, pat, i)
}

/// The pattern matches at `i`, checked character by character.
fn match_here(u: &str, pat: &str, i: usize, ulen: usize, plen: usize) -> (r: bool)
    requires
        ulen == u@.len(),
        plen == pat@.len(),
        i + plen <= ulen,
    ensures
        r == match_at(u@, pat@, i as int),
{
    let mut j: usize = 0;
    while j < plen
        invariant
            j <= plen,
            ulen == u@.len(),
            plen == pat@.len(),
            i + plen <= ulen,
            forall|k: int| 0 <= k < j ==> u@[i + k] == pat@[k],
        decreases plen - j,
    {
        let cu = u.get_char(i + j);
        let cp = pat.get_char(j);
        if cu != cp {
            proof {
                if match_at(u@, pat@, i as int) {
                    assert(u@.subrange(i as int, i + plen)[j as int] == u@[i + j]);
                }
            }
            return false;
        }
        j += 1;
    }
    proof {
        assert(u@.subrange(i as int, i + plen) =~= pat@);
    }
    true
}

/// Whether `pat` occurs as a substring of `u`, as `contains_seq` says.
pub fn contains_substr(u: &str, pat: &str) -> (r: bool)
    ensures
        r == contains_seq(u@, pat@),
{
    let ulen = u.unicode_len();
    let plen = pat.unicode_len();
    if plen > ulen {
        return false;
    }
    if plen == 0 {
        proof {
            assert(u@.subrange(0, 0) =~= pat@);
            assert(match_at(u@, pat@, 0));
        }
        return true;
    }
    let mut i: usize = 0;
    while i <= ulen - plen
        invariant
            1 <= plen <= ulen,
            ulen == u@.len(),
            plen == pat@.len(),
            i <= ulen - plen + 1,
            forall|k: int| 0 <= k < i ==> !match_at(u@, pat@, k),
        decreases ulen - plen - i + 1,
    {
        if match_here(u, pat, i, ulen, plen) {
            return true;
        }
        i += 1;
    }
    false
}

/// The post-login redirect signals success.
pub open spec fn login_ok(final_url: Seq<char>) -> bool {
    contains_seq(final_url, "/home"@)
}

/// The login gate: succeeds exactly when the final URL, after following
/// redirects, contains the expected post-login location; fails with
/// `JWLoginFailed` on any other destination, and the driver must then issue
/// no further request of this run.
pub fn check_login(final_url: &str) -> (r: Result<(), Error>)
    ensures
        r is Ok <==> login_ok(final_url@),
        r is Err ==> r == Err::<(), Error>(Error::JWLoginFailed),
{
    if contains_substr(final_url, "/home") {
        Ok(())
    } else {
        Err(Error::JWLoginFailed)
    }
}

/// Model of a form or query field list.
pub open spec fn pairs_view(ps: Seq<(String, String)>) -> Seq<(Seq<char>, Seq<char>)> {
    Seq::new(ps.len(), |i: int| (ps[i].0@, ps[i].1@))
}

/// The fixed login field set: all fields empty but the credentials, the model
/// page and the post-login redirect target.
pub open spec fn spec_login_form(user: Seq<char>, pass: Seq<char>) -> Seq<(Seq<char>, Seq<char>)> {
    seq![
        ("model"@, "uplogin.jsp"@),
        ("service"@, "https://jw.ustc.edu.cn/ucas-sso/login"@),
        ("warn"@, ""@),
        ("showCode"@, ""@),
        ("username"@, user),
        ("password"@, pass),
        ("button"@, ""@),
    ]
}

/// The form-encoded body of the login POST, as `spec_login_form` says.
pub fn login_form(username: &str, password: &str) -> (r: Vec<(String, String)>)
    ensures
        pairs_view(r@) == spec_login_form(username@, password@),
{
    let mut r: Vec<(String, String)> = Vec::new();
    r.push(("model".to_owned(), "uplogin.jsp".to_owned()));
    r.push(("service".to_owned(), "https://jw.ustc.edu.cn/ucas-sso/login".to_owned()));
    r.push(("warn".to_owned(), "".to_owned()));
    r.push(("showCode".to_owned(), "".to_owned()));
    r.push(("username".to_owned(), username.to_owned()));
    r.push(("password".to_owned(), password.to_owned()));
    r.push(("button".to_owned(), "".to_owned()));
    proof {
        assert(pairs_view(r@) =~= spec_login_form(username@, password@));
    }
    r
}

/// The grade-list query: a fixed training type, and the comma-joined semester
/// ids — empty meaning all semesters.
pub open spec fn spec_grade_query(ids: Seq<char>) -> Seq<(Seq<char>, Seq<char>)> {
    seq![("trainTypeId"@, "1"@), ("semesterIds"@, ids)]
}

/// The query parameters of one grade-list GET, as `spec_grade_query` says.
pub fn grade_query(ids: &str) -> (r: Vec<(String, String)>)
    ensures
        pairs_view(r@) == spec_grade_query(ids@),
{
    let mut r: Vec<(String, String)> = Vec::new();
    r.push(("trainTypeId".to_owned(), "1".to_owned()));
    r.push(("semesterIds".to_owned(), ids.to_owned()));
    proof {
        assert(pairs_view(r@) =~= spec_grade_query(ids@));
    }
    r
}

/// The fixed desktop-browser identity string every request carries.
pub fn user_agent() -> (r: &'static str)
    ensures
        r@ == "Mozilla/5.0 (X11; Linux x86_64; rv:72.0) Gecko/20100101 Firefox/72.0"@,
{
    "Mozilla/5.0 (X11; Linux x86_64; rv:72.0) Gecko/20100101 Firefox/72.0"
}

/// The identity provider's login endpoint.
pub fn login_url() -> (r: &'static str)
    ensures
        r@ == "https://passport.ustc.edu.cn/login"@,
{
    "https://passport.ustc.edu.cn/login"
}

/// The semester-listing endpoint.
pub fn semesters_url() -> (r: &'static str)
    ensures
        r@ == "https://jw.ustc.edu.cn/for-std/grade/sheet/getSemesters"@,
{
    "https://jw.ustc.edu.cn/for-std/grade/sheet/getSemesters"
}

/// The grade-list endpoint, queried twice per run.
pub fn grade_list_url() -> (r: &'static str)
    ensures
        r@ == "https://jw.ustc.edu.cn/for-std/grade/sheet/getGradeList"@,
{
    "https://jw.ustc.edu.cn/for-std/grade/sheet/getGradeList"
}

} // verus!
