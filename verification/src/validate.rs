//! Validation of the fields of incoming requests.

use vstd::prelude::*;

verus! {

/// Whether `validator` accepts a text as an e-mail address.
pub uninterp spec fn email_valid(s: Seq<char>) -> bool;

/// Calls `validator::validate_email`. Claimed: the answer is a function of the text, and
/// an empty text or one without `@` is refused (the first test of the crate's function).
#[verifier::external_body]
fn validate_email(s: &str) -> (b: bool)
    ensures
        b == email_valid(s@),
        (s@.len() == 0 || !s@.contains('@')) ==> !b,
{
    validator::validate_email(s)
}

/// The largest number of characters a field of a request may hold.
pub const MAX_FIELD_LENGTH: usize = 256;

/// A field holds at most [`MAX_FIELD_LENGTH`] characters.
pub open spec fn length_ok(s: Seq<char>) -> bool {
    s.len() <= MAX_FIELD_LENGTH
}

/// The length check counts characters and nothing else: a field passes exactly when it
/// holds at most 256 characters, and two fields of the same length fare alike.
pub proof fn lemma_length_ok_counts_characters(s: Seq<char>, t: Seq<char>)
    ensures
        length_ok(s) <==> s.len() <= 256,
        s.len() == t.len() ==> length_ok(s) == length_ok(t),
        length_ok(Seq::empty()),
{
}

/// A field is an e-mail address of at most [`MAX_FIELD_LENGTH`] characters.
pub open spec fn email_field_ok(s: Seq<char>) -> bool {
    email_valid(s) && length_ok(s)
}

/// Whether a field holds at most [`MAX_FIELD_LENGTH`] characters; what the characters are
/// does not matter.
pub fn check_length(s: &String) -> (b: bool)
    ensures
        b == length_ok(s@),
        b == (s@.len() <= 256),
{
    s.as_str().unicode_len() <= MAX_FIELD_LENGTH
}

/// A text that cannot be an e-mail address: it is empty or holds no `@`.
pub open spec fn no_address(s: Seq<char>) -> bool {
    s.len() == 0 || !s.contains('@')
}

pub fn check_email(s: &String) -> (b: bool)
    ensures
        b == email_field_ok(s@),
        no_address(s@) ==> !b,
{
    let e = validate_email(s.as_str());
    let l = check_length(s);
    e && l
}

#[derive(Debug, PartialEq, Eq)]
/// The fields of a request that failed validation, in the order the request declares them.
pub struct ValidationErrors {
    pub fields: Vec<String>,
}

/// The names of the fields whose check failed, in order.
pub open spec fn failed_fields(checks: Seq<(Seq<char>, bool)>) -> Seq<Seq<char>>
    decreases checks.len(),
{
    if checks.len() == 0 {
        Seq::empty()
    } else {
        let rest = failed_fields(checks.drop_last());
        if checks.last().1 { rest } else { rest.push(checks.last().0) }
    }
}

/// Appending a check appends its field when it failed.
pub proof fn lemma_failed_fields_push(c: Seq<(Seq<char>, bool)>, x: (Seq<char>, bool))
    ensures
        failed_fields(c.push(x)) == (if x.1 { failed_fields(c) } else { failed_fields(c).push(x.0) }),
{
    assert(c.push(x).drop_last() =~= c);
}

/// `Ok` when every check passed, else the names of the failed fields, in order.
pub fn collect_failures(checks: &Vec<(&'static str, bool)>) -> (res: Result<(), ValidationErrors>)
    ensures
        ({
            let c = checks@.map_values(|p: (&'static str, bool)| (p.0@, p.1));
            &&& res is Ok <==> failed_fields(c).len() == 0
            &&& res matches Err(e) ==> e.fields@.map_values(|s: String| s@) == failed_fields(c)
        }),
{
    let ghost c = checks@.map_values(|p: (&'static str, bool)| (p.0@, p.1));
    let mut fields: Vec<String> = Vec::new();
    let n = checks.len();
    let mut i: usize = 0;
    while i < n
        invariant
            n == checks@.len(),
            i <= n,
            c == checks@.map_values(|p: (&'static str, bool)| (p.0@, p.1)),
            fields@.map_values(|s: String| s@) == failed_fields(c.subrange(0, i as int)),
        decreases n - i,
    {
        let (name, ok) = checks[i];
        assert(c.subrange(0, i + 1).drop_last() =~= c.subrange(0, i as int));
        if !ok {
            fields.push(name.to_string());
        }
        i = i + 1;
        assert(fields@.map_values(|s: String| s@) =~= failed_fields(c.subrange(0, i as int)));
    }
    assert(c.subrange(0, n as int) =~= c);
    if fields.len() == 0 {
        Ok(())
    } else {
        Err(ValidationErrors { fields })
    }
}

/// The names of a list of texts.
pub open spec fn texts(v: Seq<String>) -> Seq<Seq<char>> {
    v.map_values(|s: String| s@)
}

/// Validation of a request with two checked fields.
pub fn collect2(a: &'static str, a_ok: bool, b: &'static str, b_ok: bool) -> (res: Result<(), ValidationErrors>)
    ensures
        res is Ok <==> a_ok && b_ok,
        res matches Err(e) ==> texts(e.fields@) == failed_fields(seq![(a@, a_ok), (b@, b_ok)]),
{
    let checks: Vec<(&'static str, bool)> = vec![(a, a_ok), (b, b_ok)];
    let res = collect_failures(&checks);
    proof {
        let e = Seq::<(Seq<char>, bool)>::empty();
        assert(checks@.map_values(|p: (&'static str, bool)| (p.0@, p.1)) =~= e.push((a@, a_ok)).push((b@, b_ok)));
        lemma_failed_fields_push(e, (a@, a_ok));
        lemma_failed_fields_push(e.push((a@, a_ok)), (b@, b_ok));
        assert(seq![(a@, a_ok), (b@, b_ok)] =~= e.push((a@, a_ok)).push((b@, b_ok)));
    }
    res
}

/// Validation of a request with three checked fields.
pub fn collect3(a: &'static str, a_ok: bool, b: &'static str, b_ok: bool, c: &'static str, c_ok: bool) -> (res: Result<(), ValidationErrors>)
    ensures
        res is Ok <==> a_ok && b_ok && c_ok,
        res matches Err(e) ==> texts(e.fields@) == failed_fields(seq![(a@, a_ok), (b@, b_ok), (c@, c_ok)]),
{
    let checks: Vec<(&'static str, bool)> = vec![(a, a_ok), (b, b_ok), (c, c_ok)];
    let res = collect_failures(&checks);
    proof {
        let e = Seq::<(Seq<char>, bool)>::empty();
        assert(checks@.map_values(|p: (&'static str, bool)| (p.0@, p.1)) =~= e.push((a@, a_ok)).push((b@, b_ok)).push((c@, c_ok)));
        lemma_failed_fields_push(e, (a@, a_ok));
        lemma_failed_fields_push(e.push((a@, a_ok)), (b@, b_ok));
        lemma_failed_fields_push(e.push((a@, a_ok)).push((b@, b_ok)), (c@, c_ok));
        assert(seq![(a@, a_ok), (b@, b_ok), (c@, c_ok)] =~= e.push((a@, a_ok)).push((b@, b_ok)).push((c@, c_ok)));
    }
    res
}

} // verus!
