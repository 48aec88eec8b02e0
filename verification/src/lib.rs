//! A todo application's logic: users register and sign in with
//! Argon2-hashed passwords, add dated todo items, and pages are rendered
//! from templates and minified. The web server, the database and the
//! template engine stand outside; this crate decides what they are asked
//! and what the answers amount to.
use vstd::prelude::*;
use vstd::string::StrSliceExecFns;

pub mod calendar;
pub mod date_only_converter;
pub mod datetime;
pub mod decimal;
pub mod error_handlers;
pub mod fields;
pub mod filters;
pub mod models;
pub mod passwords;
pub mod render_html;
pub mod routes;
pub mod serde_converters;
pub mod turso_helper;

verus! {

/// The name of the header that htmx sets on the requests it makes.
pub open spec fn htmx_request_header() -> Seq<char> {
    "hx-request"@
}

/// The code of a character with ASCII capitals made small.
pub open spec fn ascii_lower_code(c: char) -> int {
    if 65 <= c as int <= 90 {
        c as int + 32
    } else {
        c as int
    }
}

/// The two texts are the same once ASCII capitals are made small, as header
/// names are compared.
pub open spec fn equal_ignoring_ascii_case(a: Seq<char>, b: Seq<char>) -> bool {
    a.len() == b.len() && forall|i: int| 0 <= i < a.len() ==> ascii_lower_code(a[i]) == ascii_lower_code(b[i])
}

/// Law: comparing header names ignoring ASCII case is an equivalence that
/// keeps lengths: every name matches itself, the comparison is symmetric
/// and transitive, and a name whose characters differ only in ASCII case
/// matches; characters that differ otherwise never match.
pub proof fn law_ignoring_ascii_case_is_an_equivalence(a: Seq<char>, b: Seq<char>, c: Seq<char>)
    ensures
        equal_ignoring_ascii_case(a, a),
        equal_ignoring_ascii_case(a, b) ==> equal_ignoring_ascii_case(b, a) && a.len() == b.len(),
        equal_ignoring_ascii_case(a, b) && equal_ignoring_ascii_case(b, c) ==> equal_ignoring_ascii_case(a, c),
        equal_ignoring_ascii_case(a, b) ==> forall|i: int|
            0 <= i < a.len() && !(65 <= a[i] as int <= 90) && !(65 <= b[i] as int <= 90) ==> a[i] == b[i],
{
    if equal_ignoring_ascii_case(a, b) {
        assert forall|i: int|
            0 <= i < a.len() && !(65 <= a[i] as int <= 90) && !(65 <= b[i] as int <= 90) implies a[i]
                == b[i] by {
            assert(ascii_lower_code(a[i]) == ascii_lower_code(b[i]));
            assert(a[i] as int == b[i] as int);
        }
    }
}

fn lower_code(c: char) -> (code: u32)
    ensures
        code as int == ascii_lower_code(c),
{
    let x = c as u32;
    if 65 <= x && x <= 90 {
        x + 32
    } else {
        x
    }
}

fn eq_ignore_ascii_case(a: &str, b: &str) -> (r: bool)
    ensures
        r == equal_ignoring_ascii_case(a@, b@),
{
    let n = a.unicode_len();
    if n != b.unicode_len() {
        return false;
    }
    let mut i: usize = 0;
    while i < n
        invariant
            n == a@.len(),
            n == b@.len(),
            0 <= i <= n,
            forall|j: int| 0 <= j < i ==> ascii_lower_code(a@[j]) == ascii_lower_code(b@[j]),
        decreases n - i,
    {
        if lower_code(a.get_char(i)) != lower_code(b.get_char(i)) {
            return false;
        }
        i = i + 1;
    }
    true
}

/// Whether a request, given the names of its headers, was not made by htmx:
/// no header is named `hx-request`, in any case.
pub fn not_htmx_predicate(header_names: &Vec<String>) -> (r: bool)
    ensures
        r == !(exists|i: int|
            0 <= i < header_names@.len() && equal_ignoring_ascii_case(
                #[trigger] header_names@[i]@,
                htmx_request_header(),
            )),
{
    let mut i: usize = 0;
    while i < header_names.len()
        invariant
            0 <= i <= header_names@.len(),
            forall|j: int|
                0 <= j < i ==> !equal_ignoring_ascii_case(#[trigger] header_names@[j]@, htmx_request_header()),
        decreases header_names@.len() - i,
    {
        if eq_ignore_ascii_case(header_names[i].as_str(), "hx-request") {
            return false;
        }
        i = i + 1;
    }
    true
}

} // verus!
