//! Signing out.
use vstd::prelude::*;
use vstd::string::StringExecFns;

verus! {

/// The answer once the session's user is removed: send the browser to the
/// login page (`HX-Location: /login`), with an empty body.
pub fn logout() -> (reply: (String, String))
    ensures
        reply.0@ == "/login"@,
        reply.1@ == Seq::<char>::empty(),
{
    (String::from_str("/login"), String::new())
}

} // verus!
