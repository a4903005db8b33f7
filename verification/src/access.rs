//! Which action an incoming request asks leave for, for a host that guards
//! its routes with the client.

use vstd::prelude::*;
use vstd::string::*;

verus! {

/// The action that a request with the HTTP method `method` amounts to: a
/// `GET` reads, a `POST` writes, a `DELETE` deletes. Other methods stand for
/// no action.
pub open spec fn action_of(method: Seq<char>) -> Option<Seq<char>> {
    if method == "GET"@ {
        Some("read"@)
    } else if method == "POST"@ {
        Some("write"@)
    } else if method == "DELETE"@ {
        Some("delete"@)
    } else {
        None
    }
}

/// The name of the action that a request with the method `method` asks
/// leave for, if the method is one of the three that stand for an action.
pub fn auth_action(method: &str) -> (r: Option<&'static str>)
    ensures
        match r {
            Some(action) => action_of(method@) == Some(action@),
            None => action_of(method@) is None,
        },
{
    let method = method.to_owned();
    if method == "GET".to_owned() {
        Some("read")
    } else if method == "POST".to_owned() {
        Some("write")
    } else if method == "DELETE".to_owned() {
        Some("delete")
    } else {
        None
    }
}

} // verus!
