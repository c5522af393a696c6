//! The decisions around one fetch: where to ask, when a run may start, and
//! when an answer means the user does not exist. The HTTP round trip itself
//! happens outside the library; it hands the decoded task list in.

use vstd::prelude::*;
use vstd::string::*;
use crate::error::Error;
use crate::model::{Person, Task};

verus! {

/// The scores endpoint with `username` interpolated.
pub open spec fn scores_url_spec(username: Seq<char>) -> Seq<char> {
    "https://territoriali.olinfo.it/api/user/"@ + username + "/scores"@
}

/// Builds the URL one fetch for `username` queries.
pub fn scores_url(username: &str) -> (r: String)
    ensures
        r@ == scores_url_spec(username@),
{
    let mut s = String::from_str("https://territoriali.olinfo.it/api/user/");
    s.append(username);
    s.append("/scores");
    s
}

/// The sole business validation of a fetch: an empty task list, though a
/// well-formed answer, means the queried user does not exist.
pub fn person_from_tasks(username: &str, tasks: Vec<Task>) -> (r: Result<Person, Error>)
    ensures
        tasks@.len() == 0 ==> (r matches Err(e) && e matches Error::NotFound(u) && u@
            == username@),
        tasks@.len() > 0 ==> (r matches Ok(p) && p.username@ == username@ && p.tasks@
            == tasks@),
{
    if tasks.len() == 0 {
        Err(Error::NotFound(username.to_owned()))
    } else {
        Ok(Person { username: username.to_owned(), tasks })
    }
}

/// A run needs at least one username; with none it fails before any fetch.
pub fn check_usage(username_count: usize) -> (r: Result<(), Error>)
    ensures
        username_count == 0 ==> (r matches Err(e) && e matches Error::Usage),
        username_count > 0 ==> (r matches Ok(u) && u == ()),
{
    if username_count == 0 {
        Err(Error::Usage)
    } else {
        Ok(())
    }
}

} // verus!
