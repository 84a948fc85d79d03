pub mod build_cmd;
pub mod cli;
pub mod dist;
pub mod events;
pub mod json;
pub mod run;
pub mod setup;
pub mod strings;
pub mod utils;

use crate::utils::{check_command, ToolMissing};
use vstd::prelude::*;

verus! {

/// Checks that every tool the orchestrator shells out to is available; the
/// three booleans report the probe of `cargo`, `git` and `jq`, in that
/// order, and the first tool whose probe failed is named.
pub fn check_requirements(cargo_ok: bool, git_ok: bool, jq_ok: bool) -> (r: Result<
    (),
    ToolMissing,
>)
    ensures
        r is Ok <==> (cargo_ok && git_ok && jq_ok),
        r matches Err(e) ==> e.tool@ == (if !cargo_ok {
            "cargo"@
        } else if !git_ok {
            "git"@
        } else {
            "jq"@
        }),
{
    match check_command(&"cargo".to_owned(), cargo_ok) {
        Result::Ok(_) => {},
        Result::Err(e) => {
            return Result::Err(e);
        },
    }
    match check_command(&"git".to_owned(), git_ok) {
        Result::Ok(_) => {},
        Result::Err(e) => {
            return Result::Err(e);
        },
    }
    check_command(&"jq".to_owned(), jq_ok)
}

} // verus!
