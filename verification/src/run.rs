use vstd::prelude::*;

verus! {

/// The standalone run exited with a non-zero status.
#[derive(Clone, Copy, Debug, PartialEq, Eq)]
pub enum RunError {
    RunFailed,
}

/// Arguments of the run invocation: `run --bin standalone <target>`, where
/// the target names the process to attach to. Both standard streams stay
/// with the terminal; only the exit status is read.
pub fn run_args(target: &String) -> (r: Vec<String>)
    ensures
        r@.len() == 4,
        r@[0]@ == "run"@,
        r@[1]@ == "--bin"@,
        r@[2]@ == "standalone"@,
        r@[3]@ == target@,
{
    let mut v: Vec<String> = Vec::new();
    v.push("run".to_owned());
    v.push("--bin".to_owned());
    v.push("standalone".to_owned());
    v.push(target.clone());
    v
}

/// Verdict of the run: success exactly when the subprocess exited cleanly.
pub fn run_outcome(exit_ok: bool) -> (r: Result<(), RunError>)
    ensures
        r is Ok <==> exit_ok,
        r matches Err(e) ==> e == RunError::RunFailed,
{
    if exit_ok {
        Result::Ok(())
    } else {
        Result::Err(RunError::RunFailed)
    }
}

} // verus!
