use vstd::prelude::*;

verus! {

/// A required external tool that could not be run.
pub struct ToolMissing {
    pub tool: String,
}

/// Decides one availability probe: `probe_ok` reports whether running the
/// tool with its version flag succeeded; failure names the tool.
pub fn check_command(tool: &String, probe_ok: bool) -> (r: Result<(), ToolMissing>)
    ensures
        r is Ok <==> probe_ok,
        r matches Err(e) ==> e.tool@ == tool@,
{
    if probe_ok {
        Result::Ok(())
    } else {
        Result::Err(ToolMissing { tool: tool.clone() })
    }
}

} // verus!
