use vstd::prelude::*;

verus! {

/// The driver's configuration: where the sources come from, where they are
/// built and distributed, which artifacts are wanted, and where the
/// injected code comes from.
pub struct Cli {
    pub repo_url: String,
    pub build_dir: String,
    pub dist_dir: String,
    pub repo_checkout: String,
    pub standalone_exe: bool,
    pub run_standalone_exe: Option<String>,
    pub injectable_dll: bool,
    pub proxy_dll: Option<String>,
    pub frida_code_string: Option<String>,
    pub frida_code_file: Option<String>,
    pub clean: bool,
}

/// Configuration errors, surfaced before any subprocess runs.
#[derive(Clone, Copy, Debug, PartialEq, Eq)]
pub enum ConfigError {
    MissingFridaCode,
    ConflictingFridaCode,
    ConflictingModes,
    EmptyRevision,
}

/// The environment pair that hands the injected code to the build: the
/// variable name says whether the value is an inline script or the path of
/// a script file, and exactly one of the two sources must be supplied.
pub fn frida_env(code_string: &Option<String>, code_file: &Option<String>) -> (r: Result<
    (String, String),
    ConfigError,
>)
    ensures
        code_string is None && code_file is None ==> (r matches Err(e) && e
            == ConfigError::MissingFridaCode),
        code_string is Some && code_file is Some ==> (r matches Err(e) && e
            == ConfigError::ConflictingFridaCode),
        code_file is Some && code_string is None ==> (r matches Ok(p) && p.0@
            == "FRIDA_CODE_FILE"@ && p.1@ == code_file.unwrap()@),
        code_string is Some && code_file is None ==> (r matches Ok(p) && p.0@
            == "FRIDA_CODE"@ && p.1@ == code_string.unwrap()@),
{
    match (code_string, code_file) {
        (Option::None, Option::None) => Result::Err(ConfigError::MissingFridaCode),
        (Option::Some(_), Option::Some(_)) => Result::Err(ConfigError::ConflictingFridaCode),
        (Option::None, Option::Some(f)) => Result::Ok(("FRIDA_CODE_FILE".to_owned(), f.clone())),
        (Option::Some(s), Option::None) => Result::Ok(("FRIDA_CODE".to_owned(), s.clone())),
    }
}

/// One top-level operation of a driver run, in execution order.
#[derive(Clone, Copy, Debug, PartialEq, Eq)]
pub enum Op {
    CleanBuildDir,
    SyncSources,
    StandaloneExe,
    InjectableDll,
    ProxyDll,
    RunStandalone,
}

pub open spec fn wants_build(c: Cli) -> bool {
    c.standalone_exe || c.injectable_dll || c.proxy_dll is Some
}

pub open spec fn nothing_to_do(c: Cli) -> bool {
    !c.clean && !wants_build(c) && c.run_standalone_exe is None
}

/// Run mode and build modes are mutually exclusive.
pub open spec fn conflicting_modes(c: Cli) -> bool {
    c.run_standalone_exe is Some && (c.standalone_exe || c.injectable_dll || c.proxy_dll is Some)
}

/// Rejects configurations the driver must not act on: mutually exclusive
/// modes both supplied, or a build requested against an empty revision.
pub fn validate_cli(c: &Cli) -> (r: Result<(), ConfigError>)
    ensures
        conflicting_modes(*c) ==> (r matches Err(e) && e == ConfigError::ConflictingModes),
        !conflicting_modes(*c) && wants_build(*c) && c.repo_checkout@.len() == 0 ==> (r matches Err(
            e,
        ) && e == ConfigError::EmptyRevision),
        !conflicting_modes(*c) && !(wants_build(*c) && c.repo_checkout@.len() == 0) ==> r is Ok,
{
    let builds = c.standalone_exe || c.injectable_dll || c.proxy_dll.is_some();
    if c.run_standalone_exe.is_some() && builds {
        Result::Err(ConfigError::ConflictingModes)
    } else if builds && c.repo_checkout.as_str().is_empty() {
        Result::Err(ConfigError::EmptyRevision)
    } else {
        Result::Ok(())
    }
}

/// The operations one driver run performs, in order: an optional clean,
/// then, when any artifact is to be built, one source synchronization
/// followed by the selected builds, and finally the optional run.
pub open spec fn plan_spec(c: Cli) -> Seq<Op> {
    (if c.clean {
        seq![Op::CleanBuildDir]
    } else {
        Seq::<Op>::empty()
    }) + (if wants_build(c) {
        seq![Op::SyncSources] + (if c.standalone_exe {
            seq![Op::StandaloneExe]
        } else {
            Seq::<Op>::empty()
        }) + (if c.injectable_dll {
            seq![Op::InjectableDll]
        } else {
            Seq::<Op>::empty()
        }) + (if c.proxy_dll is Some {
            seq![Op::ProxyDll]
        } else {
            Seq::<Op>::empty()
        })
    } else {
        Seq::<Op>::empty()
    }) + (if c.run_standalone_exe is Some {
        seq![Op::RunStandalone]
    } else {
        Seq::<Op>::empty()
    })
}

/// Computes `plan_spec` for a configuration.
pub fn plan_ops(c: &Cli) -> (r: Vec<Op>)
    ensures
        r@ == plan_spec(*c),
{
    let mut v: Vec<Op> = Vec::new();
    if c.clean {
        v.push(Op::CleanBuildDir);
    }
    if c.standalone_exe || c.injectable_dll || c.proxy_dll.is_some() {
        v.push(Op::SyncSources);
        if c.standalone_exe {
            v.push(Op::StandaloneExe);
        }
        if c.injectable_dll {
            v.push(Op::InjectableDll);
        }
        if c.proxy_dll.is_some() {
            v.push(Op::ProxyDll);
        }
    }
    if c.run_standalone_exe.is_some() {
        v.push(Op::RunStandalone);
    }
    proof {
        assert(v@ =~= plan_spec(*c));
    }
    v
}

/// The plan is empty exactly when the configuration asks for nothing.
pub proof fn lemma_empty_plan_iff_nothing_to_do(c: Cli)
    ensures
        plan_spec(c).len() == 0 <==> nothing_to_do(c),
{
}

} // verus!
