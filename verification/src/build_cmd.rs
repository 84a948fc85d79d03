use vstd::prelude::*;

use crate::events::Selector;

verus! {

/// Arguments of the build invocation that produces the loadable library
/// artifacts: `build --message-format=json-render-diagnostics --lib`, with
/// structured progress on standard output.
pub fn build_lib_args() -> (r: Vec<String>)
    ensures
        r@.len() == 3,
        r@[0]@ == "build"@,
        r@[1]@ == "--message-format=json-render-diagnostics"@,
        r@[2]@ == "--lib"@,
{
    let mut v: Vec<String> = Vec::new();
    v.push("build".to_owned());
    v.push("--message-format=json-render-diagnostics".to_owned());
    v.push("--lib".to_owned());
    v
}

/// Arguments of the build invocation that produces the standalone
/// executable: `build --bin standalone --message-format=json-render-diagnostics`.
pub fn build_bin_args() -> (r: Vec<String>)
    ensures
        r@.len() == 4,
        r@[0]@ == "build"@,
        r@[1]@ == "--bin"@,
        r@[2]@ == "standalone"@,
        r@[3]@ == "--message-format=json-render-diagnostics"@,
{
    let mut v: Vec<String> = Vec::new();
    v.push("build".to_owned());
    v.push("--bin".to_owned());
    v.push("standalone".to_owned());
    v.push("--message-format=json-render-diagnostics".to_owned());
    v
}

/// The selector for both library builds: an event of the expected package
/// whose target kinds include the loadable-library kind.
pub fn dylib_selector() -> (s: Selector)
    ensures
        s@.package_substr == "injectionforge"@,
        s@.kind == "cdylib"@,
{
    Selector { package_substr: "injectionforge".to_owned(), kind: "cdylib".to_owned() }
}

/// The selector for the standalone build: an event of the expected package
/// whose target kinds include the executable kind.
pub fn bin_selector() -> (s: Selector)
    ensures
        s@.package_substr == "injectionforge"@,
        s@.kind == "bin"@,
{
    Selector { package_substr: "injectionforge".to_owned(), kind: "bin".to_owned() }
}

/// Name of the environment variable that carries the absolute path of the
/// proxied library when the proxy variant is built.
pub fn proxy_env_key() -> (s: String)
    ensures
        s@ == "DLL_PROXY"@,
{
    "DLL_PROXY".to_owned()
}

} // verus!
