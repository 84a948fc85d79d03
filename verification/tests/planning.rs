use injectionforge_cli::check_requirements;
use injectionforge_cli::build_cmd::{
    bin_selector, build_bin_args, build_lib_args, dylib_selector, proxy_env_key,
};
use injectionforge_cli::cli::{frida_env, plan_ops, validate_cli, Cli, ConfigError, Op};
use injectionforge_cli::dist::{file_name, staging_plan, StageError};
use injectionforge_cli::run::{run_args, run_outcome, RunError};
use injectionforge_cli::setup::{
    git_checkout_args, git_clone_args, git_fetch_args, git_probe_args, step_outcome, sync_plan,
    SyncAction,
};
use injectionforge_cli::utils::check_command;

fn base_cli() -> Cli {
    Cli {
        repo_url: "https://example.invalid/injectionforge".to_string(),
        build_dir: "./build/injectionforge".to_string(),
        dist_dir: "./dist/".to_string(),
        repo_checkout: "main".to_string(),
        standalone_exe: false,
        run_standalone_exe: None,
        injectable_dll: false,
        proxy_dll: None,
        frida_code_string: Some("console.log(1);".to_string()),
        frida_code_file: None,
        clean: false,
    }
}

#[test]
fn non_tree_existing_dir_is_removed_then_cloned_then_checked_out() {
    let plan = sync_plan(false, true);
    assert_eq!(
        plan,
        vec![SyncAction::RemoveDir, SyncAction::CloneRepo, SyncAction::CheckoutRevision]
    );
}

#[test]
fn absent_dir_is_cloned_then_checked_out() {
    let plan = sync_plan(false, false);
    assert_eq!(plan, vec![SyncAction::CloneRepo, SyncAction::CheckoutRevision]);
}

#[test]
fn existing_work_tree_is_only_fetched_and_checked_out() {
    let plan = sync_plan(true, true);
    assert_eq!(plan, vec![SyncAction::FetchRemote, SyncAction::CheckoutRevision]);
    assert!(!plan.contains(&SyncAction::RemoveDir));
    assert!(!plan.contains(&SyncAction::CloneRepo));
}

#[test]
fn git_argument_lists_match_the_tool_interface() {
    let url = "https://example.invalid/repo".to_string();
    let dir = "./build/repo".to_string();
    let rev = "main".to_string();
    assert_eq!(git_clone_args(&url, &dir), vec!["clone".to_string(), url.clone(), dir.clone()]);
    assert_eq!(git_fetch_args(&dir), vec!["-C".to_string(), dir.clone(), "fetch".to_string()]);
    assert_eq!(
        git_checkout_args(&dir, &rev),
        vec!["-C".to_string(), dir.clone(), "checkout".to_string(), rev.clone()]
    );
    assert_eq!(
        git_probe_args(&dir),
        vec![
            "-C".to_string(),
            dir.clone(),
            "rev-parse".to_string(),
            "--is-inside-work-tree".to_string()
        ]
    );
}

#[test]
fn failing_vcs_step_is_fatal_and_named() {
    assert!(step_outcome(SyncAction::CloneRepo, true).is_ok());
    let e = step_outcome(SyncAction::CheckoutRevision, false).unwrap_err();
    assert_eq!(e.step, SyncAction::CheckoutRevision);
}

#[test]
fn staging_keeps_each_file_name_under_the_dist_dir() {
    let artifacts = vec!["/out/libcore.so".to_string(), "tool".to_string()];
    let plan = staging_plan(&artifacts, &"./dist".to_string()).unwrap();
    assert_eq!(plan.len(), 2);
    assert_eq!(plan[0].src, "/out/libcore.so");
    assert_eq!(plan[0].dest, "./dist/libcore.so");
    assert_eq!(plan[1].src, "tool");
    assert_eq!(plan[1].dest, "./dist/tool");
}

#[test]
fn staging_fails_as_a_whole_when_one_path_has_no_file_name() {
    let artifacts = vec!["/out/libcore.so".to_string(), "/out/..".to_string()];
    let r = staging_plan(&artifacts, &"./dist".to_string());
    assert_eq!(r, Err(StageError::NoFileName));
}

#[test]
fn file_name_component_rules() {
    assert_eq!(file_name(&"/a/b/lib.so".to_string()), Some("lib.so".to_string()));
    assert_eq!(file_name(&"lib.so".to_string()), Some("lib.so".to_string()));
    assert_eq!(file_name(&"/a/b/".to_string()), None);
    assert_eq!(file_name(&"".to_string()), None);
    assert_eq!(file_name(&"/a/..".to_string()), None);
    assert_eq!(file_name(&"/a/.".to_string()), None);
}

#[test]
fn frida_code_sources_are_mutually_exclusive_and_required() {
    let inline = Some("console.log(1);".to_string());
    let file = Some("./hook.js".to_string());
    assert_eq!(frida_env(&None, &None), Err(ConfigError::MissingFridaCode));
    assert_eq!(frida_env(&inline, &file), Err(ConfigError::ConflictingFridaCode));
    assert_eq!(
        frida_env(&inline, &None),
        Ok(("FRIDA_CODE".to_string(), "console.log(1);".to_string()))
    );
    assert_eq!(
        frida_env(&None, &file),
        Ok(("FRIDA_CODE_FILE".to_string(), "./hook.js".to_string()))
    );
}

#[test]
fn run_mode_conflicts_with_build_modes() {
    let mut c = base_cli();
    c.run_standalone_exe = Some("1234".to_string());
    c.injectable_dll = true;
    assert_eq!(validate_cli(&c), Err(ConfigError::ConflictingModes));
}

#[test]
fn empty_revision_is_rejected_before_any_subprocess() {
    let mut c = base_cli();
    c.injectable_dll = true;
    c.repo_checkout = "".to_string();
    assert_eq!(validate_cli(&c), Err(ConfigError::EmptyRevision));
    c.repo_checkout = "main".to_string();
    assert_eq!(validate_cli(&c), Ok(()));
}

#[test]
fn plan_orders_clean_sync_builds_and_run() {
    let mut c = base_cli();
    c.clean = true;
    c.standalone_exe = true;
    c.injectable_dll = true;
    c.proxy_dll = Some("./target.dll".to_string());
    assert_eq!(
        plan_ops(&c),
        vec![
            Op::CleanBuildDir,
            Op::SyncSources,
            Op::StandaloneExe,
            Op::InjectableDll,
            Op::ProxyDll
        ]
    );
}

#[test]
fn empty_plan_means_nothing_to_do() {
    let c = base_cli();
    assert_eq!(plan_ops(&c), Vec::<Op>::new());
    let mut r = base_cli();
    r.run_standalone_exe = Some("victim".to_string());
    assert_eq!(plan_ops(&r), vec![Op::RunStandalone]);
}

#[test]
fn build_argument_lists_match_the_tool_interface() {
    assert_eq!(
        build_lib_args(),
        vec![
            "build".to_string(),
            "--message-format=json-render-diagnostics".to_string(),
            "--lib".to_string()
        ]
    );
    assert_eq!(
        build_bin_args(),
        vec![
            "build".to_string(),
            "--bin".to_string(),
            "standalone".to_string(),
            "--message-format=json-render-diagnostics".to_string()
        ]
    );
    assert_eq!(proxy_env_key(), "DLL_PROXY".to_string());
    let d = dylib_selector();
    assert_eq!(d.package_substr, "injectionforge");
    assert_eq!(d.kind, "cdylib");
    let b = bin_selector();
    assert_eq!(b.kind, "bin");
}

#[test]
fn run_invocation_and_outcome() {
    let target = "1234".to_string();
    assert_eq!(
        run_args(&target),
        vec!["run".to_string(), "--bin".to_string(), "standalone".to_string(), target.clone()]
    );
    assert_eq!(run_outcome(true), Ok(()));
    assert_eq!(run_outcome(false), Err(RunError::RunFailed));
}

#[test]
fn requirements_name_the_first_missing_tool() {
    assert!(check_requirements(true, true, true).is_ok());
    assert_eq!(check_requirements(false, true, true).unwrap_err().tool, "cargo");
    assert_eq!(check_requirements(true, false, true).unwrap_err().tool, "git");
    assert_eq!(check_requirements(true, true, false).unwrap_err().tool, "jq");
    let e = check_command(&"jq".to_string(), false).unwrap_err();
    assert_eq!(e.tool, "jq");
    assert!(check_command(&"git".to_string(), true).is_ok());
}
