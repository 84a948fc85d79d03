use injectionforge_cli::events::{
    extract_artifacts, select_artifacts, BuildEvent, ExtractError, Selector,
};

fn sel(package: &str, kind: &str) -> Selector {
    Selector { package_substr: package.to_string(), kind: kind.to_string() }
}

fn artifact_event(package_id: &str, kinds: &[&str], filenames: Option<&[&str]>) -> BuildEvent {
    BuildEvent {
        reason: "compiler-artifact".to_string(),
        package_id: package_id.to_string(),
        kinds: kinds.iter().map(|k| k.to_string()).collect(),
        filenames: filenames.map(|fs| fs.iter().map(|f| f.to_string()).collect()),
    }
}

#[test]
fn last_of_three_matching_records_wins() {
    let events = vec![
        artifact_event("registry+injectionforge#0.1.0", &["cdylib"], Some(&["/t/one.so"])),
        BuildEvent {
            reason: "build-script-executed".to_string(),
            package_id: "injectionforge".to_string(),
            kinds: vec!["cdylib".to_string()],
            filenames: Some(vec!["/t/ignored.so".to_string()]),
        },
        artifact_event("registry+injectionforge#0.1.0", &["cdylib"], Some(&["/t/two.so"])),
        artifact_event("registry+other#1.0.0", &["cdylib"], Some(&["/t/other.so"])),
        artifact_event("registry+injectionforge#0.1.0", &["cdylib"], Some(&["/t/three.so"])),
    ];
    let r = select_artifacts(&events, &sel("injectionforge", "cdylib")).unwrap();
    assert_eq!(r, vec!["/t/three.so".to_string()]);
}

#[test]
fn zero_matching_records_yield_empty_list() {
    let events = vec![
        artifact_event("registry+other#1.0.0", &["cdylib"], Some(&["/t/other.so"])),
        artifact_event("registry+injectionforge#0.1.0", &["bin"], Some(&["/t/exe"])),
    ];
    let r = select_artifacts(&events, &sel("injectionforge", "cdylib")).unwrap();
    assert_eq!(r, Vec::<String>::new());
}

#[test]
fn kind_must_be_among_target_kinds() {
    let events = vec![
        artifact_event("injectionforge", &["lib", "cdylib"], Some(&["/t/multi.so"])),
    ];
    let r = select_artifacts(&events, &sel("injectionforge", "cdylib")).unwrap();
    assert_eq!(r, vec!["/t/multi.so".to_string()]);
    let r2 = select_artifacts(&events, &sel("injectionforge", "staticlib")).unwrap();
    assert_eq!(r2, Vec::<String>::new());
}

#[test]
fn selected_record_without_file_list_is_an_error() {
    let events = vec![artifact_event("injectionforge", &["cdylib"], None)];
    let r = select_artifacts(&events, &sel("injectionforge", "cdylib"));
    assert_eq!(r, Err(ExtractError::MalformedArtifactList));
}

#[test]
fn stream_with_final_matching_event_returns_its_list() {
    let stream = r#"{"reason":"compiler-artifact","package_id":"dep#1.0","target":{"kind":["lib"]},"filenames":["/out/libdep.rlib"]}
{"reason":"compiler-artifact","package_id":"core-pkg#0.1","target":{"kind":["cdylib"]},"filenames":["/out/libold.so"]}
{"reason":"compiler-artifact","package_id":"core-pkg#0.1","target":{"kind":["cdylib"]},"filenames":["/out/libcore.so"]}
{"reason":"build-finished","success":true}
"#
    .as_bytes()
    .to_vec();
    let r = extract_artifacts(&stream, &sel("core", "cdylib")).unwrap();
    assert_eq!(r, vec!["/out/libcore.so".to_string()]);
}

#[test]
fn stream_with_no_matching_event_is_empty_not_an_error() {
    let stream = r#"{"reason":"build-finished","success":true}
{"reason":"compiler-artifact","package_id":"dep#1.0","target":{"kind":["lib"]},"filenames":["/out/libdep.rlib"]}
"#
    .as_bytes()
    .to_vec();
    let r = extract_artifacts(&stream, &sel("injectionforge", "cdylib")).unwrap();
    assert_eq!(r, Vec::<String>::new());
}

#[test]
fn empty_stream_is_empty_not_an_error() {
    let stream = Vec::new();
    let r = extract_artifacts(&stream, &sel("injectionforge", "cdylib")).unwrap();
    assert_eq!(r, Vec::<String>::new());
}

#[test]
fn malformed_file_list_fails_with_build_error() {
    let stream = r#"{"reason":"compiler-artifact","package_id":"injectionforge#0.1","target":{"kind":["cdylib"]},"filenames":[1,2]}
"#
    .as_bytes()
    .to_vec();
    let r = extract_artifacts(&stream, &sel("injectionforge", "cdylib"));
    assert_eq!(r, Err(ExtractError::MalformedArtifactList));
}

#[test]
fn unparsable_stream_fails_with_stream_error() {
    let stream = b"{\"reason\":\"compiler-artifact\" this is not json\n".to_vec();
    let r = extract_artifacts(&stream, &sel("injectionforge", "cdylib"));
    assert_eq!(r, Err(ExtractError::MalformedStream));
}

#[test]
fn document_without_reason_fails_with_stream_error() {
    let stream = b"{\"package_id\":\"injectionforge#0.1\"}\n".to_vec();
    let r = extract_artifacts(&stream, &sel("injectionforge", "cdylib"));
    assert_eq!(r, Err(ExtractError::MalformedStream));
}

#[test]
fn empty_package_substring_matches_any_package() {
    let stream = r#"{"reason":"compiler-artifact","package_id":"anything#1.0","target":{"kind":["bin"]},"filenames":["/out/tool"]}
"#
    .as_bytes()
    .to_vec();
    let r = extract_artifacts(&stream, &sel("", "bin")).unwrap();
    assert_eq!(r, vec!["/out/tool".to_string()]);
}
