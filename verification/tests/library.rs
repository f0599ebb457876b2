use sketchjs_playground::install::Action;
use sketchjs_playground::install::Event;
use sketchjs_playground::install::InstallError;
use sketchjs_playground::install::InstallFlow;
use sketchjs_playground::install::InstallResult;
use sketchjs_playground::install::ToolOutput;
use sketchjs_playground::install::classify_outcome;
use sketchjs_playground::manifest::ManifestError;
use sketchjs_playground::manifest::list_installed;
use sketchjs_playground::workspace::bootstrap_manifest;
use sketchjs_playground::workspace::manifest_path;
use sketchjs_playground::workspace::workspace_dir;

const BOOTSTRAP: &str = "{\"name\":\"sketchjs-playground\",\"version\":\"1.0.0\",\"private\":true}";

#[test]
fn workspace_dir_is_playground_under_base() {
    assert_eq!(workspace_dir("/data/app"), "/data/app/playground");
}

#[test]
fn manifest_path_is_package_json_in_workspace() {
    assert_eq!(manifest_path("/data/app"), "/data/app/playground/package.json");
}

#[test]
fn bootstrap_manifest_has_fixed_content() {
    assert_eq!(bootstrap_manifest(), BOOTSTRAP);
}

#[test]
fn classify_success_names_the_package() {
    let out = ToolOutput { success: true, stderr: String::new() };
    let r = classify_outcome("lodash", &out);
    assert!(r.success);
    assert_eq!(r.message, "Successfully installed lodash");
}

#[test]
fn classify_failure_carries_stderr() {
    let out = ToolOutput { success: false, stderr: "404 not found".to_string() };
    let r = classify_outcome("left-pad", &out);
    assert!(!r.success);
    assert_eq!(r.message, "Failed to install left-pad: 404 not found");
}

fn expect_finish(a: Action) -> Result<InstallResult, InstallError> {
    match a {
        Action::Finish(r) => r,
        _ => panic!("expected the run to finish"),
    }
}

#[test]
fn fresh_install_bootstraps_then_runs() {
    let (mut flow, a0) = InstallFlow::start("lodash".to_string());
    assert!(matches!(a0, Action::CheckWorkspace));
    let a1 = flow.step(Event::Exists(false));
    assert!(matches!(a1, Action::CreateWorkspace));
    let a2 = flow.step(Event::Created(Ok(())));
    assert!(matches!(a2, Action::CheckManifest));
    let a3 = flow.step(Event::Exists(false));
    match a3 {
        Action::WriteManifest(doc) => assert_eq!(doc, BOOTSTRAP),
        _ => panic!("expected the manifest write"),
    }
    let a4 = flow.step(Event::Wrote(Ok(())));
    match a4 {
        Action::RunInstaller(pkg) => assert_eq!(pkg, "lodash"),
        _ => panic!("expected the installer run"),
    }
    let out = ToolOutput { success: true, stderr: String::new() };
    let result = expect_finish(flow.step(Event::Ran(Ok(out)))).unwrap();
    assert!(result.success);
    assert_eq!(result.message, "Successfully installed lodash");
}

#[test]
fn second_install_skips_the_bootstrap() {
    let (mut flow, a0) = InstallFlow::start("lodash".to_string());
    assert!(matches!(a0, Action::CheckWorkspace));
    let a1 = flow.step(Event::Exists(true));
    match a1 {
        Action::RunInstaller(pkg) => assert_eq!(pkg, "lodash"),
        _ => panic!("expected the installer run, with nothing written"),
    }
    let out = ToolOutput { success: true, stderr: String::new() };
    let result = expect_finish(flow.step(Event::Ran(Ok(out)))).unwrap();
    assert!(result.success);
}

#[test]
fn failed_exit_is_a_result_not_an_error() {
    let (mut flow, _) = InstallFlow::start("left-pad".to_string());
    flow.step(Event::Exists(true));
    let out = ToolOutput { success: false, stderr: "404 not found".to_string() };
    let result = expect_finish(flow.step(Event::Ran(Ok(out)))).unwrap();
    assert!(!result.success);
    assert_eq!(result.message, "Failed to install left-pad: 404 not found");
}

#[test]
fn launch_failure_is_a_propagated_error() {
    let (mut flow, _) = InstallFlow::start("left-pad".to_string());
    flow.step(Event::Exists(true));
    let err = expect_finish(flow.step(Event::Ran(Err("No such file".to_string())))).unwrap_err();
    assert!(matches!(err, InstallError::Launch(_)));
    assert_eq!(err.message(), "Failed to execute npm install: No such file");
}

#[test]
fn create_failure_aborts_the_run() {
    let (mut flow, _) = InstallFlow::start("lodash".to_string());
    flow.step(Event::Exists(false));
    let err = expect_finish(flow.step(Event::Created(Err("permission denied".to_string()))))
        .unwrap_err();
    assert!(matches!(err, InstallError::CreateDir(_)));
    assert_eq!(err.message(), "Failed to create directory: permission denied");
}

#[test]
fn write_failure_aborts_the_run() {
    let (mut flow, _) = InstallFlow::start("lodash".to_string());
    flow.step(Event::Exists(false));
    flow.step(Event::Created(Ok(())));
    flow.step(Event::Exists(false));
    let err = expect_finish(flow.step(Event::Wrote(Err("disk full".to_string())))).unwrap_err();
    assert!(matches!(err, InstallError::WriteManifest(_)));
    assert_eq!(err.message(), "Failed to create package.json: disk full");
}

#[test]
fn configuration_error_message_is_prefixed() {
    let err = InstallError::Configuration("no data dir".to_string());
    assert_eq!(err.message(), "Failed to get app data directory: no data dir");
}

#[test]
fn list_without_manifest_is_empty() {
    let r = list_installed(None).unwrap();
    assert_eq!(r, Vec::<String>::new());
}

#[test]
fn list_reads_dependency_names() {
    let doc = "{\"dependencies\": {\"left-pad\": \"1.0.0\", \"lodash\": \"4.17.0\"}}";
    let r = list_installed(Some(doc)).unwrap();
    assert_eq!(r, vec!["left-pad".to_string(), "lodash".to_string()]);
}

#[test]
fn list_without_dependencies_member_is_empty() {
    let doc = "{\"name\":\"sketchjs-playground\",\"version\":\"1.0.0\",\"private\":true}";
    let r = list_installed(Some(doc)).unwrap();
    assert_eq!(r, Vec::<String>::new());
}

#[test]
fn list_of_bootstrap_manifest_is_empty() {
    let doc = bootstrap_manifest();
    let r = list_installed(Some(doc.as_str())).unwrap();
    assert_eq!(r, Vec::<String>::new());
}

#[test]
fn list_with_non_object_dependencies_is_empty() {
    let doc = "{\"dependencies\": \"left-pad\"}";
    let r = list_installed(Some(doc)).unwrap();
    assert_eq!(r, Vec::<String>::new());
}

#[test]
fn list_of_malformed_manifest_is_a_parse_error() {
    let err = list_installed(Some("{not json")).unwrap_err();
    assert!(matches!(err, ManifestError::Parse(_)));
    assert!(err.message().starts_with("Failed to parse package.json: "));
}

#[test]
fn list_of_non_object_document_is_empty() {
    let r = list_installed(Some("[1, 2, 3]")).unwrap();
    assert_eq!(r, Vec::<String>::new());
}

#[test]
fn read_error_message_is_prefixed() {
    let err = ManifestError::Read("permission denied".to_string());
    assert_eq!(err.message(), "Failed to read package.json: permission denied");
}
