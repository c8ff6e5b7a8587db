use iacgen::archive::WalkEntry;
use iacgen::orchestrator::{GenerationRequest, Pipeline, Stage};
use iacgen::storage::{GcsStorage, S3Storage};

fn request(external_id: &str) -> GenerationRequest {
    GenerationRequest {
        oam_url: "http://example.com/app.yaml".to_string(),
        external_id: external_id.to_string(),
        provider: "gcp".to_string(),
        tool: "gcloud".to_string(),
    }
}

fn generation_body(payload: &str) -> String {
    let lit = serde_json::to_string(payload).unwrap();
    format!("{{\"code\":{}}}", lit)
}

#[test]
fn successful_run_yields_archive_and_deploy_script() {
    let mut p = Pipeline::new(request("req-1"));
    p.on_fetch_ok("apiVersion: core.oam.dev/v1beta1\nkind: Application\n".to_string());
    let prompt = p.make_prompt();
    assert!(prompt.contains("\"tool\":\"gcloud\""));

    let payload = "{\"files\":{\"main.tf\":\"resource \\\"x\\\" {}\",\"deploy.sh\":\"#!/bin/sh\\necho hi\"}}";
    p.on_generation_response(true, &generation_body(payload));
    assert!(matches!(p.stage, Stage::Materializing));
    let files = p.files.as_ref().unwrap().files.clone();
    assert_eq!(files.len(), 2);

    p.on_materialize_ok();
    let mut walk: Vec<WalkEntry> = Vec::new();
    for (path, content) in &files {
        walk.push(WalkEntry { path: path.clone(), content: Some(content.as_bytes().to_vec()) });
    }
    p.on_workspace_walked(&walk);
    assert!(matches!(p.stage, Stage::Uploading));
    let bytes = p.archive.as_ref().unwrap().clone();

    let mut zip = zip::ZipArchive::new(std::io::Cursor::new(bytes)).unwrap();
    let mut names: Vec<String> = Vec::new();
    for i in 0..zip.len() {
        names.push(zip.by_index(i).unwrap().name().to_string());
    }
    names.sort();
    assert_eq!(names, vec!["deploy.sh".to_string(), "main.tf".to_string()]);
    let mut script = String::new();
    std::io::Read::read_to_string(&mut zip.by_name("deploy.sh").unwrap(), &mut script).unwrap();
    assert_eq!(script, "#!/bin/sh\necho hi");

    let backend = GcsStorage { bucket: "bkt".to_string() };
    let path = p.begin_upload(&backend, "2024-01-01T00:00:00Z").unwrap();
    assert_eq!(path, "gs://bkt/req-1/2024-01-01T00:00:00Z.zip");
    p.on_upload_ok(&path);
    assert!(matches!(p.stage, Stage::Persisting));
    p.on_persist_result(true);
    p.on_cleanup_done();
    assert!(matches!(p.stage, Stage::Done));

    let (status, body) = p.response();
    assert_eq!(status, 200);
    assert_eq!(
        body,
        "{\"deploy_script\":\"#!/bin/sh\\necho hi\",\"message\":\"Successfully generated and uploaded IaC to gs://bkt/req-1/2024-01-01T00:00:00Z.zip\"}"
    );
}

#[test]
fn fetch_failure_is_logged_and_surfaced() {
    let mut p = Pipeline::new(request("req-err"));
    p.on_fetch_err(true, "connection refused");
    assert!(matches!(p.stage, Stage::CleaningUp));
    assert!(p.files.is_none());
    p.on_cleanup_done();
    assert!(matches!(p.stage, Stage::Failed));
    let (status, body) = p.response();
    assert_eq!(status, 500);
    assert_eq!(body, "Failed to fetch OAM file URL: connection refused");
    assert!(p.log.iter().any(|r| r.code == 1 && r.message.contains("Failed to fetch OAM file URL")));
}

#[test]
fn fetch_body_read_failure_uses_content_message() {
    let mut p = Pipeline::new(request("req-body"));
    p.on_fetch_err(false, "stream cut");
    p.on_cleanup_done();
    let (status, body) = p.response();
    assert_eq!(status, 500);
    assert_eq!(body, "Failed to read OAM file content: stream cut");
}

#[test]
fn generation_failure_short_circuits() {
    let mut p = Pipeline::new(request("req-gen"));
    p.on_fetch_ok("kind: Application".to_string());
    let _ = p.make_prompt();
    p.on_generation_response(false, "service exploded");
    assert!(matches!(p.stage, Stage::CleaningUp));
    assert!(p.files.is_none());
    assert!(p.archive.is_none());
    p.on_cleanup_done();
    let (status, body) = p.response();
    assert_eq!(status, 500);
    assert_eq!(
        body,
        "Failed to generate files from LLM: Local AI service request failed: service exploded"
    );
}

#[test]
fn unparsable_generation_payload_fails_with_content() {
    let mut p = Pipeline::new(request("req-parse"));
    p.on_fetch_ok("kind: Application".to_string());
    let _ = p.make_prompt();
    p.on_generation_response(true, &generation_body("this is not json"));
    assert!(matches!(p.stage, Stage::CleaningUp));
    p.on_cleanup_done();
    let (status, body) = p.response();
    assert_eq!(status, 500);
    assert!(body.starts_with(
        "Failed to generate files from LLM: Failed to parse file map from AI response `code` field: "
    ));
    assert!(body.ends_with(". Content was: this is not json"));
}

#[test]
fn materialize_failure_aborts_pipeline() {
    let mut p = Pipeline::new(request("req-mat"));
    p.on_fetch_ok("kind: Application".to_string());
    let _ = p.make_prompt();
    p.on_generation_response(true, &generation_body("{\"files\":{\"a.txt\":\"x\"}}"));
    p.on_materialize_err("disk full");
    p.on_cleanup_done();
    let (status, body) = p.response();
    assert_eq!(status, 500);
    assert_eq!(body, "Failed to write generated files to workspace: disk full");
}

#[test]
fn unimplemented_backend_fails_upload_without_success_record() {
    let mut p = Pipeline::new(request("req-s3"));
    p.on_fetch_ok("kind: Application".to_string());
    let _ = p.make_prompt();
    p.on_generation_response(true, &generation_body("{\"files\":{\"a.txt\":\"x\"}}"));
    p.on_materialize_ok();
    let walk = vec![WalkEntry { path: "a.txt".to_string(), content: Some(b"x".to_vec()) }];
    p.on_workspace_walked(&walk);
    let r = p.begin_upload(&S3Storage, "2024-01-01T00:00:00Z");
    assert!(r.is_none());
    assert!(matches!(p.stage, Stage::CleaningUp));
    assert!(matches!(p.outcome, Some(Err(_))));
    p.on_cleanup_done();
    assert!(matches!(p.stage, Stage::Failed));
    let (status, body) = p.response();
    assert_eq!(status, 500);
    assert!(body.contains("not yet implemented"));
    assert_eq!(body, "Failed to upload to storage: AWS S3 storage is not yet implemented");
}

#[test]
fn upload_transfer_failure_is_surfaced() {
    let mut p = Pipeline::new(request("req-up"));
    p.on_fetch_ok("kind: Application".to_string());
    let _ = p.make_prompt();
    p.on_generation_response(true, &generation_body("{\"files\":{\"a.txt\":\"x\"}}"));
    p.on_materialize_ok();
    let walk = vec![WalkEntry { path: "a.txt".to_string(), content: Some(b"x".to_vec()) }];
    p.on_workspace_walked(&walk);
    p.on_upload_err("bucket gone");
    p.on_cleanup_done();
    let (status, body) = p.response();
    assert_eq!(status, 500);
    assert_eq!(body, "Failed to upload to storage: bucket gone");
}

#[test]
fn persist_failure_does_not_change_success_response() {
    let mut p = Pipeline::new(request("req-db"));
    p.on_fetch_ok("kind: Application".to_string());
    let _ = p.make_prompt();
    p.on_generation_response(true, &generation_body("{\"files\":{\"a.txt\":\"x\"}}"));
    p.on_materialize_ok();
    let walk = vec![WalkEntry { path: "a.txt".to_string(), content: Some(b"x".to_vec()) }];
    p.on_workspace_walked(&walk);
    let backend = GcsStorage { bucket: "bkt".to_string() };
    let path = p.begin_upload(&backend, "2024-06-01T12:00:00Z").unwrap();
    p.on_upload_ok(&path);
    p.on_persist_result(false);
    p.on_cleanup_done();
    assert!(matches!(p.stage, Stage::Done));
    let (status, body) = p.response();
    assert_eq!(status, 200);
    assert!(body.contains("Successfully generated and uploaded IaC to gs://bkt/req-db/2024-06-01T12:00:00Z.zip"));
    assert_eq!(
        body,
        "{\"deploy_script\":\"\",\"message\":\"Successfully generated and uploaded IaC to gs://bkt/req-db/2024-06-01T12:00:00Z.zip\"}"
    );
}
