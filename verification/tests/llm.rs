use iacgen::llm::{
    build_prompt, combine_requirements, parse_generated_files, process_generation_response,
    strip_code_fence, system_directive,
};

#[test]
fn prompt_is_deterministic() {
    let a = build_prompt("kind: Application", "aws", "terraform");
    let b = build_prompt("kind: Application", "aws", "terraform");
    assert_eq!(a, b);
}

#[test]
fn prompt_has_exact_shape_for_project_tools() {
    let p = build_prompt("kind: App", "aws", "terraform");
    let expected = "{\"instructions\":{\"provider\":\"aws\",\"requirements\":[\"Project must be runnable by 'init/plan/apply/destroy' for the given tool.\",\"Include backend/state config if required; default to local if unspecified.\",\"Expose variables/inputs for key parameters (region, project, name, image, scaling, env).\"],\"tool\":\"terraform\"},\"oam\":\"kind: App\",\"output_format\":{\"schema\":{\"files\":{\"additionalProperties\":{\"type\":\"string\"},\"description\":\"A map of file paths to their string content.\",\"type\":\"object\"}},\"type\":\"json_object\"}}";
    assert_eq!(p, expected);
    let parsed: serde_json::Value = serde_json::from_str(&p).unwrap();
    assert_eq!(parsed["instructions"]["provider"], "aws");
    assert_eq!(parsed["oam"], "kind: App");
}

#[test]
fn prompt_escapes_spec_content() {
    let p = build_prompt("a: \"b\"\nc: d", "gcp", "gcloud");
    let parsed: serde_json::Value = serde_json::from_str(&p).unwrap();
    assert_eq!(parsed["oam"], "a: \"b\"\nc: d");
    assert!(p.contains("deploy.sh"));
}

#[test]
fn combined_requirements_start_with_directive() {
    let c = combine_requirements("PROMPT");
    assert_eq!(c, format!("{}\n\nUser Prompt:\n{}", system_directive(), "PROMPT"));
}

#[test]
fn fence_is_stripped() {
    assert_eq!(strip_code_fence("```json\n{\"a\":1}\n```"), "{\"a\":1}");
    assert_eq!(strip_code_fence("  {\"a\":1}  "), "{\"a\":1}");
    assert_eq!(strip_code_fence("```json{}```"), "{}");
}

#[test]
fn half_fenced_payload_falls_back_to_the_original() {
    // An opener without a closer keeps the payload as it came, trimmed.
    assert_eq!(strip_code_fence("```json\n{}"), "```json\n{}");
    // A closer alone is stripped off.
    assert_eq!(strip_code_fence("{}```"), "{}");
}

#[test]
fn fenced_and_unfenced_payloads_parse_identically() {
    let payload = "{\"files\":{\"main.tf\":\"x\"}}";
    let fenced = format!("```json\n{}\n```", payload);
    let a = parse_generated_files(payload).unwrap();
    let b = parse_generated_files(&fenced).unwrap();
    assert_eq!(a.files, b.files);
    assert_eq!(a.files, vec![("main.tf".to_string(), "x".to_string())]);
}

#[test]
fn invalid_payload_error_carries_content() {
    let e = parse_generated_files("not json").unwrap_err();
    assert!(e.starts_with("Failed to parse file map from AI response `code` field: "));
    assert!(e.ends_with(". Content was: not json"));
}

#[test]
fn wrong_shape_payload_is_rejected() {
    let e = parse_generated_files("{\"files\":{\"a\":1}}").unwrap_err();
    assert!(e.contains("Failed to parse file map"));
    let e2 = parse_generated_files("{\"nofiles\":{}}").unwrap_err();
    assert!(e2.contains("Failed to parse file map"));
}

#[test]
fn escaping_paths_are_detected() {
    let g = parse_generated_files(
        "{\"files\":{\"ok/a.txt\":\"x\",\"../evil.txt\":\"y\"}}",
    )
    .unwrap();
    assert_eq!(g.first_unsafe_path(), Some(&"../evil.txt".to_string()));
    let safe = parse_generated_files("{\"files\":{\"ok/a.txt\":\"x\",\"b.txt\":\"y\"}}").unwrap();
    assert_eq!(safe.first_unsafe_path(), None);
    let abs = parse_generated_files("{\"files\":{\"/etc/passwd\":\"x\"}}").unwrap();
    assert_eq!(abs.first_unsafe_path(), Some(&"/etc/passwd".to_string()));
    let inner = parse_generated_files("{\"files\":{\"a/../b.txt\":\"x\"}}").unwrap();
    assert_eq!(inner.first_unsafe_path(), Some(&"a/../b.txt".to_string()));
    let dots = parse_generated_files("{\"files\":{\"a..b/c..\":\"x\",\"..a/b\":\"y\"}}").unwrap();
    assert_eq!(dots.first_unsafe_path(), None);
}

#[test]
fn non_success_status_fails_with_body() {
    let e = process_generation_response(false, "boom").unwrap_err();
    assert_eq!(e, "Local AI service request failed: boom");
}

#[test]
fn envelope_without_code_field_is_rejected() {
    let e = process_generation_response(true, "{\"notcode\":\"x\"}").unwrap_err();
    assert_eq!(e, "the response JSON has no string `code` field");
}

#[test]
fn successful_envelope_parses_files() {
    let payload = "{\"files\":{\"b.txt\":\"two\",\"a.txt\":\"one\"}}";
    let body = format!("{{\"code\":{}}}", serde_json::to_string(payload).unwrap());
    let g = process_generation_response(true, &body).unwrap();
    assert_eq!(
        g.files,
        vec![("a.txt".to_string(), "one".to_string()), ("b.txt".to_string(), "two".to_string())]
    );
    assert_eq!(g.get_file("a.txt"), Some(&"one".to_string()));
    assert_eq!(g.get_file("missing.txt"), None);
}
