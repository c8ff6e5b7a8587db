use iacgen::archive::{build_archive, WalkEntry};
use iacgen::config::Config;
use iacgen::logger::format_log_entry;
use iacgen::storage::{AzureStorage, BackendChoice, GcsStorage, S3Storage, Storage, select_backend};

fn file(path: &str, bytes: &[u8]) -> WalkEntry {
    WalkEntry { path: path.to_string(), content: Some(bytes.to_vec()) }
}

fn dir(path: &str) -> WalkEntry {
    WalkEntry { path: path.to_string(), content: None }
}

#[test]
fn archive_round_trip_preserves_paths_and_bytes() {
    let entries = vec![
        dir(""),
        dir("sub"),
        file("sub/a.txt", b"alpha"),
        file("top.bin", &[0u8, 1, 2, 255]),
        dir("empty"),
    ];
    let bytes = build_archive(&entries);
    let mut zip = zip::ZipArchive::new(std::io::Cursor::new(bytes)).unwrap();
    let mut names: Vec<String> = Vec::new();
    for i in 0..zip.len() {
        names.push(zip.by_index(i).unwrap().name().to_string());
    }
    names.sort();
    assert_eq!(
        names,
        vec![
            "empty/".to_string(),
            "sub/".to_string(),
            "sub/a.txt".to_string(),
            "top.bin".to_string()
        ]
    );
    let mut a = Vec::new();
    std::io::Read::read_to_end(&mut zip.by_name("sub/a.txt").unwrap(), &mut a).unwrap();
    assert_eq!(a, b"alpha");
    let mut t = Vec::new();
    std::io::Read::read_to_end(&mut zip.by_name("top.bin").unwrap(), &mut t).unwrap();
    assert_eq!(t, vec![0u8, 1, 2, 255]);
}

#[test]
fn archive_bytes_are_deterministic() {
    let entries = vec![dir(""), file("x.txt", b"same")];
    let a = build_archive(&entries);
    let b = build_archive(&entries);
    assert_eq!(a, b);
}

#[test]
fn log_line_has_exact_json_shape() {
    let line = format_log_entry("2024-01-01T00:00:00Z", "", "req-1", "", 0, "Fetching OAM file...");
    assert_eq!(
        line,
        "{\"code\":0,\"external_id\":\"req-1\",\"message\":\"Fetching OAM file...\",\"out_dir\":\"\",\"request_id\":\"\",\"timestamp\":\"2024-01-01T00:00:00Z\"}"
    );
    let parsed: serde_json::Value = serde_json::from_str(&line).unwrap();
    assert_eq!(parsed["code"], 0);
    assert_eq!(parsed["external_id"], "req-1");
}

#[test]
fn log_line_escapes_message_characters() {
    let line = format_log_entry("t", "r", "e", "gs://b/k", 1, "bad \"quote\"\nnew\tline\u{1}");
    let parsed: serde_json::Value = serde_json::from_str(&line).unwrap();
    assert_eq!(parsed["message"], "bad \"quote\"\nnew\tline\u{1}");
    assert!(line.contains("\\\"quote\\\""));
    assert!(line.contains("\\n"));
    assert!(line.contains("\\t"));
    assert!(line.contains("\\u0001"));
    let neg = format_log_entry("t", "r", "e", "", -12, "m");
    assert!(neg.contains("\"code\":-12,"));
}

#[test]
fn config_requires_database_url() {
    let e = Config::from_values(None, None, None, None, None).unwrap_err();
    assert_eq!(e, "DATABASE_URL must be set");
}

#[test]
fn config_defaults_provider_and_checks_buckets() {
    let e = Config::from_values(Some("pg://db".to_string()), None, None, None, None).unwrap_err();
    assert_eq!(e, "STORAGE_PROVIDER is 'gcs' but GCS_BUCKET is not set");
    let e = Config::from_values(
        Some("pg://db".to_string()),
        Some("s3".to_string()),
        None,
        None,
        None,
    )
    .unwrap_err();
    assert_eq!(e, "STORAGE_PROVIDER is 's3' but AWS_S3_BUCKET is not set");
    let e = Config::from_values(
        Some("pg://db".to_string()),
        Some("azure".to_string()),
        None,
        None,
        None,
    )
    .unwrap_err();
    assert_eq!(e, "STORAGE_PROVIDER is 'azure' but AZURE_BLOB_CONTAINER is not set");
    let c = Config::from_values(
        Some("pg://db".to_string()),
        None,
        Some("bkt".to_string()),
        None,
        None,
    )
    .unwrap();
    assert_eq!(c.database_url, "pg://db");
    assert_eq!(c.storage_provider, "gcs");
    assert_eq!(c.gcs_bucket, Some("bkt".to_string()));
}

#[test]
fn gcs_destination_is_scheme_qualified() {
    let g = GcsStorage { bucket: "bkt".to_string() };
    let p = g.destination("req-1/now.zip").unwrap();
    assert_eq!(p, "gs://bkt/req-1/now.zip");
}

#[test]
fn placeholder_backends_always_fail() {
    let e = S3Storage.destination("k").unwrap_err();
    assert_eq!(e, "AWS S3 storage is not yet implemented");
    let e = AzureStorage.destination("k").unwrap_err();
    assert_eq!(e, "Azure Blob storage is not yet implemented");
}

#[test]
fn backend_selection_follows_provider() {
    let bucket = Some("bkt".to_string());
    match select_backend("gcs", &bucket).unwrap() {
        BackendChoice::Gcs(g) => assert_eq!(g.bucket, "bkt"),
        _ => panic!("expected the reference backend"),
    }
    assert!(matches!(select_backend("s3", &None).unwrap(), BackendChoice::S3(_)));
    assert!(matches!(select_backend("azure", &None).unwrap(), BackendChoice::Azure(_)));
    let e = select_backend("gcs", &None).unwrap_err();
    assert_eq!(e, "STORAGE_PROVIDER is 'gcs' but GCS_BUCKET is not set");
    let e = select_backend("ftp", &None).unwrap_err();
    assert_eq!(e, "Unsupported storage provider");
}
