use cloudtray::errors::DriveError;
use cloudtray::upload::{
    build_upload_body, mime_type_for, multipart_content_type, permission_grant_outcome,
    upload_endpoint, uploaded_file_outcome,
};
use cloudtray::files::DriveFile;
use cloudtray::folder::search_outcome;
use cloudtray::retention::{purge_request_params, purge_targets, retention_cutoff};

#[test]
fn mime_types_from_extension() {
    assert_eq!(mime_type_for("report.png"), "image/png");
    assert_eq!(mime_type_for("SHOT.PNG"), "image/png");
    assert_eq!(mime_type_for("photo.jpg"), "image/jpeg");
    assert_eq!(mime_type_for("photo.JPeG"), "image/jpeg");
    assert_eq!(mime_type_for("notes.txt"), "application/octet-stream");
    assert_eq!(mime_type_for("png"), "application/octet-stream");
    assert_eq!(mime_type_for(""), "application/octet-stream");
}

#[test]
fn multipart_body_layout() {
    let content: Vec<u8> = vec![7u8; 10];
    let (body, progress) = build_upload_body(&content, "report.png", "folder123");
    let mut expected: Vec<u8> = Vec::new();
    expected.extend_from_slice(
        b"--foo_bar_baz\r\nContent-Type: application/json; charset=UTF-8\r\n\r\n",
    );
    expected.extend_from_slice(b"{\"name\":\"report.png\",\"parents\":[\"folder123\"]}");
    expected.extend_from_slice(b"\r\n");
    expected.extend_from_slice(b"--foo_bar_baz\r\nContent-Type: image/png\r\n\r\n");
    expected.extend_from_slice(&content);
    expected.extend_from_slice(b"\r\n--foo_bar_baz--");
    assert_eq!(body, expected);
    // Fewer than sixty bytes: a single jump.
    assert_eq!(progress, vec![10, 20, 90]);
}

#[test]
fn metadata_name_is_escaped() {
    let content: Vec<u8> = vec![1u8];
    let (body, _) = build_upload_body(&content, "a\"b\\c\n.txt", "f");
    let text = String::from_utf8_lossy(&body).to_string();
    assert!(text.contains("{\"name\":\"a\\\"b\\\\c\\n.txt\",\"parents\":[\"f\"]}"));
}

#[test]
fn progress_ramp_for_long_payload() {
    let content: Vec<u8> = vec![0u8; 120];
    let (_, progress) = build_upload_body(&content, "report.png", "folder123");
    // chunk size 2, sixty chunks after the two fixed steps
    assert_eq!(progress.len(), 62);
    assert_eq!(progress[0], 10);
    assert_eq!(progress[1], 20);
    assert_eq!(progress[2], 20);
    assert_eq!(*progress.last().unwrap(), 88);
    let mut with_completion = progress.clone();
    with_completion.push(100);
    for pair in with_completion.windows(2) {
        assert!(pair[0] <= pair[1]);
    }
    assert_eq!(*with_completion.last().unwrap(), 100);
}

#[test]
fn progress_is_monotone_for_odd_sizes() {
    for n in [1usize, 59, 60, 61, 119, 121, 600, 601] {
        let content: Vec<u8> = vec![3u8; n];
        let (_, mut progress) = build_upload_body(&content, "x.bin", "f");
        progress.push(100);
        for pair in progress.windows(2) {
            assert!(pair[0] <= pair[1]);
        }
        assert_eq!(*progress.last().unwrap(), 100);
    }
}

#[test]
fn upload_outcome_variants() {
    let good = r#"{"id":"f1","name":"report.png","webViewLink":"https://drive.example/f1"}"#;
    let f = uploaded_file_outcome(Some((true, good.to_string()))).unwrap();
    assert_eq!(f.id, "f1");
    assert_eq!(f.name, "report.png");
    assert_eq!(f.web_view_link, "https://drive.example/f1");
    assert_eq!(uploaded_file_outcome(None), Err(DriveError::Network));
    assert_eq!(
        uploaded_file_outcome(Some((false, good.to_string()))),
        Err(DriveError::RemoteRejected)
    );
    assert_eq!(
        uploaded_file_outcome(Some((true, "oops".to_string()))),
        Err(DriveError::Malformed)
    );
}

#[test]
fn permission_outcome_variants() {
    let f = DriveFile {
        id: "f1".to_string(),
        name: "report.png".to_string(),
        web_view_link: "l".to_string(),
    };
    assert_eq!(permission_grant_outcome(f.clone(), Some(true)), Ok(f.clone()));
    assert_eq!(
        permission_grant_outcome(f.clone(), Some(false)),
        Err(DriveError::PermissionDenied)
    );
    assert_eq!(permission_grant_outcome(f, None), Err(DriveError::Network));
}

#[test]
fn upload_request_constants() {
    assert_eq!(
        upload_endpoint(),
        "https://www.googleapis.com/upload/drive/v3/files?uploadType=multipart&fields=id,name,webViewLink"
    );
    assert_eq!(
        multipart_content_type(),
        "multipart/related; boundary=foo_bar_baz"
    );
}

#[test]
fn end_to_end_upload_scenario() {
    // A 120-byte file staged with a 24-hour window and nothing expired.
    let search_body = r#"{"files":[{"id":"folder123","name":"CloudTray"}]}"#;
    let folder = search_outcome(Some(search_body.to_string())).unwrap().unwrap();
    assert_eq!(folder.id, "folder123");

    let now_ms: i64 = 2 * 86400000;
    let cutoff = retention_cutoff(now_ms, 24).unwrap();
    assert_eq!(cutoff, 86400000);
    let params = purge_request_params(&folder.id, cutoff).unwrap();
    assert_eq!(params[0].0, "q");
    assert_eq!(
        params[0].1,
        "'folder123' in parents and trashed = false and modifiedTime < '1970-01-02T00:00:00.000Z'"
    );
    // One retention query, zero deletions.
    let deletions = purge_targets(Some(r#"{"files":[]}"#.to_string())).unwrap();
    assert_eq!(deletions.len(), 0);

    let content: Vec<u8> = vec![9u8; 120];
    assert_eq!(mime_type_for("report.png"), "image/png");
    let (body, mut progress) = build_upload_body(&content, "report.png", &folder.id);
    assert!(body.len() > 120);
    progress.push(100);
    assert_eq!(*progress.last().unwrap(), 100);

    let answer = r#"{"id":"up1","name":"report.png","webViewLink":"https://drive.example/up1"}"#;
    let uploaded = uploaded_file_outcome(Some((true, answer.to_string()))).unwrap();
    let shared = permission_grant_outcome(uploaded, Some(true)).unwrap();
    assert_eq!(shared.name, "report.png");
}
