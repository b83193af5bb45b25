use cloudtray::errors::DriveError;
use cloudtray::files::{
    bearer_header, delete_outcome, file_url, list_outcome, list_request_params, permissions_url,
};
use cloudtray::folder::{
    created_folder_outcome, folder_grant_outcome, folder_search_params, folder_search_query,
    search_outcome, DriveFolder,
};
use cloudtray::json_text::{folder_metadata_json, permission_json};

#[test]
fn search_picks_the_first_match() {
    let body = r#"{"files":[{"id":"one","name":"CloudTray"},{"id":"two","name":"CloudTray"}]}"#;
    let f = search_outcome(Some(body.to_string())).unwrap().unwrap();
    assert_eq!(f.id, "one");
    assert_eq!(f.name, "CloudTray");
}

#[test]
fn search_with_no_match_asks_for_creation() {
    let body = r#"{"files":[]}"#;
    assert_eq!(search_outcome(Some(body.to_string())), Ok(None));
}

#[test]
fn search_failures() {
    assert_eq!(search_outcome(None), Err(DriveError::Network));
    assert_eq!(
        search_outcome(Some("nope".to_string())),
        Err(DriveError::Malformed)
    );
}

#[test]
fn creation_outcome_variants() {
    let body = r#"{"id":"fresh","name":"CloudTray"}"#;
    let f = created_folder_outcome(Some((true, body.to_string()))).unwrap();
    assert_eq!(f.id, "fresh");
    assert_eq!(created_folder_outcome(None), Err(DriveError::Network));
    assert_eq!(
        created_folder_outcome(Some((false, body.to_string()))),
        Err(DriveError::RemoteRejected)
    );
    assert_eq!(
        created_folder_outcome(Some((true, "{}".to_string()))),
        Err(DriveError::Malformed)
    );
}

#[test]
fn folder_grant_is_surfaced() {
    let f = DriveFolder { id: "a".to_string(), name: "CloudTray".to_string() };
    assert_eq!(folder_grant_outcome(f.clone(), Some(true)), Ok(f.clone()));
    assert_eq!(
        folder_grant_outcome(f.clone(), Some(false)),
        Err(DriveError::PermissionDenied)
    );
    assert_eq!(folder_grant_outcome(f, None), Err(DriveError::Network));
}

#[test]
fn resolution_is_idempotent_over_a_simulated_namespace() {
    // First pass: nothing exists, so the folder is created; the provider's
    // namespace then holds exactly one folder of that name. A second pass
    // finds it and creates nothing.
    let mut namespace: Vec<DriveFolder> = Vec::new();

    let empty = r#"{"files":[]}"#;
    assert_eq!(search_outcome(Some(empty.to_string())), Ok(None));
    let created =
        created_folder_outcome(Some((true, r#"{"id":"c1","name":"CloudTray"}"#.to_string())))
            .unwrap();
    namespace.push(created.clone());

    // Second pass: the search now answers with the namespace's content.
    let body = format!(
        r#"{{"files":[{{"id":"{}","name":"{}"}}]}}"#,
        namespace[0].id, namespace[0].name
    );
    let found = search_outcome(Some(body)).unwrap().unwrap();
    assert_eq!(found.id, created.id);
    assert_eq!(namespace.len(), 1);
}

#[test]
fn search_request_text() {
    assert_eq!(
        folder_search_query(),
        "name = 'CloudTray' and mimeType = 'application/vnd.google-apps.folder' and trashed = false"
    );
    let params = folder_search_params();
    assert_eq!(params.len(), 2);
    assert_eq!(params[1], ("fields".to_string(), "files(id, name)".to_string()));
}

#[test]
fn request_bodies() {
    assert_eq!(
        folder_metadata_json(),
        r#"{"mimeType":"application/vnd.google-apps.folder","name":"CloudTray"}"#
    );
    assert_eq!(permission_json(), r#"{"role":"reader","type":"anyone"}"#);
}

#[test]
fn listing_request_and_outcome() {
    let params = list_request_params("folder123");
    assert_eq!(params.len(), 4);
    assert_eq!(
        params[0].1,
        "'folder123' in parents and trashed = false"
    );
    assert_eq!(params[1], ("orderBy".to_string(), "modifiedTime desc".to_string()));
    assert_eq!(params[2].1, "files(id,name,webViewLink)");
    assert_eq!(params[3], ("pageSize".to_string(), "50".to_string()));

    let body = r#"{"files":[{"id":"b","name":"newer.png","webViewLink":"lb"},{"id":"a","name":"older.png","webViewLink":"la"}]}"#;
    let files = list_outcome(Some(body.to_string())).unwrap();
    assert_eq!(files.len(), 2);
    assert_eq!(files[0].name, "newer.png");
    assert_eq!(files[1].name, "older.png");
    assert_eq!(list_outcome(None), Err(DriveError::Network));
    assert_eq!(
        list_outcome(Some("bad".to_string())),
        Err(DriveError::Malformed)
    );
}

#[test]
fn delete_outcome_variants() {
    assert_eq!(delete_outcome(Some(true)), Ok(()));
    assert_eq!(delete_outcome(Some(false)), Err(DriveError::RemoteRejected));
    assert_eq!(delete_outcome(None), Err(DriveError::Network));
}

#[test]
fn per_file_urls() {
    assert_eq!(
        file_url("abc"),
        "https://www.googleapis.com/drive/v3/files/abc"
    );
    assert_eq!(
        permissions_url("abc"),
        "https://www.googleapis.com/drive/v3/files/abc/permissions"
    );
    assert_eq!(bearer_header("tok"), "Bearer tok");
}
