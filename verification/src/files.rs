//! Remote file descriptors: parsing the provider's answers, the listing
//! request, and the per-file endpoints.

use vstd::prelude::*;
use vstd::string::StringExecFns;

use crate::errors::DriveError;

verus! {

/// A file stored in the application folder, with its shareable link.
#[derive(Debug, Clone, PartialEq, Eq)]
pub struct DriveFile {
    pub id: String,
    pub name: String,
    pub web_view_link: String,
}

/// The mathematical content of a file descriptor.
pub ghost struct FileV {
    pub id: Seq<char>,
    pub name: Seq<char>,
    pub web_view_link: Seq<char>,
}

impl View for DriveFile {
    type V = FileV;

    open spec fn view(&self) -> FileV {
        FileV { id: self.id@, name: self.name@, web_view_link: self.web_view_link@ }
    }
}

/// The views of a sequence of file descriptors.
pub open spec fn file_views(v: Seq<DriveFile>) -> Seq<FileV> {
    v.map_values(|f: DriveFile| f@)
}

/// What file descriptor a given response body carries, if it is a JSON
/// object with the `id`, `name` and `webViewLink` fields.
pub uninterp spec fn file_of(s: Seq<char>) -> Option<FileV>;

/// Relies on serde_json::from_str::<Value> and the Value accessors `get` and
/// `as_str`: reads one file descriptor out of a JSON object.
#[verifier::external_body]
pub(crate) fn parse_drive_file(s: &str) -> (r: Option<DriveFile>)
    ensures
        r is Some <==> file_of(s@) is Some,
        r matches Some(f) ==> file_of(s@) == Some(f@),
{
    let v: serde_json::Value = serde_json::from_str(s).ok()?;
    Some(DriveFile {
        id: v.get("id")?.as_str()?.to_string(),
        name: v.get("name")?.as_str()?.to_string(),
        web_view_link: v.get("webViewLink")?.as_str()?.to_string(),
    })
}

/// What list of file descriptors a given response body carries, if it is a
/// JSON object whose `files` array holds such descriptors.
pub uninterp spec fn file_list_of(s: Seq<char>) -> Option<Seq<FileV>>;

/// Relies on serde_json::from_str::<Value> and the Value accessors `get`,
/// `as_array` and `as_str`: reads the `files` array of a listing response.
#[verifier::external_body]
pub(crate) fn parse_file_list(s: &str) -> (r: Option<Vec<DriveFile>>)
    ensures
        r is Some <==> file_list_of(s@) is Some,
        r matches Some(v) ==> file_list_of(s@) == Some(file_views(v@)),
{
    let v: serde_json::Value = serde_json::from_str(s).ok()?;
    let arr = v.get("files")?.as_array()?;
    let mut out: Vec<DriveFile> = Vec::new();
    for f in arr {
        out.push(DriveFile {
            id: f.get("id")?.as_str()?.to_string(),
            name: f.get("name")?.as_str()?.to_string(),
            web_view_link: f.get("webViewLink")?.as_str()?.to_string(),
        });
    }
    Some(out)
}

/// What list of file identifiers a given response body carries, if it is a
/// JSON object whose `files` array holds objects with an `id` field.
pub uninterp spec fn id_list_of(s: Seq<char>) -> Option<Seq<Seq<char>>>;

/// The views of a sequence of identifiers.
pub open spec fn id_views(v: Seq<String>) -> Seq<Seq<char>> {
    v.map_values(|s: String| s@)
}

/// Relies on serde_json::from_str::<Value> and the Value accessors `get`,
/// `as_array` and `as_str`: reads the identifiers of the `files` array of a
/// projection-limited listing response.
#[verifier::external_body]
pub(crate) fn parse_id_list(s: &str) -> (r: Option<Vec<String>>)
    ensures
        r is Some <==> id_list_of(s@) is Some,
        r matches Some(v) ==> id_list_of(s@) == Some(id_views(v@)),
{
    let v: serde_json::Value = serde_json::from_str(s).ok()?;
    let arr = v.get("files")?.as_array()?;
    let mut out: Vec<String> = Vec::new();
    for f in arr {
        out.push(f.get("id")?.as_str()?.to_string());
    }
    Some(out)
}

/// The provider's file collection endpoint.
pub fn files_endpoint() -> (r: String)
    ensures
        r@ == "https://www.googleapis.com/drive/v3/files"@,
{
    String::from_str("https://www.googleapis.com/drive/v3/files")
}

/// The endpoint of one stored file, used to delete it.
pub fn file_url(file_id: &str) -> (r: String)
    ensures
        r@ == "https://www.googleapis.com/drive/v3/files/"@ + file_id@,
{
    let mut s = String::from_str("https://www.googleapis.com/drive/v3/files/");
    s.append(file_id);
    s
}

/// The permissions endpoint of one stored file.
pub fn permissions_url(file_id: &str) -> (r: String)
    ensures
        r@ == "https://www.googleapis.com/drive/v3/files/"@ + file_id@ + "/permissions"@,
{
    let mut s = String::from_str("https://www.googleapis.com/drive/v3/files/");
    s.append(file_id);
    s.append("/permissions");
    s
}

/// The authorization header value of an authenticated call.
pub fn bearer_header(access_token: &str) -> (r: String)
    ensures
        r@ == "Bearer "@ + access_token@,
{
    let mut s = String::from_str("Bearer ");
    s.append(access_token);
    s
}

/// The selection of the listing: the folder's non-trashed children.
pub fn list_query(folder_id: &str) -> (r: String)
    ensures
        r@ == "'"@ + folder_id@ + "' in parents and trashed = false"@,
{
    let mut s = String::from_str("'");
    s.append(folder_id);
    s.append("' in parents and trashed = false");
    s
}

/// The query parameters of the listing request: the folder's non-trashed
/// children, most recently modified first, fifty at most.
pub fn list_request_params(folder_id: &str) -> (r: Vec<(String, String)>)
    ensures
        r@.len() == 4,
        r@[0].0@ == "q"@ && r@[0].1@ == "'"@ + folder_id@ + "' in parents and trashed = false"@,
        r@[1].0@ == "orderBy"@ && r@[1].1@ == "modifiedTime desc"@,
        r@[2].0@ == "fields"@ && r@[2].1@ == "files(id,name,webViewLink)"@,
        r@[3].0@ == "pageSize"@ && r@[3].1@ == "50"@,
{
    let mut r: Vec<(String, String)> = Vec::new();
    r.push((String::from_str("q"), list_query(folder_id)));
    r.push((String::from_str("orderBy"), String::from_str("modifiedTime desc")));
    r.push((String::from_str("fields"), String::from_str("files(id,name,webViewLink)")));
    r.push((String::from_str("pageSize"), String::from_str("50")));
    r
}

/// What a deletion returns, given the transport's answer (`None` when the
/// request failed, otherwise whether the provider answered with a success
/// status): only a successful answer deletes, and a rejection is surfaced.
pub fn delete_outcome(answer: Option<bool>) -> (r: Result<(), DriveError>)
    ensures
        r is Ok <==> answer == Some(true),
        answer is None ==> r == Result::<(), DriveError>::Err(DriveError::Network),
        answer == Some(false) ==> r == Result::<(), DriveError>::Err(DriveError::RemoteRejected),
{
    match answer {
        Option::None => Result::Err(DriveError::Network),
        Option::Some(false) => Result::Err(DriveError::RemoteRejected),
        Option::Some(true) => Result::Ok(()),
    }
}

/// What the listing returns, given the transport's answer: the files of the
/// response in the order the provider sent them.
pub open spec fn list_outcome_spec(response: Option<Seq<char>>) -> Result<Seq<FileV>, DriveError> {
    match response {
        Option::None => Result::Err(DriveError::Network),
        Option::Some(s) => match file_list_of(s) {
            Option::None => Result::Err(DriveError::Malformed),
            Option::Some(files) => Result::Ok(files),
        },
    }
}

/// Decides the result of the listing from the transport's answer.
pub fn list_outcome(response: Option<String>) -> (r: Result<Vec<DriveFile>, DriveError>)
    ensures
        match r {
            Result::Ok(v) => list_outcome_spec(crate::credential::view_opt(response)) == Result::<
                Seq<FileV>,
                DriveError,
            >::Ok(file_views(v@)),
            Result::Err(e) => list_outcome_spec(crate::credential::view_opt(response)) == Result::<
                Seq<FileV>,
                DriveError,
            >::Err(e),
        },
{
    match response {
        Option::None => Result::Err(DriveError::Network),
        Option::Some(s) => match parse_file_list(s.as_str()) {
            Option::None => Result::Err(DriveError::Malformed),
            Option::Some(files) => Result::Ok(files),
        },
    }
}

} // verus!
