//! Resolving the application's dedicated folder: it is searched for by name
//! on every dependent operation and created only when the search finds
//! nothing, so repeated calls never create duplicates.

use vstd::prelude::*;
use vstd::string::StringExecFns;

use crate::errors::DriveError;

verus! {

/// The application's remote folder.
#[derive(Debug, Clone, PartialEq, Eq)]
pub struct DriveFolder {
    pub id: String,
    pub name: String,
}

/// The mathematical content of a folder descriptor.
pub ghost struct FolderV {
    pub id: Seq<char>,
    pub name: Seq<char>,
}

impl View for DriveFolder {
    type V = FolderV;

    open spec fn view(&self) -> FolderV {
        FolderV { id: self.id@, name: self.name@ }
    }
}

/// The views of a sequence of folder descriptors.
pub open spec fn folder_views(v: Seq<DriveFolder>) -> Seq<FolderV> {
    v.map_values(|f: DriveFolder| f@)
}

/// What list of folder descriptors a given response body carries, if it is
/// a JSON object whose `files` array holds objects with `id` and `name`.
pub uninterp spec fn folder_list_of(s: Seq<char>) -> Option<Seq<FolderV>>;

/// Relies on serde_json::from_str::<Value> and the Value accessors `get`,
/// `as_array` and `as_str`: reads the `files` array of a folder search
/// response.
#[verifier::external_body]
pub(crate) fn parse_folder_list(s: &str) -> (r: Option<Vec<DriveFolder>>)
    ensures
        r is Some <==> folder_list_of(s@) is Some,
        r matches Some(v) ==> folder_list_of(s@) == Some(folder_views(v@)),
{
    let v: serde_json::Value = serde_json::from_str(s).ok()?;
    let arr = v.get("files")?.as_array()?;
    let mut out: Vec<DriveFolder> = Vec::new();
    for f in arr {
        out.push(DriveFolder {
            id: f.get("id")?.as_str()?.to_string(),
            name: f.get("name")?.as_str()?.to_string(),
        });
    }
    Some(out)
}

/// What folder descriptor a given response body carries, if it is a JSON
/// object with the `id` and `name` fields.
pub uninterp spec fn folder_of(s: Seq<char>) -> Option<FolderV>;

/// Relies on serde_json::from_str::<Value> and the Value accessors `get` and
/// `as_str`: reads one folder descriptor out of a JSON object.
#[verifier::external_body]
pub(crate) fn parse_created_folder(s: &str) -> (r: Option<DriveFolder>)
    ensures
        r is Some <==> folder_of(s@) is Some,
        r matches Some(f) ==> folder_of(s@) == Some(f@),
{
    let v: serde_json::Value = serde_json::from_str(s).ok()?;
    Some(DriveFolder {
        id: v.get("id")?.as_str()?.to_string(),
        name: v.get("name")?.as_str()?.to_string(),
    })
}

/// The selection that finds the application folder: a non-trashed folder
/// carrying the application's fixed name.
pub fn folder_search_query() -> (r: String)
    ensures
        r@
            == "name = 'CloudTray' and mimeType = 'application/vnd.google-apps.folder' and trashed = false"@,
{
    String::from_str(
        "name = 'CloudTray' and mimeType = 'application/vnd.google-apps.folder' and trashed = false",
    )
}

/// The query parameters of the folder search request.
pub fn folder_search_params() -> (r: Vec<(String, String)>)
    ensures
        r@.len() == 2,
        r@[0].0@ == "q"@ && r@[0].1@
            == "name = 'CloudTray' and mimeType = 'application/vnd.google-apps.folder' and trashed = false"@,
        r@[1].0@ == "fields"@ && r@[1].1@ == "files(id, name)"@,
{
    let mut r: Vec<(String, String)> = Vec::new();
    r.push((String::from_str("q"), folder_search_query()));
    r.push((String::from_str("fields"), String::from_str("files(id, name)")));
    r
}

/// The folder the search settles on: the first match, if any.
pub fn choose_folder(found: &Vec<DriveFolder>) -> (r: Option<DriveFolder>)
    ensures
        found@.len() == 0 ==> r is None,
        found@.len() > 0 ==> (r matches Some(f) && f@ == found@[0]@),
{
    if found.len() > 0 {
        Some(DriveFolder { id: found[0].id.clone(), name: found[0].name.clone() })
    } else {
        None
    }
}

/// What the folder search concludes, given the transport's answer: the first
/// matching folder when one exists, or the news that the folder must be
/// created.
pub open spec fn search_outcome_spec(response: Option<Seq<char>>) -> Result<
    Option<FolderV>,
    DriveError,
> {
    match response {
        Option::None => Result::Err(DriveError::Network),
        Option::Some(s) => match folder_list_of(s) {
            Option::None => Result::Err(DriveError::Malformed),
            Option::Some(folders) => if folders.len() > 0 {
                Result::Ok(Option::Some(folders[0]))
            } else {
                Result::Ok(Option::None)
            },
        },
    }
}

/// Decides the folder search's conclusion from the transport's answer.
pub fn search_outcome(response: Option<String>) -> (r: Result<Option<DriveFolder>, DriveError>)
    ensures
        match r {
            Result::Ok(Option::Some(f)) => search_outcome_spec(crate::credential::view_opt(response))
                == Result::<Option<FolderV>, DriveError>::Ok(Option::Some(f@)),
            Result::Ok(Option::None) => search_outcome_spec(crate::credential::view_opt(response))
                == Result::<Option<FolderV>, DriveError>::Ok(Option::None),
            Result::Err(e) => search_outcome_spec(crate::credential::view_opt(response))
                == Result::<Option<FolderV>, DriveError>::Err(e),
        },
{
    match response {
        Option::None => Result::Err(DriveError::Network),
        Option::Some(s) => match parse_folder_list(s.as_str()) {
            Option::None => Result::Err(DriveError::Malformed),
            Option::Some(folders) => Result::Ok(choose_folder(&folders)),
        },
    }
}

/// What the folder creation returns, given the transport's answer: a
/// rejected request is surfaced, and a success body must parse into a
/// folder descriptor.
pub open spec fn created_folder_spec(response: Option<(bool, Seq<char>)>) -> Result<
    FolderV,
    DriveError,
> {
    match response {
        Option::None => Result::Err(DriveError::Network),
        Option::Some((ok, s)) => {
            if !ok {
                Result::Err(DriveError::RemoteRejected)
            } else {
                match folder_of(s) {
                    Option::None => Result::Err(DriveError::Malformed),
                    Option::Some(f) => Result::Ok(f),
                }
            }
        },
    }
}

/// Decides what the folder creation's answer holds.
pub fn created_folder_outcome(response: Option<(bool, String)>) -> (r: Result<
    DriveFolder,
    DriveError,
>)
    ensures
        match r {
            Result::Ok(f) => created_folder_spec(crate::upload::view_status_opt(response))
                == Result::<FolderV, DriveError>::Ok(f@),
            Result::Err(e) => created_folder_spec(crate::upload::view_status_opt(response))
                == Result::<FolderV, DriveError>::Err(e),
        },
{
    match response {
        Option::None => Result::Err(DriveError::Network),
        Option::Some((ok, s)) => {
            if !ok {
                Result::Err(DriveError::RemoteRejected)
            } else {
                match parse_created_folder(s.as_str()) {
                    Option::None => Result::Err(DriveError::Malformed),
                    Option::Some(f) => Result::Ok(f),
                }
            }
        },
    }
}

/// What the public-read grant on a fresh folder makes of the resolution:
/// a failed or refused grant is surfaced, not swallowed.
pub open spec fn folder_grant_spec(f: FolderV, grant: Option<bool>) -> Result<FolderV, DriveError> {
    match grant {
        Option::None => Result::Err(DriveError::Network),
        Option::Some(false) => Result::Err(DriveError::PermissionDenied),
        Option::Some(true) => Result::Ok(f),
    }
}

/// Decides the final result of a folder creation from the sharing grant's
/// outcome.
pub fn folder_grant_outcome(f: DriveFolder, grant: Option<bool>) -> (r: Result<
    DriveFolder,
    DriveError,
>)
    ensures
        match r {
            Result::Ok(g) => folder_grant_spec(f@, grant) == Result::<FolderV, DriveError>::Ok(g@)
                && g == f,
            Result::Err(e) => folder_grant_spec(f@, grant) == Result::<FolderV, DriveError>::Err(
                e,
            ),
        },
{
    match grant {
        Option::None => Result::Err(DriveError::Network),
        Option::Some(false) => Result::Err(DriveError::PermissionDenied),
        Option::Some(true) => Result::Ok(f),
    }
}

/// The folders of a namespace that carry a given name, in order.
pub open spec fn named_folders(folders: Seq<FolderV>, name: Seq<char>) -> Seq<FolderV>
    decreases folders.len(),
{
    if folders.len() == 0 {
        Seq::empty()
    } else {
        let rest = named_folders(folders.drop_last(), name);
        if folders.last().name == name {
            rest.push(folders.last())
        } else {
            rest
        }
    }
}

/// One resolve-or-create pass over the provider's folder namespace: when a
/// folder of the given name exists the first match is returned and nothing
/// changes; otherwise a fresh folder is created under that name.
pub open spec fn resolve_model(folders: Seq<FolderV>, name: Seq<char>, fresh_id: Seq<char>) -> (
    FolderV,
    Seq<FolderV>,
) {
    if named_folders(folders, name).len() > 0 {
        (named_folders(folders, name)[0], folders)
    } else {
        (FolderV { id: fresh_id, name: name }, folders.push(FolderV { id: fresh_id, name: name }))
    }
}

/// Resolution is idempotent: a second pass returns the very folder the first
/// pass settled on, changes nothing further, and over the two passes at most
/// one folder has been created.
pub proof fn lemma_resolve_idempotent(
    folders: Seq<FolderV>,
    name: Seq<char>,
    id1: Seq<char>,
    id2: Seq<char>,
)
    ensures
        ({
            let (f1, s1) = resolve_model(folders, name, id1);
            let (f2, s2) = resolve_model(s1, name, id2);
            f2 == f1 && s2 == s1 && s1.len() <= folders.len() + 1
        }),
{
    if named_folders(folders, name).len() == 0 {
        let nf = FolderV { id: id1, name: name };
        let s1 = folders.push(nf);
        assert(s1.drop_last() =~= folders);
        assert(s1.last() == nf);
        assert(named_folders(folders, name) =~= Seq::<FolderV>::empty());
        assert(named_folders(s1, name) =~= seq![nf]);
    }
}

} // verus!
