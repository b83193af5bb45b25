//! The retention rule: the cutoff computed from the retention window, the
//! query that selects the expired children of the application folder, and
//! the rule's exactness — a purge removes precisely the files older than
//! the cutoff, and a second immediate purge removes nothing.

use vstd::prelude::*;
use vstd::string::StringExecFns;

use crate::errors::DriveError;
use crate::files::id_list_of;
use crate::files::id_views;
use crate::files::parse_id_list;

verus! {

/// The number of milliseconds in one hour.
pub const MILLIS_PER_HOUR: i64 = 3600000;

/// Computes the purge cutoff: the moment `retention_hours` before `now_ms`.
/// Nothing is returned only when the cutoff would leave the representable
/// range.
pub fn retention_cutoff(now_ms: i64, retention_hours: i64) -> (r: Option<i64>)
    requires
        retention_hours >= 0,
    ensures
        match r {
            Some(c) => c == now_ms - retention_hours * (MILLIS_PER_HOUR as int),
            None => now_ms - retention_hours * (MILLIS_PER_HOUR as int) < i64::MIN,
        },
{
    proof {
        vstd::arithmetic::mul::lemma_mul_nonnegative(retention_hours as int, MILLIS_PER_HOUR as int);
        vstd::arithmetic::mul::lemma_mul_inequality(
            retention_hours as int,
            i64::MAX as int,
            MILLIS_PER_HOUR as int,
        );
    }
    let span: i128 = (retention_hours as i128) * (MILLIS_PER_HOUR as i128);
    let cut: i128 = (now_ms as i128) - span;
    if cut >= i64::MIN as i128 {
        Some(cut as i64)
    } else {
        None
    }
}

/// What calendar text a given timestamp renders to.
pub uninterp spec fn utc_text_of(ms: int) -> Seq<char>;

/// Whether a timestamp lies in the fixed range that calendar text can be
/// rendered for: a span of roughly 262,000 years either side of the common
/// era, a function of the timestamp alone.
pub uninterp spec fn ts_representable(ms: int) -> bool;

/// Relies on chrono's DateTime::from_timestamp_millis and format: renders a
/// timestamp as UTC calendar text with millisecond precision; the text is a
/// function of the timestamp alone, and exactly the timestamps outside the
/// fixed representable range yield nothing.
#[verifier::external_body]
fn utc_timestamp_text(ms: i64) -> (r: Option<String>)
    ensures
        r is Some <==> ts_representable(ms as int),
        r matches Some(s) ==> s@ == utc_text_of(ms as int),
{
    let dt = chrono::DateTime::<chrono::Utc>::from_timestamp_millis(ms)?;
    Some(dt.format("%Y-%m-%dT%H:%M:%S.%3fZ").to_string())
}

/// Relies on chrono's Utc::now and timestamp_millis: the clock's current
/// moment as milliseconds since the epoch. Nothing is assumed of its value;
/// the call does not return on a machine whose clock is set before the epoch.
#[verifier::external_body]
fn now_millis() -> i64 {
    chrono::Utc::now().timestamp_millis()
}

/// The selection of a purge: the folder's non-trashed children modified
/// before the cutoff's calendar text.
pub open spec fn retention_query_text(folder_id: Seq<char>, cutoff_text: Seq<char>) -> Seq<char> {
    "'"@ + folder_id + "' in parents and trashed = false and modifiedTime < '"@ + cutoff_text
        + "'"@
}

/// Builds the purge selection for a concrete cutoff. Nothing is returned
/// exactly when the cutoff cannot be rendered as calendar text.
pub fn purge_query(folder_id: &str, cutoff_ms: i64) -> (r: Option<String>)
    ensures
        r is Some <==> ts_representable(cutoff_ms as int),
        r matches Some(q) ==> q@ == retention_query_text(folder_id@, utc_text_of(cutoff_ms as int)),
{
    match utc_timestamp_text(cutoff_ms) {
        Option::None => Option::None,
        Option::Some(ts) => {
            let mut s = String::from_str("'");
            s.append(folder_id);
            s.append("' in parents and trashed = false and modifiedTime < '");
            s.append(ts.as_str());
            s.append("'");
            proof {
                assert(s@ =~= retention_query_text(folder_id@, utc_text_of(cutoff_ms as int)));
            }
            Option::Some(s)
        },
    }
}

/// The query parameters of the purge's selection request for a concrete
/// cutoff. Nothing is returned exactly when the cutoff cannot be rendered
/// as calendar text.
pub fn purge_request_params(folder_id: &str, cutoff_ms: i64) -> (r: Option<Vec<(String, String)>>)
    ensures
        r is Some <==> ts_representable(cutoff_ms as int),
        r matches Some(v) ==> {
            &&& v@.len() == 2
            &&& v@[0].0@ == "q"@
            &&& v@[0].1@ == retention_query_text(folder_id@, utc_text_of(cutoff_ms as int))
            &&& v@[1].0@ == "fields"@
            &&& v@[1].1@ == "files(id)"@
        },
{
    match purge_query(folder_id, cutoff_ms) {
        Option::None => Option::None,
        Option::Some(q) => {
            let mut v: Vec<(String, String)> = Vec::new();
            v.push((String::from_str("q"), q));
            v.push((String::from_str("fields"), String::from_str("files(id)")));
            Option::Some(v)
        },
    }
}

/// Whether the cutoff that a clock reading and a retention window yield can
/// be used: it stays in the timestamp range and renders as calendar text.
pub open spec fn purgeable_cutoff(now: int, retention_hours: int) -> bool {
    i64::MIN <= now - retention_hours * (MILLIS_PER_HOUR as int) && ts_representable(
        now - retention_hours * (MILLIS_PER_HOUR as int),
    )
}

/// Builds the purge's selection parameters against the clock's present
/// moment: for some present timestamp the parameters select the folder's
/// children modified more than the retention window ago. Nothing is
/// returned only when the cutoff the clock gave cannot be used: it left the
/// timestamp range or cannot be rendered as calendar text.
pub fn purge_request_params_now(folder_id: &str, retention_hours: i64) -> (r: Option<
    Vec<(String, String)>,
>)
    requires
        retention_hours >= 0,
    ensures
        r matches Some(v) ==> {
            &&& v@.len() == 2
            &&& v@[0].0@ == "q"@
            &&& exists|cut: int|
                v@[0].1@ == retention_query_text(folder_id@, #[trigger] utc_text_of(cut))
            &&& v@[1].0@ == "fields"@
            &&& v@[1].1@ == "files(id)"@
        },
        r is None ==> exists|now: int|
            i64::MIN <= now <= i64::MAX && !(#[trigger] purgeable_cutoff(
                now,
                retention_hours as int,
            )),
{
    let now = now_millis();
    match retention_cutoff(now, retention_hours) {
        Option::None => {
            proof {
                assert(!purgeable_cutoff(now as int, retention_hours as int));
            }
            Option::None
        },
        Option::Some(cut) => {
            let r = purge_request_params(folder_id, cut);
            proof {
                if r is Some {
                    assert(r.unwrap()@[0].1@ == retention_query_text(
                        folder_id@,
                        utc_text_of(cut as int),
                    ));
                } else {
                    assert(!purgeable_cutoff(now as int, retention_hours as int));
                }
            }
            r
        },
    }
}

/// What a purge does with the selection's answer, given the transport's
/// answer: the identifiers the provider returned are the files to delete,
/// each deletion being attempted in order and best-effort.
pub open spec fn purge_targets_spec(response: Option<Seq<char>>) -> Result<
    Seq<Seq<char>>,
    DriveError,
> {
    match response {
        Option::None => Result::Err(DriveError::Network),
        Option::Some(s) => match id_list_of(s) {
            Option::None => Result::Err(DriveError::Malformed),
            Option::Some(ids) => Result::Ok(ids),
        },
    }
}

/// Decides which files a purge deletes from the selection's answer.
pub fn purge_targets(response: Option<String>) -> (r: Result<Vec<String>, DriveError>)
    ensures
        match r {
            Result::Ok(v) => purge_targets_spec(crate::credential::view_opt(response)) == Result::<
                Seq<Seq<char>>,
                DriveError,
            >::Ok(id_views(v@)),
            Result::Err(e) => purge_targets_spec(crate::credential::view_opt(response)) == Result::<
                Seq<Seq<char>>,
                DriveError,
            >::Err(e),
        },
{
    match response {
        Option::None => Result::Err(DriveError::Network),
        Option::Some(s) => match parse_id_list(s.as_str()) {
            Option::None => Result::Err(DriveError::Malformed),
            Option::Some(ids) => Result::Ok(ids),
        },
    }
}

/// A remote file together with its modification time, as the retention rule
/// sees it.
#[derive(Debug, Clone, PartialEq, Eq)]
pub struct StampedFile {
    pub id: String,
    pub modified_ms: i64,
}

/// The mathematical content of a stamped file.
pub ghost struct StampV {
    pub id: Seq<char>,
    pub modified_ms: int,
}

impl View for StampedFile {
    type V = StampV;

    open spec fn view(&self) -> StampV {
        StampV { id: self.id@, modified_ms: self.modified_ms as int }
    }
}

/// The views of a sequence of stamped files.
pub open spec fn stamp_views(v: Seq<StampedFile>) -> Seq<StampV> {
    v.map_values(|f: StampedFile| f@)
}

/// The files a purge with the given cutoff removes: exactly those modified
/// before the cutoff, in order.
pub open spec fn expired_of(files: Seq<StampV>, cutoff: int) -> Seq<StampV>
    decreases files.len(),
{
    if files.len() == 0 {
        Seq::empty()
    } else {
        let rest = expired_of(files.drop_last(), cutoff);
        if files.last().modified_ms < cutoff {
            rest.push(files.last())
        } else {
            rest
        }
    }
}

/// The files a purge with the given cutoff keeps, in order.
pub open spec fn live_of(files: Seq<StampV>, cutoff: int) -> Seq<StampV>
    decreases files.len(),
{
    if files.len() == 0 {
        Seq::empty()
    } else {
        let rest = live_of(files.drop_last(), cutoff);
        if files.last().modified_ms >= cutoff {
            rest.push(files.last())
        } else {
            rest
        }
    }
}

/// Selects the files a purge with the given cutoff removes.
pub fn select_expired(files: &Vec<StampedFile>, cutoff_ms: i64) -> (r: Vec<StampedFile>)
    ensures
        stamp_views(r@) == expired_of(stamp_views(files@), cutoff_ms as int),
{
    let mut r: Vec<StampedFile> = Vec::new();
    let n = files.len();
    let mut i: usize = 0;
    while i < n
        invariant
            n == files@.len(),
            i <= n,
            stamp_views(r@) == expired_of(stamp_views(files@.take(i as int)), cutoff_ms as int),
        decreases n - i,
    {
        proof {
            assert(stamp_views(files@.take(i + 1 as int)).drop_last() =~= stamp_views(
                files@.take(i as int),
            ));
            assert(stamp_views(files@.take(i + 1 as int)).last() == files@[i as int]@);
        }
        if files[i].modified_ms < cutoff_ms {
            let ghost r_prev = r@;
            let f = StampedFile { id: files[i].id.clone(), modified_ms: files[i].modified_ms };
            proof {
                assert(f@ == files@[i as int]@);
            }
            r.push(f);
            proof {
                assert(stamp_views(r@) =~= stamp_views(r_prev).push(f@));
            }
        }
        proof {
            assert(stamp_views(r@) =~= expired_of(
                stamp_views(files@.take(i + 1 as int)),
                cutoff_ms as int,
            ));
        }
        i += 1;
    }
    proof {
        assert(files@.take(n as int) =~= files@);
        assert(stamp_views(files@.take(n as int)) =~= stamp_views(files@));
    }
    r
}

proof fn lemma_no_expired(files: Seq<StampV>, cutoff: int)
    requires
        forall|k: int| 0 <= k < files.len() ==> #[trigger] files[k].modified_ms >= cutoff,
    ensures
        expired_of(files, cutoff) == Seq::<StampV>::empty(),
    decreases files.len(),
{
    if files.len() == 0 {
        assert(expired_of(files, cutoff) =~= Seq::<StampV>::empty());
    } else {
        lemma_no_expired(files.drop_last(), cutoff);
        assert(files.last() == files[files.len() - 1]);
    }
}

proof fn lemma_live_of_live(files: Seq<StampV>, cutoff: int)
    ensures
        forall|k: int|
            0 <= k < live_of(files, cutoff).len() ==> #[trigger] live_of(
                files,
                cutoff,
            )[k].modified_ms >= cutoff,
    decreases files.len(),
{
    if files.len() > 0 {
        lemma_live_of_live(files.drop_last(), cutoff);
        let g = live_of(files, cutoff);
        let gd = live_of(files.drop_last(), cutoff);
        assert forall|k: int| 0 <= k < g.len() implies g[k].modified_ms >= cutoff by {
            if files.last().modified_ms >= cutoff {
                if k < g.len() - 1 {
                    assert(g[k] == gd[k]);
                } else {
                    assert(g[k] == files.last());
                }
            } else {
                assert(g[k] == gd[k]);
            }
        }
    }
}

proof fn lemma_expired_members(files: Seq<StampV>, cutoff: int)
    ensures
        forall|j: int|
            0 <= j < expired_of(files, cutoff).len() ==> files.contains(
                #[trigger] expired_of(files, cutoff)[j],
            ) && expired_of(files, cutoff)[j].modified_ms < cutoff,
    decreases files.len(),
{
    if files.len() > 0 {
        lemma_expired_members(files.drop_last(), cutoff);
        let g = expired_of(files, cutoff);
        let gd = expired_of(files.drop_last(), cutoff);
        assert forall|j: int| 0 <= j < g.len() implies files.contains(g[j])
            && g[j].modified_ms < cutoff by {
            if files.last().modified_ms < cutoff && j == g.len() - 1 {
                assert(g[j] == files.last());
                assert(files[files.len() - 1] == files.last());
            } else {
                assert(g[j] == gd[j]);
                assert(files.drop_last().contains(gd[j]));
                let k = choose|k: int|
                    0 <= k < files.drop_last().len() && files.drop_last()[k] == gd[j];
                assert(files[k] == gd[j]);
            }
        }
    }
}

proof fn lemma_expired_complete(files: Seq<StampV>, cutoff: int)
    ensures
        forall|k: int|
            0 <= k < files.len() && #[trigger] files[k].modified_ms < cutoff ==> expired_of(
                files,
                cutoff,
            ).contains(files[k]),
    decreases files.len(),
{
    if files.len() > 0 {
        lemma_expired_complete(files.drop_last(), cutoff);
        let g = expired_of(files, cutoff);
        let gd = expired_of(files.drop_last(), cutoff);
        assert forall|k: int|
            0 <= k < files.len() && #[trigger] files[k].modified_ms < cutoff implies g.contains(
            files[k],
        ) by {
            if k < files.len() - 1 {
                assert(files.drop_last()[k] == files[k]);
                assert(gd.contains(files[k]));
                let j = choose|j: int| 0 <= j < gd.len() && gd[j] == files[k];
                assert(g[j] == gd[j]);
                assert(g.contains(files[k]));
            } else {
                assert(files.last() == files[k]);
                assert(g.last() == files[k]);
                assert(g[g.len() - 1] == files[k]);
            }
        }
    }
}

/// Retention is exact and settles in one pass: a purge removes exactly the
/// files modified before the cutoff — each removed file is one of the folder's
/// files older than the cutoff, and every such file is removed — and a second
/// immediate purge over the kept files removes nothing further.
pub proof fn lemma_purge_exact_and_idempotent(files: Seq<StampV>, cutoff: int)
    ensures
        forall|f: StampV|
            #[trigger] expired_of(files, cutoff).contains(f) <==> files.contains(f)
                && f.modified_ms < cutoff,
        expired_of(live_of(files, cutoff), cutoff) == Seq::<StampV>::empty(),
    decreases files.len(),
{
    lemma_live_of_live(files, cutoff);
    lemma_no_expired(live_of(files, cutoff), cutoff);
    lemma_expired_members(files, cutoff);
    lemma_expired_complete(files, cutoff);
    assert forall|f: StampV| #[trigger] expired_of(files, cutoff).contains(f) implies files.contains(
        f,
    ) && f.modified_ms < cutoff by {
        let j = choose|j: int|
            0 <= j < expired_of(files, cutoff).len() && expired_of(files, cutoff)[j] == f;
        assert(files.contains(expired_of(files, cutoff)[j]));
    }
    assert forall|f: StampV| files.contains(f) && f.modified_ms < cutoff implies #[trigger] expired_of(
        files,
        cutoff,
    ).contains(f) by {
        let k = choose|k: int| 0 <= k < files.len() && files[k] == f;
        assert(files[k].modified_ms < cutoff);
        assert(expired_of(files, cutoff).contains(files[k]));
    }
}

} // verus!
