//! The upload pipeline: content-type detection, the hand-built multipart
//! request body, the progress ramp reported while the body is assembled, and
//! the decisions on the provider's answers.

use vstd::prelude::*;
use vstd::arithmetic::div_mod::lemma_div_is_ordered;
use vstd::arithmetic::div_mod::lemma_multiply_divide_lt;
use vstd::string::StrSliceExecFns;
use vstd::string::StringExecFns;
use vstd::string::StringSliceAdditionalSpecFns;
use vstd::utf8::encode_utf8;

use crate::errors::DriveError;
use crate::files::DriveFile;
use crate::files::FileV;
use crate::files::file_of;
use crate::json_text::upload_metadata_text;
use crate::json_text::upload_metadata_json;

verus! {

/// Whether `a` is `b` or its upper-case ASCII form.
pub open spec fn lower_matches(a: char, b: char) -> bool {
    a == b || (65 <= a as u32 <= 90 && a as u32 + 32 == b as u32)
}

/// Whether `s` ends with `suf`, comparing ASCII letters without regard to
/// case (`suf` is given in lower case).
pub open spec fn has_suffix_ci(s: Seq<char>, suf: Seq<char>) -> bool {
    s.len() >= suf.len() && (forall|i: int|
        0 <= i < suf.len() ==> lower_matches(s[s.len() - suf.len() + i], suf[i]))
}

/// The content type an upload declares: recognized image extensions keep
/// their type, everything else is generic binary.
pub open spec fn mime_text(name: Seq<char>) -> Seq<char> {
    if has_suffix_ci(name, ".png"@) {
        "image/png"@
    } else if has_suffix_ci(name, ".jpg"@) || has_suffix_ci(name, ".jpeg"@) {
        "image/jpeg"@
    } else {
        "application/octet-stream"@
    }
}

fn char_matches(a: char, b: char) -> (r: bool)
    ensures
        r == lower_matches(a, b),
{
    let x = a as u32;
    let y = b as u32;
    x == y || (65 <= x && x <= 90 && x + 32 == y)
}

fn suffix_matches(s: &str, suf: &str) -> (r: bool)
    ensures
        r == has_suffix_ci(s@, suf@),
{
    let n = s.unicode_len();
    let m = suf.unicode_len();
    if n < m {
        return false;
    }
    let mut i: usize = 0;
    while i < m
        invariant
            n == s@.len(),
            m == suf@.len(),
            m <= n,
            i <= m,
            forall|j: int| 0 <= j < i ==> lower_matches(s@[n - m + j], suf@[j]),
        decreases m - i,
    {
        if !char_matches(s.get_char(n - m + i), suf.get_char(i)) {
            return false;
        }
        i += 1;
    }
    true
}

/// Picks the declared content type from the file name's extension.
pub fn mime_type_for(name: &str) -> (r: &'static str)
    ensures
        r@ == mime_text(name@),
{
    if suffix_matches(name, ".png") {
        "image/png"
    } else if suffix_matches(name, ".jpg") || suffix_matches(name, ".jpeg") {
        "image/jpeg"
    } else {
        "application/octet-stream"
    }
}

/// The first part of the multipart body: the metadata object with its fixed
/// boundary and headers.
pub open spec fn metadata_part_text(meta: Seq<char>) -> Seq<char> {
    "--foo_bar_baz\r\nContent-Type: application/json; charset=UTF-8\r\n\r\n"@ + meta + "\r\n"@
}

/// The header of the content part of the multipart body.
pub open spec fn content_part_header_text(mime: Seq<char>) -> Seq<char> {
    "--foo_bar_baz\r\nContent-Type: "@ + mime + "\r\n\r\n"@
}

/// The closing boundary marker of the multipart body.
pub open spec fn closing_boundary_text() -> Seq<char> {
    "\r\n--foo_bar_baz--"@
}

/// The content type of the whole multipart request.
pub fn multipart_content_type() -> (r: String)
    ensures
        r@ == "multipart/related; boundary=foo_bar_baz"@,
{
    String::from_str("multipart/related; boundary=foo_bar_baz")
}

/// The upload endpoint, asking for a multipart upload and a projection to
/// the fields the library reads back.
pub fn upload_endpoint() -> (r: String)
    ensures
        r@
            == "https://www.googleapis.com/upload/drive/v3/files?uploadType=multipart&fields=id,name,webViewLink"@,
{
    String::from_str(
        "https://www.googleapis.com/upload/drive/v3/files?uploadType=multipart&fields=id,name,webViewLink",
    )
}

/// The whole multipart body: metadata part, content part header, the raw
/// content bytes, and the closing boundary.
pub open spec fn upload_body_bytes(name: Seq<char>, folder_id: Seq<char>, content: Seq<u8>) -> Seq<
    u8,
> {
    encode_utf8(metadata_part_text(upload_metadata_text(name, folder_id))) + encode_utf8(
        content_part_header_text(mime_text(name)),
    ) + content + encode_utf8(closing_boundary_text())
}

/// The progress value reported after the chunk that starts at `start`.
pub open spec fn step_value(len: int, start: int) -> u32 {
    (20 + 70 * start / len) as u32
}

/// The progress values of the chunked ramp, one per appended chunk.
pub open spec fn ramp_from(len: int, chunk: int, start: int) -> Seq<u32>
    decreases len - start,
{
    if chunk <= 0 || start < 0 || start >= len {
        Seq::empty()
    } else if start + chunk >= len {
        seq![step_value(len, start)]
    } else {
        seq![step_value(len, start)] + ramp_from(len, chunk, start + chunk)
    }
}

/// The progress values reported while the body is assembled: fixed steps for
/// the metadata and header parts, then the ramp over the content (a single
/// jump when the content is shorter than sixty bytes).
pub open spec fn assembly_progress(len: int) -> Seq<u32> {
    if len / 60 > 0 {
        seq![10u32, 20u32] + ramp_from(len, len / 60, 0)
    } else {
        seq![10u32, 20u32, 90u32]
    }
}

/// Every progress value of one upload, the final completion value included:
/// it is reported once the request is sent, whatever the network answered.
pub open spec fn upload_progress(len: int) -> Seq<u32> {
    assembly_progress(len).push(100u32)
}

fn append_bytes(dst: &mut Vec<u8>, src: &Vec<u8>)
    ensures
        final(dst)@ == old(dst)@ + src@,
{
    let n = src.len();
    let mut i: usize = 0;
    while i < n
        invariant
            n == src@.len(),
            i <= n,
            dst@ == old(dst)@ + src@.take(i as int),
        decreases n - i,
    {
        dst.push(src[i]);
        proof {
            assert(old(dst)@ + src@.take(i + 1 as int) =~= (old(dst)@ + src@.take(i as int)).push(
                src@[i as int],
            ));
        }
        i += 1;
    }
    proof {
        assert(src@.take(n as int) =~= src@);
    }
}

/// Builds the multipart body for one upload and the progress values reported
/// while it is assembled.
pub fn build_upload_body(content: &Vec<u8>, file_name: &str, folder_id: &str) -> (r: (
    Vec<u8>,
    Vec<u32>,
))
    ensures
        r.0@ == upload_body_bytes(file_name@, folder_id@, content@),
        r.1@ == assembly_progress(content@.len() as int),
{
    let meta = upload_metadata_json(file_name, folder_id);
    let mut part1 = String::from_str(
        "--foo_bar_baz\r\nContent-Type: application/json; charset=UTF-8\r\n\r\n",
    );
    part1.append(meta.as_str());
    part1.append("\r\n");
    let mut part2 = String::from_str("--foo_bar_baz\r\nContent-Type: ");
    part2.append(mime_type_for(file_name));
    part2.append("\r\n\r\n");
    proof {
        assert(part1@ =~= metadata_part_text(upload_metadata_text(file_name@, folder_id@)));
        assert(part2@ =~= content_part_header_text(mime_text(file_name@)));
    }

    let mut body: Vec<u8> = part1.as_str().as_bytes_vec();
    let mut progress: Vec<u32> = Vec::new();
    progress.push(10);

    let part2_bytes = part2.as_str().as_bytes_vec();
    append_bytes(&mut body, &part2_bytes);
    progress.push(20);

    let ghost base = body@;
    let len = content.len();
    let chunk = len / 60;
    if chunk > 0 {
        let mut start: usize = 0;
        while start < len
            invariant
                chunk == len / 60,
                chunk > 0,
                len == content@.len(),
                start <= len,
                body@ == base + content@.take(start as int),
                progress@ + ramp_from(len as int, chunk as int, start as int) == seq![
                    10u32,
                    20u32,
                ] + ramp_from(len as int, chunk as int, 0),
            decreases len - start,
        {
            let end = if len - start > chunk {
                start + chunk
            } else {
                len
            };
            let mut j = start;
            while j < end
                invariant
                    start <= j <= end <= len,
                    len == content@.len(),
                    body@ == base + content@.take(j as int),
                decreases end - j,
            {
                body.push(content[j]);
                proof {
                    assert(base + content@.take(j + 1 as int) =~= (base + content@.take(
                        j as int,
                    )).push(content@[j as int]));
                }
                j += 1;
            }
            let q = (70u128 * (start as u128)) / (len as u128);
            proof {
                lemma_multiply_divide_lt(70 * (start as int), len as int, 70);
                assert(70 * (start as int) / (len as int) < 70);
            }
            let val: u32 = 20 + (q as u32);
            proof {
                assert(val == step_value(len as int, start as int));
                assert(progress@.push(val) + ramp_from(len as int, chunk as int, end as int)
                    =~= progress@ + ramp_from(len as int, chunk as int, start as int));
            }
            progress.push(val);
            start = end;
        }
        proof {
            assert(content@.take(len as int) =~= content@);
            assert(progress@ =~= seq![10u32, 20u32] + ramp_from(len as int, chunk as int, 0));
        }
    } else {
        let mut j: usize = 0;
        while j < len
            invariant
                j <= len,
                len == content@.len(),
                body@ == base + content@.take(j as int),
            decreases len - j,
        {
            body.push(content[j]);
            proof {
                assert(base + content@.take(j + 1 as int) =~= (base + content@.take(j as int)).push(
                    content@[j as int],
                ));
            }
            j += 1;
        }
        progress.push(90);
        proof {
            assert(content@.take(len as int) =~= content@);
            assert(progress@ =~= seq![10u32, 20u32, 90u32]);
        }
    }

    let closing = "\r\n--foo_bar_baz--".as_bytes_vec();
    append_bytes(&mut body, &closing);
    proof {
        assert(body@ =~= upload_body_bytes(file_name@, folder_id@, content@));
    }
    (body, progress)
}

proof fn lemma_ramp_from_props(len: int, chunk: int, start: int)
    requires
        0 < chunk,
        0 <= start < len,
    ensures
        ramp_from(len, chunk, start).len() > 0,
        forall|k: int|
            0 <= k < ramp_from(len, chunk, start).len() ==> step_value(len, start) <= #[trigger] ramp_from(
                len,
                chunk,
                start,
            )[k] < 90,
        forall|k: int, k2: int|
            0 <= k <= k2 < ramp_from(len, chunk, start).len() ==> ramp_from(len, chunk, start)[k]
                <= ramp_from(len, chunk, start)[k2],
    decreases len - start,
{
    lemma_multiply_divide_lt(70 * start, len, 70);
    assert(20 <= step_value(len, start) < 90);
    if start + chunk < len {
        lemma_ramp_from_props(len, chunk, start + chunk);
        lemma_multiply_divide_lt(70 * (start + chunk), len, 70);
        lemma_div_is_ordered(70 * start, 70 * (start + chunk), len);
        assert(0 <= 70 * start / len <= 70 * (start + chunk) / len < 70);
        assert(step_value(len, start) <= step_value(len, start + chunk));
    }
}

/// Progress is monotone: for any payload the reported progress values never
/// decrease and end at exactly the completion value.
pub proof fn lemma_progress_monotone(len: int)
    requires
        len >= 0,
    ensures
        upload_progress(len).len() > 0,
        upload_progress(len).last() == 100,
        forall|i: int, j: int|
            0 <= i <= j < upload_progress(len).len() ==> upload_progress(len)[i]
                <= upload_progress(len)[j],
{
    if len / 60 > 0 {
        lemma_ramp_from_props(len, len / 60, 0);
        assert(step_value(len, 0) == 20);
    }
}

/// What the upload's primary action returns, given the transport's answer
/// (`None` when the request failed): a rejected request is surfaced as such,
/// and a success body must parse into a file descriptor.
pub open spec fn uploaded_file_spec(response: Option<(bool, Seq<char>)>) -> Result<
    FileV,
    DriveError,
> {
    match response {
        Option::None => Result::Err(DriveError::Network),
        Option::Some((ok, s)) => {
            if !ok {
                Result::Err(DriveError::RemoteRejected)
            } else {
                match file_of(s) {
                    Option::None => Result::Err(DriveError::Malformed),
                    Option::Some(f) => Result::Ok(f),
                }
            }
        },
    }
}

/// Decides what the upload's answer holds: the status flag of the response
/// and its body, or `None` when transport failed.
pub fn uploaded_file_outcome(response: Option<(bool, String)>) -> (r: Result<DriveFile, DriveError>)
    ensures
        match r {
            Result::Ok(f) => uploaded_file_spec(view_status_opt(response)) == Result::<
                FileV,
                DriveError,
            >::Ok(f@),
            Result::Err(e) => uploaded_file_spec(view_status_opt(response)) == Result::<
                FileV,
                DriveError,
            >::Err(e),
        },
{
    match response {
        Option::None => Result::Err(DriveError::Network),
        Option::Some((ok, s)) => {
            if !ok {
                Result::Err(DriveError::RemoteRejected)
            } else {
                match crate::files::parse_drive_file(s.as_str()) {
                    Option::None => Result::Err(DriveError::Malformed),
                    Option::Some(f) => Result::Ok(f),
                }
            }
        },
    }
}

/// The view of an optional status-and-body answer.
pub open spec fn view_status_opt(r: Option<(bool, String)>) -> Option<(bool, Seq<char>)> {
    match r {
        Option::Some((ok, s)) => Option::Some((ok, s@)),
        Option::None => Option::None,
    }
}

/// What the sharing grant that follows a successful upload makes of the
/// upload: a transport failure is a network error, a refused grant turns the
/// uploaded file into a reported permission failure, and only a granted
/// permission returns the file.
pub open spec fn permission_grant_spec(f: FileV, grant: Option<bool>) -> Result<FileV, DriveError> {
    match grant {
        Option::None => Result::Err(DriveError::Network),
        Option::Some(false) => Result::Err(DriveError::PermissionDenied),
        Option::Some(true) => Result::Ok(f),
    }
}

/// Decides the final result of an upload from the sharing grant's outcome
/// (`None` when the grant request failed in transport, otherwise whether the
/// provider answered it with a success status).
pub fn permission_grant_outcome(f: DriveFile, grant: Option<bool>) -> (r: Result<
    DriveFile,
    DriveError,
>)
    ensures
        match r {
            Result::Ok(g) => permission_grant_spec(f@, grant) == Result::<FileV, DriveError>::Ok(
                g@,
            ) && g == f,
            Result::Err(e) => permission_grant_spec(f@, grant) == Result::<FileV, DriveError>::Err(
                e,
            ),
        },
{
    match grant {
        Option::None => Result::Err(DriveError::Network),
        Option::Some(false) => Result::Err(DriveError::PermissionDenied),
        Option::Some(true) => Result::Ok(f),
    }
}

} // verus!
