use vstd::prelude::*;

use crate::config::{lookup_service, Config};
use crate::filename::{file_name_of, file_name_range};
use crate::job::{join, join_path, Job};
use crate::status::Status;
use crate::text::{decimal_of, decimal_text, starts_with};

verus! {

/// The HTTP transport between a server and its compute clients.
#[derive(Debug, Clone, Copy)]
pub struct Client;

/// Why sending a job's files to a compute client failed.
#[derive(Debug)]
pub enum UploadError {
    /// A file of the job directory could not be read.
    FileRead { path: String, message: String },
    /// The request could not be sent or its response not read.
    ResponseReadFailed { message: String },
    /// The client answered with success but not with a payload.
    DeserializationFailed { message: String },
    /// The client answered with a status that is not a success.
    UnexpectedStatus { status: u16, body: String },
    /// The job's service has no upload URL.
    NoUrlConfigured,
}

/// Why fetching a job's result from a compute client did not succeed.
#[derive(Debug)]
pub enum DownloadError {
    /// The request could not be sent.
    RequestFailed { message: String },
    /// `output.zip` could not be created.
    FileCreate { path: String, message: String },
    /// Writing `output.zip` failed.
    FileWrite { path: String, message: String },
    /// Reading the response body failed.
    ResponseReadFailed { message: String },
    /// The payload has not finished yet.
    JobNotReady,
    /// The payload's results have expired.
    JobCleaned,
    /// The payload was refused as a user error.
    JobInvalid,
    /// The client has no such payload.
    JobNotFound,
    /// The payload failed on the client.
    JobFailed,
    /// The client answered with a status that has no meaning here.
    UnexpectedStatus { status: u16, body: String },
    /// The job's service has no download URL.
    NoUrlConfigured,
}

/// The HTTP status codes that the download protocol gives a meaning to.
pub const HTTP_OK: u16 = 200;
pub const HTTP_ACCEPTED: u16 = 202;
pub const HTTP_NO_CONTENT: u16 = 204;
pub const HTTP_BAD_REQUEST: u16 = 400;
pub const HTTP_NOT_FOUND: u16 = 404;
pub const HTTP_GONE: u16 = 410;
pub const HTTP_INTERNAL_SERVER_ERROR: u16 = 500;

/// What to do with a download response, given its HTTP status.
#[derive(Debug)]
pub enum DownloadPlan {
    /// Stream the body into `<loc>/output.zip`.
    WriteOutput,
    /// Stop with this error.
    Fail(DownloadError),
    /// Read the body and report it with the unexpected status.
    ReportUnexpected,
}

/// The meaning of each HTTP status of a download response.
pub open spec fn download_plan_spec(status: u16) -> DownloadPlan {
    if status == HTTP_OK {
        DownloadPlan::WriteOutput
    } else if status == HTTP_ACCEPTED {
        DownloadPlan::Fail(DownloadError::JobNotReady)
    } else if status == HTTP_NO_CONTENT {
        DownloadPlan::Fail(DownloadError::JobCleaned)
    } else if status == HTTP_BAD_REQUEST {
        DownloadPlan::Fail(DownloadError::JobInvalid)
    } else if status == HTTP_NOT_FOUND {
        DownloadPlan::Fail(DownloadError::JobNotFound)
    } else if status == HTTP_GONE || status == HTTP_INTERNAL_SERVER_ERROR {
        DownloadPlan::Fail(DownloadError::JobFailed)
    } else {
        DownloadPlan::ReportUnexpected
    }
}

/// Maps the HTTP status of a download response to what is done with it.
pub fn download_plan(status: u16) -> (r: DownloadPlan)
    ensures
        r == download_plan_spec(status),
{
    if status == HTTP_OK {
        DownloadPlan::WriteOutput
    } else if status == HTTP_ACCEPTED {
        DownloadPlan::Fail(DownloadError::JobNotReady)
    } else if status == HTTP_NO_CONTENT {
        DownloadPlan::Fail(DownloadError::JobCleaned)
    } else if status == HTTP_BAD_REQUEST {
        DownloadPlan::Fail(DownloadError::JobInvalid)
    } else if status == HTTP_NOT_FOUND {
        DownloadPlan::Fail(DownloadError::JobNotFound)
    } else if status == HTTP_GONE || status == HTTP_INTERNAL_SERVER_ERROR {
        DownloadPlan::Fail(DownloadError::JobFailed)
    } else {
        DownloadPlan::ReportUnexpected
    }
}

/// The URL a job's files are uploaded to: its service's upload URL.
pub fn send_url<'a>(job: &Job, config: &'a Config) -> (r: Result<&'a str, UploadError>)
    ensures
        match lookup_service(config@.services, job.service@) {
            Some(s) => r matches Ok(u) && u@ == s.upload_url,
            None => r matches Err(UploadError::NoUrlConfigured),
        },
{
    match config.get_upload_url(job.service.as_str()) {
        Some(u) => Ok(u),
        None => Err(UploadError::NoUrlConfigured),
    }
}

/// The URL a job's result is fetched from: its service's download URL
/// followed by `/` and the job's remote id.
pub fn retrieve_url(job: &Job, config: &Config) -> (r: Result<String, DownloadError>)
    ensures
        match lookup_service(config@.services, job.service@) {
            Some(s) => r matches Ok(u) && u@ == s.download_url + seq!['/'] + decimal_of(
                job.dest_id as nat,
            ),
            None => r matches Err(DownloadError::NoUrlConfigured),
        },
{
    match config.get_download_url(job.service.as_str()) {
        Some(u) => {
            proof {
                reveal_strlit("/");
            }
            let r = String::from_str(u).concat("/").concat(decimal_text(job.dest_id as u64).as_str());
            assert(r@ =~= u@ + seq!['/'] + decimal_of(job.dest_id as nat));
            Ok(r)
        },
        None => Err(DownloadError::NoUrlConfigured),
    }
}

/// A path with `root/` taken off its front when it lies under `root`;
/// otherwise the path unchanged.
pub open spec fn relative_to(root: Seq<char>, path: Seq<char>) -> Seq<char> {
    let base = if root.len() > 0 && root.last() == '/' {
        root
    } else {
        root + seq!['/']
    };
    if base.len() <= path.len() && path.take(base.len() as int) == base {
        path.skip(base.len() as int)
    } else {
        path
    }
}

/// The multipart field name and file name under which a file of a job
/// directory is uploaded: its path relative to the directory, which keeps
/// the tree's structure, and its final name (`file` when it has none).
pub fn upload_part_names(root: &str, path: &str) -> (r: (String, String))
    ensures
        r.0@ == relative_to(root@, path@),
        r.1@ == match file_name_of(path@) {
            Some(n) => n,
            None => "file"@,
        },
{
    let n = root.unicode_len();
    let base = if n > 0 && root.get_char(n - 1) == '/' {
        String::from_str(root)
    } else {
        proof {
            reveal_strlit("/");
        }
        let b = String::from_str(root).concat("/");
        assert(b@ =~= root@ + seq!['/']);
        b
    };
    let field = if starts_with(path, base.as_str()) {
        String::from_str(path.substring_char(base.unicode_len(), path.unicode_len()))
    } else {
        String::from_str(path)
    };
    let name = match file_name_range(path) {
        Some((a, b)) => String::from_str(path.substring_char(a, b)),
        None => String::from_str("file"),
    };
    (field, name)
}

/// Whether an HTTP status is a success (2xx).
pub open spec fn is_success(status: u16) -> bool {
    200 <= status <= 299
}

/// The result of an upload, from the response's status and body and, for a
/// success, the remote id decoded from the body (or why that failed).
pub fn upload_outcome(status: u16, body: String, decoded: Result<u32, String>) -> (r: Result<
    u32,
    UploadError,
>)
    ensures
        is_success(status) ==> match decoded {
            Ok(id) => r == Ok::<u32, UploadError>(id),
            Err(m) => (r matches Err(UploadError::DeserializationFailed { message }) && message@
                == m@),
        },
        !is_success(status) ==> (r matches Err(UploadError::UnexpectedStatus { status: s, body: b })
            && s == status && b@ == body@),
{
    if 200 <= status && status <= 299 {
        match decoded {
            Ok(id) => Ok(id),
            Err(message) => Err(UploadError::DeserializationFailed { message }),
        }
    } else {
        Err(UploadError::UnexpectedStatus { status, body })
    }
}

/// The HTTP status with which the client answers a request for a payload's
/// result, given the payload's state (`None`: no such payload).
pub open spec fn retrieve_code_spec(status: Option<Status>) -> u16 {
    match status {
        None => HTTP_NOT_FOUND,
        Some(Status::Completed) => HTTP_OK,
        Some(Status::Invalid) => HTTP_BAD_REQUEST,
        Some(Status::Failed) => HTTP_INTERNAL_SERVER_ERROR,
        Some(Status::Cleaned) => HTTP_NO_CONTENT,
        Some(_) => HTTP_ACCEPTED,
    }
}

/// Maps a payload's state to the HTTP status of a retrieve request; only
/// `200` carries the archived directory.
pub fn retrieve_code(status: Option<Status>) -> (r: u16)
    ensures
        r == retrieve_code_spec(status),
{
    match status {
        None => HTTP_NOT_FOUND,
        Some(Status::Completed) => HTTP_OK,
        Some(Status::Invalid) => HTTP_BAD_REQUEST,
        Some(Status::Failed) => HTTP_INTERNAL_SERVER_ERROR,
        Some(Status::Cleaned) => HTTP_NO_CONTENT,
        Some(_) => HTTP_ACCEPTED,
    }
}

} // verus!

verus! {

/// Uploading a file that lies at `rel` inside the job directory `root` sends
/// it under the field name `rel`: the directory structure is kept.
pub proof fn lemma_upload_field_is_relative(root: Seq<char>, rel: Seq<char>)
    requires
        root.len() > 0,
    ensures
        relative_to(root, join_path(root, rel)) == rel,
{
    let base = if root.last() == '/' {
        root
    } else {
        root + seq!['/']
    };
    let path = join_path(root, rel);
    assert(path =~= base + rel);
    assert(path.take(base.len() as int) =~= base);
    assert(path.skip(base.len() as int) =~= rel);
}

/// How many downloads the getter runs at the same time, at most.
pub const GETTER_CONCURRENCY: usize = 10;

/// Where a downloaded result is written: `output.zip` in the job directory.
pub fn output_path(loc: &str) -> (r: String)
    ensures
        r@ == join_path(loc@, "output.zip"@),
{
    join(loc, "output.zip")
}

} // verus!
