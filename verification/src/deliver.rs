use vstd::prelude::*;
use vstd::string::StrSliceExecFns;
use vstd::string::StringExecFns;

use crate::map::PathMap;
use crate::text::display_name_spec;
use crate::text::file_name_or_fallback;

verus! {

/// The request method, as far as delivery distinguishes it: the one route is
/// `GET`, and every other method is answered like an unknown key.
#[derive(Debug, Clone, Copy, PartialEq, Eq, Structural)]
pub enum RequestMethod {
    Get,
    Other,
}

/// What a stat of the resolved filesystem path reported.
#[derive(Debug, Clone, Copy, PartialEq, Eq, Structural)]
pub enum StatOutcome {
    Missing,
    File { size: u64 },
    Directory,
}

/// Where the bytes of a response body come from.
#[derive(Debug, Clone, PartialEq, Eq)]
pub enum BodyPlan {
    Empty,
    FileStream { path: String },
    TarStream { path: String },
}

/// One HTTP response, described as plain values: the status, the two headers
/// delivery may set, and where the body bytes come from.
#[derive(Debug, Clone, PartialEq, Eq)]
pub struct HttpResponsePlan {
    pub status: u16,
    pub content_length: Option<u64>,
    pub content_disposition: Option<String>,
    pub body: BodyPlan,
}

/// The uniform answer for everything that cannot be delivered.
pub open spec fn is_not_found(r: HttpResponsePlan) -> bool {
    &&& r.status == 404
    &&& r.content_length is None
    &&& r.content_disposition is None
    &&& r.body is Empty
}

/// The attachment header value announcing a download named `name`.
pub open spec fn disposition_spec(name: Seq<char>) -> Seq<char> {
    "attachment; filename="@ + name
}

/// The archive filename for a directory named `name`.
pub open spec fn archive_name_spec(name: Seq<char>) -> Seq<char> {
    name + ".tar"@
}

/// A `200` for a regular file at `path` of `size` bytes: exact length, an
/// attachment header naming the file, the file's bytes as the body.
pub open spec fn is_file_response(r: HttpResponsePlan, path: Seq<char>, size: u64) -> bool {
    &&& r.status == 200
    &&& r.content_length == Some(size)
    &&& r.content_disposition matches Some(d)
        && d@ == disposition_spec(display_name_spec(path))
    &&& r.body matches BodyPlan::FileStream { path: p } && p@ == path
}

/// A `200` for the directory at `path`: no length, an attachment header
/// naming the archive, the streamed archive of the subtree as the body.
pub open spec fn is_dir_response(r: HttpResponsePlan, path: Seq<char>) -> bool {
    &&& r.status == 200
    &&& r.content_length is None
    &&& r.content_disposition matches Some(d)
        && d@ == disposition_spec(archive_name_spec(display_name_spec(path)))
    &&& r.body matches BodyPlan::TarStream { path: p } && p@ == path
}

/// The candidate key of a raw request path: everything after the first
/// character (the leading separator).
pub open spec fn request_key(raw_path: Seq<char>) -> Seq<char> {
    if raw_path.len() == 0 {
        raw_path
    } else {
        raw_path.subrange(1, raw_path.len() as int)
    }
}

/// Resolve a raw request path against the registry: a `GET` for a known key
/// yields the registered filesystem path, everything else nothing.
pub fn route(registry: &PathMap, method: RequestMethod, raw_path: &str) -> (r: Option<String>)
    ensures
        match r {
            Some(p) => method is Get && registry@.contains_key(request_key(raw_path@))
                && p@ == registry@[request_key(raw_path@)],
            None => method is Other || !registry@.contains_key(request_key(raw_path@)),
        },
{
    match method {
        RequestMethod::Other => None,
        RequestMethod::Get => {
            let len = raw_path.unicode_len();
            let key: &str = if len == 0 {
                raw_path
            } else {
                raw_path.substring_char(1, len)
            };
            match registry.get(key) {
                Some(p) => Some(p.clone()),
                None => None,
            }
        }
    }
}

/// The `Content-Disposition` value announcing an attachment named `name`.
pub fn attachment_header(name: &str) -> (r: String)
    ensures
        r@ == disposition_spec(name@),
{
    let mut r = "attachment; filename=".to_owned();
    r.append(name);
    r
}

/// The uniform `404 Not Found` answer: empty body, no headers beyond it.
pub fn not_found_page() -> (r: HttpResponsePlan)
    ensures
        is_not_found(r),
{
    HttpResponsePlan {
        status: 404,
        content_length: None,
        content_disposition: None,
        body: BodyPlan::Empty,
    }
}

/// Plan the response for a regular file of `size` bytes.
pub fn serve_file(path: String, file_name: &String, size: u64) -> (r: HttpResponsePlan)
    ensures
        r.status == 200,
        r.content_length == Some(size),
        r.content_disposition matches Some(d) && d@ == disposition_spec(file_name@),
        r.body matches BodyPlan::FileStream { path: p } && p@ == path@,
{
    let header = attachment_header(file_name.as_str());
    HttpResponsePlan {
        status: 200,
        content_length: Some(size),
        content_disposition: Some(header),
        body: BodyPlan::FileStream { path },
    }
}

/// Plan the response for a directory: its subtree is delivered as one
/// streamed archive named after the directory.
pub fn serve_directory(path: String, dir_name: &String) -> (r: HttpResponsePlan)
    ensures
        r.status == 200,
        r.content_length is None,
        r.content_disposition matches Some(d)
            && d@ == disposition_spec(archive_name_spec(dir_name@)),
        r.body matches BodyPlan::TarStream { path: p } && p@ == path@,
{
    let archive = dir_name.clone().concat(".tar");
    let header = attachment_header(archive.as_str());
    HttpResponsePlan {
        status: 200,
        content_length: None,
        content_disposition: Some(header),
        body: BodyPlan::TarStream { path },
    }
}

/// The Delivery Engine's decision: one response plan for one request, given
/// what a stat of the resolved path reported. A wrong method, an unknown
/// key and a failed stat are answered alike, with the empty `404`.
pub fn response(
    registry: &PathMap,
    method: RequestMethod,
    raw_path: &str,
    stat: StatOutcome,
) -> (r: HttpResponsePlan)
    ensures
        method is Other || !registry@.contains_key(request_key(raw_path@)) ==> is_not_found(r),
        method is Get && registry@.contains_key(request_key(raw_path@)) ==> {
            let path = registry@[request_key(raw_path@)];
            match stat {
                StatOutcome::Missing => is_not_found(r),
                StatOutcome::File { size } => is_file_response(r, path, size),
                StatOutcome::Directory => is_dir_response(r, path),
            }
        },
{
    let target = route(registry, method, raw_path);
    match target {
        None => not_found_page(),
        Some(path) => match stat {
            StatOutcome::Missing => not_found_page(),
            StatOutcome::File { size } => {
                let name = file_name_or_fallback(path.as_str());
                serve_file(path, &name, size)
            }
            StatOutcome::Directory => {
                let name = file_name_or_fallback(path.as_str());
                serve_directory(path, &name)
            }
        },
    }
}

/// A failure to open the file after its stat succeeded is surfaced as the
/// uniform not-found answer; a success keeps the planned response.
pub fn resolve_open_failure(plan: HttpResponsePlan, opened: bool) -> (r: HttpResponsePlan)
    ensures
        opened ==> r == plan,
        !opened ==> is_not_found(r),
{
    if opened {
        plan
    } else {
        not_found_page()
    }
}

} // verus!
