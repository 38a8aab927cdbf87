//! The handlers behind the route table, split into pure decision
//! functions. A handler that needs no file system produces a
//! `Response` outright; the file handlers produce a `Step` naming the
//! read or write to perform, and a second function turns the outcome
//! of that action into the `Response`. The surrounding glue performs
//! the action itself.
use vstd::prelude::*;

use crate::config::{Cfg, CfgModel};
use crate::headers::{Headers, HeaderModel};
use crate::request::{Request, ReqModel};
use crate::response::{Response, RespModel};
use crate::routing::HandlerKind;
use crate::text::{spec_dec_u64, dec_u64, copy_all, copy_range, starts_with};
use crate::tokens::{
    spec_content_length_key, spec_content_type_key, spec_user_agent_key, spec_echo_pattern,
    spec_files_pattern, spec_reason_ok, spec_reason_not_found, spec_reason_created,
    spec_reason_server_error, spec_text_plain, spec_octet_stream, content_length_key,
    content_type_key, user_agent_key, echo_pattern, files_pattern, reason_ok, reason_not_found,
    reason_created, reason_server_error, text_plain, octet_stream,
};

verus! {

/// What the pipeline must do next for a request: answer outright, or
/// first read or write a file and then answer from the outcome.
pub enum Step {
    /// Serialize and send this response.
    Respond(Response),
    /// Read the file at this path, then answer via `file_read_response`.
    ReadFile(Vec<u8>),
    /// Write these bytes to the file at this path, then answer via
    /// `file_write_response`.
    WriteFile(Vec<u8>, Vec<u8>),
}

/// The mathematical image of a `Step`.
pub ghost enum StepModel {
    Respond(RespModel),
    ReadFile(Seq<u8>),
    WriteFile(Seq<u8>, Seq<u8>),
}

impl View for Step {
    type V = StepModel;

    open spec fn view(&self) -> StepModel {
        match self {
            Step::Respond(r) => StepModel::Respond(r@),
            Step::ReadFile(p) => StepModel::ReadFile(p@),
            Step::WriteFile(p, b) => StepModel::WriteFile(p@, b@),
        }
    }
}

/// The two headers of a body-carrying success response:
/// `Content-Type` and `Content-Length`.
pub open spec fn spec_body_headers(content_type: Seq<u8>, body_len: nat) -> Seq<HeaderModel> {
    seq![
        HeaderModel { name: spec_content_type_key(), value: content_type },
        HeaderModel { name: spec_content_length_key(), value: spec_dec_u64(body_len) },
    ]
}

/// Build the header mapping of a body-carrying success response.
fn body_headers(content_type: Vec<u8>, body_len: usize) -> (r: Headers)
    ensures
        r@ == spec_body_headers(content_type@, body_len as nat),
{
    let mut h = Headers::new();
    h.insert(content_type_key(), content_type);
    h.insert(content_length_key(), dec_u64(body_len as u64));
    proof {
        assert(h@ =~= spec_body_headers(content_type@, body_len as nat));
    }
    h
}

/// The constant 404 response of a route miss or a missing file:
/// status 404, no headers, empty body.
pub open spec fn spec_not_found() -> RespModel {
    RespModel {
        status: 404,
        reason: spec_reason_not_found(),
        headers: Seq::empty(),
        body: Seq::empty(),
    }
}

/// The constant 404 response. Never fails the pipeline.
pub fn not_found_response() -> (r: Response)
    ensures
        r@ == spec_not_found(),
{
    Response::new(404, reason_not_found(), Vec::new())
}

/// The response of `GET /`: status 200, no headers, empty body.
pub open spec fn spec_handle_200() -> RespModel {
    RespModel { status: 200, reason: spec_reason_ok(), headers: Seq::empty(), body: Seq::empty() }
}

/// `GET /`: a bare 200.
pub fn handle_200(_cfg: &Cfg, _req: &Request) -> (r: Response)
    ensures
        r@ == spec_handle_200(),
{
    Response::new(200, reason_ok(), Vec::new())
}

/// The path remainder after the `/echo/` prefix; empty when the path
/// does not carry that prefix.
pub open spec fn spec_echo_body(path: Seq<u8>) -> Seq<u8> {
    if spec_echo_pattern().len() <= path.len() && path.take(spec_echo_pattern().len() as int)
        == spec_echo_pattern() {
        path.skip(spec_echo_pattern().len() as int)
    } else {
        Seq::empty()
    }
}

/// The response of `GET /echo/<str>`: status 200, `text/plain`, body
/// `<str>` (the path remainder).
pub open spec fn spec_handle_echo(req: ReqModel) -> RespModel {
    RespModel {
        status: 200,
        reason: spec_reason_ok(),
        headers: spec_body_headers(spec_text_plain(), spec_echo_body(req.path.path).len()),
        body: spec_echo_body(req.path.path),
    }
}

/// `GET /echo/<str>`: echo the path remainder as the body.
pub fn handle_echo(_cfg: &Cfg, req: &Request) -> (r: Response)
    ensures
        r@ == spec_handle_echo(req@),
{
    let prefix = echo_pattern();
    let body: Vec<u8> = if starts_with(&req.path.path, &prefix) {
        copy_range(&req.path.path, prefix.len(), req.path.path.len())
    } else {
        Vec::new()
    };
    proof {
        assert(body@ =~= spec_echo_body(req@.path.path));
    }
    let blen = body.len();
    let headers = body_headers(text_plain(), blen);
    Response { status: 200, reason: reason_ok(), headers, body }
}

/// The `User-Agent` header's value; empty when the request has none.
pub open spec fn spec_user_agent_body(req: ReqModel) -> Seq<u8> {
    match crate::headers::lookup(req.headers, spec_user_agent_key()) {
        Some(v) => v,
        None => Seq::empty(),
    }
}

/// The response of `GET /user-agent`: status 200, `text/plain`, the
/// `User-Agent` header value as the body.
pub open spec fn spec_handle_user_agent(req: ReqModel) -> RespModel {
    RespModel {
        status: 200,
        reason: spec_reason_ok(),
        headers: spec_body_headers(spec_text_plain(), spec_user_agent_body(req).len()),
        body: spec_user_agent_body(req),
    }
}

/// `GET /user-agent`: echo the `User-Agent` header value.
pub fn handle_user_agent(_cfg: &Cfg, req: &Request) -> (r: Response)
    ensures
        r@ == spec_handle_user_agent(req@),
{
    let key = user_agent_key();
    let body: Vec<u8> = match req.headers.get(&key) {
        Some(v) => copy_all(v),
        None => Vec::new(),
    };
    let blen = body.len();
    let headers = body_headers(text_plain(), blen);
    Response { status: 200, reason: reason_ok(), headers, body }
}

/// The file name a `/files/` request asks for: the path remainder
/// after the prefix; empty when the path does not carry it.
pub open spec fn spec_file_name(path: Seq<u8>) -> Seq<u8> {
    if spec_files_pattern().len() <= path.len() && path.take(spec_files_pattern().len() as int)
        == spec_files_pattern() {
        path.skip(spec_files_pattern().len() as int)
    } else {
        Seq::empty()
    }
}

/// The full path of that file under the configured directory.
pub open spec fn spec_file_path(dir: Seq<u8>, name: Seq<u8>) -> Seq<u8> {
    dir + seq!['/' as u8] + name
}

/// Extract the requested file name from the request path.
fn file_name(req: &Request) -> (r: Vec<u8>)
    ensures
        r@ == spec_file_name(req@.path.path),
{
    let prefix = files_pattern();
    let r: Vec<u8> = if starts_with(&req.path.path, &prefix) {
        copy_range(&req.path.path, prefix.len(), req.path.path.len())
    } else {
        Vec::new()
    };
    proof {
        assert(r@ =~= spec_file_name(req@.path.path));
    }
    r
}

/// Join the configured directory and a file name with `/`.
fn file_path(dir: &Vec<u8>, name: &Vec<u8>) -> (r: Vec<u8>)
    ensures
        r@ == spec_file_path(dir@, name@),
{
    let mut r = copy_all(dir);
    r.push('/' as u8);
    let mut n = copy_all(name);
    r.append(&mut n);
    proof {
        assert(r@ =~= spec_file_path(dir@, name@));
    }
    r
}

/// The step of `GET /files/<name>`: without a configured directory a
/// constant 404; otherwise read `<dir>/<name>`.
pub open spec fn spec_handle_get_file(cfg: CfgModel, req: ReqModel) -> StepModel {
    match cfg.files_dir {
        None => StepModel::Respond(spec_not_found()),
        Some(dir) => StepModel::ReadFile(spec_file_path(dir, spec_file_name(req.path.path))),
    }
}

/// `GET /files/<name>`: name the file to read, or fail cleanly with a
/// 404 when no directory is configured.
pub fn handle_get_file(cfg: &Cfg, req: &Request) -> (r: Step)
    ensures
        r@ == spec_handle_get_file(cfg@, req@),
{
    match &cfg.files_dir {
        None => Step::Respond(not_found_response()),
        Some(dir) => {
            let name = file_name(req);
            Step::ReadFile(file_path(dir, &name))
        },
    }
}

/// The step of `POST /files/<name>`: without a configured directory a
/// constant 404; otherwise write the request body to `<dir>/<name>`.
pub open spec fn spec_handle_post_file(cfg: CfgModel, req: ReqModel) -> StepModel {
    match cfg.files_dir {
        None => StepModel::Respond(spec_not_found()),
        Some(dir) => StepModel::WriteFile(
            spec_file_path(dir, spec_file_name(req.path.path)),
            req.body,
        ),
    }
}

/// `POST /files/<name>`: name the file to write and the bytes to put
/// there, or fail cleanly with a 404 when no directory is configured.
pub fn handle_post_file(cfg: &Cfg, req: &Request) -> (r: Step)
    ensures
        r@ == spec_handle_post_file(cfg@, req@),
{
    match &cfg.files_dir {
        None => Step::Respond(not_found_response()),
        Some(dir) => {
            let name = file_name(req);
            let path = file_path(dir, &name);
            Step::WriteFile(path, copy_all(&req.body))
        },
    }
}

/// The response once a file read came back: the file's bytes under
/// status 200 as `application/octet-stream`, or a constant 404 when
/// there was no such file.
pub open spec fn spec_file_read_response(content: Option<Seq<u8>>) -> RespModel {
    match content {
        Some(b) => RespModel {
            status: 200,
            reason: spec_reason_ok(),
            headers: spec_body_headers(spec_octet_stream(), b.len()),
            body: b,
        },
        None => spec_not_found(),
    }
}

/// Turn the outcome of the file read into the response.
pub fn file_read_response(content: Option<Vec<u8>>) -> (r: Response)
    ensures
        r@ == spec_file_read_response(match content {
            Some(b) => Some(b@),
            None => None::<Seq<u8>>,
        }),
{
    match content {
        Some(b) => {
            let blen = b.len();
            let headers = body_headers(octet_stream(), blen);
            Response { status: 200, reason: reason_ok(), headers, body: b }
        },
        None => not_found_response(),
    }
}

/// The response once a file write came back: 201 on success, 500 on a
/// write failure — a status-coded response, never a crash.
pub open spec fn spec_file_write_response(ok: bool) -> RespModel {
    if ok {
        RespModel {
            status: 201,
            reason: spec_reason_created(),
            headers: Seq::empty(),
            body: Seq::empty(),
        }
    } else {
        RespModel {
            status: 500,
            reason: spec_reason_server_error(),
            headers: Seq::empty(),
            body: Seq::empty(),
        }
    }
}

/// Turn the outcome of the file write into the response.
pub fn file_write_response(ok: bool) -> (r: Response)
    ensures
        r@ == spec_file_write_response(ok),
{
    if ok {
        Response::new(201, reason_created(), Vec::new())
    } else {
        Response::new(500, reason_server_error(), Vec::new())
    }
}

/// The step a resolved handler takes for a request under the given
/// configuration.
pub open spec fn spec_apply(kind: HandlerKind, cfg: CfgModel, req: ReqModel) -> StepModel {
    match kind {
        HandlerKind::Root => StepModel::Respond(spec_handle_200()),
        HandlerKind::Echo => StepModel::Respond(spec_handle_echo(req)),
        HandlerKind::UserAgent => StepModel::Respond(spec_handle_user_agent(req)),
        HandlerKind::GetFile => spec_handle_get_file(cfg, req),
        HandlerKind::PostFile => spec_handle_post_file(cfg, req),
        HandlerKind::NotFound => StepModel::Respond(spec_not_found()),
    }
}

/// Run the resolved handler: dispatch to the decision function it
/// names.
pub fn apply_handler(kind: HandlerKind, cfg: &Cfg, req: &Request) -> (r: Step)
    ensures
        r@ == spec_apply(kind, cfg@, req@),
{
    match kind {
        HandlerKind::Root => Step::Respond(handle_200(cfg, req)),
        HandlerKind::Echo => Step::Respond(handle_echo(cfg, req)),
        HandlerKind::UserAgent => Step::Respond(handle_user_agent(cfg, req)),
        HandlerKind::GetFile => handle_get_file(cfg, req),
        HandlerKind::PostFile => handle_post_file(cfg, req),
        HandlerKind::NotFound => Step::Respond(not_found_response()),
    }
}

/// Storing a file and asking for it again round-trips: for one
/// request that posts a body under a name and another that gets the
/// same name under the same configured directory, the write and the
/// read name the same path, the write puts exactly the posted body
/// there, and a read that returns those stored bytes yields status
/// 200 with exactly that body.
pub proof fn lemma_file_round_trip(cfg: CfgModel, post: ReqModel, get: ReqModel, dir: Seq<u8>)
    requires
        cfg.files_dir == Some(dir),
        post.path.path == get.path.path,
    ensures
        spec_handle_post_file(cfg, post) == StepModel::WriteFile(
            spec_file_path(dir, spec_file_name(post.path.path)),
            post.body,
        ),
        spec_handle_get_file(cfg, get) == StepModel::ReadFile(
            spec_file_path(dir, spec_file_name(post.path.path)),
        ),
        spec_file_read_response(Some(post.body)).status == 200,
        spec_file_read_response(Some(post.body)).body == post.body,
{
}

} // verus!
