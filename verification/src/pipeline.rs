//! The per-connection pipeline: parse the raw bytes, resolve a
//! handler, and decide the step to take — and the fixed route table
//! the server starts with. The surrounding glue owns the sockets: it
//! reads the bytes, performs any file action the step names, and
//! writes the serialized response.
use vstd::prelude::*;

use crate::config::Cfg;
use crate::handlers::{Step, apply_handler, spec_apply};
use crate::http::HttpMethod;
use crate::request::{Request, spec_parse_request};
use crate::routing::{Route, RouteModel, Router, HandlerKind, spec_resolve};
use crate::tokens::{
    spec_root_pattern, spec_echo_pattern, spec_user_agent_pattern, spec_files_pattern,
    root_pattern, echo_pattern, user_agent_pattern, files_pattern,
};

verus! {

/// The server's route table, in registration order: `GET /`,
/// `GET /echo/`, `GET /user-agent`, `GET /files/`, `POST /files/`.
pub open spec fn spec_default_routes() -> Seq<RouteModel> {
    seq![
        RouteModel {
            pattern: spec_root_pattern(),
            method: HttpMethod::GET,
            handler: HandlerKind::Root,
        },
        RouteModel {
            pattern: spec_echo_pattern(),
            method: HttpMethod::GET,
            handler: HandlerKind::Echo,
        },
        RouteModel {
            pattern: spec_user_agent_pattern(),
            method: HttpMethod::GET,
            handler: HandlerKind::UserAgent,
        },
        RouteModel {
            pattern: spec_files_pattern(),
            method: HttpMethod::GET,
            handler: HandlerKind::GetFile,
        },
        RouteModel {
            pattern: spec_files_pattern(),
            method: HttpMethod::POST,
            handler: HandlerKind::PostFile,
        },
    ]
}

/// Build the route table the server runs with.
pub fn setup_router() -> (r: Router)
    ensures
        r@ == spec_default_routes(),
{
    let routes: Vec<Route> = vec![
        Route::new(root_pattern(), HttpMethod::GET, HandlerKind::Root),
        Route::new(echo_pattern(), HttpMethod::GET, HandlerKind::Echo),
        Route::new(user_agent_pattern(), HttpMethod::GET, HandlerKind::UserAgent),
        Route::new(files_pattern(), HttpMethod::GET, HandlerKind::GetFile),
        Route::new(files_pattern(), HttpMethod::POST, HandlerKind::PostFile),
    ];
    let r = Router::new(routes);
    proof {
        assert(r@ =~= spec_default_routes());
    }
    r
}

/// The step the pipeline takes for the raw bytes of one connection:
/// `None` when the request does not parse (the connection is dropped
/// with no response), otherwise the step of the resolved handler.
pub open spec fn spec_pipeline_step(
    routes: Seq<RouteModel>,
    cfg: crate::config::CfgModel,
    data: Seq<u8>,
) -> Option<crate::handlers::StepModel> {
    match spec_parse_request(data) {
        Err(_) => None,
        Ok(m) => Some(spec_apply(spec_resolve(routes, m.method, m.path.path), cfg, m)),
    }
}

/// Parse one request and decide the step to take: parse, resolve,
/// run the handler's decision. A parse failure yields `None` — the
/// caller logs and closes the connection without writing a response.
pub fn handle_request(router: &Router, cfg: &Cfg, data: &Vec<u8>) -> (r: Option<Step>)
    ensures
        match r {
            Some(s) => spec_pipeline_step(router@, cfg@, data@) == Some(s@),
            None => spec_pipeline_step(router@, cfg@, data@) is None,
        },
{
    let req = match Request::parse(data) {
        Err(_) => {
            return None;
        },
        Ok(req) => req,
    };
    let kind = router.get_handler(&req);
    Some(apply_handler(kind, cfg, &req))
}

} // verus!
