//! The single-invocation executor's decisions: fail fast where the script is
//! missing, set up the sandbox state, and settle on one reply.
use vstd::prelude::*;
use crate::bridge::SandboxState;
use crate::jsonrpc::path_exists;
use crate::models::{no_reply_message, JsRequest, JsResponse};
use crate::sql::{decimal, push_decimal};

verus! {

/// What to do with an invocation once the script's presence is known.
#[derive(Debug)]
pub enum Dispatch {
    /// Answer at once; no sandbox is built.
    Answer(JsResponse),
    /// Build a sandbox and run the script.
    Run,
}

pub struct ScriptExecutor;

impl ScriptExecutor {
    /// The decision once it is known whether the script exists: a missing script
    /// is a 404 "Script not found" and nothing runs.
    pub fn dispatch(script_found: bool) -> (r: Dispatch)
        ensures
            script_found ==> r is Run,
            !script_found ==> (r matches Dispatch::Answer(res) && res.status == 404
                && res.body@ == "Script not found"@ && res.headers@.len() == 0),
    {
        if script_found {
            Dispatch::Run
        } else {
            Dispatch::Answer(JsResponse::not_found("Script not found"))
        }
    }

    /// Looks the script up on disk and decides.
    pub fn check_script(script_path: &str) -> (r: Dispatch)
        ensures
            r is Run || (r matches Dispatch::Answer(res) && res.status == 404
                && res.body@ == "Script not found"@),
    {
        let found = path_exists(script_path);
        ScriptExecutor::dispatch(found)
    }

    /// The response of an invocation: the script's reply, or a 500 where the
    /// script ended without one.
    pub fn settle(reply: Option<JsResponse>) -> (r: JsResponse)
        ensures
            reply is Some ==> r == reply->Some_0,
            reply is None ==> r.status == 500 && r.body@ == no_reply_message(),
    {
        match reply {
            Some(res) => res,
            None => JsResponse::no_reply(),
        }
    }
}

/// The guest surface bound on top of the request handle: request accessors, the
/// database object and nothing else.
pub open spec fn guest_surface() -> Seq<char> {
    "\nglobalThis.request = {\n  method: () => Deno.core.ops.op_req_method(globalThis.__JS_REQUEST_RID__),\n  path: () => Deno.core.ops.op_req_path(globalThis.__JS_REQUEST_RID__),\n  headers: () => Deno.core.ops.op_req_headers(globalThis.__JS_REQUEST_RID__),\n  body: () => Deno.core.ops.op_req_body(globalThis.__JS_REQUEST_RID__),\n  header: (key) => Deno.core.ops.op_req_get_header(globalThis.__JS_REQUEST_RID__, key),\n};\nglobalThis.db = {\n  execute: (sql) => Deno.core.ops.op_sql_execute(sql),\n  query: (sql) => Deno.core.ops.op_sql_query(sql),\n};\n"@
}

/// The script run in a fresh sandbox before the guest's module: it records the
/// request's handle in a well-known global and binds the guest surface to it.
pub open spec fn init_script_text(rid: nat) -> Seq<char> {
    "globalThis.__JS_REQUEST_RID__ = "@ + decimal(rid) + ";"@ + guest_surface()
}

pub struct RuntimeFactory;

impl RuntimeFactory {
    /// The script that binds the request handle `rid` and the guest surface.
    pub fn init_script(rid: u32) -> (r: String)
        ensures
            r@ == init_script_text(rid as nat),
    {
        let mut r = String::from_str("globalThis.__JS_REQUEST_RID__ = ");
        push_decimal(&mut r, rid as usize);
        r.append(";");
        r.append(
            "\nglobalThis.request = {\n  method: () => Deno.core.ops.op_req_method(globalThis.__JS_REQUEST_RID__),\n  path: () => Deno.core.ops.op_req_path(globalThis.__JS_REQUEST_RID__),\n  headers: () => Deno.core.ops.op_req_headers(globalThis.__JS_REQUEST_RID__),\n  body: () => Deno.core.ops.op_req_body(globalThis.__JS_REQUEST_RID__),\n  header: (key) => Deno.core.ops.op_req_get_header(globalThis.__JS_REQUEST_RID__, key),\n};\nglobalThis.db = {\n  execute: (sql) => Deno.core.ops.op_sql_execute(sql),\n  query: (sql) => Deno.core.ops.op_sql_query(sql),\n};\n",
        );
        r
    }

    /// A fresh sandbox state holding `request` under the handle that is returned.
    pub fn configure_state(request: JsRequest) -> (r: (SandboxState, u32))
        ensures
            r.0.issued() == 1,
            r.0.request_at(r.1 as int) == Some(request),
            forall|k: int| k != r.1 ==> (#[trigger] r.0.request_at(k)) is None,
            !r.0.has_replied(),
            r.0.pending_reply() is None,
    {
        let mut state = SandboxState::new();
        let h = state.register_request(request);
        (state, h)
    }
}


/// How running a script failed, with the detail that the engine gave.
#[derive(Debug)]
pub enum RunError {
    /// The script's path did not resolve to a module location.
    Resolve(String),
    /// The module could not be read, parsed or transpiled.
    Load(String),
}

pub struct ScriptRunner;

impl ScriptRunner {
    /// The diagnostic text of a failure.
    pub fn describe(err: &RunError) -> (r: String)
        ensures
            err matches RunError::Resolve(d) ==> r@ == "Failed to resolve script path: "@ + d@,
            err matches RunError::Load(d) ==> r@ == "Failed to load module: "@ + d@,
    {
        match err {
            RunError::Resolve(d) => {
                let mut m = String::from_str("Failed to resolve script path: ");
                m.append(d.as_str());
                m
            },
            RunError::Load(d) => {
                let mut m = String::from_str("Failed to load module: ");
                m.append(d.as_str());
                m
            },
        }
    }
}

} // verus!
