//! The JSON-RPC layer: reading envelopes, validating calls, planning their
//! execution and assembling the responses.
use vstd::prelude::*;
use crate::json::{
    drop_null, encode_json, field_of, json_text, lemma_field_of_suffix, optional_field, parse_json,
    parsed_json, str_field, JsonNumber, JsonValue,
};
use crate::models::{
    is_rpc_error, Headers, JsRequest, JsResponse, JsonRpcError, JsonRpcRequest, JsonRpcResponse,
    INTERNAL_ERROR, INVALID_REQUEST, METHOD_NOT_FOUND, PARSE_ERROR,
};

verus! {

/// A value that reads as one call: an object with string members `jsonrpc` and `method`.
pub open spec fn call_shape(v: JsonValue) -> bool {
    &&& v is Object
    &&& str_field(v->Object_0@, "jsonrpc"@) is Some
    &&& str_field(v->Object_0@, "method"@) is Some
}

/// `req` is the call that the value `v` reads as.
pub open spec fn reads_as(v: JsonValue, req: JsonRpcRequest) -> bool {
    &&& v is Object
    &&& str_field(v->Object_0@, "jsonrpc"@) == Some(req.jsonrpc@)
    &&& str_field(v->Object_0@, "method"@) == Some(req.method@)
    &&& req.params == optional_field(v->Object_0@, "params"@)
    &&& req.id == optional_field(v->Object_0@, "id"@)
}

/// What an envelope holds: one call or a batch of calls.
#[derive(Debug)]
pub enum JsonRpcRequestType {
    Single(JsonRpcRequest),
    Batch(Vec<JsonRpcRequest>),
}

/// An envelope that reads as a call or as a batch of calls.
pub open spec fn envelope_ok(parsed: Option<JsonValue>) -> bool {
    match parsed {
        Some(JsonValue::Object(m)) => call_shape(JsonValue::Object(m)),
        Some(JsonValue::Array(items)) => forall|i: int| 0 <= i < items@.len() ==> call_shape(#[trigger] items@[i]),
        _ => false,
    }
}

/// `r` is what the envelope `parsed` reads as: an object is one call, an array a
/// batch, and anything else, or a member that is not a call, a parse error.
pub open spec fn classified(parsed: Option<JsonValue>, r: Result<JsonRpcRequestType, JsonRpcError>) -> bool {
    &&& (r is Ok <==> envelope_ok(parsed))
    &&& match r {
        Ok(JsonRpcRequestType::Single(req)) => parsed matches Some(v) && v is Object && reads_as(v, req),
        Ok(JsonRpcRequestType::Batch(reqs)) => parsed matches Some(JsonValue::Array(items))
            && reqs@.len() == items@.len()
            && forall|i: int| 0 <= i < items@.len() ==> reads_as(#[trigger] items@[i], reqs@[i]),
        Err(e) => is_rpc_error(e, PARSE_ERROR, "Parse error"@, "Failed to parse JSON-RPC request"@),
    }
}

/// The members named `jsonrpc`, `method`, `params` and `id`, the first of each name.
fn take_call_members(members: Vec<(String, JsonValue)>) -> (r: (
    Option<JsonValue>,
    Option<JsonValue>,
    Option<JsonValue>,
    Option<JsonValue>,
))
    ensures
        r.0 == field_of(members@, "jsonrpc"@),
        r.1 == field_of(members@, "method"@),
        r.2 == field_of(members@, "params"@),
        r.3 == field_of(members@, "id"@),
{
    let ghost all = members@;
    proof {
        reveal_strlit("jsonrpc");
        reveal_strlit("method");
        reveal_strlit("params");
        reveal_strlit("id");
        assert("jsonrpc"@.len() == 7 && "method"@.len() == 6);
        assert("params"@.len() == 6 && "id"@.len() == 2);
        assert("method"@[0] != "params"@[0]);
    }
    let mut rest = members;
    let k_version = String::from_str("jsonrpc");
    let k_method = String::from_str("method");
    let k_params = String::from_str("params");
    let k_id = String::from_str("id");
    let mut version: Option<JsonValue> = None;
    let mut method: Option<JsonValue> = None;
    let mut params: Option<JsonValue> = None;
    let mut id: Option<JsonValue> = None;
    assert(all.subrange(all.len() as int, all.len() as int).len() == 0);
    while rest.len() > 0
        invariant
            rest@ == all.subrange(0, rest@.len() as int),
            rest@.len() <= all.len(),
            k_version@ == "jsonrpc"@,
            k_method@ == "method"@,
            k_params@ == "params"@,
            k_id@ == "id"@,
            "jsonrpc"@ != "method"@ && "jsonrpc"@ != "params"@ && "jsonrpc"@ != "id"@,
            "method"@ != "params"@ && "method"@ != "id"@ && "params"@ != "id"@,
            version == field_of(all.subrange(rest@.len() as int, all.len() as int), "jsonrpc"@),
            method == field_of(all.subrange(rest@.len() as int, all.len() as int), "method"@),
            params == field_of(all.subrange(rest@.len() as int, all.len() as int), "params"@),
            id == field_of(all.subrange(rest@.len() as int, all.len() as int), "id"@),
        decreases rest@.len(),
    {
        let ghost i = rest@.len() - 1;
        proof {
            lemma_field_of_suffix(all, "jsonrpc"@, i);
            lemma_field_of_suffix(all, "method"@, i);
            lemma_field_of_suffix(all, "params"@, i);
            lemma_field_of_suffix(all, "id"@, i);
        }
        let (k, v) = rest.pop().unwrap();
        assert(rest@ =~= all.subrange(0, rest@.len() as int));
        if k == k_version {
            version = Some(v);
        } else if k == k_method {
            method = Some(v);
        } else if k == k_params {
            params = Some(v);
        } else if k == k_id {
            id = Some(v);
        }
    }
    assert(all.subrange(0, all.len() as int) =~= all);
    (version, method, params, id)
}

/// Reads one call out of a JSON value.
pub fn request_from_json(v: JsonValue) -> (r: Option<JsonRpcRequest>)
    ensures
        r is Some <==> call_shape(v),
        r is Some ==> reads_as(v, r->Some_0),
{
    match v {
        JsonValue::Object(members) => {
            let (version, method, params, id) = take_call_members(members);
            match (version, method) {
                (Some(JsonValue::Str(jsonrpc)), Some(JsonValue::Str(method))) => Some(
                    JsonRpcRequest { jsonrpc, method, params: drop_null(params), id: drop_null(id) },
                ),
                _ => None,
            }
        },
        _ => None,
    }
}

fn envelope_parse_error() -> (e: JsonRpcError)
    ensures
        is_rpc_error(e, PARSE_ERROR, "Parse error"@, "Failed to parse JSON-RPC request"@),
{
    JsonRpcError::parse_error("Failed to parse JSON-RPC request")
}

/// Reads an envelope that has been parsed as JSON (`None`: the text was not JSON).
pub fn classify_envelope(parsed: Option<JsonValue>) -> (r: Result<JsonRpcRequestType, JsonRpcError>)
    ensures
        classified(parsed, r),
{
    match parsed {
        Some(JsonValue::Object(members)) => {
            match request_from_json(JsonValue::Object(members)) {
                Some(req) => Ok(JsonRpcRequestType::Single(req)),
                None => Err(envelope_parse_error()),
            }
        },
        Some(JsonValue::Array(items)) => {
            let ghost all = items@;
            assert(parsed matches Some(JsonValue::Array(v)) && v@ == all);
            let mut rest = items;
            let mut reqs: Vec<JsonRpcRequest> = Vec::new();
            while rest.len() > 0
                invariant
                    parsed matches Some(JsonValue::Array(v)) && v@ == all,
                    reqs@.len() + rest@.len() == all.len(),
                    rest@ == all.subrange(reqs@.len() as int, all.len() as int),
                    forall|i: int| 0 <= i < reqs@.len() ==> reads_as(#[trigger] all[i], reqs@[i]),
                    forall|i: int| 0 <= i < reqs@.len() ==> call_shape(#[trigger] all[i]),
                decreases rest@.len(),
            {
                let item = rest.remove(0);
                assert(item == all[reqs@.len() as int]);
                match request_from_json(item) {
                    Some(req) => {
                        reqs.push(req);
                        assert(rest@ =~= all.subrange(reqs@.len() as int, all.len() as int));
                    },
                    None => {
                        assert(!call_shape(all[reqs@.len() as int]));
                        return Err(envelope_parse_error());
                    },
                }
            }
            Ok(JsonRpcRequestType::Batch(reqs))
        },
        _ => Err(envelope_parse_error()),
    }
}

/// `pat` occurs in `s` at position `i`.
pub open spec fn occurs_at(s: Seq<char>, pat: Seq<char>, i: int) -> bool {
    0 <= i && i + pat.len() <= s.len() && s.subrange(i, i + pat.len()) == pat
}

/// `pat` occurs somewhere in `s`.
pub open spec fn has_substring(s: Seq<char>, pat: Seq<char>) -> bool {
    exists|i: int| occurs_at(s, pat, i)
}

fn occurs_at_exec(s: &str, n: usize, pat: &str, m: usize, i: usize) -> (r: bool)
    requires
        n == s@.len(),
        m == pat@.len(),
        i + m <= n,
    ensures
        r == occurs_at(s@, pat@, i as int),
{
    let mut j: usize = 0;
    while j < m
        invariant
            n == s@.len(),
            m == pat@.len(),
            i + m <= n,
            j <= m,
            forall|k: int| 0 <= k < j ==> s@[i + k] == pat@[k],
        decreases m - j,
    {
        if s.get_char(i + j) != pat.get_char(j) {
            assert(s@.subrange(i as int, i + m)[j as int] != pat@[j as int]);
            return false;
        }
        j = j + 1;
    }
    assert(s@.subrange(i as int, i + m) =~= pat@);
    true
}

/// Whether `pat` occurs in `s`.
pub fn contains_text(s: &str, pat: &str) -> (r: bool)
    ensures
        r == has_substring(s@, pat@),
{
    let n = s.unicode_len();
    let m = pat.unicode_len();
    if m > n {
        assert forall|i: int| !occurs_at(s@, pat@, i) by {}
        return false;
    }
    if m == 0 {
        assert(s@.subrange(0, 0) =~= pat@);
        assert(occurs_at(s@, pat@, 0));
        return true;
    }
    let mut i: usize = 0;
    while i <= n - m
        invariant
            n == s@.len(),
            m == pat@.len(),
            0 < m <= n,
            i <= n - m + 1,
            forall|k: int| 0 <= k < i ==> !occurs_at(s@, pat@, k),
        decreases n - m + 1 - i,
    {
        if occurs_at_exec(s, n, pat, m, i) {
            return true;
        }
        i = i + 1;
    }
    assert forall|k: int| !occurs_at(s@, pat@, k) by {
        if 0 <= k < i {
        }
    }
    false
}

/// The parts of an HTTP request that the JSON-RPC layer reads.
#[derive(Debug)]
pub struct ParsedHttpRequest {
    pub body: String,
    pub headers: Headers,
}

pub struct RequestParser;

impl RequestParser {
    /// A JSON-RPC request must declare a JSON body.
    pub fn accepts_content_type(content_type: &str) -> (r: bool)
        ensures
            r == has_substring(content_type@, "application/json"@),
    {
        contains_text(content_type, "application/json")
    }

    /// Reads a request body as one JSON-RPC call or a batch of them.
    pub fn parse_json_rpc_request(body: &str) -> (r: Result<JsonRpcRequestType, JsonRpcError>)
        ensures
            classified(parsed_json(body@), r),
    {
        classify_envelope(parse_json(body))
    }
}


/// A call that may run: version "2.0" and a method name.
pub open spec fn valid_call(req: JsonRpcRequest) -> bool {
    req.jsonrpc@ == "2.0"@ && req.method@.len() > 0
}

/// Where the script that answers JSON-RPC method `method` lies.
pub open spec fn rpc_script_location(method: Seq<char>) -> Seq<char> {
    "./scripts/"@ + method + ".js"@
}

/// Where the script named `name` of the HTTP surface lies.
pub open spec fn http_script_location(name: Seq<char>) -> Seq<char> {
    "./scripts/"@ + name
}

/// The path of the script that answers JSON-RPC method `method`.
pub fn rpc_script_path(method: &str) -> (r: String)
    ensures
        r@ == rpc_script_location(method@),
{
    let mut p = String::from_str("./scripts/");
    p.append(method);
    p.append(".js");
    p
}

/// The path of the script named `name` of the HTTP surface.
pub fn http_script_path(name: &str) -> (r: String)
    ensures
        r@ == http_script_location(name@),
{
    let mut p = String::from_str("./scripts/");
    p.append(name);
    p
}

/// Relies on std::path::Path::exists: whether something is at `path` now; the
/// answer depends on the disk.
#[verifier::external_body]
pub(crate) fn path_exists(path: &str) -> bool {
    std::path::Path::new(path).exists()
}

pub struct RequestValidator;

impl RequestValidator {
    /// Checks the protocol version, then that a method is named.
    pub fn validate_request(req: &JsonRpcRequest) -> (r: Result<(), JsonRpcError>)
        ensures
            r is Ok <==> valid_call(*req),
            req.jsonrpc@ != "2.0"@ ==> (r matches Err(e) && is_rpc_error(
                e,
                INVALID_REQUEST,
                "Invalid Request"@,
                "jsonrpc version must be 2.0"@,
            )),
            req.jsonrpc@ == "2.0"@ && req.method@.len() == 0 ==> (r matches Err(e) && is_rpc_error(
                e,
                INVALID_REQUEST,
                "Invalid Request"@,
                "method is required"@,
            )),
    {
        let version = String::from_str("2.0");
        if !(req.jsonrpc == version) {
            return Err(JsonRpcError::invalid_request("jsonrpc version must be 2.0"));
        }
        if req.method.as_str().is_empty() {
            return Err(JsonRpcError::invalid_request("method is required"));
        }
        Ok(())
    }

    /// The verdict on method `method` once it is known whether its script exists.
    pub fn script_presence(method: &str, found: bool) -> (r: Result<(), JsonRpcError>)
        ensures
            found ==> r is Ok,
            !found ==> (r matches Err(e) && is_rpc_error(e, METHOD_NOT_FOUND, "Method not found"@, method@)),
    {
        if found {
            Ok(())
        } else {
            Err(JsonRpcError::method_not_found(method))
        }
    }

    /// Checks that the script of method `method` exists.
    pub fn validate_script_exists(method: &str) -> (r: Result<(), JsonRpcError>)
        ensures
            r is Ok || (r matches Err(e) && is_rpc_error(e, METHOD_NOT_FOUND, "Method not found"@, method@)),
    {
        let path = rpc_script_path(method);
        let found = path_exists(path.as_str());
        RequestValidator::script_presence(method, found)
    }

    /// A batch must hold at least one call.
    pub fn validate_batch_not_empty(requests: &[JsonRpcRequest]) -> (r: Result<(), JsonRpcError>)
        ensures
            r is Ok <==> requests@.len() > 0,
            requests@.len() == 0 ==> (r matches Err(e) && is_rpc_error(
                e,
                INVALID_REQUEST,
                "Invalid Request"@,
                "Batch request cannot be empty"@,
            )),
    {
        if requests.len() == 0 {
            return Err(JsonRpcError::invalid_request("Batch request cannot be empty"));
        }
        Ok(())
    }
}

/// One script run that a call asks for.
#[derive(Debug)]
pub struct RuntimeConfig {
    pub script_path: String,
    pub request: JsRequest,
}

/// What to do with one call: answer it at once, or run its script and answer
/// with the call's `id`.
#[derive(Debug)]
pub enum CallPlan {
    Answer(JsonRpcResponse),
    Run { call: RuntimeConfig, id: Option<JsonValue> },
}

/// The value that a call's parameters stand for: `null` where there are none.
pub open spec fn params_value(params: Option<JsonValue>) -> JsonValue {
    match params {
        Some(p) => p,
        None => JsonValue::Null,
    }
}

/// `call` runs the script of `req`, with the headers `headers`, method "JSON-RPC",
/// path "/rpc/<method>" and the parameters' JSON text as body.
pub open spec fn runs_call(req: JsonRpcRequest, headers: Map<Seq<char>, Seq<char>>, call: RuntimeConfig) -> bool {
    &&& call.script_path@ == rpc_script_location(req.method@)
    &&& call.request.method@ == "JSON-RPC"@
    &&& call.request.path@ == "/rpc/"@ + req.method@
    &&& call.request.headers@ == headers
    &&& call.request.body@ == json_text(params_value(req.params))
}

/// `plan` answers at once with the error `code`, `message`, `detail` and the id `id`.
pub open spec fn answers_error(plan: CallPlan, id: Option<JsonValue>, code: i32, message: Seq<char>, detail: Seq<char>) -> bool {
    plan matches CallPlan::Answer(resp) && resp.jsonrpc@ == "2.0"@ && resp.result is None && resp.id == id
        && (resp.error matches Some(e) && is_rpc_error(e, code, message, detail))
}

/// The plan for a call that has been validated: `found` tells whether its script exists.
pub open spec fn planned(req: JsonRpcRequest, headers: Map<Seq<char>, Seq<char>>, found: bool, plan: CallPlan) -> bool {
    if req.jsonrpc@ != "2.0"@ {
        answers_error(plan, req.id, INVALID_REQUEST, "Invalid Request"@, "jsonrpc version must be 2.0"@)
    } else if req.method@.len() == 0 {
        answers_error(plan, req.id, INVALID_REQUEST, "Invalid Request"@, "method is required"@)
    } else if !found {
        answers_error(plan, req.id, METHOD_NOT_FOUND, "Method not found"@, req.method@)
    } else {
        plan matches CallPlan::Run { call, id } && id == req.id && runs_call(req, headers, call)
    }
}

/// The request that a call hands its script.
fn script_request(method: &String, params: Option<JsonValue>, headers: &Headers) -> (r: JsRequest)
    ensures
        r.method@ == "JSON-RPC"@,
        r.path@ == "/rpc/"@ + method@,
        r.headers@ == headers@,
        r.body@ == json_text(params_value(params)),
{
    let value = match params {
        Some(p) => p,
        None => JsonValue::Null,
    };
    let body = encode_json(&value);
    let mut path = String::from_str("/rpc/");
    path.append(method.as_str());
    JsRequest::new(String::from_str("JSON-RPC"), path, headers.copy(), body)
}

pub struct BatchProcessor;

impl BatchProcessor {
    /// Decides what to do with one call, given whether its script exists.
    pub fn plan_call(req: JsonRpcRequest, headers: &Headers, script_found: bool) -> (r: CallPlan)
        ensures
            planned(req, headers@, script_found, r),
    {
        match RequestValidator::validate_request(&req) {
            Err(e) => {
                return CallPlan::Answer(JsonRpcResponse::error(e, req.id));
            },
            Ok(()) => {},
        }
        match RequestValidator::script_presence(req.method.as_str(), script_found) {
            Err(e) => {
                return CallPlan::Answer(JsonRpcResponse::error(e, req.id));
            },
            Ok(()) => {},
        }
        let script_path = rpc_script_path(req.method.as_str());
        let request = script_request(&req.method, req.params, headers);
        CallPlan::Run { call: RuntimeConfig { script_path, request }, id: req.id }
    }

    /// Decides what to do with one call, looking up its script on disk.
    pub fn process_single(req: JsonRpcRequest, headers: &Headers) -> (r: CallPlan)
        ensures
            planned(req, headers@, true, r) || planned(req, headers@, false, r),
            !valid_call(req) ==> planned(req, headers@, false, r),
    {
        if !valid_call_exec(&req) {
            return BatchProcessor::plan_call(req, headers, false);
        }
        let path = rpc_script_path(req.method.as_str());
        let found = path_exists(path.as_str());
        BatchProcessor::plan_call(req, headers, found)
    }

    /// The response to a call whose script replied with `reply`, given what the
    /// reply's body parses as (`None`: not JSON).
    pub fn response_for_reply(reply: JsResponse, parsed: Option<JsonValue>, id: Option<JsonValue>) -> (r: JsonRpcResponse)
        ensures
            r.jsonrpc@ == "2.0"@,
            r.id == id,
            reply.status == 200 ==> r.error is None && r.result == Some(match parsed {
                Some(v) => v,
                None => JsonValue::Str(reply.body),
            }),
            reply.status != 200 ==> (r.result is None && (r.error matches Some(e) && is_rpc_error(
                e,
                INTERNAL_ERROR,
                "Internal error"@,
                reply.body@,
            ))),
    {
        if reply.status == 200 {
            let result = match parsed {
                Some(v) => v,
                None => JsonValue::Str(reply.body),
            };
            JsonRpcResponse::success(result, id)
        } else {
            JsonRpcResponse::error(JsonRpcError::internal_error(reply.body.as_str()), id)
        }
    }

    /// The response to a call whose script replied with `reply`: a 200 reply's
    /// body is the result, as JSON where it parses and as a string otherwise; any
    /// other reply is an internal error carrying the body.
    pub fn build_result(reply: JsResponse, request_id: Option<JsonValue>) -> (r: JsonRpcResponse)
        ensures
            r.jsonrpc@ == "2.0"@,
            r.id == request_id,
            reply.status == 200 ==> r.error is None && r.result == Some(match parsed_json(reply.body@) {
                Some(v) => v,
                None => JsonValue::Str(reply.body),
            }),
            reply.status != 200 ==> (r.result is None && (r.error matches Some(e) && is_rpc_error(
                e,
                INTERNAL_ERROR,
                "Internal error"@,
                reply.body@,
            ))),
    {
        let parsed = if reply.status == 200 {
            parse_json(reply.body.as_str())
        } else {
            None
        };
        BatchProcessor::response_for_reply(reply, parsed, request_id)
    }
}

fn valid_call_exec(req: &JsonRpcRequest) -> (r: bool)
    ensures
        r == valid_call(*req),
{
    RequestValidator::validate_request(req).is_ok()
}


/// The responses that are transmitted: those whose call carried an `id`, in order.
pub open spec fn answered(s: Seq<JsonRpcResponse>) -> Seq<JsonRpcResponse>
    decreases s.len(),
{
    if s.len() == 0 {
        Seq::empty()
    } else if s.last().id is Some {
        answered(s.drop_last()).push(s.last())
    } else {
        answered(s.drop_last())
    }
}

/// How many of the calls carry an `id`.
pub open spec fn calls_with_id(calls: Seq<JsonRpcRequest>) -> nat
    decreases calls.len(),
{
    if calls.len() == 0 {
        0
    } else {
        calls_with_id(calls.drop_last()) + if calls.last().id is Some { 1nat } else { 0nat }
    }
}

/// The JSON number that an `i32` is written as.
pub open spec fn int_number(i: i32) -> JsonNumber {
    if i >= 0 {
        JsonNumber::PosInt(i as u64)
    } else {
        JsonNumber::NegInt(i as i64)
    }
}

/// `v` is the JSON object of error `e`: `code`, `message`, then `data` if present.
pub open spec fn encodes_error(e: JsonRpcError, v: JsonValue) -> bool {
    &&& v is Object
    &&& {
        let m = v->Object_0@;
        &&& m.len() == if e.data is Some { 3int } else { 2int }
        &&& m[0].0@ == "code"@ && m[0].1 == JsonValue::Number(int_number(e.code))
        &&& m[1].0@ == "message"@ && m[1].1 == JsonValue::Str(e.message)
        &&& e.data is Some ==> m[2].0@ == "data"@ && m[2].1 == e.data->Some_0
    }
}

pub open spec fn present(o: bool) -> int {
    if o { 1 } else { 0 }
}

/// `v` is the JSON object of response `r`: `jsonrpc`, then `result`, `error` and
/// `id` where each is present.
pub open spec fn encodes_response(r: JsonRpcResponse, v: JsonValue) -> bool {
    &&& v is Object
    &&& {
        let m = v->Object_0@;
        let at_error = 1 + present(r.result is Some);
        let at_id = at_error + present(r.error is Some);
        &&& m.len() == at_id + present(r.id is Some)
        &&& m[0].0@ == "jsonrpc"@ && m[0].1 == JsonValue::Str(r.jsonrpc)
        &&& r.result is Some ==> m[1].0@ == "result"@ && m[1].1 == r.result->Some_0
        &&& r.error is Some ==> m[at_error].0@ == "error"@ && encodes_error(r.error->Some_0, m[at_error].1)
        &&& r.id is Some ==> m[at_id].0@ == "id"@ && m[at_id].1 == r.id->Some_0
    }
}

fn number_of_i32(i: i32) -> (r: JsonNumber)
    ensures
        r == int_number(i),
{
    if i >= 0 {
        JsonNumber::PosInt(i as u64)
    } else {
        JsonNumber::NegInt(i as i64)
    }
}

/// The JSON object of an error.
pub fn error_json(e: JsonRpcError) -> (v: JsonValue)
    ensures
        encodes_error(e, v),
{
    let mut m: Vec<(String, JsonValue)> = Vec::new();
    m.push((String::from_str("code"), JsonValue::Number(number_of_i32(e.code))));
    m.push((String::from_str("message"), JsonValue::Str(e.message)));
    match e.data {
        Some(d) => {
            m.push((String::from_str("data"), d));
        },
        None => {},
    }
    JsonValue::Object(m)
}

/// The JSON object of a response.
pub fn response_json(r: JsonRpcResponse) -> (v: JsonValue)
    ensures
        encodes_response(r, v),
{
    let mut m: Vec<(String, JsonValue)> = Vec::new();
    m.push((String::from_str("jsonrpc"), JsonValue::Str(r.jsonrpc)));
    match r.result {
        Some(x) => {
            m.push((String::from_str("result"), x));
        },
        None => {},
    }
    match r.error {
        Some(e) => {
            let ev = error_json(e);
            m.push((String::from_str("error"), ev));
        },
        None => {},
    }
    match r.id {
        Some(i) => {
            m.push((String::from_str("id"), i));
        },
        None => {},
    }
    JsonValue::Object(m)
}

pub struct ResponseBuilder;

impl ResponseBuilder {
    /// Drops the responses to notifications, keeping the order of the others.
    pub fn drop_notifications(responses: Vec<JsonRpcResponse>) -> (r: Vec<JsonRpcResponse>)
        ensures
            r@ == answered(responses@),
    {
        let ghost all = responses@;
        let mut rest = responses;
        let mut kept: Vec<JsonRpcResponse> = Vec::new();
        let mut done: usize = 0;
        let total: usize = rest.len();
        assert(all.subrange(0, 0) =~= Seq::<JsonRpcResponse>::empty());
        while rest.len() > 0
            invariant
                done + rest@.len() == all.len(),
                all.len() == total,
                rest@ == all.subrange(done as int, all.len() as int),
                kept@ == answered(all.subrange(0, done as int)),
            decreases rest@.len(),
        {
            let x = rest.remove(0);
            assert(x == all[done as int]);
            assert(all.subrange(0, done as int + 1).drop_last() =~= all.subrange(0, done as int));
            if x.id.is_some() {
                kept.push(x);
            }
            done = done + 1;
            assert(rest@ =~= all.subrange(done as int, all.len() as int));
        }
        assert(all.subrange(0, all.len() as int) =~= all);
        kept
    }

    /// The body of a response to one call.
    pub fn build_response(resp: JsonRpcResponse) -> (r: String)
        ensures
            exists|v: JsonValue| encodes_response(resp, v) && r@ == json_text(v),
    {
        let v = response_json(resp);
        encode_json(&v)
    }

    /// The body of a response to a batch: the responses to the calls that carried
    /// an `id`, in order, and `[]` where there are none.
    pub fn build_batch_response(responses: Vec<JsonRpcResponse>) -> (r: String)
        ensures
            answered(responses@).len() == 0 ==> r@ == "[]"@,
            answered(responses@).len() > 0 ==> exists|items: Vec<JsonValue>|
                #![trigger json_text(JsonValue::Array(items))]
                items@.len() == answered(responses@).len()
                && (forall|i: int| 0 <= i < items@.len() ==> encodes_response(answered(responses@)[i], #[trigger] items@[i]))
                && r@ == json_text(JsonValue::Array(items)),
    {
        let kept = ResponseBuilder::drop_notifications(responses);
        if kept.len() == 0 {
            return String::from_str("[]");
        }
        let ghost all = kept@;
        let mut rest = kept;
        let mut items: Vec<JsonValue> = Vec::new();
        while rest.len() > 0
            invariant
                items@.len() + rest@.len() == all.len(),
                rest@ == all.subrange(items@.len() as int, all.len() as int),
                forall|i: int| 0 <= i < items@.len() ==> encodes_response(all[i], #[trigger] items@[i]),
            decreases rest@.len(),
        {
            let x = rest.remove(0);
            assert(x == all[items@.len() as int]);
            let v = response_json(x);
            items.push(v);
            assert(rest@ =~= all.subrange(items@.len() as int, all.len() as int));
        }
        let v = JsonValue::Array(items);
        encode_json(&v)
    }

    /// The body of an error response that answers no call in particular.
    pub fn build_error_response(error: JsonRpcError) -> (r: String)
        ensures
            exists|resp: JsonRpcResponse, v: JsonValue|
                #![trigger encodes_response(resp, v)]
                resp.jsonrpc@ == "2.0"@ && resp.result is None && resp.error == Some(error) && resp.id is None
                && encodes_response(resp, v) && r@ == json_text(v),
    {
        ResponseBuilder::build_response(JsonRpcResponse::error(error, None))
    }
}

/// Every response carries the `id` of its call, so the batch body holds one entry
/// per call that carried an `id`, and none where every call is a notification.
pub proof fn lemma_batch_answers_calls_with_id(calls: Seq<JsonRpcRequest>, responses: Seq<JsonRpcResponse>)
    requires
        calls.len() == responses.len(),
        forall|i: int| 0 <= i < calls.len() ==> (#[trigger] responses[i]).id == calls[i].id,
    ensures
        answered(responses).len() == calls_with_id(calls),
        (forall|i: int| 0 <= i < calls.len() ==> (#[trigger] calls[i]).id is None) ==> answered(responses).len() == 0,
    decreases calls.len(),
{
    if calls.len() > 0 {
        let c = calls.drop_last();
        let r = responses.drop_last();
        assert forall|i: int| 0 <= i < c.len() implies (#[trigger] r[i]).id == c[i].id by {
            assert(r[i] == responses[i]);
            assert(c[i] == calls[i]);
        }
        lemma_batch_answers_calls_with_id(c, r);
        assert(responses.last().id == calls.last().id);
        if forall|i: int| 0 <= i < calls.len() ==> (#[trigger] calls[i]).id is None {
            assert(calls[calls.len() - 1].id is None);
            assert forall|i: int| 0 <= i < c.len() implies (#[trigger] c[i]).id is None by {
                assert(c[i] == calls[i]);
            }
        }
    }
}

/// A text that is not JSON, or JSON that is neither an object nor an array, is a
/// parse error.
pub proof fn lemma_malformed_envelope_is_parse_error(parsed: Option<JsonValue>, r: Result<JsonRpcRequestType, JsonRpcError>)
    requires
        parsed is None || !(parsed->Some_0 is Object || parsed->Some_0 is Array),
        classified(parsed, r),
    ensures
        r matches Err(e) && e.code == PARSE_ERROR,
{
}

} // verus!
