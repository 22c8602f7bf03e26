//! The records that pass between the transport, the sandbox and the JSON-RPC layer.
use vstd::prelude::*;
use crate::json::JsonValue;

verus! {

/// The value of the first entry whose name is `key`.
pub open spec fn header_lookup(entries: Seq<(String, String)>, key: Seq<char>) -> Option<Seq<char>>
    decreases entries.len(),
{
    if entries.len() == 0 {
        None
    } else if entries[0].0@ == key {
        Some(entries[0].1@)
    } else {
        header_lookup(entries.drop_first(), key)
    }
}

/// Index of the first entry whose name is `key`, if any.
pub open spec fn header_position(entries: Seq<(String, String)>, key: Seq<char>) -> Option<int>
    decreases entries.len(),
{
    if entries.len() == 0 {
        None
    } else if entries[0].0@ == key {
        Some(0)
    } else {
        match header_position(entries.drop_first(), key) {
            Some(i) => Some(i + 1),
            None => None,
        }
    }
}

/// A mapping from header names to values; inserting a name again replaces its value.
#[derive(Debug)]
pub struct Headers {
    pub entries: Vec<(String, String)>,
}

impl View for Headers {
    type V = Map<Seq<char>, Seq<char>>;

    open spec fn view(&self) -> Map<Seq<char>, Seq<char>> {
        Map::new(
            |k: Seq<char>| header_lookup(self.entries@, k) is Some,
            |k: Seq<char>| header_lookup(self.entries@, k)->Some_0,
        )
    }
}

proof fn lemma_lookup_position(entries: Seq<(String, String)>, key: Seq<char>)
    ensures
        header_position(entries, key) is None <==> header_lookup(entries, key) is None,
        header_position(entries, key) is Some ==> {
            let i = header_position(entries, key)->Some_0;
            &&& 0 <= i < entries.len()
            &&& entries[i].0@ == key
            &&& header_lookup(entries, key) == Some(entries[i].1@)
            &&& forall|j: int| 0 <= j < i ==> entries[j].0@ != key
        },
        header_position(entries, key) is None ==> forall|j: int|
            0 <= j < entries.len() ==> entries[j].0@ != key,
    decreases entries.len(),
{
    if entries.len() > 0 && entries[0].0@ != key {
        lemma_lookup_position(entries.drop_first(), key);
        let rest = entries.drop_first();
        assert forall|j: int| 1 <= j < entries.len() implies entries[j] == rest[j - 1] by {}
    }
}

proof fn lemma_lookup_first_match(entries: Seq<(String, String)>, key: Seq<char>, i: int)
    requires
        0 <= i < entries.len(),
        entries[i].0@ == key,
        forall|j: int| 0 <= j < i ==> entries[j].0@ != key,
    ensures
        header_lookup(entries, key) == Some(entries[i].1@),
    decreases i,
{
    if i > 0 {
        let rest = entries.drop_first();
        assert forall|j: int| 0 <= j < i - 1 implies rest[j].0@ != key by {
            assert(rest[j] == entries[j + 1]);
        }
        lemma_lookup_first_match(rest, key, i - 1);
    }
}

proof fn lemma_lookup_absent(entries: Seq<(String, String)>, key: Seq<char>)
    requires
        forall|j: int| 0 <= j < entries.len() ==> entries[j].0@ != key,
    ensures
        header_lookup(entries, key) is None,
    decreases entries.len(),
{
    if entries.len() > 0 {
        let rest = entries.drop_first();
        assert forall|j: int| 0 <= j < rest.len() implies rest[j].0@ != key by {
            assert(rest[j] == entries[j + 1]);
        }
        lemma_lookup_absent(rest, key);
    }
}

impl Headers {
    /// An empty mapping.
    pub fn new() -> (r: Headers)
        ensures
            r@ == Map::<Seq<char>, Seq<char>>::empty(),
            r.entries@.len() == 0,
    {
        let r = Headers { entries: Vec::new() };
        assert(r@ =~= Map::<Seq<char>, Seq<char>>::empty());
        r
    }

    /// Position of the first entry named `key`.
    fn find(&self, key: &String) -> (r: Option<usize>)
        ensures
            r is Some <==> header_position(self.entries@, key@) is Some,
            r is Some ==> header_position(self.entries@, key@) == Some(r->Some_0 as int),
    {
        proof { lemma_lookup_position(self.entries@, key@); }
        let mut i: usize = 0;
        while i < self.entries.len()
            invariant
                0 <= i <= self.entries@.len(),
                forall|j: int| 0 <= j < i ==> self.entries@[j].0@ != key@,
            decreases self.entries@.len() - i,
        {
            if self.entries[i].0 == *key {
                proof {
                    lemma_lookup_first_match(self.entries@, key@, i as int);
                    lemma_lookup_position(self.entries@, key@);
                }
                return Some(i);
            }
            i = i + 1;
        }
        proof { lemma_lookup_absent(self.entries@, key@); }
        None
    }

    /// Sets `key` to `value`, replacing an earlier value of that name.
    pub fn insert(&mut self, key: String, value: String)
        ensures
            final(self)@ == old(self)@.insert(key@, value@),
    {
        proof { lemma_lookup_position(old(self).entries@, key@); }
        match self.find(&key) {
            Some(i) => {
                let ghost before = self.entries@;
                self.entries.set(i, (key, value));
                proof {
                    let after = self.entries@;
                    assert forall|k: Seq<char>| header_lookup(after, k) == (if k == key@ {
                        Some(value@)
                    } else {
                        header_lookup(before, k)
                    }) by {
                        lemma_lookup_position(before, k);
                        if k == key@ {
                            lemma_lookup_first_match(after, k, i as int);
                        } else {
                            match header_position(before, k) {
                                Some(p) => {
                                    assert(p != i);
                                    lemma_lookup_first_match(after, k, p);
                                },
                                None => {
                                    lemma_lookup_absent(after, k);
                                },
                            }
                        }
                    }
                    assert(self@ =~= old(self)@.insert(key@, value@));
                }
            },
            None => {
                let ghost before = self.entries@;
                let ghost kv = key@;
                let ghost vv = value@;
                self.entries.push((key, value));
                proof {
                    let after = self.entries@;
                    assert forall|k: Seq<char>| header_lookup(after, k) == (if k == kv {
                        Some(vv)
                    } else {
                        header_lookup(before, k)
                    }) by {
                        lemma_lookup_position(before, k);
                        if k == kv {
                            lemma_lookup_first_match(after, k, before.len() as int);
                        } else {
                            match header_position(before, k) {
                                Some(p) => {
                                    lemma_lookup_first_match(after, k, p);
                                },
                                None => {
                                    lemma_lookup_absent(after, k);
                                },
                            }
                        }
                    }
                    assert(self@ =~= old(self)@.insert(kv, vv));
                }
            },
        }
    }

    /// The value of `key`, if set.
    pub fn get(&self, key: &str) -> (r: Option<String>)
        ensures
            r is Some <==> self@.contains_key(key@),
            r is Some ==> r->Some_0@ == self@[key@],
    {
        let k = String::from_str(key);
        proof { lemma_lookup_position(self.entries@, k@); }
        match self.find(&k) {
            Some(i) => {
                let v = self.entries[i].1.clone();
                assert(self@[key@] == header_lookup(self.entries@, key@)->Some_0);
                Some(v)
            },
            None => None,
        }
    }

    /// A copy of the mapping.
    pub fn copy(&self) -> (r: Headers)
        ensures
            r@ == self@,
            r.entries@.len() == self.entries@.len(),
    {
        let mut entries: Vec<(String, String)> = Vec::new();
        let mut i: usize = 0;
        while i < self.entries.len()
            invariant
                0 <= i <= self.entries@.len(),
                entries@.len() == i,
                forall|j: int| 0 <= j < i ==> entries@[j].0@ == self.entries@[j].0@ && entries@[j].1@
                    == self.entries@[j].1@,
            decreases self.entries@.len() - i,
        {
            let e = &self.entries[i];
            entries.push((e.0.clone(), e.1.clone()));
            i = i + 1;
        }
        let r = Headers { entries };
        proof {
            assert forall|k: Seq<char>| header_lookup(r.entries@, k) == header_lookup(self.entries@, k) by {
                lemma_lookup_position(self.entries@, k);
                match header_position(self.entries@, k) {
                    Some(p) => { lemma_lookup_first_match(r.entries@, k, p); },
                    None => { lemma_lookup_absent(r.entries@, k); },
                }
            }
            assert(r@ =~= self@);
        }
        r
    }
}


/// One invocation's request: method, path, headers and raw body.
#[derive(Debug)]
pub struct JsRequest {
    pub method: String,
    pub path: String,
    pub headers: Headers,
    pub body: String,
}

impl JsRequest {
    pub fn new(method: String, path: String, headers: Headers, body: String) -> (r: JsRequest)
        ensures
            r.method@ == method@,
            r.path@ == path@,
            r.headers@ == headers@,
            r.body@ == body@,
    {
        JsRequest { method, path, headers, body }
    }

    pub fn get_method(&self) -> (r: String)
        ensures
            r@ == self.method@,
    {
        self.method.clone()
    }

    pub fn get_path(&self) -> (r: String)
        ensures
            r@ == self.path@,
    {
        self.path.clone()
    }

    pub fn get_headers(&self) -> (r: Headers)
        ensures
            r@ == self.headers@,
    {
        self.headers.copy()
    }

    pub fn get_body(&self) -> (r: String)
        ensures
            r@ == self.body@,
    {
        self.body.clone()
    }

    /// The value of one header, `None` where it is not set.
    pub fn get_header(&self, key: &str) -> (r: Option<String>)
        ensures
            r is Some <==> self.headers@.contains_key(key@),
            r is Some ==> r->Some_0@ == self.headers@[key@],
    {
        self.headers.get(key)
    }

    /// A copy of the request.
    pub fn copy(&self) -> (r: JsRequest)
        ensures
            r.method@ == self.method@,
            r.path@ == self.path@,
            r.headers@ == self.headers@,
            r.body@ == self.body@,
    {
        JsRequest {
            method: self.method.clone(),
            path: self.path.clone(),
            headers: self.headers.copy(),
            body: self.body.clone(),
        }
    }
}

/// The one reply of an invocation: status, headers and raw body.
#[derive(Debug)]
pub struct JsResponse {
    pub status: u16,
    pub headers: Headers,
    pub body: String,
}

/// The body of the reply given when a script ends without answering.
pub open spec fn no_reply_message() -> Seq<char> {
    "JS failed to send response (did you forget to call Deno.core.ops.op_send_response?)"@
}

impl JsResponse {
    /// A reply with no headers.
    pub fn new(status: u16, body: String) -> (r: JsResponse)
        ensures
            r.status == status,
            r.headers@ == Map::<Seq<char>, Seq<char>>::empty(),
            r.body@ == body@,
    {
        JsResponse { status, headers: Headers::new(), body }
    }

    /// A 500 reply carrying `msg`.
    pub fn internal_error(msg: &str) -> (r: JsResponse)
        ensures
            r.status == 500,
            r.headers@ == Map::<Seq<char>, Seq<char>>::empty(),
            r.body@ == msg@,
    {
        JsResponse::new(500, String::from_str(msg))
    }

    /// A 404 reply carrying `msg`.
    pub fn not_found(msg: &str) -> (r: JsResponse)
        ensures
            r.status == 404,
            r.headers@ == Map::<Seq<char>, Seq<char>>::empty(),
            r.body@ == msg@,
    {
        JsResponse::new(404, String::from_str(msg))
    }

    /// The reply given when a script ended without sending one.
    pub fn no_reply() -> (r: JsResponse)
        ensures
            r.status == 500,
            r.headers@ == Map::<Seq<char>, Seq<char>>::empty(),
            r.body@ == no_reply_message(),
    {
        JsResponse::internal_error(
            "JS failed to send response (did you forget to call Deno.core.ops.op_send_response?)",
        )
    }
}

/// One JSON-RPC call; a call without `id` is a notification.
#[derive(Debug)]
pub struct JsonRpcRequest {
    pub jsonrpc: String,
    pub method: String,
    pub params: Option<JsonValue>,
    pub id: Option<JsonValue>,
}

/// The error member of a JSON-RPC response.
#[derive(Debug)]
pub struct JsonRpcError {
    pub code: i32,
    pub message: String,
    pub data: Option<JsonValue>,
}

/// One JSON-RPC response: a result or an error, and the call's `id`.
#[derive(Debug)]
pub struct JsonRpcResponse {
    pub jsonrpc: String,
    pub result: Option<JsonValue>,
    pub error: Option<JsonRpcError>,
    pub id: Option<JsonValue>,
}

pub const PARSE_ERROR: i32 = -32700;
pub const INVALID_REQUEST: i32 = -32600;
pub const METHOD_NOT_FOUND: i32 = -32601;
pub const INTERNAL_ERROR: i32 = -32603;

/// An error with `code`, the message `message` and `detail` as its data.
pub open spec fn is_rpc_error(e: JsonRpcError, code: i32, message: Seq<char>, detail: Seq<char>) -> bool {
    &&& e.code == code
    &&& e.message@ == message
    &&& e.data matches Some(JsonValue::Str(d)) && d@ == detail
}

impl JsonRpcError {
    fn with_detail(code: i32, message: &str, detail: &str) -> (r: JsonRpcError)
        ensures
            is_rpc_error(r, code, message@, detail@),
    {
        JsonRpcError {
            code,
            message: String::from_str(message),
            data: Some(JsonValue::Str(String::from_str(detail))),
        }
    }

    pub fn parse_error(msg: &str) -> (r: JsonRpcError)
        ensures
            is_rpc_error(r, PARSE_ERROR, "Parse error"@, msg@),
    {
        JsonRpcError::with_detail(PARSE_ERROR, "Parse error", msg)
    }

    pub fn invalid_request(msg: &str) -> (r: JsonRpcError)
        ensures
            is_rpc_error(r, INVALID_REQUEST, "Invalid Request"@, msg@),
    {
        JsonRpcError::with_detail(INVALID_REQUEST, "Invalid Request", msg)
    }

    pub fn method_not_found(method: &str) -> (r: JsonRpcError)
        ensures
            is_rpc_error(r, METHOD_NOT_FOUND, "Method not found"@, method@),
    {
        JsonRpcError::with_detail(METHOD_NOT_FOUND, "Method not found", method)
    }

    pub fn internal_error(msg: &str) -> (r: JsonRpcError)
        ensures
            is_rpc_error(r, INTERNAL_ERROR, "Internal error"@, msg@),
    {
        JsonRpcError::with_detail(INTERNAL_ERROR, "Internal error", msg)
    }
}

impl JsonRpcResponse {
    pub fn success(result: JsonValue, id: Option<JsonValue>) -> (r: JsonRpcResponse)
        ensures
            r.jsonrpc@ == "2.0"@,
            r.result == Some(result),
            r.error is None,
            r.id == id,
    {
        JsonRpcResponse { jsonrpc: String::from_str("2.0"), result: Some(result), error: None, id }
    }

    pub fn error(error: JsonRpcError, id: Option<JsonValue>) -> (r: JsonRpcResponse)
        ensures
            r.jsonrpc@ == "2.0"@,
            r.result is None,
            r.error == Some(error),
            r.id == id,
    {
        JsonRpcResponse { jsonrpc: String::from_str("2.0"), result: None, error: Some(error), id }
    }
}

} // verus!
