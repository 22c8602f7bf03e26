//! The sandbox-local state behind the capability bridge: a table that hands out
//! integer handles for requests, and the slot that takes the one reply.
use vstd::prelude::*;
use crate::models::{Headers, JsRequest, JsResponse};

verus! {

/// Why a capability call failed.
#[derive(Debug, PartialEq, Eq, Structural)]
pub enum BridgeError {
    /// The handle was never issued by this sandbox, or has been released.
    BadHandle,
    /// A reply has already been sent.
    AlreadySent,
}

/// The state of one sandbox: its handle table and its reply slot.
#[derive(Debug)]
pub struct SandboxState {
    requests: Vec<Option<JsRequest>>,
    reply: Option<JsResponse>,
    replied: bool,
}

impl SandboxState {
    /// How many handles have been issued.
    pub closed spec fn issued(&self) -> nat {
        self.requests@.len()
    }

    /// The request behind handle `h`, `None` where `h` is not live.
    pub closed spec fn request_at(&self, h: int) -> Option<JsRequest> {
        if 0 <= h < self.requests@.len() {
            self.requests@[h]
        } else {
            None
        }
    }

    /// Whether a reply has been sent.
    pub closed spec fn has_replied(&self) -> bool {
        self.replied
    }

    /// The reply that was sent and not yet collected.
    pub closed spec fn pending_reply(&self) -> Option<JsResponse> {
        self.reply
    }

    /// A fresh sandbox: no handles issued, no reply sent.
    pub fn new() -> (r: SandboxState)
        ensures
            r.issued() == 0,
            forall|h: int| (#[trigger] r.request_at(h)) is None,
            !r.has_replied(),
            r.pending_reply() is None,
    {
        SandboxState { requests: Vec::new(), reply: None, replied: false }
    }

    /// Registers a request and returns its handle.
    pub fn register_request(&mut self, req: JsRequest) -> (h: u32)
        requires
            old(self).issued() < u32::MAX,
        ensures
            h == old(self).issued(),
            final(self).issued() == old(self).issued() + 1,
            final(self).request_at(h as int) == Some(req),
            forall|k: int| k != h ==> #[trigger] final(self).request_at(k) == old(self).request_at(k),
            final(self).has_replied() == old(self).has_replied(),
            final(self).pending_reply() == old(self).pending_reply(),
    {
        let h = self.requests.len() as u32;
        self.requests.push(Some(req));
        h
    }

    fn lookup(&self, h: u32) -> (r: Result<&JsRequest, BridgeError>)
        ensures
            self.request_at(h as int) is Some ==> (r matches Ok(q) && *q == self.request_at(h as int)->Some_0),
            self.request_at(h as int) is None ==> r == Err::<&JsRequest, BridgeError>(BridgeError::BadHandle),
    {
        if (h as usize) < self.requests.len() {
            match &self.requests[h as usize] {
                Some(q) => Ok(q),
                None => Err(BridgeError::BadHandle),
            }
        } else {
            Err(BridgeError::BadHandle)
        }
    }

    /// The method of the request behind `h`.
    pub fn request_method(&self, h: u32) -> (r: Result<String, BridgeError>)
        ensures
            self.request_at(h as int) is None ==> r == Err::<String, BridgeError>(BridgeError::BadHandle),
            self.request_at(h as int) is Some ==> (r matches Ok(m) && m@ == self.request_at(h as int)->Some_0.method@),
    {
        match self.lookup(h) {
            Ok(q) => Ok(q.get_method()),
            Err(e) => Err(e),
        }
    }

    /// The path of the request behind `h`.
    pub fn request_path(&self, h: u32) -> (r: Result<String, BridgeError>)
        ensures
            self.request_at(h as int) is None ==> r == Err::<String, BridgeError>(BridgeError::BadHandle),
            self.request_at(h as int) is Some ==> (r matches Ok(p) && p@ == self.request_at(h as int)->Some_0.path@),
    {
        match self.lookup(h) {
            Ok(q) => Ok(q.get_path()),
            Err(e) => Err(e),
        }
    }

    /// The headers of the request behind `h`.
    pub fn request_headers(&self, h: u32) -> (r: Result<Headers, BridgeError>)
        ensures
            self.request_at(h as int) is None ==> r is Err && r->Err_0 == BridgeError::BadHandle,
            self.request_at(h as int) is Some ==> (r matches Ok(m) && m@ == self.request_at(h as int)->Some_0.headers@),
    {
        match self.lookup(h) {
            Ok(q) => Ok(q.get_headers()),
            Err(e) => Err(e),
        }
    }

    /// The body of the request behind `h`.
    pub fn request_body(&self, h: u32) -> (r: Result<String, BridgeError>)
        ensures
            self.request_at(h as int) is None ==> r == Err::<String, BridgeError>(BridgeError::BadHandle),
            self.request_at(h as int) is Some ==> (r matches Ok(b) && b@ == self.request_at(h as int)->Some_0.body@),
    {
        match self.lookup(h) {
            Ok(q) => Ok(q.get_body()),
            Err(e) => Err(e),
        }
    }

    /// One header of the request behind `h`; `Ok(None)` where it is not set.
    pub fn request_header(&self, h: u32, key: &str) -> (r: Result<Option<String>, BridgeError>)
        ensures
            self.request_at(h as int) is None ==> r == Err::<Option<String>, BridgeError>(BridgeError::BadHandle),
            self.request_at(h as int) is Some ==> (r matches Ok(v) && {
                let hs = self.request_at(h as int)->Some_0.headers@;
                &&& (v is Some <==> hs.contains_key(key@))
                &&& (v is Some ==> v->Some_0@ == hs[key@])
            }),
    {
        match self.lookup(h) {
            Ok(q) => Ok(q.get_header(key)),
            Err(e) => Err(e),
        }
    }

    /// Releases handle `h`; releasing a handle that is not live is an error and
    /// changes nothing.
    pub fn release_request(&mut self, h: u32) -> (r: Result<(), BridgeError>)
        ensures
            old(self).request_at(h as int) is None ==> r == Err::<(), BridgeError>(BridgeError::BadHandle)
                && final(self).request_at(h as int) is None,
            old(self).request_at(h as int) is Some ==> r is Ok,
            final(self).request_at(h as int) is None,
            forall|k: int| k != h ==> #[trigger] final(self).request_at(k) == old(self).request_at(k),
            final(self).issued() == old(self).issued(),
            final(self).has_replied() == old(self).has_replied(),
            final(self).pending_reply() == old(self).pending_reply(),
    {
        if (h as usize) < self.requests.len() {
            if self.requests[h as usize].is_some() {
                self.requests.set(h as usize, None);
                return Ok(());
            }
        }
        Err(BridgeError::BadHandle)
    }

    /// Sends the invocation's reply; only the first call is taken, and a later
    /// one fails without touching it.
    pub fn send_response(&mut self, res: JsResponse) -> (r: Result<(), BridgeError>)
        ensures
            reply_step(*old(self), res, *final(self), r),
    {
        if self.replied {
            return Err(BridgeError::AlreadySent);
        }
        self.reply = Some(res);
        self.replied = true;
        Ok(())
    }

    /// Hands the sent reply to the waiting executor, at most once.
    pub fn take_reply(&mut self) -> (r: Option<JsResponse>)
        ensures
            r == old(self).pending_reply(),
            final(self).pending_reply() is None,
            final(self).has_replied() == old(self).has_replied(),
            forall|k: int| #[trigger] final(self).request_at(k) == old(self).request_at(k),
            final(self).issued() == old(self).issued(),
    {
        self.reply.take()
    }
}

/// One call of the reply capability: the first is taken, any later one fails
/// with `AlreadySent` and leaves the state as it was.
pub open spec fn reply_step(before: SandboxState, res: JsResponse, after: SandboxState, r: Result<(), BridgeError>) -> bool {
    if before.has_replied() {
        r == Err::<(), BridgeError>(BridgeError::AlreadySent) && after == before
    } else {
        &&& r is Ok
        &&& after.has_replied()
        &&& after.pending_reply() == Some(res)
        &&& after.issued() == before.issued()
        &&& forall|k: int| #[trigger] after.request_at(k) == before.request_at(k)
    }
}

/// A script that replies once has that reply delivered; a second reply is
/// rejected and the first stays as it was.
pub proof fn lemma_second_reply_rejected(
    s0: SandboxState,
    first: JsResponse,
    s1: SandboxState,
    r1: Result<(), BridgeError>,
    second: JsResponse,
    s2: SandboxState,
    r2: Result<(), BridgeError>,
)
    requires
        !s0.has_replied(),
        reply_step(s0, first, s1, r1),
        reply_step(s1, second, s2, r2),
    ensures
        r1 is Ok,
        r2 == Err::<(), BridgeError>(BridgeError::AlreadySent),
        s2.pending_reply() == Some(first),
{
}

/// Two sandboxes do not see each other's requests: each handle that one issues
/// resolves, in that sandbox, to the request registered there, whatever the
/// other holds under the same number.
pub proof fn lemma_sandboxes_isolated(
    a0: SandboxState,
    ra: JsRequest,
    a1: SandboxState,
    ha: u32,
    b0: SandboxState,
    rb: JsRequest,
    b1: SandboxState,
    hb: u32,
)
    requires
        a0.issued() == 0 && forall|h: int| (#[trigger] a0.request_at(h)) is None,
        b0.issued() == 0 && forall|h: int| (#[trigger] b0.request_at(h)) is None,
        ha == a0.issued() && a1.request_at(ha as int) == Some(ra)
            && forall|k: int| k != ha ==> #[trigger] a1.request_at(k) == a0.request_at(k),
        hb == b0.issued() && b1.request_at(hb as int) == Some(rb)
            && forall|k: int| k != hb ==> #[trigger] b1.request_at(k) == b0.request_at(k),
    ensures
        ha == hb,
        a1.request_at(ha as int) == Some(ra),
        b1.request_at(hb as int) == Some(rb),
        forall|k: int| k != ha ==> (#[trigger] a1.request_at(k)) is None,
        forall|k: int| k != hb ==> (#[trigger] b1.request_at(k)) is None,
{
}

} // verus!
