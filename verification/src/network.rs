//! Network request boundary codes and handles.
//!
//! A network request is a host resource named by the same opaque identifier
//! as every other; creating, polling and dropping one happens host-side.
//! This module holds the guest half of the boundary: the wire numbering of
//! request methods, the reading of the host's status answers, and the
//! handle that owns a request's identifier.

use vstd::prelude::*;

use crate::ident::{owned_wire_ok, ResourceId, ID_LEN};

verus! {

/// A request method, numbered on the wire as the host expects.
#[derive(Debug, Clone, Copy, PartialEq, Eq, Structural)]
pub enum Method {
    Get,
    Head,
    Post,
    Put,
    Delete,
    Connect,
    Options,
    Trace,
    Patch,
}

/// The wire number of each method.
pub open spec fn method_code(m: Method) -> u32 {
    match m {
        Method::Get => 0,
        Method::Head => 1,
        Method::Post => 2,
        Method::Put => 3,
        Method::Delete => 4,
        Method::Connect => 5,
        Method::Options => 6,
        Method::Trace => 7,
        Method::Patch => 8,
    }
}

impl Method {
    /// The number the method crosses the boundary as.
    pub fn to_code(self) -> (r: u32)
        ensures
            r == method_code(self),
    {
        match self {
            Method::Get => 0,
            Method::Head => 1,
            Method::Post => 2,
            Method::Put => 3,
            Method::Delete => 4,
            Method::Connect => 5,
            Method::Options => 6,
            Method::Trace => 7,
            Method::Patch => 8,
        }
    }
}

/// The state of a request as the host reports it.
#[derive(Debug, Clone, Copy, PartialEq, Eq, Structural)]
pub enum RequestStatus {
    /// The request is still in flight.
    Pending,
    /// The request finished and its data can be read.
    Succeeded,
    /// The request failed.
    Failed,
}

/// Read the host's status answer for a request: `0` pending, `1` succeeded,
/// `2` failed — and `3` pending again, since one host revision reports both
/// pending codes; the two are read alike and deliberately not told apart.
/// A negative answer means the request does not exist; any other code is
/// unknown.  Both give `None`.
pub fn request_status_of(code: i32) -> (r: Option<RequestStatus>)
    ensures
        code == 0 || code == 3 ==> r == Some(RequestStatus::Pending),
        code == 1 ==> r == Some(RequestStatus::Succeeded),
        code == 2 ==> r == Some(RequestStatus::Failed),
        !(0 <= code <= 3) ==> r is None,
{
    if code == 0 || code == 3 {
        Some(RequestStatus::Pending)
    } else if code == 1 {
        Some(RequestStatus::Succeeded)
    } else if code == 2 {
        Some(RequestStatus::Failed)
    } else {
        None
    }
}

/// Read the host's answer for a request's data length: non-negative is the
/// length itself, negative means the request does not exist.
pub fn data_length_of(code: i32) -> (r: Option<usize>)
    ensures
        code >= 0 ==> r == Some(code as usize),
        code < 0 ==> r is None,
{
    if code >= 0 {
        Some(code as usize)
    } else {
        None
    }
}

/// A handle to a network request.
#[derive(Debug)]
pub struct NetworkRequest {
    id: ResourceId,
}

impl View for NetworkRequest {
    type V = Seq<u8>;

    closed spec fn view(&self) -> Seq<u8> {
        self.id@
    }
}

impl NetworkRequest {
    /// Decode the identifier a request-creating call handed back.  The host
    /// answers under the owned-pointer convention: a null-terminated run of
    /// bytes whose first 36 are the request identifier.  A malformed reply
    /// yields no handle rather than a truncated one.
    pub fn from_wire(buf: &[u8]) -> (r: Option<NetworkRequest>)
        ensures
            r is Some <==> owned_wire_ok(buf@),
            r matches Some(q) ==> q@ == buf@.subrange(0, ID_LEN as int),
    {
        match crate::ident::decode_owned(buf) {
            Ok(id) => Some(NetworkRequest { id }),
            Err(_) => None,
        }
    }

    /// The request identifier the handle names.
    pub fn id(&self) -> (r: &ResourceId)
        ensures
            r@ == self@,
    {
        &self.id
    }
}

} // verus!
