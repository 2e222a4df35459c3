//! Subprocess handles.
//!
//! A spawned subprocess is named by the same fixed-width opaque identifier
//! as every other host resource.  Liveness and captured output are always
//! queried fresh from the host — the scheduler mutates process state outside
//! guest control, so nothing is cached here.  This module holds the guest
//! side: the handle type, the decoding of a spawn's identifier reply, and
//! the reading of the host's liveness answer.

use vstd::prelude::*;

use crate::ident::{owned_wire_ok, ResourceId, ID_LEN};

verus! {

/// A handle to a spawned subprocess.
#[derive(Debug)]
pub struct Process {
    id: ResourceId,
}

impl View for Process {
    type V = Seq<u8>;

    closed spec fn view(&self) -> Seq<u8> {
        self.id@
    }
}

impl Process {
    /// Wrap an already-decoded identifier into a process handle.
    pub fn from_id(id: ResourceId) -> (r: Process)
        ensures
            r@ == id@,
    {
        Process { id }
    }

    /// Decode the identifier a spawn handed back.  The host answers under
    /// the owned-pointer convention: a null-terminated run of bytes whose
    /// first 36 are the process identifier.  A malformed reply yields no
    /// handle rather than a truncated one.
    pub fn from_wire(buf: &[u8]) -> (r: Option<Process>)
        ensures
            r is Some <==> owned_wire_ok(buf@),
            r matches Some(p) ==> p@ == buf@.subrange(0, ID_LEN as int),
    {
        match crate::ident::decode_owned(buf) {
            Ok(id) => Some(Process { id }),
            Err(_) => None,
        }
    }

    /// The process identifier the handle names.
    pub fn pid(&self) -> (r: ResourceId)
        ensures
            r@ == self@,
    {
        self.id.duplicate()
    }
}

/// Read the host's liveness answer: the process is alive exactly when the
/// status is positive.
pub fn alive_status(status: i32) -> (r: bool)
    ensures
        r == (status > 0),
{
    status > 0
}

} // verus!
