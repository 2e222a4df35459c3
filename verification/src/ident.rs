//! The identifier codec.
//!
//! Every host-resident resource (file, directory, process, network request)
//! is named by a fixed-width opaque textual token: 36 meaningful bytes,
//! null-terminated in wire form.  The host produces identifiers in one of two
//! wire conventions: it either fills a caller-supplied buffer of exactly 37
//! bytes, or it returns an owned null-terminated run of bytes of which the
//! first 36 are the identifier.  Both conventions decode to the same
//! [`ResourceId`]; callers select a [`WireConvention`] once rather than
//! branching per call site.

use vstd::prelude::*;

verus! {

/// Number of meaningful bytes in a resource identifier.
pub const ID_LEN: usize = 36;

/// Width of the fixed wire form: the identifier bytes plus one terminator.
pub const ID_WIRE_LEN: usize = 37;

/// Why a wire buffer failed to decode.
#[derive(Debug, Clone, Copy, PartialEq, Eq, Structural)]
pub enum CodecError {
    /// The buffer is not validly null-terminated text of the documented width.
    InvalidEncoding,
}

/// A byte that may appear in the meaningful part of an identifier:
/// plain ASCII text, never the terminator.
pub open spec fn id_byte_ok(b: u8) -> bool {
    1 <= b < 128
}

/// An opaque token naming a host-resident resource.  The guest never forges
/// one: a `ResourceId` only arises by decoding what the host wrote.
#[derive(Debug)]
pub struct ResourceId {
    bytes: Vec<u8>,
}

impl View for ResourceId {
    type V = Seq<u8>;

    closed spec fn view(&self) -> Seq<u8> {
        self.bytes@
    }
}

impl ResourceId {
    /// The shape every decoded identifier has: exactly [`ID_LEN`] bytes of
    /// plain text.
    pub open spec fn wf(self) -> bool {
        &&& self@.len() == ID_LEN
        &&& forall|i: int| 0 <= i < self@.len() ==> id_byte_ok(#[trigger] self@[i])
    }

    /// An identical, independently owned copy of the token.
    pub fn duplicate(&self) -> (r: ResourceId)
        ensures
            r@ == self@,
    {
        let mut bytes: Vec<u8> = Vec::new();
        let mut i: usize = 0;
        while i < self.bytes.len()
            invariant
                i <= self.bytes.len(),
                bytes@ == self.bytes@.subrange(0, i as int),
            decreases self.bytes.len() - i,
        {
            bytes.push(self.bytes[i]);
            i = i + 1;
        }
        proof {
            assert(bytes@ =~= self.bytes@);
        }
        ResourceId { bytes }
    }

    /// The meaningful bytes of the token, without the terminator.
    pub fn bytes(&self) -> (r: &Vec<u8>)
        ensures
            r@ == self@,
    {
        &self.bytes
    }

    /// Check the shape at run time: exactly [`ID_LEN`] bytes of plain text.
    /// Callers outside the verifier use this to guard [`encode`].
    pub fn is_wf(&self) -> (r: bool)
        ensures
            r == self.wf(),
    {
        if self.bytes.len() != ID_LEN {
            return false;
        }
        let mut i: usize = 0;
        while i < self.bytes.len()
            invariant
                i <= self.bytes@.len(),
                forall|j: int| 0 <= j < i ==> id_byte_ok(#[trigger] self.bytes@[j]),
            decreases self.bytes.len() - i,
        {
            let b = self.bytes[i];
            if b == 0 || b >= 128 {
                return false;
            }
            i = i + 1;
        }
        true
    }

    /// Wrap bytes the host-side store itself minted into a token.  Only the
    /// store models use this; application code obtains identifiers solely by
    /// decoding.
    pub(crate) fn from_raw_bytes(bytes: Vec<u8>) -> (r: ResourceId)
        ensures
            r@ == bytes@,
    {
        ResourceId { bytes }
    }
}

impl Clone for ResourceId {
    /// Cloning duplicates the identifier bytes.
    fn clone(&self) -> (r: ResourceId)
        ensures
            r@ == self@,
    {
        self.duplicate()
    }
}

impl PartialEq for ResourceId {
    fn eq(&self, other: &ResourceId) -> (r: bool) {
        if self.bytes.len() != other.bytes.len() {
            proof {
                assert(self.bytes@ != other.bytes@);
            }
            return false;
        }
        let mut i: usize = 0;
        while i < self.bytes.len()
            invariant
                i <= self.bytes.len(),
                self.bytes.len() == other.bytes.len(),
                forall|j: int| 0 <= j < i ==> self.bytes@[j] == other.bytes@[j],
            decreases self.bytes.len() - i,
        {
            if self.bytes[i] != other.bytes[i] {
                return false;
            }
            i = i + 1;
        }
        proof {
            assert(self.bytes@ =~= other.bytes@);
        }
        true
    }
}

impl Eq for ResourceId {}

impl vstd::std_specs::cmp::PartialEqSpecImpl for ResourceId {
    open spec fn obeys_eq_spec() -> bool {
        true
    }

    open spec fn eq_spec(&self, other: &ResourceId) -> bool {
        self@ == other@
    }
}

/// The two identifier wire conventions observed across host revisions.
#[derive(Debug, Clone, Copy, PartialEq, Eq, Structural)]
pub enum WireConvention {
    /// The host filled a caller-supplied buffer of exactly [`ID_WIRE_LEN`]
    /// bytes: 36 bytes of text, then the terminator.
    FixedBuffer,
    /// The host returned an owned run of bytes: at least 36 bytes of text,
    /// then a terminator somewhere at or after position 36 (only the first
    /// 36 bytes are meaningful).
    OwnedPointer,
}

/// A valid buffer under the fixed-width convention.
pub open spec fn fixed_wire_ok(buf: Seq<u8>) -> bool {
    &&& buf.len() == ID_WIRE_LEN
    &&& buf[ID_LEN as int] == 0
    &&& forall|i: int| 0 <= i < ID_LEN ==> id_byte_ok(#[trigger] buf[i])
}

/// A valid buffer under the owned-pointer convention.
pub open spec fn owned_wire_ok(buf: Seq<u8>) -> bool {
    &&& buf.len() > ID_LEN
    &&& forall|i: int| 0 <= i < ID_LEN ==> id_byte_ok(#[trigger] buf[i])
    &&& exists|j: int| ID_LEN <= j < buf.len() && buf[j] == 0
}

/// A valid buffer under the given convention.
pub open spec fn wire_ok(conv: WireConvention, buf: Seq<u8>) -> bool {
    match conv {
        WireConvention::FixedBuffer => fixed_wire_ok(buf),
        WireConvention::OwnedPointer => owned_wire_ok(buf),
    }
}

/// Decode a buffer the host filled under the fixed-width convention.
///
/// Succeeds exactly on validly terminated text of the documented width; a
/// buffer missing its terminator is rejected, never truncated and accepted.
pub fn decode_fixed(buf: &[u8]) -> (r: Result<ResourceId, CodecError>)
    ensures
        r is Ok <==> fixed_wire_ok(buf@),
        r matches Ok(id) ==> id@ == buf@.subrange(0, ID_LEN as int) && id.wf(),
        r is Err ==> r == Err::<ResourceId, CodecError>(CodecError::InvalidEncoding),
{
    if buf.len() != ID_WIRE_LEN {
        return Err(CodecError::InvalidEncoding);
    }
    if buf[ID_LEN] != 0 {
        return Err(CodecError::InvalidEncoding);
    }
    let mut bytes: Vec<u8> = Vec::new();
    let mut i: usize = 0;
    while i < ID_LEN
        invariant
            i <= ID_LEN,
            buf@.len() == ID_WIRE_LEN,
            bytes@ == buf@.subrange(0, i as int),
            forall|j: int| 0 <= j < i ==> id_byte_ok(#[trigger] buf@[j]),
        decreases ID_LEN - i,
    {
        let b = buf[i];
        if b == 0 || b >= 128 {
            return Err(CodecError::InvalidEncoding);
        }
        bytes.push(b);
        i = i + 1;
    }
    let id = ResourceId { bytes };
    proof {
        assert(id@ =~= buf@.subrange(0, ID_LEN as int));
    }
    Ok(id)
}

/// Decode an owned, null-terminated run of bytes the host handed back.
///
/// Only the first 36 bytes are meaningful; anything between them and the
/// terminator is discarded.  A run with no terminator, or one too short to
/// hold a full identifier, is rejected.
pub fn decode_owned(buf: &[u8]) -> (r: Result<ResourceId, CodecError>)
    ensures
        r is Ok <==> owned_wire_ok(buf@),
        r matches Ok(id) ==> id@ == buf@.subrange(0, ID_LEN as int) && id.wf(),
        r is Err ==> r == Err::<ResourceId, CodecError>(CodecError::InvalidEncoding),
{
    if buf.len() <= ID_LEN {
        return Err(CodecError::InvalidEncoding);
    }
    let mut bytes: Vec<u8> = Vec::new();
    let mut i: usize = 0;
    while i < ID_LEN
        invariant
            i <= ID_LEN,
            buf@.len() > ID_LEN,
            bytes@ == buf@.subrange(0, i as int),
            forall|j: int| 0 <= j < i ==> id_byte_ok(#[trigger] buf@[j]),
        decreases ID_LEN - i,
    {
        let b = buf[i];
        if b == 0 || b >= 128 {
            return Err(CodecError::InvalidEncoding);
        }
        bytes.push(b);
        i = i + 1;
    }
    let mut j: usize = ID_LEN;
    while j < buf.len()
        invariant
            ID_LEN <= j <= buf@.len(),
            buf@.len() > ID_LEN,
            bytes@ == buf@.subrange(0, ID_LEN as int),
            forall|k: int| 0 <= k < ID_LEN ==> id_byte_ok(#[trigger] buf@[k]),
            forall|k: int| ID_LEN <= k < j ==> buf@[k] != 0,
        decreases buf@.len() - j,
    {
        if buf[j] == 0 {
            let id = ResourceId { bytes };
            return Ok(id);
        }
        j = j + 1;
    }
    Err(CodecError::InvalidEncoding)
}

/// Decode a buffer under the stated wire convention.
pub fn decode(conv: WireConvention, buf: &[u8]) -> (r: Result<ResourceId, CodecError>)
    ensures
        r is Ok <==> wire_ok(conv, buf@),
        r matches Ok(id) ==> id@ == buf@.subrange(0, ID_LEN as int) && id.wf(),
        r is Err ==> r == Err::<ResourceId, CodecError>(CodecError::InvalidEncoding),
{
    match conv {
        WireConvention::FixedBuffer => decode_fixed(buf),
        WireConvention::OwnedPointer => decode_owned(buf),
    }
}

/// Encode an identifier back into its fixed wire form: the 36 bytes followed
/// by the terminator.
pub fn encode(id: &ResourceId) -> (r: Vec<u8>)
    requires
        id.wf(),
    ensures
        r@ == id@.push(0u8),
        fixed_wire_ok(r@),
{
    let src = id.bytes();
    let mut out: Vec<u8> = Vec::new();
    let mut i: usize = 0;
    while i < src.len()
        invariant
            i <= src.len(),
            src@ == id@,
            id.wf(),
            out@ == id@.subrange(0, i as int),
        decreases src.len() - i,
    {
        out.push(src[i]);
        i = i + 1;
    }
    out.push(0);
    proof {
        assert(out@ =~= id@.push(0u8));
    }
    out
}

/// A buffer with no terminator never decodes, under either convention: a
/// decoded identifier only arises from validly terminated text, and it is
/// never a truncation — with the decoders' contracts this means such a
/// buffer always yields the invalid-encoding error, never an identifier.
pub proof fn lemma_unterminated_never_decodes(conv: WireConvention, buf: Seq<u8>)
    requires
        forall|j: int| 0 <= j < buf.len() ==> buf[j] != 0,
    ensures
        !wire_ok(conv, buf),
{
    match conv {
        WireConvention::FixedBuffer => {
            if buf.len() == ID_WIRE_LEN {
                assert(buf[ID_LEN as int] != 0);
            }
        },
        WireConvention::OwnedPointer => {
            if owned_wire_ok(buf) {
                let j = choose|j: int| ID_LEN <= j < buf.len() && buf[j] == 0;
                assert(buf[j] != 0);
            }
        },
    }
}

/// The codec round trip: encoding a well-formed identifier yields a valid
/// buffer under the fixed-width convention, and decoding that buffer gives
/// back exactly the identifier's bytes.
pub proof fn lemma_encode_decode_round_trip(id: Seq<u8>)
    requires
        id.len() == ID_LEN,
        forall|i: int| 0 <= i < id.len() ==> id_byte_ok(#[trigger] id[i]),
    ensures
        fixed_wire_ok(id.push(0u8)),
        id.push(0u8).subrange(0, ID_LEN as int) == id,
{
    let w = id.push(0u8);
    assert(w[ID_LEN as int] == 0);
    assert forall|i: int| 0 <= i < ID_LEN implies id_byte_ok(w[i]) by {
        assert(w[i] == id[i]);
    }
    assert(w.subrange(0, ID_LEN as int) =~= id);
}

} // verus!
