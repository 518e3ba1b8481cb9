//! Application payloads that sequenced and unsequenced frames carry.
use crate::types::{text_array, text_field};
use vstd::prelude::*;

verus! {

/// What an application payload offers the codec: its bytes on the wire, a decoder
/// that takes them back, and a copy that keeps them.
pub trait SoupBinTcpPayload: Sized {
    /// The bytes that stand for the payload in a frame.
    spec fn wire(&self) -> Seq<u8>;

    /// Whether `b` is the wire form of a payload of this type.
    spec fn accepts(b: Seq<u8>) -> bool;

    /// Every payload's own bytes are accepted back.
    proof fn lemma_wire_accepted(p: &Self)
        ensures
            Self::accepts(p.wire()),
    ;

    fn byte_len(&self) -> (r: usize)
        ensures
            r as nat == self.wire().len(),
    ;

    fn encode_into(&self, out: &mut Vec<u8>)
        ensures
            final(out)@ == old(out)@ + self.wire(),
    ;

    fn decode_from(b: &[u8]) -> (r: Option<Self>)
        ensures
            r is Some <==> Self::accepts(b@),
            r matches Some(p) ==> p.wire() == b@,
    ;

    fn copy_payload(&self) -> (r: Self)
        ensures
            r.wire() == self.wire(),
    ;
}

/// Appends `b` to `out`.
pub fn push_bytes(out: &mut Vec<u8>, b: &[u8])
    ensures
        final(out)@ == old(out)@ + b@,
{
    let mut i: usize = 0;
    while i < b.len()
        invariant
            i <= b@.len(),
            out@ == old(out)@ + b@.subrange(0, i as int),
        decreases b@.len() - i,
    {
        out.push(b[i]);
        i = i + 1;
        assert(out@ =~= old(out)@ + b@.subrange(0, i as int));
    }
    assert(b@.subrange(0, i as int) =~= b@);
}

/// A payload of no bytes.
#[derive(PartialEq, Eq, Clone, Copy, Debug, Default)]
pub struct Nil;

impl SoupBinTcpPayload for Nil {
    open spec fn wire(&self) -> Seq<u8> {
        Seq::empty()
    }

    open spec fn accepts(b: Seq<u8>) -> bool {
        b.len() == 0
    }

    proof fn lemma_wire_accepted(p: &Self) {
    }

    fn byte_len(&self) -> (r: usize) {
        0
    }

    fn encode_into(&self, out: &mut Vec<u8>) {
        assert(out@ =~= out@ + Seq::<u8>::empty());
    }

    fn decode_from(b: &[u8]) -> (r: Option<Self>) {
        if b.len() == 0 {
            Some(Nil)
        } else {
            None
        }
    }

    fn copy_payload(&self) -> (r: Self) {
        Nil
    }
}

/// A payload that is any run of bytes.
#[derive(PartialEq, Eq, Clone, Debug, Default)]
pub struct VecPayload {
    pub payload: Vec<u8>,
}

impl VecPayload {
    pub fn new(payload: Vec<u8>) -> (r: Self)
        ensures
            r.payload@ == payload@,
    {
        VecPayload { payload }
    }
}

impl SoupBinTcpPayload for VecPayload {
    open spec fn wire(&self) -> Seq<u8> {
        self.payload@
    }

    open spec fn accepts(b: Seq<u8>) -> bool {
        true
    }

    proof fn lemma_wire_accepted(p: &Self) {
    }

    fn byte_len(&self) -> (r: usize) {
        self.payload.len()
    }

    fn encode_into(&self, out: &mut Vec<u8>) {
        push_bytes(out, self.payload.as_slice());
    }

    fn decode_from(b: &[u8]) -> (r: Option<Self>) {
        Some(VecPayload { payload: vstd::slice::slice_to_vec(b) })
    }

    fn copy_payload(&self) -> (r: Self) {
        VecPayload { payload: self.payload.clone() }
    }
}

/// A sample payload of two ten-byte text fields.
#[derive(PartialEq, Eq, Clone, Copy, Debug)]
pub struct SamplePayload {
    pub context1: [u8; 10],
    pub context2: [u8; 10],
}

impl SamplePayload {
    pub fn new(context1: &[u8], context2: &[u8]) -> (r: Self)
        ensures
            r.context1@ == text_field(context1@, 10),
            r.context2@ == text_field(context2@, 10),
    {
        SamplePayload { context1: text_array(context1), context2: text_array(context2) }
    }
}

impl Default for SamplePayload {
    fn default() -> (r: Self)
        ensures
            r.wire().len() == 20,
    {
        SamplePayload::new("10 char load".as_bytes(), "hello world".as_bytes())
    }
}

impl SoupBinTcpPayload for SamplePayload {
    open spec fn wire(&self) -> Seq<u8> {
        self.context1@ + self.context2@
    }

    open spec fn accepts(b: Seq<u8>) -> bool {
        b.len() == 20
    }

    proof fn lemma_wire_accepted(p: &Self) {
    }

    fn byte_len(&self) -> (r: usize) {
        20
    }

    fn encode_into(&self, out: &mut Vec<u8>) {
        push_bytes(out, vstd::array::array_as_slice(&self.context1));
        push_bytes(out, vstd::array::array_as_slice(&self.context2));
        assert(out@ =~= old(out)@ + self.wire());
    }

    fn decode_from(b: &[u8]) -> (r: Option<Self>) {
        if b.len() != 20 {
            return None;
        }
        let c1: [u8; 10] = text_array(vstd::slice::slice_subrange(b, 0, 10));
        let c2: [u8; 10] = text_array(vstd::slice::slice_subrange(b, 10, 20));
        let r = SamplePayload { context1: c1, context2: c2 };
        assert(r.wire() =~= b@);
        Some(r)
    }

    fn copy_payload(&self) -> (r: Self) {
        *self
    }
}

} // verus!
