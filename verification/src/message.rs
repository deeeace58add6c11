//! Typed messages: values with a canonical byte encoding.
//!
//! The transport and dispatch layers are generic over the request and
//! response types; they never inspect a message's contents, only its
//! encoding.  Every implementation carries the round-trip law as a proof
//! obligation, so decoding an encoding always yields the encoded value.

use vstd::prelude::*;

use crate::bytes::to_vec;

verus! {

/// A value that can cross the wire.  `enc` and `dec` are the canonical
/// encoding and decoding of the type's abstract values; `encode` and
/// `decode` are their executable counterparts.
pub trait Message: View + Sized {
    /// Canonical encoding of an abstract value of this type.
    spec fn enc(v: Self::V) -> Seq<u8>;

    /// Canonical decoding; `None` on bytes that encode no value.
    spec fn dec(b: Seq<u8>) -> Option<Self::V>;

    /// Round-trip law: decoding an encoding yields the encoded value.
    proof fn lemma_round_trip(v: Self::V)
        ensures
            Self::dec(Self::enc(v)) == Some(v),
    ;

    fn encode(&self) -> (r: Vec<u8>)
        ensures
            r@ == Self::enc(self@),
    ;

    fn decode(b: &[u8]) -> (r: Option<Self>)
        ensures
            match r {
                Some(m) => Self::dec(b@) == Some(m@),
                None => Self::dec(b@) is None,
            },
    ;
}

/// For every message type and every value of it, decoding the encoding
/// returns exactly that value.
pub proof fn lemma_message_round_trip<M: Message>(v: M::V)
    ensures
        M::dec(M::enc(v)) == Some(v),
{
    M::lemma_round_trip(v);
}

/// A request or response carrying one operation name: the structured value
/// written `{"op": ...}`.  Its encoding is the operation's bytes themselves.
#[derive(Debug)]
pub struct OpMessage {
    pub op: Vec<u8>,
}

impl View for OpMessage {
    type V = Seq<u8>;

    open spec fn view(&self) -> Seq<u8> {
        self.op@
    }
}

impl Message for OpMessage {
    open spec fn enc(v: Seq<u8>) -> Seq<u8> {
        v
    }

    open spec fn dec(b: Seq<u8>) -> Option<Seq<u8>> {
        Some(b)
    }

    proof fn lemma_round_trip(v: Seq<u8>) {
    }

    fn encode(&self) -> (r: Vec<u8>) {
        to_vec(self.op.as_slice())
    }

    fn decode(b: &[u8]) -> (r: Option<Self>) {
        Some(OpMessage { op: to_vec(b) })
    }
}

} // verus!
