//! Wire protocol codec: length-delimited byte frames over a byte stream.
//!
//! A frame is an eight-byte big-endian length prefix followed by that many
//! payload bytes, so message boundaries never depend on how the underlying
//! stream splits its reads.  The codec distinguishes a truncated stream
//! (`IoError`, the peer closed or the transport failed) from a payload that
//! does not decode (`DecodeError`); the serving loop treats the first as a
//! normal connection close and the second as fatal to the connection.

use vstd::prelude::*;

use crate::bytes::lemma_u64_be_round_trip;
use crate::bytes::read_u64_be;
use crate::bytes::u64_be_bytes;
use crate::bytes::u64_from_be;
use crate::bytes::write_u64_be;

verus! {

/// Error kinds of the codec.  The distinction is load-bearing: `IoError` on a
/// read means the peer is gone and the connection ends cleanly; `DecodeError`
/// means a full frame arrived whose payload is not a well-formed message.
#[derive(Debug, Clone, Copy, PartialEq, Eq, Structural)]
pub enum ProtocolError {
    IoError,
    DecodeError,
}

/// The frame that carries `payload`: length prefix, then the payload itself.
pub open spec fn frame_spec(payload: Seq<u8>) -> Seq<u8> {
    u64_be_bytes(payload.len() as u64) + payload
}

/// Splits one frame off the front of `b`: the payload and the remainder.
/// `None` when `b` holds no complete frame (a truncated stream).
pub open spec fn parse_frame_spec(b: Seq<u8>) -> Option<(Seq<u8>, Seq<u8>)> {
    if b.len() < 8 {
        None
    } else {
        let n = u64_from_be(b.subrange(0, 8)) as int;
        if b.len() - 8 < n {
            None
        } else {
            Some((b.subrange(8, 8 + n), b.subrange(8 + n, b.len() as int)))
        }
    }
}

/// Framing round-trip: a frame followed by anything parses back to exactly
/// its payload and that remainder.
pub proof fn lemma_frame_round_trip(payload: Seq<u8>, rest: Seq<u8>)
    requires
        payload.len() <= u64::MAX,
    ensures
        parse_frame_spec(frame_spec(payload) + rest) == Some((payload, rest)),
{
    let b = frame_spec(payload) + rest;
    lemma_u64_be_round_trip(payload.len() as u64);
    assert(b.subrange(0, 8) =~= u64_be_bytes(payload.len() as u64));
    let n = payload.len() as int;
    assert(b.subrange(8, 8 + n) =~= payload);
    assert(b.subrange(8 + n, b.len() as int) =~= rest);
}

/// A parsed frame leaves a strictly shorter remainder.
pub proof fn lemma_parse_frame_shrinks(b: Seq<u8>)
    requires
        parse_frame_spec(b) is Some,
    ensures
        parse_frame_spec(b)->Some_0.1.len() < b.len(),
{
}

/// One endpoint's view of a byte stream: the bytes the peer has sent (of
/// which a prefix is already consumed) and the bytes written back.  The
/// in-memory form of the stream a transport runs over.
pub struct ByteStream {
    pub incoming: Vec<u8>,
    pub read_pos: usize,
    pub outgoing: Vec<u8>,
}

impl ByteStream {
    /// The consumed prefix never runs past the received bytes.
    pub open spec fn wf(&self) -> bool {
        self.read_pos <= self.incoming@.len()
    }

    /// The received bytes not yet consumed.
    pub open spec fn remaining(&self) -> Seq<u8> {
        self.incoming@.skip(self.read_pos as int)
    }

    /// A stream on which the peer has sent `incoming` and then closed.
    pub fn new(incoming: Vec<u8>) -> (r: ByteStream)
        ensures
            r.wf(),
            r.remaining() == incoming@,
            r.outgoing@ == Seq::<u8>::empty(),
    {
        let r = ByteStream { incoming, read_pos: 0, outgoing: Vec::new() };
        proof {
            assert(r.remaining() =~= r.incoming@);
        }
        r
    }

    /// Writes one frame carrying `payload`.
    pub fn write_frame(&mut self, payload: &Vec<u8>)
        requires
            old(self).wf(),
        ensures
            final(self).wf(),
            final(self).outgoing@ == old(self).outgoing@ + frame_spec(payload@),
            final(self).incoming == old(self).incoming,
            final(self).read_pos == old(self).read_pos,
    {
        let n: u64 = payload.len() as u64;
        write_u64_be(&mut self.outgoing, n);
        let mut i: usize = 0;
        while i < payload.len()
            invariant
                i <= payload@.len(),
                self.outgoing@ == old(self).outgoing@ + u64_be_bytes(payload@.len() as u64)
                    + payload@.subrange(0, i as int),
                self.incoming == old(self).incoming,
                self.read_pos == old(self).read_pos,
            decreases payload@.len() - i,
        {
            self.outgoing.push(payload[i]);
            proof {
                assert(self.outgoing@ =~= old(self).outgoing@
                    + u64_be_bytes(payload@.len() as u64) + payload@.subrange(0, i + 1));
            }
            i = i + 1;
        }
        proof {
            assert(payload@.subrange(0, payload@.len() as int) =~= payload@);
            assert(self.outgoing@ =~= old(self).outgoing@ + frame_spec(payload@));
        }
    }

    /// Reads one frame.  `IoError` means no complete frame remains: the peer
    /// closed the stream, cleanly or mid-frame.
    pub fn read_frame(&mut self) -> (r: Result<Vec<u8>, ProtocolError>)
        requires
            old(self).wf(),
        ensures
            final(self).wf(),
            final(self).incoming == old(self).incoming,
            final(self).outgoing == old(self).outgoing,
            match r {
                Ok(p) => parse_frame_spec(old(self).remaining()) == Some(
                    (p@, final(self).remaining()),
                ),
                Err(e) => {
                    &&& e == ProtocolError::IoError
                    &&& parse_frame_spec(old(self).remaining()) is None
                    &&& *final(self) == *old(self)
                },
            },
    {
        let in_len = self.incoming.len();
        let rem_len = in_len - self.read_pos;
        if rem_len < 8 {
            return Err(ProtocolError::IoError);
        }
        let n = read_u64_be(&self.incoming, self.read_pos);
        proof {
            assert(self.incoming@.subrange(self.read_pos as int, self.read_pos as int + 8)
                =~= self.remaining().subrange(0, 8));
        }
        if ((rem_len - 8) as u64) < n {
            return Err(ProtocolError::IoError);
        }
        let n_us: usize = n as usize;
        let start = self.read_pos + 8;
        let mut p: Vec<u8> = Vec::new();
        let mut i: usize = 0;
        while i < n_us
            invariant
                i <= n_us,
                in_len == self.incoming@.len(),
                start + n_us <= in_len,
                p@ == self.incoming@.subrange(start as int, start as int + i as int),
                self.incoming == old(self).incoming,
                self.outgoing == old(self).outgoing,
                self.read_pos == old(self).read_pos,
                start == self.read_pos + 8,
            decreases n_us - i,
        {
            p.push(self.incoming[start + i]);
            proof {
                assert(p@ =~= self.incoming@.subrange(start as int, start as int + i + 1));
            }
            i = i + 1;
        }
        self.read_pos = start + n_us;
        proof {
            let old_rem = old(self).remaining();
            assert(p@ =~= old_rem.subrange(8, 8 + n as int));
            assert(self.remaining() =~= old_rem.subrange(8 + n as int, old_rem.len() as int));
        }
        Ok(p)
    }
}

} // verus!
