//! Transport abstraction over a framed byte stream.
//!
//! A `FramedTransport` owns one connection's byte stream and offers the two
//! symmetric capabilities: the client side sends one request and blocks for
//! one response; the server side serves requests in a loop until the peer
//! closes the connection (normal termination) or a payload fails to decode
//! (fatal to the connection).  At most one request is ever outstanding on a
//! single transport instance: there is no pipelining at this layer.

use vstd::prelude::*;

use crate::codec::ByteStream;
use crate::codec::ProtocolError;
use crate::codec::frame_spec;
use crate::codec::parse_frame_spec;
use crate::message::Message;
use crate::service::Service;

verus! {

/// Writes one message as a frame.
pub fn write_message<M: Message>(s: &mut ByteStream, m: &M)
    requires
        old(s).wf(),
    ensures
        final(s).wf(),
        final(s).outgoing@ == old(s).outgoing@ + frame_spec(M::enc(m@)),
        final(s).incoming == old(s).incoming,
        final(s).read_pos == old(s).read_pos,
{
    let payload = m.encode();
    s.write_frame(&payload);
}

/// Reads one message.  `IoError` means the peer closed the stream before a
/// complete frame arrived; `DecodeError` means a complete frame arrived
/// whose payload encodes no message value.
pub fn read_message<M: Message>(s: &mut ByteStream) -> (r: Result<M, ProtocolError>)
    requires
        old(s).wf(),
    ensures
        final(s).wf(),
        final(s).incoming == old(s).incoming,
        final(s).outgoing == old(s).outgoing,
        match r {
            Ok(m) => {
                &&& parse_frame_spec(old(s).remaining()) matches Some(pr)
                &&& M::dec(pr.0) == Some(m@)
                &&& final(s).remaining() == pr.1
            },
            Err(ProtocolError::IoError) => {
                &&& parse_frame_spec(old(s).remaining()) is None
                &&& *final(s) == *old(s)
            },
            Err(ProtocolError::DecodeError) => {
                &&& parse_frame_spec(old(s).remaining()) matches Some(pr)
                &&& M::dec(pr.0) is None
                &&& final(s).remaining() == pr.1
            },
        },
{
    match s.read_frame() {
        Ok(p) => match M::decode(p.as_slice()) {
            Some(m) => Ok(m),
            None => Err(ProtocolError::DecodeError),
        },
        Err(e) => Err(e),
    }
}

/// The bytes a service writes back while serving the byte sequence `b`: one
/// response frame per well-formed request frame, stopping at the first
/// truncated frame (connection close) or undecodable payload (fatal error).
pub open spec fn serve_output<Req: Message, Resp: Message, S: Service<Req, Resp>>(
    s: S,
    b: Seq<u8>,
) -> Seq<u8>
    decreases b.len(),
{
    match parse_frame_spec(b) {
        Option::None => Seq::empty(),
        Option::Some((payload, rest)) => match Req::dec(payload) {
            Option::None => Seq::empty(),
            Option::Some(v) => frame_spec(Resp::enc(s.model(v))) + serve_output::<Req, Resp, S>(
                s,
                rest,
            ),
        },
    }
}

/// Whether serving the byte sequence `b` terminates normally: every complete
/// frame's payload decodes, and the stream ends in (possibly mid-frame)
/// connection close rather than an undecodable payload.
pub open spec fn serve_ok<Req: Message>(b: Seq<u8>) -> bool
    decreases b.len(),
{
    match parse_frame_spec(b) {
        Option::None => true,
        Option::Some((payload, rest)) => Req::dec(payload) is Some && serve_ok::<Req>(rest),
    }
}

/// At-most-one-outstanding: a well-formed transport instance never has two
/// requests in flight.  `send_request` demands an idle instance and leaves
/// exactly one request outstanding, and `recv_response` demands that one:
/// sending a second request before the first response arrives violates a
/// caller contract, it is never a transport-level race.
pub proof fn lemma_at_most_one_outstanding(t: FramedTransport)
    requires
        t.wf(),
    ensures
        t.outstanding() <= 1,
{
}

/// One connection's transport: a framed byte stream plus the count of
/// requests in flight, which a correct caller keeps at most one.
pub struct FramedTransport {
    pub stream: ByteStream,
    pub in_flight: u8,
}

impl FramedTransport {
    pub open spec fn wf(&self) -> bool {
        &&& self.stream.wf()
        &&& self.in_flight <= 1
    }

    /// How many requests this instance has sent without a matching response.
    pub open spec fn outstanding(&self) -> int {
        self.in_flight as int
    }

    /// Wraps a byte stream in a transport with no request in flight.
    pub fn new(stream: ByteStream) -> (r: FramedTransport)
        requires
            stream.wf(),
        ensures
            r.wf(),
            r.outstanding() == 0,
            r.stream == stream,
    {
        FramedTransport { stream, in_flight: 0 }
    }

    /// Client half-step: writes one request frame.  Requires that no request
    /// is outstanding: issuing a second request before the first response
    /// arrives is a caller contract violation, not a transport-level race.
    pub fn send_request<Req: Message>(&mut self, req: &Req)
        requires
            old(self).wf(),
            old(self).outstanding() == 0,
        ensures
            final(self).wf(),
            final(self).outstanding() == 1,
            final(self).stream.outgoing@ == old(self).stream.outgoing@ + frame_spec(
                Req::enc(req@),
            ),
            final(self).stream.incoming == old(self).stream.incoming,
            final(self).stream.read_pos == old(self).stream.read_pos,
    {
        write_message::<Req>(&mut self.stream, req);
        self.in_flight = 1;
    }

    /// Client half-step: blocks for the one outstanding response.
    pub fn recv_response<Resp: Message>(&mut self) -> (r: Result<Resp, ProtocolError>)
        requires
            old(self).wf(),
            old(self).outstanding() == 1,
        ensures
            final(self).wf(),
            final(self).outstanding() == 0,
            final(self).stream.incoming == old(self).stream.incoming,
            final(self).stream.outgoing == old(self).stream.outgoing,
            match r {
                Ok(m) => {
                    &&& parse_frame_spec(old(self).stream.remaining()) matches Some(pr)
                    &&& Resp::dec(pr.0) == Some(m@)
                    &&& final(self).stream.remaining() == pr.1
                },
                Err(ProtocolError::IoError) => parse_frame_spec(old(self).stream.remaining())
                    is None,
                Err(ProtocolError::DecodeError) => {
                    &&& parse_frame_spec(old(self).stream.remaining()) matches Some(pr)
                    &&& Resp::dec(pr.0) is None
                },
            },
    {
        self.in_flight = 0;
        read_message::<Resp>(&mut self.stream)
    }

    /// Sends one request and blocks until its response is read back: the
    /// whole client-side request/response cycle, which leaves no request
    /// outstanding whichever way it ends.
    pub fn send<Req: Message, Resp: Message>(&mut self, req: &Req) -> (r: Result<
        Resp,
        ProtocolError,
    >)
        requires
            old(self).wf(),
            old(self).outstanding() == 0,
        ensures
            final(self).wf(),
            final(self).outstanding() == 0,
            final(self).stream.outgoing@ == old(self).stream.outgoing@ + frame_spec(
                Req::enc(req@),
            ),
            match r {
                Ok(m) => {
                    &&& parse_frame_spec(old(self).stream.remaining()) matches Some(pr)
                    &&& Resp::dec(pr.0) == Some(m@)
                    &&& final(self).stream.remaining() == pr.1
                },
                Err(ProtocolError::IoError) => parse_frame_spec(old(self).stream.remaining())
                    is None,
                Err(ProtocolError::DecodeError) => {
                    &&& parse_frame_spec(old(self).stream.remaining()) matches Some(pr)
                    &&& Resp::dec(pr.0) is None
                },
            },
    {
        self.send_request::<Req>(req);
        self.recv_response::<Resp>()
    }

    /// Serves the connection: reads one request, hands it to the service,
    /// writes the response back, and repeats until the peer closes the
    /// stream (returns success) or a payload fails to decode (returns the
    /// fatal error).  The loop owns the connection for its whole lifetime.
    pub fn serve<Req: Message, Resp: Message, S: Service<Req, Resp>>(&mut self, service: &S) -> (r:
        Result<(), ProtocolError>)
        requires
            old(self).wf(),
        ensures
            final(self).wf(),
            final(self).stream.outgoing@ == old(self).stream.outgoing@ + serve_output::<
                Req,
                Resp,
                S,
            >(*service, old(self).stream.remaining()),
            (r is Ok) == serve_ok::<Req>(old(self).stream.remaining()),
            r matches Err(e) ==> e == ProtocolError::DecodeError,
            final(self).outstanding() == old(self).outstanding(),
    {
        let ghost orig_rem = self.stream.remaining();
        let ghost orig_out = self.stream.outgoing@;
        let ghost orig_in_flight = self.in_flight;
        loop
            invariant
                orig_rem == old(self).stream.remaining(),
                orig_out == old(self).stream.outgoing@,
                orig_in_flight == old(self).in_flight,
                self.stream.wf(),
                self.in_flight == orig_in_flight,
                self.in_flight <= 1,
                orig_out.len() <= self.stream.outgoing@.len(),
                self.stream.outgoing@.subrange(0, orig_out.len() as int) == orig_out,
                serve_output::<Req, Resp, S>(*service, orig_rem) == self.stream.outgoing@.skip(
                    orig_out.len() as int,
                ) + serve_output::<Req, Resp, S>(*service, self.stream.remaining()),
                serve_ok::<Req>(orig_rem) == serve_ok::<Req>(self.stream.remaining()),
            decreases self.stream.remaining().len(),
        {
            let ghost prev_rem = self.stream.remaining();
            let ghost prev_out = self.stream.outgoing@;
            let res = read_message::<Req>(&mut self.stream);
            match res {
                Err(ProtocolError::IoError) => {
                    proof {
                        assert(serve_output::<Req, Resp, S>(*service, prev_rem)
                            =~= Seq::<u8>::empty());
                        assert(self.stream.outgoing@ =~= orig_out + self.stream.outgoing@.skip(
                            orig_out.len() as int,
                        ));
                        assert(self.stream.outgoing@.skip(orig_out.len() as int)
                            + serve_output::<Req, Resp, S>(*service, prev_rem)
                            =~= self.stream.outgoing@.skip(orig_out.len() as int));
                    }
                    return Ok(());
                },
                Err(ProtocolError::DecodeError) => {
                    proof {
                        assert(serve_output::<Req, Resp, S>(*service, prev_rem)
                            =~= Seq::<u8>::empty());
                        assert(self.stream.outgoing@ =~= orig_out + self.stream.outgoing@.skip(
                            orig_out.len() as int,
                        ));
                        assert(self.stream.outgoing@.skip(orig_out.len() as int)
                            + serve_output::<Req, Resp, S>(*service, prev_rem)
                            =~= self.stream.outgoing@.skip(orig_out.len() as int));
                    }
                    return Err(ProtocolError::DecodeError);
                },
                Ok(req) => {
                    let ghost req_v = req@;
                    let resp = service.handle_request(req);
                    write_message::<Resp>(&mut self.stream, &resp);
                    proof {
                        let pr = parse_frame_spec(prev_rem)->Some_0;
                        let f = frame_spec(Resp::enc(service.model(req_v)));
                        crate::codec::lemma_parse_frame_shrinks(prev_rem);
                        assert(serve_output::<Req, Resp, S>(*service, prev_rem) == f
                            + serve_output::<Req, Resp, S>(*service, pr.1));
                        assert(self.stream.outgoing@ == prev_out + f);
                        assert(self.stream.outgoing@.subrange(0, orig_out.len() as int)
                            =~= orig_out);
                        assert(self.stream.outgoing@.skip(orig_out.len() as int)
                            =~= prev_out.skip(orig_out.len() as int) + f);
                        assert(prev_out.skip(orig_out.len() as int) + (f + serve_output::<
                            Req,
                            Resp,
                            S,
                        >(*service, pr.1)) =~= (prev_out.skip(orig_out.len() as int) + f)
                            + serve_output::<Req, Resp, S>(*service, pr.1));
                        assert(self.stream.remaining() == pr.1);
                    }
                },
            }
        }
    }
}

} // verus!
