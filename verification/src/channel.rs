//! In-process channel transport: a substitute for the network and TLS stack
//! when running without hardware attestation (development, simulation,
//! tests).
//!
//! Two FIFO queues, one per direction, connect the client side to the
//! serving side; values pass by ownership, so no encoding or decoding error
//! is possible.  The same at-most-one-outstanding-request rule applies as on
//! the network transport.

use vstd::prelude::*;

use crate::service::Service;

verus! {

/// The connected pair of directed FIFO queues.  `requests` flows from the
/// client side to the serving side, `responses` back; index 0 is the oldest
/// entry of each queue.
pub struct MpscChannelTransport<U, V> {
    pub requests: Vec<U>,
    pub responses: Vec<V>,
}

impl<U: View, V: View> MpscChannelTransport<U, V> {
    /// Requests sent whose responses have not been taken yet.
    pub open spec fn outstanding(&self) -> int {
        self.requests@.len() + self.responses@.len() as int
    }

    /// A correctly used instance never has two requests in flight.
    pub open spec fn wf(&self) -> bool {
        self.outstanding() <= 1
    }

    /// An idle channel pair.
    pub fn new() -> (r: MpscChannelTransport<U, V>)
        ensures
            r.wf(),
            r.outstanding() == 0,
    {
        MpscChannelTransport { requests: Vec::new(), responses: Vec::new() }
    }

    /// Client half-step: delivers one request into the channel.  Requires
    /// that no request is outstanding; a caller that sends again before
    /// taking the response violates the transport contract.
    pub fn send_request(&mut self, request: U)
        requires
            old(self).wf(),
            old(self).outstanding() == 0,
        ensures
            final(self).wf(),
            final(self).outstanding() == 1,
            final(self).requests@ == old(self).requests@.push(request),
            final(self).responses == old(self).responses,
    {
        self.requests.push(request);
    }

    /// Client half-step: takes the oldest delivered response, if any.
    pub fn recv_response(&mut self) -> (r: Option<V>)
        ensures
            final(self).requests == old(self).requests,
            match r {
                Some(v) => {
                    &&& old(self).responses@.len() > 0
                    &&& v == old(self).responses@[0]
                    &&& final(self).responses@ == old(self).responses@.skip(1)
                },
                None => {
                    &&& old(self).responses@.len() == 0
                    &&& *final(self) == *old(self)
                },
            },
    {
        if self.responses.len() == 0 {
            return None;
        }
        let v = self.responses.remove(0);
        proof {
            assert(self.responses@ =~= old(self).responses@.skip(1));
        }
        Some(v)
    }

    /// Serving side: takes every pending request in FIFO order, hands each
    /// to the service, and delivers the responses in the same order.  In the
    /// threaded setting this is the serve loop's work between two blocking
    /// receives; delivery order per direction is preserved.
    pub fn serve<S: Service<U, V>>(&mut self, service: &S)
        ensures
            final(self).requests@.len() == 0,
            final(self).responses@.len() == old(self).responses@.len() + old(
                self,
            ).requests@.len(),
            forall|i: int|
                0 <= i < old(self).responses@.len() ==> final(self).responses@[i] == old(
                    self,
                ).responses@[i],
            forall|i: int|
                0 <= i < old(self).requests@.len() ==> (#[trigger] final(self).responses@[old(
                    self,
                ).responses@.len() + i])@ == service.model(old(self).requests@[i]@),
            final(self).outstanding() == old(self).outstanding(),
    {
        let ghost orig_req = self.requests@;
        let ghost orig_resp = self.responses@;
        let total = self.requests.len();
        let mut j: usize = 0;
        loop
            invariant
                orig_req.len() == total,
                orig_req == old(self).requests@,
                orig_resp == old(self).responses@,
                j <= orig_req.len(),
                self.requests@ == orig_req.skip(j as int),
                self.responses@.len() == orig_resp.len() + j,
                forall|i: int| 0 <= i < orig_resp.len() ==> self.responses@[i] == orig_resp[i],
                forall|i: int|
                    0 <= i < j ==> (#[trigger] self.responses@[orig_resp.len() + i])@
                        == service.model(orig_req[i]@),
            decreases orig_req.len() - j,
        {
            if self.requests.len() == 0 {
                proof {
                    assert(j == orig_req.len());
                }
                return ;
            }
            let req = self.requests.remove(0);
            proof {
                assert(self.requests@ =~= orig_req.skip(j as int + 1));
                assert(req == orig_req[j as int]);
            }
            let resp = service.handle_request(req);
            self.responses.push(resp);
            j = j + 1;
        }
    }
}

/// At-most-one-outstanding, channel form: a well-formed channel pair never
/// carries two requests in flight, in either direction together.
pub proof fn lemma_channel_at_most_one_outstanding<U: View, V: View>(
    t: MpscChannelTransport<U, V>,
)
    requires
        t.wf(),
    ensures
        t.outstanding() <= 1,
{
}

} // verus!
