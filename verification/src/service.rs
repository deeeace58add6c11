//! Service abstraction: business logic behind the transport, given one
//! decoded request value and producing one response value.
//!
//! Implementations carry a specification-level model of their behaviour, so
//! the serving loop's contract can state exactly which bytes go back for
//! which requests.

use vstd::prelude::*;

use crate::bytes::bytes_eq;
use crate::message::OpMessage;

verus! {

/// Business logic serving one connection: one request value in, one response
/// value out.  Protocol-level failures are not the service's to signal; a
/// service that wants to report an error returns an error-encoded response.
pub trait Service<Req: View, Resp: View>: Sized {
    /// The response value this service gives to a request value.
    spec fn model(&self, req: Req::V) -> Resp::V;

    fn handle_request(&self, req: Req) -> (r: Resp)
        ensures
            r@ == self.model(req@),
    ;
}

/// The operation bytes of the ping request.
pub open spec fn ping_op() -> Seq<u8> {
    seq![112u8, 105u8, 110u8, 103u8]
}

/// The operation bytes of the pong response.
pub open spec fn pong_op() -> Seq<u8> {
    seq![112u8, 111u8, 110u8, 103u8]
}

/// A service answering `{"op": "ping"}` with `{"op": "pong"}` and echoing
/// any other operation back unchanged.
pub struct EchoService {}

impl Service<OpMessage, OpMessage> for EchoService {
    open spec fn model(&self, req: Seq<u8>) -> Seq<u8> {
        if req == ping_op() {
            pong_op()
        } else {
            req
        }
    }

    fn handle_request(&self, req: OpMessage) -> (r: OpMessage) {
        let ping: Vec<u8> = vec![112u8, 105u8, 110u8, 103u8];
        proof {
            assert(ping@ =~= ping_op());
        }
        if bytes_eq(req.op.as_slice(), ping.as_slice()) {
            let pong: Vec<u8> = vec![112u8, 111u8, 110u8, 103u8];
            proof {
                assert(pong@ =~= pong_op());
            }
            OpMessage { op: pong }
        } else {
            req
        }
    }
}

} // verus!
