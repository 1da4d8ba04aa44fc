use vstd::prelude::*;

use crate::cmd::MESSAGE_LENGTH;
use crate::error::Error;
use crate::request::{encode_request, Request};
use crate::response::{decode_response, Response};

verus! {

/// What becomes of one complete frame read from the line.
#[derive(Debug, Clone, Copy, PartialEq, Eq)]
pub enum Delivery {
    /// The reply that the caller waiting on this channel gets.
    Reply(Response),
    /// A frame that nobody waits for, handed to the notification sink.
    Notify(Response),
    /// A frame that did not decode; it is logged and dropped.
    Dropped(Error),
}

/// Receives, on the transport's own thread, every decoded frame that no caller
/// waits for. It should return quickly: frames wait while it runs.
pub trait OnMessage {
    fn on_message(&mut self, msg: Response);
}

/// The transport's decision state as a mathematical value.
pub struct TransportView {
    /// Channel of the one correlated request that waits for its reply, if any.
    pub pending: Option<u8>,
    /// Bytes of a frame that has begun but is not complete.
    pub partial: Seq<u8>,
}

/// The pending marker once a request has been written: a request that wants
/// its reply records its channel, overwriting any older marker.
pub open spec fn pending_after_request(pending: Option<u8>, req: Request, wait_reply: bool) -> Option<u8> {
    if wait_reply {
        Some(req.ch)
    } else {
        pending
    }
}

/// Where the complete frame `frame` goes, and the pending marker after it.
pub open spec fn route(pending: Option<u8>, frame: Seq<u8>) -> (Option<u8>, Delivery) {
    match decode_response(frame) {
        Err(e) => (pending, Delivery::Dropped(e)),
        Ok(r) => if pending == Some(r.ch) {
            (None, Delivery::Reply(r))
        } else {
            (pending, Delivery::Notify(r))
        },
    }
}

/// The state and the outcome after the bytes `chunk` have been read: nothing is
/// decoded until the bytes of the frame begun so far reach a full frame.
pub open spec fn accept(v: TransportView, chunk: Seq<u8>) -> (TransportView, Option<Delivery>) {
    let all = v.partial + chunk;
    if all.len() < MESSAGE_LENGTH {
        (TransportView { pending: v.pending, partial: all }, None)
    } else {
        let (pending, d) = route(v.pending, all);
        (TransportView { pending, partial: Seq::empty() }, Some(d))
    }
}

/// The decisions of the loop that owns the serial line: which request waits for
/// a reply, how incoming bytes make up frames, and where each frame goes.
pub struct Transport {
    pending: Option<u8>,
    partial: Vec<u8>,
}

impl View for Transport {
    type V = TransportView;

    closed spec fn view(&self) -> TransportView {
        TransportView { pending: self.pending, partial: self.partial@ }
    }
}

impl Transport {
    /// No frame has begun.
    pub open spec fn wf(&self) -> bool {
        self@.partial.len() < MESSAGE_LENGTH
    }

    pub fn new() -> (r: Transport)
        ensures
            r@.pending == None::<u8>,
            r@.partial == Seq::<u8>::empty(),
            r.wf(),
    {
        Transport { pending: None, partial: Vec::new() }
    }

    /// The channel whose reply is awaited, if any.
    pub fn pending(&self) -> (r: Option<u8>)
        ensures
            r == self@.pending,
    {
        self.pending
    }

    /// How many bytes the frame begun so far still lacks; the next read takes at most these.
    pub fn missing(&self) -> (r: usize)
        requires
            self.wf(),
        ensures
            r == MESSAGE_LENGTH - self@.partial.len(),
            0 < r <= MESSAGE_LENGTH,
    {
        MESSAGE_LENGTH - self.partial.len()
    }

    /// Takes a request from the queue: records the channel when the caller waits
    /// for the reply, and gives the frame to write.
    pub fn on_request(&mut self, req: &Request, wait_reply: bool) -> (r: [u8; MESSAGE_LENGTH])
        ensures
            r@ == encode_request(*req),
            final(self)@.pending == pending_after_request(old(self)@.pending, *req, wait_reply),
            final(self)@.partial == old(self)@.partial,
    {
        if wait_reply {
            self.pending = Some(req.ch());
        }
        req.to_message()
    }

    /// Decodes one complete frame and decides where it goes.
    pub fn on_frame(&mut self, frame: [u8; MESSAGE_LENGTH]) -> (r: Delivery)
        ensures
            (final(self)@.pending, r) == route(old(self)@.pending, frame@),
            final(self)@.partial == old(self)@.partial,
    {
        match Response::try_from(frame) {
            Err(e) => Delivery::Dropped(e),
            Ok(resp) => {
                if self.pending == Some(resp.ch) {
                    self.pending = None;
                    Delivery::Reply(resp)
                } else {
                    Delivery::Notify(resp)
                }
            },
        }
    }

    /// Takes the bytes of one read, at most `missing()` of them. Once they complete
    /// a frame, the frame is decoded and routed; before that nothing is decoded.
    pub fn on_bytes(&mut self, chunk: &[u8]) -> (r: Option<Delivery>)
        requires
            old(self).wf(),
            old(self)@.partial.len() + chunk@.len() <= MESSAGE_LENGTH,
        ensures
            (final(self)@, r) == accept(old(self)@, chunk@),
            final(self).wf(),
    {
        let mut i: usize = 0;
        while i < chunk.len()
            invariant
                0 <= i <= chunk@.len(),
                self.partial@ == old(self)@.partial + chunk@.take(i as int),
                self.pending == old(self)@.pending,
                old(self)@.partial.len() + chunk@.len() <= MESSAGE_LENGTH,
            decreases chunk@.len() - i,
        {
            self.partial.push(chunk[i]);
            i = i + 1;
            assert(chunk@.take(i as int) =~= chunk@.take(i as int - 1).push(chunk@[i as int - 1]));
        }
        assert(chunk@.take(chunk@.len() as int) =~= chunk@);
        if self.partial.len() < MESSAGE_LENGTH {
            None
        } else {
            let mut frame = [0u8; MESSAGE_LENGTH];
            let mut j: usize = 0;
            while j < MESSAGE_LENGTH
                invariant
                    0 <= j <= MESSAGE_LENGTH,
                    self.partial@.len() == MESSAGE_LENGTH,
                    forall|k: int| 0 <= k < j ==> frame@[k] == self.partial@[k],
                decreases MESSAGE_LENGTH - j,
            {
                frame[j] = self.partial[j];
                j = j + 1;
            }
            assert(frame@ =~= self.partial@);
            self.partial.clear();
            Some(self.on_frame(frame))
        }
    }
}

/// With a reply pending on channel `c`, of two frames that decode, one on `c` and
/// one on another channel, the first goes to the waiting caller and the second
/// to the notification sink, in whichever order the two arrive.
pub proof fn lemma_correlation(c: u8, on_c: Seq<u8>, other: Seq<u8>)
    requires
        decode_response(on_c) is Ok,
        decode_response(on_c)->Ok_0.ch == c,
        decode_response(other) is Ok,
        decode_response(other)->Ok_0.ch != c,
    ensures
        route(Some(c), on_c) == (None::<u8>, Delivery::Reply(decode_response(on_c)->Ok_0)),
        route(route(Some(c), on_c).0, other).1 == Delivery::Notify(decode_response(other)->Ok_0),
        route(Some(c), other) == (Some(c), Delivery::Notify(decode_response(other)->Ok_0)),
        route(route(Some(c), other).0, on_c).1 == Delivery::Reply(decode_response(on_c)->Ok_0),
{
}

/// A read that brings fewer bytes than a frame decodes nothing; the read that
/// completes the frame decodes and routes the whole of it.
pub proof fn lemma_partial_read_completed(v: TransportView, first: Seq<u8>, rest: Seq<u8>)
    requires
        v.partial.len() == 0,
        first.len() < MESSAGE_LENGTH,
        first.len() + rest.len() == MESSAGE_LENGTH,
    ensures
        accept(v, first).1 is None,
        accept(v, first).0.partial == first,
        accept(accept(v, first).0, rest) == (
            TransportView { pending: route(v.pending, first + rest).0, partial: Seq::<u8>::empty() },
            Some(route(v.pending, first + rest).1),
        ),
{
    assert(v.partial + first =~= first);
}

} // verus!
