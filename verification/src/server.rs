//! The two parties of a running test double: the handle that a test holds,
//! and the handler that the listener worker calls once per inbound request.

use crate::channel::{drain, ChannelError};
use crate::query::Query;
use crate::reply::{Directive, ReplyBuilder, Response};
use crate::requests::{gathered, Request, RequestReceiver, RequestView, ShareRequest};
use crossbeam_channel::{Receiver, Sender};
use vstd::prelude::*;

verus! {

/// Why a test double did not come up.
#[derive(Clone, Copy, Debug, PartialEq, Eq, Structural)]
pub enum StartupFailure {
    /// The address could not be understood, or none was reported.
    InvalidAddress,
    /// The address could not be bound.
    BindFailed,
}

/// What the caller of `dispose` has to carry out.
#[derive(Clone, Copy, Debug, PartialEq, Eq, Structural)]
pub enum Teardown {
    /// Fire the cancellation signal, then wait until the worker has stopped.
    CancelAndJoin,
    /// Nothing: the handle was disposed of before.
    Nothing,
}

/// The address to bind when the caller names none: any free port on the
/// loopback interface.
pub open spec fn default_target() -> Seq<char> {
    "127.0.0.1:0"@
}

/// The address that the worker is to bind: the one given, or the default.
pub fn bind_target(address: Option<String>) -> (target: String)
    ensures
        target@ == match address {
            Some(given) => given@,
            None => default_target(),
        },
{
    match address {
        Some(given) => given,
        None => "127.0.0.1:0".to_owned(),
    }
}

/// What the creator makes of the handoff from its worker: the worker's
/// report, or a failed bind where the worker ended without one.
pub fn startup_report(received: Option<Result<String, StartupFailure>>) -> (report: Result<
    String,
    StartupFailure,
>)
    ensures
        report == match received {
            Some(given) => given,
            None => Err::<String, StartupFailure>(StartupFailure::BindFailed),
        },
{
    match received {
        Some(given) => given,
        None => Err(StartupFailure::BindFailed),
    }
}

/// The address of a bound listener, as `host:port`. Never empty.
#[derive(Debug)]
pub struct BoundAddress {
    text: String,
}

impl View for BoundAddress {
    type V = Seq<char>;

    closed spec fn view(&self) -> Seq<char> {
        self.text@
    }
}

impl BoundAddress {
    #[verifier::type_invariant]
    spec fn not_empty(&self) -> bool {
        self.text@.len() > 0
    }

    /// Accepts any text but the empty one.
    pub fn new(text: String) -> (address: Option<BoundAddress>)
        ensures
            match address {
                Some(a) => a@ == text@,
                None => text@.len() == 0,
            },
            address is Some <==> text@.len() > 0,
    {
        if text.as_str().is_empty() {
            None
        } else {
            Some(BoundAddress { text })
        }
    }

    /// The address as text.
    pub fn as_string(&self) -> (text: &String)
        ensures
            text@ == self@,
            text@.len() > 0,
    {
        proof {
            use_type_invariant(self);
        }
        &self.text
    }
}

/// `head` and `after` are what handing out the head leaves of `before` once
/// the records `arrived` have been taken in.
pub open spec fn head_handed_out(
    before: RequestView,
    arrived: Seq<RequestView>,
    head: RequestView,
    after: RequestView,
) -> bool {
    let all = before.merge(gathered(arrived));
    head == all.head() && after == all.body_only()
}

/// `body` and `after` are what handing out the body leaves of `before` once
/// the records `arrived` have been taken in.
pub open spec fn body_handed_out(
    before: RequestView,
    arrived: Seq<RequestView>,
    body: Seq<u8>,
    after: RequestView,
) -> bool {
    let all = before.merge(gathered(arrived));
    body == all.body && after == all.head()
}

/// What a test holds of a running test double.
pub struct Handle {
    address: BoundAddress,
    requests: RequestReceiver,
    replies: Sender<Directive>,
    pending: Request,
    disposed: bool,
}

impl Handle {
    /// The bound address.
    pub closed spec fn bound(&self) -> Seq<char> {
        self.address@
    }

    /// What was captured and not handed out yet: the most recent head since
    /// the last `next_head`, and all bytes since the last `next_body`.
    pub closed spec fn pending(&self) -> RequestView {
        self.pending@
    }

    /// Whether `dispose` has run.
    pub closed spec fn disposed(&self) -> bool {
        self.disposed
    }

    /// The consuming end of the capture queue.
    pub closed spec fn capture_queue(&self) -> RequestReceiver {
        self.requests
    }

    /// The producing end of the reply queue.
    pub closed spec fn reply_queue(&self) -> Sender<Directive> {
        self.replies
    }

    /// Completes startup with what the worker reported of its bind: a handle
    /// for the bound address, or the failure.
    pub fn start(
        report: Result<String, StartupFailure>,
        requests: RequestReceiver,
        replies: Sender<Directive>,
    ) -> (r: Result<Handle, StartupFailure>)
        ensures
            match report {
                Ok(address) => if address@.len() > 0 {
                    &&& r matches Ok(handle)
                    &&& handle.bound() == address@
                    &&& handle.pending() == RequestView::empty()
                    &&& !handle.disposed()
                    &&& handle.capture_queue() == requests
                    &&& handle.reply_queue() == replies
                } else {
                    r matches Err(e) && e == StartupFailure::InvalidAddress
                },
                Err(failure) => r matches Err(e) && e == failure,
            },
    {
        match report {
            Ok(text) => match BoundAddress::new(text) {
                Some(address) => Ok(
                    Handle { address, requests, replies, pending: Request::new(), disposed: false },
                ),
                None => Err(StartupFailure::InvalidAddress),
            },
            Err(failure) => Err(failure),
        }
    }

    /// The bound address, as `host:port`.
    pub fn address(&self) -> (text: &String)
        ensures
            text@ == self.bound(),
            text@.len() > 0,
    {
        self.address.as_string()
    }

    /// Whether `dispose` has run.
    pub fn is_disposed(&self) -> (b: bool)
        ensures
            b == self.disposed(),
    {
        self.disposed
    }

    /// Takes a batch of captured records in and hands out the most recent head
    /// among those not handed out before; the empty head if there is none.
    /// The bytes of the batch are kept for `next_body`.
    pub fn take_head(&mut self, batch: Vec<Request>) -> (head: Request)
        ensures
            head_handed_out(
                old(self).pending(),
                batch.deep_view(),
                head@,
                final(self).pending(),
            ),
            final(self).bound() == old(self).bound(),
            final(self).disposed() == old(self).disposed(),
            final(self).capture_queue() == old(self).capture_queue(),
            final(self).reply_queue() == old(self).reply_queue(),
    {
        self.pending.absorb_all(batch);
        self.pending.take_head()
    }

    /// Takes a batch of captured records in and hands out all bytes not handed
    /// out before, in arrival order. The head is kept for `next_head`.
    pub fn take_body(&mut self, batch: Vec<Request>) -> (body: Vec<u8>)
        ensures
            body_handed_out(
                old(self).pending(),
                batch.deep_view(),
                body@,
                final(self).pending(),
            ),
            final(self).bound() == old(self).bound(),
            final(self).disposed() == old(self).disposed(),
            final(self).capture_queue() == old(self).capture_queue(),
            final(self).reply_queue() == old(self).reply_queue(),
    {
        self.pending.absorb_all(batch);
        self.pending.take_body()
    }

    /// The most recent head captured since the last call; the empty head if
    /// none was. Never blocks.
    pub fn next_head(&mut self) -> (head: Request)
        ensures
            exists|arrived: Seq<RequestView>| #[trigger]
                head_handed_out(old(self).pending(), arrived, head@, final(self).pending()),
            final(self).bound() == old(self).bound(),
            final(self).disposed() == old(self).disposed(),
            final(self).capture_queue() == old(self).capture_queue(),
            final(self).reply_queue() == old(self).reply_queue(),
    {
        let batch = self.requests.drain();
        let ghost arrived = batch.deep_view();
        let head = self.take_head(batch);
        assert(head_handed_out(old(self).pending(), arrived, head@, self.pending()));
        head
    }

    /// All bytes captured since the last call, in arrival order. Never blocks.
    pub fn next_body(&mut self) -> (body: Vec<u8>)
        ensures
            exists|arrived: Seq<RequestView>| #[trigger]
                body_handed_out(old(self).pending(), arrived, body@, final(self).pending()),
            final(self).bound() == old(self).bound(),
            final(self).disposed() == old(self).disposed(),
            final(self).capture_queue() == old(self).capture_queue(),
            final(self).reply_queue() == old(self).reply_queue(),
    {
        let batch = self.requests.drain();
        let ghost arrived = batch.deep_view();
        let body = self.take_body(batch);
        assert(body_handed_out(old(self).pending(), arrived, body@, self.pending()));
        body
    }

    /// A builder that writes to the reply queue. Once the handle is disposed
    /// of, every call on the builder fails.
    pub fn reply(&self) -> (builder: ReplyBuilder<'_>)
        ensures
            builder.is_open() == !self.disposed(),
            builder.queue() == self.reply_queue(),
    {
        ReplyBuilder::new(&self.replies, !self.disposed)
    }

    /// Disposes of the handle. The first call asks for the cancellation signal
    /// to be fired and the worker to be joined; every later call asks nothing.
    pub fn dispose(&mut self) -> (todo: Teardown)
        ensures
            final(self).disposed(),
            todo == if old(self).disposed() {
                Teardown::Nothing
            } else {
                Teardown::CancelAndJoin
            },
            final(self).bound() == old(self).bound(),
            final(self).pending() == old(self).pending(),
            final(self).capture_queue() == old(self).capture_queue(),
            final(self).reply_queue() == old(self).reply_queue(),
    {
        if self.disposed {
            Teardown::Nothing
        } else {
            self.disposed = true;
            Teardown::CancelAndJoin
        }
    }
}

/// What the listener worker calls for each inbound request.
pub struct Handler {
    share: ShareRequest,
    replies: Receiver<Directive>,
}

impl Handler {
    /// The producing end of the capture queue.
    pub closed spec fn capture_queue(&self) -> ShareRequest {
        self.share
    }

    /// The consuming end of the reply queue.
    pub closed spec fn reply_queue(&self) -> Receiver<Directive> {
        self.replies
    }

    pub fn new(share: ShareRequest, replies: Receiver<Directive>) -> (h: Handler)
        ensures
            h.capture_queue() == share,
            h.reply_queue() == replies,
    {
        Handler { share, replies }
    }

    /// Publishes one chunk of the request body as it was read: the record
    /// that `Request::from_chunk` makes of it. Whether the queue takes the
    /// record is decided by its other end.
    pub fn capture_chunk(&self, chunk: Vec<u8>) -> (r: Result<(), ChannelError>) {
        self.share.share(Request::from_chunk(chunk))
    }

    /// Publishes the head of the request, once its body is complete: the
    /// record that `Request::from_head` makes of it, with the query read by
    /// `Query::from_pairs`, so that of two parameters with one name the later
    /// stands. Whether the queue takes the record is decided by its other end.
    pub fn capture_head(
        &self,
        method: String,
        path: String,
        query: Vec<(String, String)>,
        headers: Vec<(String, String)>,
    ) -> (r: Result<(), ChannelError>) {
        self.share.share(Request::from_head(method, path, Query::from_pairs(query), headers))
    }

    /// The response to send: what `Response::assemble` makes of the
    /// directives waiting on the reply queue. Never blocks. Which directives
    /// are waiting is decided by the other end of the queue.
    pub fn respond(&self) -> (response: Response) {
        Response::assemble(drain(&self.replies))
    }
}

} // verus!
