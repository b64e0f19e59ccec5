//! Captured requests and the two ends of the queue that carries them from the
//! listener worker to the handle.
//!
//! The worker does not wait for a whole request before it reports: it publishes
//! one record per body chunk as the chunk is read, and one record with the head
//! (method, path, query, headers) once the body is complete. A [`Request`]
//! therefore stands both for such a fragment and for what a run of fragments
//! adds up to.

use crate::channel::{drain, offer, ChannelError};
use crate::query::Query;
use crossbeam_channel::{Receiver, Sender};
use std::rc::Rc;
use vstd::prelude::*;

verus! {

/// A captured request, or a fragment of one.
#[derive(Debug)]
pub struct Request {
    pub body: Vec<u8>,
    pub headers: Vec<(String, String)>,
    pub method: String,
    pub path: String,
    pub query: Query,
}

/// What a [`Request`] holds, as a mathematical value.
pub struct RequestView {
    pub body: Seq<u8>,
    pub headers: Seq<(Seq<char>, Seq<char>)>,
    pub method: Seq<char>,
    pub path: Seq<char>,
    pub query: Map<Seq<char>, Seq<char>>,
}

impl View for Request {
    type V = RequestView;

    open spec fn view(&self) -> RequestView {
        RequestView {
            body: self.body@,
            headers: self.headers.deep_view(),
            method: self.method@,
            path: self.path@,
            query: self.query@,
        }
    }
}

impl DeepView for Request {
    type V = RequestView;

    open spec fn deep_view(&self) -> RequestView {
        self@
    }
}

impl RequestView {
    /// The record that holds nothing.
    pub open spec fn empty() -> RequestView {
        RequestView {
            body: Seq::empty(),
            headers: Seq::empty(),
            method: Seq::empty(),
            path: Seq::empty(),
            query: Map::empty(),
        }
    }

    /// Whether the record says anything about method, path, query or headers.
    pub open spec fn has_head(self) -> bool {
        ||| self.method.len() > 0
        ||| self.path.len() > 0
        ||| self.headers.len() > 0
        ||| self.query != Map::<Seq<char>, Seq<char>>::empty()
    }

    /// The record without its body.
    pub open spec fn head(self) -> RequestView {
        RequestView { body: Seq::empty(), ..self }
    }

    /// The record without its head.
    pub open spec fn body_only(self) -> RequestView {
        RequestView { body: self.body, ..RequestView::empty() }
    }

    /// The record after one more fragment: the fragment's bytes are appended
    /// to the body, and its head, if it has one, replaces the head.
    pub open spec fn merge(self, next: RequestView) -> RequestView {
        if next.has_head() {
            RequestView { body: self.body + next.body, ..next }
        } else {
            RequestView { body: self.body + next.body, ..self }
        }
    }
}

/// The record of one chunk of body: its bytes and no head.
pub open spec fn chunk_record(chunk: Seq<u8>) -> RequestView {
    RequestView { body: chunk, ..RequestView::empty() }
}

/// The bodies of `fragments`, one after the other in arrival order.
pub open spec fn joined_bodies(fragments: Seq<RequestView>) -> Seq<u8>
    decreases fragments.len(),
{
    if fragments.len() == 0 {
        Seq::empty()
    } else {
        joined_bodies(fragments.drop_last()) + fragments.last().body
    }
}

/// The head of the last of `fragments` that has one; empty if none has.
pub open spec fn latest_head(fragments: Seq<RequestView>) -> RequestView
    decreases fragments.len(),
{
    if fragments.len() == 0 {
        RequestView::empty()
    } else if fragments.last().has_head() {
        fragments.last().head()
    } else {
        latest_head(fragments.drop_last())
    }
}

/// What a run of fragments adds up to: all their bytes in arrival order,
/// under the most recent head.
pub open spec fn gathered(fragments: Seq<RequestView>) -> RequestView {
    RequestView { body: joined_bodies(fragments), ..latest_head(fragments) }
}

/// Gathering one more fragment is merging it into what was gathered before.
pub proof fn lemma_gathered_push(fragments: Seq<RequestView>, next: RequestView)
    ensures
        gathered(fragments.push(next)) == gathered(fragments).merge(next),
{
    let longer = fragments.push(next);
    assert(longer.last() == next);
    assert(longer.drop_last() =~= fragments);
}

/// Merging with the empty record, on either side, changes nothing.
pub proof fn lemma_merge_empty(r: RequestView)
    ensures
        r.merge(RequestView::empty()) == r,
        RequestView::empty().merge(r) == r,
{
    let right = r.merge(RequestView::empty());
    assert(right.body =~= r.body);
    let left = RequestView::empty().merge(r);
    assert(left.body =~= r.body);
    if !r.has_head() {
        assert(r.method =~= Seq::empty());
        assert(r.path =~= Seq::empty());
        assert(r.headers =~= Seq::empty());
    }
}

/// It does not matter how a run of merges is grouped.
pub proof fn lemma_merge_associative(a: RequestView, b: RequestView, c: RequestView)
    ensures
        a.merge(b).merge(c) == a.merge(b.merge(c)),
{
    let left = a.merge(b).merge(c);
    let right = a.merge(b.merge(c));
    assert(left.body =~= right.body);
}

/// `r` is what reading the capture queue hands out once the records `arrived`
/// have been taken from it: what they add up to, or nothing if none waited.
pub open spec fn handed_out(arrived: Seq<RequestView>, r: Option<Request>) -> bool {
    match r {
        Some(whole) => arrived.len() > 0 && whole@ == gathered(arrived),
        None => arrived.len() == 0,
    }
}

/// Whether a count of waiting records says that none is waiting.
pub fn none_waiting(waiting: usize) -> (b: bool)
    ensures
        b == (waiting == 0),
{
    waiting == 0
}

impl Request {
    /// The record that holds nothing.
    pub fn new() -> (r: Request)
        ensures
            r@ == RequestView::empty(),
    {
        let r = Request {
            body: Vec::new(),
            headers: Vec::new(),
            method: String::new(),
            path: String::new(),
            query: Query::new(),
        };
        assert(r.headers.deep_view() =~= Seq::empty());
        r
    }

    /// A fragment that carries a head and no bytes.
    pub fn from_head(
        method: String,
        path: String,
        query: Query,
        headers: Vec<(String, String)>,
    ) -> (r: Request)
        ensures
            r@ == (RequestView {
                body: Seq::empty(),
                headers: headers.deep_view(),
                method: method@,
                path: path@,
                query: query@,
            }),
    {
        Request { body: Vec::new(), headers, method, path, query }
    }

    /// A fragment that carries bytes and no head.
    pub fn from_chunk(chunk: Vec<u8>) -> (r: Request)
        ensures
            r@ == chunk_record(chunk@),
    {
        let r = Request {
            body: chunk,
            headers: Vec::new(),
            method: String::new(),
            path: String::new(),
            query: Query::new(),
        };
        assert(r.headers.deep_view() =~= Seq::empty());
        r
    }

    /// Whether the record says anything about method, path, query or headers.
    pub fn has_head(&self) -> (b: bool)
        ensures
            b == self@.has_head(),
    {
        !self.method.as_str().is_empty() || !self.path.as_str().is_empty() || self.headers.len()
            > 0 || !self.query.is_empty()
    }

    /// Takes one more fragment in.
    pub fn absorb(&mut self, next: Request)
        ensures
            final(self)@ == old(self)@.merge(next@),
    {
        let mut next = next;
        let carries_head = next.has_head();
        self.body.append(&mut next.body);
        if carries_head {
            self.headers = next.headers;
            self.method = next.method;
            self.path = next.path;
            self.query = next.query;
        }
    }

    /// Hands out the head and keeps the body.
    pub fn take_head(&mut self) -> (head: Request)
        ensures
            head@ == old(self)@.head(),
            final(self)@ == old(self)@.body_only(),
    {
        let mut head = Request::new();
        core::mem::swap(&mut self.headers, &mut head.headers);
        core::mem::swap(&mut self.method, &mut head.method);
        core::mem::swap(&mut self.path, &mut head.path);
        core::mem::swap(&mut self.query, &mut head.query);
        head
    }

    /// Hands out the body and keeps the head.
    pub fn take_body(&mut self) -> (body: Vec<u8>)
        ensures
            body@ == old(self)@.body,
            final(self)@ == old(self)@.head(),
    {
        let mut body: Vec<u8> = Vec::new();
        core::mem::swap(&mut self.body, &mut body);
        body
    }

    /// Takes a run of fragments in, oldest first.
    pub fn absorb_all(&mut self, fragments: Vec<Request>)
        ensures
            final(self)@ == old(self)@.merge(gathered(fragments.deep_view())),
    {
        let ghost whole = fragments.deep_view();
        let ghost items = fragments@;
        let ghost start = self@;
        proof {
            assert(whole.take(0) =~= Seq::empty());
            lemma_merge_empty(start);
        }
        for fragment in it: fragments
            invariant
                it.seq() == items,
                whole.len() == items.len(),
                forall|i: int| 0 <= i < items.len() ==> whole[i] == (#[trigger] items[i])@,
                self@ == start.merge(gathered(whole.take(it.index() as int))),
        {
            proof {
                let done = whole.take(it.index() as int);
                assert(whole.take(it.index() + 1) =~= done.push(fragment@));
                lemma_gathered_push(done, fragment@);
                lemma_merge_associative(start, gathered(done), fragment@);
            }
            self.absorb(fragment);
        }
        assert(whole.take(whole.len() as int) =~= whole);
    }

    /// What a run of fragments adds up to.
    pub fn gather(fragments: Vec<Request>) -> (r: Request)
        ensures
            r@ == gathered(fragments.deep_view()),
    {
        let mut r = Request::new();
        proof {
            lemma_merge_empty(gathered(fragments.deep_view()));
        }
        r.absorb_all(fragments);
        r
    }

    /// What a batch taken from the capture queue hands out: the request that
    /// its records add up to, or nothing if the batch is empty.
    pub fn captured(batch: Vec<Request>) -> (r: Option<Request>)
        ensures
            handed_out(batch.deep_view(), r),
    {
        if batch.len() == 0 {
            None
        } else {
            Some(Request::gather(batch))
        }
    }
}

impl Default for Request {
    fn default() -> (r: Request)
        ensures
            r@ == RequestView::empty(),
    {
        Request::new()
    }
}

/// The consuming end of the capture queue.
#[derive(Debug)]
pub struct RequestReceiver {
    pub rx: Rc<Receiver<Request>>,
}

impl RequestReceiver {
    /// Whether no record was waiting at the moment of the call.
    pub fn is_empty(&self) -> bool {
        none_waiting(self.rx.len())
    }

    /// How many records were waiting at the moment of the call.
    pub fn len(&self) -> usize {
        self.rx.len()
    }

    /// Takes all that is waiting and hands out the request it adds up to:
    /// the most recent head over all the bytes in arrival order. Nothing if
    /// nothing was waiting. Never blocks.
    pub fn next(&self) -> (r: Option<Request>)
        ensures
            exists|arrived: Seq<RequestView>| #[trigger] handed_out(arrived, r),
    {
        let batch = self.drain();
        let ghost arrived = batch.deep_view();
        let r = Request::captured(batch);
        assert(handed_out(arrived, r));
        r
    }

    /// All records that are waiting, oldest first. Never blocks.
    pub fn drain(&self) -> Vec<Request> {
        drain(&self.rx)
    }
}

/// The producing end of the capture queue.
pub struct ShareRequest {
    pub tx: Sender<Request>,
}

impl ShareRequest {
    pub fn new(tx: Sender<Request>) -> (s: ShareRequest)
        ensures
            s.tx == tx,
    {
        Self { tx }
    }

    /// Publishes one record. Never blocks. Whether the queue takes the record
    /// is decided by its other end.
    pub fn share(&self, request: Request) -> Result<(), ChannelError> {
        offer(&self.tx, request)
    }
}

} // verus!
