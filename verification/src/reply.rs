//! Scripted replies: the directives a test enqueues, and the response that a
//! run of directives amounts to.

use crate::channel::{offer, ChannelError};
use crossbeam_channel::Sender;
use vstd::prelude::*;

verus! {

/// One scripted instruction for the next outgoing response.
#[derive(Clone, Debug, PartialEq, Eq)]
pub enum Directive {
    /// Replace the status code.
    SetStatus(u16),
    /// Replace the whole header set.
    SetHeaders(Vec<(String, String)>),
    /// Replace the whole body.
    SetBody(Vec<u8>),
}

/// What a [`Directive`] says, as a mathematical value.
pub enum DirectiveView {
    SetStatus(u16),
    SetHeaders(Seq<(Seq<char>, Seq<char>)>),
    SetBody(Seq<u8>),
}

impl View for Directive {
    type V = DirectiveView;

    open spec fn view(&self) -> DirectiveView {
        match self {
            Directive::SetStatus(code) => DirectiveView::SetStatus(*code),
            Directive::SetHeaders(headers) => DirectiveView::SetHeaders(headers.deep_view()),
            Directive::SetBody(body) => DirectiveView::SetBody(body@),
        }
    }
}

impl Directive {
    /// The directive that a `status(code)` call enqueues.
    pub fn status(code: u16) -> (d: Directive)
        ensures
            d@ == DirectiveView::SetStatus(code),
    {
        Directive::SetStatus(code)
    }

    /// The directive that a `header(name, value)` call enqueues: a header set
    /// of this one header, which replaces whatever set stood before.
    pub fn header(name: &str, value: &str) -> (d: Directive)
        ensures
            d@ == DirectiveView::SetHeaders(seq![(name@, value@)]),
    {
        let mut headers: Vec<(String, String)> = Vec::new();
        headers.push((name.to_owned(), value.to_owned()));
        assert(headers.deep_view() =~= seq![(name@, value@)]);
        Directive::SetHeaders(headers)
    }

    /// The directive that a `body(bytes)` call enqueues.
    pub fn body(bytes: Vec<u8>) -> (d: Directive)
        ensures
            d@ == DirectiveView::SetBody(bytes@),
    {
        Directive::SetBody(bytes)
    }
}

impl DeepView for Directive {
    type V = DirectiveView;

    open spec fn deep_view(&self) -> DirectiveView {
        self@
    }
}

/// The response under construction while directives are applied. A status of
/// `None` means that no directive has set one.
#[derive(Clone, Debug, PartialEq, Eq)]
pub struct Response {
    pub status: Option<u16>,
    pub headers: Vec<(String, String)>,
    pub body: Vec<u8>,
}

/// What a [`Response`] holds, as a mathematical value.
pub struct ResponseView {
    pub status: Option<u16>,
    pub headers: Seq<(Seq<char>, Seq<char>)>,
    pub body: Seq<u8>,
}

impl View for Response {
    type V = ResponseView;

    open spec fn view(&self) -> ResponseView {
        ResponseView {
            status: self.status,
            headers: self.headers.deep_view(),
            body: self.body@,
        }
    }
}

/// The status set by the last `SetStatus` in `script`, if there is one.
pub open spec fn last_status(script: Seq<DirectiveView>) -> Option<u16>
    decreases script.len(),
{
    if script.len() == 0 {
        None
    } else {
        match script.last() {
            DirectiveView::SetStatus(code) => Some(code),
            _ => last_status(script.drop_last()),
        }
    }
}

/// The header set of the last `SetHeaders` in `script`; empty if there is none.
pub open spec fn last_headers(script: Seq<DirectiveView>) -> Seq<(Seq<char>, Seq<char>)>
    decreases script.len(),
{
    if script.len() == 0 {
        Seq::empty()
    } else {
        match script.last() {
            DirectiveView::SetHeaders(headers) => headers,
            _ => last_headers(script.drop_last()),
        }
    }
}

/// The body of the last `SetBody` in `script`; empty if there is none.
pub open spec fn last_body(script: Seq<DirectiveView>) -> Seq<u8>
    decreases script.len(),
{
    if script.len() == 0 {
        Seq::empty()
    } else {
        match script.last() {
            DirectiveView::SetBody(body) => body,
            _ => last_body(script.drop_last()),
        }
    }
}

impl ResponseView {
    /// The response before any directive: no status, no headers, no body.
    pub open spec fn empty() -> ResponseView {
        ResponseView { status: None, headers: Seq::empty(), body: Seq::empty() }
    }

    /// The response after one more directive: the field that the directive
    /// names is overwritten, the other two are kept.
    pub open spec fn apply(self, directive: DirectiveView) -> ResponseView {
        match directive {
            DirectiveView::SetStatus(code) => ResponseView { status: Some(code), ..self },
            DirectiveView::SetHeaders(headers) => ResponseView { headers, ..self },
            DirectiveView::SetBody(body) => ResponseView { body, ..self },
        }
    }

    /// The response that a run of directives amounts to: each field is decided
    /// by the last directive of its kind, and is empty where there is none.
    pub open spec fn scripted(script: Seq<DirectiveView>) -> ResponseView {
        ResponseView {
            status: last_status(script),
            headers: last_headers(script),
            body: last_body(script),
        }
    }
}

/// Applying one more directive to the response of a script gives the response
/// of the script extended by that directive.
pub proof fn lemma_scripted_push(script: Seq<DirectiveView>, directive: DirectiveView)
    ensures
        ResponseView::scripted(script.push(directive)) == ResponseView::scripted(script).apply(
            directive,
        ),
{
    let longer = script.push(directive);
    assert(longer.last() == directive);
    assert(longer.drop_last() =~= script);
}

/// The status code that goes on the wire: 200 where none was set, 500 where
/// the code set is not a three-digit one, else the code set.
pub open spec fn wire_status_of(status: Option<u16>) -> u16 {
    match status {
        None => 200,
        Some(code) => if 100 <= code <= 999 {
            code
        } else {
            500
        },
    }
}

/// The status code that goes on the wire for the status of a response.
pub fn wire_status(status: Option<u16>) -> (code: u16)
    ensures
        code == wire_status_of(status),
        100 <= code <= 999,
{
    match status {
        None => 200,
        Some(code) => if 100 <= code && code <= 999 {
            code
        } else {
            500
        },
    }
}

impl Response {
    /// The response before any directive.
    pub fn new() -> (r: Response)
        ensures
            r@ == ResponseView::empty(),
    {
        let r = Response { status: None, headers: Vec::new(), body: Vec::new() };
        assert(r.headers.deep_view() =~= Seq::empty());
        r
    }

    /// Applies one directive: the field it names is overwritten.
    pub fn apply(&mut self, directive: Directive)
        ensures
            final(self)@ == old(self)@.apply(directive@),
    {
        match directive {
            Directive::SetStatus(code) => {
                self.status = Some(code);
            },
            Directive::SetHeaders(headers) => {
                self.headers = headers;
            },
            Directive::SetBody(body) => {
                self.body = body;
            },
        }
    }

    /// Applies a run of directives, oldest first, to the empty response.
    pub fn assemble(script: Vec<Directive>) -> (r: Response)
        ensures
            r@ == ResponseView::scripted(script.deep_view()),
    {
        let ghost whole = script.deep_view();
        let ghost items = script@;
        let mut response = Response::new();
        assert(whole.take(0) =~= Seq::empty());
        for directive in it: script
            invariant
                it.seq() == items,
                whole.len() == items.len(),
                forall|i: int| 0 <= i < items.len() ==> whole[i] == (#[trigger] items[i])@,
                response@ == ResponseView::scripted(whole.take(it.index() as int)),
        {
            proof {
                let done = it.index() as int;
                assert(whole.take(done + 1) =~= whole.take(done).push(directive@));
                lemma_scripted_push(whole.take(done), directive@);
            }
            response.apply(directive);
        }
        assert(whole.take(whole.len() as int) =~= whole);
        response
    }
}

impl Default for Response {
    fn default() -> (r: Response)
        ensures
            r@ == ResponseView::empty(),
    {
        Response::new()
    }
}

/// Scripts the next response: each call enqueues one directive on the reply
/// queue, in the order of the calls.
pub struct ReplyBuilder<'a> {
    tx: &'a Sender<Directive>,
    open: bool,
}

impl<'a> ReplyBuilder<'a> {
    /// Whether the builder was made while its handle was still in use.
    pub closed spec fn is_open(&self) -> bool {
        self.open
    }

    /// The queue that the builder writes to.
    pub closed spec fn queue(&self) -> Sender<Directive> {
        *self.tx
    }

    /// A builder for the queue `tx`. With `open` false every call fails
    /// without touching the queue.
    pub fn new(tx: &'a Sender<Directive>, open: bool) -> (b: ReplyBuilder<'a>)
        ensures
            b.is_open() == open,
            b.queue() == *tx,
    {
        ReplyBuilder { tx, open }
    }

    fn enqueue(&self, directive: Directive) -> (r: Result<(), ChannelError>)
        ensures
            !self.is_open() ==> r == Err::<(), ChannelError>(ChannelError::Closed),
    {
        if self.open {
            offer(self.tx, directive)
        } else {
            Err(ChannelError::Closed)
        }
    }

    /// Enqueues `SetStatus(code)`.
    pub fn status(self, code: u16) -> (r: Result<ReplyBuilder<'a>, ChannelError>)
        ensures
            !self.is_open() ==> r == Err::<ReplyBuilder<'a>, ChannelError>(ChannelError::Closed),
            r matches Ok(next) ==> next == self,
    {
        match self.enqueue(Directive::status(code)) {
            Ok(()) => Ok(self),
            Err(e) => Err(e),
        }
    }

    /// Enqueues `SetHeaders` for the one header given.
    pub fn header(self, name: &str, value: &str) -> (r: Result<ReplyBuilder<'a>, ChannelError>)
        ensures
            !self.is_open() ==> r == Err::<ReplyBuilder<'a>, ChannelError>(ChannelError::Closed),
            r matches Ok(next) ==> next == self,
    {
        match self.enqueue(Directive::header(name, value)) {
            Ok(()) => Ok(self),
            Err(e) => Err(e),
        }
    }

    /// Enqueues `SetBody(bytes)` and ends the script of one response.
    pub fn body(self, bytes: Vec<u8>) -> (r: Result<(), ChannelError>)
        ensures
            !self.is_open() ==> r == Err::<(), ChannelError>(ChannelError::Closed),
    {
        self.enqueue(Directive::body(bytes))
    }
}

} // verus!
