//! What holds of capture and replay as a whole, stated over the models that
//! the contracts of the other modules use.
//!
//! The queues themselves are not modelled: that a queue hands over what was
//! put on it, once and in order, is the queue's own promise. The laws below
//! say what follows once it has.

use crate::reply::{last_status, lemma_scripted_push, DirectiveView, ResponseView};
use crate::requests::{
    chunk_record, gathered, handed_out, joined_bodies, lemma_gathered_push,
    lemma_merge_associative, lemma_merge_empty, Request, RequestView,
};
use crate::server::{body_handed_out, head_handed_out};
use vstd::prelude::*;

verus! {

/// One record per chunk, in the order of the chunks.
pub open spec fn chunk_records(chunks: Seq<Seq<u8>>) -> Seq<RequestView> {
    Seq::new(chunks.len(), |i: int| chunk_record(chunks[i]))
}

/// What a handler publishes for one request: a record per chunk of body in
/// the order read, and then the head.
pub open spec fn published(head: RequestView, chunks: Seq<Seq<u8>>) -> Seq<RequestView> {
    chunk_records(chunks).push(head.head())
}

/// Gathering two runs one after the other is merging what each adds up to.
pub proof fn law_gathered_concat(first: Seq<RequestView>, second: Seq<RequestView>)
    ensures
        gathered(first + second) == gathered(first).merge(gathered(second)),
    decreases second.len(),
{
    if second.len() == 0 {
        assert(first + second =~= first);
        lemma_merge_empty(gathered(first));
    } else {
        let front = second.drop_last();
        law_gathered_concat(first, front);
        assert(first + second =~= (first + front).push(second.last()));
        assert(second =~= front.push(second.last()));
        lemma_gathered_push(first + front, second.last());
        lemma_gathered_push(front, second.last());
        lemma_merge_associative(gathered(first), gathered(front), second.last());
    }
}

/// The bodies of a run of records, joined, are the concatenation of the
/// bodies in order.
pub proof fn law_joined_bodies_is_concatenation(fragments: Seq<RequestView>)
    ensures
        joined_bodies(fragments) == fragments.map_values(|f: RequestView| f.body).flatten(),
    decreases fragments.len(),
{
    let bodies = fragments.map_values(|f: RequestView| f.body);
    bodies.lemma_flatten_and_flatten_alt_are_equivalent();
    if fragments.len() > 0 {
        let front = fragments.drop_last();
        law_joined_bodies_is_concatenation(front);
        front.map_values(|f: RequestView| f.body).lemma_flatten_and_flatten_alt_are_equivalent();
        assert(bodies.drop_last() =~= front.map_values(|f: RequestView| f.body));
    }
}

/// Chunk records add up to one record with all the bytes and no head.
pub proof fn law_chunks_add_up(chunks: Seq<Seq<u8>>)
    ensures
        gathered(chunk_records(chunks)) == chunk_record(chunks.flatten()),
    decreases chunks.len(),
{
    chunks.lemma_flatten_and_flatten_alt_are_equivalent();
    if chunks.len() > 0 {
        let front = chunks.drop_last();
        law_chunks_add_up(front);
        front.lemma_flatten_and_flatten_alt_are_equivalent();
        assert(chunk_records(chunks).drop_last() =~= chunk_records(front));
        assert(chunk_records(chunks).last() == chunk_record(chunks.last()));
    }
}

/// One request, captured: whatever the chunks in which the body was read,
/// the records published for it add up to the head that was sent and the
/// bytes that were sent, in order.
pub proof fn law_capture_one_request(head: RequestView, chunks: Seq<Seq<u8>>)
    ensures
        gathered(published(head, chunks)) == (RequestView { body: chunks.flatten(), ..head }),
{
    law_chunks_add_up(chunks);
    lemma_gathered_push(chunk_records(chunks), head.head());
    let all = gathered(chunk_records(chunks)).merge(head.head());
    assert(all.body =~= chunks.flatten());
    if !head.head().has_head() {
        assert(head.method =~= Seq::empty());
        assert(head.path =~= Seq::empty());
        assert(head.headers =~= Seq::empty());
    }
}

/// Two ways of cutting the same bytes into chunks are captured alike.
pub proof fn law_chunking_is_irrelevant(
    head: RequestView,
    chunks: Seq<Seq<u8>>,
    other: Seq<Seq<u8>>,
)
    requires
        chunks.flatten() == other.flatten(),
    ensures
        gathered(published(head, chunks)) == gathered(published(head, other)),
{
    law_capture_one_request(head, chunks);
    law_capture_one_request(head, other);
}

/// After exactly one request, reading the capture queue hands out that
/// request: the head that was sent over the bytes that were sent, in order,
/// however the body was cut into chunks.
pub proof fn law_next_of_one_request(
    head: RequestView,
    chunks: Seq<Seq<u8>>,
    out: Option<Request>,
)
    requires
        handed_out(published(head, chunks), out),
    ensures
        out matches Some(whole) && whole@ == (RequestView { body: chunks.flatten(), ..head }),
{
    law_capture_one_request(head, chunks);
}

/// With nothing captured, and only then, reading the capture queue hands
/// out nothing.
pub proof fn law_next_of_nothing(out: Option<Request>)
    ensures
        handed_out(Seq::empty(), out) <==> out is None,
{
}

/// After exactly one request, a handle with nothing pending hands out the
/// head that was sent, and keeps the bytes that were sent for the body.
pub proof fn law_head_of_one_request(
    head: RequestView,
    chunks: Seq<Seq<u8>>,
    out: RequestView,
    after: RequestView,
)
    requires
        head_handed_out(RequestView::empty(), published(head, chunks), out, after),
    ensures
        out == head.head(),
        after == chunk_record(chunks.flatten()),
{
    law_capture_one_request(head, chunks);
    lemma_merge_empty(gathered(published(head, chunks)));
}

/// After exactly one request, a handle with nothing pending hands out the
/// bytes that were sent, all of them and in order, and keeps the head.
pub proof fn law_body_of_one_request(
    head: RequestView,
    chunks: Seq<Seq<u8>>,
    out: Seq<u8>,
    after: RequestView,
)
    requires
        body_handed_out(RequestView::empty(), published(head, chunks), out, after),
    ensures
        out == chunks.flatten(),
        after == head.head(),
{
    law_capture_one_request(head, chunks);
    lemma_merge_empty(gathered(published(head, chunks)));
}

/// A second call right after `next_head`, with nothing new captured, hands
/// out the empty head and changes nothing.
pub proof fn law_second_head_is_empty(
    before: RequestView,
    arrived: Seq<RequestView>,
    head: RequestView,
    after: RequestView,
)
    requires
        head_handed_out(before, arrived, head, after),
    ensures
        head_handed_out(after, Seq::empty(), RequestView::empty(), after),
{
    lemma_merge_empty(after);
}

/// A second call right after `next_body`, with nothing new captured, hands
/// out no bytes and changes nothing.
pub proof fn law_second_body_is_empty(
    before: RequestView,
    arrived: Seq<RequestView>,
    body: Seq<u8>,
    after: RequestView,
)
    requires
        body_handed_out(before, arrived, body, after),
    ensures
        body_handed_out(after, Seq::empty(), Seq::empty(), after),
{
    lemma_merge_empty(after);
}

/// Asking for the head loses no bytes: the body handed out afterwards holds
/// what was pending before, then what arrived before the head was asked for,
/// then what arrived since.
pub proof fn law_head_keeps_the_body(
    before: RequestView,
    earlier: Seq<RequestView>,
    later: Seq<RequestView>,
    head: RequestView,
    between: RequestView,
    body: Seq<u8>,
    after: RequestView,
)
    requires
        head_handed_out(before, earlier, head, between),
        body_handed_out(between, later, body, after),
    ensures
        body == before.body + joined_bodies(earlier) + joined_bodies(later),
{
}

/// Asking for the body loses no head: the head handed out afterwards is the
/// most recent one among what was pending and what arrived.
pub proof fn law_body_keeps_the_head(
    before: RequestView,
    earlier: Seq<RequestView>,
    later: Seq<RequestView>,
    body: Seq<u8>,
    between: RequestView,
    head: RequestView,
    after: RequestView,
)
    requires
        body_handed_out(before, earlier, body, between),
        head_handed_out(between, later, head, after),
    ensures
        head == before.merge(gathered(earlier + later)).head(),
{
    law_gathered_concat(earlier, later);
    lemma_merge_associative(before, gathered(earlier), gathered(later));
    let all = before.merge(gathered(earlier));
    let left = all.head().merge(gathered(later)).head();
    let right = all.merge(gathered(later)).head();
    assert(left == right);
}

/// How the records arrive in batches does not matter to what two calls of
/// `next_body` hand out together.
pub proof fn law_body_batches_are_irrelevant(
    before: RequestView,
    earlier: Seq<RequestView>,
    later: Seq<RequestView>,
    first: Seq<u8>,
    between: RequestView,
    second: Seq<u8>,
    after: RequestView,
    whole: Seq<u8>,
    at_once: RequestView,
)
    requires
        body_handed_out(before, earlier, first, between),
        body_handed_out(between, later, second, after),
        body_handed_out(before, earlier + later, whole, at_once),
    ensures
        first + second == whole,
        after == at_once,
{
    law_gathered_concat(earlier, later);
    lemma_merge_associative(before, gathered(earlier), gathered(later));
    let all = before.merge(gathered(earlier));
    assert(first + second =~= whole);
    assert(all.head().merge(gathered(later)).head() == all.merge(gathered(later)).head());
}

/// With nothing scripted the response is the empty one.
pub proof fn law_nothing_scripted()
    ensures
        ResponseView::scripted(Seq::empty()) == ResponseView::empty(),
{
}

/// A directive overwrites the field it names, whatever was scripted before,
/// and leaves the other two fields as they were.
pub proof fn law_last_directive_wins(script: Seq<DirectiveView>, directive: DirectiveView)
    ensures
        match directive {
            DirectiveView::SetStatus(code) => {
                &&& ResponseView::scripted(script.push(directive)).status == Some(code)
                &&& ResponseView::scripted(script.push(directive)).headers
                    == ResponseView::scripted(script).headers
                &&& ResponseView::scripted(script.push(directive)).body == ResponseView::scripted(
                    script,
                ).body
            },
            DirectiveView::SetHeaders(headers) => {
                &&& ResponseView::scripted(script.push(directive)).headers == headers
                &&& ResponseView::scripted(script.push(directive)).status
                    == ResponseView::scripted(script).status
                &&& ResponseView::scripted(script.push(directive)).body == ResponseView::scripted(
                    script,
                ).body
            },
            DirectiveView::SetBody(body) => {
                &&& ResponseView::scripted(script.push(directive)).body == body
                &&& ResponseView::scripted(script.push(directive)).status
                    == ResponseView::scripted(script).status
                &&& ResponseView::scripted(script.push(directive)).headers
                    == ResponseView::scripted(script).headers
            },
        },
{
    lemma_scripted_push(script, directive);
}

/// Of two header sets scripted one after the other only the second is sent:
/// header sets replace one another, they are not merged.
pub proof fn law_later_headers_replace_earlier(
    script: Seq<DirectiveView>,
    first: Seq<(Seq<char>, Seq<char>)>,
    second: Seq<(Seq<char>, Seq<char>)>,
)
    ensures
        ResponseView::scripted(
            script.push(DirectiveView::SetHeaders(first)).push(DirectiveView::SetHeaders(second)),
        ).headers == second,
{
    lemma_scripted_push(
        script.push(DirectiveView::SetHeaders(first)),
        DirectiveView::SetHeaders(second),
    );
}

/// A status and a body, scripted on their own, give a response with that
/// status, that body and no headers.
pub proof fn law_status_then_body(code: u16, body: Seq<u8>)
    ensures
        ResponseView::scripted(seq![DirectiveView::SetStatus(code), DirectiveView::SetBody(body)])
            == (ResponseView { status: Some(code), headers: Seq::empty(), body }),
{
    let first = seq![DirectiveView::SetStatus(code)];
    assert(first =~= Seq::<DirectiveView>::empty().push(DirectiveView::SetStatus(code)));
    assert(seq![DirectiveView::SetStatus(code), DirectiveView::SetBody(body)] =~= first.push(
        DirectiveView::SetBody(body),
    ));
    lemma_scripted_push(Seq::empty(), DirectiveView::SetStatus(code));
    lemma_scripted_push(first, DirectiveView::SetBody(body));
}

/// The status of a response is `code` exactly if some directive sets it to
/// `code` and no later directive sets a status.
pub proof fn law_status_is_last_set(script: Seq<DirectiveView>, code: u16)
    ensures
        last_status(script) == Some(code) <==> exists|i: int|
            0 <= i < script.len() && #[trigger] script[i] == DirectiveView::SetStatus(code)
                && forall|j: int| i < j < script.len() ==> !(#[trigger] script[j] is SetStatus),
        last_status(script) is None <==> forall|i: int|
            0 <= i < script.len() ==> !(#[trigger] script[i] is SetStatus),
    decreases script.len(),
{
    if script.len() > 0 {
        let front = script.drop_last();
        let at = script.len() - 1;
        law_status_is_last_set(front, code);
        assert(forall|i: int| 0 <= i < front.len() ==> front[i] == script[i]);
        if script.last() is SetStatus {
            assert(script[at] is SetStatus);
            if last_status(script) == Some(code) {
                assert(script[at] == DirectiveView::SetStatus(code));
            }
            if exists|i: int|
                0 <= i < script.len() && #[trigger] script[i] == DirectiveView::SetStatus(code)
                    && forall|j: int| i < j < script.len() ==> !(#[trigger] script[j] is SetStatus) {
                let i = choose|i: int|
                    0 <= i < script.len() && #[trigger] script[i] == DirectiveView::SetStatus(code)
                        && forall|j: int|
                        i < j < script.len() ==> !(#[trigger] script[j] is SetStatus);
                if i < at {
                    assert(!(script[at] is SetStatus));
                }
            }
        } else {
            if last_status(front) == Some(code) {
                let i = choose|i: int|
                    0 <= i < front.len() && #[trigger] front[i] == DirectiveView::SetStatus(code)
                        && forall|j: int|
                        i < j < front.len() ==> !(#[trigger] front[j] is SetStatus);
                assert(script[i] == DirectiveView::SetStatus(code));
                assert forall|j: int| i < j < script.len() implies !(#[trigger] script[j]
                    is SetStatus) by {
                    if j < at {
                        assert(front[j] == script[j]);
                    }
                }
            }
            if exists|i: int|
                0 <= i < script.len() && #[trigger] script[i] == DirectiveView::SetStatus(code)
                    && forall|j: int| i < j < script.len() ==> !(#[trigger] script[j] is SetStatus) {
                let i = choose|i: int|
                    0 <= i < script.len() && #[trigger] script[i] == DirectiveView::SetStatus(code)
                        && forall|j: int|
                        i < j < script.len() ==> !(#[trigger] script[j] is SetStatus);
                assert(i < at);
                assert(front[i] == DirectiveView::SetStatus(code));
                assert forall|j: int| i < j < front.len() implies !(#[trigger] front[j]
                    is SetStatus) by {
                    assert(front[j] == script[j]);
                }
            }
            if last_status(front) is None {
                assert forall|i: int| 0 <= i < script.len() implies !(#[trigger] script[i]
                    is SetStatus) by {
                    if i < at {
                        assert(front[i] == script[i]);
                    }
                }
            }
            if forall|i: int| 0 <= i < script.len() ==> !(#[trigger] script[i] is SetStatus) {
                assert forall|i: int| 0 <= i < front.len() implies !(#[trigger] front[i]
                    is SetStatus) by {
                    assert(front[i] == script[i]);
                }
            }
        }
    }
}

} // verus!
