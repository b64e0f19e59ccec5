use crossbeam::channel;
use test_server::{ChannelError, Directive, ReplyBuilder, Response};

fn header(name: &str, value: &str) -> (String, String) {
    (name.to_string(), value.to_string())
}

#[test]
fn empty_response_has_nothing_set() {
    let r = Response::new();
    assert_eq!(r.status, None);
    assert!(r.headers.is_empty());
    assert!(r.body.is_empty());
    assert_eq!(Response::default(), r);
    assert_eq!(Response::assemble(Vec::new()), r);
}

#[test]
fn directive_constructors() {
    assert_eq!(Directive::status(201), Directive::SetStatus(201));
    assert_eq!(
        Directive::header("X", "1"),
        Directive::SetHeaders(vec![header("X", "1")])
    );
    assert_eq!(
        Directive::body(b"ok".to_vec()),
        Directive::SetBody(b"ok".to_vec())
    );
}

#[test]
fn apply_overwrites_one_field() {
    let mut r = Response::new();
    r.apply(Directive::SetStatus(500));
    assert_eq!(
        r,
        Response { status: Some(500), headers: vec![], body: vec![] }
    );
    r.apply(Directive::SetBody(vec![1, 2]));
    assert_eq!(
        r,
        Response { status: Some(500), headers: vec![], body: vec![1, 2] }
    );
    r.apply(Directive::SetHeaders(vec![header("a", "b"), header("c", "d")]));
    assert_eq!(
        r,
        Response {
            status: Some(500),
            headers: vec![header("a", "b"), header("c", "d")],
            body: vec![1, 2],
        }
    );
    r.apply(Directive::SetStatus(200));
    r.apply(Directive::SetBody(vec![]));
    r.apply(Directive::SetHeaders(vec![]));
    assert_eq!(
        r,
        Response { status: Some(200), headers: vec![], body: vec![] }
    );
}

#[test]
fn status_404_and_body_nope() {
    let r = Response::assemble(vec![
        Directive::status(404),
        Directive::body(b"nope".to_vec()),
    ]);
    assert_eq!(
        r,
        Response { status: Some(404), headers: vec![], body: b"nope".to_vec() }
    );
}

#[test]
fn second_header_call_replaces_the_first() {
    let r = Response::assemble(vec![
        Directive::header("X", "1"),
        Directive::header("X", "2"),
    ]);
    assert_eq!(r.headers, vec![header("X", "2")]);

    let r = Response::assemble(vec![
        Directive::header("X", "1"),
        Directive::header("Y", "2"),
    ]);
    assert_eq!(r.headers, vec![header("Y", "2")]);
}

#[test]
fn last_directive_of_each_kind_wins() {
    let r = Response::assemble(vec![
        Directive::SetBody(b"first".to_vec()),
        Directive::SetStatus(200),
        Directive::SetHeaders(vec![header("a", "1")]),
        Directive::SetStatus(503),
        Directive::SetBody(b"second".to_vec()),
        Directive::SetHeaders(vec![header("b", "2"), header("b", "3")]),
    ]);
    assert_eq!(
        r,
        Response {
            status: Some(503),
            headers: vec![header("b", "2"), header("b", "3")],
            body: b"second".to_vec(),
        }
    );
}

#[test]
fn builder_enqueues_in_call_order() {
    let (tx, rx) = channel::unbounded();
    let builder = ReplyBuilder::new(&tx, true);
    let done = builder
        .status(201)
        .and_then(|b| b.header("X", "1"))
        .and_then(|b| b.header("X", "2"))
        .and_then(|b| b.body(b"ok".to_vec()));
    assert_eq!(done, Ok(()));

    let queued: Vec<Directive> = rx.try_iter().collect();
    assert_eq!(
        queued,
        vec![
            Directive::SetStatus(201),
            Directive::SetHeaders(vec![header("X", "1")]),
            Directive::SetHeaders(vec![header("X", "2")]),
            Directive::SetBody(b"ok".to_vec()),
        ]
    );
}

#[test]
fn builder_fails_once_the_worker_is_gone() {
    let (tx, rx) = channel::unbounded::<Directive>();
    drop(rx);
    assert_eq!(
        ReplyBuilder::new(&tx, true).status(200).err(),
        Some(ChannelError::Closed)
    );
    assert_eq!(
        ReplyBuilder::new(&tx, true).header("a", "b").err(),
        Some(ChannelError::Closed)
    );
    assert_eq!(
        ReplyBuilder::new(&tx, true).body(vec![]),
        Err(ChannelError::Closed)
    );
}

#[test]
fn closed_builder_does_not_touch_the_queue() {
    let (tx, rx) = channel::unbounded::<Directive>();
    assert_eq!(
        ReplyBuilder::new(&tx, false).status(200).err(),
        Some(ChannelError::Closed)
    );
    assert_eq!(
        ReplyBuilder::new(&tx, false).header("a", "b").err(),
        Some(ChannelError::Closed)
    );
    assert_eq!(
        ReplyBuilder::new(&tx, false).body(vec![1]),
        Err(ChannelError::Closed)
    );
    assert_eq!(rx.len(), 0);
}

#[test]
fn builder_reports_a_full_queue() {
    let (tx, rx) = channel::bounded::<Directive>(1);
    let builder = ReplyBuilder::new(&tx, true).status(200).expect("room for one");
    assert_eq!(builder.body(vec![]), Err(ChannelError::Full));
    assert_eq!(rx.len(), 1);
}

#[test]
fn wire_status_defaults_to_200() {
    assert_eq!(test_server::wire_status(None), 200);
}

#[test]
fn wire_status_keeps_a_three_digit_code() {
    assert_eq!(test_server::wire_status(Some(100)), 100);
    assert_eq!(test_server::wire_status(Some(201)), 201);
    assert_eq!(test_server::wire_status(Some(404)), 404);
    assert_eq!(test_server::wire_status(Some(999)), 999);
}

#[test]
fn wire_status_turns_any_other_code_into_500() {
    assert_eq!(test_server::wire_status(Some(0)), 500);
    assert_eq!(test_server::wire_status(Some(99)), 500);
    assert_eq!(test_server::wire_status(Some(1000)), 500);
    assert_eq!(test_server::wire_status(Some(u16::MAX)), 500);
}
