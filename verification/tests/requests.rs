use crossbeam::channel;
use std::rc::Rc;
use test_server::{Query, Request, RequestReceiver};

fn add_request(tx: channel::Sender<Request>) {
    if let Err(err) = tx.send(Request {
        body: Vec::new(),
        headers: Vec::new(),
        method: String::new(),
        path: String::new(),
        query: Query::new(),
    }) {
        println!("Failed to send Request");
        println!("{}", err);
    }
}

#[test]
fn request_receiver_is_empty() {
    let (tx, rx) = channel::unbounded();
    let rr = RequestReceiver { rx: Rc::new(rx) };

    assert!(rr.is_empty());

    add_request(tx);

    assert!(!rr.is_empty());
}

#[test]
fn request_reciever_len() {
    let (tx, rx) = channel::unbounded();
    let rr = RequestReceiver { rx: Rc::new(rx) };

    assert_eq!(rr.len(), 0);

    add_request(tx);

    assert_eq!(rr.len(), 1);
}

#[test]
fn request_reciever_next() {
    let (tx, rx) = channel::unbounded();
    let rr = RequestReceiver { rx: Rc::new(rx) };

    assert!(rr.next().is_none());

    add_request(tx);

    assert!(rr.next().is_some());
}

fn text(s: &str) -> String {
    s.to_string()
}

#[test]
fn shared_request_comes_out_as_it_went_in() {
    let (tx, rx) = channel::unbounded();
    let share = test_server::ShareRequest::new(tx);
    let rr = RequestReceiver { rx: Rc::new(rx) };

    let mut query = Query::new();
    query.insert(text("y"), text("1"));
    let sent = Request::from_head(
        text("GET"),
        text("/x"),
        query,
        vec![(text("accept"), text("*/*"))],
    );
    assert_eq!(share.share(sent), Ok(()));

    let got = rr.next().expect("one record was shared");
    assert_eq!(got.method, "GET");
    assert_eq!(got.path, "/x");
    assert_eq!(got.query.get(&text("y")), Some(&text("1")));
    assert_eq!(got.headers, vec![(text("accept"), text("*/*"))]);
    assert!(got.body.is_empty());
    assert!(rr.next().is_none());
}

#[test]
fn records_come_out_oldest_first() {
    let (tx, rx) = channel::unbounded();
    let share = test_server::ShareRequest::new(tx);
    let rr = RequestReceiver { rx: Rc::new(rx) };

    assert_eq!(share.share(Request::from_chunk(vec![1])), Ok(()));
    assert_eq!(share.share(Request::from_chunk(vec![2])), Ok(()));
    assert_eq!(share.share(Request::from_chunk(vec![3])), Ok(()));
    assert_eq!(rr.len(), 3);

    let batch = rr.drain();
    let bodies: Vec<Vec<u8>> = batch.into_iter().map(|r| r.body).collect();
    assert_eq!(bodies, vec![vec![1], vec![2], vec![3]]);
    assert!(rr.is_empty());
    assert!(rr.drain().is_empty());
}

#[test]
fn share_fails_once_the_receiver_is_gone() {
    let (tx, rx) = channel::unbounded::<Request>();
    let share = test_server::ShareRequest::new(tx);
    drop(rx);
    assert_eq!(
        share.share(Request::new()),
        Err(test_server::ChannelError::Closed)
    );
}

#[test]
fn share_fails_when_a_bounded_queue_is_full() {
    let (tx, rx) = channel::bounded::<Request>(1);
    let share = test_server::ShareRequest::new(tx);
    assert_eq!(share.share(Request::new()), Ok(()));
    assert_eq!(
        share.share(Request::new()),
        Err(test_server::ChannelError::Full)
    );
    assert_eq!(rx.len(), 1);
}

#[test]
fn new_request_is_empty() {
    let r = Request::new();
    assert!(r.body.is_empty());
    assert!(r.headers.is_empty());
    assert!(r.method.is_empty());
    assert!(r.path.is_empty());
    assert!(r.query.is_empty());
    assert!(!r.has_head());

    let d = Request::default();
    assert!(d.body.is_empty() && !d.has_head());
}

#[test]
fn has_head_looks_at_every_head_field() {
    assert!(!Request::from_chunk(vec![1, 2, 3]).has_head());
    assert!(Request::from_head(text("GET"), text(""), Query::new(), vec![]).has_head());
    assert!(Request::from_head(text(""), text("/"), Query::new(), vec![]).has_head());
    assert!(
        Request::from_head(text(""), text(""), Query::new(), vec![(text("a"), text("b"))])
            .has_head()
    );
    let mut query = Query::new();
    query.insert(text("k"), text("v"));
    assert!(Request::from_head(text(""), text(""), query, vec![]).has_head());
}

#[test]
fn absorb_appends_bytes_and_replaces_the_head() {
    let mut all = Request::new();
    all.absorb(Request::from_chunk(vec![1, 2]));
    all.absorb(Request::from_head(text("PUT"), text("/a"), Query::new(), vec![]));
    all.absorb(Request::from_chunk(vec![3]));
    assert_eq!(all.body, vec![1, 2, 3]);
    assert_eq!(all.method, "PUT");
    assert_eq!(all.path, "/a");

    all.absorb(Request::from_head(text("GET"), text("/b"), Query::new(), vec![]));
    assert_eq!(all.body, vec![1, 2, 3]);
    assert_eq!(all.method, "GET");
    assert_eq!(all.path, "/b");
}

#[test]
fn gather_adds_fragments_up() {
    let fragments = vec![
        Request::from_chunk(b"he".to_vec()),
        Request::from_chunk(b"".to_vec()),
        Request::from_chunk(b"llo".to_vec()),
        Request::from_head(
            text("POST"),
            text("/submit"),
            Query::new(),
            vec![(text("content-type"), text("text/plain"))],
        ),
    ];
    let whole = Request::gather(fragments);
    assert_eq!(whole.body, b"hello".to_vec());
    assert_eq!(whole.method, "POST");
    assert_eq!(whole.path, "/submit");
    assert_eq!(whole.headers, vec![(text("content-type"), text("text/plain"))]);

    let nothing = Request::gather(Vec::new());
    assert!(nothing.body.is_empty() && !nothing.has_head());
}

#[test]
fn gather_is_the_same_in_two_batches() {
    let first = vec![
        Request::from_chunk(vec![1]),
        Request::from_head(text("GET"), text("/one"), Query::new(), vec![]),
    ];
    let second = vec![Request::from_chunk(vec![2]), Request::from_chunk(vec![3])];
    let mut in_two = Request::gather(first);
    in_two.absorb(Request::gather(second));

    let at_once = Request::gather(vec![
        Request::from_chunk(vec![1]),
        Request::from_head(text("GET"), text("/one"), Query::new(), vec![]),
        Request::from_chunk(vec![2]),
        Request::from_chunk(vec![3]),
    ]);
    assert_eq!(in_two.body, at_once.body);
    assert_eq!(in_two.method, at_once.method);
    assert_eq!(in_two.path, at_once.path);
}

#[test]
fn take_head_leaves_the_body_and_take_body_leaves_the_head() {
    let mut all = Request::gather(vec![
        Request::from_chunk(vec![9, 8]),
        Request::from_head(text("GET"), text("/p"), Query::new(), vec![]),
    ]);
    let head = all.take_head();
    assert_eq!(head.method, "GET");
    assert_eq!(head.path, "/p");
    assert!(head.body.is_empty());
    assert!(!all.has_head());
    assert_eq!(all.body, vec![9, 8]);

    let mut again = Request::gather(vec![
        Request::from_chunk(vec![9, 8]),
        Request::from_head(text("GET"), text("/p"), Query::new(), vec![]),
    ]);
    let body = again.take_body();
    assert_eq!(body, vec![9, 8]);
    assert!(again.body.is_empty());
    assert_eq!(again.method, "GET");
    assert_eq!(again.path, "/p");
}

#[test]
fn none_waiting_is_true_of_zero_only() {
    assert!(test_server::none_waiting(0));
    assert!(!test_server::none_waiting(1));
    assert!(!test_server::none_waiting(2));
    assert!(!test_server::none_waiting(usize::MAX));
}

#[test]
fn captured_of_nothing_is_none() {
    assert!(Request::captured(Vec::new()).is_none());
}

#[test]
fn captured_adds_a_batch_up() {
    let whole = Request::captured(vec![
        Request::from_chunk(b"ab".to_vec()),
        Request::from_chunk(b"cd".to_vec()),
        Request::from_head(text("POST"), text("/p"), Query::new(), vec![]),
    ])
    .expect("the batch is not empty");
    assert_eq!(whole.body, b"abcd".to_vec());
    assert_eq!(whole.method, "POST");
    assert_eq!(whole.path, "/p");

    let only_bytes = Request::captured(vec![Request::from_chunk(Vec::new())])
        .expect("one record, though an empty one");
    assert!(only_bytes.body.is_empty());
    assert!(!only_bytes.has_head());
}

#[test]
fn next_hands_out_the_whole_request() {
    let (tx, rx) = channel::unbounded();
    let share = test_server::ShareRequest::new(tx);
    let rr = RequestReceiver { rx: Rc::new(rx) };

    assert_eq!(share.share(Request::from_chunk(b"hel".to_vec())), Ok(()));
    assert_eq!(share.share(Request::from_chunk(b"lo".to_vec())), Ok(()));
    let mut query = Query::new();
    query.insert(text("y"), text("1"));
    assert_eq!(
        share.share(Request::from_head(
            text("POST"),
            text("/x"),
            query,
            vec![(text("content-type"), text("text/plain"))],
        )),
        Ok(())
    );

    let got = rr.next().expect("one request was captured");
    assert_eq!(got.method, "POST");
    assert_eq!(got.path, "/x");
    assert_eq!(got.query.len(), 1);
    assert_eq!(got.query.get(&text("y")), Some(&text("1")));
    assert_eq!(got.headers, vec![(text("content-type"), text("text/plain"))]);
    assert_eq!(got.body, b"hello".to_vec());

    assert!(rr.is_empty());
    assert!(rr.next().is_none());
}

#[test]
fn next_gives_the_same_for_one_chunk_as_for_many() {
    let (tx, rx) = channel::unbounded();
    let share = test_server::ShareRequest::new(tx);
    let rr = RequestReceiver { rx: Rc::new(rx) };

    assert_eq!(share.share(Request::from_chunk(b"hello".to_vec())), Ok(()));
    assert_eq!(
        share.share(Request::from_head(text("PUT"), text("/"), Query::new(), vec![])),
        Ok(())
    );
    let one = rr.next().expect("captured");

    for chunk in [&b"h"[..], &b""[..], &b"ell"[..], &b"o"[..]] {
        assert_eq!(share.share(Request::from_chunk(chunk.to_vec())), Ok(()));
    }
    assert_eq!(
        share.share(Request::from_head(text("PUT"), text("/"), Query::new(), vec![])),
        Ok(())
    );
    let many = rr.next().expect("captured");

    assert_eq!(one.body, many.body);
    assert_eq!(one.method, many.method);
    assert_eq!(one.path, many.path);
}

#[test]
fn next_takes_all_that_waits_and_gives_the_most_recent_head() {
    let (tx, rx) = channel::unbounded();
    let share = test_server::ShareRequest::new(tx);
    let rr = RequestReceiver { rx: Rc::new(rx) };

    for path in ["/old", "/mid", "/new"] {
        assert_eq!(
            share.share(Request::from_head(text("GET"), text(path), Query::new(), vec![])),
            Ok(())
        );
    }
    assert_eq!(rr.len(), 3);
    let got = rr.next().expect("three records waited");
    assert_eq!(got.path, "/new");
    assert_eq!(rr.len(), 0);
    assert!(rr.next().is_none());
}

#[test]
fn next_after_the_sender_is_gone_is_none() {
    let (tx, rx) = channel::unbounded::<Request>();
    let rr = RequestReceiver { rx: Rc::new(rx) };
    drop(tx);
    assert!(rr.next().is_none());
    assert_eq!(rr.len(), 0);
    assert!(rr.is_empty());
}
