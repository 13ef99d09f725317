use mpsc_channel::channel;

#[test]
fn ping_pong() {
    let (mut tx, mut rx) = channel();
    tx.send(42);
    assert_eq!(rx.receive(), Some(42));
}

#[test]
fn closed() {
    let (tx, mut rx) = channel::<()>();
    drop(tx);
    assert_eq!(rx.receive(), None);
}

#[test]
fn values_come_out_in_send_order() {
    let (mut tx, mut rx) = channel();
    for v in [3, 1, 4, 1, 5, 9, 2, 6] {
        tx.send(v);
    }
    drop(tx);
    let mut got = Vec::new();
    while let Some(v) = rx.receive() {
        got.push(v);
    }
    assert_eq!(got, vec![3, 1, 4, 1, 5, 9, 2, 6]);
}

#[test]
fn clone_keeps_channel_open_until_last_drop() {
    let (tx, mut rx) = channel();
    let mut tx2 = tx.clone();
    drop(tx);
    tx2.send(7);
    assert_eq!(rx.receive(), Some(7));
    drop(tx2);
    assert_eq!(rx.receive(), None);
}

#[test]
fn values_sent_before_closure_are_still_received() {
    let (mut tx, mut rx) = channel();
    tx.send(String::from("a"));
    tx.send(String::from("b"));
    drop(tx);
    assert_eq!(rx.receive(), Some(String::from("a")));
    assert_eq!(rx.receive(), Some(String::from("b")));
    assert_eq!(rx.receive(), None);
    assert_eq!(rx.receive(), None);
}

#[test]
fn many_clones_dropped_close_once() {
    let (tx, mut rx) = channel::<u8>();
    let clones: Vec<_> = (0..5).map(|_| tx.clone()).collect();
    drop(tx);
    for mut c in clones {
        c.send(1);
    }
    let mut count = 0;
    while let Some(v) = rx.receive() {
        assert_eq!(v, 1);
        count += 1;
    }
    assert_eq!(count, 5);
    assert_eq!(rx.receive(), None);
}

#[test]
fn none_is_a_value_not_closure() {
    let (mut tx, mut rx) = channel::<Option<u8>>();
    tx.send(None);
    assert_eq!(rx.receive(), Some(None));
    drop(tx);
    assert_eq!(rx.receive(), None);
}

#[test]
fn ten_producers_each_send_one_value() {
    let (tx, mut rx) = channel();
    let producers: Vec<_> = (0..10).map(|_| tx.clone()).collect();
    drop(tx);
    for (i, mut p) in producers.into_iter().enumerate().rev() {
        p.send(i as i32);
    }
    let mut got = Vec::new();
    while let Some(v) = rx.receive() {
        got.push(v);
    }
    got.sort();
    assert_eq!(got, (0..10).collect::<Vec<i32>>());
    assert_eq!(rx.receive(), None);
}

#[test]
fn clone_feeds_the_same_queue() {
    let (mut s, mut rx) = channel::<i32>();
    let mut c = s.clone();
    s.send(1);
    c.send(2);
    assert_eq!(rx.receive(), Some(1));
    assert_eq!(rx.receive(), Some(2));
}
