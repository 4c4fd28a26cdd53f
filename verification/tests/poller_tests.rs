use kinesis_tail::cursor::FetchOutcome;
use kinesis_tail::cursor::Record;
use kinesis_tail::cursor::ShardCursor;
use kinesis_tail::poller::Action;
use kinesis_tail::poller::Event;
use kinesis_tail::poller::Phase;
use kinesis_tail::poller::Poller;

fn record(bytes: &[u8]) -> Record {
    Record::new(bytes.to_vec())
}

fn batch(payloads: &[&[u8]], next: Option<&str>) -> Event {
    Event::Batch {
        outcome: FetchOutcome {
            records: payloads.iter().map(|p| record(p)).collect(),
            next_token: next.map(String::from),
        },
    }
}

#[test]
fn startup_one_describe_then_one_init_per_shard() {
    let mut p = Poller::new(String::from("events"));
    assert_eq!(p.next_action(), Action::Describe);

    let out = p.apply(Event::Shards {
        ids: vec![String::from("shard-a"), String::from("shard-b")],
    });
    assert!(out.is_empty());

    assert_eq!(p.next_action(), Action::Init { shard: 0 });
    assert_eq!(p.init_target(), "shard-a");
    let out = p.apply(Event::Cursor {
        token: Some(String::from("tok-a")),
    });
    assert!(out.is_empty());

    assert_eq!(p.next_action(), Action::Init { shard: 1 });
    assert_eq!(p.init_target(), "shard-b");
    let out = p.apply(Event::Cursor {
        token: Some(String::from("tok-b")),
    });
    assert!(out.is_empty());

    assert_eq!(p.phase, Phase::Polling);
    assert_eq!(p.next_action(), Action::Fetch { shard: 0 });
}

#[test]
fn exhausted_shard_is_never_fetched_again() {
    let mut p = Poller::new(String::from("events"));
    p.apply(Event::Shards {
        ids: vec![String::from("shard-a")],
    });
    p.apply(Event::Cursor {
        token: Some(String::from("tok-a")),
    });

    assert_eq!(p.next_action(), Action::Fetch { shard: 0 });
    let out = p.apply(batch(&[], None));
    assert!(out.is_empty());
    assert_eq!(p.cursors[0].token, None);

    for _round in 0..5 {
        assert_eq!(p.next_action(), Action::Skip { shard: 0 });
        let out = p.apply(Event::Pass);
        assert!(out.is_empty());
    }
}

#[test]
fn consecutive_fetches_preserve_append_order() {
    let mut p = Poller::new(String::from("events"));
    p.apply(Event::Shards {
        ids: vec![String::from("shard-a")],
    });
    p.apply(Event::Cursor {
        token: Some(String::from("tok-0")),
    });

    let first = p.apply(batch(&[b"one", b"two"], Some("tok-1")));
    let payloads: Vec<&[u8]> = first.iter().map(|r| r.data.as_slice()).collect();
    assert_eq!(payloads, vec![b"one".as_slice(), b"two".as_slice()]);

    let second = p.apply(batch(&[b"three"], Some("tok-2")));
    let payloads: Vec<&[u8]> = second.iter().map(|r| r.data.as_slice()).collect();
    assert_eq!(payloads, vec![b"three".as_slice()]);
}

#[test]
fn fetch_uses_current_token_and_advances_it() {
    let mut p = Poller::new(String::from("events"));
    p.apply(Event::Shards {
        ids: vec![String::from("shard-a")],
    });
    p.apply(Event::Cursor {
        token: Some(String::from("A")),
    });

    assert_eq!(p.next_action(), Action::Fetch { shard: 0 });
    assert_eq!(p.fetch_token(), "A");
    let out = p.apply(batch(&[b"{\"x\":1}"], Some("B")));
    assert_eq!(out.len(), 1);
    assert_eq!(p.cursors[0].token.as_deref(), Some("B"));
}

#[test]
fn failed_fetch_blocks_the_round() {
    // Shard a's fetch fails: the driver applies no event and aborts. The
    // machine still stands at shard a; shard b was never asked for.
    let mut p = Poller::new(String::from("events"));
    p.apply(Event::Shards {
        ids: vec![String::from("shard-a"), String::from("shard-b")],
    });
    p.apply(Event::Cursor {
        token: Some(String::from("tok-a")),
    });
    p.apply(Event::Cursor {
        token: Some(String::from("tok-b")),
    });

    assert_eq!(p.next_action(), Action::Fetch { shard: 0 });
    // The transport error happens here; no event is fed back.
    assert_eq!(p.next_action(), Action::Fetch { shard: 0 });
    assert_eq!(p.current, 0);
}

#[test]
fn round_robin_visits_shards_in_order() {
    let mut p = Poller::new(String::from("events"));
    p.apply(Event::Shards {
        ids: vec![String::from("shard-a"), String::from("shard-b")],
    });
    p.apply(Event::Cursor {
        token: Some(String::from("a0")),
    });
    p.apply(Event::Cursor {
        token: Some(String::from("b0")),
    });

    assert_eq!(p.next_action(), Action::Fetch { shard: 0 });
    p.apply(batch(&[], Some("a1")));
    assert_eq!(p.next_action(), Action::Fetch { shard: 1 });
    p.apply(batch(&[], Some("b1")));
    assert_eq!(p.next_action(), Action::Fetch { shard: 0 });
    assert_eq!(p.fetch_token(), "a1");
}

#[test]
fn stream_with_no_shards_idles() {
    let mut p = Poller::new(String::from("events"));
    p.apply(Event::Shards { ids: vec![] });
    assert_eq!(p.phase, Phase::Polling);
    for _round in 0..3 {
        assert_eq!(p.next_action(), Action::Skip { shard: 0 });
        let out = p.apply(Event::Pass);
        assert!(out.is_empty());
    }
}

#[test]
fn init_without_token_starts_exhausted() {
    let mut p = Poller::new(String::from("events"));
    p.apply(Event::Shards {
        ids: vec![String::from("shard-a")],
    });
    p.apply(Event::Cursor { token: None });
    assert_eq!(p.phase, Phase::Polling);
    assert_eq!(p.next_action(), Action::Skip { shard: 0 });
}

#[test]
fn cursor_absorb_returns_batch_and_takes_successor() {
    let mut c = ShardCursor::new(Some(String::from("A")));
    assert!(c.is_active());
    let out = c.absorb(FetchOutcome {
        records: vec![record(b"r1"), record(b"r2")],
        next_token: None,
    });
    assert_eq!(out.len(), 2);
    assert_eq!(out[0].data, b"r1".to_vec());
    assert_eq!(out[1].data, b"r2".to_vec());
    assert!(!c.is_active());
}

#[test]
fn one_shard_one_record_prints_one_block() {
    // One shard with initial cursor "A"; the fetch returns one record
    // {"x":1} and successor "B": one separated block comes out and the
    // cursor advances to "B".
    let mut p = Poller::new(String::from("events"));
    p.apply(Event::Shards {
        ids: vec![String::from("shard-a")],
    });
    p.apply(Event::Cursor {
        token: Some(String::from("A")),
    });

    assert_eq!(p.fetch_token(), "A");
    let out = p.apply(batch(&[b"{\"x\":1}"], Some("B")));
    assert_eq!(out.len(), 1);

    let pretty = kinesis_tail::render::render_payload(&out[0].data).unwrap();
    let block = kinesis_tail::render::format_block(&pretty);
    assert_eq!(block, "--\n{\n  \"x\": 1\n}");
    assert_eq!(p.cursors[0].token.as_deref(), Some("B"));
}

#[test]
fn latest_policy_is_the_service_word() {
    assert_eq!(kinesis_tail::poller::latest_start_position(), "LATEST");
}

#[test]
fn stream_name_is_kept() {
    let p = Poller::new(String::from("my-stream"));
    assert_eq!(p.stream_name(), "my-stream");
}
