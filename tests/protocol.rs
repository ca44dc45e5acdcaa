use rqueue::{
    next_pop_step, Arg, Codec, PopRule, PopStep, QueueConfig, QueueEntry, QueueError,
    QueueProtocol,
};

fn config(names: &[&str], rule: PopRule, codec: Codec) -> QueueConfig {
    let mut c = QueueConfig::default();
    c.queue_names = names.iter().map(|n| String::from(*n)).collect();
    c.pop_rule = rule;
    c.codec = codec;
    c
}

#[test]
fn push_goes_to_first_queue() {
    let p = QueueProtocol::new(&config(&["A", "B"], PopRule::PopMin, Codec::Json));
    assert_eq!(p.push_target(), "A");
    let (name, cmd) = p.push_command(vec![1, 2], -5);
    assert_eq!(name, "A");
    assert_eq!(cmd.name, "ZADD");
    assert_eq!(
        cmd.args,
        vec![Arg::Text(String::from("A")), Arg::Signed(-5), Arg::Bytes(vec![1, 2])]
    );
}

#[test]
fn encode_push_encodes_with_codec() {
    let p = QueueProtocol::new(&config(&["q"], PopRule::PopMin, Codec::Json));
    let (name, cmd) = p.encode_push("data", 3).unwrap();
    assert_eq!(name, "q");
    assert_eq!(cmd.args[2], Arg::Bytes(b"\"data\"".to_vec()));

    let p = QueueProtocol::new(&config(&["q"], PopRule::PopMin, Codec::MsgPack));
    let (_, cmd) = p.encode_push(&7u8, 0).unwrap();
    assert_eq!(cmd.args[2], Arg::Bytes(vec![0x07]));
}

#[test]
fn pop_command_spans_all_queues() {
    let p = QueueProtocol::new(&config(&["A", "B"], PopRule::PopMax, Codec::Json));
    let cmd = p.pop_command(3);
    assert_eq!(cmd.name, "BZPOPMAX");
    assert_eq!(
        cmd.args,
        vec![Arg::Text(String::from("A")), Arg::Text(String::from("B")), Arg::Unsigned(3)]
    );
    let p = QueueProtocol::new(&config(&["A"], PopRule::PopMin, Codec::Json));
    assert_eq!(p.pop_command(0).name, "BZPOPMIN");
}

#[test]
fn length_defaults_to_first_queue() {
    let p = QueueProtocol::new(&config(&["A", "B"], PopRule::PopMin, Codec::Json));
    let (name, cmd) = p.length_command(None);
    assert_eq!(name, "A");
    assert_eq!(cmd.name, "ZCARD");
    assert_eq!(cmd.args, vec![Arg::Text(String::from("A"))]);
    let (name, cmd) = p.length_command(Some(String::from("B")));
    assert_eq!(name, "B");
    assert_eq!(cmd.args, vec![Arg::Text(String::from("B"))]);
}

#[test]
fn clean_deletes_every_queue() {
    let p = QueueProtocol::new(&config(&["A", "B", "C"], PopRule::PopMin, Codec::Json));
    let cmd = p.clean_command();
    assert_eq!(cmd.name, "DEL");
    assert_eq!(
        cmd.args,
        vec![
            Arg::Text(String::from("A")),
            Arg::Text(String::from("B")),
            Arg::Text(String::from("C"))
        ]
    );
}

#[test]
fn reply_keeps_its_queue_name() {
    let p = QueueProtocol::new(&config(&["A", "B"], PopRule::PopMin, Codec::Json));
    let from_b = Some((String::from("B"), b"\"payload-b\"".to_vec(), String::from("1")));
    let entry = p.decode_reply::<String>(from_b).unwrap().unwrap();
    assert_eq!(entry.queue_name, "B");
    assert_eq!(entry.data, "payload-b");
    let from_a = Some((String::from("A"), b"\"payload-a\"".to_vec(), String::from("2")));
    let entry = p.decode_reply::<String>(from_a).unwrap().unwrap();
    assert_eq!(entry.queue_name, "A");
    assert_eq!(entry.data, "payload-a");
}

#[test]
fn empty_reply_is_no_entry() {
    let p = QueueProtocol::new(&config(&["A"], PopRule::PopMin, Codec::MsgPack));
    assert!(p.decode_reply::<String>(None).unwrap().is_none());
}

#[test]
fn undecodable_reply_keeps_bytes() {
    let p = QueueProtocol::new(&config(&["A"], PopRule::PopMin, Codec::Json));
    let reply = Some((String::from("A"), b"{broken".to_vec(), String::from("0")));
    match p.decode_reply::<String>(reply) {
        Err(QueueError::IOError(e)) => assert_eq!(e.data, Some(b"{broken".to_vec())),
        _ => panic!("expected a decoding error"),
    }
}

#[test]
fn push_then_pop_round_trip_through_protocol() {
    let p = QueueProtocol::new(&config(&["only"], PopRule::PopMin, Codec::MsgPack));
    let (name, cmd) = p.encode_push(&vec![5i32, 1, 3], 9).unwrap();
    let bytes = match &cmd.args[2] {
        Arg::Bytes(b) => b.clone(),
        _ => panic!("expected a payload"),
    };
    let entry = p
        .decode_reply::<Vec<i32>>(Some((name.clone(), bytes, String::from("9"))))
        .unwrap()
        .unwrap();
    assert_eq!(entry.queue_name, "only");
    assert_eq!(entry.data, vec![5, 1, 3]);
}

#[test]
fn entry_from_decoded_outcomes() {
    let ok = QueueProtocol::entry_from_decoded(String::from("q"), vec![1], Ok(5u8));
    let e = ok.unwrap().unwrap();
    assert_eq!((e.queue_name.as_str(), e.data), ("q", 5));
    let err = std::io::Error::new(std::io::ErrorKind::InvalidData, "bad");
    match QueueProtocol::entry_from_decoded::<u8>(String::from("q"), vec![9], Err(err)) {
        Err(QueueError::IOError(e)) => assert_eq!(e.data, Some(vec![9])),
        _ => panic!("expected a decoding error"),
    }
}

#[test]
fn blocking_pop_retries_on_timeout_only() {
    assert!(matches!(next_pop_step::<u8>(Ok(None)), PopStep::Retry));
    let entry = QueueEntry { queue_name: String::from("q"), data: 4u8 };
    match next_pop_step(Ok(Some(entry))) {
        PopStep::Done(Ok(e)) => assert_eq!(e.data, 4),
        _ => panic!("expected the entry"),
    }
    let err = QueueError::from(std::io::Error::new(std::io::ErrorKind::InvalidData, "bad"));
    assert!(matches!(next_pop_step::<u8>(Err(err)), PopStep::Done(Err(_))));
}

#[test]
fn errors_convert() {
    let e = QueueError::from(std::io::Error::new(std::io::ErrorKind::InvalidData, "x"));
    assert!(matches!(e, QueueError::IOError(ref io) if io.data.is_none()));
    assert!(!e.is_connectivity());
    let e = QueueError::from(redis::RedisError::from((redis::ErrorKind::Io, "gone")));
    assert!(e.is_connectivity());
    let e = QueueError::from(redis::RedisError::from((redis::ErrorKind::Client, "bad")));
    assert!(!e.is_connectivity());
    let io = rqueue::IOError::new(Some(vec![1]), std::io::Error::new(std::io::ErrorKind::Other, "y"));
    assert_eq!(io.data, Some(vec![1]));
}

#[test]
fn blocking_pop_loop_ends_on_first_entry() {
    let mut outcomes: Vec<Result<Option<QueueEntry<u8>>, QueueError>> = vec![
        Ok(Some(QueueEntry { queue_name: String::from("q"), data: 9 })),
        Ok(None),
        Ok(None),
    ];
    let mut polls = 0;
    let result = loop {
        polls += 1;
        match next_pop_step(outcomes.pop().unwrap()) {
            PopStep::Done(r) => break r,
            PopStep::Retry => {}
        }
    };
    assert_eq!(polls, 3);
    assert_eq!(result.unwrap().data, 9);
}

#[test]
fn timeouts_round_up_to_whole_seconds() {
    assert_eq!(rqueue::timeout_secs(0, 0), 0);
    assert_eq!(rqueue::timeout_secs(0, 500_000_000), 1);
    assert_eq!(rqueue::timeout_secs(3, 0), 3);
    assert_eq!(rqueue::timeout_secs(3, 1), 4);
    assert_eq!(rqueue::timeout_secs(u64::MAX, 1), u64::MAX);
}
