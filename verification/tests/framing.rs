use discord_rpc::errors::DiscordRPCError;
use discord_rpc::ipc_socket::DiscordIPCSocket;

fn frame(opcode: u32, payload: &str) -> Vec<u8> {
    let mut socket = DiscordIPCSocket::new();
    socket.send(payload, opcode).unwrap();
    socket.take_outbound()
}

#[test]
fn send_writes_the_header_and_then_the_payload() {
    let bytes = frame(1, "{\"a\":1}");
    assert_eq!(&bytes[..8], &[1, 0, 0, 0, 7, 0, 0, 0]);
    assert_eq!(&bytes[8..], b"{\"a\":1}");
}

#[test]
fn send_counts_bytes_not_characters() {
    let bytes = frame(0, "héllo ✓");
    assert_eq!("héllo ✓".len(), 10);
    assert_eq!(&bytes[..8], &[0, 0, 0, 0, 10, 0, 0, 0]);
    assert_eq!(&bytes[8..], "héllo ✓".as_bytes());
    assert_eq!(bytes.len(), 18);
}

#[test]
fn send_of_an_empty_payload_is_a_bare_header() {
    assert_eq!(frame(3, ""), vec![3, 0, 0, 0, 0, 0, 0, 0]);
}

#[test]
fn send_uses_a_long_length_field() {
    let payload = "x".repeat(70_000);
    let bytes = frame(1, &payload);
    assert_eq!(&bytes[..8], &[1, 0, 0, 0, 0x70, 0x11, 0x01, 0]);
    assert_eq!(bytes.len(), 70_008);
}

#[test]
fn a_new_socket_needs_a_header() {
    let mut socket = DiscordIPCSocket::new();
    assert_eq!(socket.needed(), 8);
    assert_eq!(socket.recv(), Ok(None));
}

#[test]
fn needed_counts_down_the_header_and_then_the_payload() {
    let bytes = frame(1, "hello");
    let mut socket = DiscordIPCSocket::new();
    socket.push_bytes(bytes[..3].to_vec());
    assert_eq!(socket.needed(), 5);
    assert_eq!(socket.recv(), Ok(None));
    socket.push_bytes(bytes[3..8].to_vec());
    assert_eq!(socket.needed(), 5);
    assert_eq!(socket.recv(), Ok(None));
    socket.push_bytes(bytes[8..10].to_vec());
    assert_eq!(socket.needed(), 3);
    assert_eq!(socket.recv(), Ok(None));
    socket.push_bytes(bytes[10..].to_vec());
    assert_eq!(socket.needed(), 0);
    assert_eq!(socket.recv(), Ok(Some((1, "hello".to_string()))));
    assert_eq!(socket.needed(), 8);
}

#[test]
fn needed_can_exceed_thirty_two_bits() {
    let mut socket = DiscordIPCSocket::new();
    socket.push_bytes(vec![1, 0, 0, 0, 0xff, 0xff, 0xff, 0xff, 0, 0]);
    assert_eq!(socket.needed(), u32::MAX as u64 - 2);
}

#[test]
fn recv_gives_back_what_send_was_given() {
    for (opcode, payload) in [(0u32, "{\"v\":1}"), (1, ""), (2, "ünïcödé ✓ 日本語"), (4_000_000_000, "x")] {
        let mut socket = DiscordIPCSocket::new();
        socket.push_bytes(frame(opcode, payload));
        assert_eq!(socket.recv(), Ok(Some((opcode, payload.to_string()))));
        assert_eq!(socket.recv(), Ok(None));
    }
}

#[test]
fn recv_takes_one_frame_at_a_time() {
    let mut socket = DiscordIPCSocket::new();
    let mut stream = frame(1, "first");
    stream.extend(frame(2, "second"));
    stream.extend(&frame(3, "third")[..4]);
    socket.push_bytes(stream);
    assert_eq!(socket.recv(), Ok(Some((1, "first".to_string()))));
    assert_eq!(socket.recv(), Ok(Some((2, "second".to_string()))));
    assert_eq!(socket.recv(), Ok(None));
    assert_eq!(socket.needed(), 4);
}

#[test]
fn frames_written_whole_never_mix() {
    let a = frame(1, "{\"from\":\"writer a\"}");
    let b = frame(1, "{\"from\":\"writer b, with a longer payload\"}");
    for order in [[&a, &b], [&b, &a]] {
        let mut socket = DiscordIPCSocket::new();
        for bytes in order {
            socket.push_bytes(bytes.clone());
        }
        let first = socket.recv().unwrap().unwrap().1;
        let second = socket.recv().unwrap().unwrap().1;
        let expected: Vec<String> = order
            .iter()
            .map(|bytes| String::from_utf8(bytes[8..].to_vec()).unwrap())
            .collect();
        assert_eq!(vec![first, second], expected);
        assert_eq!(socket.recv(), Ok(None));
    }
}

#[test]
fn frames_survive_any_split_of_the_stream() {
    let mut stream = frame(1, "alpha");
    stream.extend(frame(0, ""));
    stream.extend(frame(2, "gamma ✓"));
    for chunk in 1..stream.len() {
        let mut socket = DiscordIPCSocket::new();
        let mut got = Vec::new();
        for piece in stream.chunks(chunk) {
            socket.push_bytes(piece.to_vec());
            while let Some(message) = socket.recv().unwrap() {
                got.push(message);
            }
        }
        assert_eq!(
            got,
            vec![(1, "alpha".to_string()), (0, String::new()), (2, "gamma ✓".to_string())]
        );
    }
}

#[test]
fn recv_rejects_a_payload_that_is_not_utf8_and_goes_on() {
    let mut socket = DiscordIPCSocket::new();
    let mut stream = vec![1, 0, 0, 0, 2, 0, 0, 0, 0xff, 0xfe];
    stream.extend(frame(1, "ok"));
    socket.push_bytes(stream);
    assert_eq!(socket.recv(), Err(DiscordRPCError::DecodeError));
    assert_eq!(socket.recv(), Ok(Some((1, "ok".to_string()))));
}

#[test]
fn recv_rejects_a_truncated_character() {
    let mut socket = DiscordIPCSocket::new();
    socket.push_bytes(vec![1, 0, 0, 0, 1, 0, 0, 0, 0xc3]);
    assert_eq!(socket.recv(), Err(DiscordRPCError::DecodeError));
    assert_eq!(socket.needed(), 8);
}

#[test]
fn send_queues_whole_frames_in_the_order_of_the_calls() {
    let mut socket = DiscordIPCSocket::new();
    assert_eq!(socket.take_outbound(), Vec::<u8>::new());
    socket.send("one", 1).unwrap();
    socket.send("", 3).unwrap();
    socket.send("three ✓", 1).unwrap();
    let mut expected = frame(1, "one");
    expected.extend(frame(3, ""));
    expected.extend(frame(1, "three ✓"));
    assert_eq!(socket.take_outbound(), expected);
    assert_eq!(socket.take_outbound(), Vec::<u8>::new());
    socket.send("later", 1).unwrap();
    assert_eq!(socket.take_outbound(), frame(1, "later"));
}

#[test]
fn what_is_queued_is_read_back_message_by_message() {
    let messages = [(1u32, "{\"a\":1}"), (1, "second, from another sender"), (0, ""), (2, "ünï")];
    let mut writer = DiscordIPCSocket::new();
    for (opcode, payload) in messages {
        writer.send(payload, opcode).unwrap();
    }
    let mut reader = DiscordIPCSocket::new();
    reader.push_bytes(writer.take_outbound());
    for (opcode, payload) in messages {
        assert_eq!(reader.recv(), Ok(Some((opcode, payload.to_string()))));
    }
    assert_eq!(reader.recv(), Ok(None));
}

#[test]
fn sending_and_receiving_do_not_disturb_each_other() {
    let mut socket = DiscordIPCSocket::new();
    socket.push_bytes(frame(1, "in"));
    socket.send("out", 1).unwrap();
    assert_eq!(socket.needed(), 0);
    assert_eq!(socket.recv(), Ok(Some((1, "in".to_string()))));
    assert_eq!(socket.take_outbound(), frame(1, "out"));
    assert_eq!(socket.needed(), 8);
}
