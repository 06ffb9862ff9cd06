use telemetry_link::frame::encode_heartbeat;
use telemetry_link::sequence::SequenceCounter;
use telemetry_link::transport::{
    address_line, append_bytes, append_decimal, append_text, copy_bytes, end_command, join_line,
    multiplex_line, open_socket_line, reset_line, send_actions, send_line, setup_actions,
    station_mode_line, LinkAction, Transport, JOIN_SETTLE_MS, RESET_SETTLE_MS, SETTLE_MS,
};

fn write(text: &str) -> LinkAction {
    LinkAction::Write(text.as_bytes().to_vec())
}

#[test]
fn settle_times() {
    assert_eq!(RESET_SETTLE_MS, 2000);
    assert_eq!(JOIN_SETTLE_MS, 5000);
    assert_eq!(SETTLE_MS, 500);
}

#[test]
fn fixed_command_lines() {
    assert_eq!(reset_line(), b"AT+RST\r\n".to_vec());
    assert_eq!(station_mode_line(), b"AT+CWMODE=1\r\n".to_vec());
    assert_eq!(address_line(), b"AT+CIFSR\r\n".to_vec());
    assert_eq!(multiplex_line(), b"AT+CIPMUX=1\r\n".to_vec());
}

#[test]
fn join_line_quotes_both_names() {
    assert_eq!(
        join_line("F405WTE", "f405wte"),
        b"AT+CWJAP=\"F405WTE\",\"f405wte\"\r\n".to_vec()
    );
    assert_eq!(join_line("", ""), b"AT+CWJAP=\"\",\"\"\r\n".to_vec());
}

#[test]
fn join_line_keeps_bytes_beyond_ascii() {
    let line = join_line("caf\u{e9}", "p\"w");
    let mut expected = b"AT+CWJAP=\"caf".to_vec();
    expected.extend_from_slice(&[0xC3, 0xA9]);
    expected.extend_from_slice(b"\",\"p\"w\"\r\n");
    assert_eq!(line, expected);
}

#[test]
fn open_socket_line_names_the_port_twice() {
    assert_eq!(
        open_socket_line(14550),
        b"AT+CIPSTART=0,\"UDP\",\"255.255.255.255\",14550,14550\r\n".to_vec()
    );
    assert_eq!(
        open_socket_line(0),
        b"AT+CIPSTART=0,\"UDP\",\"255.255.255.255\",0,0\r\n".to_vec()
    );
    assert_eq!(
        open_socket_line(65535),
        b"AT+CIPSTART=0,\"UDP\",\"255.255.255.255\",65535,65535\r\n".to_vec()
    );
}

#[test]
fn send_line_names_the_length() {
    assert_eq!(send_line(17), b"AT+CIPSEND=0,17\r\n".to_vec());
    assert_eq!(send_line(36), b"AT+CIPSEND=0,36\r\n".to_vec());
    assert_eq!(send_line(0), b"AT+CIPSEND=0,0\r\n".to_vec());
    assert_eq!(send_line(1000), b"AT+CIPSEND=0,1000\r\n".to_vec());
}

#[test]
fn decimal_digits() {
    for value in [0usize, 1, 9, 10, 11, 99, 100, 101, 255, 256, 1009, 65_535, 1_000_000, usize::MAX] {
        let mut out: Vec<u8> = vec![b'#'];
        append_decimal(&mut out, value);
        assert_eq!(out, format!("#{}", value).into_bytes());
    }
}

#[test]
fn appending_keeps_what_was_there() {
    let mut out: Vec<u8> = vec![1, 2];
    append_bytes(&mut out, &[3, 4, 5]);
    assert_eq!(out, vec![1, 2, 3, 4, 5]);
    append_bytes(&mut out, &[]);
    assert_eq!(out, vec![1, 2, 3, 4, 5]);
    append_text(&mut out, "AT");
    assert_eq!(out, vec![1, 2, 3, 4, 5, b'A', b'T']);
    end_command(&mut out);
    assert_eq!(out, vec![1, 2, 3, 4, 5, b'A', b'T', 13, 10]);
    assert_eq!(copy_bytes(&out), out);
    assert_eq!(copy_bytes(&[]), Vec::<u8>::new());
}

#[test]
fn bridge_setup_script() {
    let script = setup_actions("F405WTE", "f405wte", 14550);
    assert_eq!(
        script,
        vec![
            write("AT+RST\r\n"),
            LinkAction::Settle(2000),
            write("AT+CWMODE=1\r\n"),
            LinkAction::Settle(500),
            write("AT+CWJAP=\"F405WTE\",\"f405wte\"\r\n"),
            LinkAction::Settle(5000),
            write("AT+CIFSR\r\n"),
            LinkAction::Settle(500),
            write("AT+CIPMUX=1\r\n"),
            LinkAction::Settle(500),
            write("AT+CIPSTART=0,\"UDP\",\"255.255.255.255\",14550,14550\r\n"),
            LinkAction::Settle(500),
        ]
    );
}

#[test]
fn bridge_setup_has_six_commands_in_order() {
    let script = setup_actions("net", "key", 9);
    let mut commands: Vec<String> = Vec::new();
    for (i, action) in script.iter().enumerate() {
        match action {
            LinkAction::Write(bytes) => {
                assert_eq!(i % 2, 0);
                commands.push(String::from_utf8(bytes.clone()).unwrap());
            }
            LinkAction::Settle(_) => assert_eq!(i % 2, 1),
        }
    }
    assert_eq!(
        commands,
        vec![
            "AT+RST\r\n",
            "AT+CWMODE=1\r\n",
            "AT+CWJAP=\"net\",\"key\"\r\n",
            "AT+CIFSR\r\n",
            "AT+CIPMUX=1\r\n",
            "AT+CIPSTART=0,\"UDP\",\"255.255.255.255\",9,9\r\n",
        ]
    );
}

#[test]
fn bridge_sends_a_frame_of_17_bytes() {
    let mut counter = SequenceCounter::new();
    let frame = encode_heartbeat(&mut counter);
    assert_eq!(frame.len(), 17);
    let script = send_actions(Transport::AtBridge, frame.as_slice());
    assert_eq!(
        script,
        vec![
            write("AT+CIPSEND=0,17\r\n"),
            LinkAction::Settle(500),
            LinkAction::Write(frame.as_slice().to_vec()),
            LinkAction::Settle(500),
        ]
    );
}

#[test]
fn bridge_sends_any_bytes() {
    let message: Vec<u8> = (0..=255u8).collect();
    let script = send_actions(Transport::AtBridge, &message);
    assert_eq!(
        script,
        vec![
            write("AT+CIPSEND=0,256\r\n"),
            LinkAction::Settle(500),
            LinkAction::Write(message.clone()),
            LinkAction::Settle(500),
        ]
    );
    let script = send_actions(Transport::AtBridge, &[]);
    assert_eq!(
        script,
        vec![
            write("AT+CIPSEND=0,0\r\n"),
            LinkAction::Settle(500),
            LinkAction::Write(Vec::new()),
            LinkAction::Settle(500),
        ]
    );
}

#[test]
fn direct_transport_writes_the_bytes() {
    let mut counter = SequenceCounter::new();
    let frame = encode_heartbeat(&mut counter);
    let script = send_actions(Transport::DirectSerial, frame.as_slice());
    assert_eq!(script, vec![LinkAction::Write(frame.as_slice().to_vec())]);
    let script = send_actions(Transport::DirectSerial, &[]);
    assert_eq!(script, vec![LinkAction::Write(Vec::new())]);
}

#[test]
fn transports_compare() {
    assert_eq!(Transport::AtBridge, Transport::AtBridge);
    assert_ne!(Transport::AtBridge, Transport::DirectSerial);
}
