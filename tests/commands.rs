use at_modem::commands::{
    encode_line, write_line, AteGet, AteSet, GetCpin, Reset, ResponseShape, SleepGet, SleepSet,
    VerifyComIsWorking, DEFAULT_TIMEOUT_MS,
};

#[test]
fn verify_com_is_working_serializes_correctly() {
    let k = VerifyComIsWorking {};
    let mut buffer = vec![0; 127];
    let bytes_written = k.write(&mut buffer);
    assert_eq!(bytes_written, 4);
    assert_eq!(String::from_utf8(buffer).unwrap().trim_matches(char::from(0)), "AT\r\n");
}

#[test]
fn ate_get() {
    let k = AteGet {};
    let mut buffer = vec![0; 127];
    let bytes_written = k.write(&mut buffer);
    assert_eq!(bytes_written, 10);
    assert_eq!(String::from_utf8(buffer).unwrap().trim_matches(char::from(0)), "AT+ATE=?\r\n");
}

#[test]
fn ate_set() {
    let k = AteSet::on();
    let mut buffer = vec![0; 127];
    let bytes_written = k.write(&mut buffer);
    assert_eq!(bytes_written, 11);
    assert_eq!(String::from_utf8(buffer).unwrap().trim_matches(char::from(0)), "AT+ATE=ON\r\n");
    let k = AteSet::off();
    let mut buffer = vec![0; 127];
    let bytes_written = k.write(&mut buffer);
    assert_eq!(bytes_written, 12);
    assert_eq!(String::from_utf8(buffer).unwrap().trim_matches(char::from(0)), "AT+ATE=OFF\r\n");
}

#[test]
fn sleep_set() {
    let k = SleepSet::on();
    let mut buffer = vec![0; 127];
    let bytes_written = k.write(&mut buffer);
    assert_eq!(bytes_written, 13);
    assert_eq!(String::from_utf8(buffer).unwrap().trim_matches(char::from(0)), "AT+SLEEP=ON\r\n");
    let k = SleepSet::off();
    let mut buffer = vec![0; 127];
    let bytes_written = k.write(&mut buffer);
    assert_eq!(bytes_written, 14);
    assert_eq!(String::from_utf8(buffer).unwrap().trim_matches(char::from(0)), "AT+SLEEP=OFF\r\n");
}

#[test]
fn other_commands_encode_their_names() {
    assert_eq!(GetCpin.encode(), b"AT+CPIN\r\n".to_vec());
    assert_eq!(SleepGet {}.encode(), b"AT+SLEEP=?\r\n".to_vec());
    assert_eq!(Reset {}.encode(), b"AT+RESET\r\n".to_vec());
    assert_eq!(VerifyComIsWorking {}.encode(), b"AT\r\n".to_vec());
}

#[test]
fn short_buffer_is_left_alone_and_count_reported() {
    let mut buffer = vec![7u8; 5];
    let n = SleepSet::off().write(&mut buffer);
    assert_eq!(n, 14);
    assert_eq!(buffer, vec![7u8; 5]);
}

#[test]
fn exact_buffer_is_filled() {
    let mut buffer = vec![0u8; 4];
    let n = VerifyComIsWorking {}.write(&mut buffer);
    assert_eq!(n, 4);
    assert_eq!(buffer, b"AT\r\n".to_vec());
}

#[test]
fn write_keeps_the_tail_of_the_buffer() {
    let mut buffer = vec![9u8; 12];
    let n = AteGet {}.write(&mut buffer);
    assert_eq!(n, 10);
    assert_eq!(&buffer[..10], b"AT+ATE=?\r\n");
    assert_eq!(&buffer[10..], &[9u8, 9u8]);
}

#[test]
fn write_line_into_empty_buffer() {
    let mut buffer: Vec<u8> = Vec::new();
    let line = b"AT\r\n".to_vec();
    assert_eq!(write_line(&line, &mut buffer), 4);
    assert!(buffer.is_empty());
}

#[test]
fn quoted_argument_is_wrapped() {
    let line = encode_line(b"+NAME", Some(&b"ab"[..]), true);
    assert_eq!(line, b"AT+NAME=\"ab\"\r\n".to_vec());
    let line = encode_line(b"+NAME", Some(&b"ab"[..]), false);
    assert_eq!(line, b"AT+NAME=ab\r\n".to_vec());
    let line = encode_line(b"", None, true);
    assert_eq!(line, b"AT\r\n".to_vec());
}

#[test]
fn round_trip_strips_to_name_and_argument() {
    let line = SleepSet::on().encode();
    let body = &line[2..line.len() - 2];
    assert_eq!(&line[..2], b"AT");
    assert_eq!(&line[line.len() - 2..], b"\r\n");
    assert_eq!(body, b"+SLEEP=ON");
    let line = AteGet {}.encode();
    assert_eq!(&line[2..line.len() - 2], b"+ATE=?");
}

#[test]
fn encoding_is_deterministic() {
    assert_eq!(AteSet::off().encode(), AteSet::off().encode());
}

#[test]
fn timeouts_and_shapes() {
    assert_eq!(VerifyComIsWorking {}.timeout_ms(), 5000);
    assert_eq!(AteSet::on().timeout_ms(), 8000);
    assert_eq!(SleepSet::off().timeout_ms(), 8000);
    assert_eq!(Reset {}.timeout_ms(), 2000);
    assert_eq!(AteGet {}.timeout_ms(), DEFAULT_TIMEOUT_MS);
    assert_eq!(GetCpin.expected_response(), ResponseShape::Ack);
    assert_eq!(SleepGet {}.expected_response(), ResponseShape::OnOff);
}
