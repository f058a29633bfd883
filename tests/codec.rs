use csr8645::codec::{decode, encode};
use csr8645::command::{Command, Response};
use csr8645::error::{Csr8645Error, UartFault};

fn padded(text: &[u8], len: usize) -> Vec<u8> {
    let mut v = text.to_vec();
    v.resize(len, 0);
    v
}

#[test]
fn set_name_frame_wraps_the_name() {
    assert_eq!(encode(&Command::SetName("CarAudio".to_string())), b"AT+NAME=CarAudio\r\n".to_vec());
    assert_eq!(encode(&Command::SetName(String::new())), b"AT+NAME=\r\n".to_vec());
}

#[test]
fn query_frames() {
    assert_eq!(encode(&Command::GetName), b"AT+NAME?\r\n".to_vec());
    assert_eq!(encode(&Command::GetPin), b"AT+PIN?\r\n".to_vec());
    assert_eq!(encode(&Command::GetBaudrate), b"AT+BAUD?\r\n".to_vec());
    assert_eq!(encode(&Command::CheckConnectionStatus), b"AT+CON?\r\n".to_vec());
    assert_eq!(encode(&Command::Scan), b"AT+DISC?\r\n".to_vec());
    assert_eq!(encode(&Command::GetStatus), b"AT+STATE?\r\n".to_vec());
}

#[test]
fn setting_frames() {
    assert_eq!(encode(&Command::SetPin("1234".to_string())), b"AT+PIN=1234\r\n".to_vec());
    assert_eq!(encode(&Command::SetBaudrate(115200)), b"AT+BAUD=115200\r\n".to_vec());
    assert_eq!(encode(&Command::SetBaudrate(0)), b"AT+BAUD=0\r\n".to_vec());
    assert_eq!(encode(&Command::SetBaudrate(u32::MAX)), b"AT+BAUD=4294967295\r\n".to_vec());
    assert_eq!(encode(&Command::SetNotifications(true)), b"AT+NOTI1\r\n".to_vec());
    assert_eq!(encode(&Command::SetNotifications(false)), b"AT+NOTI0\r\n".to_vec());
}

#[test]
fn link_frames() {
    assert_eq!(
        encode(&Command::Connect("00:11:22:33:44:55".to_string())),
        b"AT+CON00:11:22:33:44:55\r\n".to_vec()
    );
    assert_eq!(encode(&Command::Disconnect), b"AT\r\n".to_vec());
}

#[test]
fn payload_frames_are_verbatim() {
    let data = vec![0u8, 0x0d, 0x0a, 0xff, b'A'];
    assert_eq!(encode(&Command::SendData(data.clone())), data);
    assert_eq!(encode(&Command::PlayAudio(data.clone())), data);
    assert_eq!(encode(&Command::ReceiveData(16)), Vec::<u8>::new());
    assert_eq!(encode(&Command::ReceiveAudio(16)), Vec::<u8>::new());
}

#[test]
fn baudrate_round_trips() {
    for b in [0u32, 1, 9, 10, 9600, 38400, 115200, u32::MAX] {
        let frame = encode(&Command::SetBaudrate(b));
        let digits = &frame[b"AT+BAUD=".len()..frame.len() - 2];
        let mut reply = digits.to_vec();
        reply.extend_from_slice(b"\r\n");
        assert_eq!(decode(&Command::GetBaudrate, &reply), Ok(Response::U32(b)));
        assert_eq!(decode(&Command::GetBaudrate, &padded(&reply, 64)), Ok(Response::U32(b)));
    }
}

#[test]
fn baudrate_reply_trims_blanks_and_reads_plus_sign() {
    assert_eq!(decode(&Command::GetBaudrate, b" \t9600\r\n"), Ok(Response::U32(9600)));
    assert_eq!(decode(&Command::GetBaudrate, b"+42"), Ok(Response::U32(42)));
    assert_eq!(decode(&Command::GetBaudrate, b"007"), Ok(Response::U32(7)));
}

#[test]
fn baudrate_reply_rejects_non_numbers() {
    let invalid = Err(Csr8645Error::InvalidResponse);
    assert_eq!(decode(&Command::GetBaudrate, b""), invalid);
    assert_eq!(decode(&Command::GetBaudrate, b"\r\n"), invalid);
    assert_eq!(decode(&Command::GetBaudrate, b"OK+BAUD"), invalid);
    assert_eq!(decode(&Command::GetBaudrate, b"96 00"), invalid);
    assert_eq!(decode(&Command::GetBaudrate, b"-1"), invalid);
    assert_eq!(decode(&Command::GetBaudrate, b"+"), invalid);
    assert_eq!(decode(&Command::GetBaudrate, b"4294967296"), invalid);
    assert_eq!(decode(&Command::GetBaudrate, &[0x31, 0xff]), invalid);
    assert_eq!(decode(&Command::GetBaudrate, &[0xff, 0x39, 0x36]), invalid);
}

#[test]
fn connection_status_looks_for_the_marker() {
    assert_eq!(decode(&Command::CheckConnectionStatus, b"OK+CONN\r\n"), Ok(Response::Bool(true)));
    assert_eq!(decode(&Command::CheckConnectionStatus, b"xxOK+CON"), Ok(Response::Bool(true)));
    assert_eq!(decode(&Command::CheckConnectionStatus, b"OK+DISC\r\n"), Ok(Response::Bool(false)));
    assert_eq!(decode(&Command::CheckConnectionStatus, b"OK+CO"), Ok(Response::Bool(false)));
    assert_eq!(decode(&Command::CheckConnectionStatus, b""), Ok(Response::Bool(false)));
    assert_eq!(decode(&Command::CheckConnectionStatus, &padded(b"", 64)), Ok(Response::Bool(false)));
    assert_eq!(decode(&Command::CheckConnectionStatus, b"\xffOK+CON"), Ok(Response::Bool(true)));
    assert_eq!(decode(&Command::CheckConnectionStatus, b"\xff\xfe"), Ok(Response::Bool(false)));
}

#[test]
fn scan_reply_without_line_feed_is_one_address() {
    assert_eq!(
        decode(&Command::Scan, b"AA:BB"),
        Ok(Response::AddressList(vec!["AA:BB".to_string()]))
    );
    assert_eq!(decode(&Command::Scan, b""), Ok(Response::AddressList(vec![String::new()])));
}

#[test]
fn scan_reply_splits_on_line_feeds() {
    assert_eq!(
        decode(&Command::Scan, b"AA:BB\nCC:DD\n"),
        Ok(Response::AddressList(vec!["AA:BB".to_string(), "CC:DD".to_string(), String::new()]))
    );
    assert_eq!(
        decode(&Command::Scan, b"\n\n"),
        Ok(Response::AddressList(vec![String::new(), String::new(), String::new()]))
    );
    assert_eq!(
        decode(&Command::Scan, "h\u{e9}\nx".as_bytes()),
        Ok(Response::AddressList(vec!["h\u{e9}".to_string(), "x".to_string()]))
    );
    assert_eq!(decode(&Command::Scan, b"AA\n\xff"), Err(Csr8645Error::InvalidResponse));
}

#[test]
fn pin_reply_must_be_utf8() {
    assert_eq!(decode(&Command::GetPin, &[0xc3, 0x28]), Err(Csr8645Error::InvalidResponse));
    assert_eq!(decode(&Command::GetPin, &[0xff]), Err(Csr8645Error::InvalidResponse));
    assert_eq!(decode(&Command::GetPin, &[0xed, 0xa0, 0x80]), Err(Csr8645Error::InvalidResponse));
    assert_eq!(decode(&Command::GetPin, b"1234\r\n"), Ok(Response::Text("1234\r\n".to_string())));
}

#[test]
fn text_replies_are_returned_as_is() {
    assert_eq!(decode(&Command::GetName, &[0x43, 0xc3, 0xa9]), Ok(Response::Text("C\u{e9}".to_string())));
    assert_eq!(decode(&Command::GetStatus, b" READY \r\n"), Ok(Response::Text(" READY \r\n".to_string())));
    assert_eq!(decode(&Command::GetStatus, b""), Ok(Response::Text(String::new())));
}

#[test]
fn bulk_replies_are_verbatim() {
    let raw = [0u8, 0xff, 0x0a, 0x41];
    assert_eq!(decode(&Command::ReceiveData(4), &raw), Ok(Response::Bytes(raw.to_vec())));
    assert_eq!(decode(&Command::ReceiveAudio(2), &raw[..2]), Ok(Response::Bytes(vec![0, 0xff])));
}

#[test]
fn commands_without_a_reply_decode_to_unit() {
    assert_eq!(decode(&Command::SetName("x".to_string()), b"\xff"), Ok(Response::Unit));
    assert_eq!(decode(&Command::Disconnect, b""), Ok(Response::Unit));
}

#[test]
fn uart_fault_converts_to_error() {
    assert_eq!(Csr8645Error::from(UartFault::Parity), Csr8645Error::UartError(UartFault::Parity));
    assert_eq!(Csr8645Error::from(UartFault::Other), Csr8645Error::UartError(UartFault::Other));
}
