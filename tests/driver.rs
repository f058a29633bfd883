use csr8645::command::{Command, Response};
use csr8645::driver::{Action, Csr8645};
use csr8645::error::{Csr8645Error, UartFault};

fn driver() -> Csr8645 {
    Csr8645::new().unwrap()
}

#[test]
fn new_driver_is_idle() {
    assert!(driver().is_idle());
}

#[test]
fn connect_write_fault_is_returned_without_a_read() {
    let mut d = driver();
    let first = d.connect("00:11:22:33:44:55");
    assert_eq!(first, Action::Write(b"AT+CON00:11:22:33:44:55\r\n".to_vec()));
    assert!(!d.is_idle());
    let next = d.on_written(Err(UartFault::Framing));
    assert_eq!(next, Action::Finish(Err(Csr8645Error::UartError(UartFault::Framing))));
    assert!(d.is_idle());
}

#[test]
fn connect_without_fault_finishes_with_unit() {
    let mut d = driver();
    d.connect("00:11:22:33:44:55");
    assert_eq!(d.on_written(Ok(())), Action::Finish(Ok(Response::Unit)));
    assert!(d.is_idle());
}

fn status_exchange(d: &mut Csr8645, reply: &[u8]) -> Action {
    assert_eq!(d.get_status(), Action::Write(b"AT+STATE?\r\n".to_vec()));
    assert_eq!(d.on_written(Ok(())), Action::Read(64));
    d.on_received(Ok(reply.to_vec()))
}

#[test]
fn status_twice_gives_the_same_text() {
    let mut d = driver();
    let first = status_exchange(&mut d, b"CONNECTED\r\n");
    assert!(d.is_idle());
    let second = status_exchange(&mut d, b"CONNECTED\r\n");
    assert!(d.is_idle());
    assert_eq!(first, Action::Finish(Ok(Response::Text("CONNECTED\r\n".to_string()))));
    assert_eq!(first, second);
}

#[test]
fn query_reads_a_reply_and_decodes_it() {
    let mut d = driver();
    assert_eq!(d.get_baudrate(), Action::Write(b"AT+BAUD?\r\n".to_vec()));
    assert_eq!(d.on_written(Ok(())), Action::Read(64));
    assert_eq!(d.on_received(Ok(b"9600\r\n".to_vec())), Action::Finish(Ok(Response::U32(9600))));
    assert!(d.is_idle());
}

#[test]
fn invalid_reply_is_reported() {
    let mut d = driver();
    d.get_pin();
    d.on_written(Ok(()));
    assert_eq!(d.on_received(Ok(vec![0xff])), Action::Finish(Err(Csr8645Error::InvalidResponse)));
    assert!(d.is_idle());
}

#[test]
fn read_fault_is_returned() {
    let mut d = driver();
    d.check_connection_status();
    assert_eq!(d.on_written(Ok(())), Action::Read(64));
    assert_eq!(
        d.on_received(Err(UartFault::Overrun)),
        Action::Finish(Err(Csr8645Error::UartError(UartFault::Overrun)))
    );
    assert!(d.is_idle());
}

#[test]
fn scan_reads_a_larger_reply() {
    let mut d = driver();
    assert_eq!(d.scan(), Action::Write(b"AT+DISC?\r\n".to_vec()));
    assert_eq!(d.on_written(Ok(())), Action::Read(512));
    assert_eq!(
        d.on_received(Ok(b"AA:BB\nCC:DD\n".to_vec())),
        Action::Finish(Ok(Response::AddressList(vec![
            "AA:BB".to_string(),
            "CC:DD".to_string(),
            String::new()
        ])))
    );
}

#[test]
fn receive_only_commands_read_without_writing() {
    let mut d = driver();
    assert_eq!(d.receive_data(32), Action::Read(32));
    assert_eq!(d.on_received(Ok(vec![1, 2, 3])), Action::Finish(Ok(Response::Bytes(vec![1, 2, 3]))));
    assert_eq!(d.receive_audio(0), Action::Read(0));
    assert_eq!(d.on_received(Ok(Vec::new())), Action::Finish(Ok(Response::Bytes(Vec::new()))));
}

#[test]
fn payload_commands_write_verbatim_and_finish() {
    let mut d = driver();
    assert_eq!(d.send_data(&[9, 8, 7]), Action::Write(vec![9, 8, 7]));
    assert_eq!(d.on_written(Ok(())), Action::Finish(Ok(Response::Unit)));
    assert_eq!(d.play_audio(&[1]), Action::Write(vec![1]));
    assert_eq!(
        d.on_written(Err(UartFault::Noise)),
        Action::Finish(Err(Csr8645Error::UartError(UartFault::Noise)))
    );
}

#[test]
fn setting_commands_write_one_frame() {
    let mut d = driver();
    assert_eq!(d.set_name("Car"), Action::Write(b"AT+NAME=Car\r\n".to_vec()));
    assert_eq!(d.on_written(Ok(())), Action::Finish(Ok(Response::Unit)));
    assert_eq!(d.set_pin("0000"), Action::Write(b"AT+PIN=0000\r\n".to_vec()));
    assert_eq!(d.on_written(Ok(())), Action::Finish(Ok(Response::Unit)));
    assert_eq!(d.set_baudrate(9600), Action::Write(b"AT+BAUD=9600\r\n".to_vec()));
    assert_eq!(d.on_written(Ok(())), Action::Finish(Ok(Response::Unit)));
    assert_eq!(d.disconnect(), Action::Write(b"AT\r\n".to_vec()));
    assert_eq!(d.on_written(Ok(())), Action::Finish(Ok(Response::Unit)));
    assert_eq!(d.set_notifications(true), Action::Write(b"AT+NOTI1\r\n".to_vec()));
    assert_eq!(d.on_written(Ok(())), Action::Finish(Ok(Response::Unit)));
    assert_eq!(d.get_name(), Action::Write(b"AT+NAME?\r\n".to_vec()));
    assert_eq!(d.on_written(Ok(())), Action::Read(64));
    assert_eq!(d.on_received(Ok(b"Car".to_vec())), Action::Finish(Ok(Response::Text("Car".to_string()))));
}

#[test]
fn issue_takes_any_command() {
    let mut d = driver();
    assert_eq!(d.issue(Command::GetStatus), Action::Write(b"AT+STATE?\r\n".to_vec()));
}
