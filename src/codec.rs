//! Wire frames for commands, and typed responses from the module's replies.
use vstd::prelude::*;
use vstd::utf8::{decode_utf8, encode_utf8, valid_utf8};

use crate::command::{Command, CommandView, Response, ResponseView};
use crate::error::Csr8645Error;
use crate::text::{
    contains_bytes, decimal_ascii, find_bytes, parse_u32, parse_u32_in, push_decimal,
    split_lines, split_lines_of, trim_blank, trimmed_bounds,
};

verus! {

/// `AT`, the start of every text command.
pub open spec fn attention() -> Seq<u8> {
    seq!['A' as u8, 'T' as u8]
}

/// The line terminator `\r\n`.
pub open spec fn crlf() -> Seq<u8> {
    seq!['\r' as u8, '\n' as u8]
}

/// `NAME`: the module's advertised name.
pub open spec fn key_name() -> Seq<u8> {
    seq!['N' as u8, 'A' as u8, 'M' as u8, 'E' as u8]
}

/// `PIN`: the pairing PIN.
pub open spec fn key_pin() -> Seq<u8> {
    seq!['P' as u8, 'I' as u8, 'N' as u8]
}

/// `BAUD`: the serial baud rate.
pub open spec fn key_baud() -> Seq<u8> {
    seq!['B' as u8, 'A' as u8, 'U' as u8, 'D' as u8]
}

/// `CON`: the link to a peer.
pub open spec fn key_con() -> Seq<u8> {
    seq!['C' as u8, 'O' as u8, 'N' as u8]
}

/// `DISC`: device discovery.
pub open spec fn key_disc() -> Seq<u8> {
    seq!['D' as u8, 'I' as u8, 'S' as u8, 'C' as u8]
}

/// `STATE`: the module's state.
pub open spec fn key_state() -> Seq<u8> {
    seq!['S' as u8, 'T' as u8, 'A' as u8, 'T' as u8, 'E' as u8]
}

/// `NOTI`: status notifications.
pub open spec fn key_noti() -> Seq<u8> {
    seq!['N' as u8, 'O' as u8, 'T' as u8, 'I' as u8]
}

/// `AT+<key>`, followed by `value` and the line terminator.
pub open spec fn keyed_line(key: Seq<u8>, value: Seq<u8>) -> Seq<u8> {
    attention() + seq!['+' as u8] + key + value + crlf()
}

/// `AT+<key>=<value>\r\n`.
pub open spec fn assign_line(key: Seq<u8>, value: Seq<u8>) -> Seq<u8> {
    keyed_line(key, seq!['=' as u8] + value)
}

/// `AT+<key>?\r\n`.
pub open spec fn query_line(key: Seq<u8>) -> Seq<u8> {
    keyed_line(key, seq!['?' as u8])
}

/// The marker of a live link in a connection-status reply: `OK+CON`.
pub open spec fn link_marker() -> Seq<u8> {
    seq!['O' as u8, 'K' as u8, '+' as u8, 'C' as u8, 'O' as u8, 'N' as u8]
}

/// The bytes written to the module for a command. Text commands are AT lines;
/// the payload of a bulk transfer goes out verbatim; the two receive-only
/// commands write nothing.
pub open spec fn frame(c: CommandView) -> Seq<u8> {
    match c {
        CommandView::SetName(n) => assign_line(key_name(), encode_utf8(n)),
        CommandView::GetName => query_line(key_name()),
        CommandView::SetPin(p) => assign_line(key_pin(), encode_utf8(p)),
        CommandView::GetPin => query_line(key_pin()),
        CommandView::SetBaudrate(b) => assign_line(key_baud(), decimal_ascii(b as nat)),
        CommandView::GetBaudrate => query_line(key_baud()),
        CommandView::Connect(a) => keyed_line(key_con(), encode_utf8(a)),
        CommandView::Disconnect => attention() + crlf(),
        CommandView::CheckConnectionStatus => query_line(key_con()),
        CommandView::Scan => query_line(key_disc()),
        CommandView::SendData(d) => d,
        CommandView::ReceiveData(_) => Seq::empty(),
        CommandView::PlayAudio(d) => d,
        CommandView::ReceiveAudio(_) => Seq::empty(),
        CommandView::GetStatus => query_line(key_state()),
        CommandView::SetNotifications(on) => keyed_line(
            key_noti(),
            seq![if on { '1' as u8 } else { '0' as u8 }],
        ),
    }
}

/// What a reply `raw` to command `c` decodes to.
pub open spec fn decode_reply(c: CommandView, raw: Seq<u8>) -> Result<ResponseView, Csr8645Error> {
    match c {
        CommandView::GetName | CommandView::GetPin | CommandView::GetStatus => if valid_utf8(raw) {
            Ok(ResponseView::Text(decode_utf8(raw)))
        } else {
            Err(Csr8645Error::InvalidResponse)
        },
        CommandView::GetBaudrate => match parse_u32(trim_blank(raw)) {
            Some(v) => if valid_utf8(raw) {
                Ok(ResponseView::U32(v))
            } else {
                Err(Csr8645Error::InvalidResponse)
            },
            None => Err(Csr8645Error::InvalidResponse),
        },
        CommandView::CheckConnectionStatus => Ok(
            ResponseView::Bool(contains_bytes(raw, link_marker())),
        ),
        CommandView::Scan => if valid_utf8(raw) {
            Ok(ResponseView::AddressList(split_lines(decode_utf8(raw))))
        } else {
            Err(Csr8645Error::InvalidResponse)
        },
        CommandView::ReceiveData(_) | CommandView::ReceiveAudio(_) => Ok(ResponseView::Bytes(raw)),
        _ => Ok(ResponseView::Unit),
    }
}

/// The mathematical value of a decoding outcome.
pub open spec fn outcome_view(r: Result<Response, Csr8645Error>) -> Result<
    ResponseView,
    Csr8645Error,
> {
    match r {
        Ok(resp) => Ok(resp@),
        Err(e) => Err(e),
    }
}

/// Relies on `String::from_utf8`: it accepts exactly the well-formed UTF-8
/// sequences, and the string it returns holds the characters they encode.
#[verifier::external_body]
fn utf8_string(bytes: &[u8]) -> (r: Option<String>)
    ensures
        r is Some <==> valid_utf8(bytes@),
        r matches Some(s) ==> s@ == decode_utf8(bytes@),
{
    String::from_utf8(bytes.to_vec()).ok()
}

/// Appends `bytes` to `out`.
fn push_bytes(out: &mut Vec<u8>, bytes: &[u8])
    ensures
        final(out)@ == old(out)@ + bytes@,
{
    let mut i: usize = 0;
    while i < bytes.len()
        invariant
            i <= bytes@.len(),
            out@ == old(out)@ + bytes@.subrange(0, i as int),
        decreases bytes@.len() - i,
    {
        out.push(bytes[i]);
        i = i + 1;
        assert(out@ =~= old(out)@ + bytes@.subrange(0, i as int));
    }
    assert(bytes@.subrange(0, i as int) =~= bytes@);
}

/// `AT+<key>` followed by `value` and the line terminator.
fn keyed(key: &[u8], value: &[u8]) -> (r: Vec<u8>)
    ensures
        r@ == keyed_line(key@, value@),
{
    let mut out: Vec<u8> = vec!['A' as u8, 'T' as u8, '+' as u8];
    push_bytes(&mut out, key);
    push_bytes(&mut out, value);
    out.push('\r' as u8);
    out.push('\n' as u8);
    assert(out@ =~= keyed_line(key@, value@));
    out
}

/// `AT+<key>=<value>\r\n`.
fn assign(key: &[u8], value: &[u8]) -> (r: Vec<u8>)
    ensures
        r@ == assign_line(key@, value@),
{
    let mut v: Vec<u8> = vec!['=' as u8];
    push_bytes(&mut v, value);
    keyed(key, v.as_slice())
}

/// `AT+<key>?\r\n`.
fn query(key: &[u8]) -> (r: Vec<u8>)
    ensures
        r@ == query_line(key@),
{
    let q: [u8; 1] = ['?' as u8];
    keyed(key, &q)
}

/// The bytes to write to the module for `command`.
pub fn encode(command: &Command) -> (r: Vec<u8>)
    ensures
        r@ == frame(command@),
{
    let name: [u8; 4] = ['N' as u8, 'A' as u8, 'M' as u8, 'E' as u8];
    let pin: [u8; 3] = ['P' as u8, 'I' as u8, 'N' as u8];
    let baud: [u8; 4] = ['B' as u8, 'A' as u8, 'U' as u8, 'D' as u8];
    let con: [u8; 3] = ['C' as u8, 'O' as u8, 'N' as u8];
    match command {
        Command::SetName(n) => assign(&name, n.as_str().as_bytes()),
        Command::GetName => query(&name),
        Command::SetPin(p) => assign(&pin, p.as_str().as_bytes()),
        Command::GetPin => query(&pin),
        Command::SetBaudrate(b) => {
            let mut digits: Vec<u8> = Vec::new();
            push_decimal(&mut digits, *b);
            assert(digits@ =~= decimal_ascii(*b as nat));
            assign(&baud, digits.as_slice())
        },
        Command::GetBaudrate => query(&baud),
        Command::Connect(a) => keyed(&con, a.as_str().as_bytes()),
        Command::Disconnect => vec!['A' as u8, 'T' as u8, '\r' as u8, '\n' as u8],
        Command::CheckConnectionStatus => query(&con),
        Command::Scan => {
            let disc: [u8; 4] = ['D' as u8, 'I' as u8, 'S' as u8, 'C' as u8];
            query(&disc)
        },
        Command::SendData(d) => d.clone(),
        Command::ReceiveData(_) => Vec::new(),
        Command::PlayAudio(d) => d.clone(),
        Command::ReceiveAudio(_) => Vec::new(),
        Command::GetStatus => {
            let state: [u8; 5] = ['S' as u8, 'T' as u8, 'A' as u8, 'T' as u8, 'E' as u8];
            query(&state)
        },
        Command::SetNotifications(on) => {
            let noti: [u8; 4] = ['N' as u8, 'O' as u8, 'T' as u8, 'I' as u8];
            let flag: [u8; 1] = [if *on { '1' as u8 } else { '0' as u8 }];
            keyed(&noti, &flag)
        },
    }
}

/// Decodes `raw`, the bytes received in reply to `command`.
pub fn decode(command: &Command, raw: &[u8]) -> (r: Result<Response, Csr8645Error>)
    ensures
        outcome_view(r) == decode_reply(command@, raw@),
{
    match command {
        Command::GetName | Command::GetPin | Command::GetStatus => match utf8_string(raw) {
            Some(text) => Ok(Response::Text(text)),
            None => Err(Csr8645Error::InvalidResponse),
        },
        Command::GetBaudrate => {
            let (lo, hi) = trimmed_bounds(raw);
            match parse_u32_in(raw, lo, hi) {
                Some(v) => match utf8_string(raw) {
                    Some(_) => Ok(Response::U32(v)),
                    None => Err(Csr8645Error::InvalidResponse),
                },
                None => Err(Csr8645Error::InvalidResponse),
            }
        },
        Command::CheckConnectionStatus => {
            let marker: [u8; 6] = ['O' as u8, 'K' as u8, '+' as u8, 'C' as u8, 'O' as u8, 'N' as u8];
            Ok(Response::Bool(find_bytes(raw, &marker)))
        },
        Command::Scan => match utf8_string(raw) {
            Some(text) => Ok(Response::AddressList(split_lines_of(text.as_str()))),
            None => Err(Csr8645Error::InvalidResponse),
        },
        Command::ReceiveData(_) | Command::ReceiveAudio(_) => Ok(Response::Bytes(vstd::slice::slice_to_vec(raw))),
        _ => Ok(Response::Unit),
    }
}

} // verus!
