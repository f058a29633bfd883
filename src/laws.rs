//! Properties of the codec and the driver that hold for all inputs.
use vstd::prelude::*;
use vstd::utf8::{
    decode_first_scalar, decode_utf8, encode_utf8, is_leading_byte_width_1,
    length_of_first_scalar, pop_first_scalar, valid_first_scalar, valid_utf8,
};

use crate::codec::{
    attention, crlf, decode_reply, frame, key_state, link_marker, query_line,
};
use crate::command::{CommandView, ResponseView};
use crate::driver::{received_step, start_step, written_step, ActionView, StageView};
use crate::error::{Csr8645Error, UartFault};
use crate::text::{
    all_digits, contains_bytes, decimal_ascii, digits_value, is_ascii_bytes, is_blank,
    is_digit, lemma_split_lines_no_feed, occurs_at, parse_u32, trim_blank,
    trim_end, trim_start,
};

verus! {

/// The decimal spelling of `n` is a run of digits whose value is `n`.
pub proof fn lemma_decimal_ascii(n: nat)
    ensures
        all_digits(decimal_ascii(n)),
        digits_value(decimal_ascii(n)) == n,
    decreases n,
{
    let d = decimal_ascii(n);
    if n >= 10 {
        lemma_decimal_ascii(n / 10);
        let front = decimal_ascii(n / 10);
        assert(d.drop_last() =~= front);
        assert(d.last() as int - 0x30 == n % 10);
        assert((n / 10) * 10 + n % 10 == n);
        assert forall|i: int| 0 <= i < d.len() implies #[trigger] is_digit(d[i]) by {
            if i < front.len() {
                assert(d[i] == front[i]);
            }
        }
    } else {
        assert(d.drop_last() =~= Seq::<u8>::empty());
        assert(digits_value(d.drop_last()) == 0);
    }
}

/// Bytes that are all ASCII form valid UTF-8.
pub proof fn lemma_ascii_valid_utf8(s: Seq<u8>)
    requires
        is_ascii_bytes(s),
    ensures
        valid_utf8(s),
    decreases s.len(),
{
    if s.len() > 0 {
        assert(s[0] < 0x80);
        assert(is_leading_byte_width_1(s[0]));
        assert(valid_first_scalar(s));
        let rest = pop_first_scalar(s);
        assert(rest =~= s.subrange(1, s.len() as int));
        assert forall|i: int| 0 <= i < rest.len() implies #[trigger] rest[i] < 0x80 by {
            assert(rest[i] == s[i + 1]);
        }
        lemma_ascii_valid_utf8(rest);
    }
}

/// Blank bytes after a reply's last non-blank byte are trimmed away.
proof fn lemma_trim_end_padding(d: Seq<u8>, pad: Seq<u8>)
    requires
        d.len() > 0,
        !is_blank(d.last()),
        forall|i: int| 0 <= i < pad.len() ==> #[trigger] is_blank(pad[i]),
    ensures
        trim_end(d + pad) == d,
    decreases pad.len(),
{
    if pad.len() == 0 {
        assert(d + pad =~= d);
    } else {
        let shorter = pad.drop_last();
        assert((d + pad).drop_last() =~= d + shorter);
        assert(is_blank((d + pad).last()));
        lemma_trim_end_padding(d, shorter);
    }
}

/// A reply that spells baud rate `b` in decimal, followed by any blank
/// padding (such as `\r\n` and the unused zero bytes of the receive buffer),
/// decodes to `b`: the number `SetBaudrate(b)` puts in its frame is the one a
/// `GetBaudrate` reply is read as.
pub proof fn lemma_baudrate_round_trip(b: u32, pad: Seq<u8>)
    requires
        forall|i: int| 0 <= i < pad.len() ==> #[trigger] is_blank(pad[i]),
    ensures
        frame(CommandView::SetBaudrate(b)) == attention() + seq![
            '+' as u8,
            'B' as u8,
            'A' as u8,
            'U' as u8,
            'D' as u8,
            '=' as u8,
        ] + decimal_ascii(b as nat) + crlf(),
        decode_reply(CommandView::GetBaudrate, decimal_ascii(b as nat) + pad) == Ok::<
            ResponseView,
            Csr8645Error,
        >(ResponseView::U32(b)),
{
    let d = decimal_ascii(b as nat);
    let raw = d + pad;
    lemma_decimal_ascii(b as nat);
    assert(is_digit(d[0]) && is_digit(d.last()));
    assert(raw[0] == d[0]);
    assert(trim_start(raw) == raw);
    lemma_trim_end_padding(d, pad);
    assert(trim_blank(raw) == d);
    assert(d[0] != 0x2b);
    assert(parse_u32(d) == Some(b));
    assert forall|i: int| 0 <= i < raw.len() implies #[trigger] raw[i] < 0x80 by {
        if i < d.len() {
            assert(is_digit(d[i]));
        } else {
            assert(is_blank(pad[i - d.len()]));
        }
    }
    lemma_ascii_valid_utf8(raw);
    assert(frame(CommandView::SetBaudrate(b)) =~= attention() + seq![
        '+' as u8,
        'B' as u8,
        'A' as u8,
        'U' as u8,
        'D' as u8,
        '=' as u8,
    ] + d + crlf());
}

/// The bytes of ASCII text, one per character.
pub open spec fn ascii_bytes(s: Seq<char>) -> Seq<u8> {
    s.map_values(|c: char| (c as u32) as u8)
}

/// ASCII text encodes in UTF-8 as one byte per character.
pub proof fn lemma_encode_ascii(s: Seq<char>)
    requires
        forall|i: int| 0 <= i < s.len() ==> (#[trigger] s[i] as u32) < 0x80,
    ensures
        encode_utf8(s) == ascii_bytes(s),
    decreases s.len(),
{
    if s.len() > 0 {
        let rest = s.drop_first();
        assert forall|i: int| 0 <= i < rest.len() implies (#[trigger] rest[i] as u32) < 0x80 by {
            assert(rest[i] == s[i + 1]);
        }
        lemma_encode_ascii(rest);
        let v = s[0] as u32;
        assert(v < 0x80);
        assert(v & 0x7f == v) by (bit_vector)
            requires
                v < 0x80,
        ;
        assert(vstd::utf8::encode_scalar(v) =~= seq![v as u8]);
        assert(ascii_bytes(s) =~= seq![(s[0] as u32) as u8] + ascii_bytes(rest));
    } else {
        assert(ascii_bytes(s) =~= Seq::<u8>::empty());
    }
}

/// Naming the module with ASCII text `s` writes exactly `AT+NAME=`, the bytes
/// of `s`, and `\r\n`.
pub proof fn lemma_set_name_frame(s: Seq<char>)
    requires
        forall|i: int| 0 <= i < s.len() ==> (#[trigger] s[i] as u32) < 0x80,
    ensures
        frame(CommandView::SetName(s)) == seq![
            'A' as u8,
            'T' as u8,
            '+' as u8,
            'N' as u8,
            'A' as u8,
            'M' as u8,
            'E' as u8,
            '=' as u8,
        ] + ascii_bytes(s) + seq!['\r' as u8, '\n' as u8],
{
    lemma_encode_ascii(s);
    assert(frame(CommandView::SetName(s)) =~= seq![
        'A' as u8,
        'T' as u8,
        '+' as u8,
        'N' as u8,
        'A' as u8,
        'M' as u8,
        'E' as u8,
        '=' as u8,
    ] + ascii_bytes(s) + seq!['\r' as u8, '\n' as u8]);
}

/// A connection-status reply decodes to whether it holds `OK+CON`, never to
/// an error; an empty reply decodes to `false`.
pub proof fn lemma_connection_status(raw: Seq<u8>)
    ensures
        decode_reply(CommandView::CheckConnectionStatus, raw) == Ok::<
            ResponseView,
            Csr8645Error,
        >(ResponseView::Bool(contains_bytes(raw, link_marker()))),
        raw.len() == 0 ==> decode_reply(CommandView::CheckConnectionStatus, raw) == Ok::<
            ResponseView,
            Csr8645Error,
        >(ResponseView::Bool(false)),
{
    if raw.len() == 0 {
        assert forall|i: int| !#[trigger] occurs_at(raw, link_marker(), i) by {}
    }
}

/// Valid UTF-8 without a line-feed byte decodes to text without a line feed.
pub proof fn lemma_no_feed_byte(raw: Seq<u8>)
    requires
        valid_utf8(raw),
        forall|i: int| 0 <= i < raw.len() ==> #[trigger] raw[i] != 0x0a,
    ensures
        forall|i: int|
            0 <= i < decode_utf8(raw).len() ==> #[trigger] decode_utf8(raw)[i] != '\n',
    decreases raw.len(),
{
    if raw.len() > 0 {
        let k = length_of_first_scalar(raw);
        let rest = pop_first_scalar(raw);
        assert forall|i: int| 0 <= i < rest.len() implies #[trigger] rest[i] != 0x0a by {
            assert(rest[i] == raw[i + k]);
        }
        lemma_no_feed_byte(rest);
        let v = decode_first_scalar(raw);
        vstd::utf8::decode_utf8_first_scalar(raw);
        if v as char == '\n' {
            let feed: u32 = 0x0a;
            assert(feed & 0x7f == feed) by (bit_vector)
                requires
                    feed == 0x0a,
            ;
            assert(('\n' as u32) == feed);
            assert(vstd::utf8::encode_scalar(feed) == seq![0x0au8]);
            assert(vstd::utf8::take_first_scalar(raw)[0] == raw[0]);
        }
        let text = decode_utf8(raw);
        assert(text == seq![v as char] + decode_utf8(rest));
        assert forall|i: int| 0 <= i < text.len() implies #[trigger] text[i] != '\n' by {
            if i > 0 {
                assert(text[i] == decode_utf8(rest)[i - 1]);
            }
        }
    }
}

/// A scan reply without a line-feed byte is a list of one address: the
/// whole decoded text.
pub proof fn lemma_scan_single_line(raw: Seq<u8>)
    requires
        valid_utf8(raw),
        forall|i: int| 0 <= i < raw.len() ==> #[trigger] raw[i] != 0x0a,
    ensures
        decode_reply(CommandView::Scan, raw) == Ok::<ResponseView, Csr8645Error>(
            ResponseView::AddressList(seq![decode_utf8(raw)]),
        ),
{
    lemma_no_feed_byte(raw);
    lemma_split_lines_no_feed(decode_utf8(raw));
}

/// A PIN reply that is not valid UTF-8 is rejected as an invalid response.
pub proof fn lemma_pin_rejects_invalid_utf8(raw: Seq<u8>)
    requires
        !valid_utf8(raw),
    ensures
        decode_reply(CommandView::GetPin, raw) == Err::<ResponseView, Csr8645Error>(
            Csr8645Error::InvalidResponse,
        ),
{
}

/// Connecting to `address` writes `AT+CON`, the address and `\r\n`; when that
/// write fails, the exchange ends with the fault and nothing is read.
pub proof fn lemma_connect_write_fault(address: Seq<char>, fault: UartFault)
    ensures
        start_step(CommandView::Connect(address)) == (
            StageView::Sending(CommandView::Connect(address)),
            ActionView::Write(
                seq!['A' as u8, 'T' as u8, '+' as u8, 'C' as u8, 'O' as u8, 'N' as u8]
                    + encode_utf8(address) + seq!['\r' as u8, '\n' as u8],
            ),
        ),
        written_step(CommandView::Connect(address), Err(fault)) == (
            StageView::Idle,
            ActionView::Finish(Err(Csr8645Error::UartError(fault))),
        ),
{
    assert(frame(CommandView::Connect(address)) =~= seq![
        'A' as u8,
        'T' as u8,
        '+' as u8,
        'C' as u8,
        'O' as u8,
        'N' as u8,
    ] + encode_utf8(address) + seq!['\r' as u8, '\n' as u8]);
}

/// A failed write ends any exchange with that fault, and nothing is read.
pub proof fn lemma_write_fault_ends_exchange(c: CommandView, fault: UartFault)
    ensures
        written_step(c, Err(fault)) == (
            StageView::Idle,
            ActionView::Finish(Err(Csr8645Error::UartError(fault))),
        ),
{
}

/// A status exchange writes `AT+STATE?\r\n`, reads up to 64 bytes, and ends
/// back where it started, with no command outstanding; its outcome depends
/// on the reply alone. So asking twice while the module's reply stays the
/// same gives the same text both times.
pub proof fn lemma_status_repeatable(raw: Seq<u8>)
    requires
        valid_utf8(raw),
    ensures
        start_step(CommandView::GetStatus) == (
            StageView::Sending(CommandView::GetStatus),
            ActionView::Write(query_line(key_state())),
        ),
        written_step(CommandView::GetStatus, Ok(())) == (
            StageView::Receiving(CommandView::GetStatus),
            ActionView::Read(64),
        ),
        received_step(CommandView::GetStatus, Ok(raw)) == (
            StageView::Idle,
            ActionView::Finish(Ok(ResponseView::Text(decode_utf8(raw)))),
        ),
{
}

} // verus!
