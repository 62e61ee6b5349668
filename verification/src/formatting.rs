//! Rendering of message timestamps and payloads as text.

use vstd::prelude::*;
use vstd::string::*;
use vstd::utf8::{decode_utf8, valid_utf8};
use std::time::{Duration, SystemTime};
use crate::text::{decimal, decimal_string};

verus! {

/// `std::time::SystemTime`, a point in time as the system clock measures
/// it. Nothing is known of a value but that it can be carried.
#[verifier::external_type_specification]
#[verifier::external_body]
pub struct ExSystemTime(SystemTime);

/// The two hexadecimal digits of the values 0 to 15, in upper case.
pub open spec fn hex_digit(d: nat) -> char {
    if d == 0 {
        '0'
    } else if d == 1 {
        '1'
    } else if d == 2 {
        '2'
    } else if d == 3 {
        '3'
    } else if d == 4 {
        '4'
    } else if d == 5 {
        '5'
    } else if d == 6 {
        '6'
    } else if d == 7 {
        '7'
    } else if d == 8 {
        '8'
    } else if d == 9 {
        '9'
    } else if d == 10 {
        'A'
    } else if d == 11 {
        'B'
    } else if d == 12 {
        'C'
    } else if d == 13 {
        'D'
    } else if d == 14 {
        'E'
    } else {
        'F'
    }
}

/// A byte as two upper-case hexadecimal digits.
pub open spec fn hex_byte(b: u8) -> Seq<char> {
    seq![hex_digit((b / 16) as nat), hex_digit((b % 16) as nat)]
}

/// The bytes as two-digit hexadecimal numbers separated by single spaces.
pub open spec fn hex_dump(bytes: Seq<u8>) -> Seq<char>
    decreases bytes.len(),
{
    if bytes.len() == 0 {
        Seq::empty()
    } else if bytes.len() == 1 {
        hex_byte(bytes[0])
    } else {
        hex_dump(bytes.drop_last()) + seq![' '] + hex_byte(bytes.last())
    }
}

/// The text shown for a payload: its hexadecimal dump where that is asked
/// for or the payload is not UTF-8, else the text it encodes.
pub open spec fn payload_text(payload: Seq<u8>, as_hex: bool) -> Seq<char> {
    if !as_hex && valid_utf8(payload) {
        decode_utf8(payload)
    } else {
        hex_dump(payload)
    }
}

/// The text shown for a timestamp: the whole seconds since the Unix epoch,
/// or `0` for a time before it.
pub open spec fn timestamp_text(seconds: Option<u64>) -> Seq<char> {
    match seconds {
        Some(s) => decimal(s as nat),
        None => "0"@,
    }
}

/// The time from the Unix epoch to `time`, or `None` where `time` lies
/// before the epoch.
pub uninterp spec fn since_epoch_of(time: SystemTime) -> Option<Duration>;

/// The whole seconds of a duration.
pub uninterp spec fn seconds_of(duration: Duration) -> u64;

/// The whole seconds from the Unix epoch to `time`, or `None` where `time`
/// lies before the epoch.
pub open spec fn epoch_seconds(time: SystemTime) -> Option<u64> {
    match since_epoch_of(time) {
        Some(duration) => Some(seconds_of(duration)),
        None => None,
    }
}

/// Calls `SystemTime::duration_since` with the Unix epoch: the duration
/// since the epoch, or `None` where the time lies before it.
#[verifier::external_body]
pub(crate) fn since_epoch(time: SystemTime) -> (r: Option<Duration>)
    ensures
        r == since_epoch_of(time),
{
    time.duration_since(std::time::UNIX_EPOCH).ok()
}

/// Calls `Duration::as_secs`: the whole seconds of the duration.
#[verifier::external_body]
pub(crate) fn whole_seconds(duration: Duration) -> (r: u64)
    ensures
        r == seconds_of(duration),
{
    duration.as_secs()
}

/// Calls `String::from_utf8` on a copy of the bytes. The result is the
/// text the bytes encode, or `None` where they are not UTF-8.
#[verifier::external_body]
pub(crate) fn utf8_text(bytes: &[u8]) -> (text: Option<String>)
    ensures
        text is Some <==> valid_utf8(bytes@),
        text matches Some(t) ==> t@ == decode_utf8(bytes@),
{
    String::from_utf8(bytes.to_vec()).ok()
}

fn hex_digit_text(d: u8) -> (r: &'static str)
    requires
        d < 16,
    ensures
        r@ == seq![hex_digit(d as nat)],
{
    proof {
        reveal_strlit("0");
        reveal_strlit("1");
        reveal_strlit("2");
        reveal_strlit("3");
        reveal_strlit("4");
        reveal_strlit("5");
        reveal_strlit("6");
        reveal_strlit("7");
        reveal_strlit("8");
        reveal_strlit("9");
        reveal_strlit("A");
        reveal_strlit("B");
        reveal_strlit("C");
        reveal_strlit("D");
        reveal_strlit("E");
        reveal_strlit("F");
    }
    let r = if d == 0 {
        "0"
    } else if d == 1 {
        "1"
    } else if d == 2 {
        "2"
    } else if d == 3 {
        "3"
    } else if d == 4 {
        "4"
    } else if d == 5 {
        "5"
    } else if d == 6 {
        "6"
    } else if d == 7 {
        "7"
    } else if d == 8 {
        "8"
    } else if d == 9 {
        "9"
    } else if d == 10 {
        "A"
    } else if d == 11 {
        "B"
    } else if d == 12 {
        "C"
    } else if d == 13 {
        "D"
    } else if d == 14 {
        "E"
    } else {
        "F"
    };
    assert(r@ =~= seq![hex_digit(d as nat)]);
    r
}

/// Renders the bytes as two-digit hexadecimal numbers separated by spaces.
pub fn hex_string(bytes: &[u8]) -> (s: String)
    ensures
        s@ == hex_dump(bytes@),
{
    let mut s = String::new();
    let mut i: usize = 0;
    while i < bytes.len()
        invariant
            i <= bytes.len(),
            s@ == hex_dump(bytes@.take(i as int)),
        decreases bytes.len() - i,
    {
        let b = bytes[i];
        proof {
            reveal_strlit(" ");
            let before = bytes@.take(i as int);
            let now = bytes@.take(i + 1);
            assert(now.drop_last() =~= before);
            assert(now.last() == b);
        }
        if i > 0 {
            s.append(" ");
        }
        s.append(hex_digit_text(b / 16));
        s.append(hex_digit_text(b % 16));
        assert(s@ =~= hex_dump(bytes@.take(i + 1)));
        i += 1;
    }
    assert(bytes@.take(i as int) =~= bytes@);
    s
}

/// Renders whole seconds since the Unix epoch, `None` standing for a time
/// before it.
pub fn format_epoch_seconds(seconds: Option<u64>) -> (s: String)
    ensures
        s@ == timestamp_text(seconds),
{
    match seconds {
        Some(secs) => decimal_string(secs),
        None => String::from_str("0"),
    }
}

/// Renders a timestamp as the whole seconds since the Unix epoch, or as `0`
/// for a time before it.
pub fn format_timestamp(ts: SystemTime) -> (s: String)
    ensures
        s@ == timestamp_text(epoch_seconds(ts)),
{
    match since_epoch(ts) {
        Some(duration) => format_epoch_seconds(Some(whole_seconds(duration))),
        None => format_epoch_seconds(None),
    }
}

/// Renders a payload for display: as text where it is UTF-8 and
/// hexadecimal is not asked for, else as a hexadecimal dump.
pub fn format_payload(payload: &[u8], as_hex: bool) -> (s: String)
    ensures
        s@ == payload_text(payload@, as_hex),
{
    if as_hex {
        return hex_string(payload);
    }
    match utf8_text(payload) {
        Some(text) => text,
        None => hex_string(payload),
    }
}

} // verus!
