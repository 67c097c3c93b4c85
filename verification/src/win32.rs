//! What the codes of failed system calls mean, and text in the form that system calls
//! take.
//!
//! A failed call comes with an `HRESULT`; the system's own error numbers are mapped to
//! those before the two are compared.

use crate::client::ConnectFailure;
use crate::message::{ReadEvent, ReadEventView};
use crate::server::{client_connected, WaitOutcome};
use crate::text::chars_of;
use vstd::prelude::*;

verus! {

/// The name of the pipe.
pub const PIPE_NAME: &'static str = "\\\\.\\pipe\\aviutl2_audio_rec";

/// There is no file or pipe of that name.
pub const ERROR_FILE_NOT_FOUND: u32 = 2;

/// Every instance of the pipe is in use.
pub const ERROR_PIPE_BUSY: u32 = 231;

/// The message is longer than what was read of it.
pub const ERROR_MORE_DATA: u32 = 234;

/// A client had connected before the wait for one began.
pub const ERROR_PIPE_CONNECTED: u32 = 535;

/// The `HRESULT` for an error number: 0 and numbers with the highest bit set stand for
/// themselves, any other one is put into the low half of `0x8007_0000`.
pub open spec fn hresult(error: u32) -> int {
    if error == 0 {
        0
    } else if error >= 0x8000_0000 {
        error - 0x1_0000_0000
    } else {
        0x8007_0000 + error % 0x1_0000 - 0x1_0000_0000
    }
}

/// Maps an error number to its `HRESULT`.
pub fn to_hresult(error: u32) -> (r: i32)
    ensures
        r == hresult(error),
{
    if error == 0 {
        0
    } else if error >= 0x8000_0000 {
        (error as i64 - 0x1_0000_0000i64) as i32
    } else {
        (0x8007_0000i64 + (error % 0x1_0000) as i64 - 0x1_0000_0000i64) as i32
    }
}

/// Tells why a try to connect failed.
pub fn connect_failure(code: i32) -> (r: ConnectFailure)
    ensures
        r == (if code == hresult(ERROR_PIPE_BUSY) {
            ConnectFailure::PipeBusy
        } else if code == hresult(ERROR_FILE_NOT_FOUND) {
            ConnectFailure::NotFound
        } else {
            ConnectFailure::Other
        }),
{
    if code == to_hresult(ERROR_PIPE_BUSY) {
        ConnectFailure::PipeBusy
    } else if code == to_hresult(ERROR_FILE_NOT_FOUND) {
        ConnectFailure::NotFound
    } else {
        ConnectFailure::Other
    }
}

/// Tells what a wait for a client came to; `code` is there where the call failed.
pub fn wait_outcome(code: Option<i32>) -> (r: WaitOutcome)
    ensures
        r == (match code {
            None => WaitOutcome::Connected,
            Some(c) => if c == hresult(ERROR_PIPE_CONNECTED) {
                WaitOutcome::AlreadyConnected
            } else {
                WaitOutcome::Failed
            },
        }),
{
    match code {
        None => WaitOutcome::Connected,
        Some(c) => {
            if c == to_hresult(ERROR_PIPE_CONNECTED) {
                WaitOutcome::AlreadyConnected
            } else {
                WaitOutcome::Failed
            }
        },
    }
}

/// Tells what a read that brought in `piece` came to; `code` is there where the call
/// failed.
pub fn read_event(code: Option<i32>, piece: Vec<u8>) -> (r: ReadEvent)
    ensures
        r@ == (match code {
            None => ReadEventView::Last(piece@),
            Some(c) => if c == hresult(ERROR_MORE_DATA) {
                ReadEventView::Part(piece@)
            } else {
                ReadEventView::Failed
            },
        }),
{
    match code {
        None => ReadEvent::Last(piece),
        Some(c) => {
            if c == to_hresult(ERROR_MORE_DATA) {
                ReadEvent::Part(piece)
            } else {
                ReadEvent::Failed
            }
        },
    }
}

/// A character in UTF-16: one unit, or two for those beyond the first 65,536.
pub open spec fn units_of(c: char) -> Seq<u16> {
    if c as u32 <= 0xffff {
        seq![(c as u32) as u16]
    } else {
        seq![
            (0xd800 + (c as u32 - 0x1_0000) / 0x400) as u16,
            (0xdc00 + (c as u32 - 0x1_0000) % 0x400) as u16,
        ]
    }
}

/// Text in UTF-16.
pub open spec fn utf16(text: Seq<char>) -> Seq<u16>
    decreases text.len(),
{
    if text.len() == 0 {
        Seq::empty()
    } else {
        utf16(text.drop_last()) + units_of(text.last())
    }
}

/// Text in UTF-16 with a zero at its end.
pub open spec fn wide(text: Seq<char>) -> Seq<u16> {
    utf16(text).push(0)
}

/// Writes text in UTF-16 with a zero at its end.
pub fn wide_text(text: &str) -> (r: Vec<u16>)
    ensures
        r@ == wide(text@),
{
    let chars: Vec<char> = chars_of(text);
    let mut out: Vec<u16> = Vec::new();
    let mut i: usize = 0;
    while i < chars.len()
        invariant
            i <= chars.len(),
            chars@ == text@,
            out@ == utf16(text@.take(i as int)),
        decreases chars.len() - i,
    {
        let c: char = chars[i];
        let code: u32 = c as u32;
        proof {
            let longer = text@.take(i + 1);
            assert(longer.drop_last() == text@.take(i as int));
            assert(longer.last() == c);
        }
        if code <= 0xffff {
            out.push(code as u16);
        } else {
            out.push((0xd800 + (code - 0x1_0000) / 0x400) as u16);
            out.push((0xdc00 + (code - 0x1_0000) % 0x400) as u16);
        }
        i = i + 1;
        assert(out@ =~= utf16(text@.take(i as int)));
    }
    assert(text@.take(i as int) == text@);
    out.push(0);
    out
}

/// The name of the pipe in the form that system calls take.
pub fn pipe_name_wide() -> (r: Vec<u16>)
    ensures
        r@ == wide(PIPE_NAME@),
{
    wide_text(PIPE_NAME)
}

/// An error number of 16 bits is the low half of its `HRESULT`, whose high half marks
/// it as one of the system's; no two of them share one. Success stays success.
pub proof fn error_numbers_stay_in_their_codes(error: u32, other: u32, code: i32, other_code: i32)
    requires
        call_ensures(to_hresult, (error,), code),
        call_ensures(to_hresult, (other,), other_code),
    ensures
        error == 0 <==> code == 0,
        0 < error <= 0xffff ==> code == error as int - 2147024896,
        error <= 0xffff && other <= 0xffff && code == other_code ==> error == other,
        error >= 0x8000_0000 ==> code == error as int - 0x1_0000_0000,
{
}

/// Which codes of a failed try to connect stand for a pipe in use and for one that is
/// missing: those of the errors 231 and 2, and no others.
pub proof fn connect_codes_are_told_apart(code: i32, failure: ConnectFailure)
    requires
        call_ensures(connect_failure, (code,), failure),
    ensures
        failure is PipeBusy <==> code == -2147024665,
        failure is NotFound <==> code == -2147024894,
{
}

/// A client is there where the wait for one succeeds or fails with error 535, and only
/// there.
pub proof fn wait_codes_are_told_apart(code: Option<i32>, outcome: WaitOutcome, there: bool)
    requires
        call_ensures(wait_outcome, (code,), outcome),
        call_ensures(client_connected, (outcome,), there),
    ensures
        there <==> code is None || code == Some(-2147024361i32),
{
}

/// A read that succeeds brings the rest of a message, one that fails with error 234 a
/// piece of it, whole and unchanged either way, and any other none.
pub proof fn read_codes_are_told_apart(code: Option<i32>, piece: Vec<u8>, event: ReadEvent)
    requires
        call_ensures(read_event, (code, piece), event),
    ensures
        code is None ==> (event matches ReadEvent::Last(p) && p@ == piece@),
        code == Some(-2147024662i32) ==> (event matches ReadEvent::Part(p) && p@ == piece@),
        code is Some && code != Some(-2147024662i32) ==> event is Failed,
{
    assert(hresult(ERROR_MORE_DATA) == -2147024662);
}

/// The text that units of UTF-16 stand for: a unit by itself, or a high and a low
/// surrogate together.
pub open spec fn read_utf16(units: Seq<u16>) -> Seq<int>
    decreases units.len(),
{
    if units.len() == 0 {
        Seq::empty()
    } else if units.len() >= 2 && 0xdc00 <= units.last() < 0xe000 {
        read_utf16(units.drop_last().drop_last()).push(
            0x1_0000 + (units[units.len() - 2] - 0xd800) * 0x400 + (units.last() - 0xdc00),
        )
    } else {
        read_utf16(units.drop_last()).push(units.last() as int)
    }
}

/// The numbers of characters.
pub open spec fn points_of(text: Seq<char>) -> Seq<int> {
    text.map_values(|c: char| c as int)
}

/// A character behind others is read back from its units.
proof fn units_read_back(front: Seq<u16>, c: char)
    ensures
        read_utf16(front + units_of(c)) =~= read_utf16(front).push(c as int),
{
    let units = front + units_of(c);
    if c as u32 <= 0xffff {
        assert(units.drop_last() =~= front);
        assert(units.last() == c as u32);
    } else {
        let v = c as u32 - 0x1_0000;
        assert(units.drop_last().drop_last() =~= front);
        assert(units.last() == 0xdc00 + v % 0x400);
        assert(units[units.len() - 2] == 0xd800 + v / 0x400);
        assert(v == (v / 0x400) * 0x400 + v % 0x400);
    }
}

/// UTF-16 reads back as the text that was written.
proof fn utf16_reads_back(text: Seq<char>)
    ensures
        read_utf16(utf16(text)) =~= points_of(text),
    decreases text.len(),
{
    if text.len() > 0 {
        let front = text.drop_last();
        utf16_reads_back(front);
        units_read_back(utf16(front), text.last());
        assert(points_of(text) =~= points_of(front).push(text.last() as int));
    }
}

/// Text in the form that system calls take reads back as that text, and a zero ends it.
pub proof fn wide_texts_read_back(text: &str, units: Vec<u16>)
    requires
        call_ensures(wide_text, (text,), units),
    ensures
        units@.len() > 0,
        units@.last() == 0,
        read_utf16(units@.drop_last()) =~= points_of(text@),
{
    utf16_reads_back(text@);
    assert(units@.drop_last() =~= utf16(text@));
}

/// The pipe has its name, which ends in a zero.
pub proof fn the_pipe_has_its_name(units: Vec<u16>)
    requires
        call_ensures(pipe_name_wide, (), units),
    ensures
        units@.len() > 0,
        units@.last() == 0,
        read_utf16(units@.drop_last()) =~= points_of("\\\\.\\pipe\\aviutl2_audio_rec"@),
{
    utf16_reads_back(PIPE_NAME@);
    assert(units@.drop_last() =~= utf16(PIPE_NAME@));
}

} // verus!
