//! Whole messages out of pieces, and whole messages into a pipe.

use crate::text::{decimal, decimal_text, decimals_read_back, is_number, join2, number_in, told};
use vstd::prelude::*;

verus! {

/// The largest number of bytes in a message.
pub const MAX_PAYLOAD_BYTES: usize = 65_536;

/// What one read from a pipe came to.
pub enum ReadEvent {
    /// The rest of the message.
    Last(Vec<u8>),
    /// A piece of the message, with more to come.
    Part(Vec<u8>),
    /// The read failed or was broken off.
    Failed,
}

/// The view of a [`ReadEvent`].
pub enum ReadEventView {
    /// See [`ReadEvent::Last`].
    Last(Seq<u8>),
    /// See [`ReadEvent::Part`].
    Part(Seq<u8>),
    /// See [`ReadEvent::Failed`].
    Failed,
}

impl View for ReadEvent {
    type V = ReadEventView;

    open spec fn view(&self) -> ReadEventView {
        match *self {
            ReadEvent::Last(piece) => ReadEventView::Last(piece@),
            ReadEvent::Part(piece) => ReadEventView::Part(piece@),
            ReadEvent::Failed => ReadEventView::Failed,
        }
    }
}

/// What is to be done after a read.
pub enum ReadStep {
    /// Read on.
    More,
    /// Nothing more: this is the message, if there is one.
    Finished(Option<Vec<u8>>),
}

/// The view of a [`ReadStep`].
pub enum ReadStepView {
    /// See [`ReadStep::More`].
    More,
    /// See [`ReadStep::Finished`].
    Finished(Option<Seq<u8>>),
}

impl View for ReadStep {
    type V = ReadStepView;

    open spec fn view(&self) -> ReadStepView {
        match *self {
            ReadStep::More => ReadStepView::More,
            ReadStep::Finished(message) => ReadStepView::Finished(
                match message {
                    Some(bytes) => Some(bytes@),
                    None => None,
                },
            ),
        }
    }
}

/// The message that these bytes are: none where there are no bytes, or too many.
pub open spec fn message_of(bytes: Seq<u8>) -> Option<Seq<u8>> {
    if 0 < bytes.len() <= MAX_PAYLOAD_BYTES {
        Some(bytes)
    } else {
        None
    }
}

/// What is to be done after a read, with `read` from the reads before it.
pub open spec fn step_after_read(read: Seq<u8>, event: ReadEventView) -> ReadStepView {
    match event {
        ReadEventView::Last(piece) => ReadStepView::Finished(message_of(read + piece)),
        ReadEventView::Part(piece) => if read.len() + piece.len() <= MAX_PAYLOAD_BYTES {
            ReadStepView::More
        } else {
            ReadStepView::Finished(None)
        },
        ReadEventView::Failed => ReadStepView::Finished(None),
    }
}

/// What a reader holds after a read: a piece that leaves room for more is kept, and a
/// message that is complete is handed out.
pub open spec fn read_so_far(read: Seq<u8>, event: ReadEventView) -> Seq<u8> {
    match event {
        ReadEventView::Last(piece) if read.len() + piece.len() <= MAX_PAYLOAD_BYTES => Seq::empty(),
        ReadEventView::Part(piece) if read.len() + piece.len() <= MAX_PAYLOAD_BYTES => read + piece,
        _ => read,
    }
}

/// Puts a message together from the reads of a pipe.
pub struct MessageReader {
    message: Vec<u8>,
}

impl View for MessageReader {
    type V = Seq<u8>;

    closed spec fn view(&self) -> Seq<u8> {
        self.message@
    }
}

impl MessageReader {
    /// What has been read is no longer than a message may be.
    pub open spec fn wf(&self) -> bool {
        self@.len() <= MAX_PAYLOAD_BYTES
    }

    /// A reader that has read nothing yet.
    pub fn new() -> (r: MessageReader)
        ensures
            r@ == Seq::<u8>::empty(),
            r.wf(),
    {
        MessageReader { message: Vec::new() }
    }

    /// Takes in what one read came to. A message that would grow too long is given up
    /// with the read that makes it so.
    pub fn take(&mut self, event: ReadEvent) -> (step: ReadStep)
        requires
            old(self).wf(),
        ensures
            step@ == step_after_read(old(self)@, event@),
            final(self).wf(),
            final(self)@ == read_so_far(old(self)@, event@),
    {
        let (piece, complete) = match event {
            ReadEvent::Failed => {
                return ReadStep::Finished(None);
            },
            ReadEvent::Last(piece) => (piece, true),
            ReadEvent::Part(piece) => (piece, false),
        };
        let new_len: usize = match self.message.len().checked_add(piece.len()) {
            Some(sum) => sum,
            None => {
                return ReadStep::Finished(None);
            },
        };
        if new_len > MAX_PAYLOAD_BYTES {
            return ReadStep::Finished(None);
        }
        let mut piece: Vec<u8> = piece;
        self.message.append(&mut piece);
        if !complete {
            return ReadStep::More;
        }
        let mut message: Vec<u8> = Vec::new();
        message.append(&mut self.message);
        if message.len() == 0 {
            ReadStep::Finished(None)
        } else {
            ReadStep::Finished(Some(message))
        }
    }
}

/// The pieces of a message, one behind the other.
pub open spec fn glued(pieces: Seq<Seq<u8>>) -> Seq<u8>
    decreases pieces.len(),
{
    if pieces.len() == 0 {
        Seq::empty()
    } else {
        pieces.first() + glued(pieces.drop_first())
    }
}

/// The end of a series of reads, with `read` from the reads before them, that brings
/// in `pieces` and then `last` as the rest of the message.
pub open spec fn read_run(read: Seq<u8>, pieces: Seq<Seq<u8>>, last: Seq<u8>) -> ReadStepView
    decreases pieces.len(),
{
    if pieces.len() == 0 {
        step_after_read(read, ReadEventView::Last(last))
    } else {
        match step_after_read(read, ReadEventView::Part(pieces.first())) {
            ReadStepView::More => read_run(
                read_so_far(read, ReadEventView::Part(pieces.first())),
                pieces.drop_first(),
                last,
            ),
            end => end,
        }
    }
}

/// However a message is cut into pieces, what is read is the message: all of it, in
/// order, where its length is within the limit and not zero, and nothing otherwise.
pub proof fn pieces_make_the_message(read: Seq<u8>, pieces: Seq<Seq<u8>>, last: Seq<u8>)
    requires
        read.len() <= MAX_PAYLOAD_BYTES,
    ensures
        read_run(read, pieces, last) == ReadStepView::Finished(
            message_of(read + glued(pieces) + last),
        ),
    decreases pieces.len(),
{
    if pieces.len() == 0 {
        assert(read + glued(pieces) + last == read + last);
    } else {
        let first = pieces.first();
        let rest = pieces.drop_first();
        assert(read + glued(pieces) + last == (read + first) + glued(rest) + last);
        if read.len() + first.len() <= MAX_PAYLOAD_BYTES {
            pieces_make_the_message(read + first, rest, last);
        }
    }
}

/// The message for a write that took another number of bytes than it should have.
pub open spec fn short_write_text(expected: nat, written: nat) -> Seq<char> {
    "送信バイト数が一致しません: 期待="@ + decimal(expected) + ", 実際="@ + decimal(written)
}

/// Checks that a message of `len` bytes was written whole, by the number of bytes that
/// the pipe took. That number has 32 bits, so the length is compared modulo 2^32.
pub fn check_written(len: usize, written: u32) -> (r: Result<(), String>)
    ensures
        r is Ok == (written == len as int % 0x1_0000_0000),
        r matches Err(message) ==> message@ == short_write_text(len as nat, written as nat),
{
    let expected: u64 = (len as u64) % 0x1_0000_0000u64;
    if written as u64 == expected {
        return Ok(());
    }
    let mut message: String = "送信バイト数が一致しません: 期待=".to_owned();
    let expected_text: String = decimal_text(len as u64);
    let written_text: String = decimal_text(written as u64);
    message.append(expected_text.as_str());
    message.append(", 実際=");
    message.append(written_text.as_str());
    Err(message)
}

/// The result of a write: a write that failed is told as `front` and its error, and
/// one that took another number of bytes as the two numbers.
pub open spec fn write_result_text(
    front: Seq<char>,
    len: nat,
    written: Result<u32, Seq<char>>,
) -> Result<(), Seq<char>> {
    match written {
        Err(error) => Err(front + error),
        Ok(count) => if count == len as int % 0x1_0000_0000 {
            Ok(())
        } else {
            Err(short_write_text(len, count as nat))
        },
    }
}

/// Judges the write of a message of `len` bytes.
pub fn write_result(front: &str, len: usize, written: Result<u32, String>) -> (r: Result<
    (),
    String,
>)
    ensures
        told(r) == write_result_text(front@, len as nat, told(written)),
{
    match written {
        Err(error) => Err(join2(front, error.as_str())),
        Ok(count) => check_written(len, count),
    }
}

/// Whatever pieces a message comes in, it is got whole and in order where it has
/// between 1 and 65,536 bytes, and not at all otherwise.
pub proof fn messages_come_whole_or_not_at_all(pieces: Seq<Seq<u8>>, last: Seq<u8>)
    ensures
        ({
            let whole = glued(pieces) + last;
            let end = read_run(Seq::empty(), pieces, last);
            &&& end is Finished
            &&& 1 <= whole.len() <= 65536 ==> end->Finished_0 == Some(whole)
            &&& whole.len() == 0 || whole.len() > 65536 ==> end->Finished_0 is None
        }),
{
    pieces_make_the_message(Seq::empty(), pieces, last);
    assert(Seq::<u8>::empty() + glued(pieces) + last =~= glued(pieces) + last);
}

/// One piece alone is the message, and two are the one behind the other.
pub proof fn pieces_stand_behind_each_other(first: Seq<u8>, second: Seq<u8>)
    requires
        1 <= first.len() + second.len() <= 65536,
    ensures
        first.len() > 0 ==> read_run(Seq::empty(), Seq::empty(), first) == ReadStepView::Finished(
            Some(first),
        ),
        ({
            let end = read_run(Seq::empty(), seq![first], second);
            &&& end is Finished && end->Finished_0 is Some
            &&& end->Finished_0->0.len() == first.len() + second.len()
            &&& forall|i: int| 0 <= i < first.len() ==> end->Finished_0->0[i] == #[trigger] first[i]
            &&& forall|i: int|
                0 <= i < second.len() ==> end->Finished_0->0[first.len() + i] == #[trigger] second[i]
        }),
{
    messages_come_whole_or_not_at_all(Seq::empty(), first);
    messages_come_whole_or_not_at_all(seq![first], second);
    assert(glued(Seq::empty()) + first =~= first);
    assert(seq![first].drop_first() =~= Seq::<Seq<u8>>::empty());
    assert(glued(seq![first]) =~= first);
}

/// A reader keeps every piece that leaves room for more, behind those that it kept
/// before, and starts anew with nothing.
pub proof fn readers_keep_their_pieces(read: Seq<u8>, piece: Seq<u8>, new: MessageReader)
    requires
        call_ensures(MessageReader::new, (), new),
    ensures
        new@.len() == 0,
        read.len() + piece.len() <= 65536 ==> {
            &&& step_after_read(read, ReadEventView::Part(piece)) is More
            &&& read_so_far(read, ReadEventView::Part(piece)) =~= read + piece
        },
        read.len() + piece.len() > 65536 ==> step_after_read(read, ReadEventView::Part(piece))
            == ReadStepView::Finished(None),
        step_after_read(read, ReadEventView::Failed) == ReadStepView::Finished(None),
{
}

/// `message` tells the two numbers of a short write, each of which reads back.
pub open spec fn tells_numbers(message: Seq<char>, expected: int, written: int) -> bool {
    exists|a: Seq<char>, b: Seq<char>|
        #![trigger number_in(a), number_in(b)]
        is_number(a) && is_number(b) && number_in(a) == expected && number_in(b) == written
            && message =~= "送信バイト数が一致しません: 期待="@ + a + ", 実際="@ + b
}

/// A write is whole exactly where as many bytes were taken as the message has, and a
/// short one is told with both numbers.
pub proof fn short_writes_are_told(len: usize, written: u32, result: Result<(), String>)
    requires
        call_ensures(check_written, (len, written), result),
    ensures
        len < 0x1_0000_0000 ==> (result is Ok <==> written == len),
        len as int % 0x1_0000_0000 != written ==> result is Err,
        result matches Err(message) ==> tells_numbers(message@, len as int, written as int),
{
    decimals_read_back(len as nat);
    decimals_read_back(written as nat);
    if let Err(message) = result {
        let a = decimal(len as nat);
        let b = decimal(written as nat);
        assert(number_in(a) == len && number_in(b) == written);
    }
}

/// A write that failed is told with what the pipe said, behind `front`, and one that
/// went through is judged by the number of bytes that were taken.
pub proof fn writes_are_judged_by_their_numbers(
    front: &str,
    len: usize,
    written: Result<u32, String>,
    result: Result<(), String>,
)
    requires
        call_ensures(write_result, (front, len, written), result),
        len < 0x1_0000_0000,
    ensures
        result is Ok <==> written == Ok::<u32, String>(len as u32),
        written matches Err(error) ==> (result matches Err(message) && message@ =~= front@ + error@),
        written matches Ok(count) ==> (count != len ==> (result matches Err(message)
            && tells_numbers(message@, len as int, count as int))),
{
    decimals_read_back(len as nat);
    if let Ok(count) = written {
        decimals_read_back(count as nat);
        if let Err(message) = result {
            let a = decimal(len as nat);
            let b = decimal(count as nat);
            assert(number_in(a) == len && number_in(b) == count);
        }
    }
}

/// What a reader does with a read: the rest of a message completes it behind what was
/// kept, and the reader is empty again; a piece is kept behind what was kept; what would
/// make more than 65,536 bytes, what makes none, and a failed read give no message.
pub proof fn readers_take_what_is_read(
    before: MessageReader,
    event: ReadEvent,
    after: MessageReader,
    step: ReadStep,
)
    requires
        before.wf(),
        exists|reader: &mut MessageReader|
            *reader == before && *final(reader) == after && #[trigger] call_ensures(
                MessageReader::take,
                (reader, event),
                step,
            ),
    ensures
        after.wf(),
        event matches ReadEvent::Last(piece) ==> {
            let whole = before@ + piece@;
            &&& step is Finished
            &&& 1 <= whole.len() <= 65536 ==> (step matches ReadStep::Finished(Some(m)) && m@
                =~= whole)
            &&& !(1 <= whole.len() <= 65536) ==> step->Finished_0 is None
            &&& whole.len() <= 65536 ==> after@.len() == 0
        },
        event matches ReadEvent::Part(piece) ==> {
            let whole = before@ + piece@;
            &&& whole.len() <= 65536 ==> step is More && after@ =~= whole
            &&& whole.len() > 65536 ==> (step matches ReadStep::Finished(m) && m is None)
        },
        event is Failed ==> (step matches ReadStep::Finished(m) && m is None),
{
    assert(step@ == step_after_read(before@, event@));
}

} // verus!
