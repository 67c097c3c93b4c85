//! The client's side of the pipe: connecting, sending a command and reading the
//! response.

use crate::encoding::{decode_lossy, lossy_text, sent_text_arrives};
use crate::message::{tells_numbers, write_result, write_result_text};
use crate::text::{decimal, decimal_text, decimals_read_back, join2, number_in, told};
use vstd::prelude::*;
use vstd::utf8::encode_utf8;

verus! {

/// The largest number of tries to connect.
pub const MAX_RETRIES: u32 = 3;

/// How long to wait for a pipe that is in use, in milliseconds.
pub const MAX_WAIT_MS: u32 = 5_000;

/// How long to pause when there is no pipe yet, in milliseconds.
pub const PAUSE_MS: u64 = 500;

/// The largest number of bytes in a response.
pub const MAX_RESPONSE_BYTES: usize = 65_536;

/// Why a try to connect failed.
#[derive(Clone, Copy, Debug, PartialEq, Eq, Structural)]
pub enum ConnectFailure {
    /// Every instance of the pipe is in use.
    PipeBusy,
    /// There is no pipe of that name, perhaps not yet.
    NotFound,
    /// Anything else.
    Other,
}

/// What is to be done after a try to connect failed.
pub enum ConnectStep {
    /// Tell the user this, wait until the pipe is free, for [`MAX_WAIT_MS`] at most,
    /// and try again.
    WaitForPipe(String),
    /// Tell the user this, pause for [`PAUSE_MS`] and try again.
    Pause(String),
    /// Give up with this message.
    GiveUp(String),
}

/// The view of a [`ConnectStep`].
pub enum ConnectStepView {
    /// See [`ConnectStep::WaitForPipe`].
    WaitForPipe(Seq<char>),
    /// See [`ConnectStep::Pause`].
    Pause(Seq<char>),
    /// See [`ConnectStep::GiveUp`].
    GiveUp(Seq<char>),
}

impl View for ConnectStep {
    type V = ConnectStepView;

    open spec fn view(&self) -> ConnectStepView {
        match *self {
            ConnectStep::WaitForPipe(notice) => ConnectStepView::WaitForPipe(notice@),
            ConnectStep::Pause(notice) => ConnectStepView::Pause(notice@),
            ConnectStep::GiveUp(message) => ConnectStepView::GiveUp(message@),
        }
    }
}

/// The count of tries in a notice, such as `(1/3)`.
pub open spec fn tries_text(attempt: nat) -> Seq<char> {
    "("@ + decimal(attempt + 1) + "/"@ + decimal(MAX_RETRIES as nat) + ")"@
}

/// What is to be done after try number `attempt`, counted from 0, has failed. The last
/// try ends with the count of tries, whatever its error. Before that, a pipe that is
/// in use or missing is tried again and any other error ends the tries.
pub open spec fn step_after_failure(
    attempt: nat,
    failure: ConnectFailure,
    error: Seq<char>,
) -> ConnectStepView {
    if attempt + 1 >= MAX_RETRIES {
        ConnectStepView::GiveUp(
            "Named Pipe への接続に "@ + decimal(MAX_RETRIES as nat)
                + " 回試みましたが失敗しました (最後のエラー: "@ + error + ")"@,
        )
    } else {
        match failure {
            ConnectFailure::PipeBusy => ConnectStepView::WaitForPipe(
                "パイプが使用中です。待機してリトライします... "@ + tries_text(attempt),
            ),
            ConnectFailure::NotFound => ConnectStepView::Pause(
                "パイプが見つかりません。プラグインの起動を待機します... "@ + tries_text(attempt),
            ),
            ConnectFailure::Other => ConnectStepView::GiveUp(
                "Named Pipe への接続に失敗しました: "@ + error,
            ),
        }
    }
}

/// Writes a notice with the count of tries behind it.
fn notice_with_tries(front: &str, attempt: u32) -> (r: String)
    requires
        attempt < MAX_RETRIES,
    ensures
        r@ == front@ + tries_text(attempt as nat),
{
    let mut notice: String = join2(front, "(");
    let count: String = decimal_text((attempt + 1) as u64);
    let total: String = decimal_text(MAX_RETRIES as u64);
    notice.append(count.as_str());
    notice.append("/");
    notice.append(total.as_str());
    notice.append(")");
    assert(notice@ == front@ + tries_text(attempt as nat));
    notice
}

/// Decides what follows a try to connect that failed; tries are counted from 0.
pub fn after_failed_connect(attempt: u32, failure: ConnectFailure, error: &str) -> (step:
    ConnectStep)
    ensures
        step@ == step_after_failure(attempt as nat, failure, error@),
{
    if attempt >= MAX_RETRIES - 1 {
        let mut message: String = "Named Pipe への接続に ".to_owned();
        let total: String = decimal_text(MAX_RETRIES as u64);
        message.append(total.as_str());
        message.append(" 回試みましたが失敗しました (最後のエラー: ");
        message.append(error);
        message.append(")");
        return ConnectStep::GiveUp(message);
    }
    match failure {
        ConnectFailure::PipeBusy => ConnectStep::WaitForPipe(
            notice_with_tries("パイプが使用中です。待機してリトライします... ", attempt),
        ),
        ConnectFailure::NotFound => ConnectStep::Pause(
            notice_with_tries(
                "パイプが見つかりません。プラグインの起動を待機します... ",
                attempt,
            ),
        ),
        ConnectFailure::Other => ConnectStep::GiveUp(
            join2("Named Pipe への接続に失敗しました: ", error),
        ),
    }
}

/// What connecting comes to from try number `attempt` on, if `outcomes` holds what each
/// try would come to: the number of tries, and the result. With nothing left in
/// `outcomes` there is no connection.
pub open spec fn connect_run(
    attempt: nat,
    outcomes: Seq<Result<(), (ConnectFailure, Seq<char>)>>,
) -> (nat, Result<(), Seq<char>>)
    decreases outcomes.len() - attempt,
{
    if attempt >= outcomes.len() {
        (attempt, Err(Seq::empty()))
    } else {
        match outcomes[attempt as int] {
            Ok(()) => (attempt + 1, Ok(())),
            Err((failure, error)) => match step_after_failure(attempt, failure, error) {
                ConnectStepView::GiveUp(message) => (attempt + 1, Err(message)),
                _ => connect_run(attempt + 1, outcomes),
            },
        }
    }
}

/// There are never more tries than [`MAX_RETRIES`].
pub proof fn tries_are_bounded(
    attempt: nat,
    outcomes: Seq<Result<(), (ConnectFailure, Seq<char>)>>,
)
    requires
        outcomes.len() >= MAX_RETRIES,
        attempt < MAX_RETRIES,
    ensures
        attempt < connect_run(attempt, outcomes).0 <= MAX_RETRIES,
    decreases MAX_RETRIES - attempt,
{
    if outcomes[attempt as int] is Err && attempt + 1 < MAX_RETRIES {
        tries_are_bounded(attempt + 1, outcomes);
    }
}

/// The first try that succeeds ends the tries with a connection, as long as the ones
/// before it found the pipe in use or missing.
pub proof fn connects_at_the_first_success(
    attempt: nat,
    success: nat,
    outcomes: Seq<Result<(), (ConnectFailure, Seq<char>)>>,
)
    requires
        outcomes.len() >= MAX_RETRIES,
        attempt <= success < MAX_RETRIES,
        outcomes[success as int] is Ok,
        forall|i: int|
            attempt <= i < success ==> (#[trigger] outcomes[i] matches Err((failure, _)) && failure
                != ConnectFailure::Other),
    ensures
        connect_run(attempt, outcomes) == (success + 1, Ok::<(), Seq<char>>(())),
    decreases success - attempt,
{
    if attempt < success {
        assert(outcomes[attempt as int] is Err);
        connects_at_the_first_success(attempt + 1, success, outcomes);
    }
}

/// An error other than a pipe in use or missing ends the tries at once.
pub proof fn other_errors_are_final(
    attempt: nat,
    outcomes: Seq<Result<(), (ConnectFailure, Seq<char>)>>,
    error: Seq<char>,
)
    requires
        attempt < outcomes.len(),
        outcomes[attempt as int] == Err::<(), (ConnectFailure, Seq<char>)>(
            (ConnectFailure::Other, error),
        ),
    ensures
        connect_run(attempt, outcomes).0 == attempt + 1,
        connect_run(attempt, outcomes).1 is Err,
{
}

/// Judges whether the command was sent.
pub fn command_sent(len: usize, written: Result<u32, String>) -> (r: Result<(), String>)
    ensures
        told(r) == write_result_text(
            "コマンドの送信に失敗しました: "@,
            len as nat,
            told(written),
        ),
{
    write_result("コマンドの送信に失敗しました: ", len, written)
}

/// Decodes the response.
pub fn response_text(read: Result<Vec<u8>, String>) -> (r: Result<String, String>)
    ensures
        match read {
            Ok(bytes) => r matches Ok(text) && text@ == lossy_text(bytes@)
                && (vstd::utf8::valid_utf8(bytes@) ==> text@ == vstd::utf8::decode_utf8(bytes@)),
            Err(error) => r matches Err(message) && message@
                == "レスポンスの受信に失敗しました: "@ + error@,
        },
{
    match read {
        Ok(bytes) => Ok(decode_lossy(bytes.as_slice())),
        Err(error) => Err(join2("レスポンスの受信に失敗しました: ", error.as_str())),
    }
}

/// What is to be done next to send a command and get its response.
pub enum ExchangeStep {
    /// Connect to the pipe.
    Connect,
    /// Write the command.
    Write,
    /// Read the response.
    Read,
    /// Nothing more: this is the response, or the message that there is none.
    Finished(Result<String, String>),
}

/// What came of an [`ExchangeStep`].
pub enum ExchangeEvent {
    /// The connection is there, or the message that it is not.
    Connected(Result<(), String>),
    /// The number of bytes that the pipe took.
    Written(Result<u32, String>),
    /// The bytes that came out of the pipe.
    Received(Result<Vec<u8>, String>),
}

/// `event` tells what came of `step`.
pub open spec fn comes_of(step: ExchangeStep, event: ExchangeEvent) -> bool {
    match step {
        ExchangeStep::Connect => event is Connected,
        ExchangeStep::Write => event is Written,
        ExchangeStep::Read => event is Received,
        ExchangeStep::Finished(_) => false,
    }
}

/// The exchange has ended without a response, with this message.
pub open spec fn ends_with(step: ExchangeStep, message: Seq<char>) -> bool {
    step matches ExchangeStep::Finished(Err(m)) && m@ == message
}

/// `next` follows once `event` has come of a step in sending a command of `len` bytes.
/// The response is read only where the command was written whole.
pub open spec fn exchange_follows(len: nat, event: ExchangeEvent, next: ExchangeStep) -> bool {
    match event {
        ExchangeEvent::Connected(Ok(())) => next is Write,
        ExchangeEvent::Connected(Err(message)) => ends_with(next, message@),
        ExchangeEvent::Written(written) => match write_result_text(
            "コマンドの送信に失敗しました: "@,
            len,
            told(written),
        ) {
            Ok(()) => next is Read,
            Err(message) => ends_with(next, message),
        },
        ExchangeEvent::Received(Ok(bytes)) => {
            &&& next matches ExchangeStep::Finished(Ok(text)) && text@ == lossy_text(bytes@)
                && (vstd::utf8::valid_utf8(bytes@) ==> text@ == vstd::utf8::decode_utf8(bytes@))
        },
        ExchangeEvent::Received(Err(error)) => ends_with(
            next,
            "レスポンスの受信に失敗しました: "@ + error@,
        ),
    }
}

impl ExchangeStep {
    /// Decides what follows once `event` has come of this step; the command has `len`
    /// bytes.
    pub fn next(self, len: usize, event: ExchangeEvent) -> (next: ExchangeStep)
        requires
            comes_of(self, event),
        ensures
            exchange_follows(len as nat, event, next),
    {
        match event {
            ExchangeEvent::Connected(Ok(())) => ExchangeStep::Write,
            ExchangeEvent::Connected(Err(message)) => ExchangeStep::Finished(Err(message)),
            ExchangeEvent::Written(written) => match command_sent(len, written) {
                Ok(()) => ExchangeStep::Read,
                Err(message) => ExchangeStep::Finished(Err(message)),
            },
            ExchangeEvent::Received(read) => ExchangeStep::Finished(response_text(read)),
        }
    }
}

/// Nothing is read after a command that was not written whole, and nothing is written
/// without a connection.
pub proof fn nothing_is_read_after_a_failed_write(
    len: nat,
    event: ExchangeEvent,
    next: ExchangeStep,
)
    requires
        exchange_follows(len, event, next),
    ensures
        next is Read ==> (event matches ExchangeEvent::Written(Ok(count)) && count == len as int
            % 0x1_0000_0000),
        next is Write ==> (event matches ExchangeEvent::Connected(connected) && connected is Ok),
        !(next is Connect),
{
}

/// The first two tries that find the pipe in use or missing are followed by another
/// one, after a wait or a pause, and a notice that counts them; every other error ends
/// the tries at once, and the third try ends them in any case. The message tells what
/// the last error was, whole and unchanged.
pub proof fn failed_tries_are_followed_up(
    attempt: u32,
    failure: ConnectFailure,
    error: &str,
    step: ConnectStep,
)
    requires
        call_ensures(after_failed_connect, (attempt, failure, error), step),
    ensures
        attempt < 2 && failure is PipeBusy ==> (step matches ConnectStep::WaitForPipe(notice)
            && notice@ =~= "パイプが使用中です。待機してリトライします... ("@ + seq![
            if attempt == 0 {
                '1'
            } else {
                '2'
            },
        ] + "/3)"@),
        attempt < 2 && failure is NotFound ==> (step matches ConnectStep::Pause(notice) && notice@
            =~= "パイプが見つかりません。プラグインの起動を待機します... ("@ + seq![
            if attempt == 0 {
                '1'
            } else {
                '2'
            },
        ] + "/3)"@),
        attempt < 2 && failure is Other ==> (step matches ConnectStep::GiveUp(message) && message@
            =~= "Named Pipe への接続に失敗しました: "@ + error@),
        attempt >= 2 ==> (step matches ConnectStep::GiveUp(message) && message@
            =~= "Named Pipe への接続に 3 回試みましたが失敗しました (最後のエラー: "@ + error@
            + ")"@),
{
    reveal_strlit("(");
    reveal_strlit("/");
    reveal_strlit(")");
    reveal_strlit("/3)");
    assert(decimal(3) =~= seq!['3']);
    assert(decimal(1) =~= seq!['1']);
    assert(decimal(2) =~= seq!['2']);
    reveal_strlit("パイプが使用中です。待機してリトライします... ");
    reveal_strlit("パイプが使用中です。待機してリトライします... (");
    reveal_strlit("パイプが見つかりません。プラグインの起動を待機します... ");
    reveal_strlit("パイプが見つかりません。プラグインの起動を待機します... (");
    reveal_strlit("Named Pipe への接続に ");
    reveal_strlit(" 回試みましたが失敗しました (最後のエラー: ");
    reveal_strlit("Named Pipe への接続に 3 回試みましたが失敗しました (最後のエラー: ");
    assert("パイプが使用中です。待機してリトライします... "@ + "("@
        =~= "パイプが使用中です。待機してリトライします... ("@);
    assert("パイプが見つかりません。プラグインの起動を待機します... "@ + "("@
        =~= "パイプが見つかりません。プラグインの起動を待機します... ("@);
    assert("Named Pipe への接続に "@ + seq!['3'] + " 回試みましたが失敗しました (最後のエラー: "@
        =~= "Named Pipe への接続に 3 回試みましたが失敗しました (最後のエラー: "@);
    assert("/"@ + seq!['3'] + ")"@ =~= "/3)"@);
    assert(step@ == step_after_failure(attempt as nat, failure, error@));
    if attempt < 2 {
        assert(tries_text(attempt as nat) =~= "("@ + decimal((attempt + 1) as nat) + "/3)"@);
    }
}

/// How often and how long the client waits.
pub proof fn waits_have_their_lengths()
    ensures
        MAX_RETRIES == 3,
        MAX_WAIT_MS == 5000,
        PAUSE_MS == 500,
        MAX_RESPONSE_BYTES == 65536,
{
}

/// A command counts as sent exactly where the pipe took all of its bytes.
pub proof fn commands_are_sent_whole(
    len: usize,
    written: Result<u32, String>,
    result: Result<(), String>,
)
    requires
        call_ensures(command_sent, (len, written), result),
        len < 0x1_0000_0000,
    ensures
        result is Ok <==> written == Ok::<u32, String>(len as u32),
        written matches Err(error) ==> (result matches Err(message) && message@
            =~= "コマンドの送信に失敗しました: "@ + error@),
        written matches Ok(count) ==> (count != len ==> (result matches Err(message)
            && tells_numbers(message@, len as int, count as int))),
{
    decimals_read_back(len as nat);
    if let Ok(count) = written {
        decimals_read_back(count as nat);
        if let Err(message) = result {
            let a = decimal(len as nat);
            let b = decimal(count as nat);
            assert(number_in(a) == len && number_in(b) == count);
        }
    }
}

/// A response that was sent as UTF-8 arrives as it was, whole and unchanged, and a read
/// that failed is told with what the pipe said.
pub proof fn responses_arrive_unchanged(
    read: Result<Vec<u8>, String>,
    text: Seq<char>,
    result: Result<String, String>,
)
    requires
        call_ensures(response_text, (read,), result),
    ensures
        read matches Ok(bytes) ==> (bytes@ == encode_utf8(text) ==> (result matches Ok(r) && r@
            == text)),
        read is Ok <==> result is Ok,
        read matches Err(error) ==> (result matches Err(message) && message@
            =~= "レスポンスの受信に失敗しました: "@ + error@),
{
    sent_text_arrives(text);
}

/// A command is sent over a connection, and its response read once all of it was taken:
/// each step that succeeds leads to the next, and each that fails ends the exchange with
/// what was said.
pub proof fn exchanges_take_every_step_in_order(
    step: ExchangeStep,
    len: usize,
    event: ExchangeEvent,
    text: Seq<char>,
    next: ExchangeStep,
)
    requires
        comes_of(step, event),
        len < 0x1_0000_0000,
        call_ensures(ExchangeStep::next, (step, len, event), next),
    ensures
        event matches ExchangeEvent::Connected(connected) ==> (connected is Ok ==> next is Write),
        event matches ExchangeEvent::Connected(Err(m)) ==> (next matches ExchangeStep::Finished(
            Err(n),
        ) && n@ == m@),
        event matches ExchangeEvent::Written(Ok(count)) ==> (next is Read <==> count == len),
        event matches ExchangeEvent::Written(Ok(count)) ==> (count != len ==> (
        next matches ExchangeStep::Finished(Err(n)) && tells_numbers(
            n@,
            len as int,
            count as int,
        ))),
        event matches ExchangeEvent::Written(Err(m)) ==> (next matches ExchangeStep::Finished(
            Err(n),
        ) && n@ =~= "コマンドの送信に失敗しました: "@ + m@),
        event matches ExchangeEvent::Received(Ok(bytes)) ==> (bytes@ == encode_utf8(text) ==> (
        next matches ExchangeStep::Finished(Ok(r)) && r@ == text)),
        event matches ExchangeEvent::Received(Err(m)) ==> (next matches ExchangeStep::Finished(
            Err(n),
        ) && n@ =~= "レスポンスの受信に失敗しました: "@ + m@),
{
    sent_text_arrives(text);
    decimals_read_back(len as nat);
    if let ExchangeEvent::Written(Ok(count)) = event {
        decimals_read_back(count as nat);
        let a = decimal(len as nat);
        let b = decimal(count as nat);
        assert(number_in(a) == len && number_in(b) == count);
    }
}

} // verus!
