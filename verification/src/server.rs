//! The decisions of the pipe server and of its shutdown.

use crate::command::{command_effect, process_command, stop_is_no_start};
use crate::encoding::{decode, decoded, sent_text_arrives};
use crate::recorder::AudioRecorder;
use crate::text::{both_told, is_inner_text, join2, trim, trimmed, trimmed_is_the_inner_text};
use vstd::prelude::*;
use vstd::utf8::{encode_utf8, valid_utf8};

verus! {

/// What a message does to a recorder and what is answered: white space around a
/// command does not count, and bytes that are no text leave the recorder alone.
pub open spec fn message_effect<R: AudioRecorder>(
    message: Result<Seq<char>, Seq<char>>,
    before: R,
    after: R,
    response: Seq<char>,
) -> bool {
    match message {
        Ok(text) => command_effect(trimmed(text), before, after, response),
        Err(error) => after == before && response == "err:UTF-8デコードエラー: "@ + error,
    }
}

/// Answers a message that has been decoded, or whose decoding failed.
pub fn respond_to_text<R: AudioRecorder>(
    message: Result<String, String>,
    recorder: &mut R,
) -> (response: String)
    ensures
        message_effect(both_told(message), *old(recorder), *final(recorder), response@),
{
    match message {
        Ok(text) => process_command(trim(text.as_str()), recorder),
        Err(error) => join2("err:UTF-8デコードエラー: ", error.as_str()),
    }
}

/// Answers a message as it came out of the pipe.
pub fn respond_to_message<R: AudioRecorder>(message: Vec<u8>, recorder: &mut R) -> (response:
    String)
    ensures
        message_effect(decoded(message@), *old(recorder), *final(recorder), response@),
{
    let text: Result<String, String> = decode(message);
    respond_to_text(text, recorder)
}

/// What the system said when the server waited for a client.
#[derive(Clone, Copy, Debug, PartialEq, Eq, Structural)]
pub enum WaitOutcome {
    /// A client has connected.
    Connected,
    /// A client had connected before the wait began.
    AlreadyConnected,
    /// The wait failed.
    Failed,
}

/// Tells whether a client is there. One that came early counts.
pub fn client_connected(outcome: WaitOutcome) -> (r: bool)
    ensures
        r == (outcome != WaitOutcome::Failed),
{
    match outcome {
        WaitOutcome::Connected => true,
        WaitOutcome::AlreadyConnected => true,
        WaitOutcome::Failed => false,
    }
}

/// What the server is doing.
#[derive(Clone, Copy, Debug, PartialEq, Eq, Structural)]
pub enum ServerPhase {
    /// Making a pipe.
    Creating,
    /// Waiting for a client.
    Waiting,
    /// Reading a message. The pipe is on record so that a shutdown can break off the
    /// read.
    Reading,
    /// Answering the message.
    Responding,
    /// Disconnecting and closing the pipe, to go on with a new one.
    Closing,
    /// Disconnecting and closing the pipe for good.
    Leaving,
    /// Nothing more.
    Stopped,
}

/// What the server saw when it had done its work in a phase.
#[derive(Clone, Copy, Debug, PartialEq, Eq, Structural)]
pub struct Seen {
    /// The work came to something: a pipe, a client, a message.
    pub done: bool,
    /// A shutdown has been asked for.
    pub shutdown: bool,
}

/// The phase after `phase`.
pub open spec fn phase_after(phase: ServerPhase, seen: Seen) -> ServerPhase {
    match phase {
        ServerPhase::Creating => if seen.done {
            ServerPhase::Waiting
        } else {
            ServerPhase::Stopped
        },
        ServerPhase::Waiting => if seen.done && !seen.shutdown {
            ServerPhase::Reading
        } else {
            ServerPhase::Leaving
        },
        ServerPhase::Reading => if seen.shutdown {
            ServerPhase::Leaving
        } else if seen.done {
            ServerPhase::Responding
        } else {
            ServerPhase::Closing
        },
        ServerPhase::Responding => ServerPhase::Closing,
        ServerPhase::Closing => ServerPhase::Creating,
        ServerPhase::Leaving => ServerPhase::Stopped,
        ServerPhase::Stopped => ServerPhase::Stopped,
    }
}

impl ServerPhase {
    /// Decides what the server does next. Without a pipe, without a client, or with a
    /// shutdown under way it leaves; a read that brings no message only ends with the
    /// pipe; after an answer the next client gets a pipe of its own.
    pub fn next(self, seen: Seen) -> (r: ServerPhase)
        ensures
            r == phase_after(self, seen),
    {
        match self {
            ServerPhase::Creating => {
                if seen.done {
                    ServerPhase::Waiting
                } else {
                    ServerPhase::Stopped
                }
            },
            ServerPhase::Waiting => {
                if !seen.done {
                    ServerPhase::Leaving
                } else if seen.shutdown {
                    ServerPhase::Leaving
                } else {
                    ServerPhase::Reading
                }
            },
            ServerPhase::Reading => {
                if seen.shutdown {
                    ServerPhase::Leaving
                } else if seen.done {
                    ServerPhase::Responding
                } else {
                    ServerPhase::Closing
                }
            },
            ServerPhase::Responding => ServerPhase::Closing,
            ServerPhase::Closing => ServerPhase::Creating,
            ServerPhase::Leaving => ServerPhase::Stopped,
            ServerPhase::Stopped => ServerPhase::Stopped,
        }
    }
}

/// The phase that a server reaches from `phase` when it sees `seen`.
pub open spec fn server_run(phase: ServerPhase, seen: Seq<Seen>) -> ServerPhase
    decreases seen.len(),
{
    if seen.len() == 0 {
        phase
    } else {
        server_run(phase_after(phase, seen.first()), seen.drop_first())
    }
}

/// A server in this phase has a pipe.
pub open spec fn holds_pipe(phase: ServerPhase) -> bool {
    phase != ServerPhase::Creating && phase != ServerPhase::Stopped
}

/// The number of pipes that are made on the way from `phase` on.
pub open spec fn pipes_made(phase: ServerPhase, seen: Seq<Seen>) -> int
    decreases seen.len(),
{
    if seen.len() == 0 {
        0
    } else {
        (if phase == ServerPhase::Creating && seen.first().done {
            1int
        } else {
            0int
        }) + pipes_made(phase_after(phase, seen.first()), seen.drop_first())
    }
}

/// The number of pipes that are closed on the way from `phase` on.
pub open spec fn pipes_closed(phase: ServerPhase, seen: Seq<Seen>) -> int
    decreases seen.len(),
{
    if seen.len() == 0 {
        0
    } else {
        (if phase == ServerPhase::Closing || phase == ServerPhase::Leaving {
            1int
        } else {
            0int
        }) + pipes_closed(phase_after(phase, seen.first()), seen.drop_first())
    }
}

/// Every pipe is closed exactly once, and before the next one is made: whatever the
/// server sees, the pipes made and not yet closed are the one that it holds now.
pub proof fn every_pipe_is_closed(phase: ServerPhase, seen: Seq<Seen>)
    ensures
        (if holds_pipe(phase) {
            1int
        } else {
            0int
        }) + pipes_made(phase, seen) - pipes_closed(phase, seen) == (if holds_pipe(
            server_run(phase, seen),
        ) {
            1int
        } else {
            0int
        }),
    decreases seen.len(),
{
    if seen.len() > 0 {
        every_pipe_is_closed(phase_after(phase, seen.first()), seen.drop_first());
    }
}

/// Once a shutdown is seen, no further message is answered.
pub proof fn shutdown_leaves_messages_unanswered(phase: ServerPhase, seen: Seen)
    requires
        seen.shutdown,
    ensures
        phase_after(phase, seen) != ServerPhase::Responding,
        phase_after(phase, seen) != ServerPhase::Reading,
{
}

/// Once a shutdown is seen, the server has stopped after five phases at most, whatever
/// it was doing and whatever comes of its work.
pub proof fn shutdown_stops_the_server(phase: ServerPhase, seen: Seq<Seen>)
    requires
        seen.len() >= 5,
        forall|i: int| 0 <= i < seen.len() ==> (#[trigger] seen[i]).shutdown,
    ensures
        server_run(phase, seen) == ServerPhase::Stopped,
{
    let rest1 = seen.drop_first();
    let rest2 = rest1.drop_first();
    let rest3 = rest2.drop_first();
    let rest4 = rest3.drop_first();
    let rest5 = rest4.drop_first();
    reveal_with_fuel(server_run, 6);
    assert(seen.first() == seen[0] && rest1.first() == seen[1] && rest2.first() == seen[2]
        && rest3.first() == seen[3] && rest4.first() == seen[4]);
    let p5 = phase_after(
        phase_after(
            phase_after(phase_after(phase_after(phase, seen[0]), seen[1]), seen[2]),
            seen[3],
        ),
        seen[4],
    );
    assert(p5 == ServerPhase::Stopped);
    assert(server_run(phase, seen) == server_run(p5, rest5));
    stopped_stays_stopped(rest5);
}

/// A server that has stopped does nothing more.
pub proof fn stopped_stays_stopped(seen: Seq<Seen>)
    ensures
        server_run(ServerPhase::Stopped, seen) == ServerPhase::Stopped,
    decreases seen.len(),
{
    if seen.len() > 0 {
        stopped_stays_stopped(seen.drop_first());
    }
}

/// What is to be done next to shut the server down from outside its thread.
#[derive(Clone, Copy, Debug, PartialEq, Eq, Structural)]
pub enum ShutdownStep {
    /// Ask for the shutdown.
    RaiseFlag,
    /// Look for the pipe that the server is reading from.
    TakePipe,
    /// Disconnect that pipe, which breaks off the read.
    Disconnect,
    /// Connect as a client that sends nothing, which ends the wait for one.
    ConnectClient,
    /// Look for the server's thread.
    TakeWorker,
    /// Wait for that thread to end.
    JoinWorker,
    /// Nothing more.
    Finished,
}

/// The step after `step`; `found` tells whether a search found something.
pub open spec fn shutdown_after(step: ShutdownStep, found: bool) -> ShutdownStep {
    match step {
        ShutdownStep::RaiseFlag => ShutdownStep::TakePipe,
        ShutdownStep::TakePipe => if found {
            ShutdownStep::Disconnect
        } else {
            ShutdownStep::ConnectClient
        },
        ShutdownStep::Disconnect => ShutdownStep::ConnectClient,
        ShutdownStep::ConnectClient => ShutdownStep::TakeWorker,
        ShutdownStep::TakeWorker => if found {
            ShutdownStep::JoinWorker
        } else {
            ShutdownStep::Finished
        },
        ShutdownStep::JoinWorker => ShutdownStep::Finished,
        ShutdownStep::Finished => ShutdownStep::Finished,
    }
}

impl ShutdownStep {
    /// Decides what the shutdown does next. `found` counts after a search only.
    pub fn next(self, found: bool) -> (r: ShutdownStep)
        ensures
            r == shutdown_after(self, found),
    {
        match self {
            ShutdownStep::RaiseFlag => ShutdownStep::TakePipe,
            ShutdownStep::TakePipe => {
                if found {
                    ShutdownStep::Disconnect
                } else {
                    ShutdownStep::ConnectClient
                }
            },
            ShutdownStep::Disconnect => ShutdownStep::ConnectClient,
            ShutdownStep::ConnectClient => ShutdownStep::TakeWorker,
            ShutdownStep::TakeWorker => {
                if found {
                    ShutdownStep::JoinWorker
                } else {
                    ShutdownStep::Finished
                }
            },
            ShutdownStep::JoinWorker => ShutdownStep::Finished,
            ShutdownStep::Finished => ShutdownStep::Finished,
        }
    }
}

/// The place of a step in a shutdown.
pub open spec fn shutdown_rank(step: ShutdownStep) -> nat {
    match step {
        ShutdownStep::RaiseFlag => 0,
        ShutdownStep::TakePipe => 1,
        ShutdownStep::Disconnect => 2,
        ShutdownStep::ConnectClient => 3,
        ShutdownStep::TakeWorker => 4,
        ShutdownStep::JoinWorker => 5,
        ShutdownStep::Finished => 6,
    }
}

/// The steps of a shutdown from `step` on, by what its two searches find.
pub open spec fn shutdown_run(step: ShutdownStep, pipe: bool, worker: bool) -> Seq<ShutdownStep>
    decreases 6 - shutdown_rank(step),
{
    if step == ShutdownStep::Finished {
        Seq::empty()
    } else {
        let found = if step == ShutdownStep::TakePipe {
            pipe
        } else {
            worker
        };
        seq![step] + shutdown_run(shutdown_after(step, found), pipe, worker)
    }
}

/// A shutdown asks first, then breaks off a read where there is one and the wait for a
/// client in any case, and waits for the thread last.
pub proof fn shutdown_wakes_the_server_before_it_waits(pipe: bool, worker: bool)
    ensures
        shutdown_run(ShutdownStep::RaiseFlag, pipe, worker) == seq![
            ShutdownStep::RaiseFlag,
            ShutdownStep::TakePipe,
        ] + (if pipe {
            seq![ShutdownStep::Disconnect]
        } else {
            Seq::empty()
        }) + seq![ShutdownStep::ConnectClient, ShutdownStep::TakeWorker] + (if worker {
            seq![ShutdownStep::JoinWorker]
        } else {
            Seq::empty()
        }),
{
    reveal_with_fuel(shutdown_run, 8);
}

/// As long as pipes, clients and messages come and no shutdown is asked for, each
/// client is served by a pipe of its own: it is waited for, read, answered and closed,
/// in this order, and the next one follows.
pub proof fn clients_are_served_one_after_the_other(
    seen: Seen,
    second: ServerPhase,
    third: ServerPhase,
    fourth: ServerPhase,
    fifth: ServerPhase,
    sixth: ServerPhase,
)
    requires
        seen.done,
        !seen.shutdown,
        call_ensures(ServerPhase::next, (ServerPhase::Creating, seen), second),
        call_ensures(ServerPhase::next, (second, seen), third),
        call_ensures(ServerPhase::next, (third, seen), fourth),
        call_ensures(ServerPhase::next, (fourth, seen), fifth),
        call_ensures(ServerPhase::next, (fifth, seen), sixth),
    ensures
        second is Waiting,
        third is Reading,
        fourth is Responding,
        fifth is Closing,
        sixth is Creating,
{
}

/// A message is answered exactly where one was read and no shutdown is under way, and
/// nothing else is answered.
pub proof fn messages_that_were_read_are_answered(
    phase: ServerPhase,
    seen: Seen,
    next: ServerPhase,
)
    requires
        call_ensures(ServerPhase::next, (phase, seen), next),
    ensures
        next is Responding <==> phase is Reading && seen.done && !seen.shutdown,
        next is Reading <==> phase is Waiting && seen.done && !seen.shutdown,
        next is Waiting <==> phase is Creating && seen.done,
{
}

/// The server ends only where no pipe could be made, no client could be waited for, or
/// a shutdown was seen; a read that fails and an answer that was sent let it go on.
pub proof fn servers_end_for_a_reason(phase: ServerPhase, seen: Seen, next: ServerPhase)
    requires
        call_ensures(ServerPhase::next, (phase, seen), next),
    ensures
        next is Stopped <==> phase is Stopped || phase is Leaving || (phase is Creating
            && !seen.done),
        next is Leaving <==> (phase is Waiting && (!seen.done || seen.shutdown)) || (
        phase is Reading && seen.shutdown),
        next is Closing <==> phase is Responding || (phase is Reading && !seen.done
            && !seen.shutdown),
        next is Creating <==> phase is Closing,
{
}

/// A shutdown asks first and waits for the thread last. In between, it takes the pipe
/// away where there is one and connects as a client in any case.
pub proof fn shutdowns_take_every_step_in_order(
    step: ShutdownStep,
    found: bool,
    next: ShutdownStep,
)
    requires
        call_ensures(ShutdownStep::next, (step, found), next),
    ensures
        next is TakePipe <==> step is RaiseFlag,
        next is Disconnect <==> step is TakePipe && found,
        next is ConnectClient <==> step is Disconnect || (step is TakePipe && !found),
        next is TakeWorker <==> step is ConnectClient,
        next is JoinWorker <==> step is TakeWorker && found,
        !(next is RaiseFlag),
{
}

/// A message that is no UTF-8 leaves the recorder alone and is answered with the reason;
/// one that is, is carried out as the text between the white space around it.
pub proof fn messages_are_carried_out_as_texts<R: AudioRecorder>(
    message: Result<Seq<char>, Seq<char>>,
    before: R,
    after: R,
    response: Seq<char>,
)
    requires
        message_effect(message, before, after, response),
    ensures
        message matches Err(error) ==> after == before && response
            =~= "err:UTF-8デコードエラー: "@ + error,
        message matches Ok(text) ==> exists|inner: Seq<char>, start: int|
            #![trigger is_inner_text(text, inner, start)]
            is_inner_text(text, inner, start) && command_effect(inner, before, after, response),
{
    if let Ok(text) = message {
        trimmed_is_the_inner_text(text);
        let start = choose|start: int| is_inner_text(text, trimmed(text), start);
        assert(is_inner_text(text, trimmed(text), start));
    }
}

/// White space around a `stop` makes no difference: such a message stops a recording
/// that is under way, and does nothing where none is.
pub proof fn stops_count_with_white_space_around<R: AudioRecorder>(
    text: Seq<char>,
    start: int,
    before: R,
    after: R,
    response: Seq<char>,
)
    requires
        is_inner_text(text, "stop"@, start),
        message_effect(Ok(text), before, after, response),
    ensures
        !before.recording() ==> after == before && response == "noop:録音していません"@,
        before.recording() ==> exists|result: Result<(), String>|
            #![trigger before.stop_step(&after, result)]
            before.stop_step(&after, result),
{
    trimmed_is_the_inner_text(text);
    let at = choose|at: int| is_inner_text(text, trimmed(text), at);
    reveal_strlit("stop");
    inner_texts_are_one(text, "stop"@, start, trimmed(text), at);
    stop_is_no_start();
}

/// There is one text between the white space around a text, where there is one at all.
proof fn inner_texts_are_one(
    whole: Seq<char>,
    a: Seq<char>,
    at: int,
    b: Seq<char>,
    bt: int,
)
    requires
        is_inner_text(whole, a, at),
        is_inner_text(whole, b, bt),
        a.len() > 0,
    ensures
        a == b,
{
    assert(whole[at] == a.first());
    assert(whole[at + a.len() - 1] == a.last());
    if b.len() > 0 {
        assert(whole[bt] == b.first());
        assert(whole[bt + b.len() - 1] == b.last());
    }
    assert(at == bt);
    assert(a.len() == b.len());
    assert(a =~= b);
}

/// A message that encodes a text is carried out as what lies between the white space
/// around it, and bytes that encode none leave the recorder alone.
pub proof fn messages_are_carried_out<R: AudioRecorder>(
    message: Vec<u8>,
    text: Seq<char>,
    inner: Seq<char>,
    start: int,
    before: R,
    after: R,
    response: String,
)
    requires
        exists|recorder: &mut R|
            *recorder == before && *final(recorder) == after && #[trigger] call_ensures(
                respond_to_message::<R>,
                (message, recorder),
                response,
            ),
    ensures
        message@ == encode_utf8(text) && is_inner_text(text, inner, start) && inner.len() > 0
            ==> command_effect(inner, before, after, response@),
        !valid_utf8(message@) ==> after == before && "err:UTF-8デコードエラー: "@.is_prefix_of(
            response@,
        ),
{
    assert(message_effect(decoded(message@), before, after, response@));
    if message@ == encode_utf8(text) && is_inner_text(text, inner, start) && inner.len() > 0 {
        sent_text_arrives(text);
        trimmed_is_the_inner_text(text);
        let at = choose|at: int| is_inner_text(text, trimmed(text), at);
        inner_texts_are_one(text, inner, start, trimmed(text), at);
    }
    if !valid_utf8(message@) {
        let front = "err:UTF-8デコードエラー: "@;
        assert(front =~= response@.subrange(0, front.len() as int));
    }
}

/// A text that was decoded is carried out as what lies between the white space around
/// it; the message of a decoding that failed is told, whole and unchanged, and the
/// recorder is left alone.
pub proof fn texts_are_carried_out<R: AudioRecorder>(
    message: Result<String, String>,
    inner: Seq<char>,
    start: int,
    before: R,
    after: R,
    response: String,
)
    requires
        exists|recorder: &mut R|
            *recorder == before && *final(recorder) == after && #[trigger] call_ensures(
                respond_to_text::<R>,
                (message, recorder),
                response,
            ),
    ensures
        message matches Ok(text) ==> (is_inner_text(text@, inner, start) && inner.len() > 0
            ==> command_effect(inner, before, after, response@)),
        message matches Err(error) ==> after == before && response@
            =~= "err:UTF-8デコードエラー: "@ + error@,
{
    assert(message_effect(both_told(message), before, after, response@));
    if let Ok(text) = message {
        if is_inner_text(text@, inner, start) && inner.len() > 0 {
            trimmed_is_the_inner_text(text@);
            let at = choose|at: int| is_inner_text(text@, trimmed(text@), at);
            inner_texts_are_one(text@, inner, start, trimmed(text@), at);
        }
    }
}

} // verus!
