//! The commands that a client sends and the responses it gets.
//!
//! A command is `start:<path>` or `stop`. A response is `ok`, `noop:<reason>` where
//! nothing had to change, or `err:<reason>`.

use crate::recorder::AudioRecorder;
use crate::text::{join2, same_text, strip_prefix};
use vstd::prelude::*;

verus! {

/// The path of a `start:<path>` command.
pub open spec fn start_path(command: Seq<char>) -> Option<Seq<char>> {
    if "start:"@.is_prefix_of(command) {
        Some(command.skip("start:"@.len() as int))
    } else {
        None
    }
}

/// The response that tells how a call of the recorder went.
pub open spec fn outcome_text(result: Result<(), String>) -> Seq<char> {
    match result {
        Ok(()) => "ok"@,
        Err(message) => "err:"@ + message@,
    }
}

/// The recorder was told to start with `path`, and the call returned `result`.
pub open spec fn started<R: AudioRecorder>(
    before: R,
    path: Seq<char>,
    after: R,
    result: Result<(), String>,
) -> bool {
    &&& before.start_step(path, &after, result)
    &&& result is Ok ==> after.recording()
}

/// The recorder was told to stop, and the call returned `result`.
pub open spec fn stopped<R: AudioRecorder>(before: R, after: R, result: Result<(), String>) -> bool {
    &&& before.stop_step(&after, result)
    &&& result is Ok ==> !after.recording()
}

/// What `command` does to a recorder and what is answered.
///
/// A `start` while recording and a `stop` while idle leave the recorder alone, and
/// so does a text that is no command.
pub open spec fn command_effect<R: AudioRecorder>(
    command: Seq<char>,
    before: R,
    after: R,
    response: Seq<char>,
) -> bool {
    if start_path(command) is Some {
        if before.recording() {
            after == before && response == "noop:既に録音中です"@
        } else {
            exists|result: Result<(), String>| #[trigger]
                started(before, start_path(command)->0, after, result) && response == outcome_text(
                    result,
                )
        }
    } else if command == "stop"@ {
        if !before.recording() {
            after == before && response == "noop:録音していません"@
        } else {
            exists|result: Result<(), String>| #[trigger]
                stopped(before, after, result) && response == outcome_text(result)
        }
    } else {
        after == before && response == "err:未知のコマンド: "@ + command
    }
}

/// Words the result of a call of the recorder as a response.
pub fn outcome_response(result: Result<(), String>) -> (response: String)
    ensures
        response@ == outcome_text(result),
{
    match result {
        Ok(()) => "ok".to_owned(),
        Err(message) => join2("err:", message.as_str()),
    }
}

/// Carries out one command, without white space around it, and words the response.
pub fn process_command<R: AudioRecorder>(command: &str, recorder: &mut R) -> (response: String)
    ensures
        command_effect(command@, *old(recorder), *final(recorder), response@),
{
    match strip_prefix(command, "start:") {
        Some(path) => {
            assert(command@.skip("start:"@.len() as int) == path@);
            assert(start_path(command@) == Some(path@));
            if recorder.is_recording() {
                return "noop:既に録音中です".to_owned();
            }
            let result: Result<(), String> = recorder.start(path);
            assert(started(*old(recorder), start_path(command@)->0, *recorder, result));
            outcome_response(result)
        },
        None => {
            if same_text(command, "stop") {
                if !recorder.is_recording() {
                    return "noop:録音していません".to_owned();
                }
                let result: Result<(), String> = recorder.stop();
                assert(stopped(*old(recorder), *recorder, result));
                outcome_response(result)
            } else {
                join2("err:未知のコマンド: ", command)
            }
        },
    }
}

/// No response is both a success and something else: `ok`, `noop:` and `err:` tell the
/// three kinds apart.
pub proof fn kinds_of_response_differ(reason: Seq<char>)
    ensures
        "ok"@ != "noop:"@ + reason,
        "ok"@ != "err:"@ + reason,
        !"noop:"@.is_prefix_of("err:"@ + reason),
        !"err:"@.is_prefix_of("noop:"@ + reason),
        !"noop:"@.is_prefix_of("ok"@),
        !"err:"@.is_prefix_of("ok"@),
{
    reveal_strlit("ok");
    reveal_strlit("noop:");
    reveal_strlit("err:");
    assert(("err:"@ + reason)[0] == 'e');
    assert(("noop:"@ + reason)[0] == 'n');
    assert("ok"@[0] == 'o');
    if "noop:"@.is_prefix_of("err:"@ + reason) {
        assert("noop:"@[0] == ("err:"@ + reason)[0]);
    }
    if "err:"@.is_prefix_of("noop:"@ + reason) {
        assert("err:"@[0] == ("noop:"@ + reason)[0]);
    }
}

/// The two responses that say that nothing had to change start with `noop:`.
proof fn noop_responses()
    ensures
        "noop:"@.is_prefix_of("noop:既に録音中です"@),
        "noop:"@.is_prefix_of("noop:録音していません"@),
        "noop:既に録音中です"@ != "ok"@,
        "noop:録音していません"@ != "ok"@,
        !"err:"@.is_prefix_of("noop:既に録音中です"@),
        !"err:"@.is_prefix_of("noop:録音していません"@),
{
    reveal_strlit("noop:既に録音中です");
    reveal_strlit("noop:録音していません");
    reveal_strlit("noop:");
    reveal_strlit("err:");
    reveal_strlit("ok");
    assert("noop:"@ == "noop:既に録音中です"@.subrange(0, 5));
    assert("noop:"@ == "noop:録音していません"@.subrange(0, 5));
    assert("noop:既に録音中です"@[0] == 'n' && "noop:録音していません"@[0] == 'n');
    assert("ok"@[0] == 'o');
    assert("err:"@[0] == 'e');
}

/// The response to a text that is no command starts with `err:`.
proof fn unknown_response(command: Seq<char>)
    ensures
        "err:"@.is_prefix_of("err:未知のコマンド: "@ + command),
{
    reveal_strlit("err:未知のコマンド: ");
    reveal_strlit("err:");
    assert("err:"@ == ("err:未知のコマンド: "@ + command).subrange(0, 4));
}

/// The response to a call of the recorder is `ok` exactly where the call succeeded,
/// starts with `err:` otherwise, and never with `noop:`.
pub proof fn outcomes_are_told_apart()
    ensures
        forall|result: Result<(), String>|
            {
                &&& (#[trigger] outcome_text(result) == "ok"@) == (result is Ok)
                &&& "err:"@.is_prefix_of(outcome_text(result)) == (result is Err)
                &&& !"noop:"@.is_prefix_of(outcome_text(result))
            },
{
    assert forall|result: Result<(), String>|
        {
            &&& (#[trigger] outcome_text(result) == "ok"@) == (result is Ok)
            &&& "err:"@.is_prefix_of(outcome_text(result)) == (result is Err)
            &&& !"noop:"@.is_prefix_of(outcome_text(result))
        } by {
        match result {
            Ok(()) => {
                kinds_of_response_differ(Seq::empty());
            },
            Err(message) => {
                kinds_of_response_differ(message@);
                assert("err:"@ == ("err:"@ + message@).subrange(0, "err:"@.len() as int));
            },
        }
    }
}

/// Every command is answered in one of the three forms, and a recorder that was not
/// told to start or stop is unchanged wherever the answer is `noop:`.
pub proof fn every_command_is_answered<R: AudioRecorder>(
    command: Seq<char>,
    before: R,
    after: R,
    response: Seq<char>,
)
    requires
        command_effect(command, before, after, response),
    ensures
        response == "ok"@ || "noop:"@.is_prefix_of(response) || "err:"@.is_prefix_of(response),
        "noop:"@.is_prefix_of(response) ==> after == before,
{
    noop_responses();
    unknown_response(command);
    outcomes_are_told_apart();
    if start_path(command) is None && command != "stop"@ {
        reveal_strlit("err:未知のコマンド: ");
        reveal_strlit("noop:");
        if "noop:"@.is_prefix_of(response) {
            assert("noop:"@[0] == response[0]);
        }
    }
}

/// A start that was answered with `ok` leaves the recorder recording, and a further
/// start then changes nothing, whatever its path.
pub proof fn a_second_start_changes_nothing<R: AudioRecorder>(
    first: Seq<char>,
    second: Seq<char>,
    before: R,
    between: R,
    after: R,
    response: Seq<char>,
)
    requires
        start_path(first) is Some,
        start_path(second) is Some,
        command_effect(first, before, between, "ok"@),
        command_effect(second, between, after, response),
    ensures
        between.recording(),
        after == between,
        response == "noop:既に録音中です"@,
{
    noop_responses();
    outcomes_are_told_apart();
}

/// A stop that was answered with `ok` leaves the recorder idle, and a further stop then
/// changes nothing.
pub proof fn a_second_stop_changes_nothing<R: AudioRecorder>(
    before: R,
    between: R,
    after: R,
    response: Seq<char>,
)
    requires
        command_effect("stop"@, before, between, "ok"@),
        command_effect("stop"@, between, after, response),
    ensures
        !between.recording(),
        after == between,
        response == "noop:録音していません"@,
{
    noop_responses();
    stop_is_no_start();
    outcomes_are_told_apart();
}

/// `stop` is not taken for a start.
pub proof fn stop_is_no_start()
    ensures
        start_path("stop"@) is None,
{
    reveal_strlit("stop");
    reveal_strlit("start:");
}

/// What stands behind `start:` is the path, whole and unchanged, and a text has a path
/// only where it begins so.
pub proof fn starts_carry_their_paths(path: Seq<char>, command: Seq<char>)
    ensures
        start_path("start:"@ + path) == Some(path),
        start_path(command) is Some ==> command =~= "start:"@ + start_path(command)->0,
        command.len() < 6 ==> start_path(command) is None,
{
    reveal_strlit("start:");
    let whole = "start:"@ + path;
    assert("start:"@ =~= whole.subrange(0, 6));
    assert(whole.skip(6) =~= path);
    if start_path(command) is Some {
        assert("start:"@ =~= command.subrange(0, 6));
    }
}

/// A start, while nothing is recorded, is handed to the recorder with its path, whole
/// and unchanged; what the recorder returns decides the response, which carries its
/// message, and after an `ok` a recording is under way. While one is under way, the
/// recorder is left alone.
pub proof fn starts_reach_the_recorder<R: AudioRecorder>(
    path: Seq<char>,
    before: R,
    after: R,
    response: Seq<char>,
)
    requires
        command_effect("start:"@ + path, before, after, response),
    ensures
        before.recording() ==> after == before && response == "noop:既に録音中です"@,
        !before.recording() ==> exists|result: Result<(), String>|
            #![trigger before.start_step(path, &after, result)]
            before.start_step(path, &after, result) && (result is Ok ==> after.recording()
                && response == "ok"@) && (result matches Err(message) ==> response =~= "err:"@
                + message@),
{
    starts_carry_their_paths(path, "start:"@ + path);
    if !before.recording() {
        let command = "start:"@ + path;
        let result = choose|result: Result<(), String>| #[trigger]
            started(before, start_path(command)->0, after, result) && response == outcome_text(
                result,
            );
        assert(before.start_step(path, &after, result));
    }
}

/// A stop of a recording is handed to the recorder; what it returns decides the
/// response, which carries its message, and after an `ok` no recording is under way.
/// While none is, the recorder is left alone.
pub proof fn stops_reach_the_recorder<R: AudioRecorder>(
    before: R,
    after: R,
    response: Seq<char>,
)
    requires
        command_effect("stop"@, before, after, response),
    ensures
        !before.recording() ==> after == before && response == "noop:録音していません"@,
        before.recording() ==> exists|result: Result<(), String>|
            #![trigger before.stop_step(&after, result)]
            before.stop_step(&after, result) && (result is Ok ==> !after.recording() && response
                == "ok"@) && (result matches Err(message) ==> response =~= "err:"@ + message@),
{
    stop_is_no_start();
    if before.recording() {
        let result = choose|result: Result<(), String>| #[trigger]
            stopped(before, after, result) && response == outcome_text(result);
        assert(before.stop_step(&after, result));
    }
}

/// Any other text leaves the recorder alone and comes back at the end of the response,
/// whole and unchanged.
pub proof fn other_texts_come_back<R: AudioRecorder>(
    command: Seq<char>,
    before: R,
    after: R,
    response: Seq<char>,
)
    requires
        command_effect(command, before, after, response),
        command != "stop"@,
        !"start:"@.is_prefix_of(command),
    ensures
        after == before,
        response =~= "err:未知のコマンド: "@ + command,
{
}

/// The result of a call is worded with its message, whole and unchanged.
pub proof fn results_are_worded(result: Result<(), String>, response: String)
    requires
        call_ensures(outcome_response, (result,), response),
    ensures
        result is Ok ==> response@ == "ok"@,
        result matches Err(message) ==> response@ =~= "err:"@ + message@,
{
}

/// A recorder that carries out a command: a start is handed to it with the path behind
/// `start:`, whole and unchanged, where it is idle; a stop where it records; and nothing
/// else is. The response tells how that went, or why nothing was done.
pub proof fn commands_are_carried_out<R: AudioRecorder>(
    command: &str,
    path: Seq<char>,
    before: R,
    after: R,
    response: String,
)
    requires
        exists|recorder: &mut R|
            *recorder == before && *final(recorder) == after && #[trigger] call_ensures(
                process_command::<R>,
                (command, recorder),
                response,
            ),
    ensures
        command@ == "start:"@ + path && before.recording() ==> after == before && response@
            == "noop:既に録音中です"@,
        command@ == "start:"@ + path && !before.recording() ==> exists|result: Result<(), String>|
            #![trigger before.start_step(path, &after, result)]
            before.start_step(path, &after, result) && (result is Ok ==> after.recording()
                && response@ == "ok"@) && (result matches Err(message) ==> response@ =~= "err:"@
                + message@),
        command@ == "stop"@ && !before.recording() ==> after == before && response@
            == "noop:録音していません"@,
        command@ == "stop"@ && before.recording() ==> exists|result: Result<(), String>|
            #![trigger before.stop_step(&after, result)]
            before.stop_step(&after, result) && (result is Ok ==> !after.recording() && response@
                == "ok"@) && (result matches Err(message) ==> response@ =~= "err:"@ + message@),
        command@ != "stop"@ && !"start:"@.is_prefix_of(command@) ==> after == before && response@
            =~= "err:未知のコマンド: "@ + command@,
{
    assert(command_effect(command@, before, after, response@));
    if command@ == "start:"@ + path {
        starts_reach_the_recorder(path, before, after, response@);
    }
    if command@ == "stop"@ {
        stops_reach_the_recorder(before, after, response@);
    }
}

} // verus!
