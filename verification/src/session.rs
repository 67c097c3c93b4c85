//! The course of one run of the client, from its arguments to its exit code.
//!
//! Files, the clock and the pipe belong to the caller, who does what a state asks for
//! and reports what came of it.

use crate::cli::{
    failure_report, handle_response, lines_of, missing_directory_report, missing_save_path_report,
    missing_save_path_text, other_requests, parse_args, recording_line, refusal, refuse,
    reports_of_responses, request_of, requests_as_given, response_report, save_path_report,
    saved_report, start_command, stop_command, told_on_error, toggle_goes_on, toggle_needs_start,
    Report, ReportView, Request, RequestView, EXIT_OK, EXIT_PIPE, EXIT_PLUGIN, EXIT_USAGE,
};
use crate::command::{kinds_of_response_differ, outcome_text, start_path, started};
use crate::encoding::{decoded, sent_text_arrives};
use crate::naming::{
    default_output_path, default_path_is_a_wav_path, is_place_for_files, is_within_its_ranges,
    local_datetime_string, moments_read_back, recording_name, LocalTime,
};
use crate::output_path::{
    accepted_paths_arrive_unchanged, directory_verdict, is_right_verdict, judge_directory,
    path_verdict, plain_wav_paths_are_accepted, validate_output_path, verdicts_are_right,
    DirectoryProbe,
};
use crate::paths::{has_plain_extension, is_join, may_be_extension, may_be_joined, may_be_parent};
use crate::recorder::AudioRecorder;
use crate::server::message_effect;
use crate::shared_config::{load_config_from_path, with_save_path, Config, ConfigFile};
use crate::text::{ascii_lower, both_told, optional_text, trimmed};
use vstd::pervasive::unreached;
use vstd::prelude::*;
use vstd::utf8::encode_utf8;

verus! {

/// Where a run of the client stands, and with it what is to be done next.
pub enum ClientState {
    /// Send the command that stops the recording; where none is under way, one is
    /// started.
    Toggling {
        /// The path that was given for a recording.
        wanted: Option<String>,
    },
    /// Read the settings and the clock: no path was given.
    NeedsPath,
    /// Probe the directory in which the recording will lie.
    Probing {
        /// The path of the recording.
        path: String,
        /// The directory.
        directory: String,
    },
    /// Send the command that starts the recording.
    Starting {
        /// The path of the recording.
        path: String,
    },
    /// Send the command that stops the recording.
    Stopping,
    /// Find out whether the directory for recordings exists.
    Checking {
        /// The directory.
        directory: String,
    },
    /// Save the directory for recordings.
    Saving {
        /// The directory.
        directory: String,
    },
    /// Tell the user and end.
    Done(Report),
}

/// The view of a [`ClientState`].
pub enum ClientStateView {
    /// See [`ClientState::Toggling`].
    Toggling {
        /// The path that was given for a recording.
        wanted: Option<Seq<char>>,
    },
    /// See [`ClientState::NeedsPath`].
    NeedsPath,
    /// See [`ClientState::Probing`].
    Probing {
        /// The path of the recording.
        path: Seq<char>,
        /// The directory.
        directory: Seq<char>,
    },
    /// See [`ClientState::Starting`].
    Starting {
        /// The path of the recording.
        path: Seq<char>,
    },
    /// See [`ClientState::Stopping`].
    Stopping,
    /// See [`ClientState::Checking`].
    Checking {
        /// The directory.
        directory: Seq<char>,
    },
    /// See [`ClientState::Saving`].
    Saving {
        /// The directory.
        directory: Seq<char>,
    },
    /// See [`ClientState::Done`].
    Done(ReportView),
}

impl View for ClientState {
    type V = ClientStateView;

    open spec fn view(&self) -> ClientStateView {
        match *self {
            ClientState::Toggling { wanted } => ClientStateView::Toggling {
                wanted: optional_text(wanted),
            },
            ClientState::NeedsPath => ClientStateView::NeedsPath,
            ClientState::Probing { path, directory } => ClientStateView::Probing {
                path: path@,
                directory: directory@,
            },
            ClientState::Starting { path } => ClientStateView::Starting { path: path@ },
            ClientState::Stopping => ClientStateView::Stopping,
            ClientState::Checking { directory } => ClientStateView::Checking {
                directory: directory@,
            },
            ClientState::Saving { directory } => ClientStateView::Saving { directory: directory@ },
            ClientState::Done(report) => ClientStateView::Done(report@),
        }
    }
}

/// What came of what a state asks for.
pub enum ClientEvent {
    /// The directory for recordings in the settings, and the time.
    Settings(Option<String>, LocalTime),
    /// What the file system says of the directory.
    Probed(DirectoryProbe),
    /// The response of the plugin, or the message that there is none.
    Answered(Result<String, String>),
    /// Whether the directory exists.
    Exists(bool),
    /// The path of the settings file that was written, or the message that it was not.
    Saved(Result<String, String>),
}

/// `event` is what `state` asks for.
pub open spec fn fits(state: ClientState, event: ClientEvent) -> bool {
    match state {
        ClientState::Toggling { .. } => event is Answered,
        ClientState::NeedsPath => event is Settings,
        ClientState::Probing { .. } => event is Probed,
        ClientState::Starting { .. } => event is Answered,
        ClientState::Stopping => event is Answered,
        ClientState::Checking { .. } => event is Exists,
        ClientState::Saving { .. } => event is Saved,
        ClientState::Done(_) => false,
    }
}

/// The end of a run that failed on the client's side.
pub open spec fn failed(message: Seq<char>, exit_code: i32) -> ClientStateView {
    ClientStateView::Done(told_on_error("エラー: "@ + message, exit_code))
}

/// The state for a path on which this verdict was reached.
pub open spec fn judged(
    path: Seq<char>,
    verdict: Result<Seq<char>, Seq<char>>,
) -> ClientStateView {
    match verdict {
        Ok(directory) => ClientStateView::Probing { path, directory },
        Err(message) => failed(message, EXIT_USAGE),
    }
}

/// `next` is a state for `path`, by a verdict that some platform reaches on it.
pub open spec fn may_be_judged(path: Seq<char>, next: ClientStateView) -> bool {
    exists|extension: Option<Seq<char>>, parent: Option<Seq<char>>|
        #![trigger path_verdict(path, extension, parent)]
        may_be_extension(path, extension) && may_be_parent(path, parent) && next == judged(
            path,
            path_verdict(path, extension, parent),
        )
}

/// `path` is a path for a recording that starts at `now` in `directory`.
pub open spec fn may_be_default(directory: Seq<char>, now: LocalTime, path: Seq<char>) -> bool {
    is_join(directory, recording_name(now), path)
}

/// `next` is a state in which a recording is about to start, at `path` or, where there
/// is none, at a path that is yet to be made.
pub open spec fn may_lead_to_start(path: Option<Seq<char>>, next: ClientStateView) -> bool {
    match path {
        Some(p) => may_be_judged(p, next),
        None => next == ClientStateView::NeedsPath,
    }
}

/// `next` is a state in which a run with this request begins.
pub open spec fn may_begin(
    program: Seq<char>,
    request: RequestView,
    next: ClientStateView,
) -> bool {
    match request {
        RequestView::Start(path) => may_lead_to_start(path, next),
        RequestView::Toggle(path) => next == (ClientStateView::Toggling { wanted: path }),
        RequestView::Stop => next == ClientStateView::Stopping,
        RequestView::SavePath(directory) => next == (ClientStateView::Checking { directory }),
        _ => refusal(program, request) matches Some(report) && next == ClientStateView::Done(
            report,
        ),
    }
}

/// `next` is a state that follows `state` once `event` has come of it.
pub open spec fn may_follow(
    program: Seq<char>,
    state: ClientStateView,
    event: ClientEvent,
    next: ClientStateView,
) -> bool {
    match event {
        ClientEvent::Settings(save_path, now) => match save_path {
            None => next == ClientStateView::Done(missing_save_path_text(program)),
            Some(directory) => exists|path: Seq<char>| #[trigger]
                may_be_default(directory@, now, path) && may_be_judged(path, next),
        },
        ClientEvent::Probed(probe) => match directory_verdict(state->Probing_directory, probe) {
            Ok(()) => next == (ClientStateView::Starting { path: state->Probing_path }),
            Err(message) => next == failed(message, EXIT_USAGE),
        },
        ClientEvent::Answered(answer) => match answer {
            Err(message) => next == failed(message@, EXIT_PIPE),
            Ok(response) => if state is Toggling && toggle_goes_on(response@) {
                may_lead_to_start(state->Toggling_wanted, next)
            } else {
                next == ClientStateView::Done(response_report(response@))
            },
        },
        ClientEvent::Exists(there) => if there {
            next == (ClientStateView::Saving { directory: state->Checking_directory })
        } else {
            next == ClientStateView::Done(
                told_on_error(
                    "エラー: 指定したディレクトリが存在しません: "@ + state->Checking_directory,
                    EXIT_USAGE,
                ),
            )
        },
        ClientEvent::Saved(saved) => next == ClientStateView::Done(
            saved_report(state->Saving_directory, both_told(saved)),
        ),
    }
}

/// The state for a path on which this verdict was reached.
pub fn after_verdict(path: String, verdict: Result<String, String>) -> (next: ClientState)
    ensures
        next@ == judged(path@, both_told(verdict)),
{
    match verdict {
        Ok(directory) => ClientState::Probing { path, directory },
        Err(message) => ClientState::Done(failure_report(message.as_str(), EXIT_USAGE)),
    }
}

/// Checks a path and decides what follows.
fn check_path(path: String) -> (next: ClientState)
    ensures
        may_be_judged(path@, next@),
{
    let verdict: Result<String, String> = validate_output_path(path.as_str());
    after_verdict(path, verdict)
}

/// Goes on to start a recording.
fn lead_to_start(path: Option<String>) -> (next: ClientState)
    ensures
        may_lead_to_start(optional_text(path), next@),
{
    match path {
        Some(p) => check_path(p),
        None => ClientState::NeedsPath,
    }
}

/// Begins a run with the arguments of the program, the first of which is its name.
pub fn begin(args: &Vec<String>) -> (next: ClientState)
    requires
        args.len() >= 1,
    ensures
        may_begin(lines_of(args@)[0], request_of(lines_of(args@)), next@),
{
    let request: Request = parse_args(args);
    if let Some(report) = refuse(args[0].as_str(), &request) {
        return ClientState::Done(report);
    }
    match request {
        Request::Start(path) => lead_to_start(path),
        Request::Toggle(path) => ClientState::Toggling { wanted: path },
        Request::Stop => ClientState::Stopping,
        Request::SavePath(directory) => ClientState::Checking { directory },
        _ => unreached(),
    }
}

impl ClientState {
    /// Decides what follows once `event` has come of what this state asks for;
    /// `program` is the name of the program.
    pub fn next(self, program: &str, event: ClientEvent) -> (next: ClientState)
        requires
            fits(self, event),
        ensures
            may_follow(program@, self@, event, next@),
    {
        match (self, event) {
            (ClientState::Toggling { wanted }, ClientEvent::Answered(answer)) => match answer {
                Err(message) => ClientState::Done(failure_report(message.as_str(), EXIT_PIPE)),
                Ok(response) => {
                    if toggle_needs_start(response.as_str()) {
                        lead_to_start(wanted)
                    } else {
                        ClientState::Done(handle_response(response.as_str()))
                    }
                },
            },
            (ClientState::NeedsPath, ClientEvent::Settings(save_path, now)) => {
                match default_output_path(&save_path, &now) {
                    None => ClientState::Done(missing_save_path_report(program)),
                    Some(path) => {
                        let ghost p = path@;
                        let next: ClientState = check_path(path);
                        assert(may_be_default(save_path->0@, now, p));
                        next
                    },
                }
            },
            (
                ClientState::Probing { path, directory },
                ClientEvent::Probed(probe),
            ) => match judge_directory(directory.as_str(), probe) {
                Ok(()) => ClientState::Starting { path },
                Err(message) => ClientState::Done(failure_report(message.as_str(), EXIT_USAGE)),
            },
            (ClientState::Starting { .. }, ClientEvent::Answered(answer)) => match answer {
                Err(message) => ClientState::Done(failure_report(message.as_str(), EXIT_PIPE)),
                Ok(response) => ClientState::Done(handle_response(response.as_str())),
            },
            (ClientState::Stopping, ClientEvent::Answered(answer)) => match answer {
                Err(message) => ClientState::Done(failure_report(message.as_str(), EXIT_PIPE)),
                Ok(response) => ClientState::Done(handle_response(response.as_str())),
            },
            (ClientState::Checking { directory }, ClientEvent::Exists(found)) => {
                if found {
                    ClientState::Saving { directory }
                } else {
                    ClientState::Done(missing_directory_report(directory.as_str()))
                }
            },
            (ClientState::Saving { directory }, ClientEvent::Saved(saved)) => ClientState::Done(
                save_path_report(directory.as_str(), saved),
            ),
            _ => unreached(),
        }
    }

    /// The command that this state sends to the plugin, where it sends one.
    pub fn command(&self) -> (r: Option<String>)
        ensures
            optional_text(r) == command_of(self@),
    {
        match self {
            ClientState::Starting { path } => Some(start_command(path.as_str())),
            ClientState::Toggling { .. } => Some(stop_command()),
            ClientState::Stopping => Some(stop_command()),
            _ => None,
        }
    }

    /// The line that this state tells the user before it sends its command, where there
    /// is one.
    pub fn notice(&self) -> (r: Option<String>)
        ensures
            optional_text(r) == (match self@ {
                ClientStateView::Starting { path } => Some("録音先: "@ + path),
                _ => None,
            }),
    {
        match self {
            ClientState::Starting { path } => Some(recording_line(path.as_str())),
            _ => None,
        }
    }
}

/// The command that a state sends to the plugin.
pub open spec fn command_of(state: ClientStateView) -> Option<Seq<char>> {
    match state {
        ClientStateView::Starting { path } => Some("start:"@ + path),
        ClientStateView::Toggling { .. } => Some("stop"@),
        ClientStateView::Stopping => Some("stop"@),
        _ => None,
    }
}

/// The largest number of states that can follow.
pub open spec fn states_left(state: ClientStateView) -> nat {
    match state {
        ClientStateView::Toggling { .. } => 4,
        ClientStateView::NeedsPath => 3,
        ClientStateView::Probing { .. } => 2,
        ClientStateView::Starting { .. } => 1,
        ClientStateView::Stopping => 1,
        ClientStateView::Checking { .. } => 2,
        ClientStateView::Saving { .. } => 1,
        ClientStateView::Done(_) => 0,
    }
}

/// `path` passes the check of its extension on some platform, where it lies in
/// `directory`.
pub open spec fn may_be_accepted(path: Seq<char>, directory: Seq<char>) -> bool {
    exists|extension: Option<Seq<char>>, parent: Option<Seq<char>>|
        #![trigger path_verdict(path, extension, parent)]
        may_be_extension(path, extension) && may_be_parent(path, parent) && path_verdict(
            path,
            extension,
            parent,
        ) == Ok::<Seq<char>, Seq<char>>(directory)
}

/// A path whose directory is probed has been accepted.
proof fn probed_paths_are_accepted(path: Seq<char>, next: ClientStateView)
    requires
        may_be_judged(path, next),
    ensures
        next matches ClientStateView::Probing { path: p, directory } ==> may_be_accepted(
            p,
            directory,
        ),
        !(next is Starting),
{
    let (extension, parent) = choose|extension: Option<Seq<char>>, parent: Option<Seq<char>>|
        #![trigger path_verdict(path, extension, parent)]
        may_be_extension(path, extension) && may_be_parent(path, parent) && next == judged(
            path,
            path_verdict(path, extension, parent),
        );
    assert(path_verdict(path, extension, parent) == path_verdict(path, extension, parent));
}

/// The directory of a path that ends in a plain `wav` is probed.
proof fn plain_paths_are_probed(path: Seq<char>, next: ClientStateView)
    requires
        has_plain_extension(path, "wav"@),
        may_be_judged(path, next),
    ensures
        next matches ClientStateView::Probing { path: p, .. } && p == path,
{
    reveal_strlit("wav");
    assert(ascii_lower("wav"@) == "wav"@);
    let (extension, parent) = choose|extension: Option<Seq<char>>, parent: Option<Seq<char>>|
        #![trigger path_verdict(path, extension, parent)]
        may_be_extension(path, extension) && may_be_parent(path, parent) && next == judged(
            path,
            path_verdict(path, extension, parent),
        );
    plain_wav_paths_are_accepted(path, "wav"@, extension, parent);
}

/// The check of a path in a run reaches the right verdict wherever the form of the path
/// decides: what is probed is the right directory, and what is refused is no WAV file.
pub proof fn checks_reach_right_verdicts(path: Seq<char>, next: ClientStateView)
    requires
        may_be_judged(path, next),
    ensures
        next is Probing || next is Done,
        next is Probing ==> next->Probing_path == path && is_right_verdict(
            path,
            Ok(next->Probing_directory),
        ),
        next is Done ==> {
            let message = "'.wav' 拡張子のファイルを指定してください: "@ + path;
            next == failed(message, EXIT_USAGE) && is_right_verdict(path, Err(message))
        },
{
    let (extension, parent) = choose|extension: Option<Seq<char>>, parent: Option<Seq<char>>|
        #![trigger path_verdict(path, extension, parent)]
        may_be_extension(path, extension) && may_be_parent(path, parent) && next == judged(
            path,
            path_verdict(path, extension, parent),
        );
    verdicts_are_right(path, extension, parent);
}

/// A run comes to an end: every state is nearer to it than the one before.
pub proof fn runs_come_to_an_end(
    program: Seq<char>,
    state: ClientState,
    event: ClientEvent,
    next: ClientStateView,
)
    requires
        fits(state, event),
        may_follow(program, state@, event, next),
    ensures
        states_left(next) < states_left(state@),
{
}

/// Nothing is sent to start a recording before its path has passed the checks: the
/// directory is probed only for a path that counts as a WAV file's on some platform,
/// and the command with that path is sent only when the directory can be written to.
pub proof fn starts_follow_the_checks(
    program: Seq<char>,
    state: ClientState,
    event: ClientEvent,
    next: ClientStateView,
)
    requires
        fits(state, event),
        may_follow(program, state@, event, next),
    ensures
        next matches ClientStateView::Probing { path, directory } ==> may_be_accepted(
            path,
            directory,
        ),
        next matches ClientStateView::Starting { path } ==> state@ is Probing
            && state@->Probing_path == path && event == ClientEvent::Probed(
            DirectoryProbe::Writable,
        ),
{
    if let ClientEvent::Settings(Some(directory), now) = event {
        let path = choose|path: Seq<char>| #[trigger]
            may_be_default(directory@, now, path) && may_be_judged(path, next);
        probed_paths_are_accepted(path, next);
    }
    if let ClientStateView::Toggling { wanted: Some(path) } = state@ {
        if may_be_judged(path, next) {
            probed_paths_are_accepted(path, next);
        }
    }
}

/// The first state of a run sends no command to start a recording, and it probes only
/// for a path that counts as a WAV file's on some platform.
pub proof fn no_run_begins_with_a_start(
    program: Seq<char>,
    request: RequestView,
    next: ClientStateView,
)
    requires
        may_begin(program, request, next),
    ensures
        !(next is Starting),
        next matches ClientStateView::Probing { path, directory } ==> may_be_accepted(
            path,
            directory,
        ),
{
    if let RequestView::Start(Some(path)) = request {
        probed_paths_are_accepted(path, next);
    }
}

/// A start without a path goes on to probe a directory wherever one is set in which
/// files can be put: the path that is made of it and of the time passes the check of
/// its extension.
pub proof fn default_paths_pass_the_check(
    program: Seq<char>,
    state: ClientState,
    directory: String,
    now: LocalTime,
    next: ClientStateView,
)
    requires
        state is NeedsPath,
        may_follow(program, state@, ClientEvent::Settings(Some(directory), now), next),
        is_place_for_files(directory@),
    ensures
        next is Probing,
        may_be_joined(directory@, recording_name(now), next->Probing_path),
{
    let path = choose|path: Seq<char>| #[trigger]
        may_be_default(directory@, now, path) && may_be_judged(path, next);
    default_path_is_a_wav_path(directory@, now, path);
    plain_paths_are_probed(path, next);
}

/// A toggle sends its stop before anything about its path is looked at, so that a
/// recording under way is stopped whatever the path is.
pub proof fn toggles_stop_first(
    program: Seq<char>,
    path: Option<Seq<char>>,
    next: ClientStateView,
)
    requires
        may_begin(program, RequestView::Toggle(path), next),
    ensures
        command_of(next) == Some("stop"@),
{
}

/// The exit code tells where a run failed: a pipe that gave no response, an argument or
/// a check, or the plugin.
pub proof fn exit_codes_tell_what_failed(
    program: Seq<char>,
    state: ClientState,
    event: ClientEvent,
    next: ClientStateView,
)
    requires
        fits(state, event),
        may_follow(program, state@, event, next),
        next is Done,
    ensures
        ({
            let code = next->Done_0.exit_code;
            match event {
                ClientEvent::Answered(Err(_)) => code == EXIT_PIPE,
                ClientEvent::Answered(Ok(response)) => if state is Toggling && toggle_goes_on(
                    response@,
                ) {
                    code == EXIT_USAGE
                } else {
                    code == response_report(response@).exit_code && (code == EXIT_OK || code
                        == EXIT_PLUGIN)
                },
                ClientEvent::Saved(Ok(_)) => code == EXIT_OK,
                _ => code == EXIT_USAGE,
            }
        }),
{
}

/// The recorder is started with the very path that the client has checked: where the
/// plugin gets the command for it and no recording is under way, the recorder is told to
/// start with that path, and the response says how that went.
pub proof fn checked_path_reaches_the_recorder<R: AudioRecorder>(
    path: Seq<char>,
    directory: Seq<char>,
    before: R,
    after: R,
    response: Seq<char>,
)
    requires
        may_be_accepted(path, directory),
        message_effect(decoded(encode_utf8("start:"@ + path)), before, after, response),
        !before.recording(),
    ensures
        exists|result: Result<(), String>| #[trigger]
            started(before, path, after, result) && response == outcome_text(result),
{
    let command = "start:"@ + path;
    sent_text_arrives(command);
    let (extension, parent) = choose|extension: Option<Seq<char>>, parent: Option<Seq<char>>|
        #![trigger path_verdict(path, extension, parent)]
        may_be_extension(path, extension) && may_be_parent(path, parent) && path_verdict(
            path,
            extension,
            parent,
        ) == Ok::<Seq<char>, Seq<char>>(directory);
    accepted_paths_arrive_unchanged(path, extension, parent);
    assert(start_path(trimmed(command)) == Some(path));
    assert(start_path(trimmed(command))->0 == path);
}

/// A run begins with what its arguments say, whole and unchanged: a directory to be
/// saved is checked as it was given, and a path is checked as it was given.
pub proof fn runs_begin_with_what_was_given(args: Vec<String>, state: ClientState)
    requires
        args@.len() >= 1,
        call_ensures(begin, (&args,), state),
    ensures
        args@.len() > 3 && args@[1]@ == "config"@ && args@[2]@ == "save-path"@ ==> (
        state matches ClientState::Checking { directory } && directory@ == args@[3]@),
        args@.len() > 2 && args@[1]@ == "start"@ ==> {
            ||| (state matches ClientState::Probing { path, .. } && path@ == args@[2]@)
            ||| (state matches ClientState::Done(report) && report.exit_code == 1
                && report.output@.len() == 0 && lines_of(report.errors@) =~= seq![
                "エラー: '.wav' 拡張子のファイルを指定してください: "@ + args@[2]@,
            ])
        },
        args@.len() == 2 && args@[1]@ == "start"@ ==> state is NeedsPath,
        args@.len() >= 2 && args@[1]@ == "stop"@ ==> state is Stopping,
        args@.len() > 2 && args@[1]@ == "toggle"@ ==> (state matches ClientState::Toggling {
            wanted: Some(path),
        } && path@ == args@[2]@),
        args@.len() == 2 && args@[1]@ == "toggle"@ ==> (state matches ClientState::Toggling {
            wanted,
        } && wanted is None),
        args@.len() < 2 ==> (state matches ClientState::Done(report) && report.exit_code == 1),
{
    let lines = lines_of(args@);
    assert(lines.len() == args@.len());
    assert forall|i: int| 0 <= i < args@.len() implies #[trigger] lines[i] == args@[i]@ by {}
    requests_as_given(lines);
    if args@.len() > 2 && args@[1]@ == "start"@ {
        checks_reach_right_verdicts(args@[2]@, state@);
        refusals_are_worded(args@[2]@);
        if let ClientState::Done(report) = state {
            assert(lines_of(report.output@).len() == report.output@.len());
        }
    }
}

/// The line for a path that is no WAV file's.
proof fn refusals_are_worded(path: Seq<char>)
    ensures
        "エラー: "@ + ("'.wav' 拡張子のファイルを指定してください: "@ + path)
            =~= "エラー: '.wav' 拡張子のファイルを指定してください: "@ + path,
{
    reveal_strlit("エラー: ");
    reveal_strlit("'.wav' 拡張子のファイルを指定してください: ");
    reveal_strlit("エラー: '.wav' 拡張子のファイルを指定してください: ");
    assert("エラー: "@ + "'.wav' 拡張子のファイルを指定してください: "@
        =~= "エラー: '.wav' 拡張子のファイルを指定してください: "@);
}

/// A directory to be saved is saved as it was checked, and a path is sent as it was
/// checked; both only where the check went well.
pub proof fn what_was_checked_is_used(
    state: ClientState,
    program: &str,
    event: ClientEvent,
    next: ClientState,
)
    requires
        fits(state, event),
        call_ensures(ClientState::next, (state, program, event), next),
    ensures
        state matches ClientState::Checking { directory } ==> (event == ClientEvent::Exists(true)
            ==> (next matches ClientState::Saving { directory: d } && d@ == directory@)),
        state is Checking && event == ClientEvent::Exists(false) ==> next is Done
            && next->Done_0.exit_code == 1,
        next is Saving ==> state is Checking && event == ClientEvent::Exists(true),
        state matches ClientState::Probing { path, .. } ==> (event == ClientEvent::Probed(
            DirectoryProbe::Writable,
        ) ==> (next matches ClientState::Starting { path: p } && p@ == path@)),
        state is Probing && event != ClientEvent::Probed(DirectoryProbe::Writable) ==> next is Done
            && next->Done_0.exit_code == 1,
        next is Starting ==> state is Probing,
{
    assert(may_follow(program@, state@, event, next@));
    if let ClientEvent::Settings(Some(directory), now) = event {
        let path = choose|path: Seq<char>| #[trigger]
            may_be_default(directory@, now, path) && may_be_judged(path, next@);
        checks_reach_right_verdicts(path, next@);
    }
    if let ClientStateView::Toggling { wanted: Some(path) } = state@ {
        if may_be_judged(path, next@) {
            checks_reach_right_verdicts(path, next@);
        }
    }
}

/// The directory that is given on the command line is the one that is checked, the one
/// that is saved, and the one that stands in the settings that are loaded later; the
/// report names it.
pub proof fn the_directory_given_is_saved(
    args: Vec<String>,
    first: ClientState,
    program: &str,
    second: ClientState,
    before: ConfigFile,
    loaded: Config,
    settings: Config,
    again: Config,
    file: String,
    last: ClientState,
)
    requires
        args@.len() > 3,
        args@[1]@ == "config"@,
        args@[2]@ == "save-path"@,
        call_ensures(begin, (&args,), first),
        call_ensures(ClientState::next, (first, program, ClientEvent::Exists(true)), second),
        call_ensures(load_config_from_path, (before,), loaded),
        call_ensures(with_save_path, (loaded, second->Saving_directory), settings),
        call_ensures(load_config_from_path, (ConfigFile::Parsed(settings),), again),
        call_ensures(ClientState::next, (second, program, ClientEvent::Saved(Ok(file))), last),
    ensures
        first matches ClientState::Checking { directory } && directory@ == args@[3]@,
        second matches ClientState::Saving { directory } && directory@ == args@[3]@,
        again.save_path matches Some(directory) && directory@ == args@[3]@,
        last matches ClientState::Done(report) && report.exit_code == 0 && lines_of(report.output@)
            =~= seq![
            "デフォルト保存先を設定しました: "@ + args@[3]@,
            "設定ファイル: "@ + file@,
        ],
{
    runs_begin_with_what_was_given(args, first);
    what_was_checked_is_used(first, program, ClientEvent::Exists(true), second);
}

/// The path that is given on the command line is the one that is checked and the one
/// that is sent, and it is named to the user before.
pub proof fn the_path_given_is_sent(
    args: Vec<String>,
    first: ClientState,
    program: &str,
    second: ClientState,
    command: Option<String>,
    notice: Option<String>,
)
    requires
        args@.len() > 2,
        args@[1]@ == "start"@,
        call_ensures(begin, (&args,), first),
        first is Probing,
        call_ensures(
            ClientState::next,
            (first, program, ClientEvent::Probed(DirectoryProbe::Writable)),
            second,
        ),
        call_ensures(ClientState::command, (&second,), command),
        call_ensures(ClientState::notice, (&second,), notice),
    ensures
        first matches ClientState::Probing { path, .. } && path@ == args@[2]@,
        command matches Some(c) && start_path(c@) == Some(args@[2]@) && c@ =~= "start:"@
            + args@[2]@,
        notice matches Some(n) && n@ =~= "録音先: "@ + args@[2]@,
{
    runs_begin_with_what_was_given(args, first);
    what_was_checked_is_used(
        first,
        program,
        ClientEvent::Probed(DirectoryProbe::Writable),
        second,
    );
    let c = command->0@;
    assert("start:"@ =~= c.subrange(0, "start:"@.len() as int));
    assert(c.skip("start:"@.len() as int) =~= args@[2]@);
}

/// What a state sends: a stop where something is to be stopped or toggled, a start with
/// its path where it is to be started, and nothing anywhere else.
pub proof fn states_send_their_commands(
    state: ClientState,
    command: Option<String>,
    notice: Option<String>,
)
    requires
        call_ensures(ClientState::command, (&state,), command),
        call_ensures(ClientState::notice, (&state,), notice),
    ensures
        state is Stopping || state is Toggling ==> (command matches Some(c) && c@ == "stop"@),
        state matches ClientState::Starting { path } ==> (command matches Some(c) && c@ =~= "start:"@
            + path@),
        !(state is Stopping || state is Toggling || state is Starting) ==> command is None,
        notice is Some <==> state is Starting,
{
}

/// A response ends a start, a stop, or a toggle that has stopped something, and is told
/// with its reason, whole and unchanged; the message of a pipe that failed is told the
/// same way, with an exit code of its own.
pub proof fn answers_end_the_run(
    state: ClientState,
    program: &str,
    answer: Result<String, String>,
    reason: Seq<char>,
    next: ClientState,
)
    requires
        state is Starting || state is Stopping || state is Toggling,
        call_ensures(ClientState::next, (state, program, ClientEvent::Answered(answer)), next),
    ensures
        answer matches Err(message) ==> (next matches ClientState::Done(report) && report.exit_code
            == 2 && report.output@.len() == 0 && lines_of(report.errors@) =~= seq![
            "エラー: "@ + message@,
        ]),
        answer matches Ok(response) ==> {
            &&& response@ == "ok"@ ==> (next matches ClientState::Done(report) && report.exit_code
                == 0 && report.errors@.len() == 0 && lines_of(report.output@) =~= seq!["成功"@])
            &&& response@ == "err:"@ + reason ==> (next matches ClientState::Done(report)
                && report.exit_code == 3 && report.output@.len() == 0 && lines_of(report.errors@)
                =~= seq!["プラグインエラー: "@ + reason])
            &&& response@ == "noop:"@ + reason && !(state is Toggling) ==> (
            next matches ClientState::Done(report) && report.exit_code == 0 && report.errors@.len()
                == 0 && lines_of(report.output@) =~= seq!["変化なし: "@ + reason])
        },
{
    assert(may_follow(program@, state@, ClientEvent::Answered(answer), next@));
    if let Ok(response) = answer {
        reports_of_responses(response@, reason);
        kinds_of_response_differ(reason);
    }
    if let ClientState::Done(report) = next {
        assert(lines_of(report.output@).len() == report.output@.len());
        assert(lines_of(report.errors@).len() == report.errors@.len());
    }
}

/// A toggle whose stop found nothing to stop goes on as a start with its path would
/// begin: with that path, whole and unchanged, or with the settings where it has none.
pub proof fn toggles_go_on_with_their_path(
    wanted: Option<String>,
    program: &str,
    response: String,
    reason: Seq<char>,
    next: ClientState,
)
    requires
        response@ == "noop:"@ + reason,
        call_ensures(
            ClientState::next,
            (ClientState::Toggling { wanted }, program, ClientEvent::Answered(Ok(response))),
            next,
        ),
    ensures
        wanted is None ==> next is NeedsPath,
        wanted matches Some(path) ==> {
            ||| (next matches ClientState::Probing { path: p, .. } && p@ == path@)
            ||| (next matches ClientState::Done(report) && report.exit_code == 1)
        },
{
    assert("noop:"@ =~= response@.subrange(0, "noop:"@.len() as int));
    if let Some(path) = wanted {
        checks_reach_right_verdicts(path@, next@);
    }
}

/// A start without a path uses the directory of the settings and the time: where files
/// can be put in that directory, the path that is checked begins with it and ends in
/// the time, whose digits read back as the moment. Without a directory the run ends.
pub proof fn starts_use_the_settings_and_the_clock(
    program: &str,
    save_path: Option<String>,
    now: LocalTime,
    text: String,
    next: ClientState,
)
    requires
        is_within_its_ranges(now),
        call_ensures(local_datetime_string, (&now,), text),
        call_ensures(
            ClientState::next,
            (ClientState::NeedsPath, program, ClientEvent::Settings(save_path, now)),
            next,
        ),
    ensures
        save_path is None ==> (next matches ClientState::Done(report) && report.exit_code == 1),
        save_path matches Some(directory) ==> (is_place_for_files(directory@) ==> (
        next matches ClientState::Probing { path, .. } && directory@.is_prefix_of(path@) && (text@
            + ".wav"@).is_suffix_of(path@) && path@.len() <= directory@.len() + 20)),
{
    if let Some(directory) = save_path {
        if is_place_for_files(directory@) {
            default_paths_pass_the_check(
                program@,
                ClientState::NeedsPath,
                directory,
                now,
                next@,
            );
            let path = next@->Probing_path;
            moments_read_back(now, text);
            reveal_strlit(".wav");
            assert(recording_name(now).len() == 19);
            assert(directory@ =~= path.subrange(0, directory@.len() as int));
            assert(recording_name(now) =~= path.subrange(path.len() - 19, path.len() as int));
        }
    }
}

/// What cannot be carried out ends the run at once, with the exit code for that: a word
/// that is no command is named, whole and unchanged, before the usage.
pub proof fn runs_end_where_nothing_can_be_done(args: Vec<String>, state: ClientState)
    requires
        args@.len() >= 2,
        call_ensures(begin, (&args,), state),
    ensures
        args@[1]@ != "start"@ && args@[1]@ != "stop"@ && args@[1]@ != "toggle"@ && args@[1]@
            != "config"@ ==> (state matches ClientState::Done(report) && report.exit_code == 1
            && report.output@.len() == 0 && report.errors@.len() == 12 && report.errors@[0]@
            =~= "エラー: 未知のコマンド '"@ + args@[1]@ + "'"@),
        args@[1]@ == "config"@ && (args@.len() < 4 || args@[2]@ != "save-path"@) ==> (
        state matches ClientState::Done(report) && report.exit_code == 1 && report.output@.len()
            == 0 && report.errors@.len() == 2 && report.errors@[0]@
            == "エラー: 'config' サブコマンドの使い方が正しくありません。"@),
{
    let lines = lines_of(args@);
    assert(lines.len() == args@.len());
    assert forall|i: int| 0 <= i < args@.len() implies #[trigger] lines[i] == args@[i]@ by {}
    other_requests(lines);
    if let ClientState::Done(report) = state {
        let errors = lines_of(report.errors@);
        assert(errors.len() == report.errors@.len());
        assert(lines_of(report.output@).len() == report.output@.len());
        if report.errors@.len() > 0 {
            assert(errors[0] == report.errors@[0]@);
        }
    }
}

/// A check that fails ends the run with the exit code for that, and what was checked is
/// named, whole and unchanged, with the reason where there is one.
pub proof fn failed_checks_are_told(
    state: ClientState,
    program: &str,
    event: ClientEvent,
    next: ClientState,
)
    requires
        fits(state, event),
        call_ensures(ClientState::next, (state, program, event), next),
    ensures
        state matches ClientState::Checking { directory } ==> (event == ClientEvent::Exists(false)
            ==> (next matches ClientState::Done(report) && report.exit_code == 1 && lines_of(
            report.errors@,
        ) =~= seq!["エラー: 指定したディレクトリが存在しません: "@ + directory@])),
        state matches ClientState::Probing { directory, .. } ==> (event == ClientEvent::Probed(
            DirectoryProbe::Missing,
        ) ==> (next matches ClientState::Done(report) && report.exit_code == 1 && lines_of(
            report.errors@,
        ) =~= seq!["エラー: "@ + ("出力先ディレクトリが存在しません: "@ + directory@)])),
        state matches ClientState::Probing { directory, .. } ==> (
        event matches ClientEvent::Probed(DirectoryProbe::NotWritable(reason)) ==> (
        next matches ClientState::Done(report) && report.exit_code == 1 && lines_of(report.errors@)
            =~= seq![
            "エラー: "@ + ("出力先ディレクトリへの書き込み権限がありません: "@ + directory@ + " ("@
                + reason@ + ")"@),
        ])),
        state is NeedsPath ==> (event matches ClientEvent::Settings(save_path, _) ==> (
        save_path is None ==> (next matches ClientState::Done(report) && report.exit_code == 1
            && report.errors@.len() == 2 && report.errors@[0]@
            == "エラー: デフォルト保存先が設定されていません。"@))),
        state matches ClientState::Saving { directory } ==> (event matches ClientEvent::Saved(
            Err(message),
        ) ==> (next matches ClientState::Done(report) && report.exit_code == 1 && lines_of(
            report.errors@,
        ) =~= seq!["エラー: "@ + message@])),
{
    assert(may_follow(program@, state@, event, next@));
    if let ClientState::Done(report) = next {
        let errors = lines_of(report.errors@);
        assert(errors.len() == report.errors@.len());
        if report.errors@.len() > 0 {
            assert(errors[0] == report.errors@[0]@);
        }
    }
}

/// A verdict on a path leads on with that path and the directory it names, whole and
/// unchanged, or ends the run with its message.
pub proof fn verdicts_lead_on(path: String, verdict: Result<String, String>, next: ClientState)
    requires
        call_ensures(after_verdict, (path, verdict), next),
    ensures
        verdict matches Ok(directory) ==> (next matches ClientState::Probing {
            path: p,
            directory: d,
        } && p@ == path@ && d@ == directory@),
        verdict matches Err(message) ==> (next matches ClientState::Done(report) && report.exit_code
            == 1 && lines_of(report.errors@) =~= seq!["エラー: "@ + message@]),
{
}

} // verus!
