//! The command line client: what it is asked, what it sends and what it tells.

use crate::command::{
    command_effect, every_command_is_answered, kinds_of_response_differ, outcomes_are_told_apart,
    start_path, stop_is_no_start,
};
use crate::recorder::AudioRecorder;
use crate::text::{both_told, join2, optional_text, same_text, strip_prefix};
use vstd::prelude::*;

verus! {

/// The exit code for success.
pub const EXIT_OK: i32 = 0;

/// The exit code for a wrong argument or a check that failed.
pub const EXIT_USAGE: i32 = 1;

/// The exit code for a pipe that could not be reached or written.
pub const EXIT_PIPE: i32 = 2;

/// The exit code for an error that the plugin told.
pub const EXIT_PLUGIN: i32 = 3;

/// What the client is asked to do.
pub enum Request {
    /// There is no command.
    Missing,
    /// Start a recording, at this path or at the default one.
    Start(Option<String>),
    /// Stop the recording.
    Stop,
    /// Stop the recording, or start one at this path or at the default one where none
    /// is under way.
    Toggle(Option<String>),
    /// Make this the directory for recordings without a path.
    SavePath(String),
    /// `config` with something else behind it.
    WrongConfig,
    /// A command that does not exist.
    Unknown(String),
}

/// The view of a [`Request`].
pub enum RequestView {
    /// See [`Request::Missing`].
    Missing,
    /// See [`Request::Start`].
    Start(Option<Seq<char>>),
    /// See [`Request::Stop`].
    Stop,
    /// See [`Request::Toggle`].
    Toggle(Option<Seq<char>>),
    /// See [`Request::SavePath`].
    SavePath(Seq<char>),
    /// See [`Request::WrongConfig`].
    WrongConfig,
    /// See [`Request::Unknown`].
    Unknown(Seq<char>),
}

impl View for Request {
    type V = RequestView;

    open spec fn view(&self) -> RequestView {
        match *self {
            Request::Missing => RequestView::Missing,
            Request::Start(path) => RequestView::Start(optional_text(path)),
            Request::Stop => RequestView::Stop,
            Request::Toggle(path) => RequestView::Toggle(optional_text(path)),
            Request::SavePath(directory) => RequestView::SavePath(directory@),
            Request::WrongConfig => RequestView::WrongConfig,
            Request::Unknown(command) => RequestView::Unknown(command@),
        }
    }
}

/// Lines of text as sequences.
pub open spec fn lines_of(lines: Seq<String>) -> Seq<Seq<char>> {
    lines.map_values(|line: String| line@)
}

/// The argument with this number, where there is one.
pub open spec fn argument(args: Seq<Seq<char>>, i: int) -> Option<Seq<char>> {
    if i < args.len() {
        Some(args[i])
    } else {
        None
    }
}

/// What the arguments ask for; the first one is the name of the program.
pub open spec fn request_of(args: Seq<Seq<char>>) -> RequestView {
    if args.len() < 2 {
        RequestView::Missing
    } else if args[1] == "start"@ {
        RequestView::Start(argument(args, 2))
    } else if args[1] == "stop"@ {
        RequestView::Stop
    } else if args[1] == "toggle"@ {
        RequestView::Toggle(argument(args, 2))
    } else if args[1] == "config"@ {
        if args.len() >= 4 && args[2] == "save-path"@ {
            RequestView::SavePath(args[3])
        } else {
            RequestView::WrongConfig
        }
    } else {
        RequestView::Unknown(args[1])
    }
}

/// The argument with number 2, where there is one.
fn path_argument(args: &Vec<String>) -> (r: Option<String>)
    ensures
        optional_text(r) == argument(lines_of(args@), 2),
{
    if args.len() >= 3 {
        Some(args[2].clone())
    } else {
        None
    }
}

/// Reads the arguments of the program.
pub fn parse_args(args: &Vec<String>) -> (r: Request)
    ensures
        r@ == request_of(lines_of(args@)),
{
    if args.len() < 2 {
        return Request::Missing;
    }
    let command: &str = args[1].as_str();
    if same_text(command, "start") {
        Request::Start(path_argument(args))
    } else if same_text(command, "stop") {
        Request::Stop
    } else if same_text(command, "toggle") {
        Request::Toggle(path_argument(args))
    } else if same_text(command, "config") {
        if args.len() < 4 || !same_text(args[2].as_str(), "save-path") {
            Request::WrongConfig
        } else {
            Request::SavePath(args[3].clone())
        }
    } else {
        Request::Unknown(args[1].clone())
    }
}

/// What the client tells the user before it ends, and the exit code that it ends with.
pub struct Report {
    /// The lines for standard output.
    pub output: Vec<String>,
    /// The lines for standard error.
    pub errors: Vec<String>,
    /// The exit code.
    pub exit_code: i32,
}

/// The view of a [`Report`].
pub struct ReportView {
    /// The lines for standard output.
    pub output: Seq<Seq<char>>,
    /// The lines for standard error.
    pub errors: Seq<Seq<char>>,
    /// The exit code.
    pub exit_code: i32,
}

impl View for Report {
    type V = ReportView;

    open spec fn view(&self) -> ReportView {
        ReportView {
            output: lines_of(self.output@),
            errors: lines_of(self.errors@),
            exit_code: self.exit_code,
        }
    }
}

/// A report of one line on standard output.
pub open spec fn told_on_output(line: Seq<char>) -> ReportView {
    ReportView { output: seq![line], errors: Seq::empty(), exit_code: EXIT_OK }
}

/// A report of one line on standard error.
pub open spec fn told_on_error(line: Seq<char>, exit_code: i32) -> ReportView {
    ReportView { output: Seq::empty(), errors: seq![line], exit_code }
}

/// Makes a report of one line on standard output.
fn report_output(line: String) -> (r: Report)
    ensures
        r@ == told_on_output(line@),
{
    let mut output: Vec<String> = Vec::new();
    output.push(line);
    let r = Report { output, errors: Vec::new(), exit_code: EXIT_OK };
    assert(lines_of(r.output@) == seq![line@]);
    assert(lines_of(r.errors@) == Seq::<Seq<char>>::empty());
    r
}

/// Makes a report of one line on standard error.
fn report_error(line: String, exit_code: i32) -> (r: Report)
    ensures
        r@ == told_on_error(line@, exit_code),
{
    let mut errors: Vec<String> = Vec::new();
    errors.push(line);
    let r = Report { output: Vec::new(), errors, exit_code };
    assert(lines_of(r.errors@) == seq![line@]);
    assert(lines_of(r.output@) == Seq::<Seq<char>>::empty());
    r
}

/// What the client tells about a response.
pub open spec fn response_report(response: Seq<char>) -> ReportView {
    if response == "ok"@ {
        told_on_output("成功"@)
    } else if "noop:"@.is_prefix_of(response) {
        told_on_output("変化なし: "@ + response.skip("noop:"@.len() as int))
    } else if "err:"@.is_prefix_of(response) {
        told_on_error(
            "プラグインエラー: "@ + response.skip("err:"@.len() as int),
            EXIT_PLUGIN,
        )
    } else {
        told_on_error("予期しないレスポンス: "@ + response, EXIT_PLUGIN)
    }
}

/// Decides what to tell about a response.
pub fn handle_response(response: &str) -> (r: Report)
    ensures
        r@ == response_report(response@),
{
    if same_text(response, "ok") {
        return report_output("成功".to_owned());
    }
    if let Some(reason) = strip_prefix(response, "noop:") {
        assert(response@.skip("noop:"@.len() as int) == reason@);
        return report_output(join2("変化なし: ", reason));
    }
    if let Some(reason) = strip_prefix(response, "err:") {
        assert(response@.skip("err:"@.len() as int) == reason@);
        return report_error(join2("プラグインエラー: ", reason), EXIT_PLUGIN);
    }
    report_error(join2("予期しないレスポンス: ", response), EXIT_PLUGIN)
}

/// What the client tells when something failed on its own side.
pub fn failure_report(message: &str, exit_code: i32) -> (r: Report)
    ensures
        r@ == told_on_error("エラー: "@ + message@, exit_code),
{
    report_error(join2("エラー: ", message), exit_code)
}

/// What the client tells before it starts a recording.
pub fn recording_line(path: &str) -> (r: String)
    ensures
        r@ == "録音先: "@ + path@,
{
    join2("録音先: ", path)
}

/// The command that starts a recording.
pub fn start_command(path: &str) -> (r: String)
    ensures
        r@ == "start:"@ + path@,
{
    join2("start:", path)
}

/// The command that stops the recording.
pub fn stop_command() -> (r: String)
    ensures
        r@ == "stop"@,
{
    "stop".to_owned()
}

/// `front`, the name of the program and `back`.
pub open spec fn around(front: Seq<char>, program: Seq<char>, back: Seq<char>) -> Seq<char> {
    front + program + back
}

/// Writes `front`, the name of the program and `back`.
fn line_around(front: &str, program: &str, back: &str) -> (r: String)
    ensures
        r@ == around(front@, program@, back@),
{
    let mut line: String = join2(front, program);
    line.append(back);
    line
}

/// How the program is used.
pub open spec fn usage_text(program: Seq<char>) -> Seq<Seq<char>> {
    seq![
        "使用方法:"@,
        around(
            "  "@,
            program,
            " start [<WAVファイルの絶対パス>]  -- 録音を開始する（パス省略時はデフォルト保存先を使用）"@,
        ),
        around("  "@, program, " stop                              -- 録音を停止する"@),
        around(
            "  "@,
            program,
            " toggle [<WAVファイルの絶対パス>] -- 録音中なら停止し、停止中なら開始する"@,
        ),
        around(
            "  "@,
            program,
            " config save-path <ディレクトリ>   -- デフォルト保存先を設定する"@,
        ),
        ""@,
        "例:"@,
        around("  "@, program, " start \"C:\\録音\\output.wav\""@),
        around(
            "  "@,
            program,
            " start  # デフォルト保存先 + タイムスタンプ名で録音開始"@,
        ),
        around("  "@, program, " stop"@),
        around("  "@, program, " config save-path \"C:\\録音\""@),
    ]
}

/// The lines that tell how the program is used.
pub fn usage_lines(program: &str) -> (lines: Vec<String>)
    ensures
        lines_of(lines@) == usage_text(program@),
{
    let mut lines: Vec<String> = Vec::new();
    lines.push("使用方法:".to_owned());
    lines.push(
        line_around(
            "  ",
            program,
            " start [<WAVファイルの絶対パス>]  -- 録音を開始する（パス省略時はデフォルト保存先を使用）",
        ),
    );
    lines.push(
        line_around("  ", program, " stop                              -- 録音を停止する"),
    );
    lines.push(
        line_around(
            "  ",
            program,
            " toggle [<WAVファイルの絶対パス>] -- 録音中なら停止し、停止中なら開始する",
        ),
    );
    lines.push(
        line_around(
            "  ",
            program,
            " config save-path <ディレクトリ>   -- デフォルト保存先を設定する",
        ),
    );
    lines.push("".to_owned());
    lines.push("例:".to_owned());
    lines.push(line_around("  ", program, " start \"C:\\録音\\output.wav\""));
    lines.push(
        line_around(
            "  ",
            program,
            " start  # デフォルト保存先 + タイムスタンプ名で録音開始",
        ),
    );
    lines.push(line_around("  ", program, " stop"));
    lines.push(line_around("  ", program, " config save-path \"C:\\録音\""));
    assert(lines_of(lines@) =~= usage_text(program@));
    lines
}

/// What the client tells when it is asked nothing that it can do, by the arguments. A
/// request that it can carry out gets no report yet.
pub open spec fn refusal(program: Seq<char>, request: RequestView) -> Option<ReportView> {
    let errors = match request {
        RequestView::Missing => Some(usage_text(program)),
        RequestView::Unknown(command) => Some(
            seq![around("エラー: 未知のコマンド '"@, command, "'"@)] + usage_text(program),
        ),
        RequestView::WrongConfig => Some(
            seq![
                "エラー: 'config' サブコマンドの使い方が正しくありません。"@,
                around("使用方法: "@, program, " config save-path <ディレクトリ>"@),
            ],
        ),
        _ => None,
    };
    match errors {
        Some(errors) => Some(ReportView { output: Seq::empty(), errors, exit_code: EXIT_USAGE }),
        None => None,
    }
}

/// Makes a report of lines on standard error for a wrong argument.
fn usage_error(errors: Vec<String>) -> (r: Report)
    ensures
        r@ == (ReportView {
            output: Seq::empty(),
            errors: lines_of(errors@),
            exit_code: EXIT_USAGE,
        }),
{
    let r = Report { output: Vec::new(), errors, exit_code: EXIT_USAGE };
    assert(lines_of(r.output@) == Seq::<Seq<char>>::empty());
    r
}

/// Decides what to tell about a request that cannot be carried out.
pub fn refuse(program: &str, request: &Request) -> (r: Option<Report>)
    ensures
        (match r {
            Some(report) => Some(report@),
            None => None,
        }) == refusal(program@, request@),
{
    match request {
        Request::Missing => Some(usage_error(usage_lines(program))),
        Request::Unknown(command) => {
            let mut lines: Vec<String> = Vec::new();
            lines.push(line_around("エラー: 未知のコマンド '", command.as_str(), "'"));
            let mut usage: Vec<String> = usage_lines(program);
            let ghost head = lines@;
            let ghost tail = usage@;
            lines.append(&mut usage);
            assert(lines_of(head + tail) =~= lines_of(head) + lines_of(tail));
            assert(lines_of(head) =~= seq![
                around("エラー: 未知のコマンド '"@, command@, "'"@),
            ]);
            Some(usage_error(lines))
        },
        Request::WrongConfig => {
            let mut lines: Vec<String> = Vec::new();
            lines.push("エラー: 'config' サブコマンドの使い方が正しくありません。".to_owned());
            lines.push(
                line_around("使用方法: ", program, " config save-path <ディレクトリ>"),
            );
            assert(lines_of(lines@) =~= seq![
                "エラー: 'config' サブコマンドの使い方が正しくありません。"@,
                around("使用方法: "@, program@, " config save-path <ディレクトリ>"@),
            ]);
            Some(usage_error(lines))
        },
        Request::Start(_) => None,
        Request::Stop => None,
        Request::Toggle(_) => None,
        Request::SavePath(_) => None,
    }
}

/// What the client tells when a recording is to start without a path and no directory
/// for it is set.
pub open spec fn missing_save_path_text(program: Seq<char>) -> ReportView {
    ReportView {
        output: Seq::empty(),
        errors: seq![
            "エラー: デフォルト保存先が設定されていません。"@,
            around(
                "先に '"@,
                program,
                " config save-path <ディレクトリ>' で保存先を設定してください。"@,
            ),
        ],
        exit_code: EXIT_USAGE,
    }
}

/// Tells that no directory for recordings is set.
pub fn missing_save_path_report(program: &str) -> (r: Report)
    ensures
        r@ == missing_save_path_text(program@),
{
    let mut lines: Vec<String> = Vec::new();
    lines.push("エラー: デフォルト保存先が設定されていません。".to_owned());
    lines.push(
        line_around(
            "先に '",
            program,
            " config save-path <ディレクトリ>' で保存先を設定してください。",
        ),
    );
    assert(lines_of(lines@) =~= seq![
        "エラー: デフォルト保存先が設定されていません。"@,
        around(
            "先に '"@,
            program@,
            " config save-path <ディレクトリ>' で保存先を設定してください。"@,
        ),
    ]);
    usage_error(lines)
}

/// What the client tells when the directory for recordings is to be one that does not
/// exist.
pub fn missing_directory_report(directory: &str) -> (r: Report)
    ensures
        r@ == told_on_error(
            "エラー: 指定したディレクトリが存在しません: "@ + directory@,
            EXIT_USAGE,
        ),
{
    report_error(
        join2("エラー: 指定したディレクトリが存在しません: ", directory),
        EXIT_USAGE,
    )
}

/// What the client tells when it has tried to save the directory for recordings.
pub open spec fn saved_report(
    directory: Seq<char>,
    saved: Result<Seq<char>, Seq<char>>,
) -> ReportView {
    match saved {
        Ok(config_path) => ReportView {
            output: seq![
                "デフォルト保存先を設定しました: "@ + directory,
                "設定ファイル: "@ + config_path,
            ],
            errors: Seq::empty(),
            exit_code: EXIT_OK,
        },
        Err(message) => told_on_error("エラー: "@ + message, EXIT_USAGE),
    }
}

/// Decides what to tell about saving the directory for recordings; `saved` holds the
/// path of the settings file, or the message that tells what failed.
pub fn save_path_report(directory: &str, saved: Result<String, String>) -> (r: Report)
    ensures
        r@ == saved_report(directory@, both_told(saved)),
{
    match saved {
        Ok(config_path) => {
            let mut output: Vec<String> = Vec::new();
            output.push(join2("デフォルト保存先を設定しました: ", directory));
            output.push(join2("設定ファイル: ", config_path.as_str()));
            let r = Report { output, errors: Vec::new(), exit_code: EXIT_OK };
            assert(lines_of(r.output@) =~= seq![
                "デフォルト保存先を設定しました: "@ + directory@,
                "設定ファイル: "@ + config_path@,
            ]);
            assert(lines_of(r.errors@) =~= Seq::<Seq<char>>::empty());
            r
        },
        Err(message) => failure_report(message.as_str(), EXIT_USAGE),
    }
}

/// The response to the stop of a toggle calls for a start: no recording was under way.
pub open spec fn toggle_goes_on(response: Seq<char>) -> bool {
    "noop:"@.is_prefix_of(response)
}

/// Decides whether a toggle goes on with a start. A toggle first sends a stop; where
/// that changes nothing because no recording is under way, a start follows.
pub fn toggle_needs_start(stop_response: &str) -> (r: bool)
    ensures
        r == toggle_goes_on(stop_response@),
{
    match strip_prefix(stop_response, "noop:") {
        Some(rest) => {
            assert("noop:"@ == stop_response@.subrange(0, "noop:"@.len() as int));
            true
        },
        None => false,
    }
}

/// What a toggle does to a recorder whose start, where it comes to one, is sent with
/// `path`; `response` is the response that is told.
pub open spec fn toggle_effect<R: AudioRecorder>(
    path: Seq<char>,
    before: R,
    between: R,
    stop_response: Seq<char>,
    after: R,
    response: Seq<char>,
) -> bool {
    &&& command_effect("stop"@, before, between, stop_response)
    &&& if toggle_goes_on(stop_response) {
        command_effect("start:"@ + path, between, after, response)
    } else {
        after == between && response == stop_response
    }
}

/// A toggle stops a recording that is under way, whatever its path, and starts one
/// where none is: it sends a start exactly where none is under way, and when it is
/// answered with `ok` the recorder has changed over.
pub proof fn toggle_changes_over<R: AudioRecorder>(
    path: Seq<char>,
    before: R,
    between: R,
    stop_response: Seq<char>,
    after: R,
    response: Seq<char>,
)
    requires
        toggle_effect(path, before, between, stop_response, after, response),
    ensures
        toggle_goes_on(stop_response) == !before.recording(),
        response == "ok"@ ==> after.recording() == !before.recording(),
        !toggle_goes_on(response),
{
    let start = "start:"@ + path;
    assert("start:"@ == start.subrange(0, "start:"@.len() as int));
    assert("start:"@.is_prefix_of(start));
    stop_is_no_start();
    every_command_is_answered("stop"@, before, between, stop_response);
    outcomes_are_told_apart();
    reveal_strlit("noop:録音していません");
    reveal_strlit("noop:");
    assert("noop:"@ == "noop:録音していません"@.subrange(0, 5));
}

/// What the plugin answers is understood: an `err:` ends the client with the plugin's
/// exit code, and every other answer ends it well.
pub proof fn plugin_errors_set_the_exit_code<R: AudioRecorder>(
    command: Seq<char>,
    before: R,
    after: R,
    response: Seq<char>,
)
    requires
        command_effect(command, before, after, response),
    ensures
        response_report(response).exit_code == (if "err:"@.is_prefix_of(response) {
            EXIT_PLUGIN
        } else {
            EXIT_OK
        }),
        response_report(response).errors.len() == 0 <==> response_report(response).exit_code
            == EXIT_OK,
{
    every_command_is_answered(command, before, after, response);
    reveal_strlit("ok");
    reveal_strlit("noop:");
    reveal_strlit("err:");
    if "err:"@.is_prefix_of(response) {
        assert("err:"@[0] == response[0]);
        if "noop:"@.is_prefix_of(response) {
            assert("noop:"@[0] == response[0]);
        }
    }
}

/// The words of the commands differ.
proof fn words_differ()
    ensures
        "start"@ != "stop"@,
        "start"@ != "toggle"@,
        "start"@ != "config"@,
        "stop"@ != "toggle"@,
        "stop"@ != "config"@,
        "toggle"@ != "config"@,
{
    reveal_strlit("start");
    reveal_strlit("stop");
    reveal_strlit("toggle");
    reveal_strlit("config");
    assert("start"@.len() == 5 && "stop"@.len() == 4 && "toggle"@.len() == 6 && "config"@.len()
        == 6);
    assert("toggle"@[0] == 't' && "config"@[0] == 'c');
}

/// Every request takes its path or directory from its place among the arguments, whole
/// and unchanged, and further arguments make no difference. A word that is no command
/// is kept as it was given.
pub proof fn arguments_are_taken_as_given(args: Vec<String>, request: Request)
    requires
        call_ensures(parse_args, (&args,), request),
    ensures
        args@.len() < 2 ==> request is Missing,
        args@.len() >= 2 && args@[1]@ == "stop"@ ==> request is Stop,
        args@.len() == 2 && args@[1]@ == "start"@ ==> (request matches Request::Start(path) && path
            is None),
        args@.len() > 2 && args@[1]@ == "start"@ ==> (request matches Request::Start(Some(path))
            && path@ == args@[2]@),
        args@.len() == 2 && args@[1]@ == "toggle"@ ==> (request matches Request::Toggle(path)
            && path is None),
        args@.len() > 2 && args@[1]@ == "toggle"@ ==> (request matches Request::Toggle(Some(path))
            && path@ == args@[2]@),
        args@.len() > 3 && args@[1]@ == "config"@ && args@[2]@ == "save-path"@ ==> (
        request matches Request::SavePath(directory) && directory@ == args@[3]@),
        args@.len() >= 2 && args@[1]@ == "config"@ && (args@.len() < 4 || args@[2]@
            != "save-path"@) ==> request is WrongConfig,
        args@.len() >= 2 && args@[1]@ != "start"@ && args@[1]@ != "stop"@ && args@[1]@
            != "toggle"@ && args@[1]@ != "config"@ ==> (request matches Request::Unknown(word)
            && word@ == args@[1]@),
{
    words_differ();
    let lines = lines_of(args@);
    assert(lines.len() == args@.len());
    assert forall|i: int| 0 <= i < args@.len() implies #[trigger] lines[i] == args@[i]@ by {}
    assert(request@ == request_of(lines));
}

/// One line, and one alone.
pub open spec fn is_only_line(lines: Seq<String>, line: Seq<char>) -> bool {
    lines.len() == 1 && lines[0]@ =~= line
}

/// A report of one line has that line.
proof fn only_lines(report: Report, output: bool, line: Seq<char>)
    requires
        output ==> lines_of(report.output@) == seq![line],
        !output ==> lines_of(report.errors@) == seq![line],
    ensures
        output ==> is_only_line(report.output@, line),
        !output ==> is_only_line(report.errors@, line),
{
    let lines = if output {
        report.output@
    } else {
        report.errors@
    };
    assert(lines_of(lines).len() == lines.len());
    assert(lines_of(lines)[0] == lines[0]@);
    assert(seq![line][0] == line);
}

/// A response is told in one line, with its reason whole and unchanged: on standard
/// output where it went well or nothing had to change, and on standard error, with the
/// exit code of the plugin, otherwise.
pub proof fn responses_are_told_with_their_reasons(
    response: &str,
    reason: Seq<char>,
    report: Report,
)
    requires
        call_ensures(handle_response, (response,), report),
    ensures
        response@ == "ok"@ ==> report.exit_code == 0 && report.errors@.len() == 0 && is_only_line(
            report.output@,
            "成功"@,
        ),
        response@ == "noop:"@ + reason ==> report.exit_code == 0 && report.errors@.len() == 0
            && is_only_line(report.output@, "変化なし: "@ + reason),
        response@ == "err:"@ + reason ==> report.exit_code == 3 && report.output@.len() == 0
            && is_only_line(report.errors@, "プラグインエラー: "@ + reason),
        response@ != "ok"@ && !"noop:"@.is_prefix_of(response@) && !"err:"@.is_prefix_of(response@)
            ==> report.exit_code == 3 && report.output@.len() == 0 && is_only_line(
            report.errors@,
            "予期しないレスポンス: "@ + response@,
        ),
{
    kinds_of_response_differ(reason);
    let r = response@;
    assert(report@ == response_report(r));
    assert(lines_of(report.output@).len() == report.output@.len());
    assert(lines_of(report.errors@).len() == report.errors@.len());
    if r == "ok"@ {
        only_lines(report, true, "成功"@);
    } else if r == "noop:"@ + reason {
        assert("noop:"@ =~= r.subrange(0, "noop:"@.len() as int));
        assert(r.skip("noop:"@.len() as int) =~= reason);
        only_lines(report, true, "変化なし: "@ + reason);
    } else if r == "err:"@ + reason {
        assert("err:"@ =~= r.subrange(0, "err:"@.len() as int));
        assert(r.skip("err:"@.len() as int) =~= reason);
        only_lines(report, false, "プラグインエラー: "@ + reason);
    } else if !"noop:"@.is_prefix_of(r) && !"err:"@.is_prefix_of(r) {
        only_lines(report, false, "予期しないレスポンス: "@ + r);
    }
}

/// A failure on the client's own side is told in one line on standard error, with its
/// message whole and unchanged, and with the exit code that was asked for.
pub proof fn failures_are_told_with_their_messages(
    message: &str,
    exit_code: i32,
    report: Report,
)
    requires
        call_ensures(failure_report, (message, exit_code), report),
    ensures
        report.exit_code == exit_code,
        report.output@.len() == 0,
        is_only_line(report.errors@, "エラー: "@ + message@),
{
    assert(lines_of(report.output@).len() == report.output@.len());
    only_lines(report, false, "エラー: "@ + message@);
}

/// A directory that does not exist is named in one line on standard error.
pub proof fn missing_directories_are_named(directory: &str, report: Report)
    requires
        call_ensures(missing_directory_report, (directory,), report),
    ensures
        report.exit_code == 1,
        report.output@.len() == 0,
        is_only_line(
            report.errors@,
            "エラー: 指定したディレクトリが存在しません: "@ + directory@,
        ),
{
    assert(lines_of(report.output@).len() == report.output@.len());
    only_lines(
        report,
        false,
        "エラー: 指定したディレクトリが存在しません: "@ + directory@,
    );
}

/// A directory that was saved is named in the first line, and the file of the settings
/// in the second; a failure is told on standard error.
pub proof fn saved_directories_are_named(
    directory: &str,
    saved: Result<String, String>,
    report: Report,
)
    requires
        call_ensures(save_path_report, (directory, saved), report),
    ensures
        saved matches Ok(file) ==> {
            &&& report.exit_code == 0
            &&& report.errors@.len() == 0
            &&& report.output@.len() == 2
            &&& report.output@[0]@ =~= "デフォルト保存先を設定しました: "@ + directory@
            &&& report.output@[1]@ =~= "設定ファイル: "@ + file@
        },
        saved matches Err(message) ==> {
            &&& report.exit_code == 1
            &&& report.output@.len() == 0
            &&& is_only_line(report.errors@, "エラー: "@ + message@)
        },
{
    assert(lines_of(report.output@).len() == report.output@.len());
    assert(lines_of(report.errors@).len() == report.errors@.len());
    match saved {
        Ok(file) => {
            let lines = lines_of(report.output@);
            assert(lines == seq![
                "デフォルト保存先を設定しました: "@ + directory@,
                "設定ファイル: "@ + file@,
            ]);
            assert(lines[0] == report.output@[0]@);
            assert(lines[1] == report.output@[1]@);
        },
        Err(message) => {
            only_lines(report, false, "エラー: "@ + message@);
        },
    }
}

/// What is asked of the user where no directory is set names the program.
pub proof fn missing_settings_are_told(program: &str, report: Report)
    requires
        call_ensures(missing_save_path_report, (program,), report),
    ensures
        report.exit_code == 1,
        report.output@.len() == 0,
        report.errors@.len() == 2,
        report.errors@[0]@ =~= "エラー: デフォルト保存先が設定されていません。"@,
        report.errors@[1]@ =~= "先に '"@ + program@
            + " config save-path <ディレクトリ>' で保存先を設定してください。"@,
{
    assert(lines_of(report.output@).len() == report.output@.len());
    assert(lines_of(report.errors@).len() == report.errors@.len());
    assert(lines_of(report.errors@)[0] == report.errors@[0]@);
    assert(lines_of(report.errors@)[1] == report.errors@[1]@);
}

/// The commands that the client sends are the words that the plugin knows, with the
/// path whole and unchanged, and the line that is told first names that path.
pub proof fn commands_carry_their_paths(path: &str, start: String, stop: String, line: String)
    requires
        call_ensures(start_command, (path,), start),
        call_ensures(stop_command, (), stop),
        call_ensures(recording_line, (path,), line),
    ensures
        start_path(start@) == Some(path@),
        start_path(stop@) is None,
        stop@ == "stop"@,
        line@ =~= "録音先: "@ + path@,
{
    stop_is_no_start();
    assert("start:"@ =~= start@.subrange(0, "start:"@.len() as int));
    assert(start@.skip("start:"@.len() as int) =~= path@);
}

/// `line` is one of the usage for this program: two spaces, the program and then words
/// that start with `word`.
pub open spec fn tells_use_of(line: Seq<char>, program: Seq<char>, word: Seq<char>) -> bool {
    &&& line.len() >= 2 + program.len() + word.len()
    &&& line[0] == ' ' && line[1] == ' '
    &&& line.subrange(2, 2int + program.len()) =~= program
    &&& line.skip(2int + program.len()).take(word.len() as int) =~= word
}

/// A line around the program tells its use.
proof fn line_tells_use(program: Seq<char>, back: Seq<char>, word: Seq<char>)
    requires
        word.is_prefix_of(back),
    ensures
        tells_use_of(around("  "@, program, back), program, word),
{
    reveal_strlit("  ");
    let line = around("  "@, program, back);
    assert(line.subrange(2, 2int + program.len()) =~= program);
    assert(line.skip(2int + program.len()) =~= back);
    assert(back.take(word.len() as int) =~= word);
}

/// The usage names every command of the program, and no other, by the name under which
/// the program was called; the lines around them do not depend on that name.
pub proof fn usage_names_every_command(program: &str, lines: Vec<String>)
    requires
        call_ensures(usage_lines, (program,), lines),
    ensures
        lines@.len() == 11,
        lines@[0]@ == "使用方法:"@,
        tells_use_of(lines@[1]@, program@, " start ["@),
        tells_use_of(lines@[2]@, program@, " stop "@),
        tells_use_of(lines@[3]@, program@, " toggle ["@),
        tells_use_of(lines@[4]@, program@, " config save-path <"@),
        lines@[5]@ == ""@,
        lines@[6]@ == "例:"@,
        tells_use_of(lines@[7]@, program@, " start \"C:"@),
        tells_use_of(lines@[8]@, program@, " start  #"@),
        tells_use_of(lines@[9]@, program@, " stop"@),
        tells_use_of(lines@[10]@, program@, " config save-path \"C:"@),
{
    let all = lines_of(lines@);
    assert(all.len() == lines@.len());
    assert forall|i: int| 0 <= i < lines@.len() implies #[trigger] all[i] == lines@[i]@ by {}
    assert(all == usage_text(program@));
    assert(usage_text(program@).len() == 11);
    assert(all[1] == lines@[1]@ && all[2] == lines@[2]@ && all[3] == lines@[3]@ && all[4]
        == lines@[4]@ && all[7] == lines@[7]@ && all[8] == lines@[8]@ && all[9] == lines@[9]@
        && all[10] == lines@[10]@);
    reveal_strlit(
        " start [<WAVファイルの絶対パス>]  -- 録音を開始する（パス省略時はデフォルト保存先を使用）",
    );
    reveal_strlit(" start [");
    reveal_strlit(" stop                              -- 録音を停止する");
    reveal_strlit(" stop ");
    reveal_strlit(" toggle [<WAVファイルの絶対パス>] -- 録音中なら停止し、停止中なら開始する");
    reveal_strlit(" toggle [");
    reveal_strlit(" config save-path <ディレクトリ>   -- デフォルト保存先を設定する");
    reveal_strlit(" config save-path <");
    reveal_strlit(" start \"C:\\録音\\output.wav\"");
    reveal_strlit(" start \"C:");
    reveal_strlit(" start  # デフォルト保存先 + タイムスタンプ名で録音開始");
    reveal_strlit(" start  #");
    reveal_strlit(" stop");
    reveal_strlit(" config save-path \"C:\\録音\"");
    reveal_strlit(" config save-path \"C:");
    line_tells_use(
        program@,
        " start [<WAVファイルの絶対パス>]  -- 録音を開始する（パス省略時はデフォルト保存先を使用）"@,
        " start ["@,
    );
    line_tells_use(
        program@,
        " stop                              -- 録音を停止する"@,
        " stop "@,
    );
    line_tells_use(
        program@,
        " toggle [<WAVファイルの絶対パス>] -- 録音中なら停止し、停止中なら開始する"@,
        " toggle ["@,
    );
    line_tells_use(
        program@,
        " config save-path <ディレクトリ>   -- デフォルト保存先を設定する"@,
        " config save-path <"@,
    );
    line_tells_use(program@, " start \"C:\\録音\\output.wav\""@, " start \"C:"@);
    line_tells_use(
        program@,
        " start  # デフォルト保存先 + タイムスタンプ名で録音開始"@,
        " start  #"@,
    );
    line_tells_use(program@, " stop"@, " stop"@);
    line_tells_use(program@, " config save-path \"C:\\録音\""@, " config save-path \"C:"@);
}

/// A request is refused exactly where it is missing, unknown or misses its arguments,
/// on standard error and with the exit code for that; an unknown word is named in the
/// first line, whole and unchanged, and the usage follows.
pub proof fn refusals_name_what_was_wrong(
    program: &str,
    request: Request,
    refused: Option<Report>,
    usage: Vec<String>,
)
    requires
        call_ensures(refuse, (program, &request), refused),
        call_ensures(usage_lines, (program,), usage),
    ensures
        refused is Some <==> request is Missing || request is Unknown || request is WrongConfig,
        refused matches Some(report) ==> report.exit_code == 1 && report.output@.len() == 0,
        request is Missing ==> lines_of(refused->0.errors@) == lines_of(usage@),
        request matches Request::Unknown(word) ==> {
            let errors = lines_of(refused->0.errors@);
            &&& errors.len() == usage@.len() + 1
            &&& errors[0] =~= "エラー: 未知のコマンド '"@ + word@ + "'"@
            &&& errors.skip(1) =~= lines_of(usage@)
        },
        request is WrongConfig ==> {
            let errors = lines_of(refused->0.errors@);
            &&& errors.len() == 2
            &&& errors[0] == "エラー: 'config' サブコマンドの使い方が正しくありません。"@
            &&& errors[1] =~= "使用方法: "@ + program@ + " config save-path <ディレクトリ>"@
        },
{
    if let Some(report) = refused {
        assert(lines_of(report.output@).len() == report.output@.len());
        assert(report@ == refusal(program@, request@)->0);
    }
}

/// A toggle goes on with a start exactly where its stop was answered with `noop:` and
/// a reason, whatever the reason.
pub proof fn toggles_go_on_after_noop(response: &str, reason: Seq<char>, goes_on: bool)
    requires
        call_ensures(toggle_needs_start, (response,), goes_on),
    ensures
        response@ == "noop:"@ + reason ==> goes_on,
        goes_on ==> response@.len() >= 5 && response@[0] == 'n' && response@[1] == 'o'
            && response@[2] == 'o' && response@[3] == 'p' && response@[4] == ':',
{
    reveal_strlit("noop:");
    if response@ == "noop:"@ + reason {
        assert("noop:"@ =~= response@.subrange(0, 5));
    }
    if goes_on {
        assert("noop:"@ =~= response@.subrange(0, 5));
        assert(forall|i: int| 0 <= i < 5 ==> response@.subrange(0, 5)[i] == response@[i]);
    }
}

/// What is told about each kind of response.
pub(crate) proof fn reports_of_responses(response: Seq<char>, reason: Seq<char>)
    ensures
        response == "ok"@ ==> response_report(response).output =~= seq!["成功"@] && response_report(
            response,
        ).errors.len() == 0 && response_report(response).exit_code == 0,
        response == "noop:"@ + reason ==> response_report(response).output =~= seq![
            "変化なし: "@ + reason,
        ] && response_report(response).errors.len() == 0 && response_report(response).exit_code == 0,
        response == "err:"@ + reason ==> response_report(response).errors =~= seq![
            "プラグインエラー: "@ + reason,
        ] && response_report(response).output.len() == 0 && response_report(response).exit_code
            == 3,
{
    kinds_of_response_differ(reason);
    if response == "noop:"@ + reason {
        assert("noop:"@ =~= response.subrange(0, "noop:"@.len() as int));
        assert(response.skip("noop:"@.len() as int) =~= reason);
    }
    if response == "err:"@ + reason {
        assert("err:"@ =~= response.subrange(0, "err:"@.len() as int));
        assert(response.skip("err:"@.len() as int) =~= reason);
    }
}

/// What arguments ask for, as they are given.
pub(crate) proof fn requests_as_given(args: Seq<Seq<char>>)
    ensures
        args.len() < 2 ==> request_of(args) is Missing,
        args.len() >= 2 && args[1] == "stop"@ ==> request_of(args) is Stop,
        args.len() == 2 && args[1] == "start"@ ==> request_of(args) == RequestView::Start(None),
        args.len() > 2 && args[1] == "start"@ ==> request_of(args) == RequestView::Start(
            Some(args[2]),
        ),
        args.len() == 2 && args[1] == "toggle"@ ==> request_of(args) == RequestView::Toggle(None),
        args.len() > 2 && args[1] == "toggle"@ ==> request_of(args) == RequestView::Toggle(
            Some(args[2]),
        ),
        args.len() > 3 && args[1] == "config"@ && args[2] == "save-path"@ ==> request_of(args)
            == RequestView::SavePath(args[3]),
{
    words_differ();
}

/// What other arguments ask for.
pub(crate) proof fn other_requests(args: Seq<Seq<char>>)
    requires
        args.len() >= 2,
    ensures
        args[1] != "start"@ && args[1] != "stop"@ && args[1] != "toggle"@ && args[1] != "config"@
            ==> request_of(args) == RequestView::Unknown(args[1]),
        args[1] == "config"@ && (args.len() < 4 || args[2] != "save-path"@) ==> request_of(args)
            == RequestView::WrongConfig,
{
    words_differ();
}

} // verus!
