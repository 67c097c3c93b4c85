//! Tests of the client: connecting, paths, settings, arguments and whole runs.

use aviutl2_audio_rec::cli::{
    failure_report, handle_response, missing_directory_report, missing_save_path_report,
    parse_args, recording_line, refuse, save_path_report, start_command, stop_command,
    toggle_needs_start, usage_lines, Report, Request,
};
use aviutl2_audio_rec::client::{
    after_failed_connect, command_sent, response_text, ConnectFailure, ConnectStep,
    ExchangeEvent, ExchangeStep, MAX_RETRIES,
};
use aviutl2_audio_rec::naming::{default_output_path, local_datetime_string, LocalTime};
use aviutl2_audio_rec::output_path::{
    judge_directory, judge_path, probe_file_name, validate_output_path, DirectoryProbe,
};
use aviutl2_audio_rec::session::{after_verdict, begin, ClientEvent, ClientState};
use aviutl2_audio_rec::shared_config::{
    client_config_path, load_config, load_config_from_path, load_with_legacy_fallback,
    save_client_config, save_config, shared_config_path, with_save_path, Config, ConfigFile,
    SaveStep, CONFIG_FILE_NAME,
};

fn s(text: &str) -> String {
    text.to_string()
}

fn args(list: &[&str]) -> Vec<String> {
    list.iter().map(|a| a.to_string()).collect()
}

fn noon() -> LocalTime {
    LocalTime {
        year: 2026,
        month: 3,
        day: 9,
        hour: 12,
        minute: 4,
        second: 5,
    }
}

/// Other extensions are refused.
#[test]
fn test_validate_path_wrong_extension() {
    assert!(validate_output_path("/tmp/test.mp3").is_err());
    assert!(validate_output_path("/tmp/test.txt").is_err());
    assert!(validate_output_path("/tmp/test.exe").is_err());
    assert!(validate_output_path("/tmp/test").is_err());
}

/// A directory that does not exist is refused.
#[test]
fn test_validate_path_nonexistent_directory() {
    let directory = validate_output_path("/nonexistent_dir_12345/subdir/output.wav").unwrap();
    assert!(!std::path::Path::new(&directory).exists());
    let result = judge_directory(&directory, DirectoryProbe::Missing);
    assert!(result.is_err());
    let msg = result.unwrap_err();
    assert!(
        msg.contains("存在しません") || msg.contains("not found") || msg.contains("exist"),
        "エラーメッセージ: {}",
        msg
    );
    assert_eq!(msg, "出力先ディレクトリが存在しません: /nonexistent_dir_12345/subdir");
}

/// A path without an extension is refused, and the message names the right one.
#[test]
fn test_validate_path_no_extension() {
    let result = validate_output_path("/tmp/output");
    assert!(result.is_err());
    let msg = result.unwrap_err();
    assert!(msg.contains(".wav"), "エラーメッセージ: {}", msg);
    assert_eq!(msg, "'.wav' 拡張子のファイルを指定してください: /tmp/output");
}

/// The case of the extension does not count.
#[test]
fn capital_extensions_are_accepted() {
    assert_eq!(validate_output_path("/tmp/_audio_rec_test.WAV"), Ok(s("/tmp")));
    assert_eq!(validate_output_path("/tmp/x.wAv"), Ok(s("/tmp")));
    assert_eq!(judge_directory("/tmp", DirectoryProbe::Writable), Ok(()));
}

/// Where a path lies.
#[test]
fn paths_lie_in_their_parent() {
    assert_eq!(validate_output_path("take.wav"), Ok(s(".")));
    assert_eq!(validate_output_path("/take.wav"), Ok(s("/")));
    assert_eq!(validate_output_path("a/b/take.1.wav"), Ok(s("a/b")));
    assert_eq!(validate_output_path("a/..wav"), Ok(s("a")));
    assert_eq!(validate_output_path("/tmp/a.wav/"), Ok(s("/tmp")));
    assert_eq!(validate_output_path("/tmp//./a.wav/."), Ok(s("/tmp")));
    assert_eq!(validate_output_path("./a.wav"), Ok(s(".")));
    let directory = validate_output_path("C:\\recordings\\take1.wav").unwrap();
    assert!(directory == "C:\\recordings" || directory == ".");
}

/// Names that have no extension, or an empty one.
#[test]
fn dots_alone_are_no_extension() {
    for path in ["", ".wav", "/tmp/.wav", "wav", "/tmp/wav", "take.", "take.wav.", "..", "a.wav/.."] {
        assert!(validate_output_path(path).is_err(), "{}", path);
    }
}

/// The verdict on a path by its parts.
#[test]
fn paths_are_judged_by_their_parts() {
    assert_eq!(judge_path("p", Some(s("WAV")), Some(s("d"))), Ok(s("d")));
    assert_eq!(judge_path("p", Some(s("wav")), Some(String::new())), Ok(s(".")));
    assert_eq!(judge_path("p", Some(s("wav")), None), Ok(s(".")));
    let refused = Err(s("'.wav' 拡張子のファイルを指定してください: p"));
    assert_eq!(judge_path("p", Some(s("wave")), Some(s("d"))), refused);
    assert_eq!(judge_path("p", None, Some(s("d"))), refused);
}

/// A directory that cannot be written to is told with the reason.
#[test]
fn directories_are_judged() {
    assert_eq!(
        judge_directory("/ro", DirectoryProbe::NotWritable(s("denied"))),
        Err(s("出力先ディレクトリへの書き込み権限がありません: /ro (denied)"))
    );
    assert_eq!(probe_file_name(4321), ".audio_rec_write_test_4321");
}

/// Settings are empty by default.
#[test]
fn test_config_default() {
    let config = Config::default();
    assert!(config.save_path.is_none());
    assert!(config.buffer_size_frames.is_none());
}

/// A file that is no JSON stands for the default settings.
#[test]
fn test_config_invalid_json_fallback() {
    let bad: Result<serde_json::Value, _> = serde_json::from_str("not json at all");
    assert!(bad.is_err());
    let config = load_config_from_path(ConfigFile::Malformed);
    assert!(config.save_path.is_none() && config.buffer_size_frames.is_none());
}

fn parsed(dir: &str, frames: u32) -> ConfigFile {
    ConfigFile::Parsed(Config {
        save_path: Some(s(dir)),
        buffer_size_frames: Some(frames),
    })
}

/// Which file the settings come from.
#[test]
fn settings_come_from_the_right_file() {
    let config = load_config(parsed("shared", 1));
    assert_eq!(config.save_path.as_deref(), Some("shared"));
    assert_eq!(config.buffer_size_frames, Some(1));
    assert!(load_config(ConfigFile::Unreadable).save_path.is_none());
    let config = load_with_legacy_fallback(false, ConfigFile::Unreadable, parsed("legacy", 2));
    assert_eq!(config.save_path.as_deref(), Some("legacy"));
    let config = load_with_legacy_fallback(true, parsed("shared", 1), parsed("legacy", 2));
    assert_eq!(config.save_path.as_deref(), Some("shared"));
    let config = load_with_legacy_fallback(true, ConfigFile::Malformed, parsed("legacy", 2));
    assert!(config.save_path.is_none());
}

/// Setting the directory keeps the rest.
#[test]
fn save_path_is_replaced() {
    let config = with_save_path(load_config(parsed("old", 7)), s("C:\\録音"));
    assert_eq!(config.save_path.as_deref(), Some("C:\\録音"));
    assert_eq!(config.buffer_size_frames, Some(7));
    assert_eq!(config.clone().save_path, config.save_path);
}

/// Where the shared settings lie.
#[test]
fn shared_settings_lie_below_the_program_data() {
    assert_eq!(CONFIG_FILE_NAME, "audio_rec_cli.json");
    assert_eq!(shared_config_path(None), "audio_rec_cli.json");
    let path = shared_config_path(Some("/data"));
    let expected = std::path::Path::new("/data").join("AviUtl2").join("audio_rec_cli.json");
    assert_eq!(std::path::Path::new(&path), expected);
    assert_eq!(shared_config_path(Some("/")), "/AviUtl2/audio_rec_cli.json");
    let literal = "\\\\?\\C:\\a/";
    let expected = std::path::Path::new(literal).join("AviUtl2").join("audio_rec_cli.json");
    assert_eq!(shared_config_path(Some(literal)), expected.to_str().unwrap());
}

/// The message with which saving ended.
fn save_failure(step: SaveStep) -> String {
    match step {
        SaveStep::Finished(Err(message)) => message,
        _ => panic!("saving did not fail"),
    }
}

/// Saving goes through its steps and ends with the path.
#[test]
fn saving_goes_step_by_step() {
    let step = save_config("/data/AviUtl2/audio_rec_cli.json");
    assert!(matches!(&step, SaveStep::CreateDirectory(d) if d == "/data/AviUtl2"));
    let step = step.next("p", Ok(()));
    assert!(matches!(step, SaveStep::Form));
    let step = step.next("p", Ok(()));
    assert!(matches!(step, SaveStep::Write));
    let step = step.next("p", Ok(()));
    assert!(matches!(step, SaveStep::Finished(Ok(path)) if path == "p"));
    assert!(matches!(save_config("c.json"), SaveStep::CreateDirectory(d) if d.is_empty()));
    assert!(matches!(save_config("/"), SaveStep::Form));
    assert!(matches!(save_client_config(), SaveStep::Form));
}

/// The first step that fails ends the saving, with its own message.
#[test]
fn saving_stops_at_the_first_failure() {
    let failed = || Err(s("r"));
    assert_eq!(
        save_failure(SaveStep::CreateDirectory(s("d")).next("p", failed())),
        "設定ディレクトリの作成に失敗しました: d (r)"
    );
    assert_eq!(
        save_failure(SaveStep::Form.next("p", failed())),
        "設定のシリアライズに失敗しました: r"
    );
    assert_eq!(
        save_failure(SaveStep::Write.next("p", failed())),
        "設定ファイルの書き込みに失敗しました: p (r)"
    );
    assert_eq!(save_failure(SaveStep::Finished(Err(s("m"))).next("p", Ok(()))), "m");
}

/// The client's own settings lie beside the program.
#[test]
fn client_settings_lie_beside_the_program() {
    assert_eq!(client_config_path(Some("/opt/rec/cli")), "/opt/rec/audio_rec_cli.json");
    assert_eq!(client_config_path(Some("/cli")), "/audio_rec_cli.json");
    assert_eq!(client_config_path(Some("cli")), "audio_rec_cli.json");
    assert_eq!(client_config_path(Some("/")), "./audio_rec_cli.json");
    assert_eq!(client_config_path(None), "./audio_rec_cli.json");
}

/// The time as a name.
#[test]
fn time_becomes_a_name() {
    assert_eq!(local_datetime_string(&noon()), "20260309-120405");
    let late = LocalTime {
        year: 12_345,
        month: 12,
        day: 31,
        hour: 23,
        minute: 59,
        second: 59,
    };
    assert_eq!(local_datetime_string(&late), "123451231-235959");
    assert_eq!(
        default_output_path(&Some(s("/rec")), &noon()),
        Some(s("/rec/20260309-120405.wav"))
    );
    assert_eq!(
        default_output_path(&Some(s("/")), &noon()),
        Some(s("/20260309-120405.wav"))
    );
    assert_eq!(
        default_output_path(&Some(String::new()), &noon()),
        Some(s("20260309-120405.wav"))
    );
    assert_eq!(default_output_path(&None, &noon()), None);
    let literal = default_output_path(&Some(s("\\\\?\\C:\\rec")), &noon()).unwrap();
    assert!(literal.starts_with("\\\\?\\C:\\rec") && literal.ends_with("20260309-120405.wav"));
    assert_eq!(literal.len(), "\\\\?\\C:\\rec".len() + 1 + "20260309-120405.wav".len());
}

/// Which tries to connect are repeated.
#[test]
fn connecting_is_tried_three_times() {
    assert_eq!(MAX_RETRIES, 3);
    assert!(matches!(
        after_failed_connect(0, ConnectFailure::PipeBusy, "e"),
        ConnectStep::WaitForPipe(n) if n == "パイプが使用中です。待機してリトライします... (1/3)"
    ));
    assert!(matches!(
        after_failed_connect(1, ConnectFailure::NotFound, "e"),
        ConnectStep::Pause(n)
            if n == "パイプが見つかりません。プラグインの起動を待機します... (2/3)"
    ));
    assert!(matches!(
        after_failed_connect(1, ConnectFailure::Other, "e"),
        ConnectStep::GiveUp(m) if m == "Named Pipe への接続に失敗しました: e"
    ));
    for failure in [ConnectFailure::PipeBusy, ConnectFailure::NotFound, ConnectFailure::Other] {
        assert!(matches!(
            after_failed_connect(2, failure, "e"),
            ConnectStep::GiveUp(m)
                if m == "Named Pipe への接続に 3 回試みましたが失敗しました (最後のエラー: e)"
        ));
    }
}

/// Sending and reading.
#[test]
fn exchange_is_judged() {
    assert_eq!(command_sent(4, Ok(4)), Ok(()));
    assert_eq!(command_sent(4, Err(s("e"))), Err(s("コマンドの送信に失敗しました: e")));
    assert_eq!(
        command_sent(4, Ok(3)),
        Err(s("送信バイト数が一致しません: 期待=4, 実際=3"))
    );
    assert_eq!(response_text(Ok("noop:録音".as_bytes().to_vec())), Ok(s("noop:録音")));
    assert_eq!(response_text(Ok(vec![b'o', 0xff, b'k'])), Ok(s("o\u{fffd}k")));
    assert_eq!(response_text(Err(s("e"))), Err(s("レスポンスの受信に失敗しました: e")));
}

/// An exchange goes from the connection to the response and stops at the first failure.
#[test]
fn exchange_goes_step_by_step() {
    let step = ExchangeStep::Connect.next(4, ExchangeEvent::Connected(Ok(())));
    assert!(matches!(step, ExchangeStep::Write));
    let step = step.next(4, ExchangeEvent::Written(Ok(4)));
    assert!(matches!(step, ExchangeStep::Read));
    let step = step.next(4, ExchangeEvent::Received(Ok(b"ok".to_vec())));
    assert!(matches!(step, ExchangeStep::Finished(Ok(text)) if text == "ok"));
    let step = ExchangeStep::Connect.next(4, ExchangeEvent::Connected(Err(s("m"))));
    assert!(matches!(step, ExchangeStep::Finished(Err(m)) if m == "m"));
    let step = ExchangeStep::Write.next(4, ExchangeEvent::Written(Ok(3)));
    assert!(matches!(
        step,
        ExchangeStep::Finished(Err(m)) if m == "送信バイト数が一致しません: 期待=4, 実際=3"
    ));
    let step = ExchangeStep::Write.next(4, ExchangeEvent::Written(Err(s("e"))));
    assert!(matches!(
        step,
        ExchangeStep::Finished(Err(m)) if m == "コマンドの送信に失敗しました: e"
    ));
    let step = ExchangeStep::Read.next(4, ExchangeEvent::Received(Err(s("e"))));
    assert!(matches!(
        step,
        ExchangeStep::Finished(Err(m)) if m == "レスポンスの受信に失敗しました: e"
    ));
}

fn same(report: Report, output: &[&str], errors: &[&str], exit_code: i32) {
    assert_eq!(report.output, args(output));
    assert_eq!(report.errors, args(errors));
    assert_eq!(report.exit_code, exit_code);
}

/// What the client tells about responses.
#[test]
fn responses_are_told() {
    same(handle_response("ok"), &["成功"], &[], 0);
    same(handle_response("noop:既に録音中です"), &["変化なし: 既に録音中です"], &[], 0);
    same(handle_response("err:x"), &[], &["プラグインエラー: x"], 3);
    same(handle_response("OK"), &[], &["予期しないレスポンス: OK"], 3);
    same(handle_response(""), &[], &["予期しないレスポンス: "], 3);
}

/// What the client tells about itself.
#[test]
fn reports_are_worded() {
    same(failure_report("m", 2), &[], &["エラー: m"], 2);
    same(
        missing_directory_report("d"),
        &[],
        &["エラー: 指定したディレクトリが存在しません: d"],
        1,
    );
    same(
        missing_save_path_report("p"),
        &[],
        &[
            "エラー: デフォルト保存先が設定されていません。",
            "先に 'p config save-path <ディレクトリ>' で保存先を設定してください。",
        ],
        1,
    );
    same(
        save_path_report("d", Ok(s("c"))),
        &["デフォルト保存先を設定しました: d", "設定ファイル: c"],
        &[],
        0,
    );
    same(save_path_report("d", Err(s("m"))), &[], &["エラー: m"], 1);
    assert_eq!(recording_line("p"), "録音先: p");
    assert_eq!(start_command("p"), "start:p");
    assert_eq!(stop_command(), "stop");
}

/// What the arguments ask for.
#[test]
fn arguments_are_read() {
    assert!(matches!(parse_args(&args(&[])), Request::Missing));
    assert!(matches!(parse_args(&args(&["p"])), Request::Missing));
    assert!(matches!(parse_args(&args(&["p", "start"])), Request::Start(None)));
    assert!(matches!(
        parse_args(&args(&["p", "start", "a.wav", "more"])),
        Request::Start(Some(a)) if a == "a.wav"
    ));
    assert!(matches!(parse_args(&args(&["p", "stop", "x"])), Request::Stop));
    assert!(matches!(
        parse_args(&args(&["p", "toggle", "a.wav"])),
        Request::Toggle(Some(a)) if a == "a.wav"
    ));
    assert!(matches!(
        parse_args(&args(&["p", "config", "save-path", "d"])),
        Request::SavePath(d) if d == "d"
    ));
    assert!(matches!(parse_args(&args(&["p", "config", "save-path"])), Request::WrongConfig));
    assert!(matches!(parse_args(&args(&["p", "config", "path", "d"])), Request::WrongConfig));
    assert!(matches!(
        parse_args(&args(&["p", "Stop"])),
        Request::Unknown(c) if c == "Stop"
    ));
}

/// What is told about requests that cannot be carried out.
#[test]
fn wrong_requests_are_refused() {
    let usage = usage_lines("p");
    assert_eq!(usage[0], "使用方法:");
    assert_eq!(usage[2], "  p stop                              -- 録音を停止する");
    assert_eq!(usage.len(), 11);
    let report = refuse("p", &Request::Missing).unwrap();
    assert_eq!((report.errors, report.exit_code), (usage.clone(), 1));
    let report = refuse("p", &Request::Unknown(s("x"))).unwrap();
    assert_eq!(report.errors[0], "エラー: 未知のコマンド 'x'");
    assert_eq!(report.errors[1..], usage[..]);
    let report = refuse("p", &Request::WrongConfig).unwrap();
    assert_eq!(
        report.errors,
        args(&[
            "エラー: 'config' サブコマンドの使い方が正しくありません。",
            "使用方法: p config save-path <ディレクトリ>",
        ])
    );
    assert!(refuse("p", &Request::Stop).is_none());
}

fn end(state: ClientState) -> Report {
    match state {
        ClientState::Done(report) => report,
        _ => panic!("the run has not ended"),
    }
}

/// A start with a path, to its end.
#[test]
fn start_runs_through_its_checks() {
    let state = begin(&args(&["p", "start", "/tmp/a.wav"]));
    match &state {
        ClientState::Probing { path, directory } => {
            assert_eq!((path.as_str(), directory.as_str()), ("/tmp/a.wav", "/tmp"));
        }
        _ => panic!("the directory comes first"),
    }
    assert_eq!((state.command(), state.notice()), (None, None));
    let state = state.next("p", ClientEvent::Probed(DirectoryProbe::Writable));
    assert_eq!(state.command(), Some(s("start:/tmp/a.wav")));
    assert_eq!(state.notice(), Some(s("録音先: /tmp/a.wav")));
    let state = state.next("p", ClientEvent::Answered(Ok(s("noop:x"))));
    same(end(state), &["変化なし: x"], &[], 0);
}

/// A start that fails in each way that it can.
#[test]
fn start_fails_before_and_after_sending() {
    let report = end(begin(&args(&["p", "start", "a.mp3"])));
    same(report, &[], &["エラー: '.wav' 拡張子のファイルを指定してください: a.mp3"], 1);
    let state = begin(&args(&["p", "start", "a.wav"]));
    let report = end(state.next("p", ClientEvent::Probed(DirectoryProbe::Missing)));
    same(report, &[], &["エラー: 出力先ディレクトリが存在しません: ."], 1);
    let starting = || ClientState::Starting { path: s("a.wav") };
    let report = end(starting().next("p", ClientEvent::Answered(Err(s("m")))));
    same(report, &[], &["エラー: m"], 2);
    let report = end(starting().next("p", ClientEvent::Answered(Ok(s("err:m")))));
    same(report, &[], &["プラグインエラー: m"], 3);
}

/// A start without a path takes it from the settings and the clock.
#[test]
fn start_without_a_path() {
    let state = begin(&args(&["p", "start"]));
    assert!(matches!(state, ClientState::NeedsPath));
    let report = end(state.next("p", ClientEvent::Settings(None, noon())));
    assert_eq!(report.errors[0], "エラー: デフォルト保存先が設定されていません。");
    assert_eq!(report.exit_code, 1);
    let state = begin(&args(&["p", "start"]));
    match state.next("p", ClientEvent::Settings(Some(s("/rec")), noon())) {
        ClientState::Probing { path, directory, .. } => {
            assert_eq!(path, "/rec/20260309-120405.wav");
            assert_eq!(directory, "/rec");
        }
        _ => panic!("the directory comes next"),
    }
}

/// A directory in a share is a place for recordings like any other.
#[test]
fn start_without_a_path_in_a_share() {
    let state = begin(&args(&["p", "start"]));
    match state.next("p", ClientEvent::Settings(Some(s("//server/share")), noon())) {
        ClientState::Probing { path, .. } => {
            assert_eq!(path, "//server/share/20260309-120405.wav");
        }
        _ => panic!("the directory comes next"),
    }
}

/// A toggle sends a stop, and a start only where no recording was under way.
#[test]
fn toggle_stops_or_starts() {
    assert!(toggle_needs_start("noop:録音していません"));
    assert!(!toggle_needs_start("ok"));
    assert!(!toggle_needs_start("err:noop:"));
    let toggling = || begin(&args(&["p", "toggle", "/tmp/a.wav"]));
    assert_eq!(toggling().command(), Some(s("stop")));
    let state = toggling().next("p", ClientEvent::Answered(Ok(s("ok"))));
    same(end(state), &["成功"], &[], 0);
    let state = toggling().next("p", ClientEvent::Answered(Ok(s("noop:録音していません"))));
    assert!(matches!(&state, ClientState::Probing { path, .. } if path == "/tmp/a.wav"));
    let state = state.next("p", ClientEvent::Probed(DirectoryProbe::Writable));
    assert_eq!(state.command(), Some(s("start:/tmp/a.wav")));
    same(end(state.next("p", ClientEvent::Answered(Ok(s("ok"))))), &["成功"], &[], 0);
    let state = begin(&args(&["p", "toggle"]));
    let state = state.next("p", ClientEvent::Answered(Ok(s("noop:録音していません"))));
    assert!(matches!(state, ClientState::NeedsPath));
}

/// A toggle stops a recording whatever its path, and looks at the path only to start.
#[test]
fn toggle_stops_whatever_the_path() {
    let toggling = || begin(&args(&["p", "toggle", "a.mp3"]));
    let state = toggling().next("p", ClientEvent::Answered(Ok(s("ok"))));
    same(end(state), &["成功"], &[], 0);
    let state = toggling().next("p", ClientEvent::Answered(Ok(s("noop:録音していません"))));
    same(end(state), &[], &["エラー: '.wav' 拡張子のファイルを指定してください: a.mp3"], 1);
    let state = toggling().next("p", ClientEvent::Answered(Err(s("m"))));
    same(end(state), &[], &["エラー: m"], 2);
}

/// A stop, and the settings, to their ends.
#[test]
fn stop_and_settings_run_through() {
    let state = begin(&args(&["p", "stop"]));
    assert_eq!((state.command(), state.notice()), (Some(s("stop")), None));
    same(end(state.next("p", ClientEvent::Answered(Err(s("m"))))), &[], &["エラー: m"], 2);
    let state = begin(&args(&["p", "config", "save-path", "d"]));
    let report = end(state.next("p", ClientEvent::Exists(false)));
    same(report, &[], &["エラー: 指定したディレクトリが存在しません: d"], 1);
    let state = begin(&args(&["p", "config", "save-path", "d"]));
    let state = state.next("p", ClientEvent::Exists(true));
    assert!(matches!(&state, ClientState::Saving { directory } if directory == "d"));
    let report = end(state.next("p", ClientEvent::Saved(Ok(s("c")))));
    same(report, &["デフォルト保存先を設定しました: d", "設定ファイル: c"], &[], 0);
    assert_eq!(end(begin(&args(&["p"]))).exit_code, 1);
    assert_eq!(end(begin(&args(&["p", "x"]))).errors[0], "エラー: 未知のコマンド 'x'");
}

/// The state after a verdict on the path.
#[test]
fn verdicts_lead_on() {
    assert!(matches!(
        after_verdict(s("p"), Ok(s("d"))),
        ClientState::Probing { path, directory } if path == "p" && directory == "d"
    ));
    same(end(after_verdict(s("p"), Err(s("m")))), &[], &["エラー: m"], 1);
}
