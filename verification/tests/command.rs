//! Tests of the commands and their responses.

use aviutl2_audio_rec::command::{outcome_response, process_command};
use aviutl2_audio_rec::recorder::AudioRecorder;
use aviutl2_audio_rec::server::{respond_to_message, respond_to_text};

struct MockRecorder {
    recording: bool,
    start_error: Option<String>,
    stop_error: Option<String>,
    started_with: Vec<String>,
}

impl MockRecorder {
    fn new() -> Self {
        Self {
            recording: false,
            start_error: None,
            stop_error: None,
            started_with: Vec::new(),
        }
    }

    fn with_start_error(mut self, msg: &str) -> Self {
        self.start_error = Some(msg.to_string());
        self
    }

    fn with_stop_error(mut self, msg: &str) -> Self {
        self.stop_error = Some(msg.to_string());
        self
    }

    fn already_recording(mut self) -> Self {
        self.recording = true;
        self
    }
}

impl AudioRecorder for MockRecorder {
    fn start(&mut self, path: &str) -> Result<(), String> {
        self.started_with.push(path.to_string());
        if let Some(ref e) = self.start_error {
            return Err(e.clone());
        }
        self.recording = true;
        Ok(())
    }

    fn stop(&mut self) -> Result<(), String> {
        if let Some(ref e) = self.stop_error {
            return Err(e.clone());
        }
        self.recording = false;
        Ok(())
    }

    fn is_recording(&self) -> bool {
        self.recording
    }
}

/// A `start` command is carried out.
#[test]
fn test_process_command_start_ok() {
    let mut recorder = MockRecorder::new();
    let response = process_command("start:/tmp/test.wav", &mut recorder);
    assert_eq!(response, "ok");
    assert!(recorder.is_recording());
}

/// A `start` while recording changes nothing.
#[test]
fn test_process_command_start_noop_when_recording() {
    let mut recorder = MockRecorder::new().already_recording();
    let response = process_command("start:/tmp/test.wav", &mut recorder);
    assert!(response.starts_with("noop:"), "response was: {}", response);
}

/// A `stop` command is carried out.
#[test]
fn test_process_command_stop_ok() {
    let mut recorder = MockRecorder::new().already_recording();
    let response = process_command("stop", &mut recorder);
    assert_eq!(response, "ok");
    assert!(!recorder.is_recording());
}

/// A `stop` while idle changes nothing.
#[test]
fn test_process_command_stop_noop_when_idle() {
    let mut recorder = MockRecorder::new();
    let response = process_command("stop", &mut recorder);
    assert!(response.starts_with("noop:"), "response was: {}", response);
}

/// A failed `start` is answered with `err:`.
#[test]
fn test_process_command_start_error() {
    let mut recorder = MockRecorder::new().with_start_error("デバイスエラー");
    let response = process_command("start:/tmp/test.wav", &mut recorder);
    assert!(response.starts_with("err:"), "response was: {}", response);
    assert!(response.contains("デバイスエラー"));
}

/// A failed `stop` is answered with `err:`.
#[test]
fn test_process_command_stop_error() {
    let mut recorder = MockRecorder::new()
        .already_recording()
        .with_stop_error("ファイナライズ失敗");
    let response = process_command("stop", &mut recorder);
    assert!(response.starts_with("err:"), "response was: {}", response);
    assert!(response.contains("ファイナライズ失敗"));
}

/// A text that is no command is answered with `err:`.
#[test]
fn test_process_command_unknown() {
    let mut recorder = MockRecorder::new();
    let response = process_command("unknown_cmd", &mut recorder);
    assert!(response.starts_with("err:"), "response was: {}", response);
}

/// The recorder gets the path of the command, to the letter.
#[test]
fn start_hands_the_path_over() {
    let mut recorder = MockRecorder::new();
    let response = process_command("start:C:\\録音\\take 1.wav", &mut recorder);
    assert_eq!(response, "ok");
    assert_eq!(recorder.started_with, vec!["C:\\録音\\take 1.wav".to_string()]);
}

/// The exact responses of the two commands that change nothing.
#[test]
fn noop_responses_tell_why() {
    let mut recorder = MockRecorder::new().already_recording();
    assert_eq!(process_command("start:a.wav", &mut recorder), "noop:既に録音中です");
    assert!(recorder.started_with.is_empty());
    assert!(recorder.is_recording());
    let mut recorder = MockRecorder::new();
    assert_eq!(process_command("stop", &mut recorder), "noop:録音していません");
    assert!(!recorder.is_recording());
}

/// The exact responses of failures.
#[test]
fn err_responses_tell_why() {
    let mut recorder = MockRecorder::new().with_start_error("デバイスエラー");
    assert_eq!(process_command("start:a.wav", &mut recorder), "err:デバイスエラー");
    let mut recorder = MockRecorder::new()
        .already_recording()
        .with_stop_error("ファイナライズ失敗");
    assert_eq!(process_command("stop", &mut recorder), "err:ファイナライズ失敗");
    assert_eq!(
        process_command("unknown_cmd", &mut recorder),
        "err:未知のコマンド: unknown_cmd"
    );
}

/// Only the exact words are commands.
#[test]
fn near_misses_are_unknown() {
    let mut recorder = MockRecorder::new();
    for command in ["", "start", "Start:a.wav", "stop ", "stopp", " stop"] {
        assert_eq!(
            process_command(command, &mut recorder),
            format!("err:未知のコマンド: {}", command)
        );
    }
    assert!(recorder.started_with.is_empty());
}

/// An empty path is handed to the recorder like any other.
#[test]
fn start_with_an_empty_path() {
    let mut recorder = MockRecorder::new();
    assert_eq!(process_command("start:", &mut recorder), "ok");
    assert_eq!(recorder.started_with, vec![String::new()]);
}

/// A second start and a second stop change nothing.
#[test]
fn start_and_stop_twice() {
    let mut recorder = MockRecorder::new();
    assert_eq!(process_command("start:a.wav", &mut recorder), "ok");
    assert_eq!(process_command("start:b.wav", &mut recorder), "noop:既に録音中です");
    assert_eq!(recorder.started_with, vec!["a.wav".to_string()]);
    assert_eq!(process_command("stop", &mut recorder), "ok");
    assert_eq!(process_command("stop", &mut recorder), "noop:録音していません");
}

/// The two ways to word the result of a call.
#[test]
fn outcomes_are_worded() {
    assert_eq!(outcome_response(Ok(())), "ok");
    assert_eq!(outcome_response(Err("x".to_string())), "err:x");
    assert_eq!(outcome_response(Err(String::new())), "err:");
}

/// White space around a message does not count, white space inside it does.
#[test]
fn messages_are_trimmed() {
    let mut recorder = MockRecorder::new();
    let message = " \r\n\u{3000}start: my take.wav\u{a0}\n".as_bytes().to_vec();
    assert_eq!(respond_to_message(message, &mut recorder), "ok");
    assert_eq!(recorder.started_with, vec![" my take.wav".to_string()]);
    assert_eq!(respond_to_message(b"stop\n".to_vec(), &mut recorder), "ok");
}

/// Bytes that are no text are answered with the reason, and the recorder is left alone.
#[test]
fn broken_messages_are_refused() {
    let mut recorder = MockRecorder::new();
    let broken = vec![b's', b't', 0xff, b'p'];
    let reason = String::from_utf8(broken.clone()).unwrap_err().to_string();
    assert_eq!(
        respond_to_message(broken, &mut recorder),
        format!("err:UTF-8デコードエラー: {}", reason)
    );
    assert!(recorder.started_with.is_empty());
}

/// A decoding that failed is answered with its message, whatever it is.
#[test]
fn decoded_messages_are_answered() {
    let mut recorder = MockRecorder::new();
    assert_eq!(
        respond_to_text(Err("だめ".to_string()), &mut recorder),
        "err:UTF-8デコードエラー: だめ"
    );
    assert_eq!(respond_to_text(Ok("\tstop ".to_string()), &mut recorder), "noop:録音していません");
    assert_eq!(respond_to_text(Ok("   ".to_string()), &mut recorder), "err:未知のコマンド: ");
}

/// Three recordings one after the other.
#[test]
fn three_recordings_in_a_row() {
    let mut recorder = MockRecorder::new();
    for path in ["1.wav", "2.wav", "3.wav"] {
        assert_eq!(process_command(&format!("start:{}", path), &mut recorder), "ok");
        assert!(recorder.is_recording());
        assert_eq!(process_command("stop", &mut recorder), "ok");
        assert!(!recorder.is_recording());
    }
    assert_eq!(recorder.started_with, vec!["1.wav", "2.wav", "3.wav"]);
}
