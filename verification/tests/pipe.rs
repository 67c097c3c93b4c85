//! Tests of messages, of the server's phases and of the system's codes.

use aviutl2_audio_rec::client::ConnectFailure;
use aviutl2_audio_rec::message::{
    check_written, write_result, MessageReader, ReadEvent, ReadStep, MAX_PAYLOAD_BYTES,
};
use aviutl2_audio_rec::server::{
    client_connected, Seen, ServerPhase, ShutdownStep, WaitOutcome,
};
use aviutl2_audio_rec::win32::{
    connect_failure, pipe_name_wide, read_event, to_hresult, wait_outcome, wide_text,
    ERROR_FILE_NOT_FOUND, ERROR_MORE_DATA, ERROR_PIPE_BUSY, ERROR_PIPE_CONNECTED, PIPE_NAME,
};

/// Reads the events to the end.
fn read_all(events: Vec<ReadEvent>) -> Option<Vec<u8>> {
    let mut reader = MessageReader::new();
    for event in events {
        match reader.take(event) {
            ReadStep::More => {}
            ReadStep::Finished(message) => return message,
        }
    }
    panic!("the message did not end");
}

/// A message in one piece, and in several.
#[test]
fn messages_are_put_together() {
    assert_eq!(read_all(vec![ReadEvent::Last(b"stop".to_vec())]), Some(b"stop".to_vec()));
    assert_eq!(
        read_all(vec![
            ReadEvent::Part(b"sta".to_vec()),
            ReadEvent::Part(b"rt:".to_vec()),
            ReadEvent::Last(b"a".to_vec()),
        ]),
        Some(b"start:a".to_vec())
    );
    assert_eq!(
        read_all(vec![ReadEvent::Part(b"stop".to_vec()), ReadEvent::Last(Vec::new())]),
        Some(b"stop".to_vec())
    );
}

/// An empty message, a failed read and a message that is too long are none.
#[test]
fn unusable_messages_are_dropped() {
    assert_eq!(read_all(vec![ReadEvent::Last(Vec::new())]), None);
    assert_eq!(read_all(vec![ReadEvent::Failed]), None);
    assert_eq!(read_all(vec![ReadEvent::Part(b"st".to_vec()), ReadEvent::Failed]), None);
    let full = vec![b'a'; MAX_PAYLOAD_BYTES];
    assert_eq!(read_all(vec![ReadEvent::Last(full.clone())]), Some(full.clone()));
    assert_eq!(
        read_all(vec![ReadEvent::Part(full.clone()), ReadEvent::Last(vec![b'b'])]),
        None
    );
    assert_eq!(read_all(vec![ReadEvent::Part(full.clone()), ReadEvent::Part(full)]), None);
    assert_eq!(MAX_PAYLOAD_BYTES, 65_536);
}

/// A write that took another number of bytes is told with both numbers.
#[test]
fn writes_are_checked() {
    assert_eq!(check_written(4, 4), Ok(()));
    assert_eq!(
        check_written(10, 7),
        Err("送信バイト数が一致しません: 期待=10, 実際=7".to_string())
    );
    assert_eq!(check_written(0, 0), Ok(()));
    assert_eq!(check_written((1usize << 32) + 5, 5), Ok(()));
    assert_eq!(write_result("W: ", 3, Ok(3)), Ok(()));
    assert_eq!(write_result("W: ", 3, Err("e".to_string())), Err("W: e".to_string()));
    assert_eq!(
        write_result("W: ", 3, Ok(2)),
        Err("送信バイト数が一致しません: 期待=3, 実際=2".to_string())
    );
}

fn seen(done: bool, shutdown: bool) -> Seen {
    Seen { done, shutdown }
}

/// Serving one client and going on.
#[test]
fn server_serves_client_after_client() {
    let mut phase = ServerPhase::Creating;
    let mut phases = Vec::new();
    for _ in 0..5 {
        phase = phase.next(seen(true, false));
        phases.push(phase);
    }
    assert_eq!(
        phases,
        vec![
            ServerPhase::Waiting,
            ServerPhase::Reading,
            ServerPhase::Responding,
            ServerPhase::Closing,
            ServerPhase::Creating,
        ]
    );
    assert_eq!(ServerPhase::Reading.next(seen(false, false)), ServerPhase::Closing);
}

/// What makes the server leave.
#[test]
fn server_leaves() {
    assert_eq!(ServerPhase::Creating.next(seen(false, false)), ServerPhase::Stopped);
    assert_eq!(ServerPhase::Waiting.next(seen(false, false)), ServerPhase::Leaving);
    assert_eq!(ServerPhase::Waiting.next(seen(true, true)), ServerPhase::Leaving);
    assert_eq!(ServerPhase::Reading.next(seen(true, true)), ServerPhase::Leaving);
    assert_eq!(ServerPhase::Reading.next(seen(false, true)), ServerPhase::Leaving);
    assert_eq!(ServerPhase::Leaving.next(seen(true, true)), ServerPhase::Stopped);
    assert_eq!(ServerPhase::Stopped.next(seen(true, false)), ServerPhase::Stopped);
}

/// From every phase a shutdown stops the server within five phases, and every pipe that is
/// made is closed.
#[test]
fn shutdown_stops_from_every_phase() {
    for start in [
        ServerPhase::Creating,
        ServerPhase::Waiting,
        ServerPhase::Reading,
        ServerPhase::Responding,
        ServerPhase::Closing,
        ServerPhase::Leaving,
        ServerPhase::Stopped,
    ] {
        let mut open = !matches!(start, ServerPhase::Creating | ServerPhase::Stopped);
        let mut phase = start;
        for _ in 0..5 {
            match phase {
                ServerPhase::Creating => {
                    assert!(!open);
                    open = true;
                }
                ServerPhase::Closing | ServerPhase::Leaving => {
                    assert!(open);
                    open = false;
                }
                _ => {}
            }
            phase = phase.next(seen(true, true));
            assert!(phase != ServerPhase::Responding && phase != ServerPhase::Reading);
        }
        assert_eq!(phase, ServerPhase::Stopped);
        assert!(!open);
    }
}

/// The steps of a shutdown.
#[test]
fn shutdown_steps_in_order() {
    let run = |pipe: bool, worker: bool| {
        let mut steps = Vec::new();
        let mut step = ShutdownStep::RaiseFlag;
        while step != ShutdownStep::Finished {
            steps.push(step);
            let found = if step == ShutdownStep::TakePipe { pipe } else { worker };
            step = step.next(found);
        }
        steps
    };
    assert_eq!(
        run(true, true),
        vec![
            ShutdownStep::RaiseFlag,
            ShutdownStep::TakePipe,
            ShutdownStep::Disconnect,
            ShutdownStep::ConnectClient,
            ShutdownStep::TakeWorker,
            ShutdownStep::JoinWorker,
        ]
    );
    assert_eq!(
        run(false, false),
        vec![
            ShutdownStep::RaiseFlag,
            ShutdownStep::TakePipe,
            ShutdownStep::ConnectClient,
            ShutdownStep::TakeWorker,
        ]
    );
    assert_eq!(ShutdownStep::Finished.next(true), ShutdownStep::Finished);
}

/// The numbers of the system and their `HRESULT`s.
#[test]
fn error_numbers_are_mapped() {
    assert_eq!(to_hresult(0), 0);
    assert_eq!(to_hresult(ERROR_FILE_NOT_FOUND), 0x8007_0002u32 as i32);
    assert_eq!(to_hresult(ERROR_PIPE_BUSY), 0x8007_00E7u32 as i32);
    assert_eq!(to_hresult(ERROR_MORE_DATA), 0x8007_00EAu32 as i32);
    assert_eq!(to_hresult(ERROR_PIPE_CONNECTED), 0x8007_0217u32 as i32);
    assert_eq!(to_hresult(0x1_0002), 0x8007_0002u32 as i32);
    assert_eq!(to_hresult(0x8000_4005), 0x8000_4005u32 as i32);
    assert_eq!(to_hresult(u32::MAX), -1);
}

/// What codes mean.
#[test]
fn codes_are_understood() {
    assert_eq!(connect_failure(to_hresult(ERROR_PIPE_BUSY)), ConnectFailure::PipeBusy);
    assert_eq!(connect_failure(to_hresult(ERROR_FILE_NOT_FOUND)), ConnectFailure::NotFound);
    assert_eq!(connect_failure(to_hresult(5)), ConnectFailure::Other);
    assert_eq!(connect_failure(231), ConnectFailure::Other);
    assert_eq!(wait_outcome(None), WaitOutcome::Connected);
    assert_eq!(
        wait_outcome(Some(to_hresult(ERROR_PIPE_CONNECTED))),
        WaitOutcome::AlreadyConnected
    );
    assert_eq!(wait_outcome(Some(to_hresult(ERROR_PIPE_BUSY))), WaitOutcome::Failed);
    assert!(client_connected(WaitOutcome::Connected));
    assert!(client_connected(WaitOutcome::AlreadyConnected));
    assert!(!client_connected(WaitOutcome::Failed));
    assert!(matches!(read_event(None, vec![1]), ReadEvent::Last(p) if p == vec![1]));
    assert!(matches!(
        read_event(Some(to_hresult(ERROR_MORE_DATA)), vec![2]),
        ReadEvent::Part(p) if p == vec![2]
    ));
    assert!(matches!(read_event(Some(-1), vec![3]), ReadEvent::Failed));
}

/// The name of the pipe as system calls take it.
#[test]
fn pipe_name_in_utf16() {
    assert_eq!(PIPE_NAME, r"\\.\pipe\aviutl2_audio_rec");
    let mut expected: Vec<u16> = PIPE_NAME.encode_utf16().collect();
    expected.push(0);
    assert_eq!(pipe_name_wide(), expected);
    assert_eq!(wide_text("録"), vec![0x9332, 0]);
    assert_eq!(wide_text("\u{1f3a4}"), vec![0xd83c, 0xdfa4, 0]);
    for text in ["", "a\u{10000}b", "\u{10ffff}\u{ffff}", "録音\u{20000}"] {
        let mut expected: Vec<u16> = text.encode_utf16().collect();
        expected.push(0);
        assert_eq!(wide_text(text), expected);
    }
}
