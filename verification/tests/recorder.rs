//! Tests of the recorder's decisions and of the writing of samples.

use aviutl2_audio_rec::recorder::{
    sample_kind, wav_spec, CpalHoundRecorder, InputConfig, InputSampleFormat, SampleKind,
    StartEvent, StartStep, WavSampleFormat, WavSpec,
};
use aviutl2_audio_rec::samples::{first_sample, keep_first_error, next_sample, SampleStep};

fn stereo(sample_format: InputSampleFormat) -> InputConfig {
    InputConfig {
        channels: 2,
        sample_rate: 48_000,
        sample_format,
    }
}

/// The message with which a start ended, if it failed.
fn failure(step: StartStep) -> String {
    match step {
        StartStep::Finished(Err(message)) => message,
        _ => panic!("the start did not fail"),
    }
}

/// A stop while idle succeeds.
#[test]
fn test_cpal_recorder_stop_when_idle_is_ok() {
    let mut recorder = CpalHoundRecorder::new();
    assert!(!recorder.is_recording());
    let result = recorder.stop(Ok(()), None);
    assert!(result.is_ok(), "idle 状態での stop は Ok のはず: {:?}", result);
}

/// A new recorder does not record.
#[test]
fn test_cpal_recorder_initial_state() {
    let recorder = CpalHoundRecorder::new();
    assert!(!recorder.is_recording());
    assert!(!CpalHoundRecorder::default().is_recording());
}

/// A stop while idle looks at nothing.
#[test]
fn stop_when_idle_ignores_leftovers() {
    let mut recorder = CpalHoundRecorder::new();
    let result = recorder.stop(Err("x".to_string()), Some("y".to_string()));
    assert_eq!(result, Ok(()));
}

fn recording() -> CpalHoundRecorder {
    let mut recorder = CpalHoundRecorder::new();
    let step = recorder.start();
    assert!(matches!(step, StartStep::FindDevice));
    let step = recorder.advance(step, StartEvent::Device(true));
    assert!(matches!(step, StartStep::ReadConfig));
    let step = recorder.advance(step, StartEvent::Config(Ok(stereo(InputSampleFormat::I16))));
    let expected = WavSpec {
        channels: 2,
        sample_rate: 48_000,
        bits_per_sample: 16,
        sample_format: WavSampleFormat::Int,
    };
    match step {
        StartStep::CreateWriter(spec) => assert_eq!(spec, expected),
        _ => panic!("the file comes next"),
    }
    let step = recorder.advance(step, StartEvent::Writer(Ok(())));
    assert!(matches!(step, StartStep::BuildStream(SampleKind::I16)));
    let step = recorder.advance(step, StartEvent::Stream(Ok(())));
    assert!(matches!(step, StartStep::Play));
    assert!(!recorder.is_recording());
    let step = recorder.advance(step, StartEvent::Playing(Ok(())));
    assert!(matches!(step, StartStep::Finished(Ok(()))));
    recorder
}

/// A start whose steps all succeed leaves the recorder recording, and a further start has
/// nothing to do.
#[test]
fn start_succeeds_step_by_step() {
    let recorder = recording();
    assert!(recorder.is_recording());
    assert!(matches!(recorder.start(), StartStep::Finished(Ok(()))));
}

/// Every step can fail, each with its own message, and leaves the recorder idle.
#[test]
fn start_fails_at_every_step() {
    let mut r = CpalHoundRecorder::new();
    let e = || Err("E".to_string());
    assert_eq!(
        failure(r.advance(StartStep::FindDevice, StartEvent::Device(false))),
        "デフォルト入力デバイスが見つかりません"
    );
    assert_eq!(
        failure(r.advance(StartStep::ReadConfig, StartEvent::Config(Err("E".to_string())))),
        "入力設定の取得に失敗しました: E"
    );
    let spec = wav_spec(stereo(InputSampleFormat::F32));
    assert_eq!(
        failure(r.advance(StartStep::CreateWriter(spec), StartEvent::Writer(e()))),
        "WAVファイルの作成に失敗しました: E"
    );
    assert_eq!(
        failure(r.advance(StartStep::BuildStream(SampleKind::I16), StartEvent::Stream(e()))),
        "ストリームの構築に失敗しました (i16): E"
    );
    assert_eq!(
        failure(r.advance(StartStep::BuildStream(SampleKind::F32), StartEvent::Stream(e()))),
        "ストリームの構築に失敗しました (f32): E"
    );
    assert_eq!(
        failure(r.advance(StartStep::Play, StartEvent::Playing(e()))),
        "録音ストリームの開始に失敗しました: E"
    );
    assert!(!r.is_recording());
}

/// The file comes before the course of the recording in what a stop tells.
#[test]
fn stop_tells_the_first_failure() {
    let mut r = recording();
    assert_eq!(r.stop(Ok(()), None), Ok(()));
    assert!(!r.is_recording());
    let mut r = recording();
    assert_eq!(
        r.stop(Ok(()), Some("C".to_string())),
        Err("録音中にコールバックエラーが発生しました: C".to_string())
    );
    let mut r = recording();
    assert_eq!(
        r.stop(Err("F".to_string()), Some("C".to_string())),
        Err("WAVファイルのファイナライズに失敗しました: F".to_string())
    );
    assert!(!r.is_recording());
}

/// Which formats are recorded as integers.
#[test]
fn formats_choose_the_file() {
    for format in [InputSampleFormat::I8, InputSampleFormat::I16, InputSampleFormat::I32] {
        let spec = wav_spec(stereo(format));
        assert_eq!(spec.bits_per_sample, 16);
        assert_eq!(spec.sample_format, WavSampleFormat::Int);
        assert_eq!(sample_kind(spec.bits_per_sample), SampleKind::I16);
    }
    for format in [
        InputSampleFormat::I24,
        InputSampleFormat::I64,
        InputSampleFormat::U8,
        InputSampleFormat::U16,
        InputSampleFormat::U24,
        InputSampleFormat::U32,
        InputSampleFormat::U64,
        InputSampleFormat::F32,
        InputSampleFormat::F64,
        InputSampleFormat::Other,
    ] {
        let spec = wav_spec(stereo(format));
        assert_eq!(spec.bits_per_sample, 32);
        assert_eq!(spec.sample_format, WavSampleFormat::Float);
        assert_eq!(sample_kind(spec.bits_per_sample), SampleKind::F32);
        assert_eq!((spec.channels, spec.sample_rate), (2, 48_000));
    }
}

/// Writes a block by the steps; `failing` is the sample that cannot be written.
fn write_block(kind: SampleKind, len: usize, failing: Option<usize>) -> (Vec<usize>, Option<String>) {
    let mut tried = Vec::new();
    let mut step = first_sample(true, true, len);
    loop {
        match step {
            SampleStep::Write(i) => {
                tried.push(i);
                let written = if failing == Some(i) {
                    Err("満杯".to_string())
                } else {
                    Ok(())
                };
                step = next_sample(kind, len, i, written);
            }
            SampleStep::Close(message) => return (tried, Some(message)),
            SampleStep::Finished => return (tried, None),
        }
    }
}

/// A block is written in order and to its end.
#[test]
fn samples_are_written_in_order() {
    assert_eq!(write_block(SampleKind::I16, 4, None), (vec![0, 1, 2, 3], None));
    assert_eq!(write_block(SampleKind::F32, 0, None), (vec![], None));
}

/// The first failure ends a block.
#[test]
fn first_failure_closes_the_file() {
    assert_eq!(
        write_block(SampleKind::I16, 4, Some(2)),
        (vec![0, 1, 2], Some("サンプル書き込みエラー (i16): 満杯".to_string()))
    );
    assert_eq!(
        write_block(SampleKind::F32, 1, Some(0)),
        (vec![0], Some("サンプル書き込みエラー (f32): 満杯".to_string()))
    );
}

/// A block for a file that is in use or closed is left out.
#[test]
fn blocks_without_a_file_are_left_out() {
    assert!(matches!(first_sample(false, true, 3), SampleStep::Finished));
    assert!(matches!(first_sample(true, false, 3), SampleStep::Finished));
    assert!(matches!(first_sample(true, true, 3), SampleStep::Write(0)));
}

/// The first error of a recording is kept.
#[test]
fn first_error_is_kept() {
    assert_eq!(keep_first_error(None, "a".to_string()), Some("a".to_string()));
    assert_eq!(
        keep_first_error(Some("a".to_string()), "b".to_string()),
        Some("a".to_string())
    );
}
