//! The recorder: what it promises, and the decisions of the one that captures the
//! default input device.

use crate::text::{join2, optional_text, told};
use vstd::pervasive::unreached;
use vstd::prelude::*;

verus! {

/// Something that records sound into a WAV file.
///
/// The contracts speak of a recorder through three spec functions. `start_step` and
/// `stop_step` relate the recorder before a call to the recorder after it and to what
/// the call returned: an implementation says in them as much as it can, and nothing
/// by default. `recording` says when a recording is under way: every implementation
/// that is verified has to override it, since by default there is never one, and
/// neither `start` nor `is_recording` could then do what they promise.
pub trait AudioRecorder: Send + Sized {
    /// A recording is under way. Every verified implementation has to override this.
    open spec fn recording(&self) -> bool {
        false
    }

    /// `start` with `output_path` can turn `self` into `after` and return `result`.
    open spec fn start_step(
        &self,
        output_path: Seq<char>,
        after: &Self,
        result: Result<(), String>,
    ) -> bool {
        true
    }

    /// `stop` can turn `self` into `after` and return `result`.
    open spec fn stop_step(&self, after: &Self, result: Result<(), String>) -> bool {
        true
    }

    /// Starts to record into `output_path`. While a recording is under way this does
    /// nothing and succeeds. A failure is told as a message.
    fn start(&mut self, output_path: &str) -> (result: Result<(), String>)
        ensures
            old(self).start_step(output_path@, final(self), result),
            old(self).recording() ==> result is Ok && *final(self) == *old(self),
            result is Ok ==> final(self).recording(),
    ;

    /// Stops the recording and completes its file. While none is under way this does
    /// nothing and succeeds. A failure, also one from the course of the recording, is
    /// told as a message.
    fn stop(&mut self) -> (result: Result<(), String>)
        ensures
            old(self).stop_step(final(self), result),
            !old(self).recording() ==> result is Ok && *final(self) == *old(self),
            result is Ok ==> !final(self).recording(),
    ;

    /// Tells whether a recording is under way.
    fn is_recording(&self) -> (r: bool)
        ensures
            r == self.recording(),
    ;
}

/// The sample formats that an input device may deliver.
#[derive(Clone, Copy, Debug, PartialEq, Eq, Structural)]
pub enum InputSampleFormat {
    /// Signed, 8 bits.
    I8,
    /// Signed, 16 bits.
    I16,
    /// Signed, 24 bits.
    I24,
    /// Signed, 32 bits.
    I32,
    /// Signed, 64 bits.
    I64,
    /// Unsigned, 8 bits.
    U8,
    /// Unsigned, 16 bits.
    U16,
    /// Unsigned, 24 bits.
    U24,
    /// Unsigned, 32 bits.
    U32,
    /// Unsigned, 64 bits.
    U64,
    /// Floating point, 32 bits.
    F32,
    /// Floating point, 64 bits.
    F64,
    /// Any other format.
    Other,
}

/// What an input device delivers by default.
#[derive(Clone, Copy, Debug, PartialEq, Eq, Structural)]
pub struct InputConfig {
    /// The number of channels.
    pub channels: u16,
    /// Samples per second and channel.
    pub sample_rate: u32,
    /// The format of a sample.
    pub sample_format: InputSampleFormat,
}

/// The kinds of sample that a recording is captured and written as.
#[derive(Clone, Copy, Debug, PartialEq, Eq, Structural)]
pub enum SampleKind {
    /// Integers of 16 bits.
    I16,
    /// Floating point numbers of 32 bits.
    F32,
}

/// The sample formats of a WAV file.
#[derive(Clone, Copy, Debug, PartialEq, Eq, Structural)]
pub enum WavSampleFormat {
    /// Integers.
    Int,
    /// Floating point numbers.
    Float,
}

/// The properties of a WAV file.
#[derive(Clone, Copy, Debug, PartialEq, Eq, Structural)]
pub struct WavSpec {
    /// The number of channels.
    pub channels: u16,
    /// Samples per second and channel.
    pub sample_rate: u32,
    /// The size of a sample.
    pub bits_per_sample: u16,
    /// The format of a sample.
    pub sample_format: WavSampleFormat,
}

/// The formats that are recorded as integers.
pub open spec fn recorded_as_integers(format: InputSampleFormat) -> bool {
    format == InputSampleFormat::I8 || format == InputSampleFormat::I16 || format
        == InputSampleFormat::I32
}

/// The file for what a device delivers: integers of 16 bits for signed integers of 8,
/// 16 and 32 bits, and floating point numbers of 32 bits for everything else.
pub open spec fn wav_spec_of(config: InputConfig) -> WavSpec {
    WavSpec {
        channels: config.channels,
        sample_rate: config.sample_rate,
        bits_per_sample: if recorded_as_integers(config.sample_format) {
            16
        } else {
            32
        },
        sample_format: if recorded_as_integers(config.sample_format) {
            WavSampleFormat::Int
        } else {
            WavSampleFormat::Float
        },
    }
}

/// The kind of sample that a stream for a file of this sample size delivers.
pub open spec fn kind_of(bits_per_sample: u16) -> SampleKind {
    if bits_per_sample == 16 {
        SampleKind::I16
    } else {
        SampleKind::F32
    }
}

/// Chooses the properties of the file for what a device delivers.
pub fn wav_spec(config: InputConfig) -> (spec: WavSpec)
    ensures
        spec == wav_spec_of(config),
{
    let (bits_per_sample, sample_format) = match config.sample_format {
        InputSampleFormat::I8 | InputSampleFormat::I16 | InputSampleFormat::I32 => (
            16u16,
            WavSampleFormat::Int,
        ),
        _ => (32u16, WavSampleFormat::Float),
    };
    WavSpec {
        channels: config.channels,
        sample_rate: config.sample_rate,
        bits_per_sample,
        sample_format,
    }
}

/// Chooses the kind of sample for a file of this sample size.
pub fn sample_kind(bits_per_sample: u16) -> (kind: SampleKind)
    ensures
        kind == kind_of(bits_per_sample),
{
    if bits_per_sample == 16 {
        SampleKind::I16
    } else {
        SampleKind::F32
    }
}

/// What is to be done next to start a recording.
pub enum StartStep {
    /// Find the default input device.
    FindDevice,
    /// Ask the device what it delivers.
    ReadConfig,
    /// Create the file.
    CreateWriter(WavSpec),
    /// Build the input stream.
    BuildStream(SampleKind),
    /// Set the stream going.
    Play,
    /// Nothing more: this is the result.
    Finished(Result<(), String>),
}

/// The view of a [`StartStep`].
pub enum StartStepView {
    /// See [`StartStep::FindDevice`].
    FindDevice,
    /// See [`StartStep::ReadConfig`].
    ReadConfig,
    /// See [`StartStep::CreateWriter`].
    CreateWriter(WavSpec),
    /// See [`StartStep::BuildStream`].
    BuildStream(SampleKind),
    /// See [`StartStep::Play`].
    Play,
    /// See [`StartStep::Finished`].
    Finished(Result<(), Seq<char>>),
}

impl View for StartStep {
    type V = StartStepView;

    open spec fn view(&self) -> StartStepView {
        match *self {
            StartStep::FindDevice => StartStepView::FindDevice,
            StartStep::ReadConfig => StartStepView::ReadConfig,
            StartStep::CreateWriter(spec) => StartStepView::CreateWriter(spec),
            StartStep::BuildStream(kind) => StartStepView::BuildStream(kind),
            StartStep::Play => StartStepView::Play,
            StartStep::Finished(result) => StartStepView::Finished(told(result)),
        }
    }
}

/// What came of a [`StartStep`]. Failures are told as the message of what failed.
pub enum StartEvent {
    /// Whether there is a default input device.
    Device(bool),
    /// What the device delivers.
    Config(Result<InputConfig, String>),
    /// The file was created.
    Writer(Result<(), String>),
    /// The stream was built.
    Stream(Result<(), String>),
    /// The stream is going.
    Playing(Result<(), String>),
}

/// The view of a [`StartEvent`].
pub enum StartEventView {
    /// See [`StartEvent::Device`].
    Device(bool),
    /// See [`StartEvent::Config`].
    Config(Result<InputConfig, Seq<char>>),
    /// See [`StartEvent::Writer`].
    Writer(Result<(), Seq<char>>),
    /// See [`StartEvent::Stream`].
    Stream(Result<(), Seq<char>>),
    /// See [`StartEvent::Playing`].
    Playing(Result<(), Seq<char>>),
}

impl View for StartEvent {
    type V = StartEventView;

    open spec fn view(&self) -> StartEventView {
        match *self {
            StartEvent::Device(found) => StartEventView::Device(found),
            StartEvent::Config(result) => StartEventView::Config(told(result)),
            StartEvent::Writer(result) => StartEventView::Writer(told(result)),
            StartEvent::Stream(result) => StartEventView::Stream(told(result)),
            StartEvent::Playing(result) => StartEventView::Playing(told(result)),
        }
    }
}

/// `event` tells what came of `step`.
pub open spec fn answers(step: StartStepView, event: StartEventView) -> bool {
    match step {
        StartStepView::FindDevice => event is Device,
        StartStepView::ReadConfig => event is Config,
        StartStepView::CreateWriter(_) => event is Writer,
        StartStepView::BuildStream(_) => event is Stream,
        StartStepView::Play => event is Playing,
        StartStepView::Finished(_) => false,
    }
}

/// The end of a start that failed with this message.
pub open spec fn start_failed(message: Seq<char>) -> StartStepView {
    StartStepView::Finished(Err(message))
}

/// The message of a stream that could not be built.
pub open spec fn stream_failure(kind: SampleKind, message: Seq<char>) -> Seq<char> {
    match kind {
        SampleKind::I16 => "ストリームの構築に失敗しました (i16): "@ + message,
        SampleKind::F32 => "ストリームの構築に失敗しました (f32): "@ + message,
    }
}

/// The step after `step`, once `event` has told what came of it. The first failure
/// ends the start.
pub open spec fn step_after(step: StartStepView, event: StartEventView) -> StartStepView {
    match event {
        StartEventView::Device(found) => if found {
            StartStepView::ReadConfig
        } else {
            start_failed("デフォルト入力デバイスが見つかりません"@)
        },
        StartEventView::Config(result) => match result {
            Ok(config) => StartStepView::CreateWriter(wav_spec_of(config)),
            Err(e) => start_failed("入力設定の取得に失敗しました: "@ + e),
        },
        StartEventView::Writer(result) => match result {
            Ok(()) => StartStepView::BuildStream(kind_of(step->CreateWriter_0.bits_per_sample)),
            Err(e) => start_failed("WAVファイルの作成に失敗しました: "@ + e),
        },
        StartEventView::Stream(result) => match result {
            Ok(()) => StartStepView::Play,
            Err(e) => start_failed(stream_failure(step->BuildStream_0, e)),
        },
        StartEventView::Playing(result) => match result {
            Ok(()) => StartStepView::Finished(Ok(())),
            Err(e) => start_failed("録音ストリームの開始に失敗しました: "@ + e),
        },
    }
}

/// Whether a recording is under way once a start has come to `next`: where one was, or
/// where the start has succeeded.
pub open spec fn recording_after(recording: bool, next: StartStepView) -> bool {
    recording || next == StartStepView::Finished(Ok(()))
}

/// The result of a stop: nothing to do while idle; otherwise a file that could not be
/// completed comes first, then an error from the course of the recording.
pub open spec fn stop_result(
    recording: bool,
    finalized: Result<(), Seq<char>>,
    callback_error: Option<Seq<char>>,
) -> Result<(), Seq<char>> {
    if !recording {
        Ok(())
    } else {
        match finalized {
            Err(e) => Err("WAVファイルのファイナライズに失敗しました: "@ + e),
            Ok(()) => match callback_error {
                Some(e) => Err("録音中にコールバックエラーが発生しました: "@ + e),
                None => Ok(()),
            },
        }
    }
}

/// Whether a recording is under way.
enum RecordingState {
    Idle,
    Active,
}

/// The decisions of the recorder that captures the default input device into a WAV
/// file.
///
/// The device, the stream and the file belong to the caller, who carries out each
/// step and reports what came of it.
pub struct CpalHoundRecorder {
    state: RecordingState,
}

impl Default for CpalHoundRecorder {
    fn default() -> (r: CpalHoundRecorder)
        ensures
            !r.recording(),
    {
        CpalHoundRecorder::new()
    }
}

impl CpalHoundRecorder {
    /// A recording is under way.
    pub closed spec fn recording(&self) -> bool {
        self.state is Active
    }

    /// A recorder that does not record yet.
    pub fn new() -> (r: CpalHoundRecorder)
        ensures
            !r.recording(),
    {
        CpalHoundRecorder { state: RecordingState::Idle }
    }

    /// Tells whether a recording is under way.
    pub fn is_recording(&self) -> (r: bool)
        ensures
            r == self.recording(),
    {
        match self.state {
            RecordingState::Idle => false,
            RecordingState::Active => true,
        }
    }

    /// The first step of a start. While a recording is under way there is nothing to
    /// do.
    pub fn start(&self) -> (step: StartStep)
        ensures
            step@ == (if self.recording() {
                StartStepView::Finished(Ok(()))
            } else {
                StartStepView::FindDevice
            }),
    {
        if self.is_recording() {
            StartStep::Finished(Ok(()))
        } else {
            StartStep::FindDevice
        }
    }

    /// The step after `step`, once `event` has told what came of it. The recording is
    /// under way from the moment at which the stream is going.
    pub fn advance(&mut self, step: StartStep, event: StartEvent) -> (next: StartStep)
        requires
            answers(step@, event@),
        ensures
            next@ == step_after(step@, event@),
            final(self).recording() == recording_after(old(self).recording(), next@),
    {
        match event {
            StartEvent::Device(found) => {
                if found {
                    StartStep::ReadConfig
                } else {
                    StartStep::Finished(
                        Err("デフォルト入力デバイスが見つかりません".to_owned()),
                    )
                }
            },
            StartEvent::Config(result) => match result {
                Ok(config) => StartStep::CreateWriter(wav_spec(config)),
                Err(e) => StartStep::Finished(
                    Err(join2("入力設定の取得に失敗しました: ", e.as_str())),
                ),
            },
            StartEvent::Writer(result) => match (result, step) {
                (Ok(()), StartStep::CreateWriter(spec)) => StartStep::BuildStream(
                    sample_kind(spec.bits_per_sample),
                ),
                (Ok(()), _) => unreached(),
                (Err(e), _) => StartStep::Finished(
                    Err(join2("WAVファイルの作成に失敗しました: ", e.as_str())),
                ),
            },
            StartEvent::Stream(result) => match (result, step) {
                (Ok(()), _) => StartStep::Play,
                (Err(e), StartStep::BuildStream(kind)) => {
                    let front = match kind {
                        SampleKind::I16 => "ストリームの構築に失敗しました (i16): ",
                        SampleKind::F32 => "ストリームの構築に失敗しました (f32): ",
                    };
                    StartStep::Finished(Err(join2(front, e.as_str())))
                },
                (Err(_), _) => unreached(),
            },
            StartEvent::Playing(result) => match result {
                Ok(()) => {
                    self.state = RecordingState::Active;
                    StartStep::Finished(Ok(()))
                },
                Err(e) => StartStep::Finished(
                    Err(join2("録音ストリームの開始に失敗しました: ", e.as_str())),
                ),
            },
        }
    }

    /// Ends the recording, once the stream is gone. `finalized` tells whether the file
    /// was completed, where one was still open; `callback_error` is the error that the
    /// course of the recording left behind.
    pub fn stop(
        &mut self,
        finalized: Result<(), String>,
        callback_error: Option<String>,
    ) -> (result: Result<(), String>)
        ensures
            !final(self).recording(),
            told(result) == stop_result(
                old(self).recording(),
                told(finalized),
                optional_text(callback_error),
            ),
    {
        let was_recording = self.is_recording();
        self.state = RecordingState::Idle;
        if !was_recording {
            return Ok(());
        }
        match finalized {
            Err(e) => Err(join2("WAVファイルのファイナライズに失敗しました: ", e.as_str())),
            Ok(()) => match callback_error {
                Some(e) => Err(
                    join2("録音中にコールバックエラーが発生しました: ", e.as_str()),
                ),
                None => Ok(()),
            },
        }
    }
}

/// Where a start stands after these events.
pub open spec fn start_run(step: StartStepView, events: Seq<StartEventView>) -> StartStepView
    decreases events.len(),
{
    if events.len() == 0 || !answers(step, events.first()) {
        step
    } else {
        start_run(step_after(step, events.first()), events.drop_first())
    }
}

/// A start comes to an end whatever happens, and it succeeds exactly when the device
/// is there and each of the four things that follow succeeds.
pub proof fn start_succeeds_when_every_step_does(
    found: bool,
    config: Result<InputConfig, Seq<char>>,
    writer: Result<(), Seq<char>>,
    stream: Result<(), Seq<char>>,
    playing: Result<(), Seq<char>>,
)
    ensures
        ({
            let events = seq![
                StartEventView::Device(found),
                StartEventView::Config(config),
                StartEventView::Writer(writer),
                StartEventView::Stream(stream),
                StartEventView::Playing(playing),
            ];
            let end = start_run(StartStepView::FindDevice, events);
            &&& end is Finished
            &&& (end == StartStepView::Finished(Ok(()))) == (found && config is Ok && writer is Ok
                && stream is Ok && playing is Ok)
        }),
{
    let events = seq![
        StartEventView::Device(found),
        StartEventView::Config(config),
        StartEventView::Writer(writer),
        StartEventView::Stream(stream),
        StartEventView::Playing(playing),
    ];
    let rest1 = events.drop_first();
    let rest2 = rest1.drop_first();
    let rest3 = rest2.drop_first();
    let rest4 = rest3.drop_first();
    let rest5 = rest4.drop_first();
    reveal_with_fuel(start_run, 6);
    assert(rest1.first() == StartEventView::Config(config));
    assert(rest2.first() == StartEventView::Writer(writer));
    assert(rest3.first() == StartEventView::Stream(stream));
    assert(rest4.first() == StartEventView::Playing(playing));
    assert(rest5.len() == 0);
}

/// A stop succeeds exactly when there is nothing to stop, or when the file was
/// completed and the recording went through without an error.
pub proof fn stop_succeeds_when_nothing_failed(
    recording: bool,
    finalized: Result<(), Seq<char>>,
    callback_error: Option<Seq<char>>,
)
    ensures
        stop_result(recording, finalized, callback_error) is Ok == (!recording || (finalized is Ok
            && callback_error is None)),
{
}

/// The file is made for what the device delivers: its channels, its rate, and integers
/// of 16 bits exactly for signed integers of 8, 16 and 32 bits, floating point numbers
/// of 32 bits for all others. The stream that feeds a file delivers what the file
/// holds.
pub proof fn files_fit_their_devices(config: InputConfig, file: WavSpec, kind: SampleKind)
    requires
        call_ensures(wav_spec, (config,), file),
        call_ensures(sample_kind, (file.bits_per_sample,), kind),
    ensures
        file.channels == config.channels,
        file.sample_rate == config.sample_rate,
        config.sample_format is I8 || config.sample_format is I16 || config.sample_format is I32
            ==> file.sample_format is Int && file.bits_per_sample == 16 && kind is I16,
        !(config.sample_format is I8 || config.sample_format is I16 || config.sample_format is I32)
            ==> file.sample_format is Float && file.bits_per_sample == 32 && kind is F32,
{
}

/// In a start whose steps succeed, the stream that is built agrees with the file that
/// was created before it, whatever the device delivers: it delivers floating point
/// numbers exactly where the file holds those of 32 bits, and integers exactly where it
/// holds those of 16.
pub proof fn streams_agree_with_their_files(config: InputConfig)
    ensures
        ({
            let created = start_run(
                StartStepView::FindDevice,
                seq![StartEventView::Device(true), StartEventView::Config(Ok(config))],
            );
            let built = start_run(
                StartStepView::FindDevice,
                seq![
                    StartEventView::Device(true),
                    StartEventView::Config(Ok(config)),
                    StartEventView::Writer(Ok(())),
                ],
            );
            let file = created->CreateWriter_0;
            let kind = built->BuildStream_0;
            let signed = config.sample_format is I8 || config.sample_format is I16
                || config.sample_format is I32;
            &&& created is CreateWriter
            &&& built is BuildStream
            &&& file.channels == config.channels && file.sample_rate == config.sample_rate
            &&& kind is F32 <==> file.sample_format is Float && file.bits_per_sample == 32
            &&& kind is I16 <==> file.sample_format is Int && file.bits_per_sample == 16
            &&& kind is I16 <==> signed
        }),
{
    reveal_with_fuel(start_run, 4);
    let two = seq![StartEventView::Device(true), StartEventView::Config(Ok(config))];
    let three = seq![
        StartEventView::Device(true),
        StartEventView::Config(Ok(config)),
        StartEventView::Writer(Ok(())),
    ];
    assert(two.drop_first().first() == StartEventView::Config(Ok(config)));
    assert(two.drop_first().drop_first().len() == 0);
    assert(three.drop_first().first() == StartEventView::Config(Ok(config)));
    assert(three.drop_first().drop_first().first() == StartEventView::Writer(Ok(())));
    assert(three.drop_first().drop_first().drop_first().len() == 0);
}

/// A start goes from the device to its configuration, the file, the stream and the
/// playing of it, one after the other and leaving none out; each step that succeeds
/// leads to the next, and the last to the end.
pub proof fn starts_take_every_step_in_order(
    config: InputConfig,
    file: WavSpec,
    kind: SampleKind,
)
    ensures
        step_after(StartStepView::FindDevice, StartEventView::Device(true)) is ReadConfig,
        step_after(
            StartStepView::ReadConfig,
            StartEventView::Config(Ok(config)),
        ) is CreateWriter,
        step_after(
            StartStepView::CreateWriter(file),
            StartEventView::Writer(Ok(())),
        ) is BuildStream,
        step_after(StartStepView::BuildStream(kind), StartEventView::Stream(Ok(()))) is Play,
        step_after(StartStepView::Play, StartEventView::Playing(Ok(())))
            == StartStepView::Finished(Ok(())),
{
}

/// A step that fails ends the start with a message of its own, and what the device or
/// the file said stands at its end, whole and unchanged.
pub proof fn start_failures_tell_what_was_said(
    step: StartStepView,
    event: StartEventView,
    error: Seq<char>,
)
    requires
        answers(step, event),
        event == StartEventView::Config(Err(error)) || event == StartEventView::Writer(Err(error))
            || event == StartEventView::Stream(Err(error)) || event == StartEventView::Playing(
            Err(error),
        ),
    ensures
        ({
            let end = step_after(step, event);
            let front = match event {
                StartEventView::Config(_) => "入力設定の取得に失敗しました: "@,
                StartEventView::Writer(_) => "WAVファイルの作成に失敗しました: "@,
                StartEventView::Stream(_) => if step->BuildStream_0 is I16 {
                    "ストリームの構築に失敗しました (i16): "@
                } else {
                    "ストリームの構築に失敗しました (f32): "@
                },
                _ => "録音ストリームの開始に失敗しました: "@,
            };
            &&& end is Finished && end->Finished_0 is Err
            &&& end->Finished_0->Err_0.len() == front.len() + error.len()
            &&& front.is_prefix_of(end->Finished_0->Err_0)
            &&& error.is_suffix_of(end->Finished_0->Err_0)
        }),
{
    let message = step_after(step, event)->Finished_0->Err_0;
    assert(error =~= message.subrange(message.len() - error.len(), message.len() as int));
    assert(message.subrange(0, message.len() - error.len()) + error =~= message);
    let front = match event {
        StartEventView::Config(_) => "入力設定の取得に失敗しました: "@,
        StartEventView::Writer(_) => "WAVファイルの作成に失敗しました: "@,
        StartEventView::Stream(_) => if step->BuildStream_0 is I16 {
            "ストリームの構築に失敗しました (i16): "@
        } else {
            "ストリームの構築に失敗しました (f32): "@
        },
        _ => "録音ストリームの開始に失敗しました: "@,
    };
    assert(message == front + error);
    assert(front =~= message.subrange(0, front.len() as int));
}

/// Without a device a start fails at once, and says so.
pub proof fn starts_need_a_device()
    ensures
        step_after(StartStepView::FindDevice, StartEventView::Device(false))
            == StartStepView::Finished(Err("デフォルト入力デバイスが見つかりません"@)),
{
}

/// A start begins with the device, unless a recording is under way: it is then left
/// alone, and the start succeeds without a step.
pub proof fn starts_begin_with_the_device(recorder: CpalHoundRecorder, step: StartStep)
    requires
        call_ensures(CpalHoundRecorder::start, (&recorder,), step),
    ensures
        !recorder.recording() ==> step is FindDevice,
        recorder.recording() ==> (step matches StartStep::Finished(result) && result is Ok),
{
}

/// A recording is under way after a start from idle exactly where the last of its five
/// steps was reached and succeeded; every failure leaves the recorder idle.
pub proof fn only_playing_streams_are_recordings(step: StartStepView, event: StartEventView)
    requires
        answers(step, event),
    ensures
        recording_after(false, step_after(step, event)) <==> step is Play
            && event->Playing_0 is Ok,
        recording_after(true, step_after(step, event)),
{
}

/// What a stop tells: nothing while idle; of a recording, a file that could not be
/// completed before an error from its course, each at the end of its message, whole and
/// unchanged.
pub proof fn stops_tell_what_was_said(
    finalized: Result<(), Seq<char>>,
    callback_error: Option<Seq<char>>,
)
    ensures
        stop_result(false, finalized, callback_error) is Ok,
        finalized matches Err(e) ==> {
            let r = stop_result(true, finalized, callback_error);
            &&& r is Err
            &&& "WAVファイルのファイナライズに失敗しました: "@.is_prefix_of(r->Err_0)
            &&& e.is_suffix_of(r->Err_0)
            &&& r->Err_0.len() == "WAVファイルのファイナライズに失敗しました: "@.len() + e.len()
        },
        finalized is Ok && callback_error is Some ==> {
            let r = stop_result(true, finalized, callback_error);
            let e = callback_error->0;
            &&& r is Err
            &&& "録音中にコールバックエラーが発生しました: "@.is_prefix_of(r->Err_0)
            &&& e.is_suffix_of(r->Err_0)
            &&& r->Err_0.len() == "録音中にコールバックエラーが発生しました: "@.len() + e.len()
        },
{
    if let Err(e) = finalized {
        let front = "WAVファイルのファイナライズに失敗しました: "@;
        assert((front + e).subrange(0, front.len() as int) =~= front);
        assert((front + e).subrange(front.len() as int, (front + e).len() as int) =~= e);
    } else if let Some(e) = callback_error {
        let front = "録音中にコールバックエラーが発生しました: "@;
        assert((front + e).subrange(0, front.len() as int) =~= front);
        assert((front + e).subrange(front.len() as int, (front + e).len() as int) =~= e);
    }
}

/// What a recorder does with the outcome of a step: a success leads to the next step,
/// with a file for what the device delivers and a stream for what the file holds; a
/// failure ends the start. The recording is under way once the stream plays, and not
/// before.
pub proof fn recorders_follow_the_steps(
    before: CpalHoundRecorder,
    step: StartStep,
    event: StartEvent,
    after: CpalHoundRecorder,
    next: StartStep,
)
    requires
        answers(step@, event@),
        exists|recorder: &mut CpalHoundRecorder|
            *recorder == before && *final(recorder) == after && #[trigger] call_ensures(
                CpalHoundRecorder::advance,
                (recorder, step, event),
                next,
            ),
    ensures
        event == StartEvent::Device(true) ==> next is ReadConfig,
        event matches StartEvent::Config(Ok(config)) ==> (next matches StartStep::CreateWriter(file)
            && file.channels == config.channels && file.sample_rate == config.sample_rate && (
        config.sample_format is I8 || config.sample_format is I16 || config.sample_format is I32
            ==> file.bits_per_sample == 16 && file.sample_format is Int) && (!(
        config.sample_format is I8 || config.sample_format is I16 || config.sample_format is I32)
            ==> file.bits_per_sample == 32 && file.sample_format is Float)),
        event matches StartEvent::Writer(written) ==> (written is Ok ==> (
        next matches StartStep::BuildStream(kind) && (kind is I16
            <==> step->CreateWriter_0.bits_per_sample == 16))),
        event matches StartEvent::Stream(built) ==> (built is Ok ==> next is Play),
        event matches StartEvent::Playing(playing) ==> (playing is Ok ==> (
        next matches StartStep::Finished(r) && r is Ok)),
        event == StartEvent::Device(false) ==> (next matches StartStep::Finished(Err(m)) && m@
            == "デフォルト入力デバイスが見つかりません"@),
        event matches StartEvent::Config(Err(e)) ==> (next matches StartStep::Finished(Err(m)) && m@
            =~= "入力設定の取得に失敗しました: "@ + e@),
        event matches StartEvent::Writer(Err(e)) ==> (next matches StartStep::Finished(Err(m)) && m@
            =~= "WAVファイルの作成に失敗しました: "@ + e@),
        event matches StartEvent::Stream(Err(e)) ==> (next matches StartStep::Finished(Err(m)) && (
        step->BuildStream_0 is I16 ==> m@ =~= "ストリームの構築に失敗しました (i16): "@ + e@) && (
        step->BuildStream_0 is F32 ==> m@ =~= "ストリームの構築に失敗しました (f32): "@ + e@)),
        event matches StartEvent::Playing(Err(e)) ==> (next matches StartStep::Finished(Err(m))
            && m@ =~= "録音ストリームの開始に失敗しました: "@ + e@),
        before.recording() ==> after.recording(),
        !before.recording() ==> (after.recording() <==> event is Playing && event->Playing_0 is Ok),
{
    assert(next@ == step_after(step@, event@));
}

/// After a stop no recording is under way. It tells nothing while idle; of a recording,
/// a file that could not be completed first, and an error from its course otherwise.
pub proof fn recorders_stop(
    before: CpalHoundRecorder,
    finalized: Result<(), String>,
    callback_error: Option<String>,
    after: CpalHoundRecorder,
    result: Result<(), String>,
)
    requires
        exists|recorder: &mut CpalHoundRecorder|
            *recorder == before && *final(recorder) == after && #[trigger] call_ensures(
                CpalHoundRecorder::stop,
                (recorder, finalized, callback_error),
                result,
            ),
    ensures
        !after.recording(),
        result is Ok <==> !before.recording() || (finalized is Ok && callback_error is None),
        before.recording() ==> (finalized matches Err(e) ==> (result matches Err(m) && m@
            =~= "WAVファイルのファイナライズに失敗しました: "@ + e@)),
        before.recording() && finalized is Ok ==> (callback_error matches Some(e) ==> (
        result matches Err(m) && m@ =~= "録音中にコールバックエラーが発生しました: "@ + e@)),
{
    assert(told(result) == stop_result(
        before.recording(),
        told(finalized),
        optional_text(callback_error),
    ));
}

/// A new recorder is idle, and says so; a recorder says that it records exactly where
/// it does.
pub proof fn recorders_know_their_state(
    fresh: CpalHoundRecorder,
    default: CpalHoundRecorder,
    recorder: CpalHoundRecorder,
    says: bool,
)
    requires
        call_ensures(CpalHoundRecorder::new, (), fresh),
        call_ensures(<CpalHoundRecorder as Default>::default, (), default),
        call_ensures(CpalHoundRecorder::is_recording, (&recorder,), says),
    ensures
        !fresh.recording(),
        !default.recording(),
        says == recorder.recording(),
{
}

} // verus!
