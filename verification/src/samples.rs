//! Writing the samples that a stream delivers.
//!
//! A block of samples is written in order. The first sample that cannot be written
//! closes the file, and the first error of a recording is kept.

use crate::recorder::SampleKind;
use crate::text::{join2, told};
use vstd::prelude::*;

verus! {

/// What is to be done next with a block of samples.
pub enum SampleStep {
    /// Write the sample with this number.
    Write(usize),
    /// Keep this error, where none is kept yet, close the file and leave the rest of
    /// the block.
    Close(String),
    /// Nothing more.
    Finished,
}

/// The view of a [`SampleStep`].
pub enum SampleStepView {
    /// See [`SampleStep::Write`].
    Write(nat),
    /// See [`SampleStep::Close`].
    Close(Seq<char>),
    /// See [`SampleStep::Finished`].
    Finished,
}

impl View for SampleStep {
    type V = SampleStepView;

    open spec fn view(&self) -> SampleStepView {
        match *self {
            SampleStep::Write(index) => SampleStepView::Write(index as nat),
            SampleStep::Close(message) => SampleStepView::Close(message@),
            SampleStep::Finished => SampleStepView::Finished,
        }
    }
}

/// The message of a sample that could not be written.
pub open spec fn sample_failure(kind: SampleKind, error: Seq<char>) -> Seq<char> {
    match kind {
        SampleKind::I16 => "サンプル書き込みエラー (i16): "@ + error,
        SampleKind::F32 => "サンプル書き込みエラー (f32): "@ + error,
    }
}

/// The step for sample `index` of a block of `len`.
pub open spec fn step_at(len: nat, index: nat) -> SampleStepView {
    if index < len {
        SampleStepView::Write(index)
    } else {
        SampleStepView::Finished
    }
}

/// The step after sample `index` of a block of `len`, once it has been written or not.
pub open spec fn step_behind(
    kind: SampleKind,
    len: nat,
    index: nat,
    written: Result<(), Seq<char>>,
) -> SampleStepView {
    match written {
        Ok(()) => step_at(len, index + 1),
        Err(error) => SampleStepView::Close(sample_failure(kind, error)),
    }
}

/// The first step for a block of `len`: its first sample, where the file is free and
/// open.
pub open spec fn first_step(file_is_free: bool, file_is_open: bool, len: nat) -> SampleStepView {
    if file_is_free && file_is_open {
        step_at(len, 0)
    } else {
        SampleStepView::Finished
    }
}

/// The first step for a block of `len` samples. A block that comes while the file is
/// in use elsewhere, or is closed, is left out.
pub fn first_sample(file_is_free: bool, file_is_open: bool, len: usize) -> (step: SampleStep)
    ensures
        step@ == first_step(file_is_free, file_is_open, len as nat),
        file_is_free && file_is_open && len > 0 ==> step == SampleStep::Write(0),
        !(file_is_free && file_is_open) || len == 0 ==> step is Finished,
{
    if file_is_free && file_is_open && 0 < len {
        SampleStep::Write(0)
    } else {
        SampleStep::Finished
    }
}

/// The step after sample `index` of a block of `len`.
pub fn next_sample(
    kind: SampleKind,
    len: usize,
    index: usize,
    written: Result<(), String>,
) -> (step: SampleStep)
    requires
        index < len,
    ensures
        step@ == step_behind(kind, len as nat, index as nat, told(written)),
{
    match written {
        Ok(()) => {
            if index + 1 < len {
                SampleStep::Write(index + 1)
            } else {
                SampleStep::Finished
            }
        },
        Err(e) => {
            let front = match kind {
                SampleKind::I16 => "サンプル書き込みエラー (i16): ",
                SampleKind::F32 => "サンプル書き込みエラー (f32): ",
            };
            SampleStep::Close(join2(front, e.as_str()))
        },
    }
}

/// The error that is kept of a recording: the first one.
pub fn keep_first_error(kept: Option<String>, message: String) -> (r: Option<String>)
    ensures
        r == (if kept is Some {
            kept
        } else {
            Some(message)
        }),
{
    match kept {
        Some(first) => Some(first),
        None => Some(message),
    }
}

/// Where a block stands from sample `index` on, if `outcomes` holds what writing each
/// sample of the block would come to: the number of samples that were tried, and the
/// last step.
pub open spec fn block_run(
    kind: SampleKind,
    outcomes: Seq<Result<(), Seq<char>>>,
    index: nat,
) -> (nat, SampleStepView)
    decreases outcomes.len() - index,
{
    if index >= outcomes.len() {
        (index, SampleStepView::Finished)
    } else {
        match step_behind(kind, outcomes.len(), index, outcomes[index as int]) {
            SampleStepView::Write(next) => if next == index + 1 {
                block_run(kind, outcomes, next)
            } else {
                (index + 1, SampleStepView::Write(next))
            },
            end => (index + 1, end),
        }
    }
}

/// A block whose samples can all be written is written to its end.
pub proof fn whole_block_is_written(
    kind: SampleKind,
    outcomes: Seq<Result<(), Seq<char>>>,
    index: nat,
)
    requires
        index <= outcomes.len(),
        forall|i: int| 0 <= i < outcomes.len() ==> #[trigger] outcomes[i] is Ok,
    ensures
        block_run(kind, outcomes, index) == (outcomes.len(), SampleStepView::Finished),
    decreases outcomes.len() - index,
{
    if index < outcomes.len() {
        assert(outcomes[index as int] is Ok);
        if index + 1 < outcomes.len() {
            whole_block_is_written(kind, outcomes, index + 1);
        }
    }
}

/// Where sample `failing` is the first that cannot be written, no sample behind it is
/// tried and the file is closed with the error of that sample.
pub proof fn first_failure_ends_the_block(
    kind: SampleKind,
    outcomes: Seq<Result<(), Seq<char>>>,
    index: nat,
    failing: nat,
    error: Seq<char>,
)
    requires
        index <= failing < outcomes.len(),
        forall|i: int| 0 <= i < failing ==> #[trigger] outcomes[i] is Ok,
        outcomes[failing as int] == Err::<(), Seq<char>>(error),
    ensures
        block_run(kind, outcomes, index) == (
            failing + 1,
            SampleStepView::Close(sample_failure(kind, error)),
        ),
    decreases failing - index,
{
    if index < failing {
        assert(outcomes[index as int] is Ok);
        first_failure_ends_the_block(kind, outcomes, index + 1, failing, error);
    }
}

/// What is done with a block from `step` on, at most `fuel` samples more, if `outcomes`
/// holds what writing each sample of the block comes to: the numbers of the samples
/// that are tried, in that order, and the last step.
pub open spec fn samples_tried(
    kind: SampleKind,
    outcomes: Seq<Result<(), Seq<char>>>,
    step: SampleStepView,
    fuel: nat,
) -> (Seq<nat>, SampleStepView)
    decreases fuel,
{
    match step {
        SampleStepView::Write(index) => if fuel == 0 {
            (Seq::empty(), step)
        } else {
            let rest = samples_tried(
                kind,
                outcomes,
                step_behind(kind, outcomes.len(), index, outcomes[index as int]),
                (fuel - 1) as nat,
            );
            (seq![index] + rest.0, rest.1)
        },
        _ => (Seq::empty(), step),
    }
}

/// The numbers from `from` up to `to`.
pub open spec fn counted(from: nat, to: nat) -> Seq<nat> {
    Seq::new((to - from) as nat, |i: int| (from + i) as nat)
}

/// From a sample on, the samples are tried up to the end or to the first failure.
proof fn samples_are_tried_from(
    kind: SampleKind,
    outcomes: Seq<Result<(), Seq<char>>>,
    index: nat,
    stop: nat,
    fuel: nat,
)
    requires
        index < outcomes.len(),
        index <= stop <= outcomes.len(),
        fuel >= outcomes.len() - index,
        forall|i: int| index <= i < stop ==> #[trigger] outcomes[i] is Ok,
        stop < outcomes.len() ==> outcomes[stop as int] is Err,
    ensures
        ({
            let run = samples_tried(kind, outcomes, SampleStepView::Write(index), fuel);
            &&& stop == outcomes.len() ==> run.0 =~= counted(index, stop) && run.1 is Finished
            &&& stop < outcomes.len() ==> run.0 =~= counted(index, stop + 1) && run.1
                == SampleStepView::Close(sample_failure(kind, outcomes[stop as int]->Err_0))
        }),
    decreases outcomes.len() - index,
{
    reveal_with_fuel(samples_tried, 2);
    let next = step_behind(kind, outcomes.len(), index, outcomes[index as int]);
    let rest = samples_tried(kind, outcomes, next, (fuel - 1) as nat);
    if index < stop {
        assert(outcomes[index as int] is Ok);
        if index + 1 < outcomes.len() {
            assert(next == SampleStepView::Write(index + 1));
            samples_are_tried_from(kind, outcomes, index + 1, stop, (fuel - 1) as nat);
            assert(seq![index] + counted(index + 1, stop) =~= counted(index, stop));
            assert(seq![index] + counted(index + 1, stop + 1) =~= counted(index, stop + 1));
        } else {
            assert(next is Finished);
            assert(rest.0 =~= Seq::empty());
            assert(seq![index] + rest.0 =~= counted(index, stop));
        }
    } else {
        assert(next is Close);
        assert(rest.0 =~= Seq::empty());
        assert(seq![index] + rest.0 =~= counted(index, stop + 1));
    }
}

/// A block for a free and open file is written from its first sample to its last, each
/// sample once and in order, where every write succeeds.
pub proof fn whole_blocks_are_written_in_order(
    kind: SampleKind,
    outcomes: Seq<Result<(), Seq<char>>>,
)
    requires
        forall|i: int| 0 <= i < outcomes.len() ==> #[trigger] outcomes[i] is Ok,
    ensures
        ({
            let run = samples_tried(
                kind,
                outcomes,
                first_step(true, true, outcomes.len()),
                outcomes.len(),
            );
            &&& run.0.len() == outcomes.len()
            &&& forall|i: int| 0 <= i < outcomes.len() ==> #[trigger] run.0[i] == i
            &&& run.1 is Finished
        }),
{
    if outcomes.len() > 0 {
        assert(first_step(true, true, outcomes.len()) == SampleStepView::Write(0));
        samples_are_tried_from(kind, outcomes, 0, outcomes.len(), outcomes.len());
    }
}

/// The first sample that cannot be written is the last one that is tried, after all
/// before it in order, and the file is closed with what the write said, under the name
/// of the kind of sample.
pub proof fn blocks_end_at_the_first_failure(
    kind: SampleKind,
    outcomes: Seq<Result<(), Seq<char>>>,
    failing: nat,
)
    requires
        failing < outcomes.len(),
        forall|i: int| 0 <= i < failing ==> #[trigger] outcomes[i] is Ok,
        outcomes[failing as int] is Err,
    ensures
        ({
            let run = samples_tried(
                kind,
                outcomes,
                first_step(true, true, outcomes.len()),
                outcomes.len(),
            );
            let error = outcomes[failing as int]->Err_0;
            let front = if kind is I16 {
                "サンプル書き込みエラー (i16): "@
            } else {
                "サンプル書き込みエラー (f32): "@
            };
            &&& run.0.len() == failing + 1
            &&& forall|i: int| 0 <= i <= failing ==> #[trigger] run.0[i] == i
            &&& run.1 is Close
            &&& run.1->Close_0.len() == front.len() + error.len()
            &&& front.is_prefix_of(run.1->Close_0)
            &&& error.is_suffix_of(run.1->Close_0)
        }),
{
    assert(first_step(true, true, outcomes.len()) == SampleStepView::Write(0));
    samples_are_tried_from(kind, outcomes, 0, failing, outcomes.len());
    let error = outcomes[failing as int]->Err_0;
    let front = if kind is I16 {
        "サンプル書き込みエラー (i16): "@
    } else {
        "サンプル書き込みエラー (f32): "@
    };
    assert((front + error).subrange(0, front.len() as int) =~= front);
    assert((front + error).subrange(front.len() as int, (front + error).len() as int) =~= error);
}

/// A block for a file that is in use or closed is left out whole.
pub proof fn blocks_without_a_file_are_left_out(
    free: bool,
    open: bool,
    len: usize,
    step: SampleStep,
)
    requires
        call_ensures(first_sample, (free, open, len), step),
    ensures
        !free || !open ==> step is Finished,
        free && open && len > 0 ==> step == SampleStep::Write(0),
{
}

/// Each sample that is written leads to the next one, up to the last.
pub proof fn samples_follow_each_other(
    kind: SampleKind,
    len: usize,
    index: usize,
    written: Result<(), String>,
    step: SampleStep,
)
    requires
        index < len,
        call_ensures(next_sample, (kind, len, index, written), step),
    ensures
        written is Ok && index + 1 < len ==> (step matches SampleStep::Write(next) && next == index
            + 1),
        written is Ok && index + 1 == len ==> step is Finished,
        written is Err ==> step is Close,
{
}

/// Of two errors in a row the first is kept, also over one that was kept before.
pub proof fn the_first_error_stays(
    first: String,
    second: String,
    once: Option<String>,
    twice: Option<String>,
)
    requires
        call_ensures(keep_first_error, (None, first), once),
        call_ensures(keep_first_error, (once, second), twice),
    ensures
        once == Some(first),
        twice == Some(first),
{
}

} // verus!
