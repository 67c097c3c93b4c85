//! Search for a free place on the timeline.
//!
//! The insertion itself is handed in as a function. When it fails at the wanted
//! frame with an error that is worth another try, the search moves on frame by
//! frame, so that an object ends up right behind whatever occupies the place. The
//! number of tries is bounded by [`MAX_INSERT_ATTEMPTS`].

use vstd::prelude::*;

verus! {

/// The largest number of frames that one search tries.
pub const MAX_INSERT_ATTEMPTS: usize = 1_000;

/// The distance between one try and the next, in frames.
pub const STEP_FRAMES: usize = 1;

/// What a search for a free place came to.
#[derive(Debug)]
pub enum TimelineInsertResult<T, E> {
    /// The object was inserted.
    Inserted {
        /// The frame at which it now starts.
        frame: usize,
        /// What the insertion returned.
        value: T,
    },
    /// Every frame that was tried failed with an error worth another try.
    NotFound {
        /// The error of the last try.
        last_error: Option<E>,
    },
    /// A try failed with an error that is not worth another one.
    Failed {
        /// The frame of that try.
        frame: usize,
        /// Its error.
        error: E,
    },
}

/// The insertion at `frame` can fail with `error`, and `error` can be judged worth
/// another try.
pub open spec fn rejected_with<T, E, F, R>(
    try_insert: F,
    retry_if: R,
    layer: usize,
    frame: usize,
    length_frames: usize,
    error: E,
) -> bool where F: Fn(usize, usize, usize) -> Result<T, E>, R: Fn(&E) -> bool {
    &&& call_ensures(try_insert, (layer, frame, length_frames), Err::<T, E>(error))
    &&& call_ensures(retry_if, (&error,), true)
}

/// The insertion at `frame` can fail with an error that can be judged worth another
/// try.
pub open spec fn rejected<T, E, F, R>(
    try_insert: F,
    retry_if: R,
    layer: usize,
    frame: usize,
    length_frames: usize,
) -> bool where F: Fn(usize, usize, usize) -> Result<T, E>, R: Fn(&E) -> bool {
    exists|error: E|
        rejected_with::<T, E, F, R>(try_insert, retry_if, layer, frame, length_frames, error)
}

/// The frame behind the last one that a search from `start_frame` may try.
pub open spec fn search_end(start_frame: usize) -> int {
    if start_frame + MAX_INSERT_ATTEMPTS <= usize::MAX + 1 {
        start_frame + MAX_INSERT_ATTEMPTS
    } else {
        usize::MAX + 1
    }
}

/// `result` is what a search from `start_frame` comes to: every frame before the
/// deciding one was rejected, and the deciding one gave what `result` holds.
pub open spec fn search_outcome<T, E, F, R>(
    try_insert: F,
    retry_if: R,
    layer: usize,
    start_frame: usize,
    length_frames: usize,
    result: TimelineInsertResult<T, E>,
) -> bool where F: Fn(usize, usize, usize) -> Result<T, E>, R: Fn(&E) -> bool {
    match result {
        TimelineInsertResult::Inserted { frame, value } => {
            &&& start_frame <= frame < search_end(start_frame)
            &&& call_ensures(try_insert, (layer, frame, length_frames), Ok::<T, E>(value))
            &&& forall|f: usize|
                start_frame <= f < frame ==> #[trigger] rejected::<T, E, F, R>(
                    try_insert,
                    retry_if,
                    layer,
                    f,
                    length_frames,
                )
        },
        TimelineInsertResult::Failed { frame, error } => {
            &&& start_frame <= frame < search_end(start_frame)
            &&& call_ensures(try_insert, (layer, frame, length_frames), Err::<T, E>(error))
            &&& call_ensures(retry_if, (&error,), false)
            &&& forall|f: usize|
                start_frame <= f < frame ==> #[trigger] rejected::<T, E, F, R>(
                    try_insert,
                    retry_if,
                    layer,
                    f,
                    length_frames,
                )
        },
        TimelineInsertResult::NotFound { last_error } => {
            &&& last_error matches Some(error)
            &&& rejected_with::<T, E, F, R>(
                try_insert,
                retry_if,
                layer,
                (search_end(start_frame) - 1) as usize,
                length_frames,
                error,
            )
            &&& forall|f: usize|
                start_frame <= f < search_end(start_frame) ==> #[trigger] rejected::<T, E, F, R>(
                    try_insert,
                    retry_if,
                    layer,
                    f,
                    length_frames,
                )
        },
    }
}

/// Inserts an object at `start_frame` or at the first later frame that takes it.
///
/// `try_insert` gets the layer, the frame and the length. An error for which
/// `retry_if` returns `true` moves the search on by [`STEP_FRAMES`]; any other error
/// ends it. The search also ends after [`MAX_INSERT_ATTEMPTS`] tries, or where no
/// larger frame number exists.
pub fn insert_at_available_frame<T, E, F, R>(
    layer: usize,
    start_frame: usize,
    length_frames: usize,
    try_insert: F,
    retry_if: R,
) -> (result: TimelineInsertResult<T, E>) where
    F: Fn(usize, usize, usize) -> Result<T, E>,
    R: Fn(&E) -> bool,

    requires
        forall|frame: usize|
            start_frame <= frame < search_end(start_frame) ==> #[trigger] call_requires(
                try_insert,
                (layer, frame, length_frames),
            ),
        forall|error: &E| #[trigger] call_requires(retry_if, (error,)),
    ensures
        search_outcome(try_insert, retry_if, layer, start_frame, length_frames, result),
{
    let mut frame: usize = start_frame;
    let mut last_error: Option<E> = None;
    let mut attempt: usize = 0;
    while attempt < MAX_INSERT_ATTEMPTS
        invariant
            attempt <= MAX_INSERT_ATTEMPTS,
            frame == start_frame + attempt,
            forall|f: usize|
                start_frame <= f < search_end(start_frame) ==> #[trigger] call_requires(
                    try_insert,
                    (layer, f, length_frames),
                ),
            forall|error: &E| #[trigger] call_requires(retry_if, (error,)),
            forall|f: usize|
                start_frame <= f < frame ==> #[trigger] rejected::<T, E, F, R>(
                    try_insert,
                    retry_if,
                    layer,
                    f,
                    length_frames,
                ),
            attempt > 0 ==> (last_error matches Some(error) && rejected_with::<T, E, F, R>(
                try_insert,
                retry_if,
                layer,
                (frame - 1) as usize,
                length_frames,
                error,
            )),
        decreases MAX_INSERT_ATTEMPTS - attempt,
    {
        match try_insert(layer, frame, length_frames) {
            Ok(value) => {
                return TimelineInsertResult::Inserted { frame, value };
            },
            Err(error) => {
                if !retry_if(&error) {
                    return TimelineInsertResult::Failed { frame, error };
                }
                assert(rejected_with::<T, E, F, R>(
                    try_insert,
                    retry_if,
                    layer,
                    frame,
                    length_frames,
                    error,
                ));
                assert(rejected::<T, E, F, R>(try_insert, retry_if, layer, frame, length_frames));
                last_error = Some(error);
                frame = match frame.checked_add(STEP_FRAMES) {
                    Some(next_frame) => next_frame,
                    None => {
                        return TimelineInsertResult::NotFound { last_error };
                    },
                };
            },
        }
        attempt = attempt + 1;
    }
    TimelineInsertResult::NotFound { last_error }
}

/// The insertion at `frame` always succeeds.
pub open spec fn always_free<T, E, F>(
    try_insert: F,
    layer: usize,
    frame: usize,
    length_frames: usize,
) -> bool where F: Fn(usize, usize, usize) -> Result<T, E> {
    forall|r: Result<T, E>| #[trigger]
        call_ensures(try_insert, (layer, frame, length_frames), r) ==> r is Ok
}

/// The insertion at `frame` always fails, with an error for which the answer to
/// whether it is worth another try is always `retry`.
pub open spec fn always_blocked<T, E, F, R>(
    try_insert: F,
    retry_if: R,
    layer: usize,
    frame: usize,
    length_frames: usize,
    retry: bool,
) -> bool where F: Fn(usize, usize, usize) -> Result<T, E>, R: Fn(&E) -> bool {
    &&& forall|r: Result<T, E>| #[trigger]
        call_ensures(try_insert, (layer, frame, length_frames), r) ==> r is Err
    &&& forall|error: E, answer: bool|
        call_ensures(try_insert, (layer, frame, length_frames), Err::<T, E>(error))
            && #[trigger] call_ensures(retry_if, (&error,), answer) ==> answer == retry
}

/// Where `blocked` frames from the wanted one on are occupied and the next one is
/// free, the object lands on the next one, as long as the search reaches it.
pub proof fn lands_behind_the_occupied_frames<T, E, F, R>(
    try_insert: F,
    retry_if: R,
    layer: usize,
    start_frame: usize,
    length_frames: usize,
    blocked: nat,
    result: TimelineInsertResult<T, E>,
) where F: Fn(usize, usize, usize) -> Result<T, E>, R: Fn(&E) -> bool
    requires
        search_outcome(try_insert, retry_if, layer, start_frame, length_frames, result),
        blocked < MAX_INSERT_ATTEMPTS,
        start_frame + blocked <= usize::MAX,
        forall|f: usize|
            start_frame <= f < start_frame + blocked ==> #[trigger] always_blocked::<T, E, F, R>(
                try_insert,
                retry_if,
                layer,
                f,
                length_frames,
                true,
            ),
        always_free::<T, E, F>(
            try_insert,
            layer,
            (start_frame + blocked) as usize,
            length_frames,
        ),
    ensures
        result matches TimelineInsertResult::Inserted { frame, .. } && frame == start_frame
            + blocked,
{
    let free = (start_frame + blocked) as usize;
    assert(!rejected::<T, E, F, R>(try_insert, retry_if, layer, free, length_frames));
    match result {
        TimelineInsertResult::Inserted { frame, value } => {
            if frame < free {
                assert(always_blocked::<T, E, F, R>(
                    try_insert,
                    retry_if,
                    layer,
                    frame,
                    length_frames,
                    true,
                ));
            }
        },
        TimelineInsertResult::Failed { frame, error } => {
            if frame < free {
                assert(always_blocked::<T, E, F, R>(
                    try_insert,
                    retry_if,
                    layer,
                    frame,
                    length_frames,
                    true,
                ));
            }
        },
        TimelineInsertResult::NotFound { last_error } => {},
    }
}

/// Where every frame that the search may try is occupied, nothing is inserted and
/// the error of the last try is kept.
pub proof fn gives_up_when_everything_is_occupied<T, E, F, R>(
    try_insert: F,
    retry_if: R,
    layer: usize,
    start_frame: usize,
    length_frames: usize,
    result: TimelineInsertResult<T, E>,
) where F: Fn(usize, usize, usize) -> Result<T, E>, R: Fn(&E) -> bool
    requires
        search_outcome(try_insert, retry_if, layer, start_frame, length_frames, result),
        forall|f: usize|
            start_frame <= f < search_end(start_frame) ==> #[trigger] always_blocked::<T, E, F, R>(
                try_insert,
                retry_if,
                layer,
                f,
                length_frames,
                true,
            ),
    ensures
        result matches TimelineInsertResult::NotFound { last_error } && last_error matches Some(
            error,
        ) && call_ensures(
            try_insert,
            (layer, (search_end(start_frame) - 1) as usize, length_frames),
            Err::<T, E>(error),
        ),
{
    match result {
        TimelineInsertResult::Inserted { frame, value } => {
            assert(always_blocked::<T, E, F, R>(
                try_insert,
                retry_if,
                layer,
                frame,
                length_frames,
                true,
            ));
        },
        TimelineInsertResult::Failed { frame, error } => {
            assert(always_blocked::<T, E, F, R>(
                try_insert,
                retry_if,
                layer,
                frame,
                length_frames,
                true,
            ));
        },
        TimelineInsertResult::NotFound { last_error } => {},
    }
}

/// An error that is not worth another try ends the search at the frame where it
/// comes: here behind `blocked` occupied frames.
pub proof fn stops_at_a_final_error<T, E, F, R>(
    try_insert: F,
    retry_if: R,
    layer: usize,
    start_frame: usize,
    length_frames: usize,
    blocked: nat,
    result: TimelineInsertResult<T, E>,
) where F: Fn(usize, usize, usize) -> Result<T, E>, R: Fn(&E) -> bool
    requires
        search_outcome(try_insert, retry_if, layer, start_frame, length_frames, result),
        blocked < MAX_INSERT_ATTEMPTS,
        start_frame + blocked <= usize::MAX,
        forall|f: usize|
            start_frame <= f < start_frame + blocked ==> #[trigger] always_blocked::<T, E, F, R>(
                try_insert,
                retry_if,
                layer,
                f,
                length_frames,
                true,
            ),
        always_blocked::<T, E, F, R>(
            try_insert,
            retry_if,
            layer,
            (start_frame + blocked) as usize,
            length_frames,
            false,
        ),
    ensures
        result matches TimelineInsertResult::Failed { frame, .. } && frame == start_frame + blocked,
{
    let last = (start_frame + blocked) as usize;
    assert(!rejected::<T, E, F, R>(try_insert, retry_if, layer, last, length_frames));
    match result {
        TimelineInsertResult::Inserted { frame, value } => {
            if frame < last {
                assert(always_blocked::<T, E, F, R>(
                    try_insert,
                    retry_if,
                    layer,
                    frame,
                    length_frames,
                    true,
                ));
            }
        },
        TimelineInsertResult::Failed { frame, error } => {
            if frame < last {
                assert(always_blocked::<T, E, F, R>(
                    try_insert,
                    retry_if,
                    layer,
                    frame,
                    length_frames,
                    true,
                ));
            }
        },
        TimelineInsertResult::NotFound { last_error } => {},
    }
}

/// The insertion at `frame` failed with an error that was judged worth another try.
pub open spec fn was_rejected<T, E, F, R>(
    try_insert: F,
    retry_if: R,
    layer: usize,
    frame: usize,
    length_frames: usize,
    error: E,
) -> bool where F: Fn(usize, usize, usize) -> Result<T, E>, R: Fn(&E) -> bool {
    &&& call_ensures(try_insert, (layer, frame, length_frames), Err::<T, E>(error))
    &&& call_ensures(retry_if, (&error,), true)
}

/// The insertion at `frame` failed with some error that was judged worth another try.
pub open spec fn was_tried_in_vain<T, E, F, R>(
    try_insert: F,
    retry_if: R,
    layer: usize,
    frame: usize,
    length_frames: usize,
) -> bool where F: Fn(usize, usize, usize) -> Result<T, E>, R: Fn(&E) -> bool {
    exists|error: E|
        was_rejected::<T, E, F, R>(try_insert, retry_if, layer, frame, length_frames, error)
}

/// Whatever a search comes to, it was decided at a frame no earlier than the wanted one
/// and less than 1,000 frames behind it, by an insertion with the layer and the length
/// that were given; every frame before was tried with them and rejected.
pub proof fn searches_end_where_they_were_decided<T, E, F, R>(
    layer: usize,
    start_frame: usize,
    length_frames: usize,
    try_insert: F,
    retry_if: R,
    result: TimelineInsertResult<T, E>,
) where F: Fn(usize, usize, usize) -> Result<T, E>, R: Fn(&E) -> bool
    requires
        call_ensures(
            insert_at_available_frame::<T, E, F, R>,
            (layer, start_frame, length_frames, try_insert, retry_if),
            result,
        ),
    ensures
        result matches TimelineInsertResult::Inserted { frame, value } ==> {
            &&& start_frame <= frame < start_frame + 1000
            &&& call_ensures(try_insert, (layer, frame, length_frames), Ok::<T, E>(value))
            &&& forall|f: usize|
                start_frame <= f < frame ==> #[trigger] was_tried_in_vain::<T, E, F, R>(
                    try_insert,
                    retry_if,
                    layer,
                    f,
                    length_frames,
                )
        },
        result matches TimelineInsertResult::Failed { frame, error } ==> {
            &&& start_frame <= frame < start_frame + 1000
            &&& call_ensures(try_insert, (layer, frame, length_frames), Err::<T, E>(error))
            &&& call_ensures(retry_if, (&error,), false)
            &&& forall|f: usize|
                start_frame <= f < frame ==> #[trigger] was_tried_in_vain::<T, E, F, R>(
                    try_insert,
                    retry_if,
                    layer,
                    f,
                    length_frames,
                )
        },
        result matches TimelineInsertResult::NotFound { last_error } ==> {
            let last = if start_frame + 999 <= usize::MAX {
                start_frame + 999
            } else {
                usize::MAX as int
            };
            &&& last_error is Some
            &&& was_rejected::<T, E, F, R>(
                try_insert,
                retry_if,
                layer,
                last as usize,
                length_frames,
                last_error->0,
            )
            &&& forall|f: usize|
                start_frame <= f <= last ==> #[trigger] was_tried_in_vain::<T, E, F, R>(
                    try_insert,
                    retry_if,
                    layer,
                    f,
                    length_frames,
                )
        },
{
    assert(search_outcome(try_insert, retry_if, layer, start_frame, length_frames, result));
    let end = match result {
        TimelineInsertResult::Inserted { frame, .. } => frame as int,
        TimelineInsertResult::Failed { frame, .. } => frame as int,
        TimelineInsertResult::NotFound { .. } => search_end(start_frame),
    };
    assert forall|f: usize| start_frame <= f < end implies #[trigger] was_tried_in_vain::<
        T,
        E,
        F,
        R,
    >(try_insert, retry_if, layer, f, length_frames) by {
        assert(rejected::<T, E, F, R>(try_insert, retry_if, layer, f, length_frames));
        let error = choose|error: E|
            rejected_with::<T, E, F, R>(try_insert, retry_if, layer, f, length_frames, error);
        assert(was_rejected::<T, E, F, R>(
            try_insert,
            retry_if,
            layer,
            f,
            length_frames,
            error,
        ));
    }
}

/// Where the insertion always gives the same answer at a frame, and so does the
/// judgement of its errors, a search lands on the first frame of the next 1,000 at which
/// the insertion succeeds, if all before it are judged worth another try.
pub proof fn searches_land_on_the_first_free_frame<T, E, F, R>(
    layer: usize,
    start_frame: usize,
    length_frames: usize,
    try_insert: F,
    retry_if: R,
    free: usize,
    result: TimelineInsertResult<T, E>,
) where F: Fn(usize, usize, usize) -> Result<T, E>, R: Fn(&E) -> bool
    requires
        call_ensures(
            insert_at_available_frame::<T, E, F, R>,
            (layer, start_frame, length_frames, try_insert, retry_if),
            result,
        ),
        start_frame <= free < start_frame + 1000,
        forall|f: usize, r: Result<T, E>|
            start_frame <= f < free && #[trigger] call_ensures(
                try_insert,
                (layer, f, length_frames),
                r,
            ) ==> r is Err,
        forall|r: Result<T, E>| #[trigger]
            call_ensures(try_insert, (layer, free, length_frames), r) ==> r is Ok,
        forall|error: E, answer: bool| #[trigger]
            call_ensures(retry_if, (&error,), answer) ==> answer,
    ensures
        result matches TimelineInsertResult::Inserted { frame, value } && frame == free
            && call_ensures(try_insert, (layer, free, length_frames), Ok::<T, E>(value)),
{
    assert(!rejected::<T, E, F, R>(try_insert, retry_if, layer, free, length_frames));
}

} // verus!
