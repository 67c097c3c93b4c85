//! Tests of the timeline search.

use aviutl2_audio_rec::timeline_inserter::{
    insert_at_available_frame, TimelineInsertResult, MAX_INSERT_ATTEMPTS, STEP_FRAMES,
};

/// 最初の試行で挿入に成功した場合、目標フレームが返ることを確認する。
#[test]
fn test_insert_succeeds_at_first_attempt() {
    let result = insert_at_available_frame(
        0,
        100,
        60,
        |_layer, frame, _length| Ok::<usize, String>(frame),
        |_error| true,
    );
    match result {
        TimelineInsertResult::Inserted { frame, value } => {
            assert_eq!(frame, 100, "目標フレームで挿入されるはず");
            assert_eq!(value, 100);
        }
        TimelineInsertResult::NotFound { .. } => panic!("挿入は成功するはず"),
        TimelineInsertResult::Failed { .. } => panic!("挿入は成功するはず"),
    }
}

/// 目標フレームが占有されていて、1 フレーム後に挿入できる場合を確認する。
#[test]
fn test_insert_succeeds_after_one_skip() {
    let result = insert_at_available_frame(
        0,
        10,
        30,
        |_layer, frame, _length| {
            if frame == 10 {
                Err("occupied")
            } else {
                Ok(frame)
            }
        },
        |_error| true,
    );
    match result {
        TimelineInsertResult::Inserted { frame, .. } => {
            assert_eq!(frame, 11, "1 フレーム後に挿入されるはず");
        }
        TimelineInsertResult::NotFound { .. } => panic!("挿入は成功するはず"),
        TimelineInsertResult::Failed { .. } => panic!("挿入は成功するはず"),
    }
}

/// 複数フレームが連続して占有されていて、その後に挿入できる場合を確認する。
#[test]
fn test_insert_succeeds_after_multiple_skips() {
    let occupied_until = 15usize;
    let result = insert_at_available_frame(
        0,
        10,
        30,
        |_layer, frame, _length| {
            if frame <= occupied_until {
                Err("occupied")
            } else {
                Ok(frame)
            }
        },
        |_error| true,
    );
    match result {
        TimelineInsertResult::Inserted { frame, .. } => {
            assert_eq!(
                frame,
                occupied_until + 1,
                "占有終了直後のフレームに挿入されるはず"
            );
        }
        TimelineInsertResult::NotFound { .. } => panic!("挿入は成功するはず"),
        TimelineInsertResult::Failed { .. } => panic!("挿入は成功するはず"),
    }
}

/// 全試行が失敗した場合は `NotFound` が返ることを確認する。
#[test]
fn test_insert_not_found_after_max_attempts() {
    let result = insert_at_available_frame(
        0,
        0,
        60,
        |_layer, _frame, _length| Err::<(), &str>("always occupied"),
        |_error| true,
    );
    match result {
        TimelineInsertResult::NotFound { last_error } => {
            assert_eq!(last_error, Some("always occupied"));
        }
        TimelineInsertResult::Inserted { .. } => panic!("全試行失敗時は NotFound のはず"),
        TimelineInsertResult::Failed { .. } => panic!("全試行失敗時は NotFound のはず"),
    }
}

/// ちょうど最大試行回数の直前（最後の試行）で成功する場合を確認する。
#[test]
fn test_insert_succeeds_at_last_attempt() {
    // attempt = MAX_INSERT_ATTEMPTS - 1（0-indexed）で成功するケース
    // frame = start_frame + (MAX_INSERT_ATTEMPTS - 1) * STEP_FRAMES で成功する
    let threshold = MAX_INSERT_ATTEMPTS - 1;
    let start = 0usize;
    let result = insert_at_available_frame(
        0,
        start,
        1,
        |_layer, frame, _length| {
            if frame < start + threshold {
                Err("occupied")
            } else {
                Ok(frame)
            }
        },
        |_error| true,
    );
    match result {
        TimelineInsertResult::Inserted { frame, .. } => {
            assert_eq!(frame, start + threshold, "最後の試行で成功するはず");
        }
        TimelineInsertResult::NotFound { .. } => panic!("最後の試行で成功するはず"),
        TimelineInsertResult::Failed { .. } => panic!("最後の試行で成功するはず"),
    }
}

/// `MAX_INSERT_ATTEMPTS` 回ちょうど失敗すると `NotFound` になることを確認する。
///
/// threshold = MAX_INSERT_ATTEMPTS のとき: attempt 0..=MAX_INSERT_ATTEMPTS-1 で全て失敗し、
/// attempt MAX_INSERT_ATTEMPTS は実行されずに NotFound を返す。
#[test]
fn test_insert_fails_one_past_max_attempts() {
    let threshold = MAX_INSERT_ATTEMPTS; // MAX_INSERT_ATTEMPTS フレーム先まで全て占有
    let start = 0usize;
    let result = insert_at_available_frame(
        0,
        start,
        1,
        |_layer, frame, _length| {
            if frame < start + threshold {
                Err("occupied")
            } else {
                Ok(frame)
            }
        },
        |_error| true,
    );
    assert!(
        matches!(result, TimelineInsertResult::NotFound { .. }),
        "MAX_INSERT_ATTEMPTS 回全て失敗した場合は NotFound のはず"
    );
}

/// 再試行不能なエラーは即座に `Failed` を返すことを確認する。
#[test]
fn test_insert_fails_immediately_on_non_retryable_error() {
    let result = insert_at_available_frame(
        0,
        10,
        30,
        |_layer, _frame, _length| Err::<(), &str>("invalid alias"),
        |error| *error == "occupied",
    );
    match result {
        TimelineInsertResult::Failed { frame, error } => {
            assert_eq!(frame, 10, "最初のフレームで中断されるはず");
            assert_eq!(error, "invalid alias");
        }
        TimelineInsertResult::Inserted { .. } => panic!("Failed のはず"),
        TimelineInsertResult::NotFound { .. } => panic!("Failed のはず"),
    }
}

/// `NotFound` が最後の再試行エラーを保持することを確認する。
#[test]
fn test_insert_not_found_keeps_last_retryable_error() {
    let start = 7usize;
    let result = insert_at_available_frame(
        0,
        start,
        1,
        |_layer, frame, _length| Err::<(), String>(format!("occupied@{}", frame)),
        |_error| true,
    );

    match result {
        TimelineInsertResult::NotFound { last_error } => {
            let expected_frame = start + (MAX_INSERT_ATTEMPTS - 1) * STEP_FRAMES;
            assert_eq!(
                last_error,
                Some(format!("occupied@{}", expected_frame)),
                "最後に試行したフレームのエラーを保持するはず"
            );
        }
        TimelineInsertResult::Inserted { .. } => panic!("NotFound のはず"),
        TimelineInsertResult::Failed { .. } => panic!("NotFound のはず"),
    }
}

/// フレーム加算でオーバーフローした場合は `NotFound` で終了することを確認する。
#[test]
fn test_insert_not_found_when_frame_overflows() {
    let result = insert_at_available_frame(
        0,
        usize::MAX,
        1,
        |_layer, _frame, _length| Err::<(), &str>("occupied"),
        |_error| true,
    );
    match result {
        TimelineInsertResult::NotFound { last_error } => {
            assert_eq!(last_error, Some("occupied"));
        }
        TimelineInsertResult::Inserted { .. } => panic!("NotFound のはず"),
        TimelineInsertResult::Failed { .. } => panic!("NotFound のはず"),
    }
}

/// レイヤー番号がクロージャに正しく渡されることを確認する。
#[test]
fn test_correct_layer_passed_to_closure() {
    let result = insert_at_available_frame(
        3,
        0,
        10,
        |layer, frame, _length| Ok::<(usize, usize), String>((layer, frame)),
        |_error| true,
    );
    match result {
        TimelineInsertResult::Inserted {
            value: (layer, _), ..
        } => {
            assert_eq!(layer, 3, "レイヤー番号が正しく渡されるはず");
        }
        TimelineInsertResult::NotFound { .. } => panic!("挿入は成功するはず"),
        TimelineInsertResult::Failed { .. } => panic!("挿入は成功するはず"),
    }
}

/// オブジェクト長がクロージャに正しく渡されることを確認する。
#[test]
fn test_correct_length_passed_to_closure() {
    let expected_length = 120usize;
    let result = insert_at_available_frame(
        0,
        0,
        expected_length,
        |_layer, _frame, length| Ok::<usize, String>(length),
        |_error| true,
    );
    match result {
        TimelineInsertResult::Inserted { value: length, .. } => {
            assert_eq!(
                length, expected_length,
                "オブジェクト長が正しく渡されるはず"
            );
        }
        TimelineInsertResult::NotFound { .. } => panic!("挿入は成功するはず"),
        TimelineInsertResult::Failed { .. } => panic!("挿入は成功するはず"),
    }
}

/// 非ゼロの開始フレームから探索が始まることを確認する。
#[test]
fn test_nonzero_start_frame() {
    let result = insert_at_available_frame(
        0,
        500,
        60,
        |_layer, frame, _length| Ok::<usize, String>(frame),
        |_error| true,
    );
    match result {
        TimelineInsertResult::Inserted { frame, .. } => {
            assert_eq!(frame, 500, "指定した開始フレームから挿入されるはず");
        }
        TimelineInsertResult::NotFound { .. } => panic!("挿入は成功するはず"),
        TimelineInsertResult::Failed { .. } => panic!("挿入は成功するはず"),
    }
}

/// Searches from frame 16 of layer 1, with `blocked` frames from there on occupied.
fn search_from_16(blocked: usize) -> TimelineInsertResult<usize, String> {
    insert_at_available_frame(
        1,
        16,
        30,
        |layer, frame, _length| {
            assert_eq!(layer, 1);
            if frame < 16 + blocked {
                Err("api call failed".to_string())
            } else {
                Ok(frame)
            }
        },
        |error: &String| error.contains("api call failed"),
    )
}

/// An empty place is taken at once.
#[test]
fn lands_on_an_empty_place() {
    assert!(matches!(
        search_from_16(0),
        TimelineInsertResult::Inserted { frame: 16, value: 16 }
    ));
}

/// The object lands right behind what occupies the place.
#[test]
fn lands_right_behind_what_is_there() {
    assert!(matches!(search_from_16(1), TimelineInsertResult::Inserted { frame: 17, .. }));
    assert!(matches!(search_from_16(20), TimelineInsertResult::Inserted { frame: 36, .. }));
    assert!(matches!(
        search_from_16(MAX_INSERT_ATTEMPTS - 1),
        TimelineInsertResult::Inserted { frame: 1015, .. }
    ));
}

/// A place that is occupied beyond the limit is given up.
#[test]
fn gives_up_beyond_the_limit() {
    for blocked in [MAX_INSERT_ATTEMPTS, MAX_INSERT_ATTEMPTS + 1, 5_000] {
        assert!(matches!(
            search_from_16(blocked),
            TimelineInsertResult::NotFound { last_error: Some(_) }
        ));
    }
}

/// An error that is not worth another try ends a search behind occupied frames.
#[test]
fn final_error_behind_occupied_frames() {
    let result: TimelineInsertResult<(), String> = insert_at_available_frame(
        0,
        16,
        30,
        |_layer, frame, _length| {
            if frame < 20 {
                Err("occupied".to_string())
            } else {
                Err("invalid".to_string())
            }
        },
        |error: &String| error == "occupied",
    );
    assert!(matches!(
        result,
        TimelineInsertResult::Failed { frame: 20, error } if error == "invalid"
    ));
}
