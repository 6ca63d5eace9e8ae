//! Decisions of the screen-capture loop: frame pacing, what a capture error
//! leads to, and when the screen counts as black.

use vstd::prelude::*;

verus! {

/// Why a frame could not be captured.
#[derive(Debug)]
pub enum CaptureError {
    /// No new frame arrived in time.
    Timeout,
    /// The desktop duplication was lost and must be set up again.
    AccessLost,
    /// Any other failure, with its message.
    Other(String),
}

impl CaptureError {
    /// The message shown for the error.
    pub fn describe(&self) -> (r: String)
        ensures
            self matches CaptureError::Timeout ==> r@ == "프레임 타임아웃"@,
            self matches CaptureError::AccessLost ==> r@ == "Desktop Duplication 접근 손실"@,
            self matches CaptureError::Other(m) ==> r@ == m@,
    {
        match self {
            CaptureError::Timeout => "프레임 타임아웃".to_owned(),
            CaptureError::AccessLost => "Desktop Duplication 접근 손실".to_owned(),
            CaptureError::Other(m) => m.clone(),
        }
    }
}

/// Consecutive unexplained capture errors after which the capture is set
/// up again.
pub const ERRORS_BEFORE_REINIT: u32 = 30;

/// What the capture loop does after a failed capture.
#[derive(Debug, Clone, Copy, PartialEq, Eq, Structural)]
pub enum CaptureAction {
    /// Nothing: try again at the next frame.
    Wait,
    /// Pause a second, then set the capture up again.
    Reinitialize,
    /// Report the error; set the capture up again when `reinitialize`;
    /// then pause briefly.
    Report { reinitialize: bool },
}

/// The action and the new count of consecutive unexplained errors after a
/// capture error: a timeout changes nothing, a lost duplication is set up
/// again, and any other error is counted; the thirtieth in a row resets the
/// count and sets the capture up again.
pub open spec fn capture_error_response(err: CaptureError, consecutive: u32) -> (
    CaptureAction,
    u32,
) {
    match err {
        CaptureError::Timeout => (CaptureAction::Wait, consecutive),
        CaptureError::AccessLost => (CaptureAction::Reinitialize, consecutive),
        CaptureError::Other(_) => if consecutive + 1 >= ERRORS_BEFORE_REINIT {
            (CaptureAction::Report { reinitialize: true }, 0)
        } else {
            (CaptureAction::Report { reinitialize: false }, (consecutive + 1) as u32)
        },
    }
}

/// Decides what follows a capture error.
pub fn capture_error_step(err: &CaptureError, consecutive: u32) -> (r: (CaptureAction, u32))
    requires
        consecutive < ERRORS_BEFORE_REINIT,
    ensures
        r == capture_error_response(*err, consecutive),
        r.1 < ERRORS_BEFORE_REINIT,
{
    match err {
        CaptureError::Timeout => (CaptureAction::Wait, consecutive),
        CaptureError::AccessLost => (CaptureAction::Reinitialize, consecutive),
        CaptureError::Other(_) => {
            let count = consecutive + 1;
            if count >= ERRORS_BEFORE_REINIT {
                (CaptureAction::Report { reinitialize: true }, 0)
            } else {
                (CaptureAction::Report { reinitialize: false }, count)
            }
        },
    }
}

/// Milliseconds per frame at the configured rate, rounded down.
pub fn frame_interval_ms(fps: u32) -> (r: u64)
    requires
        fps > 0,
    ensures
        r == 1000int / (fps as int),
{
    1000 / fps as u64
}

/// One step of the black-screen detector: while the detector is off the
/// count is zero and the screen is not black; otherwise a black frame adds
/// one to the count (stopping at the largest count) and any other frame
/// resets it, and the screen is black once the count reaches the threshold.
pub open spec fn black_step(enabled: bool, count: u32, threshold: u32, frame_black: bool) -> (
    u32,
    bool,
) {
    if !enabled {
        (0, false)
    } else {
        let next: u32 = if frame_black {
            if count == u32::MAX {
                count
            } else {
                (count + 1) as u32
            }
        } else {
            0
        };
        (next, next >= threshold)
    }
}

/// Advances the black-screen detector by one frame; returns the new count of
/// consecutive black frames and whether the screen now counts as black.
pub fn track_black_screen(enabled: bool, count: u32, threshold: u32, frame_black: bool) -> (r: (
    u32,
    bool,
))
    ensures
        r == black_step(enabled, count, threshold, frame_black),
{
    if !enabled {
        return (0, false);
    }
    let next = if frame_black {
        count.saturating_add(1)
    } else {
        0
    };
    (next, next >= threshold)
}

/// The detector run from a count of zero over `n` frames that are all
/// black.
pub open spec fn black_run(enabled: bool, threshold: u32, n: nat) -> (u32, bool)
    decreases n,
{
    if n == 0 {
        (0, false)
    } else {
        let prev = black_run(enabled, threshold, (n - 1) as nat);
        black_step(enabled, prev.0, threshold, true)
    }
}

/// With the detector on, `n` black frames in a row from a fresh start leave
/// the count at `n` (or at the largest count), so the screen counts as black
/// exactly when `n` has reached the threshold. A frame that is not black
/// resets the count, and the screen is then black only for a threshold of
/// zero. With the detector off, the screen never counts as black.
pub proof fn law_black_screen_after_threshold(threshold: u32, n: nat, count: u32)
    requires
        n >= 1,
    ensures
        black_run(true, threshold, n).0 == if n <= u32::MAX {
            n
        } else {
            u32::MAX as nat
        },
        black_run(true, threshold, n).1 == (black_run(true, threshold, n).0 >= threshold),
        black_step(true, count, threshold, false) == (0u32, threshold == 0),
        !black_step(false, count, threshold, true).1,
    decreases n,
{
    if n > 1 {
        law_black_screen_after_threshold(threshold, (n - 1) as nat, count);
    } else {
        assert(black_run(true, threshold, 0) == (0u32, false));
    }
}

/// Only unexplained errors are counted: a timeout or a lost duplication
/// leaves the count as it was, and the capture is set up again after
/// exactly thirty unexplained errors in a row, which also starts the count
/// afresh.
pub proof fn law_reinitialize_after_thirty_errors(message: String, consecutive: u32)
    requires
        consecutive < ERRORS_BEFORE_REINIT,
    ensures
        capture_error_response(CaptureError::Timeout, consecutive).1 == consecutive,
        capture_error_response(CaptureError::AccessLost, consecutive).1 == consecutive,
        capture_error_response(CaptureError::Other(message), consecutive).0 == (CaptureAction::Report {
            reinitialize: consecutive + 1 == ERRORS_BEFORE_REINIT,
        }),
        capture_error_response(CaptureError::Other(message), consecutive).1 == if consecutive + 1
            == ERRORS_BEFORE_REINIT {
            0
        } else {
            consecutive + 1
        },
{
}

/// One successful capture as the black-screen detector sees it: whether the
/// detector was on, the threshold in force (the capture rate), and whether
/// every LED colour of the frame was black. Timeouts, errors and paused
/// periods do not reach the detector.
#[derive(Debug, Clone, Copy, PartialEq, Eq, Structural)]
pub struct CaptureSample {
    pub enabled: bool,
    pub threshold: u32,
    pub frame_black: bool,
}

/// The detector's count and flag after a history of successful captures,
/// starting from a count of zero.
pub open spec fn detector_after(history: Seq<CaptureSample>) -> (u32, bool)
    decreases history.len(),
{
    if history.len() == 0 {
        (0, false)
    } else {
        let last = history.last();
        let prev = detector_after(history.drop_last());
        black_step(last.enabled, prev.0, last.threshold, last.frame_black)
    }
}

/// Length of the run of black frames, taken with the detector on, that
/// ends the history.
pub open spec fn trailing_black_run(history: Seq<CaptureSample>) -> nat
    decreases history.len(),
{
    if history.len() == 0 {
        0
    } else if history.last().enabled && history.last().frame_black {
        1 + trailing_black_run(history.drop_last())
    } else {
        0
    }
}

/// The last `f` captures of the history were all black and taken with the
/// detector on.
pub open spec fn last_captures_black(history: Seq<CaptureSample>, f: nat) -> bool {
    f <= history.len() && forall|i: int|
        history.len() - f <= i < history.len() ==> (#[trigger] history[i]).enabled
            && history[i].frame_black
}

proof fn lemma_trailing_run(history: Seq<CaptureSample>, f: nat)
    ensures
        trailing_black_run(history) <= history.len(),
        last_captures_black(history, f) <==> f <= trailing_black_run(history),
    decreases history.len(),
{
    if history.len() > 0 {
        let prefix = history.drop_last();
        lemma_trailing_run(prefix, (f - 1) as nat);
        lemma_trailing_run(prefix, f);
        assert forall|i: int| 0 <= i < prefix.len() implies prefix[i] == history[i] by {}
        let last = history.last();
        if f > 0 {
            if last_captures_black(history, f) {
                assert(history[history.len() - 1] == last);
                assert forall|i: int| prefix.len() - (f - 1) <= i < prefix.len() implies (
                #[trigger] prefix[i]).enabled && prefix[i].frame_black by {
                    assert(prefix[i] == history[i]);
                }
            }
            if f <= trailing_black_run(history) {
                assert(last.enabled && last.frame_black);
                assert(last_captures_black(prefix, (f - 1) as nat));
                assert forall|i: int| history.len() - f <= i < history.len() implies (
                #[trigger] history[i]).enabled && history[i].frame_black by {
                    if i < history.len() - 1 {
                        assert(prefix[i] == history[i]);
                    }
                }
            }
        }
    }
}

proof fn lemma_detector_counts_run(history: Seq<CaptureSample>)
    ensures
        detector_after(history).0 == if trailing_black_run(history) <= u32::MAX {
            trailing_black_run(history)
        } else {
            u32::MAX as nat
        },
        history.len() > 0 ==> detector_after(history).1 == (history.last().enabled
            && detector_after(history).0 >= history.last().threshold),
    decreases history.len(),
{
    if history.len() > 0 {
        lemma_detector_counts_run(history.drop_last());
    }
}

/// Over any history of successful captures, the screen counts as black
/// exactly when the detector is on at the last capture and the last `F`
/// captures, `F` being the threshold then in force, were all black and all
/// taken with the detector on; with the detector off at the last capture the
/// screen never counts as black. The count kept is the length of that black
/// run, stopping at the largest count.
pub proof fn law_black_screen_over_any_history(history: Seq<CaptureSample>)
    requires
        history.len() > 0,
    ensures
        detector_after(history).1 == (history.last().enabled && last_captures_black(
            history,
            history.last().threshold as nat,
        )),
        !history.last().enabled ==> !detector_after(history).1,
        detector_after(history).0 == if trailing_black_run(history) <= u32::MAX {
            trailing_black_run(history)
        } else {
            u32::MAX as nat
        },
{
    lemma_detector_counts_run(history);
    lemma_trailing_run(history, history.last().threshold as nat);
}

/// What each capture error leads to, in numbers: a timeout waits and a lost
/// duplication is set up again, both leaving the count alone; any other
/// error adds one to the count, and the thirtieth in a row sets the capture
/// up again and starts the count afresh.
pub proof fn law_capture_errors_in_numbers(message: String, consecutive: u32)
    requires
        consecutive < 30,
    ensures
        capture_error_response(CaptureError::Timeout, consecutive) == (
            CaptureAction::Wait,
            consecutive,
        ),
        capture_error_response(CaptureError::AccessLost, consecutive) == (
            CaptureAction::Reinitialize,
            consecutive,
        ),
        consecutive < 29 ==> capture_error_response(CaptureError::Other(message), consecutive) == (
            CaptureAction::Report { reinitialize: false },
            (consecutive + 1) as u32,
        ),
        consecutive == 29 ==> capture_error_response(CaptureError::Other(message), consecutive) == (
            CaptureAction::Report { reinitialize: true },
            0u32,
        ),
{
}

} // verus!
