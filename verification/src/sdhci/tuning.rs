//! Software tuning of the receive delay line.
//!
//! Every delay code is tried once. The longest run of codes that pass is the
//! window, and the code in its middle is the one to use.

use vstd::prelude::*;

verus! {

/// Highest receive delay code.
pub const RX_DELAY_CODE_MAX: u8 = 0xff;

/// Passing codes in a row that make a window reliable.
pub const DEFAULT_TUNING_WINDOW_LIMIT: u16 = 50;

/// The longest run of passing delay codes.
#[derive(Clone, Copy, Debug, PartialEq, Eq, Structural)]
pub struct TuningWindowScan {
    /// How many codes it has.
    pub max_windows: u16,
    /// Its last code.
    pub max_delay: u8,
}

/// A range of delay codes that all pass.
#[derive(Clone, Copy, Debug, PartialEq, Eq, Structural)]
pub struct TuningWindow {
    pub min_delay: u8,
    pub max_delay: u8,
}

/// How many codes in a row pass up to `end`, that one included.
pub open spec fn run_ending(results: Seq<bool>, end: int) -> nat
    decreases end + 1,
{
    if end < 0 || !results[end] {
        0
    } else {
        1 + run_ending(results, end - 1)
    }
}

/// `scan` is the first of the longest runs; 0 codes up to code 0 if none passes.
pub open spec fn longest_run(results: Seq<bool>, scan: TuningWindowScan) -> bool {
    &&& forall|end: int| 0 <= end < results.len() ==> #[trigger] run_ending(results, end) <= scan.max_windows
    &&& forall|end: int|
        0 <= end < scan.max_delay ==> #[trigger] run_ending(results, end) < scan.max_windows
    &&& if scan.max_windows == 0 {
        scan.max_delay == 0
    } else {
        scan.max_delay < results.len() && run_ending(results, scan.max_delay as int)
            == scan.max_windows
    }
}

/// Some results of trying every code with `test_fn` have `scan` as their
/// longest run.
pub open spec fn scanned<F: FnMut(u8) -> bool>(test_fn: F, scan: TuningWindowScan) -> bool {
    exists|results: Seq<bool>| #[trigger]
        possible_results(test_fn, results) && results.len() == RX_DELAY_CODE_MAX + 1
            && longest_run(results, scan)
}

/// `test_fn` can return these results for the codes from 0 on.
pub open spec fn possible_results<F: FnMut(u8) -> bool>(test_fn: F, results: Seq<bool>) -> bool {
    forall|delay: u8|
        delay < results.len() ==> #[trigger] call_ensures(test_fn, (delay,), results[delay as int])
}

/// The first of the longest runs in the results of the codes from 0 on.
pub fn longest(results: &Vec<bool>) -> (scan: TuningWindowScan)
    requires
        results.len() <= RX_DELAY_CODE_MAX + 1,
    ensures
        longest_run(results@, scan),
{
    let mut max_windows: u16 = 0;
    let mut cur_windows: u16 = 0;
    let mut max_delay: u8 = 0;
    for i in 0..results.len()
        invariant
            results.len() <= RX_DELAY_CODE_MAX + 1,
            cur_windows == run_ending(results@, i - 1),
            cur_windows <= i,
            max_windows <= i,
            forall|end: int| 0 <= end < i ==> #[trigger] run_ending(results@, end) <= max_windows,
            forall|end: int|
                0 <= end < max_delay ==> #[trigger] run_ending(results@, end) < max_windows,
            if max_windows == 0 {
                max_delay == 0
            } else {
                max_delay < i && run_ending(results@, max_delay as int) == max_windows
            },
    {
        if results[i] {
            cur_windows = cur_windows + 1;
            if cur_windows > max_windows {
                max_windows = cur_windows;
                max_delay = i as u8;
            }
        } else {
            cur_windows = 0;
        }
    }
    TuningWindowScan { max_windows, max_delay }
}

/// Tries every delay code in turn with `test_fn`, and returns the first of the
/// longest runs of codes that passed.
pub fn scan_tuning_windows<F>(test_fn: &mut F) -> (scan: TuningWindowScan) where
    F: FnMut(u8) -> bool,

    requires
        forall|delay: u8| call_requires(*old(test_fn), (delay,)),
    ensures
        scanned(*old(test_fn), scan),
{
    let ghost test = *test_fn;
    let mut results: Vec<bool> = Vec::new();
    for i in 0..RX_DELAY_CODE_MAX as u16 + 1
        invariant
            *test_fn == test,
            forall|delay: u8| call_requires(test, (delay,)),
            results.len() == i,
            possible_results(test, results@),
    {
        let pass: bool = test_fn(i as u8);
        results.push(pass);
    }
    longest(&results)
}

/// The range that a run covers, or `None` if it has fewer codes than
/// `window_limit`.
pub open spec fn window_of(scan: TuningWindowScan, window_limit: u16) -> Option<TuningWindow> {
    if scan.max_windows < window_limit {
        None
    } else {
        let before_last = if scan.max_windows == 0 {
            0
        } else {
            (scan.max_windows - 1) % 256
        };
        Some(
            TuningWindow {
                min_delay: if before_last <= scan.max_delay {
                    (scan.max_delay - before_last) as u8
                } else {
                    0
                },
                max_delay: scan.max_delay,
            },
        )
    }
}

/// Turns a run into a range, if it is long enough to be reliable.
pub fn select_tuning_window(scan: TuningWindowScan, window_limit: u16) -> (window: Option<
    TuningWindow,
>)
    ensures
        window == window_of(scan, window_limit),
{
    if scan.max_windows < window_limit {
        return None;
    }
    let before_last: u8 = (scan.max_windows.saturating_sub(1) % 256) as u8;
    let min_delay: u8 = scan.max_delay.saturating_sub(before_last);
    Some(TuningWindow { min_delay, max_delay: scan.max_delay })
}

/// A run is no longer than the codes up to its end, and each of its codes passed.
pub proof fn lemma_run_passes(results: Seq<bool>, end: int)
    requires
        end < results.len(),
    ensures
        run_ending(results, end) <= end + 1 || end < 0,
        forall|code: int|
            0 <= code <= end && end - run_ending(results, end) < code ==> #[trigger] results[code],
    decreases end + 1,
{
    if end >= 0 && results[end] {
        lemma_run_passes(results, end - 1);
        assert forall|code: int|
            0 <= code <= end && end - run_ending(results, end) < code implies #[trigger] results[code] by {
            if code < end {
                assert(end - 1 - run_ending(results, end - 1) < code);
            }
        }
    }
}

/// Every code of a selected window passed, and the window has as many codes as
/// the run.
pub proof fn law_selected_window_passes(
    results: Seq<bool>,
    scan: TuningWindowScan,
    window_limit: u16,
)
    requires
        results.len() <= RX_DELAY_CODE_MAX + 1,
        longest_run(results, scan),
        0 < window_limit <= scan.max_windows,
    ensures
        window_of(scan, window_limit) matches Some(window) && {
            &&& window.max_delay - window.min_delay + 1 == scan.max_windows
            &&& forall|code: int|
                window.min_delay <= code <= window.max_delay ==> #[trigger] results[code]
        },
{
    lemma_run_passes(results, scan.max_delay as int);
}

/// A window is refused exactly if no run of passing codes is long enough.
pub proof fn law_refused_only_if_no_run_is_long_enough(
    results: Seq<bool>,
    scan: TuningWindowScan,
    window_limit: u16,
)
    requires
        longest_run(results, scan),
        0 < window_limit,
    ensures
        window_of(scan, window_limit) is None <==> forall|end: int|
            0 <= end < results.len() ==> #[trigger] run_ending(results, end) < window_limit,
{
    if scan.max_windows >= window_limit {
        assert(run_ending(results, scan.max_delay as int) >= window_limit);
    }
}

} // verus!
