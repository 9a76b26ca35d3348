//! Retry policy of the subsystem test tasks.
//!
//! Each subsystem test runs a remote script and scans its output for one
//! literal success marker; absence of the marker, script failure included,
//! counts as a failed attempt. Attempts repeat up to a per-subsystem
//! bound, with the entry shown as repairing between attempts. The
//! decisions are pure over the sequence of attempt outcomes.

use vstd::prelude::*;
use vstd::string::StringExecFns;
use crate::status::AppTestStatus;
use crate::text::{contains_seq, contains_sub};

verus! {

/// The two hardware variants the orchestrator distinguishes.
#[derive(Clone, Copy, Debug, PartialEq, Eq, Structural)]
pub enum HardwareType {
    /// The variant with the small OLED and no touch panel or knob.
    Atx,
    /// The desktop variant with touch panel and knob.
    Desk,
}

/// Whether a remote script's output carries the success marker.
pub fn check_marker(output: &[u8], marker: &[u8]) -> (r: bool)
    ensures
        r == contains_seq(output@, marker@),
{
    contains_sub(output, marker)
}

/// Which of several fault markers a script's output carries, pointwise.
pub fn scan_markers(output: &[u8], markers: &Vec<Vec<u8>>) -> (r: Vec<bool>)
    ensures
        r@.len() == markers@.len(),
        forall|i: int| 0 <= i < markers@.len() ==> r@[i] == contains_seq(output@, markers@[i]@),
{
    let mut found: Vec<bool> = Vec::new();
    let n: usize = markers.len();
    let mut i: usize = 0;
    while i < n
        invariant
            n == markers@.len(),
            0 <= i <= n,
            found@.len() == i,
            forall|j: int| 0 <= j < i ==> found@[j] == contains_seq(output@, markers@[j]@),
        decreases n - i,
    {
        found.push(contains_sub(output, markers[i].as_slice()));
        i = i + 1;
    }
    found
}

/// The first attempt, among the first `max` of the sequence, that
/// succeeded.
pub open spec fn first_success_within(outcomes: Seq<bool>, max: int, k: int) -> Option<int>
    decreases max - k,
{
    if k < 0 || k >= max || k >= outcomes.len() {
        None
    } else if outcomes[k] {
        Some(k)
    } else {
        first_success_within(outcomes, max, k + 1)
    }
}

/// Runs the bounded retry loop over a recorded sequence of attempt
/// outcomes: stop at the first success, give up after `max_retry`
/// attempts. Returns whether the test passed and how many attempts ran.
pub fn auto_test_with_retry(outcomes: &Vec<bool>, max_retry: usize) -> (r: (bool, usize))
    requires
        outcomes@.len() >= max_retry,
    ensures
        match first_success_within(outcomes@, max_retry as int, 0) {
            Some(i) => r.0 && r.1 == i + 1,
            None => !r.0 && r.1 == max_retry,
        },
{
    let mut i: usize = 0;
    while i < max_retry
        invariant
            outcomes@.len() >= max_retry,
            0 <= i <= max_retry,
            first_success_within(outcomes@, max_retry as int, 0) == first_success_within(
                outcomes@,
                max_retry as int,
                i as int,
            ),
        decreases max_retry - i,
    {
        if outcomes[i] {
            return (true, i + 1);
        }
        i = i + 1;
    }
    (false, max_retry)
}

/// The names of the faulty components, up to `k`, run together in order.
pub open spec fn fault_concat(names: Seq<Seq<char>>, faults: Seq<bool>, k: int) -> Seq<char>
    decreases k,
{
    if k <= 0 {
        Seq::empty()
    } else if faults[k - 1] {
        fault_concat(names, faults, k - 1) + names[k - 1]
    } else {
        fault_concat(names, faults, k - 1)
    }
}

/// Composes a defect line: the prefix followed by the name of every
/// component whose fault flag is set, in order.
pub fn compose_fault_report(prefix: &str, names: &Vec<String>, faults: &Vec<bool>) -> (r: String)
    requires
        names@.len() == faults@.len(),
    ensures
        r@ == prefix@ + fault_concat(
            names@.map_values(|s: String| s@),
            faults@,
            names@.len() as int,
        ),
{
    let ghost name_views = names@.map_values(|s: String| s@);
    let mut out = String::from_str(prefix);
    let n: usize = names.len();
    let mut i: usize = 0;
    proof {
        assert(prefix@ + fault_concat(name_views, faults@, 0) =~= prefix@);
    }
    while i < n
        invariant
            n == names@.len() == faults@.len(),
            0 <= i <= n,
            name_views == names@.map_values(|s: String| s@),
            out@ == prefix@ + fault_concat(name_views, faults@, i as int),
        decreases n - i,
    {
        if faults[i] {
            out.append(names[i].as_str());
            proof {
                assert(name_views[i as int] == names@[i as int]@);
                assert(prefix@ + fault_concat(name_views, faults@, i as int) + name_views[i as int]
                    =~= prefix@ + fault_concat(name_views, faults@, i + 1));
            }
        }
        i = i + 1;
    }
    out
}

/// The entry's status after one attempt: success ends the test, a failure
/// with attempts left shows as repairing, and exhaustion fails the entry.
pub fn retry_status(succeeded: bool, attempts_left: bool) -> (r: AppTestStatus)
    ensures
        r == if succeeded {
            AppTestStatus::Success
        } else if attempts_left {
            AppTestStatus::Repairing
        } else {
            AppTestStatus::Failed
        },
{
    if succeeded {
        AppTestStatus::Success
    } else if attempts_left {
        AppTestStatus::Repairing
    } else {
        AppTestStatus::Failed
    }
}

} // verus!
