//! Console protocol engine.
//!
//! The target's console offers no framing: only free text and prompts. The
//! one robust primitive is "wait until one of N substrings appears, or time
//! out", with an early bail-out when the link's density collapses during a
//! long wait. The engine is driven one poll at a time: each poll carries
//! the cleaned text received since the last one and the density read at
//! that moment. A finite poll sequence stands for everything observed up
//! to the deadline, so the same decision logic runs live (one step per
//! poll) and under test (a whole recorded sequence at once).

use vstd::prelude::*;
use crate::text::{contains_seq, contains_sub};
use crate::transport::TransportHandle;

verus! {

/// One observation of the console between two instants: the cleaned text
/// received (empty when nothing arrived) and the density at that moment.
pub struct ConsolePoll {
    /// Cleaned console text received by this poll.
    pub chunk: Vec<u8>,
    /// Data density over the activity window when the poll was taken.
    pub density: u64,
}

/// Outcome of waiting for one of several patterns.
#[derive(Clone, Copy, Debug, PartialEq, Eq, Structural)]
pub enum DetectOutcome {
    /// The pattern with this index (first in list order) appeared.
    Matched(usize),
    /// The deadline passed; data arrived but no pattern appeared.
    Unmatched,
    /// The deadline passed and no data ever arrived.
    NoData,
    /// The density fell below the floor before any pattern appeared.
    LowDensity,
}

/// Index of the first pattern, from `k` on, contained in `chunk`.
pub open spec fn first_match_from(patterns: Seq<Vec<u8>>, chunk: Seq<u8>, k: int) -> Option<int>
    decreases patterns.len() - k,
{
    if k < 0 || k >= patterns.len() {
        None
    } else if contains_seq(chunk, patterns[k]@) {
        Some(k)
    } else {
        first_match_from(patterns, chunk, k + 1)
    }
}

/// Index of the first pattern contained in `chunk`, if any.
pub open spec fn first_match(patterns: Seq<Vec<u8>>, chunk: Seq<u8>) -> Option<int> {
    first_match_from(patterns, chunk, 0)
}

/// What the wait returns for a poll sequence, given whether data was
/// already seen. Polls are consumed oldest first; the end of the sequence
/// is the deadline.
pub open spec fn detect_spec(
    patterns: Seq<Vec<u8>>,
    polls: Seq<ConsolePoll>,
    min_density: u64,
    has_data: bool,
) -> DetectOutcome
    decreases polls.len(),
{
    if polls.len() == 0 {
        if has_data {
            DetectOutcome::Unmatched
        } else {
            DetectOutcome::NoData
        }
    } else {
        let p = polls.first();
        if min_density != 0 && p.density < min_density {
            DetectOutcome::LowDensity
        } else if p.chunk@.len() > 0 {
            match first_match(patterns, p.chunk@) {
                Some(i) => DetectOutcome::Matched(i as usize),
                None => detect_spec(patterns, polls.drop_first(), min_density, true),
            }
        } else {
            detect_spec(patterns, polls.drop_first(), min_density, has_data)
        }
    }
}

/// What one poll decides: the wait either finishes or continues, knowing
/// whether data has been seen.
pub enum DetectStep {
    /// The wait is over with this outcome.
    Done(DetectOutcome),
    /// Keep polling; the payload records whether any data has arrived.
    Continue(bool),
}

/// One unfolding of the wait for a single poll. A raised shutdown flag
/// ends any wait at once with `Unmatched`, so shutdown takes bounded time.
pub open spec fn detect_step_spec(
    patterns: Seq<Vec<u8>>,
    min_density: u64,
    has_data: bool,
    poll: ConsolePoll,
    shutdown: bool,
) -> DetectStep {
    if shutdown {
        DetectStep::Done(DetectOutcome::Unmatched)
    } else if min_density != 0 && poll.density < min_density {
        DetectStep::Done(DetectOutcome::LowDensity)
    } else if poll.chunk@.len() > 0 {
        match first_match(patterns, poll.chunk@) {
            Some(i) => DetectStep::Done(DetectOutcome::Matched(i as usize)),
            None => DetectStep::Continue(true),
        }
    } else {
        DetectStep::Continue(has_data)
    }
}

/// Returns the index of the first pattern contained in `chunk`, if any.
pub fn find_first_match(patterns: &Vec<Vec<u8>>, chunk: &Vec<u8>) -> (r: Option<usize>)
    ensures
        match r {
            Some(i) => first_match(patterns@, chunk@) == Some(i as int),
            None => first_match(patterns@, chunk@) is None,
        },
{
    let n: usize = patterns.len();
    let mut k: usize = 0;
    while k < n
        invariant
            n == patterns@.len(),
            0 <= k <= n,
            first_match(patterns@, chunk@) == first_match_from(patterns@, chunk@, k as int),
        decreases n - k,
    {
        if contains_sub(chunk.as_slice(), patterns[k].as_slice()) {
            return Some(k);
        }
        k = k + 1;
    }
    None
}

/// Feeds one poll to the wait and reports whether it finishes; a raised
/// shutdown flag ends the wait at once.
pub fn detect_step(
    patterns: &Vec<Vec<u8>>,
    min_density: u64,
    has_data: bool,
    poll: &ConsolePoll,
    shutdown: bool,
) -> (r: DetectStep)
    ensures
        r == detect_step_spec(patterns@, min_density, has_data, *poll, shutdown),
{
    if shutdown {
        DetectStep::Done(DetectOutcome::Unmatched)
    } else if min_density != 0 && poll.density < min_density {
        DetectStep::Done(DetectOutcome::LowDensity)
    } else if poll.chunk.len() > 0 {
        match find_first_match(patterns, &poll.chunk) {
            Some(i) => DetectStep::Done(DetectOutcome::Matched(i)),
            None => DetectStep::Continue(true),
        }
    } else {
        DetectStep::Continue(has_data)
    }
}

/// Consuming one poll turns the wait over the whole sequence into the wait
/// over the rest.
pub proof fn lemma_detect_unfold(
    patterns: Seq<Vec<u8>>,
    polls: Seq<ConsolePoll>,
    min_density: u64,
    has_data: bool,
)
    requires
        polls.len() > 0,
    ensures
        detect_spec(patterns, polls, min_density, has_data) == match detect_step_spec(
            patterns,
            min_density,
            has_data,
            polls.first(),
            false,
        ) {
            DetectStep::Done(outcome) => outcome,
            DetectStep::Continue(hd) => detect_spec(patterns, polls.drop_first(), min_density, hd),
        },
{
}

/// Waits for one of `patterns` over a recorded poll sequence: the answer
/// the live loop would reach by feeding the same polls one at a time, with
/// the end of the sequence as the deadline.
pub fn detect_serial_string(
    patterns: &Vec<Vec<u8>>,
    polls: &Vec<ConsolePoll>,
    min_density: u64,
) -> (r: DetectOutcome)
    ensures
        r == detect_spec(patterns@, polls@, min_density, false),
{
    let n: usize = polls.len();
    let mut has_data = false;
    let mut i: usize = 0;
    proof {
        assert(polls@.skip(0) =~= polls@);
    }
    while i < n
        invariant
            n == polls@.len(),
            0 <= i <= n,
            detect_spec(patterns@, polls@, min_density, false) == detect_spec(
                patterns@,
                polls@.skip(i as int),
                min_density,
                has_data,
            ),
        decreases n - i,
    {
        proof {
            lemma_detect_unfold(patterns@, polls@.skip(i as int), min_density, has_data);
            assert(polls@.skip(i as int).first() == polls@[i as int]);
            assert(polls@.skip(i as int).drop_first() =~= polls@.skip(i + 1));
        }
        match detect_step(patterns, min_density, has_data, &polls[i], false) {
            DetectStep::Done(outcome) => {
                return outcome;
            },
            DetectStep::Continue(hd) => {
                has_data = hd;
            },
        }
        i = i + 1;
    }
    proof {
        assert(polls@.skip(n as int) =~= Seq::<ConsolePoll>::empty());
    }
    if has_data {
        DetectOutcome::Unmatched
    } else {
        DetectOutcome::NoData
    }
}

/// Sends `command` and waits for the one expected reply: true exactly when
/// the reply text appears before the deadline. The command is offered to
/// the outbound queue whatever the wait later observes.
pub fn execute_command_and_wait(
    transport: &mut TransportHandle,
    command: Vec<u8>,
    expected: Vec<u8>,
    polls: &Vec<ConsolePoll>,
) -> (r: bool)
    requires
        old(transport).well_formed(),
    ensures
        final(transport).well_formed(),
        final(transport).same_shape(old(transport)),
        final(transport).outbound() == if old(transport).outbound().len() < old(
            transport,
        ).outbound_capacity() {
            old(transport).outbound().push(command)
        } else {
            old(transport).outbound()
        },
        final(transport).inbound() == old(transport).inbound(),
        r == (detect_spec(seq![expected], polls@, 0, false) matches DetectOutcome::Matched(i)
            && i == 0),
{
    let ghost expected_snapshot = expected;
    let mut patterns: Vec<Vec<u8>> = Vec::new();
    patterns.push(expected);
    proof {
        assert(patterns@ =~= seq![expected_snapshot]);
    }
    let _ = transport.serial_send(command);
    let outcome = detect_serial_string(&patterns, polls, 0);
    match outcome {
        DetectOutcome::Matched(i) => i == 0,
        _ => false,
    }
}

/// No input at all gives `NoData`; input without a match gives
/// `Unmatched`; a match gives the first matching pattern. With no density
/// floor these three outcomes are mutually exclusive and exhaustive, and
/// each is pinned to its condition on the polls.
pub proof fn lemma_detect_trichotomy(patterns: Seq<Vec<u8>>, polls: Seq<ConsolePoll>)
    requires
        forall|j: int| 0 <= j < patterns.len() ==> patterns[j]@.len() > 0,
    ensures
        (detect_spec(patterns, polls, 0, false) == DetectOutcome::NoData) <==> (forall|k: int|
            0 <= k < polls.len() ==> polls[k].chunk@.len() == 0),
        (detect_spec(patterns, polls, 0, false) matches DetectOutcome::Matched(i)) <==> (exists|
            k: int,
            j: int,
        |
            {
                &&& 0 <= k < polls.len()
                &&& 0 <= j < patterns.len()
                &&& contains_seq(polls[k].chunk@, patterns[j]@)
            }),
        (detect_spec(patterns, polls, 0, false) == DetectOutcome::Unmatched) <==> ((exists|k: int|
            0 <= k < polls.len() && polls[k].chunk@.len() > 0) && (forall|k: int, j: int|
            0 <= k < polls.len() && 0 <= j < patterns.len() ==> !contains_seq(
                polls[k].chunk@,
                patterns[j]@,
            ))),
        detect_spec(patterns, polls, 0, false) != DetectOutcome::LowDensity,
{
    lemma_detect_classify(patterns, polls, false);
}

/// Helper induction for the trichotomy, tracking the has-data flag.
proof fn lemma_detect_classify(patterns: Seq<Vec<u8>>, polls: Seq<ConsolePoll>, has_data: bool)
    requires
        forall|j: int| 0 <= j < patterns.len() ==> patterns[j]@.len() > 0,
    ensures
        (detect_spec(patterns, polls, 0, has_data) == DetectOutcome::NoData) <==> (!has_data
            && forall|k: int| 0 <= k < polls.len() ==> polls[k].chunk@.len() == 0),
        (detect_spec(patterns, polls, 0, has_data) matches DetectOutcome::Matched(i)) <==> (exists|
            k: int,
            j: int,
        |
            {
                &&& 0 <= k < polls.len()
                &&& 0 <= j < patterns.len()
                &&& contains_seq(polls[k].chunk@, patterns[j]@)
            }),
        (detect_spec(patterns, polls, 0, has_data) == DetectOutcome::Unmatched) <==> ((has_data
            || exists|k: int| 0 <= k < polls.len() && polls[k].chunk@.len() > 0) && (forall|
            k: int,
            j: int,
        |
            0 <= k < polls.len() && 0 <= j < patterns.len() ==> !contains_seq(
                polls[k].chunk@,
                patterns[j]@,
            ))),
        detect_spec(patterns, polls, 0, has_data) != DetectOutcome::LowDensity,
    decreases polls.len(),
{
    if polls.len() == 0 {
    } else {
        let p = polls.first();
        let rest = polls.drop_first();
        lemma_first_match_characterization(patterns, p.chunk@, 0);
        assert(forall|k: int| 0 <= k < rest.len() ==> rest[k] == polls[k + 1]);
        assert(forall|k: int| 1 <= k < polls.len() ==> polls[k] == rest[k - 1]);
        if p.chunk@.len() > 0 {
            match first_match(patterns, p.chunk@) {
                Option::Some(i) => {
                    assert(contains_seq(polls[0].chunk@, patterns[i]@));
                },
                Option::None => {
                    lemma_detect_classify(patterns, rest, true);
                    lemma_exists_match_shift(patterns, polls);
                },
            }
        } else {
            assert forall|j: int| 0 <= j < patterns.len() implies !contains_seq(
                p.chunk@,
                patterns[j]@,
            ) by {
                assert(forall|i: int| !crate::text::is_match_at(p.chunk@, patterns[j]@, i));
            }
            lemma_detect_classify(patterns, rest, has_data);
            lemma_exists_match_shift(patterns, polls);
        }
    }
}

/// A matching poll exists beyond the first poll exactly when one exists in
/// the rest of the sequence; likewise for a non-empty chunk.
proof fn lemma_exists_match_shift(patterns: Seq<Vec<u8>>, polls: Seq<ConsolePoll>)
    requires
        polls.len() > 0,
    ensures
        (exists|k: int, j: int|
            {
                &&& 1 <= k < polls.len()
                &&& 0 <= j < patterns.len()
                &&& contains_seq(polls[k].chunk@, patterns[j]@)
            }) <==> (exists|k: int, j: int|
            {
                &&& 0 <= k < polls.drop_first().len()
                &&& 0 <= j < patterns.len()
                &&& contains_seq(polls.drop_first()[k].chunk@, patterns[j]@)
            }),
        (exists|k: int| 1 <= k < polls.len() && polls[k].chunk@.len() > 0) <==> (exists|k: int|
            0 <= k < polls.drop_first().len() && polls.drop_first()[k].chunk@.len() > 0),
{
    let rest = polls.drop_first();
    assert(forall|k: int| 0 <= k < rest.len() ==> rest[k] == polls[k + 1]);
    if exists|k: int, j: int|
        {
            &&& 1 <= k < polls.len()
            &&& 0 <= j < patterns.len()
            &&& contains_seq(polls[k].chunk@, patterns[j]@)
        } {
        let (k, j) = choose|k: int, j: int|
            {
                &&& 1 <= k < polls.len()
                &&& 0 <= j < patterns.len()
                &&& contains_seq(polls[k].chunk@, patterns[j]@)
            };
        assert(rest[k - 1] == polls[k]);
        assert(contains_seq(rest[k - 1].chunk@, patterns[j]@));
    }
    if exists|k: int, j: int|
        {
            &&& 0 <= k < rest.len()
            &&& 0 <= j < patterns.len()
            &&& contains_seq(rest[k].chunk@, patterns[j]@)
        } {
        let (k, j) = choose|k: int, j: int|
            {
                &&& 0 <= k < rest.len()
                &&& 0 <= j < patterns.len()
                &&& contains_seq(rest[k].chunk@, patterns[j]@)
            };
        assert(contains_seq(polls[k + 1].chunk@, patterns[j]@));
    }
    if exists|k: int| 1 <= k < polls.len() && polls[k].chunk@.len() > 0 {
        let k = choose|k: int| 1 <= k < polls.len() && polls[k].chunk@.len() > 0;
        assert(rest[k - 1].chunk@.len() > 0);
    }
    if exists|k: int| 0 <= k < rest.len() && rest[k].chunk@.len() > 0 {
        let k = choose|k: int| 0 <= k < rest.len() && rest[k].chunk@.len() > 0;
        assert(polls[k + 1].chunk@.len() > 0);
    }
}

/// `first_match_from` finds a pattern exactly when one is contained, and
/// then the first such index.
pub proof fn lemma_first_match_characterization(patterns: Seq<Vec<u8>>, chunk: Seq<u8>, k: int)
    requires
        0 <= k <= patterns.len(),
    ensures
        (first_match_from(patterns, chunk, k) is None) <==> (forall|j: int|
            k <= j < patterns.len() ==> !contains_seq(chunk, patterns[j]@)),
        first_match_from(patterns, chunk, k) matches Some(i) ==> k <= i < patterns.len()
            && contains_seq(chunk, patterns[i]@) && (forall|j: int|
            k <= j < i ==> !contains_seq(chunk, patterns[j]@)),
    decreases patterns.len() - k,
{
    if k < patterns.len() {
        lemma_first_match_characterization(patterns, chunk, k + 1);
    }
}

} // verus!
