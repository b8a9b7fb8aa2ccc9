//! One worker of the search: a walk along its sequence of nonces until a
//! nonce meets the target, the walk is cancelled, or the 64-bit nonce space
//! ends.

use crate::partition::{in_sequence, next_is_member, no_member_within_step, starter_is_member};
use crate::trial::{hash_nonce, meets_target, trial_value};
use std::sync::atomic::AtomicBool;
use std::sync::atomic::Ordering;
use vstd::prelude::*;

verus! {

/// How a worker ended.
#[derive(Clone, Copy, Debug, PartialEq, Eq, Structural)]
pub enum Outcome {
    /// The nonce meets the target.
    Found(u64),
    /// The worker saw the cancellation flag set and contributes nothing.
    Cancelled,
    /// Every nonce of the worker's sequence was tested and none meets the
    /// target.
    Exhausted,
}

/// What a worker learns in one iteration.
#[derive(Clone, Copy, Debug, PartialEq, Eq, Structural)]
pub enum Observation {
    /// The cancellation flag was set; no trial was made.
    StopRequested,
    /// The flag was clear, and the nonce under test has this trial value.
    Trial(u64),
}

/// What a worker does after an iteration.
#[derive(Clone, Copy, Debug, PartialEq, Eq, Structural)]
pub enum Step {
    /// Keep running, with this nonce next.
    Continue(u64),
    /// Stop with this outcome.
    Done(Outcome),
}

/// The step that follows when a worker at `nonce` makes the observation
/// `seen`.
///
/// A set flag ends the worker before any further trial. A trial value at or
/// below the target ends it with the nonce found; a trial value equal to the
/// target is accepted. Otherwise the worker moves one step on, or ends
/// exhausted when its sequence has no further 64-bit member.
pub open spec fn step_after(nonce: u64, stepsize: u64, target: u64, seen: Observation) -> Step {
    match seen {
        Observation::StopRequested => Step::Done(Outcome::Cancelled),
        Observation::Trial(trial) => if trial <= target {
            Step::Done(Outcome::Found(nonce))
        } else if stepsize == 0 || nonce + stepsize > u64::MAX {
            Step::Done(Outcome::Exhausted)
        } else {
            Step::Continue((nonce + stepsize) as u64)
        },
    }
}

/// Whether `nonce` is the first member of the sequence that meets the
/// target.
pub open spec fn first_hit(
    target: u64,
    digest: Seq<u8>,
    starter: u64,
    stepsize: u64,
    nonce: u64,
) -> bool {
    &&& in_sequence(starter, stepsize, nonce)
    &&& meets_target(nonce, digest, target)
    &&& forall|earlier: u64|
        earlier < nonce && #[trigger] in_sequence(starter, stepsize, earlier) ==> !meets_target(
            earlier,
            digest,
            target,
        )
}

/// Whether no member of the sequence meets the target.
pub open spec fn no_hit(target: u64, digest: Seq<u8>, starter: u64, stepsize: u64) -> bool {
    forall|nonce: u64| #[trigger]
        in_sequence(starter, stepsize, nonce) ==> !meets_target(nonce, digest, target)
}

/// Decides a worker's step from what it observed at `nonce`.
pub fn advance(nonce: u64, stepsize: u64, target: u64, seen: Observation) -> (step: Step)
    ensures
        step == step_after(nonce, stepsize, target, seen),
{
    match seen {
        Observation::StopRequested => Step::Done(Outcome::Cancelled),
        Observation::Trial(trial) => {
            if trial <= target {
                Step::Done(Outcome::Found(nonce))
            } else if stepsize == 0 {
                Step::Done(Outcome::Exhausted)
            } else {
                match nonce.checked_add(stepsize) {
                    Some(next) => Step::Continue(next),
                    None => Step::Done(Outcome::Exhausted),
                }
            }
        },
    }
}

/// What a worker at `nonce` observes when it has read the cancellation flag
/// as `stop_requested`: the request to stop, or else the trial value of the
/// nonce.
pub open spec fn observed(nonce: u64, digest: Seq<u8>, stop_requested: bool) -> Observation {
    if stop_requested {
        Observation::StopRequested
    } else {
        Observation::Trial(trial_value(nonce, digest) as u64)
    }
}

/// Carries out one iteration of a worker at `nonce`, given what it has just
/// read from the cancellation flag.
///
/// With the flag read as set no trial is made and the worker ends cancelled.
/// With the flag read as clear the nonce is tried, and the worker ends with
/// it if it meets the target, moves one step on if not, or ends exhausted
/// when there is no further nonce to move to.
pub fn next_step(
    target: u64,
    hash: &[u8; 64],
    nonce: u64,
    stepsize: u64,
    stop_requested: bool,
) -> (step: Step)
    ensures
        step == step_after(nonce, stepsize, target, observed(nonce, hash@, stop_requested)),
{
    let seen = if stop_requested {
        Observation::StopRequested
    } else {
        Observation::Trial(hash_nonce(nonce, hash))
    };
    advance(nonce, stepsize, target, seen)
}

/// Runs one worker: tests `starter`, `starter + stepsize`, `starter + 2 *
/// stepsize`, ... in order against `target`, reading the cancellation flag
/// before every trial.
///
/// A found nonce is the first of the sequence that meets the target. The
/// worker ends exhausted only when no member of its sequence does. When the
/// flag is seen set the worker ends cancelled, whatever it had tested.
pub fn bmpow(
    target: u64,
    hash: &[u8; 64],
    starter: u64,
    stepsize: u64,
    cancelled: &AtomicBool,
) -> (outcome: Outcome)
    ensures
        match outcome {
            Outcome::Found(nonce) => first_hit(target, hash@, starter, stepsize, nonce),
            Outcome::Exhausted => no_hit(target, hash@, starter, stepsize),
            Outcome::Cancelled => true,
        },
{
    let mut nonce: u64 = starter;
    proof {
        starter_is_member(starter, stepsize);
    }
    loop
        invariant
            in_sequence(starter, stepsize, nonce),
            forall|earlier: u64|
                earlier < nonce && #[trigger] in_sequence(starter, stepsize, earlier)
                    ==> !meets_target(earlier, hash@, target),
        decreases u64::MAX - nonce,
    {
        let stop_requested = cancelled.load(Ordering::Relaxed);
        match next_step(target, hash, nonce, stepsize, stop_requested) {
            Step::Continue(next) => {
                proof {
                    assert forall|earlier: u64|
                        earlier < next && #[trigger] in_sequence(
                            starter,
                            stepsize,
                            earlier,
                        ) implies !meets_target(earlier, hash@, target) by {
                        if earlier > nonce {
                            no_member_within_step(starter, stepsize, nonce, earlier);
                        }
                    }
                    next_is_member(starter, stepsize, nonce);
                }
                nonce = next;
            },
            Step::Done(outcome) => {
                proof {
                    if outcome == Outcome::Exhausted {
                        assert forall|later: u64| #[trigger]
                            in_sequence(starter, stepsize, later) implies !meets_target(
                            later,
                            hash@,
                            target,
                        ) by {
                            if later > nonce && stepsize > 0 {
                                no_member_within_step(starter, stepsize, nonce, later);
                            }
                        }
                    }
                }
                return outcome;
            },
        }
    }
}

/// A worker only moves forward: the nonce it continues with lies exactly one
/// step, and at least one nonce, after the one it tested.
pub proof fn continue_moves_forward(nonce: u64, stepsize: u64, target: u64, seen: Observation)
    ensures
        step_after(nonce, stepsize, target, seen) matches Step::Continue(next) ==> next == nonce
            + stepsize && next > nonce,
{
}

/// Whether `nonce` is the least of all nonces that meet the target: the one
/// that a scan of 0, 1, 2, ... reaches first.
pub open spec fn least_hit(target: u64, digest: Seq<u8>, nonce: u64) -> bool {
    &&& meets_target(nonce, digest, target)
    &&& forall|earlier: u64|
        earlier < nonce ==> !#[trigger] meets_target(earlier, digest, target)
}

/// A sequence has at most one first hit.
pub proof fn first_hit_is_unique(
    target: u64,
    digest: Seq<u8>,
    starter: u64,
    stepsize: u64,
    a: u64,
    b: u64,
)
    requires
        first_hit(target, digest, starter, stepsize, a),
        first_hit(target, digest, starter, stepsize, b),
    ensures
        a == b,
{
}

/// A single worker scans linearly: with one worker, which starts at 0 and
/// steps by 1, the first hit is the least nonce that meets the target.
pub proof fn single_worker_scans_linearly(target: u64, digest: Seq<u8>, nonce: u64)
    ensures
        first_hit(target, digest, 0, 1, nonce) <==> least_hit(target, digest, nonce),
{
    assert forall|n: u64| #[trigger] in_sequence(0, 1, n) by {}
    if first_hit(target, digest, 0, 1, nonce) {
        assert forall|earlier: u64| earlier < nonce implies !#[trigger] meets_target(
            earlier,
            digest,
            target,
        ) by {
            assert(in_sequence(0, 1, earlier));
        }
    }
}

/// The largest target accepts everything: the first hit under it is the
/// starter itself.
pub proof fn largest_target_finds_starter(digest: Seq<u8>, starter: u64, stepsize: u64)
    ensures
        first_hit(u64::MAX, digest, starter, stepsize, starter),
{
    starter_is_member(starter, stepsize);
}

/// A nonce that meets a target meets every larger one.
pub proof fn looser_target_accepts(nonce: u64, digest: Seq<u8>, tighter: u64, looser: u64)
    requires
        tighter <= looser,
        meets_target(nonce, digest, tighter),
    ensures
        meets_target(nonce, digest, looser),
{
}

/// Difficulty is monotonic: along one sequence, the first hit under a
/// tighter target comes no earlier than the first hit under a looser one.
pub proof fn tighter_target_hits_no_earlier(
    digest: Seq<u8>,
    starter: u64,
    stepsize: u64,
    tighter: u64,
    looser: u64,
    hit_tighter: u64,
    hit_looser: u64,
)
    requires
        tighter <= looser,
        first_hit(tighter, digest, starter, stepsize, hit_tighter),
        first_hit(looser, digest, starter, stepsize, hit_looser),
    ensures
        hit_looser <= hit_tighter,
{
}

} // verus!
