//! The coordinator's side of a search: how many workers to start, and what
//! their reports make of the search.

use crate::trial::meets_target;
use crate::worker::Outcome;
use vstd::prelude::*;

verus! {

/// Asks `num_cpus::get` for the number of logical CPUs available to this
/// process.
///
/// Trusted, and nothing is claimed of the number: it depends on the machine
/// and on the limits set for the process.
#[verifier::external_body]
fn available_cpus() -> usize {
    num_cpus::get()
}

/// The number of workers for `available` execution units: one per unit, and
/// at least one.
pub open spec fn workers_for_units(available: usize) -> usize {
    if available == 0 {
        1
    } else {
        available
    }
}

/// Sizes the pool for `available` execution units.
pub fn workers_for(available: usize) -> (workers: usize)
    ensures
        workers == workers_for_units(available),
{
    if available == 0 {
        1
    } else {
        available
    }
}

/// Sizes the pool for this machine. There is always at least one worker.
pub fn worker_count() -> (workers: usize)
    ensures
        workers >= 1,
{
    workers_for(available_cpus())
}

/// The search as its coordinator sees it.
#[derive(Clone, Copy, Debug, PartialEq, Eq, Structural)]
pub enum SearchState {
    /// No worker has been started.
    Idle,
    /// Workers are running; `pending` of them have not reported yet.
    Searching { pending: usize },
    /// A worker found a nonce. The state is final.
    Completed { nonce: u64 },
    /// Every worker ended without a nonce. The state is final.
    Failed,
}

impl SearchState {
    /// The state after `workers` workers were started. Only an idle search
    /// starts; without a worker it fails at once.
    pub open spec fn started(self, workers: usize) -> SearchState {
        match self {
            SearchState::Idle => if workers == 0 {
                SearchState::Failed
            } else {
                SearchState::Searching { pending: workers }
            },
            _ => self,
        }
    }

    /// The state after one worker reported `outcome`.
    ///
    /// The first nonce found completes the search. A worker that ends
    /// without one is counted off, and the search fails when the last one
    /// does. Reports that arrive outside a running search are dropped.
    pub open spec fn after_report(self, outcome: Outcome) -> SearchState {
        match self {
            SearchState::Searching { pending } => match outcome {
                Outcome::Found(nonce) => SearchState::Completed { nonce },
                _ => if pending <= 1 {
                    SearchState::Failed
                } else {
                    SearchState::Searching { pending: (pending - 1) as usize }
                },
            },
            _ => self,
        }
    }

    /// The state after the reports `reports`, taken in order.
    pub open spec fn after_reports(self, reports: Seq<Outcome>) -> SearchState
        decreases reports.len(),
    {
        if reports.len() == 0 {
            self
        } else {
            self.after_reports(reports.drop_last()).after_report(reports.last())
        }
    }

    /// A search that has not begun.
    pub fn new() -> (state: SearchState)
        ensures
            state == SearchState::Idle,
    {
        SearchState::Idle
    }

    /// Records that `workers` workers were started.
    pub fn start(self, workers: usize) -> (state: SearchState)
        ensures
            state == self.started(workers),
    {
        match self {
            SearchState::Idle => {
                if workers == 0 {
                    SearchState::Failed
                } else {
                    SearchState::Searching { pending: workers }
                }
            },
            _ => self,
        }
    }

    /// Records the report of one worker.
    pub fn on_report(self, outcome: Outcome) -> (state: SearchState)
        ensures
            state == self.after_report(outcome),
    {
        match self {
            SearchState::Searching { pending } => match outcome {
                Outcome::Found(nonce) => SearchState::Completed { nonce },
                _ => {
                    if pending <= 1 {
                        SearchState::Failed
                    } else {
                        SearchState::Searching { pending: pending - 1 }
                    }
                },
            },
            _ => self,
        }
    }

    /// The winning nonce, once there is one. With it in hand the coordinator
    /// raises the cancellation flag and returns.
    pub fn winner(&self) -> (nonce: Option<u64>)
        ensures
            nonce == match *self {
                SearchState::Completed { nonce } => Some(nonce),
                _ => None::<u64>,
            },
    {
        match self {
            SearchState::Completed { nonce } => Some(*nonce),
            _ => None,
        }
    }
}

/// The nonce of the first report that found one.
pub open spec fn first_found(reports: Seq<Outcome>) -> Option<u64>
    decreases reports.len(),
{
    if reports.len() == 0 {
        None
    } else {
        match first_found(reports.drop_last()) {
            Some(nonce) => Some(nonce),
            None => match reports.last() {
                Outcome::Found(nonce) => Some(nonce),
                _ => None,
            },
        }
    }
}

/// A completed search is final: no later report changes the winner.
pub proof fn completed_is_final(nonce: u64, reports: Seq<Outcome>)
    ensures
        (SearchState::Completed { nonce }).after_reports(reports) == (SearchState::Completed {
            nonce,
        }),
    decreases reports.len(),
{
    if reports.len() > 0 {
        completed_is_final(nonce, reports.drop_last());
    }
}

/// A failed search is final.
pub proof fn failed_is_final(reports: Seq<Outcome>)
    ensures
        SearchState::Failed.after_reports(reports) == SearchState::Failed,
    decreases reports.len(),
{
    if reports.len() > 0 {
        failed_is_final(reports.drop_last());
    }
}

/// What the reports of the workers make of a search over `workers` workers:
/// the winner is the nonce of the first report that found one; without such
/// a report the search goes on until the last worker has reported, and then
/// fails.
pub proof fn first_report_wins(workers: usize, reports: Seq<Outcome>)
    requires
        workers >= 1,
        reports.len() <= workers,
    ensures
        SearchState::Idle.started(workers).after_reports(reports) == match first_found(reports) {
            Some(nonce) => SearchState::Completed { nonce },
            None => if reports.len() == workers {
                SearchState::Failed
            } else {
                SearchState::Searching { pending: (workers - reports.len()) as usize }
            },
        },
    decreases reports.len(),
{
    if reports.len() > 0 {
        first_report_wins(workers, reports.drop_last());
    }
}

/// The first nonce found was reported by some worker.
pub proof fn first_found_was_reported(reports: Seq<Outcome>)
    ensures
        match first_found(reports) {
            Some(nonce) => exists|i: int|
                0 <= i < reports.len() && #[trigger] reports[i] == Outcome::Found(nonce),
            None => forall|i: int| 0 <= i < reports.len() ==> !(#[trigger] reports[i] is Found),
        },
    decreases reports.len(),
{
    if reports.len() > 0 {
        let earlier = reports.drop_last();
        first_found_was_reported(earlier);
        match first_found(earlier) {
            Some(nonce) => {
                let i = choose|i: int|
                    0 <= i < earlier.len() && #[trigger] earlier[i] == Outcome::Found(nonce);
                assert(reports[i] == Outcome::Found(nonce));
            },
            None => {
                assert forall|i: int| 0 <= i < reports.len() - 1 implies !(
                #[trigger] reports[i] is Found) by {
                    assert(earlier[i] == reports[i]);
                }
                match reports.last() {
                    Outcome::Found(nonce) => {
                        assert(reports[reports.len() - 1] == Outcome::Found(nonce));
                    },
                    _ => {},
                }
            },
        }
    }
}

/// Whether a report is sound: a nonce that it gives as found meets the
/// target.
pub open spec fn sound_report(outcome: Outcome, target: u64, digest: Seq<u8>) -> bool {
    match outcome {
        Outcome::Found(nonce) => meets_target(nonce, digest, target),
        _ => true,
    }
}

/// Correctness of the search: when every report is sound, the winner meets
/// the target.
pub proof fn winner_meets_target(
    workers: usize,
    reports: Seq<Outcome>,
    target: u64,
    digest: Seq<u8>,
    winner: u64,
)
    requires
        forall|i: int| 0 <= i < reports.len() ==> sound_report(#[trigger] reports[i], target, digest),
        SearchState::Idle.started(workers).after_reports(reports) == (SearchState::Completed {
            nonce: winner,
        }),
    ensures
        meets_target(winner, digest, target),
    decreases reports.len(),
{
    if reports.len() == 0 {
    } else {
        let earlier = reports.drop_last();
        let before = SearchState::Idle.started(workers).after_reports(earlier);
        assert forall|i: int| 0 <= i < earlier.len() implies sound_report(
            #[trigger] earlier[i],
            target,
            digest,
        ) by {
            assert(reports[i] == earlier[i]);
        }
        match before {
            SearchState::Completed { nonce } => {
                winner_meets_target(workers, earlier, target, digest, nonce);
            },
            SearchState::Searching { pending } => {
                assert(sound_report(reports[reports.len() - 1], target, digest));
            },
            _ => {},
        }
    }
}

} // verus!
