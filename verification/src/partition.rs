//! How the nonce space is divided among workers.
//!
//! With `W` workers, worker `i` tests `i, i + W, i + 2W, ...`, starting at
//! nonce 0 for worker 0. Every nonce belongs to exactly one worker.

use vstd::arithmetic::div_mod::{
    lemma_fundamental_div_mod, lemma_mod_add_multiples_vanish, lemma_mod_decreases,
    lemma_mod_equivalence, lemma_mod_multiples_basic, lemma_small_mod,
};
use vstd::arithmetic::mul::lemma_mul_is_commutative;
use vstd::prelude::*;

verus! {

/// Whether `nonce` is a member of the sequence `starter, starter + stepsize,
/// starter + 2 * stepsize, ...`. With a step of zero the sequence has the
/// single member `starter`.
pub open spec fn in_sequence(starter: u64, stepsize: u64, nonce: u64) -> bool {
    nonce >= starter && if stepsize == 0 {
        nonce == starter
    } else {
        (nonce - starter) % (stepsize as int) == 0
    }
}

/// The `k`-th number of the sequence that starts at `starter` and advances by
/// `stepsize`, counted from zero.
pub open spec fn term(starter: u64, stepsize: u64, k: nat) -> int {
    starter + k * stepsize
}

/// The share of one worker: the first nonce it tests and the distance
/// between consecutive nonces.
#[derive(Clone, Copy, Debug, PartialEq, Eq, Structural)]
pub struct Assignment {
    pub starter: u64,
    pub stepsize: u64,
}

impl Assignment {
    /// Whether this worker's sequence contains `nonce`.
    pub open spec fn tests(self, nonce: u64) -> bool {
        in_sequence(self.starter, self.stepsize, nonce)
    }
}

/// The shares of `workers` workers: worker `i` starts at `i` and steps by
/// the number of workers.
pub open spec fn shares(workers: u64) -> Seq<Assignment> {
    Seq::new(workers as nat, |i: int| Assignment { starter: i as u64, stepsize: workers })
}

/// The members of a sequence are exactly its terms.
pub proof fn sequence_members(starter: u64, stepsize: u64, nonce: u64)
    ensures
        in_sequence(starter, stepsize, nonce) <==> exists|k: nat|
            nonce == #[trigger] term(starter, stepsize, k),
{
    if in_sequence(starter, stepsize, nonce) {
        if stepsize == 0 {
            assert(nonce == term(starter, stepsize, 0));
        } else {
            let d: int = nonce - starter;
            let k: nat = (d / (stepsize as int)) as nat;
            lemma_fundamental_div_mod(d, stepsize as int);
            lemma_mul_is_commutative(stepsize as int, d / (stepsize as int));
            assert(nonce == term(starter, stepsize, k));
        }
    }
    if exists|k: nat| nonce == #[trigger] term(starter, stepsize, k) {
        let k: nat = choose|k: nat| nonce == #[trigger] term(starter, stepsize, k);
        if stepsize == 0 {
            assert(k * stepsize == 0) by (nonlinear_arith)
                requires
                    stepsize == 0,
            ;
        } else {
            assert(k * stepsize >= 0) by (nonlinear_arith);
            lemma_mod_multiples_basic(k as int, stepsize as int);
        }
    }
}

/// A sequence begins with its starter.
pub proof fn starter_is_member(starter: u64, stepsize: u64)
    ensures
        in_sequence(starter, stepsize, starter),
{
    if stepsize > 0 {
        lemma_small_mod(0, stepsize as nat);
    }
}

/// One step on from a member of a sequence is a member again.
pub proof fn next_is_member(starter: u64, stepsize: u64, member: u64)
    requires
        in_sequence(starter, stepsize, member),
        member + stepsize <= u64::MAX,
    ensures
        in_sequence(starter, stepsize, (member + stepsize) as u64),
{
    if stepsize > 0 {
        lemma_mod_add_multiples_vanish(member - starter, stepsize as int);
    }
}

/// A nonce that follows a member of a sequence by less than one step is no
/// member of it.
pub proof fn no_member_within_step(starter: u64, stepsize: u64, member: u64, nonce: u64)
    requires
        in_sequence(starter, stepsize, member),
        member < nonce,
        nonce - member < stepsize,
    ensures
        !in_sequence(starter, stepsize, nonce),
{
    if in_sequence(starter, stepsize, nonce) {
        let m: int = stepsize as int;
        lemma_mod_equivalence(nonce as int, starter as int, m);
        lemma_mod_equivalence(member as int, starter as int, m);
        lemma_mod_equivalence(nonce as int, member as int, m);
        lemma_small_mod((nonce - member) as nat, stepsize as nat);
    }
}

/// Partition coverage: among `workers` workers, the one whose sequence
/// contains `nonce` is worker `nonce % workers`, and no other.
pub proof fn exactly_one_worker(workers: u64, nonce: u64)
    requires
        workers >= 1,
    ensures
        forall|i: int|
            0 <= i < workers ==> (#[trigger] shares(workers)[i].tests(nonce) <==> i == nonce
                % workers),
{
    assert forall|i: int| 0 <= i < workers implies (#[trigger] shares(workers)[i].tests(nonce)
        <==> i == nonce % workers) by {
        let share = shares(workers)[i];
        assert(share.starter == i && share.stepsize == workers);
        lemma_mod_equivalence(nonce as int, i, workers as int);
        lemma_small_mod(i as nat, workers as nat);
        lemma_mod_decreases(nonce as nat, workers as nat);
    }
}

/// Lays out the shares of `workers` workers.
///
/// Each nonce is tested by exactly one of them: by worker `nonce % workers`.
pub fn partition(workers: usize) -> (plan: Vec<Assignment>)
    ensures
        plan@ == shares(workers as u64),
        forall|nonce: u64, i: int|
            0 <= i < plan@.len() ==> (#[trigger] plan@[i].tests(nonce) <==> i == nonce % (
            workers as u64)),
{
    let stepsize: u64 = workers as u64;
    let mut plan: Vec<Assignment> = Vec::new();
    let mut index: u64 = 0;
    while index < stepsize
        invariant
            index <= stepsize,
            plan@ == shares(stepsize).subrange(0, index as int),
        decreases stepsize - index,
    {
        plan.push(Assignment { starter: index, stepsize });
        index += 1;
    }
    proof {
        assert(plan@ =~= shares(stepsize));
        assert forall|nonce: u64, i: int| 0 <= i < plan@.len() implies (
        #[trigger] plan@[i].tests(nonce) <==> i == nonce % (workers as u64)) by {
            exactly_one_worker(stepsize, nonce);
        }
    }
    plan
}

} // verus!
