//! A model of the worker pool's job accounting. The pool itself —
//! threads blocking on a shared queue — lives in the surrounding
//! glue, which Verus cannot check; what can be checked is its
//! contract: every submitted job is executed exactly once, none
//! dropped, none duplicated. This module states the pool's
//! transitions over multisets of job identities and proves that the
//! contract holds in every reachable state.
use vstd::prelude::*;
use vstd::multiset::Multiset;

verus! {

broadcast use vstd::multiset::group_multiset_axioms;

/// Where the pool's jobs stand: submitted is everything `Submit` ever
/// accepted; a job then waits in the queue, runs on exactly one
/// worker, and is done.
pub ghost struct PoolState {
    pub submitted: Multiset<nat>,
    pub queued: Multiset<nat>,
    pub running: Multiset<nat>,
    pub done: Multiset<nat>,
}

/// The accounting invariant: every submitted job is in exactly one of
/// queued, running, done — and nothing is there that was not
/// submitted.
pub open spec fn pool_inv(s: PoolState) -> bool {
    s.submitted =~= s.queued.add(s.running).add(s.done)
}

/// The pool before any job: all empty.
pub open spec fn pool_init(s: PoolState) -> bool {
    &&& s.submitted =~= Multiset::<nat>::empty()
    &&& s.queued =~= Multiset::<nat>::empty()
    &&& s.running =~= Multiset::<nat>::empty()
    &&& s.done =~= Multiset::<nat>::empty()
}

/// `Submit` enqueues a job without blocking: it joins the queue, and
/// nothing else moves.
pub open spec fn submit(pre: PoolState, post: PoolState, j: nat) -> bool {
    &&& post.submitted =~= pre.submitted.insert(j)
    &&& post.queued =~= pre.queued.insert(j)
    &&& post.running =~= pre.running
    &&& post.done =~= pre.done
}

/// An idle worker takes one queued job; the queue hands each job to
/// exactly one worker.
pub open spec fn take(pre: PoolState, post: PoolState, j: nat) -> bool {
    &&& pre.queued.count(j) > 0
    &&& post.submitted =~= pre.submitted
    &&& post.queued =~= pre.queued.remove(j)
    &&& post.running =~= pre.running.insert(j)
    &&& post.done =~= pre.done
}

/// A worker finishes the job it runs — whether the job succeeded or
/// failed, the worker survives and the job counts as executed.
pub open spec fn finish(pre: PoolState, post: PoolState, j: nat) -> bool {
    &&& pre.running.count(j) > 0
    &&& post.submitted =~= pre.submitted
    &&& post.queued =~= pre.queued
    &&& post.running =~= pre.running.remove(j)
    &&& post.done =~= pre.done.insert(j)
}

/// Any one step of the pool: a submission, a hand-off to a worker,
/// or a completion.
pub open spec fn pool_next(pre: PoolState, post: PoolState) -> bool {
    exists|j: nat|
        #![auto]
        submit(pre, post, j) || take(pre, post, j) || finish(pre, post, j)
}

/// Every step of the pool preserves the accounting invariant, so it
/// holds in every reachable state.
pub proof fn lemma_next_inv(pre: PoolState, post: PoolState)
    requires
        pool_inv(pre),
        pool_next(pre, post),
    ensures
        pool_inv(post),
{
    let j = choose|j: nat|
        #![auto]
        submit(pre, post, j) || take(pre, post, j) || finish(pre, post, j);
    if submit(pre, post, j) {
        lemma_submit_inv(pre, post, j);
    } else if take(pre, post, j) {
        lemma_take_inv(pre, post, j);
    } else {
        lemma_finish_inv(pre, post, j);
    }
}

/// The initial pool satisfies the accounting invariant.
pub proof fn lemma_init_inv(s: PoolState)
    requires
        pool_init(s),
    ensures
        pool_inv(s),
{
}

/// Submitting preserves the accounting invariant.
pub proof fn lemma_submit_inv(pre: PoolState, post: PoolState, j: nat)
    requires
        pool_inv(pre),
        submit(pre, post, j),
    ensures
        pool_inv(post),
{
    assert forall|v: nat| post.submitted.count(v) == post.queued.add(post.running).add(
        post.done,
    ).count(v) by {
        assert(pre.submitted.count(v) == pre.queued.add(pre.running).add(pre.done).count(v));
    }
    assert(post.submitted =~= post.queued.add(post.running).add(post.done));
}

/// A worker taking a queued job preserves the accounting invariant.
pub proof fn lemma_take_inv(pre: PoolState, post: PoolState, j: nat)
    requires
        pool_inv(pre),
        take(pre, post, j),
    ensures
        pool_inv(post),
{
    assert forall|v: nat| post.submitted.count(v) == post.queued.add(post.running).add(
        post.done,
    ).count(v) by {
        assert(pre.submitted.count(v) == pre.queued.add(pre.running).add(pre.done).count(v));
    }
    assert(post.submitted =~= post.queued.add(post.running).add(post.done));
}

/// A worker finishing its job preserves the accounting invariant.
pub proof fn lemma_finish_inv(pre: PoolState, post: PoolState, j: nat)
    requires
        pool_inv(pre),
        finish(pre, post, j),
    ensures
        pool_inv(post),
{
    assert forall|v: nat| post.submitted.count(v) == post.queued.add(post.running).add(
        post.done,
    ).count(v) by {
        assert(pre.submitted.count(v) == pre.queued.add(pre.running).add(pre.done).count(v));
    }
    assert(post.submitted =~= post.queued.add(post.running).add(post.done));
}

/// No duplication: in any state the invariant admits, a job has not
/// been executed more often than it was submitted.
pub proof fn lemma_no_duplicate_execution(s: PoolState, j: nat)
    requires
        pool_inv(s),
    ensures
        s.done.count(j) <= s.submitted.count(j),
{
    assert(s.submitted.count(j) == s.queued.add(s.running).add(s.done).count(j));
}

/// No loss: once the queue has drained and every worker is idle,
/// exactly the submitted jobs have been executed — submitting K jobs
/// yields exactly K executions.
pub proof fn lemma_exactly_once(s: PoolState)
    requires
        pool_inv(s),
        s.queued =~= Multiset::<nat>::empty(),
        s.running =~= Multiset::<nat>::empty(),
    ensures
        s.done =~= s.submitted,
        s.done.len() == s.submitted.len(),
{
    assert forall|v: nat| s.done.count(v) == s.submitted.count(v) by {
        assert(s.submitted.count(v) == s.queued.add(s.running).add(s.done).count(v));
    }
    assert(s.done =~= s.submitted);
}

} // verus!
