//! The counter as a state machine, and what holds of every history of it.
//!
//! The counter of a transfer is written by one worker, one atomic step at a
//! time: [`ProgressCounter::publish`](crate::counter::ProgressCounter::publish)
//! is the step [`Step::Publish`], and
//! [`ProgressCounter::mark_complete`](crate::counter::ProgressCounter::mark_complete)
//! is the step [`Step::Complete`]. A read of the counter sees the [`Reading`]
//! after some prefix of the steps taken, and a later read by the same observer
//! sees that of a prefix at least as long.

use vstd::prelude::*;

verus! {

/// One write to the counter.
pub enum Step {
    /// A chunk of this many bytes was copied.
    Publish(u64),
    /// The copy ended, well or badly.
    Complete,
}

/// What the counter holds at one instant.
pub struct Reading {
    pub transferred: u64,
    pub complete: bool,
}

/// The sum of two byte counts as an atomic add leaves it: modulo 2^64.
pub open spec fn wrapped_sum(count: u64, delta: u64) -> u64 {
    ((count + delta) % 0x1_0000_0000_0000_0000) as u64
}

impl Reading {
    /// The counter of a transfer that has just been created.
    pub open spec fn initial() -> Reading {
        Reading { transferred: 0, complete: false }
    }

    /// The counter after one more step.
    pub open spec fn after(self, step: Step) -> Reading {
        match step {
            Step::Publish(delta) => Reading {
                transferred: wrapped_sum(self.transferred, delta),
                complete: self.complete,
            },
            Step::Complete => Reading { transferred: self.transferred, complete: true },
        }
    }
}

/// The counter after a history of steps, from its creation.
pub open spec fn replay(steps: Seq<Step>) -> Reading
    decreases steps.len(),
{
    if steps.len() == 0 {
        Reading::initial()
    } else {
        replay(steps.drop_last()).after(steps.last())
    }
}

/// The bytes published over a history.
pub open spec fn published(steps: Seq<Step>) -> nat
    decreases steps.len(),
{
    if steps.len() == 0 {
        0
    } else {
        published(steps.drop_last()) + match steps.last() {
            Step::Publish(delta) => delta as nat,
            Step::Complete => 0,
        }
    }
}

/// The sum of a sequence of chunk sizes.
pub open spec fn total(chunks: Seq<u64>) -> nat
    decreases chunks.len(),
{
    if chunks.len() == 0 {
        0
    } else {
        total(chunks.drop_last()) + chunks.last() as nat
    }
}

/// The history that a worker writes for a copy that moved `chunks`: one
/// publication per chunk, in order, then the completion.
pub open spec fn worker_steps(chunks: Seq<u64>) -> Seq<Step> {
    Seq::new(chunks.len(), |i: int| Step::Publish(chunks[i])).push(Step::Complete)
}

/// The completion flag turns from false to true at step `at`.
pub open spec fn turns_at(steps: Seq<Step>, at: int) -> bool {
    &&& 0 <= at < steps.len()
    &&& !replay(steps.take(at)).complete
    &&& replay(steps.take(at + 1)).complete
}

/// One step further in a history is one step applied to the counter.
pub proof fn lemma_replay_next(steps: Seq<Step>, at: int)
    requires
        0 <= at < steps.len(),
    ensures
        replay(steps.take(at + 1)) == replay(steps.take(at)).after(steps[at]),
        published(steps.take(at + 1)) == published(steps.take(at)) + match steps[at] {
            Step::Publish(delta) => delta as nat,
            Step::Complete => 0,
        },
{
    assert(steps.take(at + 1).drop_last() =~= steps.take(at));
}

/// The bytes published never shrink as a history grows.
pub proof fn lemma_published_grows(steps: Seq<Step>, earlier: int, later: int)
    requires
        0 <= earlier <= later <= steps.len(),
    ensures
        published(steps.take(earlier)) <= published(steps.take(later)),
    decreases later - earlier,
{
    if earlier < later {
        lemma_published_grows(steps, earlier, later - 1);
        lemma_replay_next(steps, later - 1);
    }
}

/// The byte count is the bytes published, modulo 2^64.
pub proof fn lemma_transferred_wraps(steps: Seq<Step>)
    ensures
        replay(steps).transferred == published(steps) % 0x1_0000_0000_0000_0000,
    decreases steps.len(),
{
    if steps.len() > 0 {
        lemma_transferred_wraps(steps.drop_last());
        let before = published(steps.drop_last());
        match steps.last() {
            Step::Publish(delta) => {
                vstd::arithmetic::div_mod::lemma_add_mod_noop(
                    before as int,
                    delta as int,
                    0x1_0000_0000_0000_0000,
                );
                vstd::arithmetic::div_mod::lemma_small_mod(delta as nat, 0x1_0000_0000_0000_0000);
            },
            Step::Complete => {},
        }
    }
}

/// The byte count equals the bytes published, for every history that
/// publishes no more than a `u64` holds.
pub proof fn lemma_transferred_is_published(steps: Seq<Step>)
    requires
        published(steps) <= u64::MAX,
    ensures
        replay(steps).transferred == published(steps),
{
    lemma_transferred_wraps(steps);
    vstd::arithmetic::div_mod::lemma_small_mod(published(steps), 0x1_0000_0000_0000_0000);
}

/// After a worker has completed a copy, the byte count is the total of the
/// chunks it moved, for every sequence of chunks whose total a `u64` holds,
/// and the completion flag is up.
pub proof fn lemma_final_count_is_total(chunks: Seq<u64>)
    requires
        total(chunks) <= u64::MAX,
    ensures
        replay(worker_steps(chunks)).transferred == total(chunks),
        replay(worker_steps(chunks)).complete,
{
    let steps = worker_steps(chunks);
    let publications = Seq::new(chunks.len(), |i: int| Step::Publish(chunks[i]));
    assert(steps.drop_last() =~= publications);
    lemma_publications(chunks);
    lemma_transferred_is_published(publications);
}

/// A history of publications alone publishes the total of its chunks and
/// leaves the completion flag down.
pub proof fn lemma_publications(chunks: Seq<u64>)
    ensures
        published(Seq::new(chunks.len(), |i: int| Step::Publish(chunks[i]))) == total(chunks),
        !replay(Seq::new(chunks.len(), |i: int| Step::Publish(chunks[i]))).complete,
    decreases chunks.len(),
{
    let publications = Seq::new(chunks.len(), |i: int| Step::Publish(chunks[i]));
    if chunks.len() > 0 {
        let shorter = chunks.drop_last();
        lemma_publications(shorter);
        assert(publications.drop_last() =~= Seq::new(
            shorter.len(),
            |i: int| Step::Publish(shorter[i]),
        ));
    }
}

/// The byte count never decreases: what a history shows at an earlier point is
/// at most what it shows at a later one, as long as the bytes published
/// between the two do not carry the count past what a `u64` holds.
pub proof fn lemma_transferred_never_decreases(steps: Seq<Step>, earlier: int, later: int)
    requires
        0 <= earlier <= later <= steps.len(),
        replay(steps.take(earlier)).transferred + published(steps.take(later)) - published(
            steps.take(earlier),
        ) <= u64::MAX,
    ensures
        replay(steps.take(earlier)).transferred <= replay(steps.take(later)).transferred,
{
    let before = published(steps.take(earlier)) as int;
    let between = published(steps.take(later)) - before;
    let seen = replay(steps.take(earlier)).transferred as int;
    lemma_published_grows(steps, earlier, later);
    lemma_transferred_wraps(steps.take(earlier));
    lemma_transferred_wraps(steps.take(later));
    vstd::arithmetic::div_mod::lemma_add_mod_noop_right(between, before, 0x1_0000_0000_0000_0000);
    vstd::arithmetic::div_mod::lemma_small_mod((between + seen) as nat, 0x1_0000_0000_0000_0000);
}

/// Once the completion flag is up it stays up.
pub proof fn lemma_complete_is_permanent(steps: Seq<Step>, earlier: int, later: int)
    requires
        0 <= earlier <= later <= steps.len(),
        replay(steps.take(earlier)).complete,
    ensures
        replay(steps.take(later)).complete,
    decreases later - earlier,
{
    if earlier < later {
        lemma_complete_is_permanent(steps, earlier, later - 1);
        lemma_replay_next(steps, later - 1);
    }
}

/// The completion flag starts down and turns at most once in any history.
pub proof fn lemma_complete_turns_once(steps: Seq<Step>, first: int, second: int)
    requires
        turns_at(steps, first),
        turns_at(steps, second),
    ensures
        !replay(steps.take(0)).complete,
        first == second,
{
    if first < second {
        lemma_complete_is_permanent(steps, first + 1, second);
    }
    if second < first {
        lemma_complete_is_permanent(steps, second + 1, first);
    }
}

/// In the history of a worker the completion flag turns exactly once: at the
/// last step, after every chunk has been published.
pub proof fn lemma_worker_completes_once(chunks: Seq<u64>, at: int)
    ensures
        turns_at(worker_steps(chunks), at) <==> at == chunks.len(),
{
    let steps = worker_steps(chunks);
    let last = chunks.len() as int;
    let publications = Seq::new(chunks.len(), |i: int| Step::Publish(chunks[i]));
    lemma_publications(chunks);
    assert(steps.drop_last() =~= publications);
    if turns_at(steps, at) {
        lemma_complete_turns_once(steps, at, last);
    }
}

} // verus!
