//! The broadcast of a validator's signatures under the checkpoints that
//! still await them.
//!
//! Signing a checkpoint and submitting the signature is the runtime's work.
//! The coordinator says which checkpoint is next and takes note of how each
//! submission went. A submission that failed is noted and nothing more: the
//! remaining checkpoints get their turn all the same, and a checkpoint that
//! is still without the signature when the next one is made is tried again
//! then.

use crate::checkpoint::{checkpoint_views, Checkpoint, CheckpointView};
use crate::validator::{ValidatorContext, ValidatorKey};
use vstd::prelude::*;

verus! {

/// Where a checkpoint of `height` goes in a list that stands by height:
/// behind the last checkpoint that is not above it.
pub open spec fn slot(list: Seq<CheckpointView>, height: u64) -> int
    decreases list.len(),
{
    if list.len() == 0 {
        0
    } else if list.last().height <= height {
        list.len() as int
    } else {
        slot(list.drop_last(), height)
    }
}

/// The checkpoints of `list` by height. Checkpoints of one height keep the
/// order that they came in.
pub open spec fn by_height(list: Seq<CheckpointView>) -> Seq<CheckpointView>
    decreases list.len(),
{
    if list.len() == 0 {
        Seq::empty()
    } else {
        let rest = by_height(list.drop_last());
        rest.insert(slot(rest, list.last().height), list.last())
    }
}

/// The list stands by height.
pub open spec fn ordered(list: Seq<CheckpointView>) -> bool {
    forall|a: int, b: int| 0 <= a < b < list.len() ==> list[a].height <= list[b].height
}

/// A submission that failed: the height of the checkpoint and what the
/// runtime reported.
#[derive(Debug, PartialEq, Eq)]
pub struct BroadcastFailure {
    pub height: u64,
    pub reason: String,
}

/// The broadcast of one validator's signatures under a list of checkpoints.
#[derive(Debug, PartialEq, Eq)]
pub struct SignatureBroadcast {
    validator: ValidatorKey,
    queue: Vec<Checkpoint>,
    cursor: usize,
    failures: Vec<BroadcastFailure>,
}

/// A broadcast as a mathematical value.
pub struct BroadcastView {
    /// The key of the validator that signs.
    pub validator: ValidatorKey,
    /// The checkpoints to sign, by height.
    pub queue: Seq<CheckpointView>,
    /// How many of them have had their turn.
    pub cursor: int,
    /// The submissions that failed, in the order in which they were made.
    pub failures: Seq<BroadcastFailure>,
}

impl View for SignatureBroadcast {
    type V = BroadcastView;

    closed spec fn view(&self) -> BroadcastView {
        BroadcastView {
            validator: self.validator,
            queue: checkpoint_views(self.queue@),
            cursor: self.cursor as int,
            failures: self.failures@,
        }
    }
}

/// The broadcast before anything was submitted.
pub open spec fn fresh_broadcast(validator: ValidatorKey, checkpoints: Seq<CheckpointView>)
    -> BroadcastView {
    BroadcastView {
        validator,
        queue: by_height(checkpoints),
        cursor: 0,
        failures: Seq::empty(),
    }
}

/// The checkpoint whose signature is to be submitted next, if any is left.
pub open spec fn pending(b: BroadcastView) -> Option<CheckpointView> {
    if 0 <= b.cursor < b.queue.len() {
        Some(b.queue[b.cursor])
    } else {
        None
    }
}

/// The broadcast once the submission for the pending checkpoint has gone
/// `outcome`: the next checkpoint is pending, and a failure is noted. A
/// broadcast with nothing pending stays as it is.
pub open spec fn recorded(b: BroadcastView, outcome: Result<(), String>) -> BroadcastView {
    if 0 <= b.cursor < b.queue.len() {
        BroadcastView {
            cursor: b.cursor + 1,
            failures: match outcome {
                Ok(_) => b.failures,
                Err(reason) => b.failures.push(
                    BroadcastFailure { height: b.queue[b.cursor].height, reason },
                ),
            },
            ..b
        }
    } else {
        b
    }
}

/// The broadcast after a run of submissions with these outcomes.
pub open spec fn replayed(b: BroadcastView, outcomes: Seq<Result<(), String>>) -> BroadcastView
    decreases outcomes.len(),
{
    if outcomes.len() == 0 {
        b
    } else {
        recorded(replayed(b, outcomes.drop_last()), outcomes.last())
    }
}

/// Puts a list of checkpoints in the order of their heights.
fn sort_by_height(list: Vec<Checkpoint>) -> (sorted: Vec<Checkpoint>)
    ensures
        checkpoint_views(sorted@) == by_height(checkpoint_views(list@)),
{
    let ghost input = checkpoint_views(list@);
    let mut list = list;
    let mut sorted: Vec<Checkpoint> = Vec::new();
    let ghost mut done: int = 0;
    assert(input.skip(0) =~= input);
    assert(checkpoint_views(sorted@) =~= by_height(input.take(0)));
    while list.len() > 0
        invariant
            0 <= done <= input.len(),
            checkpoint_views(list@) == input.skip(done),
            checkpoint_views(sorted@) == by_height(input.take(done)),
        decreases list.len(),
    {
        let ghost rest = checkpoint_views(sorted@);
        let ghost left = list@;
        let checkpoint = list.remove(0);
        assert(input.skip(done).len() == input.len() - done);
        assert(checkpoint@ == input[done]) by {
            assert(checkpoint_views(left)[0] == input.skip(done)[0]);
        }
        assert(checkpoint_views(list@) =~= input.skip(done + 1)) by {
            assert forall|k: int| 0 <= k < list@.len() implies checkpoint_views(list@)[k]
                == input.skip(done + 1)[k] by {
                assert(list@[k] == left[k + 1]);
                assert(checkpoint_views(left)[k + 1] == input.skip(done)[k + 1]);
            }
        }
        let mut p: usize = sorted.len();
        assert(rest.take(p as int) =~= rest);
        while p > 0 && sorted[p - 1].height > checkpoint.height
            invariant
                p <= sorted.len(),
                rest == checkpoint_views(sorted@),
                slot(rest, checkpoint.height) == slot(rest.take(p as int), checkpoint.height),
            decreases p,
        {
            assert(rest.take(p as int).drop_last() =~= rest.take(p - 1));
            assert(rest.take(p as int).last() == sorted@[p - 1]@);
            p = p - 1;
        }
        proof {
            if p > 0 {
                assert(rest.take(p as int).last() == sorted@[p - 1]@);
            }
            assert(input.take(done + 1).drop_last() =~= input.take(done));
            assert(input.take(done + 1).last() == input[done]);
        }
        sorted.insert(p, checkpoint);
        assert(checkpoint_views(sorted@) =~= rest.insert(p as int, input[done]));
        proof {
            done = done + 1;
        }
    }
    assert(input.take(done) =~= input);
    sorted
}

impl SignatureBroadcast {
    /// Sets up the broadcast of the signatures of the validator `ctx` under
    /// `checkpoints`. The checkpoints will have their turn by height.
    pub fn new(ctx: &ValidatorContext, checkpoints: Vec<Checkpoint>) -> (broadcast:
        SignatureBroadcast)
        ensures
            broadcast@ == fresh_broadcast(ctx.public_key, checkpoint_views(checkpoints@)),
    {
        SignatureBroadcast {
            validator: ctx.public_key,
            queue: sort_by_height(checkpoints),
            cursor: 0,
            failures: Vec::new(),
        }
    }

    /// The key of the validator that signs.
    pub fn validator(&self) -> (key: ValidatorKey)
        ensures
            key == self@.validator,
    {
        self.validator
    }

    /// The checkpoint to sign and submit next, or `None` when every
    /// checkpoint has had its turn.
    pub fn next_submission(&self) -> (next: Option<&Checkpoint>)
        ensures
            match next {
                Some(checkpoint) => pending(self@) == Some(checkpoint@),
                None => pending(self@) is None,
            },
    {
        if self.cursor < self.queue.len() {
            Some(&self.queue[self.cursor])
        } else {
            None
        }
    }

    /// Tells whether every checkpoint has had its turn.
    pub fn is_finished(&self) -> (finished: bool)
        ensures
            finished == (pending(self@) is None),
    {
        self.cursor >= self.queue.len()
    }

    /// Takes note of how the submission for the pending checkpoint went, and
    /// moves on to the next checkpoint whether it failed or not.
    pub fn record_outcome(&mut self, outcome: Result<(), String>)
        ensures
            final(self)@ == recorded(old(self)@, outcome),
    {
        if self.cursor < self.queue.len() {
            match outcome {
                Ok(_) => {},
                Err(reason) => {
                    let height: u64 = self.queue[self.cursor].height;
                    self.failures.push(BroadcastFailure { height, reason });
                },
            }
            self.cursor = self.cursor + 1;
        }
    }

    /// The submissions that failed so far, in the order in which they were
    /// made.
    pub fn failures(&self) -> (list: &Vec<BroadcastFailure>)
        ensures
            list@ == self@.failures,
    {
        &self.failures
    }

    /// How many checkpoints the broadcast covers.
    pub fn len(&self) -> (n: usize)
        ensures
            n == self@.queue.len(),
    {
        self.queue.len()
    }

    /// How many checkpoints have had their turn.
    pub fn attempted(&self) -> (n: usize)
        ensures
            n == self@.cursor,
    {
        self.cursor
    }
}

/// In a list that stands by height, the checkpoints before the slot of a
/// height are not above it, and those from the slot on are.
proof fn slot_splits(list: Seq<CheckpointView>, height: u64)
    requires
        ordered(list),
    ensures
        0 <= slot(list, height) <= list.len(),
        forall|k: int| 0 <= k < slot(list, height) ==> list[k].height <= height,
        forall|k: int| slot(list, height) <= k < list.len() ==> list[k].height > height,
    decreases list.len(),
{
    if list.len() > 0 {
        let front = list.drop_last();
        assert forall|a: int, b: int| 0 <= a < b < front.len() implies front[a].height
            <= front[b].height by {
            assert(front[a] == list[a] && front[b] == list[b]);
        }
        slot_splits(front, height);
        let p = slot(list, height);
        if list.last().height <= height {
            assert forall|k: int| 0 <= k < p implies list[k].height <= height by {
                if k < list.len() - 1 {
                    assert(list[k].height <= list[list.len() - 1].height);
                }
            }
        } else {
            assert forall|k: int| 0 <= k < p implies list[k].height <= height by {
                assert(front[k] == list[k]);
            }
            assert forall|k: int| p <= k < list.len() implies list[k].height > height by {
                if k < list.len() - 1 {
                    assert(front[k] == list[k]);
                }
            }
        }
    }
}

/// A checkpoint that goes in at its slot keeps the list by height.
proof fn insert_at_slot_keeps_order(list: Seq<CheckpointView>, checkpoint: CheckpointView)
    requires
        ordered(list),
    ensures
        ordered(list.insert(slot(list, checkpoint.height), checkpoint)),
{
    let p = slot(list, checkpoint.height);
    slot_splits(list, checkpoint.height);
    let grown = list.insert(p, checkpoint);
    assert forall|a: int, b: int| 0 <= a < b < grown.len() implies grown[a].height
        <= grown[b].height by {
        if b < p {
            assert(grown[a] == list[a] && grown[b] == list[b]);
        } else if b == p {
            assert(grown[a] == list[a]);
        } else if a < p {
            assert(grown[a] == list[a] && grown[b] == list[b - 1]);
        } else if a == p {
            assert(grown[b] == list[b - 1]);
        } else {
            assert(grown[a] == list[a - 1] && grown[b] == list[b - 1]);
        }
    }
}

/// The checkpoints of a broadcast stand by height.
pub proof fn by_height_is_ordered(list: Seq<CheckpointView>)
    ensures
        ordered(by_height(list)),
    decreases list.len(),
{
    if list.len() > 0 {
        by_height_is_ordered(list.drop_last());
        insert_at_slot_keeps_order(by_height(list.drop_last()), list.last());
    }
}

/// Putting the checkpoints by height neither loses nor adds one: each
/// checkpoint is in the broadcast as often as it was handed in.
pub proof fn by_height_keeps_checkpoints(list: Seq<CheckpointView>)
    ensures
        by_height(list).to_multiset() == list.to_multiset(),
        by_height(list).len() == list.len(),
    decreases list.len(),
{
    if list.len() == 0 {
        assert(by_height(list) =~= list);
    } else {
        let front = list.drop_last();
        by_height_keeps_checkpoints(front);
        by_height_is_ordered(front);
        slot_splits(by_height(front), list.last().height);
        vstd::seq_lib::to_multiset_insert(
            by_height(front),
            slot(by_height(front), list.last().height),
            list.last(),
        );
        vstd::seq_lib::to_multiset_build(front, list.last());
        assert(front.push(list.last()) =~= list);
    }
}

/// A list that stands by height already is taken as it is.
pub proof fn by_height_of_ordered(list: Seq<CheckpointView>)
    requires
        ordered(list),
    ensures
        by_height(list) == list,
    decreases list.len(),
{
    if list.len() == 0 {
        assert(by_height(list) =~= list);
    } else {
        let front = list.drop_last();
        assert forall|a: int, b: int| 0 <= a < b < front.len() implies front[a].height
            <= front[b].height by {
            assert(front[a] == list[a] && front[b] == list[b]);
        }
        by_height_of_ordered(front);
        slot_splits(front, list.last().height);
        if slot(front, list.last().height) < front.len() {
            let k = slot(front, list.last().height);
            assert(front[k] == list[k]);
            assert(list[k].height <= list[list.len() - 1].height);
        }
        assert(front.insert(front.len() as int, list.last()) =~= list);
    }
}

/// No failure holds the others up. After any run of submissions, however
/// they went, the broadcast stands at the checkpoint whose turn it is: the
/// checkpoints and the validator are unchanged, as many checkpoints have
/// had their turn as there were submissions, and the next in the order of
/// heights is pending until none is left.
pub proof fn every_checkpoint_gets_its_turn(b: BroadcastView, outcomes: Seq<Result<(), String>>)
    requires
        0 <= b.cursor <= b.queue.len(),
    ensures
        replayed(b, outcomes).queue == b.queue,
        replayed(b, outcomes).validator == b.validator,
        replayed(b, outcomes).cursor == if b.cursor + outcomes.len() <= b.queue.len() {
            b.cursor + outcomes.len()
        } else {
            b.queue.len() as int
        },
        pending(replayed(b, outcomes)) == if b.cursor + outcomes.len() < b.queue.len() {
            Some(b.queue[b.cursor + outcomes.len()])
        } else {
            None
        },
    decreases outcomes.len(),
{
    if outcomes.len() > 0 {
        every_checkpoint_gets_its_turn(b, outcomes.drop_last());
    }
}

/// Every submission that failed is noted, with the height of its
/// checkpoint and the reason given; and a run in which no submission
/// failed adds no failure.
pub proof fn failed_submissions_are_noted(b: BroadcastView, outcomes: Seq<Result<(), String>>)
    requires
        0 <= b.cursor <= b.queue.len(),
    ensures
        forall|k: int|
            0 <= k < outcomes.len() && b.cursor + k < b.queue.len() && (#[trigger] outcomes[k])
                is Err ==> replayed(b, outcomes).failures.contains(
                BroadcastFailure { height: b.queue[b.cursor + k].height, reason: outcomes[k]->Err_0 },
            ),
        forall|f: BroadcastFailure|
            b.failures.contains(f) ==> #[trigger] replayed(b, outcomes).failures.contains(f),
        (forall|k: int| 0 <= k < outcomes.len() ==> (#[trigger] outcomes[k]) is Ok) ==> replayed(
            b,
            outcomes,
        ).failures == b.failures,
    decreases outcomes.len(),
{
    if outcomes.len() > 0 {
        let front = outcomes.drop_last();
        failed_submissions_are_noted(b, front);
        every_checkpoint_gets_its_turn(b, front);
        let before = replayed(b, front);
        let after = replayed(b, outcomes);
        assert forall|f: BroadcastFailure| before.failures.contains(f) implies after.failures.contains(
            f,
        ) by {
            let i = choose|i: int| 0 <= i < before.failures.len() && before.failures[i] == f;
            assert(after.failures[i] == f);
        }
        assert forall|k: int|
            0 <= k < outcomes.len() && b.cursor + k < b.queue.len() && (#[trigger] outcomes[k])
                is Err implies after.failures.contains(
            BroadcastFailure { height: b.queue[b.cursor + k].height, reason: outcomes[k]->Err_0 },
        ) by {
            if k < outcomes.len() - 1 {
                assert(front[k] == outcomes[k]);
            } else {
                assert(after.failures.last() == (BroadcastFailure {
                    height: b.queue[b.cursor + k].height,
                    reason: outcomes[k]->Err_0,
                }));
                assert(after.failures[after.failures.len() - 1] == after.failures.last());
            }
        }
        if forall|k: int| 0 <= k < outcomes.len() ==> (#[trigger] outcomes[k]) is Ok {
            assert forall|k: int| 0 <= k < front.len() implies (#[trigger] front[k]) is Ok by {
                assert(front[k] == outcomes[k]);
            }
            assert(outcomes[outcomes.len() - 1] is Ok);
        }
    }
}

} // verus!
