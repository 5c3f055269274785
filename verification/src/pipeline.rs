//! The two stages and the queue between them, as one system: what the
//! compositor stage applies, whatever the interleaving of production
//! cycles and polls.

use vstd::prelude::*;
use crate::app::{spec_cycle, Cycle, Production, StageState};
use crate::channel::Polled;
use crate::transaction::Epoch;
use crate::util::spec_note_queue;

verus! {

/// Whose turn it is.
#[derive(Clone, Copy, Debug, PartialEq, Eq, Structural)]
pub enum Turn {
    /// The production stage runs one cycle; the queue takes what it
    /// pushes.
    Produce,
    /// The compositor stage polls the queue, after it has handled its
    /// batch, and applies what it finds.
    Poll,
}

/// The pipeline, with each transaction stood for by its epoch. The queue
/// hands out what was pushed, oldest first.
pub struct Pipeline {
    pub production: Production,
    /// Every epoch that the production stage has pushed, in order.
    pub produced: Seq<Epoch>,
    /// What waits in the queue, oldest first.
    pub queue: Seq<Epoch>,
    /// Every epoch that the compositor stage has applied, in order.
    pub applied: Seq<Epoch>,
}

/// What a poll of the queue finds while a producer is alive.
pub open spec fn spec_queue_poll(queue: Seq<Epoch>) -> Polled<Epoch> {
    if queue.len() > 0 {
        Polled::Item(queue[0])
    } else {
        Polled::Empty
    }
}

/// The pipeline after one turn.
pub open spec fn spec_turn(pipeline: Pipeline, turn: Turn) -> Pipeline {
    match turn {
        Turn::Produce => {
            let (production, cycle) = spec_cycle(pipeline.production, true);
            match cycle {
                Cycle::Produced(epoch) => Pipeline {
                    production,
                    produced: pipeline.produced.push(epoch),
                    queue: pipeline.queue.push(epoch),
                    applied: pipeline.applied,
                },
                _ => Pipeline {
                    production,
                    produced: pipeline.produced,
                    queue: pipeline.queue,
                    applied: pipeline.applied,
                },
            }
        },
        Turn::Poll => match spec_note_queue(spec_queue_poll(pipeline.queue)).1 {
            Some(epoch) => Pipeline {
                production: pipeline.production,
                produced: pipeline.produced,
                queue: pipeline.queue.drop_first(),
                applied: pipeline.applied.push(epoch),
            },
            None => pipeline,
        },
    }
}

/// The pipeline after the first `n` turns of a schedule, from the moment
/// the startup barrier has resolved.
pub open spec fn spec_pipeline_after(turns: Seq<Turn>, n: nat) -> Pipeline
    decreases n,
{
    if n == 0 {
        Pipeline {
            production: Production { state: StageState::Ready, cycles: 0 },
            produced: Seq::empty(),
            queue: Seq::empty(),
            applied: Seq::empty(),
        }
    } else {
        spec_turn(spec_pipeline_after(turns, (n - 1) as nat), turns[n - 1])
    }
}

/// Whether the epochs of a sequence grow from each to the next.
pub open spec fn spec_increasing(epochs: Seq<Epoch>) -> bool {
    forall|i: int, j: int| 0 <= i < j < epochs.len() ==> epochs[i].0 < epochs[j].0
}

/// Ordering. Under every schedule of production cycles and polls, the
/// epochs that were produced grow, and what the compositor stage has
/// applied, followed by what still waits in the queue, is what was
/// produced: transactions are applied in the order of production, none
/// twice and none skipped.
pub proof fn lemma_applied_in_production_order(turns: Seq<Turn>, n: nat)
    ensures
        spec_pipeline_after(turns, n).applied + spec_pipeline_after(turns, n).queue
            == spec_pipeline_after(turns, n).produced,
        spec_increasing(spec_pipeline_after(turns, n).produced),
        spec_increasing(spec_pipeline_after(turns, n).applied),
        forall|i: int|
            0 <= i < spec_pipeline_after(turns, n).produced.len() ==> spec_pipeline_after(
                turns,
                n,
            ).produced[i].0 < spec_pipeline_after(turns, n).production.cycles,
    decreases n,
{
    let now = spec_pipeline_after(turns, n);
    if n == 0 {
        assert(now.applied + now.queue =~= now.produced);
    } else {
        lemma_applied_in_production_order(turns, (n - 1) as nat);
        let before = spec_pipeline_after(turns, (n - 1) as nat);
        assert(before.applied + before.queue == before.produced);
        match turns[n - 1] {
            Turn::Produce => {
                assert(now.applied + now.queue =~= now.produced);
            },
            Turn::Poll => {
                if before.queue.len() > 0 {
                    assert(now.applied + now.queue =~= before.applied + before.queue);
                }
            },
        }
        assert forall|i: int, j: int| 0 <= i < j < now.applied.len() implies now.applied[i].0
            < now.applied[j].0 by {
            assert(now.applied[i] == now.produced[i]);
            assert(now.applied[j] == now.produced[j]);
        }
    }
}

} // verus!
