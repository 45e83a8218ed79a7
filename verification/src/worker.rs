//! The work dispatcher: drives one unit of work after another through the
//! reconciliation stream, committing every yielded snapshot through the
//! commit port before the next transition is computed.
//!
//! The dispatcher owns its queue; dequeuing hands a work item's ownership to
//! exactly one driving loop, so no two drivers ever share one item.

use core::marker::PhantomData;
use vstd::prelude::*;

use crate::engine::Context;
use crate::engine::EndState;
use crate::engine::Service;
use crate::error::Error;
use crate::stream::EndStateExt;
use crate::stream::StateStream;
use crate::stream::committed_window;
use crate::stream::lemma_reach_prefix;
use crate::stream::nth_item;
use crate::stream::run_reaches;
use crate::stream::run_seed;

verus! {

/// How one driving pass over a stream ended.
pub enum DriveOutcome<S, E> {
    /// The budget of pulls ran out while the stream was still ongoing; every
    /// pulled snapshot was committed.
    Spent,
    /// The stream ended on a declared terminal failure after `steps`
    /// committed snapshots.
    Stopped { steps: usize, failure: E },
    /// The commit port refused snapshot number `steps`; the failure is
    /// surfaced at once, the snapshot is handed back uncommitted, and the
    /// pass does not advance past it.
    CommitFailed { steps: usize, snapshot: S, error: Error },
    /// The stream had already ended before this pass pulled anything.
    Exhausted,
}

/// What a driving pass guarantees, over the abstract run that starts at
/// `init` under `ctx` with `i0` items already pulled: `before` and `after`
/// are the commit port's history around the pass.
pub open spec fn drive_post<C: Context, S: EndState<C>>(
    init: S,
    ctx: C,
    i0: nat,
    budget: nat,
    before: Seq<S>,
    after: Seq<S>,
    out: DriveOutcome<S, S::ErrorVariant>,
) -> bool {
    match out {
        DriveOutcome::Spent => {
            &&& budget > 0 ==> run_reaches(init, ctx, (i0 + budget) as nat)
            &&& forall|m: nat|
                i0 <= m < i0 + budget ==> #[trigger] nth_item(init, ctx, m) == Some(
                    Result::<S, S::ErrorVariant>::Ok(run_seed(init, ctx, (m + 1) as nat)),
                )
            &&& after == before + committed_window(init, ctx, i0, budget)
        },
        DriveOutcome::Stopped { steps, failure } => {
            &&& steps < budget
            &&& nth_item(init, ctx, (i0 + steps) as nat) == Some(
                Result::<S, S::ErrorVariant>::Err(failure),
            )
            &&& after == before + committed_window(init, ctx, i0, steps as nat)
        },
        DriveOutcome::CommitFailed { steps, snapshot, error } => {
            &&& steps < budget
            &&& nth_item(init, ctx, (i0 + steps) as nat) == Some(
                Result::<S, S::ErrorVariant>::Ok(snapshot),
            )
            &&& after == before + committed_window(init, ctx, i0, steps as nat)
        },
        DriveOutcome::Exhausted => {
            &&& !run_reaches(init, ctx, i0)
            &&& after == before
        },
    }
}

/// Pulls up to `budget` snapshots from `stream`, committing each one through
/// `svc` before the next transition is computed. Commit failures are
/// surfaced without advancing; a declared terminal failure ends the pass.
pub fn drive<C: Context, S: EndState<C>, V: Service<C, State = S>>(
    stream: &mut StateStream<C, S>,
    svc: &mut V,
    budget: usize,
) -> (out: DriveOutcome<S, S::ErrorVariant>)
    requires
        old(stream).wf(),
    ensures
        final(stream).wf(),
        final(stream).init() == old(stream).init(),
        final(stream).ctx_spec() == old(stream).ctx_spec(),
        drive_post(
            old(stream).init(),
            old(stream).ctx_spec(),
            old(stream).pos(),
            budget as nat,
            old(svc).committed(),
            final(svc).committed(),
            out,
        ),
        final(stream).pos() == match out {
            DriveOutcome::Spent => old(stream).pos() + budget,
            DriveOutcome::Stopped { steps, .. } => old(stream).pos() + steps + 1,
            DriveOutcome::CommitFailed { steps, .. } => old(stream).pos() + steps + 1,
            DriveOutcome::Exhausted => old(stream).pos() + 1int,
        },
{
    let ghost init = old(stream).init();
    let ghost c = old(stream).ctx_spec();
    let ghost i0 = old(stream).pos();
    let mut k: usize = 0;
    proof {
        assert(old(svc).committed() + committed_window(init, c, i0, 0) =~= old(svc).committed());
    }
    while k < budget
        invariant
            init == old(stream).init(),
            c == old(stream).ctx_spec(),
            i0 == old(stream).pos(),
            stream.wf(),
            stream.init() == init,
            stream.ctx_spec() == c,
            stream.pos() == i0 + k,
            k <= budget,
            k > 0 ==> run_reaches(init, c, (i0 + k) as nat),
            svc.committed() == old(svc).committed() + committed_window(init, c, i0, k as nat),
        decreases budget - k,
    {
        let item = stream.step();
        match item {
            None => {
                proof {
                    if k > 0 {
                        assert(nth_item(init, c, (i0 + k) as nat) is Some);
                    }
                }
                return DriveOutcome::Exhausted;
            },
            Some(Err(failure)) => {
                return DriveOutcome::Stopped { steps: k, failure };
            },
            Some(Ok(snapshot)) => {
                match svc.update(&snapshot) {
                    Ok(_) => {
                        proof {
                            assert(committed_window(init, c, i0, (k + 1) as nat)
                                =~= committed_window(init, c, i0, k as nat).push(snapshot));
                            assert(old(svc).committed() + committed_window(
                                init,
                                c,
                                i0,
                                (k + 1) as nat,
                            ) =~= (old(svc).committed() + committed_window(
                                init,
                                c,
                                i0,
                                k as nat,
                            )).push(snapshot));
                        }
                        k += 1;
                    },
                    Err(error) => {
                        return DriveOutcome::CommitFailed { steps: k, snapshot, error };
                    },
                }
            },
        }
    }
    proof {
        if budget > 0 {
            assert forall|m: nat| i0 <= m < i0 + budget implies #[trigger] nth_item(init, c, m)
                == Some(Result::<S, S::ErrorVariant>::Ok(run_seed(init, c, (m + 1) as nat))) by {
                lemma_reach_prefix(init, c, (i0 + budget) as nat, m);
            }
        }
    }
    DriveOutcome::Spent
}

/// The dispatcher: owns a queue of submitted work items and the commit port
/// they are persisted through, and drives them one at a time.
#[verifier::reject_recursive_types(S)]
pub struct Worker<C: Context, S: EndState<C>, V: Service<C, State = S>> {
    service: V,
    queue: Vec<S>,
    ctx_type: PhantomData<C>,
}

impl<C: Context, S: EndState<C>, V: Service<C, State = S>> Worker<C, S, V> {
    /// The submitted work items, oldest first.
    pub closed spec fn queue_spec(self) -> Seq<S> {
        self.queue@
    }

    /// The commit port the dispatcher persists through.
    pub closed spec fn service_spec(self) -> V {
        self.service
    }

    /// A dispatcher over `service` with an empty queue.
    pub fn new(service: V) -> (w: Worker<C, S, V>)
        ensures
            w.queue_spec() == Seq::<S>::empty(),
            w.service_spec() == service,
    {
        Worker { service, queue: Vec::new(), ctx_type: PhantomData }
    }

    /// The sending side: appends a work item, transferring its ownership to
    /// the dispatcher.
    pub fn enqueue(&mut self, item: S)
        ensures
            final(self).queue_spec() == old(self).queue_spec().push(item),
            final(self).service_spec() == old(self).service_spec(),
    {
        self.queue.push(item);
    }

    pub fn service(&self) -> (r: &V)
        ensures
            *r == self.service_spec(),
    {
        &self.service
    }

    /// Dequeues the oldest work item, if there is one, and drives it for up
    /// to `budget` pulls under `ctx`. The item leaves the queue before it is
    /// driven, so no two driving passes ever share a work item.
    pub fn drive_next(&mut self, ctx: C, budget: usize) -> (out: Option<
        DriveOutcome<S, S::ErrorVariant>,
    >)
        ensures
            old(self).queue_spec().len() == 0 ==> out is None && final(self).queue_spec() == old(
                self,
            ).queue_spec() && final(self).service_spec() == old(self).service_spec(),
            old(self).queue_spec().len() > 0 ==> {
                &&& final(self).queue_spec() == old(self).queue_spec().skip(1)
                &&& out matches Some(o) && drive_post(
                    old(self).queue_spec()[0],
                    ctx,
                    0,
                    budget as nat,
                    old(self).service_spec().committed(),
                    final(self).service_spec().committed(),
                    o,
                )
            },
    {
        if self.queue.len() == 0 {
            return None;
        }
        let item = self.queue.remove(0);
        proof {
            assert(old(self).queue_spec().remove(0) =~= old(self).queue_spec().skip(1));
        }
        let mut stream = item.into_stream(ctx);
        let out = drive(&mut stream, &mut self.service, budget);
        Some(out)
    }
}

} // verus!
