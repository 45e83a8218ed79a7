//! The reconciliation stream driver: turns one end state plus a context into
//! an unbounded, lazily produced sequence of state snapshots, one per
//! transition.
//!
//! The stream does not end on success: a completed state keeps being
//! re-derived on every pull, which is what turns one-shot provisioning into
//! continuous health reconciliation. It ends exactly once, when a transition
//! lands on a declared terminal failure.

use vstd::prelude::*;

use crate::engine::Context;
use crate::engine::EndState;

verus! {

/// One whole engine step from `s`: advance once, then split the result into
/// ongoing-or-success or declared terminal failure.
pub open spec fn advance_spec<C: Context, S: EndState<C>>(s: S, ctx: C) -> Result<
    S,
    S::ErrorVariant,
> {
    s.step_spec(ctx).into_result_spec()
}

/// The seed in front of step `n` of the run that starts at `init`: `init`
/// itself for `n == 0`, and otherwise the ongoing result of the previous
/// step. `None` once a step has landed on a declared terminal failure.
pub open spec fn seed_after<C: Context, S: EndState<C>>(init: S, ctx: C, n: nat) -> Option<S>
    decreases n,
{
    if n == 0 {
        Some(init)
    } else {
        match seed_after(init, ctx, (n - 1) as nat) {
            Some(s) => match advance_spec(s, ctx) {
                Ok(t) => Some(t),
                Err(_) => None,
            },
            None => None,
        }
    }
}

/// Whether the run that starts at `init` still has a seed in front of step
/// `n`.
pub open spec fn run_reaches<C: Context, S: EndState<C>>(init: S, ctx: C, n: nat) -> bool {
    seed_after(init, ctx, n) is Some
}

/// The seed in front of step `n`, where the run reaches it.
pub open spec fn run_seed<C: Context, S: EndState<C>>(init: S, ctx: C, n: nat) -> S
    recommends
        run_reaches(init, ctx, n),
{
    seed_after(init, ctx, n)->Some_0
}

/// The `n`th item the stream yields (counting from 0): the split outcome of
/// one transition on the seed in front of step `n`, or `None` when the
/// stream ended before step `n`.
pub open spec fn nth_item<C: Context, S: EndState<C>>(init: S, ctx: C, n: nat) -> Option<
    Result<S, S::ErrorVariant>,
> {
    match seed_after(init, ctx, n) {
        Some(s) => Some(advance_spec(s, ctx)),
        None => None,
    }
}

/// The ongoing snapshots yielded at positions `from .. from + count` of the
/// run: snapshot `j` of the window is the seed the run holds after step
/// `from + j`.
pub open spec fn committed_window<C: Context, S: EndState<C>>(
    init: S,
    ctx: C,
    from: nat,
    count: nat,
) -> Seq<S> {
    Seq::new(count, |j: int| run_seed(init, ctx, (from + 1 + j) as nat))
}

/// While the run still reaches step `n`, every item before `n` was an
/// ongoing snapshot: item `j` is exactly `Ok` of the seed after step `j`.
pub proof fn lemma_reach_prefix<C: Context, S: EndState<C>>(init: S, ctx: C, n: nat, j: nat)
    requires
        run_reaches(init, ctx, n),
        j < n,
    ensures
        run_reaches(init, ctx, j),
        nth_item(init, ctx, j) == Some(
            Result::<S, S::ErrorVariant>::Ok(run_seed(init, ctx, (j + 1) as nat)),
        ),
    decreases n,
{
    if j + 1 < n {
        assert(seed_after(init, ctx, (n - 1) as nat) is Some);
        lemma_reach_prefix(init, ctx, (n - 1) as nat, j);
    }
}

/// A yielded ongoing snapshot never stops the stream: whatever the snapshot
/// is — in particular however its `is_done` classifies it — another item
/// follows. Only a declared terminal failure (an `Err` item) ends the run.
pub proof fn lemma_done_does_not_stop<C: Context, S: EndState<C>>(init: S, ctx: C, n: nat)
    requires
        nth_item(init, ctx, n) matches Some(r) && r is Ok,
    ensures
        nth_item(init, ctx, n + 1) is Some,
{
}

/// The corollary for completed states in particular: a snapshot whose
/// `is_done` holds is re-derived on the next pull like any other ongoing
/// snapshot, which is what turns completion into continuous monitoring.
pub proof fn lemma_done_snapshot_still_yields<C: Context, S: EndState<C>>(
    init: S,
    ctx: C,
    n: nat,
    s: S,
)
    requires
        nth_item(init, ctx, n) == Some(Result::<S, S::ErrorVariant>::Ok(s)),
        s.is_done_spec(),
    ensures
        nth_item(init, ctx, n + 1) is Some,
{
    lemma_done_does_not_stop(init, ctx, n);
}

/// Each yielded item arises from exactly one transition on its predecessor:
/// the item after an ongoing snapshot `s` is the split outcome of a single
/// step from `s`. The stream never re-yields a stored snapshot without an
/// intervening transition.
pub proof fn lemma_one_transition_per_item<C: Context, S: EndState<C>>(init: S, ctx: C, n: nat, s: S)
    requires
        nth_item(init, ctx, n) == Some(Result::<S, S::ErrorVariant>::Ok(s)),
    ensures
        nth_item(init, ctx, n + 1) == Some(advance_spec(s, ctx)),
{
}

/// A declared terminal failure ends the stream for good: after an `Err`
/// item, no further item is yielded.
pub proof fn lemma_failure_stops<C: Context, S: EndState<C>>(init: S, ctx: C, n: nat, m: nat)
    requires
        nth_item(init, ctx, n) matches Some(r) && r is Err,
        m > n,
    ensures
        nth_item(init, ctx, m) is None,
    decreases m,
{
    if m == n + 1 {
    } else {
        lemma_failure_stops(init, ctx, n, (m - 1) as nat);
    }
}

/// A live, lazily produced reconciliation stream: the suspended run that
/// starts at some initial end state under one context. Each `step` performs
/// exactly one transition and yields an owned snapshot of its outcome.
pub struct StateStream<C: Context, S: EndState<C>> {
    seed: Option<S>,
    ctx: C,
    init: Ghost<S>,
    pos: Ghost<nat>,
}

impl<C: Context, S: EndState<C>> StateStream<C, S> {
    /// The end state the stream was started from.
    pub closed spec fn init(self) -> S {
        self.init@
    }

    /// The context the stream consults on every step.
    pub closed spec fn ctx_spec(self) -> C {
        self.ctx
    }

    /// How many items have been pulled so far.
    pub closed spec fn pos(self) -> nat {
        self.pos@
    }

    /// The stream's seed is exactly where the abstract run says it stands.
    pub closed spec fn wf(self) -> bool {
        self.seed == seed_after(self.init@, self.ctx, self.pos@)
    }

    /// Whether the stream can still yield an item.
    pub open spec fn live(self) -> bool {
        run_reaches(self.init(), self.ctx_spec(), self.pos())
    }

    /// Performs one transition and yields its split outcome as an owned
    /// snapshot; `None` once the stream has ended. The yielded item is
    /// exactly the next item of the abstract run — production continues
    /// after every ongoing snapshot, done or not, and stops only after a
    /// declared terminal failure.
    pub fn step(&mut self) -> (r: Option<Result<S, S::ErrorVariant>>)
        requires
            old(self).wf(),
        ensures
            final(self).wf(),
            final(self).init() == old(self).init(),
            final(self).ctx_spec() == old(self).ctx_spec(),
            final(self).pos() == old(self).pos() + 1,
            r == nth_item(old(self).init(), old(self).ctx_spec(), old(self).pos()),
    {
        let cur = self.seed.take();
        let r = match cur {
            None => None,
            Some(s) => {
                let stepped = s.next(&self.ctx);
                match stepped.into_result() {
                    Ok(t) => {
                        let snapshot = t.duplicate();
                        self.seed = Some(t);
                        Some(Ok(snapshot))
                    },
                    Err(e) => Some(Err(e)),
                }
            },
        };
        proof {
            self.pos@ = self.pos@ + 1;
        }
        r
    }
}

/// Entry into the stream driver, provided for every end state.
pub trait EndStateExt<C: Context>: EndState<C> {
    /// Converts the state into the stream of the states it generates under
    /// `ctx`. The stream will not end on success.
    fn into_stream(self, ctx: C) -> (r: StateStream<C, Self>)
        ensures
            r.wf(),
            r.init() == self,
            r.ctx_spec() == ctx,
            r.pos() == 0,
    ;
}

impl<C: Context, S: EndState<C>> EndStateExt<C> for S {
    fn into_stream(self, ctx: C) -> (r: StateStream<C, S>) {
        let ghost init = self;
        StateStream { seed: Some(self), ctx, init: Ghost(init), pos: Ghost(0) }
    }
}

} // verus!
