//! The reconciliation engine's contracts: the capability context, the
//! transition unit, its terminal-inclusive refinement, the conversion that
//! absorbs failures into state, the commit port and the self-refresh port.
//!
//! Every trait pairs each operation with a specification function, so that a
//! concrete lifecycle proves its transitions against its own model and the
//! generic driver and dispatcher are verified for every implementation.

use vstd::prelude::*;

use crate::error::Error;

verus! {

/// The static configuration a context carries: bind addresses, the container
/// image reference, the naming prefix, the provisioner address, the network
/// identifier and the persisted-state location. The engine treats all of it
/// as opaque text for its external collaborators.
#[derive(Debug, Clone)]
pub struct Args {
    pub control: String,
    pub user: String,
    pub image: String,
    pub prefix: String,
    pub provisioner_host: String,
    pub network_id: String,
    pub state: String,
}

/// The read-only bundle of shared resources a transition consults. A context
/// is constructed once, passed by reference into every step, and owns no
/// mutable global state. Concrete contexts also carry the runtime handles
/// that live outside this crate; the engine itself reads only through the
/// transitions of the state types.
pub trait Context: Sized {
    fn args(&self) -> &Args;
}

/// A generic transition unit: a value which, given a context, does some work
/// and advances itself, fallibly.
pub trait State<C: Context>: Sized {
    type Next;

    type Error;

    /// The value (or failure) one step ahead of `self` under `ctx`.
    spec fn next_spec(self, ctx: C) -> Result<Self::Next, Self::Error>;

    fn next(self, ctx: &C) -> (r: Result<Self::Next, Self::Error>)
        ensures
            r == self.next_spec(*ctx),
    ;
}

/// A transition unit that contains all its transitions, failures included:
/// advancing it is total, so every intermediate and terminal condition is
/// observable and persistable as a value of the same type.
pub trait EndState<C: Context>: Sized {
    /// The declared terminal failures, carried as data inside the state.
    type ErrorVariant;

    /// The state one step ahead of `self` under `ctx`. Total: failure
    /// conditions are variants of `Self`, never an error return.
    spec fn step_spec(self, ctx: C) -> Self;

    /// Whether `self` is a stable completed or intentionally-monitored
    /// condition. The stream driver keeps looping even when this holds.
    spec fn is_done_spec(self) -> bool;

    /// Splits ongoing-or-success from declared terminal failure. An `Err`
    /// here is the only way a reconciliation stream ends.
    spec fn into_result_spec(self) -> Result<Self, Self::ErrorVariant>;

    fn next(self, ctx: &C) -> (r: Self)
        ensures
            r == self.step_spec(*ctx),
    ;

    fn is_done(&self) -> (r: bool)
        ensures
            r == self.is_done_spec(),
    ;

    fn into_result(self) -> (r: Result<Self, Self::ErrorVariant>)
        ensures
            r == self.into_result_spec(),
    ;

    /// An owned copy of `self`, equal to it; each snapshot a stream yields
    /// is such a copy, shared with nothing downstream.
    fn duplicate(&self) -> (r: Self)
        ensures
            r == *self,
    ;
}

/// Lossless absorption of a step result into an end state: success and
/// declared failure both become visible state, and which branch was taken is
/// never dropped.
pub trait IntoEndState<E>: Sized {
    /// The end state this value absorbs into.
    spec fn end_state_spec(self) -> E;

    /// Whether the conversion's outcome is pinned by `end_state_spec`.
    spec fn obeys_end_state_spec() -> bool;

    fn into_end_state(self) -> (r: E)
        ensures
            Self::obeys_end_state_spec() ==> r == self.end_state_spec(),
    ;
}

impl<E, S, F> IntoEndState<E> for Result<S, F> where E: From<S> + From<F> {
    /// Success maps through `From<S>`, failure through `From<F>`.
    open spec fn end_state_spec(self) -> E {
        match self {
            Ok(s) => vstd::std_specs::convert::FromSpec::<S>::from_spec(s),
            Err(e) => vstd::std_specs::convert::FromSpec::<F>::from_spec(e),
        }
    }

    open spec fn obeys_end_state_spec() -> bool {
        <E as vstd::std_specs::convert::FromSpec<S>>::obeys_from_spec()
            && <E as vstd::std_specs::convert::FromSpec<F>>::obeys_from_spec()
    }

    fn into_end_state(self) -> (r: E) {
        match self {
            Ok(s) => E::from(s),
            Err(e) => E::from(e),
        }
    }
}

/// The commit port: durably records each snapshot a driver yields, and
/// supplies fresh contexts for units of work.
pub trait Service<C: Context>: Sized {
    /// The state type this port persists.
    type State: EndState<C>;

    /// The snapshots committed so far, oldest first.
    spec fn committed(&self) -> Seq<Self::State>;

    /// A fresh context for the next unit of work.
    fn context(&self) -> C;

    /// Durably records `state`. On success the snapshot is appended to the
    /// committed history; on failure the history is untouched and the
    /// failure is surfaced, never dropped.
    fn update(&mut self, state: &Self::State) -> (r: Result<(), Error>)
        ensures
            r is Ok ==> final(self).committed() == old(self).committed().push(*state),
            r is Err ==> final(self).committed() == old(self).committed(),
    ;
}

/// The self-refresh port: reconciles an already-constructed value against
/// the live external source of truth, outside the step-by-step engine. Used
/// at process startup to heal from a crash between an external effect and
/// its commit.
pub trait Refresh<C: Context>: Sized {
    /// The reconciled value (or failure) for `self` under `ctx`.
    spec fn refresh_spec(self, ctx: C) -> Result<Self, Error>;

    fn refresh(self, ctx: &C) -> (r: Result<Self, Error>)
        ensures
            r == self.refresh_spec(*ctx),
    ;
}

} // verus!
