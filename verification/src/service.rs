//! An in-memory commit port for project lifecycles.
//!
//! It keeps every committed snapshot in submission order, which makes the
//! dispatcher's commit-before-advance obligation directly observable, and it
//! can be told to refuse one commit, to exercise how a dispatcher surfaces a
//! persistence failure. Durable stores live with the process around this
//! crate and satisfy the same [`Service`] contract.

use vstd::prelude::*;

use crate::engine::Args;
use crate::engine::Service;
use crate::error::Error;
use crate::error::ErrorKind;
use crate::project::Project;
use crate::project::WorldContext;

verus! {

/// A commit port holding its history in memory.
pub struct MemoryService {
    committed: Vec<Project>,
    args: Args,
    healthy_for: Option<u64>,
    refuse_update: Option<u64>,
    attempts: u64,
}

impl MemoryService {
    /// How many commits have been attempted so far, successful or not.
    pub closed spec fn attempts_spec(&self) -> u64 {
        self.attempts
    }

    /// The number of the one commit attempt this port refuses, if any.
    pub closed spec fn refuse_spec(&self) -> Option<u64> {
        self.refuse_update
    }

    /// How many health checks the contexts this port supplies let the
    /// runtime answer.
    pub closed spec fn healthy_spec(&self) -> Option<u64> {
        self.healthy_for
    }

    /// A port with an empty history. Contexts it supplies report `args` and
    /// a runtime that answers `healthy_for` health checks; the commit
    /// attempt numbered `refuse_update` (counting every attempt from 0) will
    /// be refused, none when `None`.
    pub fn new(args: Args, healthy_for: Option<u64>, refuse_update: Option<u64>) -> (s:
        MemoryService)
        ensures
            s.committed() == Seq::<Project>::empty(),
            s.attempts_spec() == 0,
            s.refuse_spec() == refuse_update,
            s.healthy_spec() == healthy_for,
    {
        MemoryService { committed: Vec::new(), args, healthy_for, refuse_update, attempts: 0 }
    }

    /// The committed history, for inspection; oldest snapshot first.
    pub fn snapshots(&self) -> (r: &Vec<Project>)
        ensures
            r@ == self.committed(),
    {
        &self.committed
    }
}

impl Service<WorldContext> for MemoryService {
    type State = Project;

    closed spec fn committed(&self) -> Seq<Project> {
        self.committed@
    }

    fn context(&self) -> (c: WorldContext)
        ensures
            c.healthy_for == self.healthy_spec(),
    {
        WorldContext { args: self.args.clone(), healthy_for: self.healthy_for }
    }

    /// Refuses exactly the commit attempt it was configured to refuse, and
    /// appends the snapshot otherwise.
    fn update(&mut self, state: &Project) -> (r: Result<(), Error>)
        ensures
            r is Err <==> old(self).refuse_spec() == Some(old(self).attempts_spec()),
            final(self).refuse_spec() == old(self).refuse_spec(),
            final(self).healthy_spec() == old(self).healthy_spec(),
            old(self).attempts_spec() < u64::MAX ==> final(self).attempts_spec() == old(
                self,
            ).attempts_spec() + 1,
            r matches Err(e) ==> e.kind_spec() == ErrorKind::Internal,
    {
        let refused = match self.refuse_update {
            Some(n) => self.attempts == n,
            None => false,
        };
        if self.attempts < u64::MAX {
            self.attempts = self.attempts + 1;
        }
        if refused {
            Err(Error::custom(ErrorKind::Internal, "commit refused"))
        } else {
            self.committed.push(*state);
            Ok(())
        }
    }
}

} // verus!
