//! A project lifecycle: the concrete end state the gateway drives for each
//! user project, from creation through a continuously monitored ready
//! condition.
//!
//! The context models what the engine observes of the container runtime as
//! plain data: how many health checks the runtime answers before it reports
//! a failure. The runtime handles themselves live with the process around
//! this crate; every transition here is a total function of state and
//! context.

use vstd::prelude::*;

use crate::engine::Args;
use crate::engine::Context;
use crate::engine::EndState;
use crate::engine::IntoEndState;
use crate::engine::Refresh;
use crate::engine::State;
use crate::error::Error;
use crate::error::ErrorKind;

verus! {

/// The capability context a project lifecycle consults: the process
/// configuration, plus the observable behaviour of the container runtime.
#[derive(Debug, Clone)]
pub struct WorldContext {
    pub args: Args,
    /// How many health checks the runtime answers before it reports a
    /// failure; `None` when the runtime stays healthy.
    pub healthy_for: Option<u64>,
}

impl Context for WorldContext {
    fn args(&self) -> &Args {
        &self.args
    }
}

/// Whether the runtime reports a failure on health check number `n`.
pub open spec fn runtime_failed(ctx: WorldContext, n: u64) -> bool {
    match ctx.healthy_for {
        Some(k) => n >= k,
        None => false,
    }
}

/// A declared terminal failure of a project lifecycle.
#[derive(Debug, Clone, Copy, PartialEq, Eq, Structural)]
pub struct ProjectError {
    pub kind: ErrorKind,
}

/// A ready project under continuous health monitoring: `checks` health
/// checks have passed so far.
#[derive(Debug, Clone, Copy, PartialEq, Eq, Structural)]
pub struct ProjectReady {
    pub checks: u64,
}

impl State<WorldContext> for ProjectReady {
    type Next = ProjectReady;

    type Error = ProjectError;

    /// One health poll: the check counter advances while the runtime
    /// answers, and the poll fails once the runtime reports a failure.
    open spec fn next_spec(self, ctx: WorldContext) -> Result<ProjectReady, ProjectError> {
        if runtime_failed(ctx, self.checks) {
            Err(ProjectError { kind: ErrorKind::ProjectUnavailable })
        } else if self.checks == u64::MAX {
            Ok(self)
        } else {
            Ok(ProjectReady { checks: (self.checks + 1) as u64 })
        }
    }

    fn next(self, ctx: &WorldContext) -> (r: Result<ProjectReady, ProjectError>) {
        let failed = match ctx.healthy_for {
            Some(k) => self.checks >= k,
            None => false,
        };
        if failed {
            Err(ProjectError { kind: ErrorKind::ProjectUnavailable })
        } else if self.checks == u64::MAX {
            Ok(self)
        } else {
            Ok(ProjectReady { checks: self.checks + 1 })
        }
    }
}

/// Where a project stands: provisioning stages, the monitored ready
/// condition, or a declared terminal failure carried as state.
#[derive(Debug, Clone, Copy, PartialEq, Eq, Structural)]
pub enum Project {
    Creating,
    Starting,
    Started,
    Ready(ProjectReady),
    Errored(ProjectError),
}

impl From<ProjectReady> for Project {
    fn from(r: ProjectReady) -> Project {
        Project::Ready(r)
    }
}

impl vstd::std_specs::convert::FromSpecImpl<ProjectReady> for Project {
    open spec fn obeys_from_spec() -> bool {
        true
    }

    open spec fn from_spec(r: ProjectReady) -> Project {
        Project::Ready(r)
    }
}

impl From<ProjectError> for Project {
    fn from(e: ProjectError) -> Project {
        Project::Errored(e)
    }
}

impl vstd::std_specs::convert::FromSpecImpl<ProjectError> for Project {
    open spec fn obeys_from_spec() -> bool {
        true
    }

    open spec fn from_spec(e: ProjectError) -> Project {
        Project::Errored(e)
    }
}

impl EndState<WorldContext> for Project {
    type ErrorVariant = ProjectError;

    /// Provisioning advances one stage per step; a ready project is health
    /// polled, absorbing a failed poll as the `Errored` state; an errored
    /// project stays errored.
    open spec fn step_spec(self, ctx: WorldContext) -> Project {
        match self {
            Project::Creating => Project::Starting,
            Project::Starting => Project::Started,
            Project::Started => Project::Ready(ProjectReady { checks: 0 }),
            Project::Ready(r) => match r.next_spec(ctx) {
                Ok(r2) => Project::Ready(r2),
                Err(e) => Project::Errored(e),
            },
            Project::Errored(e) => Project::Errored(e),
        }
    }

    open spec fn is_done_spec(self) -> bool {
        self is Ready
    }

    open spec fn into_result_spec(self) -> Result<Project, ProjectError> {
        match self {
            Project::Errored(e) => Err(e),
            s => Ok(s),
        }
    }

    fn next(self, ctx: &WorldContext) -> (r: Project) {
        match self {
            Project::Creating => Project::Starting,
            Project::Starting => Project::Started,
            Project::Started => Project::Ready(ProjectReady { checks: 0 }),
            Project::Ready(r) => IntoEndState::<Project>::into_end_state(r.next(ctx)),
            Project::Errored(e) => Project::Errored(e),
        }
    }

    fn is_done(&self) -> (r: bool) {
        match self {
            Project::Ready(_) => true,
            _ => false,
        }
    }

    fn into_result(self) -> (r: Result<Project, ProjectError>) {
        match self {
            Project::Errored(e) => Err(e),
            s => Ok(s),
        }
    }

    fn duplicate(&self) -> (r: Project) {
        *self
    }
}

impl Refresh<WorldContext> for Project {
    /// Reconciliation against the live runtime: a ready project whose
    /// runtime has stopped answering is demoted to its declared failure;
    /// every other state already tells the truth.
    open spec fn refresh_spec(self, ctx: WorldContext) -> Result<Project, Error> {
        match self {
            Project::Ready(r) => if runtime_failed(ctx, r.checks) {
                Ok(Project::Errored(ProjectError { kind: ErrorKind::ProjectUnavailable }))
            } else {
                Ok(Project::Ready(r))
            },
            s => Ok(s),
        }
    }

    fn refresh(self, ctx: &WorldContext) -> (r: Result<Project, Error>) {
        match self {
            Project::Ready(r) => {
                let failed = match ctx.healthy_for {
                    Some(k) => r.checks >= k,
                    None => false,
                };
                if failed {
                    Ok(Project::Errored(ProjectError { kind: ErrorKind::ProjectUnavailable }))
                } else {
                    Ok(Project::Ready(r))
                }
            },
            s => Ok(s),
        }
    }
}

/// While the runtime keeps answering, a project's reconciliation run never
/// ends: from any state short of a declared failure, every step lands on a
/// state short of a declared failure, so the stream keeps yielding — through
/// provisioning, and then as unending health monitoring of the ready state.
pub proof fn lemma_healthy_run_never_ends(ctx: WorldContext, init: Project, n: nat)
    requires
        ctx.healthy_for is None,
        !(init is Errored),
    ensures
        crate::stream::run_reaches(init, ctx, n),
        !(crate::stream::run_seed(init, ctx, n) is Errored),
    decreases n,
{
    if n > 0 {
        lemma_healthy_run_never_ends(ctx, init, (n - 1) as nat);
    }
}

/// Absorbing a health-poll outcome into the lifecycle keeps the branch
/// recoverable by pattern matching: success becomes `Ready` and declared
/// failure becomes `Errored`, each carrying its payload, and the two never
/// coincide.
pub proof fn lemma_absorb_keeps_branch(r: Result<ProjectReady, ProjectError>)
    ensures
        <Result<ProjectReady, ProjectError> as IntoEndState<Project>>::end_state_spec(r) == match r {
            Ok(s) => Project::Ready(s),
            Err(e) => Project::Errored(e),
        },
        r is Ok <==> <Result<ProjectReady, ProjectError> as IntoEndState<Project>>::end_state_spec(
            r,
        ) is Ready,
{
}

} // verus!
