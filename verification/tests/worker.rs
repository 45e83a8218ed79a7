use gateway::engine::Args;
use gateway::engine::Refresh;
use gateway::engine::Service;
use gateway::project::Project;
use gateway::project::ProjectReady;
use gateway::project::WorldContext;
use gateway::service::MemoryService;
use gateway::stream::EndStateExt;
use gateway::worker::drive;
use gateway::worker::DriveOutcome;
use gateway::worker::Worker;
use gateway::ErrorKind;

fn args() -> Args {
    Args {
        control: "127.0.0.1:8000".to_string(),
        user: "127.0.0.1:8001".to_string(),
        image: "backend:latest".to_string(),
        prefix: "gateway_".to_string(),
        provisioner_host: "provisioner.internal".to_string(),
        network_id: "net0".to_string(),
        state: "gateway.sqlite".to_string(),
    }
}

fn ready(checks: u64) -> Project {
    Project::Ready(ProjectReady { checks })
}

type ProjectWorker = Worker<WorldContext, Project, MemoryService>;

#[test]
fn every_committed_snapshot_precedes_the_next_transition() {
    let service = MemoryService::new(args(), None, None);
    let mut worker: ProjectWorker = Worker::new(service);
    worker.enqueue(Project::Creating);
    let ctx = worker.service().context();
    let out = worker.drive_next(ctx, 5).unwrap();
    assert!(matches!(out, DriveOutcome::Spent));
    assert_eq!(
        worker.service().snapshots().as_slice(),
        &[Project::Starting, Project::Started, ready(0), ready(1), ready(2)]
    );
}

#[test]
fn commit_failure_is_surfaced_and_resume_starts_from_last_commit() {
    // The second commit (number 1, counting from 0) is refused.
    let service = MemoryService::new(args(), None, Some(1));
    let mut worker: ProjectWorker = Worker::new(service);
    worker.enqueue(Project::Creating);
    let ctx = worker.service().context();

    match worker.drive_next(ctx, 5).unwrap() {
        DriveOutcome::CommitFailed { steps, snapshot, error } => {
            assert_eq!(steps, 1);
            assert_eq!(snapshot, Project::Started);
            assert_eq!(error.kind(), ErrorKind::Internal);
        },
        other => panic!("commit failure was not surfaced: {:?}", outcome_name(&other)),
    }
    // The refused snapshot was not persisted and nothing advanced past it.
    assert_eq!(worker.service().snapshots().as_slice(), &[Project::Starting]);

    // Resume from the last committed snapshot, healed through the refresh
    // port — not from scratch.
    let ctx = worker.service().context();
    let resumed = worker
        .service()
        .snapshots()
        .last()
        .copied()
        .unwrap()
        .refresh(&ctx)
        .unwrap();
    assert_eq!(resumed, Project::Starting);
    worker.enqueue(resumed);
    let ctx = worker.service().context();
    let out = worker.drive_next(ctx, 3).unwrap();
    assert!(matches!(out, DriveOutcome::Spent));
    assert_eq!(
        worker.service().snapshots().as_slice(),
        &[Project::Starting, Project::Started, ready(0), ready(1)]
    );
}

#[test]
fn declared_failure_stops_the_pass() {
    let service = MemoryService::new(args(), Some(1), None);
    let mut worker: ProjectWorker = Worker::new(service);
    worker.enqueue(Project::Creating);
    let ctx = worker.service().context();
    match worker.drive_next(ctx, 10).unwrap() {
        DriveOutcome::Stopped { steps, failure } => {
            assert_eq!(steps, 4);
            assert_eq!(failure.kind, ErrorKind::ProjectUnavailable);
        },
        other => panic!("stream end was not reported: {:?}", outcome_name(&other)),
    }
    assert_eq!(
        worker.service().snapshots().as_slice(),
        &[Project::Starting, Project::Started, ready(0), ready(1)]
    );
}

#[test]
fn a_finished_stream_reports_exhaustion() {
    let mut service = MemoryService::new(args(), Some(0), None);
    let ctx = service.context();
    let mut stream = ready(0).into_stream(ctx);
    match drive(&mut stream, &mut service, 4) {
        DriveOutcome::Stopped { steps, failure } => {
            assert_eq!(steps, 0);
            assert_eq!(failure.kind, ErrorKind::ProjectUnavailable);
        },
        other => panic!("stream end was not reported: {:?}", outcome_name(&other)),
    }
    assert!(matches!(
        drive(&mut stream, &mut service, 4),
        DriveOutcome::Exhausted
    ));
    assert!(service.snapshots().is_empty());
}

#[test]
fn a_zero_budget_pass_commits_nothing() {
    let mut service = MemoryService::new(args(), None, None);
    let ctx = service.context();
    let mut stream = Project::Creating.into_stream(ctx);
    assert!(matches!(drive(&mut stream, &mut service, 0), DriveOutcome::Spent));
    assert!(service.snapshots().is_empty());
}

#[test]
fn the_queue_hands_items_over_in_order() {
    let service = MemoryService::new(args(), None, None);
    let mut worker: ProjectWorker = Worker::new(service);
    let ctx = worker.service().context();
    assert!(worker.drive_next(ctx, 3).is_none());

    worker.enqueue(Project::Started);
    worker.enqueue(Project::Creating);
    let ctx = worker.service().context();
    worker.drive_next(ctx, 1).unwrap();
    assert_eq!(worker.service().snapshots().as_slice(), &[ready(0)]);
    let ctx = worker.service().context();
    worker.drive_next(ctx, 1).unwrap();
    assert_eq!(worker.service().snapshots().as_slice(), &[ready(0), Project::Starting]);
}

fn outcome_name(out: &DriveOutcome<Project, gateway::project::ProjectError>) -> &'static str {
    match out {
        DriveOutcome::Spent => "spent",
        DriveOutcome::Stopped { .. } => "stopped",
        DriveOutcome::CommitFailed { .. } => "commit failed",
        DriveOutcome::Exhausted => "exhausted",
    }
}
