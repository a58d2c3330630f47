use message_threads::message::ActorId;
use message_threads::supervisor::{
    Directive, ExitStatus, Misplaced, Report, Stage, Supervisor, SupervisorView,
};

fn stopped(who: ActorId, sent: u64) -> Report {
    Report::ActorStopped { who, sent }
}

#[test]
fn the_supervisor_starts_by_installing_the_handler() {
    let supervisor = Supervisor::new();
    assert_eq!(supervisor.stage(), Stage::Installing);
    assert_eq!(supervisor.directive(), Directive::InstallHandler);
    assert_eq!(
        supervisor.snapshot(),
        SupervisorView { stage: Stage::Installing, final_a: None, final_b: None }
    );
}

#[test]
fn a_handler_that_fails_ends_the_run_before_any_actor_starts() {
    let mut supervisor = Supervisor::new();
    assert_eq!(
        supervisor.step(Report::HandlerFailed),
        Ok(Directive::Exit(ExitStatus::HandlerInstallFailure))
    );
    assert_eq!(supervisor.stage(), Stage::Exited(ExitStatus::HandlerInstallFailure));
    assert_ne!(ExitStatus::HandlerInstallFailure.code(), 0);
    assert_eq!(supervisor.final_count(ActorId::A), None);
    assert_eq!(supervisor.final_count(ActorId::B), None);
}

#[test]
fn a_clean_run_ends_with_success_after_both_actors() {
    let mut supervisor = Supervisor::new();
    assert_eq!(supervisor.step(Report::HandlerInstalled), Ok(Directive::StartActors));
    assert_eq!(supervisor.stage(), Stage::Supervising);
    assert_eq!(supervisor.step(stopped(ActorId::A, 5)), Ok(Directive::KeepWaiting));
    assert_eq!(supervisor.stage(), Stage::Supervising);
    assert_eq!(
        supervisor.step(stopped(ActorId::B, 4)),
        Ok(Directive::Exit(ExitStatus::Success))
    );
    assert_eq!(supervisor.stage(), Stage::Exited(ExitStatus::Success));
    assert_eq!(ExitStatus::Success.code(), 0);
}

#[test]
fn each_actor_leaves_its_final_count() {
    let mut supervisor = Supervisor::new();
    supervisor.step(Report::HandlerInstalled).unwrap();
    assert_eq!(supervisor.final_count(ActorId::A), None);
    supervisor.step(stopped(ActorId::A, 5)).unwrap();
    assert_eq!(supervisor.final_count(ActorId::A), Some(5));
    assert_eq!(supervisor.final_count(ActorId::B), None);
    supervisor.step(stopped(ActorId::B, 0)).unwrap();
    assert_eq!(supervisor.final_count(ActorId::A), Some(5));
    assert_eq!(supervisor.final_count(ActorId::B), Some(0));
}

#[test]
fn the_order_in_which_the_actors_stop_does_not_matter() {
    let mut supervisor = Supervisor::new();
    supervisor.step(Report::HandlerInstalled).unwrap();
    assert_eq!(supervisor.step(stopped(ActorId::B, 2)), Ok(Directive::KeepWaiting));
    assert_eq!(
        supervisor.step(stopped(ActorId::A, 2)),
        Ok(Directive::Exit(ExitStatus::Success))
    );
}

#[test]
fn a_fault_in_an_actor_ends_the_run_with_a_failure() {
    let mut supervisor = Supervisor::new();
    supervisor.step(Report::HandlerInstalled).unwrap();
    supervisor.step(stopped(ActorId::A, 1)).unwrap();
    assert_eq!(
        supervisor.step(Report::ActorFaulted { who: ActorId::B }),
        Ok(Directive::Exit(ExitStatus::ActorFault))
    );
    assert_eq!(ExitStatus::ActorFault.code(), 101);
    assert_eq!(supervisor.final_count(ActorId::A), Some(1));
    assert_eq!(supervisor.final_count(ActorId::B), None);
}

#[test]
fn an_actor_cannot_stop_twice() {
    let mut supervisor = Supervisor::new();
    supervisor.step(Report::HandlerInstalled).unwrap();
    supervisor.step(stopped(ActorId::A, 3)).unwrap();
    let report = stopped(ActorId::A, 4);
    assert_eq!(supervisor.step(report), Err(Misplaced { report }));
    assert_eq!(supervisor.final_count(ActorId::A), Some(3));
    assert_eq!(supervisor.stage(), Stage::Supervising);
}

#[test]
fn an_actor_that_has_stopped_cannot_fault() {
    let mut supervisor = Supervisor::new();
    supervisor.step(Report::HandlerInstalled).unwrap();
    supervisor.step(stopped(ActorId::B, 3)).unwrap();
    let report = Report::ActorFaulted { who: ActorId::B };
    assert_eq!(supervisor.step(report), Err(Misplaced { report }));
    assert_eq!(supervisor.stage(), Stage::Supervising);
}

#[test]
fn no_actor_report_is_taken_before_the_handler_is_in_place() {
    let mut supervisor = Supervisor::new();
    for report in [stopped(ActorId::A, 0), Report::ActorFaulted { who: ActorId::B }] {
        assert_eq!(supervisor.step(report), Err(Misplaced { report }));
    }
    assert_eq!(supervisor.stage(), Stage::Installing);
}

#[test]
fn nothing_is_taken_after_the_end() {
    let mut supervisor = Supervisor::new();
    supervisor.step(Report::HandlerFailed).unwrap();
    for report in [
        Report::HandlerInstalled,
        Report::HandlerFailed,
        stopped(ActorId::A, 0),
        Report::ActorFaulted { who: ActorId::A },
    ] {
        assert_eq!(supervisor.step(report), Err(Misplaced { report }));
    }
    assert_eq!(supervisor.directive(), Directive::Exit(ExitStatus::HandlerInstallFailure));
}

#[test]
fn the_handler_is_installed_once() {
    let mut supervisor = Supervisor::new();
    supervisor.step(Report::HandlerInstalled).unwrap();
    let report = Report::HandlerInstalled;
    assert_eq!(supervisor.step(report), Err(Misplaced { report }));
}
