use package_installer::failure::PreflightFailure;
use package_installer::preflight::{Preflight, PreflightEvent, PreflightNext, PreflightPhase};

fn fresh() -> Preflight {
    Preflight::new(String::from("C:\\Demo"))
}

#[test]
fn preparation_starts_by_probing() {
    let p = fresh();
    assert_eq!(p.phase, PreflightPhase::Probing);
    assert_eq!(p.install_path, "C:\\Demo");
}

#[test]
fn existing_target_is_cleared_then_created_then_handed_over() {
    let mut p = fresh();
    assert_eq!(p.step(PreflightEvent::TargetFound), PreflightNext::ClearTarget);
    assert_eq!(p.phase, PreflightPhase::Clearing);
    assert_eq!(p.step(PreflightEvent::Cleared), PreflightNext::CreateTarget);
    assert_eq!(p.phase, PreflightPhase::Creating);
    assert_eq!(
        p.step(PreflightEvent::Created),
        PreflightNext::Start { install_path: String::from("C:\\Demo") }
    );
    assert_eq!(p.phase, PreflightPhase::Ready);
}

#[test]
fn missing_target_is_created_at_once() {
    let mut p = fresh();
    assert_eq!(p.step(PreflightEvent::TargetMissing), PreflightNext::CreateTarget);
    assert_eq!(
        p.step(PreflightEvent::Created),
        PreflightNext::Start { install_path: String::from("C:\\Demo") }
    );
}

#[test]
fn target_that_cannot_be_cleared_is_refused() {
    let mut p = fresh();
    p.step(PreflightEvent::TargetFound);
    let got = p.step(PreflightEvent::NotCleared { reason: String::from("in use") });
    assert_eq!(
        got,
        PreflightNext::Refuse(PreflightFailure::CleanupFailed { reason: String::from("in use") })
    );
    assert_eq!(p.phase, PreflightPhase::Refused);
    assert_eq!(p.step(PreflightEvent::Created), PreflightNext::Nothing);
    assert_eq!(p.step(PreflightEvent::Cleared), PreflightNext::Nothing);
}

#[test]
fn target_that_cannot_be_created_is_refused() {
    let mut p = fresh();
    p.step(PreflightEvent::TargetMissing);
    let got = p.step(PreflightEvent::NotCreated { reason: String::from("read-only") });
    assert_eq!(
        got,
        PreflightNext::Refuse(
            PreflightFailure::DirectoryCreateFailed { reason: String::from("read-only") }
        )
    );
    assert_eq!(p.step(PreflightEvent::Created), PreflightNext::Nothing);
}

#[test]
fn existing_target_is_never_handed_over_uncleared() {
    let mut p = fresh();
    p.step(PreflightEvent::TargetFound);
    assert_eq!(p.step(PreflightEvent::Created), PreflightNext::Nothing);
    assert_eq!(p.step(PreflightEvent::TargetMissing), PreflightNext::Nothing);
    assert_eq!(p.step(PreflightEvent::Created), PreflightNext::Nothing);
    assert_eq!(p.phase, PreflightPhase::Clearing);
}

#[test]
fn ready_preparation_answers_nothing_more() {
    let mut p = fresh();
    p.step(PreflightEvent::TargetMissing);
    p.step(PreflightEvent::Created);
    assert_eq!(p.step(PreflightEvent::Created), PreflightNext::Nothing);
    assert_eq!(p.step(PreflightEvent::TargetFound), PreflightNext::Nothing);
    assert_eq!(p.phase, PreflightPhase::Ready);
}

#[test]
fn two_preparations_do_not_touch_each_other() {
    let mut a = Preflight::new(String::from("C:\\A"));
    let mut b = Preflight::new(String::from("C:\\B"));
    a.step(PreflightEvent::TargetFound);
    b.step(PreflightEvent::TargetMissing);
    assert_eq!(a.phase, PreflightPhase::Clearing);
    assert_eq!(b.phase, PreflightPhase::Creating);
    assert_eq!(
        b.step(PreflightEvent::Created),
        PreflightNext::Start { install_path: String::from("C:\\B") }
    );
    assert_eq!(a.step(PreflightEvent::Cleared), PreflightNext::CreateTarget);
    assert_eq!(
        a.step(PreflightEvent::Created),
        PreflightNext::Start { install_path: String::from("C:\\A") }
    );
}
