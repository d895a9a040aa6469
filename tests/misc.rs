use hydrolox::game::ProcessStage;
use hydrolox::physics::CollisionType;
use hydrolox::render::StaticMeshInstance;
use hydrolox::timer::{Stopwatch, Timer};

#[test]
fn timer_is_due_once_its_duration_passed() {
    let t = Timer::from_now(100);
    assert_eq!(t.end(), 100);
    assert!(!t.is_due_at(99));
    assert!(t.is_due_at(100));
    assert!(t.is_due_at(250));
}

#[test]
fn timer_check_reset_restarts_when_due() {
    let mut t = Timer::from_now(100);
    assert!(!t.check_reset_at(50));
    assert_eq!(t.end(), 100);
    assert!(t.check_reset_at(130));
    assert_eq!(t.end(), 230);
}

#[test]
fn timer_of_zero_is_due_now() {
    let mut t = Timer::from_now(0);
    assert!(t.check());
    assert!(t.check_reset());
    let long = Timer::from_now(u128::MAX);
    assert_eq!(long.end(), u128::MAX);
    assert!(!long.check());
}

#[test]
fn stopwatch_adds_up_runs() {
    let mut s = Stopwatch::new();
    assert_eq!(s.since_last_start_at(40), Some(40));
    assert_eq!(s.total_at(40), 40);
    s.pause_at(40);
    assert_eq!(s.since_last_start_at(90), None);
    assert_eq!(s.total_at(90), 40);
    assert_eq!(s.total(), 40);
    s.reset_at(100);
    assert_eq!(s.total_at(100), 0);
}

#[test]
fn stopwatch_reset_restarts_a_running_run() {
    let mut s = Stopwatch::new();
    s.reset_at(50);
    assert_eq!(s.since_last_start_at(70), Some(20));
    assert_eq!(s.since_last_start_at(30), Some(0));
    assert!(s.since_last_start().is_some());
    s.pause();
    assert!(s.since_last_start().is_none());
    s.reset();
    assert!(s.since_last_start().is_none());
}

#[test]
fn collision_type_continuity() {
    assert!(CollisionType::Continuous.is_continuous());
    assert!(!CollisionType::Discrete.is_continuous());
}

#[test]
fn process_stage_defaults_to_normal() {
    assert_eq!(ProcessStage::default(), ProcessStage::Normal);
}

#[test]
fn mesh_instance_keeps_names() {
    let m = StaticMeshInstance::new("monkey".to_string(), "slate_gray".to_string());
    assert_eq!(m.mesh_name, "monkey");
    assert_eq!(m.material_name, "slate_gray");
}
