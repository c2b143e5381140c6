use stonehenge::{
    bulkhead_pillars, plan_scene, BodyKind, BodyPlan, ConfigError, DutyCycle, Part,
    PlatformController, RingLayout, Shape, StepAction,
};

fn layout(n: usize) -> RingLayout {
    RingLayout::new(n).expect("valid pillar count")
}

fn count_parts(bodies: &[BodyPlan], pillar: bool) -> usize {
    bodies
        .iter()
        .filter(|b| match b.part {
            Part::Pillar { .. } => pillar,
            Part::Bulkhead { .. } => !pillar,
            _ => false,
        })
        .count()
}

#[test]
fn layout_rejects_too_few_pillars() {
    assert_eq!(RingLayout::new(0), Err(ConfigError::TooFewPillars));
    assert_eq!(RingLayout::new(1), Err(ConfigError::TooFewPillars));
}

#[test]
fn layout_rejects_odd_pillar_count() {
    assert_eq!(RingLayout::new(3), Err(ConfigError::OddPillarCount));
    assert_eq!(RingLayout::new(13), Err(ConfigError::OddPillarCount));
}

#[test]
fn layout_accepts_even_counts() {
    let l = layout(12);
    assert_eq!(l.pillar_count(), 12);
    assert_eq!(l.bulkhead_count(), 6);
    assert_eq!(layout(2).bulkhead_count(), 1);
}

#[test]
fn bulkheads_follow_odd_pillars() {
    assert_eq!(bulkhead_pillars(0), None);
    assert_eq!(bulkhead_pillars(1), Some((0, 1)));
    assert_eq!(bulkhead_pillars(4), None);
    assert_eq!(bulkhead_pillars(11), Some((10, 11)));
}

#[test]
fn twelve_pillar_scene_census() {
    let plan = plan_scene(&layout(12));
    assert_eq!(plan.bodies.len(), 20);
    assert_eq!(plan.count_kind(BodyKind::Fixed), 1);
    assert_eq!(plan.count_kind(BodyKind::Dynamic), 18);
    assert_eq!(plan.count_kind(BodyKind::Kinematic), 1);
    assert_eq!(plan.colliders.len(), 20);
    for b in 0..plan.bodies.len() {
        assert_eq!(plan.colliders_on(b), 1);
    }
    assert_eq!(plan.colliders_on(20), 0);
}

#[test]
fn pillar_and_bulkhead_counts_for_even_rings() {
    for n in [2usize, 4, 6, 12, 100] {
        let plan = plan_scene(&layout(n));
        assert_eq!(count_parts(&plan.bodies, true), n);
        assert_eq!(count_parts(&plan.bodies, false), n / 2);
    }
}

#[test]
fn scene_order_and_shapes() {
    let plan = plan_scene(&layout(4));
    let parts: Vec<Part> = plan.bodies.iter().map(|b| b.part).collect();
    assert_eq!(
        parts,
        vec![
            Part::Ground,
            Part::Pillar { index: 0 },
            Part::Pillar { index: 1 },
            Part::Bulkhead { first: 0, second: 1 },
            Part::Pillar { index: 2 },
            Part::Pillar { index: 3 },
            Part::Bulkhead { first: 2, second: 3 },
            Part::Platform,
        ]
    );
    let shapes: Vec<Shape> = plan.colliders.iter().map(|c| c.shape).collect();
    assert_eq!(
        shapes,
        vec![
            Shape::GroundBox,
            Shape::RoundCylinder,
            Shape::RoundCylinder,
            Shape::BulkheadBox,
            Shape::RoundCylinder,
            Shape::RoundCylinder,
            Shape::BulkheadBox,
            Shape::PlatformBox,
        ]
    );
    for (k, c) in plan.colliders.iter().enumerate() {
        assert_eq!(c.body, k);
    }
    assert_eq!(plan.bodies[0].kind, BodyKind::Fixed);
    assert_eq!(plan.bodies[3].kind, BodyKind::Dynamic);
    assert_eq!(plan.bodies[7].kind, BodyKind::Kinematic);
}

#[test]
fn planning_twice_gives_the_same_plan() {
    let a = plan_scene(&layout(12));
    let b = plan_scene(&layout(12));
    assert_eq!(a.bodies, b.bodies);
    assert_eq!(a.colliders, b.colliders);
}

#[test]
fn duty_cycle_rejects_empty_cycle() {
    assert_eq!(DutyCycle::new(0, 5), Err(ConfigError::EmptyCycle));
}

#[test]
fn duty_cycle_half_window_moves_and_holds() {
    let duty = DutyCycle::new(100, 50).expect("non-empty cycle");
    assert_eq!(duty.cycle_length(), 100);
    assert_eq!(duty.active_steps(), 50);
    let mut c = PlatformController::new(7u32, duty);
    for step in 1u64..=300 {
        let action = c.on_step();
        assert_eq!(c.steps(), step);
        let expected = if step % 100 < 50 { StepAction::Move } else { StepAction::Hold };
        assert_eq!(action, expected, "step {}", step);
    }
    assert_eq!(*c.platform(), 7);
}

#[test]
fn duty_cycle_full_idle_window_holds() {
    let duty = DutyCycle::new(100, 50).expect("non-empty cycle");
    let mut c = PlatformController::new((), duty);
    for _ in 0..49 {
        assert_eq!(c.on_step(), StepAction::Move);
    }
    for _ in 0..50 {
        assert_eq!(c.on_step(), StepAction::Hold);
    }
    assert_eq!(c.on_step(), StepAction::Move);
}

#[test]
fn duty_cycle_short_burst() {
    let duty = DutyCycle::new(100, 11).expect("non-empty cycle");
    assert!(duty.is_active(1));
    assert!(duty.is_active(10));
    assert!(!duty.is_active(11));
    assert!(!duty.is_active(99));
    assert!(duty.is_active(100));
    assert!(duty.is_active(210));
    assert!(!duty.is_active(211));
}

#[test]
fn controller_starts_at_zero() {
    let duty = DutyCycle::new(3, 1).expect("non-empty cycle");
    let c = PlatformController::new("platform", duty);
    assert_eq!(c.steps(), 0);
    assert_eq!(c.duty(), duty);
    assert_eq!(*c.platform(), "platform");
}
