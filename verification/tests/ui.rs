use nrv_rs::ui::{step, Step, StepEvent};

#[test]
fn step_records_events() {
    let step = step("scaffold").info("starting").ok(Some("done"));
    assert_eq!(step.label(), "scaffold");
    assert_eq!(
        step.events(),
        [StepEvent::Info("starting".into()), StepEvent::Success(Some("done".into())),]
    );
}

#[test]
fn module_is_named_ui() {
    assert_eq!(nrv_rs::ui::module_name(), "ui");
}

#[test]
fn new_step_has_no_events() {
    let fresh = Step::new("plan");
    assert_eq!(fresh.label(), "plan");
    assert!(fresh.events().is_empty());
}

#[test]
fn recording_leaves_the_earlier_step_as_it_was() {
    let first = step("build").info("one");
    let second = first.fail(Some("broke"));
    let third = first.ok(None);
    assert_eq!(first.events(), [StepEvent::Info("one".into())]);
    assert_eq!(
        second.events(),
        [StepEvent::Info("one".into()), StepEvent::Fail(Some("broke".into()))]
    );
    assert_eq!(third.events(), [StepEvent::Info("one".into()), StepEvent::Success(None)]);
    assert_eq!(second.label(), "build");
}

#[test]
fn with_event_appends_in_order() {
    let recorded = step("s")
        .with_event(StepEvent::Fail(None))
        .with_event(StepEvent::Info("i".into()))
        .with_event(StepEvent::Success(Some("k".into())));
    assert_eq!(
        recorded.events(),
        [StepEvent::Fail(None), StepEvent::Info("i".into()), StepEvent::Success(Some("k".into()))]
    );
}

#[test]
fn event_copy_is_equal() {
    for event in [
        StepEvent::Info("a".into()),
        StepEvent::Success(None),
        StepEvent::Success(Some("b".into())),
        StepEvent::Fail(Some("c".into())),
    ] {
        assert_eq!(event.duplicate(), event);
    }
}
