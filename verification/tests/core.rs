use status_core::notify::Notifier;
use status_core::producer::Blinker;
use status_core::producer::Level;
use status_core::producer::monitor_event;
use status_core::render::DrawColor;
use status_core::render::DrawOp;
use status_core::render::background_label;
use status_core::render::render_background;
use status_core::render::render_indicator;
use status_core::render::render_pass;
use status_core::render::renderer_turn;
use status_core::status::Mutation;
use status_core::status::StatusRecord;
use status_core::status::apply;
use status_core::store::Store;

fn indicator1_circle(color: DrawColor) -> DrawOp {
    DrawOp::FillCircle { x: 105, y: 105, diameter: 30, color }
}

fn indicator2_circle(color: DrawColor) -> DrawOp {
    DrawOp::FillCircle { x: 165, y: 105, diameter: 30, color }
}

#[test]
fn initial_state_renders_both_off() {
    let store = Store::new();
    let snapshot = store.snapshot();
    assert_eq!(snapshot, StatusRecord { indicator1: false, indicator2: false });

    let background = render_background();
    assert_eq!(
        background,
        vec![
            DrawOp::FillRect { x: 0, y: 0, width: 320, height: 240, color: DrawColor::Black },
            DrawOp::Label { x: 60, y: 0, color: DrawColor::White },
        ]
    );

    let ops = render_pass(snapshot);
    assert_eq!(
        ops,
        vec![
            indicator1_circle(DrawColor::DarkGray),
            indicator2_circle(DrawColor::DarkGray),
        ]
    );
}

#[test]
fn toggle_indicator1_runs_exactly_one_pass() {
    let mut store = Store::new();
    store.update(Mutation::SetIndicator1(true));

    let first = renderer_turn(&mut store);
    assert_eq!(
        first,
        Some(vec![
            indicator1_circle(DrawColor::Green),
            indicator2_circle(DrawColor::DarkGray),
        ])
    );

    // The one pending notification is consumed: no second pass runs.
    assert_eq!(renderer_turn(&mut store), None);
}

#[test]
fn both_producers_coalesce_into_one_pass() {
    let mut store = Store::new();
    store.update(Mutation::SetIndicator1(true));
    store.update(Mutation::SetIndicator2(true));

    let first = renderer_turn(&mut store);
    assert_eq!(
        first,
        Some(vec![
            indicator1_circle(DrawColor::Green),
            indicator2_circle(DrawColor::Green),
        ])
    );

    assert_eq!(renderer_turn(&mut store), None);
}

#[test]
fn redundant_update_still_redraws_identical_pixels() {
    let mut store = Store::new();
    store.update(Mutation::SetIndicator2(false));

    let before = store.snapshot();
    // The field already held false: the record is unchanged ...
    assert_eq!(before, StatusRecord { indicator1: false, indicator2: false });

    // ... yet a render pass still occurs, and redraws the same operations.
    let pass = renderer_turn(&mut store);
    assert_eq!(pass, Some(render_pass(before)));
    assert_eq!(renderer_turn(&mut store), None);
}

#[test]
fn signals_between_two_waits_resume_once() {
    let mut notifier = Notifier::new();
    notifier.signal();
    notifier.signal();
    notifier.signal();
    notifier.signal();
    notifier.signal();

    assert!(notifier.take());
    assert!(!notifier.take());
}

#[test]
fn fresh_notifier_has_nothing_pending() {
    let mut notifier = Notifier::new();
    assert!(!notifier.take());
}

#[test]
fn renderer_does_not_wake_without_a_signal() {
    let mut store = Store::new();
    assert_eq!(renderer_turn(&mut store), None);
}

#[test]
fn update_applies_one_whole_field() {
    let r = StatusRecord { indicator1: true, indicator2: false };
    assert_eq!(
        apply(Mutation::SetIndicator2(true), r),
        StatusRecord { indicator1: true, indicator2: true }
    );
    assert_eq!(
        apply(Mutation::SetIndicator1(false), r),
        StatusRecord { indicator1: false, indicator2: false }
    );
}

#[test]
fn snapshot_is_a_value_copy() {
    let mut store = Store::new();
    let snapshot = store.snapshot();
    store.update(Mutation::SetIndicator1(true));
    // A later producer write never reaches into a snapshot already taken.
    assert_eq!(snapshot, StatusRecord { indicator1: false, indicator2: false });
    assert_eq!(store.snapshot(), StatusRecord { indicator1: true, indicator2: false });
}

#[test]
fn update_rearms_the_notifier_unconditionally() {
    let mut store = Store::new();
    store.update(Mutation::SetIndicator1(false));
    assert!(store.take_notification());
    assert!(!store.take_notification());
}

#[test]
fn blinker_alternates_level_and_phase() {
    let mut blinker = Blinker::new();
    assert_eq!(blinker.tick(), (Level::High, Mutation::SetIndicator1(true)));
    assert_eq!(blinker.tick(), (Level::Low, Mutation::SetIndicator1(false)));
    assert_eq!(blinker.tick(), (Level::High, Mutation::SetIndicator1(true)));
    assert_eq!(blinker.tick(), (Level::Low, Mutation::SetIndicator1(false)));
}

#[test]
fn blinker_indicator_matches_driven_level() {
    let mut blinker = Blinker::new();
    for _ in 0..6 {
        let (level, mutation) = blinker.tick();
        assert_eq!(mutation, Mutation::SetIndicator1(level == Level::High));
    }
}

#[test]
fn monitor_forwards_the_raw_level() {
    assert_eq!(monitor_event(Level::High), Mutation::SetIndicator2(true));
    assert_eq!(monitor_event(Level::Low), Mutation::SetIndicator2(false));
}

#[test]
fn indicator_geometry_is_centred() {
    assert_eq!(
        render_indicator(120, 120, true),
        DrawOp::FillCircle { x: 105, y: 105, diameter: 30, color: DrawColor::Green }
    );
    assert_eq!(
        render_indicator(180, 120, false),
        DrawOp::FillCircle { x: 165, y: 105, diameter: 30, color: DrawColor::DarkGray }
    );
}

#[test]
fn render_pass_is_deterministic_in_the_snapshot() {
    let s = StatusRecord { indicator1: true, indicator2: false };
    assert_eq!(render_pass(s), render_pass(s));
}

#[test]
fn background_label_text() {
    assert_eq!(background_label(), "Erturk Me");
}
