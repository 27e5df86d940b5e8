use mara_core::enforce::{
    mark_app_shelf_published, mark_app_shell_shown, mark_app_theme_applied, opt_out_shell, plan_enforced_defaults, record_fallback_rendered,
    set_enforcing, shell_enforced_pass,
};
use mara_core::memory::MaraMemory;

/// What a host does each pass: ask for the plan and render the fallback
/// bar while enforcing when it is due. Returns whether the bar painted.
fn enforce_defaults(memory: &mut MaraMemory, pass: u64) -> bool {
    let plan = plan_enforced_defaults(memory, pass);
    match plan.fallback.bar_due {
        Some(due) => {
            set_enforcing(memory, true);
            record_fallback_rendered(memory, due);
            set_enforcing(memory, false);
            true
        }
        None => false,
    }
}

#[test]
fn fallback_bar_kicks_in_after_grace_pass() {
    let mut memory = MaraMemory::new();

    let painted_first = enforce_defaults(&mut memory, 0);
    assert!(
        shell_enforced_pass(&memory).is_none(),
        "grace pass must not draw the fallback bar"
    );

    let _ = enforce_defaults(&mut memory, 1);
    assert!(
        shell_enforced_pass(&memory).is_some(),
        "second pass without an app bar must enforce the fallback"
    );

    let after_second = shell_enforced_pass(&memory).expect("stamped above");
    let painted_third = enforce_defaults(&mut memory, 2);
    let after_third = shell_enforced_pass(&memory).expect("still enforced");
    assert!(
        after_third > after_second,
        "fallback must re-render every pass without an app bar"
    );
    assert!(
        painted_third && !painted_first,
        "the enforced bar must actually paint something"
    );
}

#[test]
fn app_bar_suppresses_fallback() {
    let mut memory = MaraMemory::new();

    for pass in 0..4u64 {
        enforce_defaults(&mut memory, pass);
        mark_app_shell_shown(&mut memory, pass);
    }
    assert!(
        shell_enforced_pass(&memory).is_none(),
        "fallback must never fire while the app renders the bar"
    );
}

#[test]
fn explicit_opt_out_suppresses_fallback_per_frame() {
    let mut memory = MaraMemory::new();

    for pass in 0..3u64 {
        opt_out_shell(&mut memory, pass);
        enforce_defaults(&mut memory, pass);
    }
    assert!(
        shell_enforced_pass(&memory).is_none(),
        "opted-out frames must not draw the fallback bar"
    );

    enforce_defaults(&mut memory, 3);
    assert!(shell_enforced_pass(&memory).is_none());
    enforce_defaults(&mut memory, 4);
    assert!(
        shell_enforced_pass(&memory).is_some(),
        "the bar must come back once the opt-out is no longer repeated"
    );
}

#[test]
fn fallback_takes_over_when_app_bar_stops() {
    let mut memory = MaraMemory::new();

    for pass in 0..2u64 {
        enforce_defaults(&mut memory, pass);
        mark_app_shell_shown(&mut memory, pass);
    }
    enforce_defaults(&mut memory, 2);
    assert!(shell_enforced_pass(&memory).is_none());
    enforce_defaults(&mut memory, 3);
    assert!(shell_enforced_pass(&memory).is_some());
}

#[test]
fn enforcing_pass_plans_nothing() {
    let mut memory = MaraMemory::new();
    set_enforcing(&mut memory, true);
    let plan = plan_enforced_defaults(&mut memory, 5);
    assert!(!plan.apply_theme);
    assert!(!plan.fallback.publish_shelf_baseline);
    assert_eq!(plan.fallback.bar_due, None);
}

#[test]
fn theme_and_shelf_defaults_follow_app_stamps() {
    let mut memory = MaraMemory::new();
    let plan = plan_enforced_defaults(&mut memory, 0);
    assert!(plan.apply_theme);
    assert!(plan.fallback.publish_shelf_baseline);

    mark_app_theme_applied(&mut memory, 1);
    mark_app_shelf_published(&mut memory, 1);
    let plan = plan_enforced_defaults(&mut memory, 2);
    assert!(!plan.apply_theme);
    assert!(!plan.fallback.publish_shelf_baseline);
    let plan = plan_enforced_defaults(&mut memory, 3);
    assert!(plan.apply_theme);
    assert!(plan.fallback.publish_shelf_baseline);
}

#[test]
fn opting_out_then_stopping_brings_the_bar_back_one_pass_later() {
    let mut memory = MaraMemory::new();
    for pass in 0..3u64 {
        opt_out_shell(&mut memory, pass);
        assert!(!enforce_defaults(&mut memory, pass));
    }
    assert!(!enforce_defaults(&mut memory, 3));
    assert!(enforce_defaults(&mut memory, 4));
    assert!(enforce_defaults(&mut memory, 5));
}
