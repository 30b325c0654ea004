use tracing_indicatif::default_style;
use tracing_indicatif::PbSubscriber;

fn attrs(pairs: &[(&str, &str)]) -> Vec<(String, String)> {
    pairs.iter().map(|(k, v)| (k.to_string(), v.to_string())).collect()
}

#[test]
fn default_configuration() {
    let b = PbSubscriber::default();
    assert_eq!(b.configured_key().as_str(), "");
    assert_eq!(b.steady_tick_ms(), 120);
    assert!(!b.ticks_all());
    assert_eq!(b.forced_tick_count(), 0);
    assert!(b.done_messages().is_empty());
}

#[test]
fn builders_replace_configuration() {
    let b = PbSubscriber::default()
        .with_steady_tick(0)
        .with_description_key("op".to_string())
        .with_tick_all_spans(true);
    assert_eq!(b.configured_key().as_str(), "op");
    assert_eq!(b.steady_tick_ms(), 0);
    assert!(b.ticks_all());
}

#[test]
fn created_span_stores_attribute_label() {
    let mut b = PbSubscriber::new(default_style(), "op".to_string(), 0);
    b.on_new_span(1, &"root".to_string(), &attrs(&[("op", "Building")]), 0);
    assert_eq!(b.label_text(1), Some("|Building".to_string()));
    assert!(!b.is_active(1));
}

#[test]
fn created_span_falls_back_to_name() {
    let mut b = PbSubscriber::new(default_style(), "op".to_string(), 0);
    b.on_new_span(2, &"child".to_string(), &attrs(&[]), 1);
    assert_eq!(b.label_text(2), Some("|-child".to_string()));
}

#[test]
fn empty_description_span_is_inert() {
    let mut b = PbSubscriber::new(default_style(), String::new(), 0);
    b.on_new_span(7, &String::new(), &attrs(&[("op", "ignored")]), 0);
    assert_eq!(b.label_text(7), None);
    b.on_enter(7);
    assert!(!b.is_active(7));
    b.on_exit(7, 0, &vec![]);
    assert!(b.done_messages().is_empty());
}

#[test]
fn enter_exit_reenter_cycles_the_line() {
    let mut b = PbSubscriber::new(default_style(), String::new(), 0);
    b.on_new_span(1, &"work".to_string(), &attrs(&[]), 1);
    assert!(!b.is_active(1));
    b.on_enter(1);
    assert!(b.is_active(1));
    b.on_exit(1, 1, &vec![]);
    assert!(!b.is_active(1));
    assert_eq!(b.label_text(1), Some("|-work".to_string()));
    b.on_enter(1);
    assert!(b.is_active(1));
    b.on_exit(1, 1, &vec![]);
    assert!(!b.is_active(1));
}

#[test]
fn entering_unknown_span_is_a_no_op() {
    let mut b = PbSubscriber::new(default_style(), String::new(), 0);
    b.on_enter(42);
    assert!(!b.is_active(42));
    b.on_exit(42, 0, &vec![]);
    assert!(b.done_messages().is_empty());
}

#[test]
fn root_exit_leaves_completion_line() {
    let mut b = PbSubscriber::new(default_style(), "op".to_string(), 0);
    b.on_new_span(1, &"root".to_string(), &attrs(&[("op", "Building")]), 0);
    b.on_enter(1);
    b.on_exit(1, 0, &vec![]);
    assert_eq!(b.done_messages(), &vec!["|Building done!".to_string()]);
    assert!(!b.is_active(1));
}

#[test]
fn nested_exit_leaves_no_trace() {
    let mut b = PbSubscriber::new(default_style(), String::new(), 0);
    b.on_new_span(2, &"child".to_string(), &attrs(&[]), 1);
    b.on_enter(2);
    b.on_exit(2, 1, &vec![]);
    assert!(b.done_messages().is_empty());
    assert!(!b.is_active(2));
}

#[test]
fn static_configuration_never_ticks() {
    let mut b = PbSubscriber::new(default_style(), String::new(), 0);
    b.on_new_span(1, &"root".to_string(), &attrs(&[]), 0);
    b.on_enter(1);
    assert!(!b.is_auto_ticking(1));
    b.on_new_span(2, &"child".to_string(), &attrs(&[]), 1);
    b.on_enter(2);
    b.on_event(&vec![1, 2]);
    b.on_exit(2, 1, &vec![1]);
    b.on_exit(1, 0, &vec![]);
    assert_eq!(b.forced_tick_count(), 0);
    assert!(!b.is_auto_ticking(1));
    assert!(!b.is_auto_ticking(2));
}

#[test]
fn steady_interval_enables_automatic_animation() {
    let mut b = PbSubscriber::new(default_style(), String::new(), 120);
    b.on_new_span(1, &"root".to_string(), &attrs(&[]), 0);
    b.on_enter(1);
    assert!(b.is_auto_ticking(1));
    b.on_exit(1, 0, &vec![]);
    assert!(!b.is_auto_ticking(1));
}

#[test]
fn tick_all_spans_counts_forced_frames() {
    let mut b = PbSubscriber::new(default_style(), String::new(), 0).with_tick_all_spans(true);
    b.on_new_span(1, &"root".to_string(), &attrs(&[]), 0);
    b.on_new_span(2, &"child".to_string(), &attrs(&[]), 1);
    b.on_enter(1);
    b.on_enter(2);
    b.on_event(&vec![1, 2]);
    assert_eq!(b.forced_tick_count(), 2);
    // an id without a live line adds nothing
    b.on_event(&vec![1, 2, 3]);
    assert_eq!(b.forced_tick_count(), 4);
    // on exit the exited span's line is already gone; only the rest tick
    b.on_exit(2, 1, &vec![1, 2]);
    assert_eq!(b.forced_tick_count(), 5);
}

#[test]
fn closing_a_span_drops_its_state() {
    let mut b = PbSubscriber::new(default_style(), String::new(), 0);
    b.on_new_span(1, &"root".to_string(), &attrs(&[]), 0);
    b.on_enter(1);
    b.on_close(1);
    assert!(!b.is_active(1));
    assert_eq!(b.label_text(1), None);
    b.on_enter(1);
    assert!(!b.is_active(1));
}

#[test]
fn nested_scenario_end_to_end() {
    let mut b = PbSubscriber::new(default_style(), "op".to_string(), 0);
    b.on_new_span(1, &"root".to_string(), &attrs(&[("op", "Building")]), 0);
    b.on_enter(1);
    b.on_new_span(2, &"child".to_string(), &attrs(&[]), 1);
    b.on_enter(2);
    assert_eq!(b.label_text(1), Some("|Building".to_string()));
    assert_eq!(b.label_text(2), Some("|-child".to_string()));
    b.on_exit(2, 1, &vec![1, 2]);
    assert!(!b.is_active(2));
    assert!(b.is_active(1));
    assert!(b.done_messages().is_empty());
    b.on_exit(1, 0, &vec![1]);
    assert!(!b.is_active(1));
    assert_eq!(b.done_messages(), &vec!["|Building done!".to_string()]);
}

#[test]
fn reentering_an_active_span_keeps_its_line() {
    let mut b = PbSubscriber::new(default_style(), String::new(), 120);
    b.on_new_span(1, &"work".to_string(), &attrs(&[]), 0);
    b.on_enter(1);
    assert!(b.is_active(1));
    assert!(b.is_auto_ticking(1));
    b.on_enter(1);
    assert!(b.is_active(1));
    assert!(b.is_auto_ticking(1));
    b.on_exit(1, 0, &vec![]);
    assert!(!b.is_active(1));
    assert_eq!(b.done_messages(), &vec!["|work done!".to_string()]);
}

#[test]
fn surface_hands_out_the_one_shared_handle() {
    let b = PbSubscriber::default();
    let first = b.surface();
    let second = b.surface();
    assert!(std::sync::Arc::ptr_eq(&first, &second));
}
