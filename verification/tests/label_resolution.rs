use tracing_indicatif::make_label;
use tracing_indicatif::resolve_description;

fn attrs(pairs: &[(&str, &str)]) -> Vec<(String, String)> {
    pairs.iter().map(|(k, v)| (k.to_string(), v.to_string())).collect()
}

#[test]
fn description_prefers_designated_attribute() {
    let d = resolve_description(
        &"op".to_string(),
        &"root".to_string(),
        &attrs(&[("op", "Building")]),
    );
    assert_eq!(d, "Building");
}

#[test]
fn description_falls_back_to_name_when_attribute_absent() {
    let d = resolve_description(&"op".to_string(), &"root".to_string(), &attrs(&[("other", "x")]));
    assert_eq!(d, "root");
}

#[test]
fn description_falls_back_to_name_when_attribute_empty() {
    let d = resolve_description(&"op".to_string(), &"root".to_string(), &attrs(&[("op", "")]));
    assert_eq!(d, "root");
}

#[test]
fn description_uses_name_when_no_key_configured() {
    let d = resolve_description(&String::new(), &"root".to_string(), &attrs(&[("op", "Building")]));
    assert_eq!(d, "root");
}

#[test]
fn last_matching_attribute_wins() {
    let d = resolve_description(
        &"op".to_string(),
        &"root".to_string(),
        &attrs(&[("op", "first"), ("op", "second")]),
    );
    assert_eq!(d, "second");
}

#[test]
fn label_has_one_dash_per_ancestor() {
    let a = attrs(&[]);
    let key = String::new();
    let name = "child".to_string();
    assert_eq!(make_label(&key, &name, &a, 0), Some("|child".to_string()));
    assert_eq!(make_label(&key, &name, &a, 1), Some("|-child".to_string()));
    assert_eq!(make_label(&key, &name, &a, 3), Some("|---child".to_string()));
}

#[test]
fn empty_description_yields_no_label() {
    let a = attrs(&[]);
    assert_eq!(make_label(&String::new(), &String::new(), &a, 0), None);
    assert_eq!(make_label(&"op".to_string(), &String::new(), &a, 2), None);
}

#[test]
fn label_combines_attribute_and_depth() {
    let l = make_label(
        &"op".to_string(),
        &"root".to_string(),
        &attrs(&[("op", "Building")]),
        2,
    );
    assert_eq!(l, Some("|--Building".to_string()));
}
