use metrics::callsite::{can_use_fast_path, CallSite, LabelExpr, ValueExpr};
use metrics::identifier::{Identifier, OnceIdentifier};
use metrics::key::{Key, Label};
use metrics::model::MetricKind;

#[test]
fn default_identifier_is_unregistered() {
    assert_eq!(Identifier::default(), Identifier(0));
}

#[test]
fn once_identifier_keeps_first_value() {
    let mut cell = OnceIdentifier::new();
    assert_eq!(cell.get(), None);
    cell.fill(Identifier(5));
    assert_eq!(cell.get(), Some(Identifier(5)));
    cell.fill(Identifier(7));
    assert_eq!(cell.get(), Some(Identifier(5)));
}

#[test]
fn scoped_key_joins_with_dot() {
    let k = Key::scoped("app", "requests", Vec::new());
    assert_eq!(k.name().as_str(), "app.requests");
}

#[test]
fn key_equality_is_name_and_ordered_labels() {
    let a = Key::new(
        "requests".to_string(),
        vec![
            Label::new("service".to_string(), "http".to_string()),
            Label::new("status".to_string(), "ok".to_string()),
        ],
    );
    let b = Key::new(
        "requests".to_string(),
        vec![
            Label::new("service".to_string(), "http".to_string()),
            Label::new("status".to_string(), "ok".to_string()),
        ],
    );
    let reordered = Key::new(
        "requests".to_string(),
        vec![
            Label::new("status".to_string(), "ok".to_string()),
            Label::new("service".to_string(), "http".to_string()),
        ],
    );
    let other_name = Key::from_name("errors".to_string());
    assert!(a.key_eq(&b));
    assert!(!a.key_eq(&reordered));
    assert!(!a.key_eq(&other_name));
}

#[test]
fn fast_path_requires_all_static_labels() {
    let all_static = vec![
        LabelExpr { name: "service".to_string(), value: ValueExpr::Literal("http".to_string()) },
    ];
    let mixed = vec![
        LabelExpr { name: "service".to_string(), value: ValueExpr::Literal("http".to_string()) },
        LabelExpr { name: "status".to_string(), value: ValueExpr::Runtime },
    ];
    let none: Vec<LabelExpr> = Vec::new();
    assert!(can_use_fast_path(&all_static));
    assert!(!can_use_fast_path(&mixed));
    assert!(can_use_fast_path(&none));
}

#[test]
fn call_site_starts_with_empty_cache() {
    let site = CallSite::new(MetricKind::Counter, "requests".to_string(), Vec::new());
    assert!(site.fast_path());
    assert_eq!(site.cached_id(), None);
}

#[test]
fn scoped_call_site_joins_name() {
    let site = CallSite::scoped(MetricKind::Gauge, "app.cache", "size", Vec::new());
    let values: Vec<String> = Vec::new();
    let key = site.build_key(&values);
    assert_eq!(key.name().as_str(), "app.cache.size");
}
