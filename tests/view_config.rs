use std::collections::HashMap;

use perspective_client::proto::{self, ColumnsUpdate};
use perspective_client::{
    Aggregate, ClientError, Expressions, Filter, FilterTerm, Scalar, Sort, SortDir, ViewConfig, ViewConfigUpdate,
};

fn names(v: &[&str]) -> Vec<String> {
    v.iter().map(|s| s.to_string()).collect()
}

fn expressions(pairs: &[(&str, &str)]) -> Expressions {
    Expressions(pairs.iter().map(|(k, v)| (k.to_string(), v.to_string())).collect())
}

fn empty_config() -> ViewConfig {
    ViewConfig {
        group_by: vec![],
        split_by: vec![],
        columns: vec![],
        filter: vec![],
        sort: vec![],
        expressions: Expressions(HashMap::new()),
        aggregates: HashMap::new(),
    }
}

#[test]
fn default_config_is_empty() {
    assert_eq!(ViewConfig::default(), empty_config());
    assert!(!ViewConfig::default().is_aggregated());
}

#[test]
fn empty_patch_changes_nothing() {
    let mut config = ViewConfig::default();
    assert!(!config.apply_update(ViewConfigUpdate::default()));
    assert_eq!(config, ViewConfig::default());
}

#[test]
fn group_by_then_reset_keeps_expressions() {
    let mut config = ViewConfig::default();
    let patch = ViewConfigUpdate {
        group_by: Some(names(&["a"])),
        expressions: Some(expressions(&[("twice", "\"a\" * 2")])),
        ..ViewConfigUpdate::default()
    };
    assert!(config.apply_update(patch));
    assert_eq!(config.group_by, names(&["a"]));
    assert!(config.is_aggregated());

    config.reset(false);
    assert!(config.group_by.is_empty());
    assert!(!config.is_aggregated());
    assert_eq!(config.expressions, expressions(&[("twice", "\"a\" * 2")]));

    config.reset(true);
    assert_eq!(config, ViewConfig::default());
}

#[test]
fn reapplying_the_same_values_reports_no_change() {
    let mut config = ViewConfig::default();
    let patch = ViewConfigUpdate {
        group_by: Some(names(&["a"])),
        filter: Some(vec![Filter("a".to_string(), "in".to_string(), FilterTerm::Array(vec![Scalar::Bool(true)]))]),
        expressions: Some(expressions(&[("e", "1")])),
        aggregates: Some(HashMap::from([("a".to_string(), Aggregate::MultiAggregate("w".to_string(), "b".to_string()))])),
        ..ViewConfigUpdate::default()
    };
    assert!(config.apply_update(patch.clone()));
    let before = config.clone();
    assert!(!config.apply_update(patch));
    assert_eq!(config, before);
    // A different value in one field is a change.
    assert!(config.apply_update(ViewConfigUpdate {
        aggregates: Some(HashMap::from([("a".to_string(), Aggregate::SingleAggregate("sum".to_string()))])),
        ..ViewConfigUpdate::default()
    }));
    assert!(config.apply_update(ViewConfigUpdate {
        filter: Some(vec![Filter("a".to_string(), "in".to_string(), FilterTerm::Array(vec![Scalar::Bool(false)]))]),
        ..ViewConfigUpdate::default()
    }));
}

#[test]
fn patch_applies_field_by_field() {
    let mut config = ViewConfig::default();
    config.apply_update(ViewConfigUpdate {
        split_by: Some(names(&["b"])),
        sort: Some(vec![Sort("a".to_string(), SortDir::Desc)]),
        ..ViewConfigUpdate::default()
    });
    let changed = config.apply_update(ViewConfigUpdate {
        columns: Some(vec![Some("a".to_string()), None]),
        ..ViewConfigUpdate::default()
    });
    assert!(changed);
    assert_eq!(config.split_by, names(&["b"]));
    assert_eq!(config.sort, vec![Sort("a".to_string(), SortDir::Desc)]);
    assert_eq!(config.columns, vec![Some("a".to_string()), None]);
    assert!(config.group_by.is_empty());
}

#[test]
fn column_in_use_anywhere_in_the_config() {
    let mut config = ViewConfig::default();
    assert!(!config.is_column_expression_in_use("x"));
    config.filter = vec![Filter("f".to_string(), "==".to_string(), FilterTerm::Scalar(Scalar::Integer(3)))];
    config.sort = vec![Sort("s".to_string(), SortDir::Asc)];
    config.columns = vec![None, Some("c".to_string())];
    config.group_by = names(&["g"]);
    config.split_by = names(&["p"]);
    for name in ["f", "s", "c", "g", "p"] {
        assert!(config.is_column_expression_in_use(name), "{name}");
    }
    assert!(!config.is_column_expression_in_use("x"));
    assert!(!config.is_column_expression_in_use(""));
}

#[test]
fn patch_wire_form_fills_defaults_and_drops_empty_slots() {
    let patch = ViewConfigUpdate {
        columns: Some(vec![Some("a".to_string()), None, Some("b".to_string())]),
        aggregates: Some(HashMap::from([("a".to_string(), Aggregate::SingleAggregate("sum".to_string()))])),
        ..ViewConfigUpdate::default()
    };
    let wire = patch.to_message();
    assert_eq!(wire.columns, Some(ColumnsUpdate::Columns(names(&["a", "b"]))));
    assert!(wire.group_by.is_empty());
    assert!(wire.expressions.is_empty());
    assert_eq!(wire.aggregates.len(), 1);

    let none = ViewConfigUpdate::default().to_message();
    assert_eq!(none.columns, None);
}

#[test]
fn reported_config_is_read_back() {
    let wire = proto::ViewConfig {
        group_by: names(&["a"]),
        split_by: vec![],
        columns: Some(ColumnsUpdate::Columns(names(&["a", "b"]))),
        filter: vec![],
        sort: vec![],
        expressions: HashMap::from([("e".to_string(), "1".to_string())]),
        aggregates: HashMap::new(),
    };
    let config = ViewConfig::from_message(wire.clone()).unwrap();
    assert_eq!(config.group_by, names(&["a"]));
    assert_eq!(config.columns, vec![Some("a".to_string()), Some("b".to_string())]);
    assert_eq!(config.expressions, expressions(&[("e", "1")]));

    let defaults = proto::ViewConfig { columns: Some(ColumnsUpdate::DefaultColumns), ..wire.clone() };
    assert_eq!(ViewConfig::from_message(defaults), Err(ClientError::Malformed));
    let missing = proto::ViewConfig { columns: None, ..wire };
    assert_eq!(ViewConfig::from_message(missing), Err(ClientError::Malformed));
}

#[test]
fn config_becomes_a_full_patch() {
    let mut config = ViewConfig::default();
    config.group_by = names(&["a"]);
    let patch = ViewConfigUpdate::from(config.clone());
    assert_eq!(patch.group_by, Some(names(&["a"])));
    assert_eq!(patch.columns, Some(vec![]));
    let mut other = ViewConfig::default();
    assert!(other.apply_update(patch));
    assert_eq!(other, config);
}
