//! Tests for the query selection rule on its own.

use svg_raster::{QueryNode, filter_identified};

fn node(id: &str, x: i64) -> QueryNode {
    QueryNode { id: id.to_string(), x_milli: x, y_milli: 0, width_milli: 1000, height_milli: 1000 }
}

#[test]
fn unidentified_nodes_are_excluded() {
    let nodes = vec![node("a", 1), node("", 2), node("b", 3)];
    let kept = filter_identified(&nodes);
    assert_eq!(kept.len(), 2);
    assert_eq!(kept[0].id, "a".to_string());
    assert_eq!(kept[1].id, "b".to_string());
}

#[test]
fn document_order_is_preserved() {
    let nodes = vec![node("z", 1), node("a", 2), node("m", 3)];
    let kept = filter_identified(&nodes);
    let ids: Vec<String> = kept.iter().map(|n| n.id.clone()).collect();
    assert_eq!(ids, vec!["z".to_string(), "a".to_string(), "m".to_string()]);
}

#[test]
fn all_unidentified_yields_an_empty_result() {
    let nodes = vec![node("", 1), node("", 2)];
    assert_eq!(filter_identified(&nodes).len(), 0);
}

#[test]
fn coordinates_pass_through_unchanged() {
    let nodes = vec![node("a", 1001)];
    let kept = filter_identified(&nodes);
    assert_eq!(kept[0].x_milli, 1001);
    assert_eq!(kept[0].width_milli, 1000);
}
