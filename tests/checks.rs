use pysupercluster::config::{ClusterConfig, ConfigError};
use pysupercluster::engine::{decode_cluster_id, ClusterOrigin};
use pysupercluster::payload::{payload_from_json, settle_payload, PayloadError, PayloadPolicy};
use pysupercluster::records::{check_coordinate_count, check_point_shapes, GeometryShape, RecordError};

#[test]
fn config_defaults() {
    let c = ClusterConfig::default();
    assert_eq!(c, ClusterConfig::new(0, 16, 2, 64));
    assert_eq!(c.validate(), Ok(()));
}

#[test]
fn config_rejects_inverted_zooms() {
    assert_eq!(ClusterConfig::new(5, 4, 2, 64).validate(), Err(ConfigError::ZoomBounds));
    assert_eq!(ClusterConfig::new(5, 4, 0, 64).validate(), Err(ConfigError::ZoomBounds));
}

#[test]
fn config_rejects_zero_min_points() {
    assert_eq!(ClusterConfig::new(0, 16, 0, 64).validate(), Err(ConfigError::MinPoints));
}

#[test]
fn config_accepts_zero_leaf_size() {
    assert_eq!(ClusterConfig::new(0, 16, 2, 0).validate(), Ok(()));
    assert_eq!(ClusterConfig::new(0, 16, 0, 0).validate(), Err(ConfigError::MinPoints));
}

#[test]
fn config_accepts_equal_zooms() {
    assert_eq!(ClusterConfig::new(7, 7, 1, 1).validate(), Ok(()));
}

#[test]
fn payload_parses_json_object() {
    let m = payload_from_json("{\"name\": \"a\", \"n\": 3}", PayloadPolicy::Strict).unwrap();
    assert_eq!(m.len(), 2);
    assert_eq!(m.get("name").and_then(|v| v.as_str()), Some("a"));
    assert_eq!(m.get("n").and_then(|v| v.as_i64()), Some(3));
}

#[test]
fn payload_keeps_apostrophes_and_literals() {
    let text = "{\"name\": \"O'Brien\", \"ok\": true, \"none\": null, \"xs\": [1, 2.5]}";
    let m = payload_from_json(text, PayloadPolicy::Lenient).unwrap();
    assert_eq!(m.len(), 4);
    assert_eq!(m.get("name").and_then(|v| v.as_str()), Some("O'Brien"));
    assert_eq!(m.get("ok").and_then(|v| v.as_bool()), Some(true));
    assert!(m.get("none").unwrap().is_null());
    assert_eq!(m.get("xs").and_then(|v| v.as_array()).map(|a| a.len()), Some(2));
}

#[test]
fn payload_lenient_falls_back_to_empty() {
    let m = payload_from_json("", PayloadPolicy::Lenient).unwrap();
    assert!(m.is_empty());
    let m = payload_from_json("[1, 2]", PayloadPolicy::Lenient).unwrap();
    assert!(m.is_empty());
}

#[test]
fn payload_strict_refuses_malformed() {
    assert_eq!(payload_from_json("None", PayloadPolicy::Strict).unwrap_err(), PayloadError::Malformed);
    assert_eq!(payload_from_json("{\"a\": }", PayloadPolicy::Strict).unwrap_err(), PayloadError::Malformed);
}

#[test]
fn settle_keeps_parsed_object() {
    let parsed = serde_json::from_str::<serde_json::Map<String, serde_json::Value>>("{\"k\": 1}");
    let m = settle_payload(parsed, PayloadPolicy::Strict).unwrap();
    assert!(m.contains_key("k"));
}

#[test]
fn coordinate_pairs_only() {
    assert_eq!(check_coordinate_count(2), Ok(()));
    assert_eq!(check_coordinate_count(1), Err(RecordError::MalformedCoordinates));
    assert_eq!(check_coordinate_count(3), Err(RecordError::MalformedCoordinates));
    assert_eq!(check_coordinate_count(0), Err(RecordError::MalformedCoordinates));
}

#[test]
fn point_shapes_pass() {
    assert_eq!(check_point_shapes(&vec![]), Ok(()));
    assert_eq!(check_point_shapes(&vec![GeometryShape::Point, GeometryShape::Absent]), Ok(()));
    assert_eq!(
        check_point_shapes(&vec![GeometryShape::Point, GeometryShape::Other, GeometryShape::Point]),
        Err(RecordError::NotAPoint)
    );
}

#[test]
fn cluster_ids_decode() {
    assert_eq!(decode_cluster_id(1, 2), None);
    assert_eq!(decode_cluster_id(19, 2), Some(ClusterOrigin { index: 0, zoom: 17 }));
    assert_eq!(decode_cluster_id((5 << 5) + 3 + 10, 10), Some(ClusterOrigin { index: 5, zoom: 3 }));
    assert_eq!(decode_cluster_id(10, 10), Some(ClusterOrigin { index: 0, zoom: 0 }));
}

