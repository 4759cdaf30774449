use delta_scan::gate::{check_features, feature_allowed};
use delta_scan::config::{translate_storage, DEFAULT_RETRY_BUDGET};
use delta_scan::error::ScanError;

#[test]
fn deletion_vectors_tag_is_refused_by_name() {
    let features = vec!["deletionVectors".to_string()];
    match check_features(&features) {
        Err(ScanError::UnsupportedFeature(tag)) => assert_eq!(tag, "deletionVectors"),
        _ => panic!("deletion vectors must stop the scan"),
    }
}

#[test]
fn column_mapping_tag_is_refused_by_name() {
    let features = vec!["timestampNtz".to_string(), "columnMapping".to_string()];
    match check_features(&features) {
        Err(ScanError::UnsupportedFeature(tag)) => assert_eq!(tag, "columnMapping"),
        _ => panic!("column mapping must stop the scan"),
    }
}

#[test]
fn unknown_future_tag_is_refused_not_silently_allowed() {
    assert!(!feature_allowed(&"someFutureCapability".to_string()));
    let features = vec!["someFutureCapability".to_string()];
    assert!(check_features(&features).is_err());
}

#[test]
fn allowlisted_tags_pass_the_gate() {
    let features = vec![
        "timestampNtz".to_string(),
        "v2Checkpoint".to_string(),
        "vacuumProtocolCheck".to_string(),
    ];
    assert!(check_features(&features).is_ok());
    assert!(check_features(&vec![]).is_ok());
}

#[test]
fn absent_storage_options_translate_to_no_access_config() {
    let loc = "/data/table".to_string();
    assert!(translate_storage(&loc, None, None).is_none());
    assert!(translate_storage(&loc, None, Some(7)).is_none());
}

#[test]
fn retry_budget_defaults_to_ten() {
    let loc = "s3://bucket/table".to_string();
    let opts = vec![("aws_region".to_string(), "eu".to_string())];
    let cfg = translate_storage(&loc, Some(opts), None).unwrap();
    assert_eq!(cfg.max_retries, 10);
    assert_eq!(cfg.max_retries, DEFAULT_RETRY_BUDGET);
    assert_eq!(cfg.url, "s3://bucket/table");
    assert_eq!(cfg.entries.len(), 1);
    assert_eq!(cfg.entries[0].0, "aws_region");
}

#[test]
fn explicit_retry_budget_is_kept() {
    let loc = "s3://bucket/table".to_string();
    let opts = vec![("aws_region".to_string(), "eu".to_string())];
    let cfg = translate_storage(&loc, Some(opts), Some(3)).unwrap();
    assert_eq!(cfg.max_retries, 3);
}
