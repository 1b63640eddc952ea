use keyshred::KeyError;
use keyshred::node::ColonyNode;
use keyshred::shred::Classification;
use keyshred::shred::SLOW_THRESHOLD_MICROS;
use keyshred::shred::classify;

#[test]
fn classification_threshold_is_exact() {
    assert_eq!(SLOW_THRESHOLD_MICROS, 30_000);
    assert_eq!(classify(true, 0), Classification::Success);
    assert_eq!(classify(true, 30_000), Classification::Success);
    assert_eq!(classify(true, 30_001), Classification::SlowWarning);
    assert_eq!(classify(true, u128::MAX), Classification::SlowWarning);
    assert_eq!(classify(false, 0), Classification::NotFound);
    assert_eq!(classify(false, 30_001), Classification::NotFound);
}

#[test]
fn node_binds_region_and_delegates_destruction() {
    let mut node = ColonyNode::new("QUEBEC-BHS-SECURE");
    assert_eq!(node.region(), "QUEBEC-BHS-SECURE");

    assert_eq!(
        node.insert(String::from("session_user_882"), vec![0xDE, 0xAD, 0xBE, 0xEF]),
        Ok(())
    );
    assert!(node.contains("session_user_882"));

    let outcome = node.trigger_shred("session_user_882");
    assert!(outcome.found);
    assert_eq!(outcome.key_id, "session_user_882");
    assert!(!node.contains("session_user_882"));

    let again = node.trigger_shred("session_user_882");
    assert!(!again.found);
    assert_eq!(again.classification, Classification::NotFound);
}

#[test]
fn node_rejects_duplicate_provisioning() {
    let mut node = ColonyNode::new("r2");
    assert_eq!(node.insert(String::from("k"), vec![1]), Ok(()));
    assert_eq!(node.insert(String::from("k"), vec![2]), Err(KeyError::DuplicateKey));
    assert!(node.contains("k"));
}
