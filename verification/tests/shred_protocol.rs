use keyshred::KeyError;
use keyshred::buffer::VolatileKey;
use keyshred::buffer::WIPE_SENTINEL;
use keyshred::node::ColonyNode;
use keyshred::registry::KeyRegistry;
use keyshred::shred::Classification;
use keyshred::shred::trigger_shred;

fn repeated(pattern: &[u8], times: usize) -> Vec<u8> {
    let mut out = Vec::new();
    for _ in 0..times {
        for b in pattern {
            out.push(*b);
        }
    }
    out
}

#[test]
fn wipe_leaves_sentinel_whatever_the_content() {
    let cases: Vec<Vec<u8>> = vec![
        vec![0x00; 16],
        vec![0xFF; 16],
        vec![0xAA; 7],
        vec![1, 2, 3, 4, 5],
        Vec::new(),
    ];
    for (i, material) in cases.into_iter().enumerate() {
        let len = material.len();
        let mut key = VolatileKey::new(format!("key-{}", i), material);
        assert!(!key.is_wiped());
        let wiped = key.nuke();
        assert_eq!(wiped, Ok(()));
        assert!(key.is_wiped());
        assert_eq!(key.len(), len);
        for b in key.material() {
            assert_eq!(*b, WIPE_SENTINEL);
        }
    }
}

#[test]
fn double_wipe_is_rejected() {
    let mut key = VolatileKey::new(String::from("once"), vec![9, 8, 7]);
    assert_eq!(key.nuke(), Ok(()));
    assert_eq!(key.nuke(), Err(KeyError::AlreadyDestroyed));
    for b in key.material() {
        assert_eq!(*b, WIPE_SENTINEL);
    }
}

#[test]
fn shred_of_absent_id_leaves_registry_unchanged() {
    let mut registry = KeyRegistry::new(String::from("east"));
    assert_eq!(registry.insert(String::from("other"), vec![4, 5, 6]), Ok(()));
    let outcome = trigger_shred(&mut registry, "missing");
    assert!(!outcome.found);
    assert_eq!(outcome.classification, Classification::NotFound);
    assert_eq!(outcome.key_id, "missing");
    assert!(registry.contains("other"));
    let kept = registry.lookup("other").expect("entry must survive");
    assert_eq!(kept.material().as_slice(), &[4, 5, 6]);
}

#[test]
fn shred_then_shred_again_reports_not_found() {
    let mut registry = KeyRegistry::new(String::from("west"));
    assert_eq!(registry.insert(String::from("k1"), vec![1, 2, 3]), Ok(()));
    let first = trigger_shred(&mut registry, "k1");
    assert!(first.found);
    assert!(!registry.contains("k1"));
    let second = trigger_shred(&mut registry, "k1");
    assert!(!second.found);
    assert_eq!(second.classification, Classification::NotFound);
}

#[test]
fn duplicate_insert_is_rejected_and_material_untouched() {
    let mut registry = KeyRegistry::new(String::from("north"));
    assert_eq!(registry.insert(String::from("k1"), vec![1, 2, 3]), Ok(()));
    assert_eq!(
        registry.insert(String::from("k1"), vec![9, 9, 9]),
        Err(KeyError::DuplicateKey)
    );
    let kept = registry.lookup("k1").expect("original entry must remain");
    assert_eq!(kept.material().as_slice(), &[1, 2, 3]);
}

#[test]
fn scenario_shred_of_provisioned_session_key() {
    let material = repeated(&[0xDE, 0xAD, 0xBE, 0xEF], 32);
    assert_eq!(material.len(), 128);

    let mut unwiped = VolatileKey::new(String::from("k1"), material.clone());
    assert_eq!(unwiped.nuke(), Ok(()));
    assert_eq!(unwiped.len(), 128);
    for b in unwiped.material() {
        assert_eq!(*b, 0xAA);
    }

    let mut registry = KeyRegistry::new(String::from("vault"));
    assert_eq!(registry.insert(String::from("k1"), material), Ok(()));
    let outcome = trigger_shred(&mut registry, "k1");
    assert!(outcome.found);
    assert_eq!(outcome.key_id, "k1");
    if outcome.elapsed_micros <= 30_000 {
        assert_eq!(outcome.classification, Classification::Success);
    } else {
        assert_eq!(outcome.classification, Classification::SlowWarning);
    }
    assert!(!registry.contains("k1"));
}

#[test]
fn scenario_ghost_id_on_empty_registry() {
    let mut registry = KeyRegistry::new(String::from("empty"));
    let outcome = trigger_shred(&mut registry, "ghost");
    assert!(!outcome.found);
    assert_eq!(outcome.classification, Classification::NotFound);
    assert_eq!(outcome.key_id, "ghost");
}

#[test]
fn lookup_reports_presence_and_material() {
    let mut registry = KeyRegistry::new(String::from("lab"));
    assert!(registry.lookup("a").is_none());
    assert_eq!(registry.insert(String::from("a"), vec![0x10, 0x20]), Ok(()));
    assert_eq!(registry.insert(String::from("b"), vec![0x30]), Ok(()));
    let a = registry.lookup("a").expect("a is present");
    assert_eq!(a.id(), "a");
    assert_eq!(a.material().as_slice(), &[0x10, 0x20]);
    assert!(!a.is_wiped());
    let b = registry.lookup("b").expect("b is present");
    assert_eq!(b.material().as_slice(), &[0x30]);
}
