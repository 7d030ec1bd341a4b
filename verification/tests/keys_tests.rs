use rand::rngs::StdRng;
use rand::SeedableRng;
use safety_rules_config::config::{PeerId, SafetyRulesTestConfig, Waypoint};

fn author() -> PeerId {
    PeerId { bytes: (0u8..16).collect() }
}

#[test]
fn consensus_key_is_deterministic_for_a_fixed_seed() {
    let mut t1 = SafetyRulesTestConfig::new(author());
    let mut rng1 = StdRng::seed_from_u64(7);
    t1.random_consensus_key(&mut rng1);

    let mut t2 = SafetyRulesTestConfig::new(author());
    let mut rng2 = StdRng::seed_from_u64(7);
    t2.random_consensus_key(&mut rng2);

    assert_eq!(t1.consensus_keypair, t2.consensus_keypair);
    assert!(t1.consensus_keypair.is_some());
}

#[test]
fn consensus_key_generation_overwrites_the_slot_idempotently() {
    let mut t = SafetyRulesTestConfig::new(author());
    let mut rng = StdRng::seed_from_u64(11);
    t.random_consensus_key(&mut rng);
    let first = t.consensus_keypair.clone();

    let mut rng_again = StdRng::seed_from_u64(11);
    t.random_consensus_key(&mut rng_again);
    assert_eq!(t.consensus_keypair, first);
}

#[test]
fn generated_keys_hold_thirty_two_bytes_and_depend_on_the_seed() {
    let mut t = SafetyRulesTestConfig::new(author());
    let mut rng = StdRng::seed_from_u64(1);
    t.random_consensus_key(&mut rng);
    let k1 = t.consensus_keypair.clone().unwrap();
    assert_eq!(k1.private_key.bytes.len(), 32);

    let mut rng_other = StdRng::seed_from_u64(2);
    t.random_consensus_key(&mut rng_other);
    let k2 = t.consensus_keypair.clone().unwrap();
    assert_ne!(k1, k2);
}

#[test]
fn execution_key_generation_leaves_the_consensus_slot_alone() {
    let mut t = SafetyRulesTestConfig::new(author());
    let mut rng = StdRng::seed_from_u64(3);
    t.random_consensus_key(&mut rng);
    let consensus = t.consensus_keypair.clone();
    t.random_execution_key(&mut rng);
    assert_eq!(t.consensus_keypair, consensus);
    assert!(t.execution_keypair.is_some());
    assert_ne!(t.execution_keypair, consensus);
}

#[test]
fn duplicate_for_testing_keeps_key_material() {
    let mut t = SafetyRulesTestConfig::new(author());
    let mut rng = StdRng::seed_from_u64(5);
    t.random_consensus_key(&mut rng);
    t.waypoint = Some(Waypoint::new(String::from("0:genesis")));
    let copy = t.duplicate_for_testing();
    assert_eq!(copy, t);
    assert!(copy.consensus_keypair.is_some());
}

#[test]
fn duplicate_sanitized_strips_keys_and_waypoint() {
    let mut t = SafetyRulesTestConfig::new(author());
    let mut rng = StdRng::seed_from_u64(5);
    t.random_consensus_key(&mut rng);
    t.random_execution_key(&mut rng);
    t.waypoint = Some(Waypoint::new(String::from("0:genesis")));
    let copy = t.duplicate_sanitized();
    assert_eq!(copy.author, t.author);
    assert!(copy.consensus_keypair.is_none());
    assert!(copy.execution_keypair.is_none());
    assert!(copy.waypoint.is_none());
}
