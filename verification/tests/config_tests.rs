use safety_rules_config::config::{
    LoggerConfig, OnDiskStorageConfig, PeerId, SafetyRulesConfig, SafetyRulesService,
    SafetyRulesTestConfig, SecureBackend,
};

fn author() -> PeerId {
    PeerId { bytes: (0u8..16).collect() }
}

#[test]
fn default_configuration_values() {
    let c = SafetyRulesConfig::default();
    assert_eq!(c.backend, SecureBackend::InMemoryStorage);
    assert_eq!(c.logger, LoggerConfig { settings: String::new() });
    assert_eq!(c.service, SafetyRulesService::Thread);
    assert!(c.test.is_none());
    assert!(c.verify_vote_proposal_signature);
}

#[test]
fn set_data_dir_rewrites_on_disk_backend() {
    let mut c = SafetyRulesConfig::default();
    c.backend = SecureBackend::OnDiskStorage(OnDiskStorageConfig {
        data_dir: String::from("/old"),
    });
    c.set_data_dir(String::from("/secure/data"));
    match &c.backend {
        SecureBackend::OnDiskStorage(disk) => assert_eq!(disk.data_dir, "/secure/data"),
        other => panic!("backend changed variant: {:?}", other),
    }
}

#[test]
fn set_data_dir_is_no_op_for_in_memory_backend() {
    let mut c = SafetyRulesConfig::default();
    let before = c.clone();
    c.set_data_dir(String::from("/ignored"));
    assert_eq!(c, before);
}

#[test]
fn set_data_dir_is_no_op_for_vault_backend() {
    let mut c = SafetyRulesConfig::default();
    c.backend = SecureBackend::Vault;
    let before = c.clone();
    c.set_data_dir(String::from("/ignored"));
    assert_eq!(c, before);
}

#[test]
fn new_test_config_has_no_keys_and_no_waypoint() {
    let t = SafetyRulesTestConfig::new(author());
    assert_eq!(t.author, author());
    assert!(t.consensus_keypair.is_none());
    assert!(t.execution_keypair.is_none());
    assert!(t.waypoint.is_none());
}

#[test]
fn peer_id_accepts_only_sixteen_bytes() {
    assert!(PeerId::from_bytes(vec![0u8; 16]).is_some());
    assert!(PeerId::from_bytes(vec![0u8; 15]).is_none());
    assert!(PeerId::from_bytes(vec![0u8; 32]).is_none());
}
