use rand::rngs::StdRng;
use rand::SeedableRng;
use safety_rules_config::codec::{deserialize, serialize, ConfigField, ParseError};
use safety_rules_config::config::{
    NetworkAddress, OnDiskStorageConfig, PeerId, RemoteService, SafetyRulesConfig,
    SafetyRulesService, SafetyRulesTestConfig, SecureBackend, Waypoint,
};
use safety_rules_config::hexstr::{hex_decode, hex_encode};

fn field(key: &str, value: &str) -> ConfigField {
    ConfigField { key: String::from(key), value: String::from(value) }
}

fn default_fields() -> Vec<ConfigField> {
    vec![
        field("backend", "in_memory"),
        field("logger", ""),
        field("service", "thread"),
        field("verify_vote_proposal_signature", "true"),
    ]
}

#[test]
fn serialized_default_configuration_has_the_documented_fields() {
    let fields = serialize(&SafetyRulesConfig::default());
    assert_eq!(fields, default_fields());
}

#[test]
fn default_configuration_round_trips() {
    let c = SafetyRulesConfig::default();
    let fields = serialize(&c);
    assert_eq!(deserialize(&fields), Ok(c));
}

#[test]
fn full_configuration_round_trips() {
    let mut t = SafetyRulesTestConfig::new(PeerId { bytes: (0u8..16).collect() });
    let mut rng = StdRng::seed_from_u64(42);
    t.random_consensus_key(&mut rng);
    t.random_execution_key(&mut rng);
    t.waypoint = Some(Waypoint::new(String::from("0:1f2e")));
    let c = SafetyRulesConfig {
        backend: SecureBackend::OnDiskStorage(OnDiskStorageConfig {
            data_dir: String::from("/secure/store"),
        }),
        logger: Default::default(),
        service: SafetyRulesService::SpawnedProcess(RemoteService {
            server_address: NetworkAddress::new(String::from("/dns4/safety.example/tcp/6185")),
        }),
        test: Some(t),
        verify_vote_proposal_signature: false,
    };
    let fields = serialize(&c);
    assert_eq!(deserialize(&fields), Ok(c));
}

#[test]
fn process_service_round_trips() {
    let c = SafetyRulesConfig {
        service: SafetyRulesService::Process(RemoteService {
            server_address: NetworkAddress::new(String::from("10.0.0.8:6185")),
        }),
        ..SafetyRulesConfig::default()
    };
    let fields = serialize(&c);
    assert_eq!(deserialize(&fields), Ok(c));
}

#[test]
fn unknown_service_discriminator_is_rejected() {
    let fields = vec![
        field("backend", "in_memory"),
        field("logger", ""),
        field("service", "container"),
        field("verify_vote_proposal_signature", "true"),
    ];
    assert_eq!(deserialize(&fields), Err(ParseError::BadValue));
}

#[test]
fn unknown_top_level_field_is_rejected() {
    let mut fields = default_fields();
    fields.push(field("operator_key", "deadbeef"));
    assert_eq!(deserialize(&fields), Err(ParseError::UnexpectedField));
}

#[test]
fn unknown_field_in_the_middle_is_rejected() {
    let fields = vec![
        field("backend", "in_memory"),
        field("chain_id", "4"),
        field("logger", ""),
        field("service", "thread"),
        field("verify_vote_proposal_signature", "true"),
    ];
    assert!(deserialize(&fields).is_err());
}

#[test]
fn missing_required_field_is_rejected() {
    let empty: Vec<ConfigField> = Vec::new();
    assert_eq!(deserialize(&empty), Err(ParseError::MissingField));
    let no_flag = vec![field("backend", "in_memory"), field("logger", ""), field(
        "service",
        "thread",
    )];
    assert_eq!(deserialize(&no_flag), Err(ParseError::MissingField));
}

#[test]
fn malformed_author_is_rejected() {
    let fields = vec![
        field("backend", "in_memory"),
        field("logger", ""),
        field("service", "thread"),
        field("test.author", "zz"),
        field("verify_vote_proposal_signature", "true"),
    ];
    assert_eq!(deserialize(&fields), Err(ParseError::BadValue));
}

#[test]
fn short_consensus_key_is_rejected() {
    let fields = vec![
        field("backend", "in_memory"),
        field("logger", ""),
        field("service", "thread"),
        field("test.author", "000102030405060708090a0b0c0d0e0f"),
        field("test.consensus_private_key", "0badc0de"),
        field("verify_vote_proposal_signature", "true"),
    ];
    assert_eq!(deserialize(&fields), Err(ParseError::BadValue));
}

#[test]
fn malformed_flag_value_is_rejected() {
    let fields = vec![
        field("backend", "in_memory"),
        field("logger", ""),
        field("service", "thread"),
        field("verify_vote_proposal_signature", "yes"),
    ];
    assert_eq!(deserialize(&fields), Err(ParseError::BadValue));
}

#[test]
fn misplaced_field_is_rejected() {
    let fields = vec![
        field("logger", ""),
        field("backend", "in_memory"),
        field("service", "thread"),
        field("verify_vote_proposal_signature", "true"),
    ];
    assert_eq!(deserialize(&fields), Err(ParseError::UnexpectedField));
}

#[test]
fn hex_encoding_is_lowercase_pairs() {
    assert_eq!(hex_encode(&vec![0x0f, 0xa0, 0x00]), "0fa000");
    assert_eq!(hex_encode(&Vec::new()), "");
}

#[test]
fn hex_decoding_inverts_encoding() {
    let bytes: Vec<u8> = (0u8..32).collect();
    let text = hex_encode(&bytes);
    assert_eq!(hex_decode(&text), Some(bytes));
}

#[test]
fn hex_decoding_rejects_malformed_text() {
    assert_eq!(hex_decode(&String::from("abc")), None);
    assert_eq!(hex_decode(&String::from("0G")), None);
    assert_eq!(hex_decode(&String::from("AB")), None);
}
