//! The strict serialized form of a safety-rules configuration.
//!
//! A configuration is persisted as an ordered list of key/value fields,
//! one field per schema entry, nested entries under dotted keys.  The
//! schema is closed: deserialization accepts exactly the lists this module
//! produces, rejecting unknown fields, unknown deployment-mode
//! discriminators, malformed values and missing required fields — schema
//! drift fails closed, it is never defaulted away.

use crate::config::{
    Ed25519PrivateKey, KeyPair, LoggerConfig, NetworkAddress, OnDiskStorageConfig, PeerId,
    RemoteService, SafetyRulesConfig, SafetyRulesConfigView, SafetyRulesService,
    SafetyRulesServiceView, SafetyRulesTestConfig, SafetyRulesTestConfigView, SecureBackend,
    SecureBackendView, Waypoint,
};
use crate::hexstr::{bytes_of_hex, hex_decode, hex_encode, hex_of_bytes};
use vstd::prelude::*;

verus! {

/// One serialized field: a schema key and its encoded value.
#[derive(Debug, Clone, PartialEq, Eq)]
pub struct ConfigField {
    pub key: String,
    pub value: String,
}

/// View of [`ConfigField`].
pub struct ConfigFieldView {
    pub key: Seq<char>,
    pub value: Seq<char>,
}

impl View for ConfigField {
    type V = ConfigFieldView;

    open spec fn view(&self) -> ConfigFieldView {
        ConfigFieldView { key: self.key@, value: self.value@ }
    }
}

/// Shorthand for a field view.
pub open spec fn fv(key: Seq<char>, value: Seq<char>) -> ConfigFieldView {
    ConfigFieldView { key, value }
}

/// The views of a list of fields.
pub open spec fn fields_view(fs: Seq<ConfigField>) -> Seq<ConfigFieldView> {
    fs.map_values(|f: ConfigField| f@)
}

/// The value of a boolean field.
pub open spec fn bool_str(b: bool) -> Seq<char> {
    if b {
        "true"@
    } else {
        "false"@
    }
}

/// The serialized form of the backend selector.
pub open spec fn ser_backend(b: SecureBackendView) -> Seq<ConfigFieldView> {
    match b {
        SecureBackendView::InMemoryStorage => seq![fv("backend"@, "in_memory"@)],
        SecureBackendView::OnDiskStorage { data_dir } => seq![
            fv("backend"@, "on_disk"@),
            fv("backend.path"@, data_dir),
        ],
        SecureBackendView::Vault => seq![fv("backend"@, "vault"@)],
    }
}

/// The serialized form of the deployment-mode selector.
pub open spec fn ser_service(s: SafetyRulesServiceView) -> Seq<ConfigFieldView> {
    match s {
        SafetyRulesServiceView::Local => seq![fv("service"@, "local"@)],
        SafetyRulesServiceView::Process { server_address } => seq![
            fv("service"@, "process"@),
            fv("service.server_address"@, server_address),
        ],
        SafetyRulesServiceView::Serializer => seq![fv("service"@, "serializer"@)],
        SafetyRulesServiceView::SpawnedProcess { server_address } => seq![
            fv("service"@, "spawned_process"@),
            fv("service.server_address"@, server_address),
        ],
        SafetyRulesServiceView::Thread => seq![fv("service"@, "thread"@)],
    }
}

/// A field that is present only when its value is.
pub open spec fn ser_opt(key: Seq<char>, v: Option<Seq<char>>) -> Seq<ConfigFieldView> {
    match v {
        Some(s) => seq![fv(key, s)],
        None => Seq::empty(),
    }
}

/// Key material rendered as hex, when present.
pub open spec fn opt_hex(v: Option<Seq<u8>>) -> Option<Seq<char>> {
    match v {
        Some(b) => Some(hex_of_bytes(b)),
        None => None,
    }
}

/// The serialized form of the test sub-record.
pub open spec fn ser_test(t: SafetyRulesTestConfigView) -> Seq<ConfigFieldView> {
    seq![fv("test.author"@, hex_of_bytes(t.author))] + ser_opt(
        "test.consensus_private_key"@,
        opt_hex(t.consensus_keypair),
    ) + ser_opt("test.execution_private_key"@, opt_hex(t.execution_keypair)) + ser_opt(
        "test.waypoint"@,
        t.waypoint,
    )
}

/// The serialized form of a whole configuration, in schema order.
pub open spec fn ser_config(c: SafetyRulesConfigView) -> Seq<ConfigFieldView> {
    ser_backend(c.backend) + seq![fv("logger"@, c.logger)] + ser_service(c.service) + (match c.test {
        Some(t) => ser_test(t),
        None => Seq::empty(),
    }) + seq![fv("verify_vote_proposal_signature"@, bool_str(c.verify_vote_proposal_signature))]
}

/// Append one field to the output.
fn push_field(out: &mut Vec<ConfigField>, key: &str, value: String)
    ensures
        fields_view(final(out)@) == fields_view(old(out)@).push(fv(key@, value@)),
{
    let k = String::from_str(key);
    out.push(ConfigField { key: k, value });
    proof {
        assert(fields_view(out@) =~= fields_view(old(out)@).push(fv(key@, value@)));
    }
}

/// Serialize a configuration into its strict field list.
#[verifier::rlimit(100)]
pub fn serialize(c: &SafetyRulesConfig) -> (r: Vec<ConfigField>)
    ensures
        fields_view(r@) == ser_config(c@),
{
    let mut out: Vec<ConfigField> = Vec::new();
    match &c.backend {
        SecureBackend::InMemoryStorage => {
            push_field(&mut out, "backend", String::from_str("in_memory"));
        },
        SecureBackend::OnDiskStorage(disk) => {
            push_field(&mut out, "backend", String::from_str("on_disk"));
            push_field(&mut out, "backend.path", disk.data_dir.clone());
        },
        SecureBackend::Vault => {
            push_field(&mut out, "backend", String::from_str("vault"));
        },
    }
    proof {
        assert(fields_view(out@) =~= ser_backend(c@.backend));
    }
    push_field(&mut out, "logger", c.logger.settings.clone());
    let ghost done_logger = ser_backend(c@.backend) + seq![fv("logger"@, c@.logger)];
    proof {
        assert(fields_view(out@) =~= done_logger);
    }
    match &c.service {
        SafetyRulesService::Local => {
            push_field(&mut out, "service", String::from_str("local"));
        },
        SafetyRulesService::Process(remote) => {
            push_field(&mut out, "service", String::from_str("process"));
            push_field(&mut out, "service.server_address", remote.server_address.addr.clone());
        },
        SafetyRulesService::Serializer => {
            push_field(&mut out, "service", String::from_str("serializer"));
        },
        SafetyRulesService::SpawnedProcess(remote) => {
            push_field(&mut out, "service", String::from_str("spawned_process"));
            push_field(&mut out, "service.server_address", remote.server_address.addr.clone());
        },
        SafetyRulesService::Thread => {
            push_field(&mut out, "service", String::from_str("thread"));
        },
    }
    let ghost done_service = done_logger + ser_service(c@.service);
    proof {
        assert(fields_view(out@) =~= done_service);
    }
    match &c.test {
        Some(t) => {
            push_field(&mut out, "test.author", hex_encode(&t.author.bytes));
            match &t.consensus_keypair {
                Some(k) => {
                    push_field(
                        &mut out,
                        "test.consensus_private_key",
                        hex_encode(&k.private_key.bytes),
                    );
                },
                None => {},
            }
            match &t.execution_keypair {
                Some(k) => {
                    push_field(
                        &mut out,
                        "test.execution_private_key",
                        hex_encode(&k.private_key.bytes),
                    );
                },
                None => {},
            }
            match &t.waypoint {
                Some(w) => {
                    push_field(&mut out, "test.waypoint", w.value.clone());
                },
                None => {},
            }
            proof {
                assert(fields_view(out@) =~= done_service + ser_test(t@));
            }
        },
        None => {},
    }
    let ghost done_test = done_service + (match c@.test {
        Some(t) => ser_test(t),
        None => Seq::empty(),
    });
    proof {
        assert(fields_view(out@) =~= done_test);
    }
    if c.verify_vote_proposal_signature {
        push_field(&mut out, "verify_vote_proposal_signature", String::from_str("true"));
    } else {
        push_field(&mut out, "verify_vote_proposal_signature", String::from_str("false"));
    }
    proof {
        assert(fields_view(out@) =~= ser_config(c@));
    }
    out
}

/// Why deserialization failed.  Schema errors are surfaced to the caller;
/// they are never defaulted away.
#[derive(Debug, Clone, Copy, PartialEq, Eq)]
pub enum ParseError {
    /// A required field is absent.
    MissingField,
    /// A field's key is not one the schema admits at its position.
    UnexpectedField,
    /// A field's value is malformed for its key.
    BadValue,
}

/// Parse the backend selector from the front of the field list.
pub open spec fn parse_backend(fs: Seq<ConfigFieldView>) -> Result<
    (SecureBackendView, Seq<ConfigFieldView>),
    ParseError,
> {
    if fs.len() == 0 {
        Err(ParseError::MissingField)
    } else if fs[0].key != "backend"@ {
        Err(ParseError::UnexpectedField)
    } else if fs[0].value == "in_memory"@ {
        Ok((SecureBackendView::InMemoryStorage, fs.drop_first()))
    } else if fs[0].value == "vault"@ {
        Ok((SecureBackendView::Vault, fs.drop_first()))
    } else if fs[0].value == "on_disk"@ {
        let rest = fs.drop_first();
        if rest.len() == 0 {
            Err(ParseError::MissingField)
        } else if rest[0].key != "backend.path"@ {
            Err(ParseError::UnexpectedField)
        } else {
            Ok(((SecureBackendView::OnDiskStorage { data_dir: rest[0].value }), rest.drop_first()))
        }
    } else {
        Err(ParseError::BadValue)
    }
}

/// Parse the opaque logger value from the front of the field list.
pub open spec fn parse_logger(fs: Seq<ConfigFieldView>) -> Result<
    (Seq<char>, Seq<ConfigFieldView>),
    ParseError,
> {
    if fs.len() == 0 {
        Err(ParseError::MissingField)
    } else if fs[0].key != "logger"@ {
        Err(ParseError::UnexpectedField)
    } else {
        Ok((fs[0].value, fs.drop_first()))
    }
}

/// Parse the deployment-mode selector from the front of the field list.
/// Exactly five discriminator values are recognized.
pub open spec fn parse_service(fs: Seq<ConfigFieldView>) -> Result<
    (SafetyRulesServiceView, Seq<ConfigFieldView>),
    ParseError,
> {
    if fs.len() == 0 {
        Err(ParseError::MissingField)
    } else if fs[0].key != "service"@ {
        Err(ParseError::UnexpectedField)
    } else if fs[0].value == "local"@ {
        Ok((SafetyRulesServiceView::Local, fs.drop_first()))
    } else if fs[0].value == "serializer"@ {
        Ok((SafetyRulesServiceView::Serializer, fs.drop_first()))
    } else if fs[0].value == "thread"@ {
        Ok((SafetyRulesServiceView::Thread, fs.drop_first()))
    } else if fs[0].value == "process"@ || fs[0].value == "spawned_process"@ {
        let rest = fs.drop_first();
        if rest.len() == 0 {
            Err(ParseError::MissingField)
        } else if rest[0].key != "service.server_address"@ {
            Err(ParseError::UnexpectedField)
        } else if fs[0].value == "process"@ {
            Ok(
                (
                    (SafetyRulesServiceView::Process { server_address: rest[0].value }),
                    rest.drop_first(),
                ),
            )
        } else {
            Ok(
                (
                    (SafetyRulesServiceView::SpawnedProcess { server_address: rest[0].value }),
                    rest.drop_first(),
                ),
            )
        }
    } else {
        Err(ParseError::BadValue)
    }
}

/// Parse an optional key-material field: absent when the next key differs,
/// otherwise exactly thirty-two hex-encoded bytes.
pub open spec fn parse_opt_hex(fs: Seq<ConfigFieldView>, key: Seq<char>) -> Result<
    (Option<Seq<u8>>, Seq<ConfigFieldView>),
    ParseError,
> {
    if fs.len() == 0 || fs[0].key != key {
        Ok((None, fs))
    } else {
        match bytes_of_hex(fs[0].value) {
            Some(b) => if b.len() == 32 {
                Ok((Some(b), fs.drop_first()))
            } else {
                Err(ParseError::BadValue)
            },
            None => Err(ParseError::BadValue),
        }
    }
}

/// Parse an optional verbatim field: absent when the next key differs.
pub open spec fn parse_opt_value(fs: Seq<ConfigFieldView>, key: Seq<char>) -> Result<
    (Option<Seq<char>>, Seq<ConfigFieldView>),
    ParseError,
> {
    if fs.len() == 0 || fs[0].key != key {
        Ok((None, fs))
    } else {
        Ok((Some(fs[0].value), fs.drop_first()))
    }
}

/// Parse the optional test sub-record: it is present exactly when the next
/// field is the author, a sixteen-byte hex principal.
pub open spec fn parse_test(fs: Seq<ConfigFieldView>) -> Result<
    (Option<SafetyRulesTestConfigView>, Seq<ConfigFieldView>),
    ParseError,
> {
    if fs.len() == 0 || fs[0].key != "test.author"@ {
        Ok((None, fs))
    } else {
        match bytes_of_hex(fs[0].value) {
            None => Err(ParseError::BadValue),
            Some(author) => if author.len() != 16 {
                Err(ParseError::BadValue)
            } else {
                match parse_opt_hex(fs.drop_first(), "test.consensus_private_key"@) {
                    Err(e) => Err(e),
                    Ok((consensus_keypair, fs1)) => match parse_opt_hex(
                        fs1,
                        "test.execution_private_key"@,
                    ) {
                        Err(e) => Err(e),
                        Ok((execution_keypair, fs2)) => match parse_opt_value(
                            fs2,
                            "test.waypoint"@,
                        ) {
                            Err(e) => Err(e),
                            Ok((waypoint, fs3)) => Ok(
                                (
                                    Some(
                                        SafetyRulesTestConfigView {
                                            author,
                                            consensus_keypair,
                                            execution_keypair,
                                            waypoint,
                                        },
                                    ),
                                    fs3,
                                ),
                            ),
                        },
                    },
                }
            },
        }
    }
}

/// Parse the signature-verification flag from the front of the field list.
pub open spec fn parse_flag(fs: Seq<ConfigFieldView>) -> Result<
    (bool, Seq<ConfigFieldView>),
    ParseError,
> {
    if fs.len() == 0 {
        Err(ParseError::MissingField)
    } else if fs[0].key != "verify_vote_proposal_signature"@ {
        Err(ParseError::UnexpectedField)
    } else if fs[0].value == "true"@ {
        Ok((true, fs.drop_first()))
    } else if fs[0].value == "false"@ {
        Ok((false, fs.drop_first()))
    } else {
        Err(ParseError::BadValue)
    }
}

/// Parse a whole configuration: the schema's fields in order, then the end
/// of the list; anything left over is an unexpected field.
pub open spec fn parse_config(fs: Seq<ConfigFieldView>) -> Result<
    SafetyRulesConfigView,
    ParseError,
> {
    match parse_backend(fs) {
        Err(e) => Err(e),
        Ok((backend, fs1)) => match parse_logger(fs1) {
            Err(e) => Err(e),
            Ok((logger, fs2)) => match parse_service(fs2) {
                Err(e) => Err(e),
                Ok((service, fs3)) => match parse_test(fs3) {
                    Err(e) => Err(e),
                    Ok((test, fs4)) => match parse_flag(fs4) {
                        Err(e) => Err(e),
                        Ok((verify_vote_proposal_signature, fs5)) => if fs5.len() == 0 {
                            Ok(
                                SafetyRulesConfigView {
                                    backend,
                                    logger,
                                    service,
                                    test,
                                    verify_vote_proposal_signature,
                                },
                            )
                        } else {
                            Err(ParseError::UnexpectedField)
                        },
                    },
                },
            },
        },
    }
}

/// The field views from position `i` on.
pub open spec fn tail(fs: Seq<ConfigField>, i: int) -> Seq<ConfigFieldView> {
    fields_view(fs).subrange(i, fs.len() as int)
}

/// Stepping one field forward drops the first of the tail.
proof fn lemma_tail_step(fs: Seq<ConfigField>, i: int)
    requires
        0 <= i < fs.len(),
    ensures
        tail(fs, i).len() == fs.len() - i,
        tail(fs, i)[0] == fs[i]@,
        tail(fs, i).drop_first() == tail(fs, i + 1),
{
    assert(tail(fs, i).drop_first() =~= tail(fs, i + 1));
}

/// Executable equality of a field's text with a schema literal.
fn str_eq_lit(s: &String, lit: &str) -> (r: bool)
    ensures
        r == (s@ == lit@),
{
    let owned = String::from_str(lit);
    *s == owned
}

/// Take the backend selector at position `i`.
fn take_backend(fields: &Vec<ConfigField>, i: usize) -> (r: Result<
    (SecureBackend, usize),
    ParseError,
>)
    requires
        i <= fields@.len(),
    ensures
        match r {
            Ok(p) => p.1 <= fields@.len() && parse_backend(tail(fields@, i as int)) == Ok::<
                _,
                ParseError,
            >((p.0@, tail(fields@, p.1 as int))),
            Err(e) => parse_backend(tail(fields@, i as int)) == Err::<
                (SecureBackendView, Seq<ConfigFieldView>),
                _,
            >(e),
        },
{
    let ghost fs = tail(fields@, i as int);
    if i >= fields.len() {
        return Err(ParseError::MissingField);
    }
    proof {
        lemma_tail_step(fields@, i as int);
    }
    let f = &fields[i];
    if !str_eq_lit(&f.key, "backend") {
        return Err(ParseError::UnexpectedField);
    }
    if str_eq_lit(&f.value, "in_memory") {
        return Ok((SecureBackend::InMemoryStorage, i + 1));
    }
    if str_eq_lit(&f.value, "vault") {
        return Ok((SecureBackend::Vault, i + 1));
    }
    if str_eq_lit(&f.value, "on_disk") {
        if i + 1 >= fields.len() {
            return Err(ParseError::MissingField);
        }
        proof {
            lemma_tail_step(fields@, i + 1 as int);
        }
        let f2 = &fields[i + 1];
        if !str_eq_lit(&f2.key, "backend.path") {
            return Err(ParseError::UnexpectedField);
        }
        return Ok(
            (SecureBackend::OnDiskStorage(OnDiskStorageConfig { data_dir: f2.value.clone() }), i
                + 2),
        );
    }
    Err(ParseError::BadValue)
}

/// Take the opaque logger value at position `i`.
fn take_logger(fields: &Vec<ConfigField>, i: usize) -> (r: Result<(LoggerConfig, usize), ParseError>)
    requires
        i <= fields@.len(),
    ensures
        match r {
            Ok(p) => p.1 <= fields@.len() && parse_logger(tail(fields@, i as int)) == Ok::<
                _,
                ParseError,
            >((p.0@, tail(fields@, p.1 as int))),
            Err(e) => parse_logger(tail(fields@, i as int)) == Err::<
                (Seq<char>, Seq<ConfigFieldView>),
                _,
            >(e),
        },
{
    if i >= fields.len() {
        return Err(ParseError::MissingField);
    }
    proof {
        lemma_tail_step(fields@, i as int);
    }
    let f = &fields[i];
    if !str_eq_lit(&f.key, "logger") {
        return Err(ParseError::UnexpectedField);
    }
    Ok((LoggerConfig { settings: f.value.clone() }, i + 1))
}

/// Take the deployment-mode selector at position `i`.
fn take_service(fields: &Vec<ConfigField>, i: usize) -> (r: Result<
    (SafetyRulesService, usize),
    ParseError,
>)
    requires
        i <= fields@.len(),
    ensures
        match r {
            Ok(p) => p.1 <= fields@.len() && parse_service(tail(fields@, i as int)) == Ok::<
                _,
                ParseError,
            >((p.0@, tail(fields@, p.1 as int))),
            Err(e) => parse_service(tail(fields@, i as int)) == Err::<
                (SafetyRulesServiceView, Seq<ConfigFieldView>),
                _,
            >(e),
        },
{
    if i >= fields.len() {
        return Err(ParseError::MissingField);
    }
    proof {
        lemma_tail_step(fields@, i as int);
    }
    let f = &fields[i];
    if !str_eq_lit(&f.key, "service") {
        return Err(ParseError::UnexpectedField);
    }
    if str_eq_lit(&f.value, "local") {
        return Ok((SafetyRulesService::Local, i + 1));
    }
    if str_eq_lit(&f.value, "serializer") {
        return Ok((SafetyRulesService::Serializer, i + 1));
    }
    if str_eq_lit(&f.value, "thread") {
        return Ok((SafetyRulesService::Thread, i + 1));
    }
    let is_process = str_eq_lit(&f.value, "process");
    let is_spawned = str_eq_lit(&f.value, "spawned_process");
    if is_process || is_spawned {
        if i + 1 >= fields.len() {
            return Err(ParseError::MissingField);
        }
        proof {
            lemma_tail_step(fields@, i + 1 as int);
        }
        let f2 = &fields[i + 1];
        if !str_eq_lit(&f2.key, "service.server_address") {
            return Err(ParseError::UnexpectedField);
        }
        let remote = RemoteService {
            server_address: NetworkAddress { addr: f2.value.clone() },
        };
        if is_process {
            return Ok((SafetyRulesService::Process(remote), i + 2));
        } else {
            return Ok((SafetyRulesService::SpawnedProcess(remote), i + 2));
        }
    }
    Err(ParseError::BadValue)
}

/// The view of an optional key pair.
pub open spec fn opt_keypair_view(k: Option<KeyPair>) -> Option<Seq<u8>> {
    match k {
        Some(k) => Some(k@),
        None => None,
    }
}

/// Take an optional key-material field at position `i`.
fn take_opt_keypair(fields: &Vec<ConfigField>, i: usize, key: &str) -> (r: Result<
    (Option<KeyPair>, usize),
    ParseError,
>)
    requires
        i <= fields@.len(),
    ensures
        match r {
            Ok(p) => p.1 <= fields@.len() && parse_opt_hex(tail(fields@, i as int), key@) == Ok::<
                _,
                ParseError,
            >((opt_keypair_view(p.0), tail(fields@, p.1 as int))),
            Err(e) => parse_opt_hex(tail(fields@, i as int), key@) == Err::<
                (Option<Seq<u8>>, Seq<ConfigFieldView>),
                _,
            >(e),
        },
{
    if i >= fields.len() {
        return Ok((None, i));
    }
    proof {
        lemma_tail_step(fields@, i as int);
    }
    let f = &fields[i];
    if !str_eq_lit(&f.key, key) {
        return Ok((None, i));
    }
    match hex_decode(&f.value) {
        None => Err(ParseError::BadValue),
        Some(bytes) => {
            if bytes.len() != 32 {
                return Err(ParseError::BadValue);
            }
            Ok((Some(KeyPair { private_key: Ed25519PrivateKey { bytes } }), i + 1))
        },
    }
}

/// The view of an optional waypoint.
pub open spec fn opt_waypoint_view(w: Option<Waypoint>) -> Option<Seq<char>> {
    match w {
        Some(w) => Some(w@),
        None => None,
    }
}

/// Take the optional waypoint field at position `i`.
fn take_opt_waypoint(fields: &Vec<ConfigField>, i: usize) -> (r: (Option<Waypoint>, usize))
    requires
        i <= fields@.len(),
    ensures
        r.1 <= fields@.len(),
        parse_opt_value(tail(fields@, i as int), "test.waypoint"@) == Ok::<_, ParseError>(
            (opt_waypoint_view(r.0), tail(fields@, r.1 as int)),
        ),
{
    if i >= fields.len() {
        return (None, i);
    }
    proof {
        lemma_tail_step(fields@, i as int);
    }
    let f = &fields[i];
    if !str_eq_lit(&f.key, "test.waypoint") {
        return (None, i);
    }
    (Some(Waypoint { value: f.value.clone() }), i + 1)
}

/// The view of an optional test sub-record.
pub open spec fn opt_test_view(t: Option<SafetyRulesTestConfig>) -> Option<
    SafetyRulesTestConfigView,
> {
    match t {
        Some(t) => Some(t@),
        None => None,
    }
}

/// Take the optional test sub-record at position `i`.
fn take_test(fields: &Vec<ConfigField>, i: usize) -> (r: Result<
    (Option<SafetyRulesTestConfig>, usize),
    ParseError,
>)
    requires
        i <= fields@.len(),
    ensures
        match r {
            Ok(p) => p.1 <= fields@.len() && parse_test(tail(fields@, i as int)) == Ok::<
                _,
                ParseError,
            >((opt_test_view(p.0), tail(fields@, p.1 as int))) && (p.0 matches Some(t) ==> t@.wf()),
            Err(e) => parse_test(tail(fields@, i as int)) == Err::<
                (Option<SafetyRulesTestConfigView>, Seq<ConfigFieldView>),
                _,
            >(e),
        },
{
    if i >= fields.len() {
        return Ok((None, i));
    }
    proof {
        lemma_tail_step(fields@, i as int);
    }
    let f = &fields[i];
    if !str_eq_lit(&f.key, "test.author") {
        return Ok((None, i));
    }
    let decoded = hex_decode(&f.value);
    match decoded {
        None => Err(ParseError::BadValue),
        Some(author_bytes) => {
            if author_bytes.len() != 16 {
                return Err(ParseError::BadValue);
            }
            let author = PeerId { bytes: author_bytes };
            let consensus = take_opt_keypair(fields, i + 1, "test.consensus_private_key");
            match consensus {
                Err(e) => Err(e),
                Ok((consensus_keypair, i1)) => {
                    let execution = take_opt_keypair(fields, i1, "test.execution_private_key");
                    match execution {
                        Err(e) => Err(e),
                        Ok((execution_keypair, i2)) => {
                            let (waypoint, i3) = take_opt_waypoint(fields, i2);
                            Ok(
                                (
                                    Some(
                                        SafetyRulesTestConfig {
                                            author,
                                            consensus_keypair,
                                            execution_keypair,
                                            waypoint,
                                        },
                                    ),
                                    i3,
                                ),
                            )
                        },
                    }
                },
            }
        },
    }
}

/// Take the signature-verification flag at position `i`.
fn take_flag(fields: &Vec<ConfigField>, i: usize) -> (r: Result<(bool, usize), ParseError>)
    requires
        i <= fields@.len(),
    ensures
        match r {
            Ok(p) => p.1 <= fields@.len() && parse_flag(tail(fields@, i as int)) == Ok::<
                _,
                ParseError,
            >((p.0, tail(fields@, p.1 as int))),
            Err(e) => parse_flag(tail(fields@, i as int)) == Err::<
                (bool, Seq<ConfigFieldView>),
                _,
            >(e),
        },
{
    if i >= fields.len() {
        return Err(ParseError::MissingField);
    }
    proof {
        lemma_tail_step(fields@, i as int);
    }
    let f = &fields[i];
    if !str_eq_lit(&f.key, "verify_vote_proposal_signature") {
        return Err(ParseError::UnexpectedField);
    }
    if str_eq_lit(&f.value, "true") {
        return Ok((true, i + 1));
    }
    if str_eq_lit(&f.value, "false") {
        return Ok((false, i + 1));
    }
    Err(ParseError::BadValue)
}

/// Deserialize a configuration from its strict field list.  The result is
/// `Ok` exactly where the specification-level parse accepts the fields, and
/// carries the same value; every schema violation is reported as the error
/// the specification assigns it.
pub fn deserialize(fields: &Vec<ConfigField>) -> (r: Result<SafetyRulesConfig, ParseError>)
    ensures
        match r {
            Ok(c) => parse_config(fields_view(fields@)) == Ok::<_, ParseError>(c@) && c@.wf(),
            Err(e) => parse_config(fields_view(fields@)) == Err::<SafetyRulesConfigView, _>(e),
        },
{
    proof {
        assert(tail(fields@, 0) =~= fields_view(fields@));
    }
    let backend = match take_backend(fields, 0) {
        Err(e) => {
            return Err(e);
        },
        Ok(p) => p,
    };
    let logger = match take_logger(fields, backend.1) {
        Err(e) => {
            return Err(e);
        },
        Ok(p) => p,
    };
    let service = match take_service(fields, logger.1) {
        Err(e) => {
            return Err(e);
        },
        Ok(p) => p,
    };
    let test = match take_test(fields, service.1) {
        Err(e) => {
            return Err(e);
        },
        Ok(p) => p,
    };
    let flag = match take_flag(fields, test.1) {
        Err(e) => {
            return Err(e);
        },
        Ok(p) => p,
    };
    if flag.1 != fields.len() {
        proof {
            assert(tail(fields@, flag.1 as int).len() > 0);
        }
        return Err(ParseError::UnexpectedField);
    }
    proof {
        assert(tail(fields@, flag.1 as int).len() == 0);
    }
    Ok(
        SafetyRulesConfig {
            backend: backend.0,
            logger: logger.0,
            service: service.0,
            test: test.0,
            verify_vote_proposal_signature: flag.0,
        },
    )
}

/// The schema's literals, pairwise distinct where the parser tells them
/// apart.
proof fn lemma_literal_facts()
    ensures
        "in_memory"@ != "vault"@,
        "in_memory"@ != "on_disk"@,
        "vault"@ != "on_disk"@,
        "local"@ != "serializer"@,
        "local"@ != "thread"@,
        "local"@ != "process"@,
        "local"@ != "spawned_process"@,
        "serializer"@ != "thread"@,
        "serializer"@ != "process"@,
        "serializer"@ != "spawned_process"@,
        "thread"@ != "process"@,
        "thread"@ != "spawned_process"@,
        "process"@ != "spawned_process"@,
        "true"@ != "false"@,
        "test.consensus_private_key"@ != "test.execution_private_key"@,
        "test.waypoint"@ != "test.consensus_private_key"@,
        "test.waypoint"@ != "test.execution_private_key"@,
        "verify_vote_proposal_signature"@ != "test.author"@,
        "verify_vote_proposal_signature"@ != "test.consensus_private_key"@,
        "verify_vote_proposal_signature"@ != "test.execution_private_key"@,
        "verify_vote_proposal_signature"@ != "test.waypoint"@,
{
    reveal_strlit("in_memory");
    reveal_strlit("vault");
    reveal_strlit("on_disk");
    reveal_strlit("local");
    reveal_strlit("serializer");
    reveal_strlit("thread");
    reveal_strlit("process");
    reveal_strlit("spawned_process");
    reveal_strlit("true");
    reveal_strlit("false");
    reveal_strlit("test.author");
    reveal_strlit("test.consensus_private_key");
    reveal_strlit("test.execution_private_key");
    reveal_strlit("test.waypoint");
    reveal_strlit("verify_vote_proposal_signature");
    assert("in_memory"@.len() == 9);
    assert("vault"@.len() == 5);
    assert("on_disk"@.len() == 7);
    assert("local"@.len() == 5);
    assert("serializer"@.len() == 10);
    assert("thread"@.len() == 6);
    assert("process"@.len() == 7);
    assert("spawned_process"@.len() == 15);
    assert("true"@.len() == 4);
    assert("false"@.len() == 5);
    assert("test.author"@.len() == 11);
    assert("test.consensus_private_key"@.len() == 26);
    assert("test.execution_private_key"@.len() == 26);
    assert("test.waypoint"@.len() == 13);
    assert("verify_vote_proposal_signature"@.len() == 30);
    assert(("vault"@)[0] == 'v');
    assert(("local"@)[0] == 'l');
    assert(("false"@)[0] == 'f');
    assert(("on_disk"@)[0] == 'o');
    assert(("process"@)[0] == 'p');
    assert(("test.consensus_private_key"@)[5] == 'c');
    assert(("test.execution_private_key"@)[5] == 'e');
}

/// A serialized backend parses back to itself, leaving the rest untouched.
proof fn lemma_rt_backend(b: SecureBackendView, rest: Seq<ConfigFieldView>)
    ensures
        parse_backend(ser_backend(b) + rest) == Ok::<_, ParseError>((b, rest)),
{
    lemma_literal_facts();
    let fs = ser_backend(b) + rest;
    match b {
        SecureBackendView::InMemoryStorage => {
            assert(fs[0] == fv("backend"@, "in_memory"@));
            assert(fs.drop_first() =~= rest);
        },
        SecureBackendView::OnDiskStorage { data_dir } => {
            assert(fs[0] == fv("backend"@, "on_disk"@));
            assert(fs.drop_first() =~= seq![fv("backend.path"@, data_dir)] + rest);
            let r1 = fs.drop_first();
            assert(r1[0] == fv("backend.path"@, data_dir));
            assert(r1.drop_first() =~= rest);
        },
        SecureBackendView::Vault => {
            assert(fs[0] == fv("backend"@, "vault"@));
            assert(fs.drop_first() =~= rest);
        },
    }
}

/// A serialized logger value parses back to itself.
proof fn lemma_rt_logger(v: Seq<char>, rest: Seq<ConfigFieldView>)
    ensures
        parse_logger(seq![fv("logger"@, v)] + rest) == Ok::<_, ParseError>((v, rest)),
{
    let fs = seq![fv("logger"@, v)] + rest;
    assert(fs[0] == fv("logger"@, v));
    assert(fs.drop_first() =~= rest);
}

/// A serialized deployment mode parses back to itself.
proof fn lemma_rt_service(s: SafetyRulesServiceView, rest: Seq<ConfigFieldView>)
    ensures
        parse_service(ser_service(s) + rest) == Ok::<_, ParseError>((s, rest)),
{
    lemma_literal_facts();
    let fs = ser_service(s) + rest;
    match s {
        SafetyRulesServiceView::Local => {
            assert(fs[0] == fv("service"@, "local"@));
            assert(fs.drop_first() =~= rest);
        },
        SafetyRulesServiceView::Serializer => {
            assert(fs[0] == fv("service"@, "serializer"@));
            assert(fs.drop_first() =~= rest);
        },
        SafetyRulesServiceView::Thread => {
            assert(fs[0] == fv("service"@, "thread"@));
            assert(fs.drop_first() =~= rest);
        },
        SafetyRulesServiceView::Process { server_address } => {
            assert(fs[0] == fv("service"@, "process"@));
            assert(fs.drop_first() =~= seq![fv("service.server_address"@, server_address)] + rest);
            let r1 = fs.drop_first();
            assert(r1[0] == fv("service.server_address"@, server_address));
            assert(r1.drop_first() =~= rest);
        },
        SafetyRulesServiceView::SpawnedProcess { server_address } => {
            assert(fs[0] == fv("service"@, "spawned_process"@));
            assert(fs.drop_first() =~= seq![fv("service.server_address"@, server_address)] + rest);
            let r1 = fs.drop_first();
            assert(r1[0] == fv("service.server_address"@, server_address));
            assert(r1.drop_first() =~= rest);
        },
    }
}

/// A serialized optional key pair parses back to itself, provided what
/// follows does not begin with the same key.
proof fn lemma_rt_opt_hex(key: Seq<char>, v: Option<Seq<u8>>, rest: Seq<ConfigFieldView>)
    requires
        v matches Some(b) ==> b.len() == 32,
        rest.len() > 0 ==> rest[0].key != key,
    ensures
        parse_opt_hex(ser_opt(key, opt_hex(v)) + rest, key) == Ok::<_, ParseError>((v, rest)),
{
    let fs = ser_opt(key, opt_hex(v)) + rest;
    match v {
        None => {
            assert(fs =~= rest);
        },
        Some(b) => {
            assert(fs[0] == fv(key, hex_of_bytes(b)));
            crate::hexstr::lemma_hex_round_trip(b);
            assert(fs.drop_first() =~= rest);
        },
    }
}

/// A serialized optional waypoint parses back to itself, provided what
/// follows does not begin with the waypoint key.
proof fn lemma_rt_opt_value(key: Seq<char>, v: Option<Seq<char>>, rest: Seq<ConfigFieldView>)
    requires
        rest.len() > 0 ==> rest[0].key != key,
    ensures
        parse_opt_value(ser_opt(key, v) + rest, key) == Ok::<_, ParseError>((v, rest)),
{
    let fs = ser_opt(key, v) + rest;
    match v {
        None => {
            assert(fs =~= rest);
        },
        Some(s) => {
            assert(fs[0] == fv(key, s));
            assert(fs.drop_first() =~= rest);
        },
    }
}

/// A serialized test sub-record parses back to itself, provided what
/// follows does not begin with one of its optional keys.
proof fn lemma_rt_test(t: SafetyRulesTestConfigView, rest: Seq<ConfigFieldView>)
    requires
        t.wf(),
        rest.len() > 0 ==> {
            &&& rest[0].key != "test.consensus_private_key"@
            &&& rest[0].key != "test.execution_private_key"@
            &&& rest[0].key != "test.waypoint"@
        },
    ensures
        parse_test(ser_test(t) + rest) == Ok::<_, ParseError>((Some(t), rest)),
{
    lemma_literal_facts();
    let fs = ser_test(t) + rest;
    let ck = ser_opt("test.consensus_private_key"@, opt_hex(t.consensus_keypair));
    let ek = ser_opt("test.execution_private_key"@, opt_hex(t.execution_keypair));
    let wp = ser_opt("test.waypoint"@, t.waypoint);
    assert(fs[0] == fv("test.author"@, hex_of_bytes(t.author)));
    crate::hexstr::lemma_hex_round_trip(t.author);
    let fs1 = fs.drop_first();
    assert(fs1 =~= ck + (ek + (wp + rest)));
    let rest_ck = ek + (wp + rest);
    if rest_ck.len() > 0 {
        assert(rest_ck[0].key != "test.consensus_private_key"@);
    }
    lemma_rt_opt_hex("test.consensus_private_key"@, t.consensus_keypair, rest_ck);
    let rest_ek = wp + rest;
    if rest_ek.len() > 0 {
        assert(rest_ek[0].key != "test.execution_private_key"@);
    }
    lemma_rt_opt_hex("test.execution_private_key"@, t.execution_keypair, rest_ek);
    assert(rest_ck =~= ek + rest_ek);
    lemma_rt_opt_value("test.waypoint"@, t.waypoint, rest);
    assert(rest_ek =~= wp + rest);
}

/// A serialized verification-flag value parses back to itself.
proof fn lemma_rt_flag(b: bool, rest: Seq<ConfigFieldView>)
    ensures
        parse_flag(seq![fv("verify_vote_proposal_signature"@, bool_str(b))] + rest) == Ok::<
            _,
            ParseError,
        >((b, rest)),
{
    lemma_literal_facts();
    let fs = seq![fv("verify_vote_proposal_signature"@, bool_str(b))] + rest;
    assert(fs[0] == fv("verify_vote_proposal_signature"@, bool_str(b)));
    assert(fs.drop_first() =~= rest);
}

/// Round-trip law: every well-formed configuration that is serialized and
/// deserialized again comes back as an identical value.
pub proof fn lemma_round_trip(c: SafetyRulesConfigView)
    requires
        c.wf(),
    ensures
        parse_config(ser_config(c)) == Ok::<_, ParseError>(c),
{
    lemma_literal_facts();
    let a = ser_backend(c.backend);
    let l = seq![fv("logger"@, c.logger)];
    let s = ser_service(c.service);
    let t = match c.test {
        Some(tv) => ser_test(tv),
        None => Seq::<ConfigFieldView>::empty(),
    };
    let f = seq![fv("verify_vote_proposal_signature"@, bool_str(c.verify_vote_proposal_signature))];
    let rest1 = l + (s + (t + f));
    assert(ser_config(c) =~= a + rest1);
    lemma_rt_backend(c.backend, rest1);
    let rest2 = s + (t + f);
    lemma_rt_logger(c.logger, rest2);
    let rest3 = t + f;
    lemma_rt_service(c.service, rest3);
    match c.test {
        Some(tv) => {
            assert(f[0].key == "verify_vote_proposal_signature"@);
            lemma_rt_test(tv, f);
            assert(rest3 =~= ser_test(tv) + f);
        },
        None => {
            assert(rest3 =~= f);
            assert(f[0].key == "verify_vote_proposal_signature"@);
            assert(parse_test(f) == Ok::<_, ParseError>((None::<SafetyRulesTestConfigView>, f)));
        },
    }
    lemma_rt_flag(c.verify_vote_proposal_signature, Seq::<ConfigFieldView>::empty());
    assert(f + Seq::<ConfigFieldView>::empty() =~= f);
    assert(parse_config(ser_config(c)) == Ok::<_, ParseError>(
        SafetyRulesConfigView {
            backend: c.backend,
            logger: c.logger,
            service: c.service,
            test: c.test,
            verify_vote_proposal_signature: c.verify_vote_proposal_signature,
        },
    ));
}

/// Discriminator strings outside the five recognized deployment modes are
/// rejected.
pub proof fn lemma_unknown_service_discriminator_rejected(fs: Seq<ConfigFieldView>)
    requires
        fs.len() > 0,
        fs[0].key == "service"@,
        fs[0].value != "local"@,
        fs[0].value != "process"@,
        fs[0].value != "serializer"@,
        fs[0].value != "spawned_process"@,
        fs[0].value != "thread"@,
    ensures
        parse_service(fs) == Err::<(SafetyRulesServiceView, Seq<ConfigFieldView>), _>(
            ParseError::BadValue,
        ),
{
}

/// The closed set of schema keys.
pub open spec fn known_key(k: Seq<char>) -> bool {
    ||| k == "backend"@
    ||| k == "backend.path"@
    ||| k == "logger"@
    ||| k == "service"@
    ||| k == "service.server_address"@
    ||| k == "test.author"@
    ||| k == "test.consensus_private_key"@
    ||| k == "test.execution_private_key"@
    ||| k == "test.waypoint"@
    ||| k == "verify_vote_proposal_signature"@
}

/// Every field's key is in the schema.
pub open spec fn all_known(fs: Seq<ConfigFieldView>) -> bool {
    forall|i: int| 0 <= i < fs.len() ==> #[trigger] known_key(fs[i].key)
}

/// A parser step that consumed `n` known-keyed fields keeps `all_known`
/// when its leftover has it.
proof fn lemma_known_chain(fs: Seq<ConfigFieldView>, n: int)
    requires
        0 <= n <= fs.len(),
        forall|i: int| 0 <= i < n ==> #[trigger] known_key(fs[i].key),
        all_known(fs.subrange(n, fs.len() as int)),
    ensures
        all_known(fs),
{
    let rest = fs.subrange(n, fs.len() as int);
    assert forall|i: int| 0 <= i < fs.len() implies #[trigger] known_key(fs[i].key) by {
        if i >= n {
            assert(fs[i] == rest[i - n]);
            assert(known_key(rest[i - n].key));
        }
    }
}

/// The backend parser consumes only schema keys.
proof fn lemma_backend_known(fs: Seq<ConfigFieldView>)
    ensures
        parse_backend(fs) matches Ok(p) ==> (all_known(p.1) ==> all_known(fs)),
{
    lemma_literal_facts();
    match parse_backend(fs) {
        Ok(p) => {
            if all_known(p.1) {
                assert(known_key(fs[0].key));
                if fs[0].value == "on_disk"@ {
                    assert(fs[1] == fs.drop_first()[0]);
                    assert(known_key(fs[1].key));
                    assert(p.1 =~= fs.subrange(2, fs.len() as int));
                    lemma_known_chain(fs, 2);
                } else {
                    assert(p.1 =~= fs.subrange(1, fs.len() as int));
                    lemma_known_chain(fs, 1);
                }
            }
        },
        Err(_) => {},
    }
}

/// The logger parser consumes only schema keys.
proof fn lemma_logger_known(fs: Seq<ConfigFieldView>)
    ensures
        parse_logger(fs) matches Ok(p) ==> (all_known(p.1) ==> all_known(fs)),
{
    match parse_logger(fs) {
        Ok(p) => {
            if all_known(p.1) {
                assert(known_key(fs[0].key));
                assert(p.1 =~= fs.subrange(1, fs.len() as int));
                lemma_known_chain(fs, 1);
            }
        },
        Err(_) => {},
    }
}

/// The deployment-mode parser consumes only schema keys.
proof fn lemma_service_known(fs: Seq<ConfigFieldView>)
    ensures
        parse_service(fs) matches Ok(p) ==> (all_known(p.1) ==> all_known(fs)),
{
    lemma_literal_facts();
    match parse_service(fs) {
        Ok(p) => {
            if all_known(p.1) {
                assert(known_key(fs[0].key));
                if fs[0].value == "process"@ || fs[0].value == "spawned_process"@ {
                    assert(fs[1] == fs.drop_first()[0]);
                    assert(known_key(fs[1].key));
                    assert(p.1 =~= fs.subrange(2, fs.len() as int));
                    lemma_known_chain(fs, 2);
                } else {
                    assert(p.1 =~= fs.subrange(1, fs.len() as int));
                    lemma_known_chain(fs, 1);
                }
            }
        },
        Err(_) => {},
    }
}

/// An optional key-material parser consumes only its own schema key.
proof fn lemma_opt_hex_known(fs: Seq<ConfigFieldView>, key: Seq<char>)
    requires
        known_key(key),
    ensures
        parse_opt_hex(fs, key) matches Ok(p) ==> (all_known(p.1) ==> all_known(fs)),
{
    match parse_opt_hex(fs, key) {
        Ok(p) => {
            if all_known(p.1) {
                if fs.len() == 0 || fs[0].key != key {
                } else {
                    assert(known_key(fs[0].key));
                    assert(p.1 =~= fs.subrange(1, fs.len() as int));
                    lemma_known_chain(fs, 1);
                }
            }
        },
        Err(_) => {},
    }
}

/// The optional waypoint parser consumes only its own schema key.
proof fn lemma_opt_value_known(fs: Seq<ConfigFieldView>, key: Seq<char>)
    requires
        known_key(key),
    ensures
        parse_opt_value(fs, key) matches Ok(p) ==> (all_known(p.1) ==> all_known(fs)),
{
    match parse_opt_value(fs, key) {
        Ok(p) => {
            if all_known(p.1) {
                if fs.len() == 0 || fs[0].key != key {
                } else {
                    assert(known_key(fs[0].key));
                    assert(p.1 =~= fs.subrange(1, fs.len() as int));
                    lemma_known_chain(fs, 1);
                }
            }
        },
        Err(_) => {},
    }
}

/// The test sub-record parser consumes only schema keys.
proof fn lemma_test_known(fs: Seq<ConfigFieldView>)
    ensures
        parse_test(fs) matches Ok(p) ==> (all_known(p.1) ==> all_known(fs)),
{
    match parse_test(fs) {
        Ok(p) => {
            if all_known(p.1) {
                if fs.len() == 0 || fs[0].key != "test.author"@ {
                } else {
                    let fs1 = fs.drop_first();
                    match parse_opt_hex(fs1, "test.consensus_private_key"@) {
                        Ok(q1) => {
                            match parse_opt_hex(q1.1, "test.execution_private_key"@) {
                                Ok(q2) => {
                                    match parse_opt_value(q2.1, "test.waypoint"@) {
                                        Ok(_) => {
                                            lemma_opt_value_known(q2.1, "test.waypoint"@);
                                            lemma_opt_hex_known(
                                                q1.1,
                                                "test.execution_private_key"@,
                                            );
                                            lemma_opt_hex_known(
                                                fs1,
                                                "test.consensus_private_key"@,
                                            );
                                            assert(known_key(fs[0].key));
                                            assert(fs1 =~= fs.subrange(1, fs.len() as int));
                                            lemma_known_chain(fs, 1);
                                        },
                                        Err(_) => {},
                                    }
                                },
                                Err(_) => {},
                            }
                        },
                        Err(_) => {},
                    }
                }
            }
        },
        Err(_) => {},
    }
}

/// The verification-flag parser consumes only its schema key.
proof fn lemma_flag_known(fs: Seq<ConfigFieldView>)
    ensures
        parse_flag(fs) matches Ok(p) ==> (all_known(p.1) ==> all_known(fs)),
{
    match parse_flag(fs) {
        Ok(p) => {
            if all_known(p.1) {
                assert(known_key(fs[0].key));
                assert(p.1 =~= fs.subrange(1, fs.len() as int));
                lemma_known_chain(fs, 1);
            }
        },
        Err(_) => {},
    }
}

/// A field list the parser accepts holds only schema keys.
proof fn lemma_parse_accepts_known_keys(fs: Seq<ConfigFieldView>)
    requires
        parse_config(fs) is Ok,
    ensures
        all_known(fs),
{
    match parse_backend(fs) {
        Err(_) => {
            assert(false);
        },
        Ok((_, fs1)) => match parse_logger(fs1) {
            Err(_) => {
                assert(false);
            },
            Ok((_, fs2)) => match parse_service(fs2) {
                Err(_) => {
                    assert(false);
                },
                Ok((_, fs3)) => match parse_test(fs3) {
                    Err(_) => {
                        assert(false);
                    },
                    Ok((_, fs4)) => match parse_flag(fs4) {
                        Err(_) => {
                            assert(false);
                        },
                        Ok((_, fs5)) => {
                            assert(fs5.len() == 0);
                            assert(all_known(fs5));
                            lemma_flag_known(fs4);
                            lemma_test_known(fs3);
                            lemma_service_known(fs2);
                            lemma_logger_known(fs1);
                            lemma_backend_known(fs);
                        },
                    },
                },
            },
        },
    }
}

/// Unknown-field rejection: a field list holding any key outside the schema
/// never deserializes, wherever that field sits.
pub proof fn lemma_unknown_field_rejected(fs: Seq<ConfigFieldView>, i: int)
    requires
        0 <= i < fs.len(),
        !known_key(fs[i].key),
    ensures
        parse_config(fs) is Err,
{
    if parse_config(fs) is Ok {
        lemma_parse_accepts_known_keys(fs);
        assert(known_key(fs[i].key));
    }
}

} // verus!

