//! The configuration data model for the safety-rules component.
//!
//! A configuration selects a secure key-storage backend, a deployment mode
//! for the safety-rules service, a signature-verification switch, and (for
//! test deployments only) a sub-record of ephemeral key material.  Every
//! type carries a view; contracts speak of values through those views.

use crate::rng::draw_key_bytes;
use vstd::prelude::*;

verus! {

/// Copy a byte vector element by element.
fn clone_bytes(v: &Vec<u8>) -> (r: Vec<u8>)
    ensures
        r@ == v@,
{
    let mut out: Vec<u8> = Vec::new();
    let mut i: usize = 0;
    while i < v.len()
        invariant
            i <= v@.len(),
            out@ == v@.subrange(0, i as int),
        decreases v@.len() - i,
    {
        out.push(v[i]);
        proof {
            assert(out@ =~= v@.subrange(0, i + 1 as int));
        }
        i = i + 1;
    }
    proof {
        assert(out@ =~= v@);
    }
    out
}

/// The identity of a validator: a sixteen-byte principal identifier.
#[derive(Debug, Clone, PartialEq, Eq)]
pub struct PeerId {
    pub bytes: Vec<u8>,
}

impl View for PeerId {
    type V = Seq<u8>;

    open spec fn view(&self) -> Seq<u8> {
        self.bytes@
    }
}

impl PeerId {
    /// A peer id holds exactly sixteen bytes.
    pub open spec fn wf(&self) -> bool {
        self@.len() == 16
    }

    /// Build a peer id from its raw bytes; rejects any length but sixteen.
    pub fn from_bytes(bytes: Vec<u8>) -> (r: Option<PeerId>)
        ensures
            match r {
                Some(p) => bytes@.len() == 16 && p@ == bytes@ && p.wf(),
                None => bytes@.len() != 16,
            },
    {
        if bytes.len() == 16 {
            Some(PeerId { bytes })
        } else {
            None
        }
    }
}

/// An Ed25519 signing key: thirty-two bytes of secret key material.
#[derive(Debug, Clone, PartialEq, Eq)]
pub struct Ed25519PrivateKey {
    pub bytes: Vec<u8>,
}

impl View for Ed25519PrivateKey {
    type V = Seq<u8>;

    open spec fn view(&self) -> Seq<u8> {
        self.bytes@
    }
}

impl Ed25519PrivateKey {
    /// A private key holds exactly thirty-two bytes.
    pub open spec fn wf(&self) -> bool {
        self@.len() == 32
    }

    /// Build a key from its raw bytes; rejects any length but thirty-two.
    pub fn from_bytes(bytes: Vec<u8>) -> (r: Option<Ed25519PrivateKey>)
        ensures
            match r {
                Some(k) => bytes@.len() == 32 && k@ == bytes@ && k.wf(),
                None => bytes@.len() != 32,
            },
    {
        if bytes.len() == 32 {
            Some(Ed25519PrivateKey { bytes })
        } else {
            None
        }
    }
}

/// A stored key pair, held by its private key.
#[derive(Debug, Clone, PartialEq, Eq)]
pub struct KeyPair {
    pub private_key: Ed25519PrivateKey,
}

impl View for KeyPair {
    type V = Seq<u8>;

    open spec fn view(&self) -> Seq<u8> {
        self.private_key@
    }
}

impl KeyPair {
    /// A key pair is well formed when its private key is.
    pub open spec fn wf(&self) -> bool {
        self@.len() == 32
    }

    /// Wrap a private key for storage in a configuration slot.
    pub fn load(private_key: Ed25519PrivateKey) -> (r: KeyPair)
        ensures
            r@ == private_key@,
    {
        KeyPair { private_key }
    }
}

/// A trusted checkpoint marker, carried in its encoded form.
#[derive(Debug, Clone, PartialEq, Eq)]
pub struct Waypoint {
    pub value: String,
}

impl View for Waypoint {
    type V = Seq<char>;

    open spec fn view(&self) -> Seq<char> {
        self.value@
    }
}

impl Waypoint {
    /// Build a waypoint from its encoded form.
    pub fn new(value: String) -> (r: Waypoint)
        ensures
            r@ == value@,
    {
        Waypoint { value }
    }
}

/// Opaque logging configuration, interpreted entirely by an external
/// collaborator; the schema only carries it.
#[derive(Debug, Clone, PartialEq, Eq)]
pub struct LoggerConfig {
    pub settings: String,
}

impl View for LoggerConfig {
    type V = Seq<char>;

    open spec fn view(&self) -> Seq<char> {
        self.settings@
    }
}

impl Default for LoggerConfig {
    /// The collaborator's default: no settings.
    fn default() -> (r: LoggerConfig)
        ensures
            r@ == Seq::<char>::empty(),
    {
        LoggerConfig { settings: String::new() }
    }
}

/// A symbolic network address; it may encode a name that still needs
/// resolution, so it is carried verbatim.
#[derive(Debug, Clone, PartialEq, Eq)]
pub struct NetworkAddress {
    pub addr: String,
}

impl View for NetworkAddress {
    type V = Seq<char>;

    open spec fn view(&self) -> Seq<char> {
        self.addr@
    }
}

impl NetworkAddress {
    /// Build a symbolic address from its textual form.
    pub fn new(addr: String) -> (r: NetworkAddress)
        ensures
            r@ == addr@,
    {
        NetworkAddress { addr }
    }
}

/// Settings of the on-disk secure store: where it keeps its data.
#[derive(Debug, Clone, PartialEq, Eq)]
pub struct OnDiskStorageConfig {
    pub data_dir: String,
}

impl View for OnDiskStorageConfig {
    type V = Seq<char>;

    open spec fn view(&self) -> Seq<char> {
        self.data_dir@
    }
}

impl OnDiskStorageConfig {
    /// Point the store at a new data directory.
    pub fn set_data_dir(&mut self, data_dir: String)
        ensures
            final(self)@ == data_dir@,
    {
        self.data_dir = data_dir;
    }
}

/// The selected secure key-storage backend.
#[derive(Debug, Clone, PartialEq, Eq)]
pub enum SecureBackend {
    /// Keys held in memory only.
    InMemoryStorage,
    /// Keys held in an on-disk store rooted at a data directory.
    OnDiskStorage(OnDiskStorageConfig),
    /// An externally managed secure store, selected by tag alone.
    Vault,
}

/// View of [`SecureBackend`].
pub enum SecureBackendView {
    InMemoryStorage,
    OnDiskStorage { data_dir: Seq<char> },
    Vault,
}

impl View for SecureBackend {
    type V = SecureBackendView;

    open spec fn view(&self) -> SecureBackendView {
        match self {
            SecureBackend::InMemoryStorage => SecureBackendView::InMemoryStorage,
            SecureBackend::OnDiskStorage(c) => (SecureBackendView::OnDiskStorage {
                data_dir: c.data_dir@,
            }),
            SecureBackend::Vault => SecureBackendView::Vault,
        }
    }
}

/// The data a caller needs to reach a separately running safety-rules
/// service: its symbolic network address.
#[derive(Debug, Clone, PartialEq, Eq)]
pub struct RemoteService {
    pub server_address: NetworkAddress,
}

impl View for RemoteService {
    type V = Seq<char>;

    open spec fn view(&self) -> Seq<char> {
        self.server_address@
    }
}

/// How the safety-rules service is deployed relative to its caller.
#[derive(Debug, Clone, PartialEq, Eq)]
pub enum SafetyRulesService {
    /// Runs inline with the caller.
    Local,
    /// Runs as a pre-existing separate process reached over the network.
    Process(RemoteService),
    /// Runs inline, but every call crosses a light serialization boundary.
    Serializer,
    /// The caller spawns the process itself and hands it this configuration.
    SpawnedProcess(RemoteService),
    /// Runs on a dedicated thread within the same process.
    Thread,
}

/// View of [`SafetyRulesService`].
pub enum SafetyRulesServiceView {
    Local,
    Process { server_address: Seq<char> },
    Serializer,
    SpawnedProcess { server_address: Seq<char> },
    Thread,
}

impl View for SafetyRulesService {
    type V = SafetyRulesServiceView;

    open spec fn view(&self) -> SafetyRulesServiceView {
        match self {
            SafetyRulesService::Local => SafetyRulesServiceView::Local,
            SafetyRulesService::Process(r) => (SafetyRulesServiceView::Process {
                server_address: r@,
            }),
            SafetyRulesService::Serializer => SafetyRulesServiceView::Serializer,
            SafetyRulesService::SpawnedProcess(r) => (SafetyRulesServiceView::SpawnedProcess {
                server_address: r@,
            }),
            SafetyRulesService::Thread => SafetyRulesServiceView::Thread,
        }
    }
}

/// Ephemeral, test-only key material; absent from production configurations.
#[derive(Debug, Clone, PartialEq, Eq)]
pub struct SafetyRulesTestConfig {
    pub author: PeerId,
    pub consensus_keypair: Option<KeyPair>,
    pub execution_keypair: Option<KeyPair>,
    pub waypoint: Option<Waypoint>,
}

/// View of [`SafetyRulesTestConfig`].
pub struct SafetyRulesTestConfigView {
    pub author: Seq<u8>,
    pub consensus_keypair: Option<Seq<u8>>,
    pub execution_keypair: Option<Seq<u8>>,
    pub waypoint: Option<Seq<char>>,
}

impl View for SafetyRulesTestConfig {
    type V = SafetyRulesTestConfigView;

    open spec fn view(&self) -> SafetyRulesTestConfigView {
        SafetyRulesTestConfigView {
            author: self.author@,
            consensus_keypair: match self.consensus_keypair {
                Some(k) => Some(k@),
                None => None,
            },
            execution_keypair: match self.execution_keypair {
                Some(k) => Some(k@),
                None => None,
            },
            waypoint: match self.waypoint {
                Some(w) => Some(w@),
                None => None,
            },
        }
    }
}

impl SafetyRulesTestConfigView {
    /// The author is a sixteen-byte principal; any key present holds
    /// thirty-two bytes.
    pub open spec fn wf(self) -> bool {
        &&& self.author.len() == 16
        &&& (self.consensus_keypair matches Some(k) ==> k.len() == 32)
        &&& (self.execution_keypair matches Some(k) ==> k.len() == 32)
    }
}

impl SafetyRulesTestConfig {
    /// A fresh test record: the given principal, no keys, no waypoint.
    pub fn new(author: PeerId) -> (r: SafetyRulesTestConfig)
        ensures
            r@.author == author@,
            r@.consensus_keypair is None,
            r@.execution_keypair is None,
            r@.waypoint is None,
    {
        SafetyRulesTestConfig {
            author,
            consensus_keypair: None,
            execution_keypair: None,
            waypoint: None,
        }
    }

    /// Draw fresh key material from the caller's seeded generator and store
    /// it in the consensus slot, overwriting what was there; every other
    /// field is untouched.
    pub fn random_consensus_key(&mut self, rng: &mut rand::rngs::StdRng)
        ensures
            final(self)@.author == old(self)@.author,
            final(self)@.execution_keypair == old(self)@.execution_keypair,
            final(self)@.waypoint == old(self)@.waypoint,
            final(self)@.consensus_keypair matches Some(k) && k.len() == 32,
    {
        let bytes = draw_key_bytes(rng);
        self.consensus_keypair = Some(KeyPair::load(Ed25519PrivateKey { bytes }));
    }

    /// Draw fresh key material from the caller's seeded generator and store
    /// it in the execution slot, overwriting what was there; every other
    /// field is untouched.
    pub fn random_execution_key(&mut self, rng: &mut rand::rngs::StdRng)
        ensures
            final(self)@.author == old(self)@.author,
            final(self)@.consensus_keypair == old(self)@.consensus_keypair,
            final(self)@.waypoint == old(self)@.waypoint,
            final(self)@.execution_keypair matches Some(k) && k.len() == 32,
    {
        let bytes = draw_key_bytes(rng);
        self.execution_keypair = Some(KeyPair::load(Ed25519PrivateKey { bytes }));
    }

    /// Duplication for test and fuzzing harnesses: a verbatim field-by-field
    /// copy, key material included, so fixtures can be reused.
    pub fn duplicate_for_testing(&self) -> (r: SafetyRulesTestConfig)
        ensures
            r@ == self@,
    {
        SafetyRulesTestConfig {
            author: PeerId { bytes: clone_bytes(&self.author.bytes) },
            consensus_keypair: match &self.consensus_keypair {
                Some(k) => Some(
                    KeyPair {
                        private_key: Ed25519PrivateKey {
                            bytes: clone_bytes(&k.private_key.bytes),
                        },
                    },
                ),
                None => None,
            },
            execution_keypair: match &self.execution_keypair {
                Some(k) => Some(
                    KeyPair {
                        private_key: Ed25519PrivateKey {
                            bytes: clone_bytes(&k.private_key.bytes),
                        },
                    },
                ),
                None => None,
            },
            waypoint: match &self.waypoint {
                Some(w) => Some(Waypoint { value: w.value.clone() }),
                None => None,
            },
        }
    }

    /// Duplication for production builds: key material and waypoint are
    /// discarded, so that no test key ever leaks through a copy; only the
    /// identifying principal is kept.
    pub fn duplicate_sanitized(&self) -> (r: SafetyRulesTestConfig)
        ensures
            r@.author == self@.author,
            r@.consensus_keypair is None,
            r@.execution_keypair is None,
            r@.waypoint is None,
    {
        SafetyRulesTestConfig::new(PeerId { bytes: clone_bytes(&self.author.bytes) })
    }
}

/// The top-level safety-rules configuration.
#[derive(Debug, Clone, PartialEq, Eq)]
pub struct SafetyRulesConfig {
    pub backend: SecureBackend,
    pub logger: LoggerConfig,
    pub service: SafetyRulesService,
    pub test: Option<SafetyRulesTestConfig>,
    pub verify_vote_proposal_signature: bool,
}

/// View of [`SafetyRulesConfig`].
pub struct SafetyRulesConfigView {
    pub backend: SecureBackendView,
    pub logger: Seq<char>,
    pub service: SafetyRulesServiceView,
    pub test: Option<SafetyRulesTestConfigView>,
    pub verify_vote_proposal_signature: bool,
}

impl View for SafetyRulesConfig {
    type V = SafetyRulesConfigView;

    open spec fn view(&self) -> SafetyRulesConfigView {
        SafetyRulesConfigView {
            backend: self.backend@,
            logger: self.logger@,
            service: self.service@,
            test: match self.test {
                Some(t) => Some(t@),
                None => None,
            },
            verify_vote_proposal_signature: self.verify_vote_proposal_signature,
        }
    }
}

impl SafetyRulesConfigView {
    /// A configuration is well formed when its test record, if present, is.
    pub open spec fn wf(self) -> bool {
        self.test matches Some(t) ==> t.wf()
    }
}

impl Default for SafetyRulesConfig {
    /// A freshly constructed configuration is runnable without further
    /// input: in-memory backend, thread deployment, signature verification
    /// on, no test record.
    fn default() -> (r: SafetyRulesConfig)
        ensures
            r@.backend == SecureBackendView::InMemoryStorage,
            r@.logger == Seq::<char>::empty(),
            r@.service == SafetyRulesServiceView::Thread,
            r@.test is None,
            r@.verify_vote_proposal_signature == true,
            r@.wf(),
    {
        SafetyRulesConfig {
            backend: SecureBackend::InMemoryStorage,
            logger: LoggerConfig::default(),
            service: SafetyRulesService::Thread,
            test: None,
            verify_vote_proposal_signature: true,
        }
    }
}

impl SafetyRulesConfig {
    /// Rewrite the on-disk backend's data directory.  For every other
    /// backend the directory is irrelevant and the call leaves the whole
    /// configuration unchanged; that mismatch is benign, not an error.
    pub fn set_data_dir(&mut self, data_dir: String)
        ensures
            final(self)@ == (match old(self)@.backend {
                SecureBackendView::OnDiskStorage { data_dir: _ } => (SafetyRulesConfigView {
                    backend: (SecureBackendView::OnDiskStorage { data_dir: data_dir@ }),
                    ..old(self)@
                }),
                _ => old(self)@,
            }),
    {
        match &mut self.backend {
            SecureBackend::OnDiskStorage(c) => c.set_data_dir(data_dir),
            _ => {},
        }
    }
}

} // verus!
