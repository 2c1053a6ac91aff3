//! The protocol engine as this library sees it.
//!
//! Everything here is trusted rather than proved: the engine's types are
//! declared opaque, and each function below makes one request of the engine
//! and hands back plain values. Almost none of them promises anything about
//! its result, because the outcome depends on key material, randomness and
//! what the store holds.

use openmls::prelude::tls_codec::Deserialize;
use openmls::prelude::tls_codec::Serialize;
use openmls::prelude::OpenMlsProvider;
use vstd::prelude::*;

verus! {

/// The crypto provider together with the in-memory store it owns.
#[verifier::external_type_specification]
#[verifier::external_body]
pub struct ExProvider(openmls_rust_crypto::OpenMlsRustCrypto);

/// A signature key pair.
#[verifier::external_type_specification]
#[verifier::external_body]
pub struct ExSignatureKeyPair(openmls_basic_credential::SignatureKeyPair);

/// A credential bound to a public signature key.
#[verifier::external_type_specification]
#[verifier::external_body]
pub struct ExCredentialWithKey(openmls::prelude::CredentialWithKey);

/// The in-memory state of one group.
#[verifier::external_type_specification]
#[verifier::external_body]
pub struct ExMlsGroup(openmls::prelude::MlsGroup);

/// A message that the engine produced and that can be encoded.
#[verifier::external_type_specification]
#[verifier::external_body]
pub struct ExMlsMessageOut(openmls::prelude::MlsMessageOut);

/// A decoded incoming message that belongs to a group.
#[verifier::external_type_specification]
#[verifier::external_body]
pub struct ExProtocolMessage(openmls::prelude::ProtocolMessage);

/// A welcome message.
#[verifier::external_type_specification]
#[verifier::external_body]
pub struct ExWelcome(openmls::prelude::Welcome);

/// A validated key package.
#[verifier::external_type_specification]
#[verifier::external_body]
pub struct ExKeyPackage(openmls::prelude::KeyPackage);

/// A decoded key package that has not been validated.
#[verifier::external_type_specification]
#[verifier::external_body]
pub struct ExKeyPackageIn(openmls::prelude::KeyPackageIn);

/// A received commit that has been checked and not yet applied.
#[verifier::external_type_specification]
#[verifier::external_body]
pub struct ExStagedCommit(openmls::prelude::StagedCommit);

/// Why a request to the engine failed: because the store refused, or for any
/// other reason. Either way only the engine's text survives.
pub enum EngineFailure {
    Storage(String),
    Other(String),
}

/// One member of a group as the engine lists it: the leaf index, and the
/// identity bytes where the member's credential is a basic credential.
pub struct MemberEntry {
    pub index: u32,
    pub identity: Option<Vec<u8>>,
}

/// The kinds of message that a buffer can decode to, as far as this library
/// tells them apart.
#[derive(Debug, Clone, Copy, PartialEq, Eq, Structural)]
pub enum MessageKind {
    /// A welcome for a new member.
    Welcome,
    /// A message that belongs to a group: a proposal, a commit or an
    /// application message, protected or not.
    GroupMessage,
    /// Anything else, such as a bare key package or group information.
    Other,
}

/// A decoded message, with its payload where an operation of this library
/// accepts the kind.
pub enum Decoded<W, G> {
    Welcome(W),
    GroupMessage(G),
    Other,
}

impl<W, G> Decoded<W, G> {
    /// The kind of the decoded message.
    pub open spec fn kind(&self) -> MessageKind {
        match self {
            Decoded::Welcome(_) => MessageKind::Welcome,
            Decoded::GroupMessage(_) => MessageKind::GroupMessage,
            Decoded::Other => MessageKind::Other,
        }
    }
}

/// What the engine made of an incoming group message.
pub enum Incoming {
    /// An application message, with its decrypted bytes.
    Application(Vec<u8>),
    /// A standalone proposal.
    Proposal,
    /// A proposal by an outsider to join the group.
    ExternalJoinProposal,
    /// A commit by another member, ready to be applied.
    Commit(Box<openmls::prelude::StagedCommit>),
    /// This client's own outstanding commit, echoed back.
    OwnPendingCommit,
    /// A private message that this client sent itself and cannot open.
    OwnPrivateMessage,
}

/// The text that lossy UTF-8 decoding makes of a byte string that is not
/// valid UTF-8: valid sequences decode to their characters, each invalid
/// sequence to U+FFFD.
pub uninterp spec fn utf8_lossy(bytes: Seq<u8>) -> Seq<char>;

/// The kind of the one message that `bytes` are the engine's encoding of,
/// with nothing left over; `None` where they encode no such message.
pub uninterp spec fn message_kind(bytes: Seq<u8>) -> Option<MessageKind>;

/// Whether `bytes` are the engine's encoding of one key package, with nothing
/// left over.
pub uninterp spec fn key_package_decodes(bytes: Seq<u8>) -> bool;

/// `String::from_utf8_lossy`: valid UTF-8 decodes to the text it encodes;
/// anything else to its lossy decoding, which depends on the bytes alone.
#[verifier::external_body]
pub(crate) fn lossy_text(bytes: &Vec<u8>) -> (text: String)
    ensures
        vstd::utf8::valid_utf8(bytes@) ==> text@ == vstd::utf8::decode_utf8(bytes@),
        !vstd::utf8::valid_utf8(bytes@) ==> text@ == utf8_lossy(bytes@),
{
    String::from_utf8_lossy(bytes).into_owned()
}

/// `OpenMlsRustCrypto::default`: a provider with an empty store.
#[verifier::external_body]
pub(crate) fn fresh_provider() -> (provider: openmls_rust_crypto::OpenMlsRustCrypto) {
    openmls_rust_crypto::OpenMlsRustCrypto::default()
}

/// `SignatureKeyPair::new` for Ed25519: a freshly drawn key pair, or the
/// text of the crypto failure.
#[verifier::external_body]
pub(crate) fn generate_signature_keys() -> (keys: Result<
    openmls_basic_credential::SignatureKeyPair,
    String,
>) {
    openmls_basic_credential::SignatureKeyPair::new(openmls::prelude::SignatureScheme::ED25519)
        .map_err(|e| e.to_string())
}

/// `SignatureKeyPair::store`: writes the key pair to the provider's store, or
/// gives the text of the storage failure.
#[verifier::external_body]
pub(crate) fn store_signature_keys(
    keys: &openmls_basic_credential::SignatureKeyPair,
    provider: &openmls_rust_crypto::OpenMlsRustCrypto,
) -> (stored: Result<(), String>) {
    keys.store(provider.storage()).map_err(|e| e.to_string())
}

/// `BasicCredential::new`: a basic credential over `identity`, bound to the
/// public half of `keys`.
#[verifier::external_body]
pub(crate) fn basic_credential(
    identity: &Vec<u8>,
    keys: &openmls_basic_credential::SignatureKeyPair,
) -> (credential: openmls::prelude::CredentialWithKey) {
    openmls::prelude::CredentialWithKey {
        credential: openmls::prelude::BasicCredential::new(identity.clone()).into(),
        signature_key: keys.public().into(),
    }
}

/// `MlsGroup::new_with_group_id`: a new group under `group_id` with the
/// creator as only member, already written to the provider's store.
#[verifier::external_body]
pub(crate) fn create_group_state(
    provider: &openmls_rust_crypto::OpenMlsRustCrypto,
    keys: &openmls_basic_credential::SignatureKeyPair,
    group_id: &Vec<u8>,
    credential: &openmls::prelude::CredentialWithKey,
) -> (created: Result<openmls::prelude::MlsGroup, EngineFailure>) {
    let config = openmls::prelude::MlsGroupCreateConfig::builder()
        .use_ratchet_tree_extension(true)
        .build();
    let id = openmls::prelude::GroupId::from_slice(group_id);
    openmls::prelude::MlsGroup::new_with_group_id(provider, keys, &config, id, credential.clone())
        .map_err(|e| match e {
            openmls::prelude::NewGroupError::StorageError(s) => EngineFailure::Storage(s.to_string()),
            other => EngineFailure::Other(other.to_string()),
        })
}

/// `MlsGroup::load`: the state stored under `group_id`, `None` where the store
/// holds none, or the text of the storage failure.
#[verifier::external_body]
pub(crate) fn load_group_state(
    provider: &openmls_rust_crypto::OpenMlsRustCrypto,
    group_id: &Vec<u8>,
) -> (loaded: Result<Option<openmls::prelude::MlsGroup>, String>) {
    let id = openmls::prelude::GroupId::from_slice(group_id);
    openmls::prelude::MlsGroup::load(provider.storage(), &id).map_err(|e| e.to_string())
}

/// `MlsMessageIn::tls_deserialize_exact` and `MlsMessageIn::extract`: the
/// message that `bytes` encode, told apart by its kind, or the text of the
/// codec failure. Whether it decodes, and to which kind, depends on the bytes
/// alone.
#[verifier::external_body]
pub(crate) fn decode_message(bytes: &[u8]) -> (decoded: Result<
    Decoded<openmls::prelude::Welcome, openmls::prelude::ProtocolMessage>,
    String,
>)
    ensures
        match decoded {
            Ok(message) => message_kind(bytes@) == Some(message.kind()),
            Err(_) => message_kind(bytes@) is None,
        },
{
    let message = openmls::prelude::MlsMessageIn::tls_deserialize_exact(bytes)
        .map_err(|e| e.to_string())?;
    Ok(match message.extract() {
        openmls::prelude::MlsMessageBodyIn::Welcome(w) => Decoded::Welcome(w),
        openmls::prelude::MlsMessageBodyIn::PublicMessage(m) => Decoded::GroupMessage(m.into()),
        openmls::prelude::MlsMessageBodyIn::PrivateMessage(m) => Decoded::GroupMessage(m.into()),
        _ => Decoded::Other,
    })
}

/// `StagedWelcome::new_from_welcome` and `StagedWelcome::into_group`: the
/// state of the group that the welcome admits this client to, already written
/// to the provider's store.
#[verifier::external_body]
pub(crate) fn join_group_state(
    provider: &openmls_rust_crypto::OpenMlsRustCrypto,
    welcome: openmls::prelude::Welcome,
) -> (joined: Result<openmls::prelude::MlsGroup, EngineFailure>) {
    let config = openmls::prelude::MlsGroupJoinConfig::default();
    openmls::prelude::StagedWelcome::new_from_welcome(provider, &config, welcome, None)
        .and_then(|staged| staged.into_group(provider))
        .map_err(|e| match e {
            openmls::prelude::WelcomeError::StorageError(s) => EngineFailure::Storage(s.to_string()),
            other => EngineFailure::Other(other.to_string()),
        })
}

/// `MlsGroup::group_id`: the identifier of the group, as bytes.
#[verifier::external_body]
pub(crate) fn group_id_of(group: &openmls::prelude::MlsGroup) -> (id: Vec<u8>) {
    group.group_id().to_vec()
}

/// `MlsGroup::epoch`: the epoch counter of the group.
#[verifier::external_body]
pub(crate) fn epoch_of(group: &openmls::prelude::MlsGroup) -> (epoch: u64) {
    group.epoch().as_u64()
}

/// `MlsGroup::members`: the members in the order in which the engine lists
/// them, each with its leaf index and, for a basic credential, its identity.
#[verifier::external_body]
pub(crate) fn list_members(group: &openmls::prelude::MlsGroup) -> (members: Vec<MemberEntry>) {
    group
        .members()
        .map(|m| MemberEntry {
            index: m.index.u32(),
            identity: match openmls::prelude::BasicCredential::try_from(m.credential) {
                Ok(basic) => Some(basic.identity().to_vec()),
                Err(_) => None,
            },
        })
        .collect()
}

/// `KeyPackageBuilder::build`: a key package for the credential, stored under
/// its hash reference in the provider's store before it is handed back.
#[verifier::external_body]
pub(crate) fn build_key_package(
    provider: &openmls_rust_crypto::OpenMlsRustCrypto,
    keys: &openmls_basic_credential::SignatureKeyPair,
    credential: &openmls::prelude::CredentialWithKey,
) -> (built: Result<openmls::prelude::KeyPackage, EngineFailure>) {
    let suite = openmls::prelude::Ciphersuite::MLS_128_DHKEMX25519_AES128GCM_SHA256_Ed25519;
    openmls::prelude::KeyPackage::builder()
        .build(suite, provider, keys, credential.clone())
        .map(|bundle| bundle.key_package().clone())
        .map_err(|e| match e {
            openmls::prelude::KeyPackageNewError::StorageError => EngineFailure::Storage(e.to_string()),
            other => EngineFailure::Other(other.to_string()),
        })
}

/// `KeyPackage::tls_serialize_detached`: the engine's encoding of the key
/// package, or the text of the codec failure.
#[verifier::external_body]
pub(crate) fn encode_key_package(key_package: &openmls::prelude::KeyPackage) -> (encoded: Result<
    Vec<u8>,
    String,
>) {
    key_package.tls_serialize_detached().map_err(|e| e.to_string())
}

/// `KeyPackageIn::tls_deserialize_exact`: the key package that `bytes`
/// encode, or the text of the codec failure. Whether it succeeds depends on
/// the bytes alone.
#[verifier::external_body]
pub(crate) fn decode_key_package(bytes: &[u8]) -> (decoded: Result<
    openmls::prelude::KeyPackageIn,
    String,
>)
    ensures
        decoded is Ok <==> key_package_decodes(bytes@),
{
    openmls::prelude::KeyPackageIn::tls_deserialize_exact(bytes).map_err(|e| e.to_string())
}

/// `KeyPackageIn::validate`: the key package once its signatures and lifetime
/// have been checked, or the text of the reason it was refused.
#[verifier::external_body]
pub(crate) fn validate_key_package(
    provider: &openmls_rust_crypto::OpenMlsRustCrypto,
    key_package: openmls::prelude::KeyPackageIn,
) -> (validated: Result<openmls::prelude::KeyPackage, String>) {
    key_package
        .validate(provider.crypto(), openmls::prelude::ProtocolVersion::Mls10)
        .map_err(|e| e.to_string())
}

/// `MlsGroup::add_members` for one key package: the commit and the welcome
/// for the new member. The commit stays pending in `group`.
#[verifier::external_body]
pub(crate) fn commit_add(
    group: &mut openmls::prelude::MlsGroup,
    provider: &openmls_rust_crypto::OpenMlsRustCrypto,
    keys: &openmls_basic_credential::SignatureKeyPair,
    key_package: openmls::prelude::KeyPackage,
) -> (committed: Result<(openmls::prelude::MlsMessageOut, openmls::prelude::MlsMessageOut), String>) {
    group
        .add_members(provider, keys, &[key_package])
        .map(|(commit, welcome, _info)| (commit, welcome))
        .map_err(|e| format!("{:?}", e))
}

/// `MlsGroup::remove_members` for one leaf: the commit that removes the
/// member at `leaf`. The commit stays pending in `group`.
#[verifier::external_body]
pub(crate) fn commit_remove(
    group: &mut openmls::prelude::MlsGroup,
    provider: &openmls_rust_crypto::OpenMlsRustCrypto,
    keys: &openmls_basic_credential::SignatureKeyPair,
    leaf: u32,
) -> (committed: Result<openmls::prelude::MlsMessageOut, String>) {
    group
        .remove_members(provider, keys, &[openmls::prelude::LeafNodeIndex::new(leaf)])
        .map(|(commit, _welcome, _info)| commit)
        .map_err(|e| format!("{:?}", e))
}

/// `MlsGroup::merge_pending_commit`: applies the group's own pending commit
/// and writes the resulting state to the provider's store.
#[verifier::external_body]
pub(crate) fn merge_pending(
    group: &mut openmls::prelude::MlsGroup,
    provider: &openmls_rust_crypto::OpenMlsRustCrypto,
) -> (merged: Result<(), String>) {
    group.merge_pending_commit(provider).map_err(|e| e.to_string())
}

/// `MlsGroup::merge_staged_commit`: applies a received commit and writes the
/// resulting state to the provider's store.
#[verifier::external_body]
pub(crate) fn merge_staged(
    group: &mut openmls::prelude::MlsGroup,
    provider: &openmls_rust_crypto::OpenMlsRustCrypto,
    commit: Box<openmls::prelude::StagedCommit>,
) -> (merged: Result<(), String>) {
    group.merge_staged_commit(provider, *commit).map_err(|e| e.to_string())
}

/// `MlsMessageOut::tls_serialize_detached`: the engine's encoding of the
/// message, or the text of the codec failure.
#[verifier::external_body]
pub(crate) fn encode_message(message: &openmls::prelude::MlsMessageOut) -> (encoded: Result<
    Vec<u8>,
    String,
>) {
    message.tls_serialize_detached().map_err(|e| e.to_string())
}

/// `MlsGroup::create_message`: the application message that carries
/// `plaintext`, encrypted for the group's current epoch.
#[verifier::external_body]
pub(crate) fn encrypt_application(
    group: &mut openmls::prelude::MlsGroup,
    provider: &openmls_rust_crypto::OpenMlsRustCrypto,
    keys: &openmls_basic_credential::SignatureKeyPair,
    plaintext: &[u8],
) -> (encrypted: Result<openmls::prelude::MlsMessageOut, String>) {
    group.create_message(provider, keys, plaintext).map_err(|e| e.to_string())
}

/// `MlsGroup::process_message`: checks and, where needed, decrypts a group
/// message, and says what kind of content it carried.
#[verifier::external_body]
pub(crate) fn process_incoming(
    group: &mut openmls::prelude::MlsGroup,
    provider: &openmls_rust_crypto::OpenMlsRustCrypto,
    message: openmls::prelude::ProtocolMessage,
) -> (processed: Result<Incoming, String>) {
    let content = group.process_message(provider, message).map_err(|e| format!("{:?}", e))?;
    Ok(match content.into_content() {
        openmls::prelude::ProcessedMessageContent::ApplicationMessage(m) => Incoming::Application(m.into_bytes()),
        openmls::prelude::ProcessedMessageContent::ProposalMessage(_) => Incoming::Proposal,
        openmls::prelude::ProcessedMessageContent::ExternalJoinProposalMessage(_) => Incoming::ExternalJoinProposal,
        openmls::prelude::ProcessedMessageContent::StagedCommitMessage(c) => Incoming::Commit(c),
        openmls::prelude::ProcessedMessageContent::OwnPendingCommit => Incoming::OwnPendingCommit,
        openmls::prelude::ProcessedMessageContent::OwnPrivateMessage => Incoming::OwnPrivateMessage,
    })
}

} // verus!
