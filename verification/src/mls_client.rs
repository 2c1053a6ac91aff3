//! The client identity and the per-group sessions derived from it.
//!
//! A session holds a group identifier and nothing of the group's state. Every
//! operation reloads the state from the store, asks the engine for one
//! transition, lets the result be persisted, and only then encodes what it
//! hands back. Any failure on the way ends the operation with one
//! categorised error.

use crate::engine::basic_credential;
use crate::engine::build_key_package;
use crate::engine::commit_add;
use crate::engine::commit_remove;
use crate::engine::create_group_state;
use crate::engine::decode_key_package;
use crate::engine::decode_message;
use crate::engine::encode_key_package;
use crate::engine::encode_message;
use crate::engine::encrypt_application;
use crate::engine::epoch_of;
use crate::engine::generate_signature_keys;
use crate::engine::group_id_of;
use crate::engine::join_group_state;
use crate::engine::key_package_decodes;
use crate::engine::list_members;
use crate::engine::load_group_state;
use crate::engine::lossy_text;
use crate::engine::merge_pending;
use crate::engine::merge_staged;
use crate::engine::message_kind;
use crate::engine::process_incoming;
use crate::engine::store_signature_keys;
use crate::engine::utf8_lossy;
use crate::engine::validate_key_package;
use crate::engine::Decoded;
use crate::engine::EngineFailure;
use crate::engine::Incoming;
use crate::engine::MemberEntry;
use crate::engine::MessageKind;
use crate::error::Error;
use crate::error::ErrorKind;
use crate::error::Result;
use crate::storage::share_handle;
use crate::storage::MLSStorage;
use crate::types::commit_value;
use crate::types::copy_bytes;
use crate::types::MLSCiphertext;
use crate::types::MLSCommit;
use std::sync::Arc;
use vstd::prelude::*;
use vstd::string::*;

verus! {

/// Puts an engine failure that carries only a text into the category `kind`.
pub fn classify<T>(outcome: std::result::Result<T, String>, kind: ErrorKind) -> (r: Result<T>)
    ensures
        match outcome {
            Ok(v) => r == Ok::<T, Error>(v),
            Err(text) => r is Err && r->Err_0.spec_kind() == kind && r->Err_0.spec_detail()
                == text@,
        },
{
    match outcome {
        Ok(v) => Ok(v),
        Err(text) => Err(Error::from_kind(kind, text)),
    }
}

/// Puts an engine failure into the storage category where the store refused,
/// and into the category `other` for every other reason.
pub fn classify_failure<T>(outcome: std::result::Result<T, EngineFailure>, other: ErrorKind) -> (r:
    Result<T>)
    ensures
        match outcome {
            Ok(v) => r == Ok::<T, Error>(v),
            Err(EngineFailure::Storage(text)) => r is Err && r->Err_0.spec_kind()
                == ErrorKind::Storage && r->Err_0.spec_detail() == text@,
            Err(EngineFailure::Other(text)) => r is Err && r->Err_0.spec_kind() == other
                && r->Err_0.spec_detail() == text@,
        },
{
    match outcome {
        Ok(v) => Ok(v),
        Err(EngineFailure::Storage(text)) => Err(Error::StorageError(text)),
        Err(EngineFailure::Other(text)) => Err(Error::from_kind(other, text)),
    }
}

/// Reports an engine failure as a protocol error whose text is `context`
/// followed by the engine's own text.
pub fn classify_protocol<T>(outcome: std::result::Result<T, String>, context: &str) -> (r: Result<T>)
    ensures
        match outcome {
            Ok(v) => r == Ok::<T, Error>(v),
            Err(text) => r is Err && r->Err_0.spec_kind() == ErrorKind::OpenMls
                && r->Err_0.spec_detail() == context@ + text@,
        },
{
    match outcome {
        Ok(v) => Ok(v),
        Err(text) => Err(Error::OpenMlsError(String::from_str(context).concat(text.as_str()))),
    }
}

/// Decides what a read of a group's state amounts to: the state where the
/// store holds one, an invalid-state error where it holds none, a storage
/// error where the read itself failed.
pub fn require_group<T>(loaded: std::result::Result<Option<T>, String>) -> (r: Result<T>)
    ensures
        match loaded {
            Ok(Some(state)) => r == Ok::<T, Error>(state),
            Ok(None) => r is Err && r->Err_0.spec_kind() == ErrorKind::InvalidState
                && r->Err_0.spec_detail() == "Group not found in storage"@,
            Err(text) => r is Err && r->Err_0.spec_kind() == ErrorKind::Storage
                && r->Err_0.spec_detail() == text@,
        },
{
    match loaded {
        Ok(Some(state)) => Ok(state),
        Ok(None) => Err(Error::InvalidState(String::from_str("Group not found in storage"))),
        Err(text) => Err(Error::StorageError(text)),
    }
}

/// Accepts a decoded message only where it is a welcome.
pub fn require_welcome<W, G>(decoded: Decoded<W, G>) -> (r: Result<W>)
    ensures
        match decoded {
            Decoded::Welcome(w) => r == Ok::<W, Error>(w),
            _ => r is Err && r->Err_0.spec_kind() == ErrorKind::InvalidMessageType
                && r->Err_0.spec_detail() == "Expected welcome message"@,
        },
{
    match decoded {
        Decoded::Welcome(w) => Ok(w),
        _ => Err(Error::InvalidMessageType(String::from_str("Expected welcome message"))),
    }
}

/// Accepts a decoded message only where it belongs to a group, so that the
/// engine can process it.
pub fn require_group_message<W, G>(decoded: Decoded<W, G>) -> (r: Result<G>)
    ensures
        match decoded {
            Decoded::GroupMessage(g) => r == Ok::<G, Error>(g),
            _ => r is Err && r->Err_0.spec_kind() == ErrorKind::OpenMls
                && r->Err_0.spec_detail() == "Wrong wire format"@,
        },
{
    match decoded {
        Decoded::GroupMessage(g) => Ok(g),
        _ => Err(Error::OpenMlsError(String::from_str("Wrong wire format"))),
    }
}

/// The text with which each kind of content other than an application
/// message is refused.
pub open spec fn refusal_text(incoming: Incoming) -> Seq<char> {
    match incoming {
        Incoming::Application(_) => Seq::<char>::empty(),
        Incoming::Proposal => "Received proposal, expected application message"@,
        Incoming::ExternalJoinProposal =>
            "Received external join proposal, expected application message"@,
        Incoming::Commit(_) => "Received commit, expected application message"@,
        Incoming::OwnPendingCommit => "Received own commit, expected application message"@,
        Incoming::OwnPrivateMessage => "Received own message, expected application message"@,
    }
}

/// Narrows what the engine made of an incoming message to the one kind that
/// decryption hands back: the bytes of an application message. Every other
/// kind is refused as an invalid message type.
pub fn plaintext_of(incoming: Incoming) -> (r: Result<Vec<u8>>)
    ensures
        match incoming {
            Incoming::Application(bytes) => r == Ok::<Vec<u8>, Error>(bytes),
            _ => r is Err && r->Err_0.spec_kind() == ErrorKind::InvalidMessageType
                && r->Err_0.spec_detail() == refusal_text(incoming),
        },
{
    match incoming {
        Incoming::Application(bytes) => Ok(bytes),
        Incoming::Proposal => Err(
            Error::InvalidMessageType(
                String::from_str("Received proposal, expected application message"),
            ),
        ),
        Incoming::ExternalJoinProposal => Err(
            Error::InvalidMessageType(
                String::from_str("Received external join proposal, expected application message"),
            ),
        ),
        Incoming::Commit(_) => Err(
            Error::InvalidMessageType(
                String::from_str("Received commit, expected application message"),
            ),
        ),
        Incoming::OwnPendingCommit => Err(
            Error::InvalidMessageType(
                String::from_str("Received own commit, expected application message"),
            ),
        ),
        Incoming::OwnPrivateMessage => Err(
            Error::InvalidMessageType(
                String::from_str("Received own message, expected application message"),
            ),
        ),
    }
}

/// Picks out of what the engine made of an incoming message the one kind
/// that commit processing applies: a commit by another member. Content of any
/// other kind has nothing to apply.
pub fn staged_commit_of(incoming: Incoming) -> (staged: Option<Box<openmls::prelude::StagedCommit>>)
    ensures
        match incoming {
            Incoming::Commit(commit) => staged == Some(commit),
            _ => staged is None,
        },
{
    match incoming {
        Incoming::Commit(commit) => Some(commit),
        _ => None,
    }
}

/// The text by which identity bytes are compared with an identifier: what
/// they encode where they are valid UTF-8, their lossy decoding otherwise.
pub open spec fn identity_text(bytes: Seq<u8>) -> Seq<char> {
    if vstd::utf8::valid_utf8(bytes) {
        vstd::utf8::decode_utf8(bytes)
    } else {
        utf8_lossy(bytes)
    }
}

/// Whether a member carries a basic credential whose identity, decoded as
/// text, equals `id`.
pub open spec fn names_member(entry: MemberEntry, id: Seq<char>) -> bool {
    match entry.identity {
        Some(bytes) => identity_text(bytes@) == id,
        None => false,
    }
}

/// The leaf index of the first member from position `from` on that `id`
/// names, if any.
pub open spec fn first_named_from(members: Seq<MemberEntry>, id: Seq<char>, from: int) -> Option<u32>
    decreases members.len() - from,
{
    if from < 0 || from >= members.len() {
        None
    } else if names_member(members[from], id) {
        Some(members[from].index)
    } else {
        first_named_from(members, id, from + 1)
    }
}

/// The leaf index of the first member that `id` names, if any.
pub open spec fn first_named(members: Seq<MemberEntry>, id: Seq<char>) -> Option<u32> {
    first_named_from(members, id, 0)
}

/// Resolves an identifier against the member list by a scan in list order:
/// the first member whose basic credential decodes to the identifier wins.
pub fn find_member(members: &Vec<MemberEntry>, member_id: &str) -> (found: Option<u32>)
    ensures
        found == first_named(members@, member_id@),
{
    let wanted = member_id.to_owned();
    let mut i: usize = 0;
    while i < members.len()
        invariant
            0 <= i <= members.len(),
            wanted@ == member_id@,
            first_named(members@, member_id@) == first_named_from(members@, member_id@, i as int),
        decreases members.len() - i,
    {
        let entry = &members[i];
        if let Some(bytes) = &entry.identity {
            let text = lossy_text(bytes);
            if text == wanted {
                return Some(entry.index);
            }
        }
        i = i + 1;
    }
    None
}

/// Decides a removal from the member list alone: the leaf index of the first
/// member that the identifier names, or a member-not-found error that carries
/// the identifier where it names none.
pub fn plan_removal(members: &Vec<MemberEntry>, member_id: &str) -> (r: Result<u32>)
    ensures
        match first_named(members@, member_id@) {
            Some(leaf) => r == Ok::<u32, Error>(leaf),
            None => r is Err && r->Err_0.spec_kind() == ErrorKind::MemberNotFound
                && r->Err_0.spec_detail() == member_id@,
        },
{
    match find_member(members, member_id) {
        Some(leaf) => Ok(leaf),
        None => Err(Error::MemberNotFound(member_id.to_owned())),
    }
}

/// A member whose basic credential was made from the bytes of a text is named
/// by exactly that text.
pub proof fn lemma_text_identity_names_its_member(entry: MemberEntry, text: Seq<char>, id: Seq<char>)
    requires
        entry.identity matches Some(bytes) && bytes@ == vstd::utf8::encode_utf8(text),
    ensures
        names_member(entry, id) <==> id == text,
{
    vstd::utf8::encode_utf8_valid_utf8(text);
    vstd::utf8::encode_utf8_decode_utf8(text);
}

/// An identifier that names no member resolves to nothing, and only such an
/// identifier does; a resolved leaf index belongs to a member that the
/// identifier names, and no earlier member is named by it.
pub proof fn lemma_first_named(members: Seq<MemberEntry>, id: Seq<char>, from: int)
    requires
        0 <= from <= members.len(),
    ensures
        first_named_from(members, id, from) is None <==> forall|j: int|
            from <= j < members.len() ==> !names_member(#[trigger] members[j], id),
        first_named_from(members, id, from) matches Some(leaf) ==> exists|k: int|
            from <= k < members.len() && names_member(#[trigger] members[k], id) && members[k].index
                == leaf && forall|j: int| from <= j < k ==> !names_member(#[trigger] members[j], id),
    decreases members.len() - from,
{
    if from < members.len() {
        if names_member(members[from], id) {
            assert(from <= from < members.len() && names_member(members[from], id)
                && members[from].index == first_named_from(members, id, from)->Some_0);
        } else {
            lemma_first_named(members, id, from + 1);
            if let Some(leaf) = first_named_from(members, id, from) {
                let k = choose|k: int|
                    from + 1 <= k < members.len() && names_member(#[trigger] members[k], id)
                        && members[k].index == leaf && forall|j: int|
                        from + 1 <= j < k ==> !names_member(#[trigger] members[j], id);
                assert forall|j: int| from <= j < k implies !names_member(
                    #[trigger] members[j],
                    id,
                ) by {
                    if j > from {
                        assert(from + 1 <= j < k);
                    }
                }
            }
        }
    }
}

/// The long-term identity of one participant: the identity bytes, a signature
/// key pair, and the store that holds its groups and key material.
pub struct MLSClient {
    identity: Vec<u8>,
    storage: MLSStorage,
    credential: openmls::prelude::CredentialWithKey,
    signature_keys: Arc<openmls_basic_credential::SignatureKeyPair>,
}

/// One group conversation: the group identifier, and handles on the store and
/// the signing key. The group's state itself lives in the store.
pub struct MLSGroup {
    group_id: Vec<u8>,
    storage: MLSStorage,
    signature_keys: Arc<openmls_basic_credential::SignatureKeyPair>,
}

impl MLSClient {
    /// The identity bytes of this client.
    pub closed spec fn identity_bytes(&self) -> Seq<u8> {
        self.identity@
    }

    /// Creates the identity of a participant: draws a signature key pair,
    /// persists it, and binds a basic credential over the identity's bytes to
    /// it. Key generation may fail with a crypto error, persisting with a
    /// storage error; nothing else can go wrong.
    pub fn new(identity: String) -> (r: Result<MLSClient>)
        ensures
            match r {
                Ok(client) => client.identity_bytes() == vstd::utf8::encode_utf8(identity@),
                Err(e) => e.spec_kind() == ErrorKind::Crypto || e.spec_kind()
                    == ErrorKind::Storage,
            },
    {
        let storage = MLSStorage::new();
        let identity_bytes = identity.as_str().as_bytes_vec();
        let keys = classify(generate_signature_keys(), ErrorKind::Crypto)?;
        classify(store_signature_keys(&keys, &storage.provider), ErrorKind::Storage)?;
        let credential = basic_credential(&identity_bytes, &keys);
        Ok(
            MLSClient {
                identity: identity_bytes,
                storage,
                credential,
                signature_keys: Arc::new(keys),
            },
        )
    }

    /// Creates a group under `group_id` with this client as its only member.
    /// The engine persists the new state before the session is handed out; the
    /// session refers to the group by `group_id` alone.
    pub fn create_group(&self, group_id: Vec<u8>) -> (r: Result<MLSGroup>)
        ensures
            match r {
                Ok(group) => group.id() == group_id@,
                Err(e) => e.spec_kind() == ErrorKind::OpenMls || e.spec_kind()
                    == ErrorKind::Storage,
            },
    {
        let created = create_group_state(
            &self.storage.provider,
            &self.signature_keys,
            &group_id,
            &self.credential,
        );
        let _state = classify_failure(created, ErrorKind::OpenMls)?;
        Ok(
            MLSGroup {
                group_id,
                storage: self.storage.share(),
                signature_keys: share_handle(&self.signature_keys),
            },
        )
    }

    /// Joins the group that a welcome message admits this client to. The
    /// buffer has to decode, and to decode to a welcome; the session then
    /// refers to the group by the identifier found in the derived state.
    pub fn join_group(&self, welcome_bytes: &[u8]) -> (r: Result<MLSGroup>)
        ensures
            r matches Err(e) ==> e.spec_kind() == ErrorKind::Codec || e.spec_kind()
                == ErrorKind::InvalidMessageType || e.spec_kind() == ErrorKind::OpenMls
                || e.spec_kind() == ErrorKind::Storage,
            (r matches Err(e) && e.spec_kind() == ErrorKind::Codec) <==> message_kind(
                welcome_bytes@,
            ) is None,
            (r matches Err(e) && e.spec_kind() == ErrorKind::InvalidMessageType) <==> (
            message_kind(welcome_bytes@) matches Some(kind) && kind != MessageKind::Welcome),
    {
        let message = classify(decode_message(welcome_bytes), ErrorKind::Codec)?;
        let welcome = require_welcome(message)?;
        let joined = join_group_state(&self.storage.provider, welcome);
        let state = classify_failure(joined, ErrorKind::OpenMls)?;
        let group_id = group_id_of(&state);
        Ok(
            MLSGroup {
                group_id,
                storage: self.storage.share(),
                signature_keys: share_handle(&self.signature_keys),
            },
        )
    }

    /// Builds a key package for this identity and returns its encoding. The
    /// key package is persisted under its hash reference before it is encoded,
    /// so that a welcome that answers it can be resolved later.
    pub fn export_key_package(&self) -> (r: Result<Vec<u8>>)
        ensures
            r matches Err(e) ==> e.spec_kind() == ErrorKind::Crypto || e.spec_kind()
                == ErrorKind::Storage || e.spec_kind() == ErrorKind::Codec,
    {
        let built = build_key_package(
            &self.storage.provider,
            &self.signature_keys,
            &self.credential,
        );
        let key_package = classify_failure(built, ErrorKind::Crypto)?;
        classify(encode_key_package(&key_package), ErrorKind::Codec)
    }
}

impl MLSGroup {
    /// The identifier of the group that this session refers to.
    pub closed spec fn id(&self) -> Seq<u8> {
        self.group_id@
    }

    /// A copy of the group's identifier.
    pub fn group_id(&self) -> (id: Vec<u8>)
        ensures
            id@ == self.id(),
    {
        copy_bytes(&self.group_id)
    }

    /// Reloads the group's state from the store.
    fn load_group(&self) -> (r: Result<openmls::prelude::MlsGroup>)
        ensures
            r matches Err(e) ==> e.spec_kind() == ErrorKind::InvalidState || e.spec_kind()
                == ErrorKind::Storage,
    {
        require_group(load_group_state(&self.storage.provider, &self.group_id))
    }

    /// Applies the commit that the engine has just produced for `group`, so
    /// that the resulting state is persisted, and only then encodes the commit
    /// and its welcome. Where persisting fails, the commit is dropped and the
    /// storage failure reported.
    fn persist_and_encode(
        &self,
        group: &mut openmls::prelude::MlsGroup,
        commit: openmls::prelude::MlsMessageOut,
        welcome: Option<openmls::prelude::MlsMessageOut>,
    ) -> (r: Result<MLSCommit>)
        ensures
            match r {
                Ok(value) => value.welcome_bytes().len() == (if welcome is Some {
                    1nat
                } else {
                    0nat
                }),
                Err(e) => e.spec_kind() == ErrorKind::Storage || e.spec_kind()
                    == ErrorKind::Codec,
            },
    {
        classify(merge_pending(group, &self.storage.provider), ErrorKind::Storage)?;
        let commit_bytes = classify(encode_message(&commit), ErrorKind::Codec)?;
        match welcome {
            Some(message) => {
                let welcome_bytes = classify(encode_message(&message), ErrorKind::Codec)?;
                Ok(commit_value(commit_bytes, Some(welcome_bytes)))
            },
            None => Ok(commit_value(commit_bytes, None)),
        }
    }

    /// Adds the owner of a key package to the group. The commit is applied
    /// and persisted before anything is encoded; the result carries the commit
    /// and exactly one welcome, the one for the new member.
    pub fn add_member(&self, key_package_bytes: &[u8]) -> (r: Result<MLSCommit>)
        ensures
            match r {
                Ok(commit) => commit.welcome_bytes().len() == 1 && key_package_decodes(
                    key_package_bytes@,
                ),
                Err(e) => e.spec_kind() == ErrorKind::InvalidState || e.spec_kind()
                    == ErrorKind::Storage || e.spec_kind() == ErrorKind::Codec || e.spec_kind()
                    == ErrorKind::OpenMls,
            },
    {
        let mut group = self.load_group()?;
        let decoded = classify(decode_key_package(key_package_bytes), ErrorKind::Codec)?;
        let key_package = classify(
            validate_key_package(&self.storage.provider, decoded),
            ErrorKind::OpenMls,
        )?;
        let committed = commit_add(
            &mut group,
            &self.storage.provider,
            &self.signature_keys,
            key_package,
        );
        let (commit, welcome) = classify_protocol(committed, "Add members error: ")?;
        self.persist_and_encode(&mut group, commit, Some(welcome))
    }

    /// Asks the engine for the commit that removes the member that `member_id`
    /// names among `members`, the members of the loaded state: the first one
    /// whose identity decodes to it. Where it names none, the call fails with
    /// a member-not-found error, nothing is asked and the state stays as it was.
    fn request_removal(
        &self,
        group: &mut openmls::prelude::MlsGroup,
        members: &Vec<MemberEntry>,
        member_id: &str,
    ) -> (r: Result<openmls::prelude::MlsMessageOut>)
        ensures
            match first_named(members@, member_id@) {
                None => r is Err && r->Err_0.spec_kind() == ErrorKind::MemberNotFound
                    && r->Err_0.spec_detail() == member_id@ && *final(group) == *old(group),
                Some(_) => r matches Err(e) ==> e.spec_kind() == ErrorKind::OpenMls,
            },
    {
        // The member list decides alone whether the engine is asked at all.
        let leaf = plan_removal(members, member_id)?;
        let committed = commit_remove(group, &self.storage.provider, &self.signature_keys, leaf);
        classify_protocol(committed, "Remove members error: ")
    }

    /// Removes the member that `member_id` names. The identifier is resolved
    /// against the members of the state just loaded, in the engine's order,
    /// and the first match wins. Where it names none, the call fails with a
    /// member-not-found error that carries the identifier, before any
    /// transition is requested. Otherwise the commit is applied and persisted,
    /// and the result carries it with an empty welcome list.
    pub fn remove_member(&self, member_id: &str) -> (r: Result<MLSCommit>)
        ensures
            match r {
                Ok(commit) => commit.welcome_bytes().len() == 0,
                Err(e) => {
                    &&& e.spec_kind() == ErrorKind::InvalidState || e.spec_kind()
                        == ErrorKind::Storage || e.spec_kind() == ErrorKind::MemberNotFound
                        || e.spec_kind() == ErrorKind::OpenMls || e.spec_kind() == ErrorKind::Codec
                    &&& e.spec_kind() == ErrorKind::MemberNotFound ==> e.spec_detail() == member_id@
                },
            },
    {
        let mut group = self.load_group()?;
        let members = list_members(&group);
        let commit = self.request_removal(&mut group, &members, member_id)?;
        self.persist_and_encode(&mut group, commit, None)
    }

    /// Encrypts an application message for the group and stamps the result
    /// with the group's epoch at the time of encryption.
    pub fn encrypt_message(&self, plaintext: &[u8]) -> (r: Result<MLSCiphertext>)
        ensures
            r matches Err(e) ==> e.spec_kind() == ErrorKind::InvalidState || e.spec_kind()
                == ErrorKind::Storage || e.spec_kind() == ErrorKind::OpenMls || e.spec_kind()
                == ErrorKind::Codec,
    {
        let mut group = self.load_group()?;
        let encrypted = encrypt_application(
            &mut group,
            &self.storage.provider,
            &self.signature_keys,
            plaintext,
        );
        let message = classify(encrypted, ErrorKind::OpenMls)?;
        let data = classify(encode_message(&message), ErrorKind::Codec)?;
        Ok(MLSCiphertext::new(data, epoch_of(&group)))
    }

    /// Decrypts an incoming message. Only an application message yields
    /// bytes; a proposal, a commit or anything else the engine recognises is
    /// refused as an invalid message type, and a received commit is not
    /// applied.
    pub fn decrypt_message(&self, ciphertext_bytes: &[u8]) -> (r: Result<Vec<u8>>)
        ensures
            r matches Err(e) ==> e.spec_kind() == ErrorKind::InvalidState || e.spec_kind()
                == ErrorKind::Storage || e.spec_kind() == ErrorKind::Codec || e.spec_kind()
                == ErrorKind::OpenMls || e.spec_kind() == ErrorKind::InvalidMessageType,
            r is Ok ==> message_kind(ciphertext_bytes@) == Some(MessageKind::GroupMessage),
    {
        let mut group = self.load_group()?;
        let message = classify(decode_message(ciphertext_bytes), ErrorKind::Codec)?;
        let protocol_message = require_group_message(message)?;
        let processed = process_incoming(&mut group, &self.storage.provider, protocol_message);
        let incoming = classify_protocol(processed, "Process message error: ")?;
        plaintext_of(incoming)
    }

    /// Applies a commit received from another member. A message of any other
    /// kind is processed and leaves the group where it was.
    pub fn process_commit(&self, commit_bytes: &[u8]) -> (r: Result<()>)
        ensures
            r matches Err(e) ==> e.spec_kind() == ErrorKind::InvalidState || e.spec_kind()
                == ErrorKind::Storage || e.spec_kind() == ErrorKind::Codec || e.spec_kind()
                == ErrorKind::OpenMls,
            r is Ok ==> message_kind(commit_bytes@) == Some(MessageKind::GroupMessage),
    {
        let mut group = self.load_group()?;
        let message = classify(decode_message(commit_bytes), ErrorKind::Codec)?;
        let protocol_message = require_group_message(message)?;
        let processed = process_incoming(&mut group, &self.storage.provider, protocol_message);
        let incoming = classify_protocol(processed, "Process message error: ")?;
        match staged_commit_of(incoming) {
            Some(staged) => classify(
                merge_staged(&mut group, &self.storage.provider, staged),
                ErrorKind::Storage,
            ),
            None => Ok(()),
        }
    }

    /// The epoch of the group as the store holds it. Reads only.
    pub fn get_current_epoch(&self) -> (r: Result<u64>)
        ensures
            r matches Err(e) ==> e.spec_kind() == ErrorKind::InvalidState || e.spec_kind()
                == ErrorKind::Storage,
    {
        let group = self.load_group()?;
        Ok(epoch_of(&group))
    }
}

} // verus!
