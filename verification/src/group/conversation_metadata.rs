//! What a server knows of conversations.
//!
//! A server keeps the security state of each conversation, and nothing that was
//! said in it. Every change passes the checks against downgrades.
use crate::assoc::AssocMap;
use crate::bytes::copy_bytes;
use crate::ciphersuite::security_mode::{mode_rank, SecurityMode};
use crate::extensions::apq_info::{
    apq_info_error_text, apq_info_validity, ApqInfo, ApqInfoError, ApqInfoView,
};
use crate::group::kchat_conversation::opt_record;
use crate::group::no_downgrade::{
    apq_info_change_verdict, downgrade_error_text, mode_change_verdict, recorded,
    validate_apq_info_change, validate_mode_change, ConversationSecurityState, DowngradeError,
};
use crate::types::GroupId;
use vstd::prelude::*;
use vstd::string::*;

verus! {

/// What is known of one conversation.
#[derive(Debug, PartialEq, Eq)]
pub struct ConversationMetadata {
    /// The conversation.
    pub conversation_id: Vec<u8>,
    /// Its security state.
    pub security_state: ConversationSecurityState,
    /// The group of the T session, if any.
    pub t_group_id: Option<GroupId>,
    /// The group of the PQ session, if any.
    pub pq_group_id: Option<GroupId>,
    /// The record that links the sessions, if any.
    pub apq_info: Option<ApqInfo>,
    /// When the conversation was registered, in Unix seconds.
    pub created_at: u64,
    /// When something last changed, in Unix seconds.
    pub last_updated: u64,
}

/// A `ConversationMetadata` over the views of what it holds.
#[verifier::ext_equal]
pub struct MetadataView {
    /// See `ConversationMetadata::conversation_id`.
    pub conversation_id: Seq<u8>,
    /// See `ConversationMetadata::security_state`.
    pub security_state: ConversationSecurityState,
    /// See `ConversationMetadata::t_group_id`.
    pub t_group_id: Option<Seq<u8>>,
    /// See `ConversationMetadata::pq_group_id`.
    pub pq_group_id: Option<Seq<u8>>,
    /// See `ConversationMetadata::apq_info`.
    pub apq_info: Option<ApqInfoView>,
    /// See `ConversationMetadata::created_at`.
    pub created_at: u64,
    /// See `ConversationMetadata::last_updated`.
    pub last_updated: u64,
}

/// The view of an optional identifier.
pub open spec fn opt_id(id: Option<GroupId>) -> Option<Seq<u8>> {
    match id {
        Some(g) => Some(g@),
        None => None,
    }
}

impl View for ConversationMetadata {
    type V = MetadataView;

    open spec fn view(&self) -> MetadataView {
        MetadataView {
            conversation_id: self.conversation_id@,
            security_state: self.security_state,
            t_group_id: opt_id(self.t_group_id),
            pq_group_id: opt_id(self.pq_group_id),
            apq_info: opt_record(self.apq_info),
            created_at: self.created_at,
            last_updated: self.last_updated,
        }
    }
}

impl ConversationMetadata {
    /// What is known of a conversation that was just registered.
    pub fn new(
        conversation_id: Vec<u8>,
        security_state: ConversationSecurityState,
        t_group_id: Option<GroupId>,
        pq_group_id: Option<GroupId>,
        apq_info: Option<ApqInfo>,
        created_at: u64,
    ) -> (r: Self)
        ensures
            r@ == (MetadataView {
                conversation_id: conversation_id@,
                security_state,
                t_group_id: opt_id(t_group_id),
                pq_group_id: opt_id(pq_group_id),
                apq_info: opt_record(apq_info),
                created_at,
                last_updated: created_at,
            }),
    {
        ConversationMetadata {
            conversation_id,
            security_state,
            t_group_id,
            pq_group_id,
            apq_info,
            created_at,
            last_updated: created_at,
        }
    }
}

impl Clone for ConversationMetadata {
    fn clone(&self) -> (r: Self)
        ensures
            r@ == self@,
    {
        ConversationMetadata {
            conversation_id: copy_bytes(self.conversation_id.as_slice()),
            security_state: self.security_state,
            t_group_id: match &self.t_group_id {
                Some(g) => Some(g.clone()),
                None => None,
            },
            pq_group_id: match &self.pq_group_id {
                Some(g) => Some(g.clone()),
                None => None,
            },
            apq_info: match &self.apq_info {
                Some(i) => Some(i.clone()),
                None => None,
            },
            created_at: self.created_at,
            last_updated: self.last_updated,
        }
    }
}

/// Why a change is not made.
#[derive(Debug, Clone, Copy, PartialEq, Eq, Structural)]
pub enum MetadataError {
    /// The conversation is not registered.
    NotFound,
    /// The change would be a downgrade.
    DowngradeRejected(DowngradeError),
    /// The new link record is not valid.
    InvalidApqInfo(ApqInfoError),
    /// The conversation is registered already.
    AlreadyRegistered,
}

/// All that a server knows.
#[derive(Debug)]
pub struct ConversationMetadataService {
    entries: AssocMap<Vec<u8>, ConversationMetadata>,
    next_timestamp: u64,
}

/// The contents of a `ConversationMetadataService`.
#[verifier::ext_equal]
pub struct ServiceView {
    /// What is known of each conversation.
    pub entries: Map<Seq<u8>, MetadataView>,
    /// The latest time so far.
    pub next_timestamp: u64,
}

impl View for ConversationMetadataService {
    type V = ServiceView;

    closed spec fn view(&self) -> ServiceView {
        ServiceView {
            entries: self.entries@.map_values(|m: ConversationMetadata| m@),
            next_timestamp: self.next_timestamp,
        }
    }
}

/// The time after one tick. The last time there is stays.
pub open spec fn ticked(t: u64) -> u64 {
    if t < u64::MAX {
        (t + 1) as u64
    } else {
        t
    }
}

/// What becomes of a registration, and of the service.
pub open spec fn register_outcome(s: ServiceView, m: MetadataView) -> (
    ServiceView,
    Result<(), MetadataError>,
) {
    if s.entries.contains_key(m.conversation_id) {
        (s, Err(MetadataError::AlreadyRegistered))
    } else {
        (
            ServiceView {
                entries: s.entries.insert(m.conversation_id, m),
                next_timestamp: if m.last_updated > s.next_timestamp {
                    m.last_updated
                } else {
                    s.next_timestamp
                },
            },
            Ok(()),
        )
    }
}

/// What becomes of a change of mode, and of the service.
pub open spec fn mode_outcome(s: ServiceView, id: Seq<u8>, mode: SecurityMode) -> (
    ServiceView,
    Result<(), MetadataError>,
) {
    if !s.entries.contains_key(id) {
        (s, Err(MetadataError::NotFound))
    } else {
        match mode_change_verdict(s.entries[id].security_state, mode) {
            Err(e) => (s, Err(MetadataError::DowngradeRejected(e))),
            Ok(_) => (
                ServiceView {
                    entries: s.entries.insert(
                        id,
                        MetadataView {
                            security_state: recorded(s.entries[id].security_state, mode),
                            last_updated: ticked(s.next_timestamp),
                            ..s.entries[id]
                        },
                    ),
                    next_timestamp: ticked(s.next_timestamp),
                },
                Ok(()),
            ),
        }
    }
}

/// What becomes of a new link record, and of the service.
pub open spec fn info_outcome(s: ServiceView, id: Seq<u8>, info: ApqInfoView) -> (
    ServiceView,
    Result<(), MetadataError>,
) {
    if !s.entries.contains_key(id) {
        (s, Err(MetadataError::NotFound))
    } else {
        match (
            apq_info_validity(info),
            apq_info_change_verdict(s.entries[id].apq_info, Some(info)),
        ) {
            (Err(e), _) => (s, Err(MetadataError::InvalidApqInfo(e))),
            (Ok(_), Err(e)) => (s, Err(MetadataError::DowngradeRejected(e))),
            (Ok(_), Ok(_)) => (
                ServiceView {
                    entries: s.entries.insert(
                        id,
                        MetadataView {
                            apq_info: Some(info),
                            last_updated: ticked(s.next_timestamp),
                            ..s.entries[id]
                        },
                    ),
                    next_timestamp: ticked(s.next_timestamp),
                },
                Ok(()),
            ),
        }
    }
}

impl ConversationMetadataService {
    /// A service that knows nothing.
    pub fn new() -> (r: Self)
        ensures
            r@ == (ServiceView { entries: Map::empty(), next_timestamp: 0 }),
    {
        let r = ConversationMetadataService { entries: AssocMap::new(), next_timestamp: 0 };
        assert(r@.entries =~= Map::empty());
        r
    }

    /// Registers a conversation. One that is registered already is not
    /// overwritten.
    pub fn register(&mut self, metadata: ConversationMetadata) -> (r: Result<(), MetadataError>)
        ensures
            (final(self)@, r) == register_outcome(old(self)@, metadata@),
    {
        let key = copy_bytes(metadata.conversation_id.as_slice());
        if self.entries.contains_key(&key) {
            return Err(MetadataError::AlreadyRegistered);
        }
        if metadata.last_updated > self.next_timestamp {
            self.next_timestamp = metadata.last_updated;
        }
        self.entries.insert(key, metadata);
        assert(self@.entries =~= old(self)@.entries.insert(key@, metadata@));
        Ok(())
    }

    /// What is known of a conversation.
    pub fn get(&self, conversation_id: &[u8]) -> (r: Option<&ConversationMetadata>)
        ensures
            match r {
                Some(m) => self@.entries.contains_key(conversation_id@)
                    && self@.entries[conversation_id@] == m@,
                None => !self@.entries.contains_key(conversation_id@),
            },
    {
        self.entries.get(&copy_bytes(conversation_id))
    }

    /// Changes the mode of a conversation, if that is no downgrade.
    pub fn update_security_state(&mut self, conversation_id: &[u8], new_mode: SecurityMode) -> (r:
        Result<(), MetadataError>)
        ensures
            (final(self)@, r) == mode_outcome(old(self)@, conversation_id@, new_mode),
    {
        let key = copy_bytes(conversation_id);
        let verdict = match self.entries.get(&key) {
            None => {
                return Err(MetadataError::NotFound);
            },
            Some(entry) => validate_mode_change(&entry.security_state, new_mode),
        };
        if let Err(e) = verdict {
            return Err(MetadataError::DowngradeRejected(e));
        }
        match self.entries.remove(&key) {
            None => Err(MetadataError::NotFound),
            Some(taken) => {
                let mut entry = taken;
                entry.security_state.record_upgrade(new_mode);
                Self::tick(&mut self.next_timestamp, &mut entry.last_updated);
                let ghost updated = entry@;
                self.entries.insert(key, entry);
                assert(self@.entries =~= old(self)@.entries.insert(conversation_id@, updated));
                Ok(())
            },
        }
    }

    /// Replaces the link record of a conversation, if the new one is valid and no
    /// downgrade.
    pub fn update_apq_info(&mut self, conversation_id: &[u8], new_apq_info: ApqInfo) -> (r: Result<
        (),
        MetadataError,
    >)
        ensures
            (final(self)@, r) == info_outcome(old(self)@, conversation_id@, new_apq_info@),
    {
        let key = copy_bytes(conversation_id);
        let verdict = match self.entries.get(&key) {
            None => {
                return Err(MetadataError::NotFound);
            },
            Some(entry) => {
                if let Err(e) = new_apq_info.validate() {
                    return Err(MetadataError::InvalidApqInfo(e));
                }
                let current = match &entry.apq_info {
                    Some(i) => Some(i),
                    None => None,
                };
                validate_apq_info_change(current, Some(&new_apq_info))
            },
        };
        if let Err(e) = verdict {
            return Err(MetadataError::DowngradeRejected(e));
        }
        match self.entries.remove(&key) {
            None => Err(MetadataError::NotFound),
            Some(taken) => {
                let mut entry = taken;
                entry.apq_info = Some(new_apq_info);
                Self::tick(&mut self.next_timestamp, &mut entry.last_updated);
                let ghost updated = entry@;
                self.entries.insert(key, entry);
                assert(self@.entries =~= old(self)@.entries.insert(conversation_id@, updated));
                Ok(())
            },
        }
    }

    /// The number of conversations.
    pub fn len(&self) -> (r: usize)
        ensures
            r == self@.entries.dom().len(),
    {
        assert(self@.entries.dom() =~= self.entries@.dom());
        self.entries.len()
    }

    /// Whether no conversation is registered.
    pub fn is_empty(&self) -> (r: bool)
        ensures
            r == (self@.entries.dom().len() == 0),
    {
        self.len() == 0
    }

    /// Moves the time on by one tick.
    fn tick(cursor: &mut u64, dest: &mut u64)
        ensures
            *final(cursor) == ticked(*old(cursor)),
            *final(dest) == ticked(*old(cursor)),
    {
        *cursor = cursor.saturating_add(1);
        *dest = *cursor;
    }
}

impl Default for ConversationMetadataService {
    fn default() -> (r: Self)
        ensures
            r@ == (ServiceView { entries: Map::empty(), next_timestamp: 0 }),
    {
        ConversationMetadataService::new()
    }
}

/// `true` if `b` is not weaker than `a`: the modes have not gone down, the floor and
/// the pin are the same, and a link record has neither gone away nor changed its
/// suites nor weakened its mode.
pub open spec fn not_weaker(a: MetadataView, b: MetadataView) -> bool {
    &&& mode_rank(b.security_state.current_mode) >= mode_rank(a.security_state.current_mode)
    &&& mode_rank(b.security_state.highest_mode_ever) >= mode_rank(
        a.security_state.highest_mode_ever,
    )
    &&& b.security_state.policy_floor == a.security_state.policy_floor
    &&& b.security_state.pinned_ciphersuite == a.security_state.pinned_ciphersuite
    &&& a.apq_info matches Some(old_info) ==> (b.apq_info matches Some(new_info)
        && new_info.t_ciphersuite == old_info.t_ciphersuite && new_info.pq_ciphersuite
        == old_info.pq_ciphersuite && mode_rank(new_info.mode) >= mode_rank(old_info.mode))
}

/// `true` if everything that `a` knows is still there in `b`, and nothing of it is
/// weaker.
pub open spec fn service_not_weaker(a: ServiceView, b: ServiceView) -> bool {
    forall|id: Seq<u8>| #[trigger]
        a.entries.contains_key(id) ==> b.entries.contains_key(id) && not_weaker(
            a.entries[id],
            b.entries[id],
        )
}

/// Whatever the server is told, no conversation gets weaker or is forgotten, and the
/// time does not go back.
pub proof fn no_request_weakens_a_conversation(
    s: ServiceView,
    id: Seq<u8>,
    mode: SecurityMode,
    info: ApqInfoView,
    m: MetadataView,
)
    ensures
        service_not_weaker(s, register_outcome(s, m).0),
        service_not_weaker(s, mode_outcome(s, id, mode).0),
        service_not_weaker(s, info_outcome(s, id, info).0),
        register_outcome(s, m).0.next_timestamp >= s.next_timestamp,
        mode_outcome(s, id, mode).0.next_timestamp >= s.next_timestamp,
        info_outcome(s, id, info).0.next_timestamp >= s.next_timestamp,
{
}

/// A refused request changes nothing, and an accepted one touches no other
/// conversation.
pub proof fn requests_touch_one_conversation(
    s: ServiceView,
    id: Seq<u8>,
    mode: SecurityMode,
    info: ApqInfoView,
    m: MetadataView,
    other: Seq<u8>,
)
    requires
        other != id,
        other != m.conversation_id,
    ensures
        register_outcome(s, m).1 is Err ==> register_outcome(s, m).0 == s,
        mode_outcome(s, id, mode).1 is Err ==> mode_outcome(s, id, mode).0 == s,
        info_outcome(s, id, info).1 is Err ==> info_outcome(s, id, info).0 == s,
        register_outcome(s, m).0.entries.contains_key(other) == s.entries.contains_key(other),
        mode_outcome(s, id, mode).0.entries.contains_key(other) == s.entries.contains_key(other),
        info_outcome(s, id, info).0.entries.contains_key(other) == s.entries.contains_key(other),
        s.entries.contains_key(other) ==> register_outcome(s, m).0.entries[other]
            == s.entries[other] && mode_outcome(s, id, mode).0.entries[other] == s.entries[other]
            && info_outcome(s, id, info).0.entries[other] == s.entries[other],
{
}

/// `true` if every conversation is filed under its own identifier.
pub open spec fn filed(s: ServiceView) -> bool {
    forall|id: Seq<u8>| #[trigger]
        s.entries.contains_key(id) ==> s.entries[id].conversation_id == id
}

/// Every request keeps the conversations filed under their own identifiers.
pub proof fn requests_keep_entries_filed(
    s: ServiceView,
    id: Seq<u8>,
    mode: SecurityMode,
    info: ApqInfoView,
    m: MetadataView,
)
    requires
        filed(s),
    ensures
        filed(register_outcome(s, m).0),
        filed(mode_outcome(s, id, mode).0),
        filed(info_outcome(s, id, info).0),
{
}

/// The text of an error.
pub open spec fn metadata_error_text(e: MetadataError) -> Seq<char> {
    match e {
        MetadataError::NotFound => "conversation not found"@,
        MetadataError::DowngradeRejected(inner) => "downgrade rejected: "@ + downgrade_error_text(inner),
        MetadataError::InvalidApqInfo(inner) => "invalid APQInfo: "@ + apq_info_error_text(inner),
        MetadataError::AlreadyRegistered => "conversation already registered"@,
    }
}

impl MetadataError {
    /// The text of an error.
    pub fn message(&self) -> (r: String)
        ensures
            r@ == metadata_error_text(*self),
    {
        match self {
            MetadataError::NotFound => "conversation not found".to_owned(),
            MetadataError::DowngradeRejected(inner) => {
                let mut text: String = "downgrade rejected: ".to_owned();
                text.append(inner.message().as_str());
                text
            },
            MetadataError::InvalidApqInfo(inner) => {
                let mut text: String = "invalid APQInfo: ".to_owned();
                text.append(inner.message().as_str());
                text
            },
            MetadataError::AlreadyRegistered => "conversation already registered".to_owned(),
        }
    }
}

/// An accepted link record is the one that the conversation holds afterwards, with the
/// new time. Nothing else of the conversation changes.
pub proof fn accepted_link_record_is_held(s: ServiceView, id: Seq<u8>, info: ApqInfoView)
    requires
        info_outcome(s, id, info).1 is Ok,
    ensures
        ({
            let after = info_outcome(s, id, info).0;
            &&& after.entries.contains_key(id)
            &&& after.entries[id].apq_info == Some(info)
            &&& after.entries[id].security_state == s.entries[id].security_state
            &&& after.entries[id].conversation_id == s.entries[id].conversation_id
            &&& after.entries[id].t_group_id == s.entries[id].t_group_id
            &&& after.entries[id].pq_group_id == s.entries[id].pq_group_id
            &&& after.entries[id].created_at == s.entries[id].created_at
            &&& after.entries[id].last_updated == after.next_timestamp
        }),
{
}

/// A link record is accepted exactly when the conversation is registered, the record is
/// valid, and it keeps both suites and does not weaken the mode of the one that it
/// replaces. Which error comes says which of these fails, the first one first.
pub proof fn link_record_is_accepted_iff(s: ServiceView, id: Seq<u8>, info: ApqInfoView)
    ensures
        info_outcome(s, id, info).1 is Ok <==> s.entries.contains_key(id) && apq_info_validity(
            info,
        ) is Ok && (s.entries[id].apq_info matches Some(held) ==> info.t_ciphersuite
            == held.t_ciphersuite && info.pq_ciphersuite == held.pq_ciphersuite && mode_rank(
            info.mode,
        ) >= mode_rank(held.mode)),
        info_outcome(s, id, info).1 matches Err(e) ==> match e {
            MetadataError::NotFound => !s.entries.contains_key(id),
            MetadataError::InvalidApqInfo(f) => s.entries.contains_key(id) && apq_info_validity(
                info,
            ) == Err::<(), ApqInfoError>(f),
            MetadataError::DowngradeRejected(f) => s.entries.contains_key(id) && apq_info_validity(
                info,
            ) is Ok && apq_info_change_verdict(s.entries[id].apq_info, Some(info)) == Err::<
                (),
                DowngradeError,
            >(f),
            MetadataError::AlreadyRegistered => false,
        },
{
}

/// An accepted mode is the one that the conversation is in afterwards, with the new
/// time. The strongest mode ever follows, and nothing else of the conversation changes.
pub proof fn accepted_mode_is_held(s: ServiceView, id: Seq<u8>, mode: SecurityMode)
    requires
        mode_outcome(s, id, mode).1 is Ok,
    ensures
        ({
            let after = mode_outcome(s, id, mode).0;
            &&& after.entries.contains_key(id)
            &&& after.entries[id].security_state.current_mode == mode
            &&& after.entries[id].security_state.highest_mode_ever == mode
            &&& after.entries[id].security_state.policy_floor
                == s.entries[id].security_state.policy_floor
            &&& after.entries[id].security_state.pinned_ciphersuite
                == s.entries[id].security_state.pinned_ciphersuite
            &&& after.entries[id].apq_info == s.entries[id].apq_info
            &&& after.entries[id].conversation_id == s.entries[id].conversation_id
            &&& after.entries[id].t_group_id == s.entries[id].t_group_id
            &&& after.entries[id].pq_group_id == s.entries[id].pq_group_id
            &&& after.entries[id].created_at == s.entries[id].created_at
            &&& after.entries[id].last_updated == after.next_timestamp
        }),
{
}

/// A mode is accepted exactly when the conversation is registered and the mode is below
/// none of the current one, the strongest one ever and the floor. It is unknown exactly
/// when it is not registered, and every other refusal is one of a downgrade.
pub proof fn mode_is_accepted_iff(s: ServiceView, id: Seq<u8>, mode: SecurityMode)
    ensures
        mode_outcome(s, id, mode).1 is Ok <==> s.entries.contains_key(id) && {
            let state = s.entries[id].security_state;
            mode_rank(mode) >= mode_rank(state.current_mode) && mode_rank(mode) >= mode_rank(
                state.highest_mode_ever,
            ) && mode_rank(mode) >= mode_rank(state.policy_floor)
        },
        mode_outcome(s, id, mode).1 matches Err(e) ==> match e {
            MetadataError::NotFound => !s.entries.contains_key(id),
            MetadataError::DowngradeRejected(f) => s.entries.contains_key(id)
                && mode_change_verdict(s.entries[id].security_state, mode) == Err::<
                (),
                DowngradeError,
            >(f),
            _ => false,
        },
{
}

/// A registration is accepted exactly when the conversation is not known yet, and then
/// it is held as it was given. Registering it again is refused and changes nothing.
pub proof fn registered_conversations_are_held(s: ServiceView, m: MetadataView, again: MetadataView)
    requires
        again.conversation_id == m.conversation_id,
    ensures
        register_outcome(s, m).1 is Ok <==> !s.entries.contains_key(m.conversation_id),
        register_outcome(s, m).1 is Ok ==> register_outcome(s, m).0.entries.contains_key(
            m.conversation_id,
        ) && register_outcome(s, m).0.entries[m.conversation_id] == m && register_outcome(
            s,
            m,
        ).0.next_timestamp >= m.last_updated && (register_outcome(s, m).0.next_timestamp
            == s.next_timestamp || register_outcome(s, m).0.next_timestamp == m.last_updated),
        register_outcome(register_outcome(s, m).0, again) == (
            register_outcome(s, m).0,
            Err::<(), MetadataError>(MetadataError::AlreadyRegistered),
        ),
{
}

/// Every accepted change gets a time of its own, one later than all before it, as long
/// as there are later times.
pub proof fn changes_get_later_times(
    s: ServiceView,
    id: Seq<u8>,
    mode: SecurityMode,
    info: ApqInfoView,
)
    requires
        s.next_timestamp < u64::MAX,
    ensures
        mode_outcome(s, id, mode).1 is Ok ==> mode_outcome(s, id, mode).0.next_timestamp
            == s.next_timestamp + 1,
        info_outcome(s, id, info).1 is Ok ==> info_outcome(s, id, info).0.next_timestamp
            == s.next_timestamp + 1,
{
}

/// An accepted change can be repeated: the same mode, or the same link record, is
/// accepted once more.
pub proof fn accepted_changes_can_be_repeated(
    s: ServiceView,
    id: Seq<u8>,
    mode: SecurityMode,
    info: ApqInfoView,
)
    ensures
        mode_outcome(s, id, mode).1 is Ok ==> mode_outcome(
            mode_outcome(s, id, mode).0,
            id,
            mode,
        ).1 is Ok,
        info_outcome(s, id, info).1 is Ok ==> info_outcome(
            info_outcome(s, id, info).0,
            id,
            info,
        ).1 is Ok,
{
}

} // verus!
