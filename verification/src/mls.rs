//! The parts of MLS that conversations are made of.
//!
//! The library decides when sessions commit, which keys tie them together and what
//! is sent to whom. Of a group it keeps the few facts that these decisions rest on;
//! of a message it keeps the encoded bytes.
use crate::bytes::copy_bytes;
use crate::credentials::device_capability::{prefix_len, wide_prefix_len};
use crate::tls::{
    be_bytes, byte_strings_have_one_form, get_suite, get_u64, get_u8, get_vector,
    integer_round_trip, integers_have_one_form, lemma_assoc, lemma_be_bytes_len, lemma_one_byte,
    lemma_pow256, lemma_vector_consumes, lemma_vector_len, put_u16, put_u64,
    put_u8, read_int_spec, read_suite_spec, read_vector_spec, suite_round_trip, try_put_vector,
    vector_bytes, vector_round_trip, Decoded, ReadError, ReadErrorView, TlsError, TlsErrorView,
    VLBytes, MAX_VECTOR_LENGTH,
};
use crate::types::{ciphersuite_codepoint, Ciphersuite, GroupId};
use crate::wire::{
    get_list, items_bytes, items_len, list_bytes, list_ok, list_round_trip, put_list,
    read_list_spec, views, Wire, WireItem,
};
use vstd::prelude::*;

verus! {

/// What is known of an MLS group.
#[derive(Debug, PartialEq, Eq)]
pub struct MlsGroup {
    group_id: GroupId,
    ciphersuite: Ciphersuite,
    epoch: u64,
    active: bool,
}

/// An `MlsGroup` with its identifier as bytes.
#[verifier::ext_equal]
pub struct MlsGroupView {
    /// The identifier.
    pub group_id: Seq<u8>,
    /// The suite.
    pub ciphersuite: Ciphersuite,
    /// The epoch.
    pub epoch: u64,
    /// Whether the group still accepts commits and messages.
    pub active: bool,
}

impl View for MlsGroup {
    type V = MlsGroupView;

    closed spec fn view(&self) -> MlsGroupView {
        MlsGroupView {
            group_id: self.group_id@,
            ciphersuite: self.ciphersuite,
            epoch: self.epoch,
            active: self.active,
        }
    }
}

impl MlsGroup {
    /// A group as it stands.
    pub fn new(group_id: GroupId, ciphersuite: Ciphersuite, epoch: u64, active: bool) -> (r: Self)
        ensures
            r@ == (MlsGroupView { group_id: group_id@, ciphersuite, epoch, active }),
    {
        MlsGroup { group_id, ciphersuite, epoch, active }
    }

    /// The identifier.
    pub fn group_id(&self) -> (r: &GroupId)
        ensures
            r@ == self@.group_id,
    {
        &self.group_id
    }

    /// The suite.
    pub fn ciphersuite(&self) -> (r: Ciphersuite)
        ensures
            r == self@.ciphersuite,
    {
        self.ciphersuite
    }

    /// The epoch.
    pub fn epoch(&self) -> (r: u64)
        ensures
            r == self@.epoch,
    {
        self.epoch
    }

    /// Whether the group still accepts commits and messages.
    pub fn is_active(&self) -> (r: bool)
        ensures
            r == self@.active,
    {
        self.active
    }

    /// Takes over what a merged commit has made of the group.
    pub fn record_merge(&mut self, merged: MergedCommit)
        ensures
            final(self)@ == merged_group(old(self)@, merged),
    {
        self.epoch = merged.epoch;
        self.active = merged.active;
    }
}

/// What a group has become by merging a commit.
#[derive(Debug, Clone, Copy, PartialEq, Eq, Structural)]
pub struct MergedCommit {
    /// The epoch that the commit began.
    pub epoch: u64,
    /// Whether the group still accepts commits and messages.
    pub active: bool,
}

/// The group after a commit has been merged.
pub open spec fn merged_group(group: MlsGroupView, merged: MergedCommit) -> MlsGroupView {
    MlsGroupView { epoch: merged.epoch, active: merged.active, ..group }
}

/// A message to be sent, encoded.
#[derive(Debug, PartialEq, Eq)]
pub struct MlsMessageOut {
    /// The bytes.
    pub bytes: Vec<u8>,
}

impl View for MlsMessageOut {
    type V = Seq<u8>;

    open spec fn view(&self) -> Seq<u8> {
        self.bytes@
    }
}

/// What a received message turned out to be.
#[derive(Debug, Clone, Copy, PartialEq, Eq, Structural)]
pub enum ProcessedContent {
    /// An application message.
    ApplicationMessage,
    /// A proposal.
    ProposalMessage,
    /// A proposal of someone who wants to join.
    ExternalJoinProposalMessage,
    /// A commit, staged but not yet merged.
    StagedCommitMessage,
}

/// The version of the protocol.
#[derive(Debug, Clone, Copy, PartialEq, Eq, Hash, Structural)]
pub enum ProtocolVersion {
    /// MLS 1.0.
    Mls10,
    /// Any other version.
    Other(u16),
}

impl Default for ProtocolVersion {
    fn default() -> (r: Self)
        ensures
            r == ProtocolVersion::Mls10,
    {
        ProtocolVersion::Mls10
    }
}

/// An extension of a group context, encoded.
#[derive(Debug, PartialEq, Eq)]
pub struct Extension {
    /// The type.
    pub extension_type: u16,
    /// The contents.
    pub data: Vec<u8>,
}

impl View for Extension {
    type V = (u16, Seq<u8>);

    open spec fn view(&self) -> (u16, Seq<u8>) {
        (self.extension_type, self.data@)
    }
}

/// The views of a list of extensions.
pub open spec fn extension_views(list: Seq<Extension>) -> Seq<(u16, Seq<u8>)> {
    list.map_values(|e: Extension| e@)
}

/// A copy of a list of extensions.
pub fn copy_extensions(list: &Vec<Extension>) -> (r: Vec<Extension>)
    ensures
        extension_views(r@) == extension_views(list@),
{
    let mut copy: Vec<Extension> = Vec::new();
    let mut i: usize = 0;
    while i < list.len()
        invariant
            i <= list@.len(),
            copy@.len() == i,
            forall|j: int| 0 <= j < i ==> (#[trigger] copy@[j])@ == list@[j]@,
        decreases list@.len() - i,
    {
        copy.push(
            Extension {
                extension_type: list[i].extension_type,
                data: copy_bytes(list[i].data.as_slice()),
            },
        );
        i += 1;
    }
    assert(extension_views(copy@) =~= extension_views(list@));
    copy
}

/// A proposal to close a group and to go on in a new one.
#[derive(Debug, PartialEq, Eq)]
pub struct ReInitProposal {
    /// The identifier of the new group.
    pub group_id: GroupId,
    /// The protocol version of the new group.
    pub version: ProtocolVersion,
    /// The suite of the new group.
    pub ciphersuite: Ciphersuite,
    /// The extensions of the new group.
    pub extensions: Vec<Extension>,
}

/// A `ReInitProposal` over the views of what it holds.
#[verifier::ext_equal]
pub struct ReInitProposalView {
    /// See `ReInitProposal::group_id`.
    pub group_id: Seq<u8>,
    /// See `ReInitProposal::version`.
    pub version: ProtocolVersion,
    /// See `ReInitProposal::ciphersuite`.
    pub ciphersuite: Ciphersuite,
    /// See `ReInitProposal::extensions`.
    pub extensions: Seq<(u16, Seq<u8>)>,
}

impl View for ReInitProposal {
    type V = ReInitProposalView;

    open spec fn view(&self) -> ReInitProposalView {
        ReInitProposalView {
            group_id: self.group_id@,
            version: self.version,
            ciphersuite: self.ciphersuite,
            extensions: extension_views(self.extensions@),
        }
    }
}

/// A proposal.
#[derive(Debug, PartialEq, Eq)]
pub enum Proposal {
    /// Close the group and go on in a new one.
    ReInit(Box<ReInitProposal>),
    /// A proposal of another type, encoded.
    Other(Vec<u8>),
}

/// A `Proposal` over the views of what it holds.
pub enum ProposalView {
    /// See `Proposal::ReInit`.
    ReInit(ReInitProposalView),
    /// See `Proposal::Other`.
    Other(Seq<u8>),
}

impl View for Proposal {
    type V = ProposalView;

    open spec fn view(&self) -> ProposalView {
        match self {
            Proposal::ReInit(p) => ProposalView::ReInit(p@),
            Proposal::Other(bytes) => ProposalView::Other(bytes@),
        }
    }
}

/// What a resumption key is for.
#[derive(Debug, Clone, Copy, PartialEq, Eq, Hash, Structural)]
pub enum ResumptionPskUsage {
    /// For an application.
    Application,
    /// To tie a new group to the one that it replaces.
    Reinit,
    /// To tie a new group to the one that it came out of.
    Branch,
}

/// Where a pre-shared key comes from.
#[derive(Debug, PartialEq, Eq)]
pub enum Psk {
    /// From outside MLS.
    External {
        /// The name of the key.
        psk_id: Vec<u8>,
    },
    /// From another group.
    Resumption {
        /// What the key is for.
        usage: ResumptionPskUsage,
        /// The group.
        psk_group_id: GroupId,
        /// The epoch of the group.
        psk_epoch: u64,
    },
}

/// A `Psk` with its names as bytes.
pub enum PskView {
    /// See `Psk::External`.
    External {
        /// The name of the key.
        psk_id: Seq<u8>,
    },
    /// See `Psk::Resumption`.
    Resumption {
        /// What the key is for.
        usage: ResumptionPskUsage,
        /// The group.
        psk_group_id: Seq<u8>,
        /// The epoch of the group.
        psk_epoch: u64,
    },
}

impl View for Psk {
    type V = PskView;

    open spec fn view(&self) -> PskView {
        match self {
            Psk::External { psk_id } => PskView::External { psk_id: psk_id@ },
            Psk::Resumption { usage, psk_group_id, psk_epoch } => PskView::Resumption {
                usage: *usage,
                psk_group_id: psk_group_id@,
                psk_epoch: *psk_epoch,
            },
        }
    }
}

/// The name under which a pre-shared key is stored and referred to.
#[derive(Debug, PartialEq, Eq)]
pub struct PreSharedKeyId {
    /// Where the key comes from.
    pub psk: Psk,
    /// A fresh random value.
    pub psk_nonce: Vec<u8>,
}

/// A `PreSharedKeyId` over the views of what it holds.
#[verifier::ext_equal]
pub struct PreSharedKeyIdView {
    /// See `PreSharedKeyId::psk`.
    pub psk: PskView,
    /// See `PreSharedKeyId::psk_nonce`.
    pub psk_nonce: Seq<u8>,
}

impl View for PreSharedKeyId {
    type V = PreSharedKeyIdView;

    open spec fn view(&self) -> PreSharedKeyIdView {
        PreSharedKeyIdView { psk: self.psk@, psk_nonce: self.psk_nonce@ }
    }
}

impl Clone for PreSharedKeyId {
    fn clone(&self) -> (r: Self)
        ensures
            r@ == self@,
    {
        let psk = match &self.psk {
            Psk::External { psk_id } => Psk::External { psk_id: copy_bytes(psk_id.as_slice()) },
            Psk::Resumption { usage, psk_group_id, psk_epoch } => Psk::Resumption {
                usage: *usage,
                psk_group_id: psk_group_id.clone(),
                psk_epoch: *psk_epoch,
            },
        };
        PreSharedKeyId { psk, psk_nonce: copy_bytes(self.psk_nonce.as_slice()) }
    }
}

/// The byte of a usage on the wire.
pub open spec fn usage_byte(usage: ResumptionPskUsage) -> u8 {
    match usage {
        ResumptionPskUsage::Application => 1,
        ResumptionPskUsage::Reinit => 2,
        ResumptionPskUsage::Branch => 3,
    }
}

/// The bytes of a name on the wire.
pub open spec fn psk_id_bytes(id: PreSharedKeyIdView) -> Seq<u8> {
    match id.psk {
        PskView::External { psk_id } => be_bytes(1, 1) + (vector_bytes(psk_id) + vector_bytes(
            id.psk_nonce,
        )),
        PskView::Resumption { usage, psk_group_id, psk_epoch } => be_bytes(2, 1) + (be_bytes(
            usage_byte(usage) as nat,
            1,
        ) + (vector_bytes(psk_group_id) + (be_bytes(psk_epoch as nat, 8) + vector_bytes(
            id.psk_nonce,
        )))),
    }
}

/// `true` if all parts are short enough for the wire.
pub open spec fn psk_id_encodable(id: PreSharedKeyIdView) -> bool {
    id.psk_nonce.len() <= MAX_VECTOR_LENGTH && match id.psk {
        PskView::External { psk_id } => psk_id.len() <= MAX_VECTOR_LENGTH,
        PskView::Resumption { psk_group_id, .. } => psk_group_id.len() <= MAX_VECTOR_LENGTH,
    }
}

/// What is written of a name of which a part is too long.
pub open spec fn psk_id_begun(id: PreSharedKeyIdView) -> Seq<u8> {
    match id.psk {
        PskView::External { psk_id } => be_bytes(1, 1) + (if psk_id.len() > MAX_VECTOR_LENGTH {
            Seq::empty()
        } else {
            vector_bytes(psk_id)
        }),
        PskView::Resumption { usage, psk_group_id, psk_epoch } => be_bytes(2, 1) + be_bytes(
            usage_byte(usage) as nat,
            1,
        ) + (if psk_group_id.len() > MAX_VECTOR_LENGTH {
            Seq::empty()
        } else {
            vector_bytes(psk_group_id) + be_bytes(psk_epoch as nat, 8)
        }),
    }
}

/// The usage at the front of `s`.
pub open spec fn read_usage_spec(s: Seq<u8>) -> Decoded<ResumptionPskUsage> {
    match read_int_spec(s, 1) {
        Err(e) => Err(e),
        Ok((n, rest)) => if n == 1 {
            Ok((ResumptionPskUsage::Application, rest))
        } else if n == 2 {
            Ok((ResumptionPskUsage::Reinit, rest))
        } else if n == 3 {
            Ok((ResumptionPskUsage::Branch, rest))
        } else {
            Err(ReadErrorView { error: TlsErrorView::UnknownValue(n as u64), unread: rest })
        },
    }
}

/// The source of a key at the front of `s`.
pub open spec fn read_psk_spec(s: Seq<u8>) -> Decoded<PskView> {
    match read_int_spec(s, 1) {
        Err(e) => Err(e),
        Ok((tag, s)) => if tag == 1 {
            match read_vector_spec(s) {
                Err(e) => Err(e),
                Ok((psk_id, s)) => Ok((PskView::External { psk_id }, s)),
            }
        } else if tag == 2 {
            match read_usage_spec(s) {
                Err(e) => Err(e),
                Ok((usage, s)) => match read_vector_spec(s) {
                    Err(e) => Err(e),
                    Ok((psk_group_id, s)) => match read_int_spec(s, 8) {
                        Err(e) => Err(e),
                        Ok((epoch, s)) => Ok(
                            (
                                PskView::Resumption {
                                    usage,
                                    psk_group_id,
                                    psk_epoch: epoch as u64,
                                },
                                s,
                            ),
                        ),
                    },
                },
            }
        } else {
            Err(ReadErrorView { error: TlsErrorView::UnknownValue(tag as u64), unread: s })
        },
    }
}

/// The name of a key at the front of `s`.
pub open spec fn read_psk_id_spec(s: Seq<u8>) -> Decoded<PreSharedKeyIdView> {
    match read_psk_spec(s) {
        Err(e) => Err(e),
        Ok((psk, s)) => match read_vector_spec(s) {
            Err(e) => Err(e),
            Ok((psk_nonce, s)) => Ok((PreSharedKeyIdView { psk, psk_nonce }, s)),
        },
    }
}

/// A name reads back from its encoding, whatever follows.
pub proof fn psk_id_round_trip(id: PreSharedKeyIdView, rest: Seq<u8>)
    requires
        psk_id_encodable(id),
    ensures
        read_psk_id_spec(psk_id_bytes(id) + rest) == Ok::<
            (PreSharedKeyIdView, Seq<u8>),
            ReadErrorView,
        >((id, rest)),
{
    lemma_pow256();
    let n = vector_bytes(id.psk_nonce);
    match id.psk {
        PskView::External { psk_id } => {
            let t = be_bytes(1, 1);
            let a = vector_bytes(psk_id);
            lemma_assoc(t, a + n, rest);
            lemma_assoc(a, n, rest);
            integer_round_trip(1, 1, a + (n + rest));
            vector_round_trip(psk_id, n + rest);
            vector_round_trip(id.psk_nonce, rest);
        },
        PskView::Resumption { usage, psk_group_id, psk_epoch } => {
            let t = be_bytes(2, 1);
            let u = be_bytes(usage_byte(usage) as nat, 1);
            let g = vector_bytes(psk_group_id);
            let e = be_bytes(psk_epoch as nat, 8);
            lemma_assoc(t, u + (g + (e + n)), rest);
            lemma_assoc(u, g + (e + n), rest);
            lemma_assoc(g, e + n, rest);
            lemma_assoc(e, n, rest);
            integer_round_trip(2, 1, u + (g + (e + (n + rest))));
            integer_round_trip(usage_byte(usage) as nat, 1, g + (e + (n + rest)));
            vector_round_trip(psk_group_id, e + (n + rest));
            integer_round_trip(psk_epoch as nat, 8, n + rest);
            vector_round_trip(id.psk_nonce, rest);
        },
    }
}

impl PreSharedKeyId {
    /// The name of a key from outside MLS.
    pub fn external(psk_id: Vec<u8>, psk_nonce: Vec<u8>) -> (r: Self)
        ensures
            r@ == (PreSharedKeyIdView {
                psk: PskView::External { psk_id: psk_id@ },
                psk_nonce: psk_nonce@,
            }),
    {
        PreSharedKeyId { psk: Psk::External { psk_id }, psk_nonce }
    }

    /// The name of a key from another group.
    pub fn resumption(
        usage: ResumptionPskUsage,
        psk_group_id: GroupId,
        psk_epoch: u64,
        psk_nonce: Vec<u8>,
    ) -> (r: Self)
        ensures
            r@ == (PreSharedKeyIdView {
                psk: PskView::Resumption { usage, psk_group_id: psk_group_id@, psk_epoch },
                psk_nonce: psk_nonce@,
            }),
    {
        PreSharedKeyId { psk: Psk::Resumption { usage, psk_group_id, psk_epoch }, psk_nonce }
    }

    /// How many bytes the name takes on the wire.
    pub fn tls_serialized_len(&self) -> (r: usize)
        requires
            psk_id_encodable(self@),
            psk_id_bytes(self@).len() <= usize::MAX,
        ensures
            r == psk_id_bytes(self@).len(),
    {
        proof {
            lemma_vector_len(self@.psk_nonce);
            lemma_be_bytes_len(1, 1);
            lemma_be_bytes_len(2, 1);
        }
        let nonce: usize = self.psk_nonce.len();
        match &self.psk {
            Psk::External { psk_id } => {
                proof {
                    lemma_vector_len(psk_id@);
                }
                let n: usize = psk_id.len();
                1 + (prefix_len(n) + n) + (prefix_len(nonce) + nonce)
            },
            Psk::Resumption { usage, psk_group_id, psk_epoch } => {
                proof {
                    lemma_vector_len(psk_group_id@);
                    lemma_be_bytes_len(usage_byte(*usage) as nat, 1);
                    lemma_be_bytes_len(*psk_epoch as nat, 8);
                }
                let n: usize = psk_group_id.as_slice().len();
                1 + 1 + (prefix_len(n) + n) + 8 + (prefix_len(nonce) + nonce)
            },
        }
    }

    /// Appends the name in its form on the wire, and returns how many bytes that
    /// are. It fails exactly where a part is too long, and then it has appended what
    /// comes before that part.
    pub fn tls_serialize(&self, writer: &mut Vec<u8>) -> (r: Result<usize, TlsError>)
        ensures
            match r {
                Ok(written) => psk_id_encodable(self@) && final(writer)@ == old(writer)@
                    + psk_id_bytes(self@) && written == psk_id_bytes(self@).len(),
                Err(e) => !psk_id_encodable(self@) && e@ == TlsErrorView::InvalidVectorLength
                    && final(writer)@ == old(writer)@ + psk_id_begun(self@),
            },
    {
        let ghost start = writer@;
        let before: usize = writer.len();
        match &self.psk {
            Psk::External { psk_id } => {
                put_u8(writer, 1);
                if let Err(e) = try_put_vector(writer, psk_id.as_slice()) {
                    assert(writer@ =~= start + psk_id_begun(self@));
                    return Err(e);
                }
            },
            Psk::Resumption { usage, psk_group_id, psk_epoch } => {
                put_u8(writer, 2);
                put_u8(writer, usage.byte());
                if let Err(e) = try_put_vector(writer, psk_group_id.as_slice()) {
                    assert(writer@ =~= start + psk_id_begun(self@));
                    return Err(e);
                }
                put_u64(writer, *psk_epoch);
            },
        }
        if let Err(e) = try_put_vector(writer, self.psk_nonce.as_slice()) {
            assert(writer@ =~= start + psk_id_begun(self@));
            return Err(e);
        }
        assert(writer@ =~= start + psk_id_bytes(self@));
        Ok(writer.len() - before)
    }

    /// Reads a name from the front of `reader`, which then holds what has not been
    /// read.
    pub fn tls_deserialize(reader: &mut &[u8]) -> (r: Result<Self, TlsError>)
        ensures
            match (r, read_psk_id_spec(old(reader)@)) {
                (Ok(c), Ok((v, rest))) => c@ == v && final(reader)@ == rest,
                (Err(e), Err(f)) => e@ == f.error && final(reader)@ == f.unread,
                _ => false,
            },
    {
        match Self::read(*reader) {
            Ok((c, rest)) => {
                *reader = rest;
                Ok(c)
            },
            Err(e) => {
                *reader = e.unread;
                Err(e.error)
            },
        }
    }

    /// Reads a name from the front of `bytes`, and returns it with the bytes behind
    /// it.
    pub fn tls_deserialize_bytes(bytes: &[u8]) -> (r: Result<(Self, &[u8]), TlsError>)
        ensures
            match (r, read_psk_id_spec(bytes@)) {
                (Ok((c, rest)), Ok((v, s))) => c@ == v && rest@ == s,
                (Err(e), Err(f)) => e@ == f.error,
                _ => false,
            },
    {
        match Self::read(bytes) {
            Ok(x) => Ok(x),
            Err(e) => Err(e.error),
        }
    }

    /// Reads a name from the front of `bytes`.
    pub(crate) fn read(bytes: &[u8]) -> (r: Result<(Self, &[u8]), ReadError<'_>>)
        ensures
            match (r, read_psk_id_spec(bytes@)) {
                (Ok((c, rest)), Ok((v, s))) => c@ == v && rest@ == s,
                (Err(e), Err(f)) => e@ == f,
                _ => false,
            },
    {
        let (psk, bytes) = match get_psk(bytes) {
            Ok(x) => x,
            Err(e) => {
                return Err(e);
            },
        };
        let (psk_nonce, bytes) = match get_vector(bytes) {
            Ok(x) => x,
            Err(e) => {
                return Err(e);
            },
        };
        Ok((PreSharedKeyId { psk, psk_nonce }, bytes))
    }
}

impl ResumptionPskUsage {
    /// The byte of the usage on the wire.
    pub fn byte(self) -> (r: u8)
        ensures
            r == usage_byte(self),
    {
        match self {
            ResumptionPskUsage::Application => 1,
            ResumptionPskUsage::Reinit => 2,
            ResumptionPskUsage::Branch => 3,
        }
    }
}

/// Reads a usage.
fn get_usage(bytes: &[u8]) -> (r: Result<(ResumptionPskUsage, &[u8]), ReadError<'_>>)
    ensures
        match (r, read_usage_spec(bytes@)) {
            (Ok((v, rest)), Ok((w, s))) => v == w && rest@ == s,
            (Err(e), Err(f)) => e@ == f,
            _ => false,
        },
{
    match get_u8(bytes) {
        Ok((1, rest)) => Ok((ResumptionPskUsage::Application, rest)),
        Ok((2, rest)) => Ok((ResumptionPskUsage::Reinit, rest)),
        Ok((3, rest)) => Ok((ResumptionPskUsage::Branch, rest)),
        Ok((other, rest)) => Err(
            ReadError { error: TlsError::UnknownValue(other as u64), unread: rest },
        ),
        Err(e) => Err(e),
    }
}

/// Reads the source of a key.
fn get_psk(bytes: &[u8]) -> (r: Result<(Psk, &[u8]), ReadError<'_>>)
    ensures
        match (r, read_psk_spec(bytes@)) {
            (Ok((v, rest)), Ok((w, s))) => v@ == w && rest@ == s,
            (Err(e), Err(f)) => e@ == f,
            _ => false,
        },
{
    let (tag, bytes) = match get_u8(bytes) {
        Ok(x) => x,
        Err(e) => {
            return Err(e);
        },
    };
    if tag == 1 {
        match get_vector(bytes) {
            Ok((psk_id, rest)) => Ok((Psk::External { psk_id }, rest)),
            Err(e) => Err(e),
        }
    } else if tag == 2 {
        let (usage, bytes) = match get_usage(bytes) {
            Ok(x) => x,
            Err(e) => {
                return Err(e);
            },
        };
        let (psk_group_id, bytes) = match get_vector(bytes) {
            Ok(x) => x,
            Err(e) => {
                return Err(e);
            },
        };
        match get_u64(bytes) {
            Ok((psk_epoch, rest)) => Ok(
                (
                    Psk::Resumption {
                        usage,
                        psk_group_id: GroupId::from_vec(psk_group_id),
                        psk_epoch,
                    },
                    rest,
                ),
            ),
            Err(e) => Err(e),
        }
    } else {
        Err(ReadError { error: TlsError::UnknownValue(tag as u64), unread: bytes })
    }
}

/// The secrets of a group, encrypted for one new member.
#[derive(Debug, PartialEq, Eq)]
pub struct EncryptedGroupSecrets {
    /// The reference of the new member's key package.
    pub new_member: VLBytes,
    /// The encapsulated key.
    pub kem_output: VLBytes,
    /// The ciphertext.
    pub ciphertext: VLBytes,
}

/// An `EncryptedGroupSecrets` with its contents as bytes.
#[verifier::ext_equal]
pub struct GroupSecretsView {
    /// See `EncryptedGroupSecrets::new_member`.
    pub new_member: Seq<u8>,
    /// See `EncryptedGroupSecrets::kem_output`.
    pub kem_output: Seq<u8>,
    /// See `EncryptedGroupSecrets::ciphertext`.
    pub ciphertext: Seq<u8>,
}

impl View for EncryptedGroupSecrets {
    type V = GroupSecretsView;

    open spec fn view(&self) -> GroupSecretsView {
        GroupSecretsView {
            new_member: self.new_member@,
            kem_output: self.kem_output@,
            ciphertext: self.ciphertext@,
        }
    }
}

impl Clone for EncryptedGroupSecrets {
    fn clone(&self) -> (r: Self)
        ensures
            r@ == self@,
    {
        EncryptedGroupSecrets {
            new_member: self.new_member.clone(),
            kem_output: self.kem_output.clone(),
            ciphertext: self.ciphertext.clone(),
        }
    }
}

impl Wire for EncryptedGroupSecrets {
    open spec fn wire_bytes(v: GroupSecretsView) -> Seq<u8> {
        vector_bytes(v.new_member) + (vector_bytes(v.kem_output) + vector_bytes(v.ciphertext))
    }

    open spec fn wire_ok(v: GroupSecretsView) -> bool {
        v.new_member.len() <= MAX_VECTOR_LENGTH && v.kem_output.len() <= MAX_VECTOR_LENGTH
            && v.ciphertext.len() <= MAX_VECTOR_LENGTH
    }

    open spec fn wire_begun(v: GroupSecretsView) -> Seq<u8> {
        if v.new_member.len() > MAX_VECTOR_LENGTH {
            Seq::empty()
        } else if v.kem_output.len() > MAX_VECTOR_LENGTH {
            vector_bytes(v.new_member)
        } else {
            vector_bytes(v.new_member) + vector_bytes(v.kem_output)
        }
    }

    open spec fn wire_read(s: Seq<u8>) -> Decoded<GroupSecretsView> {
        match read_vector_spec(s) {
            Err(e) => Err(e),
            Ok((new_member, s)) => match read_vector_spec(s) {
                Err(e) => Err(e),
                Ok((kem_output, s)) => match read_vector_spec(s) {
                    Err(e) => Err(e),
                    Ok((ciphertext, s)) => Ok(
                        (GroupSecretsView { new_member, kem_output, ciphertext }, s),
                    ),
                },
            },
        }
    }

    proof fn wire_round_trip(v: GroupSecretsView, rest: Seq<u8>) {
        let a = vector_bytes(v.new_member);
        let b = vector_bytes(v.kem_output);
        let c = vector_bytes(v.ciphertext);
        lemma_assoc(a, b + c, rest);
        lemma_assoc(b, c, rest);
        vector_round_trip(v.new_member, b + (c + rest));
        vector_round_trip(v.kem_output, c + rest);
        vector_round_trip(v.ciphertext, rest);
    }

    fn put(&self, out: &mut Vec<u8>) -> (r: Result<(), TlsError>) {
        let ghost start = out@;
        if let Err(e) = try_put_vector(out, self.new_member.as_slice()) {
            assert(out@ =~= start + Self::wire_begun(self@));
            return Err(e);
        }
        if let Err(e) = try_put_vector(out, self.kem_output.as_slice()) {
            return Err(e);
        }
        if let Err(e) = try_put_vector(out, self.ciphertext.as_slice()) {
            assert(out@ =~= start + Self::wire_begun(self@));
            return Err(e);
        }
        assert(out@ =~= start + Self::wire_bytes(self@));
        Ok(())
    }

    fn get(bytes: &[u8]) -> (r: Result<(Self, &[u8]), ReadError<'_>>) {
        let (new_member, bytes) = match get_vector(bytes) {
            Ok(x) => x,
            Err(e) => {
                return Err(e);
            },
        };
        let (kem_output, bytes) = match get_vector(bytes) {
            Ok(x) => x,
            Err(e) => {
                return Err(e);
            },
        };
        let (ciphertext, bytes) = match get_vector(bytes) {
            Ok(x) => x,
            Err(e) => {
                return Err(e);
            },
        };
        Ok(
            (
                EncryptedGroupSecrets {
                    new_member: VLBytes::new(new_member),
                    kem_output: VLBytes::new(kem_output),
                    ciphertext: VLBytes::new(ciphertext),
                },
                bytes,
            ),
        )
    }
}

impl WireItem for EncryptedGroupSecrets {
    proof fn wire_read_consumes(s: Seq<u8>) {
        lemma_vector_consumes(s);
        if let Ok((_, s1)) = read_vector_spec(s) {
            lemma_vector_consumes(s1);
            if let Ok((_, s2)) = read_vector_spec(s1) {
                lemma_vector_consumes(s2);
            }
        }
    }

    fn wire_len(&self) -> (r: u128) {
        proof {
            lemma_vector_len(self.new_member@);
            lemma_vector_len(self.kem_output@);
            lemma_vector_len(self.ciphertext@);
        }
        let a: u128 = self.new_member.as_slice().len() as u128;
        let b: u128 = self.kem_output.as_slice().len() as u128;
        let c: u128 = self.ciphertext.as_slice().len() as u128;
        wide_prefix_len(a) + a + ((wide_prefix_len(b) + b) + (wide_prefix_len(c) + c))
    }
}

/// A message that lets new members into a group. The group information in it is
/// encrypted, and kept as it is.
#[derive(Debug, PartialEq, Eq)]
pub struct Welcome {
    cipher_suite: Ciphersuite,
    secrets: Vec<EncryptedGroupSecrets>,
    encrypted_group_info: Vec<u8>,
}

/// A `Welcome` with its contents as sequences.
#[verifier::ext_equal]
pub struct WelcomeView {
    /// The suite.
    pub cipher_suite: Ciphersuite,
    /// The entries for the new members.
    pub secrets: Seq<GroupSecretsView>,
    /// The encrypted group information.
    pub encrypted_group_info: Seq<u8>,
}

impl View for Welcome {
    type V = WelcomeView;

    closed spec fn view(&self) -> WelcomeView {
        WelcomeView {
            cipher_suite: self.cipher_suite,
            secrets: views(self.secrets@),
            encrypted_group_info: self.encrypted_group_info@,
        }
    }
}

/// The entries of a welcome on the wire.
pub open spec fn secrets_bytes(w: WelcomeView) -> Seq<u8> {
    list_bytes::<EncryptedGroupSecrets>(w.secrets)
}

/// The bytes of a welcome on the wire.
pub open spec fn welcome_bytes(w: WelcomeView) -> Seq<u8> {
    be_bytes(ciphersuite_codepoint(w.cipher_suite) as nat, 2) + (secrets_bytes(w) + vector_bytes(
        w.encrypted_group_info,
    ))
}

/// `true` if all parts are short enough for the wire.
pub open spec fn welcome_encodable(w: WelcomeView) -> bool {
    list_ok::<EncryptedGroupSecrets>(w.secrets) && w.encrypted_group_info.len()
        <= MAX_VECTOR_LENGTH
}

/// What is written of a welcome of which a part is too long.
pub open spec fn welcome_begun(w: WelcomeView) -> Seq<u8> {
    be_bytes(ciphersuite_codepoint(w.cipher_suite) as nat, 2) + (if !list_ok::<
        EncryptedGroupSecrets,
    >(w.secrets) {
        Seq::empty()
    } else {
        secrets_bytes(w)
    })
}

/// The welcome at the front of `s`.
pub open spec fn read_welcome_spec(s: Seq<u8>) -> Decoded<WelcomeView> {
    match read_suite_spec(s) {
        Err(e) => Err(e),
        Ok((cipher_suite, s)) => match read_list_spec::<EncryptedGroupSecrets>(s) {
            Err(e) => Err(e),
            Ok((secrets, s)) => match read_vector_spec(s) {
                Err(e) => Err(e),
                Ok((encrypted_group_info, s)) => Ok(
                    (WelcomeView { cipher_suite, secrets, encrypted_group_info }, s),
                ),
            },
        },
    }
}

/// A welcome reads back from its encoding, whatever follows.
pub proof fn welcome_round_trip(w: WelcomeView, rest: Seq<u8>)
    requires
        welcome_encodable(w),
    ensures
        read_welcome_spec(welcome_bytes(w) + rest) == Ok::<(WelcomeView, Seq<u8>), ReadErrorView>(
            (w, rest),
        ),
{
    let c = be_bytes(ciphersuite_codepoint(w.cipher_suite) as nat, 2);
    let a = secrets_bytes(w);
    let b = vector_bytes(w.encrypted_group_info);
    lemma_assoc(c, a + b, rest);
    lemma_assoc(a, b, rest);
    suite_round_trip(w.cipher_suite, a + (b + rest));
    list_round_trip::<EncryptedGroupSecrets>(w.secrets, b + rest);
    vector_round_trip(w.encrypted_group_info, rest);
}

impl Welcome {
    /// A welcome from its parts.
    pub fn new(
        cipher_suite: Ciphersuite,
        secrets: Vec<EncryptedGroupSecrets>,
        encrypted_group_info: Vec<u8>,
    ) -> (r: Self)
        ensures
            r@ == (WelcomeView {
                cipher_suite,
                secrets: views(secrets@),
                encrypted_group_info: encrypted_group_info@,
            }),
    {
        Welcome { cipher_suite, secrets, encrypted_group_info }
    }

    /// The suite of the group.
    pub fn ciphersuite(&self) -> (r: Ciphersuite)
        ensures
            r == self@.cipher_suite,
    {
        self.cipher_suite
    }

    /// How many bytes the welcome takes on the wire.
    pub fn tls_serialized_len(&self) -> (r: usize)
        requires
            welcome_encodable(self@),
            welcome_bytes(self@).len() <= usize::MAX,
        ensures
            r == welcome_bytes(self@).len(),
    {
        proof {
            lemma_vector_len(items_bytes::<EncryptedGroupSecrets>(self@.secrets));
            lemma_vector_len(self@.encrypted_group_info);
            lemma_be_bytes_len(ciphersuite_codepoint(self.cipher_suite) as nat, 2);
        }
        let a: usize = items_len(self.secrets.as_slice());
        let b: usize = self.encrypted_group_info.len();
        2 + (prefix_len(a) + a) + (prefix_len(b) + b)
    }

    /// Appends the welcome in its form on the wire, and returns how many bytes that
    /// are. It fails exactly where a part is too long, and then it has appended what
    /// comes before that part.
    pub fn tls_serialize(&self, writer: &mut Vec<u8>) -> (r: Result<usize, TlsError>)
        ensures
            match r {
                Ok(written) => welcome_encodable(self@) && final(writer)@ == old(writer)@
                    + welcome_bytes(self@) && written == welcome_bytes(self@).len(),
                Err(e) => !welcome_encodable(self@) && e@ == TlsErrorView::InvalidVectorLength
                    && final(writer)@ == old(writer)@ + welcome_begun(self@),
            },
    {
        let ghost start = writer@;
        let before: usize = writer.len();
        put_u16(writer, self.cipher_suite.codepoint());
        if let Err(e) = put_list(writer, self.secrets.as_slice()) {
            assert(writer@ =~= start + welcome_begun(self@));
            return Err(e);
        }
        if let Err(e) = try_put_vector(writer, self.encrypted_group_info.as_slice()) {
            assert(writer@ =~= start + welcome_begun(self@));
            return Err(e);
        }
        assert(writer@ =~= start + welcome_bytes(self@));
        Ok(writer.len() - before)
    }

    /// Reads a welcome from the front of `reader`, which then holds what has not been
    /// read.
    pub fn tls_deserialize(reader: &mut &[u8]) -> (r: Result<Self, TlsError>)
        ensures
            match (r, read_welcome_spec(old(reader)@)) {
                (Ok(c), Ok((v, rest))) => c@ == v && final(reader)@ == rest,
                (Err(e), Err(f)) => e@ == f.error && final(reader)@ == f.unread,
                _ => false,
            },
    {
        match Self::read(*reader) {
            Ok((c, rest)) => {
                *reader = rest;
                Ok(c)
            },
            Err(e) => {
                *reader = e.unread;
                Err(e.error)
            },
        }
    }

    /// Reads a welcome from the front of `bytes`, and returns it with the bytes behind
    /// it.
    pub fn tls_deserialize_bytes(bytes: &[u8]) -> (r: Result<(Self, &[u8]), TlsError>)
        ensures
            match (r, read_welcome_spec(bytes@)) {
                (Ok((c, rest)), Ok((v, s))) => c@ == v && rest@ == s,
                (Err(e), Err(f)) => e@ == f.error,
                _ => false,
            },
    {
        match Self::read(bytes) {
            Ok(x) => Ok(x),
            Err(e) => Err(e.error),
        }
    }

    /// Reads a welcome from the front of `bytes`.
    pub(crate) fn read(bytes: &[u8]) -> (r: Result<(Self, &[u8]), ReadError<'_>>)
        ensures
            match (r, read_welcome_spec(bytes@)) {
                (Ok((c, rest)), Ok((v, s))) => c@ == v && rest@ == s,
                (Err(e), Err(f)) => e@ == f,
                _ => false,
            },
    {
        let (cipher_suite, bytes) = match get_suite(bytes) {
            Ok(x) => x,
            Err(e) => {
                return Err(e);
            },
        };
        let (secrets, bytes) = match get_list::<EncryptedGroupSecrets>(bytes) {
            Ok(x) => x,
            Err(e) => {
                return Err(e);
            },
        };
        let (encrypted_group_info, bytes) = match get_vector(bytes) {
            Ok(x) => x,
            Err(e) => {
                return Err(e);
            },
        };
        Ok((Welcome { cipher_suite, secrets, encrypted_group_info }, bytes))
    }
}

impl Clone for Welcome {
    fn clone(&self) -> (r: Self)
        ensures
            r@ == self@,
    {
        let mut secrets: Vec<EncryptedGroupSecrets> = Vec::new();
        let mut i: usize = 0;
        while i < self.secrets.len()
            invariant
                i <= self.secrets@.len(),
                secrets@.len() == i,
                forall|j: int| 0 <= j < i ==> (#[trigger] secrets@[j])@ == self.secrets@[j]@,
            decreases self.secrets@.len() - i,
        {
            secrets.push(self.secrets[i].clone());
            i += 1;
        }
        assert(views(secrets@) =~= views(self.secrets@));
        Welcome {
            cipher_suite: self.cipher_suite,
            secrets,
            encrypted_group_info: copy_bytes(self.encrypted_group_info.as_slice()),
        }
    }
}

/// A key package, encoded, and the suite that it is for.
#[derive(Debug, PartialEq, Eq)]
pub struct KeyPackage {
    ciphersuite: Ciphersuite,
    bytes: Vec<u8>,
}

/// A `KeyPackage` with its contents as bytes.
#[verifier::ext_equal]
pub struct KeyPackageView {
    /// The suite.
    pub ciphersuite: Ciphersuite,
    /// The encoded key package.
    pub bytes: Seq<u8>,
}

impl View for KeyPackage {
    type V = KeyPackageView;

    closed spec fn view(&self) -> KeyPackageView {
        KeyPackageView { ciphersuite: self.ciphersuite, bytes: self.bytes@ }
    }
}

impl KeyPackage {
    /// A key package from its parts.
    pub fn new(ciphersuite: Ciphersuite, bytes: Vec<u8>) -> (r: Self)
        ensures
            r@ == (KeyPackageView { ciphersuite, bytes: bytes@ }),
    {
        KeyPackage { ciphersuite, bytes }
    }

    /// The suite.
    pub fn ciphersuite(&self) -> (r: Ciphersuite)
        ensures
            r == self@.ciphersuite,
    {
        self.ciphersuite
    }

    /// The encoded key package.
    pub fn as_slice(&self) -> (r: &[u8])
        ensures
            r@ == self@.bytes,
    {
        self.bytes.as_slice()
    }
}

impl Clone for KeyPackage {
    fn clone(&self) -> (r: Self)
        ensures
            r@ == self@,
    {
        KeyPackage { ciphersuite: self.ciphersuite, bytes: copy_bytes(self.bytes.as_slice()) }
    }
}

/// A key package together with the private keys that belong to it, encoded.
#[derive(Debug, PartialEq, Eq)]
pub struct KeyPackageBundle {
    /// The key package.
    pub key_package: KeyPackage,
    /// The private keys.
    pub private_keys: Vec<u8>,
}

impl KeyPackageBundle {
    /// The key package.
    pub fn key_package(&self) -> (r: &KeyPackage)
        ensures
            *r == self.key_package,
    {
        &self.key_package
    }
}

/// Merging a commit sets the epoch and whether the group is active, and keeps the
/// identifier and the suite. Of two merges the later counts.
pub proof fn merging_moves_the_epoch_alone(
    group: MlsGroupView,
    first: MergedCommit,
    merged: MergedCommit,
)
    ensures
        merged_group(group, merged).epoch == merged.epoch,
        merged_group(group, merged).active == merged.active,
        merged_group(group, merged).group_id == group.group_id,
        merged_group(group, merged).ciphersuite == group.ciphersuite,
        merged_group(merged_group(group, first), merged) == merged_group(group, merged),
{
}

/// What reads as the name of a key is the form of that name, and nothing else is: an
/// unknown source or usage is refused.
#[verifier::spinoff_prover]
#[verifier::rlimit(40)]
pub proof fn psk_ids_have_one_form(s: Seq<u8>)
    ensures
        read_psk_id_spec(s) matches Ok((id, rest)) ==> s == psk_id_bytes(id) + rest
            && psk_id_encodable(id),
{
    lemma_pow256();
    integers_have_one_form(s, 1);
    if let Ok((tag, s1)) = read_int_spec(s, 1) {
        let t = be_bytes(tag, 1);
        if tag == 1 {
            byte_strings_have_one_form(s1);
            if let Ok((psk_id, s2)) = read_vector_spec(s1) {
                byte_strings_have_one_form(s2);
                if let Ok((nonce, rest)) = read_vector_spec(s2) {
                    lemma_assoc(t, vector_bytes(psk_id) + vector_bytes(nonce), rest);
                    lemma_assoc(vector_bytes(psk_id), vector_bytes(nonce), rest);
                }
            }
        } else if tag == 2 {
            integers_have_one_form(s1, 1);
            if let Ok((u, s2)) = read_int_spec(s1, 1) {
                byte_strings_have_one_form(s2);
                if let Ok((group, s3)) = read_vector_spec(s2) {
                    integers_have_one_form(s3, 8);
                    if let Ok((epoch, s4)) = read_int_spec(s3, 8) {
                        byte_strings_have_one_form(s4);
                        if let Ok((nonce, rest)) = read_vector_spec(s4) {
                            let b = be_bytes(u, 1);
                            let g = vector_bytes(group);
                            let e = be_bytes(epoch, 8);
                            let n = vector_bytes(nonce);
                            lemma_assoc(t, b + (g + (e + n)), rest);
                            lemma_assoc(b, g + (e + n), rest);
                            lemma_assoc(g, e + n, rest);
                            lemma_assoc(e, n, rest);
                        }
                    }
                }
            }
        }
    }
}

/// On the wire the name of a key begins with 1 if the key comes from outside MLS and with
/// 2 if it comes from another group. Then the second byte tells what it is for: 1 for an
/// application, 2 for a move to a new group, 3 for a branch. The name ends with the random
/// value, and before it stand the group and its epoch.
pub proof fn psk_ids_begin_with_their_source(id: PreSharedKeyIdView)
    ensures
        psk_id_bytes(id).len() > 1,
        match id.psk {
            PskView::External { psk_id } => psk_id_bytes(id)[0] == 1 && psk_id_bytes(id).skip(1)
                == vector_bytes(psk_id) + vector_bytes(id.psk_nonce),
            PskView::Resumption { usage, psk_group_id, psk_epoch } => psk_id_bytes(id)[0] == 2
                && psk_id_bytes(id)[1] == (match usage {
                ResumptionPskUsage::Application => 1u8,
                ResumptionPskUsage::Reinit => 2u8,
                ResumptionPskUsage::Branch => 3u8,
            }) && psk_id_bytes(id).skip(2) == vector_bytes(psk_group_id) + be_bytes(
                psk_epoch as nat,
                8,
            ) + vector_bytes(id.psk_nonce),
        },
{
    lemma_one_byte(1);
    lemma_one_byte(2);
    match id.psk {
        PskView::External { psk_id } => {
            lemma_vector_len(psk_id);
            assert(psk_id_bytes(id).skip(1) =~= vector_bytes(psk_id) + vector_bytes(id.psk_nonce));
        },
        PskView::Resumption { usage, psk_group_id, psk_epoch } => {
            lemma_one_byte(usage_byte(usage));
            assert(psk_id_bytes(id).skip(2) =~= vector_bytes(psk_group_id) + be_bytes(
                psk_epoch as nat,
                8,
            ) + vector_bytes(id.psk_nonce));
        },
    }
}

/// On the wire a welcome is the codepoint of its suite, the list of its entries and the
/// encrypted group information. An entry names the new member before it gives the key and
/// the ciphertext.
pub proof fn welcomes_begin_with_their_suite(w: WelcomeView, e: GroupSecretsView)
    ensures
        welcome_bytes(w).take(2) == be_bytes(ciphersuite_codepoint(w.cipher_suite) as nat, 2),
        welcome_bytes(w).skip(2) == list_bytes::<EncryptedGroupSecrets>(w.secrets) + vector_bytes(
            w.encrypted_group_info,
        ),
        EncryptedGroupSecrets::wire_bytes(e) == vector_bytes(e.new_member) + vector_bytes(
            e.kem_output,
        ) + vector_bytes(e.ciphertext),
{
    lemma_be_bytes_len(ciphersuite_codepoint(w.cipher_suite) as nat, 2);
    assert(welcome_bytes(w).take(2) =~= be_bytes(
        ciphersuite_codepoint(w.cipher_suite) as nat,
        2,
    ));
    assert(welcome_bytes(w).skip(2) =~= secrets_bytes(w) + vector_bytes(w.encrypted_group_info));
    assert(EncryptedGroupSecrets::wire_bytes(e) =~= vector_bytes(e.new_member) + vector_bytes(
        e.kem_output,
    ) + vector_bytes(e.ciphertext));
}

} // verus!
