//! The record that links the two MLS sessions of one conversation.
//!
//! A conversation that runs a classical (`T`) and a post-quantum (`PQ`) session
//! side by side carries an `ApqInfo` in both groups. It tells which groups belong
//! together, under which suites they run, and how far they have come.
use crate::ciphersuite::security_mode::{
    mode_name, mode_rank, suite_mode, suite_mode_shows_in_codepoint_and_signature, SecurityMode,
};
use crate::credentials::device_capability::prefix_len;
use crate::text::{decimal, push_decimal};
use crate::tls::{
    be_bytes, byte_strings_have_one_form, get_suite, get_u64, get_u8, get_vector,
    integer_round_trip, integers_have_one_form, lemma_assoc, lemma_be_bytes_len,
    lemma_int_consumes, lemma_one_byte, lemma_pow256, lemma_vector_len, put_u16, put_u64, put_u8,
    read_int_spec, read_suite_spec, read_vector_spec, suite_round_trip,
    suites_have_one_form, try_put_vector,
    vector_bytes, vector_round_trip, Decoded, ReadError, ReadErrorView, TlsError, TlsErrorView,
    MAX_VECTOR_LENGTH,
};
use crate::types::{
    ciphersuite_codepoint, ciphersuite_signature, Ciphersuite, GroupId, SignatureScheme,
};
use crate::wire::Wire;
use vstd::prelude::*;
use vstd::string::*;

verus! {

/// How far the two epoch counters may be apart.
pub const MAX_EPOCH_DRIFT: u64 = 1;

/// The link between the T and the PQ session of a conversation.
#[derive(Debug, PartialEq, Eq, Hash)]
pub struct ApqInfo {
    /// The group of the T session.
    pub t_group_id: GroupId,
    /// The group of the PQ session.
    pub pq_group_id: GroupId,
    /// The counter of FULL commits, as seen on the T side.
    pub t_epoch: u64,
    /// The counter of FULL commits, as seen on the PQ side.
    pub pq_epoch: u64,
    /// The suite of the T session.
    pub t_ciphersuite: Ciphersuite,
    /// The suite of the PQ session.
    pub pq_ciphersuite: Ciphersuite,
    /// The mode of the conversation.
    pub mode: SecurityMode,
}

/// An `ApqInfo` with its identifiers as byte sequences.
#[verifier::ext_equal]
pub struct ApqInfoView {
    /// See `ApqInfo::t_group_id`.
    pub t_group_id: Seq<u8>,
    /// See `ApqInfo::pq_group_id`.
    pub pq_group_id: Seq<u8>,
    /// See `ApqInfo::t_epoch`.
    pub t_epoch: u64,
    /// See `ApqInfo::pq_epoch`.
    pub pq_epoch: u64,
    /// See `ApqInfo::t_ciphersuite`.
    pub t_ciphersuite: Ciphersuite,
    /// See `ApqInfo::pq_ciphersuite`.
    pub pq_ciphersuite: Ciphersuite,
    /// See `ApqInfo::mode`.
    pub mode: SecurityMode,
}

impl View for ApqInfo {
    type V = ApqInfoView;

    open spec fn view(&self) -> ApqInfoView {
        ApqInfoView {
            t_group_id: self.t_group_id@,
            pq_group_id: self.pq_group_id@,
            t_epoch: self.t_epoch,
            pq_epoch: self.pq_epoch,
            t_ciphersuite: self.t_ciphersuite,
            pq_ciphersuite: self.pq_ciphersuite,
            mode: self.mode,
        }
    }
}

/// What can be wrong with an `ApqInfo`.
#[derive(Debug, Clone, Copy, PartialEq, Eq, Structural)]
pub enum ApqInfoError {
    /// The PQ session's suite is weaker than the mode.
    ModeMismatch {
        /// The mode.
        mode: SecurityMode,
    },
    /// The two sessions have the same group identifier.
    DuplicateGroupIds,
    /// A group identifier is not that of the actual session.
    GroupIdMismatch,
    /// The epoch counters are too far apart.
    EpochDrift {
        /// How far apart they are.
        drift: u64,
        /// How far apart they may be.
        max: u64,
    },
    /// The mode is `Classical`, for which there is nothing to link.
    ClassicalMode,
}

/// How far two counters are apart.
pub open spec fn drift(a: u64, b: u64) -> u64 {
    if a >= b {
        (a - b) as u64
    } else {
        (b - a) as u64
    }
}

/// How far two counters are apart.
pub fn epoch_drift(a: u64, b: u64) -> (r: u64)
    ensures
        r == drift(a, b),
{
    if a >= b {
        a - b
    } else {
        b - a
    }
}

/// What is wrong with a record taken by itself: the first of four things that
/// applies.
pub open spec fn apq_info_validity(info: ApqInfoView) -> Result<(), ApqInfoError> {
    if info.t_group_id == info.pq_group_id {
        Err(ApqInfoError::DuplicateGroupIds)
    } else if drift(info.t_epoch, info.pq_epoch) > MAX_EPOCH_DRIFT {
        Err(
            ApqInfoError::EpochDrift {
                drift: drift(info.t_epoch, info.pq_epoch),
                max: MAX_EPOCH_DRIFT,
            },
        )
    } else if info.mode == SecurityMode::Classical {
        Err(ApqInfoError::ClassicalMode)
    } else if mode_rank(suite_mode(info.pq_ciphersuite)) < mode_rank(info.mode) {
        Err(ApqInfoError::ModeMismatch { mode: info.mode })
    } else {
        Ok(())
    }
}

/// The bytes of a record on the wire.
pub open spec fn apq_info_bytes(info: ApqInfoView) -> Seq<u8> {
    vector_bytes(info.t_group_id) + vector_bytes(info.pq_group_id) + be_bytes(
        info.t_epoch as nat,
        8,
    ) + be_bytes(info.pq_epoch as nat, 8) + be_bytes(
        ciphersuite_codepoint(info.t_ciphersuite) as nat,
        2,
    ) + be_bytes(ciphersuite_codepoint(info.pq_ciphersuite) as nat, 2) + be_bytes(
        mode_rank(info.mode) as nat,
        1,
    )
}

/// `true` if the identifiers are short enough for the wire.
pub open spec fn apq_info_encodable(info: ApqInfoView) -> bool {
    info.t_group_id.len() <= MAX_VECTOR_LENGTH && info.pq_group_id.len() <= MAX_VECTOR_LENGTH
}

/// What is written of a record of which an identifier is too long.
pub open spec fn apq_info_begun(info: ApqInfoView) -> Seq<u8> {
    if info.t_group_id.len() > MAX_VECTOR_LENGTH {
        Seq::empty()
    } else {
        vector_bytes(info.t_group_id)
    }
}

/// The security mode at the front of `s`.
pub open spec fn read_mode_spec(s: Seq<u8>) -> Decoded<SecurityMode> {
    match read_int_spec(s, 1) {
        Err(e) => Err(e),
        Ok((n, rest)) => if n == 0 {
            Ok((SecurityMode::Classical, rest))
        } else if n == 1 {
            Ok((SecurityMode::PqConfidentiality, rest))
        } else if n == 2 {
            Ok((SecurityMode::PqAuthenticity, rest))
        } else {
            Err(
                ReadErrorView {
                    error: TlsErrorView::DecodingError(
                        "invalid SecurityMode discriminant "@ + decimal(n),
                    ),
                    unread: rest,
                },
            )
        },
    }
}

/// The record at the front of `s`, or the first error on the way.
pub open spec fn read_apq_info_spec(s: Seq<u8>) -> Decoded<ApqInfoView> {
    match read_vector_spec(s) {
        Err(e) => Err(e),
        Ok((t_group_id, s)) => match read_vector_spec(s) {
            Err(e) => Err(e),
            Ok((pq_group_id, s)) => match read_int_spec(s, 8) {
                Err(e) => Err(e),
                Ok((t_epoch, s)) => match read_int_spec(s, 8) {
                    Err(e) => Err(e),
                    Ok((pq_epoch, s)) => match read_suite_spec(s) {
                        Err(e) => Err(e),
                        Ok((t_ciphersuite, s)) => match read_suite_spec(s) {
                            Err(e) => Err(e),
                            Ok((pq_ciphersuite, s)) => match read_mode_spec(s) {
                                Err(e) => Err(e),
                                Ok((mode, s)) => Ok(
                                    (
                                        ApqInfoView {
                                            t_group_id,
                                            pq_group_id,
                                            t_epoch: t_epoch as u64,
                                            pq_epoch: pq_epoch as u64,
                                            t_ciphersuite,
                                            pq_ciphersuite,
                                            mode,
                                        },
                                        s,
                                    ),
                                ),
                            },
                        },
                    },
                },
            },
        },
    }
}

/// A record reads back from its encoding, whatever follows.
#[verifier::spinoff_prover]
#[verifier::rlimit(40)]
pub proof fn apq_info_round_trip(info: ApqInfoView, rest: Seq<u8>)
    requires
        apq_info_encodable(info),
    ensures
        read_apq_info_spec(apq_info_bytes(info) + rest) == Ok::<
            (ApqInfoView, Seq<u8>),
            ReadErrorView,
        >((info, rest)),
{
    let a = vector_bytes(info.t_group_id);
    let b = vector_bytes(info.pq_group_id);
    let c = be_bytes(info.t_epoch as nat, 8);
    let d = be_bytes(info.pq_epoch as nat, 8);
    let e = be_bytes(ciphersuite_codepoint(info.t_ciphersuite) as nat, 2);
    let f = be_bytes(ciphersuite_codepoint(info.pq_ciphersuite) as nat, 2);
    let g = be_bytes(mode_rank(info.mode) as nat, 1);
    let s6 = g + rest;
    let s5 = f + s6;
    let s4 = e + s5;
    let s3 = d + s4;
    let s2 = c + s3;
    let s1 = b + s2;
    let s0 = a + s1;
    assert(apq_info_bytes(info) + rest == s0) by {
        lemma_assoc(a + b + c + d + e + f, g, rest);
        lemma_assoc(a + b + c + d + e, f, s6);
        lemma_assoc(a + b + c + d, e, s5);
        lemma_assoc(a + b + c, d, s4);
        lemma_assoc(a + b, c, s3);
        lemma_assoc(a, b, s2);
    }
    lemma_pow256();
    vector_round_trip(info.t_group_id, s1);
    vector_round_trip(info.pq_group_id, s2);
    integer_round_trip(info.t_epoch as nat, 8, s3);
    integer_round_trip(info.pq_epoch as nat, 8, s4);
    suite_round_trip(info.t_ciphersuite, s5);
    suite_round_trip(info.pq_ciphersuite, s6);
    integer_round_trip(mode_rank(info.mode) as nat, 1, rest);
}

impl ApqInfo {
    /// A new record. It is not validated here.
    pub fn new(
        t_group_id: GroupId,
        pq_group_id: GroupId,
        t_epoch: u64,
        pq_epoch: u64,
        t_ciphersuite: Ciphersuite,
        pq_ciphersuite: Ciphersuite,
        mode: SecurityMode,
    ) -> (r: Self)
        ensures
            r@ == (ApqInfoView {
                t_group_id: t_group_id@,
                pq_group_id: pq_group_id@,
                t_epoch,
                pq_epoch,
                t_ciphersuite,
                pq_ciphersuite,
                mode,
            }),
    {
        ApqInfo { t_group_id, pq_group_id, t_epoch, pq_epoch, t_ciphersuite, pq_ciphersuite, mode }
    }

    /// Whether the record is consistent in itself.
    pub fn validate(&self) -> (r: Result<(), ApqInfoError>)
        ensures
            r == apq_info_validity(self@),
    {
        if self.t_group_id.equals(&self.pq_group_id) {
            return Err(ApqInfoError::DuplicateGroupIds);
        }
        let drift: u64 = epoch_drift(self.t_epoch, self.pq_epoch);
        if drift > MAX_EPOCH_DRIFT {
            return Err(ApqInfoError::EpochDrift { drift, max: MAX_EPOCH_DRIFT });
        }
        match self.mode {
            SecurityMode::Classical => Err(ApqInfoError::ClassicalMode),
            SecurityMode::PqConfidentiality | SecurityMode::PqAuthenticity => {
                let pq_session_mode = SecurityMode::from_ciphersuite(self.pq_ciphersuite);
                if pq_session_mode.rank() < self.mode.rank() {
                    return Err(ApqInfoError::ModeMismatch { mode: self.mode });
                }
                Ok(())
            },
        }
    }

    /// Whether the recorded identifiers are those of the actual sessions.
    pub fn matches_groups(
        &self,
        actual_t_group_id: &GroupId,
        actual_pq_group_id: &GroupId,
    ) -> (r: Result<(), ApqInfoError>)
        ensures
            r == (if self@.t_group_id == actual_t_group_id@ && self@.pq_group_id
                == actual_pq_group_id@ {
                Ok::<(), ApqInfoError>(())
            } else {
                Err(ApqInfoError::GroupIdMismatch)
            }),
    {
        if !self.t_group_id.equals(actual_t_group_id) {
            return Err(ApqInfoError::GroupIdMismatch);
        }
        if !self.pq_group_id.equals(actual_pq_group_id) {
            return Err(ApqInfoError::GroupIdMismatch);
        }
        Ok(())
    }

    /// How many bytes the record takes on the wire.
    pub fn tls_serialized_len(&self) -> (r: usize)
        requires
            apq_info_encodable(self@),
            apq_info_bytes(self@).len() <= usize::MAX,
        ensures
            r == apq_info_bytes(self@).len(),
    {
        proof {
            lemma_vector_len(self@.t_group_id);
            lemma_vector_len(self@.pq_group_id);
            lemma_be_bytes_len(self.t_epoch as nat, 8);
            lemma_be_bytes_len(self.pq_epoch as nat, 8);
            lemma_be_bytes_len(ciphersuite_codepoint(self.t_ciphersuite) as nat, 2);
            lemma_be_bytes_len(ciphersuite_codepoint(self.pq_ciphersuite) as nat, 2);
            lemma_be_bytes_len(mode_rank(self.mode) as nat, 1);
        }
        let t: usize = self.t_group_id.as_slice().len();
        let pq: usize = self.pq_group_id.as_slice().len();
        prefix_len(t) + t + (prefix_len(pq) + pq) + 8 + 8 + 2 + 2 + 1
    }

    /// Appends the record in its form on the wire, and returns how many bytes that
    /// are. It fails exactly where an identifier is too long, and then it has appended
    /// what comes before that identifier.
    pub fn tls_serialize(&self, writer: &mut Vec<u8>) -> (r: Result<usize, TlsError>)
        ensures
            match r {
                Ok(written) => apq_info_encodable(self@) && final(writer)@ == old(writer)@
                    + apq_info_bytes(self@) && written == apq_info_bytes(self@).len(),
                Err(e) => !apq_info_encodable(self@) && e@ == TlsErrorView::InvalidVectorLength
                    && final(writer)@ == old(writer)@ + apq_info_begun(self@),
            },
    {
        let before: usize = writer.len();
        if let Err(e) = try_put_vector(writer, self.t_group_id.as_slice()) {
            assert(writer@ =~= old(writer)@ + apq_info_begun(self@));
            return Err(e);
        }
        if let Err(e) = try_put_vector(writer, self.pq_group_id.as_slice()) {
            return Err(e);
        }
        put_u64(writer, self.t_epoch);
        put_u64(writer, self.pq_epoch);
        put_u16(writer, self.t_ciphersuite.codepoint());
        put_u16(writer, self.pq_ciphersuite.codepoint());
        put_u8(writer, self.mode.rank());
        assert(writer@ =~= old(writer)@ + apq_info_bytes(self@));
        Ok(writer.len() - before)
    }

    /// The record in its form on the wire.
    pub fn tls_serialize_detached(&self) -> (r: Result<Vec<u8>, TlsError>)
        ensures
            match r {
                Ok(bytes) => apq_info_encodable(self@) && bytes@ == apq_info_bytes(self@),
                Err(e) => !apq_info_encodable(self@) && e@ == TlsErrorView::InvalidVectorLength,
            },
    {
        let mut out: Vec<u8> = Vec::new();
        match self.tls_serialize(&mut out) {
            Ok(_) => {
                assert(Seq::<u8>::empty() + apq_info_bytes(self@) =~= apq_info_bytes(self@));
                Ok(out)
            },
            Err(e) => Err(e),
        }
    }

    /// Reads a record from the front of `reader`, which then holds what has not been
    /// read.
    pub fn tls_deserialize(reader: &mut &[u8]) -> (r: Result<Self, TlsError>)
        ensures
            match (r, read_apq_info_spec(old(reader)@)) {
                (Ok(c), Ok((v, rest))) => c@ == v && final(reader)@ == rest,
                (Err(e), Err(f)) => e@ == f.error && final(reader)@ == f.unread,
                _ => false,
            },
    {
        match Self::read(*reader) {
            Ok((c, rest)) => {
                *reader = rest;
                Ok(c)
            },
            Err(e) => {
                *reader = e.unread;
                Err(e.error)
            },
        }
    }

    /// Reads a record from the front of `bytes`, and returns it with the bytes behind
    /// it.
    pub fn tls_deserialize_bytes(bytes: &[u8]) -> (r: Result<(Self, &[u8]), TlsError>)
        ensures
            match (r, read_apq_info_spec(bytes@)) {
                (Ok((c, rest)), Ok((v, s))) => c@ == v && rest@ == s,
                (Err(e), Err(f)) => e@ == f.error,
                _ => false,
            },
    {
        match Self::read(bytes) {
            Ok(x) => Ok(x),
            Err(e) => Err(e.error),
        }
    }

    /// Reads a record from the front of `bytes`.
    pub(crate) fn read(bytes: &[u8]) -> (r: Result<(Self, &[u8]), ReadError<'_>>)
        ensures
            match (r, read_apq_info_spec(bytes@)) {
                (Ok((c, rest)), Ok((v, s))) => c@ == v && rest@ == s,
                (Err(e), Err(f)) => e@ == f,
                _ => false,
            },
    {
        let (t_group_id, bytes) = match get_vector(bytes) {
            Ok(x) => x,
            Err(e) => {
                return Err(e);
            },
        };
        let (pq_group_id, bytes) = match get_vector(bytes) {
            Ok(x) => x,
            Err(e) => {
                return Err(e);
            },
        };
        let (t_epoch, bytes) = match get_u64(bytes) {
            Ok(x) => x,
            Err(e) => {
                return Err(e);
            },
        };
        let (pq_epoch, bytes) = match get_u64(bytes) {
            Ok(x) => x,
            Err(e) => {
                return Err(e);
            },
        };
        let (t_ciphersuite, bytes) = match get_suite(bytes) {
            Ok(x) => x,
            Err(e) => {
                return Err(e);
            },
        };
        let (pq_ciphersuite, bytes) = match get_suite(bytes) {
            Ok(x) => x,
            Err(e) => {
                return Err(e);
            },
        };
        let (mode, bytes) = match get_mode(bytes) {
            Ok(x) => x,
            Err(e) => {
                return Err(e);
            },
        };
        Ok(
            (
                ApqInfo {
                    t_group_id: GroupId::from_vec(t_group_id),
                    pq_group_id: GroupId::from_vec(pq_group_id),
                    t_epoch,
                    pq_epoch,
                    t_ciphersuite,
                    pq_ciphersuite,
                    mode,
                },
                bytes,
            ),
        )
    }
}

impl Wire for ApqInfo {
    open spec fn wire_bytes(v: ApqInfoView) -> Seq<u8> {
        apq_info_bytes(v)
    }

    open spec fn wire_ok(v: ApqInfoView) -> bool {
        apq_info_encodable(v)
    }

    open spec fn wire_begun(v: ApqInfoView) -> Seq<u8> {
        apq_info_begun(v)
    }

    open spec fn wire_read(s: Seq<u8>) -> Decoded<ApqInfoView> {
        read_apq_info_spec(s)
    }

    proof fn wire_round_trip(v: ApqInfoView, rest: Seq<u8>) {
        apq_info_round_trip(v, rest);
    }

    fn put(&self, out: &mut Vec<u8>) -> (r: Result<(), TlsError>) {
        match self.tls_serialize(out) {
            Ok(_) => Ok(()),
            Err(e) => Err(e),
        }
    }

    fn get(bytes: &[u8]) -> (r: Result<(Self, &[u8]), ReadError<'_>>) {
        Self::read(bytes)
    }
}

impl Clone for ApqInfo {
    fn clone(&self) -> (r: Self)
        ensures
            r@ == self@,
    {
        ApqInfo {
            t_group_id: self.t_group_id.clone(),
            pq_group_id: self.pq_group_id.clone(),
            t_epoch: self.t_epoch,
            pq_epoch: self.pq_epoch,
            t_ciphersuite: self.t_ciphersuite,
            pq_ciphersuite: self.pq_ciphersuite,
            mode: self.mode,
        }
    }
}

/// The mode of a byte.
fn security_mode_from_u8(byte: u8) -> (r: Result<SecurityMode, TlsError>)
    ensures
        match r {
            Ok(mode) => byte == mode_rank(mode),
            Err(e) => byte > 2 && e@ == TlsErrorView::DecodingError(
                "invalid SecurityMode discriminant "@ + decimal(byte as nat),
            ),
        },
{
    match byte {
        0 => Ok(SecurityMode::Classical),
        1 => Ok(SecurityMode::PqConfidentiality),
        2 => Ok(SecurityMode::PqAuthenticity),
        other => {
            let mut text: String = "invalid SecurityMode discriminant ".to_owned();
            push_decimal(&mut text, other as u64);
            Err(TlsError::DecodingError(text))
        },
    }
}

/// Reads a security mode.
fn get_mode(bytes: &[u8]) -> (r: Result<(SecurityMode, &[u8]), ReadError<'_>>)
    ensures
        match (r, read_mode_spec(bytes@)) {
            (Ok((v, rest)), Ok((w, s))) => v == w && rest@ == s,
            (Err(e), Err(f)) => e@ == f,
            _ => false,
        },
{
    match get_u8(bytes) {
        Ok((b, rest)) => match security_mode_from_u8(b) {
            Ok(mode) => Ok((mode, rest)),
            Err(error) => Err(ReadError { error, unread: rest }),
        },
        Err(e) => Err(e),
    }
}

/// The text of an error.
pub open spec fn apq_info_error_text(e: ApqInfoError) -> Seq<char> {
    match e {
        ApqInfoError::ModeMismatch { mode } => "APQ mode "@ + mode_name(mode) + " is inconsistent with ciphersuite combination"@,
        ApqInfoError::DuplicateGroupIds => "APQInfo t_group_id and pq_group_id must differ"@,
        ApqInfoError::GroupIdMismatch => "APQInfo group ID does not match actual session group ID"@,
        ApqInfoError::EpochDrift { drift, max } => "APQInfo T/PQ epoch drift "@ + decimal(drift as nat) + " exceeds maximum "@ + decimal(max as nat),
        ApqInfoError::ClassicalMode => "APQInfo carries Classical mode; APQInfo is only valid for APQ-mode conversations"@,
    }
}

impl ApqInfoError {
    /// The text of an error.
    pub fn message(&self) -> (r: String)
        ensures
            r@ == apq_info_error_text(*self),
    {
        match self {
            ApqInfoError::ModeMismatch { mode } => {
                let mut text: String = "APQ mode ".to_owned();
                text.append(mode.name());
                text.append(" is inconsistent with ciphersuite combination");
                text
            },
            ApqInfoError::DuplicateGroupIds => "APQInfo t_group_id and pq_group_id must differ".to_owned(),
            ApqInfoError::GroupIdMismatch => "APQInfo group ID does not match actual session group ID".to_owned(),
            ApqInfoError::EpochDrift { drift, max } => {
                let mut text: String = "APQInfo T/PQ epoch drift ".to_owned();
                push_decimal(&mut text, *drift);
                text.append(" exceeds maximum ");
                push_decimal(&mut text, *max);
                text
            },
            ApqInfoError::ClassicalMode => "APQInfo carries Classical mode; APQInfo is only valid for APQ-mode conversations".to_owned(),
        }
    }
}

/// How far two counters are apart does not depend on their order, and it leads from the
/// smaller one to the larger one.
pub proof fn drift_is_the_distance(a: u64, b: u64)
    ensures
        drift(a, b) == drift(b, a),
        a <= b ==> a + drift(a, b) == b,
{
}

/// A record is valid exactly when its sessions differ, its counters are at most one
/// apart, its mode is a post-quantum one and the suite of its PQ session provides that
/// mode.
pub proof fn record_is_valid_iff(info: ApqInfoView)
    ensures
        apq_info_validity(info) is Ok <==> info.t_group_id != info.pq_group_id && info.t_epoch
            <= info.pq_epoch + 1 && info.pq_epoch <= info.t_epoch + 1 && match info.mode {
            SecurityMode::Classical => false,
            SecurityMode::PqConfidentiality => ciphersuite_codepoint(info.pq_ciphersuite) > 7,
            SecurityMode::PqAuthenticity => ciphersuite_signature(info.pq_ciphersuite)
                == SignatureScheme::MLDSA65,
        },
{
    suite_mode_shows_in_codepoint_and_signature(info.pq_ciphersuite);
}

/// What is wrong with a record is named: same groups before counters, counters before
/// the mode, and the mode before the suite.
pub proof fn invalid_record_names_its_fault(info: ApqInfoView)
    ensures
        match apq_info_validity(info) {
            Ok(_) => true,
            Err(ApqInfoError::DuplicateGroupIds) => info.t_group_id == info.pq_group_id,
            Err(ApqInfoError::EpochDrift { drift: d, max }) => info.t_group_id != info.pq_group_id
                && max == 1 && d > 1 && (info.t_epoch + d == info.pq_epoch || info.pq_epoch + d
                == info.t_epoch),
            Err(ApqInfoError::ClassicalMode) => info.t_group_id != info.pq_group_id && info.t_epoch
                <= info.pq_epoch + 1 && info.pq_epoch <= info.t_epoch + 1 && info.mode
                == SecurityMode::Classical,
            Err(ApqInfoError::ModeMismatch { mode }) => info.t_group_id != info.pq_group_id
                && info.t_epoch <= info.pq_epoch + 1 && info.pq_epoch <= info.t_epoch + 1 && mode
                == info.mode && mode != SecurityMode::Classical && mode_rank(
                suite_mode(info.pq_ciphersuite),
            ) < mode_rank(mode),
            Err(_) => false,
        },
{
}

/// What reads as a mode is the byte of that mode: 0, 1 or 2 by strength, and every other
/// byte is refused.
pub proof fn modes_have_one_byte(s: Seq<u8>)
    ensures
        read_mode_spec(s) matches Ok((mode, rest)) ==> s == be_bytes(mode_rank(mode) as nat, 1)
            + rest,
        s.len() > 0 && s[0] > 2 ==> read_mode_spec(s) is Err,
{
    integers_have_one_form(s, 1);
    lemma_pow256();
    if s.len() > 0 {
        lemma_int_consumes(s, 1);
        if let Ok((v, rest)) = read_int_spec(s, 1) {
            lemma_one_byte(v as u8);
            assert(s[0] == v);
        }
    }
}

/// What reads as a record is the form of that record, and nothing else is.
#[verifier::spinoff_prover]
#[verifier::rlimit(40)]
pub proof fn records_have_one_form(s: Seq<u8>)
    ensures
        read_apq_info_spec(s) matches Ok((info, rest)) ==> s == apq_info_bytes(info) + rest
            && apq_info_encodable(info),
{
    lemma_pow256();
    byte_strings_have_one_form(s);
    if let Ok((a, s1)) = read_vector_spec(s) {
        byte_strings_have_one_form(s1);
        if let Ok((b, s2)) = read_vector_spec(s1) {
            integers_have_one_form(s2, 8);
            if let Ok((c, s3)) = read_int_spec(s2, 8) {
                integers_have_one_form(s3, 8);
                if let Ok((d, s4)) = read_int_spec(s3, 8) {
                    suites_have_one_form(s4);
                    if let Ok((e, s5)) = read_suite_spec(s4) {
                        suites_have_one_form(s5);
                        if let Ok((f, s6)) = read_suite_spec(s5) {
                            modes_have_one_byte(s6);
                            if let Ok((g, rest)) = read_mode_spec(s6) {
                                let x = vector_bytes(a);
                                let y = vector_bytes(b);
                                let t = be_bytes(c, 8);
                                let p = be_bytes(d, 8);
                                let u = be_bytes(ciphersuite_codepoint(e) as nat, 2);
                                let v = be_bytes(ciphersuite_codepoint(f) as nat, 2);
                                let w = be_bytes(mode_rank(g) as nat, 1);
                                assert(s == x + (y + (t + (p + (u + (v + (w + rest)))))));
                                lemma_assoc(x + y + t + p + u + v, w, rest);
                                lemma_assoc(x + y + t + p + u, v, w + rest);
                                lemma_assoc(x + y + t + p, u, v + (w + rest));
                                lemma_assoc(x + y + t, p, u + (v + (w + rest)));
                                lemma_assoc(x + y, t, p + (u + (v + (w + rest))));
                                lemma_assoc(x, y, t + (p + (u + (v + (w + rest)))));
                            }
                        }
                    }
                }
            }
        }
    }
}

/// Where the parts of a record stand on the wire: the group of the T session first, then
/// that of the PQ session. Behind them are the counters of T and PQ, the suites of T and
/// PQ and, in the last byte, the mode.
pub proof fn record_parts_stand_in_order(info: ApqInfoView)
    ensures
        ({
            let all = apq_info_bytes(info);
            let t = vector_bytes(info.t_group_id);
            let pq = vector_bytes(info.pq_group_id);
            let n = all.len() as int;
            &&& n == t.len() + pq.len() + 21
            &&& all.take(t.len() as int) == t
            &&& all.subrange(t.len() as int, n - 21) == pq
            &&& all.subrange(n - 21, n - 13) == be_bytes(info.t_epoch as nat, 8)
            &&& all.subrange(n - 13, n - 5) == be_bytes(info.pq_epoch as nat, 8)
            &&& all.subrange(n - 5, n - 3) == be_bytes(
                ciphersuite_codepoint(info.t_ciphersuite) as nat,
                2,
            )
            &&& all.subrange(n - 3, n - 1) == be_bytes(
                ciphersuite_codepoint(info.pq_ciphersuite) as nat,
                2,
            )
            &&& all[n - 1] == mode_rank(info.mode)
        }),
{
    let all = apq_info_bytes(info);
    let t = vector_bytes(info.t_group_id);
    let pq = vector_bytes(info.pq_group_id);
    lemma_be_bytes_len(info.t_epoch as nat, 8);
    lemma_be_bytes_len(info.pq_epoch as nat, 8);
    lemma_be_bytes_len(ciphersuite_codepoint(info.t_ciphersuite) as nat, 2);
    lemma_be_bytes_len(ciphersuite_codepoint(info.pq_ciphersuite) as nat, 2);
    lemma_one_byte(mode_rank(info.mode));
    let n = all.len() as int;
    assert(all.take(t.len() as int) =~= t);
    assert(all.subrange(t.len() as int, n - 21) =~= pq);
    assert(all.subrange(n - 21, n - 13) =~= be_bytes(info.t_epoch as nat, 8));
    assert(all.subrange(n - 13, n - 5) =~= be_bytes(info.pq_epoch as nat, 8));
    assert(all.subrange(n - 5, n - 3) =~= be_bytes(
        ciphersuite_codepoint(info.t_ciphersuite) as nat,
        2,
    ));
    assert(all.subrange(n - 3, n - 1) =~= be_bytes(
        ciphersuite_codepoint(info.pq_ciphersuite) as nat,
        2,
    ));
}

} // verus!
