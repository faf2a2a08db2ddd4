//! The welcome into a paired conversation.
//!
//! Who joins a paired conversation is welcomed into both sessions at once, with the
//! record that links them and the name of the first key that ties them together. A
//! conversation with a single post-quantum session uses the same message without a T
//! part.
use crate::extensions::apq_info::{
    apq_info_begun, apq_info_bytes, apq_info_encodable, apq_info_error_text, apq_info_round_trip,
    apq_info_validity, read_apq_info_spec, ApqInfo, ApqInfoError, ApqInfoView,
};
use crate::mls::{
    psk_id_begun, psk_id_bytes, psk_id_encodable, psk_id_round_trip, read_psk_id_spec,
    read_welcome_spec, welcome_begun, welcome_bytes, welcome_encodable, welcome_round_trip,
    PreSharedKeyId, PreSharedKeyIdView, Welcome, WelcomeView,
};
use crate::text::{decimal, push_decimal};
use crate::tls::{
    be_bytes, get_u8, integer_round_trip, lemma_assoc, lemma_be_bytes_len, lemma_one_byte,
    lemma_pow256, put_u8,
    read_int_spec, Decoded, ReadError, ReadErrorView, TlsError, TlsErrorView,
};
use crate::types::GroupId;
use crate::wire::Wire;
use vstd::prelude::*;
use vstd::string::*;

verus! {

/// The welcome into a conversation.
#[derive(Debug, PartialEq, Eq)]
pub struct ApqWelcome {
    /// The welcome into the T session, if there is one.
    pub t_welcome: Option<Welcome>,
    /// The welcome into the PQ session.
    pub pq_welcome: Welcome,
    /// The record that links the sessions.
    pub apq_info: ApqInfo,
    /// The name of the first key that ties the sessions together.
    pub initial_apq_psk_id: Option<PreSharedKeyId>,
}

/// An `ApqWelcome` over the views of what it holds.
#[verifier::ext_equal]
pub struct ApqWelcomeView {
    /// See `ApqWelcome::t_welcome`.
    pub t_welcome: Option<WelcomeView>,
    /// See `ApqWelcome::pq_welcome`.
    pub pq_welcome: WelcomeView,
    /// See `ApqWelcome::apq_info`.
    pub apq_info: ApqInfoView,
    /// See `ApqWelcome::initial_apq_psk_id`.
    pub initial_apq_psk_id: Option<PreSharedKeyIdView>,
}

/// The view of an optional welcome.
pub open spec fn opt_welcome(w: Option<Welcome>) -> Option<WelcomeView> {
    match w {
        Some(w) => Some(w@),
        None => None,
    }
}

/// The view of an optional name.
pub open spec fn opt_psk_id(p: Option<PreSharedKeyId>) -> Option<PreSharedKeyIdView> {
    match p {
        Some(p) => Some(p@),
        None => None,
    }
}

impl View for ApqWelcome {
    type V = ApqWelcomeView;

    open spec fn view(&self) -> ApqWelcomeView {
        ApqWelcomeView {
            t_welcome: opt_welcome(self.t_welcome),
            pq_welcome: self.pq_welcome@,
            apq_info: self.apq_info@,
            initial_apq_psk_id: opt_psk_id(self.initial_apq_psk_id),
        }
    }
}

/// What is wrong with a welcome.
#[derive(Debug, Clone, Copy, PartialEq, Eq, Structural)]
pub enum ApqWelcomeError {
    /// The link record is not valid.
    InvalidApqInfo(ApqInfoError),
    /// The welcome into the T session is missing.
    MissingTWelcome,
    /// There is a welcome into a T session that there should not be.
    UnexpectedTWelcome,
    /// The welcome into the T session has another suite than the record.
    TCiphersuiteMismatch,
    /// The welcome into the PQ session has another suite than the record.
    PqCiphersuiteMismatch,
    /// The name of the first key is missing.
    MissingPskId,
}

/// What is wrong with a welcome: the first of four things that applies.
pub open spec fn welcome_validity(w: ApqWelcomeView) -> Result<(), ApqWelcomeError> {
    match apq_info_validity(w.apq_info) {
        Err(e) => Err(ApqWelcomeError::InvalidApqInfo(e)),
        Ok(_) => if w.pq_welcome.cipher_suite != w.apq_info.pq_ciphersuite {
            Err(ApqWelcomeError::PqCiphersuiteMismatch)
        } else {
            match w.t_welcome {
                None => Ok(()),
                Some(t) => if t.cipher_suite != w.apq_info.t_ciphersuite {
                    Err(ApqWelcomeError::TCiphersuiteMismatch)
                } else if w.initial_apq_psk_id is None {
                    Err(ApqWelcomeError::MissingPskId)
                } else {
                    Ok(())
                },
            }
        },
    }
}

/// An optional part on the wire: a flag, and the part if there is one.
pub open spec fn flagged(part: Option<Seq<u8>>) -> Seq<u8> {
    match part {
        None => be_bytes(0, 1),
        Some(bytes) => be_bytes(1, 1) + bytes,
    }
}

/// The T part on the wire.
pub open spec fn t_part(w: ApqWelcomeView) -> Seq<u8> {
    flagged(
        match w.t_welcome {
            Some(t) => Some(welcome_bytes(t)),
            None => None,
        },
    )
}

/// The name of the first key on the wire.
pub open spec fn psk_part(w: ApqWelcomeView) -> Seq<u8> {
    flagged(
        match w.initial_apq_psk_id {
            Some(p) => Some(psk_id_bytes(p)),
            None => None,
        },
    )
}

/// A welcome on the wire.
pub open spec fn apq_welcome_bytes(w: ApqWelcomeView) -> Seq<u8> {
    t_part(w) + (welcome_bytes(w.pq_welcome) + (apq_info_bytes(w.apq_info) + psk_part(w)))
}

/// Whether all parts are short enough for the wire.
pub open spec fn apq_welcome_encodable(w: ApqWelcomeView) -> bool {
    &&& w.t_welcome matches Some(t) ==> welcome_encodable(t)
    &&& welcome_encodable(w.pq_welcome)
    &&& apq_info_encodable(w.apq_info)
    &&& w.initial_apq_psk_id matches Some(p) ==> psk_id_encodable(p)
}

/// What is written of a welcome with parts that are too long: what comes before the
/// first of them.
pub open spec fn apq_welcome_begun(w: ApqWelcomeView) -> Seq<u8> {
    let t = t_part(w);
    let pq = t + welcome_bytes(w.pq_welcome);
    let info = pq + apq_info_bytes(w.apq_info);
    if w.t_welcome is Some && !welcome_encodable(w.t_welcome->Some_0) {
        be_bytes(1, 1) + welcome_begun(w.t_welcome->Some_0)
    } else if !welcome_encodable(w.pq_welcome) {
        t + welcome_begun(w.pq_welcome)
    } else if !apq_info_encodable(w.apq_info) {
        pq + apq_info_begun(w.apq_info)
    } else {
        match w.initial_apq_psk_id {
            Some(p) => info + be_bytes(1, 1) + psk_id_begun(p),
            None => info,
        }
    }
}

/// The T part at the front of `s`.
pub open spec fn read_t_part_spec(s: Seq<u8>) -> Decoded<Option<WelcomeView>> {
    match read_int_spec(s, 1) {
        Err(e) => Err(e),
        Ok((flag, s)) => if flag == 0 {
            Ok((None, s))
        } else if flag == 1 {
            match read_welcome_spec(s) {
                Err(e) => Err(e),
                Ok((w, s)) => Ok((Some(w), s)),
            }
        } else {
            Err(
                ReadErrorView {
                    error: TlsErrorView::DecodingError(
                        "invalid t_welcome presence flag "@ + decimal(flag),
                    ),
                    unread: s,
                },
            )
        },
    }
}

/// The name of the first key at the front of `s`.
pub open spec fn read_psk_part_spec(s: Seq<u8>) -> Decoded<Option<PreSharedKeyIdView>> {
    match read_int_spec(s, 1) {
        Err(e) => Err(e),
        Ok((flag, s)) => if flag == 0 {
            Ok((None, s))
        } else if flag == 1 {
            match read_psk_id_spec(s) {
                Err(e) => Err(e),
                Ok((p, s)) => Ok((Some(p), s)),
            }
        } else {
            Err(
                ReadErrorView {
                    error: TlsErrorView::DecodingError(
                        "invalid initial_apq_psk_id presence flag "@ + decimal(flag),
                    ),
                    unread: s,
                },
            )
        },
    }
}

/// The welcome at the front of `s`, or the first error on the way.
pub open spec fn read_apq_welcome_spec(s: Seq<u8>) -> Decoded<ApqWelcomeView> {
    match read_t_part_spec(s) {
        Err(e) => Err(e),
        Ok((t_welcome, s)) => match read_welcome_spec(s) {
            Err(e) => Err(e),
            Ok((pq_welcome, s)) => match read_apq_info_spec(s) {
                Err(e) => Err(e),
                Ok((apq_info, s)) => match read_psk_part_spec(s) {
                    Err(e) => Err(e),
                    Ok((initial_apq_psk_id, s)) => Ok(
                        (
                            ApqWelcomeView {
                                t_welcome,
                                pq_welcome,
                                apq_info,
                                initial_apq_psk_id,
                            },
                            s,
                        ),
                    ),
                },
            },
        },
    }
}

proof fn lemma_t_part_round_trip(w: ApqWelcomeView, rest: Seq<u8>)
    requires
        apq_welcome_encodable(w),
    ensures
        read_t_part_spec(t_part(w) + rest) == Ok::<(Option<WelcomeView>, Seq<u8>), ReadErrorView>(
            (w.t_welcome, rest),
        ),
{
    lemma_pow256();
    match w.t_welcome {
        None => {
            integer_round_trip(0, 1, rest);
        },
        Some(t) => {
            lemma_assoc(be_bytes(1, 1), welcome_bytes(t), rest);
            integer_round_trip(1, 1, welcome_bytes(t) + rest);
            welcome_round_trip(t, rest);
        },
    }
}

proof fn lemma_psk_part_round_trip(w: ApqWelcomeView, rest: Seq<u8>)
    requires
        apq_welcome_encodable(w),
    ensures
        read_psk_part_spec(psk_part(w) + rest) == Ok::<
            (Option<PreSharedKeyIdView>, Seq<u8>),
            ReadErrorView,
        >((w.initial_apq_psk_id, rest)),
{
    lemma_pow256();
    match w.initial_apq_psk_id {
        None => {
            integer_round_trip(0, 1, rest);
        },
        Some(p) => {
            lemma_assoc(be_bytes(1, 1), psk_id_bytes(p), rest);
            integer_round_trip(1, 1, psk_id_bytes(p) + rest);
            psk_id_round_trip(p, rest);
        },
    }
}

/// A welcome reads back from its form on the wire, whatever follows.
pub proof fn apq_welcome_round_trip(w: ApqWelcomeView, rest: Seq<u8>)
    requires
        apq_welcome_encodable(w),
    ensures
        read_apq_welcome_spec(apq_welcome_bytes(w) + rest) == Ok::<
            (ApqWelcomeView, Seq<u8>),
            ReadErrorView,
        >((w, rest)),
{
    let a = t_part(w);
    let b = welcome_bytes(w.pq_welcome);
    let c = apq_info_bytes(w.apq_info);
    let d = psk_part(w);
    lemma_assoc(a, b + (c + d), rest);
    lemma_assoc(b, c + d, rest);
    lemma_assoc(c, d, rest);
    lemma_t_part_round_trip(w, b + (c + (d + rest)));
    welcome_round_trip(w.pq_welcome, c + (d + rest));
    apq_info_round_trip(w.apq_info, d + rest);
    lemma_psk_part_round_trip(w, rest);
}

impl ApqWelcome {
    /// The welcome into a paired conversation.
    pub fn new_apq(
        t_welcome: Welcome,
        pq_welcome: Welcome,
        apq_info: ApqInfo,
        initial_apq_psk_id: PreSharedKeyId,
    ) -> (r: Self)
        ensures
            r@ == (ApqWelcomeView {
                t_welcome: Some(t_welcome@),
                pq_welcome: pq_welcome@,
                apq_info: apq_info@,
                initial_apq_psk_id: Some(initial_apq_psk_id@),
            }),
    {
        ApqWelcome {
            t_welcome: Some(t_welcome),
            pq_welcome,
            apq_info,
            initial_apq_psk_id: Some(initial_apq_psk_id),
        }
    }

    /// The welcome into a conversation with a single post-quantum session.
    pub fn new_direct_pq(pq_welcome: Welcome, apq_info: ApqInfo) -> (r: Self)
        ensures
            r@ == (ApqWelcomeView {
                t_welcome: None,
                pq_welcome: pq_welcome@,
                apq_info: apq_info@,
                initial_apq_psk_id: None,
            }),
    {
        ApqWelcome { t_welcome: None, pq_welcome, apq_info, initial_apq_psk_id: None }
    }

    /// Whether the parts of the welcome fit together.
    pub fn validate(&self) -> (r: Result<(), ApqWelcomeError>)
        ensures
            r == welcome_validity(self@),
    {
        if let Err(e) = self.apq_info.validate() {
            return Err(ApqWelcomeError::InvalidApqInfo(e));
        }
        if self.pq_welcome.ciphersuite() != self.apq_info.pq_ciphersuite {
            return Err(ApqWelcomeError::PqCiphersuiteMismatch);
        }
        match &self.t_welcome {
            Some(t_welcome) => {
                if t_welcome.ciphersuite() != self.apq_info.t_ciphersuite {
                    return Err(ApqWelcomeError::TCiphersuiteMismatch);
                }
                if self.initial_apq_psk_id.is_none() {
                    return Err(ApqWelcomeError::MissingPskId);
                }
            },
            None => {},
        }
        Ok(())
    }

    /// The groups of the T and of the PQ session.
    pub fn extract_group_ids(&self) -> (r: (&GroupId, &GroupId))
        ensures
            r.0@ == self@.apq_info.t_group_id,
            r.1@ == self@.apq_info.pq_group_id,
    {
        (&self.apq_info.t_group_id, &self.apq_info.pq_group_id)
    }

    /// How many bytes the welcome takes on the wire.
    pub fn tls_serialized_len(&self) -> (r: usize)
        requires
            apq_welcome_encodable(self@),
            apq_welcome_bytes(self@).len() <= usize::MAX,
        ensures
            r == apq_welcome_bytes(self@).len(),
    {
        proof {
            lemma_be_bytes_len(0, 1);
            lemma_be_bytes_len(1, 1);
        }
        let t_welcome_len: usize = match &self.t_welcome {
            Some(w) => 1 + w.tls_serialized_len(),
            None => 1,
        };
        let psk_len: usize = match &self.initial_apq_psk_id {
            Some(p) => 1 + p.tls_serialized_len(),
            None => 1,
        };
        t_welcome_len + self.pq_welcome.tls_serialized_len() + self.apq_info.tls_serialized_len()
            + psk_len
    }

    /// Appends the welcome in its form on the wire, and returns how many bytes that
    /// are. It fails exactly where a part is too long, and then it has appended what
    /// comes before that part.
    pub fn tls_serialize(&self, writer: &mut Vec<u8>) -> (r: Result<usize, TlsError>)
        ensures
            match r {
                Ok(written) => apq_welcome_encodable(self@) && final(writer)@ == old(writer)@
                    + apq_welcome_bytes(self@) && written == apq_welcome_bytes(self@).len(),
                Err(e) => !apq_welcome_encodable(self@) && e@ == TlsErrorView::InvalidVectorLength
                    && final(writer)@ == old(writer)@ + apq_welcome_begun(self@),
            },
    {
        let ghost start = writer@;
        let before: usize = writer.len();
        match &self.t_welcome {
            Some(w) => {
                put_u8(writer, 1);
                if let Err(e) = w.tls_serialize(writer) {
                    proof {
                        lemma_assoc(start, be_bytes(1, 1), welcome_begun(w@));
                    }
                    return Err(e);
                }
                proof {
                    lemma_assoc(start, be_bytes(1, 1), welcome_bytes(w@));
                }
            },
            None => {
                put_u8(writer, 0);
            },
        }
        let ghost a = t_part(self@);
        let ghost b = welcome_bytes(self.pq_welcome@);
        let ghost c = apq_info_bytes(self.apq_info@);
        let ghost d = psk_part(self@);
        assert(writer@ == start + a);
        if let Err(e) = self.pq_welcome.tls_serialize(writer) {
            proof {
                lemma_assoc(start, a, welcome_begun(self.pq_welcome@));
            }
            return Err(e);
        }
        proof {
            lemma_assoc(start, a, b);
        }
        if let Err(e) = self.apq_info.tls_serialize(writer) {
            proof {
                lemma_assoc(start, a + b, apq_info_begun(self.apq_info@));
            }
            return Err(e);
        }
        proof {
            lemma_assoc(start, a + b, c);
        }
        let ghost prefix = writer@;
        let ghost info = a + b + c;
        assert(prefix == start + info);
        match &self.initial_apq_psk_id {
            Some(p) => {
                put_u8(writer, 1);
                if let Err(e) = p.tls_serialize(writer) {
                    proof {
                        lemma_assoc(start, info, be_bytes(1, 1));
                        lemma_assoc(start, info + be_bytes(1, 1), psk_id_begun(p@));
                    }
                    return Err(e);
                }
                proof {
                    lemma_assoc(prefix, be_bytes(1, 1), psk_id_bytes(p@));
                }
            },
            None => {
                put_u8(writer, 0);
            },
        }
        proof {
            assert(writer@ == start + info + d);
            lemma_assoc(start, info, d);
            lemma_assoc(a + b, c, d);
            lemma_assoc(a, b, c + d);
        }
        Ok(writer.len() - before)
    }

    /// Reads a welcome from the front of `reader`, which then holds what has not been
    /// read.
    pub fn tls_deserialize(reader: &mut &[u8]) -> (r: Result<Self, TlsError>)
        ensures
            match (r, read_apq_welcome_spec(old(reader)@)) {
                (Ok(c), Ok((v, rest))) => c@ == v && final(reader)@ == rest,
                (Err(e), Err(f)) => e@ == f.error && final(reader)@ == f.unread,
                _ => false,
            },
    {
        match Self::read(*reader) {
            Ok((c, rest)) => {
                *reader = rest;
                Ok(c)
            },
            Err(e) => {
                *reader = e.unread;
                Err(e.error)
            },
        }
    }

    /// Reads a welcome from the front of `bytes`, and returns it with the bytes behind
    /// it.
    pub fn tls_deserialize_bytes(bytes: &[u8]) -> (r: Result<(Self, &[u8]), TlsError>)
        ensures
            match (r, read_apq_welcome_spec(bytes@)) {
                (Ok((c, rest)), Ok((v, s))) => c@ == v && rest@ == s,
                (Err(e), Err(f)) => e@ == f.error,
                _ => false,
            },
    {
        match Self::read(bytes) {
            Ok(x) => Ok(x),
            Err(e) => Err(e.error),
        }
    }

    /// Reads a welcome from the front of `bytes`.
    fn read(bytes: &[u8]) -> (r: Result<(Self, &[u8]), ReadError<'_>>)
        ensures
            match (r, read_apq_welcome_spec(bytes@)) {
                (Ok((c, rest)), Ok((v, s))) => c@ == v && rest@ == s,
                (Err(e), Err(f)) => e@ == f,
                _ => false,
            },
    {
        let (t_welcome, bytes) = match get_t_part(bytes) {
            Ok(x) => x,
            Err(e) => {
                return Err(e);
            },
        };
        let (pq_welcome, bytes) = match Welcome::read(bytes) {
            Ok(x) => x,
            Err(e) => {
                return Err(e);
            },
        };
        let (apq_info, bytes) = match ApqInfo::read(bytes) {
            Ok(x) => x,
            Err(e) => {
                return Err(e);
            },
        };
        let (initial_apq_psk_id, bytes) = match get_psk_part(bytes) {
            Ok(x) => x,
            Err(e) => {
                return Err(e);
            },
        };
        Ok((ApqWelcome { t_welcome, pq_welcome, apq_info, initial_apq_psk_id }, bytes))
    }
}

/// Reads the T part.
fn get_t_part(bytes: &[u8]) -> (r: Result<(Option<Welcome>, &[u8]), ReadError<'_>>)
    ensures
        match (r, read_t_part_spec(bytes@)) {
            (Ok((w, rest)), Ok((v, s))) => opt_welcome(w) == v && rest@ == s,
            (Err(e), Err(f)) => e@ == f,
            _ => false,
        },
{
    let (flag, bytes) = match get_u8(bytes) {
        Ok(x) => x,
        Err(e) => {
            return Err(e);
        },
    };
    if flag == 0 {
        Ok((None, bytes))
    } else if flag == 1 {
        match Welcome::read(bytes) {
            Ok((w, rest)) => Ok((Some(w), rest)),
            Err(e) => Err(e),
        }
    } else {
        let mut text: String = "invalid t_welcome presence flag ".to_owned();
        push_decimal(&mut text, flag as u64);
        Err(ReadError { error: TlsError::DecodingError(text), unread: bytes })
    }
}

/// Reads the name of the first key.
fn get_psk_part(bytes: &[u8]) -> (r: Result<(Option<PreSharedKeyId>, &[u8]), ReadError<'_>>)
    ensures
        match (r, read_psk_part_spec(bytes@)) {
            (Ok((p, rest)), Ok((v, s))) => opt_psk_id(p) == v && rest@ == s,
            (Err(e), Err(f)) => e@ == f,
            _ => false,
        },
{
    let (flag, bytes) = match get_u8(bytes) {
        Ok(x) => x,
        Err(e) => {
            return Err(e);
        },
    };
    if flag == 0 {
        Ok((None, bytes))
    } else if flag == 1 {
        match PreSharedKeyId::read(bytes) {
            Ok((p, rest)) => Ok((Some(p), rest)),
            Err(e) => Err(e),
        }
    } else {
        let mut text: String = "invalid initial_apq_psk_id presence flag ".to_owned();
        push_decimal(&mut text, flag as u64);
        Err(ReadError { error: TlsError::DecodingError(text), unread: bytes })
    }
}

impl Wire for ApqWelcome {
    open spec fn wire_bytes(v: ApqWelcomeView) -> Seq<u8> {
        apq_welcome_bytes(v)
    }

    open spec fn wire_ok(v: ApqWelcomeView) -> bool {
        apq_welcome_encodable(v)
    }

    open spec fn wire_begun(v: ApqWelcomeView) -> Seq<u8> {
        apq_welcome_begun(v)
    }

    open spec fn wire_read(s: Seq<u8>) -> Decoded<ApqWelcomeView> {
        read_apq_welcome_spec(s)
    }

    proof fn wire_round_trip(v: ApqWelcomeView, rest: Seq<u8>) {
        apq_welcome_round_trip(v, rest);
    }

    fn put(&self, out: &mut Vec<u8>) -> (r: Result<(), TlsError>) {
        match self.tls_serialize(out) {
            Ok(_) => Ok(()),
            Err(e) => Err(e),
        }
    }

    fn get(bytes: &[u8]) -> (r: Result<(Self, &[u8]), ReadError<'_>>) {
        Self::read(bytes)
    }
}

impl Clone for ApqWelcome {
    fn clone(&self) -> (r: Self)
        ensures
            r@ == self@,
    {
        ApqWelcome {
            t_welcome: match &self.t_welcome {
                Some(w) => Some(w.clone()),
                None => None,
            },
            pq_welcome: self.pq_welcome.clone(),
            apq_info: self.apq_info.clone(),
            initial_apq_psk_id: match &self.initial_apq_psk_id {
                Some(p) => Some(p.clone()),
                None => None,
            },
        }
    }
}

/// A welcome is valid exactly when its record is, its parts have the suites of the
/// record, and a T part comes with a name for the first key.
pub proof fn valid_welcomes_fit_together(w: ApqWelcomeView)
    ensures
        welcome_validity(w) is Ok <==> apq_info_validity(w.apq_info) is Ok
            && w.pq_welcome.cipher_suite == w.apq_info.pq_ciphersuite && (w.t_welcome matches Some(
            t,
        ) ==> t.cipher_suite == w.apq_info.t_ciphersuite && w.initial_apq_psk_id is Some),
{
}

/// The text of an error.
pub open spec fn welcome_error_text(e: ApqWelcomeError) -> Seq<char> {
    match e {
        ApqWelcomeError::InvalidApqInfo(inner) => "APQInfo invalid: "@ + apq_info_error_text(inner),
        ApqWelcomeError::MissingTWelcome => "APQ-mode bootstrap missing t_welcome"@,
        ApqWelcomeError::UnexpectedTWelcome => "direct-PQ bootstrap unexpectedly carries a t_welcome"@,
        ApqWelcomeError::TCiphersuiteMismatch => "t_welcome ciphersuite does not match APQInfo t_ciphersuite"@,
        ApqWelcomeError::PqCiphersuiteMismatch => "pq_welcome ciphersuite does not match APQInfo pq_ciphersuite"@,
        ApqWelcomeError::MissingPskId => "APQ bootstrap missing initial_apq_psk_id"@,
    }
}

impl ApqWelcomeError {
    /// The text of an error.
    pub fn message(&self) -> (r: String)
        ensures
            r@ == welcome_error_text(*self),
    {
        match self {
            ApqWelcomeError::InvalidApqInfo(inner) => {
                let mut text: String = "APQInfo invalid: ".to_owned();
                text.append(inner.message().as_str());
                text
            },
            ApqWelcomeError::MissingTWelcome => "APQ-mode bootstrap missing t_welcome".to_owned(),
            ApqWelcomeError::UnexpectedTWelcome => "direct-PQ bootstrap unexpectedly carries a t_welcome".to_owned(),
            ApqWelcomeError::TCiphersuiteMismatch => "t_welcome ciphersuite does not match APQInfo t_ciphersuite".to_owned(),
            ApqWelcomeError::PqCiphersuiteMismatch => "pq_welcome ciphersuite does not match APQInfo pq_ciphersuite".to_owned(),
            ApqWelcomeError::MissingPskId => "APQ bootstrap missing initial_apq_psk_id".to_owned(),
        }
    }
}

/// What is wrong with a welcome is named: the record before the suites, the suite of the
/// PQ part before that of the T part, and the missing key last.
pub proof fn invalid_welcome_names_its_fault(w: ApqWelcomeView)
    ensures
        match welcome_validity(w) {
            Ok(_) => true,
            Err(ApqWelcomeError::InvalidApqInfo(e)) => apq_info_validity(w.apq_info) == Err::<
                (),
                ApqInfoError,
            >(e),
            Err(ApqWelcomeError::PqCiphersuiteMismatch) => apq_info_validity(w.apq_info) is Ok
                && w.pq_welcome.cipher_suite != w.apq_info.pq_ciphersuite,
            Err(ApqWelcomeError::TCiphersuiteMismatch) => apq_info_validity(w.apq_info) is Ok
                && w.pq_welcome.cipher_suite == w.apq_info.pq_ciphersuite
                && (w.t_welcome matches Some(t) && t.cipher_suite != w.apq_info.t_ciphersuite),
            Err(ApqWelcomeError::MissingPskId) => apq_info_validity(w.apq_info) is Ok
                && w.pq_welcome.cipher_suite == w.apq_info.pq_ciphersuite
                && w.initial_apq_psk_id is None && (w.t_welcome matches Some(t) && t.cipher_suite
                == w.apq_info.t_ciphersuite),
            Err(_) => false,
        },
{
}

/// On the wire a welcome begins with 1 if it has a T part and with 0 if it has none. The
/// T part, the PQ part, the record and the name of the key follow each other.
pub proof fn welcome_parts_follow_each_other(w: ApqWelcomeView)
    ensures
        apq_welcome_bytes(w).len() > 0,
        apq_welcome_bytes(w)[0] == 1 <==> w.t_welcome is Some,
        apq_welcome_bytes(w)[0] == 0 <==> w.t_welcome is None,
        w.t_welcome is None ==> apq_welcome_bytes(w).skip(1) == welcome_bytes(w.pq_welcome)
            + apq_info_bytes(w.apq_info) + psk_part(w),
        w.t_welcome matches Some(t) ==> apq_welcome_bytes(w).skip(1) == welcome_bytes(t)
            + welcome_bytes(w.pq_welcome) + apq_info_bytes(w.apq_info) + psk_part(w),
        psk_part(w).len() > 0,
        psk_part(w)[0] == 1 <==> w.initial_apq_psk_id is Some,
        psk_part(w)[0] == 0 <==> w.initial_apq_psk_id is None,
        w.initial_apq_psk_id matches Some(p) ==> psk_part(w).skip(1) == psk_id_bytes(p),
{
    lemma_one_byte(0);
    lemma_one_byte(1);
    match w.t_welcome {
        None => {
            assert(apq_welcome_bytes(w).skip(1) =~= welcome_bytes(w.pq_welcome) + apq_info_bytes(
                w.apq_info,
            ) + psk_part(w));
        },
        Some(t) => {
            assert(apq_welcome_bytes(w).skip(1) =~= welcome_bytes(t) + welcome_bytes(w.pq_welcome)
                + apq_info_bytes(w.apq_info) + psk_part(w));
        },
    }
    if let Some(p) = w.initial_apq_psk_id {
        assert(psk_part(w).skip(1) =~= psk_id_bytes(p));
    }
}

} // verus!
