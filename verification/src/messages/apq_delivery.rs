//! Messages of paired conversations on the wire.
//!
//! A message says to which session it belongs. The two halves of a FULL commit
//! travel together, and have to be declared PQ first: the T half cannot be processed
//! before the PQ half.
use crate::credentials::device_capability::wide_prefix_len;
use crate::messages::delivery_service::SessionSide;
use crate::text::{decimal, push_decimal};
use crate::tls::{
    be_bytes, byte_strings_have_one_form, get_u64, get_u8, get_vector, integer_round_trip,
    integers_have_one_form, lemma_assoc, lemma_be_bytes_len,
    lemma_int_consumes, lemma_one_byte, lemma_pow256, lemma_vector_consumes, lemma_vector_len, put_u64, put_u8,
    read_int_spec, read_vector_spec, try_put_vector, vector_bytes, vector_round_trip, Decoded,
    ReadError, ReadErrorView, TlsError, TlsErrorView, VLBytes, MAX_VECTOR_LENGTH,
};
use crate::wire::Wire;
use vstd::prelude::*;
use vstd::string::*;

verus! {

/// In which order two halves have to arrive.
#[derive(Debug, Clone, Copy, PartialEq, Eq, Hash, Structural)]
pub enum ApqDeliveryOrder {
    /// The PQ half first.
    PqFirst,
    /// The T half first. No valid FULL commit says so.
    TFirst,
    /// In any order.
    Independent,
}

/// The byte of an order on the wire.
pub open spec fn order_byte(order: ApqDeliveryOrder) -> u8 {
    match order {
        ApqDeliveryOrder::PqFirst => 0,
        ApqDeliveryOrder::TFirst => 1,
        ApqDeliveryOrder::Independent => 2,
    }
}

/// The name of an order.
pub open spec fn order_name(order: ApqDeliveryOrder) -> Seq<char> {
    match order {
        ApqDeliveryOrder::PqFirst => "PqFirst"@,
        ApqDeliveryOrder::TFirst => "TFirst"@,
        ApqDeliveryOrder::Independent => "Independent"@,
    }
}

/// What is wrong with a message or a FULL commit.
#[derive(Debug, Clone, Copy, PartialEq, Eq, Structural)]
pub enum ApqOrderingError {
    /// A byte stands for no order.
    InvalidOrder {
        /// The byte.
        value: u8,
    },
    /// A FULL commit is not declared PQ first.
    FullCommitNotPqFirst {
        /// What it is declared as.
        declared: ApqDeliveryOrder,
    },
}

/// The order that a byte stands for.
pub open spec fn order_of_byte(b: u8) -> Result<ApqDeliveryOrder, ApqOrderingError> {
    if b == 0 {
        Ok(ApqDeliveryOrder::PqFirst)
    } else if b == 1 {
        Ok(ApqDeliveryOrder::TFirst)
    } else if b == 2 {
        Ok(ApqDeliveryOrder::Independent)
    } else {
        Err(ApqOrderingError::InvalidOrder { value: b })
    }
}

impl ApqDeliveryOrder {
    /// The byte of the order on the wire.
    pub fn as_byte(self) -> (r: u8)
        ensures
            r == order_byte(self),
    {
        match self {
            ApqDeliveryOrder::PqFirst => 0,
            ApqDeliveryOrder::TFirst => 1,
            ApqDeliveryOrder::Independent => 2,
        }
    }

    /// The order that a byte stands for.
    pub fn from_byte(b: u8) -> (r: Result<Self, ApqOrderingError>)
        ensures
            r == order_of_byte(b),
    {
        match b {
            0 => Ok(ApqDeliveryOrder::PqFirst),
            1 => Ok(ApqDeliveryOrder::TFirst),
            2 => Ok(ApqDeliveryOrder::Independent),
            _ => Err(ApqOrderingError::InvalidOrder { value: b }),
        }
    }

    /// The name of the order.
    pub fn name(self) -> (r: &'static str)
        ensures
            r@ == order_name(self),
    {
        match self {
            ApqDeliveryOrder::PqFirst => "PqFirst",
            ApqDeliveryOrder::TFirst => "TFirst",
            ApqDeliveryOrder::Independent => "Independent",
        }
    }
}

/// The bytes of orders lead back to the orders, and no other byte stands for one.
pub proof fn order_bytes_are_exact(order: ApqDeliveryOrder, b: u8)
    ensures
        order_of_byte(order_byte(order)) == Ok::<ApqDeliveryOrder, ApqOrderingError>(order),
        order_of_byte(b) matches Ok(o) ==> order_byte(o) == b,
{
}

/// The text of an error.
pub open spec fn ordering_error_text(e: ApqOrderingError) -> Seq<char> {
    match e {
        ApqOrderingError::InvalidOrder { value } => "invalid APQ delivery order discriminant "@
            + decimal(value as nat),
        ApqOrderingError::FullCommitNotPqFirst { declared } =>
            "FULL-commit pair must be ordered PqFirst, but ordering was declared as "@
            + order_name(declared),
    }
}

impl ApqOrderingError {
    /// The text of an error.
    pub fn message(&self) -> (r: String)
        ensures
            r@ == ordering_error_text(*self),
    {
        match self {
            ApqOrderingError::InvalidOrder { value } => {
                let mut text: String = "invalid APQ delivery order discriminant ".to_owned();
                push_decimal(&mut text, *value as u64);
                text
            },
            ApqOrderingError::FullCommitNotPqFirst { declared } => {
                let mut text: String =
                    "FULL-commit pair must be ordered PqFirst, but ordering was declared as ".to_owned();
                text.append(declared.name());
                text
            },
        }
    }
}

impl View for ApqDeliveryOrder {
    type V = ApqDeliveryOrder;

    open spec fn view(&self) -> ApqDeliveryOrder {
        *self
    }
}

impl Wire for ApqDeliveryOrder {
    open spec fn wire_bytes(v: ApqDeliveryOrder) -> Seq<u8> {
        be_bytes(order_byte(v) as nat, 1)
    }

    open spec fn wire_ok(v: ApqDeliveryOrder) -> bool {
        true
    }

    open spec fn wire_begun(v: ApqDeliveryOrder) -> Seq<u8> {
        Seq::empty()
    }

    open spec fn wire_read(s: Seq<u8>) -> Decoded<ApqDeliveryOrder> {
        match read_int_spec(s, 1) {
            Err(e) => Err(e),
            Ok((b, rest)) => match order_of_byte(b as u8) {
                Ok(order) => Ok((order, rest)),
                Err(e) => Err(
                    ReadErrorView {
                        error: TlsErrorView::DecodingError(ordering_error_text(e)),
                        unread: rest,
                    },
                ),
            },
        }
    }

    proof fn wire_round_trip(v: ApqDeliveryOrder, rest: Seq<u8>) {
        lemma_pow256();
        integer_round_trip(order_byte(v) as nat, 1, rest);
    }

    fn put(&self, out: &mut Vec<u8>) -> (r: Result<(), TlsError>) {
        put_u8(out, self.as_byte());
        Ok(())
    }

    fn get(bytes: &[u8]) -> (r: Result<(Self, &[u8]), ReadError<'_>>) {
        match get_u8(bytes) {
            Err(e) => Err(e),
            Ok((b, rest)) => match ApqDeliveryOrder::from_byte(b) {
                Ok(order) => Ok((order, rest)),
                Err(e) => Err(
                    ReadError { error: TlsError::DecodingError(e.message()), unread: rest },
                ),
            },
        }
    }
}

/// A message, encoded, and the session that it belongs to.
#[derive(Debug, PartialEq, Eq)]
pub struct ApqMessage {
    /// The session.
    pub session_side: SessionSide,
    /// The encoded message.
    pub payload: VLBytes,
}

/// An `ApqMessage` with its payload as bytes.
#[verifier::ext_equal]
pub struct ApqMessageView {
    /// See `ApqMessage::session_side`.
    pub session_side: SessionSide,
    /// See `ApqMessage::payload`.
    pub payload: Seq<u8>,
}

impl View for ApqMessage {
    type V = ApqMessageView;

    open spec fn view(&self) -> ApqMessageView {
        ApqMessageView { session_side: self.session_side, payload: self.payload@ }
    }
}

impl Clone for ApqMessage {
    fn clone(&self) -> (r: Self)
        ensures
            r@ == self@,
    {
        ApqMessage { session_side: self.session_side, payload: self.payload.clone() }
    }
}

impl ApqMessage {
    /// A message of a session.
    pub fn new(session_side: SessionSide, payload: Vec<u8>) -> (r: Self)
        ensures
            r@ == (ApqMessageView { session_side, payload: payload@ }),
    {
        ApqMessage { session_side, payload: VLBytes::new(payload) }
    }

    /// A message of the T session.
    pub fn new_t(payload: Vec<u8>) -> (r: Self)
        ensures
            r@ == (ApqMessageView { session_side: SessionSide::T, payload: payload@ }),
    {
        Self::new(SessionSide::T, payload)
    }

    /// A message of the PQ session.
    pub fn new_pq(payload: Vec<u8>) -> (r: Self)
        ensures
            r@ == (ApqMessageView { session_side: SessionSide::Pq, payload: payload@ }),
    {
        Self::new(SessionSide::Pq, payload)
    }

    /// How many bytes the message takes on the wire, however many that are.
    pub(crate) fn wire_size(&self) -> (r: u128)
        ensures
            r == message_bytes(self@).len(),
            r < 0x2_0000_0000_0000_0000,
    {
        proof {
            lemma_be_bytes_len(side_byte(self.session_side) as nat, 1);
            lemma_vector_len(self.payload@);
        }
        let n: usize = self.payload.as_slice().len();
        1 + (wide_prefix_len(n as u128) + n as u128)
    }
}

/// The byte of a session on the wire.
pub open spec fn side_byte(side: SessionSide) -> u8 {
    match side {
        SessionSide::T => 0,
        SessionSide::Pq => 1,
    }
}

/// The session at the front of `s`.
pub open spec fn read_side_spec(s: Seq<u8>) -> Decoded<SessionSide> {
    match read_int_spec(s, 1) {
        Err(e) => Err(e),
        Ok((b, rest)) => if b == 0 {
            Ok((SessionSide::T, rest))
        } else if b == 1 {
            Ok((SessionSide::Pq, rest))
        } else {
            Err(
                ReadErrorView {
                    error: TlsErrorView::DecodingError("invalid SessionSide discriminant"@),
                    unread: rest,
                },
            )
        },
    }
}

/// The byte of a session on the wire.
fn session_side_byte(side: SessionSide) -> (r: u8)
    ensures
        r == side_byte(side),
{
    match side {
        SessionSide::T => 0,
        SessionSide::Pq => 1,
    }
}

/// The session that a byte stands for.
fn session_side_from_byte(b: u8) -> (r: Result<SessionSide, TlsError>)
    ensures
        match r {
            Ok(side) => b == side_byte(side),
            Err(e) => b > 1 && e@ == TlsErrorView::DecodingError(
                "invalid SessionSide discriminant"@,
            ),
        },
{
    match b {
        0 => Ok(SessionSide::T),
        1 => Ok(SessionSide::Pq),
        _ => Err(TlsError::DecodingError("invalid SessionSide discriminant".to_owned())),
    }
}

/// A message on the wire.
pub open spec fn message_bytes(v: ApqMessageView) -> Seq<u8> {
    be_bytes(side_byte(v.session_side) as nat, 1) + vector_bytes(v.payload)
}

/// What is written of a message whose payload is too long.
pub open spec fn message_begun(v: ApqMessageView) -> Seq<u8> {
    be_bytes(side_byte(v.session_side) as nat, 1)
}

/// The message at the front of `s`.
pub open spec fn read_message_spec(s: Seq<u8>) -> Decoded<ApqMessageView> {
    match read_side_spec(s) {
        Err(e) => Err(e),
        Ok((session_side, s)) => match read_vector_spec(s) {
            Err(e) => Err(e),
            Ok((payload, s)) => Ok((ApqMessageView { session_side, payload }, s)),
        },
    }
}

/// What is behind a message is shorter.
pub proof fn lemma_message_consumes(s: Seq<u8>)
    ensures
        read_message_spec(s) matches Ok((_, rest)) ==> rest.len() < s.len(),
{
    lemma_int_consumes(s, 1);
    if let Ok((_, s1)) = read_side_spec(s) {
        lemma_vector_consumes(s1);
    }
}

impl Wire for ApqMessage {
    open spec fn wire_bytes(v: ApqMessageView) -> Seq<u8> {
        message_bytes(v)
    }

    open spec fn wire_ok(v: ApqMessageView) -> bool {
        v.payload.len() <= MAX_VECTOR_LENGTH
    }

    open spec fn wire_begun(v: ApqMessageView) -> Seq<u8> {
        message_begun(v)
    }

    open spec fn wire_read(s: Seq<u8>) -> Decoded<ApqMessageView> {
        read_message_spec(s)
    }

    proof fn wire_round_trip(v: ApqMessageView, rest: Seq<u8>) {
        let b = side_byte(v.session_side) as nat;
        lemma_pow256();
        lemma_assoc(be_bytes(b, 1), vector_bytes(v.payload), rest);
        integer_round_trip(b, 1, vector_bytes(v.payload) + rest);
        vector_round_trip(v.payload, rest);
    }

    fn put(&self, out: &mut Vec<u8>) -> (r: Result<(), TlsError>) {
        let ghost start = out@;
        put_u8(out, session_side_byte(self.session_side));
        if let Err(e) = try_put_vector(out, self.payload.as_slice()) {
            return Err(e);
        }
        proof {
            lemma_assoc(
                start,
                be_bytes(side_byte(self.session_side) as nat, 1),
                vector_bytes(self.payload@),
            );
        }
        Ok(())
    }

    fn get(bytes: &[u8]) -> (r: Result<(Self, &[u8]), ReadError<'_>>) {
        let (b, bytes) = match get_u8(bytes) {
            Ok(x) => x,
            Err(e) => {
                return Err(e);
            },
        };
        let session_side = match session_side_from_byte(b) {
            Ok(side) => side,
            Err(error) => {
                return Err(ReadError { error, unread: bytes });
            },
        };
        match get_vector(bytes) {
            Ok((payload, rest)) => Ok(
                (ApqMessage { session_side, payload: VLBytes::new(payload) }, rest),
            ),
            Err(e) => Err(e),
        }
    }
}

/// The two halves of a FULL commit.
#[derive(Debug, PartialEq, Eq)]
pub struct ApqCommitPair {
    /// What the two halves have in common.
    pub pair_id: u64,
    /// In which order they have to arrive.
    pub declared_order: ApqDeliveryOrder,
    /// The PQ half.
    pub pq_half: ApqMessage,
    /// The T half.
    pub t_half: ApqMessage,
}

/// An `ApqCommitPair` over the views of its halves.
#[verifier::ext_equal]
pub struct CommitPairView {
    /// See `ApqCommitPair::pair_id`.
    pub pair_id: u64,
    /// See `ApqCommitPair::declared_order`.
    pub declared_order: ApqDeliveryOrder,
    /// See `ApqCommitPair::pq_half`.
    pub pq_half: ApqMessageView,
    /// See `ApqCommitPair::t_half`.
    pub t_half: ApqMessageView,
}

impl View for ApqCommitPair {
    type V = CommitPairView;

    open spec fn view(&self) -> CommitPairView {
        CommitPairView {
            pair_id: self.pair_id,
            declared_order: self.declared_order,
            pq_half: self.pq_half@,
            t_half: self.t_half@,
        }
    }
}

impl Clone for ApqCommitPair {
    fn clone(&self) -> (r: Self)
        ensures
            r@ == self@,
    {
        ApqCommitPair {
            pair_id: self.pair_id,
            declared_order: self.declared_order,
            pq_half: self.pq_half.clone(),
            t_half: self.t_half.clone(),
        }
    }
}

/// What is wrong with the order of a FULL commit. Halves with the wrong session count
/// as T first.
pub open spec fn order_validity(v: CommitPairView) -> Result<(), ApqOrderingError> {
    if v.declared_order != ApqDeliveryOrder::PqFirst {
        Err(ApqOrderingError::FullCommitNotPqFirst { declared: v.declared_order })
    } else if v.pq_half.session_side != SessionSide::Pq || v.t_half.session_side
        != SessionSide::T {
        Err(ApqOrderingError::FullCommitNotPqFirst { declared: ApqDeliveryOrder::TFirst })
    } else {
        Ok(())
    }
}

impl ApqCommitPair {
    /// A FULL commit, PQ first.
    pub fn new(pair_id: u64, pq_payload: Vec<u8>, t_payload: Vec<u8>) -> (r: Self)
        ensures
            r@ == (CommitPairView {
                pair_id,
                declared_order: ApqDeliveryOrder::PqFirst,
                pq_half: ApqMessageView { session_side: SessionSide::Pq, payload: pq_payload@ },
                t_half: ApqMessageView { session_side: SessionSide::T, payload: t_payload@ },
            }),
            order_validity(r@) is Ok,
    {
        ApqCommitPair {
            pair_id,
            declared_order: ApqDeliveryOrder::PqFirst,
            pq_half: ApqMessage::new_pq(pq_payload),
            t_half: ApqMessage::new_t(t_payload),
        }
    }

    /// Checks that the FULL commit is declared PQ first and that its halves belong
    /// to the right sessions.
    pub fn validate_order(&self) -> (r: Result<(), ApqOrderingError>)
        ensures
            r == order_validity(self@),
    {
        if self.declared_order != ApqDeliveryOrder::PqFirst {
            return Err(
                ApqOrderingError::FullCommitNotPqFirst { declared: self.declared_order },
            );
        }
        if self.pq_half.session_side != SessionSide::Pq {
            return Err(
                ApqOrderingError::FullCommitNotPqFirst { declared: ApqDeliveryOrder::TFirst },
            );
        }
        if self.t_half.session_side != SessionSide::T {
            return Err(
                ApqOrderingError::FullCommitNotPqFirst { declared: ApqDeliveryOrder::TFirst },
            );
        }
        Ok(())
    }

    /// How many bytes the FULL commit takes on the wire, however many that are.
    pub(crate) fn wire_size(&self) -> (r: u128)
        ensures
            r == pair_wire_bytes(self@).len(),
            r < 0x5_0000_0000_0000_0000,
    {
        proof {
            lemma_be_bytes_len(self.pair_id as nat, 8);
            lemma_be_bytes_len(order_byte(self.declared_order) as nat, 1);
        }
        8 + (1 + (self.pq_half.wire_size() + self.t_half.wire_size()))
    }
}

/// A FULL commit on the wire.
pub open spec fn pair_wire_bytes(v: CommitPairView) -> Seq<u8> {
    be_bytes(v.pair_id as nat, 8) + (be_bytes(order_byte(v.declared_order) as nat, 1) + (
    message_bytes(v.pq_half) + message_bytes(v.t_half)))
}

/// What is written of a FULL commit with a payload that is too long.
pub open spec fn pair_begun(v: CommitPairView) -> Seq<u8> {
    be_bytes(v.pair_id as nat, 8) + (be_bytes(order_byte(v.declared_order) as nat, 1) + (
    if v.pq_half.payload.len() > MAX_VECTOR_LENGTH {
        message_begun(v.pq_half)
    } else {
        message_bytes(v.pq_half) + message_begun(v.t_half)
    }))
}

/// The FULL commit at the front of `s`.
pub open spec fn read_pair_wire_spec(s: Seq<u8>) -> Decoded<CommitPairView> {
    match read_int_spec(s, 8) {
        Err(e) => Err(e),
        Ok((pair_id, s)) => match ApqDeliveryOrder::wire_read(s) {
            Err(e) => Err(e),
            Ok((declared_order, s)) => match read_message_spec(s) {
                Err(e) => Err(e),
                Ok((pq_half, s)) => match read_message_spec(s) {
                    Err(e) => Err(e),
                    Ok((t_half, s)) => Ok(
                        (
                            CommitPairView {
                                pair_id: pair_id as u64,
                                declared_order,
                                pq_half,
                                t_half,
                            },
                            s,
                        ),
                    ),
                },
            },
        },
    }
}

/// What is behind a FULL commit is shorter.
pub proof fn lemma_pair_consumes(s: Seq<u8>)
    ensures
        read_pair_wire_spec(s) matches Ok((_, rest)) ==> rest.len() < s.len(),
{
    lemma_int_consumes(s, 8);
    if let Ok((_, s1)) = read_int_spec(s, 8) {
        lemma_int_consumes(s1, 1);
        if let Ok((_, s2)) = ApqDeliveryOrder::wire_read(s1) {
            lemma_message_consumes(s2);
            if let Ok((_, s3)) = read_message_spec(s2) {
                lemma_message_consumes(s3);
            }
        }
    }
}

impl Wire for ApqCommitPair {
    open spec fn wire_bytes(v: CommitPairView) -> Seq<u8> {
        pair_wire_bytes(v)
    }

    open spec fn wire_ok(v: CommitPairView) -> bool {
        ApqMessage::wire_ok(v.pq_half) && ApqMessage::wire_ok(v.t_half)
    }

    open spec fn wire_begun(v: CommitPairView) -> Seq<u8> {
        pair_begun(v)
    }

    open spec fn wire_read(s: Seq<u8>) -> Decoded<CommitPairView> {
        read_pair_wire_spec(s)
    }

    proof fn wire_round_trip(v: CommitPairView, rest: Seq<u8>) {
        let a = be_bytes(v.pair_id as nat, 8);
        let b = be_bytes(order_byte(v.declared_order) as nat, 1);
        let c = message_bytes(v.pq_half);
        let d = message_bytes(v.t_half);
        lemma_pow256();
        lemma_assoc(a, b + (c + d), rest);
        lemma_assoc(b, c + d, rest);
        lemma_assoc(c, d, rest);
        integer_round_trip(v.pair_id as nat, 8, b + (c + (d + rest)));
        ApqDeliveryOrder::wire_round_trip(v.declared_order, c + (d + rest));
        ApqMessage::wire_round_trip(v.pq_half, d + rest);
        ApqMessage::wire_round_trip(v.t_half, rest);
    }

    fn put(&self, out: &mut Vec<u8>) -> (r: Result<(), TlsError>) {
        let ghost start = out@;
        let ghost a = be_bytes(self.pair_id as nat, 8);
        let ghost b = be_bytes(order_byte(self.declared_order) as nat, 1);
        let ghost c = message_bytes(self.pq_half@);
        let ghost d = message_bytes(self.t_half@);
        put_u64(out, self.pair_id);
        put_u8(out, self.declared_order.as_byte());
        if let Err(e) = self.pq_half.put(out) {
            assert(out@ =~= start + pair_begun(self@));
            return Err(e);
        }
        if let Err(e) = self.t_half.put(out) {
            assert(out@ =~= start + pair_begun(self@));
            return Err(e);
        }
        proof {
            lemma_assoc(start + a + b, c, d);
            lemma_assoc(start + a, b, c + d);
            lemma_assoc(start, a, b + (c + d));
        }
        Ok(())
    }

    fn get(bytes: &[u8]) -> (r: Result<(Self, &[u8]), ReadError<'_>>) {
        let (pair_id, bytes) = match get_u64(bytes) {
            Ok(x) => x,
            Err(e) => {
                return Err(e);
            },
        };
        let (declared_order, bytes) = match ApqDeliveryOrder::get(bytes) {
            Ok(x) => x,
            Err(e) => {
                return Err(e);
            },
        };
        let (pq_half, bytes) = match ApqMessage::get(bytes) {
            Ok(x) => x,
            Err(e) => {
                return Err(e);
            },
        };
        let (t_half, bytes) = match ApqMessage::get(bytes) {
            Ok(x) => x,
            Err(e) => {
                return Err(e);
            },
        };
        Ok((ApqCommitPair { pair_id, declared_order, pq_half, t_half }, bytes))
    }
}

/// A FULL commit is valid exactly when it is declared PQ first, its first half
/// belongs to the PQ session and its second to the T session.
pub proof fn valid_pairs_are_pq_first(v: CommitPairView)
    ensures
        order_validity(v) is Ok <==> v.declared_order == ApqDeliveryOrder::PqFirst
            && v.pq_half.session_side == SessionSide::Pq && v.t_half.session_side == SessionSide::T,
{
}

/// The bytes 0, 1 and 2 stand for PQ first, T first and any order, and every other byte
/// is refused by its value.
pub proof fn bytes_tell_the_order(b: u8)
    ensures
        order_of_byte(b) == Ok::<ApqDeliveryOrder, ApqOrderingError>(ApqDeliveryOrder::PqFirst)
            <==> b == 0,
        order_of_byte(b) == Ok::<ApqDeliveryOrder, ApqOrderingError>(ApqDeliveryOrder::TFirst)
            <==> b == 1,
        order_of_byte(b) == Ok::<ApqDeliveryOrder, ApqOrderingError>(ApqDeliveryOrder::Independent)
            <==> b == 2,
        b > 2 ==> order_of_byte(b) == Err::<ApqDeliveryOrder, ApqOrderingError>(
            ApqOrderingError::InvalidOrder { value: b },
        ),
{
}

/// A FULL commit that is not declared PQ first is refused with what it is declared as,
/// and one with halves of the wrong sessions as T first.
pub proof fn refused_pairs_tell_their_order(v: CommitPairView)
    ensures
        v.declared_order != ApqDeliveryOrder::PqFirst ==> order_validity(v) == Err::<
            (),
            ApqOrderingError,
        >(ApqOrderingError::FullCommitNotPqFirst { declared: v.declared_order }),
        v.declared_order == ApqDeliveryOrder::PqFirst && (v.pq_half.session_side
            == SessionSide::T || v.t_half.session_side == SessionSide::Pq) ==> order_validity(v)
            == Err::<(), ApqOrderingError>(
            ApqOrderingError::FullCommitNotPqFirst { declared: ApqDeliveryOrder::TFirst },
        ),
{
}

/// On the wire a message begins with the byte of its session: 1 for the PQ session and 0
/// for the T session.
pub proof fn messages_begin_with_their_session(v: ApqMessageView)
    ensures
        message_bytes(v).len() > 0,
        message_bytes(v)[0] == 1 <==> v.session_side == SessionSide::Pq,
        message_bytes(v)[0] == 0 <==> v.session_side == SessionSide::T,
        message_bytes(v).skip(1) == vector_bytes(v.payload),
{
    lemma_one_byte(side_byte(v.session_side));
    assert(message_bytes(v).skip(1) =~= vector_bytes(v.payload));
}

/// On the wire a FULL commit is the eight bytes of its identifier, the byte of its order,
/// the PQ half and then the T half.
pub proof fn pairs_carry_the_pq_half_first(v: CommitPairView)
    ensures
        pair_wire_bytes(v).len() > 9,
        pair_wire_bytes(v).take(8) == be_bytes(v.pair_id as nat, 8),
        pair_wire_bytes(v)[8] == order_byte(v.declared_order),
        pair_wire_bytes(v).skip(9) == message_bytes(v.pq_half) + message_bytes(v.t_half),
{
    lemma_be_bytes_len(v.pair_id as nat, 8);
    lemma_one_byte(order_byte(v.declared_order));
    messages_begin_with_their_session(v.pq_half);
    assert(pair_wire_bytes(v).take(8) =~= be_bytes(v.pair_id as nat, 8));
    assert(pair_wire_bytes(v).skip(9) =~= message_bytes(v.pq_half) + message_bytes(v.t_half));
}

/// What reads as a message is the form of that message, and nothing else is. A byte that
/// stands for no session is refused.
pub proof fn messages_have_one_form(s: Seq<u8>)
    ensures
        read_message_spec(s) matches Ok((m, rest)) ==> s == message_bytes(m) + rest
            && m.payload.len() <= MAX_VECTOR_LENGTH,
        s.len() > 0 && s[0] > 1 ==> read_message_spec(s) is Err,
{
    lemma_pow256();
    integers_have_one_form(s, 1);
    if let Ok((b, s1)) = read_int_spec(s, 1) {
        lemma_one_byte(b as u8);
        assert(s[0] == b);
        byte_strings_have_one_form(s1);
        if let Ok((payload, rest)) = read_vector_spec(s1) {
            lemma_assoc(be_bytes(b, 1), vector_bytes(payload), rest);
        }
    }
}

/// What reads as a FULL commit is the form of that FULL commit, and nothing else is.
pub proof fn pairs_have_one_form(s: Seq<u8>)
    ensures
        read_pair_wire_spec(s) matches Ok((v, rest)) ==> s == pair_wire_bytes(v) + rest,
{
    lemma_pow256();
    integers_have_one_form(s, 8);
    if let Ok((id, s1)) = read_int_spec(s, 8) {
        integers_have_one_form(s1, 1);
        if let Ok((b, s2)) = read_int_spec(s1, 1) {
            order_bytes_are_exact(ApqDeliveryOrder::PqFirst, b as u8);
            messages_have_one_form(s2);
            if let Ok((pq, s3)) = read_message_spec(s2) {
                messages_have_one_form(s3);
                if let Ok((t, rest)) = read_message_spec(s3) {
                    let x = be_bytes(id, 8);
                    let y = be_bytes(b, 1);
                    let c = message_bytes(pq);
                    let d = message_bytes(t);
                    lemma_assoc(x, y + (c + d), rest);
                    lemma_assoc(y, c + d, rest);
                    lemma_assoc(c, d, rest);
                }
            }
        }
    }
}

/// Orders are told apart by their names.
pub proof fn names_tell_orders_apart(a: ApqDeliveryOrder, b: ApqDeliveryOrder)
    ensures
        order_name(a) == order_name(b) ==> a == b,
{
    reveal_strlit("PqFirst");
    reveal_strlit("TFirst");
    reveal_strlit("Independent");
    assert("PqFirst"@.len() == 7 && "TFirst"@.len() == 6 && "Independent"@.len() == 11);
}

} // verus!
