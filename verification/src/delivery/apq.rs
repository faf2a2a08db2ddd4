//! Requests and answers around messages of paired conversations.
//!
//! The service carries envelopes. That the PQ half of a FULL commit comes before its
//! T half is not its concern but that of the queue behind it.
use crate::messages::apq_delivery::{
    lemma_message_consumes, lemma_pair_consumes, message_begun, message_bytes, pair_begun,
    pair_wire_bytes, read_message_spec, read_pair_wire_spec, ApqCommitPair, ApqMessage,
    ApqMessageView, CommitPairView,
};
use crate::text::{decimal, push_decimal};
use crate::tls::{
    be_bytes, get_u8, get_vector, integer_round_trip, lemma_assoc, lemma_be_bytes_len,
    lemma_int_consumes, lemma_pow256, put_u8, read_int_spec, read_vector_spec, try_put_vector,
    vector_bytes, vector_round_trip, Decoded, ReadError, ReadErrorView, TlsError, TlsErrorView,
    VLBytes, MAX_VECTOR_LENGTH,
};
use crate::wire::{
    get_list, list_bytes, list_ok, list_round_trip, put_list, read_list_spec, views, Wire,
    WireItem,
};
use vstd::prelude::*;
use vstd::string::*;

verus! {

/// What a client proves to be a client with.
#[derive(Debug, PartialEq, Eq)]
pub struct AuthToken {
    /// The token.
    pub token: VLBytes,
}

impl View for AuthToken {
    type V = Seq<u8>;

    open spec fn view(&self) -> Seq<u8> {
        self.token@
    }
}

impl Wire for AuthToken {
    open spec fn wire_bytes(v: Seq<u8>) -> Seq<u8> {
        vector_bytes(v)
    }

    open spec fn wire_ok(v: Seq<u8>) -> bool {
        v.len() <= MAX_VECTOR_LENGTH
    }

    open spec fn wire_begun(v: Seq<u8>) -> Seq<u8> {
        Seq::empty()
    }

    open spec fn wire_read(s: Seq<u8>) -> Decoded<Seq<u8>> {
        read_vector_spec(s)
    }

    proof fn wire_round_trip(v: Seq<u8>, rest: Seq<u8>) {
        vector_round_trip(v, rest);
    }

    fn put(&self, out: &mut Vec<u8>) -> (r: Result<(), TlsError>) {
        let r = try_put_vector(out, self.token.as_slice());
        assert(old(out)@ + Seq::<u8>::empty() =~= old(out)@);
        r
    }

    fn get(bytes: &[u8]) -> (r: Result<(Self, &[u8]), ReadError<'_>>) {
        match get_vector(bytes) {
            Ok((token, rest)) => Ok((AuthToken { token: VLBytes::new(token) }, rest)),
            Err(e) => Err(e),
        }
    }
}

/// A client sends a message.
#[derive(Debug, PartialEq, Eq)]
pub struct PublishApqMessageRequest {
    /// The message.
    pub message: ApqMessage,
    /// The client's token.
    pub auth_token: AuthToken,
}

impl View for PublishApqMessageRequest {
    type V = (ApqMessageView, Seq<u8>);

    open spec fn view(&self) -> (ApqMessageView, Seq<u8>) {
        (self.message@, self.auth_token@)
    }
}

impl Wire for PublishApqMessageRequest {
    open spec fn wire_bytes(v: (ApqMessageView, Seq<u8>)) -> Seq<u8> {
        message_bytes(v.0) + vector_bytes(v.1)
    }

    open spec fn wire_ok(v: (ApqMessageView, Seq<u8>)) -> bool {
        ApqMessage::wire_ok(v.0) && AuthToken::wire_ok(v.1)
    }

    open spec fn wire_begun(v: (ApqMessageView, Seq<u8>)) -> Seq<u8> {
        if !ApqMessage::wire_ok(v.0) {
            message_begun(v.0)
        } else {
            message_bytes(v.0)
        }
    }

    open spec fn wire_read(s: Seq<u8>) -> Decoded<(ApqMessageView, Seq<u8>)> {
        match read_message_spec(s) {
            Err(e) => Err(e),
            Ok((message, s)) => match read_vector_spec(s) {
                Err(e) => Err(e),
                Ok((token, s)) => Ok(((message, token), s)),
            },
        }
    }

    proof fn wire_round_trip(v: (ApqMessageView, Seq<u8>), rest: Seq<u8>) {
        lemma_assoc(message_bytes(v.0), vector_bytes(v.1), rest);
        ApqMessage::wire_round_trip(v.0, vector_bytes(v.1) + rest);
        vector_round_trip(v.1, rest);
    }

    fn put(&self, out: &mut Vec<u8>) -> (r: Result<(), TlsError>) {
        let ghost start = out@;
        if let Err(e) = self.message.put(out) {
            return Err(e);
        }
        if let Err(e) = self.auth_token.put(out) {
            assert(out@ =~= start + Self::wire_begun(self@));
            return Err(e);
        }
        proof {
            lemma_assoc(start, message_bytes(self.message@), vector_bytes(self.auth_token@));
        }
        Ok(())
    }

    fn get(bytes: &[u8]) -> (r: Result<(Self, &[u8]), ReadError<'_>>) {
        let (message, bytes) = match ApqMessage::get(bytes) {
            Ok(x) => x,
            Err(e) => {
                return Err(e);
            },
        };
        let (auth_token, bytes) = match AuthToken::get(bytes) {
            Ok(x) => x,
            Err(e) => {
                return Err(e);
            },
        };
        Ok((PublishApqMessageRequest { message, auth_token }, bytes))
    }
}

/// A client sends a FULL commit.
#[derive(Debug, PartialEq, Eq)]
pub struct PublishApqCommitPairRequest {
    /// The FULL commit.
    pub pair: ApqCommitPair,
    /// The client's token.
    pub auth_token: AuthToken,
}

impl View for PublishApqCommitPairRequest {
    type V = (CommitPairView, Seq<u8>);

    open spec fn view(&self) -> (CommitPairView, Seq<u8>) {
        (self.pair@, self.auth_token@)
    }
}

impl Wire for PublishApqCommitPairRequest {
    open spec fn wire_bytes(v: (CommitPairView, Seq<u8>)) -> Seq<u8> {
        pair_wire_bytes(v.0) + vector_bytes(v.1)
    }

    open spec fn wire_ok(v: (CommitPairView, Seq<u8>)) -> bool {
        ApqCommitPair::wire_ok(v.0) && AuthToken::wire_ok(v.1)
    }

    open spec fn wire_begun(v: (CommitPairView, Seq<u8>)) -> Seq<u8> {
        if !ApqCommitPair::wire_ok(v.0) {
            pair_begun(v.0)
        } else {
            pair_wire_bytes(v.0)
        }
    }

    open spec fn wire_read(s: Seq<u8>) -> Decoded<(CommitPairView, Seq<u8>)> {
        match read_pair_wire_spec(s) {
            Err(e) => Err(e),
            Ok((pair, s)) => match read_vector_spec(s) {
                Err(e) => Err(e),
                Ok((token, s)) => Ok(((pair, token), s)),
            },
        }
    }

    proof fn wire_round_trip(v: (CommitPairView, Seq<u8>), rest: Seq<u8>) {
        lemma_assoc(pair_wire_bytes(v.0), vector_bytes(v.1), rest);
        ApqCommitPair::wire_round_trip(v.0, vector_bytes(v.1) + rest);
        vector_round_trip(v.1, rest);
    }

    fn put(&self, out: &mut Vec<u8>) -> (r: Result<(), TlsError>) {
        let ghost start = out@;
        if let Err(e) = self.pair.put(out) {
            return Err(e);
        }
        if let Err(e) = self.auth_token.put(out) {
            assert(out@ =~= start + Self::wire_begun(self@));
            return Err(e);
        }
        proof {
            lemma_assoc(start, pair_wire_bytes(self.pair@), vector_bytes(self.auth_token@));
        }
        Ok(())
    }

    fn get(bytes: &[u8]) -> (r: Result<(Self, &[u8]), ReadError<'_>>) {
        let (pair, bytes) = match ApqCommitPair::get(bytes) {
            Ok(x) => x,
            Err(e) => {
                return Err(e);
            },
        };
        let (auth_token, bytes) = match AuthToken::get(bytes) {
            Ok(x) => x,
            Err(e) => {
                return Err(e);
            },
        };
        Ok((PublishApqCommitPairRequest { pair, auth_token }, bytes))
    }
}

/// A message or a FULL commit.
#[derive(Debug, PartialEq, Eq)]
pub enum ApqEnvelope {
    /// A message.
    Message(ApqMessage),
    /// A FULL commit.
    CommitPair(ApqCommitPair),
}

/// An `ApqEnvelope` over the view of what it holds.
pub enum ApqEnvelopeView {
    /// See `ApqEnvelope::Message`.
    Message(ApqMessageView),
    /// See `ApqEnvelope::CommitPair`.
    CommitPair(CommitPairView),
}

impl View for ApqEnvelope {
    type V = ApqEnvelopeView;

    open spec fn view(&self) -> ApqEnvelopeView {
        match self {
            ApqEnvelope::Message(m) => ApqEnvelopeView::Message(m@),
            ApqEnvelope::CommitPair(p) => ApqEnvelopeView::CommitPair(p@),
        }
    }
}

impl Wire for ApqEnvelope {
    open spec fn wire_bytes(v: ApqEnvelopeView) -> Seq<u8> {
        match v {
            ApqEnvelopeView::Message(m) => be_bytes(0, 1) + message_bytes(m),
            ApqEnvelopeView::CommitPair(p) => be_bytes(1, 1) + pair_wire_bytes(p),
        }
    }

    open spec fn wire_ok(v: ApqEnvelopeView) -> bool {
        match v {
            ApqEnvelopeView::Message(m) => ApqMessage::wire_ok(m),
            ApqEnvelopeView::CommitPair(p) => ApqCommitPair::wire_ok(p),
        }
    }

    open spec fn wire_begun(v: ApqEnvelopeView) -> Seq<u8> {
        match v {
            ApqEnvelopeView::Message(m) => be_bytes(0, 1) + message_begun(m),
            ApqEnvelopeView::CommitPair(p) => be_bytes(1, 1) + pair_begun(p),
        }
    }

    open spec fn wire_read(s: Seq<u8>) -> Decoded<ApqEnvelopeView> {
        match read_int_spec(s, 1) {
            Err(e) => Err(e),
            Ok((tag, s)) => if tag == 0 {
                match read_message_spec(s) {
                    Err(e) => Err(e),
                    Ok((m, s)) => Ok((ApqEnvelopeView::Message(m), s)),
                }
            } else if tag == 1 {
                match read_pair_wire_spec(s) {
                    Err(e) => Err(e),
                    Ok((p, s)) => Ok((ApqEnvelopeView::CommitPair(p), s)),
                }
            } else {
                Err(
                    ReadErrorView {
                        error: TlsErrorView::DecodingError(
                            "unknown ApqEnvelope tag "@ + decimal(tag),
                        ),
                        unread: s,
                    },
                )
            },
        }
    }

    proof fn wire_round_trip(v: ApqEnvelopeView, rest: Seq<u8>) {
        lemma_pow256();
        match v {
            ApqEnvelopeView::Message(m) => {
                lemma_assoc(be_bytes(0, 1), message_bytes(m), rest);
                integer_round_trip(0, 1, message_bytes(m) + rest);
                ApqMessage::wire_round_trip(m, rest);
            },
            ApqEnvelopeView::CommitPair(p) => {
                lemma_assoc(be_bytes(1, 1), pair_wire_bytes(p), rest);
                integer_round_trip(1, 1, pair_wire_bytes(p) + rest);
                ApqCommitPair::wire_round_trip(p, rest);
            },
        }
    }

    fn put(&self, out: &mut Vec<u8>) -> (r: Result<(), TlsError>) {
        let ghost start = out@;
        match self {
            ApqEnvelope::Message(m) => {
                put_u8(out, 0);
                proof {
                    lemma_assoc(start, be_bytes(0, 1), message_bytes(m@));
                    lemma_assoc(start, be_bytes(0, 1), message_begun(m@));
                }
                m.put(out)
            },
            ApqEnvelope::CommitPair(p) => {
                put_u8(out, 1);
                proof {
                    lemma_assoc(start, be_bytes(1, 1), pair_wire_bytes(p@));
                    lemma_assoc(start, be_bytes(1, 1), pair_begun(p@));
                }
                p.put(out)
            },
        }
    }

    fn get(bytes: &[u8]) -> (r: Result<(Self, &[u8]), ReadError<'_>>) {
        let (tag, bytes) = match get_u8(bytes) {
            Ok(x) => x,
            Err(e) => {
                return Err(e);
            },
        };
        if tag == 0 {
            match ApqMessage::get(bytes) {
                Ok((m, rest)) => Ok((ApqEnvelope::Message(m), rest)),
                Err(e) => Err(e),
            }
        } else if tag == 1 {
            match ApqCommitPair::get(bytes) {
                Ok((p, rest)) => Ok((ApqEnvelope::CommitPair(p), rest)),
                Err(e) => Err(e),
            }
        } else {
            let mut text: String = "unknown ApqEnvelope tag ".to_owned();
            push_decimal(&mut text, tag as u64);
            Err(ReadError { error: TlsError::DecodingError(text), unread: bytes })
        }
    }
}

impl WireItem for ApqEnvelope {
    proof fn wire_read_consumes(s: Seq<u8>) {
        lemma_int_consumes(s, 1);
        if let Ok((_, s1)) = read_int_spec(s, 1) {
            lemma_message_consumes(s1);
            lemma_pair_consumes(s1);
        }
    }

    fn wire_len(&self) -> (r: u128) {
        proof {
            lemma_be_bytes_len(0, 1);
            lemma_be_bytes_len(1, 1);
        }
        match self {
            ApqEnvelope::Message(m) => 1 + m.wire_size(),
            ApqEnvelope::CommitPair(p) => 1 + p.wire_size(),
        }
    }
}

/// The service hands a client what waits for it, in the order of delivery.
#[derive(Debug, PartialEq, Eq)]
pub struct RecvApqMessagesResponse {
    /// What waits.
    pub envelopes: Vec<ApqEnvelope>,
}

impl View for RecvApqMessagesResponse {
    type V = Seq<ApqEnvelopeView>;

    open spec fn view(&self) -> Seq<ApqEnvelopeView> {
        views(self.envelopes@)
    }
}

impl Wire for RecvApqMessagesResponse {
    open spec fn wire_bytes(v: Seq<ApqEnvelopeView>) -> Seq<u8> {
        list_bytes::<ApqEnvelope>(v)
    }

    open spec fn wire_ok(v: Seq<ApqEnvelopeView>) -> bool {
        list_ok::<ApqEnvelope>(v)
    }

    open spec fn wire_begun(v: Seq<ApqEnvelopeView>) -> Seq<u8> {
        Seq::empty()
    }

    open spec fn wire_read(s: Seq<u8>) -> Decoded<Seq<ApqEnvelopeView>> {
        read_list_spec::<ApqEnvelope>(s)
    }

    proof fn wire_round_trip(v: Seq<ApqEnvelopeView>, rest: Seq<u8>) {
        list_round_trip::<ApqEnvelope>(v, rest);
    }

    fn put(&self, out: &mut Vec<u8>) -> (r: Result<(), TlsError>) {
        let r = put_list(out, self.envelopes.as_slice());
        assert(old(out)@ + Seq::<u8>::empty() =~= old(out)@);
        r
    }

    fn get(bytes: &[u8]) -> (r: Result<(Self, &[u8]), ReadError<'_>>) {
        match get_list::<ApqEnvelope>(bytes) {
            Ok((envelopes, rest)) => Ok((RecvApqMessagesResponse { envelopes }, rest)),
            Err(e) => Err(e),
        }
    }
}

} // verus!
