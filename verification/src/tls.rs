//! The TLS presentation language, as far as the messages of this crate use it.
//!
//! Integers are big-endian. A byte string or a list is preceded by its length
//! in bytes, in the shortest of three forms of one, two or four bytes. The
//! first two bits of the length tell which form it has.
use crate::bytes::copy_bytes;
use crate::text::{decimal, push_decimal};
use crate::types::{ciphersuite_codepoint, ciphersuite_codepoints_are_distinct, Ciphersuite};
use vstd::prelude::*;
use vstd::slice::slice_subrange;
use vstd::string::*;

verus! {

/// The largest length that can be written in front of a byte string.
pub const MAX_VECTOR_LENGTH: usize = 0x3fff_ffff;

/// What encoding or decoding can fail with.
#[derive(Debug, PartialEq, Eq)]
pub enum TlsError {
    /// The length of a vector is invalid.
    InvalidVectorLength,
    /// The bytes do not have the form that was expected.
    DecodingError(String),
    /// The bytes end too early.
    EndOfStream,
    /// Bytes are left over.
    TrailingData,
    /// A number does not stand for any value of an enumeration.
    UnknownValue(u64),
}

/// A `TlsError` with its text as a sequence of characters.
pub enum TlsErrorView {
    /// See `TlsError::InvalidVectorLength`.
    InvalidVectorLength,
    /// See `TlsError::DecodingError`.
    DecodingError(Seq<char>),
    /// See `TlsError::EndOfStream`.
    EndOfStream,
    /// See `TlsError::TrailingData`.
    TrailingData,
    /// See `TlsError::UnknownValue`.
    UnknownValue(u64),
}

impl View for TlsError {
    type V = TlsErrorView;

    open spec fn view(&self) -> TlsErrorView {
        match self {
            TlsError::InvalidVectorLength => TlsErrorView::InvalidVectorLength,
            TlsError::DecodingError(s) => TlsErrorView::DecodingError(s@),
            TlsError::EndOfStream => TlsErrorView::EndOfStream,
            TlsError::TrailingData => TlsErrorView::TrailingData,
            TlsError::UnknownValue(v) => TlsErrorView::UnknownValue(*v),
        }
    }
}

impl Clone for TlsError {
    fn clone(&self) -> (r: Self)
        ensures
            r@ == self@,
    {
        match self {
            TlsError::InvalidVectorLength => TlsError::InvalidVectorLength,
            TlsError::DecodingError(s) => TlsError::DecodingError(s.clone()),
            TlsError::EndOfStream => TlsError::EndOfStream,
            TlsError::TrailingData => TlsError::TrailingData,
            TlsError::UnknownValue(v) => TlsError::UnknownValue(*v),
        }
    }
}

/// Why reading has stopped, and what has not been read then.
#[derive(Debug, PartialEq, Eq)]
pub struct ReadError<'a> {
    /// Why reading has stopped.
    pub error: TlsError,
    /// The bytes that have not been read.
    pub unread: &'a [u8],
}

/// A `ReadError` over the views of what it holds.
#[verifier::ext_equal]
pub struct ReadErrorView {
    /// See `ReadError::error`.
    pub error: TlsErrorView,
    /// See `ReadError::unread`.
    pub unread: Seq<u8>,
}

impl<'a> View for ReadError<'a> {
    type V = ReadErrorView;

    open spec fn view(&self) -> ReadErrorView {
        ReadErrorView { error: self.error@, unread: self.unread@ }
    }
}

/// What decoding the front of a byte string gives: a value and the bytes behind it,
/// or why it has stopped and the bytes that have not been read then.
pub type Decoded<T> = Result<(T, Seq<u8>), ReadErrorView>;

/// The bytes do not suffice. All of them are used up.
pub open spec fn used_up() -> ReadErrorView {
    ReadErrorView { error: TlsErrorView::EndOfStream, unread: Seq::empty() }
}

/// A length that is not valid, written in the first `n` bytes of `s`.
pub open spec fn bad_length(s: Seq<u8>, n: int) -> ReadErrorView {
    ReadErrorView { error: TlsErrorView::InvalidVectorLength, unread: s.skip(n) }
}

/// The number that `s` writes in base 256, most significant byte first.
pub open spec fn be_value(s: Seq<u8>) -> nat
    decreases s.len(),
{
    if s.len() == 0 {
        0
    } else {
        be_value(s.drop_last()) * 256 + s.last() as nat
    }
}

/// The lowest `n` base-256 digits of `v`, most significant first.
pub open spec fn be_bytes(v: nat, n: nat) -> Seq<u8>
    decreases n,
{
    if n == 0 {
        Seq::empty()
    } else {
        be_bytes(v / 256, (n - 1) as nat).push((v % 256) as u8)
    }
}

/// `256` to the power `n`.
pub open spec fn pow256(n: nat) -> nat
    decreases n,
{
    if n == 0 {
        1
    } else {
        256 * pow256((n - 1) as nat)
    }
}

/// Concatenation is associative.
pub proof fn lemma_assoc(a: Seq<u8>, b: Seq<u8>, c: Seq<u8>)
    ensures
        (a + b) + c == a + (b + c),
{
    assert((a + b) + c =~= a + (b + c));
}

/// The length of `be_bytes`.
pub proof fn lemma_be_bytes_len(v: nat, n: nat)
    ensures
        be_bytes(v, n).len() == n,
    decreases n,
{
    if n > 0 {
        lemma_be_bytes_len(v / 256, (n - 1) as nat);
    }
}

/// Reading a number back from its digits gives the number.
pub proof fn be_value_of_be_bytes(v: nat, n: nat)
    requires
        v < pow256(n),
    ensures
        be_value(be_bytes(v, n)) == v,
    decreases n,
{
    if n > 0 {
        assert(v / 256 < pow256((n - 1) as nat)) by (nonlinear_arith)
            requires
                v < 256 * pow256((n - 1) as nat),
        ;
        be_value_of_be_bytes(v / 256, (n - 1) as nat);
        assert(be_bytes(v, n).drop_last() =~= be_bytes(v / 256, (n - 1) as nat));
    }
}

/// The powers that matter for integers of two, four and eight bytes.
pub proof fn lemma_pow256()
    ensures
        pow256(1) == 0x100,
        pow256(2) == 0x1_0000,
        pow256(4) == 0x1_0000_0000,
        pow256(8) == 0x1_0000_0000_0000_0000,
{
    reveal_with_fuel(pow256, 9);
}

/// The length prefix of a vector of `n` bytes.
pub open spec fn length_prefix(n: nat) -> Seq<u8> {
    if n <= 0x3f {
        be_bytes(n, 1)
    } else if n <= 0x3fff {
        be_bytes(0x4000 + n, 2)
    } else {
        be_bytes(0x8000_0000 + n, 4)
    }
}

/// How many bytes the length prefix of a vector of `n` bytes has.
pub open spec fn length_prefix_len(n: nat) -> nat {
    if n <= 0x3f {
        1
    } else if n <= 0x3fff {
        2
    } else {
        4
    }
}

/// A byte string preceded by its length.
#[verifier::opaque]
pub open spec fn vector_bytes(content: Seq<u8>) -> Seq<u8> {
    length_prefix(content.len()) + content
}

/// The length written at the front of `s`, and how many bytes it takes.
pub open spec fn read_length_spec(s: Seq<u8>) -> Result<(nat, nat), ReadErrorView> {
    if s.len() == 0 {
        Err(bad_length(s, 0))
    } else if s[0] >= 0xc0 {
        Err(bad_length(s, 1))
    } else if s[0] < 0x40 {
        Ok((s[0] as nat, 1nat))
    } else if s[0] < 0x80 {
        if s.len() < 2 {
            Err(used_up())
        } else {
            let n = be_value(s.take(2)) - 0x4000;
            if n <= 0x3f {
                Err(bad_length(s, 2))
            } else {
                Ok((n as nat, 2nat))
            }
        }
    } else {
        if s.len() < 4 {
            Err(used_up())
        } else {
            let n = be_value(s.take(4)) - 0x8000_0000;
            if n <= 0x3fff {
                Err(bad_length(s, 4))
            } else {
                Ok((n as nat, 4nat))
            }
        }
    }
}

/// The integer of `n` bytes at the front of `s`.
#[verifier::opaque]
pub open spec fn read_int_spec(s: Seq<u8>, n: nat) -> Decoded<nat> {
    if s.len() < n {
        Err(used_up())
    } else {
        Ok((be_value(s.take(n as int)), s.skip(n as int)))
    }
}

/// The byte string at the front of `s`.
#[verifier::opaque]
pub open spec fn read_vector_spec(s: Seq<u8>) -> Decoded<Seq<u8>> {
    match read_length_spec(s) {
        Err(e) => Err(e),
        Ok((n, h)) => if s.len() < h + n {
            Err(used_up())
        } else {
            Ok((s.subrange(h as int, (h + n) as int), s.skip((h + n) as int)))
        },
    }
}

/// The byte string at the front of `s`, as a slice decoder reads it: an empty
/// input and a string that is cut off are reported in their own way.
#[verifier::opaque]
pub open spec fn read_vector_from_slice_spec(s: Seq<u8>) -> Decoded<Seq<u8>> {
    if s.len() == 0 {
        Err(used_up())
    } else {
        match read_length_spec(s) {
            Err(e) => Err(e),
            Ok((n, h)) => if s.len() < h + n {
                Err(
                    ReadErrorView {
                        error: TlsErrorView::DecodingError(
                            decimal((s.len() - h) as nat) + " bytes were read but "@ + decimal(n)
                                + " were expected"@,
                        ),
                        unread: s.skip(h as int),
                    },
                )
            } else {
                Ok((s.subrange(h as int, (h + n) as int), s.skip((h + n) as int)))
            },
        }
    }
}

/// A number below 256 to the `n` reads back from its encoding in `n` bytes,
/// whatever follows.
pub proof fn integer_round_trip(v: nat, n: nat, rest: Seq<u8>)
    requires
        v < pow256(n),
    ensures
        read_int_spec(be_bytes(v, n) + rest, n) == Ok::<(nat, Seq<u8>), ReadErrorView>((v, rest)),
{
    reveal(read_int_spec);
    lemma_be_bytes_len(v, n);
    be_value_of_be_bytes(v, n);
    let s = be_bytes(v, n) + rest;
    assert(s.take(n as int) =~= be_bytes(v, n));
    assert(s.skip(n as int) =~= rest);
}

/// The length of a length prefix.
pub proof fn lemma_length_prefix_len(n: nat)
    ensures
        length_prefix(n).len() == length_prefix_len(n),
{
    lemma_be_bytes_len(n, 1);
    lemma_be_bytes_len(0x4000 + n, 2);
    lemma_be_bytes_len(0x8000_0000 + n, 4);
}

/// The length of a byte string with its length in front.
pub proof fn lemma_vector_len(content: Seq<u8>)
    ensures
        vector_bytes(content).len() == length_prefix_len(content.len()) + content.len(),
{
    reveal(vector_bytes);
    lemma_length_prefix_len(content.len());
}

/// A length reads back from its prefix, whatever follows.
pub proof fn lemma_length_round_trip(n: nat, rest: Seq<u8>)
    requires
        n <= MAX_VECTOR_LENGTH,
    ensures
        length_prefix(n).len() == length_prefix_len(n),
        read_length_spec(length_prefix(n) + rest) == Ok::<(nat, nat), ReadErrorView>(
            (n, length_prefix_len(n)),
        ),
{
    lemma_pow256();
    let s = length_prefix(n) + rest;
    if n <= 0x3f {
        lemma_be_bytes_len(n, 1);
        be_value_of_be_bytes(n, 1);
        assert(be_bytes(n, 1) =~= seq![n as u8]) by {
            reveal_with_fuel(be_bytes, 2);
        }
    } else if n <= 0x3fff {
        let v = 0x4000 + n;
        lemma_be_bytes_len(v, 2);
        be_value_of_be_bytes(v, 2);
        assert(s.take(2) =~= be_bytes(v, 2));
        assert(be_bytes(v, 2) =~= seq![(v / 256) as u8, (v % 256) as u8]) by {
            reveal_with_fuel(be_bytes, 3);
        }
        assert(s[0] == (v / 256) as u8);
    } else {
        let v = 0x8000_0000 + n;
        lemma_be_bytes_len(v, 4);
        be_value_of_be_bytes(v, 4);
        assert(s.take(4) =~= be_bytes(v, 4));
        assert(be_bytes(v, 4)[0] == (v / 256 / 256 / 256) as u8) by {
            reveal_with_fuel(be_bytes, 5);
        }
        assert(s[0] == (v / 256 / 256 / 256) as u8);
    }
}

/// A byte string reads back from its encoding, whatever follows, with either
/// decoder.
pub proof fn vector_round_trip(content: Seq<u8>, rest: Seq<u8>)
    requires
        content.len() <= MAX_VECTOR_LENGTH,
    ensures
        read_vector_spec(vector_bytes(content) + rest) == Ok::<(Seq<u8>, Seq<u8>), ReadErrorView>(
            (content, rest),
        ),
        read_vector_from_slice_spec(vector_bytes(content) + rest) == Ok::<
            (Seq<u8>, Seq<u8>),
            ReadErrorView,
        >((content, rest)),
{
    reveal(vector_bytes);
    reveal(read_vector_spec);
    reveal(read_vector_from_slice_spec);
    let s = vector_bytes(content) + rest;
    let h = length_prefix_len(content.len());
    lemma_length_round_trip(content.len(), content + rest);
    assert(s =~= length_prefix(content.len()) + (content + rest));
    assert(s.subrange(h as int, (h + content.len()) as int) =~= content);
    assert(s.skip((h + content.len()) as int) =~= rest);
}

/// Appends one byte (`tls_codec::Serialize` for `u8`): it writes the byte as it
/// is, and writing to a `Vec` does not fail.
#[verifier::external_body]
pub(crate) fn put_u8(out: &mut Vec<u8>, v: u8)
    ensures
        final(out)@ == old(out)@ + be_bytes(v as nat, 1),
{
    tls_codec::Serialize::tls_serialize(&v, out).unwrap();
}

/// Appends a 16-bit integer (`tls_codec::Serialize` for `u16`): it writes the two
/// bytes most significant first, and writing to a `Vec` does not fail.
#[verifier::external_body]
pub(crate) fn put_u16(out: &mut Vec<u8>, v: u16)
    ensures
        final(out)@ == old(out)@ + be_bytes(v as nat, 2),
{
    tls_codec::Serialize::tls_serialize(&v, out).unwrap();
}

/// Appends a 64-bit integer (`tls_codec::Serialize` for `u64`): it writes the
/// eight bytes most significant first, and writing to a `Vec` does not fail.
#[verifier::external_body]
pub(crate) fn put_u64(out: &mut Vec<u8>, v: u64)
    ensures
        final(out)@ == old(out)@ + be_bytes(v as nat, 8),
{
    tls_codec::Serialize::tls_serialize(&v, out).unwrap();
}

/// Appends a length prefix (`tls_codec::vlen::write_length`): the shortest of the
/// three forms. Longer lengths are left out: they fail an assertion there.
#[verifier::external_body]
pub(crate) fn put_length(out: &mut Vec<u8>, n: usize)
    requires
        n <= MAX_VECTOR_LENGTH,
    ensures
        final(out)@ == old(out)@ + length_prefix(n as nat),
{
    tls_codec::vlen::write_length(out, n).unwrap();
}

/// Appends a byte string with its length (`tls_codec::Serialize` for
/// `tls_codec::VLBytes`). Longer strings are left out: they fail an assertion
/// there.
#[verifier::external_body]
pub(crate) fn put_vector(out: &mut Vec<u8>, content: &[u8])
    requires
        content@.len() <= MAX_VECTOR_LENGTH,
    ensures
        final(out)@ == old(out)@ + vector_bytes(content@),
{
    tls_codec::Serialize::tls_serialize(&tls_codec::VLByteSlice(content), out).unwrap();
}

/// Reads one byte (`tls_codec::DeserializeBytes` for `u8`): it fails with
/// `EndOfStream` exactly when there is none.
#[verifier::external_body]
fn decode_u8(bytes: &[u8]) -> (r: Result<(u8, &[u8]), TlsError>)
    ensures
        match (r, read_int_spec(bytes@, 1)) {
            (Ok((v, rest)), Ok((n, s))) => v == n && rest@ == s,
            (Err(e), Err(f)) => e@ == f.error,
            _ => false,
        },
{
    <u8 as tls_codec::DeserializeBytes>::tls_deserialize_bytes(bytes).map_err(
        |_| TlsError::EndOfStream,
    )
}

/// Reads a 16-bit integer (`tls_codec::DeserializeBytes` for `u16`): it fails
/// with `EndOfStream` exactly when there are fewer than two bytes.
#[verifier::external_body]
fn decode_u16(bytes: &[u8]) -> (r: Result<(u16, &[u8]), TlsError>)
    ensures
        match (r, read_int_spec(bytes@, 2)) {
            (Ok((v, rest)), Ok((n, s))) => v == n && rest@ == s,
            (Err(e), Err(f)) => e@ == f.error,
            _ => false,
        },
{
    <u16 as tls_codec::DeserializeBytes>::tls_deserialize_bytes(bytes).map_err(
        |_| TlsError::EndOfStream,
    )
}

/// Reads a 64-bit integer (`tls_codec::DeserializeBytes` for `u64`): it fails
/// with `EndOfStream` exactly when there are fewer than eight bytes.
#[verifier::external_body]
fn decode_u64(bytes: &[u8]) -> (r: Result<(u64, &[u8]), TlsError>)
    ensures
        match (r, read_int_spec(bytes@, 8)) {
            (Ok((v, rest)), Ok((n, s))) => v == n && rest@ == s,
            (Err(e), Err(f)) => e@ == f.error,
            _ => false,
        },
{
    <u64 as tls_codec::DeserializeBytes>::tls_deserialize_bytes(bytes).map_err(
        |_| TlsError::EndOfStream,
    )
}

/// Reads a length prefix (`tls_codec::vlen::read_length`) and returns the length
/// and the bytes behind the prefix. A first byte that announces a fourth form is
/// left out: it fails an assertion there.
#[verifier::external_body]
fn get_length_checked(bytes: &[u8]) -> (r: Result<(usize, &[u8]), TlsError>)
    requires
        bytes@.len() > 0 ==> bytes@[0] < 0xc0,
    ensures
        match (r, read_length_spec(bytes@)) {
            (Ok((v, rest)), Ok((n, h))) => v == n && rest@ == bytes@.skip(h as int),
            (Err(e), Err(f)) => e@ == f.error,
            _ => false,
        },
{
    let mut rest = bytes;
    match tls_codec::vlen::read_length(&mut rest) {
        Ok((length, _)) => Ok((length, rest)),
        Err(tls_codec::Error::EndOfStream) => Err(TlsError::EndOfStream),
        Err(_) => Err(TlsError::InvalidVectorLength),
    }
}

/// Reads a byte string (`tls_codec::Deserialize` for `tls_codec::VLBytes`) and
/// returns it with the bytes behind it. A first byte that announces a fourth form
/// of length is left out: it fails an assertion there.
#[verifier::external_body]
fn get_vector_checked(bytes: &[u8]) -> (r: Result<(Vec<u8>, &[u8]), TlsError>)
    requires
        bytes@.len() > 0 ==> bytes@[0] < 0xc0,
    ensures
        match (r, read_vector_spec(bytes@)) {
            (Ok((v, rest)), Ok((c, s))) => v@ == c && rest@ == s,
            (Err(e), Err(f)) => e@ == f.error,
            _ => false,
        },
{
    let mut rest = bytes;
    match <tls_codec::VLBytes as tls_codec::Deserialize>::tls_deserialize(&mut rest) {
        Ok(v) => Ok((v.into(), rest)),
        Err(tls_codec::Error::EndOfStream) => Err(TlsError::EndOfStream),
        Err(_) => Err(TlsError::InvalidVectorLength),
    }
}

/// Reads a byte string (`tls_codec::DeserializeBytes` for `tls_codec::VLBytes`)
/// and returns it with the bytes behind it. Inputs that it does not decode are
/// left out: most of them fail an assertion there.
#[verifier::external_body]
fn get_vector_from_slice_checked(bytes: &[u8]) -> (r: (Vec<u8>, &[u8]))
    requires
        read_vector_from_slice_spec(bytes@) is Ok,
    ensures
        (r.0@, r.1@) == read_vector_from_slice_spec(bytes@)->Ok_0,
{
    let (v, rest) = <tls_codec::VLBytes as tls_codec::DeserializeBytes>::tls_deserialize_bytes(
        bytes,
    ).unwrap();
    (v.into(), rest)
}

/// The bytes behind the first `n`, if there are any.
fn behind(bytes: &[u8], n: usize) -> (r: &[u8])
    ensures
        r@ == (if n <= bytes@.len() {
            bytes@.skip(n as int)
        } else {
            Seq::<u8>::empty()
        }),
{
    let from: usize = if n <= bytes.len() {
        n
    } else {
        bytes.len()
    };
    let r = slice_subrange(bytes, from, bytes.len());
    assert(r@ =~= bytes@.skip(from as int));
    r
}

/// All of `bytes` are used up, with the given error.
fn all_read(bytes: &[u8], error: TlsError) -> (r: ReadError<'_>)
    ensures
        r@ == (ReadErrorView { error: error@, unread: Seq::empty() }),
{
    let unread = behind(bytes, bytes.len());
    assert(unread@ =~= Seq::<u8>::empty());
    ReadError { error, unread }
}

/// Reads one byte. Returns it with the bytes behind it.
pub(crate) fn get_u8(bytes: &[u8]) -> (r: Result<(u8, &[u8]), ReadError<'_>>)
    ensures
        match (r, read_int_spec(bytes@, 1)) {
            (Ok((v, rest)), Ok((n, s))) => v == n && rest@ == s,
            (Err(e), Err(f)) => e@ == f,
            _ => false,
        },
{
    proof {
        reveal(read_int_spec);
    }
    match decode_u8(bytes) {
        Ok(x) => Ok(x),
        Err(error) => Err(all_read(bytes, error)),
    }
}

/// Reads a 16-bit integer. Returns it with the bytes behind it.
pub(crate) fn get_u16(bytes: &[u8]) -> (r: Result<(u16, &[u8]), ReadError<'_>>)
    ensures
        match (r, read_int_spec(bytes@, 2)) {
            (Ok((v, rest)), Ok((n, s))) => v == n && rest@ == s,
            (Err(e), Err(f)) => e@ == f,
            _ => false,
        },
{
    proof {
        reveal(read_int_spec);
    }
    match decode_u16(bytes) {
        Ok(x) => Ok(x),
        Err(error) => Err(all_read(bytes, error)),
    }
}

/// Reads a 64-bit integer. Returns it with the bytes behind it.
pub(crate) fn get_u64(bytes: &[u8]) -> (r: Result<(u64, &[u8]), ReadError<'_>>)
    ensures
        match (r, read_int_spec(bytes@, 8)) {
            (Ok((v, rest)), Ok((n, s))) => v == n && rest@ == s,
            (Err(e), Err(f)) => e@ == f,
            _ => false,
        },
{
    proof {
        reveal(read_int_spec);
    }
    match decode_u64(bytes) {
        Ok(x) => Ok(x),
        Err(error) => Err(all_read(bytes, error)),
    }
}

/// Reads a length prefix. Returns the length and the bytes behind the prefix.
pub fn get_length(bytes: &[u8]) -> (r: Result<(usize, &[u8]), ReadError<'_>>)
    ensures
        match (r, read_length_spec(bytes@)) {
            (Ok((v, rest)), Ok((n, h))) => v == n && rest@ == bytes@.skip(h as int),
            (Err(e), Err(f)) => e@ == f,
            _ => false,
        },
{
    if bytes.len() > 0 && bytes[0] >= 0xc0 {
        return Err(
            ReadError { error: TlsError::InvalidVectorLength, unread: behind(bytes, 1) },
        );
    }
    match get_length_checked(bytes) {
        Ok(x) => Ok(x),
        Err(error) => {
            let prefix: usize = if bytes.len() == 0 {
                0
            } else if bytes[0] < 0x80 {
                2
            } else {
                4
            };
            Err(ReadError { error, unread: behind(bytes, prefix) })
        },
    }
}

/// Reads a byte string. Returns it with the bytes behind it.
pub fn get_vector(bytes: &[u8]) -> (r: Result<(Vec<u8>, &[u8]), ReadError<'_>>)
    ensures
        match (r, read_vector_spec(bytes@)) {
            (Ok((v, rest)), Ok((c, s))) => v@ == c && rest@ == s,
            (Err(e), Err(f)) => e@ == f,
            _ => false,
        },
{
    proof {
        reveal(read_vector_spec);
    }
    if let Err(e) = get_length(bytes) {
        return Err(e);
    }
    match get_vector_checked(bytes) {
        Ok(x) => Ok(x),
        Err(error) => Err(all_read(bytes, error)),
    }
}

/// Reads a byte string as a slice decoder does. Returns it with the bytes behind
/// it.
pub fn get_vector_from_slice(bytes: &[u8]) -> (r: Result<(Vec<u8>, &[u8]), ReadError<'_>>)
    ensures
        match (r, read_vector_from_slice_spec(bytes@)) {
            (Ok((v, rest)), Ok((c, s))) => v@ == c && rest@ == s,
            (Err(e), Err(f)) => e@ == f,
            _ => false,
        },
{
    proof {
        reveal(read_vector_from_slice_spec);
    }
    if bytes.len() == 0 {
        return Err(all_read(bytes, TlsError::EndOfStream));
    }
    match get_length(bytes) {
        Err(e) => Err(e),
        Ok((length, rest)) => {
            if rest.len() < length {
                let mut text: String = String::new();
                push_decimal(&mut text, rest.len() as u64);
                text.append(" bytes were read but ");
                push_decimal(&mut text, length as u64);
                text.append(" were expected");
                proof {
                    let n = rest@.len();
                    assert(text@ =~= decimal(n) + " bytes were read but "@ + decimal(length as nat)
                        + " were expected"@);
                }
                return Err(ReadError { error: TlsError::DecodingError(text), unread: rest });
            }
            Ok(get_vector_from_slice_checked(bytes))
        },
    }
}

/// Appends a byte string with its length, unless it is too long.
pub(crate) fn try_put_vector(out: &mut Vec<u8>, content: &[u8]) -> (r: Result<(), TlsError>)
    ensures
        match r {
            Ok(_) => content@.len() <= MAX_VECTOR_LENGTH && final(out)@ == old(out)@ + vector_bytes(
                content@,
            ),
            Err(e) => content@.len() > MAX_VECTOR_LENGTH && e@ == TlsErrorView::InvalidVectorLength
                && final(out)@ == old(out)@,
        },
{
    if content.len() > MAX_VECTOR_LENGTH {
        return Err(TlsError::InvalidVectorLength);
    }
    put_vector(out, content);
    Ok(())
}

/// The suite that has the codepoint `v`, if there is one.
pub open spec fn suite_with_codepoint(v: nat) -> Option<Ciphersuite> {
    if exists|cs: Ciphersuite| #[trigger] ciphersuite_codepoint(cs) == v {
        Some(choose|cs: Ciphersuite| #[trigger] ciphersuite_codepoint(cs) == v)
    } else {
        None
    }
}

/// The codepoint of a suite leads back to the suite.
pub proof fn lemma_suite_with_codepoint(cs: Ciphersuite)
    ensures
        suite_with_codepoint(ciphersuite_codepoint(cs) as nat) == Some(cs),
{
    let v = ciphersuite_codepoint(cs) as nat;
    let c = choose|c: Ciphersuite| #[trigger] ciphersuite_codepoint(c) == v;
    assert(ciphersuite_codepoint(c) == v);
    ciphersuite_codepoints_are_distinct(c, cs);
}

/// The ciphersuite at the front of `s`.
pub open spec fn read_suite_spec(s: Seq<u8>) -> Decoded<Ciphersuite> {
    match read_int_spec(s, 2) {
        Err(e) => Err(e),
        Ok((v, rest)) => match suite_with_codepoint(v) {
            Some(cs) => Ok((cs, rest)),
            None => Err(
                ReadErrorView { error: TlsErrorView::UnknownValue(v as u64), unread: rest },
            ),
        },
    }
}

/// The `n` ciphersuites at the front of `s`.
pub open spec fn read_suites_spec(s: Seq<u8>, n: nat) -> Decoded<Seq<Ciphersuite>>
    decreases n,
{
    if n == 0 {
        Ok((Seq::empty(), s))
    } else {
        match read_suite_spec(s) {
            Err(e) => Err(e),
            Ok((cs, rest)) => match read_suites_spec(rest, (n - 1) as nat) {
                Err(e) => Err(e),
                Ok((more, behind)) => Ok((seq![cs] + more, behind)),
            },
        }
    }
}

/// The list of ciphersuites at the front of `s`. Elements are read until they
/// take up at least the announced number of bytes.
#[verifier::opaque]
pub open spec fn read_suite_list_spec(s: Seq<u8>) -> Decoded<Seq<Ciphersuite>> {
    match read_length_spec(s) {
        Err(e) => Err(e),
        Ok((n, h)) => read_suites_spec(s.skip(h as int), (n + 1) / 2),
    }
}

/// The list of ciphersuites at the front of `s`, as a slice decoder reads it: an
/// empty input is reported in its own way.
#[verifier::opaque]
pub open spec fn read_suite_list_from_slice_spec(s: Seq<u8>) -> Decoded<Seq<Ciphersuite>> {
    if s.len() == 0 {
        Err(used_up())
    } else {
        read_suite_list_spec(s)
    }
}

/// The codepoints of `list`, one after the other.
pub open spec fn suites_bytes(list: Seq<Ciphersuite>) -> Seq<u8>
    decreases list.len(),
{
    if list.len() == 0 {
        Seq::empty()
    } else {
        be_bytes(ciphersuite_codepoint(list[0]) as nat, 2) + suites_bytes(list.skip(1))
    }
}

/// A list of ciphersuites preceded by its length in bytes.
#[verifier::opaque]
pub open spec fn suite_list_bytes(list: Seq<Ciphersuite>) -> Seq<u8> {
    length_prefix(2 * list.len()) + suites_bytes(list)
}

/// Each suite takes two bytes.
pub proof fn lemma_suites_bytes_len(list: Seq<Ciphersuite>)
    ensures
        suites_bytes(list).len() == 2 * list.len(),
    decreases list.len(),
{
    if list.len() > 0 {
        lemma_be_bytes_len(ciphersuite_codepoint(list[0]) as nat, 2);
        lemma_suites_bytes_len(list.skip(1));
    }
}

/// The length of a list of suites with its length in front.
pub proof fn lemma_suite_list_len(list: Seq<Ciphersuite>)
    ensures
        suite_list_bytes(list).len() == length_prefix_len(2 * list.len()) + 2 * list.len(),
{
    reveal(suite_list_bytes);
    lemma_length_prefix_len(2 * list.len());
    lemma_suites_bytes_len(list);
}

/// One more suite at the end adds its codepoint at the end.
proof fn lemma_suites_bytes_push(list: Seq<Ciphersuite>, cs: Ciphersuite)
    ensures
        suites_bytes(list.push(cs)) == suites_bytes(list) + be_bytes(
            ciphersuite_codepoint(cs) as nat,
            2,
        ),
    decreases list.len(),
{
    let all = list.push(cs);
    let last = be_bytes(ciphersuite_codepoint(cs) as nat, 2);
    if list.len() == 0 {
        assert(all.skip(1) =~= Seq::<Ciphersuite>::empty());
        assert(suites_bytes(all.skip(1)) =~= Seq::<u8>::empty());
        assert(suites_bytes(all) =~= last);
        assert(suites_bytes(list) + last =~= last);
    } else {
        assert(all.skip(1) =~= list.skip(1).push(cs));
        lemma_suites_bytes_push(list.skip(1), cs);
        let first = be_bytes(ciphersuite_codepoint(list[0]) as nat, 2);
        assert(suites_bytes(all) =~= first + (suites_bytes(list.skip(1)) + last));
        assert(suites_bytes(list) + last =~= first + (suites_bytes(list.skip(1)) + last));
    }
}

/// Suites read back from their codepoints, whatever follows.
proof fn lemma_suites_round_trip(list: Seq<Ciphersuite>, rest: Seq<u8>)
    ensures
        read_suites_spec(suites_bytes(list) + rest, list.len()) == Ok::<
            (Seq<Ciphersuite>, Seq<u8>),
            ReadErrorView,
        >((list, rest)),
    decreases list.len(),
{
    if list.len() == 0 {
        assert(suites_bytes(list) + rest =~= rest);
        assert(list =~= Seq::empty());
    } else {
        let v = ciphersuite_codepoint(list[0]) as nat;
        let behind = suites_bytes(list.skip(1)) + rest;
        assert(suites_bytes(list) + rest =~= be_bytes(v, 2) + behind);
        lemma_pow256();
        integer_round_trip(v, 2, behind);
        lemma_suite_with_codepoint(list[0]);
        lemma_suites_round_trip(list.skip(1), rest);
        assert(seq![list[0]] + list.skip(1) =~= list);
    }
}

/// A ciphersuite reads back from its codepoint, whatever follows.
pub proof fn suite_round_trip(cs: Ciphersuite, rest: Seq<u8>)
    ensures
        read_suite_spec(be_bytes(ciphersuite_codepoint(cs) as nat, 2) + rest) == Ok::<
            (Ciphersuite, Seq<u8>),
            ReadErrorView,
        >((cs, rest)),
{
    lemma_pow256();
    integer_round_trip(ciphersuite_codepoint(cs) as nat, 2, rest);
    lemma_suite_with_codepoint(cs);
}

/// A list of ciphersuites reads back from its encoding, whatever follows, with
/// either decoder.
pub proof fn suite_list_round_trip(list: Seq<Ciphersuite>, rest: Seq<u8>)
    requires
        2 * list.len() <= MAX_VECTOR_LENGTH,
    ensures
        read_suite_list_spec(suite_list_bytes(list) + rest) == Ok::<
            (Seq<Ciphersuite>, Seq<u8>),
            ReadErrorView,
        >((list, rest)),
        read_suite_list_from_slice_spec(suite_list_bytes(list) + rest) == Ok::<
            (Seq<Ciphersuite>, Seq<u8>),
            ReadErrorView,
        >((list, rest)),
{
    reveal(suite_list_bytes);
    reveal(read_suite_list_spec);
    reveal(read_suite_list_from_slice_spec);
    let behind = suites_bytes(list) + rest;
    let n = 2 * list.len();
    let s = suite_list_bytes(list) + rest;
    assert(s =~= length_prefix(n) + behind);
    lemma_length_round_trip(n, behind);
    assert(s.skip(length_prefix_len(n) as int) =~= behind);
    lemma_suites_round_trip(list, rest);
    assert((n + 1) / 2 == list.len());
}

/// Reads a ciphersuite.
pub fn get_suite(bytes: &[u8]) -> (r: Result<(Ciphersuite, &[u8]), ReadError<'_>>)
    ensures
        match (r, read_suite_spec(bytes@)) {
            (Ok((v, rest)), Ok((n, s))) => v == n && rest@ == s,
            (Err(e), Err(f)) => e@ == f,
            _ => false,
        },
{
    match get_u16(bytes) {
        Err(e) => Err(e),
        Ok((v, rest)) => match Ciphersuite::from_codepoint(v) {
            Some(cs) => {
                proof {
                    lemma_suite_with_codepoint(cs);
                }
                Ok((cs, rest))
            },
            None => Err(ReadError { error: TlsError::UnknownValue(v as u64), unread: rest }),
        },
    }
}

/// Reads a list of ciphersuites.
pub fn get_suite_list(bytes: &[u8]) -> (r: Result<(Vec<Ciphersuite>, &[u8]), ReadError<'_>>)
    ensures
        match (r, read_suite_list_spec(bytes@)) {
            (Ok((v, rest)), Ok((n, s))) => v@ == n && rest@ == s,
            (Err(e), Err(f)) => e@ == f,
            _ => false,
        },
{
    proof {
        reveal(read_suite_list_spec);
    }
    match get_length(bytes) {
        Err(e) => Err(e),
        Ok((length, start)) => {
            let mut rest: &[u8] = start;
            let mut list: Vec<Ciphersuite> = Vec::new();
            let mut read: usize = 0;
            let ghost total = ((length as nat) + 1) / 2;
            proof {
                lemma_length_bound(bytes@);
            }
            assert(list@ + Seq::<Ciphersuite>::empty() =~= Seq::<Ciphersuite>::empty());
            while read < length
                invariant
                    length <= MAX_VECTOR_LENGTH,
                    total == ((length as nat) + 1) / 2,
                    read_suite_list_spec(bytes@) == read_suites_spec(start@, total),
                    read == 2 * list@.len(),
                    list@.len() <= total,
                    read_suites_spec(start@, total) == (match read_suites_spec(
                        rest@,
                        (total - list@.len()) as nat,
                    ) {
                        Ok((more, behind)) => Ok::<(Seq<Ciphersuite>, Seq<u8>), ReadErrorView>(
                            (list@ + more, behind),
                        ),
                        Err(e) => Err(e),
                    }),
                decreases total - list@.len(),
            {
                match get_suite(rest) {
                    Err(e) => {
                        return Err(e);
                    },
                    Ok((cs, next)) => {
                        let ghost before = list@;
                        list.push(cs);
                        proof {
                            assert forall|more: Seq<Ciphersuite>| before + (seq![cs] + more)
                                == #[trigger] (list@ + more) by {
                                assert(before + (seq![cs] + more) =~= list@ + more);
                            }
                        }
                        rest = next;
                        read += 2;
                    },
                }
            }
            assert(list@ + Seq::<Ciphersuite>::empty() =~= list@);
            Ok((list, rest))
        },
    }
}

/// Every length that is read is within the limit.
proof fn lemma_length_bound(s: Seq<u8>)
    ensures
        read_length_spec(s) matches Ok((n, h)) ==> n <= MAX_VECTOR_LENGTH && h <= s.len(),
{
    reveal_with_fuel(be_value, 5);
    if s.len() >= 4 {
        let t = s.take(4);
        assert(t.drop_last().drop_last().drop_last()[0] == s[0]);
    }
    if s.len() >= 2 {
        let t = s.take(2);
        assert(t.drop_last()[0] == s[0]);
    }
}

/// Reads a list of ciphersuites as a slice decoder does.
pub fn get_suite_list_from_slice(bytes: &[u8]) -> (r: Result<(Vec<Ciphersuite>, &[u8]), ReadError<'_>>)
    ensures
        match (r, read_suite_list_from_slice_spec(bytes@)) {
            (Ok((v, rest)), Ok((n, s))) => v@ == n && rest@ == s,
            (Err(e), Err(f)) => e@ == f,
            _ => false,
        },
{
    proof {
        reveal(read_suite_list_from_slice_spec);
    }
    if bytes.len() == 0 {
        return Err(all_read(bytes, TlsError::EndOfStream));
    }
    get_suite_list(bytes)
}

/// Appends a list of ciphersuites.
pub fn put_suite_list(out: &mut Vec<u8>, list: &[Ciphersuite])
    requires
        2 * list@.len() <= MAX_VECTOR_LENGTH,
    ensures
        final(out)@ == old(out)@ + suite_list_bytes(list@),
{
    proof {
        reveal(suite_list_bytes);
    }
    let ghost start = out@;
    put_length(out, 2 * list.len());
    let ghost prefix = length_prefix(2 * list@.len());
    let mut i: usize = 0;
    assert(list@.take(0) =~= Seq::<Ciphersuite>::empty());
    assert(out@ =~= start + prefix + suites_bytes(list@.take(0)));
    while i < list.len()
        invariant
            i <= list@.len(),
            out@ == start + prefix + suites_bytes(list@.take(i as int)),
        decreases list@.len() - i,
    {
        put_u16(out, list[i].codepoint());
        proof {
            lemma_suites_bytes_push(list@.take(i as int), list@[i as int]);
            assert(list@.take(i as int).push(list@[i as int]) =~= list@.take(i + 1));
            assert(out@ =~= start + prefix + suites_bytes(list@.take(i + 1)));
        }
        i += 1;
    }
    assert(list@.take(list@.len() as int) =~= list@);
    assert(out@ =~= start + suite_list_bytes(list@));
}

/// Appends a list of ciphersuites, unless it is too long.
pub(crate) fn try_put_suite_list(out: &mut Vec<u8>, list: &[Ciphersuite]) -> (r: Result<
    (),
    TlsError,
>)
    ensures
        match r {
            Ok(_) => 2 * list@.len() <= MAX_VECTOR_LENGTH && final(out)@ == old(out)@
                + suite_list_bytes(list@),
            Err(e) => 2 * list@.len() > MAX_VECTOR_LENGTH && e@
                == TlsErrorView::InvalidVectorLength && final(out)@ == old(out)@,
        },
{
    if list.len() > MAX_VECTOR_LENGTH / 2 {
        return Err(TlsError::InvalidVectorLength);
    }
    put_suite_list(out, list);
    Ok(())
}

/// What is behind an integer is shorter by the integer.
pub proof fn lemma_int_consumes(s: Seq<u8>, n: nat)
    ensures
        read_int_spec(s, n) matches Ok((_, rest)) ==> rest.len() + n == s.len(),
{
    reveal(read_int_spec);
}

/// What is behind a byte string is shorter.
pub proof fn lemma_vector_consumes(s: Seq<u8>)
    ensures
        read_vector_spec(s) matches Ok((_, rest)) ==> rest.len() < s.len(),
{
    reveal(read_vector_spec);
}

/// What is behind some suites is not longer.
proof fn lemma_suites_consume(s: Seq<u8>, n: nat)
    ensures
        read_suites_spec(s, n) matches Ok((_, rest)) ==> rest.len() <= s.len(),
    decreases n,
{
    reveal(read_int_spec);
    if n > 0 {
        if let Ok((_, rest)) = read_suite_spec(s) {
            lemma_suites_consume(rest, (n - 1) as nat);
        }
    }
}

/// What is behind a list of suites is not longer.
pub proof fn lemma_suite_list_consumes(s: Seq<u8>)
    ensures
        read_suite_list_spec(s) matches Ok((_, rest)) ==> rest.len() <= s.len(),
{
    reveal(read_suite_list_spec);
    if let Ok((n, h)) = read_length_spec(s) {
        lemma_suites_consume(s.skip(h as int), (n + 1) / 2);
    }
}

/// A byte string that is written with its length in front.
#[derive(Debug, PartialEq, Eq, Hash)]
pub struct VLBytes {
    vec: Vec<u8>,
}

impl View for VLBytes {
    type V = Seq<u8>;

    closed spec fn view(&self) -> Seq<u8> {
        self.vec@
    }
}

impl VLBytes {
    /// The byte string that holds `vec`.
    pub fn new(vec: Vec<u8>) -> (r: VLBytes)
        ensures
            r@ == vec@,
    {
        VLBytes { vec }
    }

    /// A copy of `bytes`.
    pub fn from_slice(bytes: &[u8]) -> (r: VLBytes)
        ensures
            r@ == bytes@,
    {
        VLBytes { vec: copy_bytes(bytes) }
    }

    /// The bytes.
    pub fn as_slice(&self) -> (r: &[u8])
        ensures
            r@ == self@,
    {
        self.vec.as_slice()
    }

    /// The bytes, owned.
    pub fn into_vec(self) -> (r: Vec<u8>)
        ensures
            r@ == self@,
    {
        self.vec
    }
}

impl Clone for VLBytes {
    fn clone(&self) -> (r: Self)
        ensures
            r@ == self@,
    {
        VLBytes::from_slice(self.vec.as_slice())
    }
}

/// A byte on the wire is that byte.
pub proof fn lemma_one_byte(b: u8)
    ensures
        be_bytes(b as nat, 1) == seq![b],
{
    reveal_with_fuel(be_bytes, 2);
    assert(be_bytes(b as nat, 1) =~= seq![b]);
}

/// Numbers are written most significant byte first: the byte at place `i` of `n` is the
/// digit that counts for 256 to the power of the places behind it.
pub proof fn most_significant_byte_comes_first(v: nat, n: nat, i: int)
    requires
        0 <= i < n,
    ensures
        be_bytes(v, n).len() == n,
        be_bytes(v, n)[i] == (v / pow256((n - 1 - i) as nat)) % 256,
    decreases n,
{
    lemma_be_bytes_len(v, n);
    lemma_be_bytes_len(v / 256, (n - 1) as nat);
    if i == n - 1 {
        assert(pow256(0) == 1);
        assert(v / 1 == v);
        assert(be_bytes(v, n)[i] == (v % 256) as u8);
    } else {
        assert(be_bytes(v, n)[i] == be_bytes(v / 256, (n - 1) as nat)[i]);
        most_significant_byte_comes_first(v / 256, (n - 1) as nat, i);
        let k = (n - 2 - i) as nat;
        lemma_pow256_positive(k);
        assert(pow256((n - 1 - i) as nat) == 256 * pow256(k));
        vstd::arithmetic::div_mod::lemma_div_denominator(v as int, 256, pow256(k) as int);
        assert(v / 256 / pow256(k) == v / (256 * pow256(k)));
    }
}

proof fn lemma_pow256_positive(n: nat)
    ensures
        pow256(n) > 0,
    decreases n,
{
    if n > 0 {
        lemma_pow256_positive((n - 1) as nat);
    }
}

/// The two highest bits of the first byte of a length tell how many bytes the length
/// has: one below 64, two below 16384, and four from there on. Every length is written
/// in the shortest of these forms.
pub proof fn lengths_are_written_short(n: nat)
    requires
        n <= MAX_VECTOR_LENGTH,
    ensures
        n < 64 ==> length_prefix(n) == seq![n as u8],
        64 <= n < 16384 ==> length_prefix(n).len() == 2 && 0x40 <= length_prefix(n)[0] < 0x80
            && be_value(length_prefix(n)) == 0x4000 + n,
        16384 <= n ==> length_prefix(n).len() == 4 && 0x80 <= length_prefix(n)[0] < 0xc0
            && be_value(length_prefix(n)) == 0x8000_0000 + n,
{
    lemma_pow256();
    lemma_length_prefix_len(n);
    if n < 64 {
        lemma_one_byte(n as u8);
    } else if n < 16384 {
        let v = 0x4000 + n;
        be_value_of_be_bytes(v, 2);
        assert(be_bytes(v, 2)[0] == (v / 256) as u8) by {
            reveal_with_fuel(be_bytes, 3);
        }
    } else {
        let v = 0x8000_0000 + n;
        be_value_of_be_bytes(v, 4);
        assert(be_bytes(v, 4)[0] == (v / 256 / 256 / 256) as u8) by {
            reveal_with_fuel(be_bytes, 5);
        }
    }
}

/// A byte string on the wire is its length and then its bytes.
pub proof fn byte_strings_follow_their_length(content: Seq<u8>)
    ensures
        length_prefix(content.len()).is_prefix_of(vector_bytes(content)),
        vector_bytes(content).skip(length_prefix_len(content.len()) as int) == content,
{
    reveal(vector_bytes);
    lemma_length_prefix_len(content.len());
    let h = length_prefix_len(content.len()) as int;
    assert(vector_bytes(content).skip(h) =~= content);
    assert(length_prefix(content.len()) =~= vector_bytes(content).subrange(0, h));
}

/// Bytes are the digits of the number that they write.
pub proof fn be_bytes_of_be_value(s: Seq<u8>)
    ensures
        be_bytes(be_value(s), s.len()) == s,
        be_value(s) < pow256(s.len()),
    decreases s.len(),
{
    if s.len() == 0 {
        assert(be_bytes(be_value(s), 0) =~= s);
    } else {
        let init = s.drop_last();
        be_bytes_of_be_value(init);
        let v = be_value(s);
        assert(v == be_value(init) * 256 + s.last() as nat);
        assert(v / 256 == be_value(init) && v % 256 == s.last() as nat) by (nonlinear_arith)
            requires
                v == be_value(init) * 256 + s.last() as nat,
                s.last() < 256,
        ;
        assert(be_bytes(v, s.len()) =~= s);
    }
}

/// What reads as an integer is the form of that integer, and nothing else is.
pub proof fn integers_have_one_form(s: Seq<u8>, n: nat)
    ensures
        read_int_spec(s, n) matches Ok((v, rest)) ==> s == be_bytes(v, n) + rest && v < pow256(n),
{
    reveal(read_int_spec);
    if s.len() >= n {
        be_bytes_of_be_value(s.take(n as int));
        assert(s =~= s.take(n as int) + s.skip(n as int));
    }
}

proof fn lemma_lengths_have_one_form(s: Seq<u8>)
    ensures
        read_length_spec(s) matches Ok((n, h)) ==> n <= MAX_VECTOR_LENGTH && h == length_prefix_len(
            n,
        ) && h <= s.len() && s.take(h as int) == length_prefix(n),
{
    if let Ok((n, h)) = read_length_spec(s) {
        if h == 1 {
            lemma_one_byte(s[0]);
            assert(s.take(1) =~= seq![s[0]]);
        } else {
            let t = s.take(h as int);
            be_bytes_of_be_value(t);
            lemma_pow256();
            if h == 2 {
                assert(t.drop_last() =~= seq![s[0]]);
                assert(seq![s[0]].drop_last() =~= Seq::<u8>::empty());
                reveal_with_fuel(be_value, 3);
                assert(be_value(t) == s[0] * 256 + s[1]);
            } else {
                assert(t.drop_last().drop_last().drop_last() =~= seq![s[0]]);
                assert(seq![s[0]].drop_last() =~= Seq::<u8>::empty());
                reveal_with_fuel(be_value, 5);
                assert(be_value(t) == ((s[0] * 256 + s[1]) * 256 + s[2]) * 256 + s[3]);
            }
        }
    }
}

/// What reads as a byte string is the form of that byte string, and nothing else is. In
/// particular a length in a longer form than it needs is refused.
pub proof fn byte_strings_have_one_form(s: Seq<u8>)
    ensures
        read_vector_spec(s) matches Ok((content, rest)) ==> s == vector_bytes(content) + rest
            && content.len() <= MAX_VECTOR_LENGTH,
{
    reveal(read_vector_spec);
    reveal(vector_bytes);
    lemma_lengths_have_one_form(s);
    if let Ok((n, h)) = read_length_spec(s) {
        if s.len() >= h + n {
            let content = s.subrange(h as int, (h + n) as int);
            assert(s =~= length_prefix(n) + content + s.skip((h + n) as int)) by {
                assert(s =~= s.take(h as int) + content + s.skip((h + n) as int));
            }
        }
    }
}

/// What reads as a ciphersuite is its codepoint, and a number that is no codepoint is
/// refused by its value.
pub proof fn suites_have_one_form(s: Seq<u8>)
    ensures
        match read_suite_spec(s) {
            Ok((cs, rest)) => s == be_bytes(ciphersuite_codepoint(cs) as nat, 2) + rest,
            Err(e) => e.error matches TlsErrorView::UnknownValue(v) ==> forall|cs: Ciphersuite|
                #[trigger] ciphersuite_codepoint(cs) != v,
        },
{
    integers_have_one_form(s, 2);
    lemma_pow256();
    reveal(read_int_spec);
    if let Ok((v, rest)) = read_int_spec(s, 2) {
        if exists|cs: Ciphersuite| #[trigger] ciphersuite_codepoint(cs) == v {
            let c = choose|cs: Ciphersuite| #[trigger] ciphersuite_codepoint(cs) == v;
            assert(ciphersuite_codepoint(c) == v);
        }
    }
}

/// A list of suites on the wire is its length in bytes and then the codepoints, two bytes
/// each, in the order of the list.
pub proof fn suite_lists_keep_their_order(list: Seq<Ciphersuite>, i: int)
    requires
        0 <= i < list.len(),
    ensures
        suite_list_bytes(list) == length_prefix(2 * list.len()) + suites_bytes(list),
        suites_bytes(list).len() == 2 * list.len(),
        suites_bytes(list).subrange(2 * i, 2 * i + 2) == be_bytes(
            ciphersuite_codepoint(list[i]) as nat,
            2,
        ),
    decreases list.len(),
{
    reveal(suite_list_bytes);
    lemma_suites_bytes_len(list);
    let first = be_bytes(ciphersuite_codepoint(list[0]) as nat, 2);
    lemma_be_bytes_len(ciphersuite_codepoint(list[0]) as nat, 2);
    if i == 0 {
        assert(suites_bytes(list).subrange(0, 2) =~= first);
    } else {
        let tail = list.skip(1);
        suite_lists_keep_their_order(tail, i - 1);
        assert(tail[i - 1] == list[i]);
        assert(suites_bytes(list).subrange(2 * i, 2 * i + 2) =~= suites_bytes(tail).subrange(
            2 * (i - 1),
            2 * (i - 1) + 2,
        ));
    }
}

} // verus!
