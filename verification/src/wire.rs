//! Values with a form on the wire, and lists of them.
//!
//! A list is preceded by its length in bytes. Its items are read until they take up
//! at least that many bytes.
use crate::tls::{
    get_length, lemma_assoc, lemma_length_round_trip, length_prefix, put_vector, read_length_spec,
    vector_bytes, Decoded, ReadError, ReadErrorView, TlsError, TlsErrorView, MAX_VECTOR_LENGTH,
};
use vstd::prelude::*;

verus! {

/// A value that can be written to and read from the wire.
pub trait Wire: View + Sized {
    /// The form of a value on the wire.
    spec fn wire_bytes(v: Self::V) -> Seq<u8>;

    /// Whether all parts of a value are short enough for the wire.
    spec fn wire_ok(v: Self::V) -> bool;

    /// What is written of a value that has parts which are too long: what comes
    /// before the first of them.
    spec fn wire_begun(v: Self::V) -> Seq<u8>;

    /// The value at the front of `s`, or the first error on the way.
    spec fn wire_read(s: Seq<u8>) -> Decoded<Self::V>;

    /// A value reads back from its form on the wire, whatever follows.
    proof fn wire_round_trip(v: Self::V, rest: Seq<u8>)
        requires
            Self::wire_ok(v),
        ensures
            Self::wire_read(Self::wire_bytes(v) + rest) == Ok::<(Self::V, Seq<u8>), ReadErrorView>(
                (v, rest),
            ),
    ;

    /// Appends the value in its form on the wire. It fails exactly where a part is
    /// too long, and then it has appended what comes before that part.
    fn put(&self, out: &mut Vec<u8>) -> (r: Result<(), TlsError>)
        ensures
            match r {
                Ok(_) => Self::wire_ok(self@) && final(out)@ == old(out)@ + Self::wire_bytes(self@),
                Err(e) => !Self::wire_ok(self@) && e@ == TlsErrorView::InvalidVectorLength
                    && final(out)@ == old(out)@ + Self::wire_begun(self@),
            },
    ;

    /// Reads a value from the front of `bytes`, and returns it with the bytes
    /// behind it.
    fn get(bytes: &[u8]) -> (r: Result<(Self, &[u8]), ReadError<'_>>)
        ensures
            match (r, Self::wire_read(bytes@)) {
                (Ok((c, rest)), Ok((v, s))) => c@ == v && rest@ == s,
                (Err(e), Err(f)) => e@ == f,
                _ => false,
            },
    ;
}

/// A value of which there are lists on the wire.
pub trait WireItem: Wire {
    /// What is read takes up something.
    proof fn wire_read_consumes(s: Seq<u8>)
        ensures
            Self::wire_read(s) matches Ok((_, rest)) ==> rest.len() < s.len(),
    ;

    /// How many bytes the value takes on the wire.
    fn wire_len(&self) -> (r: u128)
        ensures
            r == Self::wire_bytes(self@).len(),
            r < 0x10_0000_0000_0000_0000,
    ;
}

/// The value that `bytes` are the form of, with nothing left over.
pub open spec fn read_exact_spec<T: Wire>(s: Seq<u8>) -> Result<T::V, TlsErrorView> {
    match T::wire_read(s) {
        Err(e) => Err(e.error),
        Ok((v, rest)) => if rest.len() > 0 {
            Err(TlsErrorView::TrailingData)
        } else {
            Ok(v)
        },
    }
}

/// The value in its form on the wire.
pub fn tls_serialize_detached<T: Wire>(value: &T) -> (r: Result<Vec<u8>, TlsError>)
    ensures
        match r {
            Ok(bytes) => T::wire_ok(value@) && bytes@ == T::wire_bytes(value@),
            Err(e) => !T::wire_ok(value@) && e@ == TlsErrorView::InvalidVectorLength,
        },
{
    let mut out: Vec<u8> = Vec::new();
    match value.put(&mut out) {
        Ok(_) => {
            assert(Seq::<u8>::empty() + T::wire_bytes(value@) =~= T::wire_bytes(value@));
            Ok(out)
        },
        Err(e) => Err(e),
    }
}

/// Reads a value from the front of `reader`, which then holds what has not been read.
pub fn tls_deserialize<T: Wire>(reader: &mut &[u8]) -> (r: Result<T, TlsError>)
    ensures
        match (r, T::wire_read(old(reader)@)) {
            (Ok(c), Ok((v, rest))) => c@ == v && final(reader)@ == rest,
            (Err(e), Err(f)) => e@ == f.error && final(reader)@ == f.unread,
            _ => false,
        },
{
    match T::get(*reader) {
        Ok((c, rest)) => {
            *reader = rest;
            Ok(c)
        },
        Err(e) => {
            *reader = e.unread;
            Err(e.error)
        },
    }
}

/// Reads the value that all of `bytes` are the form of.
pub fn tls_deserialize_exact<T: Wire>(bytes: &[u8]) -> (r: Result<T, TlsError>)
    ensures
        match (r, read_exact_spec::<T>(bytes@)) {
            (Ok(c), Ok(v)) => c@ == v,
            (Err(e), Err(f)) => e@ == f,
            _ => false,
        },
{
    match T::get(bytes) {
        Err(e) => Err(e.error),
        Ok((value, rest)) => {
            if rest.len() > 0 {
                Err(TlsError::TrailingData)
            } else {
                Ok(value)
            }
        },
    }
}

/// Reading all of what was written gives the value that was written.
pub proof fn exact_round_trip<T: Wire>(v: T::V)
    requires
        T::wire_ok(v),
    ensures
        read_exact_spec::<T>(T::wire_bytes(v)) == Ok::<T::V, TlsErrorView>(v),
{
    T::wire_round_trip(v, Seq::empty());
    assert(T::wire_bytes(v) + Seq::<u8>::empty() =~= T::wire_bytes(v));
}

/// The views of a list.
pub open spec fn views<T: View>(items: Seq<T>) -> Seq<T::V> {
    items.map_values(|t: T| t@)
}

/// The forms of the items, one after the other.
pub open spec fn items_bytes<T: Wire>(items: Seq<T::V>) -> Seq<u8>
    decreases items.len(),
{
    if items.len() == 0 {
        Seq::empty()
    } else {
        T::wire_bytes(items[0]) + items_bytes::<T>(items.skip(1))
    }
}

/// The form of a list on the wire.
pub open spec fn list_bytes<T: Wire>(items: Seq<T::V>) -> Seq<u8> {
    vector_bytes(items_bytes::<T>(items))
}

/// Whether a list is short enough for the wire.
pub open spec fn list_ok<T: Wire>(items: Seq<T::V>) -> bool {
    items_bytes::<T>(items).len() <= MAX_VECTOR_LENGTH && forall|i: int|
        0 <= i < items.len() ==> T::wire_ok(#[trigger] items[i])
}

/// The items at the front of `s`, of which `left` bytes are still announced.
pub open spec fn read_items_spec<T: Wire>(s: Seq<u8>, left: int) -> Decoded<Seq<T::V>>
    decreases s.len(),
{
    if left <= 0 {
        Ok((Seq::empty(), s))
    } else {
        match T::wire_read(s) {
            Err(e) => Err(e),
            Ok((v, rest)) => if rest.len() >= s.len() {
                Err(ReadErrorView { error: TlsErrorView::EndOfStream, unread: s })
            } else {
                match read_items_spec::<T>(rest, left - T::wire_bytes(v).len()) {
                    Err(e) => Err(e),
                    Ok((more, behind)) => Ok((seq![v] + more, behind)),
                }
            },
        }
    }
}

/// The list at the front of `s`.
pub open spec fn read_list_spec<T: Wire>(s: Seq<u8>) -> Decoded<Seq<T::V>> {
    match read_length_spec(s) {
        Err(e) => Err(e),
        Ok((n, h)) => read_items_spec::<T>(s.skip(h as int), n as int),
    }
}

/// One more item at the end adds its form at the end.
proof fn lemma_items_push<T: Wire>(items: Seq<T::V>, v: T::V)
    ensures
        items_bytes::<T>(items.push(v)) == items_bytes::<T>(items) + T::wire_bytes(v),
    decreases items.len(),
{
    let all = items.push(v);
    if items.len() == 0 {
        assert(all.skip(1) =~= Seq::<T::V>::empty());
        assert(items_bytes::<T>(all.skip(1)) =~= Seq::<u8>::empty());
        assert(items_bytes::<T>(all) =~= T::wire_bytes(v));
        assert(items_bytes::<T>(items) + T::wire_bytes(v) =~= T::wire_bytes(v));
    } else {
        assert(all.skip(1) =~= items.skip(1).push(v));
        lemma_items_push::<T>(items.skip(1), v);
        lemma_assoc(T::wire_bytes(items[0]), items_bytes::<T>(items.skip(1)), T::wire_bytes(v));
    }
}

/// Items read back from their forms, whatever follows.
proof fn lemma_items_round_trip<T: WireItem>(items: Seq<T::V>, rest: Seq<u8>)
    requires
        forall|i: int| 0 <= i < items.len() ==> T::wire_ok(#[trigger] items[i]),
    ensures
        read_items_spec::<T>(
            items_bytes::<T>(items) + rest,
            items_bytes::<T>(items).len() as int,
        ) == Ok::<(Seq<T::V>, Seq<u8>), ReadErrorView>((items, rest)),
    decreases items.len(),
{
    let s = items_bytes::<T>(items) + rest;
    if items.len() == 0 {
        assert(s =~= rest);
        assert(items =~= Seq::empty());
    } else {
        let v = items[0];
        let tail = items.skip(1);
        let behind = items_bytes::<T>(tail) + rest;
        assert(T::wire_ok(v));
        lemma_assoc(T::wire_bytes(v), items_bytes::<T>(tail), rest);
        T::wire_round_trip(v, behind);
        T::wire_read_consumes(s);
        assert forall|i: int| 0 <= i < tail.len() implies T::wire_ok(#[trigger] tail[i]) by {
            assert(tail[i] == items[i + 1]);
        }
        lemma_items_round_trip::<T>(tail, rest);
        assert(seq![v] + tail =~= items);
    }
}

/// A list reads back from its form on the wire, whatever follows.
pub proof fn list_round_trip<T: WireItem>(items: Seq<T::V>, rest: Seq<u8>)
    requires
        list_ok::<T>(items),
    ensures
        read_list_spec::<T>(list_bytes::<T>(items) + rest) == Ok::<
            (Seq<T::V>, Seq<u8>),
            ReadErrorView,
        >((items, rest)),
{
    reveal(vector_bytes);
    let content = items_bytes::<T>(items);
    let prefix = length_prefix(content.len());
    lemma_length_round_trip(content.len(), content + rest);
    lemma_assoc(prefix, content, rest);
    let s = list_bytes::<T>(items) + rest;
    assert(s.skip(prefix.len() as int) =~= content + rest);
    lemma_items_round_trip::<T>(items, rest);
}

/// The view of one item of a list.
proof fn lemma_views_take<T: View>(items: Seq<T>, i: int)
    requires
        0 <= i < items.len(),
    ensures
        views(items).take(i + 1) == views(items).take(i).push(items[i]@),
        views(items)[i] == items[i]@,
{
    assert(views(items).take(i + 1) =~= views(items).take(i).push(items[i]@));
}

/// Appends a list. It fails exactly where the list or an item of it is too long. The
/// length comes first, so that nothing is appended then.
pub fn put_list<T: WireItem>(out: &mut Vec<u8>, items: &[T]) -> (r: Result<(), TlsError>)
    ensures
        match r {
            Ok(_) => list_ok::<T>(views(items@)) && final(out)@ == old(out)@ + list_bytes::<T>(
                views(items@),
            ),
            Err(e) => !list_ok::<T>(views(items@)) && e@ == TlsErrorView::InvalidVectorLength
                && final(out)@ == old(out)@,
        },
{
    let mut content: Vec<u8> = Vec::new();
    let ghost all = views(items@);
    let mut i: usize = 0;
    assert(all.take(0) =~= Seq::<T::V>::empty());
    while i < items.len()
        invariant
            i <= items@.len(),
            all == views(items@),
            content@ == items_bytes::<T>(all.take(i as int)),
            forall|j: int| 0 <= j < i ==> T::wire_ok(#[trigger] all[j]),
        decreases items@.len() - i,
    {
        proof {
            lemma_views_take(items@, i as int);
            lemma_items_push::<T>(all.take(i as int), items@[i as int]@);
        }
        match items[i].put(&mut content) {
            Ok(_) => {},
            Err(e) => {
                assert(!T::wire_ok(all[i as int]));
                return Err(e);
            },
        }
        i += 1;
    }
    assert(all.take(items@.len() as int) =~= all);
    if content.len() > MAX_VECTOR_LENGTH {
        return Err(TlsError::InvalidVectorLength);
    }
    put_vector(out, content.as_slice());
    Ok(())
}

/// Fewer items take no more bytes.
proof fn lemma_items_take_len<T: Wire>(items: Seq<T::V>, i: int)
    requires
        0 <= i <= items.len(),
    ensures
        items_bytes::<T>(items.take(i)).len() <= items_bytes::<T>(items).len(),
    decreases items.len(),
{
    if i > 0 {
        lemma_items_take_len::<T>(items.skip(1), i - 1);
        assert(items.take(i).skip(1) =~= items.skip(1).take(i - 1));
    }
}

/// How many bytes the items of a list take.
pub fn items_len<T: WireItem>(items: &[T]) -> (r: usize)
    requires
        items_bytes::<T>(views(items@)).len() <= MAX_VECTOR_LENGTH,
    ensures
        r == items_bytes::<T>(views(items@)).len(),
{
    let ghost all = views(items@);
    let mut total: usize = 0;
    let mut i: usize = 0;
    assert(all.take(0) =~= Seq::<T::V>::empty());
    while i < items.len()
        invariant
            i <= items@.len(),
            all == views(items@),
            items_bytes::<T>(all).len() <= MAX_VECTOR_LENGTH,
            total == items_bytes::<T>(all.take(i as int)).len(),
        decreases items@.len() - i,
    {
        proof {
            lemma_views_take(items@, i as int);
            lemma_items_push::<T>(all.take(i as int), items@[i as int]@);
            lemma_items_take_len::<T>(all, i + 1);
        }
        total = total + items[i].wire_len() as usize;
        i += 1;
    }
    assert(all.take(items@.len() as int) =~= all);
    total
}

/// Reads a list from the front of `bytes`, and returns it with the bytes behind it.
pub fn get_list<T: WireItem>(bytes: &[u8]) -> (r: Result<(Vec<T>, &[u8]), ReadError<'_>>)
    ensures
        match (r, read_list_spec::<T>(bytes@)) {
            (Ok((items, rest)), Ok((v, s))) => views(items@) == v && rest@ == s,
            (Err(e), Err(f)) => e@ == f,
            _ => false,
        },
{
    let (length, start) = match get_length(bytes) {
        Err(e) => {
            return Err(e);
        },
        Ok(x) => x,
    };
    let total: u128 = length as u128;
    let mut rest: &[u8] = start;
    let mut items: Vec<T> = Vec::new();
    let mut taken: u128 = 0;
    assert(views(items@) =~= Seq::<T::V>::empty());
    assert(forall|more: Seq<T::V>| #[trigger] (views(items@) + more) =~= more);
    while taken < total
        invariant
            total == length,
            total <= usize::MAX,
            taken < 0x20_0000_0000_0000_0000,
            read_list_spec::<T>(bytes@) == read_items_spec::<T>(start@, length as int),
            read_items_spec::<T>(start@, length as int) == (match read_items_spec::<T>(
                rest@,
                total - taken,
            ) {
                Ok((more, behind)) => Ok::<(Seq<T::V>, Seq<u8>), ReadErrorView>(
                    (views(items@) + more, behind),
                ),
                Err(e) => Err(e),
            }),
        decreases rest@.len(),
    {
        proof {
            T::wire_read_consumes(rest@);
        }
        match T::get(rest) {
            Err(e) => {
                return Err(e);
            },
            Ok((item, next)) => {
                let ghost before = views(items@);
                let ghost v = item@;
                taken = taken + item.wire_len();
                items.push(item);
                proof {
                    assert(views(items@) =~= before.push(v));
                    assert forall|more: Seq<T::V>| before + (seq![v] + more) == #[trigger] (views(
                        items@,
                    ) + more) by {
                        assert(before + (seq![v] + more) =~= views(items@) + more);
                    }
                }
                rest = next;
            },
        }
    }
    assert(views(items@) + Seq::<T::V>::empty() =~= views(items@));
    Ok((items, rest))
}

/// Reading all of some bytes fails exactly where reading a value fails or bytes are left
/// over, and bytes that are left over are called so.
pub proof fn nothing_may_be_left_over<T: Wire>(s: Seq<u8>)
    ensures
        match T::wire_read(s) {
            Err(e) => read_exact_spec::<T>(s) == Err::<T::V, TlsErrorView>(e.error),
            Ok((v, rest)) => (read_exact_spec::<T>(s) is Ok <==> rest.len() == 0) && (rest.len()
                == 0 ==> read_exact_spec::<T>(s) == Ok::<T::V, TlsErrorView>(v)) && (rest.len() > 0
                ==> read_exact_spec::<T>(s) == Err::<T::V, TlsErrorView>(
                TlsErrorView::TrailingData,
            )),
        },
{
}

/// The items of a list stand on the wire in the order of the list: the form of two lists
/// in a row is that of the one before that of the other.
pub proof fn items_stand_in_order<T: Wire>(a: Seq<T::V>, b: Seq<T::V>)
    ensures
        items_bytes::<T>(a + b) == items_bytes::<T>(a) + items_bytes::<T>(b),
        a.len() == 1 ==> items_bytes::<T>(a) == T::wire_bytes(a[0]),
    decreases a.len(),
{
    if a.len() == 0 {
        assert(a + b =~= b);
        assert(items_bytes::<T>(a) + items_bytes::<T>(b) =~= items_bytes::<T>(b));
    } else {
        assert((a + b).skip(1) =~= a.skip(1) + b);
        items_stand_in_order::<T>(a.skip(1), b);
        lemma_assoc(T::wire_bytes(a[0]), items_bytes::<T>(a.skip(1)), items_bytes::<T>(b));
        if a.len() == 1 {
            assert(items_bytes::<T>(a.skip(1)) =~= Seq::<u8>::empty());
            assert(items_bytes::<T>(a) =~= T::wire_bytes(a[0]));
        }
    }
}

} // verus!
