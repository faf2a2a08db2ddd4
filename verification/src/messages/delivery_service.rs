//! Delivering messages to groups.
//!
//! Each group has a queue, and what comes first leaves first. The T half of a FULL
//! commit is taken only after its PQ half, because it refers to a key that comes out
//! of the PQ half.
use crate::assoc::{distinct_keys, entry_map, lemma_entry_in_map, AssocMap, MapKey};
use crate::mls::MlsMessageOut;
use crate::text::{decimal, push_decimal};
use crate::types::GroupId;
use std::collections::{HashSet, VecDeque};
use vstd::prelude::*;
use vstd::string::*;

verus! {

broadcast use vstd::std_specs::hash::group_hash_axioms;

/// The session that a message belongs to.
#[derive(Debug, Clone, Copy, PartialEq, Eq, Hash, Structural)]
pub enum SessionSide {
    /// The T session.
    T,
    /// The PQ session.
    Pq,
}

/// A message and what its delivery depends on.
#[derive(Debug, PartialEq, Eq)]
pub struct ApqDeliveryEnvelope {
    /// The group.
    pub group_id: GroupId,
    /// The session.
    pub session_side: SessionSide,
    /// Whether the message is one half of a FULL commit.
    pub is_full_commit_pair: bool,
    /// What the two halves of a FULL commit have in common. It does not matter for
    /// other messages.
    pub pair_id: Option<u64>,
    /// The message.
    pub message: MlsMessageOut,
}

/// An `ApqDeliveryEnvelope` with its contents as bytes.
#[verifier::ext_equal]
pub struct EnvelopeView {
    /// See `ApqDeliveryEnvelope::group_id`.
    pub group_id: Seq<u8>,
    /// See `ApqDeliveryEnvelope::session_side`.
    pub session_side: SessionSide,
    /// See `ApqDeliveryEnvelope::is_full_commit_pair`.
    pub is_full_commit_pair: bool,
    /// See `ApqDeliveryEnvelope::pair_id`.
    pub pair_id: Option<u64>,
    /// See `ApqDeliveryEnvelope::message`.
    pub message: Seq<u8>,
}

impl View for ApqDeliveryEnvelope {
    type V = EnvelopeView;

    open spec fn view(&self) -> EnvelopeView {
        EnvelopeView {
            group_id: self.group_id@,
            session_side: self.session_side,
            is_full_commit_pair: self.is_full_commit_pair,
            pair_id: self.pair_id,
            message: self.message@,
        }
    }
}

impl ApqDeliveryEnvelope {
    /// An envelope for a message that is no half of a FULL commit.
    pub fn new_simple(
        group_id: GroupId,
        session_side: SessionSide,
        message: MlsMessageOut,
    ) -> (r: Self)
        ensures
            r@ == (EnvelopeView {
                group_id: group_id@,
                session_side,
                is_full_commit_pair: false,
                pair_id: None,
                message: message@,
            }),
    {
        ApqDeliveryEnvelope {
            group_id,
            session_side,
            is_full_commit_pair: false,
            pair_id: None,
            message,
        }
    }

    /// An envelope for one half of a FULL commit.
    pub fn new_full_commit_half(
        group_id: GroupId,
        session_side: SessionSide,
        pair_id: u64,
        message: MlsMessageOut,
    ) -> (r: Self)
        ensures
            r@ == (EnvelopeView {
                group_id: group_id@,
                session_side,
                is_full_commit_pair: true,
                pair_id: Some(pair_id),
                message: message@,
            }),
    {
        ApqDeliveryEnvelope {
            group_id,
            session_side,
            is_full_commit_pair: true,
            pair_id: Some(pair_id),
            message,
        }
    }
}

/// Why an envelope is not taken.
#[derive(Debug, Clone, Copy, PartialEq, Eq, Structural)]
pub enum DeliveryError {
    /// A half of a FULL commit does not say of which.
    FullCommitWithoutPairId,
    /// The PQ half has not come yet.
    PqHalfMissing {
        /// The FULL commit.
        pair_id: u64,
    },
    /// The PQ half has come already, and its T half has not.
    DuplicatePqHalf {
        /// The FULL commit.
        pair_id: u64,
    },
}

/// The queues of all groups.
#[derive(Debug)]
pub struct DeliveryService {
    queues: AssocMap<GroupId, VecDeque<ApqDeliveryEnvelope>>,
    pending_pq_halves: AssocMap<GroupId, HashSet<u64>>,
}

/// The contents of a `DeliveryService`.
#[verifier::ext_equal]
pub struct DeliveryView {
    /// The queue of each group.
    pub queues: Map<Seq<u8>, Seq<EnvelopeView>>,
    /// The FULL commits of each group whose PQ half has come and whose T half has
    /// not.
    pub pending: Map<Seq<u8>, Set<u64>>,
}

/// The views of a queue.
pub open spec fn queue_views(queue: Seq<ApqDeliveryEnvelope>) -> Seq<EnvelopeView> {
    queue.map_values(|e: ApqDeliveryEnvelope| e@)
}

impl View for DeliveryService {
    type V = DeliveryView;

    closed spec fn view(&self) -> DeliveryView {
        DeliveryView {
            queues: self.queues@.map_values(
                |q: VecDeque<ApqDeliveryEnvelope>| queue_views(q@),
            ),
            pending: self.pending_pq_halves@.map_values(|p: HashSet<u64>| p@),
        }
    }
}

/// The queue of a group.
pub open spec fn queue_of(s: DeliveryView, group: Seq<u8>) -> Seq<EnvelopeView> {
    if s.queues.contains_key(group) {
        s.queues[group]
    } else {
        Seq::empty()
    }
}

/// The FULL commits of a group whose PQ half has come and whose T half has not.
pub open spec fn pending_of(s: DeliveryView, group: Seq<u8>) -> Set<u64> {
    if s.pending.contains_key(group) {
        s.pending[group]
    } else {
        Set::empty()
    }
}

/// What stands in the way of an envelope, given the FULL commits whose T half is
/// still to come.
pub open spec fn refusal_of(pending: Set<u64>, e: EnvelopeView) -> Option<DeliveryError> {
    if !e.is_full_commit_pair {
        None
    } else {
        match e.pair_id {
            None => Some(DeliveryError::FullCommitWithoutPairId),
            Some(pair_id) => match e.session_side {
                SessionSide::Pq => if pending.contains(pair_id) {
                    Some(DeliveryError::DuplicatePqHalf { pair_id })
                } else {
                    None
                },
                SessionSide::T => if !pending.contains(pair_id) {
                    Some(DeliveryError::PqHalfMissing { pair_id })
                } else {
                    None
                },
            },
        }
    }
}

/// The FULL commits whose T half is still to come, after an envelope was taken.
pub open spec fn pending_with(pending: Set<u64>, e: EnvelopeView) -> Set<u64> {
    if !e.is_full_commit_pair || e.pair_id is None {
        pending
    } else {
        match e.session_side {
            SessionSide::Pq => pending.insert(e.pair_id->Some_0),
            SessionSide::T => pending.remove(e.pair_id->Some_0),
        }
    }
}

/// What becomes of an envelope, and of the service.
pub open spec fn enqueue_outcome(s: DeliveryView, e: EnvelopeView) -> (
    DeliveryView,
    Option<DeliveryError>,
) {
    match refusal_of(pending_of(s, e.group_id), e) {
        Some(error) => (s, Some(error)),
        None => (
            DeliveryView {
                queues: s.queues.insert(e.group_id, queue_of(s, e.group_id).push(e)),
                pending: if e.is_full_commit_pair {
                    s.pending.insert(e.group_id, pending_with(pending_of(s, e.group_id), e))
                } else {
                    s.pending
                },
            },
            None,
        ),
    }
}

/// The service with another queue for a group that has one.
pub open spec fn with_queue(
    s: DeliveryView,
    group: Seq<u8>,
    queue: Seq<EnvelopeView>,
) -> DeliveryView {
    if s.queues.contains_key(group) {
        DeliveryView { queues: s.queues.insert(group, queue), ..s }
    } else {
        s
    }
}

/// The view of an optional envelope.
pub open spec fn opt_envelope(e: Option<ApqDeliveryEnvelope>) -> Option<EnvelopeView> {
    match e {
        Some(e) => Some(e@),
        None => None,
    }
}

/// All places in all queues.
pub open spec fn queued_places(queues: Map<Seq<u8>, Seq<EnvelopeView>>) -> Set<(Seq<u8>, int)> {
    Set::new(
        |p: (Seq<u8>, int)| queues.contains_key(p.0) && 0 <= p.1 < queues[p.0].len(),
    )
}

impl DeliveryService {
    /// A service with empty queues.
    pub fn new() -> (r: Self)
        ensures
            r@ == (DeliveryView { queues: Map::empty(), pending: Map::empty() }),
    {
        let r = DeliveryService { queues: AssocMap::new(), pending_pq_halves: AssocMap::new() };
        assert(r@.queues =~= Map::empty());
        assert(r@.pending =~= Map::empty());
        r
    }

    /// Puts an envelope at the end of its group's queue. The T half of a FULL commit
    /// is taken only after its PQ half, and the PQ half only once until then.
    pub fn enqueue(&mut self, envelope: ApqDeliveryEnvelope) -> (r: Result<(), DeliveryError>)
        ensures
            ({
                let (after, refusal) = enqueue_outcome(old(self)@, envelope@);
                &&& final(self)@ == after
                &&& r == (match refusal {
                    Some(e) => Err::<(), DeliveryError>(e),
                    None => Ok(()),
                })
            }),
    {
        let ghost group = envelope@.group_id;
        if envelope.is_full_commit_pair {
            let pair_id: u64 = match envelope.pair_id {
                Some(pair_id) => pair_id,
                None => {
                    return Err(DeliveryError::FullCommitWithoutPairId);
                },
            };
            let known: bool = match self.pending_pq_halves.get(&envelope.group_id) {
                Some(pending) => pending.contains(&pair_id),
                None => false,
            };
            assert(known == pending_of(self@, group).contains(pair_id));
            match envelope.session_side {
                SessionSide::Pq => {
                    if known {
                        return Err(DeliveryError::DuplicatePqHalf { pair_id });
                    }
                },
                SessionSide::T => {
                    if !known {
                        return Err(DeliveryError::PqHalfMissing { pair_id });
                    }
                },
            }
            let mut pending: HashSet<u64> = match self.pending_pq_halves.remove(
                &envelope.group_id,
            ) {
                Some(pending) => pending,
                None => HashSet::new(),
            };
            assert(pending@ =~= pending_of(old(self)@, group));
            match envelope.session_side {
                SessionSide::Pq => {
                    let _ = pending.insert(pair_id);
                },
                SessionSide::T => {
                    let _ = pending.remove(&pair_id);
                },
            }
            let ghost updated = pending@;
            assert(updated =~= pending_with(pending_of(old(self)@, group), envelope@));
            self.pending_pq_halves.insert(envelope.group_id.clone(), pending);
            assert(self@.pending =~= old(self)@.pending.insert(group, updated));
            assert(self@.queues =~= old(self)@.queues);
        }
        let mut queue: VecDeque<ApqDeliveryEnvelope> = match self.queues.remove(
            &envelope.group_id,
        ) {
            Some(queue) => queue,
            None => VecDeque::new(),
        };
        assert(queue_views(queue@) =~= queue_of(old(self)@, group));
        let key = envelope.group_id.clone();
        let ghost e = envelope@;
        queue.push_back(envelope);
        assert(queue_views(queue@) =~= queue_of(old(self)@, group).push(e));
        let ghost longer = queue_views(queue@);
        self.queues.insert(key, queue);
        assert(self@.queues =~= old(self)@.queues.insert(group, longer));
        Ok(())
    }

    /// Takes the first envelope out of a group's queue.
    pub fn deliver_next(&mut self, group_id: &GroupId) -> (r: Option<ApqDeliveryEnvelope>)
        ensures
            ({
                let queue = queue_of(old(self)@, group_id@);
                if queue.len() == 0 {
                    r is None && final(self)@ == old(self)@
                } else {
                    opt_envelope(r) == Some(queue[0]) && final(self)@ == with_queue(
                        old(self)@,
                        group_id@,
                        queue.skip(1),
                    )
                }
            }),
    {
        let ghost group = group_id@;
        let mut queue: VecDeque<ApqDeliveryEnvelope> = match self.queues.remove(group_id) {
            Some(queue) => queue,
            None => {
                return None;
            },
        };
        let ghost before = queue_views(queue@);
        assert(before == queue_of(old(self)@, group));
        let first = queue.pop_front();
        let ghost rest = queue_views(queue@);
        self.queues.insert(group_id.clone(), queue);
        proof {
            assert(self@.queues =~= old(self)@.queues.insert(group, rest));
            if before.len() > 0 {
                assert(rest =~= before.skip(1));
            } else {
                assert(rest =~= before);
                assert(self@.queues =~= old(self)@.queues);
            }
        }
        first
    }

    /// Takes all envelopes out of a group's queue, the first one first.
    pub fn deliver_all(&mut self, group_id: &GroupId) -> (r: Vec<ApqDeliveryEnvelope>)
        ensures
            queue_views(r@) == queue_of(old(self)@, group_id@),
            final(self)@ == with_queue(old(self)@, group_id@, Seq::empty()),
    {
        let ghost group = group_id@;
        let mut out: Vec<ApqDeliveryEnvelope> = Vec::new();
        let mut queue: VecDeque<ApqDeliveryEnvelope> = match self.queues.remove(group_id) {
            Some(queue) => queue,
            None => {
                assert(queue_views(out@) =~= Seq::empty());
                return out;
            },
        };
        let ghost all = queue@;
        assert(out@ + queue@ =~= all);
        while queue.len() > 0
            invariant
                out@ + queue@ == all,
            decreases queue@.len(),
        {
            if let Some(e) = queue.pop_front() {
                out.push(e);
            }
            assert(out@ + queue@ =~= all);
        }
        assert(out@ =~= all);
        assert(queue_views(queue@) =~= Seq::empty());
        self.queues.insert(group_id.clone(), queue);
        assert(self@.queues =~= old(self)@.queues.insert(group, Seq::empty()));
        out
    }

    /// The length of a group's queue.
    pub fn pending_count(&self, group_id: &GroupId) -> (r: usize)
        ensures
            r == queue_of(self@, group_id@).len(),
    {
        match self.queues.get(group_id) {
            Some(queue) => queue.len(),
            None => 0,
        }
    }

    /// The number of envelopes in all queues.
    pub fn total_pending(&self) -> (r: usize)
        requires
            total_of(self@) <= usize::MAX,
        ensures
            queued_places(self@.queues).finite(),
            r == total_of(self@),
    {
        let count: usize = self.queues.len();
        let ghost listed = self.queues.listed();
        let ghost mut places: Set<(Seq<u8>, int)> = Set::empty();
        let mut sum: u128 = 0;
        let mut i: usize = 0;
        while i < count
            invariant
                i <= count,
                count == listed.len(),
                listed == self.queues.listed(),
                distinct_keys(listed),
                self.queues@ == entry_map(listed),
                places.finite(),
                places.len() == sum,
                sum <= i * usize::MAX,
                forall|p: (Seq<u8>, int)| #[trigger]
                    places.contains(p) <==> exists|j: int|
                        0 <= j < i && #[trigger] listed[j].0@ == p.0 && 0 <= p.1
                            < listed[j].1@.len(),
            decreases count - i,
        {
            let entry = self.queues.entry_at(i);
            let n: usize = entry.1.len();
            let ghost g = listed[i as int].0@;
            let ghost before = places;
            let ghost row = row_of(g, n as int);
            proof {
                lemma_row_len(g, n as nat);
                assert(before.disjoint(row)) by {
                    assert forall|p: (Seq<u8>, int)| !(before.contains(p) && row.contains(p)) by {
                        if before.contains(p) && row.contains(p) {
                            let j = choose|j: int|
                                0 <= j < i && #[trigger] listed[j].0@ == p.0 && 0 <= p.1
                                    < listed[j].1@.len();
                            assert(listed[j].0.model() == listed[i as int].0.model());
                        }
                    }
                }
                vstd::set_lib::lemma_set_disjoint_lens(before, row);
                places = before.union(row);
                assert forall|p: (Seq<u8>, int)| #[trigger]
                    places.contains(p) <==> exists|j: int|
                        0 <= j < i + 1 && #[trigger] listed[j].0@ == p.0 && 0 <= p.1
                            < listed[j].1@.len() by {
                    if row.contains(p) {
                        assert(listed[i as int].0@ == p.0);
                    }
                }
                assert((i + 1) * usize::MAX == i * usize::MAX + usize::MAX) by (nonlinear_arith);
                assert(i * usize::MAX <= usize::MAX * usize::MAX) by (nonlinear_arith)
                    requires
                        i <= usize::MAX,
                ;
                assert(usize::MAX * usize::MAX <= 0xffff_ffff_ffff_ffff * 0xffff_ffff_ffff_ffff)
                    by (nonlinear_arith)
                    requires
                        usize::MAX <= 0xffff_ffff_ffff_ffff,
                ;
            }
            sum = sum + n as u128;
            i += 1;
        }
        proof {
            let all = queued_places(self@.queues);
            assert forall|p: (Seq<u8>, int)| all.contains(p) <==> places.contains(p) by {
                if places.contains(p) {
                    let j = choose|j: int|
                        0 <= j < count && #[trigger] listed[j].0@ == p.0 && 0 <= p.1
                            < listed[j].1@.len();
                    lemma_entry_in_map(listed, j);
                    assert(listed[j].0.model() == p.0);
                }
                if all.contains(p) {
                    let j = choose|j: int|
                        0 <= j < listed.len() && #[trigger] listed[j].0.model() == p.0;
                    lemma_entry_in_map(listed, j);
                    assert(listed[j].0@ == p.0);
                }
            }
            assert(all =~= places);
        }
        sum as usize
    }

    /// The number of FULL commits of a group whose PQ half has come and whose T half
    /// has not.
    pub fn pending_full_commit_pairs(&self, group_id: &GroupId) -> (r: usize)
        ensures
            r == pending_of(self@, group_id@).len(),
    {
        match self.pending_pq_halves.get(group_id) {
            Some(pending) => pending.len(),
            None => 0,
        }
    }

    /// Whether all queues are empty.
    pub fn is_empty(&self) -> (r: bool)
        ensures
            r <==> forall|g: Seq<u8>| #[trigger] queue_of(self@, g).len() == 0,
    {
        let count: usize = self.queues.len();
        let ghost listed = self.queues.listed();
        let mut i: usize = 0;
        while i < count
            invariant
                i <= count,
                count == listed.len(),
                listed == self.queues.listed(),
                distinct_keys(listed),
                self.queues@ == entry_map(listed),
                forall|j: int| 0 <= j < i ==> (#[trigger] listed[j]).1@.len() == 0,
            decreases count - i,
        {
            let entry = self.queues.entry_at(i);
            if entry.1.len() > 0 {
                proof {
                    lemma_entry_in_map(listed, i as int);
                    let g = listed[i as int].0.model();
                    assert(queue_of(self@, g).len() > 0);
                }
                return false;
            }
            i += 1;
        }
        proof {
            assert forall|g: Seq<u8>| #[trigger] queue_of(self@, g).len() == 0 by {
                if self@.queues.contains_key(g) {
                    let j = choose|j: int|
                        0 <= j < listed.len() && #[trigger] listed[j].0.model() == g;
                    lemma_entry_in_map(listed, j);
                    assert(listed[j].1@.len() == 0);
                }
            }
        }
        true
    }
}

impl Default for DeliveryService {
    fn default() -> (r: Self)
        ensures
            r@ == (DeliveryView { queues: Map::empty(), pending: Map::empty() }),
    {
        DeliveryService::new()
    }
}

/// The places of a queue of length `n`.
spec fn row_of(group: Seq<u8>, n: int) -> Set<(Seq<u8>, int)> {
    Set::new(|p: (Seq<u8>, int)| p.0 == group && 0 <= p.1 < n)
}

proof fn lemma_row_len(group: Seq<u8>, n: nat)
    ensures
        row_of(group, n as int).finite(),
        row_of(group, n as int).len() == n,
    decreases n,
{
    if n == 0 {
        assert(row_of(group, 0) =~= Set::empty());
    } else {
        lemma_row_len(group, (n - 1) as nat);
        let shorter = row_of(group, n - 1);
        assert(row_of(group, n as int) =~= shorter.insert((group, n - 1)));
    }
}

/// What happens to one group touches no other.
pub proof fn groups_are_kept_apart(s: DeliveryView, e: EnvelopeView, other: Seq<u8>)
    requires
        other != e.group_id,
    ensures
        queue_of(enqueue_outcome(s, e).0, other) == queue_of(s, other),
        pending_of(enqueue_outcome(s, e).0, other) == pending_of(s, other),
        forall|q: Seq<EnvelopeView>|
            queue_of(#[trigger] with_queue(s, e.group_id, q), other) == queue_of(s, other),
{
}

/// What is taken goes to the end of the queue, and what is not taken changes
/// nothing.
pub proof fn queues_are_first_in_first_out(s: DeliveryView, e: EnvelopeView)
    ensures
        match enqueue_outcome(s, e).1 {
            None => queue_of(enqueue_outcome(s, e).0, e.group_id) == queue_of(
                s,
                e.group_id,
            ).push(e),
            Some(_) => enqueue_outcome(s, e).0 == s,
        },
{
}

/// The number of envelopes in all queues.
pub open spec fn total_of(s: DeliveryView) -> nat {
    queued_places(s.queues).len()
}

/// The lengths of the queues of some groups, added up.
pub open spec fn added_up(s: DeliveryView, groups: Seq<Seq<u8>>) -> nat
    decreases groups.len(),
{
    if groups.len() == 0 {
        0
    } else {
        added_up(s, groups.drop_last()) + queue_of(s, groups.last()).len()
    }
}

/// The places in the queues of some groups.
spec fn places_in(s: DeliveryView, groups: Seq<Seq<u8>>) -> Set<(Seq<u8>, int)> {
    Set::new(
        |p: (Seq<u8>, int)| groups.contains(p.0) && 0 <= p.1 < queue_of(s, p.0).len(),
    )
}

proof fn lemma_places_in(s: DeliveryView, groups: Seq<Seq<u8>>)
    requires
        groups.no_duplicates(),
    ensures
        places_in(s, groups).finite(),
        places_in(s, groups).len() == added_up(s, groups),
    decreases groups.len(),
{
    if groups.len() == 0 {
        assert(places_in(s, groups) =~= Set::empty());
    } else {
        let init = groups.drop_last();
        let g = groups.last();
        let n = queue_of(s, g).len();
        lemma_places_in(s, init);
        lemma_row_len(g, n);
        let row = row_of(g, n as int);
        assert(!init.contains(g));
        assert(places_in(s, init).disjoint(row));
        vstd::set_lib::lemma_set_disjoint_lens(places_in(s, init), row);
        assert forall|p: (Seq<u8>, int)| places_in(s, groups).contains(p) <==> places_in(
            s,
            init,
        ).union(row).contains(p) by {
            if groups.contains(p.0) {
                let i = choose|i: int| 0 <= i < groups.len() && groups[i] == p.0;
                if i < init.len() {
                    assert(init[i] == p.0);
                }
            }
            if init.contains(p.0) {
                let i = choose|i: int| 0 <= i < init.len() && init[i] == p.0;
                assert(groups[i] == p.0);
            }
            assert(groups[groups.len() - 1] == g);
        }
        assert(places_in(s, groups) =~= places_in(s, init).union(row));
    }
}

/// The number of envelopes in all queues is the sum of the lengths of the queues: of
/// all groups that have envelopes, and of any others, each counted once.
pub proof fn total_is_the_sum_over_groups(s: DeliveryView, groups: Seq<Seq<u8>>)
    requires
        groups.no_duplicates(),
        forall|g: Seq<u8>| #[trigger] queue_of(s, g).len() > 0 ==> groups.contains(g),
    ensures
        total_of(s) == added_up(s, groups),
{
    lemma_places_in(s, groups);
    assert forall|p: (Seq<u8>, int)| queued_places(s.queues).contains(p) <==> places_in(
        s,
        groups,
    ).contains(p) by {
        assert(queue_of(s, p.0).len() > 0 ==> groups.contains(p.0));
    }
    assert(queued_places(s.queues) =~= places_in(s, groups));
}

proof fn lemma_total_with(queues: Map<Seq<u8>, Seq<EnvelopeView>>, g: Seq<u8>, q: Seq<EnvelopeView>)
    requires
        queued_places(queues).finite(),
    ensures
        queued_places(queues.insert(g, q)).finite(),
        queued_places(queues.insert(g, q)).len() + (if queues.contains_key(g) {
            queues[g].len()
        } else {
            0
        }) == queued_places(queues).len() + q.len(),
{
    let n = if queues.contains_key(g) {
        queues[g].len()
    } else {
        0
    };
    let all = queued_places(queues);
    let rest = all.filter(|p: (Seq<u8>, int)| p.0 != g);
    lemma_row_len(g, n);
    lemma_row_len(g, q.len());
    assert(rest.disjoint(row_of(g, n as int)));
    assert(rest.disjoint(row_of(g, q.len() as int)));
    assert(all =~= rest.union(row_of(g, n as int)));
    assert(queued_places(queues.insert(g, q)) =~= rest.union(row_of(g, q.len() as int)));
    vstd::set_lib::lemma_set_disjoint_lens(rest, row_of(g, n as int));
    vstd::set_lib::lemma_set_disjoint_lens(rest, row_of(g, q.len() as int));
}

/// Something that is asked of the service.
pub enum DeliveryStep {
    /// To take an envelope.
    Enqueue(EnvelopeView),
    /// To hand out the next envelope of a group.
    DeliverNext(Seq<u8>),
    /// To hand out all envelopes of a group.
    DeliverAll(Seq<u8>),
}

/// A service and what it has done so far.
pub struct DeliveryHistory {
    /// The service.
    pub service: DeliveryView,
    /// How many envelopes it has taken.
    pub taken: nat,
    /// How many envelopes it has handed out.
    pub delivered: nat,
}

/// What becomes of a service when something is asked of it.
pub open spec fn after_step(h: DeliveryHistory, step: DeliveryStep) -> DeliveryHistory {
    match step {
        DeliveryStep::Enqueue(e) => DeliveryHistory {
            service: enqueue_outcome(h.service, e).0,
            taken: h.taken + if enqueue_outcome(h.service, e).1 is None {
                1nat
            } else {
                0
            },
            ..h
        },
        DeliveryStep::DeliverNext(g) => if queue_of(h.service, g).len() == 0 {
            h
        } else {
            DeliveryHistory {
                service: with_queue(h.service, g, queue_of(h.service, g).skip(1)),
                delivered: h.delivered + 1,
                ..h
            }
        },
        DeliveryStep::DeliverAll(g) => DeliveryHistory {
            service: with_queue(h.service, g, Seq::empty()),
            delivered: h.delivered + queue_of(h.service, g).len(),
            ..h
        },
    }
}

/// What becomes of a new service of which things are asked one after the other.
pub open spec fn after_steps(steps: Seq<DeliveryStep>) -> DeliveryHistory
    decreases steps.len(),
{
    if steps.len() == 0 {
        DeliveryHistory {
            service: DeliveryView { queues: Map::empty(), pending: Map::empty() },
            taken: 0,
            delivered: 0,
        }
    } else {
        after_step(after_steps(steps.drop_last()), steps.last())
    }
}

proof fn lemma_steps_are_counted(steps: Seq<DeliveryStep>)
    ensures
        queued_places(after_steps(steps).service.queues).finite(),
        total_of(after_steps(steps).service) + after_steps(steps).delivered == after_steps(
            steps,
        ).taken,
    decreases steps.len(),
{
    if steps.len() == 0 {
        assert(queued_places(after_steps(steps).service.queues) =~= Set::empty());
    } else {
        lemma_steps_are_counted(steps.drop_last());
        let h = after_steps(steps.drop_last());
        let queues = h.service.queues;
        match steps.last() {
            DeliveryStep::Enqueue(e) => {
                lemma_total_with(queues, e.group_id, queue_of(h.service, e.group_id).push(e));
            },
            DeliveryStep::DeliverNext(g) => {
                lemma_total_with(queues, g, queue_of(h.service, g).skip(1));
            },
            DeliveryStep::DeliverAll(g) => {
                lemma_total_with(queues, g, Seq::empty());
            },
        }
    }
}

/// Whatever has been asked of a service, what waits is what it has taken less what it
/// has handed out. All queues are empty exactly when nothing waits, also while T
/// halves are still to come.
pub proof fn pending_is_taken_less_delivered(steps: Seq<DeliveryStep>)
    ensures
        ({
            let h = after_steps(steps);
            &&& total_of(h.service) + h.delivered == h.taken
            &&& total_of(h.service) == 0 <==> forall|g: Seq<u8>| #[trigger]
                queue_of(h.service, g).len() == 0
        }),
{
    lemma_steps_are_counted(steps);
    let s = after_steps(steps).service;
    let places = queued_places(s.queues);
    if total_of(s) == 0 {
        assert forall|g: Seq<u8>| #[trigger] queue_of(s, g).len() == 0 by {
            if queue_of(s, g).len() > 0 {
                assert(places.contains((g, 0int)));
                vstd::set_lib::lemma_set_empty_equivalency_len(places);
            }
        }
    } else if forall|g: Seq<u8>| #[trigger] queue_of(s, g).len() == 0 {
        assert forall|p: (Seq<u8>, int)| !places.contains(p) by {
            assert(queue_of(s, p.0).len() == 0);
        }
        assert(places =~= Set::empty());
    }
}

/// The FULL commits whose T half is still to come, after the envelopes of a group
/// have been taken one after the other.
pub open spec fn pending_after(log: Seq<EnvelopeView>) -> Set<u64>
    decreases log.len(),
{
    if log.len() == 0 {
        Set::empty()
    } else {
        pending_with(pending_after(log.drop_last()), log.last())
    }
}

/// `true` if all envelopes of `log` would be taken, one after the other.
pub open spec fn all_taken(log: Seq<EnvelopeView>) -> bool
    decreases log.len(),
{
    log.len() == 0 || (all_taken(log.drop_last()) && refusal_of(
        pending_after(log.drop_last()),
        log.last(),
    ) is None)
}

/// `true` if `e` is that half of a FULL commit.
pub open spec fn is_half(e: EnvelopeView, side: SessionSide, pair_id: u64) -> bool {
    e.is_full_commit_pair && e.session_side == side && e.pair_id == Some(pair_id)
}

/// The service takes what `all_taken` says, and keeps track of it as `pending_after`
/// says.
pub proof fn service_follows_log(s: DeliveryView, log: Seq<EnvelopeView>, e: EnvelopeView)
    requires
        all_taken(log),
        pending_of(s, e.group_id) == pending_after(log),
    ensures
        enqueue_outcome(s, e).1 is None <==> all_taken(log.push(e)),
        enqueue_outcome(s, e).1 is None ==> pending_of(enqueue_outcome(s, e).0, e.group_id)
            == pending_after(log.push(e)),
{
    assert(log.push(e).drop_last() =~= log);
}

proof fn lemma_pending_has_pq_half(log: Seq<EnvelopeView>, pair_id: u64) -> (j: int)
    requires
        pending_after(log).contains(pair_id),
    ensures
        0 <= j < log.len(),
        is_half(log[j], SessionSide::Pq, pair_id),
        forall|k: int|
            j < k < log.len() ==> !is_half(#[trigger] log[k], SessionSide::T, pair_id),
    decreases log.len(),
{
    let init = log.drop_last();
    let last = log.last();
    if is_half(last, SessionSide::Pq, pair_id) {
        log.len() - 1
    } else {
        let j = lemma_pending_has_pq_half(init, pair_id);
        assert forall|k: int| j < k < log.len() implies !is_half(
            #[trigger] log[k],
            SessionSide::T,
            pair_id,
        ) by {
            if k < init.len() {
                assert(init[k] == log[k]);
            }
        }
        j
    }
}

/// The T half of a FULL commit comes after its PQ half, and no PQ half serves two T
/// halves: between the two there is no other T half of the same FULL commit.
pub proof fn t_half_follows_its_pq_half(log: Seq<EnvelopeView>, i: int, pair_id: u64)
    requires
        all_taken(log),
        0 <= i < log.len(),
        is_half(log[i], SessionSide::T, pair_id),
    ensures
        exists|j: int|
            0 <= j < i && #[trigger] is_half(log[j], SessionSide::Pq, pair_id) && forall|k: int|
                j < k < i ==> !is_half(#[trigger] log[k], SessionSide::T, pair_id),
    decreases log.len(),
{
    let init = log.drop_last();
    if i < init.len() {
        t_half_follows_its_pq_half(init, i, pair_id);
        let j = choose|j: int|
            0 <= j < i && #[trigger] is_half(init[j], SessionSide::Pq, pair_id) && forall|k: int|
                j < k < i ==> !is_half(#[trigger] init[k], SessionSide::T, pair_id);
        assert(is_half(log[j], SessionSide::Pq, pair_id));
        assert forall|k: int| j < k < i implies !is_half(
            #[trigger] log[k],
            SessionSide::T,
            pair_id,
        ) by {
            assert(init[k] == log[k]);
        }
    } else {
        let j = lemma_pending_has_pq_half(init, pair_id);
        assert(is_half(log[j], SessionSide::Pq, pair_id));
        assert forall|k: int| j < k < i implies !is_half(
            #[trigger] log[k],
            SessionSide::T,
            pair_id,
        ) by {
            assert(init[k] == log[k]);
        }
    }
}

/// The text of an error.
pub open spec fn delivery_error_text(e: DeliveryError) -> Seq<char> {
    match e {
        DeliveryError::FullCommitWithoutPairId => "FULL-commit envelope must carry a pair_id"@,
        DeliveryError::PqHalfMissing { pair_id } => "T half of FULL-commit pair "@ + decimal(pair_id as nat) + " enqueued before its PQ half"@,
        DeliveryError::DuplicatePqHalf { pair_id } => "duplicate PQ half for pair_id "@ + decimal(pair_id as nat),
    }
}

impl DeliveryError {
    /// The text of an error.
    pub fn message(&self) -> (r: String)
        ensures
            r@ == delivery_error_text(*self),
    {
        match self {
            DeliveryError::FullCommitWithoutPairId => "FULL-commit envelope must carry a pair_id".to_owned(),
            DeliveryError::PqHalfMissing { pair_id } => {
                let mut text: String = "T half of FULL-commit pair ".to_owned();
                push_decimal(&mut text, *pair_id);
                text.append(" enqueued before its PQ half");
                text
            },
            DeliveryError::DuplicatePqHalf { pair_id } => {
                let mut text: String = "duplicate PQ half for pair_id ".to_owned();
                push_decimal(&mut text, *pair_id);
                text
            },
        }
    }
}

/// What is taken of one FULL commit changes nothing for another, and what is no half of
/// a FULL commit changes nothing for any: a pair waits for its T half afterwards exactly
/// when it did before.
pub proof fn pairs_are_kept_apart(s: DeliveryView, e: EnvelopeView, pair_id: u64)
    requires
        e.pair_id != Some(pair_id) || !e.is_full_commit_pair,
    ensures
        pending_of(enqueue_outcome(s, e).0, e.group_id).contains(pair_id) <==> pending_of(
            s,
            e.group_id,
        ).contains(pair_id),
{
}

/// After the PQ half of a FULL commit has been taken, its T half is taken and a second PQ
/// half is not. After the T half it is the other way round.
pub proof fn halves_alternate(s: DeliveryView, pq: EnvelopeView, t: EnvelopeView, pair_id: u64)
    requires
        is_half(pq, SessionSide::Pq, pair_id),
        is_half(t, SessionSide::T, pair_id),
        pq.group_id == t.group_id,
    ensures
        enqueue_outcome(s, pq).1 is None <==> enqueue_outcome(s, t).1 is Some,
        enqueue_outcome(s, pq).1 is None ==> {
            let after = enqueue_outcome(s, pq).0;
            &&& enqueue_outcome(after, t).1 is None
            &&& enqueue_outcome(after, pq).1 == Some(DeliveryError::DuplicatePqHalf { pair_id })
        },
        enqueue_outcome(s, t).1 is None ==> {
            let after = enqueue_outcome(s, t).0;
            &&& enqueue_outcome(after, pq).1 is None
            &&& enqueue_outcome(after, t).1 == Some(DeliveryError::PqHalfMissing { pair_id })
        },
{
}

/// What is no half of a FULL commit is always taken, and a half that does not say of
/// which never is.
pub proof fn other_messages_are_always_taken(s: DeliveryView, e: EnvelopeView)
    ensures
        !e.is_full_commit_pair ==> enqueue_outcome(s, e).1 is None,
        e.is_full_commit_pair && e.pair_id is None <==> enqueue_outcome(s, e).1 == Some(
            DeliveryError::FullCommitWithoutPairId,
        ),
{
}

/// `true` if the last half of the FULL commit in `log` is its PQ half.
pub open spec fn last_half_is_pq(log: Seq<EnvelopeView>, pair_id: u64) -> bool {
    exists|j: int|
        0 <= j < log.len() && #[trigger] is_half(log[j], SessionSide::Pq, pair_id) && forall|k: int|
            j < k < log.len() ==> !is_half(#[trigger] log[k], SessionSide::T, pair_id)
}

/// After some envelopes of a group have been taken, a FULL commit waits for its T half
/// exactly when the last of its halves among them is the PQ half.
pub proof fn pair_waits_iff_pq_half_came_last(log: Seq<EnvelopeView>, pair_id: u64)
    ensures
        pending_after(log).contains(pair_id) <==> last_half_is_pq(log, pair_id),
    decreases log.len(),
{
    if log.len() > 0 {
        let init = log.drop_last();
        let last = log.last();
        pair_waits_iff_pq_half_came_last(init, pair_id);
        if pending_after(log).contains(pair_id) {
            let j = lemma_pending_has_pq_half(log, pair_id);
            assert(is_half(log[j], SessionSide::Pq, pair_id));
        }
        if last_half_is_pq(log, pair_id) {
            let j = choose|j: int|
                0 <= j < log.len() && #[trigger] is_half(log[j], SessionSide::Pq, pair_id)
                    && forall|k: int|
                    j < k < log.len() ==> !is_half(#[trigger] log[k], SessionSide::T, pair_id);
            if j < init.len() {
                assert(is_half(init[j], SessionSide::Pq, pair_id));
                assert forall|k: int| j < k < init.len() implies !is_half(
                    #[trigger] init[k],
                    SessionSide::T,
                    pair_id,
                ) by {
                    assert(init[k] == log[k]);
                }
                assert(!is_half(log[log.len() - 1], SessionSide::T, pair_id));
                assert(!is_half(last, SessionSide::T, pair_id));
            }
        }
    }
}

/// The envelopes of a group that a new service has taken, in the order in which they
/// came.
pub open spec fn taken_for(steps: Seq<DeliveryStep>, group: Seq<u8>) -> Seq<EnvelopeView>
    decreases steps.len(),
{
    if steps.len() == 0 {
        Seq::empty()
    } else {
        let before = taken_for(steps.drop_last(), group);
        match steps.last() {
            DeliveryStep::Enqueue(e) => if e.group_id == group && enqueue_outcome(
                after_steps(steps.drop_last()).service,
                e,
            ).1 is None {
                before.push(e)
            } else {
                before
            },
            _ => before,
        }
    }
}

proof fn lemma_service_remembers_halves(steps: Seq<DeliveryStep>, group: Seq<u8>)
    ensures
        pending_of(after_steps(steps).service, group) == pending_after(taken_for(steps, group)),
    decreases steps.len(),
{
    if steps.len() > 0 {
        lemma_service_remembers_halves(steps.drop_last(), group);
        let log = taken_for(steps.drop_last(), group);
        match steps.last() {
            DeliveryStep::Enqueue(e) => {
                assert(log.push(e).drop_last() =~= log);
            },
            _ => {},
        }
    }
}

/// Whatever has been asked of a service, the T half of a FULL commit is taken exactly
/// when, of the halves of that FULL commit that its group has got so far, the PQ half
/// came last. A PQ half is taken exactly in the other case.
pub proof fn halves_are_taken_by_what_came_before(
    steps: Seq<DeliveryStep>,
    e: EnvelopeView,
    pair_id: u64,
)
    ensures
        is_half(e, SessionSide::T, pair_id) ==> (enqueue_outcome(after_steps(steps).service, e).1 is
            None <==> last_half_is_pq(taken_for(steps, e.group_id), pair_id)),
        is_half(e, SessionSide::Pq, pair_id) ==> (enqueue_outcome(after_steps(steps).service, e).1
            is None <==> !last_half_is_pq(taken_for(steps, e.group_id), pair_id)),
{
    lemma_service_remembers_halves(steps, e.group_id);
    pair_waits_iff_pq_half_came_last(taken_for(steps, e.group_id), pair_id);
}

/// Whatever has been asked of a service, the queue of a group is the end of what the
/// group has got: envelopes leave in the order in which they came, and none is lost or
/// doubled.
pub proof fn queue_is_the_end_of_what_was_taken(steps: Seq<DeliveryStep>, group: Seq<u8>)
    ensures
        ({
            let taken = taken_for(steps, group);
            let queue = queue_of(after_steps(steps).service, group);
            queue.len() <= taken.len() && queue == taken.skip(taken.len() - queue.len())
        }),
    decreases steps.len(),
{
    if steps.len() > 0 {
        let prior = steps.drop_last();
        queue_is_the_end_of_what_was_taken(prior, group);
        let taken = taken_for(steps, group);
        let queue = queue_of(after_steps(steps).service, group);
        assert(queue =~= taken.skip(taken.len() - queue.len()));
    }
}

} // verus!
