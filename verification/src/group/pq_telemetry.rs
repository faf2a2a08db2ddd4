//! What happened to post-quantum conversations, for those who watch them.
//!
//! No event carries a message or a secret: identifiers are opaque bytes, and the
//! rest is public.
use crate::bytes::copy_bytes;
use crate::ciphersuite::security_mode::SecurityMode;
use crate::types::Ciphersuite;
use vstd::prelude::*;
use vstd::string::*;

verus! {

/// Something that happened.
#[derive(Debug, PartialEq, Eq)]
pub enum PqTelemetryEvent {
    /// A fetch found no key package.
    KeyPackageExhaustion {
        /// The user.
        user_id: Vec<u8>,
        /// The device.
        device_id: Vec<u8>,
        /// The requested suite.
        ciphersuite: Ciphersuite,
    },
    /// The local provider does not support a suite.
    UnsupportedCiphersuite {
        /// The suite.
        ciphersuite: Ciphersuite,
        /// The name of the provider.
        provider_id: String,
    },
    /// One half of a FULL commit is missing.
    MissedCommitPair {
        /// The conversation.
        conversation_id: Vec<u8>,
        /// The side that is missing: `"T"` or `"PQ"`.
        missed_side: String,
        /// The epoch of the T session.
        t_epoch: u64,
        /// The epoch of the PQ session.
        pq_epoch: u64,
    },
    /// Someone tried to weaken a conversation, whether or not it was refused.
    DowngradeAttempt {
        /// The conversation.
        conversation_id: Vec<u8>,
        /// The mode of the conversation.
        from: SecurityMode,
        /// The requested mode.
        to: SecurityMode,
    },
    /// The provider failed.
    PqProviderError {
        /// The operation.
        operation: String,
        /// What went wrong.
        error: String,
    },
    /// The paired sessions of a conversation are set up.
    ApqBootstrapCompleted {
        /// The conversation.
        conversation_id: Vec<u8>,
        /// The mode.
        mode: SecurityMode,
        /// The number of members.
        member_count: usize,
    },
    /// A conversation has moved to a new group.
    ReInitCompleted {
        /// The conversation.
        conversation_id: Vec<u8>,
        /// The suite of the old group.
        old_ciphersuite: Ciphersuite,
        /// The suite of the new group.
        new_ciphersuite: Ciphersuite,
    },
    /// The sessions of a conversation are being brought together again.
    ResyncTriggered {
        /// The conversation.
        conversation_id: Vec<u8>,
        /// The way in which that is done.
        status: String,
    },
}

/// A `PqTelemetryEvent` with its identifiers and texts as sequences.
pub enum PqTelemetryEventView {
    /// See `PqTelemetryEvent::KeyPackageExhaustion`.
    KeyPackageExhaustion {
        /// The user.
        user_id: Seq<u8>,
        /// The device.
        device_id: Seq<u8>,
        /// The requested suite.
        ciphersuite: Ciphersuite,
    },
    /// See `PqTelemetryEvent::UnsupportedCiphersuite`.
    UnsupportedCiphersuite {
        /// The suite.
        ciphersuite: Ciphersuite,
        /// The name of the provider.
        provider_id: Seq<char>,
    },
    /// See `PqTelemetryEvent::MissedCommitPair`.
    MissedCommitPair {
        /// The conversation.
        conversation_id: Seq<u8>,
        /// The side that is missing: `"T"` or `"PQ"`.
        missed_side: Seq<char>,
        /// The epoch of the T session.
        t_epoch: u64,
        /// The epoch of the PQ session.
        pq_epoch: u64,
    },
    /// See `PqTelemetryEvent::DowngradeAttempt`.
    DowngradeAttempt {
        /// The conversation.
        conversation_id: Seq<u8>,
        /// The mode of the conversation.
        from: SecurityMode,
        /// The requested mode.
        to: SecurityMode,
    },
    /// See `PqTelemetryEvent::PqProviderError`.
    PqProviderError {
        /// The operation.
        operation: Seq<char>,
        /// What went wrong.
        error: Seq<char>,
    },
    /// See `PqTelemetryEvent::ApqBootstrapCompleted`.
    ApqBootstrapCompleted {
        /// The conversation.
        conversation_id: Seq<u8>,
        /// The mode.
        mode: SecurityMode,
        /// The number of members.
        member_count: usize,
    },
    /// See `PqTelemetryEvent::ReInitCompleted`.
    ReInitCompleted {
        /// The conversation.
        conversation_id: Seq<u8>,
        /// The suite of the old group.
        old_ciphersuite: Ciphersuite,
        /// The suite of the new group.
        new_ciphersuite: Ciphersuite,
    },
    /// See `PqTelemetryEvent::ResyncTriggered`.
    ResyncTriggered {
        /// The conversation.
        conversation_id: Seq<u8>,
        /// The way in which that is done.
        status: Seq<char>,
    },
}

impl View for PqTelemetryEvent {
    type V = PqTelemetryEventView;

    open spec fn view(&self) -> PqTelemetryEventView {
        match self {
            PqTelemetryEvent::KeyPackageExhaustion { user_id, device_id, ciphersuite } => PqTelemetryEventView::KeyPackageExhaustion {
                user_id: user_id@,
                device_id: device_id@,
                ciphersuite: *ciphersuite,
            },
            PqTelemetryEvent::UnsupportedCiphersuite { ciphersuite, provider_id } => PqTelemetryEventView::UnsupportedCiphersuite {
                ciphersuite: *ciphersuite,
                provider_id: provider_id@,
            },
            PqTelemetryEvent::MissedCommitPair { conversation_id, missed_side, t_epoch, pq_epoch } => PqTelemetryEventView::MissedCommitPair {
                conversation_id: conversation_id@,
                missed_side: missed_side@,
                t_epoch: *t_epoch,
                pq_epoch: *pq_epoch,
            },
            PqTelemetryEvent::DowngradeAttempt { conversation_id, from, to } => PqTelemetryEventView::DowngradeAttempt {
                conversation_id: conversation_id@,
                from: *from,
                to: *to,
            },
            PqTelemetryEvent::PqProviderError { operation, error } => PqTelemetryEventView::PqProviderError {
                operation: operation@,
                error: error@,
            },
            PqTelemetryEvent::ApqBootstrapCompleted { conversation_id, mode, member_count } => PqTelemetryEventView::ApqBootstrapCompleted {
                conversation_id: conversation_id@,
                mode: *mode,
                member_count: *member_count,
            },
            PqTelemetryEvent::ReInitCompleted { conversation_id, old_ciphersuite, new_ciphersuite } => PqTelemetryEventView::ReInitCompleted {
                conversation_id: conversation_id@,
                old_ciphersuite: *old_ciphersuite,
                new_ciphersuite: *new_ciphersuite,
            },
            PqTelemetryEvent::ResyncTriggered { conversation_id, status } => PqTelemetryEventView::ResyncTriggered {
                conversation_id: conversation_id@,
                status: status@,
            },
        }
    }
}

impl Clone for PqTelemetryEvent {
    fn clone(&self) -> (r: Self)
        ensures
            r@ == self@,
    {
        match self {
            PqTelemetryEvent::KeyPackageExhaustion { user_id, device_id, ciphersuite } => PqTelemetryEvent::KeyPackageExhaustion {
                user_id: copy_bytes(user_id.as_slice()),
                device_id: copy_bytes(device_id.as_slice()),
                ciphersuite: *ciphersuite,
            },
            PqTelemetryEvent::UnsupportedCiphersuite { ciphersuite, provider_id } => PqTelemetryEvent::UnsupportedCiphersuite {
                ciphersuite: *ciphersuite,
                provider_id: provider_id.clone(),
            },
            PqTelemetryEvent::MissedCommitPair { conversation_id, missed_side, t_epoch, pq_epoch } => PqTelemetryEvent::MissedCommitPair {
                conversation_id: copy_bytes(conversation_id.as_slice()),
                missed_side: missed_side.clone(),
                t_epoch: *t_epoch,
                pq_epoch: *pq_epoch,
            },
            PqTelemetryEvent::DowngradeAttempt { conversation_id, from, to } => PqTelemetryEvent::DowngradeAttempt {
                conversation_id: copy_bytes(conversation_id.as_slice()),
                from: *from,
                to: *to,
            },
            PqTelemetryEvent::PqProviderError { operation, error } => PqTelemetryEvent::PqProviderError {
                operation: operation.clone(),
                error: error.clone(),
            },
            PqTelemetryEvent::ApqBootstrapCompleted { conversation_id, mode, member_count } => PqTelemetryEvent::ApqBootstrapCompleted {
                conversation_id: copy_bytes(conversation_id.as_slice()),
                mode: *mode,
                member_count: *member_count,
            },
            PqTelemetryEvent::ReInitCompleted { conversation_id, old_ciphersuite, new_ciphersuite } => PqTelemetryEvent::ReInitCompleted {
                conversation_id: copy_bytes(conversation_id.as_slice()),
                old_ciphersuite: *old_ciphersuite,
                new_ciphersuite: *new_ciphersuite,
            },
            PqTelemetryEvent::ResyncTriggered { conversation_id, status } => PqTelemetryEvent::ResyncTriggered {
                conversation_id: copy_bytes(conversation_id.as_slice()),
                status: status.clone(),
            },
        }
    }
}

/// Takes events. What becomes of them is up to the implementation, which must not
/// panic.
pub trait PqTelemetryEmitter {
    /// Takes one event.
    fn emit(&mut self, event: PqTelemetryEvent);
}

/// Drops every event.
#[derive(Debug, Clone, Copy, PartialEq, Eq, Structural)]
pub struct NoOpTelemetryEmitter;

impl PqTelemetryEmitter for NoOpTelemetryEmitter {
    fn emit(&mut self, event: PqTelemetryEvent)
        ensures
            *final(self) == *old(self),
    {
    }
}

impl Default for NoOpTelemetryEmitter {
    fn default() -> (r: Self)
        ensures
            r == NoOpTelemetryEmitter,
    {
        NoOpTelemetryEmitter
    }
}

/// Keeps every event, in the order in which they came.
#[derive(Debug)]
pub struct InMemoryTelemetryEmitter {
    events: Vec<PqTelemetryEvent>,
}

/// The views of a list of events.
pub open spec fn event_views(list: Seq<PqTelemetryEvent>) -> Seq<PqTelemetryEventView> {
    list.map_values(|e: PqTelemetryEvent| e@)
}

impl View for InMemoryTelemetryEmitter {
    type V = Seq<PqTelemetryEventView>;

    closed spec fn view(&self) -> Seq<PqTelemetryEventView> {
        event_views(self.events@)
    }
}

impl InMemoryTelemetryEmitter {
    /// An emitter that has seen nothing.
    pub fn new() -> (r: Self)
        ensures
            r@ == Seq::<PqTelemetryEventView>::empty(),
    {
        let r = InMemoryTelemetryEmitter { events: Vec::new() };
        assert(r@ =~= Seq::<PqTelemetryEventView>::empty());
        r
    }

    /// A copy of all events so far.
    pub fn events(&self) -> (r: Vec<PqTelemetryEvent>)
        ensures
            event_views(r@) == self@,
    {
        let mut copy: Vec<PqTelemetryEvent> = Vec::new();
        let mut i: usize = 0;
        while i < self.events.len()
            invariant
                i <= self.events@.len(),
                copy@.len() == i,
                forall|j: int| 0 <= j < i ==> (#[trigger] copy@[j])@ == self.events@[j]@,
            decreases self.events@.len() - i,
        {
            copy.push(self.events[i].clone());
            i += 1;
        }
        assert(event_views(copy@) =~= self@);
        copy
    }

    /// The number of events so far.
    pub fn len(&self) -> (r: usize)
        ensures
            r == self@.len(),
    {
        self.events.len()
    }

    /// Whether there was no event yet.
    pub fn is_empty(&self) -> (r: bool)
        ensures
            r == (self@.len() == 0),
    {
        self.events.len() == 0
    }

    /// Hands out all events so far, and forgets them.
    pub fn drain(&mut self) -> (r: Vec<PqTelemetryEvent>)
        ensures
            event_views(r@) == old(self)@,
            final(self)@ == Seq::<PqTelemetryEventView>::empty(),
    {
        let mut taken: Vec<PqTelemetryEvent> = Vec::new();
        std::mem::swap(&mut taken, &mut self.events);
        assert(self@ =~= Seq::<PqTelemetryEventView>::empty());
        taken
    }
}

impl Default for InMemoryTelemetryEmitter {
    fn default() -> (r: Self)
        ensures
            r@ == Seq::<PqTelemetryEventView>::empty(),
    {
        InMemoryTelemetryEmitter::new()
    }
}

impl PqTelemetryEmitter for InMemoryTelemetryEmitter {
    fn emit(&mut self, event: PqTelemetryEvent)
        ensures
            final(self)@ == old(self)@.push(event@),
    {
        self.events.push(event);
        assert(self@ =~= old(self)@.push(event@));
    }
}

} // verus!
