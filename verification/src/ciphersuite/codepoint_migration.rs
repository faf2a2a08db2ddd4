//! From draft codepoints to final ones.
//!
//! Post-quantum suites, KEMs and signature schemes still run under draft or
//! private-use codepoints. A `CodepointMigration` holds what is known of their
//! final ones. Today that is nothing.
use crate::ciphersuite::security_mode::{
    suite_mode, suite_mode_shows_in_codepoint_and_signature, SecurityMode,
};
use crate::group::no_downgrade::ConversationSecurityState;
use crate::types::{
    ciphersuite_codepoint, ciphersuite_is_draft, Ciphersuite, HpkeKemType, SignatureScheme,
};
use vstd::prelude::*;

verus! {

/// A draft suite and its final form.
#[derive(Debug, Clone, Copy, PartialEq, Eq, Structural)]
pub struct CiphersuiteRow {
    /// The draft suite.
    pub draft: Ciphersuite,
    /// The final suite.
    pub final_value: Ciphersuite,
}

/// A draft KEM and its final form.
#[derive(Debug, Clone, Copy, PartialEq, Eq, Structural)]
pub struct KemRow {
    /// The draft KEM.
    pub draft: HpkeKemType,
    /// The final KEM.
    pub final_value: HpkeKemType,
}

/// A draft signature scheme and its final form.
#[derive(Debug, Clone, Copy, PartialEq, Eq, Structural)]
pub struct SigRow {
    /// The draft scheme.
    pub draft: SignatureScheme,
    /// The final scheme.
    pub final_value: SignatureScheme,
}

/// A table of final codepoints.
#[derive(Debug)]
pub struct CodepointMigration {
    ciphersuites: Vec<CiphersuiteRow>,
    kems: Vec<KemRow>,
    signatures: Vec<SigRow>,
}

/// The contents of a table.
pub struct CodepointMigrationView {
    /// The rows for ciphersuites.
    pub ciphersuites: Seq<CiphersuiteRow>,
    /// The rows for KEMs.
    pub kems: Seq<KemRow>,
    /// The rows for signature schemes.
    pub signatures: Seq<SigRow>,
}

impl View for CodepointMigration {
    type V = CodepointMigrationView;

    closed spec fn view(&self) -> CodepointMigrationView {
        CodepointMigrationView {
            ciphersuites: self.ciphersuites@,
            kems: self.kems@,
            signatures: self.signatures@,
        }
    }
}

impl Clone for CodepointMigration {
    fn clone(&self) -> (r: Self)
        ensures
            r@ == self@,
    {
        let mut ciphersuites: Vec<CiphersuiteRow> = Vec::new();
        ciphersuites.extend_from_slice(self.ciphersuites.as_slice());
        let mut kems: Vec<KemRow> = Vec::new();
        kems.extend_from_slice(self.kems.as_slice());
        let mut signatures: Vec<SigRow> = Vec::new();
        signatures.extend_from_slice(self.signatures.as_slice());
        assert(ciphersuites@ =~= self.ciphersuites@);
        assert(kems@ =~= self.kems@);
        assert(signatures@ =~= self.signatures@);
        CodepointMigration { ciphersuites, kems, signatures }
    }
}

/// The final form that the first row for `draft` gives.
pub open spec fn final_suite(rows: Seq<CiphersuiteRow>, draft: Ciphersuite) -> Option<Ciphersuite>
    decreases rows.len(),
{
    if rows.len() == 0 {
        None
    } else if rows[0].draft == draft {
        Some(rows[0].final_value)
    } else {
        final_suite(rows.skip(1), draft)
    }
}

/// The final form that the first row for `draft` gives.
pub open spec fn final_kem(rows: Seq<KemRow>, draft: HpkeKemType) -> Option<HpkeKemType>
    decreases rows.len(),
{
    if rows.len() == 0 {
        None
    } else if rows[0].draft == draft {
        Some(rows[0].final_value)
    } else {
        final_kem(rows.skip(1), draft)
    }
}

/// The final form that the first row for `draft` gives.
pub open spec fn final_signature(rows: Seq<SigRow>, draft: SignatureScheme) -> Option<
    SignatureScheme,
>
    decreases rows.len(),
{
    if rows.len() == 0 {
        None
    } else if rows[0].draft == draft {
        Some(rows[0].final_value)
    } else {
        final_signature(rows.skip(1), draft)
    }
}

/// The state with its pin in final form, where the table has one.
pub open spec fn migrated_state(
    rows: Seq<CiphersuiteRow>,
    state: ConversationSecurityState,
) -> ConversationSecurityState {
    match state.pinned_ciphersuite {
        None => state,
        Some(pinned) => match final_suite(rows, pinned) {
            None => state,
            Some(f) => ConversationSecurityState { pinned_ciphersuite: Some(f), ..state },
        },
    }
}

impl CodepointMigration {
    /// A table with the given rows.
    pub fn new(
        ciphersuites: Vec<CiphersuiteRow>,
        kems: Vec<KemRow>,
        signatures: Vec<SigRow>,
    ) -> (r: Self)
        ensures
            r@ == (CodepointMigrationView {
                ciphersuites: ciphersuites@,
                kems: kems@,
                signatures: signatures@,
            }),
    {
        CodepointMigration { ciphersuites, kems, signatures }
    }

    /// The final form of a suite, if the table has one.
    pub fn migrate_ciphersuite(&self, draft: Ciphersuite) -> (r: Option<Ciphersuite>)
        ensures
            r == final_suite(self@.ciphersuites, draft),
    {
        let mut i: usize = 0;
        assert(self.ciphersuites@.skip(0) =~= self.ciphersuites@);
        while i < self.ciphersuites.len()
            invariant
                i <= self.ciphersuites@.len(),
                final_suite(self.ciphersuites@, draft) == final_suite(
                    self.ciphersuites@.skip(i as int),
                    draft,
                ),
            decreases self.ciphersuites@.len() - i,
        {
            let row = self.ciphersuites[i];
            assert(self.ciphersuites@.skip(i as int)[0] == row);
            assert(self.ciphersuites@.skip(i as int).skip(1) =~= self.ciphersuites@.skip(i + 1));
            if row.draft == draft {
                return Some(row.final_value);
            }
            i += 1;
        }
        None
    }

    /// The final form of a KEM, if the table has one.
    pub fn migrate_kem_type(&self, draft: HpkeKemType) -> (r: Option<HpkeKemType>)
        ensures
            r == final_kem(self@.kems, draft),
    {
        let mut i: usize = 0;
        assert(self.kems@.skip(0) =~= self.kems@);
        while i < self.kems.len()
            invariant
                i <= self.kems@.len(),
                final_kem(self.kems@, draft) == final_kem(self.kems@.skip(i as int), draft),
            decreases self.kems@.len() - i,
        {
            let row = self.kems[i];
            assert(self.kems@.skip(i as int)[0] == row);
            assert(self.kems@.skip(i as int).skip(1) =~= self.kems@.skip(i + 1));
            if row.draft == draft {
                return Some(row.final_value);
            }
            i += 1;
        }
        None
    }

    /// The final form of a signature scheme, if the table has one.
    pub fn migrate_signature_scheme(&self, draft: SignatureScheme) -> (r: Option<SignatureScheme>)
        ensures
            r == final_signature(self@.signatures, draft),
    {
        let mut i: usize = 0;
        assert(self.signatures@.skip(0) =~= self.signatures@);
        while i < self.signatures.len()
            invariant
                i <= self.signatures@.len(),
                final_signature(self.signatures@, draft) == final_signature(
                    self.signatures@.skip(i as int),
                    draft,
                ),
            decreases self.signatures@.len() - i,
        {
            let row = self.signatures[i];
            assert(self.signatures@.skip(i as int)[0] == row);
            assert(self.signatures@.skip(i as int).skip(1) =~= self.signatures@.skip(i + 1));
            if row.draft == draft {
                return Some(row.final_value);
            }
            i += 1;
        }
        None
    }

    /// Whether the table has a final form of the suite.
    pub fn can_migrate(&self, cs: Ciphersuite) -> (r: bool)
        ensures
            r == final_suite(self@.ciphersuites, cs) is Some,
    {
        self.migrate_ciphersuite(cs).is_some()
    }

    /// Brings the pin of a state into its final form, if the table has one, and
    /// returns whether that changed it. No mode changes.
    pub fn migrate_state(&self, state: &mut ConversationSecurityState) -> (rotated: bool)
        ensures
            *final(state) == migrated_state(self@.ciphersuites, *old(state)),
            rotated == (*final(state) != *old(state)),
    {
        let pinned = match state.pinned_ciphersuite {
            Some(p) => p,
            None => {
                return false;
            },
        };
        match self.migrate_ciphersuite(pinned) {
            Some(final_value) => {
                if final_value != pinned {
                    state.pinned_ciphersuite = Some(final_value);
                    true
                } else {
                    false
                }
            },
            None => false,
        }
    }
}

/// The table of today: no final codepoint has been assigned.
pub fn default_migration() -> (r: CodepointMigration)
    ensures
        r@.ciphersuites.len() == 0,
        r@.kems.len() == 0,
        r@.signatures.len() == 0,
{
    CodepointMigration::new(Vec::new(), Vec::new(), Vec::new())
}

/// The final form of a suite today.
pub fn migrate_ciphersuite(draft: Ciphersuite) -> (r: Option<Ciphersuite>)
    ensures
        r is None,
{
    default_migration().migrate_ciphersuite(draft)
}

/// The final form of a KEM today.
pub fn migrate_kem_type(draft: HpkeKemType) -> (r: Option<HpkeKemType>)
    ensures
        r is None,
{
    default_migration().migrate_kem_type(draft)
}

/// The final form of a signature scheme today.
pub fn migrate_signature_scheme(draft: SignatureScheme) -> (r: Option<SignatureScheme>)
    ensures
        r is None,
{
    default_migration().migrate_signature_scheme(draft)
}

/// Whether the suite runs under a draft codepoint, and so will have to change.
pub fn needs_migration(cs: Ciphersuite) -> (r: bool)
    ensures
        r == ciphersuite_is_draft(cs),
{
    cs.is_draft_codepoint()
}

/// Brings the pin of a state into its final form, as far as final codepoints are
/// known today.
pub fn migrate_conversation_state(state: &mut ConversationSecurityState) -> (rotated: bool)
    ensures
        *final(state) == *old(state),
        !rotated,
{
    default_migration().migrate_state(state)
}

/// Bringing codepoints into their final form touches no mode, and leaves a state
/// without a pin as it is.
pub proof fn migration_touches_only_the_pin(
    rows: Seq<CiphersuiteRow>,
    state: ConversationSecurityState,
)
    ensures
        migrated_state(rows, state).current_mode == state.current_mode,
        migrated_state(rows, state).highest_mode_ever == state.highest_mode_ever,
        migrated_state(rows, state).policy_floor == state.policy_floor,
        state.pinned_ciphersuite is None ==> migrated_state(rows, state) == state,
        state.pinned_ciphersuite matches Some(p) ==> migrated_state(rows, state).pinned_ciphersuite
            == (match final_suite(rows, p) {
            Some(f) => Some(f),
            None => Some(p),
        }),
{
}

/// The final form of a suite is that of the first row for it: the row at place `i` counts
/// if no row before it is for the same suite, and without a row there is none.
pub proof fn first_row_gives_the_final_suite(
    rows: Seq<CiphersuiteRow>,
    draft: Ciphersuite,
    i: int,
)
    ensures
        0 <= i < rows.len() && rows[i].draft == draft && (forall|k: int|
            0 <= k < i ==> (#[trigger] rows[k]).draft != draft) ==> final_suite(rows, draft)
            == Some(rows[i].final_value),
        final_suite(rows, draft) is None <==> forall|k: int|
            0 <= k < rows.len() ==> (#[trigger] rows[k]).draft != draft,
    decreases rows.len(),
{
    if rows.len() > 0 {
        let tail = rows.skip(1);
        first_row_gives_the_final_suite(tail, draft, i - 1);
        if rows[0].draft != draft {
            if forall|k: int| 0 <= k < tail.len() ==> (#[trigger] tail[k]).draft != draft {
                assert forall|k: int| 0 <= k < rows.len() implies (#[trigger] rows[k]).draft
                    != draft by {
                    if k > 0 {
                        assert(tail[k - 1] == rows[k]);
                    }
                }
            }
            if forall|k: int| 0 <= k < rows.len() ==> (#[trigger] rows[k]).draft != draft {
                assert forall|k: int| 0 <= k < tail.len() implies (#[trigger] tail[k]).draft
                    != draft by {
                    assert(tail[k] == rows[k + 1]);
                }
            }
            if 0 < i < rows.len() && forall|k: int|
                0 <= k < i ==> (#[trigger] rows[k]).draft != draft {
                assert(tail[i - 1] == rows[i]);
                assert forall|k: int| 0 <= k < i - 1 implies (#[trigger] tail[k]).draft
                    != draft by {
                    assert(tail[k] == rows[k + 1]);
                }
            }
        }
    }
}

/// The final form of a KEM is that of the first row for it.
pub proof fn first_row_gives_the_final_kem(rows: Seq<KemRow>, draft: HpkeKemType, i: int)
    ensures
        0 <= i < rows.len() && rows[i].draft == draft && (forall|k: int|
            0 <= k < i ==> (#[trigger] rows[k]).draft != draft) ==> final_kem(rows, draft) == Some(
            rows[i].final_value,
        ),
        final_kem(rows, draft) is None <==> forall|k: int|
            0 <= k < rows.len() ==> (#[trigger] rows[k]).draft != draft,
    decreases rows.len(),
{
    if rows.len() > 0 {
        let tail = rows.skip(1);
        first_row_gives_the_final_kem(tail, draft, i - 1);
        if rows[0].draft != draft {
            if forall|k: int| 0 <= k < tail.len() ==> (#[trigger] tail[k]).draft != draft {
                assert forall|k: int| 0 <= k < rows.len() implies (#[trigger] rows[k]).draft
                    != draft by {
                    if k > 0 {
                        assert(tail[k - 1] == rows[k]);
                    }
                }
            }
            if forall|k: int| 0 <= k < rows.len() ==> (#[trigger] rows[k]).draft != draft {
                assert forall|k: int| 0 <= k < tail.len() implies (#[trigger] tail[k]).draft
                    != draft by {
                    assert(tail[k] == rows[k + 1]);
                }
            }
            if 0 < i < rows.len() && forall|k: int|
                0 <= k < i ==> (#[trigger] rows[k]).draft != draft {
                assert(tail[i - 1] == rows[i]);
                assert forall|k: int| 0 <= k < i - 1 implies (#[trigger] tail[k]).draft
                    != draft by {
                    assert(tail[k] == rows[k + 1]);
                }
            }
        }
    }
}

/// The final form of a signature scheme is that of the first row for it.
pub proof fn first_row_gives_the_final_signature(
    rows: Seq<SigRow>,
    draft: SignatureScheme,
    i: int,
)
    ensures
        0 <= i < rows.len() && rows[i].draft == draft && (forall|k: int|
            0 <= k < i ==> (#[trigger] rows[k]).draft != draft) ==> final_signature(rows, draft)
            == Some(rows[i].final_value),
        final_signature(rows, draft) is None <==> forall|k: int|
            0 <= k < rows.len() ==> (#[trigger] rows[k]).draft != draft,
    decreases rows.len(),
{
    if rows.len() > 0 {
        let tail = rows.skip(1);
        first_row_gives_the_final_signature(tail, draft, i - 1);
        if rows[0].draft != draft {
            if forall|k: int| 0 <= k < tail.len() ==> (#[trigger] tail[k]).draft != draft {
                assert forall|k: int| 0 <= k < rows.len() implies (#[trigger] rows[k]).draft
                    != draft by {
                    if k > 0 {
                        assert(tail[k - 1] == rows[k]);
                    }
                }
            }
            if forall|k: int| 0 <= k < rows.len() ==> (#[trigger] rows[k]).draft != draft {
                assert forall|k: int| 0 <= k < tail.len() implies (#[trigger] tail[k]).draft
                    != draft by {
                    assert(tail[k] == rows[k + 1]);
                }
            }
            if 0 < i < rows.len() && forall|k: int|
                0 <= k < i ==> (#[trigger] rows[k]).draft != draft {
                assert(tail[i - 1] == rows[i]);
                assert forall|k: int| 0 <= k < i - 1 implies (#[trigger] tail[k]).draft
                    != draft by {
                    assert(tail[k] == rows[k + 1]);
                }
            }
        }
    }
}

/// A suite will have to change exactly when it is not one of the seven final ones, and
/// those are the suites that provide a post-quantum mode.
pub proof fn draft_suites_are_the_post_quantum_ones(cs: Ciphersuite)
    ensures
        ciphersuite_is_draft(cs) <==> ciphersuite_codepoint(cs) > 7,
        ciphersuite_is_draft(cs) <==> suite_mode(cs) != SecurityMode::Classical,
{
    suite_mode_shows_in_codepoint_and_signature(cs);
}

} // verus!
