//! Groups for callers outside of Rust: which messages a group takes, and what is done
//! with them.
use crate::bytes::copy_bytes;
use crate::mls::{merged_group, MergedCommit, MlsGroup, MlsGroupView, MlsMessageOut};
use crate::types::{Ciphersuite, GroupId};
use vstd::prelude::*;
use vstd::string::*;

verus! {

/// The kinds of messages.
#[derive(Debug, Clone, Copy, PartialEq, Eq, Structural)]
pub enum MessageBody {
    /// A message that is signed only.
    PublicMessage,
    /// A message that is encrypted.
    PrivateMessage,
    /// A welcome.
    Welcome,
    /// What a group is, for someone who wants to join.
    GroupInfo,
    /// A key package.
    KeyPackage,
}

/// Whether a group processes messages of a kind.
pub open spec fn goes_to_group(body: MessageBody) -> bool {
    body == MessageBody::PublicMessage || body == MessageBody::PrivateMessage
}

/// What a processed message turned out to be.
#[derive(Debug, PartialEq, Eq)]
pub enum ReceivedContent {
    /// An application message.
    ApplicationMessage(Vec<u8>),
    /// A proposal.
    ProposalMessage,
    /// A proposal of someone who wants to join.
    ExternalJoinProposalMessage,
    /// A commit, staged but not yet merged.
    StagedCommitMessage,
}

/// What has to be done with a message.
#[derive(Debug, PartialEq, Eq)]
pub enum ReceivedAction {
    /// To hand these bytes to the caller.
    Deliver(Vec<u8>),
    /// To keep the proposal.
    StoreProposal,
    /// To merge the commit.
    MergeCommit,
}

/// A welcome was expected.
#[derive(Debug, Clone, Copy, PartialEq, Eq, Structural)]
pub struct NotAWelcome {
    /// What came.
    pub body: MessageBody,
}

/// There is no welcome to send.
#[derive(Debug, Clone, Copy, PartialEq, Eq, Structural)]
pub struct NoWelcomeError;

impl NoWelcomeError {
    /// The text of the error.
    pub fn message(&self) -> (r: String)
        ensures
            r@ == "no welcome"@,
    {
        "no welcome".to_owned()
    }
}

/// The messages by which a member is added.
#[derive(Debug, PartialEq, Eq)]
pub struct AddMessages {
    proposal: Vec<u8>,
    commit: Vec<u8>,
    welcome: Vec<u8>,
}

/// An `AddMessages` as sequences.
#[verifier::ext_equal]
pub struct AddMessagesView {
    /// The proposal.
    pub proposal: Seq<u8>,
    /// The commit.
    pub commit: Seq<u8>,
    /// The welcome.
    pub welcome: Seq<u8>,
}

impl View for AddMessages {
    type V = AddMessagesView;

    closed spec fn view(&self) -> AddMessagesView {
        AddMessagesView {
            proposal: self.proposal@,
            commit: self.commit@,
            welcome: self.welcome@,
        }
    }
}

impl AddMessages {
    /// The proposal.
    pub fn proposal(&self) -> (r: Vec<u8>)
        ensures
            r@ == self@.proposal,
    {
        copy_bytes(self.proposal.as_slice())
    }

    /// The commit.
    pub fn commit(&self) -> (r: Vec<u8>)
        ensures
            r@ == self@.commit,
    {
        copy_bytes(self.commit.as_slice())
    }

    /// The welcome.
    pub fn welcome(&self) -> (r: Vec<u8>)
        ensures
            r@ == self@.welcome,
    {
        copy_bytes(self.welcome.as_slice())
    }
}

/// A group.
#[derive(Debug, PartialEq, Eq)]
pub struct Group {
    mls_group: MlsGroup,
}

impl View for Group {
    type V = MlsGroupView;

    closed spec fn view(&self) -> MlsGroupView {
        self.mls_group@
    }
}

impl Group {
    /// A group whose id is the text `group_id`, in its first epoch.
    pub fn create_new(group_id: &str) -> (r: Group)
        ensures
            r@ == (MlsGroupView {
                group_id: group_id.spec_bytes(),
                ciphersuite: Ciphersuite::MLS_128_DHKEMX25519_CHACHA20POLY1305_SHA256_Ed25519,
                epoch: 0,
                active: true,
            }),
    {
        Group {
            mls_group: MlsGroup::new(
                GroupId::from_slice(group_id.as_bytes()),
                Ciphersuite::MLS_128_DHKEMX25519_CHACHA20POLY1305_SHA256_Ed25519,
                0,
                true,
            ),
        }
    }

    /// The group that a message of the kind `body` welcomes to. Only a welcome does.
    pub fn join(body: MessageBody, welcomed_to: MlsGroup) -> (r: Result<Group, NotAWelcome>)
        ensures
            match r {
                Ok(group) => body == MessageBody::Welcome && group@ == welcomed_to@,
                Err(e) => body != MessageBody::Welcome && e.body == body,
            },
    {
        if body == MessageBody::Welcome {
            Ok(Group { mls_group: welcomed_to })
        } else {
            Err(NotAWelcome { body })
        }
    }

    /// The messages by which a member is added, once they are made. A commit that adds
    /// someone comes with a welcome.
    pub fn propose_and_commit_add(
        &self,
        proposal: MlsMessageOut,
        commit: MlsMessageOut,
        welcome: Option<MlsMessageOut>,
    ) -> (r: Result<AddMessages, NoWelcomeError>)
        ensures
            match (r, welcome) {
                (Ok(messages), Some(welcome)) => messages@ == (AddMessagesView {
                    proposal: proposal@,
                    commit: commit@,
                    welcome: welcome@,
                }),
                (Err(_), None) => true,
                _ => false,
            },
    {
        match welcome {
            Some(welcome) => Ok(
                AddMessages {
                    proposal: proposal.bytes,
                    commit: commit.bytes,
                    welcome: welcome.bytes,
                },
            ),
            None => Err(NoWelcomeError),
        }
    }

    /// Takes over what a merged commit has made of the group.
    pub fn merge_pending_commit(&mut self, merged: MergedCommit)
        ensures
            final(self)@ == merged_group(old(self)@, merged),
    {
        self.mls_group.record_merge(merged);
    }

    /// What has to be done with a message of the kind `body` that turned out to be
    /// `content`.
    pub fn process_message(&self, body: MessageBody, content: ReceivedContent) -> (r:
        ReceivedAction)
        requires
            goes_to_group(body),
        ensures
            match content {
                ReceivedContent::ApplicationMessage(bytes) => r matches ReceivedAction::Deliver(
                    delivered,
                ) && delivered@ == bytes@,
                ReceivedContent::ProposalMessage
                | ReceivedContent::ExternalJoinProposalMessage => r is StoreProposal,
                ReceivedContent::StagedCommitMessage => r is MergeCommit,
            },
    {
        match content {
            ReceivedContent::ApplicationMessage(bytes) => ReceivedAction::Deliver(bytes),
            ReceivedContent::ProposalMessage
            | ReceivedContent::ExternalJoinProposalMessage => ReceivedAction::StoreProposal,
            ReceivedContent::StagedCommitMessage => ReceivedAction::MergeCommit,
        }
    }

    /// What a caller gets for a proposal that has been kept.
    pub fn proposal_stored(&self) -> (r: Vec<u8>)
        ensures
            r@ == Seq::<u8>::empty(),
    {
        Vec::new()
    }

    /// Takes over what a received commit has made of the group, and returns what a
    /// caller gets for it.
    pub fn commit_merged(&mut self, merged: MergedCommit) -> (r: Vec<u8>)
        ensures
            final(self)@ == merged_group(old(self)@, merged),
            r@ == Seq::<u8>::empty(),
    {
        self.mls_group.record_merge(merged);
        Vec::new()
    }
}

/// A group processes messages of two kinds. Welcomes, descriptions of groups and key
/// packages are not for it.
pub proof fn two_kinds_go_to_a_group(body: MessageBody)
    ensures
        goes_to_group(body) <==> body != MessageBody::Welcome && body != MessageBody::GroupInfo
            && body != MessageBody::KeyPackage,
{
}

} // verus!
