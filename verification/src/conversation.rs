//! Conversations, and how one item of the conversation stream is resolved and
//! filtered.

use vstd::prelude::*;
use crate::errors::{SourceError, SubscribeError};
use crate::welcome::WelcomeMessage;

verus! {

/// The cursor with which the welcome feed is opened: from the beginning known
/// to the server for this installation.
pub const WELCOME_START_CURSOR: u64 = 0;

/// The three forms of a conversation.
#[derive(Clone, Copy, Debug, PartialEq, Eq, Structural)]
pub enum ConversationType {
    Group,
    Dm,
    Sync,
}

/// A handle to a conversation: its identity and when it was created.
#[derive(Clone, Debug, PartialEq, Eq)]
pub struct MlsGroup {
    pub group_id: Vec<u8>,
    pub created_at_ns: i64,
}

impl MlsGroup {
    pub fn new(group_id: Vec<u8>, created_at_ns: i64) -> (g: MlsGroup)
        ensures
            g.group_id == group_id,
            g.created_at_ns == created_at_ns,
    {
        MlsGroup { group_id, created_at_ns }
    }
}

/// What the stream reads of a conversation's metadata.
#[derive(Clone, Copy, Debug, PartialEq, Eq)]
pub struct GroupMetadata {
    pub conversation_type: ConversationType,
}

/// A conversation as the store holds it.
#[derive(Clone, Debug, PartialEq, Eq)]
pub struct StoredGroup {
    pub id: Vec<u8>,
    pub created_at_ns: i64,
    pub welcome_id: Option<i64>,
}

/// One item of the merged discovery feed, tagged by where it came from.
#[derive(Debug, PartialEq, Eq)]
pub enum WelcomeOrGroup {
    /// A conversation announced on the local event bus.
    Group(Result<MlsGroup, SubscribeError>),
    /// A welcome envelope from the remote feed, or the transport's error.
    Welcome(Result<WelcomeMessage, SourceError>),
}

/// What has to happen next for an item of the discovery feed.
#[derive(Debug, PartialEq, Eq)]
pub enum ConversationPlan {
    /// Run the welcome processor on this envelope, then fetch the metadata of
    /// the conversation it returns.
    ProcessWelcome(WelcomeMessage),
    /// The conversation is at hand: fetch its metadata.
    FetchMetadata(MlsGroup),
    /// The item is an error: yield it.
    Fail(SubscribeError),
}

/// Decides what to do with one item of the discovery feed. A transport error
/// becomes an `Api` error; an error from the bus passes through; a welcome goes
/// to the welcome processor; a local conversation is taken as it is.
pub fn plan_conversation(item: WelcomeOrGroup) -> (plan: ConversationPlan)
    ensures
        plan == match item {
            WelcomeOrGroup::Welcome(Ok(welcome)) => ConversationPlan::ProcessWelcome(welcome),
            WelcomeOrGroup::Welcome(Err(e)) => ConversationPlan::Fail(SubscribeError::Api(e)),
            WelcomeOrGroup::Group(Ok(group)) => ConversationPlan::FetchMetadata(group),
            WelcomeOrGroup::Group(Err(e)) => ConversationPlan::Fail(e),
        },
{
    match item {
        WelcomeOrGroup::Welcome(Ok(welcome)) => ConversationPlan::ProcessWelcome(welcome),
        WelcomeOrGroup::Welcome(Err(e)) => ConversationPlan::Fail(SubscribeError::Api(e)),
        WelcomeOrGroup::Group(Ok(group)) => ConversationPlan::FetchMetadata(group),
        WelcomeOrGroup::Group(Err(e)) => ConversationPlan::Fail(e),
    }
}

/// Joins a conversation with the outcome of its metadata lookup: the pair of
/// both, or the lookup's failure as a `Group` error.
pub fn resolve_conversation(group: MlsGroup, metadata: Result<GroupMetadata, SourceError>) -> (resolved:
    Result<(GroupMetadata, MlsGroup), SubscribeError>)
    ensures
        resolved == match metadata {
            Ok(m) => Ok::<(GroupMetadata, MlsGroup), SubscribeError>((m, group)),
            Err(e) => Err(SubscribeError::Group(e)),
        },
{
    match metadata {
        Ok(m) => Ok((m, group)),
        Err(e) => Err(SubscribeError::Group(e)),
    }
}

/// Whether a conversation of type `actual` passes the filter `wanted`: no
/// filter lets everything through.
pub open spec fn passes_filter(wanted: Option<ConversationType>, actual: ConversationType) -> bool {
    match wanted {
        None => true,
        Some(t) => t == actual,
    }
}

/// Applies the conversation-type filter to a resolved item. An error is always
/// yielded; a conversation is yielded exactly when its type passes the filter,
/// and dropped otherwise.
pub fn filter_conversation(
    conversation_type: Option<ConversationType>,
    resolved: Result<(GroupMetadata, MlsGroup), SubscribeError>,
) -> (yielded: Option<Result<MlsGroup, SubscribeError>>)
    ensures
        yielded == match resolved {
            Err(e) => Some(Err::<MlsGroup, SubscribeError>(e)),
            Ok((metadata, group)) => if passes_filter(
                conversation_type,
                metadata.conversation_type,
            ) {
                Some(Ok(group))
            } else {
                None
            },
        },
{
    match resolved {
        Err(e) => Some(Err(e)),
        Ok((metadata, group)) => {
            let keep = match conversation_type {
                None => true,
                Some(t) => t == metadata.conversation_type,
            };
            if keep {
                Some(Ok(group))
            } else {
                None
            }
        },
    }
}

} // verus!
