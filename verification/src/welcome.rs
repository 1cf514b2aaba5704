//! The welcome processor: how a welcome envelope becomes exactly one local
//! conversation, whether it is seen once or many times.
//!
//! Creating the conversation and looking it up are the work of the MLS engine
//! and the store. The processor decides between them: a creation that succeeds
//! is the result; one that fails is followed by a lookup under the welcome's id,
//! and a conversation found there is the result in its place.

use vstd::prelude::*;
use crate::conversation::{MlsGroup, StoredGroup};
use crate::errors::{ClientError, SourceError};

verus! {

/// The first version of a welcome.
#[derive(Clone, Debug, PartialEq, Eq)]
pub struct WelcomeMessageV1 {
    /// The identifier that the server assigned; the key under which the store
    /// finds the conversation again.
    pub id: u64,
    pub created_ns: u64,
    pub installation_key: Vec<u8>,
    pub data: Vec<u8>,
    pub hpke_public_key: Vec<u8>,
}

/// A welcome envelope as the transport delivers it, once its bytes are decoded.
#[derive(Clone, Debug, PartialEq, Eq)]
pub struct WelcomeMessage {
    pub version: Option<WelcomeMessageV1>,
}

/// The text of the error for an envelope that holds no known version.
pub open spec fn unexpected_welcome_text() -> Seq<char> {
    "unexpected message type in welcome"@
}

/// Takes the first-version welcome out of its envelope. An envelope without
/// one is a generic error, final for the item.
pub fn extract_welcome_message(welcome: WelcomeMessage) -> (r: Result<WelcomeMessageV1, ClientError>)
    ensures
        match welcome.version {
            Some(v1) => r == Ok::<WelcomeMessageV1, ClientError>(v1),
            None => r matches Err(ClientError::Generic(text)) && text@
                == unexpected_welcome_text(),
        },
{
    match welcome.version {
        Some(v1) => Ok(v1),
        None => Err(ClientError::Generic("unexpected message type in welcome".to_owned())),
    }
}

/// The envelope of a streamed welcome, given what decoding its bytes returned. A
/// decoded envelope passes through; a failure to decode becomes a generic
/// error with the decoding error's text, final for the item.
pub fn decoded_welcome(decoded: Result<WelcomeMessage, prost::DecodeError>) -> (r: Result<
    WelcomeMessage,
    ClientError,
>)
    ensures
        match decoded {
            Ok(envelope) => r == Ok::<WelcomeMessage, ClientError>(envelope),
            Err(_) => r matches Err(ClientError::Generic(text))
                && crate::errors::decode_error_prefix().is_prefix_of(text@),
        },
{
    match decoded {
        Ok(envelope) => Ok(envelope),
        Err(e) => Err(ClientError::from_decode_error(&e)),
    }
}

/// The key under which the store files a welcome: the server's identifier read
/// as a signed number of the same 64 bits.
pub fn welcome_id_key(id: u64) -> (key: i64)
    ensures
        key == id as i64,
{
    #[verifier::truncate]
    (id as i64)
}

/// The conversation that a welcome resolves to, when it resolves: the created
/// one, or the stored one after a failed creation.
pub open spec fn resolved_group(
    creation: Result<MlsGroup, SourceError>,
    lookup: Result<Option<StoredGroup>, SourceError>,
) -> Option<MlsGroup> {
    match creation {
        Ok(group) => Some(group),
        Err(_) => match lookup {
            Ok(Some(stored)) => Some(
                MlsGroup { group_id: stored.id, created_at_ns: stored.created_at_ns },
            ),
            _ => None,
        },
    }
}

/// What follows the attempt to create a conversation from a welcome.
#[derive(Clone, Debug, PartialEq, Eq)]
pub enum WelcomeStep {
    /// The conversation was created: it is the result.
    Done(MlsGroup),
    /// Creation failed with `creation_error`: ask the store for a conversation
    /// filed under `welcome_id`.
    FindByWelcomeId { welcome_id: i64, creation_error: SourceError },
}

/// Decides what follows the creation attempt, once its retries are spent.
pub fn after_creation(welcome_id: u64, creation: Result<MlsGroup, SourceError>) -> (step:
    WelcomeStep)
    ensures
        step == match creation {
            Ok(group) => WelcomeStep::Done(group),
            Err(e) => WelcomeStep::FindByWelcomeId {
                welcome_id: welcome_id as i64,
                creation_error: e,
            },
        },
        step matches WelcomeStep::Done(group) ==> resolved_group(creation, Ok(None)) == Some(
            group,
        ),
{
    match creation {
        Ok(group) => WelcomeStep::Done(group),
        Err(e) => WelcomeStep::FindByWelcomeId {
            welcome_id: welcome_id_key(welcome_id),
            creation_error: e,
        },
    }
}

/// The result of the welcome processor after a failed creation, given what the
/// store answered. A stored conversation is returned as a handle with its id
/// and creation time; with none stored, the creation error's text comes back as
/// a generic error; a failed lookup reports its own text in the same way.
pub fn after_lookup(
    creation_error: SourceError,
    lookup: Result<Option<StoredGroup>, SourceError>,
) -> (r: Result<MlsGroup, ClientError>)
    ensures
        r == match lookup {
            Ok(Some(stored)) => Ok::<MlsGroup, ClientError>(
                MlsGroup { group_id: stored.id, created_at_ns: stored.created_at_ns },
            ),
            Ok(None) => Err(ClientError::Generic(creation_error.message)),
            Err(e) => Err(ClientError::Generic(e.message)),
        },
        resolved_group(Err(creation_error), lookup) == match r {
            Ok(group) => Some(group),
            Err(_) => None,
        },
{
    match lookup {
        Ok(Some(stored)) => Ok(MlsGroup::new(stored.id, stored.created_at_ns)),
        Ok(None) => Err(ClientError::Generic(creation_error.message)),
        Err(e) => Err(ClientError::Generic(e.message)),
    }
}

/// A welcome applied a second time denotes the same conversation as the first
/// time. If the first delivery created the conversation and the store filed it,
/// then a later delivery, whose creation fails because the conversation
/// already exists, resolves through the lookup to a handle equal to the one
/// that the first delivery returned.
pub proof fn lemma_welcome_is_idempotent(
    created: MlsGroup,
    stored: StoredGroup,
    replay_error: SourceError,
)
    requires
        stored.id == created.group_id,
        stored.created_at_ns == created.created_at_ns,
    ensures
        resolved_group(Err(replay_error), Ok(Some(stored))) == resolved_group(
            Ok(created),
            Ok(None),
        ),
        resolved_group(Ok(created), Ok(None)) == Some(created),
{
}

/// The record under which the store files a conversation created from the
/// welcome `welcome_id`.
pub open spec fn filed_record(group: MlsGroup, welcome_id: i64) -> StoredGroup {
    StoredGroup {
        id: group.group_id,
        created_at_ns: group.created_at_ns,
        welcome_id: Some(welcome_id),
    }
}

/// The records of `visible` that are filed under `welcome_id`, in order.
pub open spec fn filed_under(visible: Seq<StoredGroup>, welcome_id: i64) -> Seq<StoredGroup>
    decreases visible.len(),
{
    if visible.len() == 0 {
        Seq::empty()
    } else {
        let before = filed_under(visible.drop_last(), welcome_id);
        if visible.last().welcome_id == Some(welcome_id) {
            before.push(visible.last())
        } else {
            before
        }
    }
}

/// What a lookup by welcome id finds among `visible`: the first record filed
/// under the id, if there is one.
pub open spec fn found_by_welcome_id(visible: Seq<StoredGroup>, welcome_id: i64) -> Option<
    StoredGroup,
> {
    if filed_under(visible, welcome_id).len() == 0 {
        None
    } else {
        Some(filed_under(visible, welcome_id)[0])
    }
}

/// The conversations visible in the store after one delivery of a welcome. The
/// creation runs in one transaction: a success commits the record of the new
/// conversation, a failure rolls back. The welcome processor itself writes
/// nothing: its fallback only looks up.
pub open spec fn visible_after(
    visible: Seq<StoredGroup>,
    welcome_id: i64,
    creation: Result<MlsGroup, SourceError>,
) -> Seq<StoredGroup> {
    match creation {
        Ok(group) => visible.push(filed_record(group, welcome_id)),
        Err(_) => visible,
    }
}

/// One conversation per welcome. A welcome that the store has not seen is
/// delivered twice; the first delivery creates the conversation `first`. If the
/// engine refuses to create a conversation for a welcome that is filed
/// already, so that the second creation fails, then the second delivery
/// returns the conversation that the first returned, and after each of the two
/// deliveries exactly one visible conversation is filed under the welcome's
/// id.
///
/// That the engine refuses is its own word, and is asked for here: were the
/// second creation to succeed, the processor would hand on what it created.
pub proof fn lemma_one_conversation_per_welcome(
    visible: Seq<StoredGroup>,
    welcome_id: i64,
    first: MlsGroup,
    second: Result<MlsGroup, SourceError>,
)
    requires
        filed_under(visible, welcome_id).len() == 0,
        second is Err,
    ensures
        resolved_group(Ok(first), Ok(found_by_welcome_id(visible, welcome_id))) == Some(first),
        filed_under(visible_after(visible, welcome_id, Ok(first)), welcome_id).len() == 1,
        resolved_group(
            second,
            Ok(found_by_welcome_id(visible_after(visible, welcome_id, Ok(first)), welcome_id)),
        ) == Some(first),
        filed_under(
            visible_after(visible_after(visible, welcome_id, Ok(first)), welcome_id, second),
            welcome_id,
        ).len() == 1,
{
    let after_first = visible_after(visible, welcome_id, Ok(first));
    assert(after_first.drop_last() =~= visible);
    assert(after_first.last() == filed_record(first, welcome_id));
    assert(filed_under(after_first, welcome_id) == filed_under(visible, welcome_id).push(
        filed_record(first, welcome_id),
    ));
    assert(filed_under(after_first, welcome_id)[0] == filed_record(first, welcome_id));
}

} // verus!
