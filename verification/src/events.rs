//! The events of the local bus and the filters that turn its feed into the
//! streams of new conversations, sync events, consent updates and preference
//! updates.

use vstd::prelude::*;
use crate::conversation::MlsGroup;
use crate::errors::SubscribeError;

verus! {

/// `tokio_stream::wrappers::errors::BroadcastStreamRecvError`, the error with
/// which a broadcast receiver reports that it fell behind and missed items.
/// Declared without its fields: the library only tells it apart from an event,
/// and nothing is claimed of what it holds.
#[verifier::external_type_specification]
#[verifier::external_body]
pub struct ExBroadcastStreamRecvError(tokio_stream::wrappers::errors::BroadcastStreamRecvError);

/// A signal of the device-sync protocol.
#[derive(Clone, Debug, PartialEq, Eq)]
pub enum SyncMessage {
    Request { message_id: Vec<u8> },
    Reply { message_id: Vec<u8> },
}

/// What a consent record is about.
#[derive(Clone, Copy, Debug, PartialEq, Eq)]
pub enum ConsentType {
    ConversationId,
    InboxId,
    Address,
}

/// The consent given.
#[derive(Clone, Copy, Debug, PartialEq, Eq)]
pub enum ConsentState {
    Unknown,
    Allowed,
    Denied,
}

/// A consent record as the store holds it.
#[derive(Clone, Debug, PartialEq, Eq)]
pub struct StoredConsentRecord {
    pub entity_type: ConsentType,
    pub state: ConsentState,
    pub entity: String,
}

/// One update of the user's preferences.
#[derive(Clone, Debug, PartialEq, Eq)]
pub enum UserPreferenceUpdate {
    ConsentUpdate(StoredConsentRecord),
    HmacKeyUpdate { key: Vec<u8> },
}

/// Events local to this client, broadcast to every stream.
#[derive(Clone, Debug, PartialEq, Eq)]
pub enum LocalEvents {
    /// A conversation was created.
    NewGroup(MlsGroup),
    SyncMessage(SyncMessage),
    OutgoingPreferenceUpdates(Vec<UserPreferenceUpdate>),
    IncomingPreferenceUpdate(Vec<UserPreferenceUpdate>),
}

/// The consent records among `updates`, in their order.
pub open spec fn consent_records(updates: Seq<UserPreferenceUpdate>) -> Seq<StoredConsentRecord>
    decreases updates.len(),
{
    if updates.len() == 0 {
        Seq::empty()
    } else {
        let rest = consent_records(updates.drop_last());
        match updates.last() {
            UserPreferenceUpdate::ConsentUpdate(record) => rest.push(record),
            _ => rest,
        }
    }
}

/// The updates among `updates` that are no consent update, in their order.
pub open spec fn non_consent_updates(updates: Seq<UserPreferenceUpdate>) -> Seq<
    UserPreferenceUpdate,
>
    decreases updates.len(),
{
    if updates.len() == 0 {
        Seq::empty()
    } else {
        let rest = non_consent_updates(updates.drop_last());
        match updates.last() {
            UserPreferenceUpdate::ConsentUpdate(_) => rest,
            other => rest.push(other),
        }
    }
}

/// The consent records of `updates`, taken out of it in order.
fn take_consent_records(updates: Vec<UserPreferenceUpdate>) -> (records: Vec<StoredConsentRecord>)
    ensures
        records@ == consent_records(updates@),
{
    let ghost all = updates@;
    let mut records: Vec<StoredConsentRecord> = Vec::new();
    for update in it: updates
        invariant
            it.seq() == all,
            records@ == consent_records(all.take(it.index() as int)),
    {
        proof {
            assert(all.take(it.index() + 1).drop_last() == all.take(it.index() as int));
        }
        match update {
            UserPreferenceUpdate::ConsentUpdate(record) => {
                records.push(record);
            },
            _ => {},
        }
    }
    proof {
        assert(all.take(all.len() as int) == all);
    }
    records
}

/// The updates of `updates` that are no consent update, taken out of it in
/// order.
fn take_non_consent_updates(updates: Vec<UserPreferenceUpdate>) -> (others: Vec<
    UserPreferenceUpdate,
>)
    ensures
        others@ == non_consent_updates(updates@),
{
    let ghost all = updates@;
    let mut others: Vec<UserPreferenceUpdate> = Vec::new();
    for update in it: updates
        invariant
            it.seq() == all,
            others@ == non_consent_updates(all.take(it.index() as int)),
    {
        proof {
            assert(all.take(it.index() + 1).drop_last() == all.take(it.index() as int));
        }
        match update {
            UserPreferenceUpdate::ConsentUpdate(_) => {},
            other => {
                others.push(other);
            },
        }
    }
    proof {
        assert(all.take(all.len() as int) == all);
    }
    others
}

impl LocalEvents {
    /// The updates that a preference event carries; no other event carries any.
    pub open spec fn preference_updates(self) -> Option<Seq<UserPreferenceUpdate>> {
        match self {
            LocalEvents::OutgoingPreferenceUpdates(updates) => Some(updates@),
            LocalEvents::IncomingPreferenceUpdate(updates) => Some(updates@),
            _ => None,
        }
    }

    /// Whether the sync stream carries this event: every event but a new
    /// conversation.
    pub open spec fn is_sync_event(self) -> bool {
        !(self is NewGroup)
    }

    /// The conversation of a `NewGroup` event; nothing for any other event.
    pub fn group_filter(self) -> (r: Option<MlsGroup>)
        ensures
            r == match self {
                LocalEvents::NewGroup(group) => Some(group),
                _ => None,
            },
    {
        match self {
            LocalEvents::NewGroup(group) => Some(group),
            _ => None,
        }
    }

    /// The event itself if it is a sync message or carries preference updates;
    /// nothing for a new conversation.
    pub fn sync_filter(self) -> (r: Option<LocalEvents>)
        ensures
            r == if self.is_sync_event() {
                Some(self)
            } else {
                None
            },
    {
        match self {
            LocalEvents::NewGroup(_) => None,
            other => Some(other),
        }
    }

    /// The consent records of a preference event, in order; nothing for an event
    /// that carries no preference updates. A preference event without consent
    /// updates gives an empty list.
    pub fn consent_filter(self) -> (r: Option<Vec<StoredConsentRecord>>)
        ensures
            match self.preference_updates() {
                Some(updates) => r matches Some(records) && records@ == consent_records(updates),
                None => r is None,
            },
    {
        match self {
            LocalEvents::OutgoingPreferenceUpdates(updates) => Some(take_consent_records(updates)),
            LocalEvents::IncomingPreferenceUpdate(updates) => Some(take_consent_records(updates)),
            _ => None,
        }
    }

    /// The updates of a preference event that are no consent update, in order;
    /// nothing for an event that carries no preference updates.
    pub fn preference_filter(self) -> (r: Option<Vec<UserPreferenceUpdate>>)
        ensures
            match self.preference_updates() {
                Some(updates) => r matches Some(others) && others@ == non_consent_updates(
                    updates,
                ),
                None => r is None,
            },
    {
        match self {
            LocalEvents::OutgoingPreferenceUpdates(updates) => Some(
                take_non_consent_updates(updates),
            ),
            LocalEvents::IncomingPreferenceUpdate(updates) => Some(
                take_non_consent_updates(updates),
            ),
            _ => None,
        }
    }
}

/// Takes the event out of an item of the bus. An item that reports lag holds
/// no event and is dropped; lag is never an error for the consumer.
pub fn optify<T>(
    item: Result<T, tokio_stream::wrappers::errors::BroadcastStreamRecvError>,
) -> (event: Option<T>)
    ensures
        event == match item {
            Ok(e) => Some(e),
            Err(_) => None,
        },
{
    match item {
        Ok(e) => Some(e),
        Err(_) => None,
    }
}

/// One item of the stream of new conversations: the conversation of a
/// `NewGroup` event. Lag and every other event yield nothing.
pub fn new_group_stream_item(
    item: Result<LocalEvents, tokio_stream::wrappers::errors::BroadcastStreamRecvError>,
) -> (yielded: Option<Result<MlsGroup, SubscribeError>>)
    ensures
        yielded == match item {
            Ok(LocalEvents::NewGroup(group)) => Some(Ok::<MlsGroup, SubscribeError>(group)),
            _ => None,
        },
{
    match optify(item) {
        Some(event) => match event.group_filter() {
            Some(group) => Some(Ok(group)),
            None => None,
        },
        None => None,
    }
}

/// One item of the stream of sync events: the event unchanged, unless it is a
/// new conversation. Lag yields nothing.
pub fn sync_stream_item(
    item: Result<LocalEvents, tokio_stream::wrappers::errors::BroadcastStreamRecvError>,
) -> (yielded: Option<Result<LocalEvents, SubscribeError>>)
    ensures
        yielded == match item {
            Ok(event) => if event.is_sync_event() {
                Some(Ok::<LocalEvents, SubscribeError>(event))
            } else {
                None
            },
            Err(_) => None,
        },
{
    match optify(item) {
        Some(event) => match event.sync_filter() {
            Some(kept) => Some(Ok(kept)),
            None => None,
        },
        None => None,
    }
}

/// The updates that an item of the bus carries: those of a preference event;
/// none for lag or any other event.
pub open spec fn carried_updates(
    item: Result<LocalEvents, tokio_stream::wrappers::errors::BroadcastStreamRecvError>,
) -> Option<Seq<UserPreferenceUpdate>> {
    match item {
        Ok(event) => event.preference_updates(),
        Err(_) => None,
    }
}

/// One item of the stream of consent updates: the consent records of a
/// preference event, never an error. Lag and other events yield nothing.
pub fn consent_stream_item(
    item: Result<LocalEvents, tokio_stream::wrappers::errors::BroadcastStreamRecvError>,
) -> (yielded: Option<Result<Vec<StoredConsentRecord>, SubscribeError>>)
    ensures
        match carried_updates(item) {
            Some(updates) => yielded matches Some(Ok(records)) && records@ == consent_records(
                updates,
            ),
            None => yielded is None,
        },
{
    match optify(item) {
        Some(event) => match event.consent_filter() {
            Some(records) => Some(Ok(records)),
            None => None,
        },
        None => None,
    }
}

/// One item of the stream of preference updates: the updates of a preference
/// event that are no consent update, never an error. Lag and other events
/// yield nothing.
pub fn preference_stream_item(
    item: Result<LocalEvents, tokio_stream::wrappers::errors::BroadcastStreamRecvError>,
) -> (yielded: Option<Result<Vec<UserPreferenceUpdate>, SubscribeError>>)
    ensures
        match carried_updates(item) {
            Some(updates) => yielded matches Some(Ok(others)) && others@ == non_consent_updates(
                updates,
            ),
            None => yielded is None,
        },
{
    match optify(item) {
        Some(event) => match event.preference_filter() {
            Some(others) => Some(Ok(others)),
            None => None,
        },
        None => None,
    }
}

/// The consent filter and the preference filter split the updates of a
/// preference event between them: every update goes to exactly one of the two
/// lists. The lengths of the two lists add up to the number of updates; each
/// consent update's record is in the consent list and each other update is in
/// the preference list; the preference list holds no consent update; and
/// neither list holds anything that the event did not carry.
pub proof fn lemma_filters_partition(updates: Seq<UserPreferenceUpdate>)
    ensures
        consent_records(updates).len() + non_consent_updates(updates).len() == updates.len(),
        forall|i: int|
            0 <= i < updates.len() ==> match #[trigger] updates[i] {
                UserPreferenceUpdate::ConsentUpdate(record) => consent_records(updates).contains(
                    record,
                ),
                other => non_consent_updates(updates).contains(other),
            },
        forall|j: int|
            0 <= j < non_consent_updates(updates).len() ==> {
                &&& !(#[trigger] non_consent_updates(updates)[j] is ConsentUpdate)
                &&& updates.contains(non_consent_updates(updates)[j])
            },
        forall|j: int|
            0 <= j < consent_records(updates).len() ==> updates.contains(
                UserPreferenceUpdate::ConsentUpdate(#[trigger] consent_records(updates)[j]),
            ),
    decreases updates.len(),
{
    if updates.len() > 0 {
        let front = updates.drop_last();
        let last = updates.last();
        lemma_filters_partition(front);
        let records = consent_records(updates);
        let others = non_consent_updates(updates);
        let front_records = consent_records(front);
        let front_others = non_consent_updates(front);
        assert forall|i: int| 0 <= i < updates.len() implies match #[trigger] updates[i] {
            UserPreferenceUpdate::ConsentUpdate(record) => records.contains(record),
            other => others.contains(other),
        } by {
            if i < front.len() {
                assert(front[i] == updates[i]);
                match updates[i] {
                    UserPreferenceUpdate::ConsentUpdate(record) => {
                        let k = choose|k: int|
                            0 <= k < front_records.len() && front_records[k] == record;
                        assert(records[k] == record);
                    },
                    other => {
                        let k = choose|k: int|
                            0 <= k < front_others.len() && front_others[k] == other;
                        assert(others[k] == other);
                    },
                }
            } else {
                match last {
                    UserPreferenceUpdate::ConsentUpdate(record) => {
                        assert(records[records.len() - 1] == record);
                    },
                    other => {
                        assert(others[others.len() - 1] == other);
                    },
                }
            }
        }
        assert forall|j: int| 0 <= j < others.len() implies {
            &&& !(#[trigger] others[j] is ConsentUpdate)
            &&& updates.contains(others[j])
        } by {
            if j < front_others.len() {
                assert(others[j] == front_others[j]);
                let k = choose|k: int| 0 <= k < front.len() && front[k] == front_others[j];
                assert(updates[k] == others[j]);
            } else {
                assert(updates[updates.len() - 1] == others[j]);
            }
        }
        assert forall|j: int| 0 <= j < records.len() implies updates.contains(
            UserPreferenceUpdate::ConsentUpdate(#[trigger] records[j]),
        ) by {
            if j < front_records.len() {
                assert(records[j] == front_records[j]);
                let k = choose|k: int|
                    0 <= k < front.len() && front[k] == UserPreferenceUpdate::ConsentUpdate(
                        front_records[j],
                    );
                assert(updates[k] == UserPreferenceUpdate::ConsentUpdate(records[j]));
            } else {
                assert(updates[updates.len() - 1] == UserPreferenceUpdate::ConsentUpdate(
                    records[j],
                ));
            }
        }
    }
}

} // verus!
