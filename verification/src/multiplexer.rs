//! The all-messages multiplexer: one stream of messages over every
//! conversation, whose fan-in of per-group feeds is rebuilt whenever a new
//! conversation is discovered.
//!
//! The multiplexer owns the map from group id to stream info and a buffer of
//! items that an old fan-in had ready when it was replaced. Its driver waits on
//! the buffer, the active fan-in and the conversation stream, in that strict
//! order of priority, and reports each wake here.

use vstd::prelude::*;
use crate::conversation::{MlsGroup, StoredGroup};
use crate::errors::{ClientError, SubscribeError};
use crate::group_info::{
    collect_groups, collect_ids, GroupInfoMap, MessagesStreamInfo, CURSOR_FROM_CREATION,
};

verus! {

/// What the multiplexing loop can be woken by.
#[derive(Clone, Copy, Debug, PartialEq, Eq, Structural)]
pub enum Source {
    /// The buffer of items drained from a replaced fan-in.
    Extra,
    /// The active fan-in.
    Messages,
    /// The conversation stream.
    Conversations,
}

/// The source that a wake is served from: the buffer before the fan-in, the
/// fan-in before the conversation stream, and none when nothing is ready.
pub open spec fn priority(
    extra_pending: bool,
    messages_ready: bool,
    conversations_ready: bool,
) -> Option<Source> {
    if extra_pending {
        Some(Source::Extra)
    } else if messages_ready {
        Some(Source::Messages)
    } else if conversations_ready {
        Some(Source::Conversations)
    } else {
        None
    }
}

/// The map after the discovery of a group that was not known: every known
/// group streamed anew from the store's position, and the new group from its
/// creation.
pub open spec fn rebuilt_groups(
    known: Map<Seq<u8>, MessagesStreamInfo>,
    group_id: Seq<u8>,
    created_at_ns: i64,
) -> Map<Seq<u8>, MessagesStreamInfo> {
    known.map_values(|info: MessagesStreamInfo| info.from_store()).insert(
        group_id,
        MessagesStreamInfo { convo_created_at_ns: created_at_ns, cursor: 1 },
    )
}

/// What an item of the conversation stream asks of the driver.
#[derive(Debug)]
pub enum ConversationOutcome {
    /// The group was known already: nothing changed and no fan-in is rebuilt.
    Skip,
    /// The item was an error: yield it.
    Yield(SubscribeError),
    /// The group is new: build a fan-in from this snapshot. If that succeeds,
    /// buffer what the old fan-in has ready and replace it; if it fails, yield
    /// the failure and keep the old fan-in.
    Rebuild(GroupInfoMap),
}

/// The state of one all-messages stream.
#[derive(Debug)]
pub struct Multiplexer<T> {
    /// The known groups. Owned by this stream alone; a fan-in gets a snapshot.
    pub group_id_to_info: GroupInfoMap,
    /// Items of a replaced fan-in that are still to be yielded, oldest first.
    pub extra_messages: Vec<Result<T, SubscribeError>>,
}

impl<T> Multiplexer<T> {
    /// The state at startup: the groups that the store returned, each streamed
    /// from the store's position, and an empty buffer.
    pub fn new(groups: Vec<StoredGroup>) -> (m: Multiplexer<T>)
        ensures
            m.group_id_to_info@ == collect_groups(groups@),
            m.group_id_to_info.ids() == collect_ids(groups@),
            m.extra_messages@ == Seq::<Result<T, SubscribeError>>::empty(),
    {
        Multiplexer { group_id_to_info: GroupInfoMap::from_groups(groups), extra_messages: Vec::new() }
    }

    /// A snapshot of the known groups, to build a fan-in from.
    pub fn snapshot(&self) -> (copy: GroupInfoMap)
        ensures
            copy@ == self.group_id_to_info@,
            copy.ids() == self.group_id_to_info.ids(),
    {
        self.group_id_to_info.snapshot()
    }

    /// The source to serve next, given which upstream sources have an item
    /// ready. A buffer that is not empty comes first whatever else is ready.
    pub fn next_source(&self, messages_ready: bool, conversations_ready: bool) -> (source: Option<
        Source,
    >)
        ensures
            source == priority(
                self.extra_messages@.len() > 0,
                messages_ready,
                conversations_ready,
            ),
            source == Some(Source::Extra) <==> self.extra_messages@.len() > 0,
    {
        if self.extra_messages.len() > 0 {
            Some(Source::Extra)
        } else if messages_ready {
            Some(Source::Messages)
        } else if conversations_ready {
            Some(Source::Conversations)
        } else {
            None
        }
    }

    /// Whether the stream has ended, given which upstream sources are
    /// exhausted: only when both are, and nothing is buffered any more.
    pub fn is_finished(&self, messages_exhausted: bool, conversations_exhausted: bool) -> (done:
        bool)
        ensures
            done == (self.extra_messages@.len() == 0 && messages_exhausted
                && conversations_exhausted),
    {
        self.extra_messages.len() == 0 && messages_exhausted && conversations_exhausted
    }

    /// Empties the buffer: the buffered items come back oldest first, to be
    /// yielded in that order. The known groups stay as they are.
    pub fn drain_extra(&mut self) -> (items: Vec<Result<T, SubscribeError>>)
        ensures
            items@ == old(self).extra_messages@,
            final(self).extra_messages@ == Seq::<Result<T, SubscribeError>>::empty(),
            final(self).group_id_to_info == old(self).group_id_to_info,
            items@ == yielded_by(old(self).extra_messages@, Wake::Extra),
            final(self).extra_messages@ == pending_after(old(self).extra_messages@, Wake::Extra),
    {
        let mut items: Vec<Result<T, SubscribeError>> = Vec::new();
        core::mem::swap(&mut self.extra_messages, &mut items);
        items
    }

    /// Buffers an item that the old fan-in had ready at the switch-over, behind
    /// those buffered before it.
    pub fn buffer(&mut self, item: Result<T, SubscribeError>)
        ensures
            final(self).extra_messages@ == old(self).extra_messages@.push(item),
            final(self).group_id_to_info == old(self).group_id_to_info,
            final(self).extra_messages@ == pending_after(
                old(self).extra_messages@,
                Wake::SwitchOver(seq![item]),
            ),
    {
        self.extra_messages.push(item);
        assert(old(self).extra_messages@.push(item) =~= old(self).extra_messages@ + seq![item]);
    }

    /// Takes an item of the conversation stream. An error is handed back to be
    /// yielded. A group that is known changes nothing. A new group resets the
    /// cursor of every known group, enters the map with the cursor that
    /// replays from its creation, and asks for a rebuild from a snapshot of the
    /// new map. The buffer is never touched.
    pub fn on_conversation(&mut self, item: Result<MlsGroup, SubscribeError>) -> (outcome:
        ConversationOutcome)
        ensures
            final(self).extra_messages == old(self).extra_messages,
            match item {
                Err(e) => {
                    &&& outcome matches ConversationOutcome::Yield(yielded)
                    &&& yielded == e
                    &&& final(self).group_id_to_info == old(self).group_id_to_info
                },
                Ok(group) => if old(self).group_id_to_info@.contains_key(group.group_id@) {
                    &&& outcome is Skip
                    &&& final(self).group_id_to_info == old(self).group_id_to_info
                } else {
                    &&& outcome matches ConversationOutcome::Rebuild(snapshot)
                    &&& snapshot@ == final(self).group_id_to_info@
                    &&& snapshot.ids() == final(self).group_id_to_info.ids()
                    &&& final(self).group_id_to_info.ids() == old(
                        self,
                    ).group_id_to_info.ids().push(group.group_id@)
                    &&& final(self).group_id_to_info@ == rebuilt_groups(
                        old(self).group_id_to_info@,
                        group.group_id@,
                        group.created_at_ns,
                    )
                },
            },
    {
        match item {
            Err(e) => ConversationOutcome::Yield(e),
            Ok(group) => {
                if self.group_id_to_info.contains_key(&group.group_id) {
                    ConversationOutcome::Skip
                } else {
                    self.group_id_to_info.reset_cursors();
                    self.group_id_to_info.insert(
                        group.group_id,
                        MessagesStreamInfo {
                            convo_created_at_ns: group.created_at_ns,
                            cursor: CURSOR_FROM_CREATION,
                        },
                    );
                    ConversationOutcome::Rebuild(self.group_id_to_info.snapshot())
                }
            },
        }
    }

    /// The item to yield when the new fan-in could not be built.
    pub fn rebuild_failed(error: ClientError) -> (item: Result<T, SubscribeError>)
        ensures
            item == Err::<T, SubscribeError>(
                SubscribeError::FailedToStartNewMessagesStream(error),
            ),
    {
        Err(SubscribeError::FailedToStartNewMessagesStream(error))
    }
}

/// One wake of the multiplexing loop, as far as items are concerned.
pub enum Wake<I> {
    /// The buffer was yielded to the consumer and emptied.
    Extra,
    /// The active fan-in delivered this item, and it was yielded.
    Message(I),
    /// A new group was discovered and the fan-in replaced; these are the items
    /// that the old fan-in had ready, which were buffered.
    SwitchOver(Seq<I>),
}

/// The buffer after one wake, given the buffer before it.
pub open spec fn pending_after<I>(extra: Seq<I>, wake: Wake<I>) -> Seq<I> {
    match wake {
        Wake::Extra => Seq::empty(),
        Wake::Message(_) => extra,
        Wake::SwitchOver(ready) => extra + ready,
    }
}

/// What one wake gives the consumer, given the buffer before it.
pub open spec fn yielded_by<I>(extra: Seq<I>, wake: Wake<I>) -> Seq<I> {
    match wake {
        Wake::Extra => extra,
        Wake::Message(item) => seq![item],
        Wake::SwitchOver(_) => Seq::empty(),
    }
}

/// What the fan-ins produced at one wake.
pub open spec fn produced_by<I>(wake: Wake<I>) -> Seq<I> {
    match wake {
        Wake::Extra => Seq::empty(),
        Wake::Message(item) => seq![item],
        Wake::SwitchOver(ready) => ready,
    }
}

/// Whether the strict priority allows `wake` with the buffer `extra`: the
/// buffer is served exactly when it holds something, so a fan-in or the
/// conversation stream is served only while it is empty.
pub open spec fn allowed<I>(extra: Seq<I>, wake: Wake<I>) -> bool {
    wake is Extra <==> extra.len() > 0
}

/// The buffer after `wakes`, starting from the buffer `extra`.
pub open spec fn pending<I>(extra: Seq<I>, wakes: Seq<Wake<I>>) -> Seq<I>
    decreases wakes.len(),
{
    if wakes.len() == 0 {
        extra
    } else {
        pending_after(pending(extra, wakes.drop_last()), wakes.last())
    }
}

/// What the consumer was given over `wakes`, in order.
pub open spec fn yielded<I>(extra: Seq<I>, wakes: Seq<Wake<I>>) -> Seq<I>
    decreases wakes.len(),
{
    if wakes.len() == 0 {
        Seq::empty()
    } else {
        yielded(extra, wakes.drop_last()) + yielded_by(
            pending(extra, wakes.drop_last()),
            wakes.last(),
        )
    }
}

/// What the fan-ins produced over `wakes`, in order.
pub open spec fn produced<I>(wakes: Seq<Wake<I>>) -> Seq<I>
    decreases wakes.len(),
{
    if wakes.len() == 0 {
        Seq::empty()
    } else {
        produced(wakes.drop_last()) + produced_by(wakes.last())
    }
}

/// Whether every wake of `wakes` is allowed by the strict priority.
pub open spec fn keeps_priority<I>(extra: Seq<I>, wakes: Seq<Wake<I>>) -> bool
    decreases wakes.len(),
{
    wakes.len() == 0 || {
        &&& keeps_priority(extra, wakes.drop_last())
        &&& allowed(pending(extra, wakes.drop_last()), wakes.last())
    }
}

/// Nothing that a fan-in produced is lost or repeated across rebuilds. Over
/// any run of the loop that keeps the strict priority, what the consumer was
/// given, followed by what is still buffered, is what was buffered at the
/// start followed by every item that the fan-ins produced, each once and in
/// the order of production.
pub proof fn lemma_no_item_lost<I>(extra: Seq<I>, wakes: Seq<Wake<I>>)
    requires
        keeps_priority(extra, wakes),
    ensures
        yielded(extra, wakes) + pending(extra, wakes) == extra + produced(wakes),
    decreases wakes.len(),
{
    if wakes.len() > 0 {
        let front = wakes.drop_last();
        lemma_no_item_lost(extra, front);
        let y = yielded(extra, front);
        let p = pending(extra, front);
        let d = produced(front);
        assert(y + p == extra + d);
        match wakes.last() {
            Wake::Extra => {
                assert((y + p) + Seq::<I>::empty() =~= y + p);
                assert(d + Seq::<I>::empty() =~= d);
            },
            Wake::Message(item) => {
                assert(p =~= Seq::<I>::empty());
                assert((y + seq![item]) + p =~= (y + p) + seq![item]);
                assert((extra + d) + seq![item] =~= extra + (d + seq![item]));
            },
            Wake::SwitchOver(ready) => {
                assert((y + Seq::<I>::empty()) + (p + ready) =~= (y + p) + ready);
                assert((extra + d) + ready =~= extra + (d + ready));
            },
        }
    } else {
        assert(Seq::<I>::empty() + extra =~= extra + Seq::<I>::empty());
    }
}

/// A group that was discovered is known from then on: a second discovery of
/// it, by whichever path, finds it in the map and is skipped.
pub proof fn lemma_discovered_group_is_known(
    known: Map<Seq<u8>, MessagesStreamInfo>,
    group_id: Seq<u8>,
    created_at_ns: i64,
)
    ensures
        rebuilt_groups(known, group_id, created_at_ns).contains_key(group_id),
{
}

/// The multiplexer writes two cursors and no other: after the discovery of a
/// new group, that group replays from its creation and every other group
/// resumes from the store's position, with its creation time unchanged. The
/// groups of the map are those known before and the new one.
pub proof fn lemma_rebuilt_cursors(
    known: Map<Seq<u8>, MessagesStreamInfo>,
    group_id: Seq<u8>,
    created_at_ns: i64,
)
    ensures
        rebuilt_groups(known, group_id, created_at_ns).dom() == known.dom().insert(group_id),
        rebuilt_groups(known, group_id, created_at_ns)[group_id] == (MessagesStreamInfo {
            convo_created_at_ns: created_at_ns,
            cursor: 1,
        }),
        forall|k: Seq<u8>|
            known.contains_key(k) && k != group_id ==> (#[trigger] rebuilt_groups(
                known,
                group_id,
                created_at_ns,
            )[k]) == (MessagesStreamInfo {
                convo_created_at_ns: known[k].convo_created_at_ns,
                cursor: 0,
            }),
{
    assert(rebuilt_groups(known, group_id, created_at_ns).dom() =~= known.dom().insert(
        group_id,
    ));
}

} // verus!
