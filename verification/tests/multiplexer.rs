use mls_streams::{
    filter_conversation, ClientError, ConversationOutcome, ConversationType, GroupEntry,
    GroupMetadata, MessagesStreamInfo, MlsGroup, Multiplexer, Source, SourceError, StoredGroup,
    SubscribeError,
};
use std::collections::VecDeque;

type Item = Result<String, SubscribeError>;

fn stored(id: &[u8], created_at_ns: i64) -> StoredGroup {
    StoredGroup { id: id.to_vec(), created_at_ns, welcome_id: None }
}

fn info(convo_created_at_ns: i64, cursor: u64) -> MessagesStreamInfo {
    MessagesStreamInfo { convo_created_at_ns, cursor }
}

fn msg(text: &str) -> Item {
    Ok(text.to_string())
}

fn texts(items: &[Item]) -> Vec<String> {
    items.iter().map(|i| i.as_ref().unwrap().clone()).collect()
}

/// A driver that plays the part of the asynchronous loop with queues in place
/// of streams.
struct Driver {
    mux: Multiplexer<String>,
    fan_in: VecDeque<Item>,
    conversations: VecDeque<Result<MlsGroup, SubscribeError>>,
    /// Items that the old fan-in gets ready while the next rebuild runs.
    in_flight: Vec<Item>,
    fail_next_rebuild: bool,
    rebuilds: Vec<Vec<GroupEntry>>,
    yielded: Vec<Item>,
}

impl Driver {
    fn new(groups: Vec<StoredGroup>) -> Driver {
        Driver {
            mux: Multiplexer::new(groups),
            fan_in: VecDeque::new(),
            conversations: VecDeque::new(),
            in_flight: Vec::new(),
            fail_next_rebuild: false,
            rebuilds: Vec::new(),
            yielded: Vec::new(),
        }
    }

    fn run(&mut self) {
        while let Some(source) =
            self.mux.next_source(!self.fan_in.is_empty(), !self.conversations.is_empty())
        {
            match source {
                Source::Extra => {
                    let items = self.mux.drain_extra();
                    self.yielded.extend(items);
                }
                Source::Messages => {
                    let item = self.fan_in.pop_front().unwrap();
                    self.yielded.push(item);
                }
                Source::Conversations => {
                    let item = self.conversations.pop_front().unwrap();
                    match self.mux.on_conversation(item) {
                        ConversationOutcome::Skip => {}
                        ConversationOutcome::Yield(e) => self.yielded.push(Err(e)),
                        ConversationOutcome::Rebuild(snapshot) => {
                            self.fan_in.extend(self.in_flight.drain(..));
                            if self.fail_next_rebuild {
                                self.fail_next_rebuild = false;
                                self.yielded.push(Multiplexer::<String>::rebuild_failed(
                                    ClientError::Generic("no stream".to_string()),
                                ));
                            } else {
                                self.rebuilds.push(snapshot.into_entries());
                                while let Some(ready) = self.fan_in.pop_front() {
                                    self.mux.buffer(ready);
                                }
                            }
                        }
                    }
                }
            }
        }
    }
}

#[test]
fn startup_loads_groups_at_cursor_zero_with_empty_buffer() {
    let mux: Multiplexer<String> = Multiplexer::new(vec![stored(&[1], 10), stored(&[2], 20)]);
    assert!(mux.extra_messages.is_empty());
    assert_eq!(mux.group_id_to_info.len(), 2);
    assert_eq!(mux.group_id_to_info.get(&vec![1]), Some(info(10, 0)));
    assert_eq!(mux.group_id_to_info.get(&vec![2]), Some(info(20, 0)));
    assert_eq!(
        mux.snapshot().into_entries(),
        vec![
            GroupEntry { group_id: vec![1], info: info(10, 0) },
            GroupEntry { group_id: vec![2], info: info(20, 0) },
        ]
    );
}

#[test]
fn priority_is_strict() {
    let mut mux: Multiplexer<String> = Multiplexer::new(vec![]);
    assert_eq!(mux.next_source(false, false), None);
    assert_eq!(mux.next_source(false, true), Some(Source::Conversations));
    assert_eq!(mux.next_source(true, false), Some(Source::Messages));
    assert_eq!(mux.next_source(true, true), Some(Source::Messages));
    mux.buffer(msg("held"));
    assert_eq!(mux.next_source(false, false), Some(Source::Extra));
    assert_eq!(mux.next_source(true, true), Some(Source::Extra));
    assert_eq!(mux.next_source(false, true), Some(Source::Extra));
}

#[test]
fn drain_extra_returns_buffer_in_order_and_empties_it() {
    let mut mux: Multiplexer<String> = Multiplexer::new(vec![stored(&[1], 10)]);
    mux.buffer(msg("a"));
    mux.buffer(Err(SubscribeError::GroupMessageNotFound));
    mux.buffer(msg("b"));
    let items = mux.drain_extra();
    assert_eq!(items, vec![msg("a"), Err(SubscribeError::GroupMessageNotFound), msg("b")]);
    assert!(mux.extra_messages.is_empty());
    assert_eq!(mux.drain_extra(), Vec::<Item>::new());
    assert_eq!(mux.group_id_to_info.get(&vec![1]), Some(info(10, 0)));
}

#[test]
fn known_group_changes_nothing_and_asks_for_no_rebuild() {
    let mut mux: Multiplexer<String> = Multiplexer::new(vec![stored(&[1], 10), stored(&[2], 20)]);
    mux.buffer(msg("held"));
    let outcome = mux.on_conversation(Ok(MlsGroup::new(vec![2], 999)));
    assert!(matches!(outcome, ConversationOutcome::Skip));
    assert_eq!(mux.group_id_to_info.len(), 2);
    assert_eq!(mux.group_id_to_info.get(&vec![1]), Some(info(10, 0)));
    assert_eq!(mux.group_id_to_info.get(&vec![2]), Some(info(20, 0)));
    assert_eq!(mux.extra_messages, vec![msg("held")]);
}

#[test]
fn new_group_resets_cursors_and_enters_with_cursor_one() {
    let mut mux: Multiplexer<String> = Multiplexer::new(vec![stored(&[1], 10)]);
    let first = mux.on_conversation(Ok(MlsGroup::new(vec![2], 20)));
    match first {
        ConversationOutcome::Rebuild(snapshot) => assert_eq!(
            snapshot.into_entries(),
            vec![
                GroupEntry { group_id: vec![1], info: info(10, 0) },
                GroupEntry { group_id: vec![2], info: info(20, 1) },
            ]
        ),
        other => panic!("unexpected outcome {:?}", other),
    }
    let second = mux.on_conversation(Ok(MlsGroup::new(vec![3], 30)));
    match second {
        ConversationOutcome::Rebuild(snapshot) => assert_eq!(
            snapshot.into_entries(),
            vec![
                GroupEntry { group_id: vec![1], info: info(10, 0) },
                GroupEntry { group_id: vec![2], info: info(20, 0) },
                GroupEntry { group_id: vec![3], info: info(30, 1) },
            ]
        ),
        other => panic!("unexpected outcome {:?}", other),
    }
    assert_eq!(mux.group_id_to_info.len(), 3);
}

#[test]
fn conversation_error_is_yielded_and_changes_nothing() {
    let mut mux: Multiplexer<String> = Multiplexer::new(vec![stored(&[1], 10)]);
    let e = || SubscribeError::Api(SourceError { message: "reset".to_string(), retryable: true });
    match mux.on_conversation(Err(e())) {
        ConversationOutcome::Yield(yielded) => assert_eq!(yielded, e()),
        other => panic!("unexpected outcome {:?}", other),
    }
    assert_eq!(mux.group_id_to_info.len(), 1);
    assert!(mux.extra_messages.is_empty());
}

#[test]
fn rebuild_failure_item() {
    let item = Multiplexer::<String>::rebuild_failed(ClientError::Generic("down".to_string()));
    assert_eq!(
        item,
        Err(SubscribeError::FailedToStartNewMessagesStream(ClientError::Generic(
            "down".to_string()
        )))
    );
}

#[test]
fn failed_rebuild_keeps_old_fan_in_and_remembers_the_group() {
    let mut d = Driver::new(vec![stored(&[1], 10)]);
    d.fail_next_rebuild = true;
    d.conversations.push_back(Ok(MlsGroup::new(vec![2], 20)));
    d.in_flight.push(msg("still on the old stream"));
    d.run();
    assert_eq!(
        d.yielded,
        vec![
            Err(SubscribeError::FailedToStartNewMessagesStream(ClientError::Generic(
                "no stream".to_string()
            ))),
            msg("still on the old stream"),
        ]
    );
    assert!(d.rebuilds.is_empty());
    assert!(d.mux.group_id_to_info.contains_key(&vec![2]));
}

#[test]
fn items_ready_on_the_old_fan_in_survive_the_switch_over() {
    let mut d = Driver::new(vec![stored(&[1], 10)]);
    d.fan_in.push_back(msg("one"));
    d.conversations.push_back(Ok(MlsGroup::new(vec![2], 20)));
    d.conversations.push_back(Ok(MlsGroup::new(vec![3], 30)));
    d.in_flight = vec![msg("two"), msg("three")];
    d.run();
    assert_eq!(texts(&d.yielded), vec!["one", "two", "three"]);
    assert_eq!(d.rebuilds.len(), 2);
    assert!(d.mux.extra_messages.is_empty());
}

#[test]
fn duplicate_discovery_of_one_group_rebuilds_once() {
    // The same group arrives as a local event and as a welcome.
    let mut d = Driver::new(vec![]);
    d.conversations.push_back(Ok(MlsGroup::new(vec![9], 90)));
    d.conversations.push_back(Ok(MlsGroup::new(vec![9], 90)));
    d.run();
    assert_eq!(d.rebuilds.len(), 1);
    assert_eq!(d.mux.group_id_to_info.len(), 1);
    assert_eq!(d.mux.group_id_to_info.get(&vec![9]), Some(info(90, 1)));
}

#[test]
fn stable_group_set_delivers_messages_in_send_order() {
    // Alix and Bo each have a group with Caro.
    let mut d = Driver::new(vec![stored(b"alix", 1), stored(b"bo", 2)]);
    for text in ["first", "second", "third", "fourth"] {
        d.fan_in.push_back(msg(text));
        d.run();
    }
    assert_eq!(texts(&d.yielded), vec!["first", "second", "third", "fourth"]);
    assert!(d.rebuilds.is_empty());
}

#[test]
fn live_group_addition_delivers_all_five_messages() {
    let mut d = Driver::new(vec![stored(b"alix-1", 1)]);
    d.fan_in.push_back(msg("first"));
    d.run();
    // Bo creates a DM with Caro and sends over it.
    d.conversations.push_back(Ok(MlsGroup::new(b"bo-dm".to_vec(), 2)));
    d.run();
    d.fan_in.push_back(msg("second"));
    d.run();
    d.fan_in.push_back(msg("third"));
    d.run();
    // Alix creates a second group; a message on the first is in flight.
    d.conversations.push_back(Ok(MlsGroup::new(b"alix-2".to_vec(), 3)));
    d.in_flight.push(msg("fourth"));
    d.run();
    d.fan_in.push_back(msg("fifth"));
    d.run();
    assert_eq!(texts(&d.yielded), vec!["first", "second", "third", "fourth", "fifth"]);
    assert_eq!(d.yielded.len(), 5);
    assert_eq!(
        d.rebuilds,
        vec![
            vec![
                GroupEntry { group_id: b"alix-1".to_vec(), info: info(1, 0) },
                GroupEntry { group_id: b"bo-dm".to_vec(), info: info(2, 1) },
            ],
            vec![
                GroupEntry { group_id: b"alix-1".to_vec(), info: info(1, 0) },
                GroupEntry { group_id: b"bo-dm".to_vec(), info: info(2, 0) },
                GroupEntry { group_id: b"alix-2".to_vec(), info: info(3, 1) },
            ],
        ]
    );
}

#[test]
fn self_group_creation_counts_each_group_once() {
    // Two groups created locally, one delivered by welcome; one of the local
    // ones is also seen again on the welcome feed.
    let discovered = vec![
        MlsGroup::new(vec![1], 1),
        MlsGroup::new(vec![2], 2),
        MlsGroup::new(vec![1], 1),
        MlsGroup::new(vec![3], 3),
    ];
    let mut d = Driver::new(vec![]);
    for group in discovered {
        let resolved = Ok((GroupMetadata { conversation_type: ConversationType::Group }, group));
        if let Some(item) = filter_conversation(Some(ConversationType::Group), resolved) {
            d.conversations.push_back(item);
        }
    }
    d.run();
    let found_in_store: usize = 3;
    assert_eq!(d.mux.group_id_to_info.len(), found_in_store);
    assert_eq!(d.rebuilds.len(), found_in_store);
}

#[test]
fn group_message_filter_ignores_dms() {
    // With a filter on groups, a DM never reaches the multiplexer, so no
    // fan-in ever covers it; a group does.
    let mut d = Driver::new(vec![]);
    let dm = Ok((GroupMetadata { conversation_type: ConversationType::Dm }, MlsGroup::new(vec![1], 1)));
    let group =
        Ok((GroupMetadata { conversation_type: ConversationType::Group }, MlsGroup::new(vec![2], 2)));
    for resolved in [dm, group] {
        if let Some(item) = filter_conversation(Some(ConversationType::Group), resolved) {
            d.conversations.push_back(item);
        }
    }
    d.run();
    assert_eq!(d.rebuilds, vec![vec![GroupEntry { group_id: vec![2], info: info(2, 1) }]]);
    assert!(!d.mux.group_id_to_info.contains_key(&vec![1]));
    d.fan_in.push_back(msg("over the group"));
    d.run();
    assert_eq!(texts(&d.yielded), vec!["over the group"]);
}

#[test]
fn dm_message_filter_ignores_groups() {
    let mut d = Driver::new(vec![]);
    let dm = Ok((GroupMetadata { conversation_type: ConversationType::Dm }, MlsGroup::new(vec![1], 1)));
    let group =
        Ok((GroupMetadata { conversation_type: ConversationType::Group }, MlsGroup::new(vec![2], 2)));
    for resolved in [dm, group] {
        if let Some(item) = filter_conversation(Some(ConversationType::Dm), resolved) {
            d.conversations.push_back(item);
        }
    }
    d.run();
    assert_eq!(d.rebuilds, vec![vec![GroupEntry { group_id: vec![1], info: info(1, 1) }]]);
    assert!(!d.mux.group_id_to_info.contains_key(&vec![2]));
}

#[test]
fn stream_ends_only_when_both_sources_are_exhausted_and_nothing_is_buffered() {
    let mut mux: Multiplexer<String> = Multiplexer::new(vec![]);
    assert!(mux.is_finished(true, true));
    assert!(!mux.is_finished(true, false));
    assert!(!mux.is_finished(false, true));
    assert!(!mux.is_finished(false, false));
    mux.buffer(msg("held"));
    assert!(!mux.is_finished(true, true));
    mux.drain_extra();
    assert!(mux.is_finished(true, true));
}
