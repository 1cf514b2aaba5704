//! The snapshot that a message fan-in is built from: for each known group, when
//! it was created and from where its messages are to be streamed.

use vstd::prelude::*;
use crate::conversation::StoredGroup;

verus! {

/// The cursor of a group that was known when the fan-in was built: resume from
/// the position that the store recorded.
pub const CURSOR_FROM_STORE: u64 = 0;

/// The cursor of a group discovered while the stream runs: replay from the
/// group's creation, so that nothing sent before the discovery is missed.
pub const CURSOR_FROM_CREATION: u64 = 1;

/// Where the messages of one group are streamed from.
#[derive(Clone, Copy, Debug, PartialEq, Eq, Structural)]
pub struct MessagesStreamInfo {
    pub convo_created_at_ns: i64,
    pub cursor: u64,
}

impl MessagesStreamInfo {
    /// The same group, streamed from the position that the store recorded.
    pub open spec fn from_store(self) -> MessagesStreamInfo {
        MessagesStreamInfo { convo_created_at_ns: self.convo_created_at_ns, cursor: 0 }
    }

    /// The key and the stream info of a group loaded from the store: its id,
    /// its creation time, and the cursor that resumes from the store.
    pub fn stream_entry(group: StoredGroup) -> (entry: (Vec<u8>, MessagesStreamInfo))
        ensures
            entry.0 == group.id,
            entry.1 == (MessagesStreamInfo {
                convo_created_at_ns: group.created_at_ns,
                cursor: 0,
            }),
    {
        (
            group.id,
            MessagesStreamInfo {
                convo_created_at_ns: group.created_at_ns,
                cursor: CURSOR_FROM_STORE,
            },
        )
    }
}

/// A stored group as an entry of the map: its id, and the stream info that
/// resumes from the store.
impl From<StoredGroup> for (Vec<u8>, MessagesStreamInfo) {
    fn from(group: StoredGroup) -> (entry: (Vec<u8>, MessagesStreamInfo)) {
        MessagesStreamInfo::stream_entry(group)
    }
}

impl vstd::std_specs::convert::FromSpecImpl<StoredGroup> for (Vec<u8>, MessagesStreamInfo) {
    open spec fn obeys_from_spec() -> bool {
        true
    }

    open spec fn from_spec(group: StoredGroup) -> (Vec<u8>, MessagesStreamInfo) {
        (group.id, MessagesStreamInfo { convo_created_at_ns: group.created_at_ns, cursor: 0 })
    }
}

/// One group of a snapshot.
#[derive(Clone, Debug, PartialEq, Eq)]
pub struct GroupEntry {
    pub group_id: Vec<u8>,
    pub info: MessagesStreamInfo,
}

/// The group ids of `entries`, in order.
pub open spec fn entry_keys(entries: Seq<GroupEntry>) -> Seq<Seq<u8>> {
    entries.map_values(|e: GroupEntry| e.group_id@)
}

/// The map that a list of entries with distinct group ids stands for.
pub open spec fn entries_map(entries: Seq<GroupEntry>) -> Map<Seq<u8>, MessagesStreamInfo> {
    Map::new(
        |k: Seq<u8>| entry_keys(entries).contains(k),
        |k: Seq<u8>| entries[entry_keys(entries).index_of(k)].info,
    )
}

/// `m` with `k` bound to `v`, unless `k` is bound already: the first binding
/// wins.
pub open spec fn insert_absent(
    m: Map<Seq<u8>, MessagesStreamInfo>,
    k: Seq<u8>,
    v: MessagesStreamInfo,
) -> Map<Seq<u8>, MessagesStreamInfo> {
    if m.contains_key(k) {
        m
    } else {
        m.insert(k, v)
    }
}

/// `ids` with `k` at its end, unless `k` is among them already.
pub open spec fn push_absent(ids: Seq<Seq<u8>>, k: Seq<u8>) -> Seq<Seq<u8>> {
    if ids.contains(k) {
        ids
    } else {
        ids.push(k)
    }
}

/// A group enters the map once, however often it is added: adding it again,
/// with whatever info, changes nothing.
pub proof fn lemma_insert_is_idempotent(
    m: Map<Seq<u8>, MessagesStreamInfo>,
    k: Seq<u8>,
    first: MessagesStreamInfo,
    second: MessagesStreamInfo,
)
    ensures
        insert_absent(m, k, first).contains_key(k),
        insert_absent(insert_absent(m, k, first), k, second) == insert_absent(m, k, first),
{
}

/// The snapshot made of the groups that the store returned: each group
/// streamed from the store's position, the first of two groups with one id
/// winning.
pub open spec fn collect_groups(groups: Seq<StoredGroup>) -> Map<Seq<u8>, MessagesStreamInfo>
    decreases groups.len(),
{
    if groups.len() == 0 {
        Map::empty()
    } else {
        let g = groups.last();
        insert_absent(
            collect_groups(groups.drop_last()),
            g.id@,
            MessagesStreamInfo { convo_created_at_ns: g.created_at_ns, cursor: 0 },
        )
    }
}

/// The ids of the groups that the store returned, in the store's order, each
/// id where it first occurs.
pub open spec fn collect_ids(groups: Seq<StoredGroup>) -> Seq<Seq<u8>>
    decreases groups.len(),
{
    if groups.len() == 0 {
        Seq::empty()
    } else {
        push_absent(collect_ids(groups.drop_last()), groups.last().id@)
    }
}

proof fn lemma_entry_lookup(entries: Seq<GroupEntry>, i: int)
    requires
        entry_keys(entries).no_duplicates(),
        0 <= i < entries.len(),
    ensures
        entries_map(entries).contains_key(entries[i].group_id@),
        entries_map(entries)[entries[i].group_id@] == entries[i].info,
        entry_keys(entries).index_of(entries[i].group_id@) == i,
{
    let keys = entry_keys(entries);
    assert(keys[i] == entries[i].group_id@);
    assert(keys.contains(keys[i]));
    let j = keys.index_of(keys[i]);
    assert(0 <= j < keys.len() && keys[j] == keys[i]);
}

proof fn lemma_push_entry(entries: Seq<GroupEntry>, e: GroupEntry)
    requires
        entry_keys(entries).no_duplicates(),
        !entry_keys(entries).contains(e.group_id@),
    ensures
        entry_keys(entries.push(e)).no_duplicates(),
        entry_keys(entries.push(e)) == entry_keys(entries).push(e.group_id@),
        entries_map(entries.push(e)) == entries_map(entries).insert(e.group_id@, e.info),
{
    let grown = entries.push(e);
    let keys = entry_keys(entries);
    assert(entry_keys(grown) == keys.push(e.group_id@));
    assert(entry_keys(grown).no_duplicates()) by {
        assert forall|i: int, j: int|
            0 <= i < keys.len() + 1 && 0 <= j < keys.len() + 1 && i != j implies keys.push(
            e.group_id@,
        )[i] != keys.push(e.group_id@)[j] by {
            if i < keys.len() && j < keys.len() {
            } else if i < keys.len() {
                assert(keys.contains(keys[i]));
            } else {
                assert(keys.contains(keys[j]));
            }
        }
    }
    let lhs = entries_map(grown);
    let rhs = entries_map(entries).insert(e.group_id@, e.info);
    assert forall|k: Seq<u8>| lhs.contains_key(k) <==> rhs.contains_key(k) by {
        if lhs.contains_key(k) {
            let i = choose|i: int| 0 <= i < grown.len() && entry_keys(grown)[i] == k;
            if i < entries.len() {
                assert(keys[i] == k);
            }
        }
        if rhs.contains_key(k) {
            if k == e.group_id@ {
                assert(entry_keys(grown)[entries.len() as int] == k);
            } else {
                let i = choose|i: int| 0 <= i < keys.len() && keys[i] == k;
                assert(entry_keys(grown)[i] == k);
            }
        }
    }
    assert forall|k: Seq<u8>| lhs.contains_key(k) implies lhs[k] == rhs[k] by {
        let i = choose|i: int| 0 <= i < grown.len() && entry_keys(grown)[i] == k;
        assert(grown[i].group_id@ == k);
        lemma_entry_lookup(grown, i);
        if i < entries.len() {
            assert(entries[i] == grown[i]);
            lemma_entry_lookup(entries, i);
        }
    }
    assert(lhs =~= rhs);
}

proof fn lemma_reset_entries(before: Seq<GroupEntry>, after: Seq<GroupEntry>)
    requires
        entry_keys(before).no_duplicates(),
        after.len() == before.len(),
        forall|i: int|
            0 <= i < before.len() ==> (#[trigger] after[i]).group_id@ == before[i].group_id@
                && after[i].info == before[i].info.from_store(),
    ensures
        entry_keys(after) == entry_keys(before),
        entries_map(after) == entries_map(before).map_values(
            |info: MessagesStreamInfo| info.from_store(),
        ),
{
    assert(entry_keys(after) =~= entry_keys(before));
    let lhs = entries_map(after);
    let rhs = entries_map(before).map_values(|info: MessagesStreamInfo| info.from_store());
    assert forall|k: Seq<u8>| lhs.contains_key(k) implies lhs[k] == rhs[k] by {
        let i = entry_keys(after).index_of(k);
        assert(0 <= i < after.len());
        assert(after[i].info == before[i].info.from_store());
    }
    assert(lhs =~= rhs);
}

proof fn lemma_entries_count(entries: Seq<GroupEntry>)
    requires
        entry_keys(entries).no_duplicates(),
    ensures
        entries_map(entries).dom().finite(),
        entries_map(entries).len() == entries.len(),
{
    let keys = entry_keys(entries);
    keys.unique_seq_to_set();
    assert(entries_map(entries).dom() =~= keys.to_set());
    vstd::seq_lib::seq_to_set_is_finite(keys);
}

/// Whether two byte strings hold the same bytes.
fn same_bytes(a: &Vec<u8>, b: &Vec<u8>) -> (same: bool)
    ensures
        same == (a@ == b@),
{
    if a.len() != b.len() {
        return false;
    }
    let mut i: usize = 0;
    while i < a.len()
        invariant
            a.len() == b.len(),
            i <= a.len(),
            forall|j: int| 0 <= j < i ==> a@[j] == b@[j],
        decreases a.len() - i,
    {
        if a[i] != b[i] {
            return false;
        }
        i += 1;
    }
    assert(a@ =~= b@);
    true
}

/// A copy of a byte string.
fn copy_bytes(bytes: &Vec<u8>) -> (copy: Vec<u8>)
    ensures
        copy@ == bytes@,
{
    let mut copy: Vec<u8> = Vec::new();
    let mut i: usize = 0;
    while i < bytes.len()
        invariant
            i <= bytes.len(),
            copy@ == bytes@.take(i as int),
        decreases bytes.len() - i,
    {
        copy.push(bytes[i]);
        i += 1;
        assert(copy@ =~= bytes@.take(i as int));
    }
    assert(bytes@.take(bytes.len() as int) =~= bytes@);
    copy
}

/// Whether two lists hold the same groups with the same info, in the same order.
spec fn same_entries(a: Seq<GroupEntry>, b: Seq<GroupEntry>) -> bool {
    &&& a.len() == b.len()
    &&& forall|j: int|
        0 <= j < a.len() ==> (#[trigger] a[j]).group_id@ == b[j].group_id@ && a[j].info
            == b[j].info
}

proof fn lemma_same_entries(a: Seq<GroupEntry>, b: Seq<GroupEntry>)
    requires
        same_entries(a, b),
    ensures
        entry_keys(a) == entry_keys(b),
        entries_map(a) == entries_map(b),
{
    assert(entry_keys(a) =~= entry_keys(b));
    assert forall|k: Seq<u8>| entries_map(a).contains_key(k) implies entries_map(a)[k]
        == entries_map(b)[k] by {
        let i = entry_keys(a).index_of(k);
        assert(0 <= i < a.len());
        assert(a[i].info == b[i].info);
    }
    assert(entries_map(a) =~= entries_map(b));
}

/// A copy of a list of entries.
fn copy_entries(entries: &Vec<GroupEntry>) -> (copy: Vec<GroupEntry>)
    ensures
        same_entries(copy@, entries@),
{
    let mut copy: Vec<GroupEntry> = Vec::new();
    let mut i: usize = 0;
    while i < entries.len()
        invariant
            i <= entries.len(),
            copy.len() == i,
            forall|j: int|
                0 <= j < i ==> (#[trigger] copy[j]).group_id@ == entries[j].group_id@
                    && copy[j].info == entries[j].info,
        decreases entries.len() - i,
    {
        let entry = &entries[i];
        copy.push(GroupEntry { group_id: copy_bytes(&entry.group_id), info: entry.info });
        i += 1;
    }
    copy
}

/// The position of the entry with id `group_id`, if there is one.
fn position(entries: &Vec<GroupEntry>, group_id: &Vec<u8>) -> (found: Option<usize>)
    ensures
        found is Some <==> entry_keys(entries@).contains(group_id@),
        found matches Some(i) ==> i < entries.len() && entries[i as int].group_id@ == group_id@,
{
    let mut i: usize = 0;
    while i < entries.len()
        invariant
            i <= entries.len(),
            forall|j: int| 0 <= j < i ==> entries[j].group_id@ != group_id@,
        decreases entries.len() - i,
    {
        if same_bytes(&entries[i].group_id, group_id) {
            assert(entry_keys(entries@)[i as int] == group_id@);
            return Some(i);
        }
        i += 1;
    }
    assert(!entry_keys(entries@).contains(group_id@)) by {
        if entry_keys(entries@).contains(group_id@) {
            let j = choose|j: int|
                0 <= j < entries.len() && entry_keys(entries@)[j] == group_id@;
            assert(entries[j].group_id@ == group_id@);
        }
    }
    None
}

/// A map from group id to stream info, owned by one streaming task. A group id
/// occurs at most once; groups keep the order in which they were added.
#[derive(Debug)]
pub struct GroupInfoMap {
    entries: Vec<GroupEntry>,
}

impl View for GroupInfoMap {
    type V = Map<Seq<u8>, MessagesStreamInfo>;

    closed spec fn view(&self) -> Map<Seq<u8>, MessagesStreamInfo> {
        entries_map(self.entries@)
    }
}

impl GroupInfoMap {
    #[verifier::type_invariant]
    spec fn distinct_ids(self) -> bool {
        entry_keys(self.entries@).no_duplicates()
    }

    /// The ids of the known groups, in the order in which the groups were
    /// added. They are the keys of the map, each once.
    pub closed spec fn ids(&self) -> Seq<Seq<u8>> {
        entry_keys(self.entries@)
    }

    /// The map without any group.
    pub fn new() -> (m: GroupInfoMap)
        ensures
            m@ == Map::<Seq<u8>, MessagesStreamInfo>::empty(),
            m.ids() == Seq::<Seq<u8>>::empty(),
    {
        let entries: Vec<GroupEntry> = Vec::new();
        proof {
            assert(entries_map(entries@) =~= Map::<Seq<u8>, MessagesStreamInfo>::empty());
            assert(entry_keys(entries@) =~= Seq::<Seq<u8>>::empty());
        }
        GroupInfoMap { entries }
    }

    /// The snapshot of the groups that the store returned, each streamed from
    /// the store's position, in the store's order.
    pub fn from_groups(groups: Vec<StoredGroup>) -> (m: GroupInfoMap)
        ensures
            m@ == collect_groups(groups@),
            m.ids() == collect_ids(groups@),
    {
        let ghost all = groups@;
        let mut entries: Vec<GroupEntry> = Vec::new();
        proof {
            assert(entries_map(entries@) =~= Map::<Seq<u8>, MessagesStreamInfo>::empty());
            assert(entry_keys(entries@) =~= Seq::<Seq<u8>>::empty());
        }
        for group in it: groups
            invariant
                it.seq() == all,
                entry_keys(entries@).no_duplicates(),
                entries_map(entries@) == collect_groups(all.take(it.index() as int)),
                entry_keys(entries@) == collect_ids(all.take(it.index() as int)),
        {
            proof {
                assert(all.take(it.index() + 1).drop_last() == all.take(it.index() as int));
            }
            let (group_id, info) = MessagesStreamInfo::stream_entry(group);
            if position(&entries, &group_id).is_none() {
                proof {
                    lemma_push_entry(entries@, GroupEntry { group_id, info });
                }
                entries.push(GroupEntry { group_id, info });
            }
        }
        proof {
            assert(all.take(all.len() as int) == all);
        }
        GroupInfoMap { entries }
    }

    /// Whether the group is known.
    pub fn contains_key(&self, group_id: &Vec<u8>) -> (known: bool)
        ensures
            known == self@.contains_key(group_id@),
            known == self.ids().contains(group_id@),
    {
        position(&self.entries, group_id).is_some()
    }

    /// The stream info of a group, if the group is known.
    pub fn get(&self, group_id: &Vec<u8>) -> (info: Option<MessagesStreamInfo>)
        ensures
            info == if self@.contains_key(group_id@) {
                Some(self@[group_id@])
            } else {
                None
            },
    {
        proof {
            use_type_invariant(self);
        }
        match position(&self.entries, group_id) {
            Some(i) => {
                proof {
                    lemma_entry_lookup(self.entries@, i as int);
                }
                Some(self.entries[i].info)
            },
            None => None,
        }
    }

    /// The number of known groups.
    pub fn len(&self) -> (n: usize)
        ensures
            self@.dom().finite(),
            n == self@.len(),
            n == self.ids().len(),
    {
        proof {
            use_type_invariant(self);
            lemma_entries_count(self.entries@);
        }
        self.entries.len()
    }

    /// Whether no group is known.
    pub fn is_empty(&self) -> (empty: bool)
        ensures
            empty == (self@ == Map::<Seq<u8>, MessagesStreamInfo>::empty()),
    {
        proof {
            if self.entries@.len() == 0 {
                assert(self@ =~= Map::<Seq<u8>, MessagesStreamInfo>::empty());
            } else {
                assert(entry_keys(self.entries@)[0] == self.entries@[0].group_id@);
                assert(self@.contains_key(self.entries@[0].group_id@));
            }
        }
        self.entries.len() == 0
    }

    /// Adds a group, behind those added before it. A group that is known
    /// already keeps its place and the info that it has: the first-observed
    /// cursor wins. Returns whether the group was added.
    pub fn insert(&mut self, group_id: Vec<u8>, info: MessagesStreamInfo) -> (added: bool)
        ensures
            added == !old(self)@.contains_key(group_id@),
            final(self)@ == insert_absent(old(self)@, group_id@, info),
            final(self).ids() == push_absent(old(self).ids(), group_id@),
    {
        proof {
            use_type_invariant(&*self);
        }
        if position(&self.entries, &group_id).is_some() {
            false
        } else {
            let mut grown = copy_entries(&self.entries);
            proof {
                lemma_same_entries(grown@, self.entries@);
                lemma_push_entry(grown@, GroupEntry { group_id, info });
                lemma_push_entry(self.entries@, GroupEntry { group_id, info });
            }
            grown.push(GroupEntry { group_id, info });
            self.entries = grown;
            true
        }
    }

    /// Sets the cursor of every known group to the store's position. The
    /// groups, their order and their creation times stay.
    pub fn reset_cursors(&mut self)
        ensures
            final(self)@ == old(self)@.map_values(|info: MessagesStreamInfo| info.from_store()),
            final(self).ids() == old(self).ids(),
    {
        proof {
            use_type_invariant(&*self);
        }
        let mut fresh: Vec<GroupEntry> = Vec::new();
        let mut i: usize = 0;
        while i < self.entries.len()
            invariant
                i <= self.entries.len(),
                fresh.len() == i,
                forall|j: int|
                    0 <= j < i ==> (#[trigger] fresh[j]).group_id@ == self.entries[j].group_id@
                        && fresh[j].info == self.entries[j].info.from_store(),
            decreases self.entries.len() - i,
        {
            let entry = &self.entries[i];
            fresh.push(
                GroupEntry {
                    group_id: copy_bytes(&entry.group_id),
                    info: MessagesStreamInfo {
                        convo_created_at_ns: entry.info.convo_created_at_ns,
                        cursor: CURSOR_FROM_STORE,
                    },
                },
            );
            i += 1;
        }
        proof {
            lemma_reset_entries(self.entries@, fresh@);
        }
        self.entries = fresh;
    }

    /// A copy of the map as it is now. Later changes of the map do not reach
    /// the copy: it is what a fan-in is built from.
    pub fn snapshot(&self) -> (copy: GroupInfoMap)
        ensures
            copy@ == self@,
            copy.ids() == self.ids(),
    {
        proof {
            use_type_invariant(self);
        }
        let entries = copy_entries(&self.entries);
        proof {
            lemma_same_entries(entries@, self.entries@);
        }
        GroupInfoMap { entries }
    }

    /// The groups of the map as a list, in the order in which they were added:
    /// no id twice, each group with the info that the map has for it, and the
    /// list stands for the same map.
    pub fn into_entries(self) -> (entries: Vec<GroupEntry>)
        ensures
            entry_keys(entries@) == self.ids(),
            entry_keys(entries@).no_duplicates(),
            entries_map(entries@) == self@,
            forall|i: int|
                0 <= i < entries.len() ==> self@.contains_key(
                    (#[trigger] entries[i]).group_id@,
                ) && self@[entries[i].group_id@] == entries[i].info,
    {
        proof {
            use_type_invariant(&self);
            assert forall|i: int| 0 <= i < self.entries.len() implies self@.contains_key(
                (#[trigger] self.entries[i]).group_id@,
            ) && self@[self.entries[i].group_id@] == self.entries[i].info by {
                lemma_entry_lookup(self.entries@, i);
            }
        }
        self.entries
    }
}

} // verus!
