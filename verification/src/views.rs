//! The two database views of the queue: messages by due time, and the latest
//! ordered message.

use crate::queue::{Id, Message, Timestamp};
use vstd::prelude::*;

verus! {

/// One entry a view maps a document to: a key and a value.
#[derive(Debug, Clone, Copy, PartialEq, Eq, Structural)]
pub struct MappedValue<V> {
    /// The key the document is found under.
    pub key: Timestamp,
    /// The value stored with the key.
    pub value: V,
}

/// Messages by their due time. Reduces to the first message to be executed in
/// the key range. Use by key ranges ro receive all due messages. Reduce to
/// receive the first message to be executed, which can be used to sleep until
/// then.
#[derive(Debug, Clone, Copy)]
pub struct DueMessages;

/// The earlier of an optional due time so far and an optional next one.
pub open spec fn earlier(so_far: Option<Timestamp>, next: Option<Timestamp>) -> Option<Timestamp> {
    match next {
        None => so_far,
        Some(v) => match so_far {
            None => Some(v),
            Some(r) => Some(if v < r { v } else { r }),
        },
    }
}

/// The earliest due time among the values of `mappings`, `None` where no
/// mapping has one.
pub open spec fn earliest_due(mappings: Seq<MappedValue<Option<Timestamp>>>) -> Option<Timestamp>
    decreases mappings.len(),
{
    if mappings.len() == 0 {
        None
    } else {
        earlier(earliest_due(mappings.drop_last()), mappings.last().value)
    }
}

impl DueMessages {
    /// The version of the view's definition.
    pub fn version(&self) -> (v: u64)
        ensures
            v == 0,
    {
        0
    }

    /// Maps a message to its due time, both as key and as value.
    pub fn map(&self, message: &Message) -> (m: MappedValue<Option<Timestamp>>)
        ensures
            m == (MappedValue { key: message.attempt_at, value: Some(message.attempt_at) }),
    {
        MappedValue { key: message.attempt_at, value: Some(message.attempt_at) }
    }

    /// Reduces mappings, or earlier reductions of mappings, to the earliest due
    /// time among their values.
    pub fn reduce(&self, mappings: &[MappedValue<Option<Timestamp>>], rereduce: bool) -> (r: Option<
        Timestamp,
    >)
        ensures
            r == earliest_due(mappings@),
    {
        let mut earliest: Option<Timestamp> = None;
        let mut i: usize = 0;
        while i < mappings.len()
            invariant
                i <= mappings@.len(),
                earliest == earliest_due(mappings@.take(i as int)),
            decreases mappings@.len() - i,
        {
            assert(mappings@.take(i + 1).drop_last() =~= mappings@.take(i as int));
            match mappings[i].value {
                Some(v) => {
                    earliest = match earliest {
                        Some(e) => Some(if v < e { v } else { e }),
                        None => Some(v),
                    };
                },
                None => {},
            }
            i = i + 1;
        }
        assert(mappings@.take(mappings@.len() as int) =~= mappings@);
        earliest
    }
}

/// Latest Message view that reduces to messages in ordered mode that should be
/// executed before a new one. This should be used to find the dependency for
/// new ordered messages.
#[derive(Debug, Clone, Copy)]
pub struct LatestMessage;

/// The mapping with the greatest key; of several with that key, the last one.
pub open spec fn latest_mapping(mappings: Seq<MappedValue<Option<Id>>>) -> Option<
    MappedValue<Option<Id>>,
>
    decreases mappings.len(),
{
    if mappings.len() == 0 {
        None
    } else {
        match latest_mapping(mappings.drop_last()) {
            None => Some(mappings.last()),
            Some(best) => if mappings.last().key >= best.key {
                Some(mappings.last())
            } else {
                Some(best)
            },
        }
    }
}

/// The value of the mapping with the greatest key (the last such mapping).
pub open spec fn latest_value(mappings: Seq<MappedValue<Option<Id>>>) -> Option<Id> {
    match latest_mapping(mappings) {
        Some(m) => m.value,
        None => None,
    }
}

impl LatestMessage {
    /// The version of the view's definition.
    pub fn version(&self) -> (v: u64)
        ensures
            v == 0,
    {
        0
    }

    /// Maps an ordered message to its creation time and ID; other messages are
    /// not mapped.
    pub fn map(&self, message: &Message) -> (m: Option<MappedValue<Option<Id>>>)
        ensures
            m == (if message.ordered {
                Some(MappedValue { key: message.created_at, value: Some(message.id) })
            } else {
                None
            }),
    {
        if message.ordered {
            Some(MappedValue { key: message.created_at, value: Some(message.id) })
        } else {
            None
        }
    }

    /// Reduces mappings to the value of the one with the greatest key; of
    /// several with that key, the last one counts.
    pub fn reduce(&self, mappings: &[MappedValue<Option<Id>>], rereduce: bool) -> (r: Option<Id>)
        ensures
            r == latest_value(mappings@),
    {
        let mut best: Option<MappedValue<Option<Id>>> = None;
        let mut i: usize = 0;
        while i < mappings.len()
            invariant
                i <= mappings@.len(),
                best == latest_mapping(mappings@.take(i as int)),
            decreases mappings@.len() - i,
        {
            assert(mappings@.take(i + 1).drop_last() =~= mappings@.take(i as int));
            let current = mappings[i];
            best = match best {
                Some(b) => if current.key >= b.key {
                    Some(current)
                } else {
                    Some(b)
                },
                None => Some(current),
            };
            i = i + 1;
        }
        assert(mappings@.take(mappings@.len() as int) =~= mappings@);
        match best {
            Some(b) => b.value,
            None => None,
        }
    }
}

/// The due-messages view reduces to the minimum of the due times it was given:
/// there is one exactly when some mapping holds one, it holds no later time
/// than any mapping, and some mapping holds it.
pub proof fn lemma_earliest_due_is_minimum(mappings: Seq<MappedValue<Option<Timestamp>>>)
    ensures
        earliest_due(mappings) is Some <==> exists|i: int|
            0 <= i < mappings.len() && (#[trigger] mappings[i]).value is Some,
        earliest_due(mappings) matches Some(v) ==> forall|i: int|
            0 <= i < mappings.len() && (#[trigger] mappings[i]).value is Some ==> v
                <= mappings[i].value->0,
        earliest_due(mappings) matches Some(v) ==> exists|i: int|
            0 <= i < mappings.len() && (#[trigger] mappings[i]).value == Some(v),
    decreases mappings.len(),
{
    if mappings.len() > 0 {
        let rest = mappings.drop_last();
        let n = mappings.len() - 1;
        let last = mappings[n];
        lemma_earliest_due_is_minimum(rest);
        assert forall|i: int| 0 <= i < n implies mappings[i] == #[trigger] rest[i] by {}
        assert(last == mappings.last());
        if exists|i: int| 0 <= i < mappings.len() && (#[trigger] mappings[i]).value is Some {
            let i = choose|i: int| 0 <= i < mappings.len() && (#[trigger] mappings[i]).value is Some;
            if i < n {
                assert(rest[i].value is Some);
            }
        }
        if earliest_due(rest) is Some {
            let j = choose|j: int| 0 <= j < rest.len() && (#[trigger] rest[j]).value is Some;
            assert(mappings[j].value is Some);
        }
        if let Some(v) = earliest_due(mappings) {
            assert forall|i: int|
                0 <= i < mappings.len() && (#[trigger] mappings[i]).value is Some implies v
                    <= mappings[i].value->0 by {
                if i < n {
                    assert(rest[i] == mappings[i]);
                }
            }
            if earliest_due(rest) is Some && (last.value is None || earliest_due(rest)->0
                <= last.value->0) {
                let j = choose|j: int|
                    0 <= j < rest.len() && (#[trigger] rest[j]).value == earliest_due(rest);
                assert(mappings[j] == rest[j]);
            } else {
                assert(mappings[n].value == Some(v));
            }
        }
    }
}

/// Reducing the reductions of two parts gives the reduction of the whole: the
/// database may reduce a range piecewise and then re-reduce.
pub proof fn lemma_earliest_due_rereduce(
    first: Seq<MappedValue<Option<Timestamp>>>,
    second: Seq<MappedValue<Option<Timestamp>>>,
    first_key: Timestamp,
    second_key: Timestamp,
)
    ensures
        earliest_due(first + second) == earliest_due(
            seq![
                MappedValue { key: first_key, value: earliest_due(first) },
                MappedValue { key: second_key, value: earliest_due(second) },
            ],
        ),
    decreases second.len(),
{
    lemma_reduce_pair(earliest_due(first), earliest_due(second), first_key, second_key);
    if second.len() == 0 {
        assert(first + second =~= first);
    } else {
        let shorter = second.drop_last();
        lemma_earliest_due_rereduce(first, shorter, first_key, second_key);
        lemma_reduce_pair(earliest_due(first), earliest_due(shorter), first_key, second_key);
        assert((first + second).drop_last() =~= first + shorter);
        assert((first + second).last() == second.last());
    }
}

/// A pair of mappings reduces to the earlier of their two values.
proof fn lemma_reduce_pair(a: Option<Timestamp>, b: Option<Timestamp>, ka: Timestamp, kb: Timestamp)
    ensures
        earliest_due(seq![MappedValue { key: ka, value: a }, MappedValue { key: kb, value: b }])
            == earlier(a, b),
{
    let pair = seq![MappedValue { key: ka, value: a }, MappedValue { key: kb, value: b }];
    let single = seq![MappedValue { key: ka, value: a }];
    assert(pair.drop_last() =~= single);
    assert(single.drop_last() =~= Seq::<MappedValue<Option<Timestamp>>>::empty());
    assert(earliest_due(single.drop_last()) == None::<Timestamp>);
    assert(single.last() == MappedValue { key: ka, value: a });
    assert(earliest_due(single) == earlier(None, a));
}

/// The latest-message view reduces to a mapping it was given exactly when it
/// was given any; that mapping's key is the greatest, and every later mapping
/// has a smaller key.
pub proof fn lemma_latest_mapping_is_maximal(mappings: Seq<MappedValue<Option<Id>>>)
    ensures
        latest_mapping(mappings) is Some <==> mappings.len() > 0,
        latest_mapping(mappings) matches Some(m) ==> exists|i: int|
            0 <= i < mappings.len() && #[trigger] mappings[i] == m && (forall|j: int|
                0 <= j < mappings.len() ==> (#[trigger] mappings[j]).key <= m.key) && (forall|
                j: int,
            |
                i < j < mappings.len() ==> (#[trigger] mappings[j]).key < m.key),
    decreases mappings.len(),
{
    if mappings.len() > 0 {
        let rest = mappings.drop_last();
        lemma_latest_mapping_is_maximal(rest);
        let n = mappings.len() - 1;
        assert forall|i: int| 0 <= i < n implies mappings[i] == #[trigger] rest[i] by {}
        assert(mappings[n] == mappings.last());
        let m = latest_mapping(mappings)->0;
        match latest_mapping(rest) {
            None => {
                assert(rest.len() == 0);
                assert(mappings[n] == m);
            },
            Some(best) => {
                let i = choose|i: int|
                    0 <= i < rest.len() && #[trigger] rest[i] == best && (forall|j: int|
                        0 <= j < rest.len() ==> (#[trigger] rest[j]).key <= best.key) && (forall|
                        j: int,
                    |
                        i < j < rest.len() ==> (#[trigger] rest[j]).key < best.key);
                if mappings.last().key >= best.key {
                    assert(mappings[n] == m);
                    assert forall|j: int| 0 <= j < mappings.len() implies (#[trigger] mappings[j]).key
                        <= m.key by {
                        if j < n {
                            assert(rest[j] == mappings[j]);
                        }
                    }
                } else {
                    assert(mappings[i] == m);
                    assert forall|j: int| 0 <= j < mappings.len() implies (#[trigger] mappings[j]).key
                        <= m.key by {
                        if j < n {
                            assert(rest[j] == mappings[j]);
                        }
                    }
                    assert forall|j: int| i < j < mappings.len() implies (#[trigger] mappings[j]).key
                        < m.key by {
                        if j < n {
                            assert(rest[j] == mappings[j]);
                        }
                    }
                }
            },
        }
    }
}

/// The mapping the latest-message view gives an ordered message.
pub open spec fn ordered_entry(message: Message) -> MappedValue<Option<Id>> {
    MappedValue { key: message.created_at, value: Some(message.id) }
}

/// The mappings the latest-message view holds for `messages`: one for each
/// ordered message, in order.
pub open spec fn ordered_mappings(messages: Seq<Message>) -> Seq<MappedValue<Option<Id>>>
    decreases messages.len(),
{
    if messages.len() == 0 {
        Seq::empty()
    } else {
        let rest = ordered_mappings(messages.drop_last());
        if messages.last().ordered {
            rest.push(ordered_entry(messages.last()))
        } else {
            rest
        }
    }
}

/// Whether `entry` is the mapping of one of the ordered `messages`.
spec fn from_ordered_message(messages: Seq<Message>, entry: MappedValue<Option<Id>>) -> bool {
    exists|i: int|
        0 <= i < messages.len() && messages[i].ordered && #[trigger] ordered_entry(messages[i])
            == entry
}

/// Whether `entry` is among `mappings`.
spec fn is_mapped(mappings: Seq<MappedValue<Option<Id>>>, entry: MappedValue<Option<Id>>) -> bool {
    exists|k: int| 0 <= k < mappings.len() && #[trigger] mappings[k] == entry
}

/// The latest-message view holds a mapping for exactly the ordered messages.
proof fn lemma_ordered_mappings_correspond(messages: Seq<Message>)
    ensures
        forall|k: int|
            0 <= k < ordered_mappings(messages).len() ==> from_ordered_message(
                messages,
                #[trigger] ordered_mappings(messages)[k],
            ),
        forall|i: int|
            0 <= i < messages.len() && (#[trigger] messages[i]).ordered ==> is_mapped(
                ordered_mappings(messages),
                ordered_entry(messages[i]),
            ),
    decreases messages.len(),
{
    if messages.len() > 0 {
        let rest = messages.drop_last();
        let n = messages.len() - 1;
        lemma_ordered_mappings_correspond(rest);
        let om = ordered_mappings(messages);
        let rm = ordered_mappings(rest);
        assert forall|i: int| 0 <= i < n implies messages[i] == #[trigger] rest[i] by {}
        assert(messages[n] == messages.last());
        assert forall|k: int| 0 <= k < om.len() implies from_ordered_message(
            messages,
            #[trigger] om[k],
        ) by {
            if k < rm.len() {
                assert(om[k] == rm[k]);
                assert(from_ordered_message(rest, rm[k]));
                let i = choose|i: int|
                    0 <= i < rest.len() && rest[i].ordered && #[trigger] ordered_entry(rest[i])
                        == rm[k];
                assert(messages[i] == rest[i]);
            } else {
                assert(om[k] == ordered_entry(messages[n]));
            }
        }
        assert forall|i: int| 0 <= i < messages.len() && (#[trigger] messages[i]).ordered implies is_mapped(
            om,
            ordered_entry(messages[i]),
        ) by {
            if i < n {
                assert(rest[i].ordered);
                assert(is_mapped(rm, ordered_entry(rest[i])));
                let k = choose|k: int| 0 <= k < rm.len() && #[trigger] rm[k] == ordered_entry(rest[i]);
                assert(om[k] == rm[k]);
            } else {
                assert(om[om.len() - 1] == ordered_entry(messages[n]));
            }
        }
    }
}

/// A new ordered job depends on the latest ordered message: the latest-message
/// view over the queued messages reduces to an ID exactly when some queued
/// message is ordered, and that ID is the one of an ordered message created no
/// earlier than any other ordered message.
pub proof fn lemma_dependency_is_latest_ordered(messages: Seq<Message>)
    ensures
        latest_value(ordered_mappings(messages)) is Some <==> exists|i: int|
            0 <= i < messages.len() && (#[trigger] messages[i]).ordered,
        latest_value(ordered_mappings(messages)) matches Some(id) ==> exists|i: int|
            0 <= i < messages.len() && (#[trigger] messages[i]).ordered && messages[i].id == id
                && (forall|j: int|
                0 <= j < messages.len() && (#[trigger] messages[j]).ordered ==> messages[j].created_at
                    <= messages[i].created_at),
{
    let om = ordered_mappings(messages);
    lemma_ordered_mappings_correspond(messages);
    lemma_latest_mapping_is_maximal(om);
    if exists|i: int| 0 <= i < messages.len() && (#[trigger] messages[i]).ordered {
        let i = choose|i: int| 0 <= i < messages.len() && (#[trigger] messages[i]).ordered;
        assert(is_mapped(om, ordered_entry(messages[i])));
        assert(om.len() > 0);
    }
    if om.len() > 0 {
        let m = latest_mapping(om)->0;
        let k = choose|k: int|
            0 <= k < om.len() && #[trigger] om[k] == m && (forall|j: int|
                0 <= j < om.len() ==> (#[trigger] om[j]).key <= m.key) && (forall|j: int|
                k < j < om.len() ==> (#[trigger] om[j]).key < m.key);
        assert(from_ordered_message(messages, om[k]));
        let i = choose|i: int|
            0 <= i < messages.len() && messages[i].ordered && #[trigger] ordered_entry(messages[i])
                == om[k];
        assert forall|j: int|
            0 <= j < messages.len() && (#[trigger] messages[j]).ordered implies messages[j].created_at
                <= messages[i].created_at by {
            assert(is_mapped(om, ordered_entry(messages[j])));
            let kj = choose|kj: int| 0 <= kj < om.len() && #[trigger] om[kj] == ordered_entry(messages[j]);
            assert(om[kj].key <= m.key);
        }
        assert(messages[i].id == m.value->0);
    }
}

} // verus!
