//! The keys that are held down, kept to suppress repeated transitions.

use vstd::prelude::*;
use crate::key::Key;

verus! {

/// Whether bit `i` of `word` is set.
pub open spec fn bit(word: u64, i: u64) -> bool {
    (word >> i) & 1 == 1
}

/// Setting one bit of a word leaves the others, and changes the word exactly
/// when the bit was clear.
proof fn lemma_set_bit(word: u64, i: u64, j: u64)
    by (bit_vector)
    requires
        i < 64,
        j < 64,
    ensures
        bit(word | (1u64 << i), j) == (i == j || bit(word, j)),
        (word | (1u64 << i)) != word <==> !bit(word, i),
{
}

/// Clearing one bit of a word leaves the others, and changes the word exactly
/// when the bit was set.
proof fn lemma_clear_bit(word: u64, i: u64, j: u64)
    by (bit_vector)
    requires
        i < 64,
        j < 64,
    ensures
        bit(word & !(1u64 << i), j) == (i != j && bit(word, j)),
        (word & !(1u64 << i)) != word <==> bit(word, i),
{
}

/// No bit of the empty word is set.
proof fn lemma_no_bit(j: u64)
    by (bit_vector)
    requires
        j < 64,
    ensures
        !bit(0, j),
{
}

/// The state after a press of `key`, and whether the press changed it.
pub open spec fn pressed(held: Set<Key>, key: Key) -> (Set<Key>, bool) {
    (held.insert(key), !held.contains(key))
}

/// The state after a release of `key`, and whether the release changed it.
pub open spec fn released(held: Set<Key>, key: Key) -> (Set<Key>, bool) {
    (held.remove(key), held.contains(key))
}

/// The set of keys that are held down: one bit for each key, in two words.
/// The first word has the keys numbered below 64, the second the keys of the
/// FN layer.
#[derive(Copy, Clone, Debug)]
pub struct KeyState {
    base: u64,
    layer: u64,
}

impl View for KeyState {
    type V = Set<Key>;

    closed spec fn view(&self) -> Set<Key> {
        Set::new(|key: Key| self.holds(key))
    }
}

impl KeyState {
    /// Whether the bit of `key` is set.
    closed spec fn holds(self, key: Key) -> bool {
        if key.spec_code() >= 64 {
            bit(self.layer, (key.spec_code() - 64) as u64)
        } else {
            bit(self.base, key.spec_code() as u64)
        }
    }

    /// No key is held down.
    pub fn new() -> (state: KeyState)
        ensures
            state@ == Set::<Key>::empty(),
    {
        let state = KeyState { base: 0, layer: 0 };
        proof {
            assert forall|key: Key| !state.holds(key) by {
                if key.spec_code() >= 64 {
                    lemma_no_bit((key.spec_code() - 64) as u64);
                } else {
                    lemma_no_bit(key.spec_code() as u64);
                }
            }
            assert(state@ =~= Set::<Key>::empty());
        }
        state
    }

    /// Whether `key` is held down.
    pub fn is_held(&self, key: Key) -> (held: bool)
        ensures
            held == self@.contains(key),
    {
        let code = key.code();
        if code >= 64 {
            (self.layer >> ((code - 64) as u64)) & 1 == 1
        } else {
            (self.base >> (code as u64)) & 1 == 1
        }
    }

    /// Marks `key` as held down. The result is true only if the key was up:
    /// a press of a key that is held, as the platform sends it while the key
    /// repeats, changes nothing.
    pub fn press(&mut self, key: Key) -> (changed: bool)
        ensures
            (final(self)@, changed) == pressed(old(self)@, key),
    {
        let code = key.code();
        let before = *self;
        if code >= 64 {
            let flag: u64 = 1u64 << ((code - 64) as u64);
            self.layer = before.layer | flag;
        } else {
            let flag: u64 = 1u64 << (code as u64);
            self.base = before.base | flag;
        }
        proof {
            assert forall|k: Key| self.holds(k) == (k == key || before.holds(k)) by {
                if (k.spec_code() >= 64) == (code >= 64) {
                    if k.spec_code() == code {
                        Key::lemma_code_injective(k, key);
                    }
                    if code >= 64 {
                        lemma_set_bit(before.layer, (code - 64) as u64, (k.spec_code() - 64) as u64);
                    } else {
                        lemma_set_bit(before.base, code as u64, k.spec_code() as u64);
                    }
                }
            }
            if code >= 64 {
                lemma_set_bit(before.layer, (code - 64) as u64, (code - 64) as u64);
            } else {
                lemma_set_bit(before.base, code as u64, code as u64);
            }
            assert(self@ =~= before@.insert(key));
        }
        self.base != before.base || self.layer != before.layer
    }

    /// Marks `key` as up. The result is true only if the key was held: a
    /// release of a key that is up changes nothing.
    pub fn release(&mut self, key: Key) -> (changed: bool)
        ensures
            (final(self)@, changed) == released(old(self)@, key),
    {
        let code = key.code();
        let before = *self;
        if code >= 64 {
            let flag: u64 = 1u64 << ((code - 64) as u64);
            self.layer = before.layer & !flag;
        } else {
            let flag: u64 = 1u64 << (code as u64);
            self.base = before.base & !flag;
        }
        proof {
            assert forall|k: Key| self.holds(k) == (k != key && before.holds(k)) by {
                if (k.spec_code() >= 64) == (code >= 64) {
                    if k.spec_code() == code {
                        Key::lemma_code_injective(k, key);
                    }
                    if code >= 64 {
                        lemma_clear_bit(
                            before.layer,
                            (code - 64) as u64,
                            (k.spec_code() - 64) as u64,
                        );
                    } else {
                        lemma_clear_bit(before.base, code as u64, k.spec_code() as u64);
                    }
                }
            }
            if code >= 64 {
                lemma_clear_bit(before.layer, (code - 64) as u64, (code - 64) as u64);
            } else {
                lemma_clear_bit(before.base, code as u64, code as u64);
            }
            assert(self@ =~= before@.remove(key));
        }
        self.base != before.base || self.layer != before.layer
    }
}

impl Default for KeyState {
    /// No key is held down.
    fn default() -> (state: KeyState)
        ensures
            state@ == Set::<Key>::empty(),
    {
        KeyState::new()
    }
}

/// Two presses of one key in a row report one change where the key was up,
/// and none where it was held: the second never reports one. A release of a
/// key that is up reports no change and leaves the state as it was, so a
/// release reports a change only after a press that did.
pub proof fn lemma_debounce(held: Set<Key>, key: Key)
    ensures
        !held.contains(key) ==> pressed(held, key).1 && !pressed(pressed(held, key).0, key).1,
        held.contains(key) ==> !pressed(held, key).1 && !pressed(pressed(held, key).0, key).1,
        !held.contains(key) ==> !released(held, key).1 && released(held, key).0 == held,
        !released(released(held, key).0, key).1,
        released(pressed(held, key).0, key).1,
{
    if !held.contains(key) {
        assert(held.remove(key) =~= held);
    }
}

/// The keys that are held after a run of key events, each a key and whether
/// it is pressed, that starts with the keys `held`.
pub open spec fn replay(held: Set<Key>, events: Seq<(Key, bool)>) -> Set<Key>
    decreases events.len(),
{
    if events.len() == 0 {
        held
    } else {
        let before = replay(held, events.drop_last());
        if events.last().1 {
            pressed(before, events.last().0).0
        } else {
            released(before, events.last().0).0
        }
    }
}

/// The events of a run that change the state, in their order: these are
/// delivered, and the others are swallowed.
pub open spec fn delivered(held: Set<Key>, events: Seq<(Key, bool)>) -> Seq<(Key, bool)>
    decreases events.len(),
{
    if events.len() == 0 {
        Seq::empty()
    } else {
        let before = replay(held, events.drop_last());
        let changed = if events.last().1 {
            pressed(before, events.last().0).1
        } else {
            released(before, events.last().0).1
        };
        if changed {
            delivered(held, events.drop_last()).push(events.last())
        } else {
            delivered(held, events.drop_last())
        }
    }
}

/// What the last event of a run that names `key` says of it, if one does.
pub open spec fn last_of(events: Seq<(Key, bool)>, key: Key) -> Option<bool>
    decreases events.len(),
{
    if events.len() == 0 {
        None
    } else if events.last().0 == key {
        Some(events.last().1)
    } else {
        last_of(events.drop_last(), key)
    }
}

/// Whether no key is pressed twice, or released twice, without the other
/// transition between.
pub open spec fn alternating(events: Seq<(Key, bool)>) -> bool {
    forall|i: int, j: int|
        0 <= i < j < events.len() && events[i].0 == events[j].0 && (forall|m: int|
            i < m < j ==> (#[trigger] events[m]).0 != events[i].0) ==> (#[trigger] events[i]).1 != (
        #[trigger] events[j]).1
}

/// A key is held after a run of events exactly when the last event that
/// names it is a press; a key that no event names is held as it was. The
/// same holds of the delivered events alone: a key is held exactly when the
/// last transition delivered for it is a press.
pub proof fn lemma_held_is_last_transition(held: Set<Key>, events: Seq<(Key, bool)>, key: Key)
    ensures
        replay(held, events).contains(key) == match last_of(events, key) {
            Some(down) => down,
            None => held.contains(key),
        },
        replay(held, events).contains(key) == match last_of(delivered(held, events), key) {
            Some(down) => down,
            None => held.contains(key),
        },
    decreases events.len(),
{
    if events.len() > 0 {
        lemma_held_is_last_transition(held, events.drop_last(), key);
        let sent = delivered(held, events.drop_last());
        assert(sent.push(events.last()).drop_last() =~= sent);
    }
}

/// The position of the last event of a run that names `key` has what
/// `last_of` has.
proof fn lemma_last_of_at(events: Seq<(Key, bool)>, key: Key, i: int)
    requires
        0 <= i < events.len(),
        events[i].0 == key,
        forall|m: int| i < m < events.len() ==> (#[trigger] events[m]).0 != key,
    ensures
        last_of(events, key) == Some(events[i].1),
    decreases events.len(),
{
    if i < events.len() - 1 {
        assert(events[events.len() - 1].0 != key);
        lemma_last_of_at(events.drop_last(), key, i);
    }
}

/// Only changes are delivered: among the delivered events the presses and
/// the releases of each key take turns. Where no key is held at the start,
/// the first transition of each key is a press.
pub proof fn lemma_delivered_alternates(held: Set<Key>, events: Seq<(Key, bool)>)
    ensures
        alternating(delivered(held, events)),
        forall|j: int|
            0 <= j < delivered(held, events).len() && (forall|m: int|
                0 <= m < j ==> (#[trigger] delivered(held, events)[m]).0 != delivered(
                    held,
                    events,
                )[j].0) ==> (#[trigger] delivered(held, events)[j]).1 != held.contains(
                delivered(held, events)[j].0,
            ),
    decreases events.len(),
{
    if events.len() > 0 {
        let before = events.drop_last();
        let sent = delivered(held, before);
        let all = delivered(held, events);
        let key = events.last().0;
        lemma_delivered_alternates(held, before);
        lemma_held_is_last_transition(held, before, key);
        if all.len() > sent.len() {
            let last = all.len() - 1;
            assert(all =~= sent.push(events.last()));
            assert forall|i: int, j: int|
                0 <= i < j < all.len() && all[i].0 == all[j].0 && (forall|m: int|
                    i < m < j ==> (#[trigger] all[m]).0 != all[i].0) implies (#[trigger] all[i]).1
                != (#[trigger] all[j]).1 by {
                if j == last {
                    assert forall|m: int| i < m < sent.len() implies (#[trigger] sent[m]).0
                        != key by {
                        assert(all[m].0 != all[i].0);
                    }
                    lemma_last_of_at(sent, key, i);
                } else {
                    assert(sent[i].0 == sent[j].0);
                    assert forall|m: int| i < m < j implies (#[trigger] sent[m]).0
                        != sent[i].0 by {
                        assert(all[m].0 != all[i].0);
                    }
                }
            }
            assert forall|j: int|
                0 <= j < all.len() && (forall|m: int|
                    0 <= m < j ==> (#[trigger] all[m]).0 != all[j].0) implies (#[trigger] all[j]).1
                != held.contains(all[j].0) by {
                if j == last {
                    lemma_no_event_names(sent, key);
                    assert forall|m: int| 0 <= m < sent.len() implies (#[trigger] sent[m]).0
                        != key by {
                        assert(all[m].0 != all[j].0);
                    }
                } else {
                    assert forall|m: int| 0 <= m < j implies (#[trigger] sent[m]).0
                        != sent[j].0 by {
                        assert(all[m].0 != all[j].0);
                    }
                }
            }
        }
    }
}

/// A run in which no event names `key` has no last event that does.
proof fn lemma_no_event_names(events: Seq<(Key, bool)>, key: Key)
    ensures
        (forall|m: int| 0 <= m < events.len() ==> (#[trigger] events[m]).0 != key) ==> last_of(
            events,
            key,
        ) is None,
    decreases events.len(),
{
    if events.len() > 0 {
        lemma_no_event_names(events.drop_last(), key);
        if forall|m: int| 0 <= m < events.len() ==> (#[trigger] events[m]).0 != key {
            assert(events[events.len() - 1].0 != key);
            assert forall|m: int| 0 <= m < events.drop_last().len() implies (
            #[trigger] events.drop_last()[m]).0 != key by {
                assert(events[m].0 != key);
            }
        }
    }
}

} // verus!
