//! The slots of the connected controllers.
//!
//! A slot's index is the number under which the application knows a
//! controller. During gameplay a controller that leaves keeps its slot as a
//! hole, so that the other players keep their numbers; while renumbering the
//! slots are dense.

use vstd::prelude::*;

verus! {

/// Whether no slot is a hole.
pub open spec fn dense<H>(slots: Seq<Option<H>>) -> bool {
    forall|i: int| 0 <= i < slots.len() ==> (#[trigger] slots[i]) is Some
}

/// Whether a controller sits in slot `i`.
pub open spec fn present<H>(slots: Seq<Option<H>>, i: int) -> bool {
    0 <= i < slots.len() && slots[i] is Some
}

/// Whether `i` is where the next controller goes: the lowest hole, or the end
/// of the slots where there is no hole.
pub open spec fn first_free<H>(slots: Seq<Option<H>>, i: int) -> bool {
    &&& 0 <= i <= slots.len()
    &&& forall|j: int| 0 <= j < i ==> (#[trigger] slots[j]) is Some
    &&& i < slots.len() ==> slots[i] is None
}

/// The slots without their holes, the controllers in the order they had.
pub open spec fn compact<H>(slots: Seq<Option<H>>) -> Seq<Option<H>>
    decreases slots.len(),
{
    if slots.len() == 0 {
        Seq::empty()
    } else if slots.last() is Some {
        compact(slots.drop_last()).push(slots.last())
    } else {
        compact(slots.drop_last())
    }
}

/// The controllers that the slots hold, in the order of their slots.
pub open spec fn handles<H>(slots: Seq<Option<H>>) -> Seq<H>
    decreases slots.len(),
{
    if slots.len() == 0 {
        Seq::empty()
    } else if slots.last() is Some {
        handles(slots.drop_last()).push(slots.last()->0)
    } else {
        handles(slots.drop_last())
    }
}

/// The indices of the slots that hold a controller, in rising order.
pub open spec fn occupied<H>(slots: Seq<Option<H>>) -> Seq<usize>
    decreases slots.len(),
{
    if slots.len() == 0 {
        Seq::empty()
    } else if slots.last() is Some {
        occupied(slots.drop_last()).push((slots.len() - 1) as usize)
    } else {
        occupied(slots.drop_last())
    }
}

/// The slots after the controller in slot `i` has left: during gameplay the
/// slot stays as a hole, while renumbering the last controller takes the
/// slot. Where no controller sits in slot `i`, nothing changes.
pub open spec fn spec_disconnect<H>(slots: Seq<Option<H>>, renumbering: bool, i: int) -> Seq<
    Option<H>,
> {
    if !present(slots, i) {
        slots
    } else if renumbering {
        slots.update(i, slots.last()).drop_last()
    } else {
        slots.update(i, None)
    }
}

/// The slots after a controller has come: it takes the slot `i`, which is a
/// hole or the end of the slots.
pub open spec fn spec_connect<H>(slots: Seq<Option<H>>, i: int, handle: H) -> Seq<Option<H>> {
    if i < slots.len() {
        slots.update(i, Some(handle))
    } else {
        slots.push(Some(handle))
    }
}

/// What the press of a home button asks for.
#[derive(Copy, Clone, Debug, PartialEq, Eq, Structural)]
pub enum Home {
    /// The first player asks to leave the game.
    Exit,
    /// The controller went to the back of the slot order.
    MovedBack,
    /// Nothing: the press has no meaning where it came from.
    Ignored,
}

/// What the press of the home button on slot `i` asks for: during gameplay
/// the first slot asks to leave and the others nothing; while renumbering
/// every controller goes to the back. A press from a slot without a
/// controller asks nothing.
pub open spec fn spec_home<H>(slots: Seq<Option<H>>, renumbering: bool, i: int) -> Home {
    if !present(slots, i) {
        Home::Ignored
    } else if renumbering {
        Home::MovedBack
    } else if i == 0 {
        Home::Exit
    } else {
        Home::Ignored
    }
}

/// The slots after the press of the home button on slot `i`.
pub open spec fn spec_home_slots<H>(slots: Seq<Option<H>>, renumbering: bool, i: int) -> Seq<
    Option<H>,
> {
    if spec_home(slots, renumbering, i) == Home::MovedBack {
        slots.remove(i).push(slots[i])
    } else {
        slots
    }
}

/// The slots to which a rumble goes: the one that is named, if a controller
/// sits in it, or every slot with a controller where none is named.
pub open spec fn spec_rumble_targets<H>(slots: Seq<Option<H>>, slot: Option<usize>) -> Seq<usize> {
    match slot {
        Some(i) => if present(slots, i as int) {
            seq![i]
        } else {
            Seq::empty()
        },
        None => occupied(slots),
    }
}

/// Compacting keeps every controller and their order, leaves no hole, and
/// changes nothing where there was none.
pub proof fn lemma_compact<H>(slots: Seq<Option<H>>)
    ensures
        handles(compact(slots)) == handles(slots),
        dense(compact(slots)),
        compact(slots).len() == handles(slots).len() <= slots.len(),
        dense(slots) ==> compact(slots) == slots,
    decreases slots.len(),
{
    if slots.len() > 0 {
        let front = slots.drop_last();
        lemma_compact(front);
        if slots.last() is Some {
            assert(compact(slots).drop_last() =~= compact(front));
        }
        if dense(slots) {
            assert(dense(front)) by {
                assert forall|i: int| 0 <= i < front.len() implies (#[trigger] front[i]) is Some by {
                    assert(slots[i] is Some);
                }
            }
            assert(slots.last() is Some);
            assert(compact(slots) =~= slots);
        }
    }
}

/// The occupied indices are the indices of the slots with a controller, each
/// once and in rising order.
pub proof fn lemma_occupied<H>(slots: Seq<Option<H>>)
    requires
        slots.len() <= usize::MAX,
    ensures
        occupied(slots).len() == handles(slots).len(),
        forall|k: int|
            0 <= k < occupied(slots).len() ==> present(slots, (#[trigger] occupied(slots)[k]) as int)
                && handles(slots)[k] == slots[occupied(slots)[k] as int]->0,
        forall|k: int, l: int|
            0 <= k < l < occupied(slots).len() ==> occupied(slots)[k] < occupied(slots)[l],
        forall|i: int| present(slots, i) ==> occupied(slots).contains(i as usize),
    decreases slots.len(),
{
    if slots.len() > 0 {
        let front = slots.drop_last();
        let last = (slots.len() - 1) as usize;
        lemma_occupied(front);
        let here = occupied(slots);
        assert forall|i: int| present(slots, i) implies here.contains(i as usize) by {
            if i < front.len() {
                assert(present(front, i));
                let k = choose|k: int| 0 <= k < occupied(front).len() && occupied(front)[k] == i as usize;
                assert(here[k] == i as usize);
            } else {
                assert(here[here.len() - 1] == last);
            }
        }
        assert forall|k: int| 0 <= k < here.len() implies present(slots, (#[trigger] here[k]) as int)
            && handles(slots)[k] == slots[here[k] as int]->0 by {
            if k < occupied(front).len() {
                assert(present(front, occupied(front)[k] as int));
            }
        }
        assert forall|k: int, l: int| 0 <= k < l < here.len() implies here[k] < here[l] by {
            assert(present(front, occupied(front)[k] as int));
        }
    }
}

/// There is one slot for the next controller, and no other.
pub proof fn lemma_first_free_unique<H>(slots: Seq<Option<H>>, a: int, b: int)
    requires
        first_free(slots, a),
        first_free(slots, b),
    ensures
        a == b,
{
    if a < b {
        assert(slots[a] is Some);
    } else if b < a {
        assert(slots[b] is Some);
    }
}

/// During gameplay a controller that leaves changes no other slot, and the
/// next controller that comes takes the lowest hole: the slot that was left,
/// unless there was a hole below it.
pub proof fn lemma_hole_is_refilled<H>(slots: Seq<Option<H>>, i: int, free: int)
    requires
        present(slots, i),
        first_free(slots, free),
    ensures
        spec_disconnect(slots, false, i).len() == slots.len(),
        forall|j: int|
            0 <= j < slots.len() && j != i ==> spec_disconnect(slots, false, i)[j] == slots[j],
        spec_disconnect(slots, false, i)[i] is None,
        first_free(spec_disconnect(slots, false, i), if i < free {
            i
        } else {
            free
        }),
{
    let after = spec_disconnect(slots, false, i);
    let next = if i < free {
        i
    } else {
        free
    };
    assert forall|j: int| 0 <= j < next implies (#[trigger] after[j]) is Some by {
        assert(slots[j] is Some);
    }
}

/// While the slots are renumbered they stay without a hole, whatever comes:
/// a controller that joins, one that leaves, and one that goes to the back.
/// One that leaves makes the table shorter by one slot, and one that goes to
/// the back keeps the others in their order.
pub proof fn lemma_renumbering_stays_dense<H>(slots: Seq<Option<H>>, i: int, handle: H)
    requires
        dense(slots),
    ensures
        first_free(slots, slots.len() as int),
        dense(spec_connect(slots, slots.len() as int, handle)),
        dense(spec_disconnect(slots, true, i)),
        present(slots, i) ==> spec_disconnect(slots, true, i).len() == slots.len() - 1,
        dense(spec_home_slots(slots, true, i)),
        spec_home_slots(slots, true, i).len() == slots.len(),
        present(slots, i) ==> spec_home_slots(slots, true, i) == slots.subrange(0, i)
            + slots.subrange(i + 1, slots.len() as int) + seq![slots[i]],
{
    let joined = spec_connect(slots, slots.len() as int, handle);
    assert forall|j: int| 0 <= j < joined.len() implies (#[trigger] joined[j]) is Some by {
        if j < slots.len() {
            assert(slots[j] is Some);
        }
    }
    if present(slots, i) {
        let left = spec_disconnect(slots, true, i);
        assert forall|j: int| 0 <= j < left.len() implies (#[trigger] left[j]) is Some by {
            assert(slots[j] is Some);
            assert(slots[slots.len() - 1] is Some);
        }
        let moved = spec_home_slots(slots, true, i);
        assert forall|j: int| 0 <= j < moved.len() implies (#[trigger] moved[j]) is Some by {
            if j < i {
                assert(slots[j] is Some);
            } else if j < moved.len() - 1 {
                assert(slots[j + 1] is Some);
            }
        }
        assert(moved =~= slots.subrange(0, i) + slots.subrange(i + 1, slots.len() as int)
            + seq![slots[i]]);
    }
}

/// The controllers of two runs of slots, one after the other, are those of
/// the first followed by those of the second.
pub proof fn lemma_handles_concat<H>(a: Seq<Option<H>>, b: Seq<Option<H>>)
    ensures
        handles(a + b) == handles(a) + handles(b),
    decreases b.len(),
{
    if b.len() == 0 {
        assert(a + b =~= a);
    } else {
        lemma_handles_concat(a, b.drop_last());
        assert((a + b).drop_last() =~= a + b.drop_last());
    }
}

/// The controllers of a single slot.
proof fn lemma_handles_one<H>(slot: Option<H>)
    ensures
        handles(seq![slot]) == match slot {
            Some(handle) => seq![handle],
            None => Seq::empty(),
        },
{
    reveal_with_fuel(handles, 2);
    assert(seq![slot].drop_last() =~= Seq::<Option<H>>::empty());
}

/// The slots are those before slot `i`, slot `i` and those behind it, and so
/// are their controllers.
proof fn lemma_handles_split<H>(slots: Seq<Option<H>>, i: int)
    requires
        0 <= i < slots.len(),
    ensures
        handles(slots) == handles(slots.subrange(0, i)) + handles(seq![slots[i]]) + handles(
            slots.subrange(i + 1, slots.len() as int),
        ),
{
    let front = slots.subrange(0, i);
    let back = slots.subrange(i + 1, slots.len() as int);
    assert(slots =~= front + seq![slots[i]] + back);
    lemma_handles_concat(front, seq![slots[i]]);
    lemma_handles_concat(front + seq![slots[i]], back);
}

/// No controller is lost and none is doubled: one that comes is one more in
/// the table, one that leaves is one less, and the press of a home button
/// keeps them all.
pub proof fn lemma_controllers_kept<H>(slots: Seq<Option<H>>, renumbering: bool, i: int, handle: H)
    ensures
        first_free(slots, i) ==> handles(spec_connect(slots, i, handle)).to_multiset() == handles(
            slots,
        ).to_multiset().insert(handle),
        present(slots, i) ==> handles(spec_disconnect(slots, renumbering, i)).to_multiset()
            == handles(slots).to_multiset().remove(slots[i]->0),
        handles(spec_home_slots(slots, renumbering, i)).to_multiset() == handles(
            slots,
        ).to_multiset(),
{
    broadcast use {
        vstd::seq_lib::lemma_multiset_commutative,
        vstd::seq_lib::group_to_multiset_ensures,
        vstd::multiset::group_multiset_axioms,
    };

    let n = slots.len() as int;
    if first_free(slots, i) {
        let joined = spec_connect(slots, i, handle);
        if i < n {
            lemma_handles_split(slots, i);
            lemma_handles_split(joined, i);
            assert(joined.subrange(0, i) =~= slots.subrange(0, i));
            assert(joined.subrange(i + 1, n) =~= slots.subrange(i + 1, n));
            lemma_handles_one(slots[i]);
            lemma_handles_one(joined[i]);
            let front = handles(slots.subrange(0, i));
            let back = handles(slots.subrange(i + 1, n));
            assert(front + Seq::<H>::empty() =~= front);
            assert(handles(joined).to_multiset() =~= front.to_multiset().add(
                seq![handle].to_multiset(),
            ).add(back.to_multiset()));
            assert(seq![handle] =~= Seq::<H>::empty().push(handle));
            assert(handles(joined).to_multiset() =~= handles(slots).to_multiset().insert(handle));
        } else {
            assert(joined.drop_last() =~= slots);
        }
    }
    if present(slots, i) {
        let gone = slots[i]->0;
        lemma_handles_split(slots, i);
        lemma_handles_one(slots[i]);
        let front = handles(slots.subrange(0, i));
        let back = handles(slots.subrange(i + 1, n));
        assert(seq![gone] =~= Seq::<H>::empty().push(gone));
        assert(handles(slots).to_multiset() =~= front.to_multiset().add(
            seq![gone].to_multiset(),
        ).add(back.to_multiset()));
        assert(handles(slots).to_multiset().remove(gone) =~= front.to_multiset().add(
            back.to_multiset(),
        ));

        // During gameplay the slot becomes a hole.
        let hole = spec_disconnect(slots, false, i);
        lemma_handles_split(hole, i);
        lemma_handles_one(hole[i]);
        assert(hole.subrange(0, i) =~= slots.subrange(0, i));
        assert(hole.subrange(i + 1, n) =~= slots.subrange(i + 1, n));
        assert(front + Seq::<H>::empty() =~= front);

        // While renumbering the last slot takes the place.
        let swapped = spec_disconnect(slots, true, i);
        if i == n - 1 {
            assert(swapped =~= slots.subrange(0, i));
            assert(slots.subrange(i + 1, n) =~= Seq::<Option<H>>::empty());
        } else {
            let middle = slots.subrange(i + 1, n - 1);
            assert(slots.subrange(i + 1, n) =~= middle + seq![slots[n - 1]]);
            lemma_handles_concat(middle, seq![slots[n - 1]]);
            lemma_handles_split(swapped, i);
            assert(swapped.subrange(0, i) =~= slots.subrange(0, i));
            assert(swapped.subrange(i + 1, n - 1) =~= middle);
            assert(swapped[i] == slots[n - 1]);
            assert(handles(swapped).to_multiset() =~= front.to_multiset().add(
                handles(seq![slots[n - 1]]).to_multiset(),
            ).add(handles(middle).to_multiset()));
            assert(back.to_multiset() =~= handles(middle).to_multiset().add(
                handles(seq![slots[n - 1]]).to_multiset(),
            ));
        }

        // A controller that goes to the back.
        let moved = slots.remove(i).push(slots[i]);
        assert(moved =~= slots.subrange(0, i) + slots.subrange(i + 1, n) + seq![slots[i]]);
        lemma_handles_concat(slots.subrange(0, i), slots.subrange(i + 1, n));
        lemma_handles_concat(slots.subrange(0, i) + slots.subrange(i + 1, n), seq![slots[i]]);
        assert(handles(moved).to_multiset() =~= front.to_multiset().add(back.to_multiset()).add(
            seq![gone].to_multiset(),
        ));
    }
}

/// The two shapes of the table: slots that may be holes, or controllers side
/// by side.
enum Slots<H> {
    Gameplay(Vec<Option<H>>),
    Renumbering(Vec<H>),
}

/// The table of controller slots.
pub struct SlotTable<H> {
    slots: Slots<H>,
}

impl<H> View for SlotTable<H> {
    type V = Seq<Option<H>>;

    closed spec fn view(&self) -> Seq<Option<H>> {
        match self.slots {
            Slots::Gameplay(slots) => slots@,
            Slots::Renumbering(handles) => all_present(handles@),
        }
    }
}

/// Slots that hold the given controllers and no hole.
pub open spec fn all_present<H>(handles: Seq<H>) -> Seq<Option<H>> {
    Seq::new(handles.len(), |i: int| Some(handles[i]))
}

impl<H> SlotTable<H> {
    /// Whether the slots are renumbered when a controller leaves.
    pub closed spec fn renumbering(&self) -> bool {
        self.slots is Renumbering
    }

    /// While the slots are renumbered there is no hole.
    pub proof fn lemma_renumbering_dense(&self)
        ensures
            self.renumbering() ==> dense(self@),
    {
    }

    /// A table without slots, for gameplay.
    pub fn new() -> (table: SlotTable<H>)
        ensures
            table@ == Seq::<Option<H>>::empty(),
            !table.renumbering(),
    {
        SlotTable { slots: Slots::Gameplay(Vec::new()) }
    }

    /// The number of slots, holes included.
    pub fn len(&self) -> (n: usize)
        ensures
            n == self@.len(),
    {
        match &self.slots {
            Slots::Gameplay(slots) => slots.len(),
            Slots::Renumbering(handles) => handles.len(),
        }
    }

    /// Whether the slots are renumbered when a controller leaves.
    pub fn is_renumbering(&self) -> (on: bool)
        ensures
            on == self.renumbering(),
    {
        match &self.slots {
            Slots::Gameplay(_) => false,
            Slots::Renumbering(_) => true,
        }
    }

    /// The controller in a slot, if there is one.
    pub fn get(&self, slot: usize) -> (handle: Option<&H>)
        ensures
            present(self@, slot as int) ==> handle == Some(&self@[slot as int]->0),
            !present(self@, slot as int) ==> handle is None,
    {
        match &self.slots {
            Slots::Gameplay(slots) => {
                if slot < slots.len() {
                    slots[slot].as_ref()
                } else {
                    None
                }
            },
            Slots::Renumbering(handles) => {
                if slot < handles.len() {
                    Some(&handles[slot])
                } else {
                    None
                }
            },
        }
    }

    /// The controller in a slot, to be used and changed in its place, if
    /// there is one.
    pub fn get_mut(&mut self, slot: usize) -> (handle: Option<&mut H>)
        ensures
            final(self).renumbering() == old(self).renumbering(),
            match handle {
                Some(h) => present(old(self)@, slot as int) && *h == old(self)@[slot as int]->0
                    && final(self)@ == old(self)@.update(slot as int, Some(*final(h))),
                None => !present(old(self)@, slot as int) && final(self)@ == old(self)@,
            },
    {
        match &mut self.slots {
            Slots::Gameplay(slots) => {
                if slot < slots.len() {
                    slots[slot].as_mut()
                } else {
                    None
                }
            },
            Slots::Renumbering(handles) => {
                if slot < handles.len() {
                    Some(&mut handles[slot])
                } else {
                    None
                }
            },
        }
    }

    /// Takes a new controller into the table, and returns its slot: the
    /// lowest hole, or a new slot at the end where there is no hole.
    pub fn connect(&mut self, handle: H) -> (slot: usize)
        ensures
            first_free(old(self)@, slot as int),
            final(self)@ == spec_connect(old(self)@, slot as int, handle),
            final(self).renumbering() == old(self).renumbering(),
    {
        match &mut self.slots {
            Slots::Gameplay(slots) => {
                let mut i: usize = 0;
                while i < slots.len() && slots[i].is_some()
                    invariant
                        i <= slots@.len(),
                        forall|j: int| 0 <= j < i ==> (#[trigger] slots@[j]) is Some,
                    decreases slots@.len() - i,
                {
                    i += 1;
                }
                if i < slots.len() {
                    slots[i] = Some(handle);
                } else {
                    slots.push(Some(handle));
                }
                i
            },
            Slots::Renumbering(handles) => {
                let i = handles.len();
                handles.push(handle);
                i
            },
        }
    }

    /// Takes the controller of a slot out of the table and returns it.
    /// During gameplay the slot stays as a hole; while renumbering the last
    /// controller takes the slot. A slot without a controller is passed over.
    pub fn disconnect(&mut self, slot: usize) -> (gone: Option<H>)
        ensures
            final(self)@ == spec_disconnect(old(self)@, old(self).renumbering(), slot as int),
            final(self).renumbering() == old(self).renumbering(),
            gone == if present(old(self)@, slot as int) {
                old(self)@[slot as int]
            } else {
                None
            },
    {
        match &mut self.slots {
            Slots::Gameplay(slots) => {
                if slot < slots.len() {
                    slots[slot].take()
                } else {
                    None
                }
            },
            Slots::Renumbering(handles) => {
                if slot < handles.len() {
                    Some(handles.swap_remove(slot))
                } else {
                    None
                }
            },
        }
    }

    /// Chooses how slots are numbered. Turning renumbering on drops every
    /// hole and moves the controllers together, in the order they had;
    /// turning it off changes no slot. No controller is lost or doubled.
    pub fn set_renumbering(&mut self, on: bool)
        ensures
            final(self).renumbering() == on,
            final(self)@ == if on && !old(self).renumbering() {
                compact(old(self)@)
            } else {
                old(self)@
            },
            handles(final(self)@) == handles(old(self)@),
    {
        proof {
            lemma_compact(self@);
        }
        let mut table = SlotTable::new();
        core::mem::swap(self, &mut table);
        match table.slots {
            Slots::Gameplay(slots) => {
                if on {
                    self.slots = Slots::Renumbering(pack(slots));
                } else {
                    self.slots = Slots::Gameplay(slots);
                }
            },
            Slots::Renumbering(handles) => {
                if on {
                    self.slots = Slots::Renumbering(handles);
                } else {
                    self.slots = Slots::Gameplay(wrap(handles));
                }
            },
        }
    }

    /// Handles a press of the home button on a slot. During gameplay the
    /// first slot asks to leave the game and no other slot asks anything;
    /// while renumbering the controller goes to the back of the slot order,
    /// and those behind it move up.
    pub fn home(&mut self, slot: usize) -> (action: Home)
        ensures
            action == spec_home(old(self)@, old(self).renumbering(), slot as int),
            final(self)@ == spec_home_slots(old(self)@, old(self).renumbering(), slot as int),
            final(self).renumbering() == old(self).renumbering(),
    {
        match &mut self.slots {
            Slots::Gameplay(slots) => {
                if slot == 0 && slots.len() > 0 && slots[0].is_some() {
                    Home::Exit
                } else {
                    Home::Ignored
                }
            },
            Slots::Renumbering(handles) => {
                if slot < handles.len() {
                    let handle = handles.remove(slot);
                    handles.push(handle);
                    Home::MovedBack
                } else {
                    Home::Ignored
                }
            },
        }
    }

    /// The slots to which a rumble goes: the named one, if a controller sits
    /// in it, or all that hold a controller where none is named. A slot
    /// without a controller is passed over.
    pub fn rumble_targets(&self, slot: Option<usize>) -> (targets: Vec<usize>)
        ensures
            targets@ == spec_rumble_targets(self@, slot),
    {
        let mut targets: Vec<usize> = Vec::new();
        match slot {
            Some(i) => {
                if self.get(i).is_some() {
                    targets.push(i);
                }
            },
            None => {
                let n = self.len();
                let mut i: usize = 0;
                while i < n
                    invariant
                        i <= n == self@.len(),
                        targets@ == occupied(self@.subrange(0, i as int)),
                    decreases n - i,
                {
                    proof {
                        assert(self@.subrange(0, i + 1).drop_last() =~= self@.subrange(0, i as int));
                    }
                    if self.get(i).is_some() {
                        targets.push(i);
                    }
                    i += 1;
                }
                proof {
                    assert(self@.subrange(0, i as int) =~= self@);
                }
            },
        }
        targets
    }
}

/// Moves the controllers out of slots that may be holes, in their order.
fn pack<H>(slots: Vec<Option<H>>) -> (handles: Vec<H>)
    ensures
        all_present(handles@) == compact(slots@),
{
    let mut slots = slots;
    let ghost all = slots@;
    let mut handles: Vec<H> = Vec::new();
    let mut i: usize = 0;
    while i < slots.len()
        invariant
            i <= slots@.len() == all.len(),
            forall|j: int| i <= j < all.len() ==> slots@[j] == all[j],
            all_present(handles@) == compact(all.subrange(0, i as int)),
        decreases slots@.len() - i,
    {
        let item = slots[i].take();
        proof {
            assert(all.subrange(0, i + 1).drop_last() =~= all.subrange(0, i as int));
        }
        if let Some(handle) = item {
            handles.push(handle);
            assert(all_present(handles@) =~= compact(all.subrange(0, i as int)).push(Some(handle)));
        }
        i += 1;
    }
    proof {
        assert(all.subrange(0, i as int) =~= all);
    }
    handles
}

/// Puts each controller into a slot of its own, in their order.
fn wrap<H>(handles: Vec<H>) -> (slots: Vec<Option<H>>)
    ensures
        slots@ == all_present(handles@),
{
    let mut slots: Vec<Option<H>> = Vec::new();
    for handle in it: handles
        invariant
            slots@ == all_present(it.seq().take(it.index())),
    {
        slots.push(Some(handle));
    }
    slots
}

impl<H> Default for SlotTable<H> {
    /// A table without slots, for gameplay.
    fn default() -> (table: SlotTable<H>)
        ensures
            table@ == Seq::<Option<H>>::empty(),
            !table.renumbering(),
    {
        SlotTable::new()
    }
}

} // verus!
