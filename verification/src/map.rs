//! A store of at most one value for each of the four axes.

use vstd::prelude::*;
use crate::axis::Axis;

verus! {

/// A store with one slot for each [`Axis`].
///
/// Its view is the map from the axes whose slot is filled to the values in
/// those slots.  Whatever the order in which the slots were filled, a
/// traversal visits them in the order `BottomX`, `LeftY`, `RightY`, `TopX`.
#[derive(Clone, Debug)]
pub struct AxisMap<T> {
    bottom_x: Option<T>,
    left_y: Option<T>,
    right_y: Option<T>,
    top_x: Option<T>,
}

/// A traversal of an [`AxisMap`], made by [`AxisMap::iter`].
pub struct Items<'a, T> {
    map: &'a AxisMap<T>,
    state: Option<Axis>,
}

/// The pairs of axis and value that `map` holds on the axes from position
/// `rank` on, in the order of the positions.
pub open spec fn entries_from<T>(map: Map<Axis, T>, rank: int) -> Seq<(Axis, T)>
    decreases 4 - rank,
{
    if rank < 0 || rank >= 4 {
        Seq::empty()
    } else if map.dom().contains(Axis::of_rank(rank)) {
        seq![(Axis::of_rank(rank), map[Axis::of_rank(rank)])] + entries_from(map, rank + 1)
    } else {
        entries_from(map, rank + 1)
    }
}

/// The pairs of axis and value that `map` holds, in the order in which a
/// traversal yields them.
pub open spec fn entries<T>(map: Map<Axis, T>) -> Seq<(Axis, T)> {
    entries_from(map, 0)
}

impl<T> AxisMap<T> {
    spec fn slot(&self, key: Axis) -> Option<T> {
        match key {
            Axis::BottomX => self.bottom_x,
            Axis::LeftY => self.left_y,
            Axis::RightY => self.right_y,
            Axis::TopX => self.top_x,
        }
    }
}

impl<T> View for AxisMap<T> {
    type V = Map<Axis, T>;

    closed spec fn view(&self) -> Map<Axis, T> {
        Map::new(|key: Axis| self.slot(key) is Some, |key: Axis| self.slot(key)->0)
    }
}

impl<T> Default for AxisMap<T> {
    fn default() -> (map: AxisMap<T>)
        ensures
            map@ == Map::<Axis, T>::empty(),
    {
        AxisMap::new()
    }
}

impl<T> AxisMap<T> {
    /// An empty store.
    pub fn new() -> (map: AxisMap<T>)
        ensures
            map@ == Map::<Axis, T>::empty(),
    {
        let map = AxisMap { bottom_x: None, left_y: None, right_y: None, top_x: None };
        assert(map@ =~= Map::<Axis, T>::empty());
        map
    }

    /// Whether the slot of `key` is filled.
    pub fn contains_key(&self, key: Axis) -> (filled: bool)
        ensures
            filled == self@.dom().contains(key),
    {
        match key {
            Axis::BottomX => self.bottom_x.is_some(),
            Axis::LeftY => self.left_y.is_some(),
            Axis::RightY => self.right_y.is_some(),
            Axis::TopX => self.top_x.is_some(),
        }
    }

    /// The value in the slot of `key`, if it is filled.
    pub fn get(&self, key: Axis) -> (value: Option<&T>)
        ensures
            value is Some == self@.dom().contains(key),
            value matches Some(v) ==> *v == self@[key],
    {
        match key {
            Axis::BottomX => self.bottom_x.as_ref(),
            Axis::LeftY => self.left_y.as_ref(),
            Axis::RightY => self.right_y.as_ref(),
            Axis::TopX => self.top_x.as_ref(),
        }
    }

    /// The value in the slot of `key`, if it is filled, to be changed in
    /// place.  No other slot changes.
    pub fn get_mut(&mut self, key: Axis) -> (value: Option<&mut T>)
        ensures
            value is Some == old(self)@.dom().contains(key),
            value matches Some(v) ==> *v == old(self)@[key] && final(self)@ == old(self)@.insert(
                key,
                *final(v),
            ),
            value is None ==> final(self)@ == old(self)@,
    {
        match key {
            Axis::BottomX => self.bottom_x.as_mut(),
            Axis::LeftY => self.left_y.as_mut(),
            Axis::RightY => self.right_y.as_mut(),
            Axis::TopX => self.top_x.as_mut(),
        }
    }

    /// Fills the slot of `key` with `value`, and returns what the slot held.
    pub fn insert(&mut self, key: Axis, value: T) -> (previous: Option<T>)
        ensures
            final(self)@ == old(self)@.insert(key, value),
            previous is Some == old(self)@.dom().contains(key),
            previous matches Some(p) ==> p == old(self)@[key],
    {
        let previous = match key {
            Axis::BottomX => {
                let previous = self.bottom_x.take();
                self.bottom_x = Some(value);
                previous
            },
            Axis::LeftY => {
                let previous = self.left_y.take();
                self.left_y = Some(value);
                previous
            },
            Axis::RightY => {
                let previous = self.right_y.take();
                self.right_y = Some(value);
                previous
            },
            Axis::TopX => {
                let previous = self.top_x.take();
                self.top_x = Some(value);
                previous
            },
        };
        assert(self@ =~= old(self)@.insert(key, value));
        previous
    }

    /// Empties the slot of `key`, and returns what the slot held.
    pub fn take(&mut self, key: Axis) -> (previous: Option<T>)
        ensures
            final(self)@ == old(self)@.remove(key),
            previous is Some == old(self)@.dom().contains(key),
            previous matches Some(p) ==> p == old(self)@[key],
    {
        let previous = match key {
            Axis::BottomX => self.bottom_x.take(),
            Axis::LeftY => self.left_y.take(),
            Axis::RightY => self.right_y.take(),
            Axis::TopX => self.top_x.take(),
        };
        assert(self@ =~= old(self)@.remove(key));
        previous
    }

    /// A traversal of the filled slots that starts at `BottomX`.
    pub fn iter(&self) -> (items: Items<'_, T>)
        ensures
            items.store() == self@,
            items.position() == 0,
            items.remaining() == entries(self@),
    {
        Items { map: self, state: Some(Axis::BottomX) }
    }
}

impl<'a, T> Items<'a, T> {
    /// The contents of the store that is traversed.
    pub closed spec fn store(&self) -> Map<Axis, T> {
        self.map@
    }

    /// The position of the axis that is looked at next: 4 when none is left.
    pub closed spec fn position(&self) -> int {
        match self.state {
            Some(axis) => axis.rank(),
            None => 4,
        }
    }

    /// The pairs that are still to come.
    pub open spec fn remaining(&self) -> Seq<(Axis, T)> {
        entries_from(self.store(), self.position())
    }

    /// The next filled slot with its axis, or `None` when the traversal is
    /// over.  The pair returned is the first of those that were still to
    /// come; the others are still to come after the call.
    pub fn next(&mut self) -> (item: Option<(Axis, &'a T)>)
        ensures
            final(self).store() == old(self).store(),
            0 <= old(self).position() <= final(self).position() <= 4,
            match item {
                Some((axis, value)) => {
                    &&& old(self).position() <= axis.rank()
                    &&& final(self).position() == axis.rank() + 1
                    &&& old(self).store().dom().contains(axis)
                    &&& *value == old(self).store()[axis]
                    &&& old(self).remaining().len() > 0
                    &&& old(self).remaining()[0] == (axis, *value)
                    &&& final(self).remaining() == old(self).remaining().drop_first()
                },
                None => {
                    &&& final(self).position() == 4
                    &&& old(self).remaining().len() == 0
                },
            },
            forall|rank: int|
                old(self).position() <= rank < final(self).position() && !(item matches Some(
                    (axis, _),
                ) && axis.rank() == rank) ==> !old(self).store().dom().contains(
                    #[trigger] Axis::of_rank(rank),
                ),
    {
        let ghost start = self.position();
        let ghost all = self.remaining();
        loop
            invariant
                self.map == old(self).map,
                0 <= start <= self.position() <= 4,
                start == old(self).position(),
                all == old(self).remaining(),
                self.remaining() == all,
                forall|rank: int|
                    start <= rank < self.position() ==> !self.store().dom().contains(
                        #[trigger] Axis::of_rank(rank),
                    ),
            decreases 4 - self.position(),
        {
            match self.state {
                None => {
                    return None;
                },
                Some(key) => {
                    assert(Axis::of_rank(key.rank()) == key);
                    self.state = key.next();
                    match self.map.get(key) {
                        Some(value) => {
                            assert(all.drop_first() =~= self.remaining());
                            return Some((key, value));
                        },
                        None => {},
                    }
                },
            }
        }
    }
}

/// The axes of a traversal come in ascending order of position, so in the
/// order `BottomX`, `LeftY`, `RightY`, `TopX`, and none comes twice.
pub proof fn lemma_entries_ascend<T>(map: Map<Axis, T>)
    ensures
        forall|i: int, j: int|
            0 <= i < j < entries(map).len() ==> (#[trigger] entries(map)[i]).0.rank() < (
            #[trigger] entries(map)[j]).0.rank(),
{
    lemma_entries_from_ascend(map, 0);
}

proof fn lemma_entries_from_ascend<T>(map: Map<Axis, T>, rank: int)
    requires
        0 <= rank <= 4,
    ensures
        forall|i: int|
            0 <= i < entries_from(map, rank).len() ==> rank <= (#[trigger] entries_from(
                map,
                rank,
            )[i]).0.rank() < 4,
        forall|i: int, j: int|
            0 <= i < j < entries_from(map, rank).len() ==> (#[trigger] entries_from(
                map,
                rank,
            )[i]).0.rank() < (#[trigger] entries_from(map, rank)[j]).0.rank(),
    decreases 4 - rank,
{
    if rank < 4 {
        lemma_entries_from_ascend(map, rank + 1);
        let here = entries_from(map, rank);
        let rest = entries_from(map, rank + 1);
        if map.dom().contains(Axis::of_rank(rank)) {
            assert(here[0].0.rank() == rank);
            assert forall|i: int| 0 < i < here.len() implies here[i] == rest[i - 1] by {}
            assert forall|i: int| 0 <= i < here.len() implies rank <= (#[trigger] here[i]).0.rank()
                < 4 by {
                if i > 0 {
                    assert(here[i] == rest[i - 1]);
                }
            }
            assert forall|i: int, j: int| 0 <= i < j < here.len() implies (#[trigger] here[i]).0.rank()
                < (#[trigger] here[j]).0.rank() by {
                assert(here[j] == rest[j - 1]);
                if i > 0 {
                    assert(here[i] == rest[i - 1]);
                }
            }
        } else {
            assert(here == rest);
        }
    }
}

/// A traversal yields exactly the filled slots, each with its value: the
/// unfilled ones are skipped and nothing else is left out.
pub proof fn lemma_entries_are_the_filled_slots<T>(map: Map<Axis, T>)
    ensures
        forall|i: int|
            0 <= i < entries(map).len() ==> map.dom().contains((#[trigger] entries(map)[i]).0)
                && entries(map)[i].1 == map[entries(map)[i].0],
        forall|axis: Axis| #[trigger]
            map.dom().contains(axis) ==> entries(map).contains((axis, map[axis])),
{
    lemma_entries_from_sound(map, 0);
    assert forall|axis: Axis| #[trigger] map.dom().contains(axis) implies entries(map).contains(
        (axis, map[axis]),
    ) by {
        assert(Axis::of_rank(axis.rank()) == axis);
        lemma_entries_from_complete(map, 0, axis);
    }
}

proof fn lemma_entries_from_sound<T>(map: Map<Axis, T>, rank: int)
    requires
        0 <= rank <= 4,
    ensures
        forall|i: int|
            0 <= i < entries_from(map, rank).len() ==> map.dom().contains(
                (#[trigger] entries_from(map, rank)[i]).0,
            ) && entries_from(map, rank)[i].1 == map[entries_from(map, rank)[i].0],
    decreases 4 - rank,
{
    if rank < 4 {
        lemma_entries_from_sound(map, rank + 1);
        let here = entries_from(map, rank);
        let rest = entries_from(map, rank + 1);
        if map.dom().contains(Axis::of_rank(rank)) {
            assert forall|i: int| 0 <= i < here.len() implies map.dom().contains(
                (#[trigger] here[i]).0,
            ) && here[i].1 == map[here[i].0] by {
                if i > 0 {
                    assert(here[i] == rest[i - 1]);
                }
            }
        } else {
            assert(here == rest);
        }
    }
}

proof fn lemma_entries_from_complete<T>(map: Map<Axis, T>, rank: int, axis: Axis)
    requires
        0 <= rank <= axis.rank(),
        map.dom().contains(axis),
    ensures
        entries_from(map, rank).contains((axis, map[axis])),
    decreases 4 - rank,
{
    assert(Axis::of_rank(axis.rank()) == axis);
    if rank == axis.rank() {
        assert(entries_from(map, rank)[0] == (axis, map[axis]));
    } else {
        lemma_entries_from_complete(map, rank + 1, axis);
        let rest = entries_from(map, rank + 1);
        let i = choose|i: int| 0 <= i < rest.len() && rest[i] == (axis, map[axis]);
        if map.dom().contains(Axis::of_rank(rank)) {
            assert(entries_from(map, rank)[i + 1] == (axis, map[axis]));
        } else {
            assert(entries_from(map, rank)[i] == (axis, map[axis]));
        }
    }
}

/// The order in which two different slots are filled makes no difference to
/// the traversal.
pub proof fn lemma_entries_ignore_insertion_order<T>(
    map: Map<Axis, T>,
    first: Axis,
    a: T,
    second: Axis,
    b: T,
)
    requires
        first != second,
    ensures
        entries(map.insert(first, a).insert(second, b)) == entries(
            map.insert(second, b).insert(first, a),
        ),
{
    assert(map.insert(first, a).insert(second, b) =~= map.insert(second, b).insert(first, a));
}

} // verus!
