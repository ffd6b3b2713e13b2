//! The spatial queue: coordinate-tagged tasks, removed nearest-first.

use crate::space::CoordSpace;
use vstd::prelude::*;

verus! {

/// A task waiting in a queue, with the coordinate it was inserted at.
pub struct Entry<C, T> {
    pub coord: C,
    pub task: T,
}

/// Whether position `i` holds the entry that a removal relative to `focus`
/// takes: no entry is nearer to `focus`, and every entry inserted before it is
/// strictly farther. Among entries at equal distance the earliest inserted
/// one is taken.
pub open spec fn is_nearest<S: CoordSpace, T>(
    space: S,
    entries: Seq<Entry<S::Coord, T>>,
    focus: S::Coord,
    i: int,
) -> bool {
    &&& 0 <= i < entries.len()
    &&& forall|j: int|
        0 <= j < i ==> space.dist(entries[i].coord, focus) < space.dist(
            (#[trigger] entries[j]).coord,
            focus,
        )
    &&& forall|j: int|
        i < j < entries.len() ==> space.dist(entries[i].coord, focus) <= space.dist(
            (#[trigger] entries[j]).coord,
            focus,
        )
}

/// The position of the entry that a removal relative to `focus` takes.
/// Meaningful for a non-empty sequence, where exactly one position qualifies.
pub open spec fn nearest_index<S: CoordSpace, T>(
    space: S,
    entries: Seq<Entry<S::Coord, T>>,
    focus: S::Coord,
) -> int {
    choose|i: int| is_nearest(space, entries, focus, i)
}

/// At most one position qualifies as nearest.
pub proof fn lemma_nearest_unique<S: CoordSpace, T>(
    space: S,
    entries: Seq<Entry<S::Coord, T>>,
    focus: S::Coord,
    i: int,
    j: int,
)
    requires
        is_nearest(space, entries, focus, i),
        is_nearest(space, entries, focus, j),
    ensures
        i == j,
{
    if i < j {
        assert(space.dist(entries[j].coord, focus) < space.dist(entries[i].coord, focus));
        assert(space.dist(entries[i].coord, focus) <= space.dist(entries[j].coord, focus));
    } else if j < i {
        assert(space.dist(entries[i].coord, focus) < space.dist(entries[j].coord, focus));
        assert(space.dist(entries[j].coord, focus) <= space.dist(entries[i].coord, focus));
    }
}

/// A position that qualifies as nearest is the one `nearest_index` names.
pub proof fn lemma_nearest_index_is<S: CoordSpace, T>(
    space: S,
    entries: Seq<Entry<S::Coord, T>>,
    focus: S::Coord,
    i: int,
)
    requires
        is_nearest(space, entries, focus, i),
    ensures
        nearest_index(space, entries, focus) == i,
{
    lemma_nearest_unique(space, entries, focus, i, nearest_index(space, entries, focus));
}

/// In a non-empty sequence some position qualifies as nearest, so
/// `nearest_index` names it.
pub proof fn lemma_nearest_exists<S: CoordSpace, T>(
    space: S,
    entries: Seq<Entry<S::Coord, T>>,
    focus: S::Coord,
)
    requires
        entries.len() > 0,
    ensures
        is_nearest(space, entries, focus, nearest_index(space, entries, focus)),
    decreases entries.len(),
{
    let last = entries.len() - 1;
    if last == 0 {
        assert(is_nearest(space, entries, focus, 0));
    } else {
        let front = entries.drop_last();
        lemma_nearest_exists(space, front, focus);
        let k = nearest_index(space, front, focus);
        assert(forall|j: int| 0 <= j < last ==> front[j] == entries[j]);
        if space.dist(entries[last].coord, focus) < space.dist(entries[k].coord, focus) {
            assert forall|j: int| 0 <= j < last implies space.dist(entries[last].coord, focus)
                < space.dist((#[trigger] entries[j]).coord, focus) by {
                assert(front[j] == entries[j]);
                if j < k {
                    assert(space.dist(front[k].coord, focus) < space.dist(front[j].coord, focus));
                } else if j > k {
                    assert(space.dist(front[k].coord, focus) <= space.dist(front[j].coord, focus));
                }
            }
            assert(is_nearest(space, entries, focus, last));
        } else {
            assert forall|j: int| k < j < entries.len() implies space.dist(entries[k].coord, focus)
                <= space.dist((#[trigger] entries[j]).coord, focus) by {
                if j < last {
                    assert(front[j] == entries[j]);
                }
            }
            assert forall|j: int| 0 <= j < k implies space.dist(entries[k].coord, focus)
                < space.dist((#[trigger] entries[j]).coord, focus) by {
                assert(front[j] == entries[j]);
            }
            assert(is_nearest(space, entries, focus, k));
        }
    }
}

/// When the distances to `focus` are pairwise distinct, the entry taken is
/// the one at minimal distance.
pub proof fn lemma_nearest_is_minimum<S: CoordSpace, T>(
    space: S,
    entries: Seq<Entry<S::Coord, T>>,
    focus: S::Coord,
    i: int,
)
    requires
        0 <= i < entries.len(),
        forall|j: int, k: int|
            0 <= j < k < entries.len() ==> space.dist((#[trigger] entries[j]).coord, focus)
                != space.dist((#[trigger] entries[k]).coord, focus),
        forall|j: int|
            0 <= j < entries.len() ==> space.dist(entries[i].coord, focus) <= space.dist(
                (#[trigger] entries[j]).coord,
                focus,
            ),
    ensures
        nearest_index(space, entries, focus) == i,
{
    assert forall|j: int| 0 <= j < i implies space.dist(entries[i].coord, focus) < space.dist(
        (#[trigger] entries[j]).coord,
        focus,
    ) by {
        assert(space.dist(entries[j].coord, focus) != space.dist(entries[i].coord, focus));
    }
    assert(is_nearest(space, entries, focus, i));
    lemma_nearest_index_is(space, entries, focus, i);
}

/// What a removal relative to `focus` yields and what it leaves: nothing and
/// the same entries if there are none, otherwise the task of the nearest
/// entry and the other entries in their order.
pub open spec fn take_nearest<S: CoordSpace, T>(
    space: S,
    entries: Seq<Entry<S::Coord, T>>,
    focus: S::Coord,
) -> (Option<T>, Seq<Entry<S::Coord, T>>) {
    if entries.len() == 0 {
        (None, entries)
    } else {
        let i = nearest_index(space, entries, focus);
        (Some(entries[i].task), entries.remove(i))
    }
}

/// Of two entries the one nearer to the focus is taken, whichever was
/// inserted first; at equal distance the first one is.
pub proof fn lemma_focus_decides<S: CoordSpace, T>(
    space: S,
    a: Entry<S::Coord, T>,
    b: Entry<S::Coord, T>,
    focus: S::Coord,
)
    ensures
        space.dist(a.coord, focus) <= space.dist(b.coord, focus) ==> take_nearest(
            space,
            seq![a, b],
            focus,
        ) == (Some(a.task), seq![b]),
        space.dist(b.coord, focus) < space.dist(a.coord, focus) ==> take_nearest(
            space,
            seq![a, b],
            focus,
        ) == (Some(b.task), seq![a]),
{
    let both = seq![a, b];
    if space.dist(a.coord, focus) <= space.dist(b.coord, focus) {
        assert(is_nearest(space, both, focus, 0));
        lemma_nearest_index_is(space, both, focus, 0);
        assert(both.remove(0) =~= seq![b]);
    } else {
        assert(is_nearest(space, both, focus, 1));
        lemma_nearest_index_is(space, both, focus, 1);
        assert(both.remove(1) =~= seq![a]);
    }
}

/// A queue of tasks in a coordinate space. Its view is the sequence of its
/// entries in insertion order.
pub struct SpatialQueue<T, S: CoordSpace> {
    space: S,
    entries: Vec<Entry<S::Coord, T>>,
}

impl<T, S: CoordSpace> View for SpatialQueue<T, S> {
    type V = Seq<Entry<S::Coord, T>>;

    closed spec fn view(&self) -> Seq<Entry<S::Coord, T>> {
        self.entries@
    }
}

impl<T, S: CoordSpace> SpatialQueue<T, S> {
    /// The space whose metric orders the removals.
    pub closed spec fn space(&self) -> S {
        self.space
    }

    /// An empty queue over `space`.
    pub fn new(space: S) -> (queue: Self)
        ensures
            queue@ == Seq::<Entry<S::Coord, T>>::empty(),
            queue.space() == space,
    {
        SpatialQueue { space, entries: Vec::new() }
    }

    /// Whether the queue holds no entry.
    pub fn is_empty(&self) -> (empty: bool)
        ensures
            empty == (self@.len() == 0),
    {
        self.entries.len() == 0
    }

    /// The number of entries held.
    pub fn len(&self) -> (n: usize)
        ensures
            n == self@.len(),
    {
        self.entries.len()
    }

    /// Adds `task` at `coord`, behind every entry already held.
    pub fn insert(&mut self, coord: S::Coord, task: T)
        ensures
            final(self)@ == old(self)@.push(Entry { coord, task }),
            final(self).space() == old(self).space(),
    {
        self.entries.push(Entry { coord, task });
    }

    /// Removes the entry nearest to `focus` and returns its task; the other
    /// entries keep their order. Returns `None` exactly when the queue is
    /// empty.
    pub fn remove_nearest(&mut self, focus: S::Coord) -> (out: Option<T>)
        ensures
            final(self).space() == old(self).space(),
            (out, final(self)@) == take_nearest(old(self).space(), old(self)@, focus),
            out is Some <==> old(self)@.len() > 0,
            final(self)@.len() == if out is Some {
                old(self)@.len() - 1
            } else {
                0
            },
            old(self)@.len() > 0 ==> is_nearest(
                old(self).space(),
                old(self)@,
                focus,
                nearest_index(old(self).space(), old(self)@, focus),
            ),
    {
        let n = self.entries.len();
        if n == 0 {
            return None;
        }
        let mut best: usize = 0;
        let mut best_dist: u128 = self.space.distance(&self.entries[0].coord, &focus);
        let mut i: usize = 1;
        while i < n
            invariant
                1 <= i <= n,
                n == self.entries@.len(),
                best < i,
                best_dist == self.space.dist(self.entries@[best as int].coord, focus),
                forall|j: int|
                    0 <= j < best ==> best_dist < self.space.dist(
                        (#[trigger] self.entries@[j]).coord,
                        focus,
                    ),
                forall|j: int|
                    best < j < i ==> best_dist <= self.space.dist(
                        (#[trigger] self.entries@[j]).coord,
                        focus,
                    ),
            decreases n - i,
        {
            let d: u128 = self.space.distance(&self.entries[i].coord, &focus);
            if d < best_dist {
                best = i;
                best_dist = d;
            }
            i = i + 1;
        }
        proof {
            assert(is_nearest(self.space, self.entries@, focus, best as int));
            lemma_nearest_index_is(self.space, self.entries@, focus, best as int);
        }
        let entry = self.entries.remove(best);
        Some(entry.task)
    }
}

} // verus!
