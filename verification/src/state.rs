//! The state a channel guards with its lock: the queue and the readiness
//! flag, with the operations that keep the two consistent.

use crate::queue::{
    is_nearest, lemma_nearest_exists, nearest_index, take_nearest, Entry, SpatialQueue,
};
use crate::space::CoordSpace;
use vstd::prelude::*;

verus! {

/// The entries left after one poll for each focus of `foci`, in order.
pub open spec fn drain<S: CoordSpace, T>(
    space: S,
    entries: Seq<Entry<S::Coord, T>>,
    foci: Seq<S::Coord>,
) -> Seq<Entry<S::Coord, T>>
    decreases foci.len(),
{
    if foci.len() == 0 {
        entries
    } else {
        take_nearest(space, drain(space, entries, foci.drop_last()), foci.last()).1
    }
}

/// What poll number `k` of a run of polls returns, where poll `k` looks from
/// `foci[k]`.
pub open spec fn poll_result<S: CoordSpace, T>(
    space: S,
    entries: Seq<Entry<S::Coord, T>>,
    foci: Seq<S::Coord>,
    k: int,
) -> Option<T> {
    take_nearest(space, drain(space, entries, foci.take(k)), foci[k]).0
}

/// A run of polls takes one entry per poll until none is left.
pub proof fn lemma_drain_len<S: CoordSpace, T>(
    space: S,
    entries: Seq<Entry<S::Coord, T>>,
    foci: Seq<S::Coord>,
)
    ensures
        drain(space, entries, foci).len() == if foci.len() <= entries.len() {
            entries.len() - foci.len()
        } else {
            0
        },
    decreases foci.len(),
{
    if foci.len() > 0 {
        lemma_drain_len(space, entries, foci.drop_last());
        let before = drain(space, entries, foci.drop_last());
        if before.len() > 0 {
            lemma_nearest_exists(space, before, foci.last());
        }
    }
}

/// Conservation: after `entries.len()` submits, whatever the focus is at each
/// poll, exactly the first `entries.len()` polls return a task and every
/// later one returns nothing.
pub proof fn lemma_conservation<S: CoordSpace, T>(
    space: S,
    entries: Seq<Entry<S::Coord, T>>,
    foci: Seq<S::Coord>,
)
    ensures
        forall|k: int|
            0 <= k < foci.len() ==> (#[trigger] poll_result(space, entries, foci, k) is Some <==> k
                < entries.len()),
        foci.len() >= entries.len() ==> drain(space, entries, foci).len() == 0,
{
    lemma_drain_len(space, entries, foci);
    assert forall|k: int| 0 <= k < foci.len() implies (#[trigger] poll_result(
        space,
        entries,
        foci,
        k,
    ) is Some <==> k < entries.len()) by {
        lemma_drain_len(space, entries, foci.take(k));
    }
}

/// A queue together with the readiness flag that a channel publishes. Every
/// operation leaves the flag set exactly when the queue holds an entry.
pub struct ChannelState<T, S: CoordSpace> {
    queue: SpatialQueue<T, S>,
    ready: bool,
}

impl<T, S: CoordSpace> ChannelState<T, S> {
    /// The pending entries, in submission order.
    pub closed spec fn entries(&self) -> Seq<Entry<S::Coord, T>> {
        self.queue@
    }

    /// The space whose metric orders the polls.
    pub closed spec fn space(&self) -> S {
        self.queue.space()
    }

    /// The readiness flag.
    pub closed spec fn ready(&self) -> bool {
        self.ready
    }

    /// Whether the readiness flag tells the truth: it is set exactly when an
    /// entry is pending.
    pub open spec fn consistent(&self) -> bool {
        self.ready() == (self.entries().len() > 0)
    }

    /// An idle state over `space`: no entry, not ready.
    pub fn new(space: S) -> (state: Self)
        ensures
            state.entries() == Seq::<Entry<S::Coord, T>>::empty(),
            state.space() == space,
            !state.ready(),
            state.consistent(),
    {
        ChannelState { queue: SpatialQueue::new(space), ready: false }
    }

    /// The readiness flag.
    pub fn is_ready(&self) -> (ready: bool)
        ensures
            ready == self.ready(),
    {
        self.ready
    }

    /// The number of pending entries.
    pub fn len(&self) -> (n: usize)
        ensures
            n == self.entries().len(),
    {
        self.queue.len()
    }

    /// Queues `task` at `coord` behind the entries already pending and raises
    /// the readiness flag.
    pub fn submit(&mut self, task: T, coord: S::Coord)
        ensures
            final(self).entries() == old(self).entries().push(Entry { coord, task }),
            final(self).space() == old(self).space(),
            final(self).ready(),
            final(self).consistent(),
    {
        self.queue.insert(coord, task);
        self.ready = true;
    }

    /// Takes the task nearest to `focus` out of the queue, if there is one,
    /// and sets the readiness flag to whether an entry is left.
    pub fn poll_at(&mut self, focus: S::Coord) -> (task: Option<T>)
        ensures
            (task, final(self).entries()) == take_nearest(
                old(self).space(),
                old(self).entries(),
                focus,
            ),
            task is Some <==> old(self).entries().len() > 0,
            old(self).entries().len() > 0 ==> is_nearest(
                old(self).space(),
                old(self).entries(),
                focus,
                nearest_index(old(self).space(), old(self).entries(), focus),
            ),
            final(self).entries().len() == if task is Some {
                old(self).entries().len() - 1
            } else {
                0
            },
            final(self).space() == old(self).space(),
            final(self).ready() == (final(self).entries().len() > 0),
            final(self).consistent(),
    {
        let task = self.queue.remove_nearest(focus);
        self.ready = !self.queue.is_empty();
        task
    }
}

} // verus!
