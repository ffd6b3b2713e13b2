//! The spatial channel: a queue behind a lock, a shared focus and a
//! readiness bit.

use crate::space::{CoordSpace, ZeroCoord};
use crate::state::ChannelState;
use crate::status::{after_request, BitAssigner, NotEnoughBits, StatusBit, STATUS_BITS};
use atomic::Atomic;
use std::sync::atomic::Ordering;
use std::sync::Arc;
use vstd::prelude::*;
use vstd::rwlock::{RwLock, RwLockPredicate};

verus! {

/// What the lock of a channel over `space` admits: a consistent state over
/// that space.
struct Guarded<S> {
    space: S,
}

impl<T, S: CoordSpace> RwLockPredicate<ChannelState<T, S>> for Guarded<S> {
    closed spec fn inv(self, state: ChannelState<T, S>) -> bool {
        state.consistent() && state.space() == self.space
    }
}

/// A priority channel in which each task is submitted at a coordinate of
/// some space. A shared, atomic _focus_ coordinate is stored, which several
/// channels may share and which any holder may move. A poll hands out the
/// task nearest to the focus as the poll observes it.
pub struct SpatialChannel<T, S: CoordSpace> {
    pub focus: Arc<Atomic<S::Coord>>,
    tree: RwLock<ChannelState<T, S>, Guarded<S>>,
    bit: StatusBit,
}

impl<T, S: CoordSpace> SpatialChannel<T, S> {
    /// The focus cell this channel follows.
    pub closed spec fn focus_cell(&self) -> Arc<Atomic<S::Coord>> {
        self.focus
    }

    /// The space whose metric orders the polls.
    pub closed spec fn space(&self) -> S {
        self.tree.pred().space
    }

    /// The readiness bit of this channel.
    pub closed spec fn bit(&self) -> StatusBit {
        self.bit
    }

    /// An empty channel over `space` that follows `focus`. Its readiness bit
    /// is not assigned yet.
    pub fn new(focus: Arc<Atomic<S::Coord>>, space: S) -> (channel: Self)
        ensures
            channel.focus_cell() == focus,
            channel.space() == space,
            channel.bit().index() is None,
    {
        let ghost pred = Guarded { space };
        SpatialChannel {
            focus,
            tree: RwLock::new(ChannelState::new(space), Ghost(pred)),
            bit: StatusBit::new(),
        }
    }

    /// Takes a slot of the pool's status word for this channel and publishes
    /// whether a task is pending. Fails, changing nothing, exactly when the
    /// word has no free slot.
    pub fn assign_bits(&mut self, assigner: &mut BitAssigner) -> (result: Result<
        (),
        NotEnoughBits,
    >)
        ensures
            final(self).focus_cell() == old(self).focus_cell(),
            final(self).space() == old(self).space(),
            final(assigner).word() == old(assigner).word(),
            final(assigner).assigned() == after_request(old(assigner).assigned()),
            old(assigner).assigned() < STATUS_BITS ==> {
                &&& result is Ok
                &&& final(self).bit().index() == Some(old(assigner).assigned() as u32)
                &&& final(self).bit().word() == Some(old(assigner).word())
            },
            old(assigner).assigned() >= STATUS_BITS ==> {
                &&& result == Err::<(), NotEnoughBits>(NotEnoughBits)
                &&& *final(self) == *old(self)
            },
    {
        match assigner.assign(&mut self.bit) {
            Err(e) => Err(e),
            Ok(()) => {
                let (state, handle) = self.tree.acquire_write();
                self.bit.set(state.is_ready());
                handle.release_write(state);
                Ok(())
            },
        }
    }

    /// Hands out the pending task nearest to the focus, or `None` if no task
    /// is pending, and publishes whether a task is left. The focus is read
    /// once, after the lock is taken.
    pub fn poll(&self) -> (task: Option<T>) {
        let (mut state, handle) = self.tree.acquire_write();
        let focus = self.focus.load(Ordering::Relaxed);
        let task = state.poll_at(focus);
        self.bit.set(state.is_ready());
        handle.release_write(state);
        task
    }

    /// Queues `task` at the coordinate `param` and publishes that a task is
    /// pending.
    pub fn submit(&self, task: T, param: S::Coord) {
        let (mut state, handle) = self.tree.acquire_write();
        state.submit(task, param);
        self.bit.set(state.is_ready());
        handle.release_write(state);
    }
}

impl<T, S: CoordSpace + Default> Default for SpatialChannel<T, S> where S::Coord: ZeroCoord {
    /// An empty channel over the default space with a focus of its own at
    /// the origin.
    fn default() -> (channel: Self)
        ensures
            call_ensures(S::default, (), channel.space()),
            channel.bit().index() is None,
    {
        Self::new(Arc::new(Atomic::new(S::Coord::zero_coord())), S::default())
    }
}

} // verus!
