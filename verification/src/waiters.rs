//! The waits for the clock: which wait, with which wakers, and which wakers have been used.
use std::task::Waker;
use vstd::prelude::*;

use crate::outside::{wake, LoggedWaker, WakeLog, Wakes};

verus! {

/// Tells the wakers of other waits from those of the wait `wait`.
pub open spec fn of_others(wait: usize) -> spec_fn((usize, Waker)) -> bool {
    |entry: (usize, Waker)| entry.0 != wait
}

/// What is left of `wakers` without those of the wait `wait`.
pub open spec fn without(wakers: Seq<(usize, Waker)>, wait: usize) -> Seq<(usize, Waker)> {
    wakers.filter(of_others(wait))
}

/// The wakers of waits, in order. Each stands beside the id of its wait.
pub open spec fn wakers_in(waits: Seq<(usize, Waker)>) -> Seq<Waker> {
    Seq::new(waits.len(), |i: int| waits[i].1)
}

/// The waits and their wakers, without the logs that the wakers are tied to.
pub(crate) open spec fn plain(wakers: Seq<(usize, LoggedWaker)>) -> Seq<(usize, Waker)> {
    Seq::new(wakers.len(), |i: int| (wakers[i].0, wakers[i].1.waker()))
}

/// The wakers that wait for the clock, each beside the id of its wait, in the order in which they
/// came.
pub(crate) struct Waiters {
    wakers: Vec<(usize, LoggedWaker)>,
    log: WakeLog,
}

impl Waiters {
    /// Every waker's use goes into the log.
    #[verifier::type_invariant]
    spec fn type_inv(self) -> bool {
        forall|i: int|
            0 <= i < self.wakers@.len() ==> (#[trigger] self.wakers@[i]).1.log() == self.log.id()
    }

    /// The wakers that wait.
    pub(crate) closed spec fn wakers(self) -> Seq<(usize, Waker)> {
        plain(self.wakers@)
    }

    /// The wakers that have been used, in order.
    pub(crate) closed spec fn used(self) -> Seq<Waker> {
        self.log.used()
    }

    /// The wakers that have been dropped unused as soon as they came, in order.
    pub(crate) closed spec fn declined(self) -> Seq<Waker> {
        self.log.declined()
    }

    /// Nobody waits, and nothing has been used.
    pub(crate) fn new() -> (waiters: Self)
        ensures
            waiters.wakers() == Seq::<(usize, Waker)>::empty(),
            waiters.used() == Seq::<Waker>::empty(),
            waiters.declined() == Seq::<Waker>::empty(),
    {
        Waiters { wakers: Vec::new(), log: WakeLog::new() }
    }

    /// How many wakers wait.
    pub(crate) fn len(&self) -> (len: usize)
        ensures
            len == self.wakers().len(),
    {
        self.wakers.len()
    }

    /// Lets a waker wait.
    pub(crate) fn push<W: Wakes>(&mut self, wait: usize, waker: W)
        ensures
            final(self).wakers() == old(self).wakers().push((wait, waker.waker())),
            final(self).used() == old(self).used(),
            final(self).declined() == old(self).declined(),
    {
        proof {
            use_type_invariant(&*self);
        }
        let logged = waker.tie(&self.log);
        let mut wakers: Vec<(usize, LoggedWaker)> = Vec::new();
        core::mem::swap(&mut wakers, &mut self.wakers);
        wakers.push((wait, logged));
        assert(plain(wakers@) =~= old(self).wakers().push((wait, waker.waker())));
        self.wakers = wakers;
    }

    /// Drops a waker that need not wait, unused.
    pub(crate) fn decline<W: Wakes>(&mut self, waker: W)
        ensures
            final(self).wakers() == old(self).wakers(),
            final(self).used() == old(self).used(),
            final(self).declined() == old(self).declined().push(waker.waker()),
    {
        proof {
            use_type_invariant(&*self);
        }
        let mut wakers: Vec<(usize, LoggedWaker)> = Vec::new();
        core::mem::swap(&mut wakers, &mut self.wakers);
        let mut log = WakeLog::new();
        core::mem::swap(&mut log, &mut self.log);
        waker.decline(&mut log);
        core::mem::swap(&mut log, &mut self.log);
        core::mem::swap(&mut wakers, &mut self.wakers);
    }

    /// Takes out the wakers of a wait, unused.
    pub(crate) fn remove(&mut self, wait: usize)
        ensures
            final(self).wakers() == without(old(self).wakers(), wait),
            final(self).used() == old(self).used(),
            final(self).declined() == old(self).declined(),
    {
        proof {
            use_type_invariant(&*self);
        }
        let mut wakers: Vec<(usize, LoggedWaker)> = Vec::new();
        core::mem::swap(&mut wakers, &mut self.wakers);
        let ghost all = wakers@;
        let ghost id = self.log.id();
        let mut left: Vec<(usize, LoggedWaker)> = Vec::new();
        for entry in iter: wakers
            invariant
                iter.seq() == all,
                forall|i: int| 0 <= i < all.len() ==> (#[trigger] all[i]).1.log() == id,
                forall|i: int| 0 <= i < left@.len() ==> (#[trigger] left@[i]).1.log() == id,
                plain(left@) == without(plain(all).take(iter.index() as int), wait),
        {
            let ghost before = left@;
            proof {
                reveal(Seq::filter);
                let i = iter.index() as int;
                assert(plain(all).take(i + 1).drop_last() =~= plain(all).take(i));
                assert(plain(all).take(i + 1).last() == (entry.0, entry.1.waker()));
            }
            if entry.0 != wait {
                left.push(entry);
                assert(plain(left@) =~= plain(before).push((entry.0, entry.1.waker())));
            }
        }
        assert(plain(all).take(all.len() as int) =~= plain(all));
        self.wakers = left;
    }

    /// Uses every waker that waits, in order, and then none waits any more. Returns how many.
    pub(crate) fn wake_all(&mut self) -> (woken: usize)
        ensures
            woken == old(self).wakers().len(),
            final(self).wakers() == Seq::<(usize, Waker)>::empty(),
            final(self).used() == old(self).used() + wakers_in(old(self).wakers()),
            final(self).used().len() == old(self).used().len() + old(self).wakers().len(),
            forall|i: int|
                0 <= i < old(self).used().len() ==> #[trigger] final(self).used()[i] == old(
                    self,
                ).used()[i],
            forall|i: int|
                0 <= i < old(self).wakers().len() ==> final(self).used()[old(self).used().len() + i]
                    == (#[trigger] old(self).wakers()[i]).1,
            final(self).declined() == old(self).declined(),
    {
        proof {
            use_type_invariant(&*self);
        }
        let woken = self.wakers.len();
        let mut wakers: Vec<(usize, LoggedWaker)> = Vec::new();
        core::mem::swap(&mut wakers, &mut self.wakers);
        let mut log = WakeLog::new();
        core::mem::swap(&mut log, &mut self.log);
        let ghost all = wakers@;
        let ghost start = log;
        for entry in iter: wakers
            invariant
                iter.seq() == all,
                log.id() == start.id(),
                log.declined() == start.declined(),
                forall|i: int| 0 <= i < all.len() ==> (#[trigger] all[i]).1.log() == start.id(),
                log.used() == start.used() + wakers_in(plain(all)).take(iter.index() as int),
        {
            proof {
                let i = iter.index() as int;
                assert(wakers_in(plain(all)).take(i + 1) =~= wakers_in(plain(all)).take(i).push(
                    entry.1.waker(),
                ));
            }
            wake(entry.1, &mut log);
        }
        assert(wakers_in(plain(all)).take(all.len() as int) =~= wakers_in(plain(all)));
        self.log = log;
        assert(self.wakers() =~= Seq::<(usize, Waker)>::empty());
        woken
    }
}

/// What is told of those who wait is what is kept, one by one, and so is what is told of the
/// wakers that have been used or declined.
proof fn law_waiters_are_told_in_full(waiters: Waiters)
    ensures
        waiters.wakers().len() == waiters.wakers@.len(),
        forall|i: int|
            0 <= i < waiters.wakers@.len() ==> (#[trigger] waiters.wakers()[i]).0
                == waiters.wakers@[i].0 && waiters.wakers()[i].1 == waiters.wakers@[i].1.waker(),
        waiters.used() == waiters.log.used(),
        waiters.declined() == waiters.log.declined(),
{
}

/// What is left without a wait is what belongs to other waits.
pub(crate) proof fn lemma_without(wakers: Seq<(usize, Waker)>, wait: usize)
    ensures
        forall|entry: (usize, Waker)| #[trigger]
            without(wakers, wait).contains(entry) <==> wakers.contains(entry) && entry.0 != wait,
    decreases wakers.len(),
{
    reveal(Seq::filter);
    let left = without(wakers, wait);
    if wakers.len() > 0 {
        let front = wakers.drop_last();
        lemma_without(front, wait);
        let front_left = without(front, wait);
        assert forall|entry: (usize, Waker)| #[trigger] left.contains(entry) <==> wakers.contains(
            entry,
        ) && entry.0 != wait by {
            assert(wakers.contains(entry) <==> front.contains(entry) || entry == wakers.last()) by {
                if wakers.contains(entry) {
                    let i = choose|i: int| 0 <= i < wakers.len() && wakers[i] == entry;
                    if i < wakers.len() - 1 {
                        assert(front[i] == entry);
                    }
                }
                if front.contains(entry) {
                    let i = choose|i: int| 0 <= i < front.len() && front[i] == entry;
                    assert(wakers[i] == entry);
                }
                assert(wakers[wakers.len() - 1] == wakers.last());
            }
            if wakers.last().0 != wait {
                assert(left == front_left.push(wakers.last()));
                assert(left.contains(entry) <==> front_left.contains(entry) || entry
                    == wakers.last()) by {
                    if left.contains(entry) {
                        let i = choose|i: int| 0 <= i < left.len() && left[i] == entry;
                        if i < front_left.len() {
                            assert(front_left[i] == entry);
                        }
                    }
                    if front_left.contains(entry) {
                        let i = choose|i: int| 0 <= i < front_left.len() && front_left[i] == entry;
                        assert(left[i] == entry);
                    }
                    assert(left[front_left.len() as int] == wakers.last());
                }
            } else {
                assert(left == front_left);
            }
        }
    }
}

} // verus!
