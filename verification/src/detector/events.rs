use vstd::prelude::*;

use super::ring::keep_last;

verus! {

/// A history of events that keeps only the most recent `capacity` of them.
pub struct EventLog<T> {
    items: Vec<T>,
    cap: usize,
}

impl<T> View for EventLog<T> {
    type V = Seq<T>;

    /// The kept events, oldest first.
    closed spec fn view(&self) -> Seq<T> {
        self.items@
    }
}

impl<T> EventLog<T> {
    pub closed spec fn capacity(&self) -> nat {
        self.cap as nat
    }

    pub closed spec fn well_formed(&self) -> bool {
        self.items@.len() <= self.cap
    }

    pub fn new(cap: usize) -> (log: Self)
        ensures
            log.well_formed(),
            log.capacity() == cap,
            log@ == Seq::<T>::empty(),
    {
        EventLog { items: Vec::new(), cap }
    }

    /// Records an event, forgetting the oldest one when the log is over its
    /// capacity.
    pub fn push(&mut self, e: T)
        requires
            old(self).well_formed(),
        ensures
            final(self).well_formed(),
            final(self).capacity() == old(self).capacity(),
            final(self)@ == keep_last(old(self)@.push(e), old(self).capacity()),
    {
        let ghost before = self.items@;
        self.items.push(e);
        if self.items.len() > self.cap {
            let _ = self.items.remove(0);
            assert(self.items@ =~= keep_last(before.push(e), self.cap as nat));
        }
    }

    /// Removes and returns the most recent event, if any.
    pub fn take_latest(&mut self) -> (latest: Option<T>)
        requires
            old(self).well_formed(),
        ensures
            final(self).well_formed(),
            final(self).capacity() == old(self).capacity(),
            old(self)@.len() == 0 ==> latest is None && final(self)@ == old(self)@,
            old(self)@.len() > 0 ==> latest == Some(old(self)@.last()) && final(self)@
                == old(self)@.drop_last(),
    {
        self.items.pop()
    }

    /// Removes and returns every kept event, oldest first.
    pub fn drain(&mut self) -> (all: Vec<T>)
        requires
            old(self).well_formed(),
        ensures
            final(self).well_formed(),
            final(self).capacity() == old(self).capacity(),
            all@ == old(self)@,
            final(self)@ == Seq::<T>::empty(),
    {
        let mut all: Vec<T> = Vec::new();
        std::mem::swap(&mut all, &mut self.items);
        all
    }

    pub fn len(&self) -> (n: usize)
        ensures
            n == self@.len(),
    {
        self.items.len()
    }

    /// The kept events, oldest first.
    pub fn items(&self) -> (v: &Vec<T>)
        ensures
            v@ == self@,
    {
        &self.items
    }
}

/// What a log of capacity `cap` gives back after `e` is recorded: asking for
/// the latest event returns `e` itself (when the log can hold anything), and
/// the log never holds more than `cap` events.
pub proof fn log_latest_is_last_recorded<T>(kept: Seq<T>, e: T, cap: nat)
    requires
        cap > 0,
    ensures
        keep_last(kept.push(e), cap).last() == e,
        keep_last(kept.push(e), cap).len() <= cap,
        keep_last(kept.push(e), cap).len() > 0,
{
}

} // verus!
