use vstd::prelude::*;

verus! {

/// The last `n` elements of `s` (all of `s` when it is shorter).
pub open spec fn keep_last<T>(s: Seq<T>, n: nat) -> Seq<T> {
    if s.len() <= n {
        s
    } else {
        s.subrange(s.len() - n, s.len() as int)
    }
}

/// Fixed-capacity ring buffer of samples. Once full, each push overwrites the
/// oldest sample; its contents are read back oldest first.
pub struct RingFloat<T> {
    data: Vec<T>,
    cap: usize,
    pos: usize,
}

impl<T> View for RingFloat<T> {
    type V = Seq<T>;

    /// The stored samples, oldest first.
    closed spec fn view(&self) -> Seq<T> {
        self.data@.subrange(self.pos as int, self.data@.len() as int) + self.data@.subrange(
            0,
            self.pos as int,
        )
    }
}

impl<T: Copy> RingFloat<T> {
    /// The number of samples the ring holds when full.
    pub closed spec fn capacity(&self) -> nat {
        self.cap as nat
    }

    pub closed spec fn well_formed(&self) -> bool {
        &&& self.data@.len() <= self.cap
        &&& self.data@.len() < self.cap ==> self.pos == 0
        &&& (self.pos < self.cap || self.pos == 0)
    }

    pub fn new(cap: usize) -> (r: Self)
        ensures
            r.well_formed(),
            r.capacity() == cap,
            r@ == Seq::<T>::empty(),
    {
        let r = RingFloat { data: Vec::new(), cap, pos: 0 };
        assert(r@ =~= Seq::<T>::empty());
        r
    }

    /// Appends a sample, dropping the oldest one when the ring is full.
    pub fn push(&mut self, v: T)
        requires
            old(self).well_formed(),
            old(self).capacity() > 0,
        ensures
            final(self).well_formed(),
            final(self).capacity() == old(self).capacity(),
            final(self)@ == keep_last(old(self)@.push(v), old(self).capacity()),
            final(self)@.len() <= final(self).capacity(),
    {
        let ghost before = self@;
        if self.data.len() < self.cap {
            self.data.push(v);
            assert(self@ =~= before.push(v));
        } else {
            let ghost d = self.data@;
            let p = self.pos;
            self.data.set(p, v);
            if p + 1 >= self.cap {
                self.pos = 0;
            } else {
                self.pos = p + 1;
            }
            assert(before.len() == d.len());
            assert(self@ =~= before.push(v).subrange(1, before.len() + 1 as int)) by {
                assert forall|i: int| 0 <= i < d.len() implies self@[i] == before.push(v)[i
                    + 1] by {
                    if p + 1 < d.len() {
                        if i < d.len() - (p + 1) {
                            assert(self@[i] == d[p + 1 + i]);
                        } else {
                            assert(self@[i] == self.data@[i - (d.len() - (p + 1))]);
                        }
                    }
                }
            }
        }
    }

    pub fn len(&self) -> (n: usize)
        requires
            self.well_formed(),
        ensures
            n == self@.len(),
            n <= self.capacity(),
    {
        self.data.len()
    }

    /// The stored samples, oldest first.
    pub fn slice(&self) -> (out: Vec<T>)
        requires
            self.well_formed(),
        ensures
            out@ == self@,
    {
        let n = self.data.len();
        let mut out: Vec<T> = Vec::with_capacity(n);
        let mut i: usize = self.pos;
        while i < n
            invariant
                self.well_formed(),
                n == self.data@.len(),
                self.pos <= i <= n,
                out@ =~= self.data@.subrange(self.pos as int, i as int),
            decreases n - i,
        {
            out.push(self.data[i]);
            i = i + 1;
        }
        let mut j: usize = 0;
        while j < self.pos
            invariant
                self.well_formed(),
                n == self.data@.len(),
                j <= self.pos <= n,
                out@ =~= self.data@.subrange(self.pos as int, n as int) + self.data@.subrange(
                    0,
                    j as int,
                ),
            decreases self.pos - j,
        {
            out.push(self.data[j]);
            j = j + 1;
        }
        out
    }
}

/// Pushing into a ring that holds the last `cap` values of a stream leaves it
/// holding the last `cap` values of the extended stream: a ring filled by any
/// sequence of pushes holds exactly the most recent `cap` of them, oldest first.
pub proof fn ring_holds_latest<T>(stream: Seq<T>, v: T, cap: nat)
    requires
        cap > 0,
    ensures
        keep_last(keep_last(stream, cap).push(v), cap) == keep_last(stream.push(v), cap),
{
    let k = keep_last(stream, cap);
    if stream.len() < cap {
    } else if stream.len() == cap {
        assert(keep_last(k.push(v), cap) =~= keep_last(stream.push(v), cap));
    } else {
        assert(keep_last(k.push(v), cap) =~= keep_last(stream.push(v), cap));
    }
}


/// What a ring of capacity `cap` holds after `stream` is pushed into an empty
/// one, value by value, as `RingFloat::push` states each step.
pub open spec fn ring_after_pushes<T>(cap: nat, stream: Seq<T>) -> Seq<T>
    decreases stream.len(),
{
    if stream.len() == 0 {
        Seq::empty()
    } else {
        keep_last(ring_after_pushes(cap, stream.drop_last()).push(stream.last()), cap)
    }
}

/// A new ring of capacity `cap > 0` into which `stream` is pushed holds, and
/// its `slice` returns, the last `min(stream.len(), cap)` pushed values,
/// oldest first.
pub proof fn ring_holds_last_pushed<T>(cap: nat, stream: Seq<T>)
    requires
        cap > 0,
    ensures
        ring_after_pushes(cap, stream) == keep_last(stream, cap),
    decreases stream.len(),
{
    if stream.len() > 0 {
        let prefix = stream.drop_last();
        ring_holds_last_pushed(cap, prefix);
        ring_holds_latest(prefix, stream.last(), cap);
        assert(prefix.push(stream.last()) =~= stream);
    } else {
        assert(keep_last(stream, cap) =~= Seq::<T>::empty());
    }
}

} // verus!
