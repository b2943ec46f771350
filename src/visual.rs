use std::collections::VecDeque;
use vstd::prelude::*;

verus! {

/// The last `w` elements of `s` (all of `s` when it is no longer than `w`).
pub open spec fn keep_last<T>(s: Seq<T>, w: nat) -> Seq<T> {
    if s.len() > w {
        s.subrange(s.len() - w, s.len() as int)
    } else {
        s
    }
}

/// The contents of a buffer of capacity `w` holding `s`, after `vs` were
/// pushed into it one at a time, in order.
pub open spec fn pushed_one_by_one<T>(s: Seq<T>, vs: Seq<T>, w: nat) -> Seq<T>
    decreases vs.len(),
{
    if vs.len() == 0 {
        s
    } else {
        keep_last(pushed_one_by_one(s, vs.drop_last(), w).push(vs.last()), w)
    }
}

/// A fixed-capacity buffer of the most recent values: once more than
/// `window_size` values have arrived, the oldest are evicted first.
pub struct Visual<T> {
    samples: VecDeque<T>,
    window_size: usize,
}

impl<T> View for Visual<T> {
    type V = Seq<T>;

    closed spec fn view(&self) -> Seq<T> {
        self.samples@
    }
}

impl<T> Visual<T> {
    #[verifier::type_invariant]
    spec fn bounded(&self) -> bool {
        self.samples@.len() <= self.window_size
    }

    /// The capacity the buffer was made with.
    pub closed spec fn capacity(&self) -> nat {
        self.window_size as nat
    }

    /// The buffer never holds more than its capacity: every value of the
    /// type satisfies this.
    pub open spec fn wf(&self) -> bool {
        self@.len() <= self.capacity()
    }

    pub fn new(window_size: usize) -> (r: Self)
        ensures
            r@ == Seq::<T>::empty(),
            r.capacity() == window_size,
            r.wf(),
    {
        Self { samples: VecDeque::<T>::new(), window_size }
    }

    /// Appends `value`, then evicts from the front until the capacity is met.
    pub fn push(&mut self, value: T)
        ensures
            final(self)@ == keep_last(old(self)@.push(value), old(self).capacity()),
            final(self).capacity() == old(self).capacity(),
            final(self).wf(),
    {
        let ghost full = old(self)@.push(value);
        let mut samples: VecDeque<T> = VecDeque::new();
        std::mem::swap(&mut samples, &mut self.samples);
        samples.push_back(value);
        let ghost mut k: int = 0;
        while samples.len() > self.window_size
            invariant
                self.window_size == old(self).window_size,
                0 <= k <= full.len(),
                samples@ == full.subrange(k, full.len() as int),
                k > 0 ==> full.len() - k >= self.window_size,
            decreases samples@.len(),
        {
            samples.pop_front();
            proof {
                k = k + 1;
            }
        }
        assert(samples@ =~= keep_last(full, self.window_size as nat));
        self.samples = samples;
    }

    /// The number of values held.
    pub fn len(&self) -> (r: usize)
        ensures
            r == self@.len(),
            r <= self.capacity(),
    {
        proof {
            use_type_invariant(self);
        }
        self.samples.len()
    }

    /// The capacity the buffer was made with.
    pub fn window_size(&self) -> (r: usize)
        ensures
            r == self.capacity(),
    {
        self.window_size
    }
}

impl<T: Copy> Visual<T> {
    /// Pushes every value of `values`, in order, as one update: a caller
    /// holding the buffer sees it either before the batch or after all of it.
    pub fn push_batch(&mut self, values: &Vec<T>)
        ensures
            final(self)@ == keep_last(old(self)@ + values@, old(self).capacity()),
            final(self).capacity() == old(self).capacity(),
            final(self).wf(),
    {
        proof {
            use_type_invariant(&*self);
        }
        let n = values.len();
        assert(old(self)@ + values@.subrange(0, 0) =~= old(self)@);
        let mut i: usize = 0;
        while i < n
            invariant
                n == values@.len(),
                i <= n,
                self.capacity() == old(self).capacity(),
                self@ == keep_last(old(self)@ + values@.subrange(0, i as int), self.capacity()),
            decreases n - i,
        {
            let v = values[i];
            let ghost before = old(self)@ + values@.subrange(0, i as int);
            self.push(v);
            proof {
                lemma_keep_last_push(before, v, self.capacity());
                assert(before.push(v) =~= old(self)@ + values@.subrange(0, i + 1));
            }
            i = i + 1;
        }
        assert(values@.subrange(0, n as int) =~= values@);
        proof {
            lemma_keep_last_len(old(self)@ + values@, self.capacity());
        }
    }

    /// A copy of the contents, oldest first.
    pub fn snapshot(&self) -> (r: Vec<T>)
        ensures
            r@ == self@,
    {
        let n = self.samples.len();
        let mut out: Vec<T> = Vec::new();
        let mut i: usize = 0;
        while i < n
            invariant
                n == self@.len(),
                i <= n,
                out@ == self@.subrange(0, i as int),
            decreases n - i,
        {
            out.push(self.samples[i]);
            i = i + 1;
            assert(out@ =~= self@.subrange(0, i as int));
        }
        assert(self@.subrange(0, n as int) =~= self@);
        out
    }
}

proof fn lemma_keep_last_len<T>(s: Seq<T>, w: nat)
    ensures
        s.len() <= w ==> keep_last(s, w) == s,
        keep_last(s, w).len() == if s.len() > w { w } else { s.len() },
{
}

/// Trimming before a push changes nothing that survives the trim after it.
proof fn lemma_keep_last_push<T>(s: Seq<T>, v: T, w: nat)
    ensures
        keep_last(keep_last(s, w).push(v), w) == keep_last(s.push(v), w),
{
    let a = keep_last(keep_last(s, w).push(v), w);
    let b = keep_last(s.push(v), w);
    assert(a.len() == b.len());
    assert forall|j: int| 0 <= j < a.len() implies a[j] == b[j] by {
        if s.len() > w {
        }
    }
    assert(a =~= b);
}

/// Pushing values one at a time into a buffer that respects its capacity
/// leaves the last `w` of everything it has seen, in arrival order.
pub proof fn lemma_pushes_keep_last<T>(s: Seq<T>, vs: Seq<T>, w: nat)
    requires
        s.len() <= w,
    ensures
        pushed_one_by_one(s, vs, w) == keep_last(s + vs, w),
    decreases vs.len(),
{
    if vs.len() == 0 {
        assert(s + vs =~= s);
    } else {
        lemma_pushes_keep_last(s, vs.drop_last(), w);
        lemma_keep_last_push(s + vs.drop_last(), vs.last(), w);
        assert((s + vs.drop_last()).push(vs.last()) =~= s + vs);
    }
}

/// However many values are pushed one at a time, the buffer never holds more
/// than its capacity; once more than the capacity has been pushed in total,
/// it holds exactly the capacity.
pub proof fn lemma_pushes_bounded<T>(s: Seq<T>, vs: Seq<T>, w: nat)
    requires
        s.len() <= w,
    ensures
        pushed_one_by_one(s, vs, w).len() <= w,
        s.len() + vs.len() > w ==> pushed_one_by_one(s, vs, w).len() == w,
{
    lemma_pushes_keep_last(s, vs, w);
    lemma_keep_last_len(s + vs, w);
}

/// After pushing more than `w` values one at a time into an empty buffer of
/// capacity `w`, it holds exactly the last `w` of them in their original order.
pub proof fn lemma_fifo_order<T>(vs: Seq<T>, w: nat)
    requires
        vs.len() > w,
    ensures
        pushed_one_by_one(Seq::empty(), vs, w) == vs.subrange(vs.len() - w, vs.len() as int),
{
    lemma_pushes_keep_last(Seq::empty(), vs, w);
    assert(Seq::<T>::empty() + vs =~= vs);
}

/// A batch at least as long as the capacity replaces the whole content: what
/// the buffer holds afterwards comes from that batch alone, never from an
/// earlier one.
pub proof fn lemma_batch_replaces<T>(s: Seq<T>, vs: Seq<T>, w: nat)
    requires
        s.len() <= w,
        vs.len() >= w,
    ensures
        keep_last(s + vs, w) == vs.subrange(vs.len() - w, vs.len() as int),
        keep_last(s + vs, w).len() == w,
{
    let r = keep_last(s + vs, w);
    if s.len() + vs.len() > w {
        assert(r =~= vs.subrange(vs.len() - w, vs.len() as int));
    } else {
        assert(s.len() == 0);
        assert(r =~= vs.subrange(vs.len() - w, vs.len() as int));
    }
}

} // verus!
