use vstd::prelude::*;

verus! {

/// A replay buffer of transitions, kept in the order they were recorded.
pub struct ReplayBuffer<T> {
    pub buffer: Vec<T>,
}

impl<T> ReplayBuffer<T> {
    /// An empty buffer.
    pub fn new() -> (b: Self)
        ensures
            b.buffer@ == Seq::<T>::empty(),
    {
        Self { buffer: Vec::new() }
    }

    /// Records one more transition after those already held.
    pub fn push(&mut self, t: T)
        ensures
            final(self).buffer@ == old(self).buffer@.push(t),
    {
        self.buffer.push(t);
    }
}

/// The contents of a buffer holding `s` after each of `ts` is pushed onto
/// it in turn, first to last.
pub open spec fn after_pushes<T>(s: Seq<T>, ts: Seq<T>) -> Seq<T>
    decreases ts.len(),
{
    if ts.len() == 0 {
        s
    } else {
        after_pushes(s, ts.drop_last()).push(ts.last())
    }
}

/// However many transitions are pushed, the buffer holds all of them after
/// what it held before, in push order: nothing is evicted, reordered or
/// merged. In particular a new buffer that is then given `t_1, ..., t_n`
/// holds exactly `[t_1, ..., t_n]`.
pub proof fn lemma_pushes_keep_order<T>(s: Seq<T>, ts: Seq<T>)
    ensures
        after_pushes(s, ts) == s + ts,
        after_pushes(Seq::<T>::empty(), ts) == ts,
    decreases ts.len(),
{
    if ts.len() > 0 {
        lemma_pushes_keep_order(s, ts.drop_last());
        lemma_pushes_keep_order(Seq::<T>::empty(), ts.drop_last());
        assert(s + ts =~= (s + ts.drop_last()).push(ts.last()));
        assert(Seq::<T>::empty() + ts =~= ts);
        assert(ts =~= ts.drop_last().push(ts.last()));
    } else {
        assert(s + ts =~= s);
    }
}

} // verus!
