use vstd::prelude::*;

verus! {

/// What resuming a generator gives: it yielded, or it completed with a value.
pub enum GeneratorState<Y, R> {
    Yielded(Y),
    Complete(R),
}

/// Whether a future is done.
pub enum Poll<T> {
    Ready(T),
    Pending,
}

/// A future driven by a generator that yields `()` whenever it cannot go on.
pub struct GeneratorFuture<G> {
    pub generator: G,
}

/// Wraps a generator into a future.
pub fn from_generator<G>(generator: G) -> (f: GeneratorFuture<G>)
    ensures
        f.generator == generator,
{
    GeneratorFuture { generator }
}

impl<G> GeneratorFuture<G> {
    /// Polling the future resumes the generator once: a yield leaves the
    /// future pending, completion makes it ready with the generator's value.
    pub fn poll_result<R>(state: GeneratorState<(), R>) -> (p: Poll<R>)
        ensures
            match state {
                GeneratorState::Yielded(_) => p is Pending,
                GeneratorState::Complete(v) => p == Poll::Ready(v),
            },
    {
        match state {
            GeneratorState::Yielded(()) => Poll::Pending,
            GeneratorState::Complete(out) => Poll::Ready(out),
        }
    }
}

/// What blocking on a future does after one poll.
pub enum BlockOn<T> {
    /// Yield to the kernel, then poll again.
    Yield,
    /// Return the future's value.
    Return(T),
}

/// Blocking on a future polls it until it is ready, yielding to the kernel
/// each time it is pending.
pub fn block_on_step<T>(p: Poll<T>) -> (b: BlockOn<T>)
    ensures
        match p {
            Poll::Pending => b is Yield,
            Poll::Ready(v) => b == BlockOn::Return(v),
        },
{
    match p {
        Poll::Pending => BlockOn::Yield,
        Poll::Ready(value) => BlockOn::Return(value),
    }
}

/// The actions that blocking on a future takes on the successive results of
/// polling it: a yield after each pending poll, and a return at the first
/// ready one, after which it polls no more.
pub open spec fn block_on_actions<T>(polls: Seq<Poll<T>>) -> Seq<BlockOn<T>>
    decreases polls.len(),
{
    if polls.len() == 0 {
        seq![]
    } else {
        match polls[0] {
            Poll::Ready(v) => seq![BlockOn::Return(v)],
            Poll::Pending => seq![BlockOn::Yield].add(block_on_actions(polls.drop_first())),
        }
    }
}

/// Blocking on a future that is pending for its first `k` polls and ready
/// with `v` at the next one yields to the kernel exactly `k` times, once
/// after each pending poll, then returns `v`; polls after that one are never
/// made. Each action is the one `block_on_step` gives for its poll.
pub proof fn lemma_block_on_run<T>(polls: Seq<Poll<T>>, k: nat, v: T)
    requires
        k < polls.len(),
        forall|i: int| 0 <= i < k ==> #[trigger] polls[i] is Pending,
        polls[k as int] == Poll::Ready(v),
    ensures
        block_on_actions(polls) == Seq::new(k, |i: int| BlockOn::<T>::Yield).push(BlockOn::Return(v)),
        forall|i: int|
            0 <= i <= k ==> #[trigger] block_on_actions(polls)[i] == (match polls[i] {
                Poll::Pending => BlockOn::<T>::Yield,
                Poll::Ready(x) => BlockOn::Return(x),
            }),
    decreases k,
{
    if k == 0 {
        assert(block_on_actions(polls) =~= Seq::new(0, |i: int| BlockOn::<T>::Yield).push(BlockOn::Return(v)));
    } else {
        let rest = polls.drop_first();
        assert forall|i: int| 0 <= i < k - 1 implies #[trigger] rest[i] is Pending by {
            assert(polls[i + 1] is Pending);
        }
        lemma_block_on_run(rest, (k - 1) as nat, v);
        assert(polls[0] is Pending);
        assert(block_on_actions(polls) =~= Seq::new(k, |i: int| BlockOn::<T>::Yield).push(BlockOn::Return(v)));
    }
}

} // verus!
