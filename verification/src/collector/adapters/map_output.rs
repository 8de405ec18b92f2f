//! `map_output()`: maps the final output of a parallel collector.
use vstd::prelude::*;
use std::ops::ControlFlow;

use crate::collector::plumbing::Consumer;
use crate::collector::{
    commits, commits_unindexed, hands_out, hands_out_unindexed, par_finishes, par_hints, ParallelCollectorBase,
    UnindexedParallelCollectorBase,
};

verus! {

/// A function that accepts any value of type `O`.
#[verifier::reject_recursive_types(O)]
#[verifier::reject_recursive_types(R)]
pub struct TotalFn<O, F: FnOnce(O) -> R, R> {
    f: F,
    _input: std::marker::PhantomData<O>,
    _output: std::marker::PhantomData<R>,
}

impl<O, F: FnOnce(O) -> R, R> TotalFn<O, F, R> {
    /// The function can be called on any value.
    #[verifier::type_invariant]
    spec fn accepts_any_input(self) -> bool {
        forall|input: O| #[trigger] self.f.requires((input,))
    }

    /// The function.
    pub closed spec fn f(&self) -> F {
        self.f
    }

    /// Wraps `f`, which accepts any value.
    pub fn new(f: F) -> (total: Self)
        requires
            forall|input: O| #[trigger] f.requires((input,)),
        ensures
            total.f() == f,
    {
        TotalFn { f, _input: std::marker::PhantomData, _output: std::marker::PhantomData }
    }

    /// Calls the function on `input`.
    pub fn call(self, input: O) -> (output: R)
        ensures
            self.f().ensures((input,), output),
    {
        proof { use_type_invariant(&self); }
        (self.f)(input)
    }
}

/// A parallel collector whose final output is mapped by a function that
/// accepts any output of the underlying collector.
#[verifier::reject_recursive_types(R)]
pub struct MapOutput<C: ParallelCollectorBase, F: FnOnce(C::Output) -> R, R> {
    collector: C,
    f: TotalFn<C::Output, F, R>,
}

impl<C: ParallelCollectorBase, F: FnOnce(C::Output) -> R, R> MapOutput<C, F, R> {
    /// The underlying collector.
    pub closed spec fn inner(&self) -> C {
        self.collector
    }

    /// The function mapping the final output.
    pub closed spec fn f(&self) -> F {
        self.f.f()
    }

    /// Maps the final output of `collector` with `f`.
    pub fn new(collector: C, f: F) -> (map_output: Self)
        requires
            forall|output: C::Output| #[trigger] f.requires((output,)),
        ensures
            map_output.inner() == collector,
            map_output.f() == f,
    {
        MapOutput { collector, f: TotalFn::new(f) }
    }
}

impl<C: ParallelCollectorBase, F: FnOnce(C::Output) -> R, R> ParallelCollectorBase for MapOutput<C, F, R> {
    type Output = R;

    type IndexedConsumer = C::IndexedConsumer;

    open spec fn parts_spec(before: Self, len: usize, after: Self, parts: (usize, C::IndexedConsumer)) -> bool {
        C::parts_spec(before.inner(), len, after.inner(), parts) && after.f() == before.f()
    }

    open spec fn commit_spec(before: Self, output: <C::IndexedConsumer as Consumer>::Output, after: Self, cf: ControlFlow<()>) -> bool {
        C::commit_spec(before.inner(), output, after.inner(), cf) && after.f() == before.f()
    }

    /// What the function returns on the underlying collector's final output.
    fn finish(self) -> (mapped: R)
        ensures
            exists|output: C::Output| #[trigger] self.f().ensures((output,), mapped) && par_finishes(self.inner(), output),
    {
        let output = self.collector.finish();
        let mapped = self.f.call(output);
        assert(self.f().ensures((output,), mapped));
        mapped
    }

    /// The underlying collector's hint.
    fn break_hint(&self) -> (cf: ControlFlow<()>)
        ensures
            par_hints(self.inner(), cf),
    {
        self.collector.break_hint()
    }

    /// The underlying collector's parts.
    fn parts(&mut self, len: usize) -> (parts: (usize, C::IndexedConsumer))
        ensures
            final(self).f() == old(self).f(),
            exists|m: &mut C| *m == old(self).inner() && *final(m) == final(self).inner() && hands_out(m, len, parts),
    {
        self.collector.parts(len)
    }

    /// Commits to the underlying collector, and says what it says.
    fn commit(&mut self, output: <C::IndexedConsumer as Consumer>::Output) -> (cf: ControlFlow<()>)
        ensures
            final(self).f() == old(self).f(),
            exists|m: &mut C| *m == old(self).inner() && *final(m) == final(self).inner() && commits(m, output, cf),
    {
        self.collector.commit(output)
    }
}

impl<C: UnindexedParallelCollectorBase, F: FnOnce(C::Output) -> R, R> UnindexedParallelCollectorBase for MapOutput<C, F, R> {
    type UnindexedParts = C::UnindexedParts;

    open spec fn parts_unindexed_spec(before: Self, after: Self, consumer: C::UnindexedParts) -> bool {
        C::parts_unindexed_spec(before.inner(), after.inner(), consumer) && after.f() == before.f()
    }

    open spec fn commit_unindexed_spec(before: Self, output: <C::UnindexedParts as Consumer>::Output, after: Self, cf: ControlFlow<()>) -> bool {
        C::commit_unindexed_spec(before.inner(), output, after.inner(), cf) && after.f() == before.f()
    }

    /// The underlying collector's unindexed consumer.
    fn parts_unindexed(&mut self) -> (consumer: C::UnindexedParts)
        ensures
            final(self).f() == old(self).f(),
            exists|m: &mut C| *m == old(self).inner() && *final(m) == final(self).inner() && hands_out_unindexed(m, consumer),
    {
        self.collector.parts_unindexed()
    }

    /// Commits to the underlying collector, and says what it says.
    fn commit_unindexed(&mut self, output: <C::UnindexedParts as Consumer>::Output) -> (cf: ControlFlow<()>)
        ensures
            final(self).f() == old(self).f(),
            exists|m: &mut C| *m == old(self).inner() && *final(m) == final(self).inner() && commits_unindexed(m, output, cf),
    {
        self.collector.commit_unindexed(output)
    }
}

} // verus!
