//! Custom parallel collectors, built from a state and parallel collectors
//! that closures make out of it, one per cycle.
use vstd::prelude::*;
use std::ops::ControlFlow;

use super::plumbing::Consumer;
use super::{
    commits, commits_unindexed, hands_out, hands_out_unindexed, par_finishes, IntoParallelCollectorBase, ParallelCollectorBase, UnindexedParallelCollectorBase,
};

verus! {

/// A hint function that can be asked of any state of type `S`.
#[verifier::reject_recursive_types(S)]
pub struct HintFn<S, BH: Fn(&S) -> ControlFlow<()>> {
    f: BH,
    _state: std::marker::PhantomData<S>,
}

impl<S, BH: Fn(&S) -> ControlFlow<()>> HintFn<S, BH> {
    /// The function can be asked of any state.
    #[verifier::type_invariant]
    spec fn accepts_any_state(self) -> bool {
        forall|state: &S| #[trigger] self.f.requires((state,))
    }

    /// The function.
    pub closed spec fn f(&self) -> BH {
        self.f
    }

    /// Wraps `f`, which can be asked of any state.
    pub fn new(f: BH) -> (hint_fn: Self)
        requires
            forall|state: &S| #[trigger] f.requires((state,)),
        ensures
            hint_fn.f() == f,
    {
        HintFn { f, _state: std::marker::PhantomData }
    }

    /// Asks the function of `state`.
    pub fn hint(&self, state: &S) -> (cf: ControlFlow<()>)
        ensures
            self.f().ensures((state,), cf),
    {
        proof { use_type_invariant(self); }
        (self.f)(state)
    }
}

/// The two functions of one path of a custom parallel collector: one makes a
/// parallel collector out of the state, the other commits that collector's
/// final output back to the state. Both can be called on any state (and any
/// output).
#[verifier::reject_recursive_types(S)]
#[verifier::reject_recursive_types(J)]
pub struct PathFns<S, J: IntoParallelCollectorBase, MF: Fn(&mut S) -> J, CF: Fn(&mut S, J::Output)> {
    make: MF,
    commit: CF,
    _state: std::marker::PhantomData<S>,
    _made: std::marker::PhantomData<J>,
}

impl<S, J: IntoParallelCollectorBase, MF: Fn(&mut S) -> J, CF: Fn(&mut S, J::Output)> PathFns<S, J, MF, CF> {
    /// Both functions can be called on any state and output.
    #[verifier::type_invariant]
    spec fn accept_any_input(self) -> bool {
        &&& forall|state: &mut S| #[trigger] self.make.requires((state,))
        &&& forall|state: &mut S, output: J::Output| #[trigger] self.commit.requires((state, output))
    }

    /// The function making a parallel collector.
    pub closed spec fn make(&self) -> MF {
        self.make
    }

    /// The function committing a final output.
    pub closed spec fn commit(&self) -> CF {
        self.commit
    }

    /// Wraps `make` and `commit`, which can be called on any state and
    /// output.
    pub fn new(make: MF, commit: CF) -> (fns: Self)
        requires
            forall|state: &mut S| #[trigger] make.requires((state,)),
            forall|state: &mut S, output: J::Output| #[trigger] commit.requires((state, output)),
        ensures
            fns.make() == make,
            fns.commit() == commit,
    {
        PathFns { make, commit, _state: std::marker::PhantomData, _made: std::marker::PhantomData }
    }

    /// Makes a parallel collector out of `state`.
    pub fn make_collector(&self, state: &mut S) -> (collector: J::IntoParCollector)
        ensures
            exists|m: &mut S, made: J| #![trigger self.make().ensures((m,), made)]
                *m == *old(state) && *final(m) == *final(state) && self.make().ensures((m,), made)
                && J::into_par_collector.ensures((made,), collector),
    {
        proof { use_type_invariant(self); }
        assert(self.make() == self.make);
        let made = (self.make)(state);
        made.into_par_collector()
    }

    /// Commits `output` back to `state`.
    pub fn commit_output(&self, state: &mut S, output: J::Output)
        ensures
            exists|m: &mut S| *m == *old(state) && *final(m) == *final(state) && #[trigger] self.commit().ensures((m, output), ()),
    {
        proof { use_type_invariant(self); }
        assert(self.commit() == self.commit);
        (self.commit)(state, output)
    }
}

/// A custom parallel collector built from an existing one: each cycle makes
/// a new parallel collector out of the state, and the previous one's final
/// output is committed back to the state before that (and on finishing).
/// Its output is the state.
#[verifier::reject_recursive_types(S)]
#[verifier::reject_recursive_types(J)]
pub struct Custom<S, BH: Fn(&S) -> ControlFlow<()>, J: IntoParallelCollectorBase, IF: Fn(&mut S) -> J, IC: Fn(&mut S, J::Output)> {
    state: S,
    break_hint: HintFn<S, BH>,
    indexed: Option<J::IntoParCollector>,
    indexed_fns: PathFns<S, J, IF, IC>,
}

/// A custom parallel collector whose indexed and unindexed paths are made of
/// two different parallel collectors. At most one of them is in use at any
/// time.
#[verifier::reject_recursive_types(S)]
#[verifier::reject_recursive_types(J)]
#[verifier::reject_recursive_types(K)]
pub struct CustomAlsoUnindexed<
    S,
    BH: Fn(&S) -> ControlFlow<()>,
    J: IntoParallelCollectorBase,
    IF: Fn(&mut S) -> J,
    IC: Fn(&mut S, J::Output),
    K: IntoParallelCollectorBase,
    UF: Fn(&mut S) -> K,
    UC: Fn(&mut S, K::Output),
> {
    state: S,
    break_hint: HintFn<S, BH>,
    indexed: Option<J::IntoParCollector>,
    indexed_fns: PathFns<S, J, IF, IC>,
    unindexed: Option<K::IntoParCollector>,
    unindexed_fns: PathFns<S, K, UF, UC>,
}

impl<S, BH: Fn(&S) -> ControlFlow<()>, J: IntoParallelCollectorBase, IF: Fn(&mut S) -> J, IC: Fn(&mut S, J::Output)> Custom<S, BH, J, IF, IC> {
    /// The state.
    pub closed spec fn state(&self) -> S {
        self.state
    }

    /// The hint function.
    pub closed spec fn hint_fn(&self) -> BH {
        self.break_hint.f()
    }

    /// Whether a parallel collector made in the last cycle is still in use.
    pub closed spec fn in_use(&self) -> bool {
        self.indexed is Some
    }

    /// The parallel collector made in the last cycle, while in use.
    pub closed spec fn indexed(&self) -> Option<J::IntoParCollector> {
        self.indexed
    }

    /// The function committing a final output back to the state.
    pub closed spec fn indexed_commit(&self) -> IC {
        self.indexed_fns.commit()
    }

    /// The function making a parallel collector out of the state.
    pub closed spec fn indexed_make(&self) -> IF {
        self.indexed_fns.make()
    }

    /// A custom parallel collector: `indexed_f` makes a parallel collector
    /// out of the state for each cycle, `indexed_commit` commits its final
    /// output back, and `break_hint` says from the state whether it stops.
    pub fn new(state: S, break_hint: BH, indexed_f: IF, indexed_commit: IC) -> (custom: Self)
        requires
            forall|state: &S| #[trigger] break_hint.requires((state,)),
            forall|state: &mut S| #[trigger] indexed_f.requires((state,)),
            forall|state: &mut S, output: J::Output| #[trigger] indexed_commit.requires((state, output)),
        ensures
            custom.state() == state,
            custom.hint_fn() == break_hint,
            !custom.in_use(),
    {
        Custom {
            state,
            break_hint: HintFn::new(break_hint),
            indexed: None,
            indexed_fns: PathFns::new(indexed_f, indexed_commit),
        }
    }

    /// Overrides the unindexed path: `unindexed_f` makes the parallel
    /// collector of each unindexed cycle, `unindexed_commit` commits its
    /// final output back. A collector still in use is kept.
    pub fn also_unindexed<K: IntoParallelCollectorBase, UF: Fn(&mut S) -> K, UC: Fn(&mut S, K::Output)>(
        self,
        unindexed_f: UF,
        unindexed_commit: UC,
    ) -> (custom: CustomAlsoUnindexed<S, BH, J, IF, IC, K, UF, UC>)
        requires
            forall|state: &mut S| #[trigger] unindexed_f.requires((state,)),
            forall|state: &mut S, output: K::Output| #[trigger] unindexed_commit.requires((state, output)),
        ensures
            custom.state() == self.state(),
            custom.hint_fn() == self.hint_fn(),
            custom.indexed_in_use() == self.in_use(),
            !custom.unindexed_in_use(),
            custom.uses_one_slot(),
    {
        CustomAlsoUnindexed {
            state: self.state,
            break_hint: self.break_hint,
            indexed: self.indexed,
            indexed_fns: self.indexed_fns,
            unindexed: None,
            unindexed_fns: PathFns::new(unindexed_f, unindexed_commit),
        }
    }

    /// Commits the final output of the collector still in use, if any, back
    /// to the state.
    fn clean_up(&mut self)
        ensures
            !final(self).in_use(),
            !old(self).in_use() ==> final(self).state() == old(self).state(),
            old(self).in_use() ==> exists|out: J::Output, m: &mut S| #![trigger par_finishes(old(self).indexed().unwrap(), out), old(self).indexed_commit().ensures((m, out), ())]
                par_finishes(old(self).indexed().unwrap(), out) && *m == old(self).state() && *final(m) == final(self).state()
                && old(self).indexed_commit().ensures((m, out), ()),
            final(self).hint_fn() == old(self).hint_fn(),
            final(self).indexed_commit() == old(self).indexed_commit(),
            final(self).indexed_make() == old(self).indexed_make(),
    {
        if let Some(indexed) = self.indexed.take() {
            let out = indexed.finish();
            assert(par_finishes(indexed, out));
            assert(old(self).indexed_commit() == self.indexed_fns.commit());
            self.indexed_fns.commit_output(&mut self.state, out);
            assert(par_finishes(old(self).indexed().unwrap(), out));
        }
    }
}

impl<
    S,
    BH: Fn(&S) -> ControlFlow<()>,
    J: IntoParallelCollectorBase,
    IF: Fn(&mut S) -> J,
    IC: Fn(&mut S, J::Output),
    K: IntoParallelCollectorBase,
    UF: Fn(&mut S) -> K,
    UC: Fn(&mut S, K::Output),
> CustomAlsoUnindexed<S, BH, J, IF, IC, K, UF, UC> {
    /// The state.
    pub closed spec fn state(&self) -> S {
        self.state
    }

    /// The hint function.
    pub closed spec fn hint_fn(&self) -> BH {
        self.break_hint.f()
    }

    /// Whether an indexed collector made in the last cycle is still in use.
    pub closed spec fn indexed_in_use(&self) -> bool {
        self.indexed is Some
    }

    /// Whether an unindexed collector made in the last cycle is still in use.
    pub closed spec fn unindexed_in_use(&self) -> bool {
        self.unindexed is Some
    }

    /// At most one of the two paths has a collector in use. Every way of
    /// making or changing this collector keeps it so.
    pub open spec fn uses_one_slot(&self) -> bool {
        !(self.indexed_in_use() && self.unindexed_in_use())
    }

    /// The indexed collector made in the last cycle, while in use.
    pub closed spec fn indexed(&self) -> Option<J::IntoParCollector> {
        self.indexed
    }

    /// The unindexed collector made in the last cycle, while in use.
    pub closed spec fn unindexed(&self) -> Option<K::IntoParCollector> {
        self.unindexed
    }

    /// The function committing an indexed collector's final output back to
    /// the state.
    pub closed spec fn indexed_commit(&self) -> IC {
        self.indexed_fns.commit()
    }

    /// The function committing an unindexed collector's final output back to
    /// the state.
    pub closed spec fn unindexed_commit(&self) -> UC {
        self.unindexed_fns.commit()
    }

    /// Commits the final output of the collectors still in use, if any, back
    /// to the state: the indexed one first.
    fn clean_up(&mut self)
        ensures
            !final(self).indexed_in_use(),
            !final(self).unindexed_in_use(),
            final(self).uses_one_slot(),
            !old(self).indexed_in_use() && !old(self).unindexed_in_use() ==> final(self).state() == old(self).state(),
            old(self).indexed_in_use() ==> exists|out1: J::Output, m1: &mut S|
                #![trigger par_finishes(old(self).indexed().unwrap(), out1), old(self).indexed_commit().ensures((m1, out1), ())]
                par_finishes(old(self).indexed().unwrap(), out1) && *m1 == old(self).state()
                && old(self).indexed_commit().ensures((m1, out1), ())
                && (!old(self).unindexed_in_use() ==> *final(m1) == final(self).state())
                && (old(self).unindexed_in_use() ==> exists|out2: K::Output, m2: &mut S|
                    #![trigger par_finishes(old(self).unindexed().unwrap(), out2), old(self).unindexed_commit().ensures((m2, out2), ())]
                    par_finishes(old(self).unindexed().unwrap(), out2) && *m2 == *final(m1) && *final(m2) == final(self).state()
                    && old(self).unindexed_commit().ensures((m2, out2), ())),
            !old(self).indexed_in_use() && old(self).unindexed_in_use() ==> exists|out2: K::Output, m2: &mut S|
                #![trigger par_finishes(old(self).unindexed().unwrap(), out2), old(self).unindexed_commit().ensures((m2, out2), ())]
                par_finishes(old(self).unindexed().unwrap(), out2) && *m2 == old(self).state() && *final(m2) == final(self).state()
                && old(self).unindexed_commit().ensures((m2, out2), ()),
            final(self).hint_fn() == old(self).hint_fn(),
            final(self).indexed_commit() == old(self).indexed_commit(),
            final(self).unindexed_commit() == old(self).unindexed_commit(),
    {
        if let Some(indexed) = self.indexed.take() {
            let out = indexed.finish();
            assert(par_finishes(indexed, out));
            assert(old(self).indexed_commit() == self.indexed_fns.commit());
            self.indexed_fns.commit_output(&mut self.state, out);
            assert(par_finishes(old(self).indexed().unwrap(), out));
        }
        if let Some(unindexed) = self.unindexed.take() {
            let out = unindexed.finish();
            assert(par_finishes(unindexed, out));
            assert(old(self).unindexed_commit() == self.unindexed_fns.commit());
            self.unindexed_fns.commit_output(&mut self.state, out);
            assert(par_finishes(old(self).unindexed().unwrap(), out));
        }
    }
}

impl<S, BH: Fn(&S) -> ControlFlow<()>, J: IntoParallelCollectorBase, IF: Fn(&mut S) -> J, IC: Fn(&mut S, J::Output)> ParallelCollectorBase for Custom<S, BH, J, IF, IC> {
    type Output = S;

    type IndexedConsumer = <J::IntoParCollector as ParallelCollectorBase>::IndexedConsumer;

    /// The collector in use, if any, commits the output; the state is kept,
    /// and what the hint function says of it is the signal.
    open spec fn commit_spec(before: Self, output: <Self::IndexedConsumer as Consumer>::Output, after: Self, cf: ControlFlow<()>) -> bool {
        &&& after.state() == before.state()
        &&& after.hint_fn() == before.hint_fn()
        &&& before.hint_fn().ensures((&before.state(),), cf)
        &&& before.in_use() ==> exists|inner_cf: ControlFlow<()>| after.indexed() is Some
            && #[trigger] <J::IntoParCollector as ParallelCollectorBase>::commit_spec(before.indexed().unwrap(), output, after.indexed().unwrap(), inner_cf)
        &&& !before.in_use() ==> after.indexed() == before.indexed()
    }

    /// The state, once the collector still in use has been committed to it.
    fn finish(self) -> (state: S)
        ensures
            !self.in_use() ==> state == self.state(),
            self.in_use() ==> exists|out: J::Output, m: &mut S| #![trigger par_finishes(self.indexed().unwrap(), out), self.indexed_commit().ensures((m, out), ())]
                par_finishes(self.indexed().unwrap(), out) && *m == self.state() && *final(m) == state
                && self.indexed_commit().ensures((m, out), ()),
    {
        let mut this = self;
        this.clean_up();
        this.state
    }

    /// What the hint function says of the state.
    fn break_hint(&self) -> (cf: ControlFlow<()>)
        ensures
            self.hint_fn().ensures((&self.state(),), cf),
    {
        self.break_hint.hint(&self.state)
    }

    /// Commits the collector still in use, makes a new one out of the state
    /// and hands out its parts.
    fn parts(&mut self, len: usize) -> (parts: (usize, Self::IndexedConsumer))
        ensures
            final(self).in_use(),
            final(self).hint_fn() == old(self).hint_fn(),
            final(self).indexed_commit() == old(self).indexed_commit(),
            final(self).indexed_make() == old(self).indexed_make(),
            !old(self).in_use() ==> exists|ms: &mut S, made: J, collector: J::IntoParCollector, mc: &mut J::IntoParCollector|
                    #![trigger old(self).indexed_make().ensures((ms,), made), J::into_par_collector.ensures((made,), collector), hands_out(mc, len, parts)]
                    *ms == old(self).state() && *final(ms) == final(self).state()
                    && old(self).indexed_make().ensures((ms,), made) && J::into_par_collector.ensures((made,), collector)
                    && *mc == collector && final(self).indexed() == Some(*final(mc)) && hands_out(mc, len, parts),
            old(self).in_use() ==> exists|out: J::Output, m: &mut S|
                #![trigger par_finishes(old(self).indexed().unwrap(), out), old(self).indexed_commit().ensures((m, out), ())]
                par_finishes(old(self).indexed().unwrap(), out) && *m == old(self).state()
                && old(self).indexed_commit().ensures((m, out), ())
                && exists|ms: &mut S, made: J, collector: J::IntoParCollector, mc: &mut J::IntoParCollector|
                    #![trigger old(self).indexed_make().ensures((ms,), made), J::into_par_collector.ensures((made,), collector), hands_out(mc, len, parts)]
                    *ms == *final(m) && *final(ms) == final(self).state()
                    && old(self).indexed_make().ensures((ms,), made) && J::into_par_collector.ensures((made,), collector)
                    && *mc == collector && final(self).indexed() == Some(*final(mc)) && hands_out(mc, len, parts),
    {
        self.clean_up();
        assert(self.indexed_make() == self.indexed_fns.make());
        let mut indexed = self.indexed_fns.make_collector(&mut self.state);
        let parts = indexed.parts(len);
        self.indexed = Some(indexed);
        parts
    }

    /// Commits the output to the collector in use; what the hint function
    /// says of the state is the signal.
    fn commit(&mut self, output: <Self::IndexedConsumer as Consumer>::Output) -> (cf: ControlFlow<()>)
        ensures
            final(self).state() == old(self).state(),
            final(self).in_use() == old(self).in_use(),
            final(self).hint_fn() == old(self).hint_fn(),
            old(self).hint_fn().ensures((&old(self).state(),), cf),
            old(self).in_use() ==> exists|m: &mut J::IntoParCollector, inner_cf: ControlFlow<()>|
                *m == old(self).indexed().unwrap() && final(self).indexed() == Some(*final(m)) && commits(m, output, inner_cf),
    {
        let ghost mut inner_cf = ControlFlow::<()>::Continue(());
        if let Some(indexed) = &mut self.indexed {
            let cf = indexed.commit(output);
            proof { inner_cf = cf; }
        }
        assert(old(self).indexed() is Some ==> <J::IntoParCollector as ParallelCollectorBase>::commit_spec(old(self).indexed().unwrap(), output, self.indexed().unwrap(), inner_cf));
        self.break_hint.hint(&self.state)
    }
}

impl<S, BH: Fn(&S) -> ControlFlow<()>, J: IntoParallelCollectorBase<IntoParCollector: UnindexedParallelCollectorBase>, IF: Fn(&mut S) -> J, IC: Fn(&mut S, J::Output)> UnindexedParallelCollectorBase for Custom<S, BH, J, IF, IC> {
    type UnindexedParts = <J::IntoParCollector as UnindexedParallelCollectorBase>::UnindexedParts;

    /// The collector in use, if any, commits the output; the state is kept,
    /// and what the hint function says of it is the signal.
    open spec fn commit_unindexed_spec(before: Self, output: <Self::UnindexedParts as Consumer>::Output, after: Self, cf: ControlFlow<()>) -> bool {
        &&& after.state() == before.state()
        &&& after.hint_fn() == before.hint_fn()
        &&& before.hint_fn().ensures((&before.state(),), cf)
        &&& before.in_use() ==> exists|inner_cf: ControlFlow<()>| after.indexed() is Some
            && #[trigger] <J::IntoParCollector as UnindexedParallelCollectorBase>::commit_unindexed_spec(before.indexed().unwrap(), output, after.indexed().unwrap(), inner_cf)
        &&& !before.in_use() ==> after.indexed() == before.indexed()
    }

    /// Commits the collector still in use, makes a new one out of the state
    /// and hands out its unindexed consumer.
    fn parts_unindexed(&mut self) -> (consumer: Self::UnindexedParts)
        ensures
            final(self).in_use(),
            final(self).hint_fn() == old(self).hint_fn(),
            final(self).indexed_commit() == old(self).indexed_commit(),
            final(self).indexed_make() == old(self).indexed_make(),
            !old(self).in_use() ==> exists|ms: &mut S, made: J, collector: J::IntoParCollector, mc: &mut J::IntoParCollector|
                    #![trigger old(self).indexed_make().ensures((ms,), made), J::into_par_collector.ensures((made,), collector), hands_out_unindexed(mc, consumer)]
                    *ms == old(self).state() && *final(ms) == final(self).state()
                    && old(self).indexed_make().ensures((ms,), made) && J::into_par_collector.ensures((made,), collector)
                    && *mc == collector && final(self).indexed() == Some(*final(mc)) && hands_out_unindexed(mc, consumer),
            old(self).in_use() ==> exists|out: J::Output, m: &mut S|
                #![trigger par_finishes(old(self).indexed().unwrap(), out), old(self).indexed_commit().ensures((m, out), ())]
                par_finishes(old(self).indexed().unwrap(), out) && *m == old(self).state()
                && old(self).indexed_commit().ensures((m, out), ())
                && exists|ms: &mut S, made: J, collector: J::IntoParCollector, mc: &mut J::IntoParCollector|
                    #![trigger old(self).indexed_make().ensures((ms,), made), J::into_par_collector.ensures((made,), collector), hands_out_unindexed(mc, consumer)]
                    *ms == *final(m) && *final(ms) == final(self).state()
                    && old(self).indexed_make().ensures((ms,), made) && J::into_par_collector.ensures((made,), collector)
                    && *mc == collector && final(self).indexed() == Some(*final(mc)) && hands_out_unindexed(mc, consumer),
    {
        self.clean_up();
        assert(self.indexed_make() == self.indexed_fns.make());
        let mut indexed = self.indexed_fns.make_collector(&mut self.state);
        let consumer = indexed.parts_unindexed();
        self.indexed = Some(indexed);
        consumer
    }

    /// Commits the output to the collector in use; what the hint function
    /// says of the state is the signal.
    fn commit_unindexed(&mut self, output: <Self::UnindexedParts as Consumer>::Output) -> (cf: ControlFlow<()>)
        ensures
            final(self).state() == old(self).state(),
            final(self).in_use() == old(self).in_use(),
            final(self).hint_fn() == old(self).hint_fn(),
            old(self).hint_fn().ensures((&old(self).state(),), cf),
            old(self).in_use() ==> exists|m: &mut J::IntoParCollector, inner_cf: ControlFlow<()>|
                *m == old(self).indexed().unwrap() && final(self).indexed() == Some(*final(m)) && commits_unindexed(m, output, inner_cf),
    {
        let ghost mut inner_cf = ControlFlow::<()>::Continue(());
        if let Some(indexed) = &mut self.indexed {
            let cf = indexed.commit_unindexed(output);
            proof { inner_cf = cf; }
        }
        assert(old(self).indexed() is Some ==> <J::IntoParCollector as UnindexedParallelCollectorBase>::commit_unindexed_spec(old(self).indexed().unwrap(), output, self.indexed().unwrap(), inner_cf));
        self.break_hint.hint(&self.state)
    }
}

impl<
    S,
    BH: Fn(&S) -> ControlFlow<()>,
    J: IntoParallelCollectorBase,
    IF: Fn(&mut S) -> J,
    IC: Fn(&mut S, J::Output),
    K: IntoParallelCollectorBase,
    UF: Fn(&mut S) -> K,
    UC: Fn(&mut S, K::Output),
> ParallelCollectorBase for CustomAlsoUnindexed<S, BH, J, IF, IC, K, UF, UC> {
    type Output = S;

    type IndexedConsumer = <J::IntoParCollector as ParallelCollectorBase>::IndexedConsumer;

    /// The collector in use, if any, commits the output; the state is kept,
    /// and what the hint function says of it is the signal.
    open spec fn commit_spec(before: Self, output: <Self::IndexedConsumer as Consumer>::Output, after: Self, cf: ControlFlow<()>) -> bool {
        &&& after.state() == before.state()
        &&& after.hint_fn() == before.hint_fn()
        &&& before.hint_fn().ensures((&before.state(),), cf)
        &&& after.unindexed() == before.unindexed()
        &&& before.indexed_in_use() ==> exists|inner_cf: ControlFlow<()>| after.indexed() is Some
            && #[trigger] <J::IntoParCollector as ParallelCollectorBase>::commit_spec(before.indexed().unwrap(), output, after.indexed().unwrap(), inner_cf)
        &&& !before.indexed_in_use() ==> after.indexed() == before.indexed()
    }

    /// The state, once the collectors still in use have been committed to it.
    fn finish(self) -> (state: S)
        ensures
            !self.indexed_in_use() && !self.unindexed_in_use() ==> state == self.state(),
            self.indexed_in_use() ==> exists|out1: J::Output, m1: &mut S|
                #![trigger par_finishes(self.indexed().unwrap(), out1), self.indexed_commit().ensures((m1, out1), ())]
                par_finishes(self.indexed().unwrap(), out1) && *m1 == self.state()
                && self.indexed_commit().ensures((m1, out1), ())
                && (!self.unindexed_in_use() ==> *final(m1) == state)
                && (self.unindexed_in_use() ==> exists|out2: K::Output, m2: &mut S|
                    #![trigger par_finishes(self.unindexed().unwrap(), out2), self.unindexed_commit().ensures((m2, out2), ())]
                    par_finishes(self.unindexed().unwrap(), out2) && *m2 == *final(m1) && *final(m2) == state
                    && self.unindexed_commit().ensures((m2, out2), ())),
            !self.indexed_in_use() && self.unindexed_in_use() ==> exists|out2: K::Output, m2: &mut S|
                #![trigger par_finishes(self.unindexed().unwrap(), out2), self.unindexed_commit().ensures((m2, out2), ())]
                par_finishes(self.unindexed().unwrap(), out2) && *m2 == self.state() && *final(m2) == state
                && self.unindexed_commit().ensures((m2, out2), ()),
    {
        let mut this = self;
        this.clean_up();
        this.state
    }

    /// What the hint function says of the state.
    fn break_hint(&self) -> (cf: ControlFlow<()>)
        ensures
            self.hint_fn().ensures((&self.state(),), cf),
    {
        self.break_hint.hint(&self.state)
    }

    /// Commits the collectors still in use, makes a new indexed one out of
    /// the state and hands out its parts.
    fn parts(&mut self, len: usize) -> (parts: (usize, Self::IndexedConsumer))
        ensures
            final(self).indexed_in_use(),
            !final(self).unindexed_in_use(),
            final(self).uses_one_slot(),
    {
        self.clean_up();
        let mut indexed = self.indexed_fns.make_collector(&mut self.state);
        let parts = indexed.parts(len);
        self.indexed = Some(indexed);
        parts
    }

    /// Commits the output to the indexed collector in use; what the hint
    /// function says of the state is the signal.
    fn commit(&mut self, output: <Self::IndexedConsumer as Consumer>::Output) -> (cf: ControlFlow<()>)
        ensures
            final(self).state() == old(self).state(),
            final(self).indexed_in_use() == old(self).indexed_in_use(),
            final(self).unindexed_in_use() == old(self).unindexed_in_use(),
            final(self).uses_one_slot() == old(self).uses_one_slot(),
            final(self).unindexed() == old(self).unindexed(),
            final(self).hint_fn() == old(self).hint_fn(),
            old(self).hint_fn().ensures((&old(self).state(),), cf),
            old(self).indexed_in_use() ==> exists|m: &mut J::IntoParCollector, inner_cf: ControlFlow<()>|
                *m == old(self).indexed().unwrap() && final(self).indexed() == Some(*final(m)) && commits(m, output, inner_cf),
    {
        let ghost mut inner_cf = ControlFlow::<()>::Continue(());
        if let Some(indexed) = &mut self.indexed {
            let cf = indexed.commit(output);
            proof { inner_cf = cf; }
        }
        assert(old(self).indexed() is Some ==> <J::IntoParCollector as ParallelCollectorBase>::commit_spec(old(self).indexed().unwrap(), output, self.indexed().unwrap(), inner_cf));
        self.break_hint.hint(&self.state)
    }
}

impl<
    S,
    BH: Fn(&S) -> ControlFlow<()>,
    J: IntoParallelCollectorBase,
    IF: Fn(&mut S) -> J,
    IC: Fn(&mut S, J::Output),
    K: IntoParallelCollectorBase<IntoParCollector: UnindexedParallelCollectorBase>,
    UF: Fn(&mut S) -> K,
    UC: Fn(&mut S, K::Output),
> UnindexedParallelCollectorBase for CustomAlsoUnindexed<S, BH, J, IF, IC, K, UF, UC> {
    type UnindexedParts = <K::IntoParCollector as UnindexedParallelCollectorBase>::UnindexedParts;

    /// The collector in use, if any, commits the output; the state is kept,
    /// and what the hint function says of it is the signal.
    open spec fn commit_unindexed_spec(before: Self, output: <Self::UnindexedParts as Consumer>::Output, after: Self, cf: ControlFlow<()>) -> bool {
        &&& after.state() == before.state()
        &&& after.hint_fn() == before.hint_fn()
        &&& before.hint_fn().ensures((&before.state(),), cf)
        &&& after.indexed() == before.indexed()
        &&& before.unindexed_in_use() ==> exists|inner_cf: ControlFlow<()>| after.unindexed() is Some
            && #[trigger] <K::IntoParCollector as UnindexedParallelCollectorBase>::commit_unindexed_spec(before.unindexed().unwrap(), output, after.unindexed().unwrap(), inner_cf)
        &&& !before.unindexed_in_use() ==> after.unindexed() == before.unindexed()
    }

    /// Commits the collectors still in use, makes a new unindexed one out of
    /// the state and hands out its unindexed consumer.
    fn parts_unindexed(&mut self) -> (consumer: Self::UnindexedParts)
        ensures
            !final(self).indexed_in_use(),
            final(self).unindexed_in_use(),
            final(self).uses_one_slot(),
    {
        self.clean_up();
        let mut unindexed = self.unindexed_fns.make_collector(&mut self.state);
        let consumer = unindexed.parts_unindexed();
        self.unindexed = Some(unindexed);
        consumer
    }

    /// Commits the output to the unindexed collector in use; what the hint
    /// function says of the state is the signal.
    fn commit_unindexed(&mut self, output: <Self::UnindexedParts as Consumer>::Output) -> (cf: ControlFlow<()>)
        ensures
            final(self).state() == old(self).state(),
            final(self).indexed_in_use() == old(self).indexed_in_use(),
            final(self).unindexed_in_use() == old(self).unindexed_in_use(),
            final(self).uses_one_slot() == old(self).uses_one_slot(),
            final(self).indexed() == old(self).indexed(),
            final(self).hint_fn() == old(self).hint_fn(),
            old(self).hint_fn().ensures((&old(self).state(),), cf),
            old(self).unindexed_in_use() ==> exists|m: &mut K::IntoParCollector, inner_cf: ControlFlow<()>|
                *m == old(self).unindexed().unwrap() && final(self).unindexed() == Some(*final(m)) && commits_unindexed(m, output, inner_cf),
    {
        let ghost mut inner_cf = ControlFlow::<()>::Continue(());
        if let Some(unindexed) = &mut self.unindexed {
            let cf = unindexed.commit_unindexed(output);
            proof { inner_cf = cf; }
        }
        assert(old(self).unindexed() is Some ==> <K::IntoParCollector as UnindexedParallelCollectorBase>::commit_unindexed_spec(old(self).unindexed().unwrap(), output, self.unindexed().unwrap(), inner_cf));
        self.break_hint.hint(&self.state)
    }
}

} // verus!
