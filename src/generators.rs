use vstd::prelude::*;

verus! {

/// Reusable proof-of-space table generators: one slice of `concurrency`
/// generators for each pair of thread pools. A job borrows one slice for the
/// length of an encode and hands it back afterwards.
pub struct TableGeneratorPool<G> {
    slices: Vec<Vec<G>>,
    pairs: usize,
    concurrency: usize,
    lent: usize,
}

impl<G> TableGeneratorPool<G> {
    /// Number of slices, constant for the pool's lifetime.
    pub closed spec fn pairs(&self) -> nat {
        self.pairs as nat
    }

    /// Generators in each slice.
    pub closed spec fn concurrency(&self) -> nat {
        self.concurrency as nat
    }

    /// The slices at rest, the most recently returned last.
    pub closed spec fn slices(&self) -> Seq<Vec<G>> {
        self.slices@
    }

    /// Slices at rest in the pool.
    pub open spec fn available(&self) -> nat {
        self.slices().len()
    }

    /// Slices currently borrowed by jobs.
    pub closed spec fn lent(&self) -> nat {
        self.lent as nat
    }

    pub closed spec fn wf(&self) -> bool {
        &&& self.pairs > 0
        &&& self.concurrency > 0
        &&& self.slices@.len() + self.lent == self.pairs
        &&& forall|i: int| 0 <= i < self.slices@.len() ==> (#[trigger] self.slices@[i])@.len() == self.concurrency
    }

    /// Generators at rest in the pool.
    pub open spec fn generators_at_rest(&self) -> nat {
        self.available() * self.concurrency()
    }

    /// Builds `pairs` slices of `concurrency` generators, each made by `make`.
    pub fn new<F: Fn() -> G>(pairs: usize, concurrency: usize, make: F) -> (r: Self)
        requires
            pairs > 0,
            concurrency > 0,
            make.requires(()),
        ensures
            r.wf(),
            r.pairs() == pairs,
            r.concurrency() == concurrency,
            r.available() == pairs,
            r.lent() == 0,
    {
        let mut slices: Vec<Vec<G>> = Vec::new();
        let mut i: usize = 0;
        while i < pairs
            invariant
                i <= pairs,
                slices@.len() == i,
                make.requires(()),
                forall|k: int| 0 <= k < slices@.len() ==> slices@[k]@.len() == concurrency,
            decreases pairs - i,
        {
            let mut slice: Vec<G> = Vec::new();
            let mut j: usize = 0;
            while j < concurrency
                invariant
                    j <= concurrency,
                    slice@.len() == j,
                    make.requires(()),
                decreases concurrency - j,
            {
                slice.push(make());
                j += 1;
            }
            slices.push(slice);
            i += 1;
        }
        TableGeneratorPool { slices, pairs, concurrency, lent: 0 }
    }

    /// Number of slices, as given at construction.
    pub fn thread_pool_pairs(&self) -> (r: usize)
        ensures
            r == self.pairs(),
    {
        self.pairs
    }

    /// Generators in each slice, as given at construction.
    pub fn record_encoding_concurrency(&self) -> (r: usize)
        ensures
            r == self.concurrency(),
    {
        self.concurrency
    }

    /// Slices at rest in the pool.
    pub fn available_slices(&self) -> (r: usize)
        requires
            self.wf(),
        ensures
            r == self.available(),
    {
        self.slices.len()
    }

    /// Slices currently borrowed by jobs.
    pub fn lent_slices(&self) -> (r: usize)
        ensures
            r == self.lent(),
    {
        self.lent
    }

    /// Lends out one slice, or `None` when every slice is borrowed.
    pub fn pop(&mut self) -> (r: Option<Vec<G>>)
        requires
            old(self).wf(),
        ensures
            final(self).wf(),
            final(self).pairs() == old(self).pairs(),
            final(self).concurrency() == old(self).concurrency(),
            r.is_some() <==> old(self).available() > 0,
            r.is_some() ==> r.unwrap()@.len() == old(self).concurrency()
                && r.unwrap() == old(self).slices().last()
                && final(self).slices() == old(self).slices().drop_last()
                && final(self).lent() == old(self).lent() + 1,
            r.is_none() ==> final(self).slices() == old(self).slices()
                && final(self).lent() == old(self).lent(),
    {
        match self.slices.pop() {
            Some(slice) => {
                self.lent = self.lent + 1;
                Some(slice)
            },
            None => None,
        }
    }

    /// Takes back a slice that `pop` lent out.
    pub fn push(&mut self, slice: Vec<G>)
        requires
            old(self).wf(),
            old(self).lent() > 0,
            slice@.len() == old(self).concurrency(),
        ensures
            final(self).wf(),
            final(self).pairs() == old(self).pairs(),
            final(self).concurrency() == old(self).concurrency(),
            final(self).slices() == old(self).slices().push(slice),
            final(self).lent() == old(self).lent() - 1,
    {
        self.slices.push(slice);
        self.lent = self.lent - 1;
    }

    /// No more slices are lent than there are pairs of thread pools, so no more
    /// encodes run at once than there are pairs; slices at rest and slices lent
    /// always add up to that number.
    pub proof fn lemma_lent_bounded(&self)
        requires
            self.wf(),
        ensures
            self.lent() <= self.pairs(),
            self.available() + self.lent() == self.pairs(),
    {
    }

    /// Every generator made at construction is either at rest or on loan.
    pub proof fn lemma_generators_accounted(&self)
        requires
            self.wf(),
        ensures
            self.generators_at_rest() + self.lent() * self.concurrency() == self.pairs()
                * self.concurrency(),
    {
        let (a, l, c) = (self.available() as int, self.lent() as int, self.concurrency() as int);
        assert((a + l) * c == a * c + l * c) by (nonlinear_arith);
    }

    /// Lending a slice and taking that slice back leaves the pool as it was:
    /// the same slices at rest, as many generators, as many on loan.
    pub proof fn lemma_generators_conserved(before: &Self, lent: &Self, back: &Self, slice: Vec<G>)
        requires
            before.wf(),
            before.available() > 0,
            slice == before.slices().last(),
            lent.slices() == before.slices().drop_last(),
            lent.lent() == before.lent() + 1,
            back.slices() == lent.slices().push(slice),
            back.lent() == lent.lent() - 1,
            back.concurrency() == before.concurrency(),
        ensures
            back.slices() == before.slices(),
            back.generators_at_rest() == before.generators_at_rest(),
            back.lent() == before.lent(),
    {
        assert(back.slices() =~= before.slices());
    }
}

} // verus!
