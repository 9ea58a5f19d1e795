use vstd::multiset::Multiset;
use vstd::prelude::*;

verus! {

broadcast use vstd::seq_lib::group_to_multiset_ensures;

/// Queries that may be outstanding at once, so as not to overload the node.
pub const MAX_CONCURRENT: usize = 50;

/// What a block query gave.
#[derive(Clone, Debug, PartialEq, Eq)]
pub enum BlockOutcome<B> {
    /// A finalized block.
    Finalized(B),
    /// A block that is still pending.
    Pending,
    /// The query itself failed.
    Failed(String),
}

/// Why a fetch was abandoned as a whole.
#[derive(Clone, Debug, PartialEq, Eq)]
pub enum FetchError {
    PendingBlockEncountered { height: u64 },
    UnderlyingQueryFailed { height: u64, cause: String },
}

/// What the driver does next.
#[derive(Clone, Copy, Debug, PartialEq, Eq, Structural)]
pub enum FetchAction {
    /// Start the query for this height.
    Issue(u64),
    /// Wait for one outstanding query to complete and report it.
    AwaitCompletion,
    /// Every height has been fetched.
    Finished,
}

/// The abstract state of a fetch.
pub struct FetchView<B> {
    /// The heights to fetch, in the order they were given.
    pub requested: Seq<u64>,
    /// How many of them have been issued.
    pub issued: nat,
    /// The most queries that may be outstanding at once.
    pub cap: nat,
    /// The heights whose queries are outstanding.
    pub in_flight: Seq<u64>,
    /// The blocks collected so far with their heights, in completion order.
    pub blocks: Seq<(u64, B)>,
}

pub open spec fn heights_of<B>(s: Seq<(u64, B)>) -> Seq<u64> {
    s.map_values(|p: (u64, B)| p.0)
}

impl<B> FetchView<B> {
    /// Every issued height is either outstanding or collected, once per time it
    /// was requested, and no more than `cap` queries are outstanding.
    pub open spec fn inv(self) -> bool {
        &&& self.issued <= self.requested.len()
        &&& 0 < self.cap
        &&& self.in_flight.len() <= self.cap
        &&& self.requested.subrange(0, self.issued as int).to_multiset() =~= self.in_flight.to_multiset().add(
            heights_of(self.blocks).to_multiset(),
        )
    }

    pub open spec fn done(self) -> bool {
        self.issued == self.requested.len() && self.in_flight.len() == 0
    }
}

/// The decisions of a bounded-concurrency block fetch. The driver runs the
/// queries; the fetcher says when to start one, when to wait, and collects.
pub struct BlockFetcher<B> {
    heights: Vec<u64>,
    next: usize,
    cap: usize,
    in_flight: Vec<u64>,
    blocks: Vec<(u64, B)>,
}

impl<B> View for BlockFetcher<B> {
    type V = FetchView<B>;

    closed spec fn view(&self) -> FetchView<B> {
        FetchView {
            requested: self.heights@,
            issued: self.next as nat,
            cap: self.cap as nat,
            in_flight: self.in_flight@,
            blocks: self.blocks@,
        }
    }
}

impl<B> BlockFetcher<B> {
    /// A fetch of the given heights with at most `cap` outstanding queries.
    pub fn new(heights: Vec<u64>, cap: usize) -> (r: Self)
        requires
            cap > 0,
        ensures
            r@.inv(),
            r@.requested == heights@,
            r@.issued == 0,
            r@.cap == cap,
            r@.in_flight.len() == 0,
            r@.blocks.len() == 0,
    {
        let r = BlockFetcher { heights, next: 0, cap, in_flight: Vec::new(), blocks: Vec::new() };
        assert(r.heights@.subrange(0, 0) =~= Seq::<u64>::empty());
        assert(heights_of(r.blocks@) =~= Seq::<u64>::empty());
        r
    }

    /// Number of queries outstanding.
    pub fn in_flight_count(&self) -> (r: usize)
        ensures
            r == self@.in_flight.len(),
    {
        self.in_flight.len()
    }

    /// Whether a query for `height` is outstanding.
    pub fn is_in_flight(&self, height: u64) -> (r: bool)
        ensures
            r == self@.in_flight.contains(height),
    {
        let mut i: usize = 0;
        while i < self.in_flight.len()
            invariant
                0 <= i <= self.in_flight@.len(),
                forall|j: int| 0 <= j < i ==> self.in_flight@[j] != height,
            decreases self.in_flight@.len() - i,
        {
            if self.in_flight[i] == height {
                return true;
            }
            i = i + 1;
        }
        false
    }

    /// The next step: issue the next height while under the cap, else wait for
    /// an outstanding query, else report that the fetch is finished.
    pub fn next_action(&mut self) -> (r: FetchAction)
        requires
            old(self)@.inv(),
        ensures
            final(self)@.inv(),
            final(self)@.requested == old(self)@.requested,
            final(self)@.cap == old(self)@.cap,
            final(self)@.blocks == old(self)@.blocks,
            ({
                let o = old(self)@;
                let n = final(self)@;
                if o.issued < o.requested.len() && o.in_flight.len() < o.cap {
                    &&& r == FetchAction::Issue(o.requested[o.issued as int])
                    &&& n.issued == o.issued + 1
                    &&& n.in_flight == o.in_flight.push(o.requested[o.issued as int])
                } else {
                    &&& n == o
                    &&& r == (if o.in_flight.len() > 0 {
                        FetchAction::AwaitCompletion
                    } else {
                        FetchAction::Finished
                    })
                    &&& (r == FetchAction::Finished ==> o.done())
                }
            }),
    {
        if self.next < self.heights.len() && self.in_flight.len() < self.cap {
            let h = self.heights[self.next];
            proof {
                let s = self.heights@;
                let k = self.next as int;
                assert(s.subrange(0, k + 1) =~= s.subrange(0, k).push(s[k]));
            }
            self.next = self.next + 1;
            self.in_flight.push(h);
            FetchAction::Issue(h)
        } else if self.in_flight.len() > 0 {
            FetchAction::AwaitCompletion
        } else {
            FetchAction::Finished
        }
    }

    /// Reports the outcome of the outstanding query for `height`. A finalized
    /// block is collected; a pending block or a failed query abandons the whole
    /// fetch, and what was collected so far is dropped with it.
    pub fn complete(self, height: u64, outcome: BlockOutcome<B>) -> (r: Result<Self, FetchError>)
        requires
            self@.inv(),
            self@.in_flight.contains(height),
        ensures
            match outcome {
                BlockOutcome::Finalized(b) => r matches Ok(f) && {
                    &&& f@.inv()
                    &&& f@.requested == self@.requested
                    &&& f@.issued == self@.issued
                    &&& f@.cap == self@.cap
                    &&& f@.in_flight.to_multiset() == self@.in_flight.to_multiset().remove(height)
                    &&& f@.blocks == self@.blocks.push((height, b))
                },
                BlockOutcome::Pending => r == Err::<Self, FetchError>(
                    FetchError::PendingBlockEncountered { height },
                ),
                BlockOutcome::Failed(cause) => r == Err::<Self, FetchError>(
                    FetchError::UnderlyingQueryFailed { height, cause },
                ),
            },
    {
        match outcome {
            BlockOutcome::Finalized(b) => {
                let mut f = self;
                let mut i: usize = 0;
                while i < f.in_flight.len() && f.in_flight[i] != height
                    invariant
                        0 <= i <= f.in_flight@.len(),
                        f.in_flight@.contains(height),
                        forall|j: int| 0 <= j < i ==> f.in_flight@[j] != height,
                    decreases f.in_flight@.len() - i,
                {
                    i = i + 1;
                }
                proof {
                    let j = choose|j: int| 0 <= j < f.in_flight@.len() && f.in_flight@[j] == height;
                    assert(j >= i);
                }
                let ghost before = f@;
                f.in_flight.remove(i);
                f.blocks.push((height, b));
                proof {
                    assert(heights_of(f.blocks@) =~= heights_of(before.blocks).push(height));
                }
                Ok(f)
            },
            BlockOutcome::Pending => Err(FetchError::PendingBlockEncountered { height }),
            BlockOutcome::Failed(cause) => Err(FetchError::UnderlyingQueryFailed { height, cause }),
        }
    }

    /// The blocks of a finished fetch, in completion order.
    pub fn finish(self) -> (r: Vec<B>)
        requires
            self@.inv(),
            self@.done(),
        ensures
            r@ == self@.blocks.map_values(|p: (u64, B)| p.1),
            heights_of(self@.blocks).to_multiset() =~= self@.requested.to_multiset(),
    {
        let ghost v = self@;
        proof {
            assert(v.requested.subrange(0, v.issued as int) =~= v.requested);
        }
        let mut blocks = self.blocks;
        let ghost all = blocks@;
        let mut out: Vec<B> = Vec::new();
        while blocks.len() > 0
            invariant
                blocks@.len() <= all.len(),
                blocks@ =~= all.subrange(0, blocks@.len() as int),
                out@ =~= all.subrange(blocks@.len() as int, all.len() as int).map_values(
                    |p: (u64, B)| p.1,
                ),
            decreases blocks@.len(),
        {
            let (_, b) = blocks.pop().unwrap();
            out.insert(0, b);
        }
        out
    }
}

/// No state of a fetch has more than `cap` queries outstanding.
pub proof fn lemma_in_flight_within_cap<B>(v: FetchView<B>)
    requires
        v.inv(),
    ensures
        v.in_flight.len() <= v.cap,
{
}

/// A finished fetch holds exactly one block per requested height, counted with
/// multiplicity, whatever the order of completion: none is missing and none is
/// duplicated.
pub proof fn lemma_one_block_per_height<B>(v: FetchView<B>, height: u64)
    requires
        v.inv(),
        v.done(),
    ensures
        heights_of(v.blocks).to_multiset().count(height) == v.requested.to_multiset().count(height),
        v.blocks.len() == v.requested.len(),
{
    assert(v.requested.subrange(0, v.issued as int) =~= v.requested);
    assert(v.in_flight.to_multiset().len() == 0);
    assert(v.in_flight.to_multiset() =~= Multiset::empty());
    assert(heights_of(v.blocks).to_multiset() =~= v.requested.to_multiset());
    assert(heights_of(v.blocks).len() == v.blocks.len());
    assert(heights_of(v.blocks).to_multiset().len() == heights_of(v.blocks).len());
    assert(v.requested.to_multiset().len() == v.requested.len());
}

} // verus!
