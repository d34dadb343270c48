use crate::data::Data;
use vstd::prelude::*;

verus! {

/// The most reports that one drain of the input queue takes.
pub const MAX_DRAIN_READS: usize = 16;

/// Tells whether read `i` of a record brings news: it is not all zero, and
/// its counter differs from that of the read before it.
pub open spec fn fresh(reads: Seq<Data>, i: int) -> bool {
    !reads[i].all_zero() && (i > 0 ==> reads[i].sequence() != reads[i - 1].sequence())
}

/// The number of reads that a drain takes, counted on from `from` reads
/// already taken: it takes reads while they are fresh, and sixteen at most.
pub open spec fn taken_from(reads: Seq<Data>, from: nat) -> nat
    decreases reads.len() - from,
{
    if from < reads.len() && from < 16 && fresh(reads, from as int) {
        taken_from(reads, from + 1)
    } else {
        from
    }
}

/// The number of reads that a drain of a record takes.
pub open spec fn taken(reads: Seq<Data>) -> nat {
    taken_from(reads, 0)
}

/// The report that a drain of a record returns: the last one taken, or none
/// where the first read brought none.
pub open spec fn latest(reads: Seq<Data>) -> Option<Data> {
    if taken(reads) == 0 {
        None
    } else {
        Some(reads[taken(reads) - 1])
    }
}

/// Where a drain stands.
pub struct Drain {
    /// The last report taken.
    pub kept: Option<Data>,
    /// The number of reports taken.
    pub count: nat,
    /// Whether the drain has ended.
    pub done: bool,
}

/// A drain that has read nothing.
pub open spec fn drain_start() -> Drain {
    Drain { kept: None, count: 0, done: false }
}

/// Tells whether a read ends the drain: it is all zero, or it repeats the
/// counter of the report kept.
pub open spec fn halts(kept: Option<Data>, read: Data) -> bool {
    read.all_zero() || (kept matches Some(last) && last.sequence() == read.sequence())
}

/// The drain after one more read. A read that halts it is not kept; any
/// other is, and the sixteenth report kept ends the drain too. A drain that
/// has ended stays as it is.
pub open spec fn drain_step(drain: Drain, read: Data) -> Drain {
    if drain.done {
        drain
    } else if halts(drain.kept, read) {
        Drain { done: true, ..drain }
    } else {
        Drain { kept: Some(read), count: drain.count + 1, done: drain.count + 1 >= 16 }
    }
}

/// Picks the latest report out of the input queue, one read at a time.
pub struct LatestInput {
    kept: Option<Data>,
    count: usize,
    done: bool,
}

impl View for LatestInput {
    type V = Drain;

    closed spec fn view(&self) -> Drain {
        Drain { kept: self.kept, count: self.count as nat, done: self.done }
    }
}

impl LatestInput {
    #[verifier::type_invariant]
    spec fn bounded(&self) -> bool {
        self.count <= 16 && (self.count >= 16 ==> self.done)
    }

    /// A drain that has read nothing.
    pub fn new() -> (drain: Self)
        ensures
            drain@ == drain_start(),
    {
        LatestInput { kept: None, count: 0, done: false }
    }

    /// Hands the drain what was just read. The answer tells whether to read
    /// again.
    pub fn offer(&mut self, read: Data) -> (again: bool)
        ensures
            final(self)@ == drain_step(old(self)@, read),
            again == !final(self)@.done,
    {
        proof {
            use_type_invariant(&*self);
        }
        if self.done {
            return false;
        }
        let halts = read.is_zeroed() || match &self.kept {
            Some(last) => last.counter() == read.counter(),
            None => false,
        };
        if halts {
            self.done = true;
            return false;
        }
        self.kept = Some(read);
        self.done = self.count + 1 >= MAX_DRAIN_READS;
        self.count = self.count + 1;
        !self.done
    }

    /// Tells whether the drain has ended.
    pub fn is_done(&self) -> (done: bool)
        ensures
            done == self@.done,
    {
        self.done
    }

    /// The last report taken, if any was.
    pub fn latest(&self) -> (kept: Option<Data>)
        ensures
            kept == self@.kept,
    {
        self.kept
    }
}

/// The latest report of a recorded queue: what a drain returns that reads
/// the record from the front.
pub fn latest_of(reads: &Vec<Data>) -> (kept: Option<Data>)
    ensures
        kept == latest(reads@),
{
    let mut drain = LatestInput::new();
    let mut i: usize = 0;
    while i < reads.len()
        invariant
            i <= reads@.len(),
            i < 16,
            drain@ == (Drain {
                kept: if i == 0 {
                    None
                } else {
                    Some(reads@[i - 1])
                },
                count: i as nat,
                done: false,
            }),
            taken(reads@) == taken_from(reads@, i as nat),
        decreases reads@.len() - i,
    {
        let again = drain.offer(reads[i]);
        if !again {
            assert(taken_from(reads@, (i + 1) as nat) == i + 1 || i + 1 < 16);
            return drain.latest();
        }
        i += 1;
    }
    drain.latest()
}

/// Tells whether `count` is the number of reads that a drain of a record
/// takes: every read before it is fresh, and it is the sixteenth, the end
/// of the record, or a read that is not fresh.
pub open spec fn drains_to(reads: Seq<Data>, count: nat) -> bool {
    &&& count <= 16
    &&& count <= reads.len()
    &&& forall|i: int| 0 <= i < count ==> fresh(reads, i)
    &&& (count == 16 || count == reads.len() || !fresh(reads, count as int))
}

proof fn lemma_taken_from(reads: Seq<Data>, from: nat)
    requires
        from <= 16,
        from <= reads.len(),
        forall|i: int| 0 <= i < from ==> fresh(reads, i),
    ensures
        drains_to(reads, taken_from(reads, from)),
        taken_from(reads, from) >= from,
    decreases reads.len() - from,
{
    if from < reads.len() && from < 16 && fresh(reads, from as int) {
        lemma_taken_from(reads, from + 1);
    }
}

proof fn lemma_taken_from_reaches(reads: Seq<Data>, from: nat, count: nat)
    requires
        from <= count,
        drains_to(reads, count),
    ensures
        taken_from(reads, from) == count,
    decreases count - from,
{
    if from < count {
        assert(fresh(reads, from as int));
        lemma_taken_from_reaches(reads, from + 1, count);
    }
}

/// A drain takes reads while they are fresh, sixteen at most: the number it
/// takes is the one number that `drains_to` admits.
pub proof fn lemma_taken_is_the_fresh_run(reads: Seq<Data>)
    ensures
        drains_to(reads, taken(reads)),
        forall|count: nat| drains_to(reads, count) ==> count == taken(reads),
{
    lemma_taken_from(reads, 0);
    assert forall|count: nat| drains_to(reads, count) implies count == taken(reads) by {
        lemma_taken_from_reaches(reads, 0, count);
    }
}

/// A read that repeats the counter of the report kept ends the drain: the
/// report kept is returned, and what follows in the queue is not looked at.
pub proof fn lemma_drain_stops_at_repeat(reads: Seq<Data>, k: int)
    requires
        0 < k < reads.len(),
        k <= 16,
        forall|i: int| 0 <= i < k ==> fresh(reads, i),
        reads[k].sequence() == reads[k - 1].sequence(),
    ensures
        latest(reads) == Some(reads[k - 1]),
{
    lemma_taken_from_reaches(reads, 0, k as nat);
}

/// A read of zero bytes ends the drain: the report kept before it is
/// returned, or none where it was the first read.
pub proof fn lemma_drain_stops_at_zero(reads: Seq<Data>, k: int)
    requires
        0 <= k < reads.len(),
        k <= 16,
        forall|i: int| 0 <= i < k ==> fresh(reads, i),
        reads[k].all_zero(),
    ensures
        latest(reads) == (if k == 0 {
            None
        } else {
            Some(reads[k - 1])
        }),
{
    lemma_taken_from_reaches(reads, 0, k as nat);
}

/// The drain after the first `n` reads of a record were offered in order.
pub open spec fn drain_over(reads: Seq<Data>, n: nat) -> Drain
    decreases n,
{
    if n == 0 {
        drain_start()
    } else {
        drain_step(drain_over(reads, (n - 1) as nat), reads[n - 1])
    }
}

/// Offering the reads of a record one by one keeps the reports that
/// `taken` counts: while reads are taken the drain holds the last one read,
/// and from the first read that is not taken on it stays as it is.
pub proof fn lemma_drain_over(reads: Seq<Data>, n: nat)
    requires
        n <= reads.len(),
    ensures
        n <= taken(reads) ==> drain_over(reads, n) == (Drain {
            kept: if n == 0 {
                None
            } else {
                Some(reads[n - 1])
            },
            count: n,
            done: n >= 16,
        }),
        n > taken(reads) ==> drain_over(reads, n) == (Drain {
            kept: latest(reads),
            count: taken(reads),
            done: true,
        }),
    decreases n,
{
    lemma_taken_is_the_fresh_run(reads);
    if n > 0 {
        let m = (n - 1) as nat;
        lemma_drain_over(reads, m);
        if n <= taken(reads) {
            assert(fresh(reads, m as int));
        }
    }
}

/// A drain that has ended, or that has been offered a whole record, holds
/// the latest report of the record.
pub proof fn lemma_drain_over_holds_latest(reads: Seq<Data>, n: nat)
    requires
        n <= reads.len(),
        n == reads.len() || drain_over(reads, n).done,
    ensures
        drain_over(reads, n).kept == latest(reads),
{
    lemma_taken_is_the_fresh_run(reads);
    lemma_drain_over(reads, n);
}

} // verus!
