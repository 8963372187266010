//! The record index and the bounded, order-preserving build that produces it.
//!
//! One scan task runs per path, at most `max_workers` at a time. Each task's
//! result goes into the slot of its path, so the index comes out in path
//! order whatever order the tasks finish in, and the first failure ends the
//! build.
use crate::error::Error;
use crate::scan::FrameSpan;
use vstd::prelude::*;

verus! {

/// Where one record lies: `len` payload bytes from byte `offset` of the
/// container at position `path` in the list of paths.
#[derive(Clone, Copy, Debug, PartialEq, Eq, Structural, Hash)]
pub struct RecordLocator {
    pub path: usize,
    pub offset: u64,
    pub len: u64,
}

/// The locators of the spans found in the container at position `path`.
pub open spec fn tagged(path: usize, spans: Seq<FrameSpan>) -> Seq<RecordLocator> {
    spans.map_values(|s: FrameSpan| RecordLocator { path, offset: s.offset, len: s.len })
}

/// The index of a list of per-path scan results: each path's locators, in
/// path order, and within a path in file order.
pub open spec fn assembled(results: Seq<Seq<FrameSpan>>) -> Seq<RecordLocator>
    decreases results.len(),
{
    if results.len() == 0 {
        Seq::empty()
    } else {
        assembled(results.drop_last()) + tagged((results.len() - 1) as usize, results.last())
    }
}

/// The number of slots before `k` that hold no result yet.
pub open spec fn open_count(slots: Seq<Option<Seq<FrameSpan>>>, k: nat) -> nat
    decreases k,
{
    if k == 0 {
        0
    } else {
        open_count(slots, (k - 1) as nat) + if slots[k - 1] is None {
            1nat
        } else {
            0nat
        }
    }
}

/// The slots after each `(path, spans)` event has put `spans` into the slot
/// of `path`, in turn.
pub open spec fn fill(
    slots: Seq<Option<Seq<FrameSpan>>>,
    events: Seq<(usize, Seq<FrameSpan>)>,
) -> Seq<Option<Seq<FrameSpan>>>
    decreases events.len(),
{
    if events.len() == 0 {
        slots
    } else {
        fill(slots, events.drop_last()).update(
            events.last().0 as int,
            Some(events.last().1),
        )
    }
}

/// `n` empty slots.
pub open spec fn empty_slots(n: nat) -> Seq<Option<Seq<FrameSpan>>> {
    Seq::new(n, |i: int| None)
}

/// Whether no two events name the same path.
pub open spec fn distinct_paths(events: Seq<(usize, Seq<FrameSpan>)>) -> bool {
    forall|i: int, j: int|
        0 <= i < j < events.len() ==> #[trigger] events[i].0 != #[trigger] events[j].0
}

/// Whether every event names one of the first `n` paths.
pub open spec fn paths_below(events: Seq<(usize, Seq<FrameSpan>)>, n: nat) -> bool {
    forall|i: int| 0 <= i < events.len() ==> #[trigger] events[i].0 < n
}

/// Whether every event of `a` is one of `b`.
#[verifier::opaque]
pub open spec fn all_within(
    a: Seq<(usize, Seq<FrameSpan>)>,
    b: Seq<(usize, Seq<FrameSpan>)>,
) -> bool {
    forall|i: int| 0 <= i < a.len() ==> exists|j: int| 0 <= j < b.len() && b[j] == #[trigger] a[i]
}

/// What a slot holds, as a sequence.
pub open spec fn slot_view(o: Option<Vec<FrameSpan>>) -> Option<Seq<FrameSpan>> {
    match o {
        Some(v) => Some(v@),
        None => None,
    }
}

/// What a filled slot holds, or nothing.
pub open spec fn slot_result(o: Option<Seq<FrameSpan>>) -> Seq<FrameSpan> {
    match o {
        Some(v) => v,
        None => Seq::empty(),
    }
}

proof fn lemma_open_count_start(slots: Seq<Option<Seq<FrameSpan>>>, k: nat)
    requires
        k < slots.len(),
        slots[k as int] is None,
    ensures
        open_count(slots, k + 1) == open_count(slots, k) + 1,
{
    assert(open_count(slots, k + 1) == open_count(slots, k) + if slots[k as int] is None {
        1nat
    } else {
        0nat
    });
}

proof fn lemma_open_count_fill(
    slots: Seq<Option<Seq<FrameSpan>>>,
    p: int,
    v: Seq<FrameSpan>,
    k: nat,
)
    requires
        0 <= p < k <= slots.len(),
        slots[p] is None,
    ensures
        open_count(slots, k) >= 1,
        open_count(slots.update(p, Some(v)), k) == open_count(slots, k) - 1,
    decreases k,
{
    let t = slots.update(p, Some(v));
    if p < k - 1 {
        lemma_open_count_fill(slots, p, v, (k - 1) as nat);
        assert(t[k - 1] == slots[k - 1]);
    } else {
        lemma_open_count_same(slots, t, (k - 1) as nat);
    }
}

proof fn lemma_open_count_same(a: Seq<Option<Seq<FrameSpan>>>, b: Seq<Option<Seq<FrameSpan>>>, k: nat)
    requires
        k <= a.len(),
        k <= b.len(),
        forall|i: int| 0 <= i < k ==> (#[trigger] a[i] is None) == (b[i] is None),
    ensures
        open_count(a, k) == open_count(b, k),
    decreases k,
{
    if k > 0 {
        lemma_open_count_same(a, b, (k - 1) as nat);
    }
}

proof fn lemma_open_count_zero(slots: Seq<Option<Seq<FrameSpan>>>, k: nat)
    requires
        k <= slots.len(),
    ensures
        (open_count(slots, k) == 0) <==> (forall|i: int| 0 <= i < k ==> #[trigger] slots[i] is Some),
    decreases k,
{
    if k > 0 {
        lemma_open_count_zero(slots, (k - 1) as nat);
    }
}

/// The state of an index build: which paths have been handed to a scan
/// task, how many of those are running, and the results that have come in,
/// each in the slot of its path.
pub struct IndexBuild {
    max_workers: usize,
    next_path: usize,
    running: usize,
    slots: Vec<Option<Vec<FrameSpan>>>,
}

impl IndexBuild {
    /// The number of paths to scan.
    pub open spec fn num_paths(&self) -> nat {
        self.slots().len()
    }

    /// The most scan tasks that may run at once.
    pub closed spec fn max_workers(&self) -> nat {
        self.max_workers as nat
    }

    /// The number of paths handed out so far; they are the first ones.
    pub closed spec fn started(&self) -> nat {
        self.next_path as nat
    }

    /// The number of scan tasks handed out whose result has not come in.
    pub closed spec fn running(&self) -> nat {
        self.running as nat
    }

    /// The result of each path, where it has come in.
    pub closed spec fn slots(&self) -> Seq<Option<Seq<FrameSpan>>> {
        self.slots@.map_values(|o: Option<Vec<FrameSpan>>| slot_view(o))
    }

    /// Whether every path's result has come in.
    pub open spec fn complete(&self) -> bool {
        forall|p: int| 0 <= p < self.num_paths() ==> #[trigger] self.slots()[p] is Some
    }

    /// The per-path results, in path order.
    pub open spec fn results(&self) -> Seq<Seq<FrameSpan>> {
        self.slots().map_values(|o: Option<Seq<FrameSpan>>| slot_result(o))
    }

    /// The build's invariant.
    pub closed spec fn wf(&self) -> bool {
        &&& self.max_workers >= 1
        &&& self.running <= self.max_workers
        &&& self.next_path <= self.slots@.len()
        &&& forall|p: int|
            self.next_path <= p < self.slots@.len() ==> #[trigger] self.slots@[p] is None
        &&& self.running == open_count(self.slots(), self.next_path as nat)
    }

    /// A build over `num_paths` paths that runs at most `max_workers` scan
    /// tasks at once.
    pub fn new(num_paths: usize, max_workers: usize) -> (r: IndexBuild)
        requires
            max_workers >= 1,
        ensures
            r.wf(),
            r.num_paths() == num_paths,
            r.max_workers() == max_workers,
            r.started() == 0,
            r.running() == 0,
            r.slots() == empty_slots(num_paths as nat),
    {
        let mut slots: Vec<Option<Vec<FrameSpan>>> = Vec::new();
        let mut i: usize = 0;
        while i < num_paths
            invariant
                i <= num_paths,
                slots@.len() == i,
                forall|p: int| 0 <= p < i ==> #[trigger] slots@[p] is None,
            decreases num_paths - i,
        {
            slots.push(None);
            i = i + 1;
        }
        let r = IndexBuild { max_workers, next_path: 0, running: 0, slots };
        assert(r.slots() =~= empty_slots(num_paths as nat));
        r
    }

    /// Hands out the next path to scan, where a worker is free and a path
    /// is left.
    pub fn next_start(&mut self) -> (r: Option<usize>)
        requires
            old(self).wf(),
        ensures
            final(self).wf(),
            r == if old(self).running() < old(self).max_workers() && old(self).started()
                < old(self).num_paths() {
                Some(old(self).started() as usize)
            } else {
                None::<usize>
            },
            final(self).started() == old(self).started() + if r is Some {
                1nat
            } else {
                0nat
            },
            final(self).running() == old(self).running() + if r is Some {
                1nat
            } else {
                0nat
            },
            final(self).num_paths() == old(self).num_paths(),
            final(self).max_workers() == old(self).max_workers(),
            final(self).slots() == old(self).slots(),
    {
        if self.running < self.max_workers && self.next_path < self.slots.len() {
            let p = self.next_path;
            proof {
                lemma_open_count_start(self.slots(), p as nat);
            }
            self.next_path = p + 1;
            self.running = self.running + 1;
            Some(p)
        } else {
            None
        }
    }

    /// Takes the outcome of the scan of a path that was handed out and has
    /// not reported yet.
    ///
    /// A list of spans goes into the path's slot and frees its worker. An
    /// error ends the build: it is handed back, and nothing else changes.
    pub fn on_finished(&mut self, path: usize, result: Result<Vec<FrameSpan>, Error>) -> (r: Result<
        (),
        Error,
    >)
        requires
            old(self).wf(),
            path < old(self).started(),
            old(self).slots()[path as int] is None,
        ensures
            final(self).wf(),
            final(self).num_paths() == old(self).num_paths(),
            final(self).max_workers() == old(self).max_workers(),
            final(self).started() == old(self).started(),
            match result {
                Ok(spans) => {
                    &&& r is Ok
                    &&& final(self).slots() == old(self).slots().update(path as int, Some(spans@))
                    &&& final(self).running() == old(self).running() - 1
                },
                Err(e) => {
                    &&& r == Err::<(), Error>(e)
                    &&& final(self).slots() == old(self).slots()
                    &&& final(self).running() == old(self).running()
                },
            },
    {
        match result {
            Err(e) => Err(e),
            Ok(spans) => {
                let ghost before = self.slots();
                let ghost spans_view = spans@;
                proof {
                    lemma_open_count_fill(before, path as int, spans_view, self.next_path as nat);
                }
                self.slots.set(path, Some(spans));
                self.running = self.running - 1;
                assert(self.slots() =~= before.update(path as int, Some(spans_view)));
                Ok(())
            },
        }
    }

    /// The most scan tasks that may run at once.
    pub fn max_workers_of(&self) -> (r: usize)
        ensures
            r == self.max_workers(),
    {
        self.max_workers
    }

    /// Whether every path's result has come in.
    pub fn is_complete(&self) -> (r: bool)
        requires
            self.wf(),
        ensures
            r == self.complete(),
    {
        proof {
            lemma_open_count_zero(self.slots(), self.next_path as nat);
            if self.next_path < self.slots@.len() {
                assert(self.slots@[self.next_path as int] is None);
                assert(self.slots()[self.next_path as int] is None);
            }
            if self.next_path == self.slots@.len() && self.running == 0 {
                assert forall|p: int| 0 <= p < self.num_paths() implies #[trigger] self.slots()[p] is Some by {
                }
            }
        }
        self.next_path == self.slots.len() && self.running == 0
    }

    /// The index: each path's locators, in path order.
    pub fn finish(self) -> (r: Vec<RecordLocator>)
        requires
            self.wf(),
            self.complete(),
        ensures
            r@ == assembled(self.results()),
    {
        let ghost results = self.results();
        let mut out: Vec<RecordLocator> = Vec::new();
        let n = self.slots.len();
        let mut p: usize = 0;
        while p < n
            invariant
                n == self.slots@.len(),
                p <= n,
                results == self.results(),
                self.complete(),
                out@ == assembled(results.subrange(0, p as int)),
            decreases n - p,
        {
            assert(self.slots()[p as int] is Some);
            if let Some(spans) = &self.slots[p] {
                let ghost base = out@;
                assert(results[p as int] == spans@);
                let mut k: usize = 0;
                while k < spans.len()
                    invariant
                        k <= spans@.len(),
                        out@ == base + tagged(p, spans@.subrange(0, k as int)),
                    decreases spans@.len() - k,
                {
                    let s = spans[k];
                    out.push(RecordLocator { path: p, offset: s.offset, len: s.len });
                    assert(tagged(p, spans@.subrange(0, k + 1)) =~= tagged(
                        p,
                        spans@.subrange(0, k as int),
                    ).push(RecordLocator { path: p, offset: s.offset, len: s.len }));
                    k = k + 1;
                }
                assert(spans@.subrange(0, k as int) =~= spans@);
                let ghost next = results.subrange(0, p + 1);
                assert(next.drop_last() =~= results.subrange(0, p as int));
            }
            p = p + 1;
        }
        assert(results.subrange(0, n as int) =~= results);
        out
    }
}

proof fn lemma_fill_slot(s: Seq<Option<Seq<FrameSpan>>>, events: Seq<(usize, Seq<FrameSpan>)>)
    requires
        distinct_paths(events),
        paths_below(events, s.len()),
    ensures
        fill(s, events).len() == s.len(),
        forall|i: int|
            0 <= i < events.len() ==> fill(s, events)[events[i].0 as int]
                == Some(#[trigger] events[i].1),
        forall|p: int|
            0 <= p < s.len() && (forall|i: int| 0 <= i < events.len() ==> #[trigger] events[i].0 != p)
                ==> #[trigger] fill(s, events)[p] == s[p],
    decreases events.len(),
{
    if events.len() > 0 {
        let prefix = events.drop_last();
        let k = events.len() - 1;
        let last = events[k];
        assert(distinct_paths(prefix)) by {
            assert forall|i: int, j: int| 0 <= i < j < prefix.len() implies #[trigger] prefix[i].0
                != #[trigger] prefix[j].0 by {
                assert(prefix[i] == events[i] && prefix[j] == events[j]);
            }
        }
        assert(paths_below(prefix, s.len())) by {
            assert forall|i: int| 0 <= i < prefix.len() implies #[trigger] prefix[i].0 < s.len() by {
                assert(prefix[i] == events[i]);
            }
        }
        lemma_fill_slot(s, prefix);
        let before = fill(s, prefix);
        assert(fill(s, events) == before.update(last.0 as int, Some(last.1)));
        assert forall|i: int|
            0 <= i < events.len() implies fill(
                s,
                events,
            )[events[i].0 as int] == Some(#[trigger] events[i].1) by {
            if i < k {
                assert(prefix[i] == events[i]);
                assert(events[i].0 != events[k].0);
                assert(before[prefix[i].0 as int] == Some(prefix[i].1));
            }
        }
        assert forall|p: int|
            0 <= p < s.len() && (forall|i: int| 0 <= i < events.len() ==> #[trigger] events[i].0 != p)
                implies #[trigger] fill(s, events)[p] == s[p] by {
            assert(events[k].0 != p);
            assert forall|i: int| 0 <= i < prefix.len() implies #[trigger] prefix[i].0 != p by {
                assert(prefix[i] == events[i]);
            }
            assert(before[p] == s[p]);
        }
    }
}

proof fn lemma_within(
    a: Seq<(usize, Seq<FrameSpan>)>,
    b: Seq<(usize, Seq<FrameSpan>)>,
    i: int,
) -> (j: int)
    requires
        all_within(a, b),
        0 <= i < a.len(),
    ensures
        0 <= j < b.len(),
        b[j] == a[i],
{
    reveal(all_within);
    choose|j: int| 0 <= j < b.len() && b[j] == a[i]
}

proof fn lemma_same_slot(
    s: Seq<Option<Seq<FrameSpan>>>,
    a: Seq<(usize, Seq<FrameSpan>)>,
    b: Seq<(usize, Seq<FrameSpan>)>,
    p: int,
)
    requires
        0 <= p < s.len(),
        distinct_paths(a),
        distinct_paths(b),
        paths_below(a, s.len()),
        paths_below(b, s.len()),
        all_within(a, b),
        all_within(b, a),
    ensures
        fill(s, a)[p] == fill(s, b)[p],
{
    lemma_fill_slot(s, a);
    lemma_fill_slot(s, b);
    if exists|i: int| 0 <= i < a.len() && #[trigger] a[i].0 == p {
        let i = choose|i: int| 0 <= i < a.len() && #[trigger] a[i].0 == p;
        let j = lemma_within(a, b, i);
        assert(fill(s, a)[a[i].0 as int] == Some(a[i].1));
        assert(fill(s, b)[b[j].0 as int] == Some(b[j].1));
    } else {
        assert forall|j: int| 0 <= j < b.len() implies #[trigger] b[j].0 != p by {
            let i = lemma_within(b, a, j);
            assert(a[i].0 != p);
        }
        assert(fill(s, a)[p] == s[p]);
        assert(fill(s, b)[p] == s[p]);
    }
}

/// Completion order never affects the index: two runs in which the same
/// per-path results arrive in different orders fill the same slots, and so
/// assemble the same index.
pub proof fn lemma_completion_order_irrelevant(
    n: nat,
    a: Seq<(usize, Seq<FrameSpan>)>,
    b: Seq<(usize, Seq<FrameSpan>)>,
)
    requires
        distinct_paths(a),
        distinct_paths(b),
        paths_below(a, n),
        paths_below(b, n),
        all_within(a, b),
        all_within(b, a),
    ensures
        fill(empty_slots(n), a) == fill(empty_slots(n), b),
{
    let s = empty_slots(n);
    lemma_fill_slot(s, a);
    lemma_fill_slot(s, b);
    assert forall|p: int| 0 <= p < n implies #[trigger] fill(s, a)[p] == fill(s, b)[p] by {
        lemma_same_slot(s, a, b, p);
    }
    assert(fill(s, a) =~= fill(s, b));
}

} // verus!
