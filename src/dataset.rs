//! The dataset: a shared index and open-file limiter, and per handle a cache
//! of the one file that the handle has open.
use crate::index::{assembled, tagged, IndexBuild, RecordLocator};
use std::sync::Arc;
use tokio::sync::Semaphore;
use vstd::prelude::*;

verus! {

#[verifier::external_type_specification]
#[verifier::external_body]
pub struct ExSemaphore(tokio::sync::Semaphore);

/// The most permits that a limiter can be made with.
pub const MAX_OPEN_FILES: usize = usize::MAX >> 3;

/// The number of permits that a limiter was created with.
pub uninterp spec fn permits_of(s: Semaphore) -> nat;

/// The bound that an optional limiter sets: its permits, or none.
pub open spec fn bound_of(limiter: Option<Arc<Semaphore>>) -> Option<nat> {
    match limiter {
        Some(s) => Some(permits_of(*s)),
        None => None,
    }
}

/// Relies on tokio's `Semaphore::new`, which creates a semaphore with the
/// given number of permits and panics above `Semaphore::MAX_PERMITS`, that
/// is `usize::MAX >> 3`.
#[verifier::external_body]
fn new_limiter(permits: usize) -> (r: Arc<Semaphore>)
    requires
        permits <= MAX_OPEN_FILES,
    ensures
        permits_of(*r) == permits,
{
    Arc::new(Semaphore::new(permits))
}

/// Relies on `Arc::clone`: the new pointer points to the same value.
#[verifier::external_body]
fn share<T>(a: &Arc<T>) -> (r: Arc<T>)
    ensures
        *r == **a,
{
    Arc::clone(a)
}

/// Relies on num_cpus::get: the number of logical CPUs available to this
/// process, which it documents to be at least one.
#[verifier::external_body]
fn available_cpus() -> (r: usize)
    ensures
        r >= 1,
{
    num_cpus::get()
}

/// How to build a dataset.
#[derive(Clone, Debug, PartialEq, Eq, Hash)]
pub struct DatasetInit {
    /// Whether frame checksums are compared while the index is built.
    pub check_integrity: bool,
    /// The most files open at once, by the build and by every handle
    /// together; none for no bound.
    pub max_open_files: Option<usize>,
    /// The most files scanned at once while the index is built; none for the
    /// number of available CPUs.
    pub max_workers: Option<usize>,
}

impl Default for DatasetInit {
    fn default() -> (r: DatasetInit)
        ensures
            r.check_integrity,
            r.max_open_files is None,
            r.max_workers is None,
    {
        DatasetInit { check_integrity: true, max_open_files: None, max_workers: None }
    }
}

impl DatasetInit {
    /// Whether the bounds that are given are positive, and the open-file
    /// bound no larger than a limiter can hold.
    pub open spec fn valid(&self) -> bool {
        &&& self.max_open_files matches Some(n) ==> 1 <= n <= MAX_OPEN_FILES
        &&& self.max_workers matches Some(n) ==> n >= 1
    }

    /// The number of scan tasks that may run at once.
    pub fn worker_limit(&self) -> (r: usize)
        requires
            self.valid(),
        ensures
            r >= 1,
            self.max_workers matches Some(n) ==> r == n,
    {
        match self.max_workers {
            Some(n) => n,
            None => available_cpus(),
        }
    }

    /// An index build over `num_paths` paths, bounded by `worker_limit`.
    pub fn indexer(&self, num_paths: usize) -> (r: IndexBuild)
        requires
            self.valid(),
        ensures
            r.wf(),
            r.num_paths() == num_paths,
            r.started() == 0,
            r.running() == 0,
            r.max_workers() >= 1,
            self.max_workers matches Some(n) ==> r.max_workers() == n,
    {
        IndexBuild::new(num_paths, self.worker_limit())
    }

    /// The open-file limiter that the build and every handle share: one
    /// with `max_open_files` permits, or none where no bound is given.
    pub fn open_file_limiter(&self) -> (r: Option<Arc<Semaphore>>)
        requires
            self.valid(),
        ensures
            bound_of(r) == match self.max_open_files {
                Some(n) => Some(n as nat),
                None => None::<nat>,
            },
    {
        match self.max_open_files {
            Some(n) => Some(new_limiter(n)),
            None => None,
        }
    }
}

/// What all handles of one dataset share.
#[derive(Debug)]
struct DatasetState {
    paths: Vec<String>,
    record_indexes: Vec<RecordLocator>,
    max_workers: usize,
    open_file_semaphore: Option<Arc<Semaphore>>,
}

/// Whether every locator names one of the first `n` paths.
pub open spec fn locators_within(index: Seq<RecordLocator>, n: nat) -> bool {
    forall|i: int| 0 <= i < index.len() ==> #[trigger] index[i].path < n
}

proof fn lemma_assembled_paths(results: Seq<Seq<crate::scan::FrameSpan>>)
    ensures
        locators_within(assembled(results), results.len()),
    decreases results.len(),
{
    if results.len() > 0 {
        let rest = results.drop_last();
        lemma_assembled_paths(rest);
        let a = assembled(rest);
        let t = tagged((results.len() - 1) as usize, results.last());
        assert forall|i: int| 0 <= i < (a + t).len() implies #[trigger] (a + t)[i].path
            < results.len() by {
            if i >= a.len() {
                assert((a + t)[i] == t[i - a.len()]);
            }
        }
    }
}

/// A handle on a dataset: the shared index and limiter, and the one file
/// that this handle has open, if any.
#[derive(Debug)]
pub struct Dataset {
    state: Arc<DatasetState>,
    open_file: Option<usize>,
}

impl Dataset {
    /// The record index, in path order and within a path in file order.
    pub closed spec fn index(&self) -> Seq<RecordLocator> {
        self.state.record_indexes@
    }

    /// The container paths.
    pub closed spec fn paths(&self) -> Seq<Seq<char>> {
        self.state.paths@.map_values(|p: String| p@)
    }

    /// The most files that may be open at once, where there is a bound.
    pub closed spec fn open_file_bound(&self) -> Option<nat> {
        bound_of(self.state.open_file_semaphore)
    }

    /// The number of scan tasks that the build ran at once at most.
    pub closed spec fn workers(&self) -> nat {
        self.state.max_workers as nat
    }

    /// The position of the path whose file this handle holds open.
    pub closed spec fn open_file(&self) -> Option<usize> {
        self.open_file
    }

    /// The handle's invariant.
    pub closed spec fn wf(&self) -> bool {
        &&& locators_within(self.state.record_indexes@, self.state.paths@.len())
        &&& self.open_file matches Some(p) ==> p < self.state.paths@.len()
    }

    /// Whether two handles share one index, one path list and one limiter.
    pub open spec fn same_dataset(&self, other: &Dataset) -> bool {
        &&& self.index() == other.index()
        &&& self.paths() == other.paths()
        &&& self.open_file_bound() == other.open_file_bound()
        &&& self.workers() == other.workers()
    }

    /// A handle on the index that a complete build assembled over `paths`,
    /// with the limiter that the build ran under. It holds no file open.
    pub fn new(paths: Vec<String>, build: IndexBuild, limiter: Option<Arc<Semaphore>>) -> (r:
        Dataset)
        requires
            build.wf(),
            build.complete(),
            build.num_paths() == paths@.len(),
        ensures
            r.wf(),
            r.index() == assembled(build.results()),
            r.paths() == paths@.map_values(|p: String| p@),
            r.open_file_bound() == bound_of(limiter),
            r.workers() == build.max_workers(),
            r.open_file() is None,
    {
        let ghost results = build.results();
        proof {
            lemma_assembled_paths(results);
        }
        let max_workers = build.max_workers_of();
        let record_indexes = build.finish();
        Dataset {
            state: Arc::new(
                DatasetState { paths, record_indexes, max_workers, open_file_semaphore: limiter },
            ),
            open_file: None,
        }
    }

    /// The number of records.
    pub fn num_records(&self) -> (r: usize)
        ensures
            r == self.index().len(),
    {
        self.state.record_indexes.len()
    }

    /// Where record `index` lies: none at or past the number of records.
    pub fn locate(&self, index: usize) -> (r: Option<RecordLocator>)
        ensures
            r == if index < self.index().len() {
                Some(self.index()[index as int])
            } else {
                None::<RecordLocator>
            },
            self.wf() ==> (r matches Some(l) ==> l.path < self.paths().len()),
    {
        if index < self.state.record_indexes.len() {
            Some(self.state.record_indexes[index])
        } else {
            None
        }
    }

    /// The number of paths.
    pub fn num_paths(&self) -> (r: usize)
        ensures
            r == self.paths().len(),
    {
        self.state.paths.len()
    }

    /// The path at position `path`.
    pub fn path(&self, path: usize) -> (r: &String)
        requires
            path < self.paths().len(),
        ensures
            r@ == self.paths()[path as int],
    {
        &self.state.paths[path]
    }

    /// The number of scan tasks that the build ran at once at most.
    pub fn max_workers(&self) -> (r: usize)
        ensures
            r == self.workers(),
    {
        self.state.max_workers
    }

    /// The shared open-file limiter, where there is one.
    pub fn open_file_limiter(&self) -> (r: Option<Arc<Semaphore>>)
        ensures
            bound_of(r) == self.open_file_bound(),
    {
        match &self.state.open_file_semaphore {
            Some(s) => Some(share(s)),
            None => None,
        }
    }

    /// The position of the path whose file this handle holds open.
    pub fn cached_path(&self) -> (r: Option<usize>)
        ensures
            r == self.open_file(),
    {
        self.open_file
    }

    /// Decides how to serve a read from the file at position `path`.
    ///
    /// Where that file is the one held open, it is reused: `true`, and
    /// nothing changes. Otherwise the file held open, if any, is let go
    /// before anything else happens, with its permit: `false`, and the
    /// caller opens the file and reports it with `file_opened`.
    pub fn reuse_or_release(&mut self, path: usize) -> (reused: bool)
        requires
            old(self).wf(),
        ensures
            final(self).wf(),
            final(self).same_dataset(old(self)),
            reused == (old(self).open_file() == Some(path)),
            final(self).open_file() == if reused {
                old(self).open_file()
            } else {
                None::<usize>
            },
    {
        match self.open_file {
            Some(p) => {
                if p == path {
                    return true;
                }
            },
            None => {},
        }
        self.open_file = None;
        false
    }

    /// Records that this handle now holds open the file at position `path`.
    pub fn file_opened(&mut self, path: usize)
        requires
            old(self).wf(),
            old(self).open_file() is None,
            path < old(self).paths().len(),
        ensures
            final(self).wf(),
            final(self).same_dataset(old(self)),
            final(self).open_file() == Some(path),
    {
        self.open_file = Some(path);
    }

    /// A stream over the records, from the first, on a handle of its own.
    pub fn stream(&self) -> (r: RecordStream)
        requires
            self.wf(),
        ensures
            r.wf(),
            r.handle().same_dataset(self),
            r.handle().open_file() is None,
            r.position() == 0,
    {
        RecordStream { dataset: self.clone(), position: 0 }
    }
}

impl Clone for Dataset {
    /// A handle on the same dataset that holds no file open, whatever this
    /// one holds.
    fn clone(&self) -> (r: Dataset)
        ensures
            r.same_dataset(self),
            r.open_file() is None,
            self.wf() ==> r.wf(),
    {
        Dataset { state: share(&self.state), open_file: None }
    }
}

/// The records of a dataset, one after another, read through a handle of
/// the stream's own.
pub struct RecordStream {
    dataset: Dataset,
    position: usize,
}

/// What a stream at `position` over `index` yields from there on.
pub open spec fn remaining(index: Seq<RecordLocator>, position: nat) -> Seq<RecordLocator>
    decreases index.len() - position,
{
    if position < index.len() {
        seq![index[position as int]] + remaining(index, position + 1)
    } else {
        Seq::empty()
    }
}

impl RecordStream {
    /// The handle that the stream reads through.
    pub closed spec fn handle(&self) -> Dataset {
        self.dataset
    }

    /// The position of the next record.
    pub closed spec fn position(&self) -> nat {
        self.position as nat
    }

    /// The stream's invariant.
    pub closed spec fn wf(&self) -> bool {
        self.dataset.wf()
    }

    /// The next record's locator, the stream then moving past it; none once
    /// the records are exhausted, the stream then staying where it is.
    pub fn next_locator(&mut self) -> (r: Option<RecordLocator>)
        requires
            old(self).wf(),
        ensures
            final(self).wf(),
            final(self).handle() == old(self).handle(),
            r == old(self).handle().locate_spec(old(self).position()),
            r matches Some(l) ==> l.path < final(self).handle().paths().len(),
            final(self).position() == old(self).position() + if r is Some {
                1nat
            } else {
                0nat
            },
            remaining(old(self).handle().index(), old(self).position()) == match r {
                Some(loc) => seq![loc] + remaining(final(self).handle().index(), final(self).position()),
                None => Seq::<RecordLocator>::empty(),
            },
    {
        if self.position < self.dataset.num_records() {
            let r = self.dataset.locate(self.position);
            self.position = self.position + 1;
            r
        } else {
            None
        }
    }

    /// The handle that the stream reads through, to serve the read of the
    /// record that `next_locator` gave.
    pub fn handle_mut(&mut self) -> (r: &mut Dataset)
        ensures
            *r == old(self).handle(),
            final(self).handle() == *final(r),
            final(self).position() == old(self).position(),
    {
        &mut self.dataset
    }
}

impl Dataset {
    /// What `locate` returns for `index`.
    pub open spec fn locate_spec(&self, index: nat) -> Option<RecordLocator> {
        if index < self.index().len() {
            Some(self.index()[index as int])
        } else {
            None
        }
    }
}

/// Run to exhaustion, a fresh stream yields exactly the records of the
/// index, each as `locate` gives it, in index order.
pub proof fn lemma_stream_yields_index(d: Dataset)
    ensures
        remaining(d.index(), 0).len() == d.index().len(),
        forall|i: int|
            0 <= i < d.index().len() ==> Some(#[trigger] remaining(d.index(), 0)[i])
                == d.locate_spec(i as nat),
{
    lemma_remaining(d.index(), 0);
}

/// Handles on one dataset serve the same record at every position, whichever
/// file each of them holds open: a clone and the handle it was made from
/// locate every record alike.
pub proof fn lemma_clones_agree(d: Dataset, c: Dataset, index: nat)
    requires
        c.same_dataset(&d),
    ensures
        c.locate_spec(index) == d.locate_spec(index),
{
}

proof fn lemma_remaining(index: Seq<RecordLocator>, position: nat)
    requires
        position <= index.len(),
    ensures
        remaining(index, position) == index.subrange(position as int, index.len() as int),
    decreases index.len() - position,
{
    if position < index.len() {
        lemma_remaining(index, position + 1);
        assert(seq![index[position as int]] + index.subrange(position as int + 1, index.len() as int)
            =~= index.subrange(position as int, index.len() as int));
    } else {
        assert(index.subrange(position as int, index.len() as int) =~= Seq::<RecordLocator>::empty());
    }
}

} // verus!
