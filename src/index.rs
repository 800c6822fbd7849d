use vstd::prelude::*;
use vstd::string::StringSliceAdditionalSpecFns;

use crate::error::{check_error, native_result, AnnoyError, NativeStatus, Operation};
use crate::lifecycle::{accepts_items, queryable, State};
use crate::results::{check_path, path_ok};

verus! {

/// The largest value of the native engine's `int`: the bound on dimensions
/// and item identifiers that cross the boundary.
pub const NATIVE_INT_MAX: u32 = 0x7fff_ffff;

/// The abstract state of an index.
pub struct IndexView {
    /// The length of every vector of the index.
    pub dimension: nat,
    /// Where the index stands in its life.
    pub state: State,
    /// Whether the trees are to be built inside a file named before insertion.
    pub on_disk: bool,
    /// The number of item slots: one more than the largest identifier inserted
    /// (or the count that the engine reported for a loaded file).
    pub n_items: nat,
}

/// The lifecycle of one angular approximate-nearest-neighbour index. It
/// decides which operations are admitted, checks their arguments before they
/// reach the native engine, and turns what the engine reports into the next
/// state or an error.
pub struct AnnoyAngular {
    dimension: usize,
    state: State,
    on_disk: bool,
    n_items: u32,
}

impl View for AnnoyAngular {
    type V = IndexView;

    closed spec fn view(&self) -> IndexView {
        IndexView {
            dimension: self.dimension as nat,
            state: self.state,
            on_disk: self.on_disk,
            n_items: self.n_items as nat,
        }
    }
}

/// The state a freshly constructed index of dimension `d` is in.
pub open spec fn fresh(d: nat) -> IndexView {
    IndexView { dimension: d, state: State::Empty, on_disk: false, n_items: 0 }
}

/// What every index satisfies.
pub open spec fn wf(v: IndexView) -> bool {
    &&& 0 < v.dimension <= NATIVE_INT_MAX
    &&& v.n_items <= u32::MAX
    &&& v.state == State::Empty ==> v.n_items == 0
    &&& v.state == State::Accumulating ==> v.n_items <= NATIVE_INT_MAX + 1
    &&& v.on_disk ==> (v.state == State::Empty || v.state == State::Accumulating || v.state
        == State::Built)
}

/// Whether `item` names one of the index's item slots.
pub open spec fn in_range(v: IndexView, item: u32) -> bool {
    item < v.n_items
}

/// The check that precedes an insertion of `item` with a vector of `len`
/// entries: the length first, then the state, then the identifier.
pub open spec fn add_item_check(v: IndexView, item: u32, len: nat) -> Result<(), AnnoyError> {
    if len != v.dimension {
        Err(AnnoyError::DimensionMismatch {
            operation: Operation::AddItem,
            expected: v.dimension as usize,
            actual: len as usize,
        })
    } else if !accepts_items(v.state) {
        Err(AnnoyError::IllegalState { operation: Operation::AddItem, state: v.state })
    } else if item > NATIVE_INT_MAX {
        Err(AnnoyError::InvalidItem { item })
    } else {
        Ok(())
    }
}

/// The state after `item` was inserted.
pub open spec fn after_add(v: IndexView, item: u32) -> IndexView {
    IndexView {
        state: State::Accumulating,
        n_items: if item + 1 > v.n_items { (item + 1) as nat } else { v.n_items },
        ..v
    }
}

/// The check that precedes an operation admitted in `allowed` states only.
pub open spec fn state_check(v: IndexView, op: Operation, allowed: bool) -> Result<(), AnnoyError> {
    if allowed {
        Ok(())
    } else {
        Err(AnnoyError::IllegalState { operation: op, state: v.state })
    }
}

/// The check that precedes an operation on a file: the state, then the path.
pub open spec fn file_check(v: IndexView, op: Operation, allowed: bool, path: Seq<u8>) -> Result<
    (),
    AnnoyError,
> {
    if !allowed {
        Err(AnnoyError::IllegalState { operation: op, state: v.state })
    } else if !path_ok(path) {
        Err(AnnoyError::InvalidPath { operation: op })
    } else {
        Ok(())
    }
}

/// Where `check` passes, what the native call reported; else the check's error.
pub open spec fn then_native(
    check: Result<(), AnnoyError>,
    op: Operation,
    status: NativeStatus,
) -> Result<(), AnnoyError> {
    match check {
        Err(e) => Err(e),
        Ok(_) => native_result(op, status),
    }
}

/// The check that precedes a query by vector of `len` entries.
pub open spec fn vector_query_check(v: IndexView, len: nat) -> Result<(), AnnoyError> {
    if len != v.dimension {
        Err(AnnoyError::DimensionMismatch {
            operation: Operation::NearestByVector,
            expected: v.dimension as usize,
            actual: len as usize,
        })
    } else {
        state_check(v, Operation::NearestByVector, queryable(v.state))
    }
}

/// The check that precedes a query that reads the item slot `item`.
pub open spec fn item_check(v: IndexView, op: Operation, item: u32) -> Result<(), AnnoyError> {
    if !queryable(v.state) {
        Err(AnnoyError::IllegalState { operation: op, state: v.state })
    } else if !in_range(v, item) {
        Err(AnnoyError::ItemOutOfRange { operation: op, item, n_items: v.n_items as u32 })
    } else {
        Ok(())
    }
}

/// The state after inserting `ids`, in order, each insertion admitted.
pub open spec fn after_adds(v: IndexView, ids: Seq<u32>) -> IndexView
    decreases ids.len(),
{
    if ids.len() == 0 {
        v
    } else {
        after_add(after_adds(v, ids.drop_last()), ids.last())
    }
}

/// The identifiers `0, 1, ..., n - 1`.
pub open spec fn first_ids(n: nat) -> Set<u32> {
    Set::new(|k: u32| (k as nat) < n)
}

proof fn lemma_first_ids_len(n: nat)
    requires
        n <= u32::MAX + 1,
    ensures
        first_ids(n).finite(),
        first_ids(n).len() == n,
    decreases n,
{
    if n == 0 {
        assert(first_ids(0) =~= Set::<u32>::empty());
    } else {
        let m = (n - 1) as nat;
        lemma_first_ids_len(m);
        assert(first_ids(n) =~= first_ids(m).insert(m as u32));
        assert(!first_ids(m).contains(m as u32));
    }
}

proof fn lemma_after_adds(d: nat, ids: Seq<u32>)
    requires
        0 < d <= NATIVE_INT_MAX,
        forall|i: int| 0 <= i < ids.len() ==> ids[i] <= NATIVE_INT_MAX,
    ensures
        after_adds(fresh(d), ids).dimension == d,
        !after_adds(fresh(d), ids).on_disk,
        after_adds(fresh(d), ids).n_items <= NATIVE_INT_MAX + 1,
        ids.len() > 0 ==> after_adds(fresh(d), ids).state == State::Accumulating,
        ids.len() == 0 ==> after_adds(fresh(d), ids).n_items == 0,
        forall|i: int| 0 <= i < ids.len() ==> ids[i] < after_adds(fresh(d), ids).n_items,
        ids.len() > 0 ==> exists|i: int|
            0 <= i < ids.len() && ids[i] + 1 == after_adds(fresh(d), ids).n_items,
    decreases ids.len(),
{
    if ids.len() > 0 {
        let prefix = ids.drop_last();
        lemma_after_adds(d, prefix);
        let n = after_adds(fresh(d), ids).n_items;
        let last = ids.len() - 1;
        assert forall|i: int| 0 <= i < ids.len() implies ids[i] < n by {
            if i < last {
                assert(prefix[i] == ids[i]);
            }
        }
        if ids.last() + 1 == n {
            assert(ids[last] + 1 == n);
        } else if prefix.len() > 0 {
            let i = choose|i: int| 0 <= i < prefix.len() && prefix[i] + 1 == after_adds(fresh(d), prefix).n_items;
            assert(ids[i] + 1 == n);
        }
    }
}

/// Item count after a build: once identifiers `ids` are inserted into a fresh
/// index and the index is built, the item count is one more than the largest
/// identifier inserted, so sparse identifiers count every slot up to it. It
/// equals the number of distinct identifiers inserted exactly where they are
/// dense, every identifier below the count inserted.
pub proof fn lemma_item_count_after_build(d: nat, ids: Seq<u32>)
    requires
        0 < d <= NATIVE_INT_MAX,
        ids.len() > 0,
        forall|i: int| 0 <= i < ids.len() ==> ids[i] <= NATIVE_INT_MAX,
    ensures
        ({
            let built = IndexView { state: State::Built, ..after_adds(fresh(d), ids) };
            &&& wf(built)
            &&& forall|i: int| 0 <= i < ids.len() ==> ids[i] < built.n_items
            &&& exists|i: int| 0 <= i < ids.len() && ids[i] + 1 == built.n_items
            &&& (first_ids(built.n_items) <= ids.to_set() <==> ids.to_set().len() == built.n_items)
        }),
{
    lemma_after_adds(d, ids);
    let n = after_adds(fresh(d), ids).n_items;
    let s = ids.to_set();
    lemma_first_ids_len(n);
    assert(s <= first_ids(n)) by {
        assert forall|k: u32| s.contains(k) implies first_ids(n).contains(k) by {
            let i = choose|i: int| 0 <= i < ids.len() && ids[i] == k;
        }
    }
    vstd::set_lib::lemma_len_subset(s, first_ids(n));
    if first_ids(n) <= s {
        assert(s =~= first_ids(n));
    }
    if s.len() == n && !(first_ids(n) <= s) {
        let k = choose|k: u32| first_ids(n).contains(k) && !s.contains(k);
        vstd::set_lib::lemma_len_subset(s, first_ids(n).remove(k));
    }
}

/// A failed load can be retried: where the native load into an empty index
/// reports failure, the load returns that failure (the unknown error where the
/// engine left no message), the index stays as it was, and a load of the same
/// path is admitted again.
pub proof fn lemma_failed_load_retryable(v: IndexView, path: Seq<u8>, status: NativeStatus)
    requires
        wf(v),
        v.state == State::Empty,
        path_ok(path),
        !status.success,
    ensures
        then_native(file_check(v, Operation::Load, v.state == State::Empty, path), Operation::Load, status)
            == Err::<(), AnnoyError>(crate::error::native_failure(Operation::Load, status.message)),
        file_check(v, Operation::Load, v.state == State::Empty, path) == Ok::<(), AnnoyError>(()),
{
}

proof fn lemma_after_adds_on_disk(d: nat, ids: Seq<u32>)
    ensures
        after_adds(IndexView { on_disk: true, ..fresh(d) }, ids) == (IndexView {
            on_disk: true,
            ..after_adds(fresh(d), ids)
        }),
    decreases ids.len(),
{
    if ids.len() > 0 {
        lemma_after_adds_on_disk(d, ids.drop_last());
    }
}

/// The build into a file reaches what the build in memory reaches: inserting
/// `ids` into an index redirected to a file and building it gives the state
/// and item count of the same insertions and build in memory, and differs
/// from it only in being backed by the file.
pub proof fn lemma_on_disk_build_matches_memory(d: nat, ids: Seq<u32>)
    requires
        0 < d <= NATIVE_INT_MAX,
        ids.len() > 0,
        forall|i: int| 0 <= i < ids.len() ==> ids[i] <= NATIVE_INT_MAX,
    ensures
        ({
            let on_disk = IndexView { on_disk: true, ..fresh(d) };
            let in_file = IndexView { state: State::Built, ..after_adds(on_disk, ids) };
            let in_memory = IndexView { state: State::Built, ..after_adds(fresh(d), ids) };
            &&& wf(in_file)
            &&& in_file.on_disk
            &&& in_file == (IndexView { on_disk: true, ..in_memory })
        }),
{
    lemma_after_adds(d, ids);
    lemma_after_adds_on_disk(d, ids);
}

/// Every inserted item is readable after the build: once identifiers `ids`
/// are inserted into a fresh index and the index is built, a read of the
/// vector of any of them, a query by it and the distance between any two of
/// them are admitted and handed to the engine.
pub proof fn lemma_inserted_items_readable(d: nat, ids: Seq<u32>, i: int, j: int)
    requires
        0 < d <= NATIVE_INT_MAX,
        forall|k: int| 0 <= k < ids.len() ==> ids[k] <= NATIVE_INT_MAX,
        0 <= i < ids.len(),
        0 <= j < ids.len(),
    ensures
        ({
            let built = IndexView { state: State::Built, ..after_adds(fresh(d), ids) };
            &&& item_check(built, Operation::ItemVector, ids[i]) == Ok::<(), AnnoyError>(())
            &&& item_check(built, Operation::NearestByItem, ids[i]) == Ok::<(), AnnoyError>(())
            &&& item_check(built, Operation::Distance, ids[i]) == Ok::<(), AnnoyError>(())
            &&& item_check(built, Operation::Distance, ids[j]) == Ok::<(), AnnoyError>(())
        }),
{
    lemma_after_adds(d, ids);
}

impl AnnoyAngular {
    /// A new, empty index for vectors of `dimension` entries.
    pub fn new(dimension: usize) -> (r: AnnoyAngular)
        requires
            0 < dimension <= NATIVE_INT_MAX,
        ensures
            r@ == fresh(dimension as nat),
            wf(r@),
    {
        AnnoyAngular { dimension, state: State::Empty, on_disk: false, n_items: 0 }
    }

    /// The length of the index's vectors.
    pub fn dimension(&self) -> (r: usize)
        ensures
            r == self@.dimension,
    {
        self.dimension
    }

    /// Where the index stands in its life.
    pub fn state(&self) -> (r: State)
        ensures
            r == self@.state,
    {
        self.state
    }

    /// Whether the trees are to be built inside a file.
    pub fn is_on_disk(&self) -> (r: bool)
        ensures
            r == self@.on_disk,
    {
        self.on_disk
    }

    /// The number of item slots the index holds: one more than the largest
    /// identifier inserted, so sparse identifiers count every slot up to it.
    pub fn n_items(&self) -> (r: u32)
        ensures
            r == self@.n_items,
    {
        self.n_items
    }

    /// Checks an insertion of `item` with `vector` before it reaches the
    /// native engine.
    pub fn prepare_add_item<T>(&self, item: u32, vector: &[T]) -> (r: Result<(), AnnoyError>)
        requires
            wf(self@),
        ensures
            r == add_item_check(self@, item, vector@.len()),
    {
        if vector.len() != self.dimension {
            return Err(
                AnnoyError::DimensionMismatch {
                    operation: Operation::AddItem,
                    expected: self.dimension,
                    actual: vector.len(),
                },
            );
        }
        if !self.state.accepts_items() {
            return Err(AnnoyError::IllegalState { operation: Operation::AddItem, state: self.state });
        }
        if item > NATIVE_INT_MAX {
            return Err(AnnoyError::InvalidItem { item });
        }
        Ok(())
    }

    /// Records the insertion of `item` with `vector`, where `status` is what
    /// the native insertion reported. A vector of the wrong length, an index
    /// past insertion, or a failed native call leave the index as it was.
    pub fn add_item<T>(&mut self, item: u32, vector: &[T], status: NativeStatus) -> (r: Result<
        (),
        AnnoyError,
    >)
        requires
            wf(old(self)@),
        ensures
            wf(final(self)@),
            r == then_native(add_item_check(old(self)@, item, vector@.len()), Operation::AddItem, status),
            r is Ok ==> final(self)@ == after_add(old(self)@, item),
            r is Err ==> final(self)@ == old(self)@,
            vector@.len() != old(self)@.dimension ==> r == Err::<(), AnnoyError>(
                AnnoyError::DimensionMismatch {
                    operation: Operation::AddItem,
                    expected: old(self)@.dimension as usize,
                    actual: vector@.len() as usize,
                },
            ),
    {
        self.prepare_add_item(item, vector)?;
        check_error(Operation::AddItem, status)?;
        self.state = State::Accumulating;
        if item + 1 > self.n_items {
            self.n_items = item + 1;
        }
        Ok(())
    }

    /// Checks a build before it reaches the native engine: only an index
    /// with items inserted and not yet built can build.
    pub fn prepare_build(&self) -> (r: Result<(), AnnoyError>)
        ensures
            r == state_check(self@, Operation::Build, self@.state == State::Accumulating),
    {
        if self.state == State::Accumulating {
            Ok(())
        } else {
            Err(AnnoyError::IllegalState { operation: Operation::Build, state: self.state })
        }
    }

    /// Records a build of the forest, where `status` is what the native build
    /// reported. After it, no item can be inserted.
    pub fn build(&mut self, status: NativeStatus) -> (r: Result<(), AnnoyError>)
        requires
            wf(old(self)@),
        ensures
            wf(final(self)@),
            r == then_native(
                state_check(old(self)@, Operation::Build, old(self)@.state == State::Accumulating),
                Operation::Build,
                status,
            ),
            r is Ok ==> final(self)@ == (IndexView { state: State::Built, ..old(self)@ }),
            r is Err ==> final(self)@ == old(self)@,
    {
        self.prepare_build()?;
        check_error(Operation::Build, status)?;
        self.state = State::Built;
        Ok(())
    }

    /// Checks a save to `path` before it reaches the native engine.
    pub fn prepare_save(&self, path: &str) -> (r: Result<(), AnnoyError>)
        ensures
            r == file_check(self@, Operation::Save, self@.state == State::Built, path.spec_bytes()),
    {
        if self.state != State::Built {
            return Err(AnnoyError::IllegalState { operation: Operation::Save, state: self.state });
        }
        check_path(Operation::Save, path)
    }

    /// Records a save of the built index to `path`, where `status` is what the
    /// native save reported; the index is then served from that file.
    pub fn save(&mut self, path: &str, status: NativeStatus) -> (r: Result<(), AnnoyError>)
        requires
            wf(old(self)@),
        ensures
            wf(final(self)@),
            r == then_native(
                file_check(
                    old(self)@,
                    Operation::Save,
                    old(self)@.state == State::Built,
                    path.spec_bytes(),
                ),
                Operation::Save,
                status,
            ),
            r is Ok ==> final(self)@ == (IndexView {
                state: State::Persisted,
                on_disk: false,
                ..old(self)@
            }),
            r is Err ==> final(self)@ == old(self)@,
    {
        self.prepare_save(path)?;
        check_error(Operation::Save, status)?;
        self.state = State::Persisted;
        self.on_disk = false;
        Ok(())
    }

    /// Checks a load from `path` before it reaches the native engine: only
    /// an empty index can load.
    pub fn prepare_load(&self, path: &str) -> (r: Result<(), AnnoyError>)
        ensures
            r == file_check(self@, Operation::Load, self@.state == State::Empty, path.spec_bytes()),
    {
        if self.state != State::Empty {
            return Err(AnnoyError::IllegalState { operation: Operation::Load, state: self.state });
        }
        check_path(Operation::Load, path)
    }

    /// Records a load of the file at `path`, where `status` is what the native
    /// load reported and `n_items` the number of item slots the engine found
    /// in it. A failed load leaves the index empty, ready for another try.
    pub fn load(&mut self, path: &str, status: NativeStatus, n_items: u32) -> (r: Result<
        (),
        AnnoyError,
    >)
        requires
            wf(old(self)@),
        ensures
            wf(final(self)@),
            r == then_native(
                file_check(
                    old(self)@,
                    Operation::Load,
                    old(self)@.state == State::Empty,
                    path.spec_bytes(),
                ),
                Operation::Load,
                status,
            ),
            r is Ok ==> final(self)@ == (IndexView {
                state: State::Loaded,
                on_disk: false,
                n_items: n_items as nat,
                ..old(self)@
            }),
            r is Err ==> final(self)@ == old(self)@,
    {
        self.prepare_load(path)?;
        check_error(Operation::Load, status)?;
        self.state = State::Loaded;
        self.on_disk = false;
        self.n_items = n_items;
        Ok(())
    }

    /// Checks a redirection of the build to the file at `path`: only an
    /// empty index, before any insertion, can be redirected.
    pub fn prepare_on_disk_build(&self, path: &str) -> (r: Result<(), AnnoyError>)
        ensures
            r == file_check(
                self@,
                Operation::OnDiskBuild,
                self@.state == State::Empty,
                path.spec_bytes(),
            ),
    {
        if self.state != State::Empty {
            return Err(
                AnnoyError::IllegalState { operation: Operation::OnDiskBuild, state: self.state },
            );
        }
        check_path(Operation::OnDiskBuild, path)
    }

    /// Records that the forthcoming build goes into the file at `path`, where
    /// `status` is what the native call reported. No save follows such a build.
    pub fn on_disk_build(&mut self, path: &str, status: NativeStatus) -> (r: Result<
        (),
        AnnoyError,
    >)
        requires
            wf(old(self)@),
        ensures
            wf(final(self)@),
            r == then_native(
                file_check(
                    old(self)@,
                    Operation::OnDiskBuild,
                    old(self)@.state == State::Empty,
                    path.spec_bytes(),
                ),
                Operation::OnDiskBuild,
                status,
            ),
            r is Ok ==> final(self)@ == (IndexView { on_disk: true, ..old(self)@ }),
            r is Err ==> final(self)@ == old(self)@,
    {
        self.prepare_on_disk_build(path)?;
        check_error(Operation::OnDiskBuild, status)?;
        self.on_disk = true;
        Ok(())
    }

    /// Releases the index's trees and mapping. Admitted on a queryable index
    /// only; nothing is admitted afterwards.
    pub fn unload(&mut self) -> (r: Result<(), AnnoyError>)
        requires
            wf(old(self)@),
        ensures
            wf(final(self)@),
            r == state_check(old(self)@, Operation::Unload, queryable(old(self)@.state)),
            r is Ok ==> final(self)@ == (IndexView {
                state: State::Unloaded,
                on_disk: false,
                ..old(self)@
            }),
            r is Err ==> final(self)@ == old(self)@,
    {
        if !self.state.is_queryable() {
            return Err(AnnoyError::IllegalState { operation: Operation::Unload, state: self.state });
        }
        self.state = State::Unloaded;
        self.on_disk = false;
        Ok(())
    }

    /// Checks a query for the items nearest to item `item`.
    pub fn prepare_nearest_by_item(&self, item: u32) -> (r: Result<(), AnnoyError>)
        ensures
            r == item_check(self@, Operation::NearestByItem, item),
    {
        self.check_item(Operation::NearestByItem, item)
    }

    /// Checks a query for the items nearest to `vector`.
    pub fn prepare_nearest_by_vector<T>(&self, vector: &[T]) -> (r: Result<(), AnnoyError>)
        ensures
            r == vector_query_check(self@, vector@.len()),
    {
        if vector.len() != self.dimension {
            return Err(
                AnnoyError::DimensionMismatch {
                    operation: Operation::NearestByVector,
                    expected: self.dimension,
                    actual: vector.len(),
                },
            );
        }
        if !self.state.is_queryable() {
            return Err(
                AnnoyError::IllegalState { operation: Operation::NearestByVector, state: self.state },
            );
        }
        Ok(())
    }

    /// Checks a read of the vector of item `item`.
    pub fn prepare_item_vector(&self, item: u32) -> (r: Result<(), AnnoyError>)
        ensures
            r == item_check(self@, Operation::ItemVector, item),
    {
        self.check_item(Operation::ItemVector, item)
    }

    /// Checks a read of the distance between items `i` and `j`.
    pub fn prepare_distance(&self, i: u32, j: u32) -> (r: Result<(), AnnoyError>)
        ensures
            r == (match item_check(self@, Operation::Distance, i) {
                Err(e) => Err(e),
                Ok(_) => item_check(self@, Operation::Distance, j),
            }),
    {
        self.check_item(Operation::Distance, i)?;
        self.check_item(Operation::Distance, j)
    }

    /// The number of item slots, where the index is queryable.
    pub fn get_n_items(&self) -> (r: Result<u32, AnnoyError>)
        ensures
            queryable(self@.state) ==> r == Ok::<u32, AnnoyError>(self@.n_items as u32),
            !queryable(self@.state) ==> r == Err::<u32, AnnoyError>(
                AnnoyError::IllegalState { operation: Operation::ItemCount, state: self@.state },
            ),
    {
        if self.state.is_queryable() {
            Ok(self.n_items)
        } else {
            Err(AnnoyError::IllegalState { operation: Operation::ItemCount, state: self.state })
        }
    }

    fn check_item(&self, op: Operation, item: u32) -> (r: Result<(), AnnoyError>)
        ensures
            r == item_check(self@, op, item),
    {
        if !self.state.is_queryable() {
            return Err(AnnoyError::IllegalState { operation: op, state: self.state });
        }
        if item >= self.n_items {
            return Err(AnnoyError::ItemOutOfRange { operation: op, item, n_items: self.n_items });
        }
        Ok(())
    }
}

} // verus!
