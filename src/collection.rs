use crate::config::CollectionConfig;
use crate::config::ConfigView;
use crate::error::{Error, ErrorKind};
use crate::vector_index::{IndexSettings, Metric, Quantization, VectorIndex};
use usearch::ffi::Matches;
use usearch::VectorType;
use vstd::multiset::Multiset;
use vstd::prelude::*;

verus! {

/// Room that a new column index is made with.
pub const INITIAL_CAPACITY: usize = 20000;

/// The keys of a batch of `n` rows starting at row `offset`: the rows'
/// own offsets.
pub open spec fn key_range(offset: nat, n: nat) -> Seq<u64> {
    Seq::new(n, |i: int| (offset + i) as u64)
}

/// The keys `offset, offset + 1, ...` of a batch of `n` rows; fails where
/// a key would not fit in `u64`.
pub fn batch_keys(offset: u64, n: usize) -> (r: Result<Vec<u64>, Error>)
    ensures
        r is Ok <==> offset + n <= u64::MAX + 1,
        r matches Ok(keys) ==> keys@ == key_range(offset as nat, n as nat),
        r matches Err(e) ==> e.kind == ErrorKind::InvalidArgument,
{
    if n > 0 && (n - 1) as u64 > u64::MAX - offset {
        return Err(Error::new(ErrorKind::InvalidArgument, "row offset out of range"));
    }
    let mut keys: Vec<u64> = Vec::new();
    let mut i: usize = 0;
    while i < n
        invariant
            i <= n,
            offset + n <= u64::MAX + 1,
            keys@ == key_range(offset as nat, i as nat),
        decreases n - i,
    {
        keys.push(offset + i as u64);
        i = i + 1;
        assert(keys@ =~= key_range(offset as nat, i as nat));
    }
    Ok(keys)
}

/// The number of batches of `batch_size` rows that cover `total` rows.
pub open spec fn batch_count_of(total: nat, batch_size: nat) -> nat {
    ((total + batch_size - 1) / batch_size as int) as nat
}

pub fn batch_count(total: u64, batch_size: u64) -> (r: u64)
    requires
        batch_size >= 1,
    ensures
        r == batch_count_of(total as nat, batch_size as nat),
{
    let q = total / batch_size;
    let r = if total % batch_size == 0 {
        q
    } else {
        assert(q < u64::MAX) by (nonlinear_arith)
            requires
                batch_size >= 1,
                total % batch_size != 0,
                q == total / batch_size,
        ;
        q + 1
    };
    assert(r == batch_count_of(total as nat, batch_size as nat)) by (nonlinear_arith)
        requires
            batch_size >= 1,
            r == total / batch_size + (if total % batch_size == 0 {
                0int
            } else {
                1int
            }),
    ;
    r
}

/// The row offset at which batch `k` starts.
pub fn batch_offset(k: u64, batch_size: u64, total: u64) -> (r: u64)
    requires
        batch_size >= 1,
        k < batch_count_of(total as nat, batch_size as nat),
    ensures
        r == k * batch_size,
        r < total,
{
    assert(k * batch_size < total) by (nonlinear_arith)
        requires
            batch_size >= 1,
            k < (total + batch_size - 1) / batch_size as int,
    ;
    k * batch_size
}

/// Every row of a table lies in exactly one batch of the scan: batch
/// `row / batch_size`, which is among the batches made; inside it, the row
/// sits at its distance from the batch's offset and gets its own offset as
/// key.
pub proof fn lemma_row_keys(total: nat, batch_size: nat, row: nat)
    requires
        batch_size >= 1,
        row < total,
    ensures
        row / batch_size < batch_count_of(total, batch_size),
        (row / batch_size) * batch_size <= row < (row / batch_size) * batch_size + batch_size,
        key_range((row / batch_size) * batch_size, batch_size)[row - (row / batch_size) * batch_size]
            == row as u64,
        forall|k: nat|
            k * batch_size <= row < k * batch_size + batch_size ==> #[trigger] (k * batch_size) == (row
                / batch_size) * batch_size,
{
    let k = row / batch_size;
    assert(k * batch_size <= row < k * batch_size + batch_size) by (nonlinear_arith)
        requires
            batch_size >= 1,
            k == row / batch_size,
    ;
    assert(k < batch_count_of(total, batch_size)) by (nonlinear_arith)
        requires
            batch_size >= 1,
            k == row / batch_size,
            row < total,
    ;
    assert forall|j: nat| j * batch_size <= row < j * batch_size + batch_size implies #[trigger] (j
        * batch_size) == k * batch_size by {
        assert(j == k) by (nonlinear_arith)
            requires
                batch_size >= 1,
                k == row / batch_size,
                j * batch_size <= row < j * batch_size + batch_size,
        ;
    }
}

/// The index of one column.
pub struct ColumnIndex {
    pub column: String,
    pub index: VectorIndex,
}

/// One tabular dataset: its configuration, a handle on its database, and
/// an index for each embedded column.
pub struct Collection<D> {
    config: CollectionConfig,
    conn: D,
    indexes: Vec<ColumnIndex>,
}

impl<D> Collection<D> {
    pub closed spec fn spec_config(&self) -> ConfigView {
        self.config@
    }

    pub closed spec fn spec_conn(&self) -> D {
        self.conn
    }

    pub closed spec fn columns(&self) -> Seq<ColumnIndex> {
        self.indexes@
    }

    /// Column names are unique.
    pub closed spec fn wf(&self) -> bool {
        forall|a: int, b: int|
            0 <= a < self.indexes@.len() && 0 <= b < self.indexes@.len() && a != b ==> #[trigger] self.indexes@[a].column@
                != #[trigger] self.indexes@[b].column@
    }

    pub open spec fn has_column(&self, column: Seq<char>) -> bool {
        exists|k: int| 0 <= k < self.columns().len() && #[trigger] self.columns()[k].column@ == column
    }

    pub open spec fn slot_of(&self, column: Seq<char>) -> int {
        choose|k: int| 0 <= k < self.columns().len() && #[trigger] self.columns()[k].column@ == column
    }

    /// The index of `column`; meaningful where `has_column` holds.
    pub open spec fn index_of(&self, column: Seq<char>) -> VectorIndex {
        self.columns()[self.slot_of(column)].index
    }

    /// A collection with no column indexed yet.
    pub fn new(config: CollectionConfig, conn: D) -> (r: Collection<D>)
        ensures
            r.wf(),
            r.spec_config() == config@,
            r.spec_conn() == conn,
            r.columns().len() == 0,
    {
        Collection { config, conn, indexes: Vec::new() }
    }

    pub fn config(&self) -> (r: CollectionConfig)
        ensures
            r@ == self.spec_config(),
    {
        self.config.config()
    }

    pub fn name(&self) -> (r: &String)
        ensures
            r@ == self.spec_config().name,
    {
        &self.config.name
    }

    pub fn conn(&self) -> (r: &D)
        ensures
            *r == self.spec_conn(),
    {
        &self.conn
    }

    /// The models that this collection needs loaded, as (path, variant) pairs.
    pub fn requested_models(&self) -> (r: Vec<(String, String)>)
        ensures
            r@.len() == 1,
            r@[0].0@ == self.spec_config().model_name,
            r@[0].1@ == self.spec_config().model_variant,
    {
        self.config.requested_models()
    }

    fn find(&self, column: &str) -> (r: Option<usize>)
        ensures
            r is Some <==> self.has_column(column@),
            r matches Some(k) ==> k < self.columns().len() && self.columns()[k as int].column@ == column@,
    {
        let wanted = String::from_str(column);
        let mut k: usize = 0;
        while k < self.indexes.len()
            invariant
                k <= self.indexes@.len(),
                wanted@ == column@,
                forall|j: int| 0 <= j < k ==> #[trigger] self.indexes@[j].column@ != column@,
            decreases self.indexes.len() - k,
        {
            if self.indexes[k].column == wanted {
                return Some(k);
            }
            k = k + 1;
        }
        None
    }

    /// The index of `column`, if it has one.
    pub fn index(&self, column: &str) -> (r: Option<&VectorIndex>)
        requires
            self.wf(),
        ensures
            r is Some <==> self.has_column(column@),
            r matches Some(i) ==> *i == self.index_of(column@),
    {
        match self.find(column) {
            Some(k) => {
                proof {
                    let s = self.slot_of(column@);
                    assert(s == k);
                }
                Some(&self.indexes[k].index)
            },
            None => None,
        }
    }

    /// Gives `column` the index `index`, replacing any it had.
    pub fn attach_index(&mut self, column: String, index: VectorIndex) -> (r: ())
        requires
            old(self).wf(),
        ensures
            final(self).wf(),
            final(self).spec_config() == old(self).spec_config(),
            final(self).spec_conn() == old(self).spec_conn(),
            final(self).has_column(column@),
            final(self).index_of(column@) == index,
            forall|c: Seq<char>|
                c != column@ ==> (#[trigger] final(self).has_column(c) == old(self).has_column(c)
                    && (old(self).has_column(c) ==> final(self).index_of(c) == old(self).index_of(c))),
    {
        let ghost col = column@;
        match self.find(column.as_str()) {
            Some(k) => {
                let ghost before = self.indexes@;
                self.indexes.set(k, ColumnIndex { column, index });
                proof {
                    assert(self.indexes@[k as int].column@ == col);
                    assert forall|a: int, b: int|
                        0 <= a < self.indexes@.len() && 0 <= b < self.indexes@.len() && a
                            != b implies #[trigger] self.indexes@[a].column@ != #[trigger] self.indexes@[b].column@ by {
                        assert(before[a].column@ != before[b].column@);
                        if a == k {
                            assert(before[a].column@ == col);
                        }
                        if b == k {
                            assert(before[b].column@ == col);
                        }
                    }
                    assert forall|c: Seq<char>| c != col implies #[trigger] self.has_column(c)
                        == old(self).has_column(c) && (old(self).has_column(c) ==> self.index_of(c)
                        == old(self).index_of(c)) by {
                        if old(self).has_column(c) {
                            let j = old(self).slot_of(c);
                            assert(self.indexes@[j].column@ == c);
                            let s = self.slot_of(c);
                            assert(s == j);
                        }
                        if self.has_column(c) {
                            let j = self.slot_of(c);
                            assert(before[j].column@ == c);
                        }
                    }
                    let s = self.slot_of(col);
                    assert(s == k);
                }
            },
            None => {
                let ghost before = self.indexes@;
                self.indexes.push(ColumnIndex { column, index });
                proof {
                    let last = self.indexes@.len() - 1;
                    assert(self.indexes@[last].column@ == col);
                    assert(!old(self).has_column(col));
                    assert forall|j: int| 0 <= j < last implies #[trigger] self.indexes@[j].column@ != col by {
                        assert(before[j].column@ == self.indexes@[j].column@);
                        if before[j].column@ == col {
                            assert(old(self).columns()[j].column@ == col);
                        }
                    }
                    assert forall|a: int, b: int|
                        0 <= a < self.indexes@.len() && 0 <= b < self.indexes@.len() && a
                            != b implies #[trigger] self.indexes@[a].column@ != #[trigger] self.indexes@[b].column@ by {
                        if a != last && b != last {
                            assert(before[a].column@ != before[b].column@);
                        }
                    }
                    assert forall|c: Seq<char>| c != col implies #[trigger] self.has_column(c)
                        == old(self).has_column(c) && (old(self).has_column(c) ==> self.index_of(c)
                        == old(self).index_of(c)) by {
                        if old(self).has_column(c) {
                            let j = old(self).slot_of(c);
                            assert(self.indexes@[j].column@ == c);
                            let s = self.slot_of(c);
                            assert(s == j);
                        }
                        if self.has_column(c) {
                            let j = self.slot_of(c);
                            assert(j != last);
                            assert(before[j].column@ == c);
                            assert(old(self).columns()[j].column@ == c);
                        }
                    }
                    let s = self.slot_of(col);
                    assert(s == last);
                }
            },
        }
    }
    /// Makes sure `column` has an index of `dimensions`: one is made at
    /// `index_path` when the column has none, with cosine distance, vectors
    /// stored as 32-bit floats, several vectors per key allowed, and room for
    /// `INITIAL_CAPACITY` vectors. Returns whether it was made. An
    /// existing index of other dimensions is a mismatch.
    pub fn prepare_index(&mut self, column: &str, dimensions: usize, index_path: String) -> (r: Result<
        bool,
        Error,
    >)
        requires
            old(self).wf(),
        ensures
            final(self).wf(),
            final(self).spec_config() == old(self).spec_config(),
            final(self).spec_conn() == old(self).spec_conn(),
            r is Ok ==> final(self).has_column(column@) && final(self).index_of(column@).is_ready()
                && final(self).index_of(column@).spec_dimensions() == dimensions,
            r == Ok::<bool, Error>(true) ==> !old(self).has_column(column@) && final(self).index_of(
                column@,
            ).entries() =~= Multiset::empty(),
            old(self).has_column(column@) ==> final(self).columns() == old(self).columns(),
            old(self).has_column(column@) && old(self).index_of(column@).is_ready() ==> (r is Ok
                <==> old(self).index_of(column@).spec_dimensions() == dimensions),
            old(self).has_column(column@) && old(self).index_of(column@).is_ready()
                && old(self).index_of(column@).spec_dimensions() != dimensions ==> (r matches Err(e)
                && e.kind == ErrorKind::DimensionMismatch),
            forall|c: Seq<char>|
                c != column@ ==> (#[trigger] final(self).has_column(c) == old(self).has_column(c)
                    && (old(self).has_column(c) ==> final(self).index_of(c) == old(self).index_of(c))),
    {
        match self.find(column) {
            Some(k) => {
                proof {
                    let s = self.slot_of(column@);
                    assert(s == k);
                }
                let existing = self.indexes[k].index.dimensions()?;
                if existing != dimensions {
                    return Err(
                        Error::new(ErrorKind::DimensionMismatch, "index dimensions differ from the model's output"),
                    );
                }
                Ok(false)
            },
            None => {
                let settings = IndexSettings {
                    dimensions,
                    metric: Metric::Cos,
                    quantization: Quantization::F32,
                    connectivity: 0,
                    expansion_add: 0,
                    expansion_search: 0,
                    multi: true,
                };
                let mut index = VectorIndex::new(index_path);
                index.with_options(settings, INITIAL_CAPACITY)?;
                self.attach_index(String::from_str(column), index);
                Ok(true)
            },
        }
    }

    /// Inserts a batch of `rows` embeddings of length `dim`, laid out one
    /// after another, into the index of `column`; the i-th vector of a batch
    /// that starts at row `offset` gets key `offset + i`.
    pub fn add_batch<T: VectorType>(
        &mut self,
        column: &str,
        offset: u64,
        vectors: &[T],
        rows: usize,
        dim: usize,
    ) -> (r: Result<(), Error>)
        requires
            old(self).wf(),
            rows * dim == vectors@.len(),
        ensures
            final(self).wf(),
            final(self).spec_config() == old(self).spec_config(),
            final(self).spec_conn() == old(self).spec_conn(),
            final(self).has_column(column@) == old(self).has_column(column@),
            !old(self).has_column(column@) ==> (r matches Err(e) && e.kind == ErrorKind::NotFound),
            old(self).has_column(column@) ==> final(self).index_of(column@).spec_dimensions() == old(
                self,
            ).index_of(column@).spec_dimensions() && final(self).index_of(column@).is_ready() == old(
                self,
            ).index_of(column@).is_ready(),
            old(self).has_column(column@) && old(self).index_of(column@).is_ready() && dim != old(
                self,
            ).index_of(column@).spec_dimensions() ==> (r matches Err(e) && e.kind
                == ErrorKind::DimensionMismatch),
            r is Ok ==> old(self).has_column(column@) && final(self).index_of(column@).entries() == old(
                self,
            ).index_of(column@).entries().add(key_range(offset as nat, rows as nat).to_multiset()),
            forall|c: Seq<char>| c != column@ ==> #[trigger] final(self).has_column(c) == old(self).has_column(c),
            forall|c: Seq<char>|
                c != column@ && old(self).has_column(c) ==> #[trigger] final(self).index_of(c) == old(
                    self,
                ).index_of(c),
    {
        let k = match self.find(column) {
            Some(k) => k,
            None => {
                return Err(Error::new(ErrorKind::NotFound, "column is not indexed"));
            },
        };
        proof {
            let s = self.slot_of(column@);
            assert(s == k);
        }
        let mut entry = self.indexes.remove(k);
        let ghost removed = self.indexes@;
        let added = match batch_keys(offset, rows) {
            Ok(keys) => {
                assert(keys@.len() * dim == vectors@.len());
                entry.index.add(keys.as_slice(), vectors, dim)
            },
            Err(e) => match entry.index.dimensions() {
                Ok(d) => {
                    if d != dim {
                        Err(Error::new(ErrorKind::DimensionMismatch, "vector length differs from index dimensions"))
                    } else {
                        Err(e)
                    }
                },
                Err(_) => Err(e),
            },
        };
        self.indexes.insert(k, entry);
        proof {
            assert forall|j: int| 0 <= j < self.indexes@.len() && j != k implies #[trigger] self.indexes@[j]
                == old(self).indexes@[j] by {
                if j < k {
                    assert(self.indexes@[j] == removed[j]);
                } else {
                    assert(self.indexes@[j] == removed[j - 1]);
                }
            }
            assert(self.indexes@[k as int].column@ == column@);
            assert forall|a: int, b: int|
                0 <= a < self.indexes@.len() && 0 <= b < self.indexes@.len() && a
                    != b implies #[trigger] self.indexes@[a].column@ != #[trigger] self.indexes@[b].column@ by {
                assert(old(self).indexes@[a].column@ != old(self).indexes@[b].column@);
            }
            let s = self.slot_of(column@);
            assert(s == k);
            assert forall|c: Seq<char>|
                #![trigger self.has_column(c)]
                #![trigger self.index_of(c)]
                c != column@ implies self.has_column(c) == old(self).has_column(c) && (old(self).has_column(c)
                    ==> self.index_of(c) == old(self).index_of(c)) by {
                if old(self).has_column(c) {
                    let j = old(self).slot_of(c);
                    assert(j != k);
                    assert(self.indexes@[j].column@ == c);
                    let t = self.slot_of(c);
                    assert(t == j);
                    assert(self.indexes@[j] == old(self).indexes@[j]);
                    assert(self.index_of(c) == old(self).index_of(c));
                }
                if self.has_column(c) {
                    let j = self.slot_of(c);
                    assert(j != k);
                    assert(old(self).columns()[j].column@ == c);
                }
            }
        }
        added
    }

    /// Looks up the `limit` nearest neighbours of `query` in the index of
    /// `column`.
    pub fn search<T: VectorType>(&self, column: &str, query: &[T], limit: u32) -> (r: Result<
        Matches,
        Error,
    >)
        requires
            self.wf(),
        ensures
            !self.has_column(column@) ==> (r matches Err(e) && e.kind == ErrorKind::NotFound),
            self.has_column(column@) && self.index_of(column@).is_ready() && query@.len()
                != self.index_of(column@).spec_dimensions() ==> (r matches Err(e) && e.kind
                == ErrorKind::DimensionMismatch),
    {
        match self.index(column) {
            Some(i) => i.search(query, limit as usize),
            None => Err(Error::new(ErrorKind::NotFound, "column is not indexed")),
        }
    }
}

} // verus!
