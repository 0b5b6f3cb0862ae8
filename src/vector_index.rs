use crate::error::{Error, ErrorKind};
use usearch::ffi::Matches;
use usearch::{Index, IndexOptions, MetricKind, ScalarKind};
use usearch::VectorType;
use vstd::multiset::Multiset;
use vstd::prelude::*;

verus! {

/// The native HNSW index of usearch; what it holds is named by
/// `index_entries`, `index_dimensions` and `index_capacity`. Errors of its
/// methods are handed on as their message.
#[verifier::external_type_specification]
#[verifier::external_body]
pub struct ExIndex(usearch::Index);

/// The keys and distances that a usearch search returns.
#[verifier::external_type_specification]
#[verifier::external_body]
pub struct ExMatches(usearch::ffi::Matches);

/// The distance functions of usearch.
#[verifier::external_type_specification]
#[verifier::external_body]
pub struct ExMetricKind(usearch::MetricKind);

/// The element types of usearch.
#[verifier::external_type_specification]
#[verifier::external_body]
pub struct ExScalarKind(usearch::ScalarKind);

/// Options of a native index; its fields are plain and public.
#[verifier::external_type_specification]
pub struct ExIndexOptions(usearch::IndexOptions);

/// The keys of the vectors that a native index holds, once per vector.
pub uninterp spec fn index_entries(i: Index) -> Multiset<u64>;

/// The vector length that a native index was made for.
pub uninterp spec fn index_dimensions(i: Index) -> nat;

/// The number of vectors that a native index has room for.
pub uninterp spec fn index_capacity(i: Index) -> nat;

/// Distance function of an index.
#[derive(Clone, Copy, Debug, PartialEq, Eq, Structural)]
pub enum Metric {
    Cos,
    InnerProduct,
    L2sq,
}

/// Element type in which an index stores its vectors.
#[derive(Clone, Copy, Debug, PartialEq, Eq, Structural)]
pub enum Quantization {
    F32,
    F16,
    BF16,
    I8,
}

/// Settings with which a native index is made; a zero connectivity or
/// expansion lets the native index pick its own.
#[derive(Clone, Copy, Debug, PartialEq, Eq, Structural)]
pub struct IndexSettings {
    pub dimensions: usize,
    pub metric: Metric,
    pub quantization: Quantization,
    pub connectivity: usize,
    pub expansion_add: usize,
    pub expansion_search: usize,
    pub multi: bool,
}

/// Relies on usearch::MetricKind: one variant for each distance function.
#[verifier::external_body]
fn native_metric(m: Metric) -> (r: MetricKind) {
    match m {
        Metric::Cos => MetricKind::Cos,
        Metric::InnerProduct => MetricKind::IP,
        Metric::L2sq => MetricKind::L2sq,
    }
}

/// Relies on usearch::ScalarKind: one variant for each element type.
#[verifier::external_body]
fn native_scalar(q: Quantization) -> (r: ScalarKind) {
    match q {
        Quantization::F32 => ScalarKind::F32,
        Quantization::F16 => ScalarKind::F16,
        Quantization::BF16 => ScalarKind::BF16,
        Quantization::I8 => ScalarKind::I8,
    }
}

/// Relies on usearch::Index::new: a new index holds no vector and keeps the
/// dimensions that it was made with.
#[verifier::external_body]
fn native_new(options: &IndexOptions) -> (r: Result<Index, String>)
    ensures
        r matches Ok(i) ==> index_dimensions(i) == options.dimensions && index_entries(i)
            =~= Multiset::empty(),
{
    Index::new(options).map_err(|e| e.to_string())
}

/// The native options that `settings` stand for.
fn native_options(s: IndexSettings) -> (r: IndexOptions)
    ensures
        r.dimensions == s.dimensions,
        r.multi == s.multi,
        r.connectivity == s.connectivity,
        r.expansion_add == s.expansion_add,
        r.expansion_search == s.expansion_search,
{
    IndexOptions {
        dimensions: s.dimensions,
        metric: native_metric(s.metric),
        quantization: native_scalar(s.quantization),
        connectivity: s.connectivity,
        expansion_add: s.expansion_add,
        expansion_search: s.expansion_search,
        multi: s.multi,
    }
}

/// Relies on usearch::Index::reserve: it never shrinks the capacity, leaves
/// the vectors as they are, and on success makes room for `capacity` vectors.
#[verifier::external_body]
fn native_reserve(i: &mut Index, capacity: usize) -> (r: Result<(), String>)
    ensures
        index_entries(*final(i)) == index_entries(*old(i)),
        index_dimensions(*final(i)) == index_dimensions(*old(i)),
        index_capacity(*final(i)) >= index_capacity(*old(i)),
        r is Ok ==> index_capacity(*final(i)) >= capacity,
{
    i.reserve(capacity).map_err(|e| e.to_string())
}

/// Relies on usearch::Index::add: on success the index holds one more vector
/// under `key`; capacity and dimensions do not change.
#[verifier::external_body]
fn native_add<T: VectorType>(i: &mut Index, key: u64, vector: &[T]) -> (r: Result<(), String>)
    ensures
        index_dimensions(*final(i)) == index_dimensions(*old(i)),
        index_capacity(*final(i)) == index_capacity(*old(i)),
        r is Ok ==> index_entries(*final(i)) == index_entries(*old(i)).insert(key),
{
    i.add(key, vector).map_err(|e| e.to_string())
}

/// Relies on usearch::Index::search: the neighbours of `query`, at most `count`.
#[verifier::external_body]
fn native_search<T: VectorType>(i: &Index, query: &[T], count: usize) -> (r: Result<Matches, String>) {
    i.search(query, count).map_err(|e| e.to_string())
}

/// Relies on usearch::Index::size: the number of vectors held.
#[verifier::external_body]
fn native_size(i: &Index) -> (r: usize)
    ensures
        r == index_entries(*i).len(),
{
    i.size()
}

/// Relies on usearch::Index::capacity.
#[verifier::external_body]
fn native_capacity(i: &Index) -> (r: usize)
    ensures
        r == index_capacity(*i),
{
    i.capacity()
}

/// Relies on usearch::Index::dimensions.
#[verifier::external_body]
fn native_dimensions(i: &Index) -> (r: usize)
    ensures
        r == index_dimensions(*i),
{
    i.dimensions()
}

/// The capacity to grow to when `required` slots are needed: ten percent
/// more, rounded up.
pub open spec fn grown_capacity(required: nat) -> nat {
    ((11 * required + 9) / 10) as nat
}

/// Computes `grown_capacity`, or `None` where it does not fit in `usize`.
pub fn grow_target(required: usize) -> (r: Option<usize>)
    ensures
        r matches Some(c) ==> c == grown_capacity(required as nat),
        r is None ==> grown_capacity(required as nat) > usize::MAX,
{
    let tenth: usize = required / 10 + if required % 10 == 0 {
        0
    } else {
        1
    };
    assert(required as nat + tenth as nat == grown_capacity(required as nat)) by (nonlinear_arith)
        requires
            tenth == required / 10 + (if required % 10 == 0 {
                0int
            } else {
                1int
            }),
    ;
    required.checked_add(tenth)
}

/// An approximate-nearest-neighbour index over one column, whose keys are
/// row offsets. It is empty until `with_options` makes the native index.
pub struct VectorIndex {
    index: Option<Index>,
    path: String,
}

impl VectorIndex {
    pub closed spec fn is_ready(&self) -> bool {
        self.index is Some
    }

    /// The keys held, once per vector.
    pub closed spec fn entries(&self) -> Multiset<u64> {
        match self.index {
            Some(i) => index_entries(i),
            None => Multiset::empty(),
        }
    }

    pub closed spec fn spec_dimensions(&self) -> nat {
        match self.index {
            Some(i) => index_dimensions(i),
            None => 0,
        }
    }

    pub closed spec fn spec_capacity(&self) -> nat {
        match self.index {
            Some(i) => index_capacity(i),
            None => 0,
        }
    }

    pub open spec fn spec_size(&self) -> nat {
        self.entries().len()
    }

    pub closed spec fn spec_path(&self) -> Seq<char> {
        self.path@
    }

    /// An index for the directory `path`, with no native index yet.
    pub fn new(path: String) -> (r: VectorIndex)
        ensures
            !r.is_ready(),
            r.spec_path() == path@,
    {
        VectorIndex { index: None, path }
    }

    /// Wraps a native index restored from the directory `path`.
    pub fn from(path: String, index: Index) -> (r: VectorIndex)
        ensures
            r.is_ready(),
            r.spec_path() == path@,
            r.entries() == index_entries(index),
            r.spec_dimensions() == index_dimensions(index),
    {
        VectorIndex { index: Some(index), path }
    }

    pub fn path(&self) -> (r: &String)
        ensures
            r@ == self.spec_path(),
    {
        &self.path
    }

    /// The native index, for saving it and for reading search results.
    pub fn native(&self) -> (r: Option<&Index>)
        ensures
            r is Some == self.is_ready(),
            r matches Some(i) ==> index_entries(*i) == self.entries() && index_dimensions(*i)
                == self.spec_dimensions() && index_capacity(*i) == self.spec_capacity(),
    {
        self.index.as_ref()
    }

    /// Makes the native index with `settings` and room for `capacity`
    /// vectors. Fails if the native index already exists.
    pub fn with_options(&mut self, settings: IndexSettings, capacity: usize) -> (r: Result<(), Error>)
        ensures
            old(self).is_ready() ==> (r matches Err(e) && e.kind == ErrorKind::AlreadyExists && *final(self)
                == *old(self)),
            final(self).spec_path() == old(self).spec_path(),
            r is Ok ==> final(self).is_ready() && final(self).spec_dimensions() == settings.dimensions
                && final(self).entries() =~= Multiset::empty() && final(self).spec_capacity()
                >= capacity,
    {
        if self.index.is_some() {
            return Err(Error::new(ErrorKind::AlreadyExists, "vector index already exists"));
        }
        let options = native_options(settings);
        let mut index = match native_new(&options) {
            Ok(i) => i,
            Err(m) => return Err(Error { kind: ErrorKind::Index, message: m }),
        };
        match native_reserve(&mut index, capacity) {
            Ok(()) => {},
            Err(m) => return Err(Error { kind: ErrorKind::Index, message: m }),
        }
        self.index = Some(index);
        Ok(())
    }

    pub fn dimensions(&self) -> (r: Result<usize, Error>)
        ensures
            r is Ok == self.is_ready(),
            r matches Ok(d) ==> d == self.spec_dimensions(),
            r matches Err(e) ==> e.kind == ErrorKind::NotFound,
    {
        match &self.index {
            Some(i) => Ok(native_dimensions(i)),
            None => Err(Error::new(ErrorKind::NotFound, "vector index is not initialised")),
        }
    }

    pub fn size(&self) -> (r: usize)
        ensures
            r == self.spec_size(),
    {
        match &self.index {
            Some(i) => native_size(i),
            None => 0,
        }
    }

    pub fn capacity(&self) -> (r: usize)
        ensures
            r == self.spec_capacity(),
    {
        match &self.index {
            Some(i) => native_capacity(i),
            None => 0,
        }
    }

    /// Inserts `keys.len()` vectors of length `vector_dim`, laid out one
    /// after another in `vectors`; the i-th vector goes under `keys[i]`.
    /// When the index lacks room it first grows to `grown_capacity` of the
    /// size it needs.
    pub fn add<T: VectorType>(&mut self, keys: &[u64], vectors: &[T], vector_dim: usize) -> (r: Result<(), Error>)
        requires
            keys@.len() * vector_dim == vectors@.len(),
        ensures
            final(self).spec_path() == old(self).spec_path(),
            final(self).is_ready() == old(self).is_ready(),
            final(self).spec_dimensions() == old(self).spec_dimensions(),
            !old(self).is_ready() ==> (r matches Err(e) && e.kind == ErrorKind::NotFound),
            old(self).is_ready() && vector_dim != old(self).spec_dimensions() ==> (r matches Err(e)
                && e.kind == ErrorKind::DimensionMismatch && *final(self) == *old(self)),
            r is Ok ==> old(self).is_ready() && vector_dim == old(self).spec_dimensions()
                && final(self).entries() == old(self).entries().add(keys@.to_multiset())
                && final(self).spec_capacity() >= final(self).spec_size(),
    {
        if self.index.is_none() {
            return Err(Error::new(ErrorKind::NotFound, "vector index is not initialised"));
        }
        let mut index = self.index.take().unwrap();
        let dims = native_dimensions(&index);
        if vector_dim != dims {
            self.index = Some(index);
            return Err(Error::new(ErrorKind::DimensionMismatch, "vector length differs from index dimensions"));
        }
        let ghost start = index_entries(index);
        let size = native_size(&index);
        let capacity = native_capacity(&index);
        let count = keys.len();
        if size > usize::MAX - count {
            self.index = Some(index);
            return Err(Error::new(ErrorKind::Index, "index size overflow"));
        }
        let required = size + count;
        if required > capacity {
            match grow_target(required) {
                Some(target) => {
                    let reserved = native_reserve(&mut index, target);
                    if let Err(m) = reserved {
                        self.index = Some(index);
                        return Err(Error { kind: ErrorKind::Index, message: m });
                    }
                },
                None => {
                    self.index = Some(index);
                    return Err(Error::new(ErrorKind::Index, "index capacity overflow"));
                },
            }
        }
        assert(index_capacity(index) >= required);
        let total = vectors.len();
        proof {
            let e = keys@.subrange(0, 0);
            e.to_multiset_ensures();
            assert(e.to_multiset() =~= Multiset::empty());
            assert(start.add(e.to_multiset()) =~= start);
        }
        let mut i: usize = 0;
        while i < count
            invariant
                i <= count,
                count == keys@.len(),
                keys@.len() * vector_dim == vectors@.len(),
                total == vectors@.len(),
                vector_dim == dims,
                index_dimensions(index) == dims,
                index_capacity(index) >= start.len() + count,
                index_entries(index) == start.add(keys@.subrange(0, i as int).to_multiset()),
                self.index is None,
                self.path@ == old(self).path@,
                old(self).index matches Some(o) && index_entries(o) == start && index_dimensions(o)
                    == dims,
            decreases count - i,
        {
            proof {
                assert((i + 1) * vector_dim <= count * vector_dim) by (nonlinear_arith)
                    requires
                        i < count,
                ;
                assert(i * vector_dim <= (i + 1) * vector_dim) by (nonlinear_arith);
                assert((i + 1) * vector_dim == i * vector_dim + vector_dim) by (nonlinear_arith);
            }
            let from = i * vector_dim;
            let vector = vstd::slice::slice_subrange(vectors, from, from + vector_dim);
            match native_add(&mut index, keys[i], vector) {
                Ok(()) => {},
                Err(m) => {
                    self.index = Some(index);
                    return Err(Error { kind: ErrorKind::Index, message: m });
                },
            }
            proof {
                let s = keys@.subrange(0, i as int);
                assert(keys@.subrange(0, i + 1) =~= s.push(keys@[i as int]));
                s.to_multiset_ensures();
                assert(start.add(s.to_multiset()).insert(keys@[i as int]) =~= start.add(
                    s.push(keys@[i as int]).to_multiset(),
                ));
            }
            i = i + 1;
        }
        proof {
            assert(keys@.subrange(0, count as int) =~= keys@);
            keys@.to_multiset_ensures();
        }
        self.index = Some(index);
        Ok(())
    }

    /// Looks up the `count` nearest neighbours of `query`.
    pub fn search<T: VectorType>(&self, query: &[T], count: usize) -> (r: Result<Matches, Error>)
        ensures
            !self.is_ready() ==> (r matches Err(e) && e.kind == ErrorKind::NotFound),
            self.is_ready() && query@.len() != self.spec_dimensions() ==> (r matches Err(e) && e.kind
                == ErrorKind::DimensionMismatch),
    {
        match &self.index {
            None => Err(Error::new(ErrorKind::NotFound, "vector index is not initialised")),
            Some(i) => {
                if query.len() != native_dimensions(i) {
                    return Err(Error::new(ErrorKind::DimensionMismatch, "query length differs from index dimensions"));
                }
                match native_search(i, query, count) {
                    Ok(m) => Ok(m),
                    Err(m) => Err(Error { kind: ErrorKind::Index, message: m }),
                }
            },
        }
    }
}

} // verus!
