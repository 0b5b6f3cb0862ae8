use crate::collection::Collection;
use crate::config::{clone_strings, CollectionConfig, ConfigView};
use crate::error::{Error, ErrorKind};
use crate::model::{ModelManager, ModelOutputDType};
use vstd::prelude::*;

verus! {

/// The names of a registry after `name` is put in it: unchanged when the
/// name is there already (its entry is replaced), else with `name` added.
pub open spec fn names_after_insert(names: Seq<Seq<char>>, name: Seq<char>) -> Seq<Seq<char>> {
    if names.contains(name) {
        names
    } else {
        names.push(name)
    }
}

/// Creating a collection twice with overwriting leaves the registry with the
/// same names as creating it once: one entry under that name, and nothing
/// else changed.
pub proof fn lemma_overwrite_twice(names: Seq<Seq<char>>, name: Seq<char>)
    ensures
        names_after_insert(names_after_insert(names, name), name) == names_after_insert(names, name),
        names_after_insert(names, name).contains(name),
        forall|n: Seq<char>|
            n != name ==> (#[trigger] names_after_insert(names, name).contains(n) == names.contains(n)),
{
    let once = names_after_insert(names, name);
    if !names.contains(name) {
        assert(once[names.len() as int] == name);
        assert forall|n: Seq<char>| n != name implies #[trigger] once.contains(n) == names.contains(n) by {
            if once.contains(n) {
                let k = choose|k: int| 0 <= k < once.len() && once[k] == n;
                assert(k < names.len());
                assert(names[k] == n);
            }
            if names.contains(n) {
                let k = choose|k: int| 0 <= k < names.len() && names[k] == n;
                assert(once[k] == n);
            }
        }
    }
}

/// The registry of open collections, with the models that they use.
/// Collections are looked up by name; `insert_collection` keeps names
/// unique.
pub struct CollectionManager<D, M> {
    collections: Vec<Collection<D>>,
    model_manager: ModelManager<M>,
    token: Option<String>,
}

impl<D, M> CollectionManager<D, M> {
    pub closed spec fn entries(&self) -> Seq<Collection<D>> {
        self.collections@
    }

    pub closed spec fn models(&self) -> ModelManager<M> {
        self.model_manager
    }

    pub closed spec fn spec_token(&self) -> Option<String> {
        self.token
    }

    /// The names of the registered collections, in registration order.
    pub open spec fn names(&self) -> Seq<Seq<char>> {
        self.entries().map_values(|c: Collection<D>| c.spec_config().name)
    }

    pub open spec fn has(&self, name: Seq<char>) -> bool {
        self.names().contains(name)
    }

    /// The first slot that holds `name`.
    pub open spec fn slot_of(&self, name: Seq<char>) -> int {
        choose|k: int|
            0 <= k < self.names().len() && #[trigger] self.names()[k] == name && forall|j: int|
                0 <= j < k ==> #[trigger] self.names()[j] != name
    }

    /// Names are unique, every collection keeps its own invariant, and so
    /// does the model registry.
    pub open spec fn wf(&self) -> bool {
        &&& forall|a: int, b: int|
            0 <= a < self.entries().len() && 0 <= b < self.entries().len() && a != b
                ==> #[trigger] self.entries()[a].spec_config().name != #[trigger] self.entries()[b].spec_config().name
        &&& forall|k: int| 0 <= k < self.entries().len() ==> #[trigger] self.entries()[k].wf()
        &&& self.models().wf()
    }

    pub fn new(token: Option<String>) -> (r: CollectionManager<D, M>)
        ensures
            r.wf(),
            r.entries().len() == 0,
            r.models().entries().len() == 0,
            r.spec_token() == token,
    {
        CollectionManager { collections: Vec::new(), model_manager: ModelManager::new(), token }
    }

    pub fn token(&self) -> (r: &Option<String>)
        ensures
            *r == self.spec_token(),
    {
        &self.token
    }

    fn find(&self, name: &str) -> (r: Option<usize>)
        ensures
            r is Some <==> self.has(name@),
            r matches Some(k) ==> k == self.slot_of(name@) && k < self.entries().len()
                && self.entries()[k as int].spec_config().name == name@,
    {
        let wanted = String::from_str(name);
        let mut k: usize = 0;
        while k < self.collections.len()
            invariant
                k <= self.collections@.len(),
                wanted@ == name@,
                forall|j: int| 0 <= j < k ==> #[trigger] self.collections@[j].spec_config().name != name@,
            decreases self.collections.len() - k,
        {
            let c = &self.collections[k];
            if *c.name() == wanted {
                proof {
                    assert(self.names()[k as int] == name@);
                    assert forall|j: int| 0 <= j < k implies #[trigger] self.names()[j] != name@ by {
                        assert(self.collections@[j].spec_config().name != name@);
                    }
                    let s = self.slot_of(name@);
                    if s < k {
                        assert(self.names()[s] != name@);
                    }
                    if s > k {
                        assert(self.names()[k as int] != name@);
                    }
                }
                return Some(k);
            }
            k = k + 1;
        }
        proof {
            if self.has(name@) {
                let j = choose|j: int| 0 <= j < self.names().len() && self.names()[j] == name@;
                assert(self.collections@[j].spec_config().name == name@);
            }
        }
        None
    }

    /// Puts a collection in the registry under its name. A name that is
    /// taken is replaced when `overwrite` is set and refused otherwise.
    pub fn insert_collection(&mut self, collection: Collection<D>, overwrite: bool) -> (r: Result<(), Error>)
        requires
            old(self).wf(),
            collection.wf(),
        ensures
            final(self).wf(),
            final(self).models() == old(self).models(),
            final(self).spec_token() == old(self).spec_token(),
            r is Err <==> old(self).has(collection.spec_config().name) && !overwrite,
            r matches Err(e) ==> e.kind == ErrorKind::AlreadyExists && final(self).entries() == old(self).entries(),
            r is Ok ==> final(self).names() == names_after_insert(
                old(self).names(),
                collection.spec_config().name,
            ) && final(self).has(collection.spec_config().name) && final(self).entries()[final(self).slot_of(collection.spec_config().name)] == collection,
    {
        let ghost name = collection.spec_config().name;
        let ghost c = collection;
        let found = {
            let n = collection.name();
            self.find(n.as_str())
        };
        match found {
            Some(k) => {
                if !overwrite {
                    return Err(Error::new(ErrorKind::AlreadyExists, "collection already exists"));
                }
                self.collections.set(k, collection);
                proof {
                    assert(self.names() =~= old(self).names());
                    assert(names_after_insert(old(self).names(), name) == old(self).names()) by {
                        assert(old(self).names()[k as int] == name);
                    }
                    assert forall|a: int, b: int|
                        0 <= a < self.entries().len() && 0 <= b < self.entries().len() && a
                            != b implies #[trigger] self.entries()[a].spec_config().name
                        != #[trigger] self.entries()[b].spec_config().name by {
                        assert(old(self).entries()[a].spec_config().name != old(self).entries()[b].spec_config().name);
                    }
                    assert(self.names()[k as int] == name);
                    let s = self.slot_of(name);
                    assert forall|j: int| 0 <= j < k implies #[trigger] self.names()[j] != name by {
                        assert(old(self).names()[j] != name);
                    }
                    if s != k {
                        assert(self.names()[s] == name);
                        assert(self.entries()[s].spec_config().name == name);
                    }
                }
                Ok(())
            },
            None => {
                self.collections.push(collection);
                proof {
                    let last = self.entries().len() - 1;
                    assert(self.names() =~= old(self).names().push(name));
                    assert forall|j: int| 0 <= j < last implies #[trigger] self.names()[j] != name by {
                        assert(old(self).names()[j] == self.names()[j]);
                    }
                    assert forall|a: int, b: int|
                        0 <= a < self.entries().len() && 0 <= b < self.entries().len() && a
                            != b implies #[trigger] self.entries()[a].spec_config().name
                        != #[trigger] self.entries()[b].spec_config().name by {
                        if a != last && b != last {
                            assert(old(self).entries()[a].spec_config().name != old(self).entries()[b].spec_config().name);
                        }
                        if a == last {
                            assert(self.names()[b] != name);
                        }
                        if b == last {
                            assert(self.names()[a] != name);
                        }
                    }
                    assert(self.names()[last] == name);
                    let s = self.slot_of(name);
                    if s != last {
                        assert(self.names()[s] == name);
                        assert(old(self).names()[s] == name);
                    }
                }
                Ok(())
            },
        }
    }

    /// The names of the registered collections.
    pub fn get_collections(&self) -> (r: Vec<String>)
        ensures
            r.deep_view() == self.names(),
    {
        let mut r: Vec<String> = Vec::new();
        let mut k: usize = 0;
        while k < self.collections.len()
            invariant
                k <= self.collections@.len(),
                r@.len() == k,
                forall|j: int| 0 <= j < k ==> #[trigger] r@[j]@ == self.names()[j],
            decreases self.collections.len() - k,
        {
            r.push(self.collections[k].name().clone());
            k = k + 1;
        }
        assert(r.deep_view() =~= self.names());
        r
    }

    /// The configurations of the registered collections.
    pub fn get_collection_configs(&self) -> (r: Vec<CollectionConfig>)
        ensures
            r@.len() == self.entries().len(),
            forall|k: int| 0 <= k < r@.len() ==> #[trigger] r@[k]@ == self.entries()[k].spec_config(),
    {
        let mut r: Vec<CollectionConfig> = Vec::new();
        let mut k: usize = 0;
        while k < self.collections.len()
            invariant
                k <= self.collections@.len(),
                r@.len() == k,
                forall|j: int| 0 <= j < k ==> #[trigger] r@[j]@ == self.entries()[j].spec_config(),
            decreases self.collections.len() - k,
        {
            r.push(self.collections[k].config());
            k = k + 1;
        }
        r
    }

    /// The configuration of the collection `name`.
    pub fn get_collection_config(&self, name: &str) -> (r: Result<CollectionConfig, Error>)
        ensures
            r is Ok <==> self.has(name@),
            r matches Ok(c) ==> c@ == self.entries()[self.slot_of(name@)].spec_config(),
            r matches Err(e) ==> e.kind == ErrorKind::NotFound,
    {
        match self.find(name) {
            Some(k) => Ok(self.collections[k].config()),
            None => Err(Error::new(ErrorKind::NotFound, "Collection does not exist")),
        }
    }

    /// The collection `name`.
    pub fn collection(&self, name: &str) -> (r: Result<&Collection<D>, Error>)
        ensures
            r is Ok <==> self.has(name@),
            r matches Ok(c) ==> *c == self.entries()[self.slot_of(name@)],
            r matches Err(e) ==> e.kind == ErrorKind::NotFound,
    {
        match self.find(name) {
            Some(k) => Ok(&self.collections[k]),
            None => Err(Error::new(ErrorKind::NotFound, "Collection does not exist")),
        }
    }

    pub fn model_manager(&self) -> (r: &ModelManager<M>)
        ensures
            *r == self.models(),
    {
        &self.model_manager
    }

    /// The models that `collection` needs and that are not loaded yet.
    pub fn missing_models(&self, collection: &Collection<D>) -> (r: Vec<(String, String)>)
        requires
            self.wf(),
        ensures
            r@.len() <= 1,
            r@.len() == 0 <==> self.models().has_pair(
                collection.spec_config().model_name,
                collection.spec_config().model_variant,
            ),
            r@.len() == 1 ==> r@[0].0@ == collection.spec_config().model_name && r@[0].1@
                == collection.spec_config().model_variant,
    {
        let requested = collection.requested_models();
        let mut missing: Vec<(String, String)> = Vec::new();
        let pair = &requested[0];
        if self.model_manager.lookup(&pair.0, &pair.1).is_none() {
            missing.push((pair.0.clone(), pair.1.clone()));
        }
        missing
    }

    /// Registers a loaded model session; see `ModelManager::register`.
    pub fn register_model(
        &mut self,
        path: String,
        variant: String,
        output_dtype: ModelOutputDType,
        output_dim: u64,
        session: M,
    ) -> (r: Result<u32, Error>)
        requires
            old(self).wf(),
        ensures
            final(self).wf(),
            final(self).entries() == old(self).entries(),
            final(self).spec_token() == old(self).spec_token(),
            r matches Ok(id) ==> final(self).models().has_id(id) && final(self).models().has_pair(path@, variant@),
            old(self).models().has_pair(path@, variant@) ==> r == Ok::<u32, Error>(
                old(self).models().entries()[old(self).models().slot_of_pair(path@, variant@)].id,
            ),
    {
        let r = self.model_manager.register(path, variant, output_dtype, output_dim, session);
        assert(self.entries() == old(self).entries());
        assert forall|a: int, b: int|
            0 <= a < self.entries().len() && 0 <= b < self.entries().len() && a != b implies #[trigger] self.entries()[a].spec_config().name
            != #[trigger] self.entries()[b].spec_config().name by {
            assert(old(self).entries()[a].spec_config().name != old(self).entries()[b].spec_config().name);
        }
        assert forall|k: int| 0 <= k < self.entries().len() implies #[trigger] self.entries()[k].wf() by {
            assert(old(self).entries()[k].wf());
        }
        r
    }

    /// The handle of the model that the collection `name` was created with.
    pub fn model_id_for(&self, name: &str) -> (r: Result<u32, Error>)
        requires
            self.wf(),
        ensures
            !self.has(name@) ==> (r matches Err(e) && e.kind == ErrorKind::NotFound),
            self.has(name@) ==> (r is Ok <==> self.models().has_pair(
                self.entries()[self.slot_of(name@)].spec_config().model_name,
                self.entries()[self.slot_of(name@)].spec_config().model_variant,
            )),
            r matches Ok(id) ==> id == self.models().entries()[self.models().slot_of_pair(
                self.entries()[self.slot_of(name@)].spec_config().model_name,
                self.entries()[self.slot_of(name@)].spec_config().model_variant,
            )].id,
            r matches Err(e) ==> e.kind == ErrorKind::NotFound,
    {
        let k = match self.find(name) {
            Some(k) => k,
            None => {
                return Err(Error::new(ErrorKind::NotFound, "Collection does not exist"));
            },
        };
        let config = self.collections[k].config();
        match self.model_manager.lookup(&config.model_name, &config.model_variant) {
            Some(id) => Ok(id),
            None => Err(Error::new(ErrorKind::NotFound, "Model requested by collection is not loaded")),
        }
    }
    /// Replacing the collection in one slot by one of the same name that
    /// keeps its own invariant keeps the registry's invariant, its names and
    /// its lookups.
    proof fn lemma_replace_slot(before: &Self, after: &Self, k: int)
        requires
            before.wf(),
            0 <= k < before.entries().len(),
            after.entries() == before.entries().update(k, after.entries()[k]),
            after.entries()[k].spec_config().name == before.entries()[k].spec_config().name,
            after.entries()[k].wf(),
            after.models() == before.models(),
        ensures
            after.wf(),
            after.names() == before.names(),
            forall|n: Seq<char>| #[trigger] after.slot_of(n) == before.slot_of(n),
    {
        assert(after.names() =~= before.names());
        assert forall|a: int, b: int|
            0 <= a < after.entries().len() && 0 <= b < after.entries().len() && a
                != b implies #[trigger] after.entries()[a].spec_config().name
            != #[trigger] after.entries()[b].spec_config().name by {
            assert(after.names()[a] == before.names()[a]);
            assert(after.names()[b] == before.names()[b]);
            assert(before.entries()[a].spec_config().name != before.entries()[b].spec_config().name);
        }
        assert forall|j: int| 0 <= j < after.entries().len() implies #[trigger] after.entries()[j].wf() by {
            if j != k {
                assert(before.entries()[j].wf());
            }
        }
    }

    /// Makes sure column `column` of the collection `name` has an index of
    /// `dimensions`; see `Collection::prepare_index`.
    pub fn prepare_index(&mut self, name: &str, column: &str, dimensions: usize, index_path: String) -> (r:
        Result<bool, Error>)
        requires
            old(self).wf(),
        ensures
            final(self).wf(),
            final(self).names() == old(self).names(),
            final(self).models() == old(self).models(),
            final(self).spec_token() == old(self).spec_token(),
            !old(self).has(name@) ==> (r matches Err(e) && e.kind == ErrorKind::NotFound),
            old(self).has(name@) ==> final(self).entries() == old(self).entries().update(
                old(self).slot_of(name@),
                final(self).entries()[old(self).slot_of(name@)],
            ),
            r is Ok ==> old(self).has(name@) && final(self).entries()[old(self).slot_of(name@)].has_column(
                column@,
            ) && final(self).entries()[old(self).slot_of(name@)].index_of(column@).is_ready()
                && final(self).entries()[old(self).slot_of(name@)].index_of(column@).spec_dimensions()
                == dimensions,
            old(self).has(name@) && old(self).entries()[old(self).slot_of(name@)].has_column(column@)
                && old(self).entries()[old(self).slot_of(name@)].index_of(column@).is_ready()
                && old(self).entries()[old(self).slot_of(name@)].index_of(column@).spec_dimensions()
                != dimensions ==> (r matches Err(e) && e.kind == ErrorKind::DimensionMismatch),
    {
        let k = match self.find(name) {
            Some(k) => k,
            None => {
                return Err(Error::new(ErrorKind::NotFound, "Collection does not exist"));
            },
        };
        let mut c = self.collections.remove(k);
        proof {
            assert(old(self).entries()[k as int] == c);
            assert(old(self).entries()[k as int].wf());
        }
        let r = c.prepare_index(column, dimensions, index_path);
        self.collections.insert(k, c);
        proof {
            assert(self.entries() =~= old(self).entries().update(k as int, self.entries()[k as int]));
            Self::lemma_replace_slot(old(self), self, k as int);
        }
        r
    }

    /// Inserts a batch of embeddings into column `column` of the collection
    /// `name`; the i-th vector of a batch that starts at row `offset` gets
    /// key `offset + i`. See `Collection::add_batch`.
    pub fn add_batch<T: usearch::VectorType>(
        &mut self,
        name: &str,
        column: &str,
        offset: u64,
        vectors: &[T],
        rows: usize,
        dim: usize,
    ) -> (r: Result<(), Error>)
        requires
            old(self).wf(),
            rows * dim == vectors@.len(),
        ensures
            final(self).wf(),
            final(self).names() == old(self).names(),
            final(self).models() == old(self).models(),
            final(self).spec_token() == old(self).spec_token(),
            !old(self).has(name@) ==> (r matches Err(e) && e.kind == ErrorKind::NotFound),
            old(self).has(name@) ==> final(self).entries() == old(self).entries().update(
                old(self).slot_of(name@),
                final(self).entries()[old(self).slot_of(name@)],
            ),
            old(self).has(name@) && !old(self).entries()[old(self).slot_of(name@)].has_column(column@)
                ==> (r matches Err(e) && e.kind == ErrorKind::NotFound),
            old(self).has(name@) && old(self).entries()[old(self).slot_of(name@)].has_column(column@)
                && old(self).entries()[old(self).slot_of(name@)].index_of(column@).is_ready() && dim
                != old(self).entries()[old(self).slot_of(name@)].index_of(column@).spec_dimensions() ==> (r matches Err(e)
                && e.kind == ErrorKind::DimensionMismatch),
            r is Ok ==> old(self).has(name@) && final(self).entries()[old(self).slot_of(name@)].index_of(
                column@,
            ).entries() == old(self).entries()[old(self).slot_of(name@)].index_of(column@).entries().add(
                crate::collection::key_range(offset as nat, rows as nat).to_multiset(),
            ),
    {
        let k = match self.find(name) {
            Some(k) => k,
            None => {
                return Err(Error::new(ErrorKind::NotFound, "Collection does not exist"));
            },
        };
        let mut c = self.collections.remove(k);
        proof {
            assert(old(self).entries()[k as int] == c);
            assert(old(self).entries()[k as int].wf());
        }
        let r = c.add_batch(column, offset, vectors, rows, dim);
        self.collections.insert(k, c);
        proof {
            assert(self.entries() =~= old(self).entries().update(k as int, self.entries()[k as int]));
            Self::lemma_replace_slot(old(self), self, k as int);
        }
        r
    }

    /// Gives column `column` of the collection `name` the index `index`,
    /// restored from disk; see `Collection::attach_index`.
    pub fn attach_index(&mut self, name: &str, column: String, index: crate::vector_index::VectorIndex) -> (r:
        Result<(), Error>)
        requires
            old(self).wf(),
        ensures
            final(self).wf(),
            final(self).names() == old(self).names(),
            final(self).models() == old(self).models(),
            r is Ok <==> old(self).has(name@),
            r matches Err(e) ==> e.kind == ErrorKind::NotFound,
            r is Ok ==> final(self).entries()[old(self).slot_of(name@)].has_column(column@)
                && final(self).entries()[old(self).slot_of(name@)].index_of(column@) == index,
    {
        let k = match self.find(name) {
            Some(k) => k,
            None => {
                return Err(Error::new(ErrorKind::NotFound, "Collection does not exist"));
            },
        };
        let mut c = self.collections.remove(k);
        proof {
            assert(old(self).entries()[k as int] == c);
            assert(old(self).entries()[k as int].wf());
        }
        c.attach_index(column, index);
        self.collections.insert(k, c);
        proof {
            assert(self.entries() =~= old(self).entries().update(k as int, self.entries()[k as int]));
            Self::lemma_replace_slot(old(self), self, k as int);
        }
        Ok(())
    }

    /// Looks up the `limit` nearest neighbours of `query` in column
    /// `column` of the collection `name`. A limit outside `[1, MAX_LIMIT]`
    /// is refused before any index is consulted.
    pub fn search<T: usearch::VectorType>(&self, name: &str, column: &str, query: &[T], limit: u32) -> (r:
        Result<usearch::ffi::Matches, Error>)
        requires
            self.wf(),
        ensures
            !crate::search::limit_allowed(limit) ==> (r matches Err(e) && e.kind == ErrorKind::InvalidArgument),
            crate::search::limit_allowed(limit) && !self.has(name@) ==> (r matches Err(e) && e.kind
                == ErrorKind::NotFound),
            crate::search::limit_allowed(limit) && self.has(name@) && !self.entries()[self.slot_of(
                name@,
            )].has_column(column@) ==> (r matches Err(e) && e.kind == ErrorKind::NotFound),
    {
        let limit = crate::search::resolve_limit(Some(limit))?;
        let k = match self.find(name) {
            Some(k) => k,
            None => {
                return Err(Error::new(ErrorKind::NotFound, "Collection does not exist"));
            },
        };
        proof {
            assert(self.entries()[k as int].wf());
        }
        self.collections[k].search(column, query, limit)
    }
}

} // verus!
