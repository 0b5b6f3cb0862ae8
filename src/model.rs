use crate::error::{Error, ErrorKind};
use vstd::prelude::*;

verus! {

/// Inference runtime a model is run with.
#[derive(Clone, Copy, Debug, PartialEq, Eq, Structural)]
pub enum Backend {
    ONNX,
}

/// Element type of the embeddings that a model produces.
#[derive(Clone, Copy, Debug, PartialEq, Eq, Structural)]
pub enum ModelOutputDType {
    F32,
    F16,
    Int8,
}

/// The output type named by a network's output tensor: half precision for
/// `f16`, single precision for anything else.
pub open spec fn dtype_of_name(name: Seq<char>) -> ModelOutputDType {
    if name == "f16"@ {
        ModelOutputDType::F16
    } else {
        ModelOutputDType::F32
    }
}

pub fn output_dtype_from_name(name: &str) -> (r: ModelOutputDType)
    ensures
        r == dtype_of_name(name@),
{
    let n = String::from_str(name);
    let half = String::from_str("f16");
    if n == half {
        ModelOutputDType::F16
    } else {
        ModelOutputDType::F32
    }
}

/// Whether a network's inputs include `token_type_ids`.
pub fn needs_token_type_ids(input_names: &Vec<String>) -> (r: bool)
    ensures
        r == exists|k: int| 0 <= k < input_names@.len() && #[trigger] input_names@[k]@
            == "token_type_ids"@,
{
    let wanted = String::from_str("token_type_ids");
    let mut i: usize = 0;
    while i < input_names.len()
        invariant
            i <= input_names@.len(),
            wanted@ == "token_type_ids"@,
            forall|k: int| 0 <= k < i ==> #[trigger] input_names@[k]@ != "token_type_ids"@,
        decreases input_names.len() - i,
    {
        if input_names[i] == wanted {
            return true;
        }
        i = i + 1;
    }
    false
}

/// The rows of a batch laid out one after another.
pub open spec fn flatten(rows: Seq<Seq<u32>>) -> Seq<i64>
    decreases rows.len(),
{
    if rows.len() == 0 {
        Seq::empty()
    } else {
        flatten(rows.drop_last()) + rows.last().map_values(|x: u32| x as i64)
    }
}

/// A batch of token rows of equal length, in row-major order.
pub struct TokenMatrix {
    pub data: Vec<i64>,
    pub rows: usize,
    pub cols: usize,
}

/// Packs the token rows of a padded batch into one `rows × cols` matrix.
/// Rows of unequal length are rejected; an empty batch gives an empty
/// matrix.
pub fn pack_rows(rows: &Vec<Vec<u32>>) -> (r: Result<TokenMatrix, Error>)
    ensures
        r is Ok <==> forall|i: int| 0 <= i < rows@.len() ==> #[trigger] rows@[i]@.len() == rows@[0]@.len(),
        r matches Ok(m) ==> m.rows == rows@.len() && (rows@.len() > 0 ==> m.cols == rows@[0]@.len())
            && m.data@ == flatten(rows.deep_view()),
        r matches Err(e) ==> e.kind == ErrorKind::InvalidArgument,
{
    let n = rows.len();
    let mut data: Vec<i64> = Vec::new();
    if n == 0 {
        assert(rows.deep_view() =~= Seq::<Seq<u32>>::empty());
        return Ok(TokenMatrix { data, rows: 0, cols: 0 });
    }
    let cols = rows[0].len();
    let mut i: usize = 0;
    while i < n
        invariant
            i <= n,
            n == rows@.len(),
            cols == rows@[0]@.len(),
            forall|k: int| 0 <= k < i ==> #[trigger] rows@[k]@.len() == cols,
            data@ == flatten(rows.deep_view().subrange(0, i as int)),
        decreases n - i,
    {
        let row = &rows[i];
        if row.len() != cols {
            return Err(Error::new(ErrorKind::InvalidArgument, "token rows differ in length"));
        }
        let ghost before = data@;
        let mut j: usize = 0;
        while j < row.len()
            invariant
                j <= row@.len(),
                row == rows@[i as int],
                data@ == before + row@.subrange(0, j as int).map_values(|x: u32| x as i64),
            decreases row.len() - j,
        {
            data.push(row[j] as i64);
            j = j + 1;
            assert(data@ =~= before + row@.subrange(0, j as int).map_values(|x: u32| x as i64));
        }
        proof {
            let s = rows.deep_view().subrange(0, i + 1);
            assert(s.drop_last() =~= rows.deep_view().subrange(0, i as int));
            assert(row@.subrange(0, row@.len() as int) =~= row@);
            assert(s.last() == row@);
        }
        i = i + 1;
    }
    assert(rows.deep_view().subrange(0, n as int) =~= rows.deep_view());
    Ok(TokenMatrix { data, rows: n, cols })
}

/// A loaded model: where it came from, what it produces, and its session.
pub struct LoadedModel<M> {
    pub id: u32,
    pub path: String,
    pub variant: String,
    pub output_dtype: ModelOutputDType,
    pub output_dim: u64,
    pub session: M,
}

/// The registry of loaded models. Handles are handed out in increasing
/// order from 1, and one (path, variant) pair is loaded at most once.
pub struct ModelManager<M> {
    models: Vec<LoadedModel<M>>,
    next_id: u32,
}

impl<M> ModelManager<M> {
    pub closed spec fn entries(&self) -> Seq<LoadedModel<M>> {
        self.models@
    }

    pub closed spec fn spec_next_id(&self) -> u32 {
        self.next_id
    }

    /// Handles are unique, below the next handle, and pairs are unique.
    pub closed spec fn wf(&self) -> bool {
        &&& self.next_id >= 1
        &&& forall|k: int| 0 <= k < self.models@.len() ==> #[trigger] self.models@[k].id < self.next_id
        &&& forall|a: int, b: int|
            0 <= a < b < self.models@.len() ==> #[trigger] self.models@[a].id < #[trigger] self.models@[b].id
        &&& forall|a: int, b: int|
            0 <= a < self.models@.len() && 0 <= b < self.models@.len() && a != b ==> !(
            #[trigger] self.models@[a].path@ == #[trigger] self.models@[b].path@ && self.models@[a].variant@
                == self.models@[b].variant@)
    }

    pub open spec fn has_id(&self, id: u32) -> bool {
        exists|k: int| 0 <= k < self.entries().len() && #[trigger] self.entries()[k].id == id
    }

    pub open spec fn slot_of(&self, id: u32) -> int {
        choose|k: int| 0 <= k < self.entries().len() && #[trigger] self.entries()[k].id == id
    }

    pub open spec fn has_pair(&self, path: Seq<char>, variant: Seq<char>) -> bool {
        exists|k: int|
            0 <= k < self.entries().len() && #[trigger] self.entries()[k].path@ == path
                && self.entries()[k].variant@ == variant
    }

    pub open spec fn slot_of_pair(&self, path: Seq<char>, variant: Seq<char>) -> int {
        choose|k: int|
            0 <= k < self.entries().len() && #[trigger] self.entries()[k].path@ == path
                && self.entries()[k].variant@ == variant
    }

    pub fn new() -> (r: ModelManager<M>)
        ensures
            r.wf(),
            r.entries().len() == 0,
            r.spec_next_id() == 1,
    {
        ModelManager { models: Vec::new(), next_id: 1 }
    }

    fn find_pair(&self, path: &String, variant: &String) -> (r: Option<usize>)
        ensures
            r is Some <==> self.has_pair(path@, variant@),
            r matches Some(k) ==> k < self.entries().len() && self.entries()[k as int].path@ == path@
                && self.entries()[k as int].variant@ == variant@,
    {
        let mut k: usize = 0;
        while k < self.models.len()
            invariant
                k <= self.models@.len(),
                forall|j: int|
                    0 <= j < k ==> !(#[trigger] self.models@[j].path@ == path@ && self.models@[j].variant@
                        == variant@),
            decreases self.models.len() - k,
        {
            if self.models[k].path == *path && self.models[k].variant == *variant {
                return Some(k);
            }
            k = k + 1;
        }
        None
    }

    fn find_id(&self, id: u32) -> (r: Option<usize>)
        ensures
            r is Some <==> self.has_id(id),
            r matches Some(k) ==> k < self.entries().len() && self.entries()[k as int].id == id,
    {
        let mut k: usize = 0;
        while k < self.models.len()
            invariant
                k <= self.models@.len(),
                forall|j: int| 0 <= j < k ==> #[trigger] self.models@[j].id != id,
            decreases self.models.len() - k,
        {
            if self.models[k].id == id {
                return Some(k);
            }
            k = k + 1;
        }
        None
    }

    /// The handle of the model loaded from `path` in `variant`, if any.
    pub fn lookup(&self, path: &String, variant: &String) -> (r: Option<u32>)
        requires
            self.wf(),
        ensures
            r is Some <==> self.has_pair(path@, variant@),
            r matches Some(id) ==> id == self.entries()[self.slot_of_pair(path@, variant@)].id,
    {
        match self.find_pair(path, variant) {
            Some(k) => {
                proof {
                    let c = self.slot_of_pair(path@, variant@);
                    assert(c == k);
                }
                Some(self.models[k].id)
            },
            None => None,
        }
    }

    /// Registers a model session loaded from `path` in `variant`. A pair
    /// that is registered already keeps its first session and handle;
    /// otherwise the session gets the next handle.
    pub fn register(
        &mut self,
        path: String,
        variant: String,
        output_dtype: ModelOutputDType,
        output_dim: u64,
        session: M,
    ) -> (r: Result<u32, Error>)
        requires
            old(self).wf(),
        ensures
            final(self).wf(),
            old(self).has_pair(path@, variant@) ==> r == Ok::<u32, Error>(
                old(self).entries()[old(self).slot_of_pair(path@, variant@)].id,
            ) && final(self).entries() == old(self).entries() && final(self).spec_next_id()
                == old(self).spec_next_id(),
            !old(self).has_pair(path@, variant@) && old(self).spec_next_id() < u32::MAX ==> r
                == Ok::<u32, Error>(old(self).spec_next_id()),
            !old(self).has_pair(path@, variant@) && old(self).spec_next_id() == u32::MAX ==> (r matches Err(
                e,
            ) && e.kind == ErrorKind::Unsupported && final(self).entries() == old(self).entries()),
            r matches Ok(id) ==> final(self).has_id(id) && final(self).has_pair(path@, variant@)
                && final(self).entries()[final(self).slot_of(id)].path@ == path@
                && final(self).entries()[final(self).slot_of(id)].variant@ == variant@,
            r matches Ok(id) ==> (!old(self).has_pair(path@, variant@) ==> final(self).entries()
                == old(self).entries().push(final(self).entries().last()) && final(self).entries().last().id
                == id && final(self).entries().last().output_dtype == output_dtype
                && final(self).entries().last().output_dim == output_dim),
    {
        match self.find_pair(&path, &variant) {
            Some(k) => {
                proof {
                    let c = self.slot_of_pair(path@, variant@);
                    assert(c == k);
                    assert(self.has_id(self.models@[k as int].id));
                    let s = self.slot_of(self.models@[k as int].id);
                    assert(s == k);
                }
                return Ok(self.models[k].id);
            },
            None => {},
        }
        if self.next_id == u32::MAX {
            return Err(Error::new(ErrorKind::Unsupported, "no model handle is left"));
        }
        let id = self.next_id;
        let ghost p = path@;
        let ghost v = variant@;
        self.models.push(LoadedModel { id, path, variant, output_dtype, output_dim, session });
        self.next_id = id + 1;
        proof {
            let last = self.models@.len() - 1;
            assert(self.models@[last].id == id);
            assert(self.has_id(id));
            let s = self.slot_of(id);
            assert(s == last);
            assert(self.entries()[last].path@ == p && self.entries()[last].variant@ == v);
            assert(self.has_pair(p, v));
        }
        Ok(id)
    }

    /// The length of the embeddings that a model produces.
    pub fn output_dim(&self, model_id: u32) -> (r: Result<u64, Error>)
        requires
            self.wf(),
        ensures
            r is Ok <==> self.has_id(model_id),
            r matches Ok(d) ==> d == self.entries()[self.slot_of(model_id)].output_dim,
            r matches Err(e) ==> e.kind == ErrorKind::NotFound,
    {
        match self.find_id(model_id) {
            Some(k) => {
                proof {
                    let s = self.slot_of(model_id);
                    assert(s == k);
                }
                Ok(self.models[k].output_dim)
            },
            None => Err(Error::new(ErrorKind::NotFound, "Model not loaded")),
        }
    }

    /// The element type of the embeddings that a model produces.
    pub fn output_dtype(&self, model_id: u32) -> (r: Result<ModelOutputDType, Error>)
        requires
            self.wf(),
        ensures
            r is Ok <==> self.has_id(model_id),
            r matches Ok(t) ==> t == self.entries()[self.slot_of(model_id)].output_dtype,
            r matches Err(e) ==> e.kind == ErrorKind::NotFound,
    {
        match self.find_id(model_id) {
            Some(k) => {
                proof {
                    let s = self.slot_of(model_id);
                    assert(s == k);
                }
                Ok(self.models[k].output_dtype)
            },
            None => Err(Error::new(ErrorKind::NotFound, "Model not loaded")),
        }
    }

    /// The output type that a prediction with this model is made in: the
    /// model's own, where it is one that inference supports.
    pub fn predict_dtype(&self, model_id: u32) -> (r: Result<ModelOutputDType, Error>)
        requires
            self.wf(),
        ensures
            !self.has_id(model_id) ==> (r matches Err(e) && e.kind == ErrorKind::NotFound),
            self.has_id(model_id) && self.entries()[self.slot_of(model_id)].output_dtype
                == ModelOutputDType::Int8 ==> (r matches Err(e) && e.kind == ErrorKind::Unsupported),
            self.has_id(model_id) && self.entries()[self.slot_of(model_id)].output_dtype
                != ModelOutputDType::Int8 ==> r == Ok::<ModelOutputDType, Error>(
                self.entries()[self.slot_of(model_id)].output_dtype,
            ),
    {
        let t = self.output_dtype(model_id)?;
        match t {
            ModelOutputDType::Int8 => Err(
                Error::new(ErrorKind::Unsupported, "int8 dynamic quantization not yet implemented"),
            ),
            _ => Ok(t),
        }
    }

    /// The session of a loaded model.
    pub fn session(&self, model_id: u32) -> (r: Result<&M, Error>)
        requires
            self.wf(),
        ensures
            r is Ok <==> self.has_id(model_id),
            r matches Ok(s) ==> *s == self.entries()[self.slot_of(model_id)].session,
            r matches Err(e) ==> e.kind == ErrorKind::NotFound,
    {
        match self.find_id(model_id) {
            Some(k) => {
                proof {
                    let s = self.slot_of(model_id);
                    assert(s == k);
                }
                Ok(&self.models[k].session)
            },
            None => Err(Error::new(ErrorKind::NotFound, "Model not found")),
        }
    }
}

} // verus!
