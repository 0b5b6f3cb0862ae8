use crate::error::{Error, ErrorKind};
use vstd::prelude::*;

verus! {

/// The serialisation version that this library writes and accepts.
pub const SERIALIZATION_VERSION: u32 = 1;

/// What a collection configuration holds, as mathematical values.
pub struct ConfigView {
    pub name: Seq<char>,
    pub index_columns: Seq<Seq<char>>,
    pub model_name: Seq<char>,
    pub model_variant: Seq<char>,
    pub db_path: Seq<char>,
    pub index_dir: Seq<char>,
    pub serialization_version: u32,
}

/// The configuration of one collection, persisted as `config.json` in the
/// collection's directory.
#[derive(Clone, Debug)]
pub struct CollectionConfig {
    pub name: String,
    pub index_columns: Vec<String>,
    pub model_name: String,
    pub model_variant: String,
    pub db_path: String,
    pub index_dir: String,
    pub serialization_version: u32,
}

impl View for CollectionConfig {
    type V = ConfigView;

    open spec fn view(&self) -> ConfigView {
        ConfigView {
            name: self.name@,
            index_columns: self.index_columns.deep_view(),
            model_name: self.model_name@,
            model_variant: self.model_variant@,
            db_path: self.db_path@,
            index_dir: self.index_dir@,
            serialization_version: self.serialization_version,
        }
    }
}

/// The configuration that every absent field falls back to.
pub open spec fn default_config() -> ConfigView {
    ConfigView {
        name: "default"@,
        index_columns: seq!["text"@],
        model_name: "mys/minilm"@,
        model_variant: "f32"@,
        db_path: "data.db"@,
        index_dir: "index"@,
        serialization_version: 1,
    }
}

/// A configuration is usable when it has a name and the supported version.
pub open spec fn config_valid(c: ConfigView) -> bool {
    c.name.len() > 0 && c.serialization_version == SERIALIZATION_VERSION
}

pub fn default_collection_name() -> (r: String)
    ensures
        r@ == default_config().name,
{
    String::from_str("default")
}

pub fn default_index_columns() -> (r: Vec<String>)
    ensures
        r.deep_view() == default_config().index_columns,
{
    let mut r: Vec<String> = Vec::new();
    r.push(String::from_str("text"));
    assert(r.deep_view() =~= default_config().index_columns);
    r
}

pub fn default_model_name() -> (r: String)
    ensures
        r@ == default_config().model_name,
{
    String::from_str("mys/minilm")
}

pub fn default_model_variant() -> (r: String)
    ensures
        r@ == default_config().model_variant,
{
    String::from_str("f32")
}

pub fn default_db_path() -> (r: String)
    ensures
        r@ == default_config().db_path,
{
    String::from_str("data.db")
}

pub fn default_index_dir() -> (r: String)
    ensures
        r@ == default_config().index_dir,
{
    String::from_str("index")
}

pub fn default_serialization_version() -> (r: u32)
    ensures
        r == default_config().serialization_version,
{
    SERIALIZATION_VERSION
}

/// Copies a list of strings.
pub fn clone_strings(v: &Vec<String>) -> (r: Vec<String>)
    ensures
        r.deep_view() == v.deep_view(),
{
    let mut r: Vec<String> = Vec::new();
    let mut i: usize = 0;
    while i < v.len()
        invariant
            i <= v.len(),
            r@.len() == i,
            forall|j: int| 0 <= j < i ==> #[trigger] r@[j]@ == v@[j]@,
        decreases v.len() - i,
    {
        r.push(v[i].clone());
        i = i + 1;
    }
    assert(r.deep_view() =~= v.deep_view());
    r
}

/// Whether two lists of strings hold the same strings in the same order.
pub fn strings_equal(a: &Vec<String>, b: &Vec<String>) -> (r: bool)
    ensures
        r == (a.deep_view() == b.deep_view()),
{
    if a.len() != b.len() {
        assert(a.deep_view().len() != b.deep_view().len());
        return false;
    }
    let mut i: usize = 0;
    while i < a.len()
        invariant
            i <= a.len(),
            a.len() == b.len(),
            forall|j: int| 0 <= j < i ==> a.deep_view()[j] == b.deep_view()[j],
        decreases a.len() - i,
    {
        if a[i] != b[i] {
            assert(a.deep_view()[i as int] != b.deep_view()[i as int]);
            return false;
        }
        i = i + 1;
    }
    assert(a.deep_view() =~= b.deep_view());
    true
}

/// A configuration as read back from storage: every field may be absent,
/// and an absent field takes its default value.
#[derive(Clone, Debug)]
pub struct StoredConfig {
    pub name: Option<String>,
    pub index_columns: Option<Vec<String>>,
    pub model_name: Option<String>,
    pub model_variant: Option<String>,
    pub db_path: Option<String>,
    pub index_dir: Option<String>,
    pub serialization_version: Option<u32>,
}

/// What a stored configuration holds, as mathematical values.
pub struct StoredView {
    pub name: Option<Seq<char>>,
    pub index_columns: Option<Seq<Seq<char>>>,
    pub model_name: Option<Seq<char>>,
    pub model_variant: Option<Seq<char>>,
    pub db_path: Option<Seq<char>>,
    pub index_dir: Option<Seq<char>>,
    pub serialization_version: Option<u32>,
}

pub open spec fn string_opt_view(o: Option<String>) -> Option<Seq<char>> {
    match o {
        Some(s) => Some(s@),
        None => None,
    }
}

pub open spec fn strings_opt_view(o: Option<Vec<String>>) -> Option<Seq<Seq<char>>> {
    match o {
        Some(v) => Some(v.deep_view()),
        None => None,
    }
}

impl View for StoredConfig {
    type V = StoredView;

    open spec fn view(&self) -> StoredView {
        StoredView {
            name: string_opt_view(self.name),
            index_columns: strings_opt_view(self.index_columns),
            model_name: string_opt_view(self.model_name),
            model_variant: string_opt_view(self.model_variant),
            db_path: string_opt_view(self.db_path),
            index_dir: string_opt_view(self.index_dir),
            serialization_version: self.serialization_version,
        }
    }
}

pub open spec fn or_default<T>(o: Option<T>, d: T) -> T {
    match o {
        Some(v) => v,
        None => d,
    }
}

/// The configuration that a stored one stands for: each absent field is
/// replaced by its default.
pub open spec fn resolve_stored(s: StoredView) -> ConfigView {
    let d = default_config();
    ConfigView {
        name: or_default(s.name, d.name),
        index_columns: or_default(s.index_columns, d.index_columns),
        model_name: or_default(s.model_name, d.model_name),
        model_variant: or_default(s.model_variant, d.model_variant),
        db_path: or_default(s.db_path, d.db_path),
        index_dir: or_default(s.index_dir, d.index_dir),
        serialization_version: or_default(s.serialization_version, d.serialization_version),
    }
}

/// The stored form of a configuration: every field present.
pub open spec fn stored_of(c: ConfigView) -> StoredView {
    StoredView {
        name: Some(c.name),
        index_columns: Some(c.index_columns),
        model_name: Some(c.model_name),
        model_variant: Some(c.model_variant),
        db_path: Some(c.db_path),
        index_dir: Some(c.index_dir),
        serialization_version: Some(c.serialization_version),
    }
}

/// Decoding what was stored gives back the configuration that was stored,
/// and a valid configuration stays valid through storage.
pub proof fn lemma_stored_round_trip(c: ConfigView)
    ensures
        resolve_stored(stored_of(c)) == c,
        config_valid(c) ==> config_valid(resolve_stored(stored_of(c))),
{
}

impl CollectionConfig {
    /// The configuration made only of default values.
    pub fn default() -> (r: CollectionConfig)
        ensures
            r@ == default_config(),
    {
        CollectionConfig {
            name: default_collection_name(),
            index_columns: default_index_columns(),
            model_name: default_model_name(),
            model_variant: default_model_variant(),
            db_path: default_db_path(),
            index_dir: default_index_dir(),
            serialization_version: default_serialization_version(),
        }
    }

    pub fn config(&self) -> (r: CollectionConfig)
        ensures
            r@ == self@,
    {
        CollectionConfig {
            name: self.name.clone(),
            index_columns: clone_strings(&self.index_columns),
            model_name: self.model_name.clone(),
            model_variant: self.model_variant.clone(),
            db_path: self.db_path.clone(),
            index_dir: self.index_dir.clone(),
            serialization_version: self.serialization_version,
        }
    }

    /// The stored form of this configuration, with every field present.
    pub fn to_stored(&self) -> (r: StoredConfig)
        ensures
            r@ == stored_of(self@),
    {
        StoredConfig {
            name: Some(self.name.clone()),
            index_columns: Some(clone_strings(&self.index_columns)),
            model_name: Some(self.model_name.clone()),
            model_variant: Some(self.model_variant.clone()),
            db_path: Some(self.db_path.clone()),
            index_dir: Some(self.index_dir.clone()),
            serialization_version: Some(self.serialization_version),
        }
    }

    /// The configuration that a stored one stands for, absent fields
    /// replaced by their defaults; no check is made.
    pub fn from_stored(s: StoredConfig) -> (r: CollectionConfig)
        ensures
            r@ == resolve_stored(s@),
    {
        let name = match s.name {
            Some(v) => v,
            None => default_collection_name(),
        };
        let index_columns = match s.index_columns {
            Some(v) => v,
            None => default_index_columns(),
        };
        let model_name = match s.model_name {
            Some(v) => v,
            None => default_model_name(),
        };
        let model_variant = match s.model_variant {
            Some(v) => v,
            None => default_model_variant(),
        };
        let db_path = match s.db_path {
            Some(v) => v,
            None => default_db_path(),
        };
        let index_dir = match s.index_dir {
            Some(v) => v,
            None => default_index_dir(),
        };
        let serialization_version = match s.serialization_version {
            Some(v) => v,
            None => default_serialization_version(),
        };
        CollectionConfig {
            name,
            index_columns,
            model_name,
            model_variant,
            db_path,
            index_dir,
            serialization_version,
        }
    }

    /// Reads a stored configuration: absent fields take their defaults, and
    /// the result must have a name and the supported version.
    pub fn decode(s: StoredConfig) -> (r: Result<CollectionConfig, Error>)
        ensures
            r is Ok <==> config_valid(resolve_stored(s@)),
            r matches Ok(c) ==> c@ == resolve_stored(s@),
            resolve_stored(s@).name.len() == 0 ==> (r matches Err(e) && e.kind
                == ErrorKind::InvalidArgument),
            resolve_stored(s@).name.len() > 0 && resolve_stored(s@).serialization_version
                != SERIALIZATION_VERSION ==> (r matches Err(e) && e.kind == ErrorKind::Protocol),
    {
        let c = CollectionConfig::from_stored(s);
        match c.validate() {
            Ok(()) => Ok(c),
            Err(e) => Err(e),
        }
    }

    /// Checks the invariants of a stored configuration: a non-empty name and
    /// the supported serialisation version.
    pub fn validate(&self) -> (r: Result<(), Error>)
        ensures
            r is Ok <==> config_valid(self@),
            self.name@.len() == 0 ==> (r matches Err(e) && e.kind == ErrorKind::InvalidArgument),
            self.name@.len() > 0 && self.serialization_version != SERIALIZATION_VERSION ==> (r matches Err(
                e,
            ) && e.kind == ErrorKind::Protocol),
    {
        if self.name.as_str().is_empty() {
            return Err(Error::new(ErrorKind::InvalidArgument, "collection name must not be empty"));
        }
        if self.serialization_version != SERIALIZATION_VERSION {
            return Err(Error::new(ErrorKind::Protocol, "unsupported serialization version"));
        }
        Ok(())
    }

    /// The models that this collection needs loaded, as (path, variant) pairs.
    pub fn requested_models(&self) -> (r: Vec<(String, String)>)
        ensures
            r@.len() == 1,
            r@[0].0@ == self.model_name@,
            r@[0].1@ == self.model_variant@,
    {
        let mut r: Vec<(String, String)> = Vec::new();
        r.push((self.model_name.clone(), self.model_variant.clone()));
        r
    }
}

impl PartialEq for CollectionConfig {
    fn eq(&self, other: &CollectionConfig) -> (r: bool) {
        self.name == other.name && strings_equal(&self.index_columns, &other.index_columns)
            && self.model_name == other.model_name && self.model_variant == other.model_variant
            && self.db_path == other.db_path && self.index_dir == other.index_dir
            && self.serialization_version == other.serialization_version
    }
}

impl vstd::std_specs::cmp::PartialEqSpecImpl for CollectionConfig {
    open spec fn obeys_eq_spec() -> bool {
        true
    }

    open spec fn eq_spec(&self, other: &CollectionConfig) -> bool {
        self@ == other@
    }
}

} // verus!
