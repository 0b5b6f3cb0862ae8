use crate::error::{Error, ErrorKind};
use vstd::prelude::*;

verus! {

/// A model listed by the hub.
#[allow(non_snake_case)]
#[derive(Clone, Debug)]
pub struct Model {
    pub id: String,
    pub likes: Option<u64>,
    pub private: bool,
    pub downloads: Option<u64>,
    pub tags: Option<Vec<String>>,
    pub modelId: String,
}

/// A file of a hub repository.
#[allow(non_snake_case)]
#[derive(Clone, Debug)]
pub struct RepoFile {
    pub rfilename: String,
    pub size: Option<u64>,
    pub blobId: Option<String>,
    pub lfs: Option<BlobLfsInfo>,
}

/// Large-file storage details of a repository file.
#[derive(Clone, Debug)]
pub struct BlobLfsInfo {
    pub size: Option<u64>,
    pub sha256: Option<String>,
    pub pointer_size: Option<u64>,
}

/// The scheme that marks a hub model path.
pub open spec fn hub_scheme() -> Seq<char> {
    "hf://"@
}

/// A model path without its hub scheme.
pub open spec fn repo_id_of(path: Seq<char>) -> Seq<char> {
    if path.len() >= hub_scheme().len() && path.subrange(0, hub_scheme().len() as int) == hub_scheme() {
        path.subrange(hub_scheme().len() as int, path.len() as int)
    } else {
        path
    }
}

/// Whether `i` is the position of the first `/` of `s`.
pub open spec fn is_first_slash(s: Seq<char>, i: int) -> bool {
    0 <= i < s.len() && s[i] == '/' && forall|j: int| 0 <= j < i ==> #[trigger] s[j] != '/'
}

/// A hub repository named by a model path: `org/repo`.
pub struct RepoId {
    pub repo_id: String,
    pub org: String,
    pub repo: String,
}

/// Splits a model path such as `hf://org/repo` into the repository id
/// `org/repo` and its two parts, split at the first `/`. A path with no
/// `/` after the scheme is not a hub path.
pub fn parse_model_path(model_path: &str) -> (r: Result<RepoId, Error>)
    ensures
        r is Ok <==> exists|i: int| is_first_slash(repo_id_of(model_path@), i),
        r matches Ok(id) ==> id.repo_id@ == repo_id_of(model_path@) && (exists|i: int|
            is_first_slash(repo_id_of(model_path@), i) && id.org@ == repo_id_of(model_path@).subrange(
                0,
                i,
            ) && id.repo@ == repo_id_of(model_path@).subrange(i + 1, repo_id_of(model_path@).len() as int)),
        r matches Err(e) ==> e.kind == ErrorKind::InvalidArgument,
{
    let scheme = "hf://";
    proof {
        reveal_strlit("hf://");
    }
    let n = model_path.unicode_len();
    let mut has_scheme = n >= 5;
    if has_scheme {
        let mut i: usize = 0;
        while i < 5
            invariant
                n == model_path@.len(),
                n >= 5,
                scheme@ == hub_scheme(),
                scheme@.len() == 5,
                i <= 5,
                has_scheme <==> forall|j: int| 0 <= j < i ==> #[trigger] model_path@[j] == scheme@[j],
            decreases 5 - i,
        {
            if model_path.get_char(i) != scheme.get_char(i) {
                has_scheme = false;
            }
            i = i + 1;
        }
        proof {
            if !has_scheme {
                let j = choose|j: int| 0 <= j < 5 && model_path@[j] != scheme@[j];
                assert(model_path@.subrange(0, 5)[j] != hub_scheme()[j]);
            }
        }
    }
    if has_scheme {
        assert(model_path@.subrange(0, 5) =~= hub_scheme());
    }
    let id = if has_scheme {
        model_path.substring_char(5, n)
    } else {
        model_path.substring_char(0, n)
    };
    assert(id@ == repo_id_of(model_path@)) by {
        if !has_scheme {
            assert(model_path@.subrange(0, n as int) =~= model_path@);
        }
    }
    let m = id.unicode_len();
    let mut k: usize = 0;
    while k < m
        invariant
            m == id@.len(),
            id@ == repo_id_of(model_path@),
            k <= m,
            forall|j: int| 0 <= j < k ==> #[trigger] id@[j] != '/',
        decreases m - k,
    {
        if id.get_char(k) == '/' {
            let org = id.substring_char(0, k);
            let repo = id.substring_char(k + 1, m);
            assert(is_first_slash(id@, k as int));
            return Ok(
                RepoId {
                    repo_id: String::from_str(id),
                    org: String::from_str(org),
                    repo: String::from_str(repo),
                },
            );
        }
        k = k + 1;
    }
    proof {
        assert forall|i: int| !is_first_slash(id@, i) by {
            if is_first_slash(id@, i) {
                assert(id@[i] != '/');
            }
        }
    }
    Err(Error::new(ErrorKind::InvalidArgument, "not a hub model path"))
}

/// One variant listed by a model's manifest.
#[derive(Clone, Debug)]
pub struct ManifestVariant {
    pub variant: Option<String>,
    pub path: Option<String>,
}

/// A model's manifest on the hub: its format version, its variants and the
/// files that every variant needs.
#[derive(Clone, Debug)]
pub struct HubManifest {
    pub letsearch_version: Option<i64>,
    pub variants: Option<Vec<ManifestVariant>>,
    pub required_files: Vec<String>,
}

/// The manifest format version that this library reads.
pub const MANIFEST_VERSION: i64 = 1;

pub open spec fn variant_named(v: ManifestVariant, name: Seq<char>) -> bool {
    v.variant matches Some(s) && s@ == name
}

/// Whether `k` is the first variant named `name`.
pub open spec fn is_first_variant(vs: Seq<ManifestVariant>, name: Seq<char>, k: int) -> bool {
    0 <= k < vs.len() && variant_named(vs[k], name) && forall|j: int|
        0 <= j < k ==> !variant_named(#[trigger] vs[j], name)
}

/// The model file of variant `variant`. A manifest of another format
/// version, or without a variant list, is refused as a protocol error; a
/// variant that it does not list is unsupported; the first entry of that
/// name must name its file.
pub fn resolve_variant(manifest: &HubManifest, variant: &str) -> (r: Result<String, Error>)
    ensures
        manifest.letsearch_version != Some(MANIFEST_VERSION) ==> (r matches Err(e) && e.kind
            == ErrorKind::Protocol),
        manifest.letsearch_version == Some(MANIFEST_VERSION) && manifest.variants is None ==> (r matches Err(e)
            && e.kind == ErrorKind::Protocol),
        manifest.letsearch_version == Some(MANIFEST_VERSION) ==> (manifest.variants matches Some(vs)
            ==> ((forall|k: int| 0 <= k < vs@.len() ==> !variant_named(#[trigger] vs@[k], variant@)) ==> (
        r matches Err(e) && e.kind == ErrorKind::Unsupported))),
        manifest.letsearch_version == Some(MANIFEST_VERSION) ==> (manifest.variants matches Some(vs)
            ==> (forall|k: int|
            is_first_variant(vs@, variant@, k) ==> (match vs@[k].path {
                Some(p) => r matches Ok(f) && f@ == p@,
                None => r matches Err(e) && e.kind == ErrorKind::Protocol,
            }))),
{
    match manifest.letsearch_version {
        Some(v) => {
            if v != MANIFEST_VERSION {
                return Err(Error::new(ErrorKind::Protocol, "unsupported manifest version"));
            }
        },
        None => {
            return Err(Error::new(ErrorKind::Protocol, "not a letsearch-compatible model"));
        },
    }
    let vs = match &manifest.variants {
        Some(vs) => vs,
        None => {
            return Err(Error::new(ErrorKind::Protocol, "manifest lists no variants"));
        },
    };
    let wanted = String::from_str(variant);
    let mut k: usize = 0;
    while k < vs.len()
        invariant
            k <= vs@.len(),
            manifest.letsearch_version == Some(MANIFEST_VERSION),
            manifest.variants == Some(*vs),
            wanted@ == variant@,
            forall|j: int| 0 <= j < k ==> !variant_named(#[trigger] vs@[j], variant@),
        decreases vs.len() - k,
    {
        let entry = &vs[k];
        let named = match &entry.variant {
            Some(s) => *s == wanted,
            None => false,
        };
        if named {
            assert(is_first_variant(vs@, variant@, k as int));
            proof {
                assert forall|q: int| is_first_variant(vs@, variant@, q) implies q == k by {
                    if q < k {
                        assert(!variant_named(vs@[q], variant@));
                    }
                    if q > k {
                        assert(variant_named(vs@[k as int], variant@));
                    }
                }
            }
            return match &entry.path {
                Some(p) => Ok(p.clone()),
                None => Err(Error::new(ErrorKind::Protocol, "variant names no file")),
            };
        }
        k = k + 1;
    }
    Err(Error::new(ErrorKind::Unsupported, "Variant not found in config"))
}

} // verus!
