use crate::config::CollectionConfig;
use vstd::prelude::*;

verus! {

/// `a/b` as characters.
pub open spec fn joined(a: Seq<char>, b: Seq<char>) -> Seq<char> {
    a + seq!['/'] + b
}

/// Joins two path parts with a `/`.
pub fn join(a: &str, b: &str) -> (r: String)
    ensures
        r@ == joined(a@, b@),
{
    let mut r = String::from_str(a);
    r.append("/");
    proof {
        reveal_strlit("/");
    }
    r.append(b);
    r
}

/// `<home>/collections/<name>`: the directory of one collection.
pub open spec fn collection_dir_of(home: Seq<char>, name: Seq<char>) -> Seq<char> {
    joined(joined(home, "collections"@), name)
}

pub fn collection_dir(home: &str, name: &str) -> (r: String)
    ensures
        r@ == collection_dir_of(home@, name@),
{
    let c = join(home, "collections");
    join(c.as_str(), name)
}

/// The file that holds a collection's configuration.
pub fn config_path(collection_dir: &str) -> (r: String)
    ensures
        r@ == joined(collection_dir@, "config.json"@),
{
    join(collection_dir, "config.json")
}

/// The database file of a collection.
pub fn db_path(collection_dir: &str, config: &CollectionConfig) -> (r: String)
    ensures
        r@ == joined(collection_dir@, config.db_path@),
{
    join(collection_dir, config.db_path.as_str())
}

/// `<collection>/<index_dir>/<column>`: the directory of a column's index.
pub fn index_dir(collection_dir: &str, config: &CollectionConfig, column: &str) -> (r: String)
    ensures
        r@ == joined(joined(collection_dir@, config.index_dir@), column@),
{
    let d = join(collection_dir, config.index_dir.as_str());
    join(d.as_str(), column)
}

/// The file that holds a saved index inside its directory.
pub fn index_file(index_dir: &str) -> (r: String)
    ensures
        r@ == joined(index_dir@, "index.bin"@),
{
    join(index_dir, "index.bin")
}

/// `<home>/models/<org>/<repo>`: where a hub model's files are kept.
pub fn model_dir(home: &str, org: &str, repo: &str) -> (r: String)
    ensures
        r@ == joined(joined(joined(home@, "models"@), org@), repo@),
{
    let m = join(home, "models");
    let o = join(m.as_str(), org);
    join(o.as_str(), repo)
}

} // verus!
