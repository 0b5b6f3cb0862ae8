use letsearch::collection::{batch_count, batch_keys, batch_offset, Collection};
use letsearch::collection_manager::CollectionManager;
use letsearch::config::CollectionConfig;
use letsearch::error::ErrorKind;
use letsearch::model::ModelOutputDType;
use letsearch::vector_index::{grow_target, IndexSettings, Metric, Quantization, VectorIndex};

fn settings(dimensions: usize) -> IndexSettings {
    IndexSettings {
        dimensions,
        metric: Metric::Cos,
        quantization: Quantization::F32,
        connectivity: 0,
        expansion_add: 0,
        expansion_search: 0,
        multi: true,
    }
}

fn config(name: &str) -> CollectionConfig {
    let mut c = CollectionConfig::default();
    c.name = name.to_string();
    c.index_columns = vec!["context".to_string()];
    c.model_name = "hub://org/mini".to_string();
    c
}

// Three rows "a", "b", "c" with embeddings pointing along different axes.
fn row_vectors() -> Vec<f32> {
    vec![1.0, 0.0, 0.0, 0.0, 0.0, 1.0, 0.0, 0.0, 0.0, 0.0, 1.0, 0.0]
}

#[test]
fn grow_target_adds_a_tenth_rounded_up() {
    assert_eq!(grow_target(0), Some(0));
    assert_eq!(grow_target(10), Some(11));
    assert_eq!(grow_target(11), Some(13));
    assert_eq!(grow_target(20000), Some(22000));
    assert_eq!(grow_target(usize::MAX), None);
}

#[test]
fn batch_plan_and_keys() {
    assert_eq!(batch_count(3, 2), 2);
    assert_eq!(batch_count(4, 2), 2);
    assert_eq!(batch_count(0, 32), 0);
    assert_eq!(batch_offset(0, 2, 3), 0);
    assert_eq!(batch_offset(1, 2, 3), 2);
    assert_eq!(batch_keys(5, 3).unwrap(), vec![5, 6, 7]);
    assert!(batch_keys(0, 0).unwrap().is_empty());
    assert_eq!(batch_keys(u64::MAX, 1).unwrap(), vec![u64::MAX]);
    assert_eq!(batch_keys(u64::MAX, 2).unwrap_err().kind, ErrorKind::InvalidArgument);
}

#[test]
fn index_add_grows_and_checks_dimensions() {
    let mut index = VectorIndex::new("unused".to_string());
    assert_eq!(index.add(&[0], &[1.0f32, 0.0], 2).unwrap_err().kind, ErrorKind::NotFound);
    index.with_options(settings(4), 2).unwrap();
    assert_eq!(index.dimensions().unwrap(), 4);
    assert_eq!(index.with_options(settings(4), 2).unwrap_err().kind, ErrorKind::AlreadyExists);
    index.add(&[0, 1, 2], &row_vectors(), 4).unwrap();
    assert_eq!(index.size(), 3);
    assert!(index.capacity() >= 4);
    assert_eq!(index.add(&[3], &[1.0f32, 2.0, 3.0], 3).unwrap_err().kind, ErrorKind::DimensionMismatch);
    assert_eq!(index.size(), 3);
    let m = index.search(&[0.0f32, 1.0, 0.0, 0.0], 1).unwrap();
    assert_eq!(m.keys, vec![1]);
    assert_eq!(index.search(&[0.0f32, 1.0], 1).unwrap_err().kind, ErrorKind::DimensionMismatch);
}

#[test]
fn embed_batches_use_row_offsets_as_keys() {
    let mut c: Collection<()> = Collection::new(config("demo"), ());
    assert!(c.prepare_index("context", 4, "demo/index/context".to_string()).unwrap());
    let v = row_vectors();
    // batches of two rows: offsets 0 and 2
    c.add_batch("context", 0, &v[0..8], 2, 4).unwrap();
    c.add_batch("context", 2, &v[8..12], 1, 4).unwrap();
    let index = c.index("context").unwrap();
    assert_eq!(index.size(), 3);
    let m = c.search("context", &[1.0f32, 0.0, 0.0, 0.0], 1).unwrap();
    assert_eq!(m.keys, vec![0]);
    let m = c.search("context", &[0.0f32, 0.0, 1.0, 0.0], 1).unwrap();
    assert_eq!(m.keys, vec![2]);
    assert_eq!(c.add_batch("query", 0, &v[0..4], 1, 4).unwrap_err().kind, ErrorKind::NotFound);
}

#[test]
fn index_keeps_model_dimensions() {
    let mut c: Collection<()> = Collection::new(config("demo"), ());
    assert!(c.prepare_index("context", 384, "demo/index/context".to_string()).unwrap());
    assert_eq!(c.index("context").unwrap().dimensions().unwrap(), 384);
    assert!(!c.prepare_index("context", 384, "demo/index/context".to_string()).unwrap());
    assert_eq!(
        c.prepare_index("context", 512, "demo/index/context".to_string()).unwrap_err().kind,
        ErrorKind::DimensionMismatch
    );
}

#[test]
fn create_twice_with_overwrite_keeps_one_entry() {
    let mut m: CollectionManager<(), ()> = CollectionManager::new(None);
    m.insert_collection(Collection::new(config("demo"), ()), true).unwrap();
    m.insert_collection(Collection::new(config("demo"), ()), true).unwrap();
    assert_eq!(m.get_collections(), vec!["demo".to_string()]);
    assert!(m.get_collection_configs()[0] == config("demo"));
    let err = m.insert_collection(Collection::new(config("demo"), ()), false).unwrap_err();
    assert_eq!(err.kind, ErrorKind::AlreadyExists);
    m.insert_collection(Collection::new(config("other"), ()), false).unwrap();
    assert_eq!(m.get_collections(), vec!["demo".to_string(), "other".to_string()]);
    assert_eq!(m.get_collection_config("missing").unwrap_err().kind, ErrorKind::NotFound);
}

#[test]
fn manager_routes_embedding_and_search() {
    let mut m: CollectionManager<(), ()> = CollectionManager::new(None);
    let c = Collection::new(config("demo"), ());
    assert_eq!(m.missing_models(&c), vec![("hub://org/mini".to_string(), "f32".to_string())]);
    m.insert_collection(c, false).unwrap();
    assert_eq!(m.model_id_for("demo").unwrap_err().kind, ErrorKind::NotFound);
    let id = m.register_model("hub://org/mini".into(), "f32".into(), ModelOutputDType::F32, 4, ()).unwrap();
    assert_eq!(m.model_id_for("demo").unwrap(), id);
    assert!(m.missing_models(m.collection("demo").unwrap()).is_empty());
    let dim = m.model_manager().output_dim(id).unwrap() as usize;
    m.prepare_index("demo", "context", dim, "demo/index/context".to_string()).unwrap();
    let v = row_vectors();
    m.add_batch("demo", "context", 0, &v[0..8], 2, 4).unwrap();
    m.add_batch("demo", "context", 2, &v[8..12], 1, 4).unwrap();
    let hits = m.search("demo", "context", &[1.0f32, 0.0, 0.0, 0.0], 1).unwrap();
    assert_eq!(hits.keys, vec![0]);
    assert_eq!(m.search("demo", "context", &[1.0f32, 0.0, 0.0, 0.0], 0).unwrap_err().kind, ErrorKind::InvalidArgument);
    assert_eq!(m.search("nope", "context", &[1.0f32, 0.0, 0.0, 0.0], 1).unwrap_err().kind, ErrorKind::NotFound);
}

#[test]
fn search_scores_do_not_increase() {
    let mut index = VectorIndex::new("unused".to_string());
    index.with_options(settings(4), 8).unwrap();
    let v: Vec<f32> = vec![
        1.0, 0.0, 0.0, 0.0, //
        0.9, 0.1, 0.0, 0.0, //
        0.5, 0.5, 0.0, 0.0, //
        0.0, 1.0, 0.0, 0.0, //
        0.0, 0.0, 1.0, 0.0,
    ];
    index.add(&[0, 1, 2, 3, 4], &v, 4).unwrap();
    let m = index.search(&[1.0f32, 0.0, 0.0, 0.0], 5).unwrap();
    assert_eq!(m.keys.len(), 5);
    assert_eq!(m.keys[0], 0);
    let scores: Vec<f32> = m.distances.iter().map(|d| 1.0 - d).collect();
    for pair in scores.windows(2) {
        assert!(pair[0] >= pair[1]);
    }
}
