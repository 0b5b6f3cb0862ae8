use letsearch::config::{CollectionConfig, StoredConfig};
use letsearch::error::{http_status, ErrorKind};
use letsearch::layout::{collection_dir, config_path, db_path, index_dir, index_file, model_dir};
use letsearch::search::resolve_limit;
use letsearch::sql::{count_rows_sql, import_sql, select_column_sql, ImportFormat};

fn empty_stored() -> StoredConfig {
    StoredConfig {
        name: None,
        index_columns: None,
        model_name: None,
        model_variant: None,
        db_path: None,
        index_dir: None,
        serialization_version: None,
    }
}

#[test]
fn default_config_values() {
    let c = CollectionConfig::default();
    assert_eq!(c.name, "default");
    assert_eq!(c.index_columns, vec!["text".to_string()]);
    assert_eq!(c.model_name, "mys/minilm");
    assert_eq!(c.model_variant, "f32");
    assert_eq!(c.db_path, "data.db");
    assert_eq!(c.index_dir, "index");
    assert_eq!(c.serialization_version, 1);
}

#[test]
fn stored_round_trip_keeps_config() {
    let mut c = CollectionConfig::default();
    c.name = "demo".to_string();
    c.index_columns = vec!["context".to_string(), "query".to_string()];
    c.model_name = "hf://org/mini".to_string();
    let back = CollectionConfig::decode(c.to_stored()).unwrap();
    assert!(back == c);
    assert_eq!(back.index_columns, vec!["context".to_string(), "query".to_string()]);
}

#[test]
fn absent_fields_take_defaults() {
    let mut s = empty_stored();
    s.name = Some("demo".to_string());
    let c = CollectionConfig::decode(s).unwrap();
    assert_eq!(c.name, "demo");
    assert_eq!(c.index_columns, vec!["text".to_string()]);
    assert_eq!(c.db_path, "data.db");
    assert_eq!(c.serialization_version, 1);
    let d = CollectionConfig::decode(empty_stored()).unwrap();
    assert!(d == CollectionConfig::default());
}

#[test]
fn wrong_version_is_protocol_error() {
    let mut s = empty_stored();
    s.serialization_version = Some(2);
    assert_eq!(CollectionConfig::decode(s).unwrap_err().kind, ErrorKind::Protocol);
}

#[test]
fn empty_name_is_invalid() {
    let mut s = empty_stored();
    s.name = Some(String::new());
    assert_eq!(CollectionConfig::decode(s).unwrap_err().kind, ErrorKind::InvalidArgument);
}

#[test]
fn configs_differing_in_columns_are_unequal() {
    let a = CollectionConfig::default();
    let mut b = CollectionConfig::default();
    b.index_columns = vec!["context".to_string()];
    assert!(a != b);
    assert!(a == a.config());
}

#[test]
fn requested_models_is_the_model_pair() {
    let mut c = CollectionConfig::default();
    c.model_name = "hf://org/mini".to_string();
    c.model_variant = "f16".to_string();
    assert_eq!(c.requested_models(), vec![("hf://org/mini".to_string(), "f16".to_string())]);
}

#[test]
fn http_status_of_error_kinds() {
    assert_eq!(http_status(ErrorKind::InvalidArgument), 400);
    assert_eq!(http_status(ErrorKind::NotFound), 404);
    assert_eq!(http_status(ErrorKind::Io), 500);
    assert_eq!(http_status(ErrorKind::DimensionMismatch), 500);
}

#[test]
fn search_limit_bounds() {
    assert_eq!(resolve_limit(None).unwrap(), 10);
    assert_eq!(resolve_limit(Some(1)).unwrap(), 1);
    assert_eq!(resolve_limit(Some(100)).unwrap(), 100);
    assert_eq!(resolve_limit(Some(0)).unwrap_err().kind, ErrorKind::InvalidArgument);
    assert_eq!(resolve_limit(Some(101)).unwrap_err().kind, ErrorKind::InvalidArgument);
}

#[test]
fn layout_paths() {
    let dir = collection_dir(".letsearch", "demo");
    assert_eq!(dir, ".letsearch/collections/demo");
    assert_eq!(config_path(&dir), ".letsearch/collections/demo/config.json");
    let c = CollectionConfig::default();
    assert_eq!(db_path(&dir, &c), ".letsearch/collections/demo/data.db");
    let idx = index_dir(&dir, &c, "context");
    assert_eq!(idx, ".letsearch/collections/demo/index/context");
    assert_eq!(index_file(&idx), ".letsearch/collections/demo/index/context/index.bin");
    assert_eq!(model_dir(".letsearch", "mys", "minilm"), ".letsearch/models/mys/minilm");
}

#[test]
fn sql_statements() {
    assert_eq!(select_column_sql("context", "demo", 2, 0), "SELECT context FROM demo LIMIT 2 OFFSET 0;");
    assert_eq!(
        select_column_sql("context", "demo", 32, 18446744073709551615),
        "SELECT context FROM demo LIMIT 32 OFFSET 18446744073709551615;"
    );
    assert_eq!(count_rows_sql("demo"), "SELECT COUNT(*) FROM demo;");
    assert_eq!(
        import_sql("demo", "rows.jsonl", ImportFormat::Jsonl),
        "CREATE TABLE demo AS SELECT * FROM read_json_auto('rows.jsonl');"
    );
    assert_eq!(
        import_sql("demo", "rows.parquet", ImportFormat::Parquet),
        "CREATE TABLE demo AS SELECT * FROM read_parquet('rows.parquet');"
    );
}
