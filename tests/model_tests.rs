use letsearch::error::ErrorKind;
use letsearch::hub::{parse_model_path, resolve_variant, HubManifest, ManifestVariant};
use letsearch::model::{needs_token_type_ids, output_dtype_from_name, pack_rows, ModelManager, ModelOutputDType};

#[test]
fn dtype_from_tensor_type_name() {
    assert_eq!(output_dtype_from_name("f16"), ModelOutputDType::F16);
    assert_eq!(output_dtype_from_name("f32"), ModelOutputDType::F32);
    assert_eq!(output_dtype_from_name("i64"), ModelOutputDType::F32);
}

#[test]
fn token_type_ids_detection() {
    let with = vec!["input_ids".to_string(), "token_type_ids".to_string(), "attention_mask".to_string()];
    let without = vec!["input_ids".to_string(), "attention_mask".to_string()];
    assert!(needs_token_type_ids(&with));
    assert!(!needs_token_type_ids(&without));
}

#[test]
fn pack_rows_row_major() {
    let m = pack_rows(&vec![vec![101, 7, 102], vec![101, 8, 1]]).unwrap();
    assert_eq!(m.rows, 2);
    assert_eq!(m.cols, 3);
    assert_eq!(m.data, vec![101i64, 7, 102, 101, 8, 1]);
    let empty = pack_rows(&vec![]).unwrap();
    assert_eq!(empty.rows, 0);
    assert!(empty.data.is_empty());
    assert_eq!(pack_rows(&vec![vec![1, 2], vec![3]]).err().unwrap().kind, ErrorKind::InvalidArgument);
}

#[test]
fn model_registry_reuses_pairs() {
    let mut m: ModelManager<&str> = ModelManager::new();
    let a = m.register("hf://mys/minilm".into(), "f32".into(), ModelOutputDType::F32, 384, "first").unwrap();
    let b = m.register("hf://mys/minilm".into(), "f32".into(), ModelOutputDType::F32, 384, "second").unwrap();
    let c = m.register("hf://mys/minilm".into(), "f16".into(), ModelOutputDType::F16, 384, "third").unwrap();
    assert_eq!(a, 1);
    assert_eq!(b, 1);
    assert_eq!(c, 2);
    assert_eq!(*m.session(1).unwrap(), "first");
    assert_eq!(m.lookup(&"hf://mys/minilm".to_string(), &"f16".to_string()), Some(2));
    assert_eq!(m.output_dim(2).unwrap(), 384);
    assert_eq!(m.output_dtype(2).unwrap(), ModelOutputDType::F16);
    assert_eq!(m.output_dim(3).unwrap_err().kind, ErrorKind::NotFound);
    assert_eq!(m.predict_dtype(1).unwrap(), ModelOutputDType::F32);
}

#[test]
fn int8_models_cannot_predict() {
    let mut m: ModelManager<()> = ModelManager::new();
    let id = m.register("p".into(), "i8".into(), ModelOutputDType::Int8, 8, ()).unwrap();
    assert_eq!(m.predict_dtype(id).unwrap_err().kind, ErrorKind::Unsupported);
    assert_eq!(m.predict_dtype(99).unwrap_err().kind, ErrorKind::NotFound);
}

#[test]
fn model_path_split() {
    let id = parse_model_path("hf://mys/minilm").unwrap();
    assert_eq!(id.repo_id, "mys/minilm");
    assert_eq!(id.org, "mys");
    assert_eq!(id.repo, "minilm");
    let plain = parse_model_path("org/a/b").unwrap();
    assert_eq!(plain.org, "org");
    assert_eq!(plain.repo, "a/b");
    assert_eq!(parse_model_path("hf://minilm").err().unwrap().kind, ErrorKind::InvalidArgument);
}

fn manifest(version: Option<i64>) -> HubManifest {
    HubManifest {
        letsearch_version: version,
        variants: Some(vec![
            ManifestVariant { variant: Some("f32".into()), path: Some("model.onnx".into()) },
            ManifestVariant { variant: Some("i8".into()), path: Some("model-i8.onnx".into()) },
        ]),
        required_files: vec!["tokenizer.json".into()],
    }
}

#[test]
fn manifest_variant_resolution() {
    assert_eq!(resolve_variant(&manifest(Some(1)), "i8").unwrap(), "model-i8.onnx");
    assert_eq!(resolve_variant(&manifest(Some(1)), "bogus").unwrap_err().kind, ErrorKind::Unsupported);
    assert_eq!(resolve_variant(&manifest(Some(2)), "f32").unwrap_err().kind, ErrorKind::Protocol);
    assert_eq!(resolve_variant(&manifest(None), "f32").unwrap_err().kind, ErrorKind::Protocol);
    let mut no_list = manifest(Some(1));
    no_list.variants = None;
    assert_eq!(resolve_variant(&no_list, "f32").unwrap_err().kind, ErrorKind::Protocol);
}
