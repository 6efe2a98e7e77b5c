use gemma_tokenizer::locator::resolve_model_path;
use gemma_tokenizer::locator::resolve_with;
use gemma_tokenizer::ModelPathKind;
use gemma_tokenizer::PathStat;
use gemma_tokenizer::TokenizerError;

fn dir_stat(has_definition_inside: bool) -> PathStat {
    PathStat { is_dir: true, is_file: false, has_definition_inside }
}

fn file_stat() -> PathStat {
    PathStat { is_dir: false, is_file: true, has_definition_inside: false }
}

fn missing_stat() -> PathStat {
    PathStat { is_dir: false, is_file: false, has_definition_inside: false }
}

#[test]
fn init_missing_path_yields_error() {
    let mut session = gemma_tokenizer::Session::new();
    let err = session.init("./not-exists").unwrap_err();
    assert!(err.message().contains("not exist"));
}

#[test]
fn resolve_dir_with_definition_yields_joined_path() {
    let r = resolve_with("model", dir_stat(true));
    match r {
        Ok(ModelPathKind::Json(p)) => assert_eq!(p, "model/tokenizer.json"),
        _ => panic!("expected a definition file"),
    }
}

#[test]
fn resolve_dir_with_trailing_slash_joins_without_doubling() {
    let r = resolve_with("model/", dir_stat(true));
    match r {
        Ok(ModelPathKind::Json(p)) => assert_eq!(p, "model/tokenizer.json"),
        _ => panic!("expected a definition file"),
    }
}

#[test]
fn resolve_dir_without_definition_mentions_conversion() {
    let err = resolve_with("model-legacy", dir_stat(false)).unwrap_err();
    assert!(matches!(err, TokenizerError::NotFound { .. }));
    let message = err.message();
    assert_eq!(
        message,
        "No tokenizer.json found in directory: model-legacy. Convert .model to tokenizer.json first."
    );
    assert!(message.contains("model-legacy"));
    assert!(message.contains("Convert"));
}

#[test]
fn resolve_file_with_json_extension_accepted() {
    let r = resolve_with("dir/tok.json", file_stat());
    match r {
        Ok(ModelPathKind::Json(p)) => assert_eq!(p, "dir/tok.json"),
        _ => panic!("expected the file itself"),
    }
}

#[test]
fn resolve_file_with_uppercase_extension_accepted() {
    let r = resolve_with("TOK.JSON", file_stat());
    match r {
        Ok(ModelPathKind::Json(p)) => assert_eq!(p, "TOK.JSON"),
        _ => panic!("expected the file itself"),
    }
}

#[test]
fn resolve_file_with_other_extension_unsupported() {
    let err = resolve_with("spm.model", file_stat()).unwrap_err();
    assert!(matches!(err, TokenizerError::UnsupportedFormat { .. }));
    assert_eq!(err.message(), "Provided file is not tokenizer.json: spm.model");
}

#[test]
fn resolve_file_without_extension_unsupported() {
    let err = resolve_with("README", file_stat()).unwrap_err();
    assert!(matches!(err, TokenizerError::UnsupportedFormat { .. }));
}

#[test]
fn resolve_hidden_json_file_has_no_extension() {
    let err = resolve_with(".json", file_stat()).unwrap_err();
    assert!(matches!(err, TokenizerError::UnsupportedFormat { .. }));
}

#[test]
fn resolve_missing_path_names_exact_path() {
    let err = resolve_with("/no/such/path", missing_stat()).unwrap_err();
    assert!(matches!(err, TokenizerError::NotFound { .. }));
    assert_eq!(err.message(), "Path does not exist: /no/such/path");
}

#[test]
fn resolve_nonexistent_path_on_real_filesystem() {
    let err = resolve_model_path("/no/such/path").unwrap_err();
    assert!(matches!(err, TokenizerError::NotFound { .. }));
    assert_eq!(err.message(), "Path does not exist: /no/such/path");
}

#[test]
fn resolve_root_dir_lacks_definition() {
    let err = resolve_model_path("/").unwrap_err();
    assert!(matches!(err, TokenizerError::NotFound { .. }));
    let message = err.message();
    assert!(message.contains("/"));
    assert!(message.contains("Convert"));
}
