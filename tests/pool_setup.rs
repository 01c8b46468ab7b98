use deadpool::managed::PoolConfig;
use deadpool::Runtime;
use deadpool_fastembed::{
    Capability, Config, ConfigError, ModelKind, ModelSource, UserDefinedConfig,
    UserDefinedModelKind,
};
use fastembed::{
    EmbeddingModel, ImageEmbeddingModel, RerankerModel, SparseModel, TokenizerFiles,
    UserDefinedEmbeddingModel,
};

fn text_config() -> Config {
    Config::from_model(ModelKind::text(EmbeddingModel::AllMiniLML6V2))
}

#[test]
fn from_model_keeps_selector_and_no_pool_settings() {
    let c = text_config();
    assert_eq!(c.model.kind(), Capability::Text);
    assert!(c.pool.is_none());
}

#[test]
fn selector_constructors_pick_their_capability() {
    assert_eq!(ModelKind::text(EmbeddingModel::BGESmallENV15).kind(), Capability::Text);
    assert_eq!(ModelKind::image(ImageEmbeddingModel::ClipVitB32).kind(), Capability::Image);
    assert_eq!(ModelKind::sparse(SparseModel::SPLADEPPV1).kind(), Capability::Sparse);
    assert_eq!(ModelKind::rerank(RerankerModel::BGERerankerBase).kind(), Capability::Rerank);
}

#[test]
fn default_selector_is_a_text_model() {
    assert_eq!(ModelKind::default().kind(), Capability::Text);
}

#[test]
fn cloned_selector_keeps_its_capability() {
    let m = ModelKind::sparse(SparseModel::SPLADEPPV1);
    assert_eq!(m.clone().kind(), Capability::Sparse);
}

#[test]
fn registry_text_model_resolves() {
    assert!(ModelKind::text(EmbeddingModel::AllMiniLML6V2).is_resolvable());
    assert!(ModelKind::rerank(RerankerModel::BGERerankerBase).is_resolvable());
}

#[test]
fn unresolved_model_fails_before_any_instance() {
    let c = text_config();
    let r = c.pool_parts(false, Some(Runtime::Tokio1));
    assert!(matches!(r, Err(ConfigError::NotFound)));
}

#[test]
fn resolved_model_gives_parts_with_its_selector() {
    let c = Config::from_model(ModelKind::image(ImageEmbeddingModel::Resnet50));
    let parts = c.pool_parts(true, None).ok().unwrap();
    assert_eq!(parts.manager.model_source().kind(), Capability::Image);
    assert!(parts.runtime.is_none());
}

#[test]
fn custom_pool_settings_and_runtime_are_kept() {
    let mut c = text_config();
    c.pool = Some(PoolConfig::new(7));
    let parts = c.prepare(Some(Runtime::Tokio1)).ok().unwrap();
    assert_eq!(parts.config.max_size, 7);
    assert_eq!(parts.runtime, Some(Runtime::Tokio1));
    assert_eq!(parts.manager.model_source().kind(), Capability::Text);
}

#[test]
fn configured_pool_settings_are_returned() {
    let mut c = text_config();
    c.pool = Some(PoolConfig::new(3));
    assert_eq!(c.get_pool_config().max_size, 3);
}

#[test]
fn absent_pool_settings_fall_back_to_defaults() {
    let c = text_config();
    assert_eq!(c.get_pool_config().max_size, PoolConfig::default().max_size);
}

#[test]
fn fastembed_error_converts_to_config_error() {
    let e = ConfigError::from(fastembed::Error::msg("download failed"));
    assert!(matches!(e, ConfigError::Fastembed(_)));
}

fn user_text_model() -> UserDefinedModelKind {
    let files = TokenizerFiles {
        tokenizer_file: vec![1],
        config_file: vec![2],
        special_tokens_map_file: vec![3],
        tokenizer_config_file: vec![4],
    };
    UserDefinedModelKind::text(UserDefinedEmbeddingModel::new(vec![0, 1, 2], files))
}

#[test]
fn user_defined_selector_is_text_and_clones() {
    let m = user_text_model();
    assert_eq!(m.kind(), Capability::Text);
    assert_eq!(m.clone().kind(), Capability::Text);
}

#[test]
fn user_defined_pool_keeps_settings_and_runtime() {
    let mut c = UserDefinedConfig::from_model(user_text_model());
    assert!(c.pool.is_none());
    c.pool = Some(PoolConfig::new(5));
    let parts = c.pool_parts(Some(Runtime::Tokio1));
    assert_eq!(parts.config.max_size, 5);
    assert_eq!(parts.runtime, Some(Runtime::Tokio1));
    assert!(matches!(parts.manager.model_source(), ModelSource::UserDefined(_)));
    assert_eq!(parts.manager.model_source().kind(), Capability::Text);
}

#[test]
fn registry_pool_manager_holds_registry_selector() {
    let parts = text_config().prepare(None).ok().unwrap();
    assert!(matches!(parts.manager.model_source(), ModelSource::Registry(_)));
}
