//! A deadpool manager for fastembed models: each pool slot holds one text,
//! image, sparse or reranking model, built once and reused.
mod backend;
mod config;
mod embedding;
mod manager;
mod model;

pub use config::{Config, ConfigError, PoolParts, UserDefinedConfig};
pub use embedding::{lemma_built_instance_narrows, EmbeddingKind};
pub use manager::{Manager, ModelSource};
pub use model::{Capability, ModelKind, UserDefinedModelKind};
