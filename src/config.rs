//! Pool configuration: the selector to build from and the pool's settings.
use crate::backend::default_pool_config;
use crate::backend::text_model_listed_of;
use crate::manager::{Manager, ModelSource};
use crate::model::{ModelKind, UserDefinedModelKind};
use deadpool::managed::PoolConfig;
use deadpool::Runtime;
use vstd::prelude::*;

verus! {

/// What a pool of registry models is built from.
#[derive(Clone, Debug)]
pub struct Config {
    pub model: ModelKind,
    /// The pool's settings; deadpool's defaults where absent.
    pub pool: Option<PoolConfig>,
}

/// The failures of setting up a pool, reported before any instance is built.
#[derive(Debug)]
pub enum ConfigError {
    /// fastembed's registry does not list the selected model.
    NotFound,
    Fastembed(fastembed::Error),
}

impl From<fastembed::Error> for ConfigError {
    fn from(value: fastembed::Error) -> Self {
        ConfigError::Fastembed(value)
    }
}

impl vstd::std_specs::convert::FromSpecImpl<fastembed::Error> for ConfigError {
    open spec fn obeys_from_spec() -> bool {
        true
    }

    open spec fn from_spec(v: fastembed::Error) -> Self {
        ConfigError::Fastembed(v)
    }
}

/// Everything a pool builder is given: the manager, the settings, and the
/// runtime that overrides deadpool's choice, if any.
pub struct PoolParts {
    pub manager: Manager,
    pub config: PoolConfig,
    pub runtime: Option<Runtime>,
}

impl Config {
    pub fn from_model(model: ModelKind) -> (r: Self)
        ensures
            r.model == model,
            r.pool is None,
    {
        Config { model, pool: None }
    }

    /// The pool's settings: the configured ones where given, else deadpool's
    /// defaults.
    pub fn get_pool_config(&self) -> (r: PoolConfig)
        ensures
            self.pool matches Some(c) ==> r == c,
    {
        match self.pool {
            Some(c) => c,
            None => default_pool_config(),
        }
    }

    /// The parts of a pool, given whether the registry resolves the selected
    /// model. An unresolved model fails here, before any instance exists;
    /// otherwise the manager holds this configuration's selector, and both the
    /// configured settings and the runtime passed in are kept as given.
    pub fn pool_parts(&self, model_listed: bool, runtime: Option<Runtime>) -> (r: Result<
        PoolParts,
        ConfigError,
    >)
        ensures
            r is Err <==> !model_listed,
            r matches Err(e) ==> e is NotFound,
            r matches Ok(p) ==> {
                &&& p.manager.source() == ModelSource::Registry(self.model)
                &&& (self.pool matches Some(c) ==> p.config == c)
                &&& p.runtime == runtime
            },
    {
        if !model_listed {
            return Err(ConfigError::NotFound);
        }
        let manager = Manager::new(self.model.clone());
        Ok(PoolParts { manager, config: self.get_pool_config(), runtime })
    }

    /// Resolves the selected model in fastembed's registry and, where it is
    /// listed, gathers the parts of a pool as `pool_parts` does. Image, sparse
    /// and reranking selectors always resolve.
    pub fn prepare(&self, runtime: Option<Runtime>) -> (r: Result<PoolParts, ConfigError>)
        ensures
            r is Ok <==> (self.model is Text ==> text_model_listed_of(self.model->Text_0)),
            r matches Err(e) ==> e is NotFound,
            r matches Ok(p) ==> {
                &&& p.manager.source() == ModelSource::Registry(self.model)
                &&& (self.pool matches Some(c) ==> p.config == c)
                &&& p.runtime == runtime
            },
    {
        let listed = self.model.is_resolvable();
        self.pool_parts(listed, runtime)
    }
}

/// What a pool of models supplied as raw files is built from.
#[derive(Clone, Debug)]
pub struct UserDefinedConfig {
    pub model: UserDefinedModelKind,
    /// The pool's settings; deadpool's defaults where absent.
    pub pool: Option<PoolConfig>,
}

impl UserDefinedConfig {
    pub fn from_model(model: UserDefinedModelKind) -> (r: Self)
        ensures
            r.model == model,
            r.pool is None,
    {
        UserDefinedConfig { model, pool: None }
    }

    /// The pool's settings: the configured ones where given, else deadpool's
    /// defaults.
    pub fn get_pool_config(&self) -> (r: PoolConfig)
        ensures
            self.pool matches Some(c) ==> r == c,
    {
        match self.pool {
            Some(c) => c,
            None => default_pool_config(),
        }
    }

    /// The parts of a pool. A model given as files needs no registry lookup,
    /// so this always succeeds: the manager holds this configuration's
    /// selector, and the configured settings and the runtime are kept.
    pub fn pool_parts(&self, runtime: Option<Runtime>) -> (r: PoolParts)
        ensures
            r.manager.source() == ModelSource::UserDefined(self.model),
            self.pool matches Some(c) ==> r.config == c,
            r.runtime == runtime,
    {
        let manager = Manager::from_user_defined(self.model.clone());
        PoolParts { manager, config: self.get_pool_config(), runtime }
    }
}

} // verus!
