//! The lifecycle of a pool slot: how an instance is built from the stored
//! selector, and whether a returned instance may be handed out again.
use crate::embedding::EmbeddingKind;
use crate::model::{Capability, ModelKind, UserDefinedModelKind};
use deadpool::managed::RecycleError;
use vstd::prelude::*;

verus! {

/// Where a manager's instances come from: a model of fastembed's registry, or
/// one supplied by the caller as raw files.
#[derive(Debug, Clone)]
pub enum ModelSource {
    Registry(ModelKind),
    UserDefined(UserDefinedModelKind),
}

impl ModelSource {
    pub open spec fn capability(self) -> Capability {
        match self {
            ModelSource::Registry(m) => m.capability(),
            ModelSource::UserDefined(m) => m.capability(),
        }
    }

    /// The capability this source builds.
    pub fn kind(&self) -> (r: Capability)
        ensures
            r == self.capability(),
    {
        match self {
            ModelSource::Registry(m) => m.kind(),
            ModelSource::UserDefined(m) => m.kind(),
        }
    }
}

/// Builds and recycles the instances of one pool. It holds the selector and
/// nothing else: it keeps no record of the instances it has built.
#[derive(Debug)]
pub struct Manager {
    source: ModelSource,
}

impl Manager {
    pub closed spec fn source(self) -> ModelSource {
        self.source
    }

    /// A manager for a model of fastembed's registry.
    pub fn new(model: ModelKind) -> (r: Self)
        ensures
            r.source() == ModelSource::Registry(model),
    {
        Manager { source: ModelSource::Registry(model) }
    }

    /// A manager for a model supplied as raw files.
    pub fn from_user_defined(model: UserDefinedModelKind) -> (r: Self)
        ensures
            r.source() == ModelSource::UserDefined(model),
    {
        Manager { source: ModelSource::UserDefined(model) }
    }

    /// The selector this manager builds from.
    pub fn model_source(&self) -> (r: &ModelSource)
        ensures
            *r == self.source(),
    {
        &self.source
    }

    /// Builds a fresh instance from the stored selector. Each call hands back
    /// a new value owned by the caller; fastembed's failure is passed on as
    /// it is, without a retry. An instance that comes back provides the
    /// capability that the selector asks for.
    pub fn create(&self) -> (r: Result<EmbeddingKind, fastembed::Error>)
        ensures
            r matches Ok(e) ==> e.capability() == self.source().capability(),
    {
        match &self.source {
            ModelSource::Registry(m) => EmbeddingKind::try_new(m),
            ModelSource::UserDefined(m) => EmbeddingKind::try_new_from_user_defined(m),
        }
    }

    /// Every returned instance is taken back as usable, and left as it is.
    pub fn recycle(&self, obj: &mut EmbeddingKind) -> (r: Result<
        (),
        RecycleError<fastembed::Error>,
    >)
        ensures
            r is Ok,
            *final(obj) == *old(obj),
    {
        Ok(())
    }
}

} // verus!
