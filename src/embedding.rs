//! The instance a pool slot holds: one embedding-capable object, tagged by
//! the capability it provides.
use crate::backend::{
    copy_image_options, copy_rerank_options, copy_sparse_options, copy_text_options,
    copy_user_image_model, copy_user_image_options, copy_user_rerank_model,
    copy_user_rerank_options, copy_user_text_model, copy_user_text_options, new_image_embedding,
    new_reranker, new_sparse_embedding, new_text_embedding, new_user_image_embedding,
    new_user_reranker, new_user_text_embedding,
};
use crate::model::{Capability, ModelKind, UserDefinedModelKind};
use fastembed::{ImageEmbedding, SparseTextEmbedding, TextEmbedding, TextRerank};
use vstd::prelude::*;

verus! {

/// One built model, tagged by what it can do.
pub enum EmbeddingKind {
    Text(TextEmbedding),
    Image(ImageEmbedding),
    Sparse(SparseTextEmbedding),
    ReRanking(TextRerank),
}

impl EmbeddingKind {
    pub open spec fn capability(self) -> Capability {
        match self {
            EmbeddingKind::Text(_) => Capability::Text,
            EmbeddingKind::Image(_) => Capability::Image,
            EmbeddingKind::Sparse(_) => Capability::Sparse,
            EmbeddingKind::ReRanking(_) => Capability::Rerank,
        }
    }

    /// Tags a freshly built text embedder; fastembed's error passes through as it is.
    pub fn from_text(
        built: Result<TextEmbedding, fastembed::Error>,
    ) -> (r: Result<Self, fastembed::Error>)
        ensures
            built matches Ok(t) ==> r matches Ok(k) && k == EmbeddingKind::Text(t),
            built matches Err(e) ==> r matches Err(f) && f == e,
    {
        match built {
            Ok(t) => Ok(EmbeddingKind::Text(t)),
            Err(e) => Err(e),
        }
    }

    /// Tags a freshly built image embedder; fastembed's error passes through as it is.
    pub fn from_image(
        built: Result<ImageEmbedding, fastembed::Error>,
    ) -> (r: Result<Self, fastembed::Error>)
        ensures
            built matches Ok(t) ==> r matches Ok(k) && k == EmbeddingKind::Image(t),
            built matches Err(e) ==> r matches Err(f) && f == e,
    {
        match built {
            Ok(t) => Ok(EmbeddingKind::Image(t)),
            Err(e) => Err(e),
        }
    }

    /// Tags a freshly built sparse text embedder; fastembed's error passes through as it is.
    pub fn from_sparse(
        built: Result<SparseTextEmbedding, fastembed::Error>,
    ) -> (r: Result<Self, fastembed::Error>)
        ensures
            built matches Ok(t) ==> r matches Ok(k) && k == EmbeddingKind::Sparse(t),
            built matches Err(e) ==> r matches Err(f) && f == e,
    {
        match built {
            Ok(t) => Ok(EmbeddingKind::Sparse(t)),
            Err(e) => Err(e),
        }
    }

    /// Tags a freshly built reranker; fastembed's error passes through as it is.
    pub fn from_reranker(
        built: Result<TextRerank, fastembed::Error>,
    ) -> (r: Result<Self, fastembed::Error>)
        ensures
            built matches Ok(t) ==> r matches Ok(k) && k == EmbeddingKind::ReRanking(t),
            built matches Err(e) ==> r matches Err(f) && f == e,
    {
        match built {
            Ok(t) => Ok(EmbeddingKind::ReRanking(t)),
            Err(e) => Err(e),
        }
    }

    /// Builds the object that a registry selector names. Whatever fastembed
    /// reports, an instance that comes back provides the selected capability.
    pub fn try_new(model: &ModelKind) -> (r: Result<Self, fastembed::Error>)
        ensures
            r matches Ok(e) ==> e.capability() == model.capability(),
    {
        match model {
            ModelKind::Text(o) => {
                let built = new_text_embedding(copy_text_options(o));
                EmbeddingKind::from_text(built)
            },
            ModelKind::Image(o) => {
                let built = new_image_embedding(copy_image_options(o));
                EmbeddingKind::from_image(built)
            },
            ModelKind::Sparse(o) => {
                let built = new_sparse_embedding(copy_sparse_options(o));
                EmbeddingKind::from_sparse(built)
            },
            ModelKind::Rerank(o) => {
                let built = new_reranker(copy_rerank_options(o));
                EmbeddingKind::from_reranker(built)
            },
        }
    }

    /// Builds the object from a model supplied as raw files. An instance that
    /// comes back provides the selected capability.
    pub fn try_new_from_user_defined(model: &UserDefinedModelKind) -> (r: Result<
        Self,
        fastembed::Error,
    >)
        ensures
            r matches Ok(e) ==> e.capability() == model.capability(),
    {
        match model {
            UserDefinedModelKind::Text { options, model } => {
                let m = copy_user_text_model(model);
                let o = copy_user_text_options(options);
                EmbeddingKind::from_text(new_user_text_embedding(m, o))
            },
            UserDefinedModelKind::Image { options, model } => {
                let m = copy_user_image_model(model);
                let o = copy_user_image_options(options);
                EmbeddingKind::from_image(new_user_image_embedding(m, o))
            },
            UserDefinedModelKind::Rerank { options, model } => {
                let m = copy_user_rerank_model(model);
                let o = copy_user_rerank_options(options);
                EmbeddingKind::from_reranker(new_user_reranker(m, o))
            },
        }
    }

    /// The capability this instance provides.
    pub fn kind(&self) -> (r: Capability)
        ensures
            r == self.capability(),
    {
        match self {
            EmbeddingKind::Text(_) => Capability::Text,
            EmbeddingKind::Image(_) => Capability::Image,
            EmbeddingKind::Sparse(_) => Capability::Sparse,
            EmbeddingKind::ReRanking(_) => Capability::Rerank,
        }
    }

    /// The text embedder, where this instance is one.
    pub fn as_text_mut(&mut self) -> (r: Option<&mut TextEmbedding>)
        ensures
            r is Some <==> *old(self) is Text,
            r matches Some(t) ==> {
                &&& *t == old(self)->Text_0
                &&& *final(self) == EmbeddingKind::Text(*final(t))
            },
            r is None ==> *final(self) == *old(self),
    {
        match self {
            EmbeddingKind::Text(t) => Some(t),
            _ => None,
        }
    }

    /// The image embedder, where this instance is one.
    pub fn as_image_mut(&mut self) -> (r: Option<&mut ImageEmbedding>)
        ensures
            r is Some <==> *old(self) is Image,
            r matches Some(t) ==> {
                &&& *t == old(self)->Image_0
                &&& *final(self) == EmbeddingKind::Image(*final(t))
            },
            r is None ==> *final(self) == *old(self),
    {
        match self {
            EmbeddingKind::Image(t) => Some(t),
            _ => None,
        }
    }

    /// The sparse text embedder, where this instance is one.
    pub fn as_sparse_mut(&mut self) -> (r: Option<&mut SparseTextEmbedding>)
        ensures
            r is Some <==> *old(self) is Sparse,
            r matches Some(t) ==> {
                &&& *t == old(self)->Sparse_0
                &&& *final(self) == EmbeddingKind::Sparse(*final(t))
            },
            r is None ==> *final(self) == *old(self),
    {
        match self {
            EmbeddingKind::Sparse(t) => Some(t),
            _ => None,
        }
    }

    /// The reranker, where this instance is one.
    pub fn as_reranker_mut(&mut self) -> (r: Option<&mut TextRerank>)
        ensures
            r is Some <==> *old(self) is ReRanking,
            r matches Some(t) ==> {
                &&& *t == old(self)->ReRanking_0
                &&& *final(self) == EmbeddingKind::ReRanking(*final(t))
            },
            r is None ==> *final(self) == *old(self),
    {
        match self {
            EmbeddingKind::ReRanking(t) => Some(t),
            _ => None,
        }
    }
}

/// An instance built for a selector is narrowed by exactly the accessor of
/// the selector's capability: that one finds it, and every other accessor
/// finds nothing.
pub proof fn lemma_built_instance_narrows(model: ModelKind, e: EmbeddingKind)
    requires
        e.capability() == model.capability(),
    ensures
        e is Text <==> model is Text,
        e is Image <==> model is Image,
        e is Sparse <==> model is Sparse,
        e is ReRanking <==> model is Rerank,
{
}

} // verus!
