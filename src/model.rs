//! Model selectors: which embedding backend a pool slot is built from.
use crate::backend::{
    copy_image_options, copy_rerank_options, copy_sparse_options, copy_text_options,
    copy_user_image_model, copy_user_image_options, copy_user_rerank_model,
    copy_user_rerank_options, copy_user_text_model, copy_user_text_options, default_text_model,
    image_options, image_options_model, is_default_text_model, is_default_user_image_options,
    is_default_user_rerank_options, is_default_user_text_options, rerank_options,
    rerank_options_model, sparse_options, sparse_options_model, text_model_listed,
    text_model_listed_of, text_options, text_options_model, user_image_options, user_rerank_options,
    user_text_options,
};
use fastembed::{
    EmbeddingModel, ImageEmbeddingModel, ImageInitOptions, ImageInitOptionsUserDefined,
    InitOptionsUserDefined, RerankInitOptions, RerankInitOptionsUserDefined, RerankerModel,
    SparseInitOptions, SparseModel, TextInitOptions, UserDefinedEmbeddingModel,
    UserDefinedImageEmbeddingModel, UserDefinedRerankingModel,
};
use vstd::prelude::*;

verus! {

/// The capability that a selector asks for and that an instance provides.
#[derive(Clone, Copy, Debug, PartialEq, Eq, Structural)]
pub enum Capability {
    Text,
    Image,
    Sparse,
    Rerank,
}

/// A model from fastembed's registry, with the options to initialise it.
#[derive(Debug)]
pub enum ModelKind {
    Text(TextInitOptions),
    Image(ImageInitOptions),
    Sparse(SparseInitOptions),
    Rerank(RerankInitOptions),
}

impl ModelKind {
    pub open spec fn capability(self) -> Capability {
        match self {
            ModelKind::Text(_) => Capability::Text,
            ModelKind::Image(_) => Capability::Image,
            ModelKind::Sparse(_) => Capability::Sparse,
            ModelKind::Rerank(_) => Capability::Rerank,
        }
    }

    pub fn text(model: EmbeddingModel) -> (r: Self)
        ensures
            r.capability() == Capability::Text,
            text_options_model(r->Text_0) == model,
    {
        ModelKind::Text(text_options(model))
    }

    pub fn image(model: ImageEmbeddingModel) -> (r: Self)
        ensures
            r.capability() == Capability::Image,
            image_options_model(r->Image_0) == model,
    {
        ModelKind::Image(image_options(model))
    }

    pub fn sparse(model: SparseModel) -> (r: Self)
        ensures
            r.capability() == Capability::Sparse,
            sparse_options_model(r->Sparse_0) == model,
    {
        ModelKind::Sparse(sparse_options(model))
    }

    pub fn rerank(model: RerankerModel) -> (r: Self)
        ensures
            r.capability() == Capability::Rerank,
            rerank_options_model(r->Rerank_0) == model,
    {
        ModelKind::Rerank(rerank_options(model))
    }

    /// The capability this selector asks for.
    pub fn kind(&self) -> (r: Capability)
        ensures
            r == self.capability(),
    {
        match self {
            ModelKind::Text(_) => Capability::Text,
            ModelKind::Image(_) => Capability::Image,
            ModelKind::Sparse(_) => Capability::Sparse,
            ModelKind::Rerank(_) => Capability::Rerank,
        }
    }

    /// Whether fastembed's registry can resolve the selected model. Only text
    /// models are looked up: the registry lists every image, sparse and
    /// reranking model by construction.
    pub fn is_resolvable(&self) -> (r: bool)
        ensures
            !(self is Text) ==> r,
            self is Text ==> r == text_model_listed_of(self->Text_0),
    {
        match self {
            ModelKind::Text(o) => text_model_listed(o),
            _ => true,
        }
    }
}

impl Clone for ModelKind {
    /// A copy of this selector, equal to it.
    fn clone(&self) -> (r: Self)
        ensures
            r == *self,
    {
        match self {
            ModelKind::Text(o) => ModelKind::Text(copy_text_options(o)),
            ModelKind::Image(o) => ModelKind::Image(copy_image_options(o)),
            ModelKind::Sparse(o) => ModelKind::Sparse(copy_sparse_options(o)),
            ModelKind::Rerank(o) => ModelKind::Rerank(copy_rerank_options(o)),
        }
    }
}

impl Default for ModelKind {
    /// The registry's default text model.
    fn default() -> (r: Self)
        ensures
            r.capability() == Capability::Text,
            is_default_text_model(text_options_model(r->Text_0)),
    {
        ModelKind::text(default_text_model())
    }
}

/// A model supplied by the caller as raw files, with its options.
#[derive(Debug)]
#[allow(inconsistent_fields)]
pub enum UserDefinedModelKind {
    Text { options: InitOptionsUserDefined, model: UserDefinedEmbeddingModel },
    Image { options: ImageInitOptionsUserDefined, model: UserDefinedImageEmbeddingModel },
    Rerank { options: RerankInitOptionsUserDefined, model: UserDefinedRerankingModel },
}

impl UserDefinedModelKind {
    pub open spec fn capability(self) -> Capability {
        match self {
            UserDefinedModelKind::Text { .. } => Capability::Text,
            UserDefinedModelKind::Image { .. } => Capability::Image,
            UserDefinedModelKind::Rerank { .. } => Capability::Rerank,
        }
    }

    pub fn text(model: UserDefinedEmbeddingModel) -> (r: Self)
        ensures
            r.capability() == Capability::Text,
            r->Text_model == model,
            is_default_user_text_options(r->Text_options),
    {
        UserDefinedModelKind::Text { options: user_text_options(), model }
    }

    pub fn image(model: UserDefinedImageEmbeddingModel) -> (r: Self)
        ensures
            r.capability() == Capability::Image,
            r->Image_model == model,
            is_default_user_image_options(r->Image_options),
    {
        UserDefinedModelKind::Image { options: user_image_options(), model }
    }

    pub fn rerank(model: UserDefinedRerankingModel) -> (r: Self)
        ensures
            r.capability() == Capability::Rerank,
            r->Rerank_model == model,
            is_default_user_rerank_options(r->Rerank_options),
    {
        UserDefinedModelKind::Rerank { options: user_rerank_options(), model }
    }

    /// The capability this selector asks for.
    pub fn kind(&self) -> (r: Capability)
        ensures
            r == self.capability(),
    {
        match self {
            UserDefinedModelKind::Text { .. } => Capability::Text,
            UserDefinedModelKind::Image { .. } => Capability::Image,
            UserDefinedModelKind::Rerank { .. } => Capability::Rerank,
        }
    }
}

impl Clone for UserDefinedModelKind {
    /// A copy of this selector, equal to it.
    fn clone(&self) -> (r: Self)
        ensures
            r == *self,
    {
        match self {
            UserDefinedModelKind::Text { options, model } => UserDefinedModelKind::Text {
                options: copy_user_text_options(options),
                model: copy_user_text_model(model),
            },
            UserDefinedModelKind::Image { options, model } => UserDefinedModelKind::Image {
                options: copy_user_image_options(options),
                model: copy_user_image_model(model),
            },
            UserDefinedModelKind::Rerank { options, model } => UserDefinedModelKind::Rerank {
                options: copy_user_rerank_options(options),
                model: copy_user_rerank_model(model),
            },
        }
    }
}

} // verus!
