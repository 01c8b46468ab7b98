//! The parts of `fastembed` and `deadpool` that the library relies on: the
//! outside types it carries, and one small wrapper per outside function.
use fastembed::{
    BaseInitOptions, EmbeddingModel, ImageEmbedding, ImageEmbeddingModel, ImageInitOptions,
    ImageInitOptionsUserDefined, InitOptionsUserDefined, InitOptionsWithLength, RerankInitOptions,
    RerankInitOptionsUserDefined, RerankerModel, SparseInitOptions, SparseModel,
    SparseTextEmbedding, TextEmbedding, TextInitOptions, TextRerank, UserDefinedEmbeddingModel,
    UserDefinedImageEmbeddingModel, UserDefinedRerankingModel,
};
use vstd::prelude::*;

verus! {

// ---------------------------------------------------------------------------
// Outside types, carried through the library as opaque values.
// ---------------------------------------------------------------------------

#[verifier::external_type_specification]
#[verifier::external_body]
pub struct ExFastembedError(fastembed::Error);

#[verifier::external_type_specification]
#[verifier::external_body]
#[verifier::reject_recursive_types(M)]
pub struct ExInitOptionsWithLength<M>(InitOptionsWithLength<M>);

#[verifier::external_type_specification]
#[verifier::external_body]
#[verifier::reject_recursive_types(M)]
pub struct ExBaseInitOptions<M>(BaseInitOptions<M>);

#[verifier::external_type_specification]
#[verifier::external_body]
pub struct ExEmbeddingModel(EmbeddingModel);

#[verifier::external_type_specification]
#[verifier::external_body]
pub struct ExImageEmbeddingModel(ImageEmbeddingModel);

#[verifier::external_type_specification]
#[verifier::external_body]
pub struct ExSparseModel(SparseModel);

#[verifier::external_type_specification]
#[verifier::external_body]
pub struct ExRerankerModel(RerankerModel);

#[verifier::external_type_specification]
#[verifier::external_body]
pub struct ExInitOptionsUserDefined(InitOptionsUserDefined);

#[verifier::external_type_specification]
#[verifier::external_body]
pub struct ExImageInitOptionsUserDefined(ImageInitOptionsUserDefined);

#[verifier::external_type_specification]
#[verifier::external_body]
pub struct ExRerankInitOptionsUserDefined(RerankInitOptionsUserDefined);

#[verifier::external_type_specification]
#[verifier::external_body]
pub struct ExUserDefinedEmbeddingModel(UserDefinedEmbeddingModel);

#[verifier::external_type_specification]
#[verifier::external_body]
pub struct ExUserDefinedImageEmbeddingModel(UserDefinedImageEmbeddingModel);

#[verifier::external_type_specification]
#[verifier::external_body]
pub struct ExUserDefinedRerankingModel(UserDefinedRerankingModel);

#[verifier::external_type_specification]
#[verifier::external_body]
pub struct ExTextEmbedding(TextEmbedding);

#[verifier::external_type_specification]
#[verifier::external_body]
pub struct ExImageEmbedding(ImageEmbedding);

#[verifier::external_type_specification]
#[verifier::external_body]
pub struct ExSparseTextEmbedding(SparseTextEmbedding);

#[verifier::external_type_specification]
#[verifier::external_body]
pub struct ExTextRerank(TextRerank);

#[verifier::external_type_specification]
#[verifier::external_body]
pub struct ExPoolConfig(deadpool::managed::PoolConfig);

#[verifier::external_type_specification]
#[verifier::external_body]
pub struct ExRuntime(deadpool::Runtime);

#[verifier::external_type_specification]
#[verifier::external_body]
#[verifier::reject_recursive_types(E)]
pub struct ExRecycleError<E>(deadpool::managed::RecycleError<E>);

// ---------------------------------------------------------------------------
// Registry options.
// ---------------------------------------------------------------------------

/// The model that registry text options name (their `model_name` field).
pub uninterp spec fn text_options_model(o: TextInitOptions) -> EmbeddingModel;

/// The model that registry image options name (their `model_name` field).
pub uninterp spec fn image_options_model(o: ImageInitOptions) -> ImageEmbeddingModel;

/// The model that registry sparse options name (their `model_name` field).
pub uninterp spec fn sparse_options_model(o: SparseInitOptions) -> SparseModel;

/// The model that registry reranking options name (their `model_name` field).
pub uninterp spec fn rerank_options_model(o: RerankInitOptions) -> RerankerModel;

/// Whether a text model is fastembed's default one (`EmbeddingModel::default`).
pub uninterp spec fn is_default_text_model(m: EmbeddingModel) -> bool;

/// Whether fastembed's registry lists the text model that the options name.
/// The registry is a fixed table, so this depends on the options alone.
pub uninterp spec fn text_model_listed_of(o: TextInitOptions) -> bool;

/// Relies on `TextInitOptions::new`: default options that name `model`.
#[verifier::external_body]
pub(crate) fn text_options(model: EmbeddingModel) -> (r: TextInitOptions)
    ensures
        text_options_model(r) == model,
{
    TextInitOptions::new(model)
}

/// Relies on `ImageInitOptions::new`: default options that name `model`.
#[verifier::external_body]
pub(crate) fn image_options(model: ImageEmbeddingModel) -> (r: ImageInitOptions)
    ensures
        image_options_model(r) == model,
{
    ImageInitOptions::new(model)
}

/// Relies on `SparseInitOptions::new`: default options that name `model`.
#[verifier::external_body]
pub(crate) fn sparse_options(model: SparseModel) -> (r: SparseInitOptions)
    ensures
        sparse_options_model(r) == model,
{
    SparseInitOptions::new(model)
}

/// Relies on `RerankInitOptions::new`: default options that name `model`.
#[verifier::external_body]
pub(crate) fn rerank_options(model: RerankerModel) -> (r: RerankInitOptions)
    ensures
        rerank_options_model(r) == model,
{
    RerankInitOptions::new(model)
}

/// Relies on `EmbeddingModel::default` (a derived `Default`).
#[verifier::external_body]
pub(crate) fn default_text_model() -> (r: EmbeddingModel)
    ensures
        is_default_text_model(r),
{
    EmbeddingModel::default()
}

/// Relies on `TextEmbedding::get_model_info`: whether the registry lists the
/// model that the options name.
#[verifier::external_body]
pub(crate) fn text_model_listed(options: &TextInitOptions) -> (r: bool)
    ensures
        r == text_model_listed_of(*options),
{
    TextEmbedding::get_model_info(&options.model_name).is_ok()
}

// ---------------------------------------------------------------------------
// Copies. Each relies on the derived `Clone` of a fastembed options type,
// which copies every field, so the copy is the same value.
// ---------------------------------------------------------------------------

/// Relies on the derived `Clone` of `TextInitOptions`.
#[verifier::external_body]
pub(crate) fn copy_text_options(o: &TextInitOptions) -> (r: TextInitOptions)
    ensures
        r == *o,
{
    o.clone()
}

/// Relies on the derived `Clone` of `ImageInitOptions`.
#[verifier::external_body]
pub(crate) fn copy_image_options(o: &ImageInitOptions) -> (r: ImageInitOptions)
    ensures
        r == *o,
{
    o.clone()
}

/// Relies on the derived `Clone` of `SparseInitOptions`.
#[verifier::external_body]
pub(crate) fn copy_sparse_options(o: &SparseInitOptions) -> (r: SparseInitOptions)
    ensures
        r == *o,
{
    o.clone()
}

/// Relies on the derived `Clone` of `RerankInitOptions`.
#[verifier::external_body]
pub(crate) fn copy_rerank_options(o: &RerankInitOptions) -> (r: RerankInitOptions)
    ensures
        r == *o,
{
    o.clone()
}

// ---------------------------------------------------------------------------
// Constructors of the embedding objects. Each may fail (download, file I/O,
// backend start-up); nothing is promised of which error comes back. Each
// needs the ONNX Runtime library, which fastembed loads when the first
// session is made: ort stops the process if that library cannot be loaded.
// ---------------------------------------------------------------------------

/// Relies on `TextEmbedding::try_new`.
#[verifier::external_body]
pub(crate) fn new_text_embedding(o: TextInitOptions) -> Result<TextEmbedding, fastembed::Error> {
    TextEmbedding::try_new(o)
}

/// Relies on `ImageEmbedding::try_new`.
#[verifier::external_body]
pub(crate) fn new_image_embedding(o: ImageInitOptions) -> Result<ImageEmbedding, fastembed::Error> {
    ImageEmbedding::try_new(o)
}

/// Relies on `SparseTextEmbedding::try_new`.
#[verifier::external_body]
pub(crate) fn new_sparse_embedding(o: SparseInitOptions) -> Result<
    SparseTextEmbedding,
    fastembed::Error,
> {
    SparseTextEmbedding::try_new(o)
}

/// Relies on `TextRerank::try_new`.
#[verifier::external_body]
pub(crate) fn new_reranker(o: RerankInitOptions) -> Result<TextRerank, fastembed::Error> {
    TextRerank::try_new(o)
}

// ---------------------------------------------------------------------------
// Options and copies for models supplied as raw files.
// ---------------------------------------------------------------------------

/// Whether options for a text model given as files are fastembed's defaults
/// (`InitOptionsUserDefined::new`).
pub uninterp spec fn is_default_user_text_options(o: InitOptionsUserDefined) -> bool;

/// Whether options for an image model given as files are fastembed's defaults
/// (`ImageInitOptionsUserDefined::new`).
pub uninterp spec fn is_default_user_image_options(o: ImageInitOptionsUserDefined) -> bool;

/// Whether options for a reranker given as files are fastembed's defaults
/// (`RerankInitOptionsUserDefined::default`).
pub uninterp spec fn is_default_user_rerank_options(o: RerankInitOptionsUserDefined) -> bool;

/// Relies on `InitOptionsUserDefined::new`: default options.
#[verifier::external_body]
pub(crate) fn user_text_options() -> (r: InitOptionsUserDefined)
    ensures
        is_default_user_text_options(r),
{
    InitOptionsUserDefined::new()
}

/// Relies on `ImageInitOptionsUserDefined::new`: default options.
#[verifier::external_body]
pub(crate) fn user_image_options() -> (r: ImageInitOptionsUserDefined)
    ensures
        is_default_user_image_options(r),
{
    ImageInitOptionsUserDefined::new()
}

/// Relies on `RerankInitOptionsUserDefined::default`: default options.
#[verifier::external_body]
pub(crate) fn user_rerank_options() -> (r: RerankInitOptionsUserDefined)
    ensures
        is_default_user_rerank_options(r),
{
    RerankInitOptionsUserDefined::default()
}

/// Relies on the derived `Clone` of `InitOptionsUserDefined`.
#[verifier::external_body]
pub(crate) fn copy_user_text_options(o: &InitOptionsUserDefined) -> (r: InitOptionsUserDefined)
    ensures
        r == *o,
{
    o.clone()
}

/// Relies on the derived `Clone` of `ImageInitOptionsUserDefined`.
#[verifier::external_body]
pub(crate) fn copy_user_image_options(o: &ImageInitOptionsUserDefined) -> (r: ImageInitOptionsUserDefined)
    ensures
        r == *o,
{
    o.clone()
}

/// Relies on the derived `Clone` of `RerankInitOptionsUserDefined`.
#[verifier::external_body]
pub(crate) fn copy_user_rerank_options(o: &RerankInitOptionsUserDefined) -> (r: RerankInitOptionsUserDefined)
    ensures
        r == *o,
{
    o.clone()
}

/// Relies on the derived `Clone` of `UserDefinedEmbeddingModel`.
#[verifier::external_body]
pub(crate) fn copy_user_text_model(m: &UserDefinedEmbeddingModel) -> (r: UserDefinedEmbeddingModel)
    ensures
        r == *m,
{
    m.clone()
}

/// Relies on the derived `Clone` of `UserDefinedImageEmbeddingModel`.
#[verifier::external_body]
pub(crate) fn copy_user_image_model(m: &UserDefinedImageEmbeddingModel) -> (r: UserDefinedImageEmbeddingModel)
    ensures
        r == *m,
{
    m.clone()
}

/// Relies on the derived `Clone` of `UserDefinedRerankingModel`.
#[verifier::external_body]
pub(crate) fn copy_user_rerank_model(m: &UserDefinedRerankingModel) -> (r: UserDefinedRerankingModel)
    ensures
        r == *m,
{
    m.clone()
}

/// Relies on `TextEmbedding::try_new_from_user_defined`.
#[verifier::external_body]
pub(crate) fn new_user_text_embedding(
    m: UserDefinedEmbeddingModel,
    o: InitOptionsUserDefined,
) -> Result<TextEmbedding, fastembed::Error> {
    TextEmbedding::try_new_from_user_defined(m, o)
}

/// Relies on `ImageEmbedding::try_new_from_user_defined`.
#[verifier::external_body]
pub(crate) fn new_user_image_embedding(
    m: UserDefinedImageEmbeddingModel,
    o: ImageInitOptionsUserDefined,
) -> Result<ImageEmbedding, fastembed::Error> {
    ImageEmbedding::try_new_from_user_defined(m, o)
}

/// Relies on `TextRerank::try_new_from_user_defined`.
#[verifier::external_body]
pub(crate) fn new_user_reranker(
    m: UserDefinedRerankingModel,
    o: RerankInitOptionsUserDefined,
) -> Result<TextRerank, fastembed::Error> {
    TextRerank::try_new_from_user_defined(m, o)
}

// ---------------------------------------------------------------------------
// Pool settings.
// ---------------------------------------------------------------------------

/// Relies on `PoolConfig::default`: deadpool's default settings, whose size
/// bound it derives from the machine's CPU count.
#[verifier::external_body]
pub(crate) fn default_pool_config() -> deadpool::managed::PoolConfig {
    deadpool::managed::PoolConfig::default()
}

} // verus!
