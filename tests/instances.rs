use deadpool_fastembed::EmbeddingKind;

fn failure(text: &str) -> fastembed::Error {
    fastembed::Error::msg(text.to_string())
}

#[test]
fn failed_text_build_passes_error_through() {
    let r = EmbeddingKind::from_text(Err(failure("no weights")));
    assert_eq!(r.err().unwrap().to_string(), "no weights");
}

#[test]
fn failed_image_build_passes_error_through() {
    let r = EmbeddingKind::from_image(Err(failure("bad preprocessor")));
    assert_eq!(r.err().unwrap().to_string(), "bad preprocessor");
}

#[test]
fn failed_sparse_build_passes_error_through() {
    let r = EmbeddingKind::from_sparse(Err(failure("download failed")));
    assert_eq!(r.err().unwrap().to_string(), "download failed");
}

#[test]
fn failed_reranker_build_passes_error_through() {
    let r = EmbeddingKind::from_reranker(Err(failure("backend init failed")));
    assert_eq!(r.err().unwrap().to_string(), "backend init failed");
}
