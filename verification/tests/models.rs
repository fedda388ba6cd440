use orttaai_core::models::{catalog, catalog_url, model_file_name, HF_BASE};

#[test]
fn catalog_is_well_formed() {
    let entries = catalog();
    assert!(entries.len() >= 4);
    for spec in entries {
        assert!(spec.id.starts_with("ggml-"), "bad id: {}", spec.id);
        assert!(spec.url.ends_with(".bin"), "bad url: {}", spec.url);
        assert!(spec.approx_size_mb > 0);
    }
}

#[test]
fn catalog_urls_point_at_the_model_files() {
    let entries = catalog();
    assert_eq!(entries.len(), 10);
    assert_eq!(entries[0].id, "ggml-tiny.en-q5_1");
    assert_eq!(entries[0].name, "Tiny · English (Q5)");
    assert_eq!(entries[0].approx_size_mb, 32);
    assert!(!entries[0].multilingual);
    assert_eq!(
        entries[0].url,
        "https://huggingface.co/ggerganov/whisper.cpp/resolve/main/ggml-tiny.en-q5_1.bin"
    );
    assert_eq!(entries[9].id, "ggml-large-v3-q5_0");
    assert!(entries[9].multilingual);
    assert_eq!(entries[9].approx_size_mb, 1081);
    assert_eq!(HF_BASE, "https://huggingface.co/ggerganov/whisper.cpp/resolve/main");
}

#[test]
fn catalog_url_finds_known_ids_only() {
    assert_eq!(
        catalog_url("ggml-base.en").as_deref(),
        Some("https://huggingface.co/ggerganov/whisper.cpp/resolve/main/ggml-base.en.bin")
    );
    assert_eq!(catalog_url("ggml-nope"), None);
    assert_eq!(catalog_url(""), None);
}

#[test]
fn model_file_name_appends_bin() {
    assert_eq!(model_file_name("ggml-base.en"), "ggml-base.en.bin");
}
