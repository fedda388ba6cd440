use orttaai_core::memory::MemoryService;

#[test]
fn empty_memory_only_normalizes_whitespace() {
    let memory = MemoryService::new();
    assert!(memory.is_empty());
    assert_eq!(memory.apply(" a  b "), "a b");
    assert_eq!(memory.apply("  keep   these\tspaces "), "keep these spaces");
    assert_eq!(memory.apply("Npm, npm!"), "Npm, npm!");
}

#[test]
fn whitespace_is_normalized_once_memory_has_entries() {
    let mut memory = MemoryService::new();
    memory.add_term("zzz", "Z");
    assert!(!memory.is_empty());
    assert_eq!(memory.apply("  a \t b\n\nc  "), "a b c");
    assert_eq!(memory.apply(""), "");
    assert_eq!(memory.apply("   "), "");
}

#[test]
fn dictionary_wins_over_snippet_and_later_term_overrides() {
    let mut memory = MemoryService::new();
    memory.add_snippet("gh", "GitHub snippet");
    memory.add_term("GH", "GitHub");
    assert_eq!(memory.apply("on gh!"), "on GitHub!");
    memory.add_term("gh", "GH");
    assert_eq!(memory.apply("(Gh)"), "(GH)");
}

#[test]
fn punctuation_only_tokens_and_inner_punctuation() {
    let mut memory = MemoryService::new();
    memory.add_term("rust", "Rust");
    assert_eq!(memory.apply("-- rust's ...rust..."), "-- rust's ...Rust...");
    assert_eq!(memory.apply("¿rust?"), "¿Rust?");
}

#[test]
fn snippet_expands_to_several_words() {
    let mut memory = MemoryService::new();
    memory.add_snippet("sig", "— sent via Orttaai");
    assert_eq!(memory.apply("bye sig"), "bye — sent via Orttaai");
}
