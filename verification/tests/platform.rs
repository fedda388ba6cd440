use orttaai_core::clipboard::{Clipboard, MockClipboard, SystemClipboard};
use orttaai_core::error::CoreError;
use orttaai_core::focus::{app_name_from_image_path, app_name_from_wm_class};
use orttaai_core::injection::{
    char_to_keysym, portal_precheck, portal_reply, restore_token_to_save, secure_status_from_query,
    MockTextInjector, SystemTextInjector, TextInjector, TypingRoute,
};
use orttaai_core::llm::{base, clean_reply, generate_url, tags_url};
use orttaai_core::store::{history_limit, TranscriptionRecord};
use orttaai_core::transcription::{join_segments, whisper_language, MockTranscriber};
use orttaai_core::types::{DecodePreset, InjectionResult, SecureFieldStatus};

#[test]
fn mock_clipboard_restores_saved_text() {
    let mut c = MockClipboard::new();
    assert_eq!(c.get_text().unwrap(), None);
    c.set_text("before").unwrap();
    c.save().unwrap();
    c.set_text("transcript").unwrap();
    c.set_text("other").unwrap();
    assert_eq!(c.get_text().unwrap().as_deref(), Some("other"));
    c.restore().unwrap();
    assert_eq!(c.get_text().unwrap().as_deref(), Some("before"));
}

#[test]
fn system_clipboard_is_not_implemented() {
    let mut c = SystemClipboard::new();
    match c.save() {
        Err(CoreError::NotImplemented(what)) => assert_eq!(what, "system clipboard (Phase 1)"),
        other => panic!("unexpected {other:?}"),
    }
    assert!(c.set_text("x").is_err());
    assert!(c.get_text().is_err());
    assert!(c.restore().is_err());
}

#[test]
fn mock_injector_records_and_fails_on_demand() {
    let mut m = MockTextInjector::new();
    assert_eq!(m.inject("one").unwrap(), InjectionResult::Success);
    assert_eq!(m.inject("two").unwrap(), InjectionResult::Success);
    assert_eq!(m.log().all(), vec!["one".to_string(), "two".to_string()]);
    assert_eq!(m.log().last().as_deref(), Some("two"));
    assert_eq!(m.backend_name(), "mock");
    assert_eq!(m.is_secure_field_focused(), SecureFieldStatus::NotSecure);

    let mut f = MockTextInjector::failing();
    match f.inject("x") {
        Err(e) => assert_eq!(e.message(), "text injection failed: mock injection failure"),
        Ok(_) => panic!("expected failure"),
    }
    assert!(f.log().all().is_empty());
    assert_eq!(MockTextInjector::unknown().is_secure_field_focused(), SecureFieldStatus::Unknown);
    assert_eq!(MockTextInjector::secure().is_secure_field_focused(), SecureFieldStatus::Secure);
}

#[test]
fn mock_injector_log_is_the_live_record() {
    let mut m = MockTextInjector::new();
    assert!(m.log().all().is_empty());
    m.inject("a").unwrap();
    assert_eq!(m.log().last().as_deref(), Some("a"));
    m.inject("").unwrap();
    m.inject("a").unwrap();
    // Every injection, in order, repeats and empty texts included.
    assert_eq!(m.log().all(), vec!["a".to_string(), String::new(), "a".to_string()]);
}

#[test]
fn system_injector_routes() {
    let x11 = SystemTextInjector::new(false, false);
    assert_eq!(x11.route(""), None);
    assert_eq!(x11.route("hi"), Some(TypingRoute::Enigo));
    assert_eq!(x11.backend_name(), "enigo (X11)");
    let wl = SystemTextInjector::new(true, false);
    assert_eq!(wl.route("hi"), Some(TypingRoute::Wtype));
    assert_eq!(wl.backend_name(), "wtype (Wayland)");
    let portal = SystemTextInjector::new(true, true);
    assert_eq!(portal.route("hi"), Some(TypingRoute::Portal));
    assert_eq!(portal.is_secure_field_focused(), SecureFieldStatus::Unknown);
}

#[test]
fn secure_status_maps_query_answers() {
    assert_eq!(secure_status_from_query(Some(true)), SecureFieldStatus::Secure);
    assert_eq!(secure_status_from_query(Some(false)), SecureFieldStatus::NotSecure);
    assert_eq!(secure_status_from_query(None), SecureFieldStatus::Unknown);
}

#[test]
fn keysyms() {
    assert_eq!(char_to_keysym('\n'), 0xFF0D);
    assert_eq!(char_to_keysym('\r'), 0xFF0D);
    assert_eq!(char_to_keysym('\t'), 0xFF09);
    assert_eq!(char_to_keysym('a'), 0x61);
    assert_eq!(char_to_keysym('~'), 0x7e);
    assert_eq!(char_to_keysym('é'), 0x0100_00e9);
    assert_eq!(char_to_keysym('\u{1F600}'), 0x0101_F600);
}

#[test]
fn restore_token_saved_only_when_new() {
    assert_eq!(restore_token_to_save(&None, "t1").as_deref(), Some("t1"));
    assert_eq!(restore_token_to_save(&Some("t1".to_string()), "t1"), None);
    assert_eq!(restore_token_to_save(&Some("t1".to_string()), "t2").as_deref(), Some("t2"));
}

#[test]
fn portal_precheck_and_reply() {
    match portal_precheck(&Err("denied".to_string()), "x") {
        Some(Err(e)) => assert_eq!(e.message(), "text injection failed: denied"),
        other => panic!("unexpected {other:?}"),
    }
    assert!(matches!(portal_precheck(&Ok(()), ""), Some(Ok(InjectionResult::NoTranscript))));
    assert!(portal_precheck(&Ok(()), "x").is_none());
    assert!(matches!(portal_reply(Some(Ok(()))), Ok(InjectionResult::Success)));
    match portal_reply(None) {
        Err(e) => assert_eq!(e.message(), "text injection failed: portal worker dropped"),
        Ok(_) => panic!("expected error"),
    }
    match portal_reply(Some(Err("bus".to_string()))) {
        Err(e) => assert_eq!(e.message(), "text injection failed: bus"),
        Ok(_) => panic!("expected error"),
    }
}

#[test]
fn wm_class_names() {
    assert_eq!(app_name_from_wm_class(b"navigator\0Firefox\0").as_deref(), Some("Firefox"));
    assert_eq!(app_name_from_wm_class(b"\0\0xterm\0").as_deref(), Some("xterm"));
    assert_eq!(app_name_from_wm_class(b"a\0 \0").as_deref(), None);
    assert_eq!(app_name_from_wm_class(b"").as_deref(), None);
    assert_eq!(app_name_from_wm_class(b"one\0two\0three").as_deref(), Some("two"));
}

#[test]
fn image_path_names() {
    assert_eq!(
        app_name_from_image_path("C:\\Program Files\\Mozilla\\firefox.exe").as_deref(),
        Some("firefox")
    );
    assert_eq!(app_name_from_image_path("C:/Tools/CODE.EXE").as_deref(), Some("CODE"));
    assert_eq!(app_name_from_image_path("/usr/bin/gedit").as_deref(), Some("gedit"));
    assert_eq!(app_name_from_image_path("C:\\dir\\.exe"), None);
    assert_eq!(app_name_from_image_path("C:\\dir\\"), None);
}

#[test]
fn llm_urls() {
    assert_eq!(base("http://localhost:11434///"), "http://localhost:11434");
    assert_eq!(generate_url("http://localhost:11434/"), "http://localhost:11434/api/generate");
    assert_eq!(tags_url("http://h:1"), "http://h:1/api/tags");
    assert_eq!(clean_reply("\n  answer \n"), "answer");
}

#[test]
fn record_counts_words() {
    let r = TranscriptionRecord::new("hello there", Some("Firefox".to_string()), 1200, 1_700_000_000);
    assert_eq!(r.word_count, 2);
    assert_eq!(r.id, None);
    assert_eq!(r.text, "hello there");
    assert_eq!(r.app.as_deref(), Some("Firefox"));
    assert_eq!(TranscriptionRecord::new("  a\tb \n c ", None, 0, 0).word_count, 3);
    assert_eq!(TranscriptionRecord::new("   ", None, 0, 0).word_count, 0);
}

#[test]
fn history_limit_is_clamped() {
    assert_eq!(history_limit(0), 1);
    assert_eq!(history_limit(-5), 1);
    assert_eq!(history_limit(10), 10);
    assert_eq!(history_limit(10_000), 500);
}

#[test]
fn segments_join_and_language() {
    let chunks = vec![" Hello".to_string(), "   ".to_string(), " world. ".to_string()];
    assert_eq!(join_segments(&chunks), "Hello  world.");
    let chunks = vec!["  ".to_string(), "a".to_string()];
    assert_eq!(join_segments(&chunks), "a");
    assert_eq!(join_segments(&[]), "");
    assert_eq!(whisper_language(Some("auto")), None);
    assert_eq!(whisper_language(None), None);
    assert_eq!(whisper_language(Some("en")), Some("en"));
}

#[test]
fn mock_transcriber_returns_canned_text() {
    let mut t = MockTranscriber::new("canned");
    assert_eq!(t.loaded_model(), Some("mock"));
    t.load_model("ggml-base.en").unwrap();
    assert_eq!(t.loaded_model(), Some("ggml-base.en"));
    assert_eq!(t.transcribe().unwrap(), "canned");
}

#[test]
fn errors_render_like_display() {
    assert_eq!(CoreError::ModelNotLoaded.message(), "no transcription model is loaded");
    assert_eq!(
        CoreError::NotImplemented("x").message(),
        "not implemented on this platform: x"
    );
    assert_eq!(CoreError::Db("locked".to_string()).message(), "database error: locked");
    assert_eq!(CoreError::Serde("eof".to_string()).message(), "serialization error: eof");
    assert_eq!(DecodePreset::default(), DecodePreset::Balanced);
}
