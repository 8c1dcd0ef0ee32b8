use fluxara_avc::i18n::{set_language, translate, Language, LocaleContext, Translations};
use fluxara_avc::ui_state::{AppTheme, ConvertPageMessage, ConvertPageState, Page};

#[test]
fn language_tags_and_order() {
    assert_eq!(Language::En.as_str(), "en");
    assert_eq!(Language::It.as_str(), "it");
    assert_eq!(Language::all(), vec![Language::En, Language::It]);
    assert_eq!(Language::default(), Language::En);
}

#[test]
fn translation_lookup_and_missing_marker() {
    let t = Translations {
        entries: vec![
            ("hello".to_string(), "ciao".to_string()),
            ("bye".to_string(), "arrivederci".to_string()),
        ],
    };
    assert_eq!(t.get("hello"), "ciao");
    assert_eq!(t.get("bye"), "arrivederci");
    assert_eq!(t.get("nope"), "MISSING_TRANSLATION: nope");
    let empty = Translations::default();
    assert_eq!(empty.get("hello"), "MISSING_TRANSLATION: hello");
}

#[test]
fn language_switch_installs_loaded_table() {
    let mut ctx = LocaleContext { language: Language::En, translations: Translations::default() };
    let table = Translations { entries: vec![("hello".to_string(), "ciao".to_string())] };
    set_language(&mut ctx, Language::It, Some(table));
    assert_eq!(ctx.language, Language::It);
    assert_eq!(translate(&ctx, "hello"), "ciao");
    set_language(&mut ctx, Language::En, None);
    assert_eq!(ctx.language, Language::En);
    assert_eq!(translate(&ctx, "hello"), "MISSING_TRANSLATION: hello");
}

#[test]
fn convert_page_defaults() {
    let s = ConvertPageState::default();
    assert_eq!(s.input_path, "");
    assert_eq!(s.output_format, "mp4");
    assert!(!s.recursive);
    assert_eq!(s.quality, "192k");
    assert_eq!(s.jobs, "4");
    assert_eq!(s.available_formats.len(), 14);
    assert_eq!(s.selected_output_format, Some("mp4".to_string()));
}

#[test]
fn theme_and_page_model() {
    assert_eq!(AppTheme::default(), AppTheme::Dark);
    assert_ne!(Page::Home, Page::Convert);
    let m = ConvertPageMessage::InputPathChanged("x".to_string());
    assert!(matches!(m, ConvertPageMessage::InputPathChanged(p) if p == "x"));
}
