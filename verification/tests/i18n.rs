use docsrs_cli::error::{AppError, ErrorDetail, ErrorKind, Subject};
use docsrs_cli::i18n::{normalize_lang_tag, translate_error_pt_br, Locale};

fn text_error(message: &str) -> AppError {
    AppError::new(ErrorKind::Internal, message)
}

#[test]
fn i18n_normalize_strips_encoding_and_underscore() {
    assert_eq!(normalize_lang_tag("pt_BR.UTF-8"), "pt-br");
    assert_eq!(normalize_lang_tag("en-US"), "en-us");
    assert_eq!(normalize_lang_tag("  PT-br@euro  "), "pt-br");
}

#[test]
fn i18n_parse_supported_en_pt_br() {
    assert_eq!(Locale::parse_supported("pt-BR").unwrap(), Locale::PtBr);
    assert_eq!(Locale::parse_supported("pt_BR").unwrap(), Locale::PtBr);
    assert_eq!(Locale::parse_supported("pt_BR.UTF-8").unwrap(), Locale::PtBr);
    assert_eq!(Locale::parse_supported("en-US").unwrap(), Locale::En);
    assert_eq!(Locale::parse_supported("en").unwrap(), Locale::En);
    assert_eq!(Locale::parse_supported("en.UTF-8").unwrap(), Locale::En);
}

#[test]
fn i18n_parse_supported_fail_closed() {
    assert!(Locale::parse_supported("pt").is_err());
    assert!(Locale::parse_supported("pt-PT").is_err());
    assert!(Locale::parse_supported("fr").is_err());
    assert!(Locale::parse_supported("xx").is_err());
    assert!(Locale::parse_supported("").is_err());
    assert!(Locale::parse_supported("  ").is_err());
    let err = Locale::parse_supported("de").unwrap_err();
    assert_eq!(err.kind(), ErrorKind::InvalidInput);
    assert!(err.message().contains("unsupported lang"));
}

#[test]
fn i18n_soft_system_maps_any_portuguese() {
    assert_eq!(Locale::soft_from_tag("de-DE"), Locale::En);
    assert_eq!(Locale::soft_from_tag("pt-BR"), Locale::PtBr);
    assert_eq!(Locale::soft_from_tag("pt"), Locale::PtBr);
    assert_eq!(Locale::soft_from_tag("pt-PT"), Locale::PtBr);
    assert_eq!(Locale::soft_from_tag("pt_BR.UTF-8"), Locale::PtBr);
    assert_eq!(Locale::soft_from_tag("C"), Locale::En);
    assert_eq!(Locale::soft_from_tag("C.UTF-8"), Locale::En);
}

#[test]
fn i18n_as_bcp47_stable() {
    assert_eq!(Locale::En.as_bcp47(), "en");
    assert_eq!(Locale::PtBr.as_bcp47(), "pt-BR");
}

#[test]
fn i18n_progress_localized() {
    assert!(Locale::En.progress_fetching("x").contains("fetching"));
    assert!(Locale::PtBr.progress_fetching("x").contains("buscando"));
}

#[test]
fn i18n_error_and_doctor_lines() {
    assert!(Locale::En.format_error(&text_error("boom")).starts_with("error:"));
    assert!(Locale::PtBr.format_error(&text_error("boom")).starts_with("erro:"));
    let pt = Locale::PtBr.format_error(&text_error("crate name is empty"));
    assert!(pt.contains("nome da crate está vazio"), "{pt}");
    let pt2 = Locale::PtBr.format_error(&text_error("interrupted by SIGINT"));
    assert!(pt2.contains("interrompido por SIGINT"), "{pt2}");
    let pt3 = Locale::PtBr.format_error(&text_error("invalid version 'v1'"));
    assert!(pt3.contains("versão inválida"), "{pt3}");
    assert_eq!(Locale::En.doctor_ok(true), "doctor: ok");
    assert_eq!(Locale::PtBr.doctor_ok(false), "doctor: falhou");
    assert_eq!(Locale::resolve(Some("pt-BR")).unwrap(), Locale::PtBr);
    assert_eq!(Locale::resolve(Some("en")).unwrap(), Locale::En);
    assert!(Locale::resolve(Some("ja")).is_err());
    assert!(Locale::resolve(Some("pt")).is_err());
}

#[test]
fn bootstrap_locale_reads_lang_from_argv_only() {
    assert_eq!(
        Locale::from_argv_for_bootstrap(&[Some("docsrs-cli"), Some("--lang"), Some("pt-BR"), Some("version")]),
        Locale::PtBr
    );
    assert_eq!(Locale::from_argv_for_bootstrap(&[Some("docsrs-cli"), Some("--lang=pt_BR.UTF-8")]), Locale::PtBr);
    assert_eq!(Locale::from_argv_for_bootstrap(&[Some("docsrs-cli"), Some("version")]), Locale::En);
    assert_eq!(Locale::from_argv_for_bootstrap(&[Some("docsrs-cli"), Some("--lang"), Some("xx-YY")]), Locale::En);
    assert_eq!(Locale::from_argv_for_bootstrap(&[Some("docsrs-cli"), Some("--lang")]), Locale::En);
}

#[test]
fn bootstrap_messages_differ_per_locale() {
    assert_ne!(Locale::En.bootstrap_provider_conflict(), Locale::PtBr.bootstrap_provider_conflict());
    assert_ne!(Locale::En.bootstrap_runtime_failure("boom"), Locale::PtBr.bootstrap_runtime_failure("boom"));
    assert!(Locale::En.bootstrap_runtime_failure("boom").contains("boom"));
    assert!(Locale::PtBr.bootstrap_runtime_failure("boom").contains("boom"));
}

#[test]
fn tests_normalize_strips_encoding_and_underscore() {
    assert_eq!(normalize_lang_tag("pt_BR.UTF-8"), "pt-br");
    assert_eq!(normalize_lang_tag("en-US"), "en-us");
    assert_eq!(normalize_lang_tag("  PT-br@euro  "), "pt-br");
}

#[test]
fn tests_parse_supported_en_pt_br() {
    assert_eq!(Locale::parse_supported("pt-BR").unwrap(), Locale::PtBr);
    assert_eq!(Locale::parse_supported("pt_BR").unwrap(), Locale::PtBr);
    assert_eq!(Locale::parse_supported("pt_BR.UTF-8").unwrap(), Locale::PtBr);
    assert_eq!(Locale::parse_supported("en-US").unwrap(), Locale::En);
    assert_eq!(Locale::parse_supported("en").unwrap(), Locale::En);
    assert_eq!(Locale::parse_supported("en.UTF-8").unwrap(), Locale::En);
}

#[test]
fn tests_parse_supported_fail_closed() {
    assert!(Locale::parse_supported("pt").is_err());
    assert!(Locale::parse_supported("pt-PT").is_err());
    assert!(Locale::parse_supported("fr").is_err());
    assert!(Locale::parse_supported("xx").is_err());
    assert!(Locale::parse_supported("").is_err());
    assert!(Locale::parse_supported("  ").is_err());
    let err = Locale::parse_supported("de").unwrap_err();
    assert_eq!(err.kind(), ErrorKind::InvalidInput);
    assert!(err.message().contains("unsupported lang"));
}

#[test]
fn tests_soft_system_maps_any_portuguese() {
    assert_eq!(Locale::soft_from_tag("de-DE"), Locale::En);
    assert_eq!(Locale::soft_from_tag("pt-BR"), Locale::PtBr);
    assert_eq!(Locale::soft_from_tag("pt"), Locale::PtBr);
    assert_eq!(Locale::soft_from_tag("pt-PT"), Locale::PtBr);
    assert_eq!(Locale::soft_from_tag("pt_BR.UTF-8"), Locale::PtBr);
    assert_eq!(Locale::soft_from_tag("C"), Locale::En);
    assert_eq!(Locale::soft_from_tag("C.UTF-8"), Locale::En);
}

#[test]
fn tests_as_bcp47_stable() {
    assert_eq!(Locale::En.as_bcp47(), "en");
    assert_eq!(Locale::PtBr.as_bcp47(), "pt-BR");
}

#[test]
fn tests_progress_localized() {
    assert!(Locale::En.progress_fetching("x").contains("fetching"));
    assert!(Locale::PtBr.progress_fetching("x").contains("buscando"));
}

#[test]
fn tests_error_and_doctor_lines() {
    let empty_name = AppError::of(ErrorDetail::Empty { subject: Subject::CrateName });
    assert!(Locale::En.format_error(&empty_name).starts_with("error:"));
    assert!(Locale::PtBr.format_error(&empty_name).starts_with("erro:"));
    let pt = Locale::PtBr.format_error(&empty_name);
    assert!(pt.contains("nome da crate está vazio"), "{pt}");
    let pt2 = Locale::PtBr.format_error(&AppError::interrupted());
    assert!(pt2.contains("interrompido por SIGINT"), "{pt2}");
    let bad_version = AppError::of(ErrorDetail::Invalid { subject: Subject::Version, value: "v1".into() });
    let pt3 = Locale::PtBr.format_error(&bad_version);
    assert!(pt3.contains("versão inválid"), "{pt3}");
    assert_eq!(bad_version.message(), "invalid version 'v1'");
    assert_eq!(Locale::En.doctor_ok(true), "doctor: ok");
    assert_eq!(Locale::PtBr.doctor_ok(false), "doctor: falhou");
    assert_eq!(Locale::resolve(Some("pt-BR")).unwrap(), Locale::PtBr);
    assert_eq!(Locale::resolve(Some("en")).unwrap(), Locale::En);
    assert!(Locale::resolve(Some("ja")).is_err());
    assert!(Locale::resolve(Some("pt")).is_err());
}

// Library-specific checks beyond the original suite.

#[test]
fn phrase_translation_replaces_the_known_prefix_only() {
    assert_eq!(translate_error_pt_br("item path exceeds 512 characters"), "caminho do item excede 512 characters");
    assert_eq!(translate_error_pt_br("host not allowlisted: evil.example"), "host fora da allowlist: evil.example");
    assert_eq!(translate_error_pt_br("something else entirely"), "something else entirely");
    assert_eq!(Locale::from_system_tag(Some("pt_PT.UTF-8")), Locale::PtBr);
    assert_eq!(Locale::from_system_tag(None), Locale::En);
    assert_eq!(Locale::from_argv_for_bootstrap(&[Some("docsrs-cli"), None, Some("--lang=pt")]), Locale::PtBr);
}

#[test]
fn unsupported_explicit_lang_is_an_invalid_input_echoing_the_tag() {
    let e = Locale::resolve(Some("ja")).unwrap_err();
    assert_eq!(e.kind(), ErrorKind::InvalidInput);
    assert_eq!(e.detail(), &ErrorDetail::UnsupportedLang { tag: "ja".to_string() });
    let e = Locale::resolve(Some("  ")).unwrap_err();
    assert_eq!(e.detail(), &ErrorDetail::UnsupportedLang { tag: String::new() });
}
