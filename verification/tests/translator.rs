use dl_translate::DisplayMode;
use dl_translate::TranslateError;
use dl_translate::TranslationRequest;
use dl_translate::auth_header_value;
use dl_translate::enough_args;
use dl_translate::handle_response;
use dl_translate::parse_answer;
use dl_translate::parse_auth_key;
use dl_translate::render;
use dl_translate::resolve_interactive;
use dl_translate::resolve_piped;
use dl_translate::status_success;
use dl_translate::usage_message;

fn argv(parts: &[&str]) -> Vec<String> {
    parts.iter().map(|s| s.to_string()).collect()
}

#[test]
fn interactive_two_args_no_optional_fields() {
    let args = argv(&["prog", "Hello world", "FR"]);
    let (req, mode) = resolve_interactive(&args);
    assert_eq!(mode, DisplayMode::Human);
    assert_eq!(req.text, "Hello world");
    assert_eq!(req.target_lang, "FR");
    assert!(req.source_lang.is_none());
    assert!(req.formality.is_none());
    let fields = req.form_fields();
    assert_eq!(fields.len(), 2);
    assert_eq!(fields[0], ("text".to_string(), "Hello world".to_string()));
    assert_eq!(
        fields[1],
        ("target_lang".to_string(), "FR".to_string())
    );
    assert!(fields.iter().all(|(k, _)| k != "source_lang" && k != "formality"));
}

#[test]
fn interactive_all_positionals() {
    let args = argv(&["prog", "Guten Tag", "EN", "DE", "less"]);
    let (req, mode) = resolve_interactive(&args);
    assert_eq!(mode, DisplayMode::Human);
    assert_eq!(req.text, "Guten Tag");
    assert_eq!(req.target_lang, "EN");
    assert_eq!(req.source_lang.as_deref(), Some("DE"));
    assert_eq!(req.formality.as_deref(), Some("less"));
}

#[test]
fn piped_full_invocation() {
    let args = argv(&["prog", "DE", "EN", "more"]);
    let (req, mode) = resolve_piped(&args, "Good morning".to_string());
    assert_eq!(mode, DisplayMode::Raw);
    assert_eq!(req.text, "Good morning");
    assert_eq!(req.target_lang, "DE");
    assert_eq!(req.source_lang.as_deref(), Some("EN"));
    assert_eq!(req.formality.as_deref(), Some("more"));
    let fields = req.form_fields();
    assert_eq!(
        fields,
        vec![
            ("text".to_string(), "Good morning".to_string()),
            ("target_lang".to_string(), "DE".to_string()),
            ("source_lang".to_string(), "EN".to_string()),
            ("formality".to_string(), "more".to_string()),
        ]
    );
}

#[test]
fn piped_empty_text_passes_through() {
    let args = argv(&["prog", "FR"]);
    let (req, mode) = resolve_piped(&args, String::new());
    assert_eq!(mode, DisplayMode::Raw);
    assert_eq!(req.text, "");
    assert_eq!(req.target_lang, "FR");
    assert!(req.source_lang.is_none());
    assert!(req.formality.is_none());
}

#[test]
fn argument_minimums_per_mode() {
    assert!(!enough_args(0, true));
    assert!(!enough_args(1, true));
    assert!(!enough_args(2, true));
    assert!(enough_args(3, true));
    assert!(!enough_args(0, false));
    assert!(!enough_args(1, false));
    assert!(enough_args(2, false));
}

#[test]
fn usage_lines_name_the_program_and_mode() {
    assert_eq!(
        usage_message("prog", true),
        "Not enough argument, usage: prog TEXT TARGET_LANG [SOURCE_LANG] [more/less (FORMALITY)]"
    );
    assert_eq!(
        usage_message("prog", false),
        "Not enough argument, usage: prog TARGET_LANG [SOURCE_LANG] [more/less (FORMALITY)]"
    );
}

#[test]
fn auth_header_has_scheme_prefix() {
    assert_eq!(auth_header_value("abc123"), "DeepL-Auth-Key abc123");
}

#[test]
fn single_translation_round_trip() {
    let body = "{\"translations\": [{\"text\": \"Bonjour\", \"detected_source_language\": \"EN\"}]}";
    let ts = parse_answer(body).unwrap();
    assert_eq!(ts.len(), 1);
    assert_eq!(ts[0].text, "Bonjour");
    assert_eq!(ts[0].detected_source_language, "EN");
    assert_eq!(render(&ts, DisplayMode::Human), "Bonjour (from EN)\n");
    assert_eq!(render(&ts, DisplayMode::Raw), "Bonjour");
    assert_eq!(
        handle_response(200, body, DisplayMode::Human).unwrap(),
        "Bonjour (from EN)\n"
    );
    assert_eq!(
        handle_response(200, body, DisplayMode::Raw).unwrap(),
        "Bonjour"
    );
}

#[test]
fn multiple_translations_keep_order() {
    let body = "{\"translations\": [\
        {\"text\": \"eins\", \"detected_source_language\": \"EN\"}, \
        {\"text\": \"zwei\", \"detected_source_language\": \"FR\"}, \
        {\"text\": \"eins\", \"detected_source_language\": \"EN\"}]}";
    let ts = parse_answer(body).unwrap();
    assert_eq!(ts.len(), 3);
    assert_eq!(
        render(&ts, DisplayMode::Human),
        "eins (from EN)\nzwei (from FR)\neins (from EN)\n"
    );
    assert_eq!(render(&ts, DisplayMode::Raw), "einszweieins");
}

#[test]
fn empty_translation_list_renders_nothing() {
    let ts = parse_answer("{\"translations\": []}").unwrap();
    assert!(ts.is_empty());
    assert_eq!(render(&ts, DisplayMode::Human), "");
    assert_eq!(render(&ts, DisplayMode::Raw), "");
}

#[test]
fn non_success_status_reports_body() {
    let r = handle_response(403, "Forbidden", DisplayMode::Human);
    let err = r.unwrap_err();
    assert!(matches!(err, TranslateError::RemoteError(_)));
    assert_eq!(err.message(), "Error during translation: Forbidden");
}

#[test]
fn status_code_boundaries() {
    assert!(!status_success(199));
    assert!(status_success(200));
    assert!(status_success(299));
    assert!(!status_success(300));
    assert!(!status_success(403));
    assert!(!status_success(500));
}

#[test]
fn malformed_bodies_are_parse_errors() {
    assert!(matches!(
        parse_answer("not json at all"),
        Err(TranslateError::ResponseParseError(_))
    ));
    assert!(matches!(
        parse_answer("{\"other\": 1}"),
        Err(TranslateError::ResponseParseError(_))
    ));
    assert!(matches!(
        parse_answer("{\"translations\": 5}"),
        Err(TranslateError::ResponseParseError(_))
    ));
    assert!(matches!(
        parse_answer("{\"translations\": [{\"detected_source_language\": \"EN\"}]}"),
        Err(TranslateError::ResponseParseError(_))
    ));
    assert!(matches!(
        parse_answer("{\"translations\": [{\"text\": 7, \"detected_source_language\": \"EN\"}]}"),
        Err(TranslateError::ResponseParseError(_))
    ));
    assert!(matches!(
        parse_answer("{\"translations\": [{\"text\": \"hi\"}]}"),
        Err(TranslateError::ResponseParseError(_))
    ));
    assert!(matches!(
        parse_answer("{\"translations\": [{\"text\": \"hi\", \"detected_source_language\": 3}]}"),
        Err(TranslateError::ResponseParseError(_))
    ));
}

#[test]
fn config_with_auth_key_parses() {
    assert_eq!(
        parse_auth_key("auth_key = \"abc123\"").unwrap(),
        "abc123"
    );
    assert_eq!(
        parse_auth_key("# a comment\nauth_key = \"k\"\nother = 3\n").unwrap(),
        "k"
    );
}

#[test]
fn bad_configs_are_parse_errors() {
    assert!(matches!(
        parse_auth_key("not valid toml ["),
        Err(TranslateError::ConfigParseError(_))
    ));
    assert!(matches!(
        parse_auth_key("other_key = \"x\""),
        Err(TranslateError::ConfigParseError(_))
    ));
    assert!(matches!(
        parse_auth_key("auth_key = 5"),
        Err(TranslateError::ConfigParseError(_))
    ));
    assert!(matches!(
        parse_auth_key(""),
        Err(TranslateError::ConfigParseError(_))
    ));
}

#[test]
fn error_messages_are_single_descriptive_lines() {
    assert_eq!(
        TranslateError::ConfigDirUnavailable.message(),
        "Cannot get config file directory"
    );
    assert_eq!(
        TranslateError::ConfigReadError("/tmp/x: gone".to_string()).message(),
        "Cannot open config file /tmp/x: gone"
    );
    assert_eq!(
        TranslateError::StdinReadError("bad encoding".to_string()).message(),
        "Cannot read redirected input: bad encoding"
    );
    assert_eq!(
        TranslateError::UsageError("usage".to_string()).message(),
        "usage"
    );
    let parse = TranslateError::ResponseParseError("detail".to_string());
    assert_eq!(parse.message(), "Cannot parse translation response: detail");
}

#[test]
fn build_request_never_sends_empty_optional_placeholders() {
    let req = TranslationRequest {
        text: "hi".to_string(),
        target_lang: "FR".to_string(),
        source_lang: None,
        formality: None,
    };
    let fields = req.form_fields();
    assert_eq!(fields.len(), 2);
    assert!(fields.iter().all(|(k, _)| k == "text" || k == "target_lang"));
}
