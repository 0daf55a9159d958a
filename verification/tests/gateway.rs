use ai_gateway::command::{parse_command, OperationKind};
use ai_gateway::errors::ApiError;
use ai_gateway::language::{get_language_name, is_valid_language_code};
use ai_gateway::pipeline::{
    build_response, extract_answer, plan_request, resolve_parameters, IncomingRequest,
};
use ai_gateway::prompt::build_system_prompt;

fn request(command: &str, text: &str, model: Option<&str>, lang: Option<&str>) -> IncomingRequest {
    IncomingRequest {
        command: command.to_string(),
        text: text.to_string(),
        model: model.map(|m| m.to_string()),
        lang: lang.map(|l| l.to_string()),
    }
}

fn expect_bad_request(e: ApiError) -> String {
    assert_eq!(e.status_code(), 400);
    match e {
        ApiError::BadRequest(m) => m,
        _ => panic!("expected a BadRequest error"),
    }
}

#[test]
fn unknown_command_lists_the_valid_commands() {
    let r = plan_request(&request("foo", "...", None, None));
    let msg = expect_bad_request(r.err().unwrap());
    assert_eq!(
        msg,
        "Invalid command 'foo'. Valid commands: 'paraphrase', 'summarize', 'translate'"
    );
}

#[test]
fn empty_and_case_variant_commands_are_rejected() {
    assert!(parse_command("").is_none());
    assert!(parse_command("Paraphrase").is_none());
    assert!(parse_command("TRANSLATE").is_none());
    assert_eq!(parse_command("paraphrase"), Some(OperationKind::Paraphrase));
    assert_eq!(parse_command("summarize"), Some(OperationKind::Summarize));
    assert_eq!(parse_command("translate"), Some(OperationKind::Translate));
}

#[test]
fn translate_without_lang_is_rejected() {
    let r = plan_request(&request("translate", "Hello", None, None));
    let msg = expect_bad_request(r.err().unwrap());
    assert_eq!(
        msg,
        "lang parameter is required for translate command. Provide a language code (e.g., 'es', 'fra')."
    );
}

#[test]
fn standard_codes_and_special_tags_are_valid() {
    for code in
        ["es", "fr", "de", "en", "zh", "spa", "fra", "eng", "zh-cn", "zh-tw", "ZH-CN", "zh-TW"]
    {
        assert!(is_valid_language_code(code), "{code} should be valid");
    }
}

#[test]
fn other_strings_are_invalid_codes() {
    for code in ["", "q1", "howdy", "ES", "english", "zh-hk"] {
        assert!(!is_valid_language_code(code), "{code} should be invalid");
    }
}

#[test]
fn invalid_code_error_message_is_exact() {
    let r = plan_request(&request("summarize", "...", None, Some("howdy")));
    let msg = expect_bad_request(r.err().unwrap());
    assert_eq!(
        msg,
        "Invalid language code 'howdy'. Provide a valid ISO 639-1 (e.g., 'es', 'fr') or ISO 639-3 (e.g., 'spa', 'fra') language code."
    );
}

#[test]
fn codes_resolve_to_display_names() {
    assert_eq!(get_language_name("es"), "Spanish");
    assert_eq!(get_language_name("fra"), "French");
    assert_eq!(get_language_name("de"), "German");
    assert_eq!(get_language_name("en"), "English");
    assert_eq!(get_language_name("eng"), "English");
    assert_eq!(get_language_name("zh-cn"), "Chinese (Simplified)");
    assert_eq!(get_language_name("zh-tw"), "Chinese (Traditional)");
    assert_eq!(get_language_name("ZH-CN"), "Chinese (Simplified)");
}

#[test]
fn unknown_code_falls_back_to_descriptive_text() {
    assert_eq!(get_language_name("q1"), "the language with code 'q1'");
}

#[test]
fn missing_lang_defaults_to_english() {
    let p = resolve_parameters(&request("paraphrase", "...", None, None)).ok().unwrap();
    assert_eq!(p.lang_code, "en");
    assert_eq!(p.language_name, "English");
    let response = build_response(&p, Some("ok"));
    assert_eq!(response.lang, "en");
}

#[test]
fn missing_model_defaults_and_bad_model_is_rejected() {
    let p = resolve_parameters(&request("summarize", "...", None, None)).ok().unwrap();
    assert_eq!(p.model, "gpt-4.1-mini");

    let p = resolve_parameters(&request("summarize", "...", Some("gpt-3.5-turbo"), None))
        .ok()
        .unwrap();
    assert_eq!(p.model, "gpt-3.5-turbo");

    let r = plan_request(&request("summarize", "...", Some("gpt-4o"), None));
    let msg = expect_bad_request(r.err().unwrap());
    assert_eq!(
        msg,
        "Invalid model 'gpt-4o'. Supported models: 'gpt-3.5-turbo', 'gpt-4.1-mini'"
    );
}

#[test]
fn summarize_prompt_names_the_language_twice() {
    let prompt = build_system_prompt(OperationKind::Summarize, "French");
    assert!(prompt.contains("in the French language"));
    assert!(prompt.contains("translate the summary to the French language"));
}

#[test]
fn prompt_templates_are_pinned() {
    assert_eq!(
        build_system_prompt(OperationKind::Paraphrase, "English"),
        "You are an expert writing assistant specialized in paraphrasing text. Your task is to rewrite the given text while preserving its original meaning in the English language, but using different words, sentence structures, and phrasing. Make the paraphrased text clear, natural, and well-written. If necessary, translate the paraphrased text to the English language. Only return the paraphrased text, nothing else."
    );
    assert_eq!(
        build_system_prompt(OperationKind::Summarize, "German"),
        "You are an expert text summarizer. Your task is to create a concise, accurate summary of the given text that captures the main points and key information in the German language. Focus on the most important ideas while maintaining clarity and coherence. The summary should be significantly shorter than the original text. If necessary, translate the summary to the German language. Only return the summary, nothing else."
    );
    assert_eq!(
        build_system_prompt(OperationKind::Translate, "Spanish"),
        "You are an expert translator. Your task is to translate the given text to Spanish. Provide an accurate, natural-sounding translation that preserves the meaning and tone of the original text. Consider cultural context and idiomatic expressions when appropriate. Only return the translated text, nothing else."
    );
}

#[test]
fn translate_scenario_builds_the_expected_plan() {
    let plan = plan_request(&request("translate", "Hello", None, Some("es"))).ok().unwrap();
    assert!(plan.prompt.system_instruction.contains("translate the given text to Spanish"));
    assert_eq!(plan.params.model, "gpt-4.1-mini");
    assert_eq!(plan.prompt.user_content, "Hello");
    let response = build_response(&plan.params, Some(" Hola "));
    assert_eq!(response.result, "Hola");
    assert_eq!(response.model, "gpt-4.1-mini");
    assert_eq!(response.lang, "es");
}

#[test]
fn missing_content_yields_an_empty_result() {
    assert_eq!(extract_answer(None), "");
    let p = resolve_parameters(&request("paraphrase", "...", None, None)).ok().unwrap();
    let response = build_response(&p, None);
    assert_eq!(response.result, "");
}

#[test]
fn answers_are_trimmed() {
    assert_eq!(extract_answer(Some("  hello world \n")), "hello world");
    assert_eq!(extract_answer(Some("   \t\n")), "");
    assert_eq!(extract_answer(Some("plain")), "plain");
    assert_eq!(extract_answer(Some("")), "");
}

#[test]
fn error_helpers_carry_fixed_status_and_text() {
    let e = ai_gateway::errors::credential_missing_error();
    assert_eq!(e.status_code(), 500);
    assert_eq!(e.message(), "OPENAI_API_KEY not set");

    let e = ai_gateway::errors::upstream_failure_error("connection reset".to_string());
    assert_eq!(e.status_code(), 502);
    assert_eq!(e.message(), "connection reset");

    let e = ai_gateway::errors::malformed_body_error("bad json".to_string());
    assert_eq!(e.status_code(), 400);
    assert_eq!(e.message(), "bad json");
}

#[test]
fn lang_is_validated_even_when_not_translating() {
    let r = plan_request(&request("paraphrase", "...", None, Some("q1")));
    let msg = expect_bad_request(r.err().unwrap());
    assert!(msg.starts_with("Invalid language code 'q1'"));
}

#[test]
fn command_error_takes_precedence_over_other_faults() {
    // An unknown command is reported even when the model and language are
    // also bad: validation short-circuits in pipeline order.
    let r = plan_request(&request("foo", "...", Some("bad-model"), Some("q1")));
    let msg = expect_bad_request(r.err().unwrap());
    assert!(msg.starts_with("Invalid command 'foo'"));
}
