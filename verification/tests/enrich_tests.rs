use clipvault::clip::{CategoryResponse, Clip};
use clipvault::enrich::{
    category_from_fields, category_request, category_user_prompt, duplicate_category, enrich,
    extract_content_from_output, fallback_for, get_clip_summary, get_llm_category, is_url,
    lenient_parse, merge_enrichment, needs_summary, reply_candidates, scheme_is_web,
    summary_request, summary_user_prompt, truncate_for_prompt, ContentKind, ModelOutput,
    OutputPart, Role, CATEGORY_SYSTEM_PROMPT, MAX_OUTPUT_TOKENS, MODEL_NAME, PROMPT_LIMIT,
    SUMMARY_FALLBACK, SUMMARY_SYSTEM_PROMPT,
};

fn text(plain: &str) -> Clip {
    Clip::Text { plain: plain.to_string() }
}

fn image() -> Clip {
    Clip::Image { data: "aGVsbG8=".to_string(), width: 640, height: 480 }
}

fn category(name: &str, tags: &[&str]) -> CategoryResponse {
    CategoryResponse {
        category: name.to_string(),
        tags: tags.iter().map(|t| t.to_string()).collect(),
    }
}

fn message(parts: Vec<OutputPart>) -> ModelOutput {
    ModelOutput::Message(parts)
}

fn said(s: &str) -> ModelOutput {
    message(vec![OutputPart::Text(s.to_string())])
}

#[test]
fn short_text_is_sent_unmodified() {
    assert_eq!(truncate_for_prompt("hello"), "hello");
    assert_eq!(truncate_for_prompt(""), "");
    let at_limit = "x".repeat(PROMPT_LIMIT);
    assert_eq!(truncate_for_prompt(&at_limit), at_limit);
}

#[test]
fn long_text_is_cut_to_the_limit_with_a_marker() {
    let long = "y".repeat(PROMPT_LIMIT + 1);
    let sent = truncate_for_prompt(&long);
    assert_eq!(sent.len(), 2003);
    assert_eq!(sent, format!("{}...", "y".repeat(2000)));
}

#[test]
fn the_limit_counts_characters() {
    let long = "é".repeat(2500);
    let sent = truncate_for_prompt(&long);
    assert_eq!(sent.chars().count(), 2003);
    assert_eq!(sent, format!("{}...", "é".repeat(2000)));
    let within = "é".repeat(2000);
    assert_eq!(truncate_for_prompt(&within), within);
}

#[test]
fn classification_prompt_contains_the_capture() {
    assert_eq!(
        category_user_prompt(&text("fn main() {}")),
        "Categorize this text content:\n\nfn main() {}"
    );
    assert_eq!(
        category_user_prompt(&image()),
        "Categorize this image content. Image dimensions: 640x480. Analyze what you see in the image and provide appropriate category and tags."
    );
}

#[test]
fn summary_prompt_quotes_the_text() {
    assert_eq!(
        summary_user_prompt(&text("a \"b\"\n")),
        "Please summarize the following content. If it came from a URL, provide a short overview of the page's main points.\n\n\"a \\\"b\\\"\\n\""
    );
    assert_eq!(
        summary_user_prompt(&image()),
        "Please provide a brief summary of the image content. Image dimensions: 640x480. Analyze what you see in the image."
    );
}

#[test]
fn a_text_request_has_two_messages() {
    let request = category_request(&text("hello"));
    assert_eq!(request.model, MODEL_NAME);
    assert_eq!(request.model, "gpt-4o");
    assert_eq!(request.max_output_tokens, MAX_OUTPUT_TOKENS);
    assert_eq!(request.max_output_tokens, 100);
    assert_eq!(request.input.len(), 2);
    assert_eq!(request.input[0].role, Role::System);
    assert_eq!(request.input[0].kind, ContentKind::Text);
    assert_eq!(request.input[0].body, CATEGORY_SYSTEM_PROMPT);
    assert_eq!(request.input[1].role, Role::User);
    assert_eq!(request.input[1].body, "Categorize this text content:\n\nhello");
}

#[test]
fn an_image_request_embeds_a_data_url() {
    let request = summary_request(&image());
    assert_eq!(request.input.len(), 3);
    assert_eq!(request.input[0].body, SUMMARY_SYSTEM_PROMPT);
    assert_eq!(request.input[2].role, Role::User);
    assert_eq!(request.input[2].kind, ContentKind::ImageUrl);
    assert_eq!(request.input[2].body, "data:image/png;base64,aGVsbG8=");
}

#[test]
fn system_prompts_name_the_taxonomy() {
    for name in [
        "code_snippet", "technical_advice", "documentation", "url", "credentials", "data",
        "communication", "notes", "reference", "creative", "business", "academic", "error_log",
        "command", "image", "other",
    ] {
        assert!(CATEGORY_SYSTEM_PROMPT.contains(&format!("- {}:", name)));
    }
    assert!(SUMMARY_SYSTEM_PROMPT.starts_with("You are a concise summarization assistant."));
}

#[test]
fn urls_need_a_web_scheme() {
    assert!(is_url("https://example.com"));
    assert!(is_url("http://example.com/a?b=c"));
    assert!(is_url("HTTPS://EXAMPLE.COM"));
    assert!(!is_url("ftp://example.com"));
    assert!(!is_url("mailto:someone@example.com"));
    assert!(!is_url("example.com"));
    assert!(!is_url("just some words"));
    assert!(!is_url(""));
    assert!(!is_url("http"));
}

#[test]
fn web_schemes() {
    assert!(scheme_is_web(&Some("http".to_string())));
    assert!(scheme_is_web(&Some("https".to_string())));
    assert!(!scheme_is_web(&Some("file".to_string())));
    assert!(!scheme_is_web(&None));
}

#[test]
fn summaries_are_for_images_and_web_addresses() {
    assert!(needs_summary(&image()));
    assert!(needs_summary(&text("https://example.com")));
    assert!(!needs_summary(&text("plain words")));
}

#[test]
fn content_is_the_first_text_part() {
    let output = message(vec![
        OutputPart::Other,
        OutputPart::Text("first".to_string()),
        OutputPart::Text("second".to_string()),
    ]);
    assert_eq!(extract_content_from_output(&output), Some("first".to_string()));
    assert_eq!(extract_content_from_output(&message(vec![OutputPart::Other])), None);
    assert_eq!(extract_content_from_output(&message(vec![])), None);
    assert_eq!(extract_content_from_output(&ModelOutput::Other), None);
}

#[test]
fn candidates_are_trimmed_contents() {
    let outputs = vec![ModelOutput::Other, said("  {\"a\":1}\n"), message(vec![]), said("x")];
    assert_eq!(reply_candidates(&outputs), vec!["{\"a\":1}".to_string(), "x".to_string()]);
}

#[test]
fn loose_reading_drops_tags_that_are_no_strings() {
    let found = lenient_parse("{\"category\":\"url\",\"tags\":[\"reference\",5,null,\"web\"]}");
    assert_eq!(found, Some(category("url", &["reference", "web"])));
}

#[test]
fn loose_reading_needs_both_fields() {
    assert_eq!(lenient_parse("{\"category\":\"url\"}"), None);
    assert_eq!(lenient_parse("{\"tags\":[]}"), None);
    assert_eq!(lenient_parse("{\"category\":5,\"tags\":[]}"), None);
    assert_eq!(lenient_parse("{\"category\":\"a\",\"tags\":\"b\"}"), None);
    assert_eq!(lenient_parse("not json"), None);
    assert_eq!(lenient_parse("[\"a\",[\"b\"]]"), None);
    assert_eq!(lenient_parse("{\"category\":\"a\",\"tags\":[]}"), Some(category("a", &[])));
}

#[test]
fn fields_make_a_category() {
    let tags = vec![Some("a".to_string()), None, Some("b".to_string())];
    assert_eq!(
        category_from_fields(Some("notes".to_string()), Some(tags)),
        Some(category("notes", &["a", "b"]))
    );
    assert_eq!(category_from_fields(None, Some(vec![])), None);
    assert_eq!(category_from_fields(Some("notes".to_string()), None), None);
}

#[test]
fn a_strict_reading_goes_first() {
    let texts = vec!["{\"category\":\"loose\",\"tags\":[]}".to_string()];
    let strict = vec![Some(category("strict", &["t"]))];
    assert_eq!(get_llm_category(&text("x"), &texts, &strict), category("strict", &["t"]));
}

#[test]
fn the_first_candidate_that_reads_decides() {
    let texts = vec![
        "sorry".to_string(),
        "{\"category\":\"data\",\"tags\":[\"csv\",1]}".to_string(),
        "{\"category\":\"notes\",\"tags\":[]}".to_string(),
    ];
    let strict = vec![None, None, Some(category("notes", &[]))];
    assert_eq!(get_llm_category(&text("x"), &texts, &strict), category("data", &["csv"]));
    assert_eq!(get_llm_category(&text("x"), &texts, &vec![]), category("data", &["csv"]));
}

#[test]
fn no_readable_candidate_gives_the_fallback() {
    let texts = vec!["sorry".to_string()];
    assert_eq!(
        get_llm_category(&text("x"), &texts, &vec![None]),
        category("other", &["uncategorized"])
    );
    assert_eq!(
        get_llm_category(&image(), &vec![], &vec![]),
        category("image", &["screenshot"])
    );
    assert_eq!(fallback_for(&text("x")), category("other", &["uncategorized"]));
    assert_eq!(fallback_for(&image()), category("image", &["screenshot"]));
}

#[test]
fn summary_is_the_first_content_that_is_not_blank() {
    let outputs = vec![ModelOutput::Other, said("   "), said("  - point one\n"), said("later")];
    assert_eq!(get_clip_summary(&outputs), "- point one");
}

#[test]
fn an_empty_reply_gives_the_summary_fallback() {
    assert_eq!(get_clip_summary(&vec![]), "No summary available");
    assert_eq!(get_clip_summary(&vec![said(""), ModelOutput::Other]), SUMMARY_FALLBACK);
}

#[test]
fn unreachable_service_degrades_a_text() {
    let result = enrich(&text("some notes"), None, None);
    assert_eq!(result.category, "other");
    assert_eq!(result.tags, vec!["uncategorized".to_string()]);
    assert_eq!(result.summary, None);
}

#[test]
fn unreachable_service_degrades_a_web_address() {
    let result = enrich(&text("https://example.com"), None, None);
    assert_eq!(result.category, "other");
    assert_eq!(result.tags, vec!["uncategorized".to_string()]);
    assert_eq!(result.summary, Some("No summary available".to_string()));
}

#[test]
fn unreachable_service_degrades_an_image() {
    let result = enrich(&image(), None, None);
    assert_eq!(result.category, "image");
    assert_eq!(result.tags, vec!["screenshot".to_string()]);
    assert_eq!(result.summary, Some("No summary available".to_string()));
}

#[test]
fn a_web_address_is_filed_with_its_summary() {
    let clip = text("https://example.com");
    assert!(is_url("https://example.com"));
    let texts = reply_candidates(&vec![said("{\"category\":\"url\",\"tags\":[\"reference\"]}")]);
    let found = get_llm_category(&clip, &texts, &vec![None]);
    let with_summary = enrich(&clip, Some(found), Some("- an example page".to_string()));
    assert_eq!(with_summary.category, "url");
    assert_eq!(with_summary.tags, vec!["reference".to_string()]);
    assert_eq!(with_summary.summary, Some("- an example page".to_string()));
    let without = enrich(&clip, Some(category("url", &["reference"])), None);
    assert_eq!(without.summary, Some(SUMMARY_FALLBACK.to_string()));
    let empty = enrich(&clip, Some(category("url", &["reference"])), Some(String::new()));
    assert_eq!(empty.summary, Some(SUMMARY_FALLBACK.to_string()));
}

#[test]
fn a_summary_that_was_not_asked_for_is_left_out() {
    let result = enrich(&text("words"), Some(category("notes", &[])), Some("s".to_string()));
    assert_eq!(result.category, "notes");
    assert!(result.tags.is_empty());
    assert_eq!(result.summary, None);
}

#[test]
fn an_empty_category_falls_back() {
    let result = merge_enrichment(&text("words"), false, Some(category("", &["x"])), None);
    assert_eq!(result.category, "other");
    assert_eq!(result.tags, vec!["uncategorized".to_string()]);
}

#[test]
fn copies_keep_the_value() {
    let found = category("data", &["csv", "log"]);
    assert_eq!(duplicate_category(&found), found);
    assert_eq!(image().duplicate(), image());
    assert_eq!(text("a").duplicate(), text("a"));
    assert_eq!(text("héllo").size(), 6);
    assert_eq!(image().size(), 8);
}
