//! Enrichment of a capture: the requests sent to the language model, the
//! reading of its replies, and the fallback values that keep a capture from
//! ever being lost to a failed enrichment.

use vstd::prelude::*;
use vstd::string::*;
use crate::clip::{string_views, CategoryResponse, CategoryView, Clip, ClipView};
use crate::json::{json_list_member, json_text_member, list_member, text_member};
use crate::text::{
    decimal_digits, decimal_string, opt_view, opt_views, str_eq, trim, trimmed,
};

verus! {

/// The longest text, in characters, that is sent to the model unshortened.
pub const PROMPT_LIMIT: usize = 2000;

/// The output budget of every request.
pub const MAX_OUTPUT_TOKENS: u32 = 100;

/// The model that every request names.
pub const MODEL_NAME: &'static str = "gpt-4o";

/// The summary recorded when summarization was attempted and gave nothing.
pub const SUMMARY_FALLBACK: &'static str = "No summary available";

/// The instructions that open a categorization request.
pub const CATEGORY_SYSTEM_PROMPT: &'static str = r#"You are a clipboard content categorizer. Your job is to categorize content into a primary category and suggest relevant tags.

IMPORTANT: Respond with ONLY a JSON object in this exact format:
{
  "category": "category_name",
  "tags": ["tag1", "tag2", "tag3"]
}

Use these primary categories (choose the best fit):
- code_snippet: Programming code, scripts, configuration files, JSON, XML, HTML, CSS, SQL queries
- technical_advice: Technical explanations, troubleshooting steps, how-to guides, technical discussions
- documentation: API docs, README files, technical specifications, user manuals
- url: Web links, file paths, network addresses
- credentials: Passwords, API keys, tokens, certificates (be careful with sensitive data)
- data: CSV data, logs, structured data, database records
- communication: Emails, messages, social media posts, chat conversations
- notes: Personal notes, reminders, todo items, quick thoughts
- reference: Phone numbers, addresses, contact info, reference materials
- creative: Writing, stories, poems, creative content
- business: Meeting notes, project plans, business documents, proposals
- academic: Research, papers, citations, study materials
- error_log: Error messages, stack traces, debug output
- command: Terminal commands, CLI instructions, scripts to run
- image: Screenshots, photos, diagrams, charts, memes, artwork, UI mockups
- other: Content that doesn't fit the above categories

For tags, suggest 2-4 specific, relevant tags that describe the content in more detail. Tags should be:
- Lowercase
- Single words or hyphenated (e.g., "react", "javascript", "error-handling", "screenshot", "diagram")
- Specific to the technology, topic, context, or visual content

For images, analyze the visual content and provide relevant tags like:
- screenshot, diagram, chart, photo, artwork, meme, ui-design, wireframe
- Technology-specific: react-app, code-editor, terminal, browser, mobile-app
- Content-specific: dashboard, graph, error-message, documentation, social-media

Examples:
Input: "const handleClick = () => { console.log('clicked'); }"
Output: {"category": "code_snippet", "tags": ["javascript", "function", "event-handler"]}

Input: "https://github.com/user/repo"
Output: {"category": "url", "tags": ["github", "repository", "git"]}

Input: [Image of a code editor with React code]
Output: {"category": "image", "tags": ["screenshot", "code-editor", "react", "development"]}

Input: [Image of a terminal with error messages]
Output: {"category": "image", "tags": ["screenshot", "terminal", "error-message", "debugging"]}

Input: [Image of a website mockup]
Output: {"category": "image", "tags": ["screenshot", "ui-design", "website", "mockup"]}"#;

/// The instructions that open a summarization request.
pub const SUMMARY_SYSTEM_PROMPT: &'static str = r#"You are a concise summarization assistant.
Provide a clear, bullet-point summary of the key points.
Do not include citations or extra commentary."#;

/// A text as it is sent to the model: unchanged up to the limit, otherwise
/// its first `PROMPT_LIMIT` characters followed by an ellipsis.
pub open spec fn truncated(s: Seq<char>) -> Seq<char> {
    if s.len() > PROMPT_LIMIT {
        s.take(PROMPT_LIMIT as int) + "..."@
    } else {
        s
    }
}

/// Shortens a text to what is sent to the model.
pub fn truncate_for_prompt(plain: &str) -> (sent: String)
    ensures
        sent@ == truncated(plain@),
        plain@.len() <= PROMPT_LIMIT ==> sent@ == plain@,
{
    let n: usize = plain.unicode_len();
    if n > PROMPT_LIMIT {
        let head: &str = plain.substring_char(0, PROMPT_LIMIT);
        let mut sent: String = String::from_str(head);
        sent.append("...");
        sent
    } else {
        String::from_str(plain)
    }
}

/// The text that `{:?}` prints for a string: quoted, with escapes.
pub uninterp spec fn debug_text(s: Seq<char>) -> Seq<char>;

/// Formats a string with `{:?}`. The contract names the text that std's
/// `Debug` for `str` prints.
#[verifier::external_body]
fn debug_quoted(s: &str) -> (quoted: String)
    ensures
        quoted@ == debug_text(s@),
{
    format!("{:?}", s)
}

/// The scheme of `text` read as a URL, or `None` where it is no URL.
pub uninterp spec fn url_scheme_of(text: Seq<char>) -> Option<Seq<char>>;

/// Calls `url::Url::parse` and, on success, `Url::scheme`. The contract
/// names the scheme; a text that does not parse has none.
#[verifier::external_body]
fn url_scheme(text: &str) -> (scheme: Option<String>)
    ensures
        opt_view(scheme) == url_scheme_of(text@),
{
    match url::Url::parse(text) {
        Ok(parsed) => Some(parsed.scheme().to_string()),
        Err(_) => None,
    }
}

/// A scheme that marks a web address.
pub open spec fn is_web_scheme(scheme: Option<Seq<char>>) -> bool {
    match scheme {
        Some(s) => s == "http"@ || s == "https"@,
        None => false,
    }
}

/// Whether a parsed scheme is `http` or `https`.
pub fn scheme_is_web(scheme: &Option<String>) -> (web: bool)
    ensures
        web == is_web_scheme(opt_view(*scheme)),
{
    match scheme {
        Some(s) => str_eq(s.as_str(), "http") || str_eq(s.as_str(), "https"),
        None => false,
    }
}

/// Whether `text` parses as a URL whose scheme is `http` or `https`.
pub fn is_url(text: &str) -> (web: bool)
    ensures
        web == is_web_scheme(url_scheme_of(text@)),
{
    let scheme: Option<String> = url_scheme(text);
    scheme_is_web(&scheme)
}

/// Who speaks in a message.
#[derive(Clone, Copy, Debug, PartialEq, Eq, Structural)]
pub enum Role {
    System,
    User,
}

/// What the body of a message is.
#[derive(Clone, Copy, Debug, PartialEq, Eq, Structural)]
pub enum ContentKind {
    /// Plain text.
    Text,
    /// The URL of an image to look at.
    ImageUrl,
}

/// One message of a request.
#[derive(Debug, PartialEq, Eq)]
pub struct Message {
    pub role: Role,
    pub kind: ContentKind,
    pub body: String,
}

/// The mathematical value of a [`Message`].
pub struct MessageView {
    pub role: Role,
    pub kind: ContentKind,
    pub body: Seq<char>,
}

impl View for Message {
    type V = MessageView;

    open spec fn view(&self) -> MessageView {
        MessageView { role: self.role, kind: self.kind, body: self.body@ }
    }
}

/// The views of a sequence of messages.
pub open spec fn message_views(v: Seq<Message>) -> Seq<MessageView> {
    Seq::new(v.len(), |i: int| v[i]@)
}

/// A request to the model.
#[derive(Debug, PartialEq, Eq)]
pub struct ModelRequest {
    pub model: String,
    pub max_output_tokens: u32,
    pub input: Vec<Message>,
}

/// The data URL under which an encoded image is embedded.
pub open spec fn data_url(data: Seq<char>) -> Seq<char> {
    "data:image/png;base64,"@ + data
}

/// What the user's message of a categorization request says.
pub open spec fn category_user_text(clip: ClipView) -> Seq<char> {
    match clip {
        ClipView::Text { plain } => "Categorize this text content:\n\n"@ + truncated(plain),
        ClipView::Image { data, width, height } => "Categorize this image content. Image dimensions: "@
            + decimal_digits(width) + "x"@ + decimal_digits(height)
            + ". Analyze what you see in the image and provide appropriate category and tags."@,
    }
}

/// What the user's message of a summarization request says.
pub open spec fn summary_user_text(clip: ClipView) -> Seq<char> {
    match clip {
        ClipView::Text { plain } => "Please summarize the following content. If it came from a URL, provide a short overview of the page's main points.\n\n"@
            + debug_text(truncated(plain)),
        ClipView::Image { data, width, height } => "Please provide a brief summary of the image content. Image dimensions: "@
            + decimal_digits(width) + "x"@ + decimal_digits(height)
            + ". Analyze what you see in the image."@,
    }
}

/// The messages of a request: the instructions, the user's text and, for an
/// image, the image itself as a third message.
pub open spec fn request_messages(system: Seq<char>, user: Seq<char>, clip: ClipView) -> Seq<
    MessageView,
> {
    let head = seq![
        MessageView { role: Role::System, kind: ContentKind::Text, body: system },
        MessageView { role: Role::User, kind: ContentKind::Text, body: user },
    ];
    match clip {
        ClipView::Text { .. } => head,
        ClipView::Image { data, .. } => head.push(
            MessageView { role: Role::User, kind: ContentKind::ImageUrl, body: data_url(data) },
        ),
    }
}

fn dimensions_text(lead: &str, width: usize, height: usize, tail: &str) -> (text: String)
    ensures
        text@ == lead@ + decimal_digits(width as nat) + "x"@ + decimal_digits(height as nat)
            + tail@,
{
    let mut text: String = String::from_str(lead);
    let w: String = decimal_string(width as u64);
    text.append(w.as_str());
    text.append("x");
    let h: String = decimal_string(height as u64);
    text.append(h.as_str());
    text.append(tail);
    text
}

/// The user's message of a categorization request.
pub fn category_user_prompt(clip: &Clip) -> (text: String)
    ensures
        text@ == category_user_text(clip@),
{
    match clip {
        Clip::Text { plain } => {
            let mut text: String = String::from_str("Categorize this text content:\n\n");
            let sent: String = truncate_for_prompt(plain.as_str());
            text.append(sent.as_str());
            text
        },
        Clip::Image { data, width, height } => dimensions_text(
            "Categorize this image content. Image dimensions: ",
            *width,
            *height,
            ". Analyze what you see in the image and provide appropriate category and tags.",
        ),
    }
}

/// The user's message of a summarization request.
pub fn summary_user_prompt(clip: &Clip) -> (text: String)
    ensures
        text@ == summary_user_text(clip@),
{
    match clip {
        Clip::Text { plain } => {
            let mut text: String = String::from_str(
                "Please summarize the following content. If it came from a URL, provide a short overview of the page's main points.\n\n",
            );
            let sent: String = truncate_for_prompt(plain.as_str());
            let quoted: String = debug_quoted(sent.as_str());
            text.append(quoted.as_str());
            text
        },
        Clip::Image { data, width, height } => dimensions_text(
            "Please provide a brief summary of the image content. Image dimensions: ",
            *width,
            *height,
            ". Analyze what you see in the image.",
        ),
    }
}

fn build_request(system: &str, user: String, clip: &Clip) -> (request: ModelRequest)
    ensures
        request.model@ == MODEL_NAME@,
        request.max_output_tokens == MAX_OUTPUT_TOKENS,
        message_views(request.input@) == request_messages(system@, user@, clip@),
{
    let mut input: Vec<Message> = Vec::new();
    input.push(Message { role: Role::System, kind: ContentKind::Text, body: String::from_str(system) });
    input.push(Message { role: Role::User, kind: ContentKind::Text, body: user });
    match clip {
        Clip::Text { .. } => {},
        Clip::Image { data, .. } => {
            let mut url: String = String::from_str("data:image/png;base64,");
            url.append(data.as_str());
            input.push(Message { role: Role::User, kind: ContentKind::ImageUrl, body: url });
        },
    }
    assert(message_views(input@) =~= request_messages(system@, user@, clip@));
    ModelRequest {
        model: String::from_str(MODEL_NAME),
        max_output_tokens: MAX_OUTPUT_TOKENS,
        input,
    }
}

/// The request that asks the model for a category and tags. A text is sent
/// whole up to the limit and shortened beyond it.
pub fn category_request(clip: &Clip) -> (request: ModelRequest)
    ensures
        request.model@ == MODEL_NAME@,
        request.max_output_tokens == MAX_OUTPUT_TOKENS,
        message_views(request.input@) == request_messages(
            CATEGORY_SYSTEM_PROMPT@,
            category_user_text(clip@),
            clip@,
        ),
{
    build_request(CATEGORY_SYSTEM_PROMPT, category_user_prompt(clip), clip)
}

/// The request that asks the model for a summary.
pub fn summary_request(clip: &Clip) -> (request: ModelRequest)
    ensures
        request.model@ == MODEL_NAME@,
        request.max_output_tokens == MAX_OUTPUT_TOKENS,
        message_views(request.input@) == request_messages(
            SUMMARY_SYSTEM_PROMPT@,
            summary_user_text(clip@),
            clip@,
        ),
{
    build_request(SUMMARY_SYSTEM_PROMPT, summary_user_prompt(clip), clip)
}

/// One part of a message that the model sent back.
#[derive(Debug, PartialEq, Eq)]
pub enum OutputPart {
    /// Text written by the model.
    Text(String),
    /// Anything else, such as a refusal.
    Other,
}

/// One output item of a model response.
#[derive(Debug, PartialEq, Eq)]
pub enum ModelOutput {
    /// A message with its parts in order.
    Message(Vec<OutputPart>),
    /// An item that carries no message.
    Other,
}

/// The first text among the parts of a message.
pub open spec fn first_text(parts: Seq<OutputPart>) -> Option<Seq<char>>
    decreases parts.len(),
{
    if parts.len() == 0 {
        None
    } else {
        match parts[0] {
            OutputPart::Text(t) => Some(t@),
            OutputPart::Other => first_text(parts.drop_first()),
        }
    }
}

/// The text that an output item carries, if any.
pub open spec fn output_content(output: ModelOutput) -> Option<Seq<char>> {
    match output {
        ModelOutput::Message(parts) => first_text(parts@),
        ModelOutput::Other => None,
    }
}

/// The text of the first text part of a message output.
pub fn extract_content_from_output(output: &ModelOutput) -> (content: Option<String>)
    ensures
        opt_view(content) == output_content(*output),
{
    match output {
        ModelOutput::Message(parts) => {
            let mut i: usize = 0;
            assert(parts@.skip(0) =~= parts@);
            while i < parts.len()
                invariant
                    i <= parts.len(),
                    output_content(*output) == first_text(parts@),
                    first_text(parts@) == first_text(parts@.skip(i as int)),
                decreases parts.len() - i,
            {
                assert(parts@.skip(i as int).drop_first() =~= parts@.skip(i + 1));
                assert(parts@.skip(i as int)[0] == parts@[i as int]);
                let part: &OutputPart = &parts[i];
                match part {
                    OutputPart::Text(t) => {
                        let text: String = t.clone();
                        return Some(text);
                    },
                    OutputPart::Other => {},
                }
                i += 1;
            }
            None
        },
        ModelOutput::Other => None,
    }
}

/// The trimmed texts of the outputs that carry one, in order.
pub open spec fn candidates_of(outputs: Seq<ModelOutput>) -> Seq<Seq<char>>
    decreases outputs.len(),
{
    if outputs.len() == 0 {
        Seq::empty()
    } else {
        let init = candidates_of(outputs.drop_last());
        match output_content(outputs.last()) {
            Some(c) => init.push(trimmed(c)),
            None => init,
        }
    }
}

/// The texts in which a category is looked for: the trimmed content of every
/// output that has content.
pub fn reply_candidates(outputs: &Vec<ModelOutput>) -> (texts: Vec<String>)
    ensures
        string_views(texts@) == candidates_of(outputs@),
{
    let mut texts: Vec<String> = Vec::new();
    let mut i: usize = 0;
    assert(outputs@.take(0) =~= Seq::<ModelOutput>::empty());
    assert(string_views(texts@) =~= candidates_of(outputs@.take(0)));
    while i < outputs.len()
        invariant
            i <= outputs.len(),
            string_views(texts@) == candidates_of(outputs@.take(i as int)),
        decreases outputs.len() - i,
    {
        assert(outputs@.take(i + 1).drop_last() =~= outputs@.take(i as int));
        let ghost before = string_views(texts@);
        match extract_content_from_output(&outputs[i]) {
            Some(content) => {
                let text: String = String::from_str(trim(content.as_str()));
                texts.push(text);
                assert(string_views(texts@) =~= before.push(trimmed(content@)));
            },
            None => {},
        }
        i += 1;
    }
    assert(outputs@.take(i as int) =~= outputs@);
    texts
}

/// The strings among `items`, in order.
pub open spec fn present(items: Seq<Option<Seq<char>>>) -> Seq<Seq<char>>
    decreases items.len(),
{
    if items.len() == 0 {
        Seq::empty()
    } else {
        let init = present(items.drop_last());
        match items.last() {
            Some(s) => init.push(s),
            None => init,
        }
    }
}

/// The category that loosely read fields give: both must be there, and tags
/// that are no strings are left out.
pub open spec fn fields_category(
    category: Option<Seq<char>>,
    tags: Option<Seq<Option<Seq<char>>>>,
) -> Option<CategoryView> {
    match (category, tags) {
        (Some(c), Some(t)) => Some(CategoryView { category: c, tags: present(t) }),
        _ => None,
    }
}

/// Builds a category from loosely read fields.
pub fn category_from_fields(category: Option<String>, tags: Option<Vec<Option<String>>>) -> (found:
    Option<CategoryResponse>)
    ensures
        response_view(found) == fields_category(
            opt_view(category),
            match tags {
                Some(t) => Some(opt_views(t@)),
                None => None,
            },
        ),
{
    match (category, tags) {
        (Some(c), Some(t)) => {
            let mut kept: Vec<String> = Vec::new();
            let mut i: usize = 0;
            assert(opt_views(t@).take(0) =~= Seq::<Option<Seq<char>>>::empty());
            assert(string_views(kept@) =~= present(opt_views(t@).take(0)));
            while i < t.len()
                invariant
                    i <= t.len(),
                    string_views(kept@) == present(opt_views(t@).take(i as int)),
                decreases t.len() - i,
            {
                assert(opt_views(t@).take(i + 1).drop_last() =~= opt_views(t@).take(i as int));
                let ghost before = string_views(kept@);
                match &t[i] {
                    Some(tag) => {
                        kept.push(tag.clone());
                        assert(string_views(kept@) =~= before.push(tag@));
                    },
                    None => {},
                }
                i += 1;
            }
            assert(opt_views(t@).take(i as int) =~= opt_views(t@));
            Some(CategoryResponse { category: c, tags: kept })
        },
        _ => None,
    }
}

/// The view of an optional category.
pub open spec fn response_view(o: Option<CategoryResponse>) -> Option<CategoryView> {
    match o {
        Some(c) => Some(c@),
        None => None,
    }
}

/// The views of a sequence of optional categories.
pub open spec fn response_views(v: Seq<Option<CategoryResponse>>) -> Seq<Option<CategoryView>> {
    Seq::new(v.len(), |i: int| response_view(v[i]))
}

/// The category that a loose reading of a JSON text gives.
pub open spec fn lenient_category(text: Seq<char>) -> Option<CategoryView> {
    fields_category(json_text_member(text, "category"@), json_list_member(text, "tags"@))
}

/// Reads a category loosely from a JSON text: a string under `category` and
/// an array under `tags`.
pub fn lenient_parse(text: &str) -> (found: Option<CategoryResponse>)
    ensures
        response_view(found) == lenient_category(text@),
{
    let category: Option<String> = text_member(text, "category");
    let tags: Option<Vec<Option<String>>> = list_member(text, "tags");
    category_from_fields(category, tags)
}

/// The strict reading of the candidate numbered `i`, where one was given.
pub open spec fn strict_at(strict: Seq<Option<CategoryView>>, i: int) -> Option<CategoryView> {
    if 0 <= i < strict.len() {
        strict[i]
    } else {
        None
    }
}

/// The category of the first candidate from `i` on that has one; a strict
/// reading of a candidate goes before its loose reading.
pub open spec fn first_category(strict: Seq<Option<CategoryView>>, texts: Seq<Seq<char>>, i: int) -> Option<
    CategoryView,
>
    decreases texts.len() - i,
{
    if i < 0 || i >= texts.len() {
        None
    } else if strict_at(strict, i) is Some {
        strict_at(strict, i)
    } else if lenient_category(texts[i]) is Some {
        lenient_category(texts[i])
    } else {
        first_category(strict, texts, i + 1)
    }
}

/// The category used when the model gave none.
pub open spec fn fallback_category(clip: ClipView) -> CategoryView {
    match clip {
        ClipView::Text { .. } => CategoryView { category: "other"@, tags: seq!["uncategorized"@] },
        ClipView::Image { .. } => CategoryView { category: "image"@, tags: seq!["screenshot"@] },
    }
}

/// The fallback category of a capture.
pub fn fallback_for(clip: &Clip) -> (category: CategoryResponse)
    ensures
        category@ == fallback_category(clip@),
{
    let mut tags: Vec<String> = Vec::new();
    match clip {
        Clip::Text { .. } => {
            tags.push(String::from_str("uncategorized"));
            assert(string_views(tags@) =~= seq!["uncategorized"@]);
            CategoryResponse { category: String::from_str("other"), tags }
        },
        Clip::Image { .. } => {
            tags.push(String::from_str("screenshot"));
            assert(string_views(tags@) =~= seq!["screenshot"@]);
            CategoryResponse { category: String::from_str("image"), tags }
        },
    }
}

/// Copies a category.
pub fn duplicate_category(c: &CategoryResponse) -> (copy: CategoryResponse)
    ensures
        copy@ == c@,
{
    CategoryResponse { category: c.category.clone(), tags: crate::clip::duplicate_strings(&c.tags) }
}

/// Picks the category of a capture from the candidate texts of a reply.
/// `strict[i]` is what a strict reading of `texts[i]` gave, `None` where it
/// failed or was not made. The first candidate that reads strictly or
/// loosely decides; if none does, the fallback of the capture's kind is
/// returned.
pub fn get_llm_category(
    clip: &Clip,
    texts: &Vec<String>,
    strict: &Vec<Option<CategoryResponse>>,
) -> (category: CategoryResponse)
    ensures
        category@ == match first_category(response_views(strict@), string_views(texts@), 0) {
            Some(c) => c,
            None => fallback_category(clip@),
        },
{
    let ghost sv = response_views(strict@);
    let ghost tv = string_views(texts@);
    let mut i: usize = 0;
    while i < texts.len()
        invariant
            i <= texts.len(),
            sv == response_views(strict@),
            tv == string_views(texts@),
            first_category(sv, tv, 0) == first_category(sv, tv, i as int),
        decreases texts.len() - i,
    {
        if i < strict.len() {
            match &strict[i] {
                Some(found) => {
                    return duplicate_category(found);
                },
                None => {},
            }
        }
        match lenient_parse(texts[i].as_str()) {
            Some(found) => {
                return found;
            },
            None => {},
        }
        i += 1;
    }
    fallback_for(clip)
}

/// The trimmed text of the first output whose content is not blank.
pub open spec fn first_summary(outputs: Seq<ModelOutput>) -> Option<Seq<char>>
    decreases outputs.len(),
{
    if outputs.len() == 0 {
        None
    } else {
        match output_content(outputs[0]) {
            Some(c) => if trimmed(c).len() > 0 {
                Some(trimmed(c))
            } else {
                first_summary(outputs.drop_first())
            },
            None => first_summary(outputs.drop_first()),
        }
    }
}

/// The summary that a reply gives: its first content that is not blank,
/// trimmed, or the fallback text.
pub fn get_clip_summary(outputs: &Vec<ModelOutput>) -> (summary: String)
    ensures
        summary@ == match first_summary(outputs@) {
            Some(s) => s,
            None => SUMMARY_FALLBACK@,
        },
{
    let mut i: usize = 0;
    assert(outputs@.skip(0) =~= outputs@);
    while i < outputs.len()
        invariant
            i <= outputs.len(),
            first_summary(outputs@) == first_summary(outputs@.skip(i as int)),
        decreases outputs.len() - i,
    {
        assert(outputs@.skip(i as int).drop_first() =~= outputs@.skip(i + 1));
        assert(outputs@.skip(i as int)[0] == outputs@[i as int]);
        match extract_content_from_output(&outputs[i]) {
            Some(content) => {
                let summary: &str = trim(content.as_str());
                if summary.unicode_len() > 0 {
                    return String::from_str(summary);
                }
            },
            None => {},
        }
        i += 1;
    }
    String::from_str(SUMMARY_FALLBACK)
}

/// What enrichment adds to a capture. The category is never empty; the
/// summary is absent exactly when none was asked for.
#[derive(Debug, PartialEq, Eq)]
pub struct EnrichmentResult {
    pub category: String,
    pub tags: Vec<String>,
    pub summary: Option<String>,
}

/// The mathematical value of an [`EnrichmentResult`].
pub struct EnrichmentView {
    pub category: Seq<char>,
    pub tags: Seq<Seq<char>>,
    pub summary: Option<Seq<char>>,
}

impl View for EnrichmentResult {
    type V = EnrichmentView;

    open spec fn view(&self) -> EnrichmentView {
        EnrichmentView {
            category: self.category@,
            tags: string_views(self.tags@),
            summary: opt_view(self.summary),
        }
    }
}

/// Whether a capture is summarized: every image is, and a text when it is a
/// web address.
pub open spec fn wants_summary(clip: ClipView) -> bool {
    match clip {
        ClipView::Text { plain } => is_web_scheme(url_scheme_of(plain)),
        ClipView::Image { .. } => true,
    }
}

/// Whether a summary is to be asked for.
pub fn needs_summary(clip: &Clip) -> (wanted: bool)
    ensures
        wanted == wants_summary(clip@),
{
    match clip {
        Clip::Text { plain } => is_url(plain.as_str()),
        Clip::Image { .. } => true,
    }
}

/// The category recorded for a capture: what the service gave, unless it
/// failed or gave an empty category.
pub open spec fn enriched_category(clip: ClipView, outcome: Option<CategoryView>) -> CategoryView {
    match outcome {
        Some(c) => if c.category.len() > 0 {
            c
        } else {
            fallback_category(clip)
        },
        None => fallback_category(clip),
    }
}

/// The summary recorded for a capture: absent when none was attempted,
/// otherwise what the service gave, or the fallback text when it failed or
/// gave nothing.
pub open spec fn enriched_summary(attempted: bool, outcome: Option<Seq<char>>) -> Option<Seq<char>> {
    if attempted {
        Some(
            match outcome {
                Some(s) => if s.len() > 0 {
                    s
                } else {
                    SUMMARY_FALLBACK@
                },
                None => SUMMARY_FALLBACK@,
            },
        )
    } else {
        None
    }
}

/// Merges the outcomes of the two service calls into the enrichment of a
/// capture. `attempted` says whether a summary was asked for; `None` stands
/// for a call that failed.
pub fn merge_enrichment(
    clip: &Clip,
    attempted: bool,
    category: Option<CategoryResponse>,
    summary: Option<String>,
) -> (result: EnrichmentResult)
    ensures
        result@.category == enriched_category(clip@, response_view(category)).category,
        result@.tags == enriched_category(clip@, response_view(category)).tags,
        result@.summary == enriched_summary(attempted, opt_view(summary)),
        result@.category.len() > 0,
        result@.summary is Some <==> attempted,
{
    proof {
        reveal_strlit("other");
        reveal_strlit("image");
    }
    let chosen: CategoryResponse = match category {
        Some(c) => if c.category.as_str().unicode_len() > 0 {
            c
        } else {
            fallback_for(clip)
        },
        None => fallback_for(clip),
    };
    let text: Option<String> = if attempted {
        Some(
            match summary {
                Some(s) => if s.as_str().unicode_len() > 0 {
                    s
                } else {
                    String::from_str(SUMMARY_FALLBACK)
                },
                None => String::from_str(SUMMARY_FALLBACK),
            },
        )
    } else {
        None
    };
    EnrichmentResult { category: chosen.category, tags: chosen.tags, summary: text }
}

/// Enriches a capture from the outcomes of the service calls. It always
/// returns a result: a failed call degrades to the fallback values, and a
/// summary is recorded exactly for images and web addresses.
pub fn enrich(clip: &Clip, category: Option<CategoryResponse>, summary: Option<String>) -> (result:
    EnrichmentResult)
    ensures
        result@.category == enriched_category(clip@, response_view(category)).category,
        result@.tags == enriched_category(clip@, response_view(category)).tags,
        result@.summary == enriched_summary(wants_summary(clip@), opt_view(summary)),
        result@.category.len() > 0,
        result@.summary is Some <==> wants_summary(clip@),
{
    let attempted: bool = needs_summary(clip);
    merge_enrichment(clip, attempted, category, summary)
}

/// When the service is out of reach, a text is filed under `other` with the
/// tag `uncategorized` and an image under `image` with the tag `screenshot`,
/// and the summary, where one was attempted, is the fallback text.
pub proof fn lemma_unreachable_service(clip: ClipView, attempted: bool)
    ensures
        clip is Text ==> enriched_category(clip, None) == (CategoryView {
            category: "other"@,
            tags: seq!["uncategorized"@],
        }),
        clip is Image ==> enriched_category(clip, None) == (CategoryView {
            category: "image"@,
            tags: seq!["screenshot"@],
        }),
        attempted ==> enriched_summary(attempted, None) == Some(SUMMARY_FALLBACK@),
        !attempted ==> enriched_summary(attempted, None) is None,
{
}

/// A text within the limit is sent unmodified; a longer one is cut to the
/// limit and ends in the marker.
pub proof fn lemma_truncation(s: Seq<char>)
    ensures
        s.len() <= PROMPT_LIMIT ==> truncated(s) == s,
        s.len() > PROMPT_LIMIT ==> truncated(s).len() == PROMPT_LIMIT + 3 && truncated(s).take(
            PROMPT_LIMIT as int,
        ) == s.take(PROMPT_LIMIT as int) && truncated(s).skip(PROMPT_LIMIT as int) == "..."@,
{
    reveal_strlit("...");
    if s.len() > PROMPT_LIMIT {
        assert(truncated(s).take(PROMPT_LIMIT as int) =~= s.take(PROMPT_LIMIT as int));
        assert(truncated(s).skip(PROMPT_LIMIT as int) =~= "..."@);
    }
}

/// The classification prompt of a text within the limit ends in the text
/// itself; that of a longer text ends in its first `PROMPT_LIMIT` characters
/// and the marker.
pub proof fn lemma_classification_prompt(plain: Seq<char>)
    ensures
        plain.len() <= PROMPT_LIMIT ==> category_user_text((ClipView::Text { plain }))
            == "Categorize this text content:\n\n"@ + plain,
        plain.len() > PROMPT_LIMIT ==> category_user_text((ClipView::Text { plain }))
            == "Categorize this text content:\n\n"@ + (plain.take(PROMPT_LIMIT as int) + "..."@),
{
}

} // verus!
