//! OpenAI-compatible comment analysis: the retry policy around the API call,
//! the system and user prompts sent to the model, and the mapping of the
//! model's JSON answer to reply suggestions.

use vstd::prelude::*;
use crate::domain::entities::{Comment, CommentIntent, Content, ReplySuggestion, Sentiment};
use crate::domain::errors::AiError;
use crate::text::{
    contains_seq, contains_str, decimal, occurs_at, push_str, str_eq, to_lowercase, to_owned_string,
    truncate_utf8, truncated_text, u64_to_decimal, unicode_lowercase, is_ascii_text, lower_ascii, utf8_len, utf8_len_capped,
};

verus! {

// ------------------------------------------------------------------
// Limits and defaults
// ------------------------------------------------------------------

/// Default number of retries after a failed API call.
pub const DEFAULT_MAX_RETRIES: u32 = 3;

/// Default base delay of the exponential backoff, in milliseconds.
pub const DEFAULT_RETRY_BASE_DELAY_MS: u64 = 1000;

/// Default ceiling of the backoff delay, in milliseconds.
pub const DEFAULT_RETRY_MAX_DELAY_MS: u64 = 30000;

/// Comments longer than this many bytes are cut.
pub const MAX_COMMENT_LENGTH: usize = 300;

/// At most this many comments go into one prompt.
pub const MAX_COMMENTS_PER_BATCH: usize = 150;

/// Video descriptions longer than this many bytes are cut.
pub const MAX_VIDEO_DESC_LENGTH: usize = 500;

/// Byte budget of the user prompt's data section.
pub const MAX_TOTAL_CHARS: usize = 60000;

/// Default API base URL.
pub const DEFAULT_BASE_URL: &'static str = "https://api.siliconflow.cn/v1";

/// Default model name.
pub const DEFAULT_MODEL: &'static str = "deepseek-ai/DeepSeek-V3";

// ------------------------------------------------------------------
// Retry policy
// ------------------------------------------------------------------

/// Retry configuration for AI API calls.
#[derive(Debug, Clone, Copy)]
pub struct AiRetryConfig {
    /// Maximum number of retry attempts.
    pub max_retries: u32,
    /// Base delay between retries (exponential backoff).
    pub base_delay_ms: u64,
    /// Maximum delay between retries.
    pub max_delay_ms: u64,
}

impl Default for AiRetryConfig {
    fn default() -> (r: AiRetryConfig)
        ensures
            r.max_retries == DEFAULT_MAX_RETRIES,
            r.base_delay_ms == DEFAULT_RETRY_BASE_DELAY_MS,
            r.max_delay_ms == DEFAULT_RETRY_MAX_DELAY_MS,
    {
        AiRetryConfig {
            max_retries: DEFAULT_MAX_RETRIES,
            base_delay_ms: DEFAULT_RETRY_BASE_DELAY_MS,
            max_delay_ms: DEFAULT_RETRY_MAX_DELAY_MS,
        }
    }
}

/// `2^n`.
pub open spec fn backoff_factor(n: nat) -> nat
    decreases n,
{
    if n == 0 {
        1
    } else {
        2 * backoff_factor((n - 1) as nat)
    }
}

proof fn lemma_backoff_factor_monotonic(a: nat, b: nat)
    requires
        a <= b,
    ensures
        1 <= backoff_factor(a) <= backoff_factor(b),
    decreases b,
{
    if a < b {
        lemma_backoff_factor_monotonic(a, (b - 1) as nat);
    } else if b > 0 {
        lemma_backoff_factor_monotonic(0, (b - 1) as nat);
    }
}

/// The delay before retry number `attempt + 1`: the base delay doubled
/// `attempt` times, capped at the maximum delay.
pub open spec fn retry_delay(config: AiRetryConfig, attempt: nat) -> nat {
    let d = config.base_delay_ms * backoff_factor(attempt);
    if d < config.max_delay_ms {
        d as nat
    } else {
        config.max_delay_ms as nat
    }
}

/// The backoff for `attempt` is computable without overflow.
pub open spec fn retry_delay_fits(config: AiRetryConfig, attempt: nat) -> bool {
    backoff_factor(attempt) <= u64::MAX && config.base_delay_ms * backoff_factor(attempt)
        <= u64::MAX
}

/// An error worth retrying: a rate limit, a network failure, or a service
/// error whose message reports a 5xx or 403 status, an RPM or rate limit, or a
/// temporary condition.
pub open spec fn ai_retry_worthy(e: AiError) -> bool {
    match e {
        AiError::RateLimited => true,
        AiError::Network(_) => true,
        AiError::ServiceError(m) => contains_seq(m@, "API error 5"@) || contains_seq(
            m@,
            "API error 403"@,
        ) || contains_seq(m@, "RPM limit"@) || contains_seq(m@, "rate limit"@) || contains_seq(
            m@,
            "temporarily"@,
        ),
        _ => false,
    }
}

/// A rate limit and a network failure are always retried. A service error is
/// retried exactly when its message mentions a 5xx or 403 status
/// ("API error 5", "API error 403"), an RPM limit, a rate limit, or a
/// temporary condition ("temporarily").
pub proof fn lemma_retry_worthy_messages(m: String, n: String)
    ensures
        ai_retry_worthy(AiError::RateLimited),
        ai_retry_worthy(AiError::Network(n)),
        contains_seq(m@, "rate limit"@) ==> ai_retry_worthy(AiError::ServiceError(m)),
        contains_seq(m@, "RPM limit"@) ==> ai_retry_worthy(AiError::ServiceError(m)),
        contains_seq(m@, "API error 5"@) ==> ai_retry_worthy(AiError::ServiceError(m)),
        contains_seq(m@, "API error 403"@) ==> ai_retry_worthy(AiError::ServiceError(m)),
        contains_seq(m@, "temporarily"@) ==> ai_retry_worthy(AiError::ServiceError(m)),
        !contains_seq(m@, "rate limit"@) && !contains_seq(m@, "RPM limit"@) && !contains_seq(m@, "API error 5"@)
            && !contains_seq(m@, "API error 403"@) && !contains_seq(m@, "temporarily"@)
            ==> !ai_retry_worthy(AiError::ServiceError(m)),
{
}

/// `e` is the error of a chat call answered with `status`: `429` is rate
/// limiting; any other status is a service error that carries the status
/// line and the body.
pub open spec fn is_status_error(status: u16, status_line: Seq<char>, body: Seq<char>, e: AiError) -> bool {
    if status == 429 {
        e is RateLimited
    } else {
        e matches AiError::ServiceError(m) && m@ == "API error "@ + status_line + ": "@ + body
    }
}

/// A rate-limited call, and a call answered with a server error (a status
/// line starting with `5`), are always worth retrying.
pub proof fn lemma_status_errors_retry(status: u16, status_line: Seq<char>, body: Seq<char>, e: AiError)
    requires
        is_status_error(status, status_line, body, e),
        status == 429 || (status_line.len() > 0 && status_line[0] == '5'),
    ensures
        ai_retry_worthy(e),
{
    if status != 429 {
        reveal_strlit("API error ");
        reveal_strlit("API error 5");
        let m = "API error "@ + status_line + ": "@ + body;
        assert(m.subrange(0, 11) =~= "API error 5"@);
        assert(occurs_at(m, "API error 5"@, 0));
    }
}

/// What to do after a failed attempt.
#[derive(Debug, Clone, Copy, PartialEq, Eq, Structural)]
pub enum RetryStep {
    /// Wait this many milliseconds, then try again.
    Retry { delay_ms: u64 },
    /// Return the error.
    GiveUp,
}

// ------------------------------------------------------------------
// Analysis context
// ------------------------------------------------------------------

/// The campaign settings that shape the system prompt.
#[derive(Debug, Clone)]
pub struct AnalysisContext {
    pub product_prompt: Option<String>,
    pub target_audience: Option<String>,
    pub reply_strategy: Option<String>,
    pub dm_strategy: Option<String>,
    pub reply_post_strategy: Option<String>,
}

impl AnalysisContext {
    /// A context with no settings.
    pub fn new() -> (r: AnalysisContext)
        ensures
            r.product_prompt is None,
            r.target_audience is None,
            r.reply_strategy is None,
            r.dm_strategy is None,
            r.reply_post_strategy is None,
    {
        AnalysisContext {
            product_prompt: None,
            target_audience: None,
            reply_strategy: None,
            dm_strategy: None,
            reply_post_strategy: None,
        }
    }

    /// Sets the product prompt.
    pub fn with_product_prompt(self, prompt: &str) -> (r: AnalysisContext)
        ensures
            r.product_prompt matches Some(p) && p@ == prompt@,
            r.target_audience == self.target_audience,
            r.reply_strategy == self.reply_strategy,
            r.dm_strategy == self.dm_strategy,
            r.reply_post_strategy == self.reply_post_strategy,
    {
        AnalysisContext { product_prompt: Some(to_owned_string(prompt)), ..self }
    }

    /// Sets the target audience.
    pub fn with_target_audience(self, audience: &str) -> (r: AnalysisContext)
        ensures
            r.target_audience matches Some(p) && p@ == audience@,
            r.product_prompt == self.product_prompt,
            r.reply_strategy == self.reply_strategy,
            r.dm_strategy == self.dm_strategy,
            r.reply_post_strategy == self.reply_post_strategy,
    {
        AnalysisContext { target_audience: Some(to_owned_string(audience)), ..self }
    }

    /// Sets the reply strategy.
    pub fn with_reply_strategy(self, strategy: &str) -> (r: AnalysisContext)
        ensures
            r.reply_strategy matches Some(p) && p@ == strategy@,
            r.product_prompt == self.product_prompt,
            r.target_audience == self.target_audience,
            r.dm_strategy == self.dm_strategy,
            r.reply_post_strategy == self.reply_post_strategy,
    {
        AnalysisContext { reply_strategy: Some(to_owned_string(strategy)), ..self }
    }

    /// Sets the DM strategy.
    pub fn with_dm_strategy(self, strategy: &str) -> (r: AnalysisContext)
        ensures
            r.dm_strategy matches Some(p) && p@ == strategy@,
            r.product_prompt == self.product_prompt,
            r.target_audience == self.target_audience,
            r.reply_strategy == self.reply_strategy,
            r.reply_post_strategy == self.reply_post_strategy,
    {
        AnalysisContext { dm_strategy: Some(to_owned_string(strategy)), ..self }
    }

    /// Sets the strategy for viral top-level comments.
    pub fn with_reply_post_strategy(self, strategy: &str) -> (r: AnalysisContext)
        ensures
            r.reply_post_strategy matches Some(p) && p@ == strategy@,
            r.product_prompt == self.product_prompt,
            r.target_audience == self.target_audience,
            r.reply_strategy == self.reply_strategy,
            r.dm_strategy == self.dm_strategy,
    {
        AnalysisContext { reply_post_strategy: Some(to_owned_string(strategy)), ..self }
    }
}

// ------------------------------------------------------------------
// System prompt
// ------------------------------------------------------------------

pub const SYSTEM_PROMPT_ROLE: &'static str = r#"# Role
You are a senior social media growth and user conversion expert. Your core task is to analyze video comment sections and identify high-potential leads through a three-pronged parallel strategy: "Reply to Comments + Create Viral Comments + DM Conversion".

# Strategic Context
- **Target Audience:** "#;

pub const SYSTEM_PROMPT_PRODUCT: &'static str = r#"
- **Product Prompt:** "#;

pub const SYSTEM_PROMPT_DM: &'static str = r#"
- **DM Strategy:** "#;

pub const SYSTEM_PROMPT_REPLY: &'static str = r#"
- **Reply Strategy:** Public replies to specific comments, focusing on engagement and traffic. Strategy: "#;

pub const SYSTEM_PROMPT_VIRAL: &'static str = r#"
- **Viral Comment Strategy:** Create "top comments" to attract global attention. Strategy: "#;

pub const SYSTEM_PROMPT_RULES: &'static str = r#"

# Execution Logic
## Step 1: Lead Intent Identification
Filter users with clear needs, obvious pain points, or comments with "viral potential".

## Step 2: Conversion & Engagement Mechanism (for selected comments)
For selected comments, you **must** generate the following three items:

1. **Public Reply (suggested_reply):**
   - Follow the `Reply Strategy`. Be concise, friendly, and hint that DM has "treasures".

2. **DM Suggestion (suggested_dm):**
   - Follow the `DM Strategy`. **Use the commenter's real nickname** (user_nickname), no placeholders!
   - **Key Requirement:** Address the user by their nickname at the start, e.g., "Hey [real nickname]".

3. **Viral Comment Suggestion (suggested_reply_post):**
   - **Core Purpose:** Create a viral comment. Use relatable, provocative, or counter-intuitive views to attract likes and replies.
   - **Limit:** Only generate when the comment can resonate widely. **Max 3 non-null `suggested_reply_post` entries per response.**
   - **Writing Logic:** Use self-deprecating humor, one-line pain point summaries, or controversial questions.

# Language & Style Guidelines
- **Avoid AI Feel:** No robotic language. Use native social media language (e.g., "Slay/Mood/FR/no cap").
- **Create Tension:** Comments should be punchy and impactful.
- **Adaptive Logic:** For positive comments, "meme it up". For negative comments, use "elegant comeback" or "hard reversal".

# CRITICAL - Output Rules
- **ID Format:** Must return original numeric ID.
- **Username Usage:** In suggested_dm, **must use commenter's real nickname** (from User field in input), NO placeholders like {{user_name}}!
- **Binding Rule:** `suggested_reply` and `suggested_dm` must be generated together.
- **Quantity Limit:** Max 3 `suggested_reply_post` entries in entire JSON, extras should be `null`.

# Output Format (Strict JSON)
{
  "suggestions": [
    {
      "comment_id": "7327061675382260482",
      "reason": "User comment is highly representative, suitable as anchor for viral comment.",
      "suggested_reply": "This comment is exactly what I was thinking! Check your DMs for the full breakdown!",
      "suggested_dm": "Hey Sarah, saw your comment about [XX] and it's so relatable! I have a proven solution that not only solves [problem] but also [benefit]...",
      "suggested_reply_post": "Don't upvote this or the creator might see it and lose it... (just kidding, or am I?)"
    },
    {
      "comment_id": "7327061675382260483",
      "reason": "Standard inquiry, focus on DM conversion.",
      "suggested_reply": "Great question! Many people miss this detail. I'll DM you the comparison!",
      "suggested_dm": "Hi Mike, here's the comparison you asked for. Actually [product] has [XX optimization] here...",
      "suggested_reply_post": null
    }
  ]
}

If no suitable comments, return: {"suggestions": []}

# Input Data
"#;

/// `o`'s text, or `default` when it is absent.
pub open spec fn text_or(o: Option<String>, default: Seq<char>) -> Seq<char> {
    match o {
        Some(s) => s@,
        None => default,
    }
}

/// The system prompt for the given settings.
pub open spec fn system_prompt(ctx: AnalysisContext) -> Seq<char> {
    SYSTEM_PROMPT_ROLE@ + text_or(ctx.target_audience, "General audience"@) + SYSTEM_PROMPT_PRODUCT@
        + text_or(ctx.product_prompt, "Products/Services"@) + SYSTEM_PROMPT_DM@ + text_or(
        ctx.dm_strategy,
        "Send personalized DM."@,
    ) + SYSTEM_PROMPT_REPLY@ + text_or(ctx.reply_strategy, "Be helpful and friendly."@)
        + SYSTEM_PROMPT_VIRAL@ + text_or(ctx.reply_post_strategy, "Create engaging comment."@)
        + SYSTEM_PROMPT_RULES@
}

/// `o`'s text, or `default` when it is absent.
fn str_or<'a>(o: &'a Option<String>, default: &'a str) -> (r: &'a str)
    ensures
        r@ == text_or(*o, default@),
{
    match o {
        Some(s) => s.as_str(),
        None => default,
    }
}

// ------------------------------------------------------------------
// User prompt
// ------------------------------------------------------------------

/// The name shown for a commenter: the nickname when known, else the handle.
pub open spec fn commenter_name(c: Comment) -> Seq<char> {
    match c.author_name {
        Some(n) => n@,
        None => c.author@,
    }
}

/// One comment line of the user prompt.
pub open spec fn comment_line(c: Comment) -> Seq<char> {
    "- ID: "@ + c.comment_id@ + ", User: "@ + commenter_name(c) + ", Content: "@ + truncated_text(
        c.text@,
        MAX_COMMENT_LENGTH as nat,
    ) + "\n"@
}

/// The note that replaces the `n` comments left out for `why`.
pub open spec fn omitted_note(n: nat, why: Seq<char>) -> Seq<char> {
    "\n... ("@ + decimal(n) + " more comments omitted due to "@ + why + ")\n"@
}

/// The comment lines from index `i` on, given `total` bytes already used:
/// after the batch limit the rest is summarised, and a line that would push
/// the prompt past its byte budget ends it with a summary instead.
pub open spec fn comment_lines(cs: Seq<Comment>, i: nat, total: nat) -> Seq<char>
    decreases cs.len() - i,
{
    if i >= cs.len() {
        seq![]
    } else if i >= MAX_COMMENTS_PER_BATCH {
        omitted_note((cs.len() - i) as nat, "batch limit"@)
    } else {
        let line = comment_line(cs[i as int]);
        if total + utf8_len(line) > MAX_TOTAL_CHARS {
            omitted_note((cs.len() - i) as nat, "size limit"@)
        } else {
            line + comment_lines(cs, i + 1, total + utf8_len(line))
        }
    }
}

/// The head of the user prompt: the (cut) description, the author, the batch
/// information when given, and the comments heading.
pub open spec fn prompt_head(content: Content, batch_info: Option<Seq<char>>) -> Seq<char> {
    "Video Description: "@ + truncated_text(content.description@, MAX_VIDEO_DESC_LENGTH as nat)
        + "\nAuthor: "@ + content.author@ + "\n"@ + match batch_info {
        Some(b) => "Batch Info: "@ + b + "\n"@,
        None => seq![],
    } + "\nComments:\n"@
}

/// The user prompt for a content item and its comments.
pub open spec fn user_prompt(content: Content, comments: Seq<Comment>, batch_info: Option<Seq<char>>) -> Seq<char> {
    let head = prompt_head(content, batch_info);
    "Data:\n"@ + head + comment_lines(comments, 0, utf8_len(head))
}

/// `Some(s@)` for `Some(s)`.
pub open spec fn opt_str_view(o: Option<&str>) -> Option<Seq<char>> {
    match o {
        Some(s) => Some(s@),
        None => None,
    }
}

fn comment_line_text(c: &Comment) -> (r: String)
    ensures
        r@ == comment_line(*c),
{
    let text = truncate_utf8(c.text.as_str(), MAX_COMMENT_LENGTH);
    let name: &str = match &c.author_name {
        Some(n) => n.as_str(),
        None => c.author.as_str(),
    };
    let mut r = to_owned_string("- ID: ");
    push_str(&mut r, c.comment_id.as_str());
    push_str(&mut r, ", User: ");
    push_str(&mut r, name);
    push_str(&mut r, ", Content: ");
    push_str(&mut r, text.as_str());
    push_str(&mut r, "\n");
    r
}

fn push_omitted(r: &mut String, n: usize, why: &str)
    ensures
        final(r)@ == old(r)@ + omitted_note(n as nat, why@),
{
    let count = u64_to_decimal(n as u64);
    push_str(r, "\n... (");
    push_str(r, count.as_str());
    push_str(r, " more comments omitted due to ");
    push_str(r, why);
    push_str(r, ")\n");
}

// ------------------------------------------------------------------
// The model's answer
// ------------------------------------------------------------------

/// `i` is the first position of `c` in `s`.
pub open spec fn is_first_pos(s: Seq<char>, c: char, i: int) -> bool {
    0 <= i < s.len() && s[i] == c && forall|k: int| 0 <= k < i ==> s[k] != c
}

/// `i` is the last position of `c` in `s`.
pub open spec fn is_last_pos(s: Seq<char>, c: char, i: int) -> bool {
    0 <= i < s.len() && s[i] == c && forall|k: int| i < k < s.len() ==> s[k] != c
}

/// The first position of `c` in `s` (`str::find`).
pub open spec fn first_pos(s: Seq<char>, c: char) -> Option<int> {
    if exists|i: int| is_first_pos(s, c, i) {
        Some(choose|i: int| is_first_pos(s, c, i))
    } else {
        None
    }
}

/// The last position of `c` in `s` (`str::rfind`).
pub open spec fn last_pos(s: Seq<char>, c: char) -> Option<int> {
    if exists|i: int| is_last_pos(s, c, i) {
        Some(choose|i: int| is_last_pos(s, c, i))
    } else {
        None
    }
}

/// The span from the first `{` to the last `}` when both occur, else the
/// whole answer.
pub open spec fn json_candidate(s: Seq<char>) -> Seq<char> {
    match (first_pos(s, '{'), last_pos(s, '}')) {
        (Some(a), Some(b)) => s.subrange(a, b + 1),
        _ => s,
    }
}

/// The span can be cut: when both braces occur, the last `}` is not more
/// than one position before the first `{`.
pub open spec fn json_candidate_defined(s: Seq<char>) -> bool {
    match (first_pos(s, '{'), last_pos(s, '}')) {
        (Some(a), Some(b)) => a <= b + 1,
        _ => true,
    }
}

fn find_first(v: &Vec<char>, c: char) -> (r: Option<usize>)
    ensures
        match r {
            Some(i) => is_first_pos(v@, c, i as int),
            None => forall|k: int| 0 <= k < v@.len() ==> v@[k] != c,
        },
{
    let mut i: usize = 0;
    while i < v.len()
        invariant
            i <= v.len(),
            forall|k: int| 0 <= k < i ==> v@[k] != c,
        decreases v.len() - i,
    {
        if v[i] == c {
            return Some(i);
        }
        i = i + 1;
    }
    None
}

fn find_last(v: &Vec<char>, c: char) -> (r: Option<usize>)
    ensures
        match r {
            Some(i) => is_last_pos(v@, c, i as int),
            None => forall|k: int| 0 <= k < v@.len() ==> v@[k] != c,
        },
{
    let mut i: usize = v.len();
    while i > 0
        invariant
            i <= v.len(),
            forall|k: int| i <= k < v@.len() ==> v@[k] != c,
        decreases i,
    {
        if v[i - 1] == c {
            return Some(i - 1);
        }
        i = i - 1;
    }
    None
}

proof fn lemma_first_pos(s: Seq<char>, c: char, i: int)
    requires
        is_first_pos(s, c, i),
    ensures
        first_pos(s, c) == Some(i),
{
    let j = choose|j: int| is_first_pos(s, c, j);
    assert(is_first_pos(s, c, j));
    if j < i {
        assert(s[j] != c);
    }
    if i < j {
        assert(s[i] != c);
    }
}

proof fn lemma_last_pos(s: Seq<char>, c: char, i: int)
    requires
        is_last_pos(s, c, i),
    ensures
        last_pos(s, c) == Some(i),
{
    let j = choose|j: int| is_last_pos(s, c, j);
    assert(is_last_pos(s, c, j));
    if j < i {
        assert(s[i] != c);
    }
    if i < j {
        assert(s[j] != c);
    }
}

/// The part of the model's answer that holds the JSON object: from the
/// first `{` to the last `}`, or the whole answer when either is missing.
pub fn extract_json_text(response: &str) -> (r: String)
    requires
        json_candidate_defined(response@),
    ensures
        r@ == json_candidate(response@),
{
    let v = crate::text::chars_of(response);
    let first = find_first(&v, '{');
    let last = find_last(&v, '}');
    proof {
        match first {
            Some(a) => lemma_first_pos(response@, '{', a as int),
            None => {},
        }
        match last {
            Some(b) => lemma_last_pos(response@, '}', b as int),
            None => {},
        }
    }
    match (first, last) {
        (Some(a), Some(b)) => crate::text::string_from_chars(&v, a, b + 1),
        _ => to_owned_string(response),
    }
}

/// One suggestion as the model returns it.
#[derive(Debug, Clone)]
pub struct SuggestionItem {
    /// The ID of the potential customer's comment.
    pub comment_id: String,
    /// Why this comment was selected.
    pub reason: Option<String>,
    /// The suggested public reply.
    pub suggested_reply: Option<String>,
    /// The suggested direct message.
    pub suggested_dm: Option<String>,
    /// The suggested viral top-level comment.
    pub suggested_reply_post: Option<String>,
}

/// `s` is the reply suggestion made from `item` by the model `model`.
pub open spec fn suggestion_from_item(item: SuggestionItem, model: Seq<char>, s: ReplySuggestion) -> bool {
    &&& s.comment_id == item.comment_id
    &&& s.reply_text == item.suggested_reply
    &&& s.dm_text == item.suggested_dm
    &&& s.post_reply_text == item.suggested_reply_post
    &&& s.reason == item.reason
    &&& s.intent is None
    &&& s.sentiment is None
    &&& s.tokens_used is None
    &&& s.model matches Some(m) && m@ == model
}

// ------------------------------------------------------------------
// The adapter
// ------------------------------------------------------------------

/// The OpenAI-compatible analyzer's settings and decision logic. The HTTP
/// client, the sampling temperature and the optional rate limiter live with
/// the caller that performs the requests.
#[derive(Debug, Clone)]
pub struct OpenAiAdapter {
    pub api_key: String,
    pub base_url: String,
    pub model: String,
    /// `None` leaves the API default in place.
    pub max_tokens: Option<i32>,
    pub retry_config: AiRetryConfig,
}

impl OpenAiAdapter {
    /// An adapter for `api_key`, with the default base URL and model where
    /// none is given, no token limit and the default retry configuration.
    pub fn new(api_key: &str, base_url: Option<String>, model: Option<String>) -> (r: OpenAiAdapter)
        ensures
            r.api_key@ == api_key@,
            r.base_url@ == text_or(base_url, DEFAULT_BASE_URL@),
            r.model@ == text_or(model, DEFAULT_MODEL@),
            r.max_tokens is None,
            r.retry_config.max_retries == DEFAULT_MAX_RETRIES,
            r.retry_config.base_delay_ms == DEFAULT_RETRY_BASE_DELAY_MS,
            r.retry_config.max_delay_ms == DEFAULT_RETRY_MAX_DELAY_MS,
    {
        let base_url = match base_url {
            Some(b) => b,
            None => to_owned_string(DEFAULT_BASE_URL),
        };
        let model = match model {
            Some(m) => m,
            None => to_owned_string(DEFAULT_MODEL),
        };
        OpenAiAdapter {
            api_key: to_owned_string(api_key),
            base_url,
            model,
            max_tokens: None,
            retry_config: AiRetryConfig::default(),
        }
    }

    /// Builds the adapter from the environment's values: the key from
    /// `AGENT_API_KEY`, else `OPENAI_API_KEY`; the base URL from
    /// `AGENT_BASE_URL`, else `OPENAI_BASE_URL`, else the default; the model
    /// from `AI_MODEL`, else the default. Without a key it fails.
    pub fn from_env_values(
        agent_api_key: Option<String>,
        openai_api_key: Option<String>,
        agent_base_url: Option<String>,
        openai_base_url: Option<String>,
        ai_model: Option<String>,
    ) -> (r: Result<OpenAiAdapter, AiError>)
        ensures
            (agent_api_key is None && openai_api_key is None) <==> r is Err,
            r matches Err(e) ==> (e matches AiError::ServiceError(m) && m@
                == "AGENT_API_KEY or OPENAI_API_KEY not set"@),
            r matches Ok(a) ==> {
                &&& a.api_key@ == match agent_api_key {
                    Some(k) => k@,
                    None => text_or(openai_api_key, seq![]),
                }
                &&& a.base_url@ == match agent_base_url {
                    Some(b) => b@,
                    None => text_or(openai_base_url, DEFAULT_BASE_URL@),
                }
                &&& a.model@ == text_or(ai_model, DEFAULT_MODEL@)
                &&& a.max_tokens is None
                &&& a.retry_config.max_retries == DEFAULT_MAX_RETRIES
                &&& a.retry_config.base_delay_ms == DEFAULT_RETRY_BASE_DELAY_MS
                &&& a.retry_config.max_delay_ms == DEFAULT_RETRY_MAX_DELAY_MS
            },
    {
        let key = match agent_api_key {
            Some(k) => k,
            None => match openai_api_key {
                Some(k) => k,
                None => {
                    return Err(
                        AiError::ServiceError(
                            to_owned_string("AGENT_API_KEY or OPENAI_API_KEY not set"),
                        ),
                    );
                },
            },
        };
        let base_url = match agent_base_url {
            Some(b) => b,
            None => match openai_base_url {
                Some(b) => b,
                None => to_owned_string(DEFAULT_BASE_URL),
            },
        };
        Ok(OpenAiAdapter::new(key.as_str(), Some(base_url), ai_model))
    }

    /// Sets the model.
    pub fn with_model(self, model: &str) -> (r: OpenAiAdapter)
        ensures
            r.model@ == model@,
            r.api_key == self.api_key,
            r.base_url == self.base_url,
            r.max_tokens == self.max_tokens,
            r.retry_config == self.retry_config,
    {
        OpenAiAdapter { model: to_owned_string(model), ..self }
    }

    /// Sets the token limit (`None` keeps the API default).
    pub fn with_max_tokens(self, max_tokens: Option<i32>) -> (r: OpenAiAdapter)
        ensures
            r.max_tokens == max_tokens,
            r.api_key == self.api_key,
            r.base_url == self.base_url,
            r.model == self.model,
            r.retry_config == self.retry_config,
    {
        OpenAiAdapter { max_tokens, ..self }
    }

    /// Sets the retry configuration.
    pub fn with_retry_config(self, config: AiRetryConfig) -> (r: OpenAiAdapter)
        ensures
            r.retry_config == config,
            r.api_key == self.api_key,
            r.base_url == self.base_url,
            r.model == self.model,
            r.max_tokens == self.max_tokens,
    {
        OpenAiAdapter { retry_config: config, ..self }
    }

    /// The chat completions endpoint.
    pub fn chat_url(&self) -> (r: String)
        ensures
            r@ == self.base_url@ + "/chat/completions"@,
    {
        let mut r = self.base_url.clone();
        push_str(&mut r, "/chat/completions");
        r
    }

    /// The value of the `Authorization` header.
    pub fn authorization(&self) -> (r: String)
        ensures
            r@ == "Bearer "@ + self.api_key@,
    {
        let mut r = to_owned_string("Bearer ");
        push_str(&mut r, self.api_key.as_str());
        r
    }

    /// Whether a failed call is worth retrying.
    pub fn is_retryable_error(error: &AiError) -> (r: bool)
        ensures
            r == ai_retry_worthy(*error),
    {
        match error {
            AiError::RateLimited => true,
            AiError::Network(_) => true,
            AiError::ServiceError(msg) => {
                let m = msg.as_str();
                contains_str(m, "API error 5") || contains_str(m, "API error 403") || contains_str(
                    m,
                    "RPM limit",
                ) || contains_str(m, "rate limit") || contains_str(m, "temporarily")
            },
            _ => false,
        }
    }

    /// The error of a chat call answered with a non-success status:
    /// `429` means rate limited; any other status is a service error that
    /// carries the status line (code and reason) and the response body.
    pub fn status_error(status: u16, status_line: &str, body: &str) -> (r: AiError)
        ensures
            is_status_error(status, status_line@, body@, r),
    {
        if status == 429 {
            AiError::RateLimited
        } else {
            let mut m = to_owned_string("API error ");
            push_str(&mut m, status_line);
            push_str(&mut m, ": ");
            push_str(&mut m, body);
            AiError::ServiceError(m)
        }
    }

    /// The reply text of a chat response: the content of its first choice;
    /// a response without choices is a service error.
    pub fn first_choice(choices: Vec<String>) -> (r: Result<String, AiError>)
        ensures
            choices@.len() > 0 ==> r == Ok::<String, AiError>(choices@[0]),
            choices@.len() == 0 ==> (r matches Err(AiError::ServiceError(m)) && m@
                == "Empty response from API"@),
    {
        let mut choices = choices;
        if choices.len() == 0 {
            Err(AiError::ServiceError(to_owned_string("Empty response from API")))
        } else {
            Ok(choices.swap_remove(0))
        }
    }

    /// The delay before retrying after failed attempt number `attempt`
    /// (counted from zero): exponential backoff, capped.
    pub fn calculate_retry_delay(&self, attempt: u32) -> (r: u64)
        requires
            retry_delay_fits(self.retry_config, attempt as nat),
        ensures
            r == retry_delay(self.retry_config, attempt as nat),
    {
        let mut factor: u64 = 1;
        let mut k: u32 = 0;
        while k < attempt
            invariant
                k <= attempt,
                factor == backoff_factor(k as nat),
                backoff_factor(attempt as nat) <= u64::MAX,
            decreases attempt - k,
        {
            proof {
                lemma_backoff_factor_monotonic((k + 1) as nat, attempt as nat);
            }
            factor = factor * 2;
            k = k + 1;
        }
        let delay = self.retry_config.base_delay_ms * factor;
        if delay < self.retry_config.max_delay_ms {
            delay
        } else {
            self.retry_config.max_delay_ms
        }
    }

    /// The decision after failed attempt number `attempt` (counted from
    /// zero): give up on an error not worth retrying or after the last
    /// attempt, otherwise wait the backoff delay and retry.
    pub fn next_retry_step(&self, attempt: u32, error: &AiError) -> (r: RetryStep)
        requires
            attempt <= self.retry_config.max_retries,
            attempt < self.retry_config.max_retries && ai_retry_worthy(*error) ==> retry_delay_fits(
                self.retry_config,
                attempt as nat,
            ),
        ensures
            !ai_retry_worthy(*error) || attempt == self.retry_config.max_retries ==> r
                == RetryStep::GiveUp,
            ai_retry_worthy(*error) && attempt < self.retry_config.max_retries ==> r
                == (RetryStep::Retry { delay_ms: retry_delay(self.retry_config, attempt as nat) as u64 }),
    {
        if !Self::is_retryable_error(error) || attempt == self.retry_config.max_retries {
            RetryStep::GiveUp
        } else {
            RetryStep::Retry { delay_ms: self.calculate_retry_delay(attempt) }
        }
    }

    /// The system prompt for the campaign settings, with a default for each
    /// missing setting.
    pub fn build_system_prompt(&self, context: &AnalysisContext) -> (r: String)
        ensures
            r@ == system_prompt(*context),
    {
        let target_audience = str_or(&context.target_audience, "General audience");
        let product_prompt = str_or(&context.product_prompt, "Products/Services");
        let dm_strategy = str_or(&context.dm_strategy, "Send personalized DM.");
        let reply_strategy = str_or(&context.reply_strategy, "Be helpful and friendly.");
        let reply_post_strategy = str_or(&context.reply_post_strategy, "Create engaging comment.");
        let mut r = to_owned_string(SYSTEM_PROMPT_ROLE);
        push_str(&mut r, target_audience);
        push_str(&mut r, SYSTEM_PROMPT_PRODUCT);
        push_str(&mut r, product_prompt);
        push_str(&mut r, SYSTEM_PROMPT_DM);
        push_str(&mut r, dm_strategy);
        push_str(&mut r, SYSTEM_PROMPT_REPLY);
        push_str(&mut r, reply_strategy);
        push_str(&mut r, SYSTEM_PROMPT_VIRAL);
        push_str(&mut r, reply_post_strategy);
        push_str(&mut r, SYSTEM_PROMPT_RULES);
        r
    }

    /// The user prompt: the content's description and author, the batch
    /// information, then one line per comment until the batch limit or the
    /// byte budget is reached, with a note for the comments left out.
    pub fn build_user_prompt(&self, content: &Content, comments: &[Comment], batch_info: Option<&str>) -> (r: String)
        ensures
            r@ == user_prompt(*content, comments@, opt_str_view(batch_info)),
    {
        let desc = truncate_utf8(content.description.as_str(), MAX_VIDEO_DESC_LENGTH);
        let mut head = to_owned_string("Video Description: ");
        push_str(&mut head, desc.as_str());
        push_str(&mut head, "\nAuthor: ");
        push_str(&mut head, content.author.as_str());
        push_str(&mut head, "\n");
        match batch_info {
            Some(info) => {
                push_str(&mut head, "Batch Info: ");
                push_str(&mut head, info);
                push_str(&mut head, "\n");
            },
            None => {},
        }
        push_str(&mut head, "\nComments:\n");
        let ghost h = head@;
        assert(h == prompt_head(*content, opt_str_view(batch_info)));
        let n = comments.len();
        let mut total: usize = utf8_len_capped(head.as_str(), MAX_TOTAL_CHARS + 1);
        let ghost mut exact: nat = utf8_len(h);
        let mut body = String::new();
        let mut i: usize = 0;
        let mut stopped = false;
        while i < n && !stopped
            invariant
                n == comments@.len(),
                i <= n,
                total == if exact <= MAX_TOTAL_CHARS { exact } else { (MAX_TOTAL_CHARS + 1) as nat },
                stopped ==> body@ == comment_lines(comments@, 0, utf8_len(h)),
                !stopped ==> comment_lines(comments@, 0, utf8_len(h)) == body@ + comment_lines(
                    comments@,
                    i as nat,
                    exact,
                ),
            decreases (n - i) + (if stopped { 0int } else { 1int }),
        {
            if i >= MAX_COMMENTS_PER_BATCH {
                push_omitted(&mut body, n - i, "batch limit");
                stopped = true;
            } else {
                let line = comment_line_text(&comments[i]);
                let len = utf8_len_capped(line.as_str(), MAX_TOTAL_CHARS + 1);
                if total + len > MAX_TOTAL_CHARS {
                    push_omitted(&mut body, n - i, "size limit");
                    stopped = true;
                } else {
                    proof {
                        exact = exact + utf8_len(line@);
                    }
                    push_str(&mut body, line.as_str());
                    total = total + len;
                    i = i + 1;
                }
            }
        }
        let mut r = to_owned_string("Data:\n");
        push_str(&mut r, head.as_str());
        push_str(&mut r, body.as_str());
        r
    }

    /// The reply suggestions for the model's parsed answer, each tagged with
    /// this adapter's model.
    pub fn suggestions_from_items(&self, items: Vec<SuggestionItem>) -> (r: Vec<ReplySuggestion>)
        ensures
            r.len() == items.len(),
            forall|i: int| 0 <= i < r.len() ==> suggestion_from_item(items@[i], self.model@, #[trigger] r@[i]),
    {
        let ghost orig = items@;
        let mut r: Vec<ReplySuggestion> = Vec::new();
        for item in it: items.into_iter()
            invariant
                it.seq() == orig,
                r.len() == it.index(),
                forall|i: int| 0 <= i < r.len() ==> suggestion_from_item(orig[i], self.model@, #[trigger] r@[i]),
        {
            let s = ReplySuggestion {
                comment_id: item.comment_id,
                reply_text: item.suggested_reply,
                dm_text: item.suggested_dm,
                post_reply_text: item.suggested_reply_post,
                reason: item.reason,
                intent: None,
                sentiment: None,
                tokens_used: None,
                model: Some(self.model.clone()),
            };
            r.push(s);
        }
        r
    }
}

// ------------------------------------------------------------------
// Intent and sentiment names
// ------------------------------------------------------------------

/// The intent named by a lowercase label; unknown labels give `Unknown`.
pub open spec fn intent_of_label(l: Seq<char>) -> CommentIntent {
    if l == "question"@ {
        CommentIntent::Question
    } else if l == "purchase_intent"@ {
        CommentIntent::PurchaseIntent
    } else if l == "information_request"@ {
        CommentIntent::InformationRequest
    } else if l == "feedback"@ {
        CommentIntent::Feedback
    } else if l == "complaint"@ {
        CommentIntent::Complaint
    } else if l == "praise"@ {
        CommentIntent::Praise
    } else if l == "chitchat"@ {
        CommentIntent::Chitchat
    } else if l == "spam"@ {
        CommentIntent::Spam
    } else {
        CommentIntent::Unknown
    }
}

/// The sentiment named by a lowercase label, if any.
pub open spec fn sentiment_of_label(l: Seq<char>) -> Option<Sentiment> {
    if l == "positive"@ {
        Some(Sentiment::Positive)
    } else if l == "negative"@ {
        Some(Sentiment::Negative)
    } else if l == "neutral"@ {
        Some(Sentiment::Neutral)
    } else {
        None
    }
}

/// The intent named by an already lowercased label.
pub fn intent_from_label(label: &str) -> (r: CommentIntent)
    ensures
        r == intent_of_label(label@),
{
    if str_eq(label, "question") {
        CommentIntent::Question
    } else if str_eq(label, "purchase_intent") {
        CommentIntent::PurchaseIntent
    } else if str_eq(label, "information_request") {
        CommentIntent::InformationRequest
    } else if str_eq(label, "feedback") {
        CommentIntent::Feedback
    } else if str_eq(label, "complaint") {
        CommentIntent::Complaint
    } else if str_eq(label, "praise") {
        CommentIntent::Praise
    } else if str_eq(label, "chitchat") {
        CommentIntent::Chitchat
    } else if str_eq(label, "spam") {
        CommentIntent::Spam
    } else {
        CommentIntent::Unknown
    }
}

/// The sentiment named by an already lowercased label.
pub fn sentiment_from_label(label: &str) -> (r: Option<Sentiment>)
    ensures
        r == sentiment_of_label(label@),
{
    if str_eq(label, "positive") {
        Some(Sentiment::Positive)
    } else if str_eq(label, "negative") {
        Some(Sentiment::Negative)
    } else if str_eq(label, "neutral") {
        Some(Sentiment::Neutral)
    } else {
        None
    }
}

/// Parses an intent label, case-insensitively; any label gives an intent.
pub fn parse_intent(s: &str) -> (r: Option<CommentIntent>)
    ensures
        r == Some(intent_of_label(unicode_lowercase(s@))),
        is_ascii_text(s@) ==> r == Some(intent_of_label(lower_ascii(s@))),
{
    let lower = to_lowercase(s);
    Some(intent_from_label(lower.as_str()))
}

/// Parses a sentiment label, case-insensitively.
pub fn parse_sentiment(s: &str) -> (r: Option<Sentiment>)
    ensures
        r == sentiment_of_label(unicode_lowercase(s@)),
        is_ascii_text(s@) ==> r == sentiment_of_label(lower_ascii(s@)),
{
    let lower = to_lowercase(s);
    sentiment_from_label(lower.as_str())
}


// ------------------------------------------------------------------
// Laws
// ------------------------------------------------------------------

/// The retry delay never exceeds the configured maximum, and a later retry
/// never waits less than an earlier one.
pub proof fn lemma_retry_delay_capped_monotonic(config: AiRetryConfig, a: nat, b: nat)
    requires
        a <= b,
    ensures
        retry_delay(config, a) <= config.max_delay_ms,
        retry_delay(config, a) <= retry_delay(config, b),
{
    lemma_backoff_factor_monotonic(a, b);
    let fa = backoff_factor(a);
    let fb = backoff_factor(b);
    let base = config.base_delay_ms as int;
    assert(base * fa <= base * fb) by (nonlinear_arith)
        requires
            0 <= base,
            fa <= fb,
    ;
}

} // verus!
