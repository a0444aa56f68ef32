//! Stand-ins for the outside services: a gateway that serves recorded
//! fixtures, an analyzer that answers without a model, and an in-memory
//! repository of contents, comments, analyses, campaigns and tasks.

use vstd::prelude::*;
use std::collections::HashMap;
use vstd::std_specs::hash::spec_hash_map_iter;
use vstd::std_specs::iter::IteratorSpec;
use crate::adapters::tikhub::{is_video_comment, is_video_content, video_comment, video_content, AwemeFields, TikTokCommentFields};
use crate::domain::entities::{copy_json, Comment, Content, KeywordType, ReplySuggestion, SearchOptions};
use crate::fixtures::FixtureLoader;
use crate::adapters::openai::AnalysisContext;
use crate::ports::{
    campaign_stops, comment_status_code, task_ended, CampaignConfig, CampaignStatus, CampaignStopResult,
    CommentStatus, ContentSaveResult, StoredAnalysis, StoredComment, StoredContent, TaskInfo,
    TaskProgressUpdate, TaskStatus, FetchCommentsResult,
};
use crate::adapters::twitter::first_n;
use crate::text::{prefix_before_byte, prefix_below, push_str, str_eq, to_owned_string, utf8_len};

verus! {

// ------------------------------------------------------------------
// Fixture gateway
// ------------------------------------------------------------------

/// What the fixture gateway reads for a keyword.
#[derive(Debug)]
pub enum FixtureRequest {
    /// The search fixture of this query and region.
    Search { query: String, region: String },
    /// The user-videos fixture of this user.
    UserVideos { user_id: String },
    /// Nothing: single contents are not recorded.
    Nothing,
}

/// The region of a fixture search: the search's region, else `us`.
pub open spec fn fixture_region(options: SearchOptions) -> Seq<char> {
    match options.region {
        Some(r) => r@,
        None => "us"@,
    }
}

/// A gateway that serves contents and comments from recorded fixture
/// files.  Reading a file happens outside the library; the library decides
/// which file a request reads and turns its records into contents and
/// comments.
pub struct FixtureMockAdapter {
    loader: FixtureLoader,
    platform: String,
}

impl FixtureMockAdapter {
    /// The directory the fixtures are read from.
    pub closed spec fn fixture_dir(&self) -> Seq<char> {
        self.loader.base_dir_view()
    }

    /// The platform the served contents are filed under.
    pub closed spec fn platform_name(&self) -> Seq<char> {
        self.platform@
    }

    /// A gateway over the fixtures of `loader`, serving TikTok contents.
    pub fn new(loader: FixtureLoader) -> (r: FixtureMockAdapter)
        ensures
            r.fixture_dir() == loader.base_dir_view(),
            r.platform_name() == "tiktok"@,
    {
        FixtureMockAdapter { loader, platform: to_owned_string("tiktok") }
    }

    /// A gateway over the TikTok fixtures of the project in `manifest_dir`
    /// (`"."` when unknown).
    pub fn from_test_fixtures(manifest_dir: Option<&str>) -> (r: FixtureMockAdapter)
        ensures
            r.fixture_dir() == match manifest_dir {
                Some(d) => d@,
                None => "."@,
            } + "/tests/fixtures/tiktok"@,
            r.platform_name() == "tiktok"@,
    {
        Self::new(FixtureLoader::for_manifest_dir(manifest_dir))
    }

    /// The fixture loader.
    pub fn loader(&self) -> (r: &FixtureLoader)
        ensures
            r.base_dir_view() == self.fixture_dir(),
    {
        &self.loader
    }

    /// The platform the served contents are filed under.
    pub fn platform(&self) -> (r: &str)
        ensures
            r@ == self.platform_name(),
    {
        self.platform.as_str()
    }

    /// What to read for a keyword: a search or hashtag reads the search
    /// fixture of the keyword in the search's region (`us` by default); a
    /// user id or secure user id reads that user's videos; a content id
    /// reads nothing.
    pub fn request_for(keyword: &KeywordType, options: &SearchOptions) -> (r: FixtureRequest)
        ensures
            match *keyword {
                KeywordType::Search(q) | KeywordType::Hashtag(q) => r matches FixtureRequest::Search { query, region } && query@
                    == q@ && region@ == fixture_region(*options),
                KeywordType::UserId(u) | KeywordType::SecUserId(u) => r matches FixtureRequest::UserVideos { user_id } && user_id@
                    == u@,
                KeywordType::ContentId(_) => r is Nothing,
            },
    {
        let region = match &options.region {
            Some(r) => r.clone(),
            None => to_owned_string("us"),
        };
        match keyword {
            KeywordType::Search(q) => FixtureRequest::Search { query: q.clone(), region },
            KeywordType::Hashtag(q) => FixtureRequest::Search { query: q.clone(), region },
            KeywordType::UserId(u) => FixtureRequest::UserVideos { user_id: u.clone() },
            KeywordType::SecUserId(u) => FixtureRequest::UserVideos { user_id: u.clone() },
            KeywordType::ContentId(_) => FixtureRequest::Nothing,
        }
    }

    /// The content of a recorded video, filed under the gateway's platform.
    pub fn fixture_to_content(&self, aweme: AwemeFields, raw: Option<serde_json::Value>) -> (r: Content)
        ensures
            is_video_content(self.platform_name(), aweme, raw, r),
    {
        video_content(self.platform.as_str(), aweme, raw)
    }

    /// The comment of a recorded video comment, filed under the gateway's
    /// platform.
    pub fn fixture_to_comment(&self, comment: TikTokCommentFields, content_id: &str, raw: Option<serde_json::Value>) -> (r: Comment)
        ensures
            is_video_comment(self.platform_name(), comment, content_id@, raw, r),
    {
        video_comment(self.platform.as_str(), comment, content_id, raw)
    }

    /// The contents served from a fixture's videos (each with its raw
    /// document): the first `count`, converted.
    pub fn fixture_contents(&self, videos: Vec<(AwemeFields, Option<serde_json::Value>)>, count: u32) -> (r: Vec<Content>)
        ensures
            r@.len() == first_n(videos@, count as int).len(),
            forall|i: int|
                0 <= i < r@.len() ==> is_video_content(
                    self.platform_name(),
                    (#[trigger] videos@[i]).0,
                    videos@[i].1,
                    r@[i],
                ),
    {
        let ghost v = videos@;
        let mut out: Vec<Content> = Vec::new();
        for e in it: videos.into_iter()
            invariant
                it.seq() == v,
                out@.len() == first_n(v.take(it.index() as int), count as int).len(),
                forall|i: int| 0 <= i < out@.len() ==> is_video_content(self.platform_name(), (#[trigger] v[i]).0, v[i].1, out@[i]),
        {
            if out.len() < count as usize {
                let (aweme, raw) = e;
                out.push(self.fixture_to_content(aweme, raw));
            }
        }
        proof {
            assert(v.take(v.len() as int) =~= v);
        }
        out
    }

    /// A page of a fixture's comments (each with its raw document) under
    /// the video `content_id`: the first `count`, converted; more follow
    /// when the fixture has more than `count`; the total is the fixture's
    /// size.
    pub fn fixture_comments(
        &self,
        comments: Vec<(TikTokCommentFields, Option<serde_json::Value>)>,
        content_id: &str,
        count: u32,
    ) -> (r: FetchCommentsResult)
        requires
            comments@.len() <= i64::MAX,
        ensures
            r.comments@.len() == first_n(comments@, count as int).len(),
            forall|i: int|
                0 <= i < r.comments@.len() ==> is_video_comment(
                    self.platform_name(),
                    (#[trigger] comments@[i]).0,
                    content_id@,
                    comments@[i].1,
                    r.comments@[i],
                ),
            r.has_more == (comments@.len() > count),
            r.next_cursor is None,
            r.total == Some(comments@.len() as i64),
    {
        let ghost v = comments@;
        let total = comments.len();
        let mut out: Vec<Comment> = Vec::new();
        for e in it: comments.into_iter()
            invariant
                it.seq() == v,
                out@.len() == first_n(v.take(it.index() as int), count as int).len(),
                forall|i: int| 0 <= i < out@.len() ==> is_video_comment(self.platform_name(), (#[trigger] v[i]).0, content_id@, v[i].1, out@[i]),
        {
            if out.len() < count as usize {
                let (comment, raw) = e;
                out.push(self.fixture_to_comment(comment, content_id, raw));
            }
        }
        proof {
            assert(v.take(v.len() as int) =~= v);
        }
        FetchCommentsResult { comments: out, has_more: total > count as usize, next_cursor: None, total: Some(total as i64) }
    }
}

// ------------------------------------------------------------------
// Analyzer stand-in
// ------------------------------------------------------------------

/// The canned reply of the analyzer stand-in for a comment text: a thanks
/// quoting the text's first 20 bytes.
pub open spec fn mock_reply_text(text: Seq<char>) -> Seq<char> {
    "Thank you for your comment: "@ + prefix_below(text, 20)
}

/// The reason the analyzer stand-in gives.
pub const MOCK_REASON: &'static str = "Auto-generated mock response";

/// An analyzer that answers without a model: with a response set for the
/// comment, else with a canned thanks.
pub struct MockAiAnalyzer {
    model: String,
    responses: Vec<(String, ReplySuggestion)>,
}

impl MockAiAnalyzer {
    /// The response set for a comment id, if any.
    pub closed spec fn response(&self, comment_id: Seq<char>) -> Option<ReplySuggestion> {
        if exists|i: int| 0 <= i < self.responses@.len() && (#[trigger] self.responses@[i]).0@ == comment_id {
            Some(self.responses@[choose|i: int| 0 <= i < self.responses@.len() && (#[trigger] self.responses@[i]).0@ == comment_id].1)
        } else {
            None
        }
    }

    /// The model name it reports.
    pub closed spec fn model_view(&self) -> Seq<char> {
        self.model@
    }

    /// No comment id has two responses.
    pub closed spec fn wf(&self) -> bool {
        forall|i: int, j: int|
            0 <= i < self.responses@.len() && 0 <= j < self.responses@.len() && i != j ==> (#[trigger] self.responses@[i]).0@
                != (#[trigger] self.responses@[j]).0@
    }

    /// An analyzer with no responses set, reporting the model `mock-model`.
    pub fn new() -> (r: MockAiAnalyzer)
        ensures
            r.wf(),
            r.model_view() == "mock-model"@,
            forall|id: Seq<char>| r.response(id) is None,
    {
        MockAiAnalyzer { model: to_owned_string("mock-model"), responses: Vec::new() }
    }

    /// Sets the response for a comment, replacing any earlier one.
    pub fn set_response(&mut self, comment_id: &str, suggestion: ReplySuggestion)
        requires
            old(self).wf(),
        ensures
            final(self).wf(),
            final(self).model_view() == old(self).model_view(),
            forall|id: Seq<char>| #[trigger] final(self).response(id) == (if id == comment_id@ {
                Some(suggestion)
            } else {
                old(self).response(id)
            }),
    {
        let ghost s = self.responses@;
        let mut i: usize = 0;
        while i < self.responses.len()
            invariant
                s == self.responses@,
                s == old(self).responses@,
                self.model == old(self).model,
                old(self).wf(),
                i <= s.len(),
                forall|k: int| 0 <= k < i ==> (#[trigger] s[k]).0@ != comment_id@,
            decreases s.len() - i,
        {
            if str_eq(self.responses[i].0.as_str(), comment_id) {
                let key = self.responses[i].0.clone();
                self.responses.set(i, (key, suggestion));
                proof {
                    let t = self.responses@;
                    assert forall|id: Seq<char>| #[trigger] self.response(id) == (if id == comment_id@ {
                        Some(suggestion)
                    } else {
                        old(self).response(id)
                    }) by {
                        if id == comment_id@ {
                            assert(t[i as int].0@ == id);
                            let j = choose|j: int| 0 <= j < t.len() && (#[trigger] t[j]).0@ == id;
                            if j != i {
                                assert(t[j] == s[j]);
                            }
                        } else {
                            if exists|k: int| 0 <= k < s.len() && (#[trigger] s[k]).0@ == id {
                                let k = choose|k: int| 0 <= k < s.len() && (#[trigger] s[k]).0@ == id;
                                assert(t[k] == s[k]);
                                let j = choose|j: int| 0 <= j < t.len() && (#[trigger] t[j]).0@ == id;
                                assert(t[j] == s[j]);
                                assert(j == k);
                            } else {
                                assert forall|k: int| 0 <= k < t.len() implies (#[trigger] t[k]).0@ != id by {
                                    if k != i {
                                        assert(t[k] == s[k]);
                                    }
                                }
                            }
                        }
                    }
                    assert forall|a: int, b: int|
                        0 <= a < t.len() && 0 <= b < t.len() && a != b implies (#[trigger] t[a]).0@ != (#[trigger] t[b]).0@ by {
                        if a != i {
                            assert(t[a] == s[a]);
                        }
                        if b != i {
                            assert(t[b] == s[b]);
                        }
                    }
                }
                return;
            }
            i = i + 1;
        }
        self.responses.push((to_owned_string(comment_id), suggestion));
        proof {
            let t = self.responses@;
            let n = s.len() as int;
            assert forall|id: Seq<char>| #[trigger] self.response(id) == (if id == comment_id@ {
                Some(suggestion)
            } else {
                old(self).response(id)
            }) by {
                if id == comment_id@ {
                    assert(t[n].0@ == id);
                    let j = choose|j: int| 0 <= j < t.len() && (#[trigger] t[j]).0@ == id;
                    if j != n {
                        assert(t[j] == s[j]);
                    }
                } else {
                    if exists|k: int| 0 <= k < s.len() && (#[trigger] s[k]).0@ == id {
                        let k = choose|k: int| 0 <= k < s.len() && (#[trigger] s[k]).0@ == id;
                        assert(t[k] == s[k]);
                        let j = choose|j: int| 0 <= j < t.len() && (#[trigger] t[j]).0@ == id;
                        if j < n {
                            assert(t[j] == s[j]);
                        }
                        assert(j == k);
                    } else {
                        assert forall|k: int| 0 <= k < t.len() implies (#[trigger] t[k]).0@ != id by {
                            if k < n {
                                assert(t[k] == s[k]);
                            }
                        }
                    }
                }
            }
            assert forall|a: int, b: int|
                0 <= a < t.len() && 0 <= b < t.len() && a != b implies (#[trigger] t[a]).0@ != (#[trigger] t[b]).0@ by {
                if a < n {
                    assert(t[a] == s[a]);
                }
                if b < n {
                    assert(t[b] == s[b]);
                }
            }
        }
    }

    /// The canned answer for a comment: a thanks quoting the first 20
    /// bytes of its text, the stand-in's reason, its model name and 100
    /// tokens.  The 20th byte must end a character of the text.
    pub fn generate_mock_response(&self, comment: &Comment) -> (r: ReplySuggestion)
        requires
            utf8_len(prefix_below(comment.text@, 20)) <= 20,
        ensures
            r.comment_id@ == comment.comment_id@,
            r.reply_text matches Some(t) && t@ == mock_reply_text(comment.text@),
            r.reason matches Some(t) && t@ == MOCK_REASON@,
            r.model matches Some(m) && m@ == self.model_view(),
            r.tokens_used == Some(100i32),
            r.dm_text is None,
            r.post_reply_text is None,
            r.intent is None,
            r.sentiment is None,
    {
        let (quoted, _) = prefix_before_byte(comment.text.as_str(), 20);
        let mut reply = to_owned_string("Thank you for your comment: ");
        push_str(&mut reply, quoted.as_str());
        ReplySuggestion::new(comment.comment_id.as_str())
            .with_reply(reply.as_str())
            .with_reason(MOCK_REASON)
            .with_model_info(self.model.as_str(), 100)
    }

    /// The answer for a comment: the response set for it, else the canned
    /// answer.
    pub fn analyze_comment(&self, comment: &Comment) -> (r: ReplySuggestion)
        requires
            self.wf(),
            self.response(comment.comment_id@) is None ==> utf8_len(prefix_below(comment.text@, 20)) <= 20,
        ensures
            match self.response(comment.comment_id@) {
                Some(s) => r == s,
                None => {
                    &&& r.reply_text matches Some(t) && t@ == mock_reply_text(comment.text@)
                    &&& r.comment_id@ == comment.comment_id@
                    &&& r.tokens_used == Some(100i32)
                    &&& r.model matches Some(m) && m@ == self.model_view()
                    &&& r.reason matches Some(t) && t@ == MOCK_REASON@
                    &&& r.dm_text is None
                    &&& r.post_reply_text is None
                    &&& r.intent is None
                    &&& r.sentiment is None
                },
            },
    {
        let mut i: usize = 0;
        while i < self.responses.len()
            invariant
                self.wf(),
                i <= self.responses@.len(),
                forall|k: int| 0 <= k < i ==> (#[trigger] self.responses@[k]).0@ != comment.comment_id@,
            decreases self.responses.len() - i,
        {
            if str_eq(self.responses[i].0.as_str(), comment.comment_id.as_str()) {
                proof {
                    let j = choose|j: int|
                        0 <= j < self.responses@.len() && (#[trigger] self.responses@[j]).0@ == comment.comment_id@;
                    assert(j == i);
                }
                return self.responses[i].1.duplicate();
            }
            i = i + 1;
        }
        self.generate_mock_response(comment)
    }

    /// The answers for comments, in order (see `analyze_comment`).
    pub fn analyze_batch(&self, comments: &Vec<Comment>) -> (r: Vec<ReplySuggestion>)
        requires
            self.wf(),
            forall|i: int|
                0 <= i < comments@.len() ==> self.response((#[trigger] comments@[i]).comment_id@) is None ==> utf8_len(
                    prefix_below(comments@[i].text@, 20),
                ) <= 20,
        ensures
            r@.len() == comments@.len(),
            forall|i: int|
                0 <= i < r@.len() ==> match self.response((#[trigger] comments@[i]).comment_id@) {
                    Some(s) => r@[i] == s,
                    None => r@[i].reply_text matches Some(t) && t@ == mock_reply_text(comments@[i].text@)
                        && r@[i].comment_id@ == comments@[i].comment_id@ && r@[i].tokens_used == Some(100i32)
                        && (r@[i].model matches Some(m) && m@ == self.model_view()),
                },
    {
        let mut out: Vec<ReplySuggestion> = Vec::new();
        let mut i: usize = 0;
        while i < comments.len()
            invariant
                self.wf(),
                i <= comments@.len(),
                out@.len() == i,
                forall|i: int|
                    0 <= i < comments@.len() ==> self.response((#[trigger] comments@[i]).comment_id@) is None ==> utf8_len(
                        prefix_below(comments@[i].text@, 20),
                    ) <= 20,
                forall|k: int|
                    0 <= k < i ==> match self.response((#[trigger] comments@[k]).comment_id@) {
                        Some(s) => out@[k] == s,
                        None => out@[k].reply_text matches Some(t) && t@ == mock_reply_text(comments@[k].text@)
                        && out@[k].comment_id@ == comments@[k].comment_id@ && out@[k].tokens_used == Some(100i32)
                        && (out@[k].model matches Some(m) && m@ == self.model_view()),
                    },
            decreases comments@.len() - i,
        {
            let s = self.analyze_comment(&comments[i]);
            out.push(s);
            i = i + 1;
        }
        out
    }

    /// The stand-in is always available.
    pub fn health_check(&self) -> (r: bool)
        ensures
            r,
    {
        true
    }

    /// The model name it reports.
    pub fn model_name(&self) -> (r: &str)
        ensures
            r@ == self.model_view(),
    {
        self.model.as_str()
    }
}

// ------------------------------------------------------------------
// In-memory repository
// ------------------------------------------------------------------

/// The platform id the in-memory repository files a platform under:
/// TikTok 2, Instagram 4, anything else 0.
pub open spec fn mock_platform_id(platform: Seq<char>) -> i32 {
    if platform == "tiktok"@ {
        2
    } else if platform == "instagram"@ {
        4
    } else {
        0
    }
}

/// A stored content has the key (`platform_id`, `content_id`).
pub open spec fn content_has_key(c: StoredContent, platform_id: i32, content_id: Seq<char>) -> bool {
    c.platform_id == platform_id && c.content_id@ == content_id
}

/// Some stored content has the key.
pub open spec fn has_content(s: Seq<StoredContent>, platform_id: i32, content_id: Seq<char>) -> bool {
    exists|i: int| 0 <= i < s.len() && content_has_key(#[trigger] s[i], platform_id, content_id)
}

/// The stored content of a first save: row `id`, the content's fields, and
/// its engagement.
pub open spec fn new_stored_content(
    id: i32,
    platform_id: i32,
    content: Content,
    campaign_id: Option<i32>,
) -> StoredContent {
    StoredContent {
        id,
        platform_id,
        content_id: content.content_id,
        author_unique_id: Some(content.author),
        author_nickname: content.author_name,
        description: Some(content.description),
        content_url: content.url,
        likes: Some(content.engagement.likes),
        comments: Some(content.engagement.comments),
        shares: Some(content.engagement.shares),
        views: Some(content.engagement.views),
        content_created_at: content.created_at,
        raw_data: content.raw_data,
        campaign_id,
    }
}

/// A stored content after a later save of `content`: its description,
/// author name, campaign and engagement are replaced, the rest kept.
pub open spec fn resaved_content(old: StoredContent, content: Content, campaign_id: Option<i32>) -> StoredContent {
    StoredContent {
        description: Some(content.description),
        author_nickname: content.author_name,
        campaign_id,
        likes: Some(content.engagement.likes),
        comments: Some(content.engagement.comments),
        shares: Some(content.engagement.shares),
        views: Some(content.engagement.views),
        ..old
    }
}

/// The stored contents and the result after saving `content` into `s`: a
/// content whose key is stored updates that row; any other is appended as
/// the next row.
pub open spec fn save_content_step(
    s: Seq<StoredContent>,
    content: Content,
    campaign_id: Option<i32>,
) -> (Seq<StoredContent>, ContentSaveResult) {
    let pid = mock_platform_id(content.platform@);
    if has_content(s, pid, content.content_id@) {
        let i = choose|i: int| 0 <= i < s.len() && content_has_key(#[trigger] s[i], pid, content.content_id@);
        (s.update(i, resaved_content(s[i], content, campaign_id)), ContentSaveResult { id: (i + 1) as i32, is_new: false })
    } else {
        (
            s.push(new_stored_content((s.len() + 1) as i32, pid, content, campaign_id)),
            ContentSaveResult { id: (s.len() + 1) as i32, is_new: true },
        )
    }
}

/// Content rows are numbered from 1 in order, no two share a key, and
/// their ids fit in 32 bits.
pub open spec fn content_rows_wf(s: Seq<StoredContent>) -> bool {
    &&& s.len() <= i32::MAX
    &&& forall|i: int| 0 <= i < s.len() ==> (#[trigger] s[i]).id == i + 1
    &&& forall|i: int, j: int|
        0 <= i < j < s.len() ==> !content_has_key(#[trigger] s[i], s[j].platform_id, (#[trigger] s[j]).content_id@)
}

proof fn lemma_key_unique(s: Seq<StoredContent>, i: int, j: int, platform_id: i32, content_id: Seq<char>)
    requires
        content_rows_wf(s),
        0 <= i < s.len(),
        0 <= j < s.len(),
        content_has_key(s[i], platform_id, content_id),
        content_has_key(s[j], platform_id, content_id),
    ensures
        i == j,
{
    if i < j {
        assert(!content_has_key(s[i], s[j].platform_id, s[j].content_id@));
    } else if j < i {
        assert(!content_has_key(s[j], s[i].platform_id, s[i].content_id@));
    }
}

/// A content saved into well-formed rows is found afterwards under its
/// platform and id, in the row the save reported, with the saved text,
/// author name, campaign and engagement; the save is new exactly when no
/// row had that key, and then adds one row, else none; the rows stay well
/// formed.
pub proof fn lemma_save_then_find(s: Seq<StoredContent>, content: Content, campaign_id: Option<i32>)
    requires
        content_rows_wf(s),
        s.len() < i32::MAX,
    ensures
        ({
            let (t, r) = save_content_step(s, content, campaign_id);
            let pid = mock_platform_id(content.platform@);
            &&& content_rows_wf(t)
            &&& has_content(t, pid, content.content_id@)
            &&& 1 <= r.id <= t.len()
            &&& content_has_key(t[r.id - 1], pid, content.content_id@)
            &&& t[r.id - 1].description == Some(content.description)
            &&& t[r.id - 1].author_nickname == content.author_name
            &&& t[r.id - 1].campaign_id == campaign_id
            &&& t[r.id - 1].likes == Some(content.engagement.likes)
            &&& t[r.id - 1].comments == Some(content.engagement.comments)
            &&& t[r.id - 1].shares == Some(content.engagement.shares)
            &&& t[r.id - 1].views == Some(content.engagement.views)
            &&& r.is_new == !has_content(s, pid, content.content_id@)
            &&& t.len() == s.len() + (if r.is_new { 1int } else { 0int })
        }),
{
    let pid = mock_platform_id(content.platform@);
    let (t, r) = save_content_step(s, content, campaign_id);
    if has_content(s, pid, content.content_id@) {
        let i = choose|i: int| 0 <= i < s.len() && content_has_key(#[trigger] s[i], pid, content.content_id@);
        assert(t[i] == resaved_content(s[i], content, campaign_id));
        assert forall|a: int, b: int| 0 <= a < b < t.len() implies !content_has_key(
            #[trigger] t[a],
            t[b].platform_id,
            (#[trigger] t[b]).content_id@,
        ) by {
            assert(!content_has_key(s[a], s[b].platform_id, s[b].content_id@));
        }
        assert(content_has_key(t[i], pid, content.content_id@));
    } else {
        let n = s.len() as int;
        assert forall|a: int, b: int| 0 <= a < b < t.len() implies !content_has_key(
            #[trigger] t[a],
            t[b].platform_id,
            (#[trigger] t[b]).content_id@,
        ) by {
            if b < n {
                assert(!content_has_key(s[a], s[b].platform_id, s[b].content_id@));
            } else {
                assert(t[a] == s[a]);
                assert(!content_has_key(s[a], pid, content.content_id@));
            }
        }
        assert(content_has_key(t[n], pid, content.content_id@));
    }
}

/// Saving the same content twice reports the same row both times, new at
/// most the first time, and the second save adds no row.
pub proof fn lemma_save_twice(s: Seq<StoredContent>, content: Content, campaign_id: Option<i32>)
    requires
        content_rows_wf(s),
        s.len() + 1 < i32::MAX,
    ensures
        ({
            let (t1, r1) = save_content_step(s, content, campaign_id);
            let (t2, r2) = save_content_step(t1, content, campaign_id);
            &&& r2.id == r1.id
            &&& !r2.is_new
            &&& t2.len() == t1.len()
        }),
{
    let pid = mock_platform_id(content.platform@);
    lemma_save_then_find(s, content, campaign_id);
    let (t1, r1) = save_content_step(s, content, campaign_id);
    lemma_save_then_find(t1, content, campaign_id);
    let j = choose|j: int| 0 <= j < t1.len() && content_has_key(#[trigger] t1[j], pid, content.content_id@);
    lemma_key_unique(t1, j, r1.id - 1, pid, content.content_id@);
}

/// An analysis saved for a comment row that had none is the one found for
/// that comment afterwards, and the comment no longer awaits analysis for
/// any campaign.
pub proof fn lemma_analysis_found(
    analyses: Seq<StoredAnalysis>,
    comments: Seq<StoredComment>,
    contents: Seq<StoredContent>,
    comment_id: i32,
    campaign_id: i32,
    suggestion: ReplySuggestion,
    any_campaign: i32,
)
    requires
        forall|k: int| 0 <= k < analyses.len() ==> (#[trigger] analyses[k]).comment_id != comment_id,
        1 <= comment_id <= comments.len(),
    ensures
        ({
            let a = analyses.push(new_stored_analysis((analyses.len() + 1) as i32, comment_id, campaign_id, suggestion));
            let c = with_comment_status(comments, comment_id, CommentStatus::Completed);
            &&& first_analysis_at(a, comment_id, analyses.len() as int)
            &&& a[analyses.len() as int].suggested_reply == suggestion.reply_text
            &&& a[analyses.len() as int].suggested_dm == suggestion.dm_text
            &&& a[analyses.len() as int].suggested_reply_post == suggestion.post_reply_text
            &&& c[comment_id - 1].status == comment_status_code(CommentStatus::Completed)
            &&& !pending_for(contents, any_campaign)(c[comment_id - 1])
        }),
{
    let a = analyses.push(new_stored_analysis((analyses.len() + 1) as i32, comment_id, campaign_id, suggestion));
    assert forall|k: int| 0 <= k < analyses.len() implies (#[trigger] a[k]).comment_id != comment_id by {
        assert(a[k] == analyses[k]);
    }
}

/// The stored contents and the results after saving `cs` in order.
pub open spec fn save_contents_steps(
    s: Seq<StoredContent>,
    cs: Seq<Content>,
    campaign_id: Option<i32>,
) -> (Seq<StoredContent>, Seq<ContentSaveResult>)
    decreases cs.len(),
{
    if cs.len() == 0 {
        (s, seq![])
    } else {
        let prev = save_contents_steps(s, cs.drop_last(), campaign_id);
        let step = save_content_step(prev.0, cs.last(), campaign_id);
        (step.0, prev.1.push(step.1))
    }
}

/// A stored content with new engagement counts.
pub open spec fn with_engagement(c: StoredContent, likes: i64, comments: i64, shares: i64, views: i64) -> StoredContent {
    StoredContent { likes: Some(likes), comments: Some(comments), shares: Some(shares), views: Some(views), ..c }
}

/// A stored comment has the key (`platform_id`, `comment_id`).
pub open spec fn comment_has_key(c: StoredComment, platform_id: i32, comment_id: Seq<char>) -> bool {
    c.platform_id == platform_id && c.comment_id@ == comment_id
}

/// Some stored comment has the key.
pub open spec fn has_comment(s: Seq<StoredComment>, platform_id: i32, comment_id: Seq<char>) -> bool {
    exists|i: int| 0 <= i < s.len() && comment_has_key(#[trigger] s[i], platform_id, comment_id)
}

/// Row `i` is the earliest stored comment with the key.
pub open spec fn first_comment_at(s: Seq<StoredComment>, platform_id: i32, comment_id: Seq<char>, i: int) -> bool {
    &&& 0 <= i < s.len()
    &&& comment_has_key(s[i], platform_id, comment_id)
    &&& forall|k: int| 0 <= k < i ==> !comment_has_key(#[trigger] s[k], platform_id, comment_id)
}

/// The stored comment of a save: row `id`, pending, under the content row
/// `content_db_id`.
pub open spec fn new_stored_comment(id: i32, platform_id: i32, content_db_id: i32, comment: Comment) -> StoredComment {
    StoredComment {
        id,
        platform_id,
        content_id: content_db_id,
        comment_id: comment.comment_id,
        parent_comment_id: comment.parent_id,
        author_uid: comment.author_uid,
        author_unique_id: Some(comment.author),
        author_nickname: comment.author_name,
        comment_text: Some(comment.text),
        likes: Some(comment.likes),
        reply_count: Some(comment.reply_count),
        comment_created_at: comment.created_at,
        is_reply: comment.is_reply,
        raw_data: comment.raw_data,
        status: comment_status_code(CommentStatus::Pending),
    }
}

/// The comments after saving `cs` in order under the content row
/// `content_db_id`: each one a new row.
pub open spec fn saved_comments(s: Seq<StoredComment>, cs: Seq<Comment>, content_db_id: i32) -> Seq<StoredComment>
    decreases cs.len(),
{
    if cs.len() == 0 {
        s
    } else {
        let prev = saved_comments(s, cs.drop_last(), content_db_id);
        prev.push(new_stored_comment((prev.len() + 1) as i32, mock_platform_id(cs.last().platform@), content_db_id, cs.last()))
    }
}

/// The comments after row `id` took the status `status` (none changes when
/// there is no such row).
pub open spec fn with_comment_status(s: Seq<StoredComment>, id: i32, status: CommentStatus) -> Seq<StoredComment> {
    if 1 <= id <= s.len() {
        s.update(id - 1, StoredComment { status: comment_status_code(status), ..s[id - 1] })
    } else {
        s
    }
}

/// A comment awaits analysis for a campaign: it is pending, and the content
/// row it belongs to is filed under the campaign.
pub open spec fn pending_for(contents: Seq<StoredContent>, campaign_id: i32) -> spec_fn(StoredComment) -> bool {
    |c: StoredComment|
        c.status == comment_status_code(CommentStatus::Pending) && 1 <= c.content_id <= contents.len()
            && contents[c.content_id - 1].campaign_id == Some(campaign_id)
}

/// The analysis stored for a suggestion: row `id`, for the comment row
/// `comment_id`.
pub open spec fn new_stored_analysis(id: i32, comment_id: i32, campaign_id: i32, s: ReplySuggestion) -> StoredAnalysis {
    StoredAnalysis {
        id,
        comment_id,
        campaign_id,
        suggested_reply: s.reply_text,
        suggested_dm: s.dm_text,
        suggested_reply_post: s.post_reply_text,
        reason: s.reason,
        tokens_used: s.tokens_used,
        model_name: s.model,
    }
}

/// Row `i` is the earliest analysis of the comment row `comment_id`.
pub open spec fn first_analysis_at(s: Seq<StoredAnalysis>, comment_id: i32, i: int) -> bool {
    &&& 0 <= i < s.len()
    &&& s[i].comment_id == comment_id
    &&& forall|k: int| 0 <= k < i ==> (#[trigger] s[k]).comment_id != comment_id
}

/// Whether work under a task stops: it is unknown or has ended, or its
/// campaign stops (an unknown campaign stops).
pub open spec fn task_stops(t: Option<TaskInfo>, campaign: spec_fn(i32) -> Option<CampaignConfig>) -> bool {
    match t {
        Some(task) => task_ended(task) || match campaign(task.campaign_id) {
            Some(c) => campaign_stops(c),
            None => true,
        },
        None => true,
    }
}

/// An equal copy of a stored content.
pub fn copy_content(c: &StoredContent) -> (r: StoredContent)
    ensures
        r == *c,
{
    StoredContent {
        id: c.id,
        platform_id: c.platform_id,
        content_id: c.content_id.clone(),
        author_unique_id: copy_text(&c.author_unique_id),
        author_nickname: copy_text(&c.author_nickname),
        description: copy_text(&c.description),
        content_url: copy_text(&c.content_url),
        likes: c.likes,
        comments: c.comments,
        shares: c.shares,
        views: c.views,
        content_created_at: c.content_created_at,
        raw_data: copy_json(&c.raw_data),
        campaign_id: c.campaign_id,
    }
}

/// An equal copy of a stored comment.
pub fn copy_comment(c: &StoredComment) -> (r: StoredComment)
    ensures
        r == *c,
{
    StoredComment {
        id: c.id,
        platform_id: c.platform_id,
        content_id: c.content_id,
        comment_id: c.comment_id.clone(),
        parent_comment_id: copy_text(&c.parent_comment_id),
        author_uid: copy_text(&c.author_uid),
        author_unique_id: copy_text(&c.author_unique_id),
        author_nickname: copy_text(&c.author_nickname),
        comment_text: copy_text(&c.comment_text),
        likes: c.likes,
        reply_count: c.reply_count,
        comment_created_at: c.comment_created_at,
        is_reply: c.is_reply,
        raw_data: copy_json(&c.raw_data),
        status: c.status,
    }
}

/// An equal copy of a stored analysis.
pub fn copy_analysis(a: &StoredAnalysis) -> (r: StoredAnalysis)
    ensures
        r == *a,
{
    StoredAnalysis {
        id: a.id,
        comment_id: a.comment_id,
        campaign_id: a.campaign_id,
        suggested_reply: copy_text(&a.suggested_reply),
        suggested_dm: copy_text(&a.suggested_dm),
        suggested_reply_post: copy_text(&a.suggested_reply_post),
        reason: copy_text(&a.reason),
        tokens_used: a.tokens_used,
        model_name: copy_text(&a.model_name),
    }
}

/// An equal copy of a task.
pub fn copy_task(t: &TaskInfo) -> (r: TaskInfo)
    ensures
        r == *t,
{
    TaskInfo {
        id: t.id,
        campaign_id: t.campaign_id,
        platform_id: t.platform_id,
        keywords: copy_json(&t.keywords),
        status: t.status,
        progress: t.progress,
        error_message: copy_text(&t.error_message),
    }
}

fn copy_text(o: &Option<String>) -> (r: Option<String>)
    ensures
        r == *o,
{
    match o {
        Some(s) => Some(s.clone()),
        None => None,
    }
}

fn platform_id_for(platform: &str) -> (r: i32)
    ensures
        r == mock_platform_id(platform@),
{
    if str_eq(platform, "tiktok") {
        2
    } else if str_eq(platform, "instagram") {
        4
    } else {
        0
    }
}

/// An in-memory repository: contents, comments, analyses, campaigns and
/// tasks, held in the order they were added; the row id of a content,
/// comment or analysis is its position plus one.
pub struct InMemoryRepository {
    contents: Vec<StoredContent>,
    comments: Vec<StoredComment>,
    analyses: Vec<StoredAnalysis>,
    campaigns: HashMap<i32, CampaignConfig>,
    tasks: HashMap<i64, TaskInfo>,
}

impl InMemoryRepository {
    /// The stored contents, in row order.
    pub closed spec fn stored_contents(&self) -> Seq<StoredContent> {
        self.contents@
    }

    /// The stored comments, in row order.
    pub closed spec fn stored_comments(&self) -> Seq<StoredComment> {
        self.comments@
    }

    /// The stored analyses, in row order.
    pub closed spec fn stored_analyses(&self) -> Seq<StoredAnalysis> {
        self.analyses@
    }

    /// The campaign with id `id`.
    pub closed spec fn campaign(&self, id: i32) -> Option<CampaignConfig> {
        if self.campaigns@.contains_key(id) {
            Some(self.campaigns@[id])
        } else {
            None
        }
    }

    /// The task with id `id`.
    pub closed spec fn task(&self, id: i64) -> Option<TaskInfo> {
        if self.tasks@.contains_key(id) {
            Some(self.tasks@[id])
        } else {
            None
        }
    }

    /// Some task of the campaign has not ended.
    pub open spec fn has_running_task(&self, campaign_id: i32) -> bool {
        exists|id: i64| #[trigger] self.task(id) matches Some(t) && t.campaign_id == campaign_id && !task_ended(t)
    }

    /// Whether the stored contents are well formed.
    pub proof fn lemma_contents_wf(&self)
        requires
            self.wf(),
        ensures
            content_rows_wf(self.stored_contents()),
    {
    }

    /// Rows are numbered from 1 in order, content keys are unique, campaign
    /// and task ids are unique, and row ids fit in 32 bits.
    pub closed spec fn wf(&self) -> bool {
        &&& self.comments@.len() <= i32::MAX
        &&& forall|i: int| 0 <= i < self.comments@.len() ==> (#[trigger] self.comments@[i]).id == i + 1
        &&& self.analyses@.len() <= i32::MAX
        &&& forall|i: int| 0 <= i < self.analyses@.len() ==> (#[trigger] self.analyses@[i]).id == i + 1
        &&& forall|id: i32| #[trigger] self.campaigns@.contains_key(id) ==> self.campaigns@[id].id == id
        &&& forall|id: i64| #[trigger] self.tasks@.contains_key(id) ==> self.tasks@[id].id == id
        &&& content_rows_wf(self.contents@)
    }

    /// An empty repository.
    pub fn new() -> (r: InMemoryRepository)
        ensures
            r.wf(),
            r.stored_contents().len() == 0,
            r.stored_comments().len() == 0,
            r.stored_analyses().len() == 0,
            forall|id: i32| r.campaign(id) is None,
            forall|id: i64| r.task(id) is None,
    {
        InMemoryRepository {
            contents: Vec::new(),
            comments: Vec::new(),
            analyses: Vec::new(),
            campaigns: HashMap::new(),
            tasks: HashMap::new(),
        }
    }

    fn find_content(&self, platform_id: i32, content_id: &str) -> (r: Option<usize>)
        ensures
            match r {
                Some(i) => i < self.contents@.len() && content_has_key(self.contents@[i as int], platform_id, content_id@),
                None => !has_content(self.contents@, platform_id, content_id@),
            },
    {
        let mut i: usize = 0;
        while i < self.contents.len()
            invariant
                i <= self.contents@.len(),
                forall|k: int| 0 <= k < i ==> !content_has_key(#[trigger] self.contents@[k], platform_id, content_id@),
            decreases self.contents.len() - i,
        {
            if self.contents[i].platform_id == platform_id && str_eq(self.contents[i].content_id.as_str(), content_id) {
                return Some(i);
            }
            i = i + 1;
        }
        None
    }

    /// Whether a content of `platform` with this id is stored.
    pub fn content_exists(&self, platform: &str, content_id: &str) -> (r: bool)
        ensures
            r == has_content(self.stored_contents(), mock_platform_id(platform@), content_id@),
    {
        self.find_content(platform_id_for(platform), content_id).is_some()
    }

    /// The stored content of `platform` with this id.
    pub fn get_content(&self, platform: &str, content_id: &str) -> (r: Option<StoredContent>)
        requires
            self.wf(),
        ensures
            r is Some <==> has_content(self.stored_contents(), mock_platform_id(platform@), content_id@),
            r matches Some(c) ==> {
                &&& content_has_key(c, mock_platform_id(platform@), content_id@)
                &&& 1 <= c.id <= self.stored_contents().len()
                &&& self.stored_contents()[c.id - 1] == c
            },
    {
        match self.find_content(platform_id_for(platform), content_id) {
            Some(i) => Some(copy_content(&self.contents[i])),
            None => None,
        }
    }

    /// The stored content with row id `id`.
    pub fn get_content_by_id(&self, id: i32) -> (r: Option<StoredContent>)
        requires
            self.wf(),
        ensures
            r == (if 1 <= id <= self.stored_contents().len() {
                Some(self.stored_contents()[id - 1])
            } else {
                None::<StoredContent>
            }),
    {
        if 1 <= id && (id as usize) <= self.contents.len() {
            Some(copy_content(&self.contents[(id - 1) as usize]))
        } else {
            None
        }
    }

    /// Saves a content: a content already stored under its platform and id
    /// has its description, author name, campaign and engagement replaced;
    /// any other is stored as a new row.
    pub fn save_content(&mut self, content: &Content, campaign_id: Option<i32>, _task_id: Option<i32>) -> (r: ContentSaveResult)
        requires
            old(self).wf(),
            old(self).stored_contents().len() < i32::MAX,
        ensures
            final(self).wf(),
            (final(self).stored_contents(), r) == save_content_step(old(self).stored_contents(), *content, campaign_id),
            final(self).stored_comments() == old(self).stored_comments(),
            final(self).stored_analyses() == old(self).stored_analyses(),
    {
        let pid = platform_id_for(content.platform.as_str());
        match self.find_content(pid, content.content_id.as_str()) {
            Some(i) => {
                let ghost s = self.contents@;
                proof {
                    let j = choose|j: int| 0 <= j < s.len() && content_has_key(#[trigger] s[j], pid, content.content_id@);
                    if j != i {
                        if j < i {
                            assert(content_has_key(s[i as int], s[j].platform_id, s[j].content_id@) == false);
                        } else {
                            assert(content_has_key(s[i as int], s[j].platform_id, s[j].content_id@) == false);
                        }
                    }
                }
                let mut stored = copy_content(&self.contents[i]);
                stored.description = Some(content.description.clone());
                stored.author_nickname = copy_text(&content.author_name);
                stored.campaign_id = campaign_id;
                stored.likes = Some(content.engagement.likes);
                stored.comments = Some(content.engagement.comments);
                stored.shares = Some(content.engagement.shares);
                stored.views = Some(content.engagement.views);
                self.contents.set(i, stored);
                proof {
                    assert forall|a: int, b: int| 0 <= a < b < self.contents@.len() implies !content_has_key(
                        #[trigger] self.contents@[a],
                        self.contents@[b].platform_id,
                        (#[trigger] self.contents@[b]).content_id@,
                    ) by {
                        assert(!content_has_key(s[a], s[b].platform_id, s[b].content_id@));
                    }
                }
                ContentSaveResult { id: (i + 1) as i32, is_new: false }
            },
            None => {
                let id = (self.contents.len() + 1) as i32;
                let stored = StoredContent {
                    id,
                    platform_id: pid,
                    content_id: content.content_id.clone(),
                    author_unique_id: Some(content.author.clone()),
                    author_nickname: copy_text(&content.author_name),
                    description: Some(content.description.clone()),
                    content_url: copy_text(&content.url),
                    likes: Some(content.engagement.likes),
                    comments: Some(content.engagement.comments),
                    shares: Some(content.engagement.shares),
                    views: Some(content.engagement.views),
                    content_created_at: content.created_at,
                    raw_data: copy_json(&content.raw_data),
                    campaign_id,
                };
                let ghost s = self.contents@;
                self.contents.push(stored);
                proof {
                    assert forall|a: int, b: int| 0 <= a < b < self.contents@.len() implies !content_has_key(
                        #[trigger] self.contents@[a],
                        self.contents@[b].platform_id,
                        (#[trigger] self.contents@[b]).content_id@,
                    ) by {
                        if b < s.len() {
                            assert(!content_has_key(s[a], s[b].platform_id, s[b].content_id@));
                        } else {
                            assert(self.contents@[a] == s[a]);
                            assert(!content_has_key(s[a], pid, content.content_id@));
                        }
                    }
                }
                ContentSaveResult { id, is_new: true }
            },
        }
    }

    /// Saves contents in order (see `save_content`).
    pub fn save_contents(&mut self, contents: &Vec<Content>, campaign_id: Option<i32>, task_id: Option<i32>) -> (r: Vec<ContentSaveResult>)
        requires
            old(self).wf(),
            old(self).stored_contents().len() + contents@.len() <= i32::MAX,
        ensures
            final(self).wf(),
            (final(self).stored_contents(), r@) == save_contents_steps(old(self).stored_contents(), contents@, campaign_id),
            final(self).stored_comments() == old(self).stored_comments(),
            final(self).stored_analyses() == old(self).stored_analyses(),
    {
        let ghost s0 = self.contents@;
        let ghost cs = contents@;
        let mut results: Vec<ContentSaveResult> = Vec::new();
        let mut i: usize = 0;
        while i < contents.len()
            invariant
                self.wf(),
                i <= cs.len(),
                cs == contents@,
                (self.stored_contents(), results@) == save_contents_steps(s0, cs.take(i as int), campaign_id),
                self.stored_contents().len() <= s0.len() + i,
                s0.len() + cs.len() <= i32::MAX,
                self.stored_comments() == old(self).stored_comments(),
                self.stored_analyses() == old(self).stored_analyses(),
            decreases cs.len() - i,
        {
            proof {
                assert(cs.take(i + 1).drop_last() =~= cs.take(i as int));
                assert(cs.take(i + 1).last() == cs[i as int]);
            }
            let r = self.save_content(&contents[i], campaign_id, task_id);
            results.push(r);
            i = i + 1;
        }
        proof {
            assert(cs.take(cs.len() as int) =~= cs);
        }
        results
    }

    /// Replaces the engagement counts of the content row `id`; nothing
    /// changes when there is no such row.
    pub fn update_content_engagement(&mut self, id: i32, likes: i64, comments: i64, shares: i64, views: i64)
        requires
            old(self).wf(),
        ensures
            final(self).wf(),
            final(self).stored_contents() == (if 1 <= id <= old(self).stored_contents().len() {
                old(self).stored_contents().update(
                    id - 1,
                    with_engagement(old(self).stored_contents()[id - 1], likes, comments, shares, views),
                )
            } else {
                old(self).stored_contents()
            }),
            final(self).stored_comments() == old(self).stored_comments(),
            final(self).stored_analyses() == old(self).stored_analyses(),
    {
        if 1 <= id && (id as usize) <= self.contents.len() {
            let k = (id - 1) as usize;
            let ghost s = self.contents@;
            let mut c = copy_content(&self.contents[k]);
            c.likes = Some(likes);
            c.comments = Some(comments);
            c.shares = Some(shares);
            c.views = Some(views);
            self.contents.set(k, c);
            proof {
                assert forall|a: int, b: int| 0 <= a < b < self.contents@.len() implies !content_has_key(
                    #[trigger] self.contents@[a],
                    self.contents@[b].platform_id,
                    (#[trigger] self.contents@[b]).content_id@,
                ) by {
                    assert(!content_has_key(s[a], s[b].platform_id, s[b].content_id@));
                }
            }
        }
    }

    fn find_comment(&self, platform_id: i32, comment_id: &str) -> (r: Option<usize>)
        ensures
            match r {
                Some(i) => first_comment_at(self.comments@, platform_id, comment_id@, i as int),
                None => !has_comment(self.comments@, platform_id, comment_id@),
            },
    {
        let mut i: usize = 0;
        while i < self.comments.len()
            invariant
                i <= self.comments@.len(),
                forall|k: int| 0 <= k < i ==> !comment_has_key(#[trigger] self.comments@[k], platform_id, comment_id@),
            decreases self.comments.len() - i,
        {
            if self.comments[i].platform_id == platform_id && str_eq(self.comments[i].comment_id.as_str(), comment_id) {
                return Some(i);
            }
            i = i + 1;
        }
        None
    }

    /// Whether a comment of `platform` with this id is stored.
    pub fn comment_exists(&self, platform: &str, comment_id: &str) -> (r: bool)
        ensures
            r == has_comment(self.stored_comments(), mock_platform_id(platform@), comment_id@),
    {
        self.find_comment(platform_id_for(platform), comment_id).is_some()
    }

    /// The earliest stored comment of `platform` with this id.
    pub fn get_comment(&self, platform: &str, comment_id: &str) -> (r: Option<StoredComment>)
        ensures
            r is Some <==> has_comment(self.stored_comments(), mock_platform_id(platform@), comment_id@),
            r matches Some(c) ==> exists|i: int|
                first_comment_at(self.stored_comments(), mock_platform_id(platform@), comment_id@, i)
                    && self.stored_comments()[i] == c,
    {
        match self.find_comment(platform_id_for(platform), comment_id) {
            Some(i) => {
                let c = copy_comment(&self.comments[i]);
                assert(first_comment_at(self.stored_comments(), mock_platform_id(platform@), comment_id@, i as int)
                    && self.stored_comments()[i as int] == c);
                Some(c)
            },
            None => None,
        }
    }

    /// The stored comment with row id `id`.
    pub fn get_comment_by_id(&self, id: i32) -> (r: Option<StoredComment>)
        ensures
            r == (if 1 <= id <= self.stored_comments().len() {
                Some(self.stored_comments()[id - 1])
            } else {
                None::<StoredComment>
            }),
    {
        if 1 <= id && (id as usize) <= self.comments.len() {
            Some(copy_comment(&self.comments[(id - 1) as usize]))
        } else {
            None
        }
    }

    fn push_comment(&mut self, comment: &Comment, content_db_id: i32) -> (r: i32)
        requires
            old(self).wf(),
            old(self).comments@.len() < i32::MAX,
        ensures
            final(self).wf(),
            r == old(self).comments@.len() + 1,
            final(self).comments@ == old(self).comments@.push(
                new_stored_comment(r, mock_platform_id(comment.platform@), content_db_id, *comment),
            ),
            final(self).contents@ == old(self).contents@,
            final(self).analyses@ == old(self).analyses@,
    {
        let id = (self.comments.len() + 1) as i32;
        let stored = StoredComment {
            id,
            platform_id: platform_id_for(comment.platform.as_str()),
            content_id: content_db_id,
            comment_id: comment.comment_id.clone(),
            parent_comment_id: copy_text(&comment.parent_id),
            author_uid: copy_text(&comment.author_uid),
            author_unique_id: Some(comment.author.clone()),
            author_nickname: copy_text(&comment.author_name),
            comment_text: Some(comment.text.clone()),
            likes: Some(comment.likes),
            reply_count: Some(comment.reply_count),
            comment_created_at: comment.created_at,
            is_reply: comment.is_reply,
            raw_data: copy_json(&comment.raw_data),
            status: CommentStatus::Pending.code(),
        };
        self.comments.push(stored);
        id
    }

    /// Saves a comment under the content row `content_db_id` as a new,
    /// pending row, and gives its row id.
    pub fn save_comment(&mut self, comment: &Comment, content_db_id: i32) -> (r: i32)
        requires
            old(self).wf(),
            old(self).stored_comments().len() < i32::MAX,
        ensures
            final(self).wf(),
            r == old(self).stored_comments().len() + 1,
            final(self).stored_comments() == saved_comments(old(self).stored_comments(), seq![*comment], content_db_id),
            final(self).stored_contents() == old(self).stored_contents(),
            final(self).stored_analyses() == old(self).stored_analyses(),
    {
        let ghost s = self.comments@;
        let id = self.push_comment(comment, content_db_id);
        proof {
            let one = seq![*comment];
            assert(one.drop_last() =~= Seq::<Comment>::empty());
            assert(saved_comments(s, one.drop_last(), content_db_id) == s);
            assert(one.last() == *comment);
        }
        id
    }

    /// Saves comments in order under the content row `content_db_id`, and
    /// gives their row ids.
    pub fn save_comments(&mut self, comments: &Vec<Comment>, content_db_id: i32) -> (r: Vec<i32>)
        requires
            old(self).wf(),
            old(self).stored_comments().len() + comments@.len() <= i32::MAX,
        ensures
            final(self).wf(),
            r@.len() == comments@.len(),
            forall|i: int| 0 <= i < r@.len() ==> #[trigger] r@[i] == old(self).stored_comments().len() + 1 + i,
            final(self).stored_comments() == saved_comments(old(self).stored_comments(), comments@, content_db_id),
            final(self).stored_contents() == old(self).stored_contents(),
            final(self).stored_analyses() == old(self).stored_analyses(),
    {
        let ghost s0 = self.comments@;
        let ghost cs = comments@;
        let mut ids: Vec<i32> = Vec::new();
        let mut i: usize = 0;
        while i < comments.len()
            invariant
                self.wf(),
                i <= cs.len(),
                cs == comments@,
                self.comments@ == saved_comments(s0, cs.take(i as int), content_db_id),
                self.comments@.len() == s0.len() + i,
                s0.len() + cs.len() <= i32::MAX,
                ids@.len() == i,
                forall|k: int| 0 <= k < i ==> #[trigger] ids@[k] == s0.len() + 1 + k,
                self.contents@ == old(self).contents@,
                self.analyses@ == old(self).analyses@,
            decreases cs.len() - i,
        {
            proof {
                assert(cs.take(i + 1).drop_last() =~= cs.take(i as int));
                assert(cs.take(i + 1).last() == cs[i as int]);
            }
            let id = self.push_comment(&comments[i], content_db_id);
            ids.push(id);
            i = i + 1;
        }
        proof {
            assert(cs.take(cs.len() as int) =~= cs);
        }
        ids
    }

    /// Sets the status of the comment row `id`; nothing changes when there
    /// is no such row.
    pub fn update_comment_status(&mut self, id: i32, status: CommentStatus)
        requires
            old(self).wf(),
        ensures
            final(self).wf(),
            final(self).stored_comments() == with_comment_status(old(self).stored_comments(), id, status),
            final(self).stored_contents() == old(self).stored_contents(),
            final(self).stored_analyses() == old(self).stored_analyses(),
    {
        if 1 <= id && (id as usize) <= self.comments.len() {
            let k = (id - 1) as usize;
            let mut c = copy_comment(&self.comments[k]);
            c.status = status.code();
            self.comments.set(k, c);
        }
    }

    /// The first `limit` comments (all when `limit` is negative), in row
    /// order, that await analysis for the campaign.
    pub fn get_pending_comments(&self, campaign_id: i32, limit: i32) -> (r: Vec<StoredComment>)
        requires
            self.wf(),
        ensures
            r@ == first_n(
                self.stored_comments().filter(pending_for(self.stored_contents(), campaign_id)),
                if limit < 0 {
                    self.stored_comments().len() as int
                } else {
                    limit as int
                },
            ),
    {
        let ghost p = pending_for(self.contents@, campaign_id);
        let ghost t = self.comments@;
        let cap: usize = if limit < 0 {
            self.comments.len()
        } else {
            limit as usize
        };
        let mut out: Vec<StoredComment> = Vec::new();
        let mut i: usize = 0;
        while i < self.comments.len()
            invariant
                i <= t.len(),
                t == self.comments@,
                p == pending_for(self.contents@, campaign_id),
                cap == (if limit < 0 { t.len() as int } else { limit as int }),
                out@ == first_n(t.take(i as int).filter(p), cap as int),
            decreases t.len() - i,
        {
            proof {
                reveal(Seq::filter);
                assert(t.take(i + 1).drop_last() =~= t.take(i as int));
                assert(t.take(i + 1).last() == t[i as int]);
                t.take(i as int).lemma_filter_len(p);
            }
            let c = &self.comments[i];
            let pending = c.status == CommentStatus::Pending.code() && 1 <= c.content_id
                && (c.content_id as usize) <= self.contents.len()
                && self.contents[(c.content_id - 1) as usize].campaign_id == Some(campaign_id);
            if pending {
                if out.len() < cap {
                    out.push(copy_comment(c));
                }
                proof {
                    assert(first_n(t.take(i + 1).filter(p), cap as int) =~= first_n(t.take(i as int).filter(p).push(t[i as int]), cap as int));
                }
            }
            i = i + 1;
        }
        proof {
            assert(t.take(t.len() as int) =~= t);
        }
        out
    }

    /// Stores the analysis of the comment row `comment_id` as a new row and
    /// marks that comment completed; gives the analysis's row id.
    pub fn save_analysis(&mut self, comment_id: i32, campaign_id: i32, suggestion: &ReplySuggestion) -> (r: i32)
        requires
            old(self).wf(),
            old(self).stored_analyses().len() < i32::MAX,
        ensures
            final(self).wf(),
            r == old(self).stored_analyses().len() + 1,
            final(self).stored_analyses() == old(self).stored_analyses().push(
                new_stored_analysis(r, comment_id, campaign_id, *suggestion),
            ),
            final(self).stored_comments() == with_comment_status(
                old(self).stored_comments(),
                comment_id,
                CommentStatus::Completed,
            ),
            final(self).stored_contents() == old(self).stored_contents(),
    {
        let id = (self.analyses.len() + 1) as i32;
        let stored = StoredAnalysis {
            id,
            comment_id,
            campaign_id,
            suggested_reply: copy_text(&suggestion.reply_text),
            suggested_dm: copy_text(&suggestion.dm_text),
            suggested_reply_post: copy_text(&suggestion.post_reply_text),
            reason: copy_text(&suggestion.reason),
            tokens_used: suggestion.tokens_used,
            model_name: copy_text(&suggestion.model),
        };
        self.analyses.push(stored);
        self.update_comment_status(comment_id, CommentStatus::Completed);
        id
    }

    /// Saves a comment with its analysis: a comment already stored under its
    /// platform and id gets the analysis; any other is stored as a new row
    /// first.  Gives the comment's row id.
    pub fn save_comment_with_analysis(
        &mut self,
        comment: &Comment,
        content_db_id: i32,
        campaign_id: i32,
        suggestion: &ReplySuggestion,
    ) -> (r: i32)
        requires
            old(self).wf(),
            old(self).stored_comments().len() < i32::MAX,
            old(self).stored_analyses().len() < i32::MAX,
        ensures
            final(self).wf(),
            ({
                let old_comments = old(self).stored_comments();
                let pid = mock_platform_id(comment.platform@);
                if has_comment(old_comments, pid, comment.comment_id@) {
                    &&& first_comment_at(old_comments, pid, comment.comment_id@, r - 1)
                    &&& final(self).stored_comments() == with_comment_status(old_comments, r, CommentStatus::Completed)
                } else {
                    let added = saved_comments(old_comments, seq![*comment], content_db_id);
                    &&& r == old_comments.len() + 1
                    &&& final(self).stored_comments() == with_comment_status(added, r, CommentStatus::Completed)
                }
            }),
            final(self).stored_analyses() == old(self).stored_analyses().push(
                new_stored_analysis(
                    (old(self).stored_analyses().len() + 1) as i32,
                    r,
                    campaign_id,
                    *suggestion,
                ),
            ),
            final(self).stored_contents() == old(self).stored_contents(),
    {
        let pid = platform_id_for(comment.platform.as_str());
        match self.find_comment(pid, comment.comment_id.as_str()) {
            Some(i) => {
                let id = self.comments[i].id;
                assert(id == i + 1);
                self.save_analysis(id, campaign_id, suggestion);
                id
            },
            None => {
                let ghost s = self.comments@;
                let id = self.push_comment(comment, content_db_id);
                proof {
                    let one = seq![*comment];
                    assert(one.drop_last() =~= Seq::<Comment>::empty());
                    assert(saved_comments(s, one.drop_last(), content_db_id) == s);
                    assert(one.last() == *comment);
                }
                self.save_analysis(id, campaign_id, suggestion);
                id
            },
        }
    }

    /// The earliest analysis stored for the comment row `comment_id`.
    pub fn get_analysis(&self, comment_id: i32) -> (r: Option<StoredAnalysis>)
        ensures
            r is Some <==> exists|i: int| 0 <= i < self.stored_analyses().len() && (#[trigger] self.stored_analyses()[i]).comment_id == comment_id,
            r matches Some(a) ==> exists|i: int| first_analysis_at(self.stored_analyses(), comment_id, i) && self.stored_analyses()[i] == a,
    {
        let mut i: usize = 0;
        while i < self.analyses.len()
            invariant
                i <= self.analyses@.len(),
                forall|k: int| 0 <= k < i ==> (#[trigger] self.analyses@[k]).comment_id != comment_id,
            decreases self.analyses.len() - i,
        {
            if self.analyses[i].comment_id == comment_id {
                let a = copy_analysis(&self.analyses[i]);
                assert(first_analysis_at(self.stored_analyses(), comment_id, i as int) && self.stored_analyses()[i as int] == a);
                return Some(a);
            }
            i = i + 1;
        }
        None
    }

    fn campaign_copy(&self, id: i32) -> (r: Option<CampaignConfig>)
        requires
            self.wf(),
        ensures
            r == self.campaign(id),
            r matches Some(c) ==> c.id == id,
    {
        match self.campaigns.get(&id) {
            Some(c) => Some(c.duplicate()),
            None => None,
        }
    }

    /// Files a campaign under its id, replacing any campaign with that id.
    pub fn add_campaign(&mut self, campaign: CampaignConfig)
        requires
            old(self).wf(),
        ensures
            final(self).wf(),
            forall|id: i32| #[trigger] final(self).campaign(id) == (if id == campaign.id {
                Some(campaign)
            } else {
                old(self).campaign(id)
            }),
            forall|id: i64| #[trigger] final(self).task(id) == old(self).task(id),
            final(self).stored_contents() == old(self).stored_contents(),
            final(self).stored_comments() == old(self).stored_comments(),
            final(self).stored_analyses() == old(self).stored_analyses(),
    {
        let id = campaign.id;
        let _ = self.campaigns.insert(id, campaign);
    }

    /// Files a task under its id, replacing any task with that id.
    pub fn add_task(&mut self, task: TaskInfo)
        requires
            old(self).wf(),
        ensures
            final(self).wf(),
            forall|id: i64| #[trigger] final(self).task(id) == (if id == task.id {
                Some(task)
            } else {
                old(self).task(id)
            }),
            forall|id: i32| #[trigger] final(self).campaign(id) == old(self).campaign(id),
            final(self).stored_contents() == old(self).stored_contents(),
            final(self).stored_comments() == old(self).stored_comments(),
            final(self).stored_analyses() == old(self).stored_analyses(),
    {
        let id = task.id;
        let _ = self.tasks.insert(id, task);
    }

    /// The campaign with this id.
    pub fn get_campaign(&self, campaign_id: i32) -> (r: Option<CampaignConfig>)
        requires
            self.wf(),
        ensures
            r == self.campaign(campaign_id),
    {
        match self.campaigns.get(&campaign_id) {
            Some(c) => Some(c.duplicate()),
            None => None,
        }
    }

    /// The prompt settings of the campaign with this id.
    pub fn get_analysis_context(&self, campaign_id: i32) -> (r: Option<AnalysisContext>)
        requires
            self.wf(),
        ensures
            r is Some <==> self.campaign(campaign_id) is Some,
            r matches Some(a) ==> ({
                let c = self.campaign(campaign_id)->0;
                &&& a.product_prompt == c.product_prompt
                &&& a.target_audience == c.target_audience
                &&& a.reply_strategy == c.reply_strategy
                &&& a.dm_strategy == c.dm_strategy
                &&& a.reply_post_strategy == c.reply_post_strategy
            }),
    {
        match self.campaigns.get(&campaign_id) {
            Some(c) => Some(c.to_analysis_context()),
            None => None,
        }
    }

    /// Whether work on the campaign stops: it is unknown, not active, or at
    /// its limit.
    pub fn should_stop_campaign(&self, campaign_id: i32) -> (r: bool)
        requires
            self.wf(),
        ensures
            r == match self.campaign(campaign_id) {
                Some(c) => campaign_stops(c),
                None => true,
            },
    {
        match self.campaigns.get(&campaign_id) {
            Some(c) => !c.status.should_continue() || c.is_at_limit(),
            None => true,
        }
    }

    fn set_processed(&mut self, c: CampaignConfig, count: i32)
        requires
            old(self).wf(),
            old(self).campaign(c.id) == Some(c),
        ensures
            final(self).wf(),
            forall|id: i32| #[trigger] final(self).campaign(id) == (if id == c.id {
                Some(CampaignConfig { processed_comments: count, ..c })
            } else {
                old(self).campaign(id)
            }),
            forall|id: i64| #[trigger] final(self).task(id) == old(self).task(id),
            final(self).stored_contents() == old(self).stored_contents(),
            final(self).stored_comments() == old(self).stored_comments(),
            final(self).stored_analyses() == old(self).stored_analyses(),
    {
        let mut c = c;
        c.processed_comments = count;
        let id = c.id;
        let _ = self.campaigns.insert(id, c);
    }

    /// Sets the processed-comment count of the campaign; nothing changes
    /// when there is no such campaign.
    pub fn update_processed_count(&mut self, campaign_id: i32, count: i32)
        requires
            old(self).wf(),
        ensures
            final(self).wf(),
            forall|id: i32| #[trigger] final(self).campaign(id) == (if id == campaign_id {
                match old(self).campaign(campaign_id) {
                    Some(c) => Some(CampaignConfig { processed_comments: count, ..c }),
                    None => None,
                }
            } else {
                old(self).campaign(id)
            }),
            forall|id: i64| #[trigger] final(self).task(id) == old(self).task(id),
            final(self).stored_contents() == old(self).stored_contents(),
            final(self).stored_comments() == old(self).stored_comments(),
            final(self).stored_analyses() == old(self).stored_analyses(),
    {
        match self.campaign_copy(campaign_id) {
            Some(c) => self.set_processed(c, count),
            None => {},
        }
    }

    /// Adds `count` to the processed-comment count of the campaign; nothing
    /// changes when there is no such campaign.
    pub fn increment_processed(&mut self, campaign_id: i32, count: i32)
        requires
            old(self).wf(),
            old(self).campaign(campaign_id) matches Some(c) ==> i32::MIN <= c.processed_comments + count <= i32::MAX,
        ensures
            final(self).wf(),
            forall|id: i32| #[trigger] final(self).campaign(id) == (if id == campaign_id {
                match old(self).campaign(campaign_id) {
                    Some(c) => Some(CampaignConfig { processed_comments: (c.processed_comments + count) as i32, ..c }),
                    None => None,
                }
            } else {
                old(self).campaign(id)
            }),
            forall|id: i64| #[trigger] final(self).task(id) == old(self).task(id),
            final(self).stored_contents() == old(self).stored_contents(),
            final(self).stored_comments() == old(self).stored_comments(),
            final(self).stored_analyses() == old(self).stored_analyses(),
    {
        match self.campaign_copy(campaign_id) {
            Some(c) => {
                let count = c.processed_comments + count;
                self.set_processed(c, count);
            },
            None => {},
        }
    }

    /// The processed-comment count of the campaign, 0 when there is no
    /// such campaign.
    pub fn get_processed_count(&self, campaign_id: i32) -> (r: i32)
        requires
            self.wf(),
        ensures
            r == match self.campaign(campaign_id) {
                Some(c) => c.processed_comments,
                None => 0,
            },
    {
        match self.campaigns.get(&campaign_id) {
            Some(c) => c.processed_comments,
            None => 0,
        }
    }

    /// The task with this id.
    pub fn get_task(&self, task_id: i64) -> (r: Option<TaskInfo>)
        requires
            self.wf(),
        ensures
            r == self.task(task_id),
    {
        match self.tasks.get(&task_id) {
            Some(t) => Some(copy_task(t)),
            None => None,
        }
    }

    fn replace_task(&mut self, t: TaskInfo)
        requires
            old(self).wf(),
        ensures
            final(self).wf(),
            forall|id: i64| #[trigger] final(self).task(id) == (if id == t.id {
                Some(t)
            } else {
                old(self).task(id)
            }),
            forall|id: i32| #[trigger] final(self).campaign(id) == old(self).campaign(id),
            final(self).stored_contents() == old(self).stored_contents(),
            final(self).stored_comments() == old(self).stored_comments(),
            final(self).stored_analyses() == old(self).stored_analyses(),
    {
        let id = t.id;
        let _ = self.tasks.insert(id, t);
    }

    /// Sets the status of the task; nothing changes when there is no such
    /// task.
    pub fn update_task_status(&mut self, task_id: i64, status: TaskStatus)
        requires
            old(self).wf(),
        ensures
            final(self).wf(),
            forall|id: i64| #[trigger] final(self).task(id) == (if id == task_id {
                match old(self).task(task_id) {
                    Some(t) => Some(TaskInfo { status, ..t }),
                    None => None,
                }
            } else {
                old(self).task(id)
            }),
            forall|id: i32| #[trigger] final(self).campaign(id) == old(self).campaign(id),
            final(self).stored_contents() == old(self).stored_contents(),
            final(self).stored_comments() == old(self).stored_comments(),
            final(self).stored_analyses() == old(self).stored_analyses(),
    {
        match self.get_task(task_id) {
            Some(t0) => {
                let mut t = t0;
                t.status = status;
                self.replace_task(t);
            },
            None => {},
        }
    }

    /// Marks the task failed with the message `error`; nothing changes when
    /// there is no such task.
    pub fn set_task_error(&mut self, task_id: i64, error: &str)
        requires
            old(self).wf(),
        ensures
            final(self).wf(),
            forall|id: i64| #[trigger] final(self).task(id) == (if id == task_id {
                match old(self).task(task_id) {
                    Some(t) => Some(TaskInfo { status: TaskStatus::Failed, error_message: final(self).task(task_id)->0.error_message, ..t }),
                    None => None,
                }
            } else {
                old(self).task(id)
            }),
            old(self).task(task_id) is Some ==> (final(self).task(task_id)->0.error_message matches Some(m) && m@ == error@),
            forall|id: i32| #[trigger] final(self).campaign(id) == old(self).campaign(id),
            final(self).stored_contents() == old(self).stored_contents(),
            final(self).stored_comments() == old(self).stored_comments(),
            final(self).stored_analyses() == old(self).stored_analyses(),
    {
        match self.get_task(task_id) {
            Some(t0) => {
                let mut t = t0;
                t.status = TaskStatus::Failed;
                t.error_message = Some(crate::text::to_owned_string(error));
                self.replace_task(t);
            },
            None => {},
        }
    }

    /// Marks the task completed at 100 percent; nothing changes when there
    /// is no such task.
    pub fn complete_task(&mut self, task_id: i64)
        requires
            old(self).wf(),
        ensures
            final(self).wf(),
            forall|id: i64| #[trigger] final(self).task(id) == (if id == task_id {
                match old(self).task(task_id) {
                    Some(t) => Some(TaskInfo { status: TaskStatus::Completed, progress: 100, ..t }),
                    None => None,
                }
            } else {
                old(self).task(id)
            }),
            forall|id: i32| #[trigger] final(self).campaign(id) == old(self).campaign(id),
            final(self).stored_contents() == old(self).stored_contents(),
            final(self).stored_comments() == old(self).stored_comments(),
            final(self).stored_analyses() == old(self).stored_analyses(),
    {
        match self.get_task(task_id) {
            Some(t0) => {
                let mut t = t0;
                t.status = TaskStatus::Completed;
                t.progress = 100;
                self.replace_task(t);
            },
            None => {},
        }
    }

    /// Marks the task failed with the message `error` (see
    /// `set_task_error`).
    pub fn fail_task(&mut self, task_id: i64, error: &str)
        requires
            old(self).wf(),
        ensures
            final(self).wf(),
            forall|id: i64| #[trigger] final(self).task(id) == (if id == task_id {
                match old(self).task(task_id) {
                    Some(t) => Some(TaskInfo { status: TaskStatus::Failed, error_message: final(self).task(task_id)->0.error_message, ..t }),
                    None => None,
                }
            } else {
                old(self).task(id)
            }),
            old(self).task(task_id) is Some ==> (final(self).task(task_id)->0.error_message matches Some(m) && m@ == error@),
            forall|id: i32| #[trigger] final(self).campaign(id) == old(self).campaign(id),
            final(self).stored_contents() == old(self).stored_contents(),
            final(self).stored_comments() == old(self).stored_comments(),
            final(self).stored_analyses() == old(self).stored_analyses(),
    {
        self.set_task_error(task_id, error)
    }

    /// Whether work under the task stops: the task is unknown or has ended,
    /// or its campaign stops.
    pub fn should_stop(&self, task_id: i64) -> (r: bool)
        requires
            self.wf(),
        ensures
            r == task_stops(self.task(task_id), |id: i32| self.campaign(id)),
    {
        match self.tasks.get(&task_id) {
            Some(t) => {
                if t.is_terminal() {
                    return true;
                }
                self.should_stop_campaign(t.campaign_id)
            },
            None => true,
        }
    }

    /// Adds `increment` to the task's progress and reports it, with whether
    /// the task's campaign should stop; an unknown task reports failure and
    /// changes nothing.
    pub fn update_task_progress(&mut self, task_id: i64, increment: i32) -> (r: TaskProgressUpdate)
        requires
            old(self).wf(),
            old(self).task(task_id) matches Some(t) ==> i32::MIN <= t.progress + increment <= i32::MAX,
        ensures
            final(self).wf(),
            match old(self).task(task_id) {
                Some(t) => {
                    &&& r.success
                    &&& r.new_process_count == t.progress + increment
                    &&& r.should_stop == match old(self).campaign(t.campaign_id) {
                        Some(c) => campaign_stops(c),
                        None => true,
                    }
                    &&& forall|id: i64| #[trigger] final(self).task(id) == (if id == task_id {
                        Some(TaskInfo { progress: (t.progress + increment) as i32, ..t })
                    } else {
                        old(self).task(id)
                    })
                },
                None => {
                    &&& r == (TaskProgressUpdate { success: false, should_stop: false, new_process_count: 0 })
                    &&& forall|id: i64| #[trigger] final(self).task(id) == old(self).task(id)
                },
            },
            forall|id: i32| #[trigger] final(self).campaign(id) == old(self).campaign(id),
            final(self).stored_contents() == old(self).stored_contents(),
            final(self).stored_comments() == old(self).stored_comments(),
            final(self).stored_analyses() == old(self).stored_analyses(),
    {
        match self.get_task(task_id) {
            Some(t0) => {
                let mut t = t0;
                t.progress = t.progress + increment;
                let progress = t.progress;
                let campaign_id = t.campaign_id;
                self.replace_task(t);
                let should_stop = self.should_stop_campaign(campaign_id);
                TaskProgressUpdate { success: true, should_stop, new_process_count: progress }
            },
            None => TaskProgressUpdate { success: false, should_stop: false, new_process_count: 0 },
        }
    }

    /// Asks a campaign to stop: while a task of it has not ended it is set
    /// stopping, else completed at once; an unknown campaign reports
    /// failure and changes nothing.
    pub fn stop_campaign_gracefully(&mut self, campaign_id: i32) -> (r: CampaignStopResult)
        requires
            old(self).wf(),
        ensures
            final(self).wf(),
            ({
                let running = old(self).has_running_task(campaign_id);
                match old(self).campaign(campaign_id) {
                    Some(c) => {
                        &&& r == (CampaignStopResult { success: true, immediate_stopped: !running })
                        &&& forall|id: i32| #[trigger] final(self).campaign(id) == (if id == campaign_id {
                            Some(CampaignConfig {
                                status: if running {
                                    CampaignStatus::Stopping
                                } else {
                                    CampaignStatus::Completed
                                },
                                ..c
                            })
                        } else {
                            old(self).campaign(id)
                        })
                    },
                    None => {
                        &&& r == (CampaignStopResult { success: false, immediate_stopped: false })
                        &&& forall|id: i32| #[trigger] final(self).campaign(id) == old(self).campaign(id)
                    },
                }
            }),
            forall|id: i64| #[trigger] final(self).task(id) == old(self).task(id),
            final(self).stored_contents() == old(self).stored_contents(),
            final(self).stored_comments() == old(self).stored_comments(),
            final(self).stored_analyses() == old(self).stored_analyses(),
    {
        let ghost all = spec_hash_map_iter(&self.tasks).remaining();
        let mut running = false;
        let ghost mut seen: int = 0;
        for e in it: self.tasks.iter()
            invariant
                seen == it.index(),
                it.seq() == all,
                forall|i: int| #![trigger all[i]]
                    0 <= i < all.len() ==> self.tasks@.contains_key(*all[i].0) && self.tasks@[*all[i].0] == *all[i].1,
                running == exists|i: int|
                    0 <= i < seen && (#[trigger] all[i]).1.campaign_id == campaign_id && !task_ended(*all[i].1),
        {
            let ghost idx = it.index();
            let t: &TaskInfo = e.1;
            proof {
                assert(e == all[idx]);
            }
            if t.campaign_id == campaign_id && !t.is_terminal() {
                running = true;
            }
            proof {
                seen = idx + 1;
                assert(running == exists|i: int|
                    0 <= i < seen && (#[trigger] all[i]).1.campaign_id == campaign_id && !task_ended(*all[i].1)) by {
                    if t.campaign_id == campaign_id && !task_ended(*t) {
                        assert(all[idx].1.campaign_id == campaign_id);
                    }
                }
            }
        }
        proof {
            assert(seen == all.len());
            if running {
                let i = choose|i: int|
                    0 <= i < seen && (#[trigger] all[i]).1.campaign_id == campaign_id && !task_ended(*all[i].1);
                assert(self.tasks@.contains_key(*all[i].0));
                assert(self.task(*all[i].0) == Some(*all[i].1));
            } else {
                assert forall|id: i64| !(#[trigger] self.task(id) matches Some(t) && t.campaign_id == campaign_id && !task_ended(t)) by {
                    if self.task(id) is Some {
                        assert(self.tasks@.contains_key(id));
                        assert(all.contains((&id, &self.tasks@[id])));
                        let i = choose|i: int| 0 <= i < all.len() && all[i] == (&id, &self.tasks@[id]);
                        assert(all[i].1.campaign_id != campaign_id || task_ended(*all[i].1));
                    }
                }
            }
        }
        match self.campaign_copy(campaign_id) {
            Some(c0) => {
                let mut c = c0;
                c.status = if running {
                    CampaignStatus::Stopping
                } else {
                    CampaignStatus::Completed
                };
                let _ = self.campaigns.insert(campaign_id, c);
                CampaignStopResult { success: true, immediate_stopped: !running }
            },
            None => CampaignStopResult { success: false, immediate_stopped: false },
        }
    }
}

} // verus!
