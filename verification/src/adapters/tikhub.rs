//! TikHub-backed adapters: error classification and mapping, the TikTok
//! search page size, cursor normalisation, and the user-video page loop.

use vstd::prelude::*;
use crate::text::text_or_empty;
use crate::domain::entities::{Comment, Content, Engagement, SearchOptions};
use crate::domain::errors::{gateway_retryable, GatewayError};
use crate::domain::extra::ExtraValueView;
use crate::pagination::{contains_string, platform_page_cap, views};
use crate::text::{decimal_int, i64_to_decimal, parse_i64, parse_signed, str_eq, to_owned_string};
use crate::domain::errors::join2;

verus! {

/// Errors reported by the TikHub API client.
#[derive(Debug)]
pub enum TikHubError {
    Unauthorized { message: String },
    PaymentRequired { message: String },
    Forbidden { message: String },
    MissingApiKey,
    RateLimited { retry_after_secs: Option<u64> },
    ServerError { status: u16, message: String },
    NetworkError { message: String },
    BadRequest { message: String },
    NotFound { message: String },
    EmptyData,
    ParseError(String),
    InvalidParam(String),
}

/// Authentication, authorization and payment failures stop a whole task.
pub open spec fn tikhub_fatal(e: TikHubError) -> bool {
    e is Unauthorized || e is PaymentRequired || e is Forbidden || e is MissingApiKey
}

/// Bad requests, missing items and empty data only skip the current item.
pub open spec fn tikhub_skippable(e: TikHubError) -> bool {
    e is BadRequest || e is NotFound || e is EmptyData
}

impl TikHubError {
    /// Whether the error stops the whole task.
    pub fn is_fatal(&self) -> (r: bool)
        ensures
            r == tikhub_fatal(*self),
    {
        match self {
            TikHubError::Unauthorized { .. } | TikHubError::PaymentRequired { .. }
            | TikHubError::Forbidden { .. } | TikHubError::MissingApiKey => true,
            _ => false,
        }
    }

    /// Whether the error only skips the current item.
    pub fn is_skippable(&self) -> (r: bool)
        ensures
            r == tikhub_skippable(*self),
    {
        match self {
            TikHubError::BadRequest { .. } | TikHubError::NotFound { .. }
            | TikHubError::EmptyData => true,
            _ => false,
        }
    }
}

/// The gateway error a TikHub error maps to, given the platform label:
/// authentication problems become `AuthFailed` with a labelled message,
/// server errors `Api` with the status as code, bad requests and invalid
/// parameters `InvalidParams`, and the rest their direct counterparts.
pub open spec fn convert_matches(label: Seq<char>, e: TikHubError, g: GatewayError) -> bool {
    match e {
        TikHubError::Unauthorized { message } => g matches GatewayError::AuthFailed(m) && m@
            == label + " auth failed: "@ + message@,
        TikHubError::PaymentRequired { message } => g matches GatewayError::AuthFailed(m) && m@
            == label + " payment required: "@ + message@,
        TikHubError::Forbidden { message } => g matches GatewayError::AuthFailed(m) && m@
            == label + " access forbidden: "@ + message@,
        TikHubError::MissingApiKey => g matches GatewayError::AuthFailed(m) && m@
            == "TikHub API key not configured"@,
        TikHubError::RateLimited { retry_after_secs } => g == (GatewayError::RateLimited {
            retry_after_secs,
        }),
        TikHubError::ServerError { status, message } => g matches GatewayError::Api {
            code,
            message: m,
        } && code == status as i32 && m@ == "Server error: "@ + message@,
        TikHubError::NetworkError { message } => g matches GatewayError::Network(m) && m@
            == message@,
        TikHubError::BadRequest { message } => g matches GatewayError::InvalidParams(m) && m@
            == "Bad request: "@ + message@,
        TikHubError::NotFound { message } => g matches GatewayError::NotFound(m) && m@
            == message@,
        TikHubError::EmptyData => g is EmptyResponse,
        TikHubError::ParseError(msg) => g matches GatewayError::ParseError(m) && m@ == msg@,
        TikHubError::InvalidParam(msg) => g matches GatewayError::InvalidParams(m) && m@
            == msg@,
    }
}

/// `a + b + c` as an owned string.
fn cat3(a: &str, b: &str, c: &str) -> (r: String)
    ensures
        r@ == a@ + b@ + c@,
{
    let mut r = join2(a, b);
    crate::text::push_str(&mut r, c);
    r
}

/// Maps a TikHub error to a gateway error for the platform labelled `label`.
pub fn convert_tikhub_error(label: &str, err: TikHubError) -> (r: GatewayError)
    ensures
        convert_matches(label@, err, r),
{
    match err {
        TikHubError::Unauthorized { message } => GatewayError::AuthFailed(
            cat3(label, " auth failed: ", message.as_str()),
        ),
        TikHubError::PaymentRequired { message } => GatewayError::AuthFailed(
            cat3(label, " payment required: ", message.as_str()),
        ),
        TikHubError::Forbidden { message } => GatewayError::AuthFailed(
            cat3(label, " access forbidden: ", message.as_str()),
        ),
        TikHubError::MissingApiKey => GatewayError::AuthFailed(
            to_owned_string("TikHub API key not configured"),
        ),
        TikHubError::RateLimited { retry_after_secs } => GatewayError::RateLimited {
            retry_after_secs,
        },
        TikHubError::ServerError { status, message } => GatewayError::Api {
            code: status as i32,
            message: join2("Server error: ", message.as_str()),
        },
        TikHubError::NetworkError { message } => GatewayError::Network(message),
        TikHubError::BadRequest { message } => GatewayError::InvalidParams(
            join2("Bad request: ", message.as_str()),
        ),
        TikHubError::NotFound { message } => GatewayError::NotFound(message),
        TikHubError::EmptyData => GatewayError::EmptyResponse,
        TikHubError::ParseError(msg) => GatewayError::ParseError(msg),
        TikHubError::InvalidParam(msg) => GatewayError::InvalidParams(msg),
    }
}

/// The fields of a TikTok video that the conversion reads.
#[derive(Debug, Clone)]
pub struct AwemeFields {
    pub aweme_id: String,
    /// The author's unique id (handle).
    pub username: Option<String>,
    /// The author's nickname.
    pub nickname: Option<String>,
    pub description: String,
    pub share_url: Option<String>,
    pub likes: i64,
    pub comments: i64,
    pub shares: i64,
    pub views: i64,
    /// Creation time (Unix seconds).
    pub create_time: Option<i64>,
}

/// The fields of a TikTok comment that the conversion reads.
#[derive(Debug, Clone)]
pub struct TikTokCommentFields {
    pub cid: String,
    /// The comment replied to; `"0"` for a top-level comment.
    pub reply_id: Option<String>,
    pub username: Option<String>,
    pub nickname: Option<String>,
    pub uid: Option<String>,
    pub text: String,
    pub likes: i64,
    pub reply_comment_total: Option<i32>,
    /// Creation time (Unix seconds).
    pub create_time: Option<i64>,
    pub language: Option<String>,
    pub is_reply: bool,
}

/// The parent of a TikTok comment: its `reply_id`, unless that is `"0"`.
pub open spec fn tiktok_parent(reply_id: Option<String>) -> Option<String> {
    match reply_id {
        Some(id) => if id@ == "0"@ {
            None
        } else {
            Some(id)
        },
        None => None,
    }
}

/// `c` is the content of the video `a` filed under `platform`, with the
/// raw document `raw`.
pub open spec fn is_video_content(platform: Seq<char>, a: AwemeFields, raw: Option<serde_json::Value>, c: Content) -> bool {
    &&& c.platform@ == platform
    &&& c.content_id == a.aweme_id
    &&& c.author@ == text_or_empty(a.username)
    &&& c.author_name == a.nickname
    &&& c.description == a.description
    &&& c.url == a.share_url
    &&& c.engagement == (Engagement { likes: a.likes, comments: a.comments, shares: a.shares, views: a.views })
    &&& c.created_at == a.create_time
    &&& c.raw_data == raw
}

/// `c` is the comment of the video comment `v` under the content
/// `content_id`, filed under `platform`, with the raw document `raw`.
pub open spec fn is_video_comment(
    platform: Seq<char>,
    v: TikTokCommentFields,
    content_id: Seq<char>,
    raw: Option<serde_json::Value>,
    c: Comment,
) -> bool {
    &&& c.platform@ == platform
    &&& c.comment_id == v.cid
    &&& c.content_id@ == content_id
    &&& c.parent_id == tiktok_parent(v.reply_id)
    &&& c.author@ == text_or_empty(v.username)
    &&& c.author_name == v.nickname
    &&& c.author_uid == v.uid
    &&& c.text == v.text
    &&& c.likes == v.likes
    &&& c.reply_count == (match v.reply_comment_total {
        Some(n) => n,
        None => 0,
    })
    &&& c.created_at == v.create_time
    &&& c.language == v.language
    &&& c.is_reply == v.is_reply
    &&& c.raw_data == raw
}

/// The content of a video, filed under `platform`.
pub(crate) fn video_content(platform: &str, aweme: AwemeFields, raw: Option<serde_json::Value>) -> (r: Content)
    ensures
        is_video_content(platform@, aweme, raw, r),
{
    Content {
        platform: to_owned_string(platform),
        content_id: aweme.aweme_id,
        author: match &aweme.username {
            Some(u) => u.clone(),
            None => String::new(),
        },
        author_name: aweme.nickname,
        description: aweme.description,
        url: aweme.share_url,
        engagement: Engagement {
            likes: aweme.likes,
            comments: aweme.comments,
            shares: aweme.shares,
            views: aweme.views,
        },
        created_at: aweme.create_time,
        raw_data: raw,
    }
}

/// The comment of a video comment, filed under `platform`.
pub(crate) fn video_comment(
    platform: &str,
    comment: TikTokCommentFields,
    content_id: &str,
    raw: Option<serde_json::Value>,
) -> (r: Comment)
    ensures
        is_video_comment(platform@, comment, content_id@, raw, r),
{
    let parent_id = match comment.reply_id {
        Some(id) => if str_eq(id.as_str(), "0") {
            None
        } else {
            Some(id)
        },
        None => None,
    };
    Comment {
        platform: to_owned_string(platform),
        comment_id: comment.cid,
        content_id: to_owned_string(content_id),
        parent_id,
        author: match &comment.username {
            Some(u) => u.clone(),
            None => String::new(),
        },
        author_name: comment.nickname,
        author_uid: comment.uid,
        text: comment.text,
        likes: comment.likes,
        reply_count: match comment.reply_comment_total {
            Some(n) => n,
            None => 0,
        },
        created_at: comment.create_time,
        language: comment.language,
        is_reply: comment.is_reply,
        raw_data: raw,
    }
}

/// The TikTok (TikHub) adapter's decision logic.
pub struct TikHubAdapter;

impl TikHubAdapter {
    /// Maps a TikHub error to a gateway error (label "TikHub").
    pub fn convert_error(err: TikHubError) -> (r: GatewayError)
        ensures
            convert_matches("TikHub"@, err, r),
    {
        convert_tikhub_error("TikHub", err)
    }

    /// Whether the error stops the whole task.
    pub fn is_fatal_error(err: &TikHubError) -> (r: bool)
        ensures
            r == tikhub_fatal(*err),
    {
        err.is_fatal()
    }

    /// Whether the error only skips the current item.
    pub fn is_skippable_error(err: &TikHubError) -> (r: bool)
        ensures
            r == tikhub_skippable(*err),
    {
        err.is_skippable()
    }

    /// The content of a TikTok video; `raw` is the video's own JSON
    /// document.
    pub fn convert_content(aweme: AwemeFields, raw: Option<serde_json::Value>) -> (r: Content)
        ensures
            is_video_content("tiktok"@, aweme, raw, r),
    {
        video_content("tiktok", aweme, raw)
    }

    /// The comment of a TikTok comment under the video `content_id`: a
    /// `reply_id` of `"0"` marks a top-level comment, which has no parent;
    /// `raw` is the comment's own JSON document.
    pub fn convert_comment(comment: TikTokCommentFields, content_id: &str, raw: Option<serde_json::Value>) -> (r: Comment)
        ensures
            is_video_comment("tiktok"@, comment, content_id@, raw, r),
    {
        video_comment("tiktok", comment, content_id, raw)
    }
}

// ------------------------------------------------------------------
// Search path: page size and cursors
// ------------------------------------------------------------------

/// The search page size: the non-negative integer extra option "page_size"
/// (truncated to 32 bits), else the TikTok page cap (20).
pub open spec fn search_page_size_of(options: SearchOptions) -> u32 {
    match options.extra.spec_get("page_size"@) {
        Some(ExtraValueView::Int(i)) => if i >= 0 {
            (i as u64) as u32
        } else {
            20
        },
        _ => 20,
    }
}

/// A search asked for `n` results per page (the extra option "page_size"
/// bound to a non-negative integer that fits in 32 bits) requests `n` per
/// page; the TikTok page cap, 20, is used only where no such option is given.
pub proof fn lemma_search_page_size_follows_option(options: SearchOptions)
    ensures
        match options.extra.spec_get("page_size"@) {
            Some(ExtraValueView::Int(n)) => 0 <= n <= u32::MAX ==> search_page_size_of(options) == n,
            _ => search_page_size_of(options) == 20,
        },
        !(options.extra.spec_get("page_size"@) matches Some(ExtraValueView::Int(n)) && n >= 0)
            ==> search_page_size_of(options) == 20,
{
}

/// Per-page request count of the TikTok search path.
pub fn search_page_size(options: &SearchOptions) -> (r: u32)
    ensures
        r == search_page_size_of(*options),
{
    proof {
        reveal_strlit("tiktok");
        reveal_strlit("reddit");
        reveal_strlit("twitter");
        reveal_strlit("instagram");
        assert("tiktok"@[0] == 't' && "tiktok"@.len() == 6);
        assert("reddit"@[0] == 'r');
        assert("twitter"@.len() == 7);
        assert("instagram"@[0] == 'i');
    }
    match options.extra.get("page_size") {
        Some(v) => match v.as_u64() {
            Some(x) => x as u32,
            None => platform_page_cap("tiktok"),
        },
        None => platform_page_cap("tiktok"),
    }
}

/// The next cursor of a TikTok search page: the page's cursor rendered in
/// decimal when the upstream says there is more, otherwise none.
pub fn tiktok_next_cursor(has_more: bool, cursor: Option<i64>) -> (r: Option<String>)
    ensures
        (has_more && cursor is Some) ==> (r matches Some(s) && s@ == decimal_int(cursor->0 as int)),
        !(has_more && cursor is Some) ==> r is None,
{
    if has_more {
        match cursor {
            Some(c) => Some(i64_to_decimal(c)),
            None => None,
        }
    } else {
        None
    }
}

/// The offset sent with a search request for the loop's cursor: a negative
/// cursor reads as 0, and the value is cut to the request's 32 bits.
pub fn search_offset_param(cursor: i64) -> (r: u32)
    ensures
        r == (if cursor < 0 { 0 } else { cursor }) as u32,
{
    let c = if cursor < 0 {
        0
    } else {
        cursor
    };
    c as u32
}

/// The offset that a continue-cursor of the TikTok search path stands for;
/// none when it is not a decimal `i64` (the loop then counts as exhausted).
pub fn tiktok_offset_from_cursor(cursor: &str) -> (r: Option<i64>)
    ensures
        r == (match parse_signed(cursor@) {
            Some(x) => if i64::MIN <= x <= i64::MAX {
                Some(x as i64)
            } else {
                None::<i64>
            },
            None => None,
        }),
{
    parse_i64(cursor)
}

// ------------------------------------------------------------------
// User-video path: offset pagination with a page guard
// ------------------------------------------------------------------

/// Page loop of the user-video path: pages advance by the upstream's cursor,
/// items are deduplicated by id, at most `target / max(cap, 1) + 2` pages are
/// requested, and the loop ends at the target, on an empty page, when the
/// upstream has no more, or without a next cursor.
pub struct VideoPager {
    target: usize,
    page_size_cap: u32,
    max_pages: usize,
    pages: usize,
    cursor: i64,
    collected: Vec<String>,
    done: bool,
}

/// Abstract state of a video pager.
pub ghost struct VideoPagerView {
    pub target: nat,
    pub page_size_cap: u32,
    pub max_pages: nat,
    pub pages: nat,
    pub cursor: i64,
    pub collected: Seq<Seq<char>>,
    pub done: bool,
}

impl View for VideoPager {
    type V = VideoPagerView;

    closed spec fn view(&self) -> VideoPagerView {
        VideoPagerView {
            target: self.target as nat,
            page_size_cap: self.page_size_cap,
            max_pages: self.max_pages as nat,
            pages: self.pages as nat,
            cursor: self.cursor,
            collected: views(self.collected@),
            done: self.done,
        }
    }
}

/// Ids of `page` not yet in `acc`, appended in order (duplicates in the page
/// taken once).
pub open spec fn append_new(acc: Seq<Seq<char>>, page: Seq<Seq<char>>) -> Seq<Seq<char>>
    decreases page.len(),
{
    if page.len() == 0 {
        acc
    } else {
        let a = append_new(acc, page.drop_last());
        if a.contains(page.last()) {
            a
        } else {
            a.push(page.last())
        }
    }
}

/// The page guard for a target and a page cap.
pub open spec fn max_pages_of(target: nat, cap: u32) -> nat {
    target / (if cap == 0 {
        1nat
    } else {
        cap as nat
    }) + 2
}

impl VideoPager {
    pub closed spec fn wf(&self) -> bool {
        &&& self.pages <= self.max_pages
        &&& views(self.collected@).no_duplicates()
    }

    /// A pager for `target` items with the upstream's page cap, from cursor 0.
    pub fn new(target: usize, page_size_cap: u32) -> (r: VideoPager)
        requires
            target <= usize::MAX - 2,
        ensures
            r.wf(),
            r@ == (VideoPagerView {
                target: target as nat,
                page_size_cap,
                max_pages: max_pages_of(target as nat, page_size_cap),
                pages: 0,
                cursor: 0,
                collected: Seq::empty(),
                done: false,
            }),
    {
        let cap = if page_size_cap == 0 {
            1usize
        } else {
            page_size_cap as usize
        };
        let max_pages = target / cap + 2;
        let r = VideoPager {
            target,
            page_size_cap,
            max_pages,
            pages: 0,
            cursor: 0,
            collected: Vec::new(),
            done: false,
        };
        proof {
            assert(views(r.collected@) =~= Seq::<Seq<char>>::empty());
        }
        r
    }

    /// The next page to request, as `(cursor, count)`: none when the loop has
    /// ended, the target is reached, or the page guard is used up. The count
    /// is the number still wanted, capped at the page cap.
    pub fn next_request(&mut self) -> (r: Option<(i64, u32)>)
        requires
            old(self).wf(),
        ensures
            final(self).wf(),
            ({
                let s = old(self)@;
                let stop = s.done || s.collected.len() >= s.target || s.pages >= s.max_pages;
                &&& stop ==> r is None && final(self)@ == (VideoPagerView { done: true, ..s })
                &&& !stop ==> (r matches Some(req) && req.0 == s.cursor && req.1 as int == (if s.target
                    - s.collected.len() <= s.page_size_cap {
                    s.target - s.collected.len()
                } else {
                    s.page_size_cap as int
                }) && final(self)@ == (VideoPagerView { pages: s.pages + 1, ..s }))
            }),
    {
        if self.done || self.collected.len() >= self.target || self.pages >= self.max_pages {
            self.done = true;
            return None;
        }
        let remaining = self.target - self.collected.len();
        let count: u32 = if remaining <= self.page_size_cap as usize {
            remaining as u32
        } else {
            self.page_size_cap
        };
        self.pages = self.pages + 1;
        Some((self.cursor, count))
    }

    /// Accepts a fetched page: its item ids, the upstream's next cursor and
    /// has-more flag. Returns whether another page may be requested.
    pub fn accept_page(&mut self, ids: &[String], next_cursor: Option<i64>, has_more: bool) -> (r: bool)
        requires
            old(self).wf(),
        ensures
            final(self).wf(),
            ({
                let s = old(self)@;
                let page = views(ids@);
                &&& page.len() == 0 ==> final(self)@ == (VideoPagerView { done: true, ..s }) && !r
                &&& page.len() > 0 ==> final(self)@.collected == append_new(s.collected, page)
                &&& page.len() > 0 && has_more && next_cursor is Some ==> r && final(self)@ == (VideoPagerView {
                    collected: final(self)@.collected,
                    cursor: next_cursor->0,
                    ..s
                })
                &&& page.len() > 0 && !(has_more && next_cursor is Some) ==> !r && final(self)@ == (VideoPagerView {
                    collected: final(self)@.collected,
                    done: true,
                    ..s
                })
            }),
    {
        if ids.len() == 0 {
            self.done = true;
            return false;
        }
        let ghost page = views(ids@);
        let ghost c0 = views(self.collected@);
        let mut i: usize = 0;
        proof {
            assert(page.take(0) =~= Seq::<Seq<char>>::empty());
        }
        while i < ids.len()
            invariant
                i <= ids.len(),
                page == views(ids@),
                views(self.collected@) == append_new(c0, page.take(i as int)),
                views(self.collected@).no_duplicates(),
                self.pages == old(self).pages,
                self.max_pages == old(self).max_pages,
                self.target == old(self).target,
                self.page_size_cap == old(self).page_size_cap,
                self.cursor == old(self).cursor,
                self.done == old(self).done,
            decreases ids.len() - i,
        {
            let id = &ids[i];
            proof {
                assert(page.take(i + 1).drop_last() =~= page.take(i as int));
                assert(page.take(i + 1).last() == id@);
            }
            if !contains_string(&self.collected, id) {
                let ghost before_v = self.collected@;
                self.collected.push(id.clone());
                proof {
                    assert(views(self.collected@) =~= views(before_v).push(id@));
                    assert(views(self.collected@).no_duplicates()) by {
                        let w = views(self.collected@);
                        let b = views(before_v);
                        assert forall|x: int, y: int| 0 <= x < w.len() && 0 <= y < w.len() && x != y implies w[x] != w[y] by {
                            if x == b.len() as int {
                                assert(w[y] == b[y]);
                            } else if y == b.len() as int {
                                assert(w[x] == b[x]);
                            }
                        }
                    }
                }
            }
            i = i + 1;
        }
        proof {
            assert(page.take(ids.len() as int) =~= page);
        }
        if has_more {
            match next_cursor {
                Some(n) => {
                    self.cursor = n;
                    true
                },
                None => {
                    self.done = true;
                    false
                },
            }
        } else {
            self.done = true;
            false
        }
    }

    /// The collected ids, at most `target` of them.
    pub fn collected(&self) -> (r: Vec<String>)
        ensures
            views(r@) == (if self@.collected.len() <= self@.target {
                self@.collected
            } else {
                self@.collected.take(self@.target as int)
            }),
    {
        let n = if self.collected.len() <= self.target {
            self.collected.len()
        } else {
            self.target
        };
        let mut r: Vec<String> = Vec::new();
        let mut i: usize = 0;
        while i < n
            invariant
                n <= self.collected.len(),
                i <= n,
                r@ == self.collected@.take(i as int),
            decreases n - i,
        {
            r.push(self.collected[i].clone());
            proof {
                assert(r@ =~= self.collected@.take(i + 1));
            }
            i = i + 1;
        }
        proof {
            assert(views(r@) =~= views(self.collected@).take(n as int));
            assert(views(self.collected@).take(self.collected@.len() as int) =~= views(self.collected@));
        }
        r
    }
}

/// The page guard bounds the requests: every granted request uses up one
/// page of the guard, so a pager grants at most `target / max(cap, 1) + 2`.
pub proof fn lemma_pager_requests_bounded(s: VideoPagerView)
    requires
        s.pages <= s.max_pages,
    ensures
        !(s.done || s.collected.len() >= s.target || s.pages >= s.max_pages) ==> s.pages + 1
            <= s.max_pages,
{
}


/// Under every platform label, the errors that stop a task are exactly those
/// that become authentication failures, and only network failures and rate
/// limits become errors worth retrying.
pub proof fn lemma_convert_classification(label: Seq<char>, e: TikHubError, g: GatewayError)
    requires
        convert_matches(label, e, g),
    ensures
        tikhub_fatal(e) <==> g is AuthFailed,
        gateway_retryable(g) <==> (e is RateLimited || e is NetworkError),
{
}

} // verus!
