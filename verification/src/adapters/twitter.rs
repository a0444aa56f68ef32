//! Twitter (TikHub) adapter logic: error mapping, the search type sent with a
//! search, which timeline entries count as search results, and de-duplication
//! of a user's timeline.

use vstd::prelude::*;
use crate::adapters::tikhub::{convert_matches, convert_tikhub_error, TikHubError};
use crate::domain::entities::{Comment, Content, Engagement, SearchOptions};
use crate::domain::errors::GatewayError;
use crate::domain::extra::ExtraValueView;
use crate::pagination::{contains_string, opt_view, views};
use crate::text::{
    eq_ignore_ascii_case, lower_ascii, push_str, str_eq, text_or_empty, to_ascii_lowercase,
    to_owned_string, trim, trim_spec,
};

verus! {

/// Search type for the most relevant tweets.
pub const SEARCH_TYPE_TOP: &'static str = "Top";

/// Search type for the newest tweets (the default).
pub const SEARCH_TYPE_LATEST: &'static str = "Latest";

/// Search type for tweets with media.
pub const SEARCH_TYPE_MEDIA: &'static str = "Media";

/// Search type for accounts.
pub const SEARCH_TYPE_PEOPLE: &'static str = "People";

/// Search type for lists.
pub const SEARCH_TYPE_LISTS: &'static str = "Lists";

/// The extra option that selects the search type.
pub const SEARCH_TYPE_KEY: &'static str = "search_type";

/// The search type named by `s`: trimmed and ASCII-lowercased, `top`,
/// `media`, `people` and `lists` name their types; anything else is `Latest`.
pub open spec fn search_type_label(s: Seq<char>) -> Seq<char> {
    let k = lower_ascii(trim_spec(s));
    if k == "top"@ {
        SEARCH_TYPE_TOP@
    } else if k == "media"@ {
        SEARCH_TYPE_MEDIA@
    } else if k == "people"@ {
        SEARCH_TYPE_PEOPLE@
    } else if k == "lists"@ {
        SEARCH_TYPE_LISTS@
    } else {
        SEARCH_TYPE_LATEST@
    }
}

/// The search type for a search: the string extra option `search_type` when
/// present, else the region (which callers use to carry the search type),
/// else `Latest`.
pub open spec fn search_type_for(options: SearchOptions) -> Seq<char> {
    match options.extra.spec_get(SEARCH_TYPE_KEY@) {
        Some(ExtraValueView::Str(s)) => search_type_label(s),
        _ => match options.region {
            Some(r) => search_type_label(r@),
            None => SEARCH_TYPE_LATEST@,
        },
    }
}

/// A timeline entry counts as a search result when it has an id and either
/// no type or the type `tweet` (in any ASCII case).
pub open spec fn is_search_result(tweet_id: Option<Seq<char>>, tweet_type: Option<Seq<char>>) -> bool {
    tweet_id is Some && match tweet_type {
        Some(t) => lower_ascii(t) == lower_ascii("tweet"@),
        None => true,
    }
}

/// The ids of a sequence of contents.
pub open spec fn content_ids(s: Seq<Content>) -> Seq<Seq<char>> {
    s.map_values(|c: Content| c.content_id@)
}

/// `s` without the contents whose id occurred earlier.
pub open spec fn dedupe_by_id(s: Seq<Content>) -> Seq<Content>
    decreases s.len(),
{
    if s.len() == 0 {
        seq![]
    } else {
        let d = dedupe_by_id(s.drop_last());
        if content_ids(d).contains(s.last().content_id@) {
            d
        } else {
            d.push(s.last())
        }
    }
}

/// De-duplicating a longer prefix only appends.
proof fn lemma_dedupe_prefix(s: Seq<Content>, i: int, j: int)
    requires
        0 <= i <= j <= s.len(),
    ensures
        dedupe_by_id(s.take(i)) == dedupe_by_id(s.take(j)).take(
            dedupe_by_id(s.take(i)).len() as int,
        ),
        dedupe_by_id(s.take(i)).len() <= dedupe_by_id(s.take(j)).len(),
    decreases j - i,
{
    if i < j {
        lemma_dedupe_prefix(s, i, j - 1);
        assert(s.take(j).drop_last() == s.take(j - 1));
        let a = dedupe_by_id(s.take(i));
        let b = dedupe_by_id(s.take(j - 1));
        let c = dedupe_by_id(s.take(j));
        assert(c == b || c == b.push(s.take(j).last()));
        assert(c.take(b.len() as int) == b);
        assert(c.take(a.len() as int) == b.take(a.len() as int));
    } else {
        let a = dedupe_by_id(s.take(i));
        assert(a.take(a.len() as int) == a);
    }
}

/// The account fields of a tweet's author as the API reports them.
#[derive(Debug, Clone)]
pub struct TweetUser {
    pub description: Option<String>,
    pub followers_count: Option<i64>,
    pub avatar: Option<String>,
    pub verified: Option<bool>,
    pub blue_verified: Option<bool>,
}

/// The fields of a tweet that the conversions and the stored rows read.
#[derive(Debug, Clone)]
pub struct TweetFields {
    pub tweet_id: Option<String>,
    /// The entry type (`tweet` for a tweet).
    pub tweet_type: Option<String>,
    /// The author's handle.
    pub screen_name: Option<String>,
    /// The author's display name.
    pub author_name: Option<String>,
    pub user_id: Option<String>,
    pub text: String,
    pub like_count: i64,
    pub reply_count: i64,
    pub retweet_count: i64,
    pub quote_count: i64,
    pub bookmark_count: i64,
    pub view_count: i64,
    /// Creation time as the API writes it.
    pub created_at: Option<String>,
    /// Creation time (Unix seconds).
    pub created_at_timestamp: Option<i64>,
    pub lang: Option<String>,
    pub conversation_id: Option<String>,
    pub is_reply: bool,
    pub in_reply_to_status_id: Option<String>,
    pub in_reply_to_user_id: Option<String>,
    pub media_urls: Vec<String>,
    pub has_media: bool,
    /// The account block under `user_info`.
    pub user_info: Option<TweetUser>,
    /// The account block under `author`.
    pub author: Option<TweetUser>,
}

/// The web address of a tweet: under its author's handle when there is one,
/// else under the handle-free status path.
pub open spec fn tweet_url(tweet_id: Seq<char>, screen_name: Seq<char>) -> Seq<char> {
    if screen_name.len() == 0 {
        "https://twitter.com/i/web/status/"@ + tweet_id
    } else {
        "https://twitter.com/"@ + screen_name + "/status/"@ + tweet_id
    }
}

fn text_of(o: &Option<String>) -> (r: String)
    ensures
        r@ == text_or_empty(*o),
{
    match o {
        Some(s) => s.clone(),
        None => String::new(),
    }
}

/// The first `n` elements of `s` (all of them when it is shorter).
pub open spec fn first_n<T>(s: Seq<T>, n: int) -> Seq<T> {
    if n < s.len() {
        s.take(n)
    } else {
        s
    }
}

/// The pinned tweet alone, or nothing.
pub open spec fn pinned_head(pinned: Option<Content>) -> Seq<Content> {
    match pinned {
        Some(p) => seq![p],
        None => Seq::<Content>::empty(),
    }
}

/// A user's timeline as served: the pinned tweet first when there is one,
/// then the first `count` timeline tweets, later duplicates of an id
/// dropped, at most `count` in all.
pub open spec fn user_timeline(pinned: Option<Content>, timeline: Seq<Content>, count: int) -> Seq<Content> {
    first_n(dedupe_by_id(pinned_head(pinned) + first_n(timeline, count)), count)
}

/// `c` is the content of the tweet `t`, with the raw document `raw`.
pub open spec fn is_tweet_content(t: TweetFields, raw: Option<serde_json::Value>, c: Content) -> bool {
    &&& c.platform@ == "twitter"@
    &&& c.content_id@ == text_or_empty(t.tweet_id)
    &&& c.author@ == text_or_empty(t.screen_name)
    &&& c.author_name == t.author_name
    &&& c.description == t.text
    &&& c.url matches Some(u) && u@ == tweet_url(text_or_empty(t.tweet_id), text_or_empty(t.screen_name))
    &&& c.engagement == (Engagement {
        likes: t.like_count,
        comments: t.reply_count,
        shares: t.retweet_count,
        views: t.view_count,
    })
    &&& c.created_at == t.created_at_timestamp
    &&& c.raw_data == raw
}

/// A timeline entry that counts as a search result.
pub open spec fn result_entry() -> spec_fn((TweetFields, Option<serde_json::Value>)) -> bool {
    |e: (TweetFields, Option<serde_json::Value>)| is_search_result(opt_view(e.0.tweet_id), opt_view(e.0.tweet_type))
}

/// `c` is the comment of the reply tweet `t` under the content
/// `content_id`, with the raw document `raw`; the reply count is narrowed to
/// 32 bits by truncation.
pub open spec fn is_reply_comment(
    t: TweetFields,
    content_id: Seq<char>,
    raw: Option<serde_json::Value>,
    c: Comment,
) -> bool {
    &&& c.platform@ == "twitter"@
    &&& c.comment_id@ == text_or_empty(t.tweet_id)
    &&& c.content_id@ == content_id
    &&& c.parent_id == t.in_reply_to_status_id
    &&& c.author@ == text_or_empty(t.screen_name)
    &&& c.author_name == t.author_name
    &&& c.author_uid == t.user_id
    &&& c.text == t.text
    &&& c.likes == t.like_count
    &&& c.reply_count == t.reply_count as i32
    &&& c.created_at == t.created_at_timestamp
    &&& c.language == t.lang
    &&& c.is_reply == t.is_reply
    &&& c.raw_data == raw
}

/// A thread entry other than the root tweet `content_id` itself.
pub open spec fn not_root(content_id: Seq<char>) -> spec_fn((TweetFields, Option<serde_json::Value>)) -> bool {
    |e: (TweetFields, Option<serde_json::Value>)| !(e.0.tweet_id matches Some(id) && id@ == content_id)
}

/// The replies served from a thread: the entries other than the root tweet,
/// the first `count` of them.
pub open spec fn thread_replies(
    thread: Seq<(TweetFields, Option<serde_json::Value>)>,
    content_id: Seq<char>,
    count: int,
) -> Seq<(TweetFields, Option<serde_json::Value>)> {
    first_n(thread.filter(not_root(content_id)), count)
}

/// The Twitter adapter's decision logic.
pub struct TwitterAdapter;

impl TwitterAdapter {
    /// Maps a TikHub error to a gateway error (label "Twitter").
    pub fn convert_error(err: TikHubError) -> (r: GatewayError)
        ensures
            convert_matches("Twitter"@, err, r),
    {
        convert_tikhub_error("Twitter", err)
    }

    /// The canonical search type named by `search_type`.
    pub fn normalize_search_type(search_type: &str) -> (r: &'static str)
        ensures
            r@ == search_type_label(search_type@),
    {
        let t = trim(search_type);
        let k = to_ascii_lowercase(t.as_str());
        if str_eq(k.as_str(), "top") {
            SEARCH_TYPE_TOP
        } else if str_eq(k.as_str(), "media") {
            SEARCH_TYPE_MEDIA
        } else if str_eq(k.as_str(), "people") {
            SEARCH_TYPE_PEOPLE
        } else if str_eq(k.as_str(), "lists") {
            SEARCH_TYPE_LISTS
        } else {
            SEARCH_TYPE_LATEST
        }
    }

    /// The search type to send for a search.
    pub fn search_type_from_options(options: &SearchOptions) -> (r: String)
        ensures
            r@ == search_type_for(*options),
    {
        match options.extra.get(SEARCH_TYPE_KEY) {
            Some(value) => match value.as_str() {
                Some(s) => {
                    return to_owned_string(Self::normalize_search_type(s));
                },
                None => {},
            },
            None => {},
        }
        match &options.region {
            Some(region) => {
                let normalized = Self::normalize_search_type(region.as_str());
                if !str_eq(normalized, SEARCH_TYPE_LATEST) || eq_ignore_ascii_case(
                    region.as_str(),
                    SEARCH_TYPE_LATEST,
                ) {
                    to_owned_string(normalized)
                } else {
                    to_owned_string(SEARCH_TYPE_LATEST)
                }
            },
            None => to_owned_string(SEARCH_TYPE_LATEST),
        }
    }

    /// Whether a timeline entry with this id and type is a search result.
    pub fn is_search_result_tweet(tweet_id: Option<&str>, tweet_type: Option<&str>) -> (r: bool)
        ensures
            r == is_search_result(
                match tweet_id {
                    Some(s) => Some(s@),
                    None => None,
                },
                match tweet_type {
                    Some(s) => Some(s@),
                    None => None,
                },
            ),
    {
        match tweet_id {
            None => false,
            Some(_) => match tweet_type {
                Some(t) => eq_ignore_ascii_case(t, "tweet"),
                None => true,
            },
        }
    }

    /// The web address of the tweet `tweet_id` by `screen_name`.
    pub fn tweet_url(tweet_id: &str, screen_name: &str) -> (r: String)
        ensures
            r@ == tweet_url(tweet_id@, screen_name@),
    {
        if screen_name.is_empty() {
            let mut u = to_owned_string("https://twitter.com/i/web/status/");
            push_str(&mut u, tweet_id);
            u
        } else {
            let mut u = to_owned_string("https://twitter.com/");
            push_str(&mut u, screen_name);
            push_str(&mut u, "/status/");
            push_str(&mut u, tweet_id);
            u
        }
    }

    /// The content of a tweet; `raw` is the tweet's own JSON document.
    pub fn convert_content(tweet: TweetFields, raw: Option<serde_json::Value>) -> (r: Content)
        ensures
            is_tweet_content(tweet, raw, r),
    {
        let tweet_id = text_of(&tweet.tweet_id);
        let screen_name = text_of(&tweet.screen_name);
        let url = Self::tweet_url(tweet_id.as_str(), screen_name.as_str());
        Content {
            platform: to_owned_string("twitter"),
            content_id: tweet_id,
            author: screen_name,
            author_name: tweet.author_name,
            description: tweet.text,
            url: Some(url),
            engagement: Engagement {
                likes: tweet.like_count,
                comments: tweet.reply_count,
                shares: tweet.retweet_count,
                views: tweet.view_count,
            },
            created_at: tweet.created_at_timestamp,
            raw_data: raw,
        }
    }

    /// The comment of a reply tweet under the content `content_id`; `raw` is
    /// the reply's own JSON document.  The reply count is narrowed to 32 bits
    /// by truncation.
    pub fn convert_comment(tweet: TweetFields, content_id: &str, raw: Option<serde_json::Value>) -> (r: Comment)
        ensures
            is_reply_comment(tweet, content_id@, raw, r),
    {
        let tweet_id = text_of(&tweet.tweet_id);
        let screen_name = text_of(&tweet.screen_name);
        Comment {
            platform: to_owned_string("twitter"),
            comment_id: tweet_id,
            content_id: to_owned_string(content_id),
            parent_id: tweet.in_reply_to_status_id,
            author: screen_name,
            author_name: tweet.author_name,
            author_uid: tweet.user_id,
            text: tweet.text,
            likes: tweet.like_count,
            reply_count: tweet.reply_count as i32,
            created_at: tweet.created_at_timestamp,
            language: tweet.lang,
            is_reply: tweet.is_reply,
            raw_data: raw,
        }
    }

    /// A user's timeline: the pinned tweet, then the first `count` timeline
    /// tweets, de-duplicated and cut to `count`.
    pub fn user_timeline(pinned: Option<Content>, timeline: Vec<Content>, count: usize) -> (r: Vec<Content>)
        ensures
            r@ == user_timeline(pinned, timeline@, count as int),
    {
        let ghost head = pinned_head(pinned);
        let mut all: Vec<Content> = Vec::new();
        match pinned {
            Some(p) => all.push(p),
            None => {},
        }
        let ghost t = timeline@;
        let mut taken: usize = 0;
        for c in it: timeline.into_iter()
            invariant
                it.seq() == t,
                taken == if it.index() < count { it.index() as int } else { count as int },
                all@ == head + first_n(t, taken as int),
        {
            if taken < count {
                proof {
                    assert(first_n(t, taken + 1) =~= first_n(t, taken as int).push(c));
                }
                all.push(c);
                taken = taken + 1;
            }
        }
        proof {
            assert(first_n(t, taken as int) =~= first_n(t, count as int));
        }
        let r = Self::dedupe_contents(all, count);
        r
    }

    /// The comments of a thread page under the tweet `content_id`: each entry
    /// (a reply and its raw document) other than the root tweet, the first
    /// `count` of them, converted.
    pub fn thread_comments(
        thread: Vec<(TweetFields, Option<serde_json::Value>)>,
        content_id: &str,
        count: usize,
    ) -> (r: Vec<Comment>)
        ensures
            r.len() == thread_replies(thread@, content_id@, count as int).len(),
            forall|i: int|
                0 <= i < r.len() ==> is_reply_comment(
                    (#[trigger] thread_replies(thread@, content_id@, count as int)[i]).0,
                    content_id@,
                    thread_replies(thread@, content_id@, count as int)[i].1,
                    r@[i],
                ),
    {
        let ghost t = thread@;
        let ghost p = not_root(content_id@);
        let mut out: Vec<Comment> = Vec::new();
        for e in it: thread.into_iter()
            invariant
                it.seq() == t,
                p == not_root(content_id@),
                out.len() == first_n(t.take(it.index() as int).filter(p), count as int).len(),
                forall|i: int|
                    0 <= i < out.len() ==> is_reply_comment(
                        (#[trigger] t.take(it.index() as int).filter(p)[i]).0,
                        content_id@,
                        t.take(it.index() as int).filter(p)[i].1,
                        out@[i],
                    ),
        {
            let ghost before = t.take(it.index() as int).filter(p);
            proof {
                assert(t.take(it.index() + 1).drop_last() =~= t.take(it.index() as int));
                assert(t.take(it.index() + 1).last() == e);
            }
            let is_root = match &e.0.tweet_id {
                Some(id) => str_eq(id.as_str(), content_id),
                None => false,
            };
            if !is_root {
                proof {
                    reveal(Seq::filter);
                    assert(p(e));
                    assert(t.take(it.index() + 1).filter(p) =~= before.push(e));
                }
                if out.len() < count {
                    let (tweet, raw) = e;
                    out.push(Self::convert_comment(tweet, content_id, raw));
                }
            } else {
                proof {
                    reveal(Seq::filter);
                    assert(!p(e));
                    assert(t.take(it.index() + 1).filter(p) =~= before);
                }
            }
        }
        proof {
            assert(t.take(t.len() as int) =~= t);
        }
        out
    }

    /// The search results of a timeline page (each entry with its raw
    /// document): the entries that count as search results, the first
    /// `count` of them, converted.
    pub fn search_results(timeline: Vec<(TweetFields, Option<serde_json::Value>)>, count: u32) -> (r: Vec<Content>)
        ensures
            r@.len() == first_n(timeline@.filter(result_entry()), count as int).len(),
            forall|i: int|
                0 <= i < r@.len() ==> is_tweet_content(
                    (#[trigger] timeline@.filter(result_entry())[i]).0,
                    timeline@.filter(result_entry())[i].1,
                    r@[i],
                ),
    {
        let ghost t = timeline@;
        let ghost p = result_entry();
        let mut out: Vec<Content> = Vec::new();
        for e in it: timeline.into_iter()
            invariant
                it.seq() == t,
                p == result_entry(),
                out@.len() == first_n(t.take(it.index() as int).filter(p), count as int).len(),
                forall|i: int|
                    0 <= i < out@.len() ==> is_tweet_content(
                        (#[trigger] t.take(it.index() as int).filter(p)[i]).0,
                        t.take(it.index() as int).filter(p)[i].1,
                        out@[i],
                    ),
        {
            let ghost before = t.take(it.index() as int).filter(p);
            proof {
                assert(t.take(it.index() + 1).drop_last() =~= t.take(it.index() as int));
                assert(t.take(it.index() + 1).last() == e);
            }
            let keep = Self::is_search_result_tweet(
                match &e.0.tweet_id {
                    Some(s) => Some(s.as_str()),
                    None => None,
                },
                match &e.0.tweet_type {
                    Some(s) => Some(s.as_str()),
                    None => None,
                },
            );
            if keep {
                proof {
                    reveal(Seq::filter);
                    assert(p(e));
                    assert(t.take(it.index() + 1).filter(p) =~= before.push(e));
                }
                if out.len() < count as usize {
                    let (tweet, raw) = e;
                    out.push(Self::convert_content(tweet, raw));
                }
            } else {
                proof {
                    reveal(Seq::filter);
                    assert(!p(e));
                    assert(t.take(it.index() + 1).filter(p) =~= before);
                }
            }
        }
        proof {
            assert(t.take(t.len() as int) =~= t);
        }
        out
    }

    /// The contents of a user's timeline page (each entry with its raw
    /// document): the first `count` entries, converted.
    pub fn timeline_contents(timeline: Vec<(TweetFields, Option<serde_json::Value>)>, count: u32) -> (r: Vec<Content>)
        ensures
            r@.len() == first_n(timeline@, count as int).len(),
            forall|i: int| 0 <= i < r@.len() ==> is_tweet_content((#[trigger] timeline@[i]).0, timeline@[i].1, r@[i]),
    {
        let ghost t = timeline@;
        let mut out: Vec<Content> = Vec::new();
        for e in it: timeline.into_iter()
            invariant
                it.seq() == t,
                out@.len() == first_n(t.take(it.index() as int), count as int).len(),
                forall|i: int| 0 <= i < out@.len() ==> is_tweet_content((#[trigger] t[i]).0, t[i].1, out@[i]),
        {
            if out.len() < count as usize {
                let (tweet, raw) = e;
                out.push(Self::convert_content(tweet, raw));
            }
        }
        proof {
            assert(t.take(t.len() as int) =~= t);
        }
        out
    }

    /// The first `limit` contents of `contents` once later duplicates of an id
    /// are dropped.
    pub fn dedupe_contents(contents: Vec<Content>, limit: usize) -> (r: Vec<Content>)
        ensures
            r@ == dedupe_by_id(contents@).take(
                if limit < dedupe_by_id(contents@).len() {
                    limit as int
                } else {
                    dedupe_by_id(contents@).len() as int
                },
            ),
    {
        let ghost s = contents@;
        let mut out: Vec<Content> = Vec::new();
        let mut seen: Vec<String> = Vec::new();
        if limit == 0 {
            return out;
        }
        for c in it: contents.into_iter()
            invariant
                it.seq() == s,
                0 < limit,
                out@ == dedupe_by_id(s.take(it.index() as int)),
                out.len() < limit,
                views(seen@) == content_ids(out@),
        {
            proof {
                assert(s.take(it.index() + 1).drop_last() == s.take(it.index() as int));
                assert(s.take(it.index() + 1).last() == c);
            }
            if !contains_string(&seen, &c.content_id) {
                let id = c.content_id.clone();
                let ghost before = out@;
                let ghost seen_before = seen@;
                out.push(c);
                seen.push(id);
                proof {
                    assert(views(seen@) =~= views(seen_before).push(id@));
                    assert(content_ids(out@) =~= content_ids(before).push(c.content_id@));
                }
                if out.len() == limit {
                    proof {
                        lemma_dedupe_prefix(s, it.index() + 1, s.len() as int);
                        assert(s.take(s.len() as int) == s);
                        assert(out@.take(limit as int) == out@);
                    }
                    return out;
                }
            }
        }
        proof {
            assert(s.take(s.len() as int) == s);
        }
        out
    }
}


proof fn lemma_label_fixed(x: Seq<char>)
    requires
        x.len() > 0,
        !crate::text::is_unicode_whitespace(x[0]),
        !crate::text::is_unicode_whitespace(x.last()),
    ensures
        lower_ascii(trim_spec(x)) == lower_ascii(x),
{
    crate::text::lemma_trim_keeps(x);
}

/// Normalizing a search type twice gives what normalizing it once gives: the
/// canonical names are their own normal form.
pub proof fn lemma_search_type_idempotent(s: Seq<char>)
    ensures
        search_type_label(search_type_label(s)) == search_type_label(s),
{
    reveal_strlit("Top");
    reveal_strlit("Media");
    reveal_strlit("People");
    reveal_strlit("Lists");
    reveal_strlit("Latest");
    reveal_strlit("top");
    reveal_strlit("media");
    reveal_strlit("people");
    reveal_strlit("lists");
    let l = search_type_label(s);
    lemma_label_fixed(l);
    if l == "Top"@ {
        assert(lower_ascii(l) =~= "top"@);
    } else if l == "Media"@ {
        assert(lower_ascii(l) =~= "media"@);
    } else if l == "People"@ {
        assert(lower_ascii(l) =~= "people"@);
    } else if l == "Lists"@ {
        assert(lower_ascii(l) =~= "lists"@);
    } else {
        assert(l == "Latest"@);
        let k = lower_ascii(l);
        assert(k.len() == 6);
        assert(k[0] == 'l' && k[1] == 'a');
        assert(k != "top"@ && k != "media"@ && k != "people"@ && k != "lists"@);
    }
}

/// Dropping later duplicates leaves every id once, keeps only contents of
/// the input, and never lengthens it.
pub proof fn lemma_dedupe_unique(s: Seq<Content>)
    ensures
        content_ids(dedupe_by_id(s)).no_duplicates(),
        dedupe_by_id(s).len() <= s.len(),
        forall|i: int| 0 <= i < dedupe_by_id(s).len() ==> s.contains(#[trigger] dedupe_by_id(s)[i]),
    decreases s.len(),
{
    if s.len() > 0 {
        let d = dedupe_by_id(s.drop_last());
        lemma_dedupe_unique(s.drop_last());
        assert forall|i: int| 0 <= i < d.len() implies s.contains(#[trigger] d[i]) by {
            let j = choose|j: int| 0 <= j < s.drop_last().len() && s.drop_last()[j] == d[i];
            assert(s[j] == d[i]);
        }
        if !content_ids(d).contains(s.last().content_id@) {
            let e = d.push(s.last());
            assert(content_ids(e) =~= content_ids(d).push(s.last().content_id@));
            assert(s[s.len() - 1] == s.last());
            assert forall|i: int| 0 <= i < e.len() implies s.contains(#[trigger] e[i]) by {
                if i < d.len() {
                    assert(e[i] == d[i]);
                } else {
                    assert(e[i] == s[s.len() - 1]);
                }
            }
        }
    }
}

/// A thread page never serves the root tweet among its replies, and serves
/// at most `count` of them.
pub proof fn lemma_thread_skips_root(
    thread: Seq<(TweetFields, Option<serde_json::Value>)>,
    content_id: Seq<char>,
    count: int,
    i: int,
)
    requires
        0 <= count,
        0 <= i < thread_replies(thread, content_id, count).len(),
    ensures
        !(thread_replies(thread, content_id, count)[i].0.tweet_id matches Some(id) && id@ == content_id),
        thread_replies(thread, content_id, count).len() <= count,
{
    let f = thread.filter(not_root(content_id));
    if count < f.len() {
        assert(f.take(count).len() == count);
    }
    assert(i < f.len());
    assert(thread_replies(thread, content_id, count)[i] == f[i]);
    thread.lemma_filter_pred(not_root(content_id), i);
}

} // verus!
