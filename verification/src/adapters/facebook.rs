//! Facebook (RapidAPI) adapter logic: request URLs and retries, error
//! mapping, the conversion of posts and comments, date filtering and ordering
//! of posts, the choice of search mode, and the cursor loops of the crawls.

use vstd::prelude::*;
use crate::domain::entities::{Comment, Content, Engagement, SearchOptions};
use crate::domain::errors::GatewayError;
use crate::domain::extra::{ExtraValue, ExtraValueView};
use crate::pagination::{contains_string, opt_view, views};
use crate::text::{
    decimal_int, i64_to_decimal, is_blank, is_unicode_whitespace, lower_ascii, push_str, str_eq,
    to_ascii_lowercase, to_owned_string, trim, trim_spec,
};

verus! {

// ------------------------------------------------------------------
// Settings
// ------------------------------------------------------------------

/// Default RapidAPI base URL.
pub const FACEBOOK_DEFAULT_BASE_URL: &'static str = "https://facebook-scraper3.p.rapidapi.com";

/// Default RapidAPI host header.
pub const FACEBOOK_DEFAULT_HOST: &'static str = "facebook-scraper3.p.rapidapi.com";

/// Minimum interval between two requests, in milliseconds.
pub const DEFAULT_REQUEST_INTERVAL_MS: u64 = 500;

/// Consecutive empty cursor hops after which a crawl gives up.
pub const MAX_EMPTY_CURSOR_HOPS: usize = 3;

/// Extra option: the search mode.
pub const KEY_MODE: &'static str = "mode";

/// Extra option: the kind of keyword search.
pub const KEY_SEARCH_TYPE: &'static str = "search_type";

/// Extra option: a location appended to the keyword.
pub const KEY_LOCATION: &'static str = "location";

/// Extra option: only posts from this day on (`YYYY-MM-DD`).
pub const KEY_START_DATE: &'static str = "start_date";

/// Extra option: only posts up to the end of this day (`YYYY-MM-DD`).
pub const KEY_END_DATE: &'static str = "end_date";

/// Extra option: order posts newest first.
pub const KEY_RECENT_POSTS: &'static str = "recent_posts";

/// Extra option: the post to look up in post mode.
pub const KEY_POST_LOOKUP_ID: &'static str = "post_lookup_id";

/// Search mode: keyword search.
pub const MODE_KEYWORD: &'static str = "keyword";

/// Search mode: the posts of a page.
pub const MODE_PAGE: &'static str = "page";

/// Search mode: one post.
pub const MODE_POST_URL: &'static str = "post_url";

/// The fallback delay (seconds) before retry `attempt` after a rate limit
/// that named none; after the third the last request is made without retry.
pub open spec fn fallback_retry_delay(attempt: nat) -> u64 {
    if attempt == 0 {
        2
    } else if attempt == 1 {
        5
    } else {
        10
    }
}

/// `s` without trailing `c`s.
pub open spec fn trim_end_char(s: Seq<char>, c: char) -> Seq<char>
    decreases s.len(),
{
    if s.len() > 0 && s.last() == c {
        trim_end_char(s.drop_last(), c)
    } else {
        s
    }
}

/// `s` without leading `c`s.
pub open spec fn trim_start_char(s: Seq<char>, c: char) -> Seq<char>
    decreases s.len(),
{
    if s.len() > 0 && s[0] == c {
        trim_start_char(s.drop_first(), c)
    } else {
        s
    }
}

fn trim_end_slashes(s: &str) -> (r: String)
    ensures
        r@ == trim_end_char(s@, '/'),
{
    let v = crate::text::chars_of(s);
    let mut n = v.len();
    proof {
        assert(s@.take(n as int) == s@);
    }
    while n > 0 && v[n - 1] == '/'
        invariant
            n <= v.len(),
            v@ == s@,
            trim_end_char(s@, '/') == trim_end_char(s@.take(n as int), '/'),
        decreases n,
    {
        proof {
            assert(s@.take(n as int).drop_last() == s@.take(n - 1));
        }
        n = n - 1;
    }
    crate::text::string_from_chars(&v, 0, n)
}

fn trim_start_slashes(s: &str) -> (r: String)
    ensures
        r@ == trim_start_char(s@, '/'),
{
    let v = crate::text::chars_of(s);
    let mut k: usize = 0;
    proof {
        assert(s@.skip(0) == s@);
    }
    while k < v.len() && v[k] == '/'
        invariant
            k <= v.len(),
            v@ == s@,
            trim_start_char(s@, '/') == trim_start_char(s@.skip(k as int), '/'),
        decreases v.len() - k,
    {
        proof {
            assert(s@.skip(k as int).drop_first() == s@.skip(k + 1));
        }
        k = k + 1;
    }
    let n = v.len();
    let r = crate::text::string_from_chars(&v, k, n);
    proof {
        assert(v@.subrange(k as int, n as int) == s@.skip(k as int));
    }
    r
}

/// The Facebook adapter's settings. The HTTP client and the request-rate
/// governor live with the caller that performs the requests.
#[derive(Debug, Clone)]
pub struct FacebookAdapter {
    pub api_key: String,
    pub api_host: String,
    pub base_url: String,
}

/// What to do after a response during the rate-limit retries.
#[derive(Debug, Clone, Copy, PartialEq, Eq, Structural)]
pub enum RateLimitStep {
    /// Use this response.
    Done,
    /// Wait this many seconds and request again.
    RetryAfter { secs: u64 },
}

impl FacebookAdapter {
    /// An adapter with these settings.
    pub fn new(api_key: &str, api_host: &str, base_url: &str) -> (r: FacebookAdapter)
        ensures
            r.api_key@ == api_key@,
            r.api_host@ == api_host@,
            r.base_url@ == base_url@,
    {
        FacebookAdapter {
            api_key: to_owned_string(api_key),
            api_host: to_owned_string(api_host),
            base_url: to_owned_string(base_url),
        }
    }

    /// Builds the adapter from the environment's values: the key from
    /// `FACEBOOK_RAPIDAPI_KEY` (required), the host and the base URL from
    /// `FACEBOOK_RAPIDAPI_HOST` and `FACEBOOK_RAPIDAPI_BASE_URL` or their
    /// defaults.
    pub fn from_env_values(api_key: Option<String>, api_host: Option<String>, base_url: Option<String>) -> (r: Result<FacebookAdapter, GatewayError>)
        ensures
            api_key is None <==> r is Err,
            r matches Err(e) ==> (e matches GatewayError::AuthFailed(m) && m@
                == "FACEBOOK_RAPIDAPI_KEY not set"@),
            r matches Ok(a) ==> {
                &&& api_key matches Some(k) && a.api_key@ == k@
                &&& a.api_host@ == match api_host {
                    Some(h) => h@,
                    None => FACEBOOK_DEFAULT_HOST@,
                }
                &&& a.base_url@ == match base_url {
                    Some(b) => b@,
                    None => FACEBOOK_DEFAULT_BASE_URL@,
                }
            },
    {
        let key = match api_key {
            Some(k) => k,
            None => {
                return Err(GatewayError::AuthFailed(to_owned_string("FACEBOOK_RAPIDAPI_KEY not set")));
            },
        };
        let host = match api_host {
            Some(h) => h,
            None => to_owned_string(FACEBOOK_DEFAULT_HOST),
        };
        let base = match base_url {
            Some(b) => b,
            None => to_owned_string(FACEBOOK_DEFAULT_BASE_URL),
        };
        Ok(FacebookAdapter { api_key: key, api_host: host, base_url: base })
    }

    /// The URL of `path`: the base URL without trailing slashes, one slash,
    /// and the path without leading slashes.
    pub fn build_url(&self, path: &str) -> (r: String)
        ensures
            r@ == trim_end_char(self.base_url@, '/') + "/"@ + trim_start_char(path@, '/'),
    {
        let mut r = trim_end_slashes(self.base_url.as_str());
        push_str(&mut r, "/");
        let p = trim_start_slashes(path);
        push_str(&mut r, p.as_str());
        r
    }

    /// After response number `attempt` (counted from zero) came back with
    /// `status`: a rate limit among the first three responses is retried
    /// after the server's `Retry-After`, else the fallback delay; any other
    /// response, and the fourth, is used.
    pub fn rate_limit_step(attempt: usize, status: u16, retry_after_secs: Option<u64>) -> (r: RateLimitStep)
        ensures
            r == if attempt < 3 && status == 429 {
                RateLimitStep::RetryAfter {
                    secs: match retry_after_secs {
                        Some(s) => s,
                        None => fallback_retry_delay(attempt as nat),
                    },
                }
            } else {
                RateLimitStep::Done
            },
    {
        if attempt < 3 && status == 429 {
            let fallback: u64 = if attempt == 0 {
                2
            } else if attempt == 1 {
                5
            } else {
                10
            };
            RateLimitStep::RetryAfter {
                secs: match retry_after_secs {
                    Some(s) => s,
                    None => fallback,
                },
            }
        } else {
            RateLimitStep::Done
        }
    }

    /// The message of an error body: its `message` field when that is a
    /// string, number or boolean, else the text of its `detail` field, else
    /// the text of the whole body.
    pub fn body_message(message: Option<String>, detail_text: Option<String>, body_text: String) -> (r: String)
        ensures
            r@ == match message {
                Some(m) => m@,
                None => match detail_text {
                    Some(d) => d@,
                    None => body_text@,
                },
            },
    {
        match message {
            Some(m) => m,
            None => match detail_text {
                Some(d) => d,
                None => body_text,
            },
        }
    }

    /// The gateway error for an unsuccessful HTTP status.
    pub fn map_http_error(status: u16, message: String, retry_after_secs: Option<u64>) -> (r: GatewayError)
        ensures
            r == if status == 401 || status == 403 {
                GatewayError::AuthFailed(message)
            } else if status == 404 {
                GatewayError::NotFound(message)
            } else if status == 422 || status == 400 {
                GatewayError::InvalidParams(message)
            } else if status == 429 {
                GatewayError::RateLimited { retry_after_secs }
            } else {
                GatewayError::Api { code: status as i32, message }
            },
    {
        if status == 401 || status == 403 {
            GatewayError::AuthFailed(message)
        } else if status == 404 {
            GatewayError::NotFound(message)
        } else if status == 422 || status == 400 {
            GatewayError::InvalidParams(message)
        } else if status == 429 {
            GatewayError::RateLimited { retry_after_secs }
        } else {
            GatewayError::Api { code: status as i32, message }
        }
    }
}


// ------------------------------------------------------------------
// Extra options
// ------------------------------------------------------------------

/// The text of an extra option: a string as is, an integer in decimal, a
/// boolean as `true` or `false`.
pub open spec fn extra_text(v: Option<ExtraValueView>) -> Option<Seq<char>> {
    match v {
        Some(ExtraValueView::Str(s)) => Some(s),
        Some(ExtraValueView::Int(i)) => Some(decimal_int(i)),
        Some(ExtraValueView::Bool(b)) => Some(if b { "true"@ } else { "false"@ }),
        None => None,
    }
}

/// The truth value of an extra option: a boolean as is; a string that,
/// trimmed and lowercased, reads `true`/`1`/`yes` or `false`/`0`/`no`.
pub open spec fn extra_flag(v: Option<ExtraValueView>) -> Option<bool> {
    match v {
        Some(ExtraValueView::Bool(b)) => Some(b),
        Some(ExtraValueView::Str(s)) => {
            let k = lower_ascii(trim_spec(s));
            if k == "true"@ || k == "1"@ || k == "yes"@ {
                Some(true)
            } else if k == "false"@ || k == "0"@ || k == "no"@ {
                Some(false)
            } else {
                None
            }
        },
        _ => None,
    }
}

/// `Some(s@)` for `Some(s)`.
pub open spec fn string_view(o: Option<String>) -> Option<Seq<char>> {
    match o {
        Some(s) => Some(s@),
        None => None,
    }
}

/// The UTC timestamp of the time `h:m:s` on the day written `YYYY-MM-DD` in
/// `date`, as chrono computes it, or `None` when chrono does not parse the
/// date or the time is not a valid time of day.
pub uninterp spec fn chrono_timestamp_at(date: Seq<char>, h: u32, m: u32, s: u32) -> Option<i64>;

/// Parses `date` with chrono's `NaiveDate::parse_from_str(date, "%Y-%m-%d")`,
/// sets the time with `and_hms_opt(h, m, s)` and takes the UTC timestamp
/// (`and_utc().timestamp()`). The result is named by `chrono_timestamp_at`, a
/// function of the arguments alone; the format's parsing rules and the
/// calendar arithmetic are not restated here.
#[verifier::external_body]
fn chrono_ymd_hms_timestamp(date: &str, h: u32, m: u32, s: u32) -> (r: Option<i64>)
    ensures
        r == chrono_timestamp_at(date@, h, m, s),
{
    let day = chrono::NaiveDate::parse_from_str(date, "%Y-%m-%d").ok()?;
    let naive = day.and_hms_opt(h, m, s)?;
    Some(naive.and_utc().timestamp())
}

/// The timestamp of the first second (00:00:00) of the day written in
/// `date`, or with `end_of_day` of its last second (23:59:59).
pub open spec fn day_timestamp(date: Seq<char>, end_of_day: bool) -> Option<i64> {
    if end_of_day {
        chrono_timestamp_at(date, 23, 59, 59)
    } else {
        chrono_timestamp_at(date, 0, 0, 0)
    }
}

// ------------------------------------------------------------------
// Post filtering and ordering
// ------------------------------------------------------------------

/// `a < b` for optional timestamps, an absent one being the smallest.
pub open spec fn ts_lt(a: Option<i64>, b: Option<i64>) -> bool {
    match (a, b) {
        (None, Some(_)) => true,
        (Some(x), Some(y)) => x < y,
        _ => false,
    }
}

/// A post falls in the window: it has a timestamp, not before `start` and
/// not after `end`.
pub open spec fn in_window(p: Content, start: Option<i64>, end: Option<i64>) -> bool {
    match p.created_at {
        None => false,
        Some(t) => (start matches Some(s) ==> t >= s) && (end matches Some(e) ==> t <= e),
    }
}

/// The posts of `s` in the window, in order.
pub open spec fn keep_window(s: Seq<Content>, start: Option<i64>, end: Option<i64>) -> Seq<Content>
    decreases s.len(),
{
    if s.len() == 0 {
        seq![]
    } else {
        let k = keep_window(s.drop_last(), start, end);
        if in_window(s.last(), start, end) {
            k.push(s.last())
        } else {
            k
        }
    }
}

/// Inserts `x` into `sorted` (newest first) after every post that is not
/// older than `x`.
pub open spec fn insert_newest_first(sorted: Seq<Content>, x: Content) -> Seq<Content>
    decreases sorted.len(),
{
    if sorted.len() == 0 {
        seq![x]
    } else if !ts_lt(sorted.last().created_at, x.created_at) {
        sorted.push(x)
    } else {
        insert_newest_first(sorted.drop_last(), x).push(sorted.last())
    }
}

/// `s` ordered newest first; posts with equal timestamps keep their order.
pub open spec fn newest_first(s: Seq<Content>) -> Seq<Content>
    decreases s.len(),
{
    if s.len() == 0 {
        seq![]
    } else {
        insert_newest_first(newest_first(s.drop_last()), s.last())
    }
}

/// The posts kept by a filter: those in the window when a bound is given,
/// newest first when asked or when a bound is given, at most `count`.
pub open spec fn filtered_posts(s: Seq<Content>, start: Option<i64>, end: Option<i64>, recent: bool, count: nat) -> Seq<Content> {
    let bounded = start is Some || end is Some;
    let w = if bounded {
        keep_window(s, start, end)
    } else {
        s
    };
    let o = if recent || bounded {
        newest_first(w)
    } else {
        w
    };
    o.take(if count < o.len() { count as int } else { o.len() as int })
}

fn ts_less(a: Option<i64>, b: Option<i64>) -> (r: bool)
    ensures
        r == ts_lt(a, b),
{
    match (a, b) {
        (None, Some(_)) => true,
        (Some(x), Some(y)) => x < y,
        _ => false,
    }
}

fn insert_sorted(v: &mut Vec<Content>, x: Content)
    ensures
        final(v)@ == insert_newest_first(old(v)@, x),
{
    let ghost o = v@;
    let mut j = v.len();
    proof {
        assert(o.take(j as int) == o);
        assert(o.skip(j as int) =~= Seq::<Content>::empty());
    }
    while j > 0 && ts_less(v[j - 1].created_at, x.created_at)
        invariant
            j <= v.len(),
            v@ == o,
            insert_newest_first(o, x) == insert_newest_first(o.take(j as int), x) + o.skip(j as int),
        decreases j,
    {
        proof {
            let t = o.take(j as int);
            assert(t.last() == o[j - 1]);
            assert(t.drop_last() == o.take(j - 1));
            assert(o.skip(j - 1) == seq![o[j - 1]] + o.skip(j as int));
            assert(insert_newest_first(t, x) == insert_newest_first(o.take(j - 1), x).push(o[j - 1]));
            assert(insert_newest_first(o.take(j - 1), x).push(o[j - 1]) + o.skip(j as int)
                =~= insert_newest_first(o.take(j - 1), x) + o.skip(j - 1));
        }
        j = j - 1;
    }
    proof {
        if j == 0 {
            assert(o.take(0) =~= Seq::<Content>::empty());
        } else {
            assert(o.take(j as int).last() == o[j - 1]);
        }
        assert(insert_newest_first(o.take(j as int), x) == o.take(j as int).push(x));
    }
    v.insert(j, x);
    proof {
        assert(v@ =~= o.take(j as int).push(x) + o.skip(j as int));
    }
}

fn sort_newest_first(posts: Vec<Content>) -> (r: Vec<Content>)
    ensures
        r@ == newest_first(posts@),
{
    let ghost s = posts@;
    let mut out: Vec<Content> = Vec::new();
    for p in it: posts.into_iter()
        invariant
            it.seq() == s,
            out@ == newest_first(s.take(it.index() as int)),
    {
        proof {
            assert(s.take(it.index() + 1).drop_last() == s.take(it.index() as int));
            assert(s.take(it.index() + 1).last() == p);
        }
        insert_sorted(&mut out, p);
    }
    proof {
        assert(s.take(s.len() as int) == s);
    }
    out
}

fn retain_window(posts: Vec<Content>, start: Option<i64>, end: Option<i64>) -> (r: Vec<Content>)
    ensures
        r@ == keep_window(posts@, start, end),
{
    let ghost s = posts@;
    let mut out: Vec<Content> = Vec::new();
    for p in it: posts.into_iter()
        invariant
            it.seq() == s,
            out@ == keep_window(s.take(it.index() as int), start, end),
    {
        proof {
            assert(s.take(it.index() + 1).drop_last() == s.take(it.index() as int));
            assert(s.take(it.index() + 1).last() == p);
        }
        let keep = match p.created_at {
            None => false,
            Some(t) => {
                let after_start = match start {
                    Some(st) => t >= st,
                    None => true,
                };
                let before_end = match end {
                    Some(en) => t <= en,
                    None => true,
                };
                after_start && before_end
            },
        };
        if keep {
            out.push(p);
        }
    }
    proof {
        assert(s.take(s.len() as int) == s);
    }
    out
}

impl FacebookAdapter {
    /// The text of the extra option `key`.
    pub fn extra_string(options: &SearchOptions, key: &str) -> (r: Option<String>)
        ensures
            string_view(r) == extra_text(options.extra.spec_get(key@)),
    {
        match options.extra.get(key) {
            Some(ExtraValue::Str(s)) => Some(s.clone()),
            Some(ExtraValue::Int(i)) => Some(i64_to_decimal(*i)),
            Some(ExtraValue::Bool(b)) => Some(
                if *b {
                    to_owned_string("true")
                } else {
                    to_owned_string("false")
                },
            ),
            None => None,
        }
    }

    /// The truth value of the extra option `key`.
    pub fn extra_bool(options: &SearchOptions, key: &str) -> (r: Option<bool>)
        ensures
            r == extra_flag(options.extra.spec_get(key@)),
    {
        match options.extra.get(key) {
            Some(ExtraValue::Bool(b)) => Some(*b),
            Some(ExtraValue::Str(s)) => {
                let t = trim(s.as_str());
                let k = to_ascii_lowercase(t.as_str());
                let k = k.as_str();
                if str_eq(k, "true") || str_eq(k, "1") || str_eq(k, "yes") {
                    Some(true)
                } else if str_eq(k, "false") || str_eq(k, "0") || str_eq(k, "no") {
                    Some(false)
                } else {
                    None
                }
            },
            _ => None,
        }
    }

    /// The timestamp of the first (or, with `end_of_day`, the last) second
    /// of the day written `YYYY-MM-DD`.
    pub fn parse_date(date: &str, end_of_day: bool) -> (r: Option<i64>)
        ensures
            r == (if end_of_day {
                chrono_timestamp_at(date@, 23, 59, 59)
            } else {
                chrono_timestamp_at(date@, 0, 0, 0)
            }),
            r == day_timestamp(date@, end_of_day),
    {
        if end_of_day {
            chrono_ymd_hms_timestamp(date, 23, 59, 59)
        } else {
            chrono_ymd_hms_timestamp(date, 0, 0, 0)
        }
    }

    /// Keeps the posts between `start_ts` and `end_ts` when either is given,
    /// orders them newest first when `recent` or a bound is given, and keeps
    /// at most `count`.
    pub fn filter_posts_between(posts: Vec<Content>, start_ts: Option<i64>, end_ts: Option<i64>, recent: bool, count: u32) -> (r: Vec<Content>)
        ensures
            r@ == filtered_posts(posts@, start_ts, end_ts, recent, count as nat),
    {
        let bounded = start_ts.is_some() || end_ts.is_some();
        let windowed = if bounded {
            retain_window(posts, start_ts, end_ts)
        } else {
            posts
        };
        let mut ordered = if recent || bounded {
            sort_newest_first(windowed)
        } else {
            windowed
        };
        let c = count as usize;
        if c < ordered.len() {
            ordered.truncate(c);
        } else {
            proof {
                assert(ordered@.take(ordered@.len() as int) == ordered@);
            }
        }
        ordered
    }

    /// Filters posts by the options' `start_date`, `end_date` and
    /// `recent_posts`, keeping at most the options' count.
    pub fn filter_posts(posts: Vec<Content>, options: &SearchOptions) -> (r: Vec<Content>)
        ensures
            r@ == filtered_posts(
                posts@,
                match extra_text(options.extra.spec_get(KEY_START_DATE@)) {
                    Some(d) => day_timestamp(d, false),
                    None => None,
                },
                match extra_text(options.extra.spec_get(KEY_END_DATE@)) {
                    Some(d) => day_timestamp(d, true),
                    None => None,
                },
                match extra_flag(options.extra.spec_get(KEY_RECENT_POSTS@)) {
                    Some(b) => b,
                    None => false,
                },
                options.count as nat,
            ),
    {
        let start_ts = match Self::extra_string(options, KEY_START_DATE) {
            Some(d) => Self::parse_date(d.as_str(), false),
            None => None,
        };
        let end_ts = match Self::extra_string(options, KEY_END_DATE) {
            Some(d) => Self::parse_date(d.as_str(), true),
            None => None,
        };
        let recent = match Self::extra_bool(options, KEY_RECENT_POSTS) {
            Some(b) => b,
            None => false,
        };
        Self::filter_posts_between(posts, start_ts, end_ts, recent, options.count)
    }

    /// The keyword, followed by the trimmed location when one is given and
    /// not blank.
    pub fn discovery_query(query: &str, location: Option<String>) -> (r: String)
        ensures
            r@ == match location {
                Some(l) => if trim_spec(l@).len() > 0 {
                    query@ + " "@ + trim_spec(l@)
                } else {
                    query@
                },
                None => query@,
            },
    {
        match location {
            Some(l) => {
                let t = trim(l.as_str());
                if !is_blank(l.as_str()) {
                    let mut r = to_owned_string(query);
                    push_str(&mut r, " ");
                    push_str(&mut r, t.as_str());
                    r
                } else {
                    to_owned_string(query)
                }
            },
            None => to_owned_string(query),
        }
    }

    /// The cursor of a response, unless it is blank.
    pub fn next_cursor(cursor: Option<String>) -> (r: Option<String>)
        ensures
            r == match cursor {
                Some(c) => if trim_spec(c@).len() > 0 {
                    Some(c)
                } else {
                    None
                },
                None => None,
            },
    {
        match cursor {
            Some(c) => {
                if !is_blank(c.as_str()) {
                    Some(c)
                } else {
                    None
                }
            },
            None => None,
        }
    }

    /// The query parameters with `cursor` added when it is given and not
    /// blank.
    pub fn append_cursor_query(query: &Vec<(String, String)>, cursor: Option<&str>) -> (r: Vec<(String, String)>)
        ensures
            r@.len() == query@.len() + match cursor {
                Some(c) => if trim_spec(c@).len() > 0 {
                    1int
                } else {
                    0int
                },
                None => 0int,
            },
            forall|i: int|
                0 <= i < query@.len() ==> (#[trigger] r@[i]).0@ == query@[i].0@ && r@[i].1@
                    == query@[i].1@,
            (cursor matches Some(c) && trim_spec(c@).len() > 0) ==> (r@.last().0@ == "cursor"@
                && r@.last().1@ == cursor.unwrap()@),
    {
        let mut r: Vec<(String, String)> = Vec::new();
        let mut i: usize = 0;
        while i < query.len()
            invariant
                i <= query.len(),
                r@.len() == i,
                forall|k: int|
                    0 <= k < i ==> (#[trigger] r@[k]).0@ == query@[k].0@ && r@[k].1@ == query@[k].1@,
            decreases query.len() - i,
        {
            r.push((query[i].0.clone(), query[i].1.clone()));
            i = i + 1;
        }
        match cursor {
            Some(c) => {
                if !is_blank(c) {
                    let ghost before = r@;
                    r.push((to_owned_string("cursor"), to_owned_string(c)));
                    proof {
                        assert forall|k: int| 0 <= k < query@.len() implies (#[trigger] r@[k]).0@
                            == query@[k].0@ && r@[k].1@ == query@[k].1@ by {
                            assert(r@[k] == before[k]);
                        }
                    }
                }
            },
            None => {},
        }
        r
    }
}


// ------------------------------------------------------------------
// Posts and comments
// ------------------------------------------------------------------

/// The fields of a post record that the conversion reads, each as the API
/// gives it (strings, numbers and booleans read as text; counts as
/// integers).
#[derive(Debug, Clone)]
pub struct FacebookPostFields {
    pub post_id: Option<String>,
    pub author_id: Option<String>,
    pub author_name: Option<String>,
    pub message: Option<String>,
    pub message_rich: Option<String>,
    pub url: Option<String>,
    pub reactions_count: Option<i64>,
    pub comments_count: Option<i64>,
    pub reshare_count: Option<i64>,
    pub timestamp: Option<i64>,
}

/// The fields of a comment record that the conversion reads.
#[derive(Debug, Clone)]
pub struct FacebookCommentFields {
    pub legacy_comment_id: Option<String>,
    pub comment_id: Option<String>,
    pub author_id: Option<String>,
    pub author_name: Option<String>,
    pub depth: Option<i64>,
    pub message: Option<String>,
    pub sticker_label: Option<String>,
    pub parent_comment_id: Option<String>,
    pub reactions_count: Option<i64>,
    pub replies_count: Option<i64>,
    pub created_time: Option<i64>,
}

/// The first present text of `a` and `b`, else `default`.
pub open spec fn first_text(a: Option<String>, b: Option<String>, default: Seq<char>) -> Seq<char> {
    match a {
        Some(x) => x@,
        None => match b {
            Some(y) => y@,
            None => default,
        },
    }
}

/// The text shown for a comment without a message or sticker.
pub const EMPTY_COMMENT_TEXT: &'static str = "[facebook comment without text]";

fn copy_text(o: &Option<String>) -> (r: Option<String>)
    ensures
        r == *o,
{
    match o {
        Some(s) => Some(s.clone()),
        None => None,
    }
}

fn first_or_empty(a: Option<String>, b: Option<String>) -> (r: String)
    ensures
        r@ == first_text(a, b, seq![]),
{
    match a {
        Some(x) => x,
        None => match b {
            Some(y) => y,
            None => String::new(),
        },
    }
}

fn first_string(a: Option<String>, b: Option<String>, default: &str) -> (r: String)
    ensures
        r@ == first_text(a, b, default@),
{
    match a {
        Some(x) => x,
        None => match b {
            Some(y) => y,
            None => to_owned_string(default),
        },
    }
}

impl FacebookAdapter {
    /// The content for a post record, or `None` without a post id: the
    /// author is the author's id, else name; the description the message,
    /// else the rich message; missing counts are zero.
    pub fn convert_content(post: FacebookPostFields, raw: serde_json::Value) -> (r: Option<Content>)
        ensures
            post.post_id is None <==> r is None,
            r matches Some(c) ==> {
                &&& c.platform@ == "facebook"@
                &&& Some(c.content_id) == post.post_id
                &&& c.author@ == first_text(post.author_id, post.author_name, seq![])
                &&& c.author_name == post.author_name
                &&& c.description@ == first_text(post.message, post.message_rich, seq![])
                &&& c.url == post.url
                &&& c.engagement.likes == match post.reactions_count { Some(n) => n, None => 0 }
                &&& c.engagement.comments == match post.comments_count { Some(n) => n, None => 0 }
                &&& c.engagement.shares == match post.reshare_count { Some(n) => n, None => 0 }
                &&& c.engagement.views == 0
                &&& c.created_at == post.timestamp
                &&& c.raw_data == Some(raw)
            },
    {
        let post_id = match post.post_id {
            Some(id) => id,
            None => {
                return None;
            },
        };
        let author = first_or_empty(post.author_id, copy_text(&post.author_name));
        let description = first_or_empty(post.message, post.message_rich);
        Some(
            Content {
                platform: to_owned_string("facebook"),
                content_id: post_id,
                author,
                author_name: post.author_name,
                description,
                url: post.url,
                engagement: Engagement {
                    likes: match post.reactions_count {
                        Some(n) => n,
                        None => 0,
                    },
                    comments: match post.comments_count {
                        Some(n) => n,
                        None => 0,
                    },
                    shares: match post.reshare_count {
                        Some(n) => n,
                        None => 0,
                    },
                    views: 0,
                },
                created_at: post.timestamp,
                raw_data: Some(raw),
            },
        )
    }

    /// The text of a comment: its message, else its sticker's label, else a
    /// placeholder.
    pub fn comment_text(comment: &FacebookCommentFields) -> (r: String)
        ensures
            r@ == first_text(comment.message, comment.sticker_label, EMPTY_COMMENT_TEXT@),
    {
        first_string(copy_text(&comment.message), copy_text(&comment.sticker_label), EMPTY_COMMENT_TEXT)
    }

    /// The comment for a comment record of post `post_id`, or `None`
    /// without an id (the legacy id, else the comment id).
    pub fn convert_comment(comment: FacebookCommentFields, post_id: &str, raw: serde_json::Value) -> (r: Option<Comment>)
        ensures
            (comment.legacy_comment_id is None && comment.comment_id is None) <==> r is None,
            r matches Some(c) ==> {
                &&& c.platform@ == "facebook"@
                &&& c.comment_id@ == first_text(comment.legacy_comment_id, comment.comment_id, seq![])
                &&& c.content_id@ == post_id@
                &&& c.parent_id == comment.parent_comment_id
                &&& c.author@ == first_text(comment.author_id, comment.author_name, seq![])
                &&& c.author_name == comment.author_name
                &&& c.author_uid == comment.author_id
                &&& c.text@ == first_text(comment.message, comment.sticker_label, EMPTY_COMMENT_TEXT@)
                &&& c.likes == match comment.reactions_count { Some(n) => n, None => 0 }
                &&& c.reply_count == (match comment.replies_count { Some(n) => n, None => 0 }) as i32
                &&& c.created_at == comment.created_time
                &&& c.language is None
                &&& c.is_reply == ((match comment.depth { Some(d) => d, None => 0 }) > 0
                    || comment.parent_comment_id is Some)
                &&& c.raw_data == Some(raw)
            },
    {
        if comment.legacy_comment_id.is_none() && comment.comment_id.is_none() {
            return None;
        }
        let text = Self::comment_text(&comment);
        let id = first_or_empty(comment.legacy_comment_id, comment.comment_id);
        let author = first_or_empty(copy_text(&comment.author_id), copy_text(&comment.author_name));
        let depth = match comment.depth {
            Some(d) => d,
            None => 0,
        };
        let replies = match comment.replies_count {
            Some(n) => n,
            None => 0,
        };
        let is_reply = depth > 0 || comment.parent_comment_id.is_some();
        Some(
            Comment {
                platform: to_owned_string("facebook"),
                comment_id: id,
                content_id: to_owned_string(post_id),
                parent_id: comment.parent_comment_id,
                author,
                author_name: comment.author_name,
                author_uid: comment.author_id,
                text,
                likes: match comment.reactions_count {
                    Some(n) => n,
                    None => 0,
                },
                reply_count: replies as i32,
                created_at: comment.created_time,
                language: None,
                is_reply,
                raw_data: Some(raw),
            },
        )
    }
}

// ------------------------------------------------------------------
// Search modes
// ------------------------------------------------------------------

/// What a search asks the API for.
#[derive(Debug, Clone)]
pub enum FacebookSearchPlan {
    /// Paginated post search for this query.
    PostSearch { query: String },
    /// Pages (or places) found by this query, then their posts.
    CandidatePages { query: String, path: &'static str },
    /// The posts of the page named by the options' query.
    PagePosts,
    /// One post.
    Post { lookup_id: String },
}

/// The text of `o`, else `default`.
pub open spec fn text_or_default(o: Option<Seq<char>>, default: Seq<char>) -> Seq<char> {
    match o {
        Some(s) => s,
        None => default,
    }
}

/// The discovery query: the keyword and the trimmed, non-blank location.
pub open spec fn discovery_of(query: Seq<char>, location: Option<Seq<char>>) -> Seq<char> {
    match location {
        Some(l) => if trim_spec(l).len() > 0 {
            query + " "@ + trim_spec(l)
        } else {
            query
        },
        None => query,
    }
}

/// The plan of a search, or the error for an unknown mode or search type.
pub open spec fn plan_matches(options: SearchOptions, r: Result<FacebookSearchPlan, GatewayError>) -> bool {
    let mode = text_or_default(extra_text(options.extra.spec_get(KEY_MODE@)), MODE_KEYWORD@);
    if mode == MODE_KEYWORD@ {
        let search_type = text_or_default(
            extra_text(options.extra.spec_get(KEY_SEARCH_TYPE@)),
            "posts"@,
        );
        let q = discovery_of(options.query@, extra_text(options.extra.spec_get(KEY_LOCATION@)));
        if search_type == "posts"@ {
            r matches Ok(FacebookSearchPlan::PostSearch { query }) && query@ == q
        } else if search_type == "pages"@ {
            r matches Ok(FacebookSearchPlan::CandidatePages { query, path }) && query@ == q
                && path@ == "/search/pages"@
        } else if search_type == "places"@ {
            r matches Ok(FacebookSearchPlan::CandidatePages { query, path }) && query@ == q
                && path@ == "/search/places"@
        } else {
            r matches Err(GatewayError::InvalidParams(m)) && m@
                == "unsupported facebook search_type: "@ + search_type
        }
    } else if mode == MODE_PAGE@ {
        r matches Ok(FacebookSearchPlan::PagePosts)
    } else if mode == MODE_POST_URL@ {
        r matches Ok(FacebookSearchPlan::Post { lookup_id }) && lookup_id@ == text_or_default(
            extra_text(options.extra.spec_get(KEY_POST_LOOKUP_ID@)),
            options.query@,
        )
    } else {
        r matches Err(GatewayError::InvalidParams(m)) && m@ == "unsupported facebook search mode: "@
            + mode
    }
}

impl FacebookAdapter {
    /// The plan of a search with `options`: the mode (default keyword)
    /// chooses between a keyword search, a page's posts and one post; a
    /// keyword search searches posts, pages or places by the keyword and the
    /// location.
    pub fn search_plan(options: &SearchOptions) -> (r: Result<FacebookSearchPlan, GatewayError>)
        ensures
            plan_matches(*options, r),
    {
        let mode = match Self::extra_string(options, KEY_MODE) {
            Some(m) => m,
            None => to_owned_string(MODE_KEYWORD),
        };
        if str_eq(mode.as_str(), MODE_KEYWORD) {
            let search_type = match Self::extra_string(options, KEY_SEARCH_TYPE) {
                Some(t) => t,
                None => to_owned_string("posts"),
            };
            let location = Self::extra_string(options, KEY_LOCATION);
            let q = Self::discovery_query(options.query.as_str(), location);
            if str_eq(search_type.as_str(), "posts") {
                Ok(FacebookSearchPlan::PostSearch { query: q })
            } else if str_eq(search_type.as_str(), "pages") {
                Ok(FacebookSearchPlan::CandidatePages { query: q, path: "/search/pages" })
            } else if str_eq(search_type.as_str(), "places") {
                Ok(FacebookSearchPlan::CandidatePages { query: q, path: "/search/places" })
            } else {
                Err(
                    GatewayError::InvalidParams(
                        crate::domain::errors::join2(
                            "unsupported facebook search_type: ",
                            search_type.as_str(),
                        ),
                    ),
                )
            }
        } else if str_eq(mode.as_str(), MODE_PAGE) {
            Ok(FacebookSearchPlan::PagePosts)
        } else if str_eq(mode.as_str(), MODE_POST_URL) {
            let lookup_id = match Self::extra_string(options, KEY_POST_LOOKUP_ID) {
                Some(id) => id,
                None => options.query.clone(),
            };
            Ok(FacebookSearchPlan::Post { lookup_id })
        } else {
            Err(
                GatewayError::InvalidParams(
                    crate::domain::errors::join2(
                        "unsupported facebook search mode: ",
                        mode.as_str(),
                    ),
                ),
            )
        }
    }

    /// Whether a page identifier already is a numeric page id.
    pub fn is_numeric_page_id(identifier: &str) -> (r: bool)
        ensures
            r == (forall|i: int| 0 <= i < identifier@.len() ==> '0' <= #[trigger] identifier@[i] <= '9'),
    {
        for c in it: identifier.chars()
            invariant
                it.seq() == identifier@,
                forall|i: int| 0 <= i < it.index() ==> '0' <= #[trigger] identifier@[i] <= '9',
        {
            if !('0' <= c && c <= '9') {
                return false;
            }
        }
        true
    }
}


// ------------------------------------------------------------------
// Cursor loops
// ------------------------------------------------------------------

/// Abstract state of a cursor guard.
pub ghost struct CursorGuardView {
    pub seen: Seq<Seq<char>>,
    pub empty_hops: nat,
}

/// The guard's decision after a page with `page_count` items and next
/// cursor `next`: stop after too many consecutive empty pages, when there is
/// no next cursor, or when the cursor was followed before; else follow it.
pub open spec fn guard_next(g: CursorGuardView, page_count: nat, next: Option<Seq<char>>) -> Option<Seq<char>> {
    let hops = if page_count == 0 { g.empty_hops + 1 } else { 0 };
    if hops >= MAX_EMPTY_CURSOR_HOPS {
        None
    } else {
        match next {
            None => None,
            Some(c) => if g.seen.contains(c) {
                None
            } else {
                Some(c)
            },
        }
    }
}

/// Stops a cursor loop on repeated cursors and on runs of empty pages.
pub struct CursorGuard {
    seen: Vec<String>,
    empty_hops: usize,
}

impl View for CursorGuard {
    type V = CursorGuardView;

    closed spec fn view(&self) -> CursorGuardView {
        CursorGuardView { seen: views(self.seen@), empty_hops: self.empty_hops as nat }
    }
}

impl CursorGuard {
    /// A guard that has seen nothing.
    pub fn new() -> (r: CursorGuard)
        ensures
            r@.seen.len() == 0,
            r@.empty_hops == 0,
    {
        let r = CursorGuard { seen: Vec::new(), empty_hops: 0 };
        proof {
            assert(views(r.seen@) =~= Seq::<Seq<char>>::empty());
        }
        r
    }

    /// Records a page with `page_count` items and next cursor `next`, and
    /// returns the cursor to follow, or `None` to stop.
    pub fn advance(&mut self, page_count: usize, next: Option<String>) -> (r: Option<String>)
        requires
            old(self)@.empty_hops < MAX_EMPTY_CURSOR_HOPS,
        ensures
            opt_view(r) == guard_next(old(self)@, page_count as nat, opt_view(next)),
            final(self)@.empty_hops == if page_count == 0 {
                old(self)@.empty_hops + 1
            } else {
                0
            },
            final(self)@.seen == match r {
                Some(c) => old(self)@.seen.push(c@),
                None => old(self)@.seen,
            },
            r is Some ==> final(self)@.empty_hops < MAX_EMPTY_CURSOR_HOPS,
    {
        if page_count == 0 {
            self.empty_hops = self.empty_hops + 1;
            if self.empty_hops >= MAX_EMPTY_CURSOR_HOPS {
                return None;
            }
        } else {
            self.empty_hops = 0;
        }
        match next {
            None => None,
            Some(c) => {
                if contains_string(&self.seen, &c) {
                    None
                } else {
                    let ghost before = self.seen@;
                    self.seen.push(c.clone());
                    proof {
                        assert(views(self.seen@) =~= views(before).push(c@));
                    }
                    Some(c)
                }
            },
        }
    }
}

/// Adding a page's posts: a post whose id was collected before is dropped.
pub open spec fn add_new_posts(acc: Seq<Content>, page: Seq<Content>) -> Seq<Content>
    decreases page.len(),
{
    if page.len() == 0 {
        acc
    } else {
        let a = add_new_posts(acc, page.drop_last());
        if crate::adapters::content_pager::ids_of(a).contains(page.last().content_id@) {
            a
        } else {
            a.push(page.last())
        }
    }
}

proof fn lemma_insert_len(sorted: Seq<Content>, x: Content)
    ensures
        insert_newest_first(sorted, x).len() == sorted.len() + 1,
    decreases sorted.len(),
{
    if sorted.len() > 0 && ts_lt(sorted.last().created_at, x.created_at) {
        lemma_insert_len(sorted.drop_last(), x);
    }
}

/// Ordering posts newest first keeps their number.
pub proof fn lemma_newest_first_len(s: Seq<Content>)
    ensures
        newest_first(s).len() == s.len(),
    decreases s.len(),
{
    if s.len() > 0 {
        lemma_newest_first_len(s.drop_last());
        lemma_insert_len(newest_first(s.drop_last()), s.last());
    }
}

/// The number of posts a filter keeps before the count cap.
pub open spec fn candidates_len(s: Seq<Content>, start: Option<i64>, end: Option<i64>) -> nat {
    if start is Some || end is Some {
        keep_window(s, start, end).len()
    } else {
        s.len()
    }
}

proof fn lemma_filtered_len(s: Seq<Content>, start: Option<i64>, end: Option<i64>, recent: bool, count: nat)
    ensures
        filtered_posts(s, start, end, recent, count).len() == if count < candidates_len(s, start, end) {
            count
        } else {
            candidates_len(s, start, end)
        },
{
    let bounded = start is Some || end is Some;
    let w = if bounded {
        keep_window(s, start, end)
    } else {
        s
    };
    lemma_newest_first_len(w);
}

fn window_len(posts: &Vec<Content>, start: Option<i64>, end: Option<i64>) -> (r: usize)
    ensures
        r == keep_window(posts@, start, end).len(),
{
    let mut n: usize = 0;
    let mut i: usize = 0;
    while i < posts.len()
        invariant
            i <= posts.len(),
            n == keep_window(posts@.take(i as int), start, end).len(),
            n <= i,
        decreases posts.len() - i,
    {
        proof {
            assert(posts@.take(i + 1).drop_last() == posts@.take(i as int));
            assert(posts@.take(i + 1).last() == posts@[i as int]);
        }
        let keep = match posts[i].created_at {
            None => false,
            Some(t) => {
                let after_start = match start {
                    Some(st) => t >= st,
                    None => true,
                };
                let before_end = match end {
                    Some(en) => t <= en,
                    None => true,
                };
                after_start && before_end
            },
        };
        if keep {
            n = n + 1;
        }
        i = i + 1;
    }
    proof {
        assert(posts@.take(posts@.len() as int) == posts@);
    }
    n
}

/// Abstract state of a post crawl.
pub ghost struct PostCrawlView {
    pub posts: Seq<Content>,
    pub guard: CursorGuardView,
    pub start_ts: Option<i64>,
    pub end_ts: Option<i64>,
    pub recent: bool,
    pub count: nat,
}

/// A paginated post crawl (post search or a page's posts): new posts by id,
/// stopping once the filtered posts reach the count, on a run of empty
/// pages, without a next cursor or on a repeated one.
pub struct PostCrawl {
    posts: Vec<Content>,
    seen_ids: Vec<String>,
    guard: CursorGuard,
    start_ts: Option<i64>,
    end_ts: Option<i64>,
    recent: bool,
    count: u32,
}

impl View for PostCrawl {
    type V = PostCrawlView;

    closed spec fn view(&self) -> PostCrawlView {
        PostCrawlView {
            posts: self.posts@,
            guard: self.guard@,
            start_ts: self.start_ts,
            end_ts: self.end_ts,
            recent: self.recent,
            count: self.count as nat,
        }
    }
}

impl PostCrawl {
    /// Well-formedness.
    pub closed spec fn wf(&self) -> bool {
        &&& views(self.seen_ids@) == crate::adapters::content_pager::ids_of(self.posts@)
        &&& self.guard@.empty_hops <= MAX_EMPTY_CURSOR_HOPS
    }

    /// A crawl that filters with these bounds and keeps at most `count`.
    pub fn new(start_ts: Option<i64>, end_ts: Option<i64>, recent: bool, count: u32) -> (r: PostCrawl)
        ensures
            r.wf(),
            r@.posts.len() == 0,
            r@.guard.seen.len() == 0,
            r@.guard.empty_hops == 0,
            r@.start_ts == start_ts,
            r@.end_ts == end_ts,
            r@.recent == recent,
            r@.count == count,
    {
        let r = PostCrawl {
            posts: Vec::new(),
            seen_ids: Vec::new(),
            guard: CursorGuard::new(),
            start_ts,
            end_ts,
            recent,
            count,
        };
        proof {
            assert(views(r.seen_ids@) =~= crate::adapters::content_pager::ids_of(r.posts@));
        }
        r
    }

    /// A crawl for a search with `options`: the date bounds, the ordering
    /// and the count that `filter_posts` applies.
    pub fn for_options(options: &SearchOptions) -> (r: PostCrawl)
        ensures
            r.wf(),
            r@.posts.len() == 0,
            r@.guard.seen.len() == 0,
            r@.guard.empty_hops == 0,
            r@.start_ts == match extra_text(options.extra.spec_get(KEY_START_DATE@)) {
                Some(d) => day_timestamp(d, false),
                None => None,
            },
            r@.end_ts == match extra_text(options.extra.spec_get(KEY_END_DATE@)) {
                Some(d) => day_timestamp(d, true),
                None => None,
            },
            r@.recent == match extra_flag(options.extra.spec_get(KEY_RECENT_POSTS@)) {
                Some(b) => b,
                None => false,
            },
            r@.count == options.count,
    {
        let start_ts = match FacebookAdapter::extra_string(options, KEY_START_DATE) {
            Some(d) => FacebookAdapter::parse_date(d.as_str(), false),
            None => None,
        };
        let end_ts = match FacebookAdapter::extra_string(options, KEY_END_DATE) {
            Some(d) => FacebookAdapter::parse_date(d.as_str(), true),
            None => None,
        };
        let recent = match FacebookAdapter::extra_bool(options, KEY_RECENT_POSTS) {
            Some(b) => b,
            None => false,
        };
        Self::new(start_ts, end_ts, recent, options.count)
    }

    /// Adds the posts of a page whose ids were not collected before.
    pub fn add_posts(&mut self, page: Vec<Content>)
        requires
            old(self).wf(),
        ensures
            final(self).wf(),
            final(self)@ == (PostCrawlView { posts: add_new_posts(old(self)@.posts, page@), ..old(self)@ }),
    {
        let ghost p = page@;
        let ghost acc0 = self.posts@;
        for c in it: page.into_iter()
            invariant
                it.seq() == p,
                self.posts@ == add_new_posts(acc0, p.take(it.index() as int)),
                views(self.seen_ids@) == crate::adapters::content_pager::ids_of(self.posts@),
                self.guard == old(self).guard,
                self.start_ts == old(self).start_ts,
                self.end_ts == old(self).end_ts,
                self.recent == old(self).recent,
                self.count == old(self).count,
        {
            proof {
                assert(p.take(it.index() + 1).drop_last() == p.take(it.index() as int));
                assert(p.take(it.index() + 1).last() == c);
            }
            if !contains_string(&self.seen_ids, &c.content_id) {
                let id = c.content_id.clone();
                let ghost before = self.posts@;
                let ghost seen_before = self.seen_ids@;
                self.posts.push(c);
                self.seen_ids.push(id);
                proof {
                    assert(views(self.seen_ids@) =~= views(seen_before).push(id@));
                    assert(crate::adapters::content_pager::ids_of(self.posts@)
                        =~= crate::adapters::content_pager::ids_of(before).push(id@));
                }
            }
        }
        proof {
            assert(p.take(p.len() as int) == p);
        }
    }

    /// Whether the filtered posts already reach the count.
    pub fn reached_limit(&self) -> (r: bool)
        ensures
            r == (filtered_posts(
                self@.posts,
                self@.start_ts,
                self@.end_ts,
                self@.recent,
                self@.count,
            ).len() >= self@.count),
    {
        proof {
            lemma_filtered_len(self@.posts, self.start_ts, self.end_ts, self.recent, self.count as nat);
        }
        let n = if self.start_ts.is_some() || self.end_ts.is_some() {
            window_len(&self.posts, self.start_ts, self.end_ts)
        } else {
            self.posts.len()
        };
        n as u64 >= self.count as u64
    }

    /// Feeds a page: its new posts are added; then the crawl stops once the
    /// count is reached, else the cursor guard decides.
    pub fn accept_page(&mut self, page: Vec<Content>, next_cursor: Option<String>) -> (r: Option<String>)
        requires
            old(self).wf(),
            old(self)@.guard.empty_hops < MAX_EMPTY_CURSOR_HOPS,
        ensures
            final(self).wf(),
            r is Some ==> final(self)@.guard.empty_hops < MAX_EMPTY_CURSOR_HOPS,
            ({
                let posts = add_new_posts(old(self)@.posts, page@);
                let reached = filtered_posts(
                    posts,
                    old(self)@.start_ts,
                    old(self)@.end_ts,
                    old(self)@.recent,
                    old(self)@.count,
                ).len() >= old(self)@.count;
                &&& final(self)@.posts == posts
                &&& final(self)@.start_ts == old(self)@.start_ts
                &&& final(self)@.end_ts == old(self)@.end_ts
                &&& final(self)@.recent == old(self)@.recent
                &&& final(self)@.count == old(self)@.count
                &&& reached ==> r is None && final(self)@.guard == old(self)@.guard
                &&& !reached ==> opt_view(r) == guard_next(
                    old(self)@.guard,
                    page@.len(),
                    opt_view(next_cursor),
                )
            }),
    {
        let page_count = page.len();
        self.add_posts(page);
        if self.reached_limit() {
            return None;
        }
        self.guard.advance(page_count, next_cursor)
    }

    /// How a failed page ends the crawl: a rate limit once posts were
    /// collected ends it with what it has (`Ok`); any other error fails it.
    pub fn on_error(&self, err: GatewayError) -> (r: Result<(), GatewayError>)
        ensures
            (err is RateLimited && self@.posts.len() > 0) <==> r is Ok,
            r matches Err(e) ==> e == err,
    {
        match err {
            GatewayError::RateLimited { .. } => {
                if self.posts.len() > 0 {
                    Ok(())
                } else {
                    Err(err)
                }
            },
            _ => Err(err),
        }
    }

    /// How many posts to ask a candidate page for: those still missing from
    /// the count, at least one.
    pub fn remaining_for_page(&self) -> (r: u32)
        ensures
            ({
                let got = filtered_posts(
                    self@.posts,
                    self@.start_ts,
                    self@.end_ts,
                    self@.recent,
                    self@.count,
                ).len();
                r == if self@.count > got && self@.count - got > 1 {
                    (self@.count - got) as u32
                } else {
                    1u32
                }
            }),
    {
        proof {
            lemma_filtered_len(self@.posts, self.start_ts, self.end_ts, self.recent, self.count as nat);
        }
        let n = if self.start_ts.is_some() || self.end_ts.is_some() {
            window_len(&self.posts, self.start_ts, self.end_ts)
        } else {
            self.posts.len()
        };
        let got: u32 = if (n as u64) < (self.count as u64) {
            n as u32
        } else {
            self.count
        };
        let missing = self.count - got;
        if missing > 1 {
            missing
        } else {
            1
        }
    }

    /// The collected posts, filtered.
    pub fn finish(self) -> (r: Vec<Content>)
        ensures
            r@ == filtered_posts(self@.posts, self@.start_ts, self@.end_ts, self@.recent, self@.count),
    {
        FacebookAdapter::filter_posts_between(self.posts, self.start_ts, self.end_ts, self.recent, self.count)
    }
}


// ------------------------------------------------------------------
// Page resolution
// ------------------------------------------------------------------

/// The outcome of one page of a page search.
#[derive(Debug, Clone, PartialEq, Eq)]
pub enum ResolveStep {
    /// The page id was found.
    Found(String),
    /// The search is over without a page id.
    NotFound,
    /// Ask for the next page with this cursor.
    Next(String),
}

/// The first present id among the candidates.
pub open spec fn first_id(ids: Seq<Option<String>>) -> Option<String>
    decreases ids.len(),
{
    if ids.len() == 0 {
        None
    } else {
        match ids[0] {
            Some(id) => Some(id),
            None => first_id(ids.drop_first()),
        }
    }
}

/// The id found among page candidates is that of the earliest candidate that
/// has one: every candidate before it has none. Where no candidate has an id,
/// none is found.
pub proof fn lemma_first_id_earliest(ids: Seq<Option<String>>)
    ensures
        match first_id(ids) {
            Some(id) => exists|i: int|
                0 <= i < ids.len() && ids[i] == Some(id) && forall|j: int| 0 <= j < i ==> (#[trigger] ids[j]) is None,
            None => forall|i: int| 0 <= i < ids.len() ==> (#[trigger] ids[i]) is None,
        },
    decreases ids.len(),
{
    if ids.len() > 0 {
        match ids[0] {
            Some(id) => {
                assert(ids[0] == Some(id));
            },
            None => {
                let rest = ids.drop_first();
                lemma_first_id_earliest(rest);
                match first_id(rest) {
                    Some(id) => {
                        let i = choose|i: int|
                            0 <= i < rest.len() && rest[i] == Some(id) && forall|j: int| 0 <= j < i ==> (#[trigger] rest[j]) is None;
                        assert(ids[i + 1] == Some(id));
                        assert forall|j: int| 0 <= j < i + 1 implies (#[trigger] ids[j]) is None by {
                            if j > 0 {
                                assert(ids[j] == rest[j - 1]);
                            }
                        }
                    },
                    None => {
                        assert forall|i: int| 0 <= i < ids.len() implies (#[trigger] ids[i]) is None by {
                            if i > 0 {
                                assert(ids[i] == rest[i - 1]);
                            }
                        }
                    },
                }
            },
        }
    }
}

/// Abstract state of a page resolution.
pub ghost struct PageResolverView {
    pub seen: Seq<Seq<char>>,
    pub hops: nat,
}

/// Resolves a page name to a page id over the pages of a page search: the
/// first candidate with an id wins; the search ends without a next cursor,
/// after three cursor hops, or on a repeated cursor.
pub struct PageResolver {
    seen: Vec<String>,
    hops: usize,
}

impl View for PageResolver {
    type V = PageResolverView;

    closed spec fn view(&self) -> PageResolverView {
        PageResolverView { seen: views(self.seen@), hops: self.hops as nat }
    }
}

impl PageResolver {
    /// A resolution that has not looked at any page.
    pub fn new() -> (r: PageResolver)
        ensures
            r@.seen.len() == 0,
            r@.hops == 0,
    {
        let r = PageResolver { seen: Vec::new(), hops: 0 };
        proof {
            assert(views(r.seen@) =~= Seq::<Seq<char>>::empty());
        }
        r
    }

    /// Feeds a page: the ids of its candidates, in order, and its next cursor.
    pub fn accept_page(&mut self, candidate_ids: Vec<Option<String>>, next_cursor: Option<String>) -> (r: ResolveStep)
        requires
            old(self)@.hops < MAX_EMPTY_CURSOR_HOPS,
        ensures
            match first_id(candidate_ids@) {
                Some(id) => r == ResolveStep::Found(id),
                None => match next_cursor {
                    None => r == ResolveStep::NotFound,
                    Some(c) => if old(self)@.hops + 1 >= MAX_EMPTY_CURSOR_HOPS || old(self)@.seen.contains(c@) {
                        r == ResolveStep::NotFound
                    } else {
                        r == ResolveStep::Next(c) && final(self)@.seen == old(self)@.seen.push(c@)
                            && final(self)@.hops == old(self)@.hops + 1
                    },
                },
            },
            r is Next ==> final(self)@.hops < MAX_EMPTY_CURSOR_HOPS,
    {
        let ghost ids = candidate_ids@;
        proof {
            assert(ids.skip(0) == ids);
        }
        for id in it: candidate_ids.into_iter()
            invariant
                it.seq() == ids,
                first_id(ids) == first_id(ids.skip(it.index() as int)),
        {
            proof {
                assert(ids.skip(it.index() as int)[0] == id);
                assert(ids.skip(it.index() as int).drop_first() == ids.skip(it.index() + 1));
            }
            match id {
                Some(found) => {
                    return ResolveStep::Found(found);
                },
                None => {},
            }
        }
        proof {
            assert(ids.skip(ids.len() as int).len() == 0);
        }
        let c = match next_cursor {
            None => {
                return ResolveStep::NotFound;
            },
            Some(c) => c,
        };
        if self.hops + 1 >= MAX_EMPTY_CURSOR_HOPS {
            return ResolveStep::NotFound;
        }
        if contains_string(&self.seen, &c) {
            return ResolveStep::NotFound;
        }
        self.hops = self.hops + 1;
        let ghost before = self.seen@;
        self.seen.push(c.clone());
        proof {
            assert(views(self.seen@) =~= views(before).push(c@));
        }
        ResolveStep::Next(c)
    }
}

// ------------------------------------------------------------------
// Comment crawl
// ------------------------------------------------------------------

/// Adding a page's comments: a comment whose id was seen before is
/// dropped; the result is the comments and the ids seen.
pub open spec fn add_new_comments(acc: Seq<Comment>, seen: Seq<Seq<char>>, page: Seq<Comment>) -> (Seq<Comment>, Seq<Seq<char>>)
    decreases page.len(),
{
    if page.len() == 0 {
        (acc, seen)
    } else {
        let (a, s) = add_new_comments(acc, seen, page.drop_last());
        if s.contains(page.last().comment_id@) {
            (a, s)
        } else {
            (a.push(page.last()), s.push(page.last().comment_id@))
        }
    }
}

/// Abstract state of a comment crawl.
pub ghost struct CommentCrawlView {
    pub comments: Seq<Comment>,
    pub seen_ids: Seq<Seq<char>>,
    pub seen_cursors: Seq<Seq<char>>,
    pub empty_hops: nat,
    pub cursor: Option<Seq<char>>,
    pub max_count: nat,
    pub finished: bool,
}

/// Gathers a post's comments page by page: new comments by id up to the
/// maximum; the crawl ends without a next cursor, after a run of empty
/// pages, when the upstream has no more, or on a repeated cursor.
pub struct CommentCrawl {
    comments: Vec<Comment>,
    seen_ids: Vec<String>,
    seen_cursors: Vec<String>,
    empty_hops: usize,
    cursor: Option<String>,
    max_count: u32,
    finished: bool,
}

impl View for CommentCrawl {
    type V = CommentCrawlView;

    closed spec fn view(&self) -> CommentCrawlView {
        CommentCrawlView {
            comments: self.comments@,
            seen_ids: views(self.seen_ids@),
            seen_cursors: views(self.seen_cursors@),
            empty_hops: self.empty_hops as nat,
            cursor: opt_view(self.cursor),
            max_count: self.max_count as nat,
            finished: self.finished,
        }
    }
}

impl CommentCrawl {
    /// A crawl for at most `max_count` comments.
    pub fn new(max_count: u32) -> (r: CommentCrawl)
        ensures
            r@.comments.len() == 0,
            r@.seen_ids.len() == 0,
            r@.seen_cursors.len() == 0,
            r@.empty_hops == 0,
            r@.cursor is None,
            r@.max_count == max_count,
            !r@.finished,
    {
        let r = CommentCrawl {
            comments: Vec::new(),
            seen_ids: Vec::new(),
            seen_cursors: Vec::new(),
            empty_hops: 0,
            cursor: None,
            max_count,
            finished: false,
        };
        proof {
            assert(views(r.seen_ids@) =~= Seq::<Seq<char>>::empty());
            assert(views(r.seen_cursors@) =~= Seq::<Seq<char>>::empty());
        }
        r
    }

    /// The next request: the cursor and how many comments to ask for (the
    /// missing ones, at most 50), or `None` once the crawl is over.
    pub fn next_request(&self) -> (r: Option<(Option<String>, u32)>)
        ensures
            (self@.finished || self@.comments.len() >= self@.max_count) <==> r is None,
            r matches Some((c, n)) ==> opt_view(c) == self@.cursor && n == if self@.max_count
                - self@.comments.len() < 50 {
                (self@.max_count - self@.comments.len()) as nat
            } else {
                50
            },
    {
        if self.finished || self.comments.len() as u64 >= self.max_count as u64 {
            return None;
        }
        let missing = self.max_count - self.comments.len() as u32;
        let n = if missing < 50 {
            missing
        } else {
            50
        };
        Some((self.cursor.clone(), n))
    }

    /// Feeds the answer to the last request.
    pub fn accept_page(&mut self, page: Vec<Comment>, has_more: bool, next_cursor: Option<String>)
        requires
            !old(self)@.finished,
            old(self)@.comments.len() < old(self)@.max_count,
            old(self)@.empty_hops < MAX_EMPTY_CURSOR_HOPS,
        ensures
            ({
                let (all, seen) = add_new_comments(old(self)@.comments, old(self)@.seen_ids, page@);
                let kept = if all.len() > old(self)@.max_count {
                    all.take(old(self)@.max_count as int)
                } else {
                    all
                };
                let hops = if page@.len() == 0 {
                    old(self)@.empty_hops + 1
                } else {
                    0
                };
                &&& final(self)@.comments == kept
                &&& final(self)@.seen_ids == seen
                &&& final(self)@.max_count == old(self)@.max_count
                &&& match next_cursor {
                    None => final(self)@.finished,
                    Some(c) => if hops >= MAX_EMPTY_CURSOR_HOPS || !has_more
                        || old(self)@.seen_cursors.contains(c@) {
                        final(self)@.finished
                    } else {
                        &&& !final(self)@.finished
                        &&& final(self)@.cursor == Some(c@)
                        &&& final(self)@.seen_cursors == old(self)@.seen_cursors.push(c@)
                        &&& final(self)@.empty_hops == hops
                    },
                }
            }),
            !final(self)@.finished ==> final(self)@.empty_hops < MAX_EMPTY_CURSOR_HOPS,
    {
        let page_count = page.len();
        let ghost p = page@;
        let ghost acc0 = self.comments@;
        let ghost seen0 = views(self.seen_ids@);
        for c in it: page.into_iter()
            invariant
                it.seq() == p,
                (self.comments@, views(self.seen_ids@)) == add_new_comments(
                    acc0,
                    seen0,
                    p.take(it.index() as int),
                ),
                self.max_count == old(self).max_count,
                self.seen_cursors == old(self).seen_cursors,
                self.empty_hops == old(self).empty_hops,
                self.finished == old(self).finished,
                self.cursor == old(self).cursor,
        {
            proof {
                assert(p.take(it.index() + 1).drop_last() == p.take(it.index() as int));
                assert(p.take(it.index() + 1).last() == c);
            }
            if !contains_string(&self.seen_ids, &c.comment_id) {
                let id = c.comment_id.clone();
                let ghost seen_before = self.seen_ids@;
                self.comments.push(c);
                self.seen_ids.push(id);
                proof {
                    assert(views(self.seen_ids@) =~= views(seen_before).push(id@));
                }
            }
        }
        proof {
            assert(p.take(p.len() as int) == p);
        }
        let max = self.max_count as usize;
        if self.comments.len() > max {
            self.comments.truncate(max);
        }
        let c = match next_cursor {
            None => {
                self.finished = true;
                return;
            },
            Some(c) => c,
        };
        if page_count == 0 {
            self.empty_hops = self.empty_hops + 1;
            if self.empty_hops >= MAX_EMPTY_CURSOR_HOPS {
                self.finished = true;
                return;
            }
        } else {
            self.empty_hops = 0;
        }
        if !has_more || contains_string(&self.seen_cursors, &c) {
            self.finished = true;
            return;
        }
        let ghost before = self.seen_cursors@;
        self.seen_cursors.push(c.clone());
        proof {
            assert(views(self.seen_cursors@) =~= views(before).push(c@));
        }
        self.cursor = Some(c);
    }

    /// How a failed request ends the crawl: a rate limit once comments were
    /// collected ends it with what it has; any other error fails it.
    pub fn on_error(&mut self, err: GatewayError) -> (r: Result<(), GatewayError>)
        ensures
            (err is RateLimited && old(self)@.comments.len() > 0) <==> r is Ok,
            r is Ok ==> final(self)@ == (CommentCrawlView { finished: true, ..old(self)@ }),
            r matches Err(e) ==> e == err && final(self)@ == old(self)@,
    {
        match err {
            GatewayError::RateLimited { .. } => {
                if self.comments.len() > 0 {
                    self.finished = true;
                    Ok(())
                } else {
                    Err(err)
                }
            },
            _ => Err(err),
        }
    }

    /// Ends the crawl and hands out the comments.
    pub fn into_comments(self) -> (r: Vec<Comment>)
        ensures
            r@ == self@.comments,
    {
        self.comments
    }
}


// ------------------------------------------------------------------
// Laws of the post filter
// ------------------------------------------------------------------

/// Posts ordered newest first: no post is older than one after it.
pub open spec fn is_newest_first(s: Seq<Content>) -> bool {
    forall|i: int, j: int| 0 <= i < j < s.len() ==> !ts_lt(#[trigger] s[i].created_at, #[trigger] s[j].created_at)
}

proof fn lemma_insert_members(sorted: Seq<Content>, x: Content)
    ensures
        forall|i: int| 0 <= i < insert_newest_first(sorted, x).len() ==> (#[trigger] insert_newest_first(sorted, x)[i] == x
            || sorted.contains(insert_newest_first(sorted, x)[i])),
    decreases sorted.len(),
{
    lemma_insert_len(sorted, x);
    if sorted.len() > 0 && ts_lt(sorted.last().created_at, x.created_at) {
        let t = sorted.drop_last();
        lemma_insert_members(t, x);
        let r = insert_newest_first(sorted, x);
        let q = insert_newest_first(t, x);
        assert forall|i: int| 0 <= i < r.len() implies (#[trigger] r[i] == x || sorted.contains(r[i])) by {
            if i < q.len() {
                assert(r[i] == q[i]);
                if q[i] != x {
                    let m = choose|m: int| 0 <= m < t.len() && t[m] == q[i];
                    assert(sorted[m] == t[m]);
                }
            } else {
                assert(r[i] == sorted[sorted.len() - 1]);
            }
        }
    } else if sorted.len() > 0 {
        let r = insert_newest_first(sorted, x);
        assert forall|i: int| 0 <= i < r.len() implies (#[trigger] r[i] == x || sorted.contains(r[i])) by {
            if i < sorted.len() {
                assert(r[i] == sorted[i]);
            }
        }
    }
}

proof fn lemma_insert_sorted(sorted: Seq<Content>, x: Content)
    requires
        is_newest_first(sorted),
    ensures
        is_newest_first(insert_newest_first(sorted, x)),
    decreases sorted.len(),
{
    lemma_insert_len(sorted, x);
    if sorted.len() == 0 {
    } else if !ts_lt(sorted.last().created_at, x.created_at) {
        let r = sorted.push(x);
        assert forall|i: int, j: int| 0 <= i < j < r.len() implies !ts_lt(#[trigger] r[i].created_at, #[trigger] r[j].created_at) by {
            if j == r.len() - 1 {
                if i < sorted.len() - 1 {
                    assert(!ts_lt(sorted[i].created_at, sorted[sorted.len() - 1].created_at));
                }
            }
        }
    } else {
        let t = sorted.drop_last();
        let last = sorted.last();
        assert(is_newest_first(t)) by {
            assert forall|i: int, j: int| 0 <= i < j < t.len() implies !ts_lt(#[trigger] t[i].created_at, #[trigger] t[j].created_at) by {
                assert(t[i] == sorted[i] && t[j] == sorted[j]);
            }
        }
        lemma_insert_sorted(t, x);
        lemma_insert_members(t, x);
        let q = insert_newest_first(t, x);
        let r = q.push(last);
        assert forall|i: int, j: int| 0 <= i < j < r.len() implies !ts_lt(#[trigger] r[i].created_at, #[trigger] r[j].created_at) by {
            if j == r.len() - 1 {
                assert(r[j] == last);
                assert(r[i] == q[i]);
                if q[i] == x {
                } else {
                    let m = choose|m: int| 0 <= m < t.len() && t[m] == q[i];
                    assert(sorted[m] == t[m]);
                    assert(!ts_lt(sorted[m].created_at, sorted[sorted.len() - 1].created_at));
                }
            } else {
                assert(r[i] == q[i] && r[j] == q[j]);
            }
        }
    }
}

/// Ordering newest first yields posts ordered newest first.
pub proof fn lemma_newest_first_sorted(s: Seq<Content>)
    ensures
        is_newest_first(newest_first(s)),
        newest_first(s).len() == s.len(),
    decreases s.len(),
{
    lemma_newest_first_len(s);
    if s.len() > 0 {
        lemma_newest_first_sorted(s.drop_last());
        lemma_insert_sorted(newest_first(s.drop_last()), s.last());
    }
}

proof fn lemma_newest_first_members(s: Seq<Content>)
    ensures
        forall|i: int| 0 <= i < newest_first(s).len() ==> s.contains(#[trigger] newest_first(s)[i]),
    decreases s.len(),
{
    if s.len() > 0 {
        let t = s.drop_last();
        lemma_newest_first_members(t);
        lemma_insert_members(newest_first(t), s.last());
        let r = newest_first(s);
        assert forall|i: int| 0 <= i < r.len() implies s.contains(#[trigger] r[i]) by {
            if r[i] == s.last() {
                assert(s[s.len() - 1] == s.last());
            } else {
                let m = choose|m: int| 0 <= m < newest_first(t).len() && newest_first(t)[m] == r[i];
                let k = choose|k: int| 0 <= k < t.len() && t[k] == newest_first(t)[m];
                assert(s[k] == t[k]);
            }
        }
    }
}

proof fn lemma_keep_window_members(s: Seq<Content>, start: Option<i64>, end: Option<i64>)
    ensures
        forall|i: int| 0 <= i < keep_window(s, start, end).len() ==> s.contains(#[trigger] keep_window(s, start, end)[i])
            && in_window(keep_window(s, start, end)[i], start, end),
    decreases s.len(),
{
    if s.len() > 0 {
        let t = s.drop_last();
        lemma_keep_window_members(t, start, end);
        let k = keep_window(t, start, end);
        let r = keep_window(s, start, end);
        assert forall|i: int| 0 <= i < r.len() implies s.contains(#[trigger] r[i]) && in_window(r[i], start, end) by {
            if i < k.len() {
                assert(r[i] == k[i]);
                let m = choose|m: int| 0 <= m < t.len() && t[m] == k[i];
                assert(s[m] == t[m]);
            } else {
                assert(r[i] == s[s.len() - 1]);
            }
        }
    }
}

/// The post filter keeps at most `count` posts, all from the input; with a
/// date bound every kept post has a timestamp inside the bounds; when posts
/// are ordered (asked for, or a bound given) they come newest first.
pub proof fn lemma_filtered_posts(s: Seq<Content>, start: Option<i64>, end: Option<i64>, recent: bool, count: nat)
    ensures
        ({
            let r = filtered_posts(s, start, end, recent, count);
            &&& r.len() <= count
            &&& forall|i: int| 0 <= i < r.len() ==> s.contains(#[trigger] r[i])
            &&& (start is Some || end is Some) ==> forall|i: int| 0 <= i < r.len() ==> in_window(#[trigger] r[i], start, end)
            &&& (recent || start is Some || end is Some) ==> is_newest_first(r)
        }),
{
    let bounded = start is Some || end is Some;
    let w = if bounded {
        keep_window(s, start, end)
    } else {
        s
    };
    lemma_keep_window_members(s, start, end);
    lemma_newest_first_sorted(w);
    lemma_newest_first_members(w);
    let o = if recent || bounded {
        newest_first(w)
    } else {
        w
    };
    let n = if count < o.len() { count as int } else { o.len() as int };
    let r = o.take(n);
    assert forall|i: int| 0 <= i < r.len() implies s.contains(#[trigger] r[i]) && (bounded ==> in_window(r[i], start, end)) by {
        assert(r[i] == o[i]);
        if recent || bounded {
            let m = choose|m: int| 0 <= m < w.len() && w[m] == o[i];
            if bounded {
                assert(s.contains(w[m]) && in_window(w[m], start, end));
            }
        } else if bounded {
        }
    }
    if recent || bounded {
        assert forall|i: int, j: int| 0 <= i < j < r.len() implies !ts_lt(#[trigger] r[i].created_at, #[trigger] r[j].created_at) by {
            assert(r[i] == o[i] && r[j] == o[j]);
        }
    }
}

} // verus!
