//! Task queue: campaign search options, crawler task accessors, the mapping
//! of a crawler task to a domain task configuration, and the queue consumer's
//! configuration.

use vstd::prelude::*;
use crate::config::platform::PlatformRegistry;
use crate::domain::entities::TaskConfig;
use crate::domain::errors::QueueError;
use crate::domain::extra::{ExtraValue, ExtraValueView};
use crate::pagination::{page_cap_of, platform_page_cap};
use crate::protocol::{
    CrawlerTask, CrawlerTaskMeta, CrawlerTaskSpec, Platform, TaskConfig as ProtocolTaskConfig,
    TaskFilters,
};
use crate::text::{
    eq_ignore_ascii_case, lower_ascii, parse_u8, parse_unsigned, push_str, str_eq,
    to_ascii_lowercase, to_owned_string, trim, trim_spec,
};

verus! {

// ------------------------------------------------------------------
// Search options
// ------------------------------------------------------------------

/// TikTok search options of a campaign.
#[derive(Debug, Clone, Default)]
pub struct TikTokSearchOptions {
    /// Region code ("GLOBAL" stands for the default region, US).
    pub region: Option<String>,
    /// Sort type: "0" relevance, "1" most liked.
    pub sort_type: Option<String>,
    /// Publish time filter in days: "0", "1", "7", "30", "90", "180".
    pub publish_time: Option<String>,
}

/// `str::parse::<u8>` of an optional string.
pub open spec fn opt_u8(s: Option<String>) -> Option<u8> {
    match s {
        Some(x) => match parse_unsigned(x@) {
            Some(v) => if v <= 255 {
                Some(v as u8)
            } else {
                None
            },
            None => None,
        },
        None => None,
    }
}

/// The region of TikTok options, with "GLOBAL" (any case) read as "US".
pub open spec fn effective_region_of(o: TikTokSearchOptions) -> Option<Seq<char>> {
    match o.region {
        Some(r) => if lower_ascii(r@) == lower_ascii("GLOBAL"@) {
            Some("US"@)
        } else {
            Some(r@)
        },
        None => None,
    }
}

impl TikTokSearchOptions {
    /// The sort type as a number.
    pub fn sort_type_u8(&self) -> (r: Option<u8>)
        ensures
            r == opt_u8(self.sort_type),
    {
        match &self.sort_type {
            Some(s) => parse_u8(s.as_str()),
            None => None,
        }
    }

    /// The publish time filter as a number.
    pub fn publish_time_u8(&self) -> (r: Option<u8>)
        ensures
            r == opt_u8(self.publish_time),
    {
        match &self.publish_time {
            Some(s) => parse_u8(s.as_str()),
            None => None,
        }
    }

    /// The region, with "GLOBAL" mapped to "US".
    pub fn effective_region(&self) -> (r: Option<String>)
        ensures
            match effective_region_of(*self) {
                Some(x) => r matches Some(y) && y@ == x,
                None => r is None,
            },
    {
        match &self.region {
            Some(r) => {
                if eq_ignore_ascii_case(r.as_str(), "GLOBAL") {
                    Some(to_owned_string("US"))
                } else {
                    Some(r.clone())
                }
            },
            None => None,
        }
    }
}

/// Facebook search options of a campaign.
#[derive(Debug, Clone, Default)]
pub struct FacebookSearchOptions {
    pub search_type: Option<String>,
    pub recent_posts: Option<bool>,
    pub location: Option<String>,
    pub start_date: Option<String>,
    pub end_date: Option<String>,
}

/// Twitter search options of a campaign.
#[derive(Debug, Clone, Default)]
pub struct TwitterSearchOptions {
    pub search_type: Option<String>,
}

/// Campaign search options, keyed by platform.
#[derive(Debug, Clone, Default)]
pub struct SearchOptionsWrapper {
    pub tiktok: Option<TikTokSearchOptions>,
    pub facebook: Option<FacebookSearchOptions>,
    pub twitter: Option<TwitterSearchOptions>,
}

/// A boolean written as text: "true", "1", "yes" or "false", "0", "no",
/// ignoring surrounding whitespace and ASCII case.
pub open spec fn boolish(s: Seq<char>) -> Option<bool> {
    let t = lower_ascii(trim_spec(s));
    if t == "true"@ || t == "1"@ || t == "yes"@ {
        Some(true)
    } else if t == "false"@ || t == "0"@ || t == "no"@ {
        Some(false)
    } else {
        None
    }
}

/// Reads a boolean written as text (see [`boolish`]); `None` for any other text.
pub fn parse_boolish(s: &str) -> (r: Option<bool>)
    ensures
        r == boolish(s@),
{
    let t = trim(s);
    let l = to_ascii_lowercase(t.as_str());
    let v = l.as_str();
    if str_eq(v, "true") || str_eq(v, "1") || str_eq(v, "yes") {
        Some(true)
    } else if str_eq(v, "false") || str_eq(v, "0") || str_eq(v, "no") {
        Some(false)
    } else {
        None
    }
}

// ------------------------------------------------------------------
// Crawler task accessors
// ------------------------------------------------------------------

/// Task id (0 without metadata).
pub open spec fn task_id_of(t: CrawlerTask) -> i64 {
    match t.meta {
        Some(m) => m.task_id,
        None => 0,
    }
}

/// Campaign id (0 without metadata).
pub open spec fn campaign_id_of(t: CrawlerTask) -> i32 {
    match t.meta {
        Some(m) => m.campaign_id,
        None => 0,
    }
}

/// Platform id (0 without a spec).
pub open spec fn platform_id_of(t: CrawlerTask) -> i32 {
    match t.spec {
        Some(s) => s.platform,
        None => 0,
    }
}

/// Keywords (none without a config).
pub open spec fn keywords_of(t: CrawlerTask) -> Seq<Seq<char>> {
    match t.config {
        Some(c) => c.keywords@.map_values(|k: String| k@),
        None => Seq::empty(),
    }
}

/// Region of the filters.
pub open spec fn region_of(t: CrawlerTask) -> Option<Seq<char>> {
    match t.config {
        Some(c) => match c.filters {
            Some(f) => match f.region {
                Some(r) => Some(r@),
                None => None,
            },
            None => None,
        },
        None => None,
    }
}

/// Maximum count (10 without a config).
pub open spec fn max_count_of(t: CrawlerTask) -> i32 {
    match t.config {
        Some(c) => c.max_count,
        None => 10,
    }
}

/// Requested page size (0 without a config).
pub open spec fn search_limit_of(t: CrawlerTask) -> i32 {
    match t.config {
        Some(c) => c.search_limit,
        None => 0,
    }
}

/// A copy of a vector of strings.
pub fn clone_strings(v: &Vec<String>) -> (r: Vec<String>)
    ensures
        r@ == v@,
{
    let mut r: Vec<String> = Vec::new();
    let mut i: usize = 0;
    while i < v.len()
        invariant
            i <= v.len(),
            r@ == v@.take(i as int),
        decreases v.len() - i,
    {
        r.push(v[i].clone());
        proof {
            assert(r@ =~= v@.take(i + 1));
        }
        i = i + 1;
    }
    proof {
        assert(v@.take(v.len() as int) =~= v@);
    }
    r
}

/// Accessors of a crawler task.
pub trait CrawlerTaskExt {
    spec fn spec_task(&self) -> CrawlerTask;

    /// Task id.
    fn task_id(&self) -> (r: i64)
        ensures
            r == task_id_of(self.spec_task()),
    ;

    /// Campaign id.
    fn campaign_id(&self) -> (r: i32)
        ensures
            r == campaign_id_of(self.spec_task()),
    ;

    /// Platform id.
    fn platform_id(&self) -> (r: i32)
        ensures
            r == platform_id_of(self.spec_task()),
    ;

    /// Keywords.
    fn keywords(&self) -> (r: Vec<String>)
        ensures
            r@.map_values(|k: String| k@) == keywords_of(self.spec_task()),
    ;

    /// Region of the filters.
    fn region(&self) -> (r: Option<String>)
        ensures
            match region_of(self.spec_task()) {
                Some(x) => r matches Some(y) && y@ == x,
                None => r is None,
            },
    ;

    /// Maximum count.
    fn max_count(&self) -> (r: i32)
        ensures
            r == max_count_of(self.spec_task()),
    ;

    /// The raw search options document.
    fn search_options(&self) -> (r: Option<&str>)
        ensures
            match self.spec_task().config {
                Some(c) => match c.search_options {
                    Some(s) => r matches Some(x) && x@ == s@,
                    None => r is None,
                },
                None => r is None,
            },
    ;
}

impl CrawlerTaskExt for CrawlerTask {
    open spec fn spec_task(&self) -> CrawlerTask {
        *self
    }

    fn task_id(&self) -> (r: i64) {
        match &self.meta {
            Some(m) => m.task_id,
            None => 0,
        }
    }

    fn campaign_id(&self) -> (r: i32) {
        match &self.meta {
            Some(m) => m.campaign_id,
            None => 0,
        }
    }

    fn platform_id(&self) -> (r: i32) {
        match &self.spec {
            Some(s) => s.platform,
            None => 0,
        }
    }

    fn keywords(&self) -> (r: Vec<String>) {
        match &self.config {
            Some(c) => clone_strings(&c.keywords),
            None => {
                let r: Vec<String> = Vec::new();
                proof {
                    assert(r@.map_values(|k: String| k@) =~= Seq::<Seq<char>>::empty());
                }
                r
            },
        }
    }

    fn region(&self) -> (r: Option<String>) {
        match &self.config {
            Some(c) => match &c.filters {
                Some(f) => match &f.region {
                    Some(r) => Some(r.clone()),
                    None => None,
                },
                None => None,
            },
            None => None,
        }
    }

    fn max_count(&self) -> (r: i32) {
        match &self.config {
            Some(c) => c.max_count,
            None => 10,
        }
    }

    fn search_options(&self) -> (r: Option<&str>) {
        match &self.config {
            Some(c) => match &c.search_options {
                Some(s) => Some(s.as_str()),
                None => None,
            },
            None => None,
        }
    }
}

impl CrawlerTask {
    /// The platform's name in `registry`, or "unknown".
    pub fn platform_name_in(&self, registry: &PlatformRegistry) -> (r: String)
        ensures
            match registry.spec_info(platform_id_of(*self)) {
                Some(p) => r@ == p.name,
                None => r@ == "unknown"@,
            },
    {
        let id = self.platform_id();
        match registry.get_name(id) {
            Some(n) => to_owned_string(n),
            None => to_owned_string("unknown"),
        }
    }
}

// ------------------------------------------------------------------
// Crawler task -> domain task configuration
// ------------------------------------------------------------------

/// The requested page size clamped to the platform's page cap; none when
/// no positive size was requested.
pub open spec fn page_size_hint_of(limit: i32, platform: Seq<char>) -> Option<u32> {
    if limit <= 0 {
        None
    } else if limit as int <= page_cap_of(platform) as int {
        Some(limit as u32)
    } else {
        Some(page_cap_of(platform))
    }
}

/// `name` equals `target` up to ASCII case.
pub open spec fn named(name: Seq<char>, target: Seq<char>) -> bool {
    lower_ascii(name) == lower_ascii(target)
}

/// The region of the domain configuration: for TikTok with TikTok options,
/// the options' region ("GLOBAL" read as "US"), else the task's region, else
/// "US"; for any other platform the task's region, else "US".
pub open spec fn config_region(t: CrawlerTask, platform: Seq<char>, opts: SearchOptionsWrapper) -> Seq<char> {
    let fallback = match region_of(t) {
        Some(r) => r,
        None => "US"@,
    };
    if named(platform, "tiktok"@) {
        match opts.tiktok {
            Some(o) => match effective_region_of(o) {
                Some(r) => r,
                None => fallback,
            },
            None => fallback,
        }
    } else {
        fallback
    }
}

/// For a TikTok task with TikTok search options that give a region, the
/// configuration's region is that region ("GLOBAL", in any ASCII case, read
/// as "US"), whatever region the task's own filters name. The filters'
/// region, else "US", is used only where the options give no region, and for
/// every other platform.
pub proof fn lemma_search_options_region_first(t: CrawlerTask, platform: Seq<char>, opts: SearchOptionsWrapper)
    ensures
        named(platform, "tiktok"@) ==> match opts.tiktok {
            Some(o) => match o.region {
                Some(r) => config_region(t, platform, opts) == (if lower_ascii(r@) == lower_ascii("GLOBAL"@) {
                    "US"@
                } else {
                    r@
                }),
                None => config_region(t, platform, opts) == (match region_of(t) {
                    Some(f) => f,
                    None => "US"@,
                }),
            },
            None => config_region(t, platform, opts) == (match region_of(t) {
                Some(f) => f,
                None => "US"@,
            }),
        },
        !named(platform, "tiktok"@) ==> config_region(t, platform, opts) == (match region_of(t) {
            Some(f) => f,
            None => "US"@,
        }),
{
}

/// The extra options of the domain configuration.
pub open spec fn config_extra(platform: Seq<char>, opts: SearchOptionsWrapper, key: Seq<char>) -> Option<ExtraValueView> {
    if named(platform, "tiktok"@) {
        None
    } else if named(platform, "facebook"@) {
        match opts.facebook {
            Some(f) => if key == "search_type"@ {
                match f.search_type {
                    Some(s) => Some(ExtraValueView::Str(s@)),
                    None => None,
                }
            } else if key == "recent_posts"@ {
                match f.recent_posts {
                    Some(b) => Some(ExtraValueView::Bool(b)),
                    None => None,
                }
            } else if key == "location"@ {
                match f.location {
                    Some(s) => Some(ExtraValueView::Str(s@)),
                    None => None,
                }
            } else if key == "start_date"@ {
                match f.start_date {
                    Some(s) => Some(ExtraValueView::Str(s@)),
                    None => None,
                }
            } else if key == "end_date"@ {
                match f.end_date {
                    Some(s) => Some(ExtraValueView::Str(s@)),
                    None => None,
                }
            } else {
                None
            },
            None => None,
        }
    } else if named(platform, "twitter"@) {
        match opts.twitter {
            Some(tw) => if key == "search_type"@ {
                match tw.search_type {
                    Some(s) => Some(ExtraValueView::Str(s@)),
                    None => None,
                }
            } else {
                None
            },
            None => None,
        }
    } else {
        None
    }
}

/// Binds `key` to the optional string `v` in the configuration's extras.
fn put_opt_str(config: &mut TaskConfig, key: &str, v: &Option<String>)
    ensures
        match v {
            Some(s) => final(config).extra.spec_get(key@) == Some(ExtraValueView::Str(s@)),
            None => final(config).extra.spec_get(key@) == old(config).extra.spec_get(key@),
        },
        forall|k: Seq<char>| k != key@ ==> final(config).extra.spec_get(k) == old(config).extra.spec_get(k),
        *final(config) == (TaskConfig { extra: final(config).extra, ..*old(config) }),
{
    match v {
        Some(s) => config.extra.insert(to_owned_string(key), ExtraValue::Str(s.clone())),
        None => {},
    }
}

impl CrawlerTask {
    /// The task settings for campaign `campaign_id`: the platform named by
    /// `registry` for the task's platform id, the task's keywords, at most
    /// `max_count` videos with at most 200 comments each, a page size hint
    /// from a positive search limit capped per platform, and the region,
    /// sort type, publish time and extra options given by `opts`.
    pub fn to_domain_task_config(
        &self,
        campaign_id: i32,
        registry: &PlatformRegistry,
        opts: &SearchOptionsWrapper,
    ) -> (r: TaskConfig)
        ensures
            ({
                let platform = match registry.spec_info(platform_id_of(*self)) {
                    Some(p) => p.name,
                    None => "unknown"@,
                };
                let tiktok_opts = if named(platform, "tiktok"@) {
                    opts.tiktok
                } else {
                    None
                };
                &&& r.campaign_id == campaign_id
                &&& r.platform@ == platform
                &&& r.keywords@.map_values(|k: String| k@) == keywords_of(*self)
                &&& r.max_videos == Some(max_count_of(*self))
                &&& r.max_comments_per_video == Some(200i32)
                &&& r.page_size_hint == page_size_hint_of(search_limit_of(*self), platform)
                &&& r.region matches Some(x) && x@ == config_region(*self, platform, *opts)
                &&& r.sort_type == (match tiktok_opts {
                    Some(o) => opt_u8(o.sort_type),
                    None => None,
                })
                &&& r.publish_time == (match tiktok_opts {
                    Some(o) => opt_u8(o.publish_time),
                    None => None,
                })
                &&& r.product_prompt is None
                &&& r.target_audience is None
                &&& r.reply_strategy is None
                &&& r.dm_strategy is None
                &&& r.concurrency is None
                &&& forall|k: Seq<char>| #![trigger r.extra.spec_get(k)] r.extra.spec_get(k) == config_extra(platform, *opts, k)
            }),
    {
        let max_count = self.max_count();
        let platform_name = self.platform_name_in(registry);
        let pname = platform_name.as_str();
        let mut config = TaskConfig::new(campaign_id, pname);
        config.keywords = self.keywords();
        config.max_videos = Some(max_count);
        config.max_comments_per_video = Some(200);
        let limit = match &self.config {
            Some(c) => c.search_limit,
            None => 0,
        };
        config.page_size_hint = if limit <= 0 {
            None
        } else {
            let cap = platform_page_cap(pname);
            if (limit as u32) <= cap {
                Some(limit as u32)
            } else {
                Some(cap)
            }
        };
        let task_region = self.region();
        let fallback = match task_region {
            Some(r) => r,
            None => to_owned_string("US"),
        };
        proof {
            reveal_strlit("tiktok");
            reveal_strlit("facebook");
            reveal_strlit("twitter");
            reveal_strlit("search_type");
            reveal_strlit("recent_posts");
            reveal_strlit("location");
            reveal_strlit("start_date");
            reveal_strlit("end_date");
            assert(lower_ascii("tiktok"@)[0] == 't' && lower_ascii("tiktok"@).len() == 6);
            assert(lower_ascii("facebook"@)[0] == 'f');
            assert(lower_ascii("twitter"@)[0] == 't' && lower_ascii("twitter"@).len() == 7);
            assert("search_type"@[0] == 's' && "search_type"@.len() == 11);
            assert("recent_posts"@[0] == 'r');
            assert("location"@[0] == 'l');
            assert("start_date"@[0] == 's' && "start_date"@.len() == 10);
            assert("end_date"@[0] == 'e');
        }
        if eq_ignore_ascii_case(pname, "tiktok") {
            match &opts.tiktok {
                Some(t) => {
                    let region = match t.effective_region() {
                        Some(r) => r,
                        None => fallback,
                    };
                    config.region = Some(region);
                    config.sort_type = t.sort_type_u8();
                    config.publish_time = t.publish_time_u8();
                },
                None => {
                    config.region = Some(fallback);
                },
            }
        } else {
            config.region = Some(fallback);
            if eq_ignore_ascii_case(pname, "facebook") {
                match &opts.facebook {
                    Some(f) => {
                        put_opt_str(&mut config, "search_type", &f.search_type);
                        match f.recent_posts {
                            Some(b) => config.extra.insert(to_owned_string("recent_posts"), ExtraValue::Bool(b)),
                            None => {},
                        }
                        put_opt_str(&mut config, "location", &f.location);
                        put_opt_str(&mut config, "start_date", &f.start_date);
                        put_opt_str(&mut config, "end_date", &f.end_date);
                    },
                    None => {},
                }
            } else if eq_ignore_ascii_case(pname, "twitter") {
                match &opts.twitter {
                    Some(tw) => {
                        put_opt_str(&mut config, "search_type", &tw.search_type);
                    },
                    None => {},
                }
            }
        }
        config
    }
}

// ------------------------------------------------------------------
// Task builder
// ------------------------------------------------------------------

/// Current Unix time in whole seconds (`chrono::Utc::now().timestamp()`).
/// Nothing is stated of the result: it is the clock's reading. The call
/// panics only where the system clock reads before 1970.
#[verifier::external_body]
fn unix_now_secs() -> i64 {
    chrono::Utc::now().timestamp()
}

/// Builder of crawler tasks.
#[derive(Debug, Clone)]
pub struct CrawlerTaskBuilder {
    task_id: i64,
    campaign_id: i32,
    platform: i32,
    data_type: i32,
    keywords: Vec<String>,
    region: Option<String>,
    max_count: i32,
}

/// Abstract state of a crawler task builder.
pub ghost struct CrawlerTaskBuilderView {
    pub task_id: i64,
    pub campaign_id: i32,
    pub platform: i32,
    pub data_type: i32,
    pub keywords: Seq<String>,
    pub region: Option<String>,
    pub max_count: i32,
}

impl View for CrawlerTaskBuilder {
    type V = CrawlerTaskBuilderView;

    closed spec fn view(&self) -> CrawlerTaskBuilderView {
        CrawlerTaskBuilderView {
            task_id: self.task_id,
            campaign_id: self.campaign_id,
            platform: self.platform,
            data_type: self.data_type,
            keywords: self.keywords@,
            region: self.region,
            max_count: self.max_count,
        }
    }
}

impl CrawlerTaskBuilder {
    /// A TikTok task with no keyword, a maximum count of 10, campaign 0.
    pub fn new(task_id: i64) -> (r: CrawlerTaskBuilder)
        ensures
            r@ == (CrawlerTaskBuilderView {
                task_id,
                campaign_id: 0,
                platform: 2,
                data_type: 0,
                keywords: Seq::empty(),
                region: None,
                max_count: 10,
            }),
    {
        let r = CrawlerTaskBuilder {
            task_id,
            campaign_id: 0,
            platform: Platform::Tiktok.id(),
            data_type: 0,
            keywords: Vec::new(),
            region: None,
            max_count: 10,
        };
        proof {
            assert(r.keywords@ =~= Seq::<String>::empty());
        }
        r
    }

    /// Sets the campaign id.
    pub fn campaign_id(self, id: i32) -> (r: CrawlerTaskBuilder)
        ensures
            r@ == (CrawlerTaskBuilderView { campaign_id: id, ..self@ }),
    {
        CrawlerTaskBuilder { campaign_id: id, ..self }
    }

    /// Sets the platform.
    pub fn platform(self, platform: Platform) -> (r: CrawlerTaskBuilder)
        ensures
            r@ == (CrawlerTaskBuilderView { platform: crate::protocol::platform_number(platform), ..self@ }),
    {
        CrawlerTaskBuilder { platform: platform.id(), ..self }
    }

    /// Sets the platform by id.
    pub fn platform_id(self, id: i32) -> (r: CrawlerTaskBuilder)
        ensures
            r@ == (CrawlerTaskBuilderView { platform: id, ..self@ }),
    {
        CrawlerTaskBuilder { platform: id, ..self }
    }

    /// Sets the keywords.
    pub fn keywords(self, keywords: Vec<String>) -> (r: CrawlerTaskBuilder)
        ensures
            r@ == (CrawlerTaskBuilderView { keywords: keywords@, ..self@ }),
    {
        CrawlerTaskBuilder { keywords, ..self }
    }

    /// Sets the region.
    pub fn region(self, region: &str) -> (r: CrawlerTaskBuilder)
        ensures
            r@.region matches Some(x) && x@ == region@,
            r@ == (CrawlerTaskBuilderView { region: r@.region, ..self@ }),
    {
        CrawlerTaskBuilder { region: Some(to_owned_string(region)), ..self }
    }

    /// Sets the maximum count.
    pub fn max_count(self, count: i32) -> (r: CrawlerTaskBuilder)
        ensures
            r@ == (CrawlerTaskBuilderView { max_count: count, ..self@ }),
    {
        CrawlerTaskBuilder { max_count: count, ..self }
    }

    /// The task, stamped with the current time; its search limit is its
    /// maximum count and its search offset 0.
    pub fn build(self) -> (r: CrawlerTask)
        ensures
            r.meta matches Some(m) && m.task_id == self@.task_id && m.campaign_id
                == self@.campaign_id && m.source@ == "agent"@,
            r.spec matches Some(s) && s.platform == self@.platform && s.data_type
                == self@.data_type,
            r.config matches Some(c) && c.keywords@ == self@.keywords && c.max_count
                == self@.max_count && c.search_offset == 0 && c.search_limit
                == self@.max_count && c.search_options is None && (match self@.region {
                Some(reg) => c.filters matches Some(f) && f.region == Some(reg),
                None => c.filters is None,
            }),
    {
        let timestamp = unix_now_secs();
        let filters = match self.region {
            Some(r) => Some(TaskFilters { region: Some(r) }),
            None => None,
        };
        CrawlerTask {
            meta: Some(CrawlerTaskMeta {
                task_id: self.task_id,
                campaign_id: self.campaign_id,
                source: to_owned_string("agent"),
                timestamp,
            }),
            spec: Some(CrawlerTaskSpec { platform: self.platform, data_type: self.data_type }),
            config: Some(ProtocolTaskConfig {
                keywords: self.keywords,
                max_count: self.max_count,
                search_offset: 0,
                search_limit: self.max_count,
                filters,
                search_options: None,
            }),
        }
    }
}

// ------------------------------------------------------------------
// Queue consumer configuration and acknowledgement
// ------------------------------------------------------------------

/// Acknowledgement pushed to the result queue.
#[derive(Debug, Clone)]
pub struct TaskResult {
    pub task_id: i64,
    pub success: bool,
    pub message: Option<String>,
    /// RFC 3339 time of the acknowledgement.
    pub timestamp: String,
}

#[verifier::external_type_specification]
#[verifier::external_body]
pub struct ExRedisClient(redis::Client);

/// Whether the Redis client accepts `url` as its connection parameters.
pub uninterp spec fn redis_url_accepted(url: Seq<char>) -> bool;

/// `redis::Client::open` on a URL: a client exactly when the URL is accepted,
/// otherwise the error's text.
#[verifier::external_body]
fn open_redis_client(url: &str) -> (r: Result<redis::Client, String>)
    ensures
        r is Ok <==> redis_url_accepted(url@),
{
    redis::Client::open(url).map_err(|e| e.to_string())
}

/// Configuration of a task-queue consumer.
pub struct RedisTaskConsumer {
    client: redis::Client,
    queue_name: String,
    result_queue: String,
    timeout_secs: u64,
}

impl RedisTaskConsumer {
    pub closed spec fn spec_queue_name(&self) -> Seq<char> {
        self.queue_name@
    }

    pub closed spec fn spec_result_queue(&self) -> Seq<char> {
        self.result_queue@
    }

    pub closed spec fn spec_timeout_secs(&self) -> u64 {
        self.timeout_secs
    }

    /// A consumer of `queue_name` at `redis_url`, pushing results to
    /// `<queue_name>_results`, blocking up to 30 seconds; a connection error
    /// when the URL is not accepted.
    pub fn new(redis_url: &str, queue_name: &str) -> (r: Result<RedisTaskConsumer, QueueError>)
        ensures
            r is Ok <==> redis_url_accepted(redis_url@),
            r matches Ok(c) ==> c.spec_queue_name() == queue_name@ && c.spec_result_queue()
                == queue_name@ + "_results"@ && c.spec_timeout_secs() == 30,
            r matches Err(e) ==> e is Connection,
    {
        match open_redis_client(redis_url) {
            Ok(client) => {
                let mut result_queue = to_owned_string(queue_name);
                push_str(&mut result_queue, "_results");
                Ok(RedisTaskConsumer {
                    client,
                    queue_name: to_owned_string(queue_name),
                    result_queue,
                    timeout_secs: 30,
                })
            },
            Err(msg) => Err(QueueError::Connection(msg)),
        }
    }

    /// Sets the blocking timeout.
    pub fn with_timeout(self, secs: u64) -> (r: RedisTaskConsumer)
        ensures
            r.spec_timeout_secs() == secs,
            r.spec_queue_name() == self.spec_queue_name(),
            r.spec_result_queue() == self.spec_result_queue(),
    {
        RedisTaskConsumer { timeout_secs: secs, ..self }
    }

    /// The client.
    pub fn client(&self) -> &redis::Client {
        &self.client
    }

    /// The task queue's name.
    pub fn queue_name(&self) -> (r: &str)
        ensures
            r@ == self.spec_queue_name(),
    {
        self.queue_name.as_str()
    }

    /// The result queue's name.
    pub fn result_queue(&self) -> (r: &str)
        ensures
            r@ == self.spec_result_queue(),
    {
        self.result_queue.as_str()
    }

    /// The blocking timeout in seconds.
    pub fn timeout_secs(&self) -> (r: u64)
        ensures
            r == self.spec_timeout_secs(),
    {
        self.timeout_secs
    }
}

} // verus!
