//! Cursor pagination state machine shared by the platform adapters.
//!
//! The adapters fetch one page at a time and hand the page's item ids and the
//! upstream's next cursor to [`PaginationLoop::accept_page`], which decides
//! which ids are newly accepted (deduplicated, capped at the target count) and
//! whether to fetch another page or stop, and why.

use vstd::prelude::*;
use crate::domain::errors::{gateway_message, GatewayError};
use crate::text::str_eq;

verus! {

/// Consecutive pages without a newly accepted item after which the loop stops.
pub const MAX_EMPTY_PAGES: usize = 3;

/// Why a pagination loop stopped.
#[derive(Debug, Clone, Copy, PartialEq, Eq)]
pub enum StopReason {
    /// The target count was reached.
    ReachedMaxCount,
    /// The upstream reported no further page.
    UpstreamExhausted,
    /// The upstream handed back a cursor that was already followed.
    CursorLoop,
    /// Too many consecutive pages brought nothing new.
    EmptyPageLimit,
}

/// What to do after a page.
#[derive(Debug, Clone, PartialEq, Eq)]
pub enum PageDecision {
    /// Fetch the next page with this cursor.
    Continue { cursor: String },
    /// Stop paginating.
    Stop(StopReason),
}

/// The result of feeding one page to the loop.
#[derive(Debug, Clone)]
pub struct PageOutcome {
    /// Ids of this page accepted for the first time, in page order.
    pub newly_accepted: Vec<String>,
    pub decision: PageDecision,
}

/// Why a fetch delivered fewer items than requested.
#[derive(Debug, Clone, PartialEq, Eq)]
pub enum FetchShortfall {
    /// The upstream ran out of items.
    Exhausted,
    /// A rate limit interrupted the fetch after some progress.
    PartialFailure { message: String },
}

/// How an adapter's page loop ended.
#[derive(Debug)]
pub enum LoopEnd {
    /// The state machine stopped for this reason.
    Stop(StopReason),
    /// A rate-limit error ended the loop.
    Partial(GatewayError),
}

/// Abstract state of a pagination loop.
pub ghost struct PaginationState {
    pub max_count: nat,
    pub accepted: Seq<Seq<char>>,
    pub cursors: Seq<Seq<char>>,
    pub empty_streak: nat,
}

/// Decision of a step, with the cursor as a character sequence.
pub ghost enum Step {
    Continue(Seq<char>),
    Stop(StopReason),
}

/// Cursor pagination state machine.
pub struct PaginationLoop {
    max_count: usize,
    accepted: Vec<String>,
    seen_cursors: Vec<String>,
    empty_streak: usize,
}

/// Character views of a sequence of strings.
pub open spec fn views(v: Seq<String>) -> Seq<Seq<char>> {
    v.map_values(|s: String| s@)
}

/// Character view of an optional string.
pub open spec fn opt_view(o: Option<String>) -> Option<Seq<char>> {
    match o {
        Some(s) => Some(s@),
        None => None,
    }
}

/// Accepting the ids of `page` in order: an id is taken when it was not taken
/// before and fewer than `max` ids are taken.
pub open spec fn accept_ids(acc: Seq<Seq<char>>, page: Seq<Seq<char>>, max: nat) -> Seq<Seq<char>>
    decreases page.len(),
{
    if page.len() == 0 {
        acc
    } else {
        let a = accept_ids(acc, page.drop_last(), max);
        let id = page.last();
        if a.len() < max && !a.contains(id) {
            a.push(id)
        } else {
            a
        }
    }
}

/// The empty-page streak after a page: reset by a page that brought something
/// new, otherwise one more (saturating at `MAX_EMPTY_PAGES`).
pub open spec fn next_streak(streak: nat, page_was_empty: bool) -> nat {
    if !page_was_empty {
        0
    } else if streak + 1 >= MAX_EMPTY_PAGES {
        MAX_EMPTY_PAGES as nat
    } else {
        streak + 1
    }
}

/// The decision taken after accepting `page` with next cursor `next` in state `s`.
pub open spec fn step_decision(s: PaginationState, page: Seq<Seq<char>>, next: Option<Seq<char>>) -> Step {
    let acc2 = accept_ids(s.accepted, page, s.max_count);
    let streak2 = next_streak(s.empty_streak, acc2.len() == s.accepted.len());
    if acc2.len() >= s.max_count {
        Step::Stop(StopReason::ReachedMaxCount)
    } else if streak2 >= MAX_EMPTY_PAGES {
        Step::Stop(StopReason::EmptyPageLimit)
    } else {
        match next {
            None => Step::Stop(StopReason::UpstreamExhausted),
            Some(c) => if s.cursors.contains(c) {
                Step::Stop(StopReason::CursorLoop)
            } else {
                Step::Continue(c)
            },
        }
    }
}

/// The state after accepting `page` with next cursor `next` in state `s`.
pub open spec fn step_state(s: PaginationState, page: Seq<Seq<char>>, next: Option<Seq<char>>) -> PaginationState {
    let acc2 = accept_ids(s.accepted, page, s.max_count);
    PaginationState {
        max_count: s.max_count,
        accepted: acc2,
        cursors: match step_decision(s, page, next) {
            Step::Continue(c) => s.cursors.push(c),
            Step::Stop(_) => s.cursors,
        },
        empty_streak: next_streak(s.empty_streak, acc2.len() == s.accepted.len()),
    }
}

/// A well-formed state: within the cap, no duplicate, bounded empty streak.
pub open spec fn state_wf(s: PaginationState) -> bool {
    &&& s.accepted.len() <= s.max_count
    &&& s.accepted.no_duplicates()
    &&& s.empty_streak <= MAX_EMPTY_PAGES
}

/// A natural-number measure that every `Continue` strictly decreases.
pub open spec fn progress_measure(s: PaginationState) -> nat {
    ((s.max_count - s.accepted.len()) * 4 + MAX_EMPTY_PAGES - s.empty_streak) as nat
}

/// The step of a `PageDecision`.
pub open spec fn decision_step(d: PageDecision) -> Step {
    match d {
        PageDecision::Continue { cursor } => Step::Continue(cursor@),
        PageDecision::Stop(r) => Step::Stop(r),
    }
}

/// The shortfall for a loop that stopped for `reason` having accepted `accepted` of `max` items.
pub open spec fn shortfall_of(accepted: nat, max: nat, reason: StopReason) -> Option<FetchShortfall> {
    if accepted >= max || reason == StopReason::ReachedMaxCount {
        None
    } else {
        Some(FetchShortfall::Exhausted)
    }
}

/// Upstream per-page maximum of a platform's search endpoint.
pub open spec fn page_cap_of(platform: Seq<char>) -> u32 {
    if platform == "reddit"@ || platform == "twitter"@ {
        100
    } else if platform == "instagram"@ {
        50
    } else {
        20
    }
}

/// Upstream per-page maximum of a platform's search endpoint: 100 for reddit
/// and twitter, 50 for instagram, 20 for tiktok, facebook and any other.
pub fn platform_page_cap(platform: &str) -> (r: u32)
    ensures
        r == page_cap_of(platform@),
{
    if str_eq(platform, "reddit") || str_eq(platform, "twitter") {
        100
    } else if str_eq(platform, "instagram") {
        50
    } else {
        20
    }
}

/// Whether `v` holds a string equal to `s`.
pub fn contains_string(v: &Vec<String>, s: &String) -> (r: bool)
    ensures
        r == views(v@).contains(s@),
{
    let mut i: usize = 0;
    while i < v.len()
        invariant
            i <= v.len(),
            forall|j: int| 0 <= j < i ==> v@[j]@ != s@,
        decreases v.len() - i,
    {
        if v[i] == *s {
            proof {
                assert(views(v@)[i as int] == s@);
            }
            return true;
        }
        i = i + 1;
    }
    proof {
        assert forall|j: int| 0 <= j < views(v@).len() implies views(v@)[j] != s@ by {
            assert(views(v@)[j] == v@[j]@);
        }
    }
    false
}

proof fn lemma_views_push(v: Seq<String>, s: String)
    ensures
        views(v.push(s)) == views(v).push(s@),
{
    assert(views(v.push(s)) =~= views(v).push(s@));
}

impl View for PaginationLoop {
    type V = PaginationState;

    closed spec fn view(&self) -> PaginationState {
        PaginationState {
            max_count: self.max_count as nat,
            accepted: views(self.accepted@),
            cursors: views(self.seen_cursors@),
            empty_streak: self.empty_streak as nat,
        }
    }
}

impl PaginationLoop {
    /// Well-formedness of the loop.
    pub open spec fn wf(&self) -> bool {
        state_wf(self@)
    }

    /// A fresh loop that will accept at most `max_count` items.
    pub fn new(max_count: usize) -> (r: PaginationLoop)
        ensures
            r.wf(),
            r@.max_count == max_count,
            r@.accepted.len() == 0,
            r@.cursors.len() == 0,
            r@.empty_streak == 0,
    {
        let r = PaginationLoop {
            max_count,
            accepted: Vec::new(),
            seen_cursors: Vec::new(),
            empty_streak: 0,
        };
        proof {
            assert(views(r.accepted@) =~= Seq::<Seq<char>>::empty());
            assert(views(r.seen_cursors@) =~= Seq::<Seq<char>>::empty());
        }
        r
    }

    /// The target count.
    pub fn max_count(&self) -> (r: usize)
        ensures
            r == self@.max_count,
    {
        self.max_count
    }

    /// How many items have been accepted so far.
    pub fn accepted_count(&self) -> (r: usize)
        ensures
            r == self@.accepted.len(),
    {
        self.accepted.len()
    }

    /// Feeds one page: its item ids in order and the upstream's next cursor.
    pub fn accept_page(&mut self, ids: &[String], next_cursor: Option<String>) -> (out: PageOutcome)
        requires
            old(self).wf(),
        ensures
            final(self).wf(),
            final(self)@ == step_state(old(self)@, views(ids@), opt_view(next_cursor)),
            views(out.newly_accepted@) == final(self)@.accepted.skip(old(self)@.accepted.len() as int),
            decision_step(out.decision) == step_decision(
                old(self)@,
                views(ids@),
                opt_view(next_cursor),
            ),
    {
        let ghost s0 = self@;
        let ghost page = views(ids@);
        let ghost acc0 = self.accepted@;
        let acc0_len = self.accepted.len();
        let streak0 = self.empty_streak;
        let mut newly: Vec<String> = Vec::new();
        let mut i: usize = 0;
        proof {
            assert(page.take(0) =~= Seq::<Seq<char>>::empty());
            assert(views(self.accepted@).skip(views(acc0).len() as int) =~= views(newly@));
        }
        while i < ids.len()
            invariant
                i <= ids.len(),
                page == views(ids@),
                s0.max_count == self.max_count,
                state_wf(s0),
                views(self.accepted@) == accept_ids(s0.accepted, page.take(i as int), s0.max_count),
                self.accepted@.len() <= self.max_count,
                views(self.accepted@).no_duplicates(),
                self.accepted@.len() >= acc0.len(),
                views(self.accepted@).take(acc0.len() as int) == s0.accepted,
                views(newly@) == views(self.accepted@).skip(acc0.len() as int),
                views(acc0) == s0.accepted,
                self.seen_cursors@ == old(self).seen_cursors@,
                self.empty_streak == old(self).empty_streak,
            decreases ids.len() - i,
        {
            let id = &ids[i];
            proof {
                assert(page.take(i + 1).drop_last() == page.take(i as int));
                assert(page.take(i + 1).last() == id@);
            }
            if self.accepted.len() < self.max_count && !contains_string(&self.accepted, id) {
                let ghost before = views(self.accepted@);
                let ghost before_v = self.accepted@;
                self.accepted.push(id.clone());
                let ghost nb = newly@;
                newly.push(id.clone());
                proof {
                    lemma_views_push(before_v, *id);
                    lemma_views_push(nb, *id);
                    assert(views(self.accepted@) == before.push(id@)) by {
                        assert(views(self.accepted@) =~= before.push(id@));
                    }
                    assert(views(newly@) =~= views(self.accepted@).skip(acc0.len() as int));
                    assert(views(self.accepted@).take(acc0.len() as int) =~= before.take(acc0.len() as int));
                }
            }
            i = i + 1;
        }
        proof {
            assert(page.take(ids.len() as int) == page);
        }
        let grew = self.accepted.len() > acc0_len;
        if grew {
            self.empty_streak = 0;
        } else if self.empty_streak < MAX_EMPTY_PAGES {
            self.empty_streak = self.empty_streak + 1;
        } else {
            self.empty_streak = MAX_EMPTY_PAGES;
        }
        let decision = if self.accepted.len() >= self.max_count {
            PageDecision::Stop(StopReason::ReachedMaxCount)
        } else if !grew && streak0 + 1 >= MAX_EMPTY_PAGES {
            PageDecision::Stop(StopReason::EmptyPageLimit)
        } else {
            match next_cursor {
                None => PageDecision::Stop(StopReason::UpstreamExhausted),
                Some(c) => {
                    if contains_string(&self.seen_cursors, &c) {
                        PageDecision::Stop(StopReason::CursorLoop)
                    } else {
                        let ghost cs = self.seen_cursors@;
                        self.seen_cursors.push(c.clone());
                        proof {
                            lemma_views_push(cs, c);
                        }
                        PageDecision::Continue { cursor: c }
                    }
                },
            }
        };
        proof {
            assert(!grew ==> views(self.accepted@).len() == s0.accepted.len());
        }
        PageOutcome { newly_accepted: newly, decision }
    }

    /// The shortfall of a loop that stopped for `reason`: none when the target
    /// was reached, otherwise the upstream is exhausted.
    pub fn shortfall_for(&self, reason: &StopReason) -> (r: Option<FetchShortfall>)
        ensures
            r == shortfall_of(self@.accepted.len(), self@.max_count, *reason),
    {
        if self.accepted.len() >= self.max_count {
            None
        } else {
            match reason {
                StopReason::ReachedMaxCount => None,
                _ => Some(FetchShortfall::Exhausted),
            }
        }
    }
}

// ------------------------------------------------------------------
// Laws of the state machine
// ------------------------------------------------------------------

/// Accepting a page keeps what was accepted before as a prefix, never exceeds
/// the cap, never accepts an id twice, takes only ids of the page that were not
/// taken before, and drops no id of the page unless the cap is reached.
pub proof fn lemma_accept_ids(acc: Seq<Seq<char>>, page: Seq<Seq<char>>, max: nat)
    requires
        acc.len() <= max,
        acc.no_duplicates(),
    ensures
        ({
            let r = accept_ids(acc, page, max);
            &&& r.len() <= max
            &&& r.no_duplicates()
            &&& r.len() >= acc.len()
            &&& r.take(acc.len() as int) == acc
            &&& forall|k: int| acc.len() <= k < r.len() ==> page.contains(#[trigger] r[k]) && !acc.contains(r[k])
            &&& r.len() < max ==> forall|j: int| 0 <= j < page.len() ==> r.contains(#[trigger] page[j])
        }),
    decreases page.len(),
{
    if page.len() == 0 {
        assert(acc.take(acc.len() as int) == acc);
    } else {
        let p = page.drop_last();
        lemma_accept_ids(acc, p, max);
        let a = accept_ids(acc, p, max);
        let id = page.last();
        let r = accept_ids(acc, page, max);
        assert forall|k: int| acc.len() <= k < a.len() implies page.contains(#[trigger] a[k]) && !acc.contains(a[k]) by {
            let j = choose|j: int| 0 <= j < p.len() && p[j] == a[k];
            assert(page[j] == a[k]);
        }
        if a.len() < max && !a.contains(id) {
            assert(r == a.push(id));
            assert(r.take(acc.len() as int) =~= a.take(acc.len() as int));
            assert(r.no_duplicates()) by {
                assert forall|x: int, y: int| 0 <= x < r.len() && 0 <= y < r.len() && x != y implies r[x] != r[y] by {
                    if x == a.len() as int {
                        assert(a.contains(r[y]) || y == x);
                    } else if y == a.len() as int {
                        assert(a.contains(r[x]));
                    }
                }
            }
            assert forall|k: int| acc.len() <= k < r.len() implies page.contains(#[trigger] r[k]) && !acc.contains(r[k]) by {
                if k == a.len() as int {
                    assert(page[page.len() - 1] == id);
                    if acc.contains(id) {
                        let m = choose|m: int| 0 <= m < acc.len() && acc[m] == id;
                        assert(a.take(acc.len() as int)[m] == a[m]);
                    }
                } else {
                    assert(r[k] == a[k]);
                }
            }
            assert forall|j: int| 0 <= j < page.len() && r.len() < max implies r.contains(#[trigger] page[j]) by {
                if j < p.len() {
                    assert(p[j] == page[j]);
                    let m = choose|m: int| 0 <= m < a.len() && a[m] == p[j];
                    assert(r[m] == a[m]);
                } else {
                    assert(r[a.len() as int] == id);
                }
            }
        } else {
            assert(r == a);
            assert forall|j: int| 0 <= j < page.len() && r.len() < max implies r.contains(#[trigger] page[j]) by {
                if j < p.len() {
                    assert(p[j] == page[j]);
                } else {
                    assert(page[j] == id);
                }
            }
        }
    }
}

/// Every step preserves well-formedness, and a `Continue` decision strictly
/// decreases the progress measure: a loop that follows the decisions stops
/// after at most `4 * max_count + MAX_EMPTY_PAGES + 1` pages.
pub proof fn lemma_step_progress(s: PaginationState, page: Seq<Seq<char>>, next: Option<Seq<char>>)
    requires
        state_wf(s),
    ensures
        state_wf(step_state(s, page, next)),
        step_decision(s, page, next) is Continue ==> progress_measure(step_state(s, page, next))
            < progress_measure(s),
{
    lemma_accept_ids(s.accepted, page, s.max_count);
}

/// A loop that continued never stops short of the target for lack of a
/// cursor: `Continue` carries a cursor that was never followed before.
pub proof fn lemma_continue_cursor_fresh(s: PaginationState, page: Seq<Seq<char>>, next: Option<Seq<char>>)
    requires
        state_wf(s),
    ensures
        step_decision(s, page, next) matches Step::Continue(c) ==> next == Some(c) && !s.cursors.contains(c)
            && accept_ids(s.accepted, page, s.max_count).len() < s.max_count,
{
}

/// The shortfall is absent exactly when the target was reached or the loop
/// stopped because it reached the target.
pub proof fn lemma_shortfall_none_iff_reached(accepted: nat, max: nat, reason: StopReason)
    ensures
        shortfall_of(accepted, max, reason) is None <==> (accepted >= max || reason
            == StopReason::ReachedMaxCount),
        shortfall_of(accepted, max, reason) is Some ==> shortfall_of(accepted, max, reason)
            == Some(FetchShortfall::Exhausted),
{
}

// ------------------------------------------------------------------
// Errors during a loop, and the outcome of a loop
// ------------------------------------------------------------------

/// The treatment of a page error: a rate limit after progress ends the loop
/// with a partial result; any other error, or one without progress, fails.
pub open spec fn page_error_is_partial(err: GatewayError, progressed: bool) -> bool {
    progressed && err is RateLimited
}

/// Decides how a failed page fetch ends the loop: `Ok(LoopEnd::Partial(err))`
/// for a rate limit after progress, otherwise `Err(err)` unchanged.
pub fn classify_page_error(err: GatewayError, progressed: bool) -> (r: Result<LoopEnd, GatewayError>)
    ensures
        page_error_is_partial(err, progressed) ==> (r matches Ok(LoopEnd::Partial(e)) && e == err),
        !page_error_is_partial(err, progressed) ==> (r matches Err(e) && e == err),
{
    let partial = progressed && err.is_rate_limited();
    if partial {
        Ok(LoopEnd::Partial(err))
    } else {
        Err(err)
    }
}

/// Maps the end of a loop to the reported shortfall: reaching the target
/// reports none, an exhausted upstream reports `Exhausted`, a rate limit after
/// progress reports `PartialFailure` with the error's message, and a rate limit
/// without any delivered item is returned as the error itself.
pub fn loop_outcome(delivered: usize, target: usize, end: LoopEnd) -> (r: Result<Option<FetchShortfall>, GatewayError>)
    ensures
        match end {
            LoopEnd::Stop(reason) => r == Ok::<Option<FetchShortfall>, GatewayError>(shortfall_of(delivered as nat, target as nat, reason)),
            LoopEnd::Partial(err) => if delivered == 0 {
                r matches Err(e) && e == err
            } else {
                r matches Ok(Some(FetchShortfall::PartialFailure { message })) && message@ == gateway_message(err)
            },
        },
{
    match end {
        LoopEnd::Stop(reason) => {
            if delivered >= target {
                Ok(None)
            } else {
                match reason {
                    StopReason::ReachedMaxCount => Ok(None),
                    _ => Ok(Some(FetchShortfall::Exhausted)),
                }
            }
        },
        LoopEnd::Partial(err) => {
            if delivered == 0 {
                Err(err)
            } else {
                let message = err.message();
                Ok(Some(FetchShortfall::PartialFailure { message }))
            }
        },
    }
}

} // verus!
