//! A content search paginated by cursor: the pagination state machine over
//! the ids of each page, together with the contents it accepts.

use vstd::prelude::*;
use crate::domain::entities::{Content, FetchOutcome};
use crate::domain::errors::{gateway_message, GatewayError};
use crate::pagination::{
    lemma_accept_ids, classify_page_error, contains_string, decision_step, loop_outcome, opt_view,
    page_error_is_partial, shortfall_of, step_decision, step_state, views, FetchShortfall,
    LoopEnd, PageDecision, PaginationLoop, PaginationState,
};
use crate::text::str_eq;

verus! {

/// The ids of a sequence of contents.
pub open spec fn ids_of(s: Seq<Content>) -> Seq<Seq<char>> {
    s.map_values(|c: Content| c.content_id@)
}

/// The last content of `page` with id `id`.
pub open spec fn last_with_id(page: Seq<Content>, id: Seq<char>) -> Option<Content>
    decreases page.len(),
{
    if page.len() == 0 {
        None
    } else if page.last().content_id@ == id {
        Some(page.last())
    } else {
        last_with_id(page.drop_last(), id)
    }
}

/// The first content of `page` with id `id`.
pub open spec fn first_with_id(page: Seq<Content>, id: Seq<char>) -> Option<Content>
    decreases page.len(),
{
    if page.len() == 0 {
        None
    } else if page[0].content_id@ == id {
        Some(page[0])
    } else {
        first_with_id(page.drop_first(), id)
    }
}

/// Which of several contents with the same id in one page is kept.
#[derive(Debug, Clone, Copy, PartialEq, Eq, Structural)]
pub enum DuplicateRule {
    /// The first one (TikTok search).
    First,
    /// The last one (Twitter search).
    Last,
}

/// The content of `page` with id `id` that `rule` keeps.
pub open spec fn with_id(page: Seq<Content>, id: Seq<char>, rule: DuplicateRule) -> Option<Content> {
    match rule {
        DuplicateRule::First => first_with_id(page, id),
        DuplicateRule::Last => last_with_id(page, id),
    }
}

/// For each id in turn, the content of `page` with that id that `rule`
/// keeps; an id met before, or one the page lacks, contributes nothing.
pub open spec fn pick_contents(page: Seq<Content>, ids: Seq<Seq<char>>, rule: DuplicateRule) -> Seq<Content>
    decreases ids.len(),
{
    if ids.len() == 0 {
        seq![]
    } else {
        let p = pick_contents(page, ids.drop_last(), rule);
        if ids.drop_last().contains(ids.last()) {
            p
        } else {
            match with_id(page, ids.last(), rule) {
                Some(c) => p.push(c),
                None => p,
            }
        }
    }
}

proof fn lemma_last_with_id_at(page: Seq<Content>, id: Seq<char>, j: int)
    requires
        0 <= j < page.len(),
        page[j].content_id@ == id,
        forall|k: int| j < k < page.len() ==> page[k].content_id@ != id,
    ensures
        last_with_id(page, id) == Some(page[j]),
    decreases page.len(),
{
    if j < page.len() - 1 {
        assert(page.last() == page[page.len() - 1]);
        lemma_last_with_id_at(page.drop_last(), id, j);
    }
}

proof fn lemma_last_with_id_none(page: Seq<Content>, id: Seq<char>)
    requires
        forall|k: int| 0 <= k < page.len() ==> page[k].content_id@ != id,
    ensures
        last_with_id(page, id) is None,
        first_with_id(page, id) is None,
    decreases page.len(),
{
    if page.len() > 0 {
        assert(page.last() == page[page.len() - 1]);
        lemma_last_with_id_none(page.drop_last(), id);
        lemma_first_with_id_none(page, id);
    }
}

proof fn lemma_first_with_id_none(page: Seq<Content>, id: Seq<char>)
    requires
        forall|k: int| 0 <= k < page.len() ==> page[k].content_id@ != id,
    ensures
        first_with_id(page, id) is None,
    decreases page.len(),
{
    if page.len() > 0 {
        assert(page[0].content_id@ != id);
        lemma_first_with_id_none(page.drop_first(), id);
    }
}

proof fn lemma_first_with_id_at(page: Seq<Content>, id: Seq<char>, j: int)
    requires
        0 <= j < page.len(),
        page[j].content_id@ == id,
        forall|k: int| 0 <= k < j ==> page[k].content_id@ != id,
    ensures
        first_with_id(page, id) == Some(page[j]),
    decreases page.len(),
{
    if j > 0 {
        assert(page[0].content_id@ != id);
        lemma_first_with_id_at(page.drop_first(), id, j - 1);
    }
}

/// The slot holding the content of `p` with id `id` that `rule` keeps: the
/// slots hold `p`'s contents except those taken, whose ids are in `done`.
fn find_slot(slots: &Vec<Option<Content>>, id: &String, rule: DuplicateRule, Ghost(p): Ghost<Seq<Content>>, Ghost(done): Ghost<Seq<Seq<char>>>) -> (r: Option<usize>)
    requires
        slots.len() == p.len(),
        !done.contains(id@),
        forall|q: int|
            0 <= q < slots.len() ==> (#[trigger] slots@[q] == Some(p[q]) || (slots@[q] is None
                && done.contains(p[q].content_id@))),
    ensures
        match r {
            Some(at) => at < p.len() && slots@[at as int] == Some(p[at as int]) && p[at as int].content_id@
                == id@ && with_id(p, id@, rule) == Some(p[at as int]),
            None => with_id(p, id@, rule) is None,
        },
{
    match rule {
        DuplicateRule::Last => {
            let mut j: usize = slots.len();
            while j > 0
                invariant
                    rule == DuplicateRule::Last,
                    j <= slots.len(),
                    slots.len() == p.len(),
                    !done.contains(id@),
                    forall|q: int| j <= q < p.len() ==> p[q].content_id@ != id@,
                    forall|q: int|
                        0 <= q < slots.len() ==> (#[trigger] slots@[q] == Some(p[q]) || (slots@[q] is None
                            && done.contains(p[q].content_id@))),
                decreases j,
            {
                let hit = match &slots[j - 1] {
                    Some(c) => str_eq(c.content_id.as_str(), id.as_str()),
                    None => false,
                };
                if hit {
                    proof {
                        assert(slots@[j - 1] == Some(p[j - 1]));
                        assert(p[j - 1].content_id@ == id@);
                        lemma_last_with_id_at(p, id@, j - 1);
                        assert(rule == DuplicateRule::Last);
                        assert(with_id(p, id@, rule) == Some(p[j - 1]));
                    }
                    return Some(j - 1);
                }
                proof {
                    if slots@[j - 1] is None {
                        assert(done.contains(p[j - 1].content_id@));
                    }
                }
                j = j - 1;
            }
            proof {
                lemma_last_with_id_none(p, id@);
            }
            None
        },
        DuplicateRule::First => {
            let mut j: usize = 0;
            while j < slots.len()
                invariant
                    rule == DuplicateRule::First,
                    j <= slots.len(),
                    slots.len() == p.len(),
                    !done.contains(id@),
                    forall|q: int| 0 <= q < j ==> p[q].content_id@ != id@,
                    forall|q: int|
                        0 <= q < slots.len() ==> (#[trigger] slots@[q] == Some(p[q]) || (slots@[q] is None
                            && done.contains(p[q].content_id@))),
                decreases slots.len() - j,
            {
                let hit = match &slots[j] {
                    Some(c) => str_eq(c.content_id.as_str(), id.as_str()),
                    None => false,
                };
                if hit {
                    proof {
                        assert(slots@[j as int] == Some(p[j as int]));
                        assert(p[j as int].content_id@ == id@);
                        lemma_first_with_id_at(p, id@, j as int);
                        assert(rule == DuplicateRule::First);
                        assert(with_id(p, id@, rule) == Some(p[j as int]));
                    }
                    return Some(j);
                }
                proof {
                    if slots@[j as int] is None {
                        assert(done.contains(p[j as int].content_id@));
                    }
                }
                j = j + 1;
            }
            proof {
                lemma_first_with_id_none(p, id@);
            }
            None
        },
    }
}

proof fn lemma_with_id_found(page: Seq<Content>, id: Seq<char>, rule: DuplicateRule)
    requires
        ids_of(page).contains(id),
    ensures
        with_id(page, id, rule) matches Some(c) && c.content_id@ == id,
{
    let j = choose|j: int| 0 <= j < ids_of(page).len() && ids_of(page)[j] == id;
    match rule {
        DuplicateRule::First => {
            lemma_first_found(page, id, j);
        },
        DuplicateRule::Last => {
            lemma_last_found(page, id, j);
        },
    }
}

proof fn lemma_first_found(page: Seq<Content>, id: Seq<char>, j: int)
    requires
        0 <= j < page.len(),
        page[j].content_id@ == id,
    ensures
        first_with_id(page, id) matches Some(c) && c.content_id@ == id,
    decreases page.len(),
{
    if page[0].content_id@ != id {
        lemma_first_found(page.drop_first(), id, j - 1);
    }
}

proof fn lemma_last_found(page: Seq<Content>, id: Seq<char>, j: int)
    requires
        0 <= j < page.len(),
        page[j].content_id@ == id,
    ensures
        last_with_id(page, id) matches Some(c) && c.content_id@ == id,
    decreases page.len(),
{
    if page.last().content_id@ != id {
        assert(j < page.len() - 1);
        assert(page.drop_last()[j] == page[j]);
        lemma_last_found(page.drop_last(), id, j);
    }
}

/// Picking the contents for distinct ids that all occur in the page yields
/// one content per id, in the order of the ids.
pub proof fn lemma_pick_ids(page: Seq<Content>, ids: Seq<Seq<char>>, rule: DuplicateRule)
    requires
        ids.no_duplicates(),
        forall|k: int| 0 <= k < ids.len() ==> ids_of(page).contains(#[trigger] ids[k]),
    ensures
        ids_of(pick_contents(page, ids, rule)) == ids,
    decreases ids.len(),
{
    if ids.len() > 0 {
        let p = ids.drop_last();
        assert forall|k: int| 0 <= k < p.len() implies ids_of(page).contains(#[trigger] p[k]) by {
            assert(p[k] == ids[k]);
        }
        lemma_pick_ids(page, p, rule);
        assert(!p.contains(ids.last())) by {
            if p.contains(ids.last()) {
                let m = choose|m: int| 0 <= m < p.len() && p[m] == ids.last();
                assert(ids[m] == ids[ids.len() - 1]);
            }
        }
        assert(ids_of(page).contains(ids[ids.len() - 1]));
        lemma_with_id_found(page, ids.last(), rule);
        let c = with_id(page, ids.last(), rule)->0;
        assert(ids_of(pick_contents(page, ids, rule)) =~= ids_of(pick_contents(page, p, rule)).push(
            c.content_id@,
        ));
        assert(ids =~= p.push(ids.last()));
    }
}

/// Picks, for each id of `ids` in turn, the content of `page` with that id
/// that `rule` keeps (each content is handed out at most once).
pub fn pick_accepted(page: Vec<Content>, ids: &Vec<String>, rule: DuplicateRule) -> (r: Vec<Content>)
    ensures
        r@ == pick_contents(page@, views(ids@), rule),
{
    let ghost p = page@;
    let mut slots: Vec<Option<Content>> = Vec::new();
    for c in it: page.into_iter()
        invariant
            it.seq() == p,
            slots.len() == it.index(),
            forall|j: int| 0 <= j < slots.len() ==> slots@[j] == Some(#[trigger] p[j]),
    {
        slots.push(Some(c));
    }
    let mut out: Vec<Content> = Vec::new();
    let mut done: Vec<String> = Vec::new();
    let mut k: usize = 0;
    while k < ids.len()
        invariant
            k <= ids.len(),
            slots.len() == p.len(),
            views(done@) == views(ids@).take(k as int),
            out@ == pick_contents(p, views(ids@).take(k as int), rule),
            forall|j: int|
                0 <= j < slots.len() ==> (#[trigger] slots@[j] == Some(p[j]) || (slots@[j] is None
                    && views(done@).contains(p[j].content_id@))),
        decreases ids.len() - k,
    {
        let id = &ids[k];
        let ghost ks = views(ids@).take(k as int);
        proof {
            assert(views(ids@).take(k + 1).drop_last() == ks);
            assert(views(ids@).take(k + 1).last() == id@);
        }
        let fresh = !contains_string(&done, id);
        if fresh {
            let found = find_slot(&slots, id, rule, Ghost(p), Ghost(views(done@)));
            match found {
                Some(at) => {
                    let taken = slots.remove(at);
                    slots.insert(at, None);
                    match taken {
                        Some(c) => {
                            out.push(c);
                        },
                        None => {},
                    }
                },
                None => {},
            }
        }
        let ghost done_before = done@;
        done.push(id.clone());
        proof {
            assert(views(done@) =~= views(done_before).push(id@));
            assert forall|q: int| 0 <= q < slots.len() implies (#[trigger] slots@[q] == Some(p[q])
                || (slots@[q] is None && views(done@).contains(p[q].content_id@))) by {
                if slots@[q] is None && views(done_before).contains(p[q].content_id@) {
                    let w = choose|w: int| 0 <= w < views(done_before).len() && views(done_before)[w] == p[q].content_id@;
                    assert(views(done@)[w] == p[q].content_id@);
                }
                if slots@[q] is None && !views(done_before).contains(p[q].content_id@) {
                    assert(views(done@)[views(done@).len() - 1] == id@);
                }
            }
        }
        k = k + 1;
    }
    proof {
        assert(views(ids@).take(ids@.len() as int) == views(ids@));
    }
    out
}

/// Abstract state of a content pager.
pub ghost struct ContentPagerView {
    pub state: PaginationState,
    pub contents: Seq<Content>,
    pub rule: DuplicateRule,
}

/// A cursor-paginated content search: which page comes next, and which
/// contents were accepted.
pub struct ContentPager {
    state: PaginationLoop,
    contents: Vec<Content>,
    rule: DuplicateRule,
}

impl View for ContentPager {
    type V = ContentPagerView;

    closed spec fn view(&self) -> ContentPagerView {
        ContentPagerView { state: self.state@, contents: self.contents@, rule: self.rule }
    }
}

impl ContentPager {
    /// Well-formedness: the contents are exactly the accepted items, in
    /// order of acceptance.
    pub closed spec fn wf(&self) -> bool {
        &&& self.state.wf()
        &&& ids_of(self.contents@) == self.state@.accepted
    }

    /// A pager that accepts at most `max_count` contents, keeping the
    /// duplicate of a page that `rule` names.
    pub fn new(max_count: usize, rule: DuplicateRule) -> (r: ContentPager)
        ensures
            r.wf(),
            r@.rule == rule,
            r@.state.max_count == max_count,
            r@.state.accepted.len() == 0,
            r@.state.cursors.len() == 0,
            r@.state.empty_streak == 0,
            r@.contents.len() == 0,
    {
        let r = ContentPager { state: PaginationLoop::new(max_count), contents: Vec::new(), rule };
        proof {
            assert(ids_of(r.contents@) =~= Seq::<Seq<char>>::empty());
            assert(r.state@.accepted =~= Seq::<Seq<char>>::empty());
        }
        r
    }

    /// Feeds one page of contents and the upstream's next cursor: the page's
    /// ids drive the state machine, and for each newly accepted id the last
    /// content of the page with that id is kept.
    pub fn accept_page(&mut self, page: Vec<Content>, next_cursor: Option<String>) -> (r: PageDecision)
        requires
            old(self).wf(),
        ensures
            final(self).wf(),
            final(self)@.state == step_state(old(self)@.state, ids_of(page@), opt_view(next_cursor)),
            decision_step(r) == step_decision(old(self)@.state, ids_of(page@), opt_view(next_cursor)),
            final(self)@.rule == old(self)@.rule,
            final(self)@.contents == old(self)@.contents + pick_contents(
                page@,
                final(self)@.state.accepted.skip(old(self)@.state.accepted.len() as int),
                old(self)@.rule,
            ),
    {
        let mut ids: Vec<String> = Vec::new();
        let mut i: usize = 0;
        while i < page.len()
            invariant
                i <= page.len(),
                views(ids@) == ids_of(page@).take(i as int),
            decreases page.len() - i,
        {
            let ghost before = ids@;
            ids.push(page[i].content_id.clone());
            proof {
                assert(views(ids@) =~= views(before).push(page@[i as int].content_id@));
                assert(ids_of(page@).take(i + 1) =~= ids_of(page@).take(i as int).push(
                    page@[i as int].content_id@,
                ));
            }
            i = i + 1;
        }
        proof {
            assert(ids_of(page@).take(page@.len() as int) == ids_of(page@));
        }
        let ghost acc0 = self.state@.accepted;
        let ghost page_ids = ids_of(page@);
        proof {
            lemma_accept_ids(acc0, page_ids, self.state@.max_count);
        }
        let outcome = self.state.accept_page(ids.as_slice(), next_cursor);
        let ghost newly = views(outcome.newly_accepted@);
        let ghost r = self.state@.accepted;
        proof {
            assert(newly == r.skip(acc0.len() as int));
            assert(newly.no_duplicates()) by {
                assert forall|x: int, y: int| 0 <= x < newly.len() && 0 <= y < newly.len() && x != y implies newly[x] != newly[y] by {
                    assert(newly[x] == r[x + acc0.len()]);
                    assert(newly[y] == r[y + acc0.len()]);
                }
            }
            assert forall|k: int| 0 <= k < newly.len() implies page_ids.contains(#[trigger] newly[k]) by {
                assert(newly[k] == r[k + acc0.len()]);
            }
            lemma_pick_ids(page@, newly, self.rule);
        }
        let ghost contents0 = self.contents@;
        let mut picked = pick_accepted(page, &outcome.newly_accepted, self.rule);
        let ghost picked0 = picked@;
        self.contents.append(&mut picked);
        proof {
            assert(ids_of(self.contents@) =~= ids_of(contents0) + ids_of(picked0));
            assert(r =~= r.take(acc0.len() as int) + r.skip(acc0.len() as int));
        }
        outcome.decision
    }

    /// How a failed page fetch ends the search: a rate limit once contents
    /// were accepted ends it with a partial result; any other error fails it.
    pub fn classify_error(&self, err: GatewayError) -> (r: Result<LoopEnd, GatewayError>)
        ensures
            page_error_is_partial(err, self@.contents.len() > 0) ==> (r matches Ok(
                LoopEnd::Partial(e),
            ) && e == err),
            !page_error_is_partial(err, self@.contents.len() > 0) ==> (r matches Err(e) && e
                == err),
    {
        classify_page_error(err, self.contents.len() > 0)
    }

    /// The outcome of the search once it ended as `end`: the accepted
    /// contents with the shortfall, or the error of a rate limit that came
    /// before any content.
    pub fn finish(self, end: LoopEnd) -> (r: Result<FetchOutcome, GatewayError>)
        ensures
            match end {
                LoopEnd::Stop(reason) => r matches Ok(o) && o.contents@ == self@.contents
                    && o.shortfall == shortfall_of(
                    self@.contents.len(),
                    self@.state.max_count,
                    reason,
                ),
                LoopEnd::Partial(err) => if self@.contents.len() == 0 {
                    r matches Err(e) && e == err
                } else {
                    r matches Ok(o) && o.contents@ == self@.contents && (o.shortfall matches Some(
                        FetchShortfall::PartialFailure { message },
                    ) && message@ == gateway_message(err))
                },
            },
    {
        let target = self.state.max_count();
        let delivered = self.contents.len();
        match loop_outcome(delivered, target, end) {
            Ok(shortfall) => Ok(FetchOutcome { contents: self.contents, shortfall }),
            Err(e) => Err(e),
        }
    }
}


/// A pager's contents are exactly the items it accepted, one per id, in the
/// order of acceptance, so never more than its target.
pub proof fn lemma_pager_contents_are_accepted(p: ContentPager)
    requires
        p.wf(),
    ensures
        ids_of(p@.contents) == p@.state.accepted,
        p@.contents.len() <= p@.state.max_count,
        ids_of(p@.contents).no_duplicates(),
{
    assert(ids_of(p@.contents).len() == p@.contents.len());
}

} // verus!
