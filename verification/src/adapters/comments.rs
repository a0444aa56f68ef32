//! The page loop that gathers all comments of a post, page by page, up to a
//! maximum: which page to ask for next, and what each page adds.

use vstd::prelude::*;
use crate::domain::entities::Comment;
use crate::pagination::{contains_string, opt_view, views};
use crate::text::str_eq;

verus! {

/// Largest number of comments asked for in one request.
pub const COMMENT_PAGE_LIMIT: u32 = 50;

/// How a page's comments join the collected ones.
#[derive(Debug, Clone)]
pub enum CollectMode {
    /// Every comment of the page is appended (Instagram, Reddit).
    Append,
    /// The post itself is skipped, a comment id is kept once, and the page
    /// stops adding as soon as the maximum is reached (Twitter threads).
    Thread { root_id: String },
}

/// Abstract mode.
pub ghost enum CollectModeView {
    Append,
    Thread(Seq<char>),
}

/// Abstract state of the collector.
pub ghost struct CommentCollectorView {
    pub mode: CollectModeView,
    pub max_count: nat,
    pub comments: Seq<Comment>,
    pub cursor: Option<Seq<char>>,
    pub finished: bool,
}

/// The ids of a sequence of comments.
pub open spec fn comment_ids(s: Seq<Comment>) -> Seq<Seq<char>> {
    s.map_values(|c: Comment| c.comment_id@)
}

/// Adding a thread page to `acc`: the root is skipped, a known id is not
/// added again, and after each other comment the page stops once `max`
/// comments are collected.
pub open spec fn merge_thread(acc: Seq<Comment>, page: Seq<Comment>, root: Seq<char>, max: nat) -> Seq<Comment>
    decreases page.len(),
{
    if page.len() == 0 {
        acc
    } else {
        let c = page[0];
        if c.comment_id@ == root {
            merge_thread(acc, page.drop_first(), root, max)
        } else {
            let acc2 = if comment_ids(acc).contains(c.comment_id@) {
                acc
            } else {
                acc.push(c)
            };
            if acc2.len() >= max {
                acc2
            } else {
                merge_thread(acc2, page.drop_first(), root, max)
            }
        }
    }
}

/// Adding a page in the given mode.
pub open spec fn merge_page(mode: CollectModeView, acc: Seq<Comment>, page: Seq<Comment>, max: nat) -> Seq<Comment> {
    match mode {
        CollectModeView::Append => acc + page,
        CollectModeView::Thread(root) => merge_thread(acc, page, root, max),
    }
}

/// The number of comments still wanted, as the loop computes it from the
/// collected count (taken modulo 2^32).
pub open spec fn remaining_of(max: nat, collected: nat) -> nat {
    let c = collected as u32;
    if c < max {
        (max - c) as nat
    } else {
        0
    }
}

/// Well-formed views: a thread never holds more than the maximum, nor an id
/// twice.
pub open spec fn collector_wf(v: CommentCollectorView) -> bool {
    &&& v.max_count <= u32::MAX
    &&& v.mode matches CollectModeView::Thread(_) ==> v.comments.len() <= v.max_count
        && comment_ids(v.comments).no_duplicates()
}

/// Collects a post's comments over several pages.
pub struct CommentCollector {
    mode: CollectMode,
    max_count: u32,
    comments: Vec<Comment>,
    seen: Vec<String>,
    cursor: Option<String>,
    finished: bool,
}

impl View for CommentCollector {
    type V = CommentCollectorView;

    closed spec fn view(&self) -> CommentCollectorView {
        CommentCollectorView {
            mode: match self.mode {
                CollectMode::Append => CollectModeView::Append,
                CollectMode::Thread { root_id } => CollectModeView::Thread(root_id@),
            },
            max_count: self.max_count as nat,
            comments: self.comments@,
            cursor: opt_view(self.cursor),
            finished: self.finished,
        }
    }
}

proof fn lemma_merge_thread_bounds(acc: Seq<Comment>, page: Seq<Comment>, root: Seq<char>, max: nat)
    requires
        acc.len() < max,
        comment_ids(acc).no_duplicates(),
    ensures
        merge_thread(acc, page, root, max).len() <= max,
        comment_ids(merge_thread(acc, page, root, max)).no_duplicates(),
    decreases page.len(),
{
    if page.len() > 0 {
        let c = page[0];
        if c.comment_id@ == root {
            lemma_merge_thread_bounds(acc, page.drop_first(), root, max);
        } else if !comment_ids(acc).contains(c.comment_id@) {
            let acc2 = acc.push(c);
            assert(comment_ids(acc2) =~= comment_ids(acc).push(c.comment_id@));
            if acc2.len() < max {
                lemma_merge_thread_bounds(acc2, page.drop_first(), root, max);
            }
        } else {
            lemma_merge_thread_bounds(acc, page.drop_first(), root, max);
        }
    }
}

impl CommentCollector {
    /// The abstract state.
    pub closed spec fn wf(&self) -> bool {
        &&& collector_wf(self@)
        &&& self.mode matches CollectMode::Thread { .. } ==> views(self.seen@) == comment_ids(
            self.comments@,
        )
    }

    /// A collector that gathers at most `max_count` comments, in `mode`.
    pub fn new(mode: CollectMode, max_count: u32) -> (r: CommentCollector)
        ensures
            r.wf(),
            r@.mode == match mode {
                CollectMode::Append => CollectModeView::Append,
                CollectMode::Thread { root_id } => CollectModeView::Thread(root_id@),
            },
            r@.max_count == max_count,
            r@.comments.len() == 0,
            r@.cursor is None,
            !r@.finished,
    {
        let r = CommentCollector {
            mode,
            max_count,
            comments: Vec::new(),
            seen: Vec::new(),
            cursor: None,
            finished: false,
        };
        proof {
            assert(views(r.seen@) =~= comment_ids(r.comments@));
        }
        r
    }

    /// The next request: the cursor to send and how many comments to ask
    /// for (the remaining count, at most a page), or `None` once the loop is
    /// over.
    pub fn next_request(&self) -> (r: Option<(Option<String>, u32)>)
        requires
            self.wf(),
        ensures
            (self@.finished || remaining_of(self@.max_count, self@.comments.len()) == 0) <==> r
                is None,
            r matches Some((c, n)) ==> opt_view(c) == self@.cursor && n == if remaining_of(
                self@.max_count,
                self@.comments.len(),
            ) < COMMENT_PAGE_LIMIT {
                remaining_of(self@.max_count, self@.comments.len())
            } else {
                COMMENT_PAGE_LIMIT as nat
            },
    {
        if self.finished {
            return None;
        }
        let collected = self.comments.len() as u32;
        let remaining = if collected < self.max_count {
            self.max_count - collected
        } else {
            0
        };
        if remaining == 0 {
            None
        } else {
            let n = if remaining < COMMENT_PAGE_LIMIT {
                remaining
            } else {
                COMMENT_PAGE_LIMIT
            };
            Some((self.cursor.clone(), n))
        }
    }

    /// Feeds the answer to the last request. An empty page ends the loop;
    /// otherwise its comments are added, and the loop ends when the upstream
    /// has no more, else continues from `next_cursor`.
    pub fn accept_page(&mut self, page: Vec<Comment>, has_more: bool, next_cursor: Option<String>)
        requires
            old(self).wf(),
            !old(self)@.finished,
            remaining_of(old(self)@.max_count, old(self)@.comments.len()) > 0,
        ensures
            final(self).wf(),
            final(self)@.mode == old(self)@.mode,
            final(self)@.max_count == old(self)@.max_count,
            page.len() == 0 ==> final(self)@.comments == old(self)@.comments && final(self)@.finished
                && final(self)@.cursor == old(self)@.cursor,
            page.len() > 0 ==> {
                &&& final(self)@.comments == merge_page(
                    old(self)@.mode,
                    old(self)@.comments,
                    page@,
                    old(self)@.max_count,
                )
                &&& final(self)@.finished == !has_more
                &&& final(self)@.cursor == if has_more {
                    opt_view(next_cursor)
                } else {
                    old(self)@.cursor
                }
            },
    {
        if page.len() == 0 {
            self.finished = true;
            return;
        }
        let ghost page_s = page@;
        match &self.mode {
            CollectMode::Append => {
                let mut page = page;
                self.comments.append(&mut page);
            },
            CollectMode::Thread { root_id } => {
                let ghost root = root_id@;
                let ghost acc0 = self.comments@;
                let ghost max = self.max_count as nat;
                let ghost mode0 = self.mode;
                let ghost cursor0 = self.cursor;
                let ghost finished0 = self.finished;
                proof {
                    assert(acc0.len() < max) by {
                        assert(acc0.len() <= max);
                        assert((acc0.len() as u32) == acc0.len());
                    }
                    assert(page_s.skip(0) == page_s);
                }
                let mut i: usize = 0;
                let mut stop = false;
                for c in it: page.into_iter()
                    invariant
                        it.seq() == page_s,
                        max == self.max_count,
                        max <= u32::MAX,
                        self.mode == mode0,
                        self.cursor == cursor0,
                        self.finished == finished0,
                        mode0 == (CollectMode::Thread { root_id: *root_id }),
                        root == root_id@,
                        views(self.seen@) == comment_ids(self.comments@),
                        comment_ids(self.comments@).no_duplicates(),
                        stop ==> self.comments@ == merge_thread(acc0, page_s, root, max),
                        !stop ==> self.comments@.len() < max,
                        !stop ==> merge_thread(acc0, page_s, root, max) == merge_thread(
                            self.comments@,
                            page_s.skip(it.index() as int),
                            root,
                            max,
                        ),
                {
                    if !stop {
                        let ghost rest = page_s.skip(it.index() as int);
                        proof {
                            assert(rest[0] == c);
                            assert(rest.drop_first() == page_s.skip(it.index() + 1));
                        }
                        if !str_eq(c.comment_id.as_str(), root_id.as_str()) {
                            if !contains_string(&self.seen, &c.comment_id) {
                                let id = c.comment_id.clone();
                                let ghost before = self.comments@;
                                let ghost seen_before = self.seen@;
                                self.comments.push(c);
                                self.seen.push(id);
                                proof {
                                    assert(views(self.seen@) =~= views(seen_before).push(id@));
                                    assert(comment_ids(self.comments@) =~= comment_ids(before).push(
                                        id@,
                                    ));
                                }
                            }
                            if self.comments.len() as u64 >= self.max_count as u64 {
                                stop = true;
                            }
                        }
                    }
                }
                proof {
                    if !stop {
                        assert(page_s.skip(page_s.len() as int).len() == 0);
                    }
                    lemma_merge_thread_bounds(acc0, page_s, root, max);
                }
            },
        }
        if has_more {
            self.cursor = next_cursor;
        } else {
            self.finished = true;
        }
    }

    /// The comments collected so far.
    pub fn comments(&self) -> (r: &Vec<Comment>)
        ensures
            r@ == self@.comments,
    {
        &self.comments
    }

    /// Ends the loop and hands out the collected comments.
    pub fn into_comments(self) -> (r: Vec<Comment>)
        ensures
            r@ == self@.comments,
    {
        self.comments
    }
}



/// A thread collector never holds more comments than its maximum, nor a
/// comment id twice.
pub proof fn lemma_thread_collector_bounds(c: CommentCollector)
    requires
        c.wf(),
    ensures
        c@.mode is Thread ==> c@.comments.len() <= c@.max_count && comment_ids(c@.comments).no_duplicates(),
{
}

} // verus!
