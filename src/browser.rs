//! The problem browser: the loaded problem set, its search filter, the
//! selection, and the paginated loading that fills it.

use vstd::prelude::*;
use crate::keys::Key;
use crate::text::{contains_str, has_substring, lower_of, lowercase, pop_char, push_char, same_text};
use crate::types::ProblemSummary;

verus! {

/// The difficulty the problem list is restricted to.
#[derive(Clone, Copy, Debug, PartialEq, Eq, Structural)]
pub enum DifficultyFilter {
    All,
    Easy,
    Medium,
    Hard,
}

impl DifficultyFilter {
    pub open spec fn next_spec(self) -> DifficultyFilter {
        match self {
            DifficultyFilter::All => DifficultyFilter::Easy,
            DifficultyFilter::Easy => DifficultyFilter::Medium,
            DifficultyFilter::Medium => DifficultyFilter::Hard,
            DifficultyFilter::Hard => DifficultyFilter::All,
        }
    }

    /// The next filter in the cycle All, Easy, Medium, Hard.
    pub fn next(self) -> (r: Self)
        ensures
            r == self.next_spec(),
    {
        match self {
            Self::All => Self::Easy,
            Self::Easy => Self::Medium,
            Self::Medium => Self::Hard,
            Self::Hard => Self::All,
        }
    }

    pub open spec fn api_name(self) -> Option<Seq<char>> {
        match self {
            DifficultyFilter::All => None,
            DifficultyFilter::Easy => Some("EASY"@),
            DifficultyFilter::Medium => Some("MEDIUM"@),
            DifficultyFilter::Hard => Some("HARD"@),
        }
    }

    /// The value the service expects for this filter; none for All.
    pub fn as_api_str(&self) -> (r: Option<&'static str>)
        ensures
            r matches Some(t) ==> self.api_name() == Some(t@),
            r is None ==> self.api_name() is None,
            *self == DifficultyFilter::All <==> r is None,
            *self == DifficultyFilter::Easy ==> r == Some("EASY"),
            *self == DifficultyFilter::Medium ==> r == Some("MEDIUM"),
            *self == DifficultyFilter::Hard ==> r == Some("HARD"),
    {
        match self {
            Self::All => None,
            Self::Easy => Some("EASY"),
            Self::Medium => Some("MEDIUM"),
            Self::Hard => Some("HARD"),
        }
    }

    /// The filter's name as shown to the user.
    pub fn label(&self) -> (r: &'static str)
        ensures
            *self == DifficultyFilter::All ==> r == "All",
            *self == DifficultyFilter::Easy ==> r == "Easy",
            *self == DifficultyFilter::Medium ==> r == "Medium",
            *self == DifficultyFilter::Hard ==> r == "Hard",
    {
        match self {
            Self::All => "All",
            Self::Easy => "Easy",
            Self::Medium => "Medium",
            Self::Hard => "Hard",
        }
    }
}

/// What a key press in the browser asks of the application.
pub enum BrowserAction {
    NoOp,
    Quit,
    OpenDetail(String),
    Scaffold(String),
    FilterChanged,
    /// Look the query up on the service, under the current difficulty.
    SearchFetch(String),
    /// Show the favorite lists.
    Lists,
    /// Show the settings form.
    Settings,
    /// Add the problem with this id to one of the user's lists.
    AddToList(String),
}

/// A problem matches a lower-cased query where the query is empty, occurs in
/// the lower-cased title, or equals the problem's number.
pub open spec fn matches_query(p: ProblemSummary, q: Seq<char>) -> bool {
    q.len() == 0 || has_substring(lower_of(p.title@), q) || p.frontend_question_id@ == q
}

/// The positions, in order, of the problems that match `q`.
pub open spec fn matching_indices(problems: Seq<ProblemSummary>, q: Seq<char>) -> Seq<usize>
    decreases problems.len(),
{
    if problems.len() == 0 {
        Seq::empty()
    } else {
        let head = matching_indices(problems.drop_last(), q);
        if matches_query(problems.last(), q) {
            head.push((problems.len() - 1) as usize)
        } else {
            head
        }
    }
}

/// Whether a problem matches a query, given the lower-cased query and the
/// lower-cased title.
pub fn matches_folded(query_folded: &str, title_folded: &str, id: &str) -> (r: bool)
    ensures
        r == (query_folded@.len() == 0 || has_substring(title_folded@, query_folded@) || id@
            == query_folded@),
{
    query_folded.unicode_len() == 0 || contains_str(title_folded, query_folded) || same_text(
        id,
        query_folded,
    )
}

/// The browser screen's state.
pub struct BrowserState {
    /// The problem set on show.
    pub problems: Vec<ProblemSummary>,
    /// Batches of a load in progress while a cached set is on show.
    pub loading_buffer: Vec<ProblemSummary>,
    /// A cached set is on show while a load runs.
    pub showing_cache: bool,
    /// Positions in `problems` of the rows that pass the search filter.
    pub filtered_indices: Vec<usize>,
    /// The selected row, a position in `filtered_indices`.
    pub selected: Option<usize>,
    pub search_query: String,
    pub search_mode: bool,
    pub difficulty_filter: DifficultyFilter,
    pub loading: bool,
    pub total_problems: usize,
    pub error_message: Option<String>,
    pub spinner_frame: usize,
}

/// The selection after the filter changed to `len` rows.
pub open spec fn clamp_selection(sel: Option<usize>, len: nat) -> Option<usize> {
    if len == 0 {
        None
    } else {
        match sel {
            Some(s) => if s >= len {
                Some((len - 1) as usize)
            } else {
                Some(s)
            },
            None => Some(0),
        }
    }
}

/// Moving the selection by `delta`, kept within `len` rows.
pub open spec fn moved_selection(sel: Option<usize>, len: nat, delta: int) -> Option<usize> {
    if len == 0 {
        sel
    } else {
        let cur = match sel {
            Some(s) => s as int,
            None => 0,
        };
        let t = cur + delta;
        Some(
            (if t < 0 {
                0
            } else if t > len - 1 {
                len - 1
            } else {
                t
            }) as usize,
        )
    }
}

/// The problems loaded so far by the load in progress.
pub open spec fn loaded(s: BrowserState) -> Seq<ProblemSummary> {
    if s.showing_cache {
        s.loading_buffer@
    } else {
        s.problems@
    }
}

/// A browser as it starts: nothing loaded, no query, filter All, loading.
pub open spec fn is_fresh(r: BrowserState) -> bool {
    &&& r.problems@.len() == 0
    &&& r.loading_buffer@.len() == 0
    &&& !r.showing_cache
    &&& r.filtered_indices@.len() == 0
    &&& r.selected is None
    &&& r.search_query@.len() == 0
    &&& !r.search_mode
    &&& r.difficulty_filter == DifficultyFilter::All
    &&& r.loading
    &&& r.total_problems == 0
    &&& r.error_message is None
    &&& r.spinner_frame == 0
}

/// `t` is `s` with a load started: loading, no error, nothing received
/// yet, and the cached set (if any) on show, filtered by the query.
pub open spec fn load_started(s: BrowserState, t: BrowserState, cached: Option<Vec<ProblemSummary>>) -> bool {
    &&& t.loading
    &&& t.error_message is None
    &&& t.loading_buffer@.len() == 0
    &&& loaded(t).len() == 0
    &&& cached matches Some(c) ==> t.showing_cache && t.problems@ == c@ && t.total_problems
        == c@.len() && t.filtered_indices@ == matching_indices(c@, lower_of(s.search_query@))
        && t.selected == clamp_selection(s.selected, t.filtered_indices@.len())
    &&& cached is None ==> !t.showing_cache && t.problems@.len() == 0 && t.filtered_indices@.len()
        == 0 && t.selected is None && t.total_problems == 0
    &&& t.search_query == s.search_query
    &&& t.search_mode == s.search_mode
    &&& t.difficulty_filter == s.difficulty_filter
    &&& t.spinner_frame == s.spinner_frame
}

/// `t` is `s` after one batch of `total`: the last batch (`done`) becomes
/// the whole set on show and ends the load; an earlier one is shown at once
/// unless a cached set is on show, which then stays.
pub open spec fn batch_applied(
    s: BrowserState,
    t: BrowserState,
    batch: Seq<ProblemSummary>,
    total: usize,
    done: bool,
) -> bool {
    &&& t.total_problems == total
    &&& t.error_message is None
    &&& done ==> !t.showing_cache && !t.loading && t.problems@ == loaded(s) + batch
        && t.loading_buffer@.len() == 0
    &&& !done ==> t.showing_cache == s.showing_cache && loaded(t) == loaded(s) + batch && t.loading
        == s.loading
    &&& !done && s.showing_cache ==> t.problems == s.problems && t.filtered_indices
        == s.filtered_indices && t.selected == s.selected
    &&& (done || !s.showing_cache) ==> t.filtered_indices@ == matching_indices(
        t.problems@,
        lower_of(s.search_query@),
    ) && t.selected == clamp_selection(s.selected, t.filtered_indices@.len())
    &&& t.search_query == s.search_query
    &&& t.search_mode == s.search_mode
    &&& t.difficulty_filter == s.difficulty_filter
    &&& t.spinner_frame == s.spinner_frame
}

impl BrowserState {
    /// Rows index into the problems and the selection names a row.
    pub open spec fn wf(&self) -> bool {
        &&& forall|i: int|
            0 <= i < self.filtered_indices@.len() ==> #[trigger] self.filtered_indices@[i]
                < self.problems@.len()
        &&& match self.selected {
            Some(s) => s < self.filtered_indices@.len(),
            None => true,
        }
    }

    /// An empty browser, loading.
    pub fn new() -> (r: Self)
        ensures
            r.wf(),
            is_fresh(r),
    {
        BrowserState {
            problems: Vec::new(),
            loading_buffer: Vec::new(),
            showing_cache: false,
            filtered_indices: Vec::new(),
            selected: None,
            search_query: String::new(),
            search_mode: false,
            difficulty_filter: DifficultyFilter::All,
            loading: true,
            total_problems: 0,
            error_message: None,
            spinner_frame: 0,
        }
    }

    /// Recomputes the rows that pass the search filter and keeps the
    /// selection on a row.
    pub fn rebuild_filter(&mut self)
        ensures
            final(self).wf(),
            final(self).filtered_indices@ == matching_indices(
                old(self).problems@,
                lower_of(old(self).search_query@),
            ),
            final(self).selected == clamp_selection(
                old(self).selected,
                final(self).filtered_indices@.len(),
            ),
            final(self).problems == old(self).problems,
            final(self).loading_buffer == old(self).loading_buffer,
            final(self).showing_cache == old(self).showing_cache,
            final(self).search_query == old(self).search_query,
            final(self).search_mode == old(self).search_mode,
            final(self).difficulty_filter == old(self).difficulty_filter,
            final(self).loading == old(self).loading,
            final(self).total_problems == old(self).total_problems,
            final(self).error_message == old(self).error_message,
            final(self).spinner_frame == old(self).spinner_frame,
    {
        let query = lowercase(self.search_query.as_str());
        let ghost q = lower_of(self.search_query@);
        let mut out: Vec<usize> = Vec::new();
        let n = self.problems.len();
        let mut i: usize = 0;
        while i < n
            invariant
                n == self.problems@.len(),
                i <= n,
                query@ == q,
                out@ == matching_indices(self.problems@.subrange(0, i as int), q),
                forall|k: int| 0 <= k < out@.len() ==> #[trigger] out@[k] < i,
            decreases n - i,
        {
            let p = &self.problems[i];
            let title = lowercase(p.title.as_str());
            let ghost pre = self.problems@.subrange(0, i as int);
            let ghost next = self.problems@.subrange(0, i + 1);
            assert(next.drop_last() =~= pre);
            if matches_folded(query.as_str(), title.as_str(), p.frontend_question_id.as_str()) {
                out.push(i);
            }
            i = i + 1;
        }
        assert(self.problems@.subrange(0, n as int) =~= self.problems@);
        self.filtered_indices = out;
        let len = self.filtered_indices.len();
        if len == 0 {
            self.selected = None;
        } else {
            match self.selected {
                Some(s) => {
                    if s >= len {
                        self.selected = Some(len - 1);
                    }
                },
                None => {
                    self.selected = Some(0);
                },
            }
        }
    }

    /// The problem on the selected row.
    pub fn selected_problem(&self) -> (r: Option<&ProblemSummary>)
        requires
            self.wf(),
        ensures
            self.selected is None ==> r is None,
            self.selected matches Some(s) ==> r == Some(
                &self.problems@[self.filtered_indices@[s as int] as int],
            ),
    {
        match self.selected {
            Some(s) => {
                let idx = self.filtered_indices[s];
                Some(&self.problems[idx])
            },
            None => None,
        }
    }

    /// Moves the selection by `delta` rows, stopping at the first and last.
    pub fn move_selection(&mut self, delta: i32)
        requires
            old(self).wf(),
        ensures
            final(self).wf(),
            final(self).selected == moved_selection(
                old(self).selected,
                old(self).filtered_indices@.len(),
                delta as int,
            ),
            final(self).filtered_indices == old(self).filtered_indices,
            final(self).problems == old(self).problems,
            final(self).search_query == old(self).search_query,
            final(self).search_mode == old(self).search_mode,
            final(self).difficulty_filter == old(self).difficulty_filter,
    {
        let len = self.filtered_indices.len();
        if len == 0 {
            return;
        }
        let cur: usize = match self.selected {
            Some(s) => s,
            None => 0,
        };
        let next: usize = if delta >= 0 {
            let d = delta as usize;
            if d > len - 1 - cur {
                len - 1
            } else {
                cur + d
            }
        } else {
            let m = (-(delta as i64)) as usize;
            if m > cur {
                0
            } else {
                cur - m
            }
        };
        self.selected = Some(next);
    }

    /// The problem on the selected row, if a row is selected.
    pub open spec fn selected_spec(&self) -> Option<ProblemSummary> {
        match self.selected {
            Some(s) => Some(self.problems@[self.filtered_indices@[s as int] as int]),
            None => None,
        }
    }

    /// The action for a row command on the selected problem's slug:
    /// opening it (`open`) or scaffolding it; nothing without a selection.
    fn slug_action(&self, open: bool) -> (r: BrowserAction)
        requires
            self.wf(),
        ensures
            self.selected is None ==> r == BrowserAction::NoOp,
            self.selected is Some && open ==> r == BrowserAction::OpenDetail(
                self.selected_spec()->0.title_slug,
            ),
            self.selected is Some && !open ==> r == BrowserAction::Scaffold(
                self.selected_spec()->0.title_slug,
            ),
    {
        match self.selected_problem() {
            Some(p) => {
                let slug = p.title_slug.clone();
                if open {
                    BrowserAction::OpenDetail(slug)
                } else {
                    BrowserAction::Scaffold(slug)
                }
            },
            None => BrowserAction::NoOp,
        }
    }

    /// Handles a key while the search line is open: typing edits the query
    /// and refilters, Esc clears and closes it, Enter closes it and asks for
    /// a look-up of a non-empty query on the service.
    pub fn handle_search_key(&mut self, key: Key) -> (r: BrowserAction)
        requires
            old(self).wf(),
            old(self).search_mode,
        ensures
            final(self).wf(),
            final(self).problems == old(self).problems,
            final(self).difficulty_filter == old(self).difficulty_filter,
            key == Key::Esc ==> !final(self).search_mode && final(self).search_query@.len() == 0
                && final(self).filtered_indices@ == matching_indices(
                old(self).problems@,
                lower_of(Seq::empty()),
            ) && r == BrowserAction::NoOp,
            key == Key::Enter ==> !final(self).search_mode && final(self).search_query
                == old(self).search_query && (if old(self).search_query@.len() == 0 {
                r == BrowserAction::NoOp
            } else {
                r == BrowserAction::SearchFetch(old(self).search_query)
            }),
            key matches Key::Char(c) ==> final(self).search_mode && final(self).search_query@
                == old(self).search_query@.push(c) && final(self).filtered_indices@
                == matching_indices(old(self).problems@, lower_of(final(self).search_query@))
                && r == BrowserAction::NoOp,
            key == Key::Backspace ==> final(self).search_mode && (if old(self).search_query@.len() == 0 {
                final(self).search_query@ == old(self).search_query@
            } else {
                final(self).search_query@ == old(self).search_query@.drop_last()
            }) && final(self).filtered_indices@ == matching_indices(
                old(self).problems@,
                lower_of(final(self).search_query@),
            ) && r == BrowserAction::NoOp,
            !(key == Key::Esc || key == Key::Enter || key is Char || key == Key::Backspace)
                ==> *final(self) == *old(self) && r == BrowserAction::NoOp,
    {
        match key {
            Key::Esc => {
                self.search_mode = false;
                self.search_query = String::new();
                self.rebuild_filter();
                BrowserAction::NoOp
            },
            Key::Enter => {
                self.search_mode = false;
                if self.search_query.as_str().unicode_len() == 0 {
                    BrowserAction::NoOp
                } else {
                    BrowserAction::SearchFetch(self.search_query.clone())
                }
            },
            Key::Char(c) => {
                push_char(&mut self.search_query, c);
                self.rebuild_filter();
                BrowserAction::NoOp
            },
            Key::Backspace => {
                pop_char(&mut self.search_query);
                self.rebuild_filter();
                BrowserAction::NoOp
            },
            _ => BrowserAction::NoOp,
        }
    }

    /// Handles a key press on the browser screen.
    pub fn handle_key(&mut self, key: Key) -> (r: BrowserAction)
        requires
            old(self).wf(),
        ensures
            final(self).wf(),
            final(self).problems == old(self).problems,
            old(self).search_mode ==> final(self).difficulty_filter == old(self).difficulty_filter
                && (if key == Key::Enter && old(self).search_query@.len() > 0 {
                r == BrowserAction::SearchFetch(old(self).search_query)
            } else {
                r == BrowserAction::NoOp
            }),
            !old(self).search_mode ==> {
                let len = old(self).filtered_indices@.len();
                &&& (key == Key::Char('q') || key == Key::Ctrl('c')) ==> r == BrowserAction::Quit
                    && *final(self) == *old(self)
                &&& (key == Key::Char('j') || key == Key::Down) ==> r == BrowserAction::NoOp
                    && final(self).selected == moved_selection(old(self).selected, len, 1)
                &&& (key == Key::Char('k') || key == Key::Up) ==> r == BrowserAction::NoOp
                    && final(self).selected == moved_selection(old(self).selected, len, -1)
                &&& key == Key::Char('g') ==> r == BrowserAction::NoOp && final(self).selected == (
                if len == 0 {
                    old(self).selected
                } else {
                    Some(0usize)
                })
                &&& key == Key::Char('G') ==> r == BrowserAction::NoOp && final(self).selected == (
                if len == 0 {
                    old(self).selected
                } else {
                    Some((len - 1) as usize)
                })
                &&& key == Key::Char('/') ==> r == BrowserAction::NoOp && final(self).search_mode
                    && final(self).search_query@.len() == 0
                &&& key == Key::Char('d') ==> r == BrowserAction::FilterChanged && final(self).difficulty_filter == old(self).difficulty_filter.next_spec()
                &&& key == Key::Enter ==> *final(self) == *old(self) && (if old(self).selected is None {
                    r == BrowserAction::NoOp
                } else {
                    r == BrowserAction::OpenDetail(old(self).selected_spec()->0.title_slug)
                })
                &&& key == Key::Char('L') ==> r == BrowserAction::Lists && *final(self) == *old(self)
                &&& key == Key::Char('a') ==> *final(self) == *old(self) && (if old(self).selected is None {
                    r == BrowserAction::NoOp
                } else {
                    r == BrowserAction::AddToList(old(self).selected_spec()->0.question_id)
                })
                &&& key == Key::Char('S') ==> r == BrowserAction::Settings && *final(self) == *old(self)
                &&& key == Key::Char('o') ==> *final(self) == *old(self) && (if old(self).selected is None {
                    r == BrowserAction::NoOp
                } else {
                    r == BrowserAction::Scaffold(old(self).selected_spec()->0.title_slug)
                })
            },
    {
        if self.search_mode {
            return self.handle_search_key(key);
        }
        match key {
            Key::Char('q') | Key::Ctrl('c') => BrowserAction::Quit,
            Key::Char('j') | Key::Down => {
                self.move_selection(1);
                BrowserAction::NoOp
            },
            Key::Char('k') | Key::Up => {
                self.move_selection(-1);
                BrowserAction::NoOp
            },
            Key::Char('g') => {
                if self.filtered_indices.len() > 0 {
                    self.selected = Some(0);
                }
                BrowserAction::NoOp
            },
            Key::Char('G') => {
                let len = self.filtered_indices.len();
                if len > 0 {
                    self.selected = Some(len - 1);
                }
                BrowserAction::NoOp
            },
            Key::Char('/') => {
                self.search_mode = true;
                self.search_query = String::new();
                BrowserAction::NoOp
            },
            Key::Char('d') => {
                self.difficulty_filter = self.difficulty_filter.next();
                BrowserAction::FilterChanged
            },
            Key::Enter => self.slug_action(true),
            Key::Char('o') => self.slug_action(false),
            Key::Char('L') => BrowserAction::Lists,
            Key::Char('a') => match self.selected_problem() {
                Some(p) => BrowserAction::AddToList(p.question_id.clone()),
                None => BrowserAction::NoOp,
            },
            Key::Char('S') => BrowserAction::Settings,
            _ => BrowserAction::NoOp,
        }
    }

    /// Starts a load of the full problem list: a cached set, where there is
    /// one, is shown at once while the batches come in.
    pub fn start_load(&mut self, cached: Option<Vec<ProblemSummary>>)
        requires
            old(self).wf(),
        ensures
            final(self).wf(),
            load_started(*old(self), *final(self), cached),
    {
        self.loading = true;
        self.error_message = None;
        self.loading_buffer = Vec::new();
        match cached {
            Some(c) => {
                self.total_problems = c.len();
                self.problems = c;
                self.showing_cache = true;
                self.rebuild_filter();
            },
            None => {
                self.problems = Vec::new();
                self.filtered_indices = Vec::new();
                self.selected = None;
                self.total_problems = 0;
                self.showing_cache = false;
            },
        }
    }

    /// Takes in one batch of a paginated load. Without a cached set on show
    /// the batches are shown as they come; with one, they are held back and
    /// replace it when the last batch (`done`) arrives.
    pub fn apply_batch(&mut self, batch: Vec<ProblemSummary>, total: usize, done: bool)
        requires
            old(self).wf(),
        ensures
            final(self).wf(),
            batch_applied(*old(self), *final(self), batch@, total, done),
    {
        let mut batch = batch;
        if self.showing_cache {
            self.loading_buffer.append(&mut batch);
        } else {
            self.problems.append(&mut batch);
        }
        self.total_problems = total;
        if done {
            self.loading = false;
            if !self.showing_cache {
                self.loading_buffer = Vec::new();
            }
            if self.showing_cache {
                let mut all: Vec<ProblemSummary> = Vec::new();
                std::mem::swap(&mut all, &mut self.loading_buffer);
                self.problems = all;
                self.showing_cache = false;
            }
            self.rebuild_filter();
        } else if !self.showing_cache {
            self.rebuild_filter();
        } else {
            assert(self.wf());
        }
        self.error_message = None;
    }

    /// Records that the load failed.
    pub fn apply_fetch_error(&mut self, message: String)
        requires
            old(self).wf(),
        ensures
            final(self).wf(),
            *final(self) == (BrowserState { loading: false, error_message: Some(message), ..*old(self) }),
    {
        self.loading = false;
        self.error_message = Some(message);
    }
}

/// The number of problems asked for in one page of the list.
pub const PAGE_SIZE: usize = 100;

/// A page of `batch_len` problems, asked for at offset `skip` of a list of
/// `total`, is the last one.
pub open spec fn page_done(size: nat, skip: nat, batch_len: nat, total: nat) -> bool {
    batch_len < size || skip + batch_len >= total
}

/// Whether a load is over after a page of `batch_len` problems asked for
/// at `skip`, and the offset of the next page if not.
pub fn page_step(skip: usize, batch_len: usize, total: usize) -> (r: Option<usize>)
    requires
        skip + PAGE_SIZE <= usize::MAX,
    ensures
        r is None <==> page_done(PAGE_SIZE as nat, skip as nat, batch_len as nat, total as nat),
        r matches Some(next) ==> next == skip + PAGE_SIZE,
{
    if batch_len < PAGE_SIZE || skip >= total || batch_len >= total - skip {
        None
    } else {
        Some(skip + PAGE_SIZE)
    }
}

pub open spec fn min_nat(a: nat, b: nat) -> nat {
    if a <= b {
        a
    } else {
        b
    }
}

/// Page `k` of a remote list, `size` entries to a page.
pub open spec fn page_of(remote: Seq<ProblemSummary>, size: nat, k: nat) -> Seq<ProblemSummary> {
    remote.subrange(
        min_nat(k * size, remote.len()) as int,
        min_nat((k + 1) * size, remote.len()) as int,
    )
}

/// The first `count` pages, one after the other.
pub open spec fn pages_upto(remote: Seq<ProblemSummary>, size: nat, count: nat) -> Seq<
    ProblemSummary,
>
    decreases count,
{
    if count == 0 {
        Seq::empty()
    } else {
        pages_upto(remote, size, (count - 1) as nat) + page_of(remote, size, (count - 1) as nat)
    }
}

proof fn lemma_pages_prefix(remote: Seq<ProblemSummary>, size: nat, count: nat)
    ensures
        pages_upto(remote, size, count) == remote.subrange(
            0,
            min_nat(count * size, remote.len()) as int,
        ),
    decreases count,
{
    if count == 0 {
        assert(remote.subrange(0, 0) =~= Seq::<ProblemSummary>::empty());
    } else {
        let c = (count - 1) as nat;
        lemma_pages_prefix(remote, size, c);
        assert(count * size == c * size + size) by (nonlinear_arith)
            requires
                count == c + 1,
        ;
        assert((c + 1) * size == count * size);
        assert(remote.subrange(0, min_nat(c * size, remote.len()) as int) + page_of(remote, size, c)
            =~= remote.subrange(0, min_nat(count * size, remote.len()) as int));
    }
}

/// Paginated loading reassembles the list: asking for pages of `size` from
/// offset 0 on, each after the previous one came, the load goes on exactly
/// until page `count - 1`, and the pages it received, one after the other,
/// are the remote list in its own order.
pub proof fn lemma_pagination_reassembles(remote: Seq<ProblemSummary>, size: nat, count: nat)
    requires
        size > 0,
        count >= 1,
        ((count - 1) * size < remote.len() && remote.len() <= count * size) || (remote.len() == 0
            && count == 1),
    ensures
        forall|k: nat|
            k + 1 < count ==> !page_done(
                size,
                k * size,
                #[trigger] page_of(remote, size, k).len(),
                remote.len(),
            ),
        page_done(
            size,
            ((count - 1) * size) as nat,
            page_of(remote, size, (count - 1) as nat).len(),
            remote.len(),
        ),
        pages_upto(remote, size, count) == remote,
{
    let n = remote.len();
    let c = (count - 1) as nat;
    assert forall|k: nat| k + 1 < count implies !page_done(
        size,
        k * size,
        #[trigger] page_of(remote, size, k).len(),
        n,
    ) by {
        assert((k + 1) * size <= c * size) by (nonlinear_arith)
            requires
                k + 1 <= c,
        ;
        assert((k + 1) * size == k * size + size) by (nonlinear_arith);
    }
    assert(count * size == c * size + size) by (nonlinear_arith)
        requires
            count == c + 1,
    ;
    lemma_pages_prefix(remote, size, count);
    assert(remote.subrange(0, n as int) =~= remote);
}

} // verus!
