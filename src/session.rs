//! The application state owned by the dispatch loop: the active screen, the
//! two back-navigation slots, overlays and popups. Every input event and
//! every result of background work is applied here, and what has to happen
//! outside (a request, a file read) comes back as a list of commands.

use vstd::prelude::*;
use crate::browser::{batch_applied, is_fresh, load_started, BrowserAction, BrowserState};
use crate::config::{expanded, join_path, project_dir_name, solution_path, Config};
use crate::detail::{statement_text, DetailAction, DetailState, Origin};
use crate::judge::{
    build_request, check_preconditions, fresh_job, job_start, job_step, preconditions,
    request_for, AttemptError, JobAction, JobEvent, JobKind, JudgeJob, JudgeRequest,
};
use crate::keys::Key;
use crate::lists::{ListsAction, ListsState};
use crate::setup::{SetupAction, SetupState};
use crate::types::{FavoriteList, ProblemSummary, QuestionDetail};

verus! {

/// The result screen of one run or submit attempt.
pub struct ResultState {
    pub kind: JobKind,
    pub detail: QuestionDetail,
    pub origin: Origin,
    pub job: JudgeJob,
    pub spinner_frame: usize,
}

/// The one active screen.
pub enum Screen {
    Setup(SetupState),
    Browse(BrowserState),
    Detail(DetailState),
    Result(ResultState),
    Lists(ListsState),
}

/// The login flow, which takes all input while it is not idle.
#[derive(Clone, Copy, Debug, PartialEq, Eq, Structural)]
pub enum LoginState {
    Idle,
    PromptShown,
    WaitingForBrowser,
}

/// The popup that adds a problem to one of the user's lists.
pub struct AddToListPopup {
    pub lists: Vec<FavoriteList>,
    pub selected: usize,
    pub question_id: String,
    pub loading: bool,
}

/// Work for the loop around the state to do.
pub enum Command {
    /// Show the cached problem list, if any, and load the full list page by page.
    FetchProblems,
    FetchDetail(String),
    /// Scaffold the problem on the detail screen and open the editor.
    ScaffoldCurrent,
    Search { query: String, difficulty: Option<String> },
    FetchFavorites,
    FetchPopupFavorites,
    AddToList { id_hash: String, question_id: String, list_name: String },
    DeleteList(String),
    CreateList(String),
    RemoveFromList { id_hash: String, question_id: String },
    FetchUserStats,
    /// Check and start an attempt (the loop supplies the home directory).
    PrepareAttempt(JobKind),
    /// Read the solution file at this path for an attempt.
    ReadSolution { kind: JobKind, path: String },
    /// Send a request to the judge.
    Judge(JudgeRequest),
    /// Ask the judge for the status of this job.
    Poll(String),
    /// Read the session cookies from the installed browsers.
    ExtractCookies,
    /// Open the login page in the browser.
    OpenLoginPage,
    /// Write the settings, and rebuild the gateway with their session tokens.
    SaveConfig,
    /// Write the loaded problem list to the cache file.
    SaveCache,
}

/// The result of a piece of background work.
pub enum ApiResult {
    ProblemBatch { problems: Vec<ProblemSummary>, total: usize, done: bool },
    ProblemFetchError(String),
    Detail(Result<QuestionDetail, String>),
    Job(JobEvent),
    SearchResult(Result<Vec<ProblemSummary>, String>),
    Favorites(Result<Vec<FavoriteList>, String>),
    ListMutation(Result<(), String>, String),
    PopupFavorites(Result<Vec<FavoriteList>, String>),
    /// The session cookies found, where both were.
    Cookies(Option<(String, String)>),
}

/// How many ticks a success message stays.
pub const TOAST_TICKS: u8 = 12;

/// The application state.
pub struct App {
    pub screen: Screen,
    pub config: Option<Config>,
    pub should_quit: bool,
    pub error_overlay: Option<String>,
    pub success_message: Option<(String, u8)>,
    pub help_overlay: bool,
    pub login: LoginState,
    pub add_to_list_popup: Option<AddToListPopup>,
    pub saved_browse: Option<BrowserState>,
    pub saved_lists: Option<ListsState>,
}

/// The state of `a` after the detail of `d` arrived: the detail screen
/// replaces the active one, and a browser or lists screen left behind goes
/// to its slot, which the detail screen's origin names.
pub open spec fn detail_opened(a: App, b: App, d: QuestionDetail) -> bool {
    &&& b.screen matches Screen::Detail(ds) && ds.detail == d && ds.scroll_offset == 0
        && ds.content_height == 0 && ds.rendered_content@ == statement_text(d)
    &&& a.screen matches Screen::Browse(s) ==> b.saved_browse == Some(s) && b.saved_lists
        == a.saved_lists && b.screen->Detail_0.origin == Origin::Browse
    &&& a.screen matches Screen::Lists(l) ==> b.saved_lists == Some(l) && b.saved_browse
        == a.saved_browse && b.screen->Detail_0.origin == Origin::Lists
    &&& !(a.screen is Browse || a.screen is Lists) ==> b.saved_browse == a.saved_browse
        && b.saved_lists == a.saved_lists && b.screen->Detail_0.origin == Origin::Browse
}

/// The state of `a` after going back from a detail screen: the slot its
/// origin names is restored and emptied; with an empty slot, a fresh
/// browser is shown and a load is asked for.
pub open spec fn went_back(a: App, b: App, cmds: Seq<Command>) -> bool {
    a.screen matches Screen::Detail(ds) ==> if ds.origin == Origin::Lists && a.saved_lists is Some {
        b.screen == Screen::Lists(a.saved_lists->0) && b.saved_lists is None && b.saved_browse
            == a.saved_browse && cmds.len() == 0
    } else if ds.origin == Origin::Browse && a.saved_browse is Some {
        b.screen == Screen::Browse(a.saved_browse->0) && b.saved_browse is None && b.saved_lists
            == a.saved_lists && cmds.len() == 0
    } else {
        (b.screen matches Screen::Browse(s) && is_fresh(s)) && b.saved_browse == a.saved_browse
            && b.saved_lists == a.saved_lists && cmds == seq![Command::FetchProblems]
    }
}

/// The fields apart from the screen, the slots and the overlays are kept.
pub open spec fn settings_kept(a: App, b: App) -> bool {
    &&& b.config == a.config
    &&& b.should_quit == a.should_quit
    &&& b.help_overlay == a.help_overlay
    &&& b.login == a.login
    &&& b.add_to_list_popup == a.add_to_list_popup
}

/// The screen and both slots are kept.
pub open spec fn views_kept(a: App, b: App) -> bool {
    b.screen == a.screen && b.saved_browse == a.saved_browse && b.saved_lists == a.saved_lists
}

/// Everything but the error overlay is kept, and the overlay shows `m`.
pub open spec fn overlay_shows(a: App, b: App, m: Seq<char>) -> bool {
    &&& views_kept(a, b)
    &&& settings_kept(a, b)
    &&& b.success_message == a.success_message
    &&& b.error_overlay matches Some(x) && x@ == m
}

/// The browser a problem-list result goes to: the active one, else the one
/// in its slot.
pub open spec fn list_target(a: App) -> Option<BrowserState> {
    match a.screen {
        Screen::Browse(s) => Some(s),
        _ => a.saved_browse,
    }
}

/// The list target as `b` holds it.
pub open spec fn target_after(a: App, b: App) -> BrowserState {
    if a.screen is Browse {
        b.screen->Browse_0
    } else {
        b.saved_browse->0
    }
}

/// `b` is `a` with the list target replaced by `t`.
pub open spec fn target_replaced(a: App, b: App, t: BrowserState) -> bool {
    &&& settings_kept(a, b)
    &&& b.error_overlay == a.error_overlay
    &&& b.success_message == a.success_message
    &&& b.saved_lists == a.saved_lists
    &&& if a.screen is Browse {
        b.screen == Screen::Browse(t) && b.saved_browse == a.saved_browse
    } else {
        b.screen == a.screen && b.saved_browse == Some(t)
    }
}

/// The text shown in the overlay for an attempt that stopped before
/// anything was sent.
pub open spec fn message_of(e: AttemptError) -> Seq<char> {
    match e {
        AttemptError::NoConfig => "No config loaded"@,
        AttemptError::AuthenticationRequired =>
            "Authentication required.\nLog in from the start-up prompt, or add the session tokens to the settings file."@,
        AttemptError::UnsupportedLanguage(l) => "Unsupported language: "@ + l@,
        AttemptError::NotFound(p) => "Failed to read code from "@ + p@
            + "\nScaffold the problem first with 'o'"@,
        AttemptError::NoProblem => "No problem selected"@,
    }
}

/// What one result of background work does to the state `a`, and the
/// commands `r` it leads to. A result whose target screen is gone is
/// dropped without a trace.
pub open spec fn result_applied(a: App, b: App, result: ApiResult, r: Seq<Command>) -> bool {
    match result {
        ApiResult::ProblemBatch { problems, total, done } => match list_target(a) {
            Some(s) => batch_applied(s, target_after(a, b), problems@, total, done)
                && target_replaced(a, b, target_after(a, b)) && r == (if done {
                seq![Command::SaveCache]
            } else {
                Seq::empty()
            }),
            None => b == a && r.len() == 0,
        },
        ApiResult::ProblemFetchError(e) => r.len() == 0 && match list_target(a) {
            Some(s) => target_replaced(
                a,
                b,
                (BrowserState { loading: false, error_message: Some(e), ..s }),
            ),
            None => b == a,
        },
        ApiResult::Detail(Ok(d)) => detail_opened(a, b, d) && settings_kept(a, b)
            && b.error_overlay == a.error_overlay && b.success_message == a.success_message
            && r.len() == 0,
        ApiResult::Detail(Err(e)) => overlay_shows(a, b, "Failed to load problem: "@ + e@) && r.len()
            == 0,
        ApiResult::Job(ev) => match a.screen {
            Screen::Result(rs) => {
                let step = job_step(rs.job, ev);
                &&& b == (App { screen: Screen::Result(ResultState { job: step.0, ..rs }), ..a })
                &&& step.1 matches JobAction::Poll(id) ==> r == seq![Command::Poll(id)]
                &&& !(step.1 is Poll) ==> r.len() == 0
            },
            _ => b == a && r.len() == 0,
        },
        ApiResult::SearchResult(Ok(ps)) => if ps@.len() > 0 {
            b == a && r == seq![Command::FetchDetail(ps@[0].title_slug)]
        } else {
            overlay_shows(a, b, "Problem not found."@) && r.len() == 0
        },
        ApiResult::SearchResult(Err(e)) => overlay_shows(a, b, "Search failed: "@ + e@) && r.len()
            == 0,
        ApiResult::Favorites(Ok(lists)) => r.len() == 0 && match a.screen {
            Screen::Lists(l) => b == (App {
                screen: Screen::Lists(
                    ListsState {
                        lists,
                        loading: false,
                        error_message: None,
                        selected: if lists@.len() > 0 && l.selected is None {
                            Some(0usize)
                        } else {
                            l.selected
                        },
                        ..l
                    },
                ),
                ..a
            }),
            _ => b == a,
        },
        ApiResult::Favorites(Err(e)) => r.len() == 0 && match a.screen {
            Screen::Lists(l) => b == (App {
                screen: Screen::Lists(ListsState { loading: false, error_message: Some(e), ..l }),
                ..a
            }),
            _ => b == a,
        },
        ApiResult::ListMutation(Ok(_), msg) => b == (App {
            success_message: Some((msg, TOAST_TICKS)),
            ..a
        }) && r == (if a.screen is Lists {
            seq![Command::FetchFavorites]
        } else {
            Seq::empty()
        }),
        ApiResult::ListMutation(Err(e), _) => b == (App { error_overlay: Some(e), ..a }) && r.len()
            == 0,
        ApiResult::PopupFavorites(Ok(lists)) => r.len() == 0 && b == (App {
            add_to_list_popup: match a.add_to_list_popup {
                Some(p) => Some(AddToListPopup { lists, selected: 0, loading: false, ..p }),
                None => None,
            },
            ..a
        }),
        ApiResult::PopupFavorites(Err(e)) => r.len() == 0 && b.add_to_list_popup is None && (
        b.error_overlay matches Some(m) && m@ == "Failed to load lists: "@ + e@) && views_kept(a, b)
            && b.config == a.config && b.login == a.login && b.should_quit == a.should_quit,
        ApiResult::Cookies(Some(tokens)) => {
            &&& b.login == LoginState::Idle
            &&& views_kept(a, b)
            &&& b.error_overlay == a.error_overlay
            &&& b.add_to_list_popup == a.add_to_list_popup
            &&& b.config == (match a.config {
                Some(c) => Some(
                    Config { leetcode_session: Some(tokens.0), csrf_token: Some(tokens.1), ..c },
                ),
                None => None,
            })
            &&& r == (if a.config is Some {
                seq![Command::SaveConfig]
            } else {
                Seq::empty()
            }) + (if a.screen is Browse {
                seq![Command::FetchProblems]
            } else {
                Seq::empty()
            }) + seq![Command::FetchUserStats]
        },
        ApiResult::Cookies(None) => {
            &&& b.login == LoginState::WaitingForBrowser
            &&& views_kept(a, b)
            &&& b.config == a.config
            &&& b.add_to_list_popup == a.add_to_list_popup
            &&& if a.login == LoginState::WaitingForBrowser {
                r.len() == 0 && (b.error_overlay matches Some(m) && m@
                    == "Could not find LeetCode cookies.\n\nLog into leetcode.com in your browser,\nthen press Enter to retry."@)
            } else {
                r == seq![Command::OpenLoginPage] && b.error_overlay == a.error_overlay
            }
        },
    }
}

/// What a key does while the add-to-list popup is open: arrows move with
/// wraparound, Enter adds the problem to the selected list and closes the
/// popup, Esc closes it.
pub open spec fn popup_key_effect(a: App, b: App, key: Key, r: Seq<Command>) -> bool {
    let p = a.add_to_list_popup->0;
    let n: int = p.lists@.len() as int;
    let cur: int = if n > 0 {
        (p.selected as int) % n
    } else {
        0
    };
    &&& views_kept(a, b)
    &&& b.config == a.config
    &&& b.error_overlay == a.error_overlay
    &&& b.login == a.login
    &&& b.should_quit == a.should_quit
    &&& key == Key::Esc ==> b.add_to_list_popup is None && r.len() == 0
    &&& (key == Key::Char('j') || key == Key::Down) ==> r.len() == 0 && b.add_to_list_popup == Some(
        if n > 0 {
            AddToListPopup { selected: ((cur + 1) % n) as usize, ..p }
        } else {
            p
        },
    )
    &&& (key == Key::Char('k') || key == Key::Up) ==> r.len() == 0 && b.add_to_list_popup == Some(
        if n > 0 {
            AddToListPopup {
                selected: (if cur == 0 {
                    n - 1
                } else {
                    cur - 1
                }) as usize,
                ..p
            }
        } else {
            p
        },
    )
    &&& key == Key::Enter ==> if p.selected < n {
        b.add_to_list_popup is None && r == seq![
            Command::AddToList {
                id_hash: p.lists@[p.selected as int].id_hash,
                question_id: p.question_id,
                list_name: p.lists@[p.selected as int].name,
            },
        ]
    } else {
        b.add_to_list_popup == a.add_to_list_popup && r.len() == 0
    }
    &&& !(key == Key::Esc || key == Key::Char('j') || key == Key::Down || key == Key::Char('k')
        || key == Key::Up || key == Key::Enter) ==> b.add_to_list_popup == a.add_to_list_popup
        && r.len() == 0
}

/// What a key does on the result screen: b or Esc goes back to the
/// problem's detail, q quits; no key sends anything.
pub open spec fn result_key_effect(a: App, b: App, key: Key, r: Seq<Command>) -> bool {
    let rs = a.screen->Result_0;
    &&& r.len() == 0
    &&& b.saved_browse == a.saved_browse && b.saved_lists == a.saved_lists
    &&& (key == Key::Esc || key == Key::Char('b')) ==> (b.screen matches Screen::Detail(ds)
        && ds.detail == rs.detail && ds.origin == rs.origin && ds.scroll_offset == 0
        && ds.content_height == 0 && ds.rendered_content@ == statement_text(rs.detail))
    &&& key == Key::Char('q') ==> b.should_quit && b.screen == a.screen
    &&& !(key == Key::Esc || key == Key::Char('b') || key == Key::Char('q')) ==> b.screen
        == a.screen && b.should_quit == a.should_quit
}

/// What a key does on the browser screen: in the search line, Enter with
/// a query asks the service to look it up under the current difficulty;
/// otherwise `q` quits, Enter and `o` fetch the selected problem, `a` opens
/// the add-to-list popup for it, `L` opens the lists (keeping the browser in
/// its slot) and `S` the settings.
pub open spec fn browse_key_effect(a: App, b: App, key: Key, r: Seq<Command>) -> bool {
    let s = a.screen->Browse_0;
    if s.search_mode {
        &&& (key == Key::Enter && s.search_query@.len() > 0) ==> (r.len() == 1 && (r[0] matches Command::Search { query, difficulty } && query == s.search_query && (match difficulty {
            Some(d) => s.difficulty_filter.api_name() == Some(d@),
            None => s.difficulty_filter.api_name() is None,
        })))
        &&& (key != Key::Enter || s.search_query@.len() == 0) ==> r.len() == 0 && b.screen is Browse
    } else {
        &&& key == Key::Char('q') ==> b.should_quit && r.len() == 0
        &&& (key == Key::Enter || key == Key::Char('o')) ==> (if s.selected is None {
            r.len() == 0
        } else {
            r == seq![Command::FetchDetail(s.selected_spec()->0.title_slug)]
        })
        &&& key == Key::Char('L') ==> b.screen is Lists && b.saved_browse == Some(s) && r == seq![
            Command::FetchFavorites,
        ]
        &&& key == Key::Char('S') ==> b.screen is Setup && r.len() == 0
        &&& key == Key::Char('a') ==> if s.selected is None {
            r.len() == 0
        } else {
            r == seq![Command::FetchPopupFavorites] && (b.add_to_list_popup matches Some(p)
                && p.question_id == s.selected_spec()->0.question_id && p.loading)
        }
    }
}

/// What a key does on the detail screen: back to where it was opened from,
/// quit, scaffold, start a run or a submission, or open the add-to-list
/// popup.
pub open spec fn detail_key_effect(a: App, b: App, key: Key, r: Seq<Command>) -> bool {
    let ds = a.screen->Detail_0;
    &&& (key == Key::Char('b') || key == Key::Esc) ==> went_back(a, b, r)
    &&& key == Key::Char('q') ==> b.should_quit && r.len() == 0
    &&& key == Key::Char('o') ==> r == seq![Command::ScaffoldCurrent]
    &&& key == Key::Char('r') ==> r == seq![Command::PrepareAttempt(JobKind::Run)]
    &&& key == Key::Char('s') ==> r == seq![Command::PrepareAttempt(JobKind::Submit)]
    &&& key == Key::Char('a') ==> r == seq![Command::FetchPopupFavorites] && (
    b.add_to_list_popup matches Some(p) && p.question_id == ds.detail.question_id)
}

/// Going from a browser to a problem's detail and back restores the browser
/// exactly as it was: search text, filter, selection and all.
pub proof fn lemma_back_restores_browse(
    a: App,
    b: App,
    c: App,
    d: QuestionDetail,
    cmds: Seq<Command>,
)
    requires
        a.screen is Browse,
        detail_opened(a, b, d),
        went_back(b, c, cmds),
    ensures
        c.screen == a.screen,
        c.saved_browse is None,
        cmds.len() == 0,
{
}

impl App {
    /// Each screen and slot is well formed.
    pub open spec fn wf(&self) -> bool {
        &&& self.screen matches Screen::Browse(s) ==> s.wf()
        &&& self.screen matches Screen::Setup(s) ==> s.wf()
        &&& self.saved_browse matches Some(s) ==> s.wf()
    }

    /// The state at start-up: the browser where settings exist (with a
    /// login prompt where they hold no session), else the setup form; and
    /// the loads the browser needs.
    pub fn new(config: Option<Config>) -> (r: (App, Vec<Command>))
        ensures
            r.0.wf(),
            config is None ==> r.0.screen is Setup && r.1@.len() == 0 && r.0.login
                == LoginState::Idle,
            config matches Some(c) ==> r.0.screen is Browse && r.1@ == seq![
                Command::FetchProblems,
                Command::FetchUserStats,
            ] && r.0.login == (if c.authenticated() {
                LoginState::Idle
            } else {
                LoginState::PromptShown
            }),
            r.0.config == config,
            r.0.saved_browse is None && r.0.saved_lists is None,
            r.0.error_overlay is None,
            !r.0.should_quit,
    {
        let login = match &config {
            Some(c) => if c.is_authenticated() {
                LoginState::Idle
            } else {
                LoginState::PromptShown
            },
            None => LoginState::Idle,
        };
        let mut cmds: Vec<Command> = Vec::new();
        let screen = if config.is_some() {
            cmds.push(Command::FetchProblems);
            cmds.push(Command::FetchUserStats);
            Screen::Browse(BrowserState::new())
        } else {
            Screen::Setup(SetupState::new())
        };
        (
            App {
                screen,
                config,
                should_quit: false,
                error_overlay: None,
                success_message: None,
                help_overlay: false,
                login,
                add_to_list_popup: None,
                saved_browse: None,
                saved_lists: None,
            },
            cmds,
        )
    }

    /// Shows a problem's detail, keeping the screen left behind in its slot.
    pub fn open_detail(&mut self, detail: QuestionDetail)
        requires
            old(self).wf(),
        ensures
            final(self).wf(),
            detail_opened(*old(self), *final(self), detail),
            settings_kept(*old(self), *final(self)),
            final(self).error_overlay == old(self).error_overlay,
            final(self).success_message == old(self).success_message,
    {
        let origin = match &self.screen {
            Screen::Lists(_) => Origin::Lists,
            _ => Origin::Browse,
        };
        let mut old_screen = Screen::Detail(DetailState::new(detail, origin));
        std::mem::swap(&mut old_screen, &mut self.screen);
        match old_screen {
            Screen::Browse(s) => {
                self.saved_browse = Some(s);
            },
            Screen::Lists(l) => {
                self.saved_lists = Some(l);
            },
            _ => {},
        }
    }

    /// Goes back from a detail screen to where it was opened from.
    pub fn go_back(&mut self) -> (r: Vec<Command>)
        requires
            old(self).wf(),
        ensures
            final(self).wf(),
            went_back(*old(self), *final(self), r@),
            settings_kept(*old(self), *final(self)),
            final(self).error_overlay == old(self).error_overlay,
            final(self).success_message == old(self).success_message,
    {
        let origin = match &self.screen {
            Screen::Detail(ds) => ds.origin,
            _ => Origin::Browse,
        };
        let mut cmds: Vec<Command> = Vec::new();
        if origin == Origin::Lists && self.saved_lists.is_some() {
            let mut slot: Option<ListsState> = None;
            std::mem::swap(&mut slot, &mut self.saved_lists);
            match slot {
                Some(l) => {
                    self.screen = Screen::Lists(l);
                },
                None => {},
            }
        } else if origin == Origin::Browse && self.saved_browse.is_some() {
            let mut slot: Option<BrowserState> = None;
            std::mem::swap(&mut slot, &mut self.saved_browse);
            match slot {
                Some(s) => {
                    self.screen = Screen::Browse(s);
                },
                None => {},
            }
        } else {
            self.screen = Screen::Browse(BrowserState::new());
            cmds.push(Command::FetchProblems);
        }
        cmds
    }

    /// Starts a load of the problem list on the active browser, showing the
    /// cached list where there is one. Whether a browser is active, and so
    /// whether the pages are to be fetched.
    pub fn begin_problem_load(&mut self, cached: Option<Vec<ProblemSummary>>) -> (r: bool)
        requires
            old(self).wf(),
        ensures
            final(self).wf(),
            r == old(self).screen is Browse,
            r ==> (final(self).screen matches Screen::Browse(t) && load_started(
                old(self).screen->Browse_0,
                t,
                cached,
            )),
            !r ==> final(self).screen == old(self).screen,
            final(self).saved_browse == old(self).saved_browse,
            final(self).saved_lists == old(self).saved_lists,
            settings_kept(*old(self), *final(self)),
            final(self).error_overlay == old(self).error_overlay,
    {
        match &mut self.screen {
            Screen::Browse(s) => {
                s.start_load(cached);
                true
            },
            _ => false,
        }
    }

    /// Shows an error in the blocking overlay.
    pub fn show_error(&mut self, message: String)
        ensures
            final(self).error_overlay == Some(message),
            final(self).screen == old(self).screen,
            final(self).wf() == old(self).wf(),
    {
        self.error_overlay = Some(message);
    }

    /// Applies one result of background work; a batch or an error of the
    /// problem list goes to the browser, active or in its slot.
    pub fn handle_api_result(&mut self, result: ApiResult) -> (r: Vec<Command>)
        requires
            old(self).wf(),
        ensures
            final(self).wf(),
            result_applied(*old(self), *final(self), result, r@),
    {
        let ghost a0 = *self;
        let mut cmds: Vec<Command> = Vec::new();
        match result {
            ApiResult::ProblemBatch { problems, total, done } => {
                let applied = match &mut self.screen {
                    Screen::Browse(s) => {
                        s.apply_batch(problems, total, done);
                        true
                    },
                    _ => match &mut self.saved_browse {
                        Some(s) => {
                            s.apply_batch(problems, total, done);
                            true
                        },
                        None => false,
                    },
                };
                if done && applied {
                    cmds.push(Command::SaveCache);
                }
            },
            ApiResult::ProblemFetchError(e) => {
                match &mut self.screen {
                    Screen::Browse(s) => s.apply_fetch_error(e),
                    _ => match &mut self.saved_browse {
                        Some(s) => s.apply_fetch_error(e),
                        None => {},
                    },
                }
            },
            ApiResult::Detail(Ok(d)) => {
                self.open_detail(d);
            },
            ApiResult::Detail(Err(e)) => {
                self.error_overlay = Some(concat(String::from_str("Failed to load problem: "), &e));
            },
            ApiResult::Job(ev) => {
                match &mut self.screen {
                    Screen::Result(rs) => {
                        match rs.job.on_event(ev) {
                            JobAction::Poll(id) => cmds.push(Command::Poll(id)),
                            _ => {},
                        }
                    },
                    _ => {},
                }
            },
            ApiResult::SearchResult(Ok(ps)) => {
                if ps.len() > 0 {
                    cmds.push(Command::FetchDetail(ps[0].title_slug.clone()));
                } else {
                    self.error_overlay = Some(String::from_str("Problem not found."));
                }
            },
            ApiResult::SearchResult(Err(e)) => {
                self.error_overlay = Some(concat(String::from_str("Search failed: "), &e));
            },
            ApiResult::Favorites(Ok(lists)) => {
                match &mut self.screen {
                    Screen::Lists(l) => {
                        let empty = lists.len() == 0;
                        l.lists = lists;
                        l.loading = false;
                        l.error_message = None;
                        if !empty && l.selected.is_none() {
                            l.selected = Some(0);
                        }
                    },
                    _ => {},
                }
            },
            ApiResult::Favorites(Err(e)) => {
                match &mut self.screen {
                    Screen::Lists(l) => {
                        l.loading = false;
                        l.error_message = Some(e);
                    },
                    _ => {},
                }
            },
            ApiResult::ListMutation(Ok(()), msg) => {
                self.success_message = Some((msg, TOAST_TICKS));
                if let Screen::Lists(_) = &self.screen {
                    cmds.push(Command::FetchFavorites);
                }
            },
            ApiResult::ListMutation(Err(e), _) => {
                self.error_overlay = Some(e);
            },
            ApiResult::PopupFavorites(Ok(lists)) => {
                match &mut self.add_to_list_popup {
                    Some(p) => {
                        p.lists = lists;
                        p.selected = 0;
                        p.loading = false;
                    },
                    None => {},
                }
            },
            ApiResult::PopupFavorites(Err(e)) => {
                self.add_to_list_popup = None;
                self.error_overlay = Some(concat(String::from_str("Failed to load lists: "), &e));
            },
            ApiResult::Cookies(Some((session, csrf))) => {
                self.login = LoginState::Idle;
                match &mut self.config {
                    Some(c) => {
                        c.leetcode_session = Some(session);
                        c.csrf_token = Some(csrf);
                        cmds.push(Command::SaveConfig);
                    },
                    None => {},
                }
                if let Screen::Browse(_) = &self.screen {
                    cmds.push(Command::FetchProblems);
                }
                cmds.push(Command::FetchUserStats);
                assert(cmds@ =~= (if a0.config is Some {
                    seq![Command::SaveConfig]
                } else {
                    Seq::empty()
                }) + (if a0.screen is Browse {
                    seq![Command::FetchProblems]
                } else {
                    Seq::empty()
                }) + seq![Command::FetchUserStats]);
            },
            ApiResult::Cookies(None) => {
                if self.login == LoginState::WaitingForBrowser {
                    self.error_overlay = Some(
                        String::from_str(
                            "Could not find LeetCode cookies.\n\nLog into leetcode.com in your browser,\nthen press Enter to retry.",
                        ),
                    );
                } else {
                    cmds.push(Command::OpenLoginPage);
                }
                self.login = LoginState::WaitingForBrowser;
            },
        }
        cmds
    }

    /// Starts a run or submit attempt from the detail screen. The checks
    /// come first and make no call: without settings, without both session
    /// tokens, or with an unsupported language the attempt stops with that
    /// error, shown in the overlay. Otherwise the solution file is to be read.
    pub fn start_attempt(&mut self, kind: JobKind, home: &str) -> (r: Result<Command, AttemptError>)
        requires
            old(self).wf(),
        ensures
            final(self).wf(),
            views_kept(*old(self), *final(self)),
            settings_kept(*old(self), *final(self)),
            final(self).success_message == old(self).success_message,
            match preconditions(old(self).config) {
                Err(e) => r == Err::<Command, AttemptError>(e),
                Ok(l) => match old(self).screen {
                    Screen::Detail(ds) => (r matches Ok(Command::ReadSolution { kind: k, path })
                        && k == kind && path@ == join_path(
                        join_path(
                            expanded(old(self).config->0.workspace_dir@, home@),
                            project_dir_name(ds.detail),
                        ),
                        l.solution_file_spec(),
                    )),
                    _ => r == Err::<Command, AttemptError>(AttemptError::NoProblem),
                },
            },
            r matches Err(e) ==> (final(self).error_overlay matches Some(m) && m@ == message_of(e)),
            r is Ok ==> final(self).error_overlay == old(self).error_overlay,
    {
        match check_preconditions(&self.config) {
            Err(e) => {
                let msg = attempt_message(&e);
                self.error_overlay = Some(msg);
                Err(e)
            },
            Ok(language) => {
                match &self.config {
                    Some(c) => {
                        let workspace = c.expanded_workspace(home);
                        match &self.screen {
                            Screen::Detail(ds) => {
                                let path = solution_path(workspace.as_str(), &ds.detail, language);
                                Ok(Command::ReadSolution { kind, path })
                            },
                            _ => {
                                self.error_overlay = Some(attempt_message(&AttemptError::NoProblem));
                                Err(AttemptError::NoProblem)
                            },
                        }
                    },
                    None => {
                        self.error_overlay = Some(attempt_message(&AttemptError::NoConfig));
                        Err(AttemptError::NoConfig)
                    },
                }
            },
        }
    }

    /// Continues an attempt with the solution file's text (none where it
    /// could not be read): the result screen replaces the detail screen at
    /// once, and the request is to be sent. A missing file is reported in
    /// the overlay and nothing is sent.
    pub fn begin_attempt(&mut self, kind: JobKind, file_text: Option<String>, path: String) -> (r:
        Vec<Command>)
        requires
            old(self).wf(),
        ensures
            final(self).wf(),
            final(self).saved_browse == old(self).saved_browse,
            final(self).saved_lists == old(self).saved_lists,
            settings_kept(*old(self), *final(self)),
            final(self).success_message == old(self).success_message,
            match old(self).screen {
                Screen::Detail(ds) => match preconditions(old(self).config) {
                    Err(e) => r@.len() == 0 && final(self).screen == old(self).screen && (final(self).error_overlay matches Some(m) && m@ == message_of(e)),
                    Ok(l) => match file_text {
                        None => r@.len() == 0 && final(self).screen == old(self).screen && (final(self).error_overlay matches Some(m) && m@ == "Failed to read code from "@
                            + path@ + "\nScaffold the problem first with 'o'"@),
                        Some(t) => {
                            &&& r@.len() == 1
                            &&& r@[0] matches Command::Judge(q) && request_for(q, kind, ds.detail, l, t@)
                            &&& final(self).screen == Screen::Result(
                                ResultState {
                                    kind,
                                    detail: ds.detail,
                                    origin: ds.origin,
                                    job: job_start(fresh_job()),
                                    spinner_frame: 0,
                                },
                            )
                            &&& final(self).error_overlay == old(self).error_overlay
                        },
                    },
                },
                _ => r@.len() == 0 && *final(self) == *old(self),
            },
    {
        let mut cmds: Vec<Command> = Vec::new();
        if !(matches!(self.screen, Screen::Detail(_))) {
            return cmds;
        }
        let language = match check_preconditions(&self.config) {
            Ok(l) => l,
            Err(e) => {
                self.error_overlay = Some(attempt_message(&e));
                return cmds;
            },
        };
        let request = match &self.screen {
            Screen::Detail(ds) => build_request(kind, &ds.detail, language, file_text, path.as_str()),
            _ => {
                return cmds;
            },
        };
        match request {
            Err(e) => {
                self.error_overlay = Some(attempt_message(&e));
            },
            Ok(req) => {
                let mut old_screen = Screen::Setup(SetupState::new());
                std::mem::swap(&mut old_screen, &mut self.screen);
                match old_screen {
                    Screen::Detail(ds) => {
                        let mut job = JudgeJob::new();
                        let action = job.start(req);
                        match action {
                            JobAction::Send(q) => cmds.push(Command::Judge(q)),
                            _ => {},
                        }
                        self.screen = Screen::Result(
                            ResultState {
                                kind,
                                detail: ds.detail,
                                origin: ds.origin,
                                job,
                                spinner_frame: 0,
                            },
                        );
                    },
                    other => {
                        self.screen = other;
                    },
                }
            },
        }
        cmds
    }

    /// Advances animations and counts down the success message.
    pub fn handle_tick(&mut self)
        requires
            old(self).wf(),
        ensures
            final(self).wf(),
            final(self).saved_browse == old(self).saved_browse,
            final(self).error_overlay == old(self).error_overlay,
            old(self).success_message matches Some((m, t)) ==> final(self).success_message == (if t
                == 0 {
                None
            } else {
                Some((m, (t - 1) as u8))
            }),
            old(self).success_message is None ==> final(self).success_message is None,
    {
        let mut msg: Option<(String, u8)> = None;
        std::mem::swap(&mut msg, &mut self.success_message);
        match msg {
            Some((m, t)) => {
                if t > 0 {
                    self.success_message = Some((m, t - 1));
                }
            },
            None => {},
        }
        match &mut self.screen {
            Screen::Browse(s) => {
                s.spinner_frame = next_frame(s.spinner_frame);
            },
            Screen::Result(s) => {
                s.spinner_frame = next_frame(s.spinner_frame);
            },
            Screen::Lists(s) => {
                s.spinner_frame = next_frame(s.spinner_frame);
            },
            _ => {},
        }
    }

    /// Goes back to the browser: the one in its slot, or a fresh one with a
    /// load asked for.
    fn restore_browse(&mut self) -> (r: Vec<Command>)
        requires
            old(self).wf(),
        ensures
            final(self).wf(),
            old(self).saved_browse matches Some(s) ==> final(self).screen == Screen::Browse(s)
                && r@.len() == 0,
            old(self).saved_browse is None ==> (final(self).screen matches Screen::Browse(b) && is_fresh(b))
                && r@ == seq![Command::FetchProblems],
            final(self).saved_browse is None,
            final(self).saved_lists == old(self).saved_lists,
            settings_kept(*old(self), *final(self)),
            final(self).error_overlay == old(self).error_overlay,
            final(self).success_message == old(self).success_message,
    {
        let mut cmds: Vec<Command> = Vec::new();
        let mut slot: Option<BrowserState> = None;
        std::mem::swap(&mut slot, &mut self.saved_browse);
        match slot {
            Some(s) => {
                self.screen = Screen::Browse(s);
            },
            None => {
                self.screen = Screen::Browse(BrowserState::new());
                cmds.push(Command::FetchProblems);
            },
        }
        cmds
    }

    /// Keys of the add-to-list popup: arrows move with wraparound, Enter
    /// adds the problem to the selected list and closes the popup at once.
    fn popup_key(&mut self, key: Key) -> (r: Vec<Command>)
        requires
            old(self).wf(),
            old(self).add_to_list_popup is Some,
        ensures
            final(self).wf(),
            popup_key_effect(*old(self), *final(self), key, r@),
            final(self).success_message == old(self).success_message,
            final(self).help_overlay == old(self).help_overlay,
    {
        let mut cmds: Vec<Command> = Vec::new();
        let mut close = false;
        match &mut self.add_to_list_popup {
            Some(p) => {
                let n = p.lists.len();
                match key {
                    Key::Esc => {
                        close = true;
                    },
                    Key::Char('j') | Key::Down => {
                        if n > 0 {
                            p.selected = (p.selected % n + 1) % n;
                        }
                    },
                    Key::Char('k') | Key::Up => {
                        if n > 0 {
                            let cur = p.selected % n;
                            p.selected = if cur == 0 { n - 1 } else { cur - 1 };
                        }
                    },
                    Key::Enter => {
                        if p.selected < n {
                            let list = &p.lists[p.selected];
                            cmds.push(
                                Command::AddToList {
                                    id_hash: list.id_hash.clone(),
                                    question_id: p.question_id.clone(),
                                    list_name: list.name.clone(),
                                },
                            );
                            close = true;
                        }
                    },
                    _ => {},
                }
            },
            None => {},
        }
        if close {
            self.add_to_list_popup = None;
        }
        cmds
    }

    /// Opens the add-to-list popup for a problem and asks for the lists.
    pub fn open_add_to_list_popup(&mut self, question_id: String) -> (r: Vec<Command>)
        ensures
            final(self).add_to_list_popup matches Some(p) && p.question_id == question_id
                && p.loading && p.lists@.len() == 0,
            r@ == seq![Command::FetchPopupFavorites],
            final(self).screen == old(self).screen,
            final(self).saved_browse == old(self).saved_browse,
    {
        self.add_to_list_popup = Some(
            AddToListPopup { lists: Vec::new(), selected: 0, question_id, loading: true },
        );
        let mut cmds: Vec<Command> = Vec::new();
        cmds.push(Command::FetchPopupFavorites);
        cmds
    }

    /// Keys of the setup form; submitting stores the settings and opens the
    /// browser.
    fn setup_key(&mut self, key: Key) -> (r: Vec<Command>)
        requires
            old(self).wf(),
            old(self).screen is Setup,
        ensures
            final(self).wf(),
    {
        let mut cmds: Vec<Command> = Vec::new();
        let action = match &mut self.screen {
            Screen::Setup(st) => st.handle_key(key),
            _ => SetupAction::NoOp,
        };
        match action {
            SetupAction::Submit => {
                let fields = match &self.screen {
                    Screen::Setup(st) => Some(
                        (st.fields[0].clone(), st.fields[1].clone(), st.fields[2].clone()),
                    ),
                    _ => None,
                };
                match fields {
                    Some((workspace_dir, language, editor)) => {
                        let (leetcode_session, csrf_token) = match &self.config {
                            Some(c) => (c.leetcode_session.clone(), c.csrf_token.clone()),
                            None => (None, None),
                        };
                        self.config = Some(
                            Config { workspace_dir, language, editor, leetcode_session, csrf_token },
                        );
                        self.screen = Screen::Browse(BrowserState::new());
                        cmds.push(Command::SaveConfig);
                        cmds.push(Command::FetchProblems);
                        cmds.push(Command::FetchUserStats);
                    },
                    None => {},
                }
            },
            SetupAction::Quit => {
                self.should_quit = true;
            },
            SetupAction::NoOp => {},
        }
        cmds
    }

    /// Keys of the browser screen.
    fn browse_key(&mut self, key: Key) -> (r: Vec<Command>)
        requires
            old(self).wf(),
            old(self).screen is Browse,
        ensures
            final(self).wf(),
            browse_key_effect(*old(self), *final(self), key, r@),
    {
        let mut cmds: Vec<Command> = Vec::new();
        let (action, difficulty) = match &mut self.screen {
            Screen::Browse(s) => {
                let a = s.handle_key(key);
                (a, s.difficulty_filter.as_api_str())
            },
            _ => (BrowserAction::NoOp, None),
        };
        match action {
            BrowserAction::Quit => {
                self.should_quit = true;
            },
            BrowserAction::OpenDetail(slug) => cmds.push(Command::FetchDetail(slug)),
            BrowserAction::Scaffold(slug) => cmds.push(Command::FetchDetail(slug)),
            BrowserAction::SearchFetch(query) => {
                let difficulty = match difficulty {
                    Some(d) => Some(String::from_str(d)),
                    None => None,
                };
                cmds.push(Command::Search { query, difficulty });
            },
            BrowserAction::Lists => {
                let mut old_screen = Screen::Lists(ListsState::new());
                std::mem::swap(&mut old_screen, &mut self.screen);
                match old_screen {
                    Screen::Browse(s) => {
                        self.saved_browse = Some(s);
                    },
                    _ => {},
                }
                cmds.push(Command::FetchFavorites);
            },
            BrowserAction::Settings => {
                let st = self.setup_from_config();
                self.screen = Screen::Setup(st);
            },
            BrowserAction::AddToList(qid) => {
                cmds = self.open_add_to_list_popup(qid);
            },
            BrowserAction::FilterChanged | BrowserAction::NoOp => {},
        }
        cmds
    }

    /// The setup form filled from the current settings.
    fn setup_from_config(&self) -> (r: SetupState)
        ensures
            r.wf(),
    {
        let mut st = SetupState::new();
        match &self.config {
            Some(c) => {
                st.fields.set(0, c.workspace_dir.clone());
                st.fields.set(1, c.language.clone());
                st.fields.set(2, c.editor.clone());
            },
            None => {},
        }
        st
    }

    /// Keys of the detail screen.
    fn detail_key(&mut self, key: Key) -> (r: Vec<Command>)
        requires
            old(self).wf(),
            old(self).screen is Detail,
        ensures
            final(self).wf(),
            detail_key_effect(*old(self), *final(self), key, r@),
    {
        let mut cmds: Vec<Command> = Vec::new();
        let action = match &mut self.screen {
            Screen::Detail(ds) => ds.handle_key(key),
            _ => DetailAction::NoOp,
        };
        match action {
            DetailAction::Back => {
                cmds = self.go_back();
            },
            DetailAction::Quit => {
                self.should_quit = true;
            },
            DetailAction::Scaffold(_) => cmds.push(Command::ScaffoldCurrent),
            DetailAction::RunCode | DetailAction::SubmitCode => {
                let kind = if let DetailAction::RunCode = action {
                    JobKind::Run
                } else {
                    JobKind::Submit
                };
                cmds.push(Command::PrepareAttempt(kind));
            },
            DetailAction::AddToList(qid) => {
                cmds = self.open_add_to_list_popup(qid);
            },
            DetailAction::NoOp => {},
        }
        cmds
    }

    /// Keys of the result screen: back to the problem's detail, or quit.
    fn result_key(&mut self, key: Key) -> (r: Vec<Command>)
        requires
            old(self).wf(),
            old(self).screen is Result,
        ensures
            final(self).wf(),
            result_key_effect(*old(self), *final(self), key, r@),
    {
        match key {
            Key::Esc | Key::Char('b') => {
                let mut old_screen = Screen::Setup(SetupState::new());
                std::mem::swap(&mut old_screen, &mut self.screen);
                match old_screen {
                    Screen::Result(rs) => {
                        self.screen = Screen::Detail(DetailState::new(rs.detail, rs.origin));
                    },
                    other => {
                        self.screen = other;
                    },
                }
            },
            Key::Char('q') => {
                self.should_quit = true;
            },
            _ => {},
        }
        Vec::new()
    }

    /// Keys of the lists screen.
    fn lists_key(&mut self, key: Key) -> (r: Vec<Command>)
        requires
            old(self).wf(),
            old(self).screen is Lists,
        ensures
            final(self).wf(),
    {
        let mut cmds: Vec<Command> = Vec::new();
        let action = match &mut self.screen {
            Screen::Lists(l) => l.handle_key(key),
            _ => ListsAction::NoOp,
        };
        match action {
            ListsAction::Back => {
                cmds = self.restore_browse();
            },
            ListsAction::Quit => {
                self.should_quit = true;
            },
            ListsAction::Refresh => cmds.push(Command::FetchFavorites),
            ListsAction::OpenDetail(slug) => cmds.push(Command::FetchDetail(slug)),
            ListsAction::CreateList(name) => cmds.push(Command::CreateList(name)),
            ListsAction::DeleteList(id) => cmds.push(Command::DeleteList(id)),
            ListsAction::RemoveProblem { id_hash, question_id } => cmds.push(
                Command::RemoveFromList { id_hash, question_id },
            ),
            ListsAction::NoOp => {},
        }
        cmds
    }

    /// Applies one key press. Ctrl+C always quits. While the login flow is
    /// not idle it takes all input; then an open help overlay, error overlay
    /// or popup takes the key; only then does the active screen.
    pub fn handle_key(&mut self, key: Key) -> (r: Vec<Command>)
        requires
            old(self).wf(),
        ensures
            final(self).wf(),
            key == Key::Ctrl('c') ==> final(self).should_quit && r@.len() == 0,
            key != Key::Ctrl('c') && old(self).login == LoginState::WaitingForBrowser ==> (if key
                == Key::Esc {
                *final(self) == (App { login: LoginState::Idle, ..*old(self) }) && r@.len() == 0
            } else {
                *final(self) == *old(self) && r@ == (if key == Key::Enter {
                    seq![Command::ExtractCookies]
                } else {
                    Seq::empty()
                })
            }),
            key != Key::Ctrl('c') && key != Key::Char('?') && old(self).login
                == LoginState::PromptShown ==> ((key == Key::Char('y') || key == Key::Char('Y')) ==> (
            final(self).login == LoginState::Idle && r@ == seq![
                Command::ExtractCookies,
                Command::FetchUserStats,
            ])) && ((key == Key::Char('n') || key == Key::Char('N') || key == Key::Esc) ==> (final(self).login == LoginState::Idle && r@.len() == 0)),
            key != Key::Ctrl('c') && key != Key::Char('?') && old(self).login == LoginState::Idle
                && !old(self).help_overlay && old(self).error_overlay is None
                && old(self).add_to_list_popup is None ==> (old(self).screen is Browse
                ==> browse_key_effect(*old(self), *final(self), key, r@)) && (old(self).screen is Detail
                ==> detail_key_effect(*old(self), *final(self), key, r@)),
            key != Key::Ctrl('c') && old(self).login == LoginState::Idle && !old(self).help_overlay
                && old(self).error_overlay is Some ==> r@.len() == 0 && *final(self) == (App {
                success_message: None,
                error_overlay: if key == Key::Esc || key == Key::Char('q') {
                    None
                } else {
                    old(self).error_overlay
                },
                ..*old(self)
            }),
            key != Key::Ctrl('c') && old(self).login == LoginState::Idle && !old(self).help_overlay
                && old(self).error_overlay is None && old(self).add_to_list_popup is Some ==> popup_key_effect(*old(self), *final(self), key, r@),
            key != Key::Ctrl('c') && key != Key::Char('?') && old(self).login == LoginState::Idle
                && !old(self).help_overlay && old(self).error_overlay is None
                && old(self).add_to_list_popup is None && old(self).screen is Result ==> result_key_effect(*old(self), *final(self), key, r@),
    {
        let mut cmds: Vec<Command> = Vec::new();
        if key == Key::Ctrl('c') {
            self.should_quit = true;
            return cmds;
        }
        if key == Key::Char('?') && self.login == LoginState::Idle && self.error_overlay.is_none()
            && self.add_to_list_popup.is_none() {
            self.help_overlay = !self.help_overlay;
            return cmds;
        }
        if self.login == LoginState::WaitingForBrowser {
            match key {
                Key::Enter => cmds.push(Command::ExtractCookies),
                Key::Esc => {
                    self.login = LoginState::Idle;
                },
                _ => {},
            }
            return cmds;
        }
        if self.login == LoginState::PromptShown {
            match key {
                Key::Char('y') | Key::Char('Y') => {
                    self.login = LoginState::Idle;
                    cmds.push(Command::ExtractCookies);
                    cmds.push(Command::FetchUserStats);
                },
                Key::Char('n') | Key::Char('N') | Key::Esc => {
                    self.login = LoginState::Idle;
                },
                Key::Char('s') | Key::Char('S') => {
                    self.login = LoginState::Idle;
                    let st = self.setup_from_config();
                    self.screen = Screen::Setup(st);
                },
                _ => {},
            }
            return cmds;
        }
        if self.help_overlay {
            self.help_overlay = false;
            return cmds;
        }
        self.success_message = None;
        if self.error_overlay.is_some() {
            match key {
                Key::Esc | Key::Char('q') => {
                    self.error_overlay = None;
                },
                _ => {},
            }
            return cmds;
        }
        if self.add_to_list_popup.is_some() {
            return self.popup_key(key);
        }
        match &self.screen {
            Screen::Setup(_) => self.setup_key(key),
            Screen::Browse(_) => self.browse_key(key),
            Screen::Detail(_) => self.detail_key(key),
            Screen::Result(_) => self.result_key(key),
            Screen::Lists(_) => self.lists_key(key),
        }
    }
}

/// The text shown for an attempt that stopped before anything was sent.
pub fn attempt_message(e: &AttemptError) -> (r: String)
    ensures
        r@ == message_of(*e),
{
    match e {
        AttemptError::NoConfig => String::from_str("No config loaded"),
        AttemptError::AuthenticationRequired => String::from_str(
            "Authentication required.\nLog in from the start-up prompt, or add the session tokens to the settings file.",
        ),
        AttemptError::UnsupportedLanguage(l) => concat(String::from_str("Unsupported language: "), l),
        AttemptError::NotFound(p) => {
            let msg = concat(String::from_str("Failed to read code from "), p);
            concat(msg, &String::from_str("\nScaffold the problem first with 'o'"))
        },
        AttemptError::NoProblem => String::from_str("No problem selected"),
    }
}

/// `a` followed by `b`.
pub fn concat(a: String, b: &String) -> (r: String)
    ensures
        r@ == a@ + b@,
{
    let mut a = a;
    a.append(b.as_str());
    a
}

/// The next animation frame, wrapping around.
pub fn next_frame(f: usize) -> (r: usize)
    ensures
        r == (if f < usize::MAX {
            f + 1
        } else {
            0
        }),
{
    if f < usize::MAX {
        f + 1
    } else {
        0
    }
}

} // verus!
