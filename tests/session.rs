use leetcode_cli::browser::DifficultyFilter;
use leetcode_cli::config::{language_from_name, solution_path, Config, Language};
use leetcode_cli::detail::{DetailAction, DetailState, Origin};
use leetcode_cli::judge::{
    build_request, sample_input, AttemptError, CheckResponse, JobAction, JobEvent, JobKind,
    JobPhase, JudgeJob,
};
use leetcode_cli::keys::Key;
use leetcode_cli::scaffold::{lines_of, scaffold_problem, ScaffoldError};
use leetcode_cli::session::{ApiResult, App, Command, LoginState, Screen};
use leetcode_cli::setup::{SetupAction, SetupState};
use leetcode_cli::lists::{ListsAction, ListsState};
use leetcode_cli::types::{CodeSnippet, FavoriteList, ListQuestion, ProblemSummary, QuestionDetail};

fn summary(id: &str, title: &str, slug: &str) -> ProblemSummary {
    ProblemSummary {
        question_id: format!("q{id}"),
        frontend_question_id: id.to_string(),
        title: title.to_string(),
        title_slug: slug.to_string(),
        difficulty: "Medium".to_string(),
        ac_rate_centi: 4321,
        is_paid_only: false,
        topic_tags: Vec::new(),
    }
}

fn detail(slug: &str) -> QuestionDetail {
    QuestionDetail {
        question_id: "1".to_string(),
        frontend_question_id: "1".to_string(),
        title: "Two Sum".to_string(),
        title_slug: slug.to_string(),
        difficulty: "Easy".to_string(),
        content: Some("<p>Find two numbers.</p>".to_string()),
        is_paid_only: false,
        topic_tags: Vec::new(),
        code_snippets: Some(vec![
            CodeSnippet {
                lang: "Python3".to_string(),
                lang_slug: "python3".to_string(),
                code: "class Solution: pass".to_string(),
            },
            CodeSnippet {
                lang: "Rust".to_string(),
                lang_slug: "rust".to_string(),
                code: "impl Solution {}".to_string(),
            },
        ]),
        hints: Vec::new(),
        example_testcase_list: Some(vec!["[2,7]\n9".to_string(), "[3,3]\n6".to_string()]),
        sample_test_case: Some("[1]\n1".to_string()),
    }
}

fn config(authenticated: bool) -> Config {
    Config {
        workspace_dir: "~/leetcode".to_string(),
        language: "rust".to_string(),
        editor: "vim".to_string(),
        leetcode_session: if authenticated { Some("s".to_string()) } else { None },
        csrf_token: Some("c".to_string()),
    }
}

fn verdict(state: &str) -> CheckResponse {
    CheckResponse {
        state: state.to_string(),
        status_msg: "Accepted".to_string(),
        run_success: true,
        total_correct: Some(3),
        total_testcases: Some(3),
        runtime: None,
        memory: None,
        compile_message: None,
        runtime_error: None,
        code_answer: Vec::new(),
        expected_code_answer: Vec::new(),
    }
}

fn browse_app() -> App {
    let (mut app, cmds) = App::new(Some(config(true)));
    assert_eq!(cmds.len(), 2);
    assert!(app.begin_problem_load(None));
    app.handle_api_result(ApiResult::ProblemBatch {
        problems: vec![
            summary("1", "Two Sum", "two-sum"),
            summary("2", "Add Two Numbers", "add-two-numbers"),
            summary("3", "Longest Substring", "longest-substring"),
        ],
        total: 3,
        done: true,
    });
    app
}

#[test]
fn back_from_detail_restores_browser() {
    let mut app = browse_app();
    for k in [Key::Char('d'), Key::Char('/'), Key::Char('t'), Key::Char('w'), Key::Enter] {
        app.handle_key(k);
    }
    app.handle_key(Key::Down);
    let (query, filter, selected, rows) = match &app.screen {
        Screen::Browse(b) => (
            b.search_query.clone(),
            b.difficulty_filter,
            b.selected,
            b.filtered_indices.clone(),
        ),
        _ => panic!("expected the browser"),
    };
    assert_eq!(query, "tw");
    assert_eq!(filter, DifficultyFilter::Easy);
    assert_eq!(selected, Some(1));
    app.handle_api_result(ApiResult::Detail(Ok(detail("add-two-numbers"))));
    assert!(matches!(app.screen, Screen::Detail(_)));
    assert!(app.saved_browse.is_some());
    app.handle_key(Key::Char('j'));
    let cmds = app.handle_key(Key::Char('b'));
    assert!(cmds.is_empty());
    assert!(app.saved_browse.is_none());
    match &app.screen {
        Screen::Browse(b) => {
            assert_eq!(b.search_query, query);
            assert_eq!(b.difficulty_filter, filter);
            assert_eq!(b.selected, selected);
            assert_eq!(b.filtered_indices, rows);
            assert_eq!(b.problems.len(), 3);
        }
        _ => panic!("expected the browser back"),
    }
}

#[test]
fn back_without_saved_browser_starts_a_load() {
    let (mut app, _) = App::new(Some(config(true)));
    app.screen = Screen::Detail(DetailState::new(detail("two-sum"), Origin::Browse));
    let cmds = app.go_back();
    assert!(matches!(cmds.as_slice(), [Command::FetchProblems]));
    assert!(matches!(app.screen, Screen::Browse(_)));
}

#[test]
fn job_completed_after_three_polls() {
    let mut job = JudgeJob::new();
    let req = build_request(
        JobKind::Submit,
        &detail("two-sum"),
        Language::Python3,
        Some("print(1)".to_string()),
        "/w/1-two-sum/solution.py",
    )
    .ok()
    .unwrap();
    assert!(req.data_input.is_none());
    assert!(matches!(job.start(req), JobAction::Send(_)));
    let mut polls = 0;
    let mut finished = 0;
    let mut events = vec![
        JobEvent::Accepted("42".to_string()),
        JobEvent::Status(verdict("PENDING")),
        JobEvent::Status(verdict("STARTED")),
        JobEvent::Status(verdict("SUCCESS")),
    ]
    .into_iter();
    while let Some(ev) = events.next() {
        match job.on_event(ev) {
            JobAction::Poll(id) => {
                assert_eq!(id, "42");
                polls += 1;
            }
            JobAction::Finished => finished += 1,
            _ => {}
        }
    }
    assert!(matches!(job.on_event(JobEvent::Status(verdict("SUCCESS"))), JobAction::Wait));
    assert_eq!(job.send_calls, 1);
    assert_eq!(job.poll_calls, 3);
    assert_eq!(polls, 3);
    assert_eq!(finished, 1);
    assert_eq!(job.reports, 1);
    assert!(matches!(job.phase, JobPhase::Completed(_)));
}

#[test]
fn failed_poll_ends_the_job() {
    let mut job = JudgeJob::new();
    job.phase = JobPhase::Submitted;
    assert!(matches!(job.on_event(JobEvent::Accepted("7".to_string())), JobAction::Poll(_)));
    assert!(matches!(job.on_event(JobEvent::PollFailed("net".to_string())), JobAction::Finished));
    assert!(matches!(job.phase, JobPhase::Failed(ref m) if m == "net"));
    let mut job = JudgeJob::new();
    job.phase = JobPhase::Submitted;
    assert!(matches!(job.on_event(JobEvent::SendFailed("no".to_string())), JobAction::Finished));
}

#[test]
fn run_without_credentials_makes_no_call() {
    let (mut app, _) = App::new(Some(config(false)));
    assert_eq!(app.login, LoginState::PromptShown);
    app.handle_key(Key::Char('n'));
    app.handle_api_result(ApiResult::Detail(Ok(detail("two-sum"))));
    let r = app.start_attempt(JobKind::Run, "/home/u");
    assert!(matches!(r, Err(AttemptError::AuthenticationRequired)));
    assert!(app.error_overlay.is_some());
    assert!(matches!(app.screen, Screen::Detail(_)));
    let cmds = app.begin_attempt(JobKind::Run, Some("fn main() {}".to_string()), "p".to_string());
    assert!(cmds.is_empty());
}

#[test]
fn run_with_credentials_reads_file_then_sends() {
    let (mut app, _) = App::new(Some(config(true)));
    app.handle_api_result(ApiResult::Detail(Ok(detail("two-sum"))));
    let cmd = app.start_attempt(JobKind::Run, "/home/u").ok().unwrap();
    match cmd {
        Command::ReadSolution { kind, path } => {
            assert_eq!(kind, JobKind::Run);
            assert_eq!(path, "/home/u/leetcode/1-two-sum/src/main.rs");
        }
        _ => panic!("expected ReadSolution"),
    }
    let cmds = app.begin_attempt(JobKind::Run, None, "/x/main.rs".to_string());
    assert!(cmds.is_empty());
    assert!(app.error_overlay.as_deref().unwrap().contains("/x/main.rs"));
    app.handle_key(Key::Esc);
    let file = "// 1: Two Sum\n\nstruct Solution;\n\nimpl Solution {}\n\nfn main() {}\n";
    let cmds = app.begin_attempt(JobKind::Run, Some(file.to_string()), "/x/main.rs".to_string());
    match cmds.as_slice() {
        [Command::Judge(req)] => {
            assert_eq!(req.code, "impl Solution {}");
            assert_eq!(req.lang, "rust");
            assert_eq!(req.data_input.as_deref(), Some("[2,7]\n9\n[3,3]\n6"));
        }
        _ => panic!("expected one Judge command"),
    }
    assert!(matches!(app.screen, Screen::Result(_)));
    let cmds = app.handle_api_result(ApiResult::Job(JobEvent::Accepted("9".to_string())));
    assert!(matches!(cmds.as_slice(), [Command::Poll(id)] if id == "9"));
}

#[test]
fn filtered_search_with_one_match_opens_its_detail() {
    let mut app = browse_app();
    app.handle_key(Key::Char('d'));
    app.handle_key(Key::Char('d'));
    app.handle_key(Key::Char('/'));
    for c in "two sum".chars() {
        app.handle_key(Key::Char(c));
    }
    let cmds = app.handle_key(Key::Enter);
    match cmds.as_slice() {
        [Command::Search { query, difficulty }] => {
            assert_eq!(query, "two sum");
            assert_eq!(difficulty.as_deref(), Some("MEDIUM"));
        }
        _ => panic!("expected a search"),
    }
    let cmds = app.handle_api_result(ApiResult::SearchResult(Ok(vec![summary(
        "1", "Two Sum", "two-sum",
    )])));
    match cmds.as_slice() {
        [Command::FetchDetail(slug)] => assert_eq!(slug, "two-sum"),
        _ => panic!("expected a detail fetch"),
    }
    app.handle_api_result(ApiResult::Detail(Ok(detail("two-sum"))));
    match &app.screen {
        Screen::Detail(d) => {
            assert_eq!(d.detail.title_slug, "two-sum");
            assert_eq!(d.origin, Origin::Browse);
        }
        _ => panic!("expected the detail screen"),
    }
}

#[test]
fn search_without_match_shows_error() {
    let mut app = browse_app();
    let cmds = app.handle_api_result(ApiResult::SearchResult(Ok(Vec::new())));
    assert!(cmds.is_empty());
    assert_eq!(app.error_overlay.as_deref(), Some("Problem not found."));
    app.handle_api_result(ApiResult::Detail(Err("timeout".to_string())));
    assert_eq!(app.error_overlay.as_deref(), Some("Failed to load problem: timeout"));
}

#[test]
fn detail_renders_statement_and_scrolls() {
    let mut d = DetailState::new(detail("two-sum"), Origin::Browse);
    assert!(d.rendered_content.contains("Find two numbers."));
    assert!(!d.rendered_content.contains("<p>"));
    d.scroll(-5);
    assert_eq!(d.scroll_offset, 0);
    d.content_height = 10;
    d.handle_key(Key::Char('d'));
    assert_eq!(d.scroll_offset, 5);
    assert!(matches!(d.handle_key(Key::Esc), DetailAction::Back));
    let mut premium = detail("p");
    premium.is_paid_only = true;
    premium.content = None;
    let p = DetailState::new(premium, Origin::Lists);
    assert_eq!(p.rendered_content, "Premium content — not available without authentication.");
}

#[test]
fn setup_form_edits_fields() {
    let mut s = SetupState::new();
    assert_eq!(s.fields, vec!["~/leetcode", "rust", "vim"]);
    s.handle_key(Key::Tab);
    s.handle_key(Key::Backspace);
    s.handle_key(Key::Char('X'));
    assert_eq!(s.fields[1], "rusX");
    s.handle_key(Key::Up);
    s.handle_key(Key::Up);
    assert_eq!(s.active_field, 2);
    assert!(matches!(s.handle_key(Key::Enter), SetupAction::Submit));
}

#[test]
fn paths_and_languages() {
    let c = config(true);
    assert_eq!(Config::config_dir("/home/u"), "/home/u/.leetcode-cli");
    assert_eq!(Config::config_path("/home/u/.leetcode-cli"), "/home/u/.leetcode-cli/config.toml");
    assert_eq!(c.expanded_workspace("/home/u/"), "/home/u/leetcode");
    assert_eq!(language_from_name("golang"), Some(Language::Go));
    assert_eq!(language_from_name("cobol"), None);
    assert_eq!(Language::Go.lang_slug(), "golang");
    assert_eq!(
        solution_path("/w", &detail("two-sum"), Language::Java),
        "/w/1-two-sum/Solution.java"
    );
    assert_eq!(sample_input(&detail("x")), "[2,7]\n9\n[3,3]\n6");
}

#[test]
fn scaffold_builds_source() {
    let plan = scaffold_problem(&detail("two-sum"), "rust").ok().unwrap();
    assert_eq!(plan.dir_name, "1-two-sum");
    assert_eq!(plan.package_name, "p1-two-sum");
    assert_eq!(plan.source_file, "src/main.rs");
    assert!(plan.source.starts_with("// 1: Two Sum\n// Difficulty: Easy\n// https://leetcode.com/problems/two-sum/\n//\n// Find two numbers.\n"));
    assert!(plan.source.contains("\nimpl Solution {}\n"));
    assert!(plan.source.ends_with("    }\n}\n"));
    assert!(matches!(
        scaffold_problem(&detail("two-sum"), "java"),
        Err(ScaffoldError::UnsupportedLanguage(l)) if l == "java"
    ));
    let lines = lines_of("a\r\nb\n\nc");
    assert_eq!(lines, vec!["a", "b", "", "c"]);
}

#[test]
fn login_cookies_update_settings() {
    let (mut app, _) = App::new(Some(config(false)));
    let cmds = app.handle_key(Key::Char('y'));
    assert!(matches!(cmds.as_slice(), [Command::ExtractCookies, Command::FetchUserStats]));
    let cmds = app.handle_api_result(ApiResult::Cookies(None));
    assert!(matches!(cmds.as_slice(), [Command::OpenLoginPage]));
    assert_eq!(app.login, LoginState::WaitingForBrowser);
    let cmds = app.handle_key(Key::Enter);
    assert!(matches!(cmds.as_slice(), [Command::ExtractCookies]));
    app.handle_api_result(ApiResult::Cookies(Some(("S".to_string(), "C".to_string()))));
    assert_eq!(app.login, LoginState::Idle);
    assert!(app.config.as_ref().unwrap().is_authenticated());
}

#[test]
fn attempt_errors_before_any_call() {
    let (mut app, cmds) = App::new(None);
    assert!(cmds.is_empty());
    assert!(matches!(app.screen, Screen::Setup(_)));
    assert!(matches!(app.start_attempt(JobKind::Submit, "/h"), Err(AttemptError::NoConfig)));
    let mut cobol = config(true);
    cobol.language = "cobol".to_string();
    let (mut app, _) = App::new(Some(cobol));
    app.handle_api_result(ApiResult::Detail(Ok(detail("two-sum"))));
    match app.start_attempt(JobKind::Run, "/h") {
        Err(AttemptError::UnsupportedLanguage(l)) => assert_eq!(l, "cobol"),
        _ => panic!("expected UnsupportedLanguage"),
    }
    match build_request(JobKind::Run, &detail("x"), Language::Rust, None, "/p/main.rs") {
        Err(AttemptError::NotFound(p)) => assert_eq!(p, "/p/main.rs"),
        _ => panic!("expected NotFound"),
    }
}

#[test]
fn batches_reach_the_browser_in_its_slot() {
    let mut app = browse_app();
    app.handle_api_result(ApiResult::Detail(Ok(detail("two-sum"))));
    let cmds = app.handle_api_result(ApiResult::ProblemBatch {
        problems: vec![summary("4", "Median", "median")],
        total: 4,
        done: true,
    });
    assert!(matches!(cmds.as_slice(), [Command::SaveCache]));
    let saved = app.saved_browse.as_ref().unwrap();
    assert_eq!(saved.problems.len(), 4);
    app.handle_api_result(ApiResult::ProblemFetchError("offline".to_string()));
    assert_eq!(app.saved_browse.as_ref().unwrap().error_message.as_deref(), Some("offline"));
}

#[test]
fn add_to_list_popup_wraps_and_confirms() {
    let mut app = browse_app();
    app.handle_api_result(ApiResult::Detail(Ok(detail("two-sum"))));
    let cmds = app.handle_key(Key::Char('a'));
    assert!(matches!(cmds.as_slice(), [Command::FetchPopupFavorites]));
    let lists = vec![
        FavoriteList {
            id_hash: "h1".to_string(),
            name: "First".to_string(),
            questions: Vec::new(),
        },
        FavoriteList {
            id_hash: "h2".to_string(),
            name: "Second".to_string(),
            questions: Vec::new(),
        },
    ];
    app.handle_api_result(ApiResult::PopupFavorites(Ok(lists)));
    app.handle_key(Key::Up);
    assert_eq!(app.add_to_list_popup.as_ref().unwrap().selected, 1);
    app.handle_key(Key::Down);
    app.handle_key(Key::Down);
    let cmds = app.handle_key(Key::Enter);
    match cmds.as_slice() {
        [Command::AddToList { id_hash, question_id, list_name }] => {
            assert_eq!(id_hash, "h2");
            assert_eq!(question_id, "1");
            assert_eq!(list_name, "Second");
        }
        _ => panic!("expected AddToList"),
    }
    assert!(app.add_to_list_popup.is_none());
    app.handle_api_result(ApiResult::ListMutation(Ok(()), "Added".to_string()));
    assert_eq!(app.success_message.as_ref().map(|m| m.1), Some(12));
    app.handle_tick();
    assert_eq!(app.success_message.as_ref().map(|m| m.1), Some(11));
}

fn favorites() -> Vec<FavoriteList> {
    vec![FavoriteList {
        id_hash: "h1".to_string(),
        name: "Graphs".to_string(),
        questions: vec![
            ListQuestion {
                question_id: "200".to_string(),
                title: "Number of Islands".to_string(),
                title_slug: "number-of-islands".to_string(),
            },
            ListQuestion {
                question_id: "207".to_string(),
                title: "Course Schedule".to_string(),
                title_slug: "course-schedule".to_string(),
            },
        ],
    }]
}

#[test]
fn lists_screen_opens_creates_and_removes() {
    let mut app = browse_app();
    let cmds = app.handle_key(Key::Char('L'));
    assert!(matches!(cmds.as_slice(), [Command::FetchFavorites]));
    assert!(app.saved_browse.is_some());
    app.handle_api_result(ApiResult::Favorites(Ok(favorites())));
    app.handle_key(Key::Enter);
    app.handle_key(Key::Down);
    let cmds = app.handle_key(Key::Char('x'));
    match cmds.as_slice() {
        [Command::RemoveFromList { id_hash, question_id }] => {
            assert_eq!(id_hash, "h1");
            assert_eq!(question_id, "207");
        }
        _ => panic!("expected RemoveFromList"),
    }
    let cmds = app.handle_key(Key::Enter);
    assert!(matches!(cmds.as_slice(), [Command::FetchDetail(slug)] if slug == "course-schedule"));
    app.handle_api_result(ApiResult::Detail(Ok(detail("course-schedule"))));
    match &app.screen {
        Screen::Detail(d) => assert_eq!(d.origin, Origin::Lists),
        _ => panic!("expected the detail screen"),
    }
    let cmds = app.handle_key(Key::Esc);
    assert!(cmds.is_empty());
    assert!(matches!(app.screen, Screen::Lists(_)));
    app.handle_key(Key::Esc);
    for k in [Key::Char('n'), Key::Char('D'), Key::Char('P'), Key::Backspace, Key::Char('p')] {
        app.handle_key(k);
    }
    let cmds = app.handle_key(Key::Enter);
    assert!(matches!(cmds.as_slice(), [Command::CreateList(n)] if n == "Dp"));
    let cmds = app.handle_key(Key::Char('b'));
    assert!(cmds.is_empty());
    assert!(matches!(app.screen, Screen::Browse(_)));
}

#[test]
fn lists_state_deletes_selected_list() {
    let mut l = ListsState::new();
    l.lists = favorites();
    assert!(matches!(l.handle_key(Key::Char('d')), ListsAction::NoOp));
    l.handle_key(Key::Down);
    assert!(matches!(l.handle_key(Key::Char('d')), ListsAction::DeleteList(id) if id == "h1"));
    assert!(matches!(l.handle_key(Key::Char('b')), ListsAction::Back));
}

#[test]
fn attempt_path_and_missing_problem() {
    let (mut app, _) = App::new(Some(config(true)));
    assert!(matches!(app.start_attempt(JobKind::Run, "/h"), Err(AttemptError::NoProblem)));
    assert_eq!(app.error_overlay.as_deref(), Some("No problem selected"));
    app.handle_key(Key::Esc);
    app.handle_api_result(ApiResult::Detail(Ok(detail("two-sum"))));
    let mut c = config(true);
    c.workspace_dir = "/srv/code".to_string();
    c.language = "python".to_string();
    app.config = Some(c);
    match app.start_attempt(JobKind::Submit, "/h") {
        Ok(Command::ReadSolution { path, .. }) => assert_eq!(path, "/srv/code/1-two-sum/solution.py"),
        _ => panic!("expected ReadSolution"),
    }
}

#[test]
fn result_screen_goes_back_to_detail() {
    let (mut app, _) = App::new(Some(config(true)));
    app.handle_api_result(ApiResult::Detail(Ok(detail("two-sum"))));
    let cmds = app.begin_attempt(JobKind::Submit, Some("x = 1".to_string()), "p".to_string());
    assert_eq!(cmds.len(), 1);
    assert!(app.handle_key(Key::Char('r')).is_empty());
    assert!(matches!(app.screen, Screen::Result(_)));
    assert!(app.handle_key(Key::Char('b')).is_empty());
    match &app.screen {
        Screen::Detail(d) => assert_eq!(d.detail.title_slug, "two-sum"),
        _ => panic!("expected the detail screen"),
    }
}

#[test]
fn bare_carriage_return_at_end_stays() {
    assert_eq!(lines_of("a\r"), vec!["a\r"]);
    assert_eq!(lines_of("a\r\nb\r"), vec!["a", "b\r"]);
}
