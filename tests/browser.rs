use leetcode_cli::browser::{page_step, BrowserAction, BrowserState, DifficultyFilter, PAGE_SIZE};
use leetcode_cli::keys::Key;
use leetcode_cli::types::ProblemSummary;

fn problem(id: usize, title: &str) -> ProblemSummary {
    ProblemSummary {
        question_id: format!("q{id}"),
        frontend_question_id: id.to_string(),
        title: title.to_string(),
        title_slug: title.to_lowercase().replace(' ', "-"),
        difficulty: "Easy".to_string(),
        ac_rate_centi: 5000,
        is_paid_only: false,
        topic_tags: Vec::new(),
    }
}

#[test]
fn difficulty_cycle_and_names() {
    assert_eq!(DifficultyFilter::All.next(), DifficultyFilter::Easy);
    assert_eq!(DifficultyFilter::Easy.next(), DifficultyFilter::Medium);
    assert_eq!(DifficultyFilter::Medium.next(), DifficultyFilter::Hard);
    assert_eq!(DifficultyFilter::Hard.next(), DifficultyFilter::All);
    assert_eq!(DifficultyFilter::All.as_api_str(), None);
    assert_eq!(DifficultyFilter::Medium.as_api_str(), Some("MEDIUM"));
    assert_eq!(DifficultyFilter::Hard.label(), "Hard");
}

fn loaded_browser(titles: &[&str]) -> BrowserState {
    let mut b = BrowserState::new();
    b.start_load(None);
    let batch: Vec<ProblemSummary> =
        titles.iter().enumerate().map(|(i, t)| problem(i + 1, t)).collect();
    b.apply_batch(batch, titles.len(), true);
    b
}

#[test]
fn search_is_case_insensitive_and_matches_numbers() {
    let mut b = loaded_browser(&["Two Sum", "Add Two Numbers", "Longest Substring"]);
    assert_eq!(b.filtered_indices, vec![0, 1, 2]);
    b.handle_key(Key::Char('/'));
    for c in "TWO".chars() {
        b.handle_key(Key::Char(c));
    }
    assert_eq!(b.filtered_indices, vec![0, 1]);
    assert_eq!(b.selected, Some(0));
    b.handle_key(Key::Backspace);
    b.handle_key(Key::Backspace);
    b.handle_key(Key::Backspace);
    b.handle_key(Key::Char('3'));
    assert_eq!(b.filtered_indices, vec![2]);
    b.handle_key(Key::Esc);
    assert!(!b.search_mode);
    assert_eq!(b.filtered_indices, vec![0, 1, 2]);
}

#[test]
fn selection_moves_within_bounds() {
    let mut b = loaded_browser(&["A", "B", "C"]);
    assert_eq!(b.selected, Some(0));
    b.handle_key(Key::Up);
    assert_eq!(b.selected, Some(0));
    b.handle_key(Key::Char('j'));
    b.handle_key(Key::Down);
    b.handle_key(Key::Down);
    assert_eq!(b.selected, Some(2));
    b.handle_key(Key::Char('g'));
    assert_eq!(b.selected, Some(0));
    b.handle_key(Key::Char('G'));
    assert_eq!(b.selected, Some(2));
    match b.handle_key(Key::Enter) {
        BrowserAction::OpenDetail(slug) => assert_eq!(slug, "c"),
        _ => panic!("expected OpenDetail"),
    }
    assert!(matches!(b.handle_key(Key::Char('q')), BrowserAction::Quit));
    assert!(matches!(b.handle_key(Key::Char('d')), BrowserAction::FilterChanged));
    assert_eq!(b.difficulty_filter, DifficultyFilter::Easy);
}

#[test]
fn search_enter_asks_for_lookup() {
    let mut b = loaded_browser(&["Two Sum"]);
    b.handle_key(Key::Char('/'));
    b.handle_key(Key::Char('x'));
    match b.handle_key(Key::Enter) {
        BrowserAction::SearchFetch(q) => assert_eq!(q, "x"),
        _ => panic!("expected SearchFetch"),
    }
    assert!(!b.search_mode);
}

#[test]
fn page_steps() {
    assert_eq!(PAGE_SIZE, 100);
    assert_eq!(page_step(0, 100, 250), Some(100));
    assert_eq!(page_step(100, 100, 250), Some(200));
    assert_eq!(page_step(200, 50, 250), None);
    assert_eq!(page_step(100, 100, 200), None);
    assert_eq!(page_step(0, 0, 0), None);
}

#[test]
fn paginated_batches_reassemble_in_order() {
    let all: Vec<ProblemSummary> = (1..=250).map(|i| problem(i, &format!("P{i}"))).collect();
    let mut b = BrowserState::new();
    b.start_load(None);
    let mut skip = 0usize;
    loop {
        let end = (skip + PAGE_SIZE).min(all.len());
        let batch: Vec<ProblemSummary> = all[skip..end]
            .iter()
            .map(|p| problem(p.frontend_question_id.parse().unwrap(), &p.title))
            .collect();
        let next = page_step(skip, batch.len(), all.len());
        b.apply_batch(batch, all.len(), next.is_none());
        match next {
            Some(n) => skip = n,
            None => break,
        }
    }
    assert!(!b.loading);
    assert_eq!(b.problems.len(), 250);
    for (i, p) in b.problems.iter().enumerate() {
        assert_eq!(p.frontend_question_id, (i + 1).to_string());
    }
}

#[test]
fn cached_set_is_replaced_when_load_completes() {
    let mut b = BrowserState::new();
    b.start_load(Some(vec![problem(9, "Cached")]));
    assert!(b.showing_cache);
    assert_eq!(b.total_problems, 1);
    b.apply_batch(vec![problem(1, "First")], 2, false);
    assert_eq!(b.problems.len(), 1);
    assert_eq!(b.problems[0].title, "Cached");
    b.apply_batch(vec![problem(2, "Second")], 2, true);
    assert!(!b.showing_cache);
    assert_eq!(b.problems.len(), 2);
    assert_eq!(b.problems[0].title, "First");
    assert_eq!(b.problems[1].title, "Second");
    b.apply_fetch_error("boom".to_string());
    assert_eq!(b.error_message.as_deref(), Some("boom"));
}

#[test]
fn add_key_names_the_selected_problem() {
    let mut b = loaded_browser(&["A", "B"]);
    b.handle_key(Key::Down);
    match b.handle_key(Key::Char('a')) {
        BrowserAction::AddToList(id) => assert_eq!(id, "q2"),
        _ => panic!("expected AddToList"),
    }
}
