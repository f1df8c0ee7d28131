//! Records exchanged with the judge service.

use vstd::prelude::*;

verus! {

/// The `data` envelope of a GraphQL answer.
pub struct GraphQLResponse<T> {
    pub data: Option<T>,
}

/// A topic label of a problem.
pub struct TopicTag {
    pub name: String,
    pub slug: String,
}

/// One row of the problem list; `slug` is its natural key.
pub struct ProblemSummary {
    /// The service's internal id, which list operations take.
    pub question_id: String,
    pub frontend_question_id: String,
    pub title: String,
    pub title_slug: String,
    pub difficulty: String,
    /// Acceptance rate in hundredths of a percent (`5012` is 50.12%).
    pub ac_rate_centi: u32,
    pub is_paid_only: bool,
    pub topic_tags: Vec<TopicTag>,
}

/// Starter code of a problem in one language.
pub struct CodeSnippet {
    pub lang: String,
    pub lang_slug: String,
    pub code: String,
}

/// The full record of a problem, fetched on demand by slug. Premium problems
/// may come without `content`.
pub struct QuestionDetail {
    pub question_id: String,
    pub frontend_question_id: String,
    pub title: String,
    pub title_slug: String,
    pub difficulty: String,
    pub content: Option<String>,
    pub is_paid_only: bool,
    pub topic_tags: Vec<TopicTag>,
    pub code_snippets: Option<Vec<CodeSnippet>>,
    pub hints: Vec<String>,
    pub example_testcase_list: Option<Vec<String>>,
    pub sample_test_case: Option<String>,
}

/// The `question` field of a detail answer.
pub struct QuestionDetailData {
    pub question: Option<QuestionDetail>,
}

/// A problem on a favorite list.
pub struct ListQuestion {
    pub question_id: String,
    pub title: String,
    pub title_slug: String,
}

/// A favorite list of the user: its id, name and member problems.
pub struct FavoriteList {
    pub id_hash: String,
    pub name: String,
    pub questions: Vec<ListQuestion>,
}

} // verus!
