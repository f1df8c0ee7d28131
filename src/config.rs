//! User settings, the supported solution languages, and the paths derived
//! from them.

use vstd::prelude::*;
use crate::text::{push_char, same_text};
use crate::types::QuestionDetail;

verus! {

/// The user's settings, with the two session tokens whose joint presence
/// makes the user authenticated.
pub struct Config {
    pub workspace_dir: String,
    pub language: String,
    pub editor: String,
    pub leetcode_session: Option<String>,
    pub csrf_token: Option<String>,
}

/// `name` under directory `dir`, with one separator between them.
pub open spec fn join_path(dir: Seq<char>, name: Seq<char>) -> Seq<char> {
    if dir.len() == 0 || dir.last() == '/' {
        dir + name
    } else {
        dir + seq!['/'] + name
    }
}

/// `name` under directory `dir`, with one separator between them.
pub fn join_path_str(dir: &str, name: &str) -> (r: String)
    ensures
        r@ == join_path(dir@, name@),
{
    let mut r = String::from_str(dir);
    let n = dir.unicode_len();
    if n > 0 && dir.get_char(n - 1) != '/' {
        push_char(&mut r, '/');
    }
    r.append(name);
    r
}

/// The directory part of a workspace setting: what follows `~/`, where it
/// starts with `~`.
pub open spec fn home_relative(dir: Seq<char>) -> Seq<char> {
    if dir.len() >= 2 && dir[1] == '/' {
        dir.subrange(2, dir.len() as int)
    } else {
        Seq::empty()
    }
}

/// A workspace setting with a leading `~` read as the home directory.
pub open spec fn expanded(dir: Seq<char>, home: Seq<char>) -> Seq<char> {
    if dir.len() > 0 && dir[0] == '~' {
        join_path(home, home_relative(dir))
    } else {
        dir
    }
}

impl Config {
    /// Both session tokens are present.
    pub open spec fn authenticated(&self) -> bool {
        self.leetcode_session is Some && self.csrf_token is Some
    }

    /// Whether both session tokens are present.
    pub fn is_authenticated(&self) -> (r: bool)
        ensures
            r == self.authenticated(),
    {
        self.leetcode_session.is_some() && self.csrf_token.is_some()
    }

    /// The settings directory under the home directory `home`.
    pub fn config_dir(home: &str) -> (r: String)
        ensures
            r@ == join_path(home@, ".leetcode-cli"@),
    {
        join_path_str(home, ".leetcode-cli")
    }

    /// The settings file in the settings directory `dir`.
    pub fn config_path(dir: &str) -> (r: String)
        ensures
            r@ == join_path(dir@, "config.toml"@),
    {
        join_path_str(dir, "config.toml")
    }

    /// The problem-list cache file in the settings directory `dir`.
    pub fn cache_path(dir: &str) -> (r: String)
        ensures
            r@ == join_path(dir@, "problems.json"@),
    {
        join_path_str(dir, "problems.json")
    }

    /// The workspace directory with a leading `~` read as `home`.
    pub fn expanded_workspace(&self, home: &str) -> (r: String)
        ensures
            r@ == expanded(self.workspace_dir@, home@),
    {
        let w = self.workspace_dir.as_str();
        let n = w.unicode_len();
        if n > 0 && w.get_char(0) == '~' {
            if n >= 2 && w.get_char(1) == '/' {
                join_path_str(home, w.substring_char(2, n))
            } else {
                proof {
                    reveal_strlit("");
                }
                join_path_str(home, "")
            }
        } else {
            String::from_str(w)
        }
    }
}

/// A language solutions can be written in.
#[derive(Clone, Copy, Debug, PartialEq, Eq, Structural)]
pub enum Language {
    Rust,
    Python3,
    Cpp,
    Java,
    JavaScript,
    TypeScript,
    Go,
}

/// The language a settings name stands for, if any.
pub open spec fn language_named(name: Seq<char>) -> Option<Language> {
    if name == "rust"@ {
        Some(Language::Rust)
    } else if name == "python3"@ || name == "python"@ {
        Some(Language::Python3)
    } else if name == "cpp"@ || name == "c++"@ {
        Some(Language::Cpp)
    } else if name == "java"@ {
        Some(Language::Java)
    } else if name == "javascript"@ {
        Some(Language::JavaScript)
    } else if name == "typescript"@ {
        Some(Language::TypeScript)
    } else if name == "go"@ || name == "golang"@ {
        Some(Language::Go)
    } else {
        None
    }
}

/// The language a settings name stands for; an unknown name gives none.
pub fn language_from_name(name: &str) -> (r: Option<Language>)
    ensures
        r == language_named(name@),
{
    if same_text(name, "rust") {
        Some(Language::Rust)
    } else if same_text(name, "python3") || same_text(name, "python") {
        Some(Language::Python3)
    } else if same_text(name, "cpp") || same_text(name, "c++") {
        Some(Language::Cpp)
    } else if same_text(name, "java") {
        Some(Language::Java)
    } else if same_text(name, "javascript") {
        Some(Language::JavaScript)
    } else if same_text(name, "typescript") {
        Some(Language::TypeScript)
    } else if same_text(name, "go") || same_text(name, "golang") {
        Some(Language::Go)
    } else {
        None
    }
}

impl Language {
    pub open spec fn slug_spec(self) -> Seq<char> {
        match self {
            Language::Rust => "rust"@,
            Language::Python3 => "python3"@,
            Language::Cpp => "cpp"@,
            Language::Java => "java"@,
            Language::JavaScript => "javascript"@,
            Language::TypeScript => "typescript"@,
            Language::Go => "golang"@,
        }
    }

    pub open spec fn solution_file_spec(self) -> Seq<char> {
        match self {
            Language::Rust => "src/main.rs"@,
            Language::Python3 => "solution.py"@,
            Language::Cpp => "solution.cpp"@,
            Language::Java => "Solution.java"@,
            Language::JavaScript => "solution.js"@,
            Language::TypeScript => "solution.ts"@,
            Language::Go => "solution.go"@,
        }
    }

    /// The name the judge service knows the language by.
    pub fn lang_slug(&self) -> (r: &'static str)
        ensures
            r@ == self.slug_spec(),
    {
        match self {
            Language::Rust => "rust",
            Language::Python3 => "python3",
            Language::Cpp => "cpp",
            Language::Java => "java",
            Language::JavaScript => "javascript",
            Language::TypeScript => "typescript",
            Language::Go => "golang",
        }
    }

    /// The solution file's path inside a problem's project directory.
    pub fn solution_file(&self) -> (r: &'static str)
        ensures
            r@ == self.solution_file_spec(),
    {
        match self {
            Language::Rust => "src/main.rs",
            Language::Python3 => "solution.py",
            Language::Cpp => "solution.cpp",
            Language::Java => "Solution.java",
            Language::JavaScript => "solution.js",
            Language::TypeScript => "solution.ts",
            Language::Go => "solution.go",
        }
    }
}

/// A problem's project directory name: `{number}-{slug}`.
pub open spec fn project_dir_name(d: QuestionDetail) -> Seq<char> {
    d.frontend_question_id@ + seq!['-'] + d.title_slug@
}

/// A problem's project directory name: `{number}-{slug}`.
pub fn project_dir(detail: &QuestionDetail) -> (r: String)
    ensures
        r@ == project_dir_name(*detail),
{
    let mut r = detail.frontend_question_id.clone();
    push_char(&mut r, '-');
    r.append(detail.title_slug.as_str());
    r
}

/// The solution file of a problem under the workspace directory.
pub fn solution_path(workspace: &str, detail: &QuestionDetail, language: Language) -> (r: String)
    ensures
        r@ == join_path(join_path(workspace@, project_dir_name(*detail)), language.solution_file_spec()),
{
    let dir = join_path_str(workspace, project_dir(detail).as_str());
    join_path_str(dir.as_str(), language.solution_file())
}

} // verus!
