//! The text of a freshly scaffolded solution project.

use vstd::prelude::*;
use crate::config::{project_dir, project_dir_name};
use crate::detail::{html_as_text, render_html};
use crate::text::{push_char, same_text};
use crate::types::{CodeSnippet, QuestionDetail};

verus! {

/// The length of the first line of `s`, up to its newline.
pub open spec fn line_len(s: Seq<char>) -> nat
    decreases s.len(),
{
    if s.len() == 0 || s[0] == '\n' {
        0
    } else {
        1 + line_len(s.drop_first())
    }
}

/// A line without its carriage return.
pub open spec fn strip_cr(l: Seq<char>) -> Seq<char> {
    if l.len() > 0 && l.last() == '\r' {
        l.drop_last()
    } else {
        l
    }
}

/// The lines of `s`, as `str::lines` gives them: split at newlines, a final
/// newline ending the last line, and a carriage return dropped where it
/// comes right before a newline (a bare one at the very end stays).
pub open spec fn split_lines(s: Seq<char>) -> Seq<Seq<char>>
    decreases s.len(),
{
    if s.len() == 0 {
        Seq::empty()
    } else {
        let n = line_len(s);
        if n < s.len() {
            seq![strip_cr(s.subrange(0, n as int))] + split_lines(
                s.subrange(n as int + 1, s.len() as int),
            )
        } else {
            seq![s.subrange(0, n as int)]
        }
    }
}

proof fn lemma_line_len_bound(s: Seq<char>)
    ensures
        line_len(s) <= s.len(),
        line_len(s) < s.len() ==> s[line_len(s) as int] == '\n',
        forall|k: int| 0 <= k < line_len(s) ==> s[k] != '\n',
    decreases s.len(),
{
    if s.len() > 0 && s[0] != '\n' {
        lemma_line_len_bound(s.drop_first());
        assert forall|k: int| 0 <= k < line_len(s) implies s[k] != '\n' by {
            if k > 0 {
                assert(s[k] == s.drop_first()[k - 1]);
            }
        }
    }
}

proof fn lemma_line_len_of(s: Seq<char>, n: int)
    requires
        0 <= n <= s.len(),
        n < s.len() ==> s[n] == '\n',
        forall|k: int| 0 <= k < n ==> s[k] != '\n',
    ensures
        line_len(s) == n,
    decreases n,
{
    if n > 0 {
        let t = s.drop_first();
        assert forall|k: int| 0 <= k < n - 1 implies t[k] != '\n' by {
            assert(t[k] == s[k + 1]);
        }
        lemma_line_len_of(t, n - 1);
    }
}

/// The lines of `s`, as `str::lines` gives them.
pub fn lines_of(s: &str) -> (r: Vec<String>)
    ensures
        r@.map_values(|l: String| l@) == split_lines(s@),
{
    let c = crate::text::chars_of(s);
    let n = c.len();
    let mut out: Vec<String> = Vec::new();
    let mut start: usize = 0;
    assert(s@.subrange(0, n as int) =~= s@);
    while start < n
        invariant
            c@ == s@,
            n == s@.len(),
            start <= n,
            out@.map_values(|l: String| l@) + split_lines(s@.subrange(start as int, n as int))
                == split_lines(s@),
        decreases n - start,
    {
        let ghost rest = s@.subrange(start as int, n as int);
        let ghost s0 = start as int;
        let mut line = String::new();
        let mut i: usize = start;
        while i < n && c[i] != '\n'
            invariant
                c@ == s@,
                n == s@.len(),
                start <= i <= n,
                line@ == s@.subrange(start as int, i as int),
                forall|k: int| start <= k < i ==> s@[k] != '\n',
            decreases n - i,
        {
            push_char(&mut line, c[i]);
            i = i + 1;
            assert(line@ =~= s@.subrange(start as int, i as int));
        }
        proof {
            assert forall|k: int| 0 <= k < i - start implies rest[k] != '\n' by {
                assert(rest[k] == s@[start + k]);
            }
            if i < n {
                assert(rest[i - start] == s@[i as int]);
            }
            lemma_line_len_of(rest, i - start);
            assert(rest.subrange(0, i - start) =~= line@);
        }
        let len = line.as_str().unicode_len();
        if i < n && len > 0 && line.as_str().get_char(len - 1) == '\r' {
            line = String::from_str(line.as_str().substring_char(0, len - 1));
            assert(line@ =~= strip_cr(rest.subrange(0, i - start)));
        }
        let ghost before = out@.map_values(|l: String| l@);
        out.push(line);
        assert(out@.map_values(|l: String| l@) =~= before.push(
            if i < n {
                strip_cr(rest.subrange(0, i - start))
            } else {
                rest.subrange(0, i - start)
            },
        ));
        if i < n {
            assert(rest.subrange(i - start + 1, rest.len() as int) =~= s@.subrange(i + 1, n as int));
            start = i + 1;
            assert(before.push(strip_cr(rest.subrange(0, i - s0))) + split_lines(
                s@.subrange(start as int, n as int),
            ) =~= before + split_lines(rest));
        } else {
            assert(before.push(rest.subrange(0, i - start)) =~= before + split_lines(rest));
            start = n;
            assert(split_lines(s@.subrange(start as int, n as int)) =~= Seq::<Seq<char>>::empty());
            assert(out@.map_values(|l: String| l@) + split_lines(s@.subrange(start as int, n as int))
                =~= out@.map_values(|l: String| l@));
        }
    }
    assert(split_lines(s@.subrange(n as int, n as int)) =~= Seq::<Seq<char>>::empty());
    assert(out@.map_values(|l: String| l@) + Seq::<Seq<char>>::empty() =~= out@.map_values(
        |l: String| l@,
    ));
    out
}

/// The width the statement is wrapped to in the description comment.
pub const DESCRIPTION_WIDTH: usize = 80;

/// At most this many lines of the statement go into the comment.
pub const DESCRIPTION_LINES: usize = 50;

/// The file the solution is written in, inside the project directory.
pub const SOURCE_FILE: &'static str = "src/main.rs";

/// Each line as a `// ` comment.
pub open spec fn comment_lines(lines: Seq<Seq<char>>) -> Seq<char>
    decreases lines.len(),
{
    if lines.len() == 0 {
        Seq::empty()
    } else {
        comment_lines(lines.drop_last()) + "// "@ + lines.last() + "\n"@
    }
}

/// The statement as text, or nothing where there is none or it cannot be
/// rendered.
pub open spec fn description_text(d: QuestionDetail) -> Seq<char> {
    match d.content {
        Some(h) => match html_as_text(h@, DESCRIPTION_WIDTH as nat) {
            Some(t) => t,
            None => Seq::empty(),
        },
        None => Seq::empty(),
    }
}

/// The first lines of the statement, as comments.
pub open spec fn description_comment(d: QuestionDetail) -> Seq<char> {
    let lines = split_lines(description_text(d));
    comment_lines(
        if lines.len() > DESCRIPTION_LINES {
            lines.subrange(0, DESCRIPTION_LINES as int)
        } else {
            lines
        },
    )
}

/// The code of the first Rust snippet, if any.
pub open spec fn first_rust_snippet(s: Seq<CodeSnippet>) -> Option<Seq<char>>
    decreases s.len(),
{
    if s.len() == 0 {
        None
    } else if s[0].lang_slug@ == "rust"@ {
        Some(s[0].code@)
    } else {
        first_rust_snippet(s.drop_first())
    }
}

/// The starter code placed in the file.
pub open spec fn starter_code(d: QuestionDetail) -> Seq<char> {
    let found = match d.code_snippets {
        Some(v) => first_rust_snippet(v@),
        None => None,
    };
    match found {
        Some(c) => c,
        None => "// No Rust snippet available for this problem\n"@,
    }
}

/// The comment block that opens the file.
pub open spec fn header(d: QuestionDetail) -> Seq<char> {
    "// "@ + d.frontend_question_id@ + ": "@ + d.title@ + "\n// Difficulty: "@ + d.difficulty@
        + "\n// https://leetcode.com/problems/"@ + d.title_slug@ + "/\n//\n"@
}

/// The local entry point and test module that close the file.
pub open spec fn trailer() -> Seq<char> {
    "\nfn main() {\n    println!(\"Run with: cargo test\");\n}\n"@ + "\n#[cfg(test)]\nmod tests {\n    use super::*;\n\n"@
        + "    #[test]\n    fn test_solution() {\n        // add test cases here\n    }\n}\n"@
}

/// The whole source file of a new project.
pub open spec fn scaffold_source(d: QuestionDetail) -> Seq<char> {
    header(d) + (if d.content is Some {
        description_comment(d)
    } else {
        Seq::empty()
    }) + "\n"@ + starter_code(d) + "\n"@ + trailer()
}

/// What to create for a problem: the project directory, the package name
/// (a letter first, as package names need) and the source file's text.
pub struct ScaffoldPlan {
    pub dir_name: String,
    pub package_name: String,
    pub source_file: String,
    pub source: String,
}

/// Why a project could not be scaffolded.
pub enum ScaffoldError {
    UnsupportedLanguage(String),
}

fn find_rust_snippet(v: &Vec<CodeSnippet>) -> (r: Option<&String>)
    ensures
        r matches Some(c) ==> first_rust_snippet(v@) == Some(c@),
        r is None ==> first_rust_snippet(v@) is None,
{
    let mut i: usize = 0;
    assert(v@.subrange(0, v@.len() as int) =~= v@);
    while i < v.len()
        invariant
            i <= v@.len(),
            first_rust_snippet(v@) == first_rust_snippet(v@.subrange(i as int, v@.len() as int)),
        decreases v.len() - i,
    {
        let ghost rest = v@.subrange(i as int, v@.len() as int);
        assert(rest.drop_first() =~= v@.subrange(i + 1, v@.len() as int));
        if same_text(v[i].lang_slug.as_str(), "rust") {
            return Some(&v[i].code);
        }
        i = i + 1;
    }
    None
}

fn append_comment_lines(out: &mut String, lines: &Vec<String>, count: usize)
    requires
        count <= lines@.len(),
    ensures
        final(out)@ == old(out)@ + comment_lines(
            lines@.map_values(|l: String| l@).subrange(0, count as int),
        ),
{
    let ghost all = lines@.map_values(|l: String| l@);
    let mut i: usize = 0;
    assert(all.subrange(0, 0) =~= Seq::<Seq<char>>::empty());
    while i < count
        invariant
            count <= lines@.len(),
            all == lines@.map_values(|l: String| l@),
            i <= count,
            out@ == old(out)@ + comment_lines(all.subrange(0, i as int)),
        decreases count - i,
    {
        assert(all.subrange(0, i + 1).drop_last() =~= all.subrange(0, i as int));
        out.append("// ");
        out.append(lines[i].as_str());
        out.append("\n");
        i = i + 1;
    }
}

/// The project to create for a problem in the given language; only Rust
/// projects can be scaffolded.
pub fn scaffold_problem(detail: &QuestionDetail, language: &str) -> (r: Result<
    ScaffoldPlan,
    ScaffoldError,
>)
    ensures
        language@ != "rust"@ ==> (r matches Err(ScaffoldError::UnsupportedLanguage(l)) && l@
            == language@),
        language@ == "rust"@ ==> (r matches Ok(p) && p.dir_name@ == project_dir_name(*detail)
            && p.package_name@ == seq!['p'] + project_dir_name(*detail) && p.source_file@
            == SOURCE_FILE@ && p.source@ == scaffold_source(*detail)),
{
    if !same_text(language, "rust") {
        return Err(ScaffoldError::UnsupportedLanguage(String::from_str(language)));
    }
    let dir_name = project_dir(detail);
    let mut package_name = String::new();
    push_char(&mut package_name, 'p');
    package_name.append(dir_name.as_str());
    let mut src = String::new();
    src.append("// ");
    src.append(detail.frontend_question_id.as_str());
    src.append(": ");
    src.append(detail.title.as_str());
    src.append("\n// Difficulty: ");
    src.append(detail.difficulty.as_str());
    src.append("\n// https://leetcode.com/problems/");
    src.append(detail.title_slug.as_str());
    src.append("/\n//\n");
    assert(src@ == header(*detail));
    match &detail.content {
        Some(html) => {
            let text = match render_html(html.as_str(), DESCRIPTION_WIDTH) {
                Some(t) => t,
                None => String::new(),
            };
            let lines = lines_of(text.as_str());
            let count = if lines.len() > DESCRIPTION_LINES {
                DESCRIPTION_LINES
            } else {
                lines.len()
            };
            append_comment_lines(&mut src, &lines, count);
            proof {
                let all = lines@.map_values(|l: String| l@);
                if count == lines@.len() {
                    assert(all.subrange(0, count as int) =~= all);
                }
            }
        },
        None => {},
    }
    src.append("\n");
    let snippet = match &detail.code_snippets {
        Some(v) => find_rust_snippet(v),
        None => None,
    };
    match snippet {
        Some(code) => src.append(code.as_str()),
        None => src.append("// No Rust snippet available for this problem\n"),
    }
    src.append("\n");
    src.append("\nfn main() {\n    println!(\"Run with: cargo test\");\n}\n");
    src.append("\n#[cfg(test)]\nmod tests {\n    use super::*;\n\n");
    src.append("    #[test]\n    fn test_solution() {\n        // add test cases here\n    }\n}\n");
    Ok(
        ScaffoldPlan {
            dir_name,
            package_name,
            source_file: String::from_str(SOURCE_FILE),
            source: src,
        },
    )
}

} // verus!
