use leetcode_cli::extract::{extract_from_units, extract_rust_solution, SyntaxUnit};

const SCAFFOLDED: &str = "// 1: Two Sum
// Difficulty: Easy
//

struct Solution;

impl Solution {
    pub fn two_sum(nums: Vec<i32>, target: i32) -> Vec<i32> {
        vec![]
    }
}

fn main() {
    println!(\"Run with: cargo test\");
}

#[cfg(test)]
mod tests {
    use super::*;
}
";

#[test]
fn extraction_drops_scaffolding() {
    let out = extract_rust_solution(SCAFFOLDED);
    assert_eq!(
        out,
        "impl Solution {\n    pub fn two_sum(nums: Vec<i32>, target: i32) -> Vec<i32> {\n        vec![]\n    }\n}"
    );
}

#[test]
fn extraction_keeps_solution_struct_with_fields() {
    let src = "struct Solution {\n    x: i32,\n}\n\nfn helper() {}";
    assert_eq!(extract_rust_solution(src), src);
}

#[test]
fn extraction_is_idempotent() {
    let once = extract_rust_solution(SCAFFOLDED);
    let twice = extract_rust_solution(&once);
    assert_eq!(once, twice);
}

#[test]
fn extraction_leaves_unmarked_file_unchanged() {
    let src = "use std::collections::HashMap;\n\nfn a() -> i32 {\n    1\n}\n\nfn b() {}";
    assert_eq!(extract_rust_solution(src), src);
}

#[test]
fn extraction_falls_back_when_nothing_remains() {
    let src = "// only a comment\n// and another\n";
    assert_eq!(extract_rust_solution(src), src);
    assert_eq!(extract_rust_solution(""), "");
}

#[test]
fn extraction_drops_test_attribute_with_next_item_only() {
    let src = "fn keep() {}\n\n#[cfg(test)]\nfn dropped() {}\n\nfn also_kept() {}";
    assert_eq!(extract_rust_solution(src), "fn keep() {}\n\nfn also_kept() {}");
}

fn unit(kind: &str, text: &str, name: Option<&str>) -> SyntaxUnit {
    SyntaxUnit {
        kind: kind.to_string(),
        text: text.to_string(),
        name: name.map(|n| n.to_string()),
        body_kinds: None,
    }
}

#[test]
fn extraction_over_given_units() {
    let units = vec![
        unit("line_comment", "// description", None),
        unit("struct_item", "struct Solution;", Some("Solution")),
        unit("function_item", "fn solve() {}", Some("solve")),
        unit("line_comment", "// a note", None),
        unit("function_item", "fn main() {}", Some("main")),
        unit("attribute_item", "#[cfg(test)]", None),
        unit("mod_item", "mod tests {}", Some("tests")),
    ];
    assert_eq!(extract_from_units("original", &units), "fn solve() {}\n\n// a note");
    let only_scaffolding = vec![
        unit("line_comment", "// description", None),
        unit("struct_item", "struct Solution;", Some("Solution")),
    ];
    assert_eq!(extract_from_units("original", &only_scaffolding), "original");
}

#[test]
fn struct_with_declared_fields_is_kept() {
    let mut s = unit("struct_item", "struct Solution { v: i32 }", Some("Solution"));
    s.body_kinds = Some(vec!["{".to_string(), "field_declaration".to_string(), "}".to_string()]);
    let units = vec![s];
    assert_eq!(extract_from_units("x", &units), "struct Solution { v: i32 }");
}
