//! Extraction of the submittable part of a Rust solution file.
//!
//! The file is parsed into its top-level syntax units; locally generated
//! scaffolding (the leading description comments, an empty `Solution`
//! struct, `fn main`, and a test-only attribute with the item after it) is
//! dropped, and the remaining units are joined with blank lines.

use vstd::prelude::*;
use crate::text::{
    contains_str, has_substring, join_with, push_char, same_text, trim, trim_text,
};

verus! {

/// One top-level node of a parsed source file.
pub struct SyntaxUnit {
    /// The grammar's name for the node kind (`line_comment`, `struct_item`, ...).
    pub kind: String,
    /// The node's source text.
    pub text: String,
    /// The text of the node's `name` field, where it has one.
    pub name: Option<String>,
    /// The kinds of the children of the node's `body` field, where it has one.
    pub body_kinds: Option<Vec<String>>,
}

/// What the Rust grammar makes of a file: its top-level nodes in source
/// order, or nothing where the parser could not be set up or gave no tree.
pub uninterp spec fn rust_top_level_units(text: Seq<char>) -> Option<Seq<SyntaxUnit>>;

/// Relies on tree-sitter: `Parser::new`, `Parser::set_language` with
/// `tree_sitter_rust::LANGUAGE` and `Parser::parse` give the tree of
/// `content`, with no earlier tree; `Node::children`, `Node::kind`,
/// `Node::byte_range` and `Node::child_by_field_name` read off each child of
/// the root. The parser decodes whole UTF-8 characters, so node ranges fall
/// on character boundaries of `content`.
#[verifier::external_body]
fn parse_rust_units(content: &str) -> (r: Option<Vec<SyntaxUnit>>)
    requires
        content@.len() <= MAX_PARSED_CHARS,
    ensures
        r matches Some(v) ==> rust_top_level_units(content@) == Some(v@),
        r is None ==> rust_top_level_units(content@) is None,
{
    let mut parser = tree_sitter::Parser::new();
    parser.set_language(&tree_sitter_rust::LANGUAGE.into()).ok()?;
    let tree = parser.parse(content, None)?;
    let root = tree.root_node();
    let text = |n: tree_sitter::Node| content[n.byte_range()].to_string();
    let kinds = |b: tree_sitter::Node| b.children(&mut b.walk()).map(|x| x.kind().to_string()).collect();
    let units = root.children(&mut root.walk()).map(|n| SyntaxUnit {
        kind: n.kind().to_string(),
        text: text(n),
        name: n.child_by_field_name("name").map(text),
        body_kinds: n.child_by_field_name("body").map(kinds),
    }).collect();
    Some(units)
}

pub open spec fn is_comment(u: SyntaxUnit) -> bool {
    u.kind@ == "line_comment"@
}

/// The unit's body declares at least one data member.
pub open spec fn declares_fields(u: SyntaxUnit) -> bool {
    u.body_kinds is Some && exists|i: int|
        0 <= i < u.body_kinds->0.len() && (#[trigger] u.body_kinds->0[i])@ == "field_declaration"@
}

/// An empty `Solution` struct, kept only to satisfy local tooling.
pub open spec fn is_solution_shim(u: SyntaxUnit) -> bool {
    u.kind@ == "struct_item"@ && u.name is Some && u.name->0@ == "Solution"@ && !declares_fields(u)
}

/// The local entry point `fn main`.
pub open spec fn is_entry_point(u: SyntaxUnit) -> bool {
    u.kind@ == "function_item"@ && u.name is Some && u.name->0@ == "main"@
}

/// An attribute that marks the next item as test-only.
pub open spec fn is_test_attribute(u: SyntaxUnit) -> bool {
    u.kind@ == "attribute_item"@ && has_substring(u.text@, "cfg"@) && has_substring(
        u.text@,
        "test"@,
    )
}

/// The units that survive the filter, from a state where `leading` tells
/// whether no non-comment unit was seen yet and `skip` whether the unit at
/// hand follows a test-only attribute.
pub open spec fn kept_units(units: Seq<SyntaxUnit>, leading: bool, skip: bool) -> Seq<SyntaxUnit>
    decreases units.len(),
{
    if units.len() == 0 {
        Seq::empty()
    } else {
        let u = units[0];
        let rest = units.drop_first();
        if skip {
            kept_units(rest, leading, false)
        } else if leading && is_comment(u) {
            kept_units(rest, true, false)
        } else if is_solution_shim(u) || is_entry_point(u) {
            kept_units(rest, false, false)
        } else if is_test_attribute(u) {
            kept_units(rest, false, true)
        } else {
            seq![u] + kept_units(rest, false, false)
        }
    }
}

pub open spec fn texts(units: Seq<SyntaxUnit>) -> Seq<Seq<char>> {
    units.map_values(|u: SyntaxUnit| u.text@)
}

pub open spec fn separator() -> Seq<char> {
    seq!['\n', '\n']
}

/// The submittable text of `content` given its top-level units: the kept
/// units joined by blank lines and trimmed, or `content` itself where that
/// comes out empty.
pub open spec fn extraction(content: Seq<char>, units: Seq<SyntaxUnit>) -> Seq<char> {
    let t = trim(join_with(texts(kept_units(units, true, false)), separator()));
    if t.len() == 0 {
        content
    } else {
        t
    }
}

/// The longest file handed to the parser, in characters: at four bytes a
/// character at most, its byte offsets fit in `u32`.
pub const MAX_PARSED_CHARS: usize = 0x3fff_ffff;

/// What extraction gives for a file, parsed with the Rust grammar; a file
/// that cannot be parsed, or is too long to parse, is returned as it is.
pub open spec fn rust_extraction(content: Seq<char>) -> Seq<char> {
    if content.len() > MAX_PARSED_CHARS {
        content
    } else {
        match rust_top_level_units(content) {
            Some(units) => extraction(content, units),
            None => content,
        }
    }
}

fn unit_is_comment(u: &SyntaxUnit) -> (r: bool)
    ensures
        r == is_comment(*u),
{
    same_text(u.kind.as_str(), "line_comment")
}

fn unit_declares_fields(u: &SyntaxUnit) -> (r: bool)
    ensures
        r == declares_fields(*u),
{
    match &u.body_kinds {
        Some(v) => {
            let mut i: usize = 0;
            while i < v.len()
                invariant
                    u.body_kinds == Some(*v),
                    i <= v.len(),
                    forall|k: int| 0 <= k < i ==> v[k]@ != "field_declaration"@,
                decreases v.len() - i,
            {
                if same_text(v[i].as_str(), "field_declaration") {
                    assert(u.body_kinds->0[i as int]@ == "field_declaration"@);
                    return true;
                }
                i = i + 1;
            }
            false
        },
        None => false,
    }
}

fn name_is(u: &SyntaxUnit, name: &str) -> (r: bool)
    ensures
        r == (u.name is Some && u.name->0@ == name@),
{
    match &u.name {
        Some(n) => same_text(n.as_str(), name),
        None => false,
    }
}

fn unit_is_scaffold(u: &SyntaxUnit) -> (r: bool)
    ensures
        r == (is_solution_shim(*u) || is_entry_point(*u)),
{
    let k = u.kind.as_str();
    (same_text(k, "struct_item") && name_is(u, "Solution") && !unit_declares_fields(u)) || (
    same_text(k, "function_item") && name_is(u, "main"))
}

fn unit_is_test_attribute(u: &SyntaxUnit) -> (r: bool)
    ensures
        r == is_test_attribute(*u),
{
    same_text(u.kind.as_str(), "attribute_item") && contains_str(u.text.as_str(), "cfg")
        && contains_str(u.text.as_str(), "test")
}

proof fn lemma_join_push(parts: Seq<Seq<char>>, x: Seq<char>, sep: Seq<char>)
    requires
        parts.len() > 0,
    ensures
        join_with(parts.push(x), sep) == join_with(parts, sep) + sep + x,
{
    assert(parts.push(x).drop_last() =~= parts);
}

proof fn lemma_texts_push(units: Seq<SyntaxUnit>, u: SyntaxUnit)
    ensures
        texts(units.push(u)) == texts(units).push(u.text@),
{
    assert(texts(units.push(u)) =~= texts(units).push(u.text@));
}

/// The submittable text of `content`, given the top-level units that
/// parsing it produced.
pub fn extract_from_units(content: &str, units: &Vec<SyntaxUnit>) -> (r: String)
    ensures
        r@ == extraction(content@, units@),
{
    let n = units.len();
    let mut out = String::new();
    let mut leading = true;
    let mut skip = false;
    let mut any_kept = false;
    let ghost mut kept: Seq<SyntaxUnit> = Seq::empty();
    let mut i: usize = 0;
    assert(units@.subrange(0, n as int) =~= units@);
    while i < n
        invariant
            n == units@.len(),
            i <= n,
            kept_units(units@, true, false) == kept + kept_units(
                units@.subrange(i as int, n as int),
                leading,
                skip,
            ),
            out@ == join_with(texts(kept), separator()),
            any_kept == (kept.len() > 0),
        decreases n - i,
    {
        let ghost tail = units@.subrange(i as int, n as int);
        assert(tail.drop_first() =~= units@.subrange(i + 1, n as int));
        let u = &units[i];
        if skip {
            skip = false;
        } else if leading && unit_is_comment(u) {
        } else if unit_is_scaffold(u) {
            leading = false;
        } else if unit_is_test_attribute(u) {
            leading = false;
            skip = true;
        } else {
            leading = false;
            proof {
                lemma_texts_push(kept, *u);
                if kept.len() > 0 {
                    lemma_join_push(texts(kept), u.text@, separator());
                } else {
                    assert(texts(kept.push(*u)) =~= seq![u.text@]);
                }
            }
            if any_kept {
                push_char(&mut out, '\n');
                push_char(&mut out, '\n');
            }
            out.append(u.text.as_str());
            any_kept = true;
            proof {
                assert(kept + (seq![*u] + kept_units(units@.subrange(i + 1, n as int), false, false))
                    =~= kept.push(*u) + kept_units(units@.subrange(i + 1, n as int), false, false));
                kept = kept.push(*u);
            }
        }
        i = i + 1;
    }
    assert(kept + Seq::<SyntaxUnit>::empty() =~= kept);
    let t = trim_text(out.as_str());
    if t.unicode_len() == 0 {
        String::from_str(content)
    } else {
        t
    }
}

/// The submittable text of a Rust solution file. Where the file cannot be
/// parsed, is too long to parse, or nothing would remain, the file is
/// returned unchanged.
pub fn extract_rust_solution(content: &str) -> (r: String)
    ensures
        r@ == rust_extraction(content@),
{
    if content.unicode_len() > MAX_PARSED_CHARS {
        return String::from_str(content);
    }
    match parse_rust_units(content) {
        Some(units) => extract_from_units(content, &units),
        None => String::from_str(content),
    }
}

/// A unit that extraction drops wherever it stands.
pub open spec fn is_marker(u: SyntaxUnit) -> bool {
    is_solution_shim(u) || is_entry_point(u) || is_test_attribute(u)
}

proof fn lemma_kept_have_no_markers(units: Seq<SyntaxUnit>, leading: bool, skip: bool)
    ensures
        forall|k: int|
            0 <= k < kept_units(units, leading, skip).len() ==> !is_marker(
                #[trigger] kept_units(units, leading, skip)[k],
            ),
    decreases units.len(),
{
    if units.len() > 0 {
        let u = units[0];
        let rest = units.drop_first();
        let all = kept_units(units, leading, skip);
        if skip {
            lemma_kept_have_no_markers(rest, leading, false);
            assert(all == kept_units(rest, leading, false));
        } else if leading && is_comment(u) {
            lemma_kept_have_no_markers(rest, true, false);
            assert(all == kept_units(rest, true, false));
        } else if is_solution_shim(u) || is_entry_point(u) {
            lemma_kept_have_no_markers(rest, false, false);
            assert(all == kept_units(rest, false, false));
        } else if is_test_attribute(u) {
            lemma_kept_have_no_markers(rest, false, true);
            assert(all == kept_units(rest, false, true));
        } else {
            lemma_kept_have_no_markers(rest, false, false);
            let tail = kept_units(rest, false, false);
            assert(all == seq![u] + tail);
            assert forall|k: int| 0 <= k < all.len() implies !is_marker(#[trigger] all[k]) by {
                if k > 0 {
                    assert(all[k] == tail[k - 1]);
                }
            }
        }
    }
}

proof fn lemma_kept_fixed(units: Seq<SyntaxUnit>, leading: bool)
    requires
        forall|k: int| 0 <= k < units.len() ==> !is_marker(#[trigger] units[k]),
        leading ==> (units.len() == 0 || !is_comment(units[0])),
    ensures
        kept_units(units, leading, false) == units,
    decreases units.len(),
{
    if units.len() > 0 {
        let rest = units.drop_first();
        assert forall|k: int| 0 <= k < rest.len() implies !is_marker(#[trigger] rest[k]) by {
            assert(rest[k] == units[k + 1]);
        }
        lemma_kept_fixed(rest, false);
        assert(!is_marker(units[0]));
        assert(seq![units[0]] + rest =~= units);
    }
}

/// Extraction is idempotent: run on its own output it gives that output
/// again. This holds where parsing the output yields the units that were
/// kept (or, where the file came back unchanged, the same units), and where
/// the first kept unit is not a comment.
pub proof fn lemma_extraction_idempotent(
    content: Seq<char>,
    units: Seq<SyntaxUnit>,
    reparsed: Seq<SyntaxUnit>,
)
    requires
        kept_units(units, true, false).len() == 0 || !is_comment(kept_units(units, true, false)[0]),
        reparsed == (if trim(join_with(texts(kept_units(units, true, false)), separator())).len()
            == 0 {
            units
        } else {
            kept_units(units, true, false)
        }),
    ensures
        extraction(extraction(content, units), reparsed) == extraction(content, units),
{
    let kept = kept_units(units, true, false);
    lemma_kept_have_no_markers(units, true, false);
    lemma_kept_fixed(kept, true);
}

/// A file with none of the scaffolding markers (no leading comment, no empty
/// `Solution` struct, no `fn main`, no test-only attribute) comes back
/// unchanged, where its units joined by blank lines make up the file.
pub proof fn lemma_unmarked_file_unchanged(content: Seq<char>, units: Seq<SyntaxUnit>)
    requires
        units.len() == 0 || !is_comment(units[0]),
        forall|k: int| 0 <= k < units.len() ==> !is_marker(#[trigger] units[k]),
        trim(join_with(texts(units), separator())) == content,
    ensures
        extraction(content, units) == content,
{
    lemma_kept_fixed(units, true);
}

} // verus!
