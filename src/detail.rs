//! The problem detail screen: the statement as text, and scrolling.

use vstd::prelude::*;
use crate::keys::Key;
use crate::types::QuestionDetail;

verus! {

/// The plain-text rendering of an HTML fragment wrapped to `width`
/// columns, or nothing where it cannot be rendered.
pub uninterp spec fn html_as_text(html: Seq<char>, width: nat) -> Option<Seq<char>>;

/// Relies on `html2text::from_read`: renders HTML as text wrapped to
/// `width` columns; its error becomes `None`.
#[verifier::external_body]
pub(crate) fn render_html(html: &str, width: usize) -> (r: Option<String>)
    ensures
        r matches Some(t) ==> html_as_text(html@, width as nat) == Some(t@),
        r is None ==> html_as_text(html@, width as nat) is None,
{
    html2text::from_read(html.as_bytes(), width).ok()
}

/// The width the statement is wrapped to.
pub const STATEMENT_WIDTH: usize = 100;

/// The text shown for a problem: a notice for premium content that came
/// without a statement, else the rendered statement, else a notice.
pub open spec fn statement_text(d: QuestionDetail) -> Seq<char> {
    if d.is_paid_only && d.content is None {
        "Premium content — not available without authentication."@
    } else if d.content is Some {
        match html_as_text(d.content->0@, STATEMENT_WIDTH as nat) {
            Some(t) => t,
            None => "Failed to render content."@,
        }
    } else {
        "No content available."@
    }
}

/// Where a detail screen was opened from, so that going back returns there.
#[derive(Clone, Copy, Debug, PartialEq, Eq, Structural)]
pub enum Origin {
    Browse,
    Lists,
}

/// The detail screen's state.
pub struct DetailState {
    pub detail: QuestionDetail,
    pub rendered_content: String,
    pub scroll_offset: u16,
    pub content_height: u16,
    pub origin: Origin,
}

/// What a key press on the detail screen asks of the application.
pub enum DetailAction {
    NoOp,
    Back,
    Quit,
    Scaffold(String),
    RunCode,
    SubmitCode,
    AddToList(String),
}

/// The scroll offset after moving by `delta` lines, kept in `0..=u16::MAX`.
pub open spec fn scrolled(offset: u16, delta: int) -> u16 {
    let t = offset + delta;
    (if t < 0 {
        0
    } else if t > u16::MAX {
        u16::MAX as int
    } else {
        t
    }) as u16
}

impl DetailState {
    /// A detail screen for `detail`, scrolled to the top.
    pub fn new(detail: QuestionDetail, origin: Origin) -> (r: Self)
        ensures
            r.detail == detail,
            r.rendered_content@ == statement_text(detail),
            r.scroll_offset == 0,
            r.content_height == 0,
            r.origin == origin,
    {
        let rendered_content = if detail.is_paid_only && detail.content.is_none() {
            String::from_str("Premium content — not available without authentication.")
        } else {
            match &detail.content {
                Some(html) => match render_html(html.as_str(), STATEMENT_WIDTH) {
                    Some(t) => t,
                    None => String::from_str("Failed to render content."),
                },
                None => String::from_str("No content available."),
            }
        };
        DetailState { detail, rendered_content, scroll_offset: 0, content_height: 0, origin }
    }

    /// Scrolls by `delta` lines.
    pub fn scroll(&mut self, delta: i32)
        ensures
            final(self).scroll_offset == scrolled(old(self).scroll_offset, delta as int),
            final(self).detail == old(self).detail,
            final(self).rendered_content == old(self).rendered_content,
            final(self).content_height == old(self).content_height,
            final(self).origin == old(self).origin,
    {
        let t: i64 = self.scroll_offset as i64 + delta as i64;
        self.scroll_offset = if t < 0 {
            0
        } else if t > u16::MAX as i64 {
            u16::MAX
        } else {
            t as u16
        };
    }

    /// Handles a key press on the detail screen.
    pub fn handle_key(&mut self, key: Key) -> (r: DetailAction)
        ensures
            final(self).detail == old(self).detail,
            final(self).origin == old(self).origin,
            (key == Key::Char('b') || key == Key::Esc) ==> r == DetailAction::Back,
            (key == Key::Char('q') || key == Key::Ctrl('c')) ==> r == DetailAction::Quit,
            (key == Key::Char('j') || key == Key::Down) ==> r == DetailAction::NoOp
                && final(self).scroll_offset == scrolled(old(self).scroll_offset, 1),
            (key == Key::Char('k') || key == Key::Up) ==> r == DetailAction::NoOp
                && final(self).scroll_offset == scrolled(old(self).scroll_offset, -1),
            key == Key::Char('d') ==> r == DetailAction::NoOp && final(self).scroll_offset
                == scrolled(old(self).scroll_offset, (old(self).content_height / 2) as int),
            key == Key::Char('u') ==> r == DetailAction::NoOp && final(self).scroll_offset
                == scrolled(old(self).scroll_offset, -((old(self).content_height / 2) as int)),
            key == Key::Char('o') ==> r == DetailAction::Scaffold(old(self).detail.title_slug),
            key == Key::Char('r') ==> r == DetailAction::RunCode,
            key == Key::Char('s') ==> r == DetailAction::SubmitCode,
            key == Key::Char('a') ==> r == DetailAction::AddToList(old(self).detail.question_id),
    {
        match key {
            Key::Char('b') | Key::Esc => DetailAction::Back,
            Key::Char('q') | Key::Ctrl('c') => DetailAction::Quit,
            Key::Char('j') | Key::Down => {
                self.scroll(1);
                DetailAction::NoOp
            },
            Key::Char('k') | Key::Up => {
                self.scroll(-1);
                DetailAction::NoOp
            },
            Key::Char('d') => {
                let half = (self.content_height / 2) as i32;
                self.scroll(half);
                DetailAction::NoOp
            },
            Key::Char('u') => {
                let half = (self.content_height / 2) as i32;
                self.scroll(-half);
                DetailAction::NoOp
            },
            Key::Char('o') => DetailAction::Scaffold(self.detail.title_slug.clone()),
            Key::Char('r') => DetailAction::RunCode,
            Key::Char('s') => DetailAction::SubmitCode,
            Key::Char('a') => DetailAction::AddToList(self.detail.question_id.clone()),
            _ => DetailAction::NoOp,
        }
    }
}

} // verus!
