//! The first-run setup form: workspace directory, language and editor.

use vstd::prelude::*;
use crate::keys::Key;
use crate::text::{pop_char, push_char};

verus! {

/// The setup form: three text fields, one of them active.
pub struct SetupState {
    pub fields: Vec<String>,
    pub active_field: usize,
}

/// What a key press on the setup form asks of the application.
pub enum SetupAction {
    NoOp,
    Submit,
    Quit,
}

/// The number of fields of the form.
pub const FIELD_COUNT: usize = 3;

impl SetupState {
    /// Three fields, the active one among them.
    pub open spec fn wf(&self) -> bool {
        self.fields@.len() == FIELD_COUNT && self.active_field < FIELD_COUNT
    }

    /// The form with its defaults: `~/leetcode`, `rust`, `vim`.
    pub fn new() -> (r: Self)
        ensures
            r.wf(),
            r.active_field == 0,
            r.fields@[0]@ == "~/leetcode"@,
            r.fields@[1]@ == "rust"@,
            r.fields@[2]@ == "vim"@,
    {
        let mut fields: Vec<String> = Vec::new();
        fields.push(String::from_str("~/leetcode"));
        fields.push(String::from_str("rust"));
        fields.push(String::from_str("vim"));
        SetupState { fields, active_field: 0 }
    }

    /// Handles a key press: Tab and the arrows move between fields (with
    /// wraparound), characters and Backspace edit the active field.
    pub fn handle_key(&mut self, key: Key) -> (r: SetupAction)
        requires
            old(self).wf(),
        ensures
            final(self).wf(),
            (key == Key::Tab || key == Key::Down) ==> r == SetupAction::NoOp
                && final(self).active_field == (old(self).active_field + 1) % 3 && final(self).fields
                == old(self).fields,
            (key == Key::BackTab || key == Key::Up) ==> r == SetupAction::NoOp
                && final(self).active_field == (old(self).active_field + 2) % 3 && final(self).fields
                == old(self).fields,
            key matches Key::Char(c) ==> r == SetupAction::NoOp && final(self).active_field == old(
                self).active_field && final(self).fields@ == old(self).fields@.update(
                old(self).active_field as int,
                final(self).fields@[old(self).active_field as int],
            ) && final(self).fields@[old(self).active_field as int]@ == old(
                self).fields@[old(self).active_field as int]@.push(c),
            key == Key::Backspace ==> r == SetupAction::NoOp && final(self).active_field == old(
                self).active_field && final(self).fields@ == old(self).fields@.update(
                old(self).active_field as int,
                final(self).fields@[old(self).active_field as int],
            ) && {
                let before = old(self).fields@[old(self).active_field as int]@;
                final(self).fields@[old(self).active_field as int]@ == (if before.len() == 0 {
                    before
                } else {
                    before.drop_last()
                })
            },
            key == Key::Enter ==> r == SetupAction::Submit && *final(self) == *old(self),
            key == Key::Esc ==> r == SetupAction::Quit && *final(self) == *old(self),
    {
        match key {
            Key::Tab | Key::Down => {
                self.active_field = (self.active_field + 1) % 3;
                SetupAction::NoOp
            },
            Key::BackTab | Key::Up => {
                self.active_field = (self.active_field + 2) % 3;
                SetupAction::NoOp
            },
            Key::Char(c) => {
                let i = self.active_field;
                let mut f = self.fields[i].clone();
                push_char(&mut f, c);
                self.fields.set(i, f);
                SetupAction::NoOp
            },
            Key::Backspace => {
                let i = self.active_field;
                let mut f = self.fields[i].clone();
                pop_char(&mut f);
                self.fields.set(i, f);
                SetupAction::NoOp
            },
            Key::Enter => SetupAction::Submit,
            Key::Esc => SetupAction::Quit,
            _ => SetupAction::NoOp,
        }
    }
}

} // verus!
