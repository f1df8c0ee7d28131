//! The favorite-lists screen: the user's lists, the problems of an opened
//! list, and the name line of a list being created.

use vstd::prelude::*;
use crate::keys::Key;
use crate::text::{pop_char, push_char};
use crate::types::FavoriteList;

verus! {

/// The favorite-lists screen.
pub struct ListsState {
    pub lists: Vec<FavoriteList>,
    /// The selected list.
    pub selected: Option<usize>,
    /// The list whose problems are shown, if any.
    pub open_list: Option<usize>,
    /// The selected problem of the opened list.
    pub problem_selected: usize,
    /// The name typed so far for a new list, while one is being created.
    pub name_input: Option<String>,
    pub loading: bool,
    pub error_message: Option<String>,
    pub spinner_frame: usize,
}

/// What a key press on the lists screen asks of the application.
pub enum ListsAction {
    NoOp,
    Back,
    Quit,
    Refresh,
    OpenDetail(String),
    CreateList(String),
    DeleteList(String),
    RemoveProblem { id_hash: String, question_id: String },
}

impl ListsState {
    /// The problems of an opened list are on show.
    pub open spec fn list_open(&self) -> bool {
        self.name_input is None && (self.open_list matches Some(o) && o < self.lists@.len())
    }

    /// No lists yet, loading.
    pub fn new() -> (r: Self)
        ensures
            r.lists@.len() == 0,
            r.selected is None,
            r.open_list is None,
            r.problem_selected == 0,
            r.name_input is None,
            r.loading,
            r.error_message is None,
            r.spinner_frame == 0,
    {
        ListsState {
            lists: Vec::new(),
            selected: None,
            open_list: None,
            problem_selected: 0,
            name_input: None,
            loading: true,
            error_message: None,
            spinner_frame: 0,
        }
    }

    /// Handles a key press. While a name is typed, keys edit it and Enter
    /// asks for a list of that name. In an opened list, arrows move over its
    /// problems, Enter opens one and `x` removes it from the list. Over the
    /// lists, Enter opens one, `n` starts a new one, `d` deletes one and `r`
    /// reloads them.
    pub fn handle_key(&mut self, key: Key) -> (r: ListsAction)
        ensures
            final(self).lists == old(self).lists,
            old(self).name_input matches Some(name) ==> {
                &&& key matches Key::Char(c) ==> r == ListsAction::NoOp && (final(self).name_input matches Some(t) && t@ == name@.push(c))
                &&& key == Key::Backspace ==> r == ListsAction::NoOp && (final(self).name_input matches Some(t) && t@ == (if name@.len() == 0 {
                    name@
                } else {
                    name@.drop_last()
                }))
                &&& key == Key::Esc ==> r == ListsAction::NoOp && final(self).name_input is None
                &&& key == Key::Enter ==> if name@.len() > 0 {
                    r == ListsAction::CreateList(name) && final(self).name_input is None
                } else {
                    r == ListsAction::NoOp && *final(self) == *old(self)
                }
            },
            old(self).list_open() ==> {
                let o = old(self).open_list->0;
                let list = old(self).lists@[o as int];
                let m = list.questions@.len();
                let ps = old(self).problem_selected;
                &&& (key == Key::Char('j') || key == Key::Down) ==> r == ListsAction::NoOp
                    && final(self).problem_selected == (if ps + 1 < m {
                    (ps + 1) as usize
                } else {
                    ps
                })
                &&& (key == Key::Char('k') || key == Key::Up) ==> r == ListsAction::NoOp
                    && final(self).problem_selected == (if ps > 0 {
                    (ps - 1) as usize
                } else {
                    ps
                })
                &&& key == Key::Enter ==> if ps < m {
                    r == ListsAction::OpenDetail(list.questions@[ps as int].title_slug)
                } else {
                    r == ListsAction::NoOp
                }
                &&& key == Key::Char('x') ==> if ps < m {
                    r == (ListsAction::RemoveProblem {
                        id_hash: list.id_hash,
                        question_id: list.questions@[ps as int].question_id,
                    })
                } else {
                    r == ListsAction::NoOp
                }
                &&& (key == Key::Esc || key == Key::Char('b')) ==> r == ListsAction::NoOp && final(self).open_list is None
                &&& key == Key::Char('q') ==> r == ListsAction::Quit
            },
            old(self).name_input is None && !old(self).list_open() ==> {
                let n = old(self).lists@.len();
                &&& (key == Key::Esc || key == Key::Char('b')) ==> r == ListsAction::Back
                &&& key == Key::Char('q') ==> r == ListsAction::Quit
                &&& key == Key::Char('r') ==> r == ListsAction::Refresh
                &&& key == Key::Char('n') ==> r == ListsAction::NoOp && (final(self).name_input matches Some(t) && t@.len() == 0)
                &&& key == Key::Enter ==> r == ListsAction::NoOp && (if old(self).selected is Some && old(self).selected->0 < n {
                    final(self).open_list == old(self).selected && final(self).problem_selected == 0
                } else {
                    final(self).open_list == old(self).open_list
                })
                &&& key == Key::Char('d') ==> if old(self).selected is Some && old(self).selected->0 < n {
                    r == ListsAction::DeleteList(old(self).lists@[old(self).selected->0 as int].id_hash)
                } else {
                    r == ListsAction::NoOp
                }
            },
    {
        let n = self.lists.len();
        let mut typed: Option<String> = None;
        std::mem::swap(&mut typed, &mut self.name_input);
        match typed {
            Some(mut name) => {
                match key {
                    Key::Char(c) => {
                        push_char(&mut name, c);
                        self.name_input = Some(name);
                        ListsAction::NoOp
                    },
                    Key::Backspace => {
                        pop_char(&mut name);
                        self.name_input = Some(name);
                        ListsAction::NoOp
                    },
                    Key::Esc => ListsAction::NoOp,
                    Key::Enter => {
                        if name.as_str().unicode_len() > 0 {
                            ListsAction::CreateList(name)
                        } else {
                            self.name_input = Some(name);
                            ListsAction::NoOp
                        }
                    },
                    _ => {
                        self.name_input = Some(name);
                        ListsAction::NoOp
                    },
                }
            },
            None => {
                let opened = match self.open_list {
                    Some(o) => if o < n {
                        Some(o)
                    } else {
                        None
                    },
                    None => None,
                };
                match opened {
                    Some(o) => {
                        let m = self.lists[o].questions.len();
                        let ps = self.problem_selected;
                        match key {
                            Key::Char('j') | Key::Down => {
                                if ps < m && ps + 1 < m {
                                    self.problem_selected = ps + 1;
                                }
                                ListsAction::NoOp
                            },
                            Key::Char('k') | Key::Up => {
                                if ps > 0 {
                                    self.problem_selected = ps - 1;
                                }
                                ListsAction::NoOp
                            },
                            Key::Enter => {
                                if ps < m {
                                    ListsAction::OpenDetail(
                                        self.lists[o].questions[ps].title_slug.clone(),
                                    )
                                } else {
                                    ListsAction::NoOp
                                }
                            },
                            Key::Char('x') => {
                                if ps < m {
                                    ListsAction::RemoveProblem {
                                        id_hash: self.lists[o].id_hash.clone(),
                                        question_id: self.lists[o].questions[ps].question_id.clone(),
                                    }
                                } else {
                                    ListsAction::NoOp
                                }
                            },
                            Key::Esc | Key::Char('b') => {
                                self.open_list = None;
                                ListsAction::NoOp
                            },
                            Key::Char('q') => ListsAction::Quit,
                            _ => ListsAction::NoOp,
                        }
                    },
                    None => {
                        match key {
                            Key::Esc | Key::Char('b') => ListsAction::Back,
                            Key::Char('q') => ListsAction::Quit,
                            Key::Char('r') => ListsAction::Refresh,
                            Key::Char('n') => {
                                self.name_input = Some(String::new());
                                ListsAction::NoOp
                            },
                            Key::Char('j') | Key::Down => {
                                if n > 0 {
                                    self.selected = match self.selected {
                                        Some(s) => Some(if s < n - 1 { s + 1 } else { n - 1 }),
                                        None => Some(0),
                                    };
                                }
                                ListsAction::NoOp
                            },
                            Key::Char('k') | Key::Up => {
                                if n > 0 {
                                    self.selected = match self.selected {
                                        Some(s) => Some(if s > 0 { s - 1 } else { 0 }),
                                        None => Some(0),
                                    };
                                }
                                ListsAction::NoOp
                            },
                            Key::Enter => {
                                match self.selected {
                                    Some(s) => {
                                        if s < n {
                                            self.open_list = Some(s);
                                            self.problem_selected = 0;
                                        }
                                    },
                                    None => {},
                                }
                                ListsAction::NoOp
                            },
                            Key::Char('d') => {
                                match self.selected {
                                    Some(s) => if s < n {
                                        ListsAction::DeleteList(self.lists[s].id_hash.clone())
                                    } else {
                                        ListsAction::NoOp
                                    },
                                    None => ListsAction::NoOp,
                                }
                            },
                            _ => ListsAction::NoOp,
                        }
                    },
                }
            },
        }
    }
}

} // verus!
