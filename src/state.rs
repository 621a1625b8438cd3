use vstd::prelude::*;

use crate::file_list::{all_unselected, FileList, FileListType, FileListView};

verus! {

/// The key of a key event, reduced to what the controls distinguish.
#[derive(Debug, Clone, Copy, PartialEq, Eq, Structural)]
pub enum KeyCode {
    Char(char),
    Up,
    Down,
    Enter,
    Esc,
    Other,
}

/// Whether a key event is a press, a repeat or a release.
#[derive(Debug, Clone, Copy, PartialEq, Eq, Structural)]
pub enum KeyKind {
    Press,
    Repeat,
    Release,
}

/// A decoded key event. `control_only` is true when Control is held and no
/// other modifier is.
#[derive(Debug, Clone, Copy, PartialEq, Eq, Structural)]
pub struct KeyInput {
    pub code: KeyCode,
    pub control_only: bool,
    pub kind: KeyKind,
}

/// What the caller has to do after a key: nothing, ask the user for a folder
/// and load it into the given list, or carry out the confirmed move.
#[derive(Debug, Clone, Copy, PartialEq, Eq, Structural)]
pub enum Action {
    Nothing,
    PickFolder(FileListType),
    MoveFiles,
}

/// What an [`App`] holds, as mathematical values.
pub struct AppView {
    pub running: bool,
    pub from: FileListView,
    pub to: FileListView,
    pub show_popup: bool,
}

impl AppView {
    pub open spec fn wf(self) -> bool {
        self.from.wf() && self.to.wf()
    }

    /// The lists trade roles, and the new source list loses its marks.
    pub open spec fn swapped(self) -> AppView {
        AppView { from: self.to.clear_selection(), to: self.from, ..self }
    }

    pub open spec fn with_from(self, from: FileListView) -> AppView {
        AppView { from, ..self }
    }

    pub open spec fn with_popup(self, show_popup: bool) -> AppView {
        AppView { show_popup, ..self }
    }
}

/// The move-confirmation popup is open and a key answers it with yes.
pub open spec fn is_yes(code: KeyCode) -> bool {
    code == KeyCode::Char('y') || code == KeyCode::Char('Y')
}

/// The move-confirmation popup is open and a key answers it with no.
pub open spec fn is_no(code: KeyCode) -> bool {
    code == KeyCode::Char('n') || code == KeyCode::Char('N') || code == KeyCode::Esc
}

/// The state and the action that follow a key. Only presses count. While the
/// popup is open only yes and no are heeded; otherwise the navigation and
/// action keys are.
pub open spec fn next_state(s: AppView, key: KeyInput) -> (AppView, Action) {
    if key.kind != KeyKind::Press {
        (s, Action::Nothing)
    } else if s.show_popup {
        if is_yes(key.code) {
            (s.with_popup(false), Action::MoveFiles)
        } else if is_no(key.code) {
            (s.with_popup(false), Action::Nothing)
        } else {
            (s, Action::Nothing)
        }
    } else if key.code == KeyCode::Char('q') {
        (AppView { running: false, ..s }, Action::Nothing)
    } else if key.code == KeyCode::Down {
        (s.with_from(s.from.select_next()), Action::Nothing)
    } else if key.code == KeyCode::Up {
        (s.with_from(s.from.select_previous()), Action::Nothing)
    } else if key.code == KeyCode::Char(' ') {
        (s.with_from(s.from.change_status()), Action::Nothing)
    } else if key.code == KeyCode::Char('s') {
        (s.swapped(), Action::Nothing)
    } else if key.code == KeyCode::Char('f') && key.control_only {
        (s, Action::PickFolder(FileListType::FileListTo))
    } else if key.code == KeyCode::Char('f') {
        (s, Action::PickFolder(FileListType::FileListFrom))
    } else if key.code == KeyCode::Enter {
        (s.with_popup(true), Action::Nothing)
    } else {
        (s, Action::Nothing)
    }
}

/// Swapping twice brings each list back to its place with its entries,
/// cursor and path, but every mark is gone: the marks of the source list are
/// lost, and so are any of the destination list.
pub proof fn lemma_swap_twice(s: AppView)
    ensures
        s.swapped().swapped() == (AppView {
            from: s.from.clear_selection(),
            to: s.to.clear_selection(),
            ..s
        }),
        (forall|j: int| 0 <= j < s.to.items.len() ==> !(#[trigger] s.to.items[j]).is_selected)
            ==> s.swapped().swapped().to == s.to,
{
    assert(s.to.clear_selection().items =~= all_unselected(s.to.items));
    if forall|j: int| 0 <= j < s.to.items.len() ==> !(#[trigger] s.to.items[j]).is_selected {
        assert(all_unselected(s.to.items) =~= s.to.items);
    }
}

/// While the popup is open, the navigation, mark and other action keys change
/// nothing and ask for nothing.
pub proof fn lemma_popup_ignores_other_keys(s: AppView, key: KeyInput)
    requires
        s.show_popup,
        !is_yes(key.code),
        !is_no(key.code),
    ensures
        next_state(s, key) == (s, Action::Nothing),
{
}

/// Without the popup, the answers yes and no (`y`, `Y`, `n`, `N`, Esc) change
/// nothing and start no move.
pub proof fn lemma_normal_ignores_answers(s: AppView, key: KeyInput)
    requires
        !s.show_popup,
        is_yes(key.code) || is_no(key.code),
    ensures
        next_state(s, key) == (s, Action::Nothing),
{
}

/// The whole state: the list files are moved from, the list they are moved
/// to, whether the move-confirmation popup is showing, and whether the
/// program keeps running.
#[derive(Debug)]
pub struct App {
    pub running: bool,
    pub files_from: FileList,
    pub files_to: FileList,
    pub show_popup: bool,
}

impl View for App {
    type V = AppView;

    open spec fn view(&self) -> AppView {
        AppView {
            running: self.running,
            from: self.files_from@,
            to: self.files_to@,
            show_popup: self.show_popup,
        }
    }
}

impl App {
    pub open spec fn wf(&self) -> bool {
        self@.wf()
    }

    /// Two empty lists, no popup, not running yet.
    pub fn new() -> (r: App)
        ensures
            r.wf(),
            !r@.running,
            !r@.show_popup,
            r@.from == FileList::new_view(),
            r@.to == FileList::new_view(),
    {
        App {
            running: false,
            files_from: FileList::new(),
            files_to: FileList::new(),
            show_popup: false,
        }
    }

    /// Handles one key event and says what the caller has to do next.
    pub fn on_key_event(&mut self, key: KeyInput) -> (r: Action)
        requires
            old(self).wf(),
        ensures
            (final(self)@, r) == next_state(old(self)@, key),
            final(self).wf(),
    {
        if key.kind != KeyKind::Press {
            return Action::Nothing;
        }
        if self.show_popup {
            match key.code {
                KeyCode::Char('y') | KeyCode::Char('Y') => {
                    self.show_popup = false;
                    Action::MoveFiles
                },
                KeyCode::Char('n') | KeyCode::Char('N') | KeyCode::Esc => {
                    self.show_popup = false;
                    Action::Nothing
                },
                _ => Action::Nothing,
            }
        } else {
            match key.code {
                KeyCode::Char('q') => {
                    self.quit();
                    Action::Nothing
                },
                KeyCode::Down => {
                    self.files_from.select_next();
                    Action::Nothing
                },
                KeyCode::Up => {
                    self.files_from.select_previous();
                    Action::Nothing
                },
                KeyCode::Char(' ') => {
                    self.files_from.change_status();
                    Action::Nothing
                },
                KeyCode::Char('s') => {
                    self.swap_file_lists();
                    Action::Nothing
                },
                KeyCode::Char('f') => {
                    if key.control_only {
                        Action::PickFolder(FileListType::FileListTo)
                    } else {
                        Action::PickFolder(FileListType::FileListFrom)
                    }
                },
                KeyCode::Enter => {
                    self.show_popup = true;
                    Action::Nothing
                },
                _ => Action::Nothing,
            }
        }
    }

    /// Exchanges the two lists and unmarks every entry of the new source list.
    pub fn swap_file_lists(&mut self)
        requires
            old(self).wf(),
        ensures
            final(self)@ == old(self)@.swapped(),
            final(self).wf(),
    {
        std::mem::swap(&mut self.files_from, &mut self.files_to);
        self.files_from.clear_selection();
    }

    /// Stops the program after the current event.
    pub fn quit(&mut self)
        ensures
            final(self)@ == (AppView { running: false, ..old(self)@ }),
    {
        self.running = false;
    }
}

} // verus!
