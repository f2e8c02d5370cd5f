//! The keys: what each does to the state, and what is left to the caller.
use vstd::prelude::*;
use crate::app_state::{AppState, AppView, Focus, FocusView, nodes_view};
use crate::misc::{
    after_confirm_command, after_enable_description, after_enter_search, after_exit_search,
    after_go_back, after_handle_enter, after_refresh_tab, after_toggle_multi_select,
    after_toggle_selection, after_toggle_task_list_guide, after_update_items, selected_node,
};
use crate::external::{list_select_next, list_select_previous, modifiers_contain_control};

verus! {

/// The key of a key event, as far as the state tells keys apart.
#[derive(Debug, Clone, Copy, PartialEq, Eq)]
pub enum KeyCode {
    Backspace,
    Enter,
    Left,
    Right,
    Up,
    Down,
    Tab,
    BackTab,
    Delete,
    Esc,
    Char(char),
    /// Any other key.
    Other,
}

#[derive(Debug, Clone, Copy, PartialEq, Eq)]
pub enum KeyEventKind {
    Press,
    Repeat,
    Release,
}

/// A key event: the key, the modifier bits (as in `crossterm`'s
/// `KeyModifiers`) and whether the key went down, repeated or went up.
#[derive(Debug, Clone, Copy, PartialEq, Eq)]
pub struct KeyEvent {
    pub code: KeyCode,
    pub modifiers: u8,
    pub kind: KeyEventKind,
}

/// What the caller has to do after a key.
#[derive(Debug, Clone, Copy, PartialEq, Eq)]
pub enum KeyAction {
    /// Leave the interface.
    Quit,
    /// Nothing more.
    Handled,
    /// Switch to the next colour theme.
    NextTheme,
    /// Switch to the previous colour theme.
    PrevTheme,
    /// Hand the key to the floating window, then call [`AppState::float_key_result`].
    ToFloat,
    /// Hand the key to the confirmation, then call [`AppState::confirm_status`].
    ToPrompt,
    /// Hand the key to the search bar, then call [`AppState::search_action`].
    ToSearch,
    /// Look for a preview of [`AppState::preview_request`]; if there is one,
    /// call [`AppState::open_preview`].
    PreviewRequested,
}

impl KeyAction {
    /// Whether the interface goes on after this key.
    pub fn keeps_running(&self) -> (res: bool)
        ensures
            res == !(*self is Quit),
    {
        match self {
            KeyAction::Quit => false,
            _ => true,
        }
    }
}

/// What the confirmation answered.
#[derive(Debug, Clone, Copy, PartialEq, Eq)]
pub enum ConfirmStatus {
    Confirm,
    Abort,
    Undecided,
}

/// What the search bar made of a key.
#[derive(Debug, Clone, Copy, PartialEq, Eq)]
pub enum SearchAction {
    Exit,
    Update,
    Unchanged,
}

pub open spec fn control_pressed(k: KeyEvent) -> bool {
    k.modifiers & 2u8 == 2u8
}

/// `q`, or Ctrl-c.
pub open spec fn is_quit_key(k: KeyEvent) -> bool {
    k.code == KeyCode::Char('q') || (control_pressed(k) && k.code == KeyCode::Char('c'))
}

/// The index that `ListState::select_next` selects.
pub open spec fn next_index(sel: Option<usize>) -> Option<usize> {
    Some(
        match sel {
            Some(i) => if i == usize::MAX {
                i
            } else {
                (i + 1) as usize
            },
            None => 0usize,
        },
    )
}

/// The index that `ListState::select_previous` selects.
pub open spec fn previous_index(sel: Option<usize>) -> Option<usize> {
    Some(
        match sel {
            Some(i) => if i == 0 {
                0usize
            } else {
                (i - 1) as usize
            },
            None => usize::MAX,
        },
    )
}

pub open spec fn focus_is_tabs_or_list(s: AppView) -> bool {
    s.focus is TabList || s.focus is List
}

/// Tab and Shift-Tab switch tabs, wrapping around, while the tab list or the
/// command list has the focus.
pub open spec fn after_tab_keys(s: AppView, k: KeyEvent) -> AppView {
    let cur = s.current_tab.unwrap();
    let last = (s.tabs.len() - 1) as usize;
    if focus_is_tabs_or_list(s) && k.code == KeyCode::BackTab {
        after_refresh_tab(
            AppView {
                current_tab: if cur == 0 {
                    Some(last)
                } else {
                    previous_index(s.current_tab)
                },
                ..s
            },
        )
    } else if focus_is_tabs_or_list(s) && k.code == KeyCode::Tab {
        after_refresh_tab(
            AppView {
                current_tab: if cur == last {
                    Some(0usize)
                } else {
                    next_index(s.current_tab)
                },
                ..s
            },
        )
    } else {
        s
    }
}

/// The keys of the tab list.
pub open spec fn tab_list_key(s: AppView, k: KeyEvent) -> (AppView, KeyAction) {
    let c = k.code;
    let cur = s.current_tab.unwrap();
    if c == KeyCode::Enter || c == KeyCode::Char('l') || c == KeyCode::Right {
        (AppView { focus: FocusView::List, ..s }, KeyAction::Handled)
    } else if (c == KeyCode::Char('j') || c == KeyCode::Down) && cur + 1 < s.tabs.len() {
        (
            after_refresh_tab(AppView { current_tab: next_index(s.current_tab), ..s }),
            KeyAction::Handled,
        )
    } else if c == KeyCode::Char('k') || c == KeyCode::Up {
        (
            after_refresh_tab(AppView { current_tab: previous_index(s.current_tab), ..s }),
            KeyAction::Handled,
        )
    } else if c == KeyCode::Char('/') {
        (after_enter_search(s), KeyAction::Handled)
    } else if c == KeyCode::Char('t') {
        (s, KeyAction::NextTheme)
    } else if c == KeyCode::Char('T') {
        (s, KeyAction::PrevTheme)
    } else if c == KeyCode::Char('g') {
        (after_toggle_task_list_guide(s), KeyAction::Handled)
    } else {
        (s, KeyAction::Handled)
    }
}

/// The keys of the command list (keys that go up are ignored there).
pub open spec fn list_key(s: AppView, k: KeyEvent) -> (AppView, KeyAction) {
    let c = k.code;
    if k.kind == KeyEventKind::Release {
        (s, KeyAction::Handled)
    } else if c == KeyCode::Char('j') || c == KeyCode::Down {
        (AppView { selection: next_index(s.selection), ..s }, KeyAction::Handled)
    } else if c == KeyCode::Char('k') || c == KeyCode::Up {
        (AppView { selection: previous_index(s.selection), ..s }, KeyAction::Handled)
    } else if c == KeyCode::Char('p') || c == KeyCode::Char('P') {
        (
            s,
            if selected_node(s) is Some {
                KeyAction::PreviewRequested
            } else {
                KeyAction::Handled
            },
        )
    } else if c == KeyCode::Char('d') || c == KeyCode::Char('D') {
        (after_enable_description(s), KeyAction::Handled)
    } else if c == KeyCode::Enter || c == KeyCode::Char('l') || c == KeyCode::Right {
        (after_handle_enter(s), KeyAction::Handled)
    } else if c == KeyCode::Char('h') || c == KeyCode::Left {
        (after_go_back(s), KeyAction::Handled)
    } else if c == KeyCode::Char('/') {
        (after_enter_search(s), KeyAction::Handled)
    } else if c == KeyCode::Char('t') {
        (s, KeyAction::NextTheme)
    } else if c == KeyCode::Char('T') {
        (s, KeyAction::PrevTheme)
    } else if c == KeyCode::Char('g') {
        (after_toggle_task_list_guide(s), KeyAction::Handled)
    } else if c == KeyCode::Char('v') || c == KeyCode::Char('V') {
        (after_toggle_multi_select(s), KeyAction::Handled)
    } else if c == KeyCode::Char(' ') && s.multi_select {
        (after_toggle_selection(s), KeyAction::Handled)
    } else {
        (s, KeyAction::Handled)
    }
}

/// What a key does to the state, and what is left to the caller.
pub open spec fn handle_key_spec(s: AppView, k: KeyEvent) -> (AppView, KeyAction) {
    if (s.focus is TabList || s.focus is List || s.focus is ConfirmationPrompt) && is_quit_key(k) {
        (s, KeyAction::Quit)
    } else if !s.drawable {
        (s, KeyAction::Handled)
    } else {
        let t = after_tab_keys(s, k);
        match t.focus {
            FocusView::FloatingWindow { .. } => (t, KeyAction::ToFloat),
            FocusView::ConfirmationPrompt { .. } => (t, KeyAction::ToPrompt),
            FocusView::Search => (t, KeyAction::ToSearch),
            FocusView::TabList => tab_list_key(t, k),
            FocusView::List => list_key(t, k),
        }
    }
}

/// After the floating window handled a key: it closes when it says so.
pub open spec fn after_float_key(s: AppView, closed: bool) -> AppView {
    if s.focus is FloatingWindow && closed {
        AppView { focus: FocusView::List, ..s }
    } else {
        s
    }
}

/// After the confirmation handled a key.
pub open spec fn after_confirm_status(s: AppView, status: ConfirmStatus) -> AppView {
    if s.focus is ConfirmationPrompt {
        match status {
            ConfirmStatus::Abort => AppView {
                focus: FocusView::List,
                selected: if s.multi_select {
                    s.selected
                } else {
                    Seq::empty()
                },
                ..s
            },
            ConfirmStatus::Confirm => after_confirm_command(s),
            ConfirmStatus::Undecided => s,
        }
    } else {
        s
    }
}

/// After the search bar handled a key.
pub open spec fn after_search_action(s: AppView, action: SearchAction) -> AppView {
    if s.focus is Search {
        match action {
            SearchAction::Exit => after_exit_search(s),
            SearchAction::Update => after_update_items(s),
            SearchAction::Unchanged => s,
        }
    } else {
        s
    }
}

impl AppState {
    fn switch_tab_with_key(&mut self, key: &KeyEvent)
        requires
            old(self).wf(),
        ensures
            final(self)@ == after_tab_keys(old(self)@, *key),
    {
        let in_lists = match self.focus {
            Focus::TabList | Focus::List => true,
            _ => false,
        };
        if in_lists {
            match key.code {
                KeyCode::BackTab => {
                    if self.current_tab.unwrap() == 0 {
                        self.current_tab = Some(self.tabs.len() - 1);
                    } else {
                        self.current_tab = list_select_previous(self.current_tab);
                    }
                    self.refresh_tab();
                },
                KeyCode::Tab => {
                    if self.current_tab.unwrap() == self.tabs.len() - 1 {
                        self.current_tab = Some(0);
                    } else {
                        self.current_tab = list_select_next(self.current_tab);
                    }
                    self.refresh_tab();
                },
                _ => {},
            }
        }
    }

    fn select_next_tab(&mut self)
        requires
            old(self).wf(),
            old(self).current_tab.unwrap() + 1 < old(self).tabs@.len(),
        ensures
            final(self)@ == after_refresh_tab(
                AppView { current_tab: next_index(old(self)@.current_tab), ..old(self)@ },
            ),
    {
        self.current_tab = list_select_next(self.current_tab);
        self.refresh_tab();
    }

    fn tab_list_key(&mut self, key: &KeyEvent) -> (res: KeyAction)
        requires
            old(self).wf(),
        ensures
            (final(self)@, res) == tab_list_key(old(self)@, *key),
    {
        let cur = self.current_tab.unwrap();
        proof {
            assert(self@.tabs.len() == self.tabs@.len());
            assert(cur < self.tabs@.len());
        }
        match key.code {
            KeyCode::Enter | KeyCode::Char('l') | KeyCode::Right => {
                self.focus = Focus::List;
                KeyAction::Handled
            },
            KeyCode::Char('j') | KeyCode::Down => {
                if cur < self.tabs.len() - 1 {
                    self.select_next_tab();
                }
                KeyAction::Handled
            },
            KeyCode::Char('k') | KeyCode::Up => {
                self.current_tab = list_select_previous(self.current_tab);
                self.refresh_tab();
                KeyAction::Handled
            },
            KeyCode::Char('/') => {
                self.enter_search();
                KeyAction::Handled
            },
            KeyCode::Char('t') => KeyAction::NextTheme,
            KeyCode::Char('T') => KeyAction::PrevTheme,
            KeyCode::Char('g') => {
                self.toggle_task_list_guide();
                KeyAction::Handled
            },
            _ => KeyAction::Handled,
        }
    }

    fn list_key(&mut self, key: &KeyEvent) -> (res: KeyAction)
        requires
            old(self).wf(),
        ensures
            (final(self)@, res) == list_key(old(self)@, *key),
    {
        let released = match key.kind {
            KeyEventKind::Release => true,
            _ => false,
        };
        if released {
            KeyAction::Handled
        } else {
            self.list_key_pressed(key)
        }
    }

    fn list_key_pressed(&mut self, key: &KeyEvent) -> (res: KeyAction)
        requires
            old(self).wf(),
            key.kind != KeyEventKind::Release,
        ensures
            (final(self)@, res) == list_key(old(self)@, *key),
    {
        match key.code {
            KeyCode::Char('j') | KeyCode::Down => {
                self.selection = list_select_next(self.selection);
                KeyAction::Handled
            },
            KeyCode::Char('k') | KeyCode::Up => {
                self.selection = list_select_previous(self.selection);
                KeyAction::Handled
            },
            KeyCode::Char('p') | KeyCode::Char('P') => {
                if self.selected_node_rc().is_some() {
                    KeyAction::PreviewRequested
                } else {
                    KeyAction::Handled
                }
            },
            KeyCode::Char('d') | KeyCode::Char('D') => {
                self.enable_description();
                KeyAction::Handled
            },
            KeyCode::Enter | KeyCode::Char('l') | KeyCode::Right => {
                self.handle_enter();
                KeyAction::Handled
            },
            KeyCode::Char('h') | KeyCode::Left => {
                self.go_back();
                KeyAction::Handled
            },
            KeyCode::Char('/') => {
                self.enter_search();
                KeyAction::Handled
            },
            KeyCode::Char('t') => KeyAction::NextTheme,
            KeyCode::Char('T') => KeyAction::PrevTheme,
            KeyCode::Char('g') => {
                self.toggle_task_list_guide();
                KeyAction::Handled
            },
            KeyCode::Char('v') | KeyCode::Char('V') => {
                self.toggle_multi_select();
                KeyAction::Handled
            },
            KeyCode::Char(' ') => {
                if self.multi_select {
                    self.toggle_selection();
                }
                KeyAction::Handled
            },
            _ => KeyAction::Handled,
        }
    }

    /// Handles a key: changes the state as [`handle_key_spec`] says and tells
    /// the caller what is left to do.
    pub fn handle_key(&mut self, key: &KeyEvent) -> (res: KeyAction)
        requires
            old(self).wf(),
            !old(self).items_stale,
        ensures
            (final(self)@, res) == handle_key_spec(old(self)@, *key),
            final(self).wf(),
    {
        proof {
            crate::laws::lemma_handle_key_keeps_well_formed(self@, *key);
        }
        let may_quit = match self.focus {
            Focus::TabList | Focus::List | Focus::ConfirmationPrompt(_) => true,
            _ => false,
        };
        let quit_key = match key.code {
            KeyCode::Char('q') => true,
            KeyCode::Char('c') => modifiers_contain_control(key.modifiers),
            _ => false,
        };
        if may_quit && quit_key {
            return KeyAction::Quit;
        }
        if !self.drawable {
            return KeyAction::Handled;
        }
        self.switch_tab_with_key(key);
        match self.focus {
            Focus::FloatingWindow(_) => KeyAction::ToFloat,
            Focus::ConfirmationPrompt(_) => KeyAction::ToPrompt,
            Focus::Search => KeyAction::ToSearch,
            Focus::TabList => self.tab_list_key(key),
            Focus::List => self.list_key(key),
        }
    }

    /// The floating window has handled the key; `closed` is its answer.
    pub fn float_key_result(&mut self, closed: bool)
        requires
            old(self).wf(),
        ensures
            final(self)@ == after_float_key(old(self)@, closed),
            final(self).wf(),
    {
        let is_float = match self.focus {
            Focus::FloatingWindow(_) => true,
            _ => false,
        };
        if is_float && closed {
            self.focus = Focus::List;
        }
    }

    /// The confirmation has handled the key; `status` is its answer.
    pub fn confirm_status(&mut self, status: ConfirmStatus)
        requires
            old(self).wf(),
        ensures
            final(self)@ == after_confirm_status(old(self)@, status),
            final(self).wf(),
    {
        let is_prompt = match self.focus {
            Focus::ConfirmationPrompt(_) => true,
            _ => false,
        };
        if is_prompt {
            match status {
                ConfirmStatus::Abort => {
                    self.focus = Focus::List;
                    if !self.multi_select {
                        self.selected_commands.clear();
                    }
                    proof {
                        assert(nodes_view(self.selected_commands@) =~= after_confirm_status(
                            old(self)@,
                            status,
                        ).selected);
                    }
                },
                ConfirmStatus::Confirm => self.handle_confirm_command(),
                ConfirmStatus::Undecided => {},
            }
        }
    }

    /// The search bar has handled the key; `action` is its answer.
    pub fn search_action(&mut self, action: SearchAction)
        requires
            old(self).wf(),
        ensures
            final(self)@ == after_search_action(old(self)@, action),
            final(self).wf(),
    {
        let is_search = match self.focus {
            Focus::Search => true,
            _ => false,
        };
        if is_search {
            match action {
                SearchAction::Exit => self.exit_search(),
                SearchAction::Update => self.update_items(),
                SearchAction::Unchanged => {},
            }
        }
    }
}

} // verus!
