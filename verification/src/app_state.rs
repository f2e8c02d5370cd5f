//! The interface state, its mathematical model and its well-formedness.
use vstd::prelude::*;
use std::rc::Rc;
use ego_tree::NodeId;
use temp_dir::TempDir;
use crate::node::{Command, CommandView, ListEntry, ListNode, NodeView, EntryView, Tab, TabView, strings_view};

verus! {

/// A floating window: its content and its size in percent of the area.
pub struct Float<T> {
    pub content: T,
    pub width_percent: u16,
    pub height_percent: u16,
}

/// The confirmation asked before running commands: the names it lists.
pub struct ConfirmPrompt {
    pub names: Vec<String>,
}

/// What a floating window shows.
pub enum FloatContent {
    /// A text with a title (a description, or the guide of actions).
    Text { title: String, text: String },
    /// The preview of a command's script.
    Preview { title: String, command: Command },
    /// The commands being run.
    RunningCommand { commands: Vec<Command> },
}

/// Which part of the interface receives the keys.
pub enum Focus {
    ConfirmationPrompt(Float<ConfirmPrompt>),
    FloatingWindow(Float<FloatContent>),
    List,
    Search,
    TabList,
}

pub open spec fn commands_view(v: Seq<Command>) -> Seq<CommandView> {
    v.map_values(|c: Command| c@)
}

pub enum ContentView {
    Text { title: Seq<char>, text: Seq<char> },
    Preview { title: Seq<char>, command: CommandView },
    RunningCommand { commands: Seq<CommandView> },
}

impl View for FloatContent {
    type V = ContentView;

    open spec fn view(&self) -> ContentView {
        match self {
            FloatContent::Text { title, text } => ContentView::Text { title: title@, text: text@ },
            FloatContent::Preview { title, command } => ContentView::Preview {
                title: title@,
                command: command@,
            },
            FloatContent::RunningCommand { commands } => ContentView::RunningCommand {
                commands: commands_view(commands@),
            },
        }
    }
}

pub enum FocusView {
    ConfirmationPrompt { names: Seq<Seq<char>>, width: u16, height: u16 },
    FloatingWindow { content: ContentView, width: u16, height: u16 },
    List,
    Search,
    TabList,
}

impl View for Focus {
    type V = FocusView;

    open spec fn view(&self) -> FocusView {
        match self {
            Focus::ConfirmationPrompt(f) => FocusView::ConfirmationPrompt {
                names: strings_view(f.content.names@),
                width: f.width_percent,
                height: f.height_percent,
            },
            Focus::FloatingWindow(f) => FocusView::FloatingWindow {
                content: f.content@,
                width: f.width_percent,
                height: f.height_percent,
            },
            Focus::List => FocusView::List,
            Focus::Search => FocusView::Search,
            Focus::TabList => FocusView::TabList,
        }
    }
}

/// The state of the interface.
pub struct AppState {
    /// Kept so that the directory of the tabs' scripts lives as long as the state.
    pub _temp_dir: TempDir,
    /// The selected tab.
    pub current_tab: Option<usize>,
    /// Whether the terminal is large enough to draw.
    pub drawable: bool,
    /// The entries listed for the current directory (or the search).
    pub items: Vec<ListEntry>,
    /// Set when `items` no longer matches the current tab and directory.
    pub items_stale: bool,
    pub focus: Focus,
    pub multi_select: bool,
    pub selected_commands: Vec<Rc<ListNode>>,
    /// The selected row of the list; row 0 is `..` outside the tab's root.
    pub selection: Option<usize>,
    pub tabs: Vec<Tab>,
    /// The directories walked into from the tab's root, the root first.
    pub visit_stack: Vec<NodeId>,
}

/// The mathematical value of an [`AppState`].
pub struct AppView {
    pub current_tab: Option<usize>,
    pub drawable: bool,
    pub items: Seq<EntryView>,
    pub items_stale: bool,
    pub focus: FocusView,
    pub multi_select: bool,
    pub selected: Seq<NodeView>,
    pub selection: Option<usize>,
    pub tabs: Seq<TabView>,
    pub visit_stack: Seq<NodeId>,
}

pub open spec fn entries_view(v: Seq<ListEntry>) -> Seq<EntryView> {
    v.map_values(|e: ListEntry| e@)
}

pub open spec fn nodes_view(v: Seq<Rc<ListNode>>) -> Seq<NodeView> {
    v.map_values(|n: Rc<ListNode>| n@)
}

pub open spec fn tabs_view(v: Seq<Tab>) -> Seq<TabView> {
    v.map_values(|t: Tab| t@)
}

impl View for AppState {
    type V = AppView;

    open spec fn view(&self) -> AppView {
        AppView {
            current_tab: self.current_tab,
            drawable: self.drawable,
            items: entries_view(self.items@),
            items_stale: self.items_stale,
            focus: self.focus@,
            multi_select: self.multi_select,
            selected: nodes_view(self.selected_commands@),
            selection: self.selection,
            tabs: tabs_view(self.tabs@),
            visit_stack: self.visit_stack@,
        }
    }
}

/// No node occurs twice in `s`.
pub open spec fn no_duplicates(s: Seq<NodeView>) -> bool {
    forall|i: int, j: int| 0 <= i < j < s.len() ==> s[i] != s[j]
}

/// Whether the selected tab lets several commands be marked.
pub open spec fn tab_multi_selectable(s: AppView) -> bool {
    let i = match s.current_tab {
        Some(i) => i,
        None => 0usize,
    };
    i < s.tabs.len() && s.tabs[i as int].multi_selectable
}

/// What holds of every state the library hands out.
pub open spec fn well_formed(s: AppView) -> bool {
    &&& 0 < s.tabs.len() <= usize::MAX
    &&& s.current_tab matches Some(i) && i < s.tabs.len()
    &&& s.visit_stack.len() >= 1
    &&& s.multi_select ==> tab_multi_selectable(s)
    &&& no_duplicates(s.selected)
    &&& (!s.multi_select && !(s.focus is ConfirmationPrompt)) ==> s.selected.len() == 0
}

impl AppState {
    pub open spec fn wf(&self) -> bool {
        well_formed(self@)
    }
}


/// The state right after loading `tabs`, before its listing is computed.
pub open spec fn initial_view(tabs: Seq<TabView>) -> AppView {
    AppView {
        current_tab: Some(0),
        drawable: false,
        items: Seq::empty(),
        items_stale: true,
        focus: FocusView::List,
        multi_select: false,
        selected: Seq::empty(),
        selection: Some(0),
        tabs,
        visit_stack: seq![tabs[0].root],
    }
}

impl AppState {
    /// A state on `tabs`, showing the root of the first tab. Its listing is
    /// stale until the caller hands it over with [`AppState::set_items`].
    pub fn new(temp_dir: TempDir, tabs: Vec<Tab>) -> (res: AppState)
        requires
            tabs@.len() > 0,
        ensures
            res@ == initial_view(tabs_view(tabs@)),
            res.wf(),
    {
        let n_tabs = tabs.len();
        let root = tabs[0].root;
        let mut visit_stack: Vec<NodeId> = Vec::new();
        visit_stack.push(root);
        let mut state = AppState {
            _temp_dir: temp_dir,
            current_tab: Some(0),
            drawable: false,
            items: Vec::new(),
            items_stale: false,
            focus: Focus::List,
            multi_select: false,
            selected_commands: Vec::new(),
            selection: Some(0),
            tabs,
            visit_stack,
        };
        state.update_items();
        proof {
            assert(state@.tabs.len() == n_tabs);
            assert(state@.visit_stack =~= seq![state@.tabs[0].root]);
            assert(state@.items =~= Seq::<EntryView>::empty());
            assert(state@.selected =~= Seq::<NodeView>::empty());
        }
        state
    }

    /// Hands over the listing computed for the current tab and directory.
    pub fn set_items(&mut self, items: Vec<ListEntry>)
        requires
            old(self).wf(),
        ensures
            final(self).wf(),
            final(self)@ == (AppView { items: entries_view(items@), items_stale: false, ..old(self)@ }),
    {
        self.items = items;
        self.items_stale = false;
    }

    /// Takes over the selected row as the drawn list adjusted it.
    pub fn set_selection(&mut self, selection: Option<usize>)
        requires
            old(self).wf(),
        ensures
            final(self).wf(),
            final(self)@ == (AppView { selection, ..old(self)@ }),
    {
        self.selection = selection;
    }

    /// The index of the selected tab.
    pub fn current_tab_index(&self) -> (res: usize)
        requires
            self.wf(),
        ensures
            Some(res) == self@.current_tab,
    {
        self.current_tab.unwrap()
    }

    /// The current directory: the last one walked into.
    pub fn current_dir(&self) -> (res: NodeId)
        requires
            self.wf(),
        ensures
            res == self@.visit_stack.last(),
    {
        self.visit_stack[self.visit_stack.len() - 1]
    }
}

} // verus!
