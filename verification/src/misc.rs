//! Navigation, selection and the floating windows opened from the list.
use vstd::prelude::*;
use vstd::string::StringExecFns;
use std::rc::Rc;
use crate::node::{Command, CommandView, ListEntry, ListNode, NodeView, EntryView};
use crate::app_state::{AppState, AppView, ContentView, Float, FloatContent, Focus, FocusView, ConfirmPrompt, commands_view, nodes_view, tab_multi_selectable};
use crate::external::rc_clone;

verus! {

/// The guide of the two-letter tags that command names carry.
pub const ACTIONS_GUIDE: &'static str = "List of important tasks performed by commands' names:

D  - disk modifications (ex. partitioning) (privileged)
FI - flatpak installation
FM - file modification
I  - installation (privileged)
MP - package manager actions
SI - full system installation
SS - systemd actions (privileged)
RP - package removal

P* - privileged *
";

// ---------------------------------------------------------------------------
// What the state reads.

/// The current directory is the tab's root.
pub open spec fn at_root(s: AppView) -> bool {
    s.visit_stack.len() == 1
}

/// The selected row, row 0 when nothing is selected.
pub open spec fn selected_index(s: AppView) -> usize {
    match s.selection {
        Some(i) => i,
        None => 0usize,
    }
}

/// The selected row is the `..` row that leads to the parent directory.
pub open spec fn selected_is_up_dir(s: AppView) -> bool {
    !at_root(s) && selected_index(s) == 0
}

/// The index in `items` of the selected row (outside the root, row 0 is `..`).
pub open spec fn entry_index(s: AppView) -> int {
    if at_root(s) {
        selected_index(s) as int
    } else {
        selected_index(s) - 1
    }
}

/// The listed entry on the selected row, if the row holds one.
pub open spec fn selected_entry(s: AppView) -> Option<EntryView> {
    if selected_is_up_dir(s) {
        None
    } else if 0 <= entry_index(s) < s.items.len() {
        Some(s.items[entry_index(s)])
    } else {
        None
    }
}

/// The selected row is a directory.
pub open spec fn selected_is_dir(s: AppView) -> bool {
    selected_entry(s) matches Some(e) && e.has_children
}

/// The command node on the selected row, if it holds one.
pub open spec fn selected_node(s: AppView) -> Option<NodeView> {
    match selected_entry(s) {
        Some(e) => if e.has_children {
            None
        } else {
            Some(e.node)
        },
        None => None,
    }
}

/// A row is selected and it is neither `..` nor a directory.
pub open spec fn selected_is_cmd(s: AppView) -> bool {
    s.selection is Some && !(selected_is_up_dir(s) || selected_is_dir(s))
}

// ---------------------------------------------------------------------------
// What the operations make of the state.

/// The listing is to be recomputed; outside a multi-selectable tab the
/// multi-selection ends and no command stays marked.
pub open spec fn after_update_items(s: AppView) -> AppView {
    if tab_multi_selectable(s) {
        AppView { items_stale: true, ..s }
    } else {
        AppView { items_stale: true, multi_select: false, selected: Seq::empty(), ..s }
    }
}

pub open spec fn after_enter_parent_directory(s: AppView) -> AppView {
    after_update_items(AppView { visit_stack: s.visit_stack.drop_last(), selection: Some(0), ..s })
}

pub open spec fn after_enter_search(s: AppView) -> AppView {
    AppView { focus: FocusView::Search, selection: None, ..s }
}

pub open spec fn after_exit_search(s: AppView) -> AppView {
    after_update_items(AppView { selection: Some(0), focus: FocusView::List, ..s })
}

pub open spec fn after_go_back(s: AppView) -> AppView {
    if at_root(s) {
        AppView { focus: FocusView::TabList, ..s }
    } else {
        after_enter_parent_directory(s)
    }
}

pub open spec fn after_go_to_selected_dir(s: AppView) -> AppView {
    if selected_is_up_dir(s) {
        after_enter_parent_directory(s)
    } else {
        match selected_entry(s) {
            Some(e) => if e.has_children {
                after_update_items(
                    AppView { visit_stack: s.visit_stack.push(e.id), selection: Some(0), ..s },
                )
            } else {
                s
            },
            None => s,
        }
    }
}

pub open spec fn with_float(s: AppView, content: ContentView, width: u16, height: u16) -> AppView {
    AppView { focus: FocusView::FloatingWindow { content, width, height }, ..s }
}

pub open spec fn node_commands(nodes: Seq<NodeView>) -> Seq<CommandView> {
    nodes.map_values(|n: NodeView| n.command)
}

pub open spec fn node_names(nodes: Seq<NodeView>) -> Seq<Seq<char>> {
    nodes.map_values(|n: NodeView| n.name)
}

/// The marked commands are run in a floating window and are no longer marked.
pub open spec fn after_confirm_command(s: AppView) -> AppView {
    AppView {
        selected: Seq::empty(),
        ..with_float(
            s,
            ContentView::RunningCommand { commands: node_commands(s.selected) },
            80,
            80,
        )
    }
}

/// The commands a confirmation asks about: the marked ones, or else the
/// selected command.
pub open spec fn marked_for_prompt(s: AppView) -> Seq<NodeView> {
    if s.selected.len() == 0 {
        match selected_node(s) {
            Some(n) => seq![n],
            None => s.selected,
        }
    } else {
        s.selected
    }
}

pub open spec fn after_handle_enter(s: AppView) -> AppView {
    if selected_is_cmd(s) {
        let marked = marked_for_prompt(s);
        AppView {
            selected: marked,
            focus: FocusView::ConfirmationPrompt { names: node_names(marked), width: 40, height: 40 },
            ..s
        }
    } else {
        after_go_to_selected_dir(s)
    }
}

/// Back to the root of the selected tab.
pub open spec fn after_refresh_tab(s: AppView) -> AppView {
    after_update_items(
        AppView {
            visit_stack: seq![s.tabs[s.current_tab.unwrap() as int].root],
            selection: Some(0),
            ..s
        },
    )
}

pub open spec fn after_toggle_multi_select(s: AppView) -> AppView {
    if tab_multi_selectable(s) {
        if s.multi_select {
            AppView { multi_select: false, selected: Seq::empty(), ..s }
        } else {
            AppView { multi_select: true, ..s }
        }
    } else {
        s
    }
}

/// Holds of the nodes other than `n`.
pub open spec fn other_than(n: NodeView) -> spec_fn(NodeView) -> bool {
    |c: NodeView| c != n
}

/// `s` without any occurrence of `n`.
pub open spec fn without(s: Seq<NodeView>, n: NodeView) -> Seq<NodeView> {
    s.filter(other_than(n))
}

pub open spec fn after_toggle_selection(s: AppView) -> AppView {
    match selected_node(s) {
        Some(n) => if s.selected.contains(n) {
            AppView { selected: without(s.selected, n), ..s }
        } else {
            AppView { selected: s.selected.push(n), ..s }
        },
        None => s,
    }
}

pub open spec fn after_toggle_task_list_guide(s: AppView) -> AppView {
    with_float(
        s,
        ContentView::Text { title: "Important Actions Guide"@, text: ACTIONS_GUIDE@ },
        80,
        80,
    )
}

pub open spec fn after_enable_description(s: AppView) -> AppView {
    match selected_node(s) {
        Some(n) => with_float(
            s,
            ContentView::Text { title: "Command Description"@, text: n.description },
            80,
            80,
        ),
        None => s,
    }
}

pub open spec fn preview_title(n: NodeView) -> Seq<char> {
    "[Preview] - "@ + n.name
}

/// The preview of the selected command opens in a floating window.
pub open spec fn after_open_preview(s: AppView) -> AppView {
    match selected_node(s) {
        Some(n) => with_float(
            s,
            ContentView::Preview { title: preview_title(n), command: n.command },
            80,
            80,
        ),
        None => s,
    }
}

// ---------------------------------------------------------------------------
// The operations.

impl AppState {
    pub fn at_root(&self) -> (res: bool)
        ensures
            res == at_root(self@),
    {
        self.visit_stack.len() == 1
    }

    fn selected_index(&self) -> (res: usize)
        ensures
            res == selected_index(self@),
    {
        match self.selection {
            Some(i) => i,
            None => 0,
        }
    }

    /// The selected row's entry, found as [`selected_entry`] says.
    fn selected_entry(&self) -> (res: Option<&ListEntry>)
        ensures
            match res {
                Some(e) => selected_entry(self@) == Some(e@),
                None => selected_entry(self@) is None,
            },
    {
        let mut selected_index = self.selected_index();
        if !self.at_root() && selected_index == 0 {
            return None;
        }
        if !self.at_root() {
            selected_index = selected_index.saturating_sub(1);
        }
        if selected_index < self.items.len() {
            Some(&self.items[selected_index])
        } else {
            None
        }
    }

    pub(crate) fn selected_node_rc(&self) -> (res: Option<Rc<ListNode>>)
        ensures
            match res {
                Some(n) => selected_node(self@) == Some(n@),
                None => selected_node(self@) is None,
            },
    {
        match self.selected_entry() {
            Some(item) => {
                if !item.has_children {
                    Some(rc_clone(&item.node))
                } else {
                    None
                }
            },
            None => None,
        }
    }

    /// The command node on the selected row, if it holds one.
    pub fn get_selected_node(&self) -> (res: Option<Rc<ListNode>>)
        requires
            !self.items_stale,
        ensures
            match res {
                Some(n) => selected_node(self@) == Some(n@),
                None => selected_node(self@) is None,
            },
    {
        self.selected_node_rc()
    }

    /// The description of the command on the selected row, if it holds one.
    pub fn get_selected_description(&self) -> (res: Option<String>)
        requires
            !self.items_stale,
        ensures
            match res {
                Some(d) => selected_node(self@) matches Some(n) && d@ == n.description,
                None => selected_node(self@) is None,
            },
    {
        self.selected_description()
    }

    fn selected_description(&self) -> (res: Option<String>)
        ensures
            match res {
                Some(d) => selected_node(self@) matches Some(n) && d@ == n.description,
                None => selected_node(self@) is None,
            },
    {
        match self.selected_node_rc() {
            Some(node) => Some(node.description.clone()),
            None => None,
        }
    }

    pub fn selected_item_is_up_dir(&self) -> (res: bool)
        ensures
            res == selected_is_up_dir(self@),
    {
        let selected_index = self.selected_index();
        !self.at_root() && selected_index == 0
    }

    fn is_dir_row(&self) -> (res: bool)
        ensures
            res == selected_is_dir(self@),
    {
        match self.selected_entry() {
            Some(item) => item.has_children,
            None => false,
        }
    }

    fn is_cmd_row(&self) -> (res: bool)
        ensures
            res == selected_is_cmd(self@),
    {
        self.selection.is_some() && !(self.selected_item_is_up_dir() || self.is_dir_row())
    }

    /// Whether the selected row is a directory.
    pub fn selected_item_is_dir(&self) -> (res: bool)
        requires
            !self.items_stale,
        ensures
            res == selected_is_dir(self@),
    {
        self.is_dir_row()
    }

    /// Whether a row is selected that is neither `..` nor a directory.
    pub fn selected_item_is_cmd(&self) -> (res: bool)
        requires
            !self.items_stale,
        ensures
            res == selected_is_cmd(self@),
    {
        self.is_cmd_row()
    }

    pub fn is_current_tab_multi_selectable(&self) -> (res: bool)
        ensures
            res == tab_multi_selectable(self@),
    {
        let index = match self.current_tab {
            Some(i) => i,
            None => 0,
        };
        if index < self.tabs.len() {
            self.tabs[index].multi_selectable
        } else {
            false
        }
    }

    /// Marks the listing for recomputation and ends the multi-selection
    /// outside a multi-selectable tab.
    pub(crate) fn update_items(&mut self)
        requires
            old(self).current_tab is Some,
            old(self).visit_stack@.len() > 0,
        ensures
            final(self)@ == after_update_items(old(self)@),
    {
        self.items_stale = true;
        if !self.is_current_tab_multi_selectable() {
            self.multi_select = false;
            self.selected_commands.clear();
        }
        proof {
            assert(nodes_view(self.selected_commands@) =~= after_update_items(old(self)@).selected);
        }
    }

    fn enter_parent_directory(&mut self)
        requires
            old(self).current_tab is Some,
            old(self).visit_stack@.len() > 1,
        ensures
            final(self)@ == after_enter_parent_directory(old(self)@),
    {
        self.visit_stack.pop();
        self.selection = Some(0);
        self.update_items();
    }

    pub(crate) fn enter_search(&mut self)
        ensures
            final(self)@ == after_enter_search(old(self)@),
    {
        self.focus = Focus::Search;
        self.selection = None;
    }

    pub(crate) fn exit_search(&mut self)
        requires
            old(self).current_tab is Some,
            old(self).visit_stack@.len() > 0,
        ensures
            final(self)@ == after_exit_search(old(self)@),
    {
        self.selection = Some(0);
        self.focus = Focus::List;
        self.update_items();
    }

    pub(crate) fn go_back(&mut self)
        requires
            old(self).current_tab is Some,
            old(self).visit_stack@.len() > 0,
        ensures
            final(self)@ == after_go_back(old(self)@),
    {
        if self.at_root() {
            self.focus = Focus::TabList;
        } else {
            self.enter_parent_directory();
        }
    }

    pub(crate) fn go_to_selected_dir(&mut self)
        requires
            old(self).current_tab is Some,
            old(self).visit_stack@.len() > 0,
        ensures
            final(self)@ == after_go_to_selected_dir(old(self)@),
    {
        if self.selected_item_is_up_dir() {
            self.enter_parent_directory();
            return;
        }
        let next = match self.selected_entry() {
            Some(item) => if item.has_children {
                Some(item.id)
            } else {
                None
            },
            None => None,
        };
        match next {
            Some(id) => {
                self.visit_stack.push(id);
                self.selection = Some(0);
                self.update_items();
            },
            None => {},
        }
    }

    fn spawn_float(&mut self, content: FloatContent, width: u16, height: u16)
        ensures
            final(self)@ == with_float(old(self)@, content@, width, height),
    {
        self.focus = Focus::FloatingWindow(
            Float { content, width_percent: width, height_percent: height },
        );
    }

    pub(crate) fn handle_confirm_command(&mut self)
        ensures
            final(self)@ == after_confirm_command(old(self)@),
    {
        let mut commands: Vec<Command> = Vec::new();
        let mut i: usize = 0;
        while i < self.selected_commands.len()
            invariant
                i <= self.selected_commands@.len(),
                self@ == old(self)@,
                commands@.len() == i,
                forall|j: int| 0 <= j < i ==> commands@[j]@ == self.selected_commands@[j]@.command,
            decreases self.selected_commands@.len() - i,
        {
            commands.push(self.selected_commands[i].command.duplicate());
            i = i + 1;
        }
        proof {
            assert(commands_view(commands@) =~= node_commands(old(self)@.selected));
        }
        self.spawn_float(FloatContent::RunningCommand { commands }, 80, 80);
        self.selected_commands.clear();
        proof {
            assert(nodes_view(self.selected_commands@) =~= Seq::<NodeView>::empty());
        }
    }

    pub(crate) fn handle_enter(&mut self)
        requires
            old(self).current_tab is Some,
            old(self).visit_stack@.len() > 0,
        ensures
            final(self)@ == after_handle_enter(old(self)@),
    {
        if self.is_cmd_row() {
            let ghost s0 = self@;
            if self.selected_commands.len() == 0 {
                match self.selected_node_rc() {
                    Some(node) => self.selected_commands.push(node),
                    None => {},
                }
            }
            proof {
                assert(nodes_view(self.selected_commands@) =~= marked_for_prompt(s0));
            }
            let mut names: Vec<String> = Vec::new();
            let mut i: usize = 0;
            while i < self.selected_commands.len()
                invariant
                    i <= self.selected_commands@.len(),
                    names@.len() == i,
                    forall|j: int| 0 <= j < i ==> names@[j]@ == self.selected_commands@[j]@.name,
                decreases self.selected_commands@.len() - i,
            {
                names.push(self.selected_commands[i].name.clone());
                i = i + 1;
            }
            proof {
                assert(crate::node::strings_view(names@) =~= node_names(marked_for_prompt(s0)));
            }
            self.focus = Focus::ConfirmationPrompt(
                Float { content: ConfirmPrompt { names }, width_percent: 40, height_percent: 40 },
            );
        } else {
            self.go_to_selected_dir();
        }
    }

    pub(crate) fn refresh_tab(&mut self)
        requires
            old(self).current_tab matches Some(i) && i < old(self).tabs@.len(),
        ensures
            final(self)@ == after_refresh_tab(old(self)@),
    {
        let index = self.current_tab.unwrap();
        let root = self.tabs[index].root;
        let mut stack: Vec<ego_tree::NodeId> = Vec::new();
        stack.push(root);
        proof {
            assert(stack@ =~= seq![old(self)@.tabs[index as int].root]);
        }
        self.visit_stack = stack;
        self.selection = Some(0);
        self.update_items();
    }

    pub(crate) fn toggle_multi_select(&mut self)
        ensures
            final(self)@ == after_toggle_multi_select(old(self)@),
    {
        if self.is_current_tab_multi_selectable() {
            self.multi_select = !self.multi_select;
            if !self.multi_select {
                self.selected_commands.clear();
            }
        }
        proof {
            assert(nodes_view(self.selected_commands@) =~= after_toggle_multi_select(old(self)@).selected);
        }
    }

    /// Whether a node equal to `node` is marked.
    pub(crate) fn is_marked(&self, node: &ListNode) -> (res: bool)
        ensures
            res == self@.selected.contains(node@),
    {
        let mut i: usize = 0;
        while i < self.selected_commands.len()
            invariant
                i <= self.selected_commands@.len(),
                forall|j: int| 0 <= j < i ==> self.selected_commands@[j]@ != node@,
            decreases self.selected_commands@.len() - i,
        {
            if self.selected_commands[i].same_as(node) {
                proof {
                    assert(self@.selected[i as int] == node@);
                }
                return true;
            }
            i = i + 1;
        }
        false
    }

    pub(crate) fn toggle_selection(&mut self)
        ensures
            final(self)@ == after_toggle_selection(old(self)@),
    {
        match self.selected_node_rc() {
            Some(command) => {
                if self.is_marked(&command) {
                    let ghost pred = other_than(command@);
                    let mut kept: Vec<Rc<ListNode>> = Vec::new();
                    let mut i: usize = 0;
                    while i < self.selected_commands.len()
                        invariant
                            i <= self.selected_commands@.len(),
                            pred == other_than(command@),
                            nodes_view(kept@) == nodes_view(self.selected_commands@).take(
                                i as int,
                            ).filter(pred),
                        decreases self.selected_commands@.len() - i,
                    {
                        let ghost before = nodes_view(self.selected_commands@).take(i as int);
                        proof {
                            assert(nodes_view(self.selected_commands@).take(i + 1) =~= before.push(
                                self.selected_commands@[i as int]@,
                            ));
                            before.lemma_filter_push(self.selected_commands@[i as int]@, pred);
                        }
                        if !self.selected_commands[i].same_as(&command) {
                            kept.push(rc_clone(&self.selected_commands[i]));
                            proof {
                                assert(nodes_view(kept@) =~= nodes_view(kept@).drop_last().push(
                                    kept@.last()@,
                                ));
                            }
                        }
                        i = i + 1;
                    }
                    proof {
                        assert(nodes_view(self.selected_commands@).take(
                            self.selected_commands@.len() as int,
                        ) =~= nodes_view(self.selected_commands@));
                    }
                    self.selected_commands = kept;
                } else {
                    self.selected_commands.push(command);
                    proof {
                        assert(nodes_view(self.selected_commands@) =~= old(self)@.selected.push(
                            command@,
                        ));
                    }
                }
            },
            None => {},
        }
    }

    pub(crate) fn toggle_task_list_guide(&mut self)
        ensures
            final(self)@ == after_toggle_task_list_guide(old(self)@),
    {
        self.spawn_float(
            FloatContent::Text {
                title: "Important Actions Guide".to_owned(),
                text: ACTIONS_GUIDE.to_owned(),
            },
            80,
            80,
        );
    }

    pub(crate) fn enable_description(&mut self)
        ensures
            final(self)@ == after_enable_description(old(self)@),
    {
        match self.selected_description() {
            Some(command_description) => {
                self.spawn_float(
                    FloatContent::Text {
                        title: "Command Description".to_owned(),
                        text: command_description,
                    },
                    80,
                    80,
                );
            },
            None => {},
        }
    }

    /// The title and command of the preview of the selected command.
    pub fn preview_request(&self) -> (res: Option<(String, Command)>)
        requires
            !self.items_stale,
        ensures
            match res {
                Some((title, command)) => selected_node(self@) matches Some(n) && title@
                    == preview_title(n) && command@ == n.command,
                None => selected_node(self@) is None,
            },
    {
        match self.selected_node_rc() {
            Some(list_node) => {
                let mut preview_title = "[Preview] - ".to_owned();
                preview_title.append(list_node.name.as_str());
                Some((preview_title, list_node.command.duplicate()))
            },
            None => None,
        }
    }

    /// Shows the preview of the selected command, once the caller has found
    /// that the command has one. The preview is reached from the command
    /// list; it is never opened over a confirmation.
    pub fn open_preview(&mut self)
        requires
            old(self).wf(),
            !old(self).items_stale,
            !(old(self)@.focus is ConfirmationPrompt),
        ensures
            final(self)@ == after_open_preview(old(self)@),
            final(self).wf(),
    {
        match self.preview_request() {
            Some((title, command)) => {
                self.spawn_float(FloatContent::Preview { title, command }, 80, 80);
            },
            None => {},
        }
    }
}

} // verus!
