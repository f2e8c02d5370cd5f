//! The entries of the command tree: tabs, nodes and the listed entries.
use vstd::prelude::*;
use std::rc::Rc;
use ego_tree::NodeId;

verus! {

/// What a node runs.
#[derive(Debug, Clone, PartialEq, Eq)]
pub enum Command {
    Raw(String),
    LocalFile { executable: String, args: Vec<String>, file: String },
    Empty,
}

/// The mathematical value of a [`Command`].
pub enum CommandView {
    Raw(Seq<char>),
    LocalFile { executable: Seq<char>, args: Seq<Seq<char>>, file: Seq<char> },
    Empty,
}

pub open spec fn strings_view(v: Seq<String>) -> Seq<Seq<char>> {
    v.map_values(|s: String| s@)
}

impl View for Command {
    type V = CommandView;

    open spec fn view(&self) -> CommandView {
        match self {
            Command::Raw(s) => CommandView::Raw(s@),
            Command::LocalFile { executable, args, file } => CommandView::LocalFile {
                executable: executable@,
                args: strings_view(args@),
                file: file@,
            },
            Command::Empty => CommandView::Empty,
        }
    }
}

/// One node of a tab's tree: a command or a directory of further nodes.
#[derive(Debug, Clone, PartialEq, Eq)]
pub struct ListNode {
    pub name: String,
    pub description: String,
    pub command: Command,
    pub task_list: String,
    pub multi_select: bool,
}

/// The mathematical value of a [`ListNode`].
pub struct NodeView {
    pub name: Seq<char>,
    pub description: Seq<char>,
    pub command: CommandView,
    pub task_list: Seq<char>,
    pub multi_select: bool,
}

impl View for ListNode {
    type V = NodeView;

    open spec fn view(&self) -> NodeView {
        NodeView {
            name: self.name@,
            description: self.description@,
            command: self.command@,
            task_list: self.task_list@,
            multi_select: self.multi_select,
        }
    }
}

/// An entry of the list shown for the current directory or search.
pub struct ListEntry {
    pub has_children: bool,
    pub id: NodeId,
    pub node: Rc<ListNode>,
}

pub struct EntryView {
    pub has_children: bool,
    pub id: NodeId,
    pub node: NodeView,
}

impl View for ListEntry {
    type V = EntryView;

    open spec fn view(&self) -> EntryView {
        EntryView { has_children: self.has_children, id: self.id, node: self.node@ }
    }
}

/// What the state reads of a tab: its name, whether several of its commands
/// may be marked at once, and the id of its tree's root.
pub struct Tab {
    pub name: String,
    pub multi_selectable: bool,
    pub root: NodeId,
}

pub struct TabView {
    pub name: Seq<char>,
    pub multi_selectable: bool,
    pub root: NodeId,
}

impl View for Tab {
    type V = TabView;

    open spec fn view(&self) -> TabView {
        TabView { name: self.name@, multi_selectable: self.multi_selectable, root: self.root }
    }
}

fn strings_equal(a: &Vec<String>, b: &Vec<String>) -> (res: bool)
    ensures
        res == (strings_view(a@) == strings_view(b@)),
{
    if a.len() != b.len() {
        proof {
            assert(strings_view(a@).len() != strings_view(b@).len());
        }
        return false;
    }
    let mut i: usize = 0;
    while i < a.len()
        invariant
            a.len() == b.len(),
            i <= a.len(),
            forall|j: int| 0 <= j < i ==> a@[j]@ == b@[j]@,
        decreases a.len() - i,
    {
        if a[i] != b[i] {
            proof {
                assert(strings_view(a@)[i as int] != strings_view(b@)[i as int]);
            }
            return false;
        }
        i = i + 1;
    }
    proof {
        assert(strings_view(a@) =~= strings_view(b@));
    }
    true
}

fn strings_cloned(v: &Vec<String>) -> (res: Vec<String>)
    ensures
        strings_view(res@) == strings_view(v@),
{
    let mut res: Vec<String> = Vec::new();
    let mut i: usize = 0;
    while i < v.len()
        invariant
            i <= v.len(),
            res@.len() == i,
            forall|j: int| 0 <= j < i ==> res@[j]@ == v@[j]@,
        decreases v.len() - i,
    {
        res.push(v[i].clone());
        i = i + 1;
    }
    proof {
        assert(strings_view(res@) =~= strings_view(v@));
    }
    res
}

impl Command {
    /// Whether two commands are equal.
    pub fn same_as(&self, other: &Command) -> (res: bool)
        ensures
            res == (self@ == other@),
    {
        match self {
            Command::Raw(a) => match other {
                Command::Raw(b) => *a == *b,
                _ => false,
            },
            Command::LocalFile { executable: e1, args: a1, file: f1 } => match other {
                Command::LocalFile { executable: e2, args: a2, file: f2 } => {
                    let same_args = strings_equal(a1, a2);
                    *e1 == *e2 && same_args && *f1 == *f2
                },
                _ => false,
            },
            Command::Empty => match other {
                Command::Empty => true,
                _ => false,
            },
        }
    }

    /// A copy of the command.
    pub fn duplicate(&self) -> (res: Command)
        ensures
            res@ == self@,
    {
        match self {
            Command::Raw(s) => Command::Raw(s.clone()),
            Command::LocalFile { executable, args, file } => Command::LocalFile {
                executable: executable.clone(),
                args: strings_cloned(args),
                file: file.clone(),
            },
            Command::Empty => Command::Empty,
        }
    }
}

impl ListNode {
    /// Whether two nodes are equal, field by field.
    pub fn same_as(&self, other: &ListNode) -> (res: bool)
        ensures
            res == (self@ == other@),
    {
        self.name == other.name && self.description == other.description
            && self.command.same_as(&other.command) && self.task_list == other.task_list
            && self.multi_select == other.multi_select
    }
}

} // verus!
