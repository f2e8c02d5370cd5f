//! The shortcut hints shown at the bottom of the interface.
use vstd::prelude::*;
use crate::app_state::{AppState, AppView, Focus, FocusView, tab_multi_selectable};
use crate::misc::{at_root, selected_is_up_dir, selected_is_dir};

verus! {

/// A hint: a named action and the keys that do it.
#[derive(Debug, Clone, Copy, PartialEq, Eq)]
pub enum Hint {
    ExitLinutil,
    FocusTabList,
    GoToParentFromUpDir,
    GoToParent,
    GoToSelectedDir,
    RunSelectedCommand,
    EnablePreview,
    CommandDescription,
    SelectAbove,
    SelectBelow,
    NextTheme,
    PrevTheme,
    ToggleMultiSelect,
    SelectMultiple,
    NextTab,
    PrevTab,
    ActionsGuide,
    FinishSearch,
    FocusActionList,
}

/// The text of a hint: the action's name and its keys.
pub struct Shortcut {
    pub name: &'static str,
    pub keys: Vec<&'static str>,
}

/// The name shown for a hint.
pub open spec fn hint_name(h: Hint) -> Seq<char> {
    match h {
        Hint::ExitLinutil => "Exit linutil"@,
        Hint::FocusTabList => "Focus tab list"@,
        Hint::GoToParentFromUpDir => "Go to parent directory"@,
        Hint::GoToParent => "Go to parent directory"@,
        Hint::GoToSelectedDir => "Go to selected dir"@,
        Hint::RunSelectedCommand => "Run selected command"@,
        Hint::EnablePreview => "Enable preview"@,
        Hint::CommandDescription => "Command Description"@,
        Hint::SelectAbove => "Select item above"@,
        Hint::SelectBelow => "Select item below"@,
        Hint::NextTheme => "Next theme"@,
        Hint::PrevTheme => "Previous theme"@,
        Hint::ToggleMultiSelect => "Toggle multi-selection mode"@,
        Hint::SelectMultiple => "Select multiple commands"@,
        Hint::NextTab => "Next tab"@,
        Hint::PrevTab => "Previous tab"@,
        Hint::ActionsGuide => "Important actions guide"@,
        Hint::FinishSearch => "Finish search"@,
        Hint::FocusActionList => "Focus action list"@,
    }
}

/// The keys shown for a hint.
pub open spec fn hint_keys(h: Hint) -> Seq<Seq<char>> {
    match h {
        Hint::ExitLinutil => seq!["q"@, "CTRL-c"@],
        Hint::FocusTabList => seq!["h"@, "Left"@],
        Hint::GoToParentFromUpDir => seq!["l"@, "Right"@, "Enter"@, "h"@, "Left"@],
        Hint::GoToParent => seq!["h"@, "Left"@],
        Hint::GoToSelectedDir => seq!["l"@, "Right"@, "Enter"@],
        Hint::RunSelectedCommand => seq!["l"@, "Right"@, "Enter"@],
        Hint::EnablePreview => seq!["p"@],
        Hint::CommandDescription => seq!["d"@],
        Hint::SelectAbove => seq!["k"@, "Up"@],
        Hint::SelectBelow => seq!["j"@, "Down"@],
        Hint::NextTheme => seq!["t"@],
        Hint::PrevTheme => seq!["T"@],
        Hint::ToggleMultiSelect => seq!["v"@],
        Hint::SelectMultiple => seq!["Space"@],
        Hint::NextTab => seq!["Tab"@],
        Hint::PrevTab => seq!["Shift-Tab"@],
        Hint::ActionsGuide => seq!["g"@],
        Hint::FinishSearch => seq!["Enter"@],
        Hint::FocusActionList => seq!["l"@, "Right"@, "Enter"@],
    }
}

pub open spec fn strs_view(v: Seq<&'static str>) -> Seq<Seq<char>> {
    v.map_values(|s: &'static str| s@)
}

impl Hint {
    /// The name and keys of the hint.
    pub fn shortcut(&self) -> (res: Shortcut)
        ensures
            res.name@ == hint_name(*self),
            strs_view(res.keys@) == hint_keys(*self),
    {
        let (name, keys): (&'static str, Vec<&'static str>) = match self {
            Hint::ExitLinutil => ("Exit linutil", vec!["q", "CTRL-c"]),
            Hint::FocusTabList => ("Focus tab list", vec!["h", "Left"]),
            Hint::GoToParentFromUpDir => (
                "Go to parent directory",
                vec!["l", "Right", "Enter", "h", "Left"],
            ),
            Hint::GoToParent => ("Go to parent directory", vec!["h", "Left"]),
            Hint::GoToSelectedDir => ("Go to selected dir", vec!["l", "Right", "Enter"]),
            Hint::RunSelectedCommand => ("Run selected command", vec!["l", "Right", "Enter"]),
            Hint::EnablePreview => ("Enable preview", vec!["p"]),
            Hint::CommandDescription => ("Command Description", vec!["d"]),
            Hint::SelectAbove => ("Select item above", vec!["k", "Up"]),
            Hint::SelectBelow => ("Select item below", vec!["j", "Down"]),
            Hint::NextTheme => ("Next theme", vec!["t"]),
            Hint::PrevTheme => ("Previous theme", vec!["T"]),
            Hint::ToggleMultiSelect => ("Toggle multi-selection mode", vec!["v"]),
            Hint::SelectMultiple => ("Select multiple commands", vec!["Space"]),
            Hint::NextTab => ("Next tab", vec!["Tab"]),
            Hint::PrevTab => ("Previous tab", vec!["Shift-Tab"]),
            Hint::ActionsGuide => ("Important actions guide", vec!["g"]),
            Hint::FinishSearch => ("Finish search", vec!["Enter"]),
            Hint::FocusActionList => ("Focus action list", vec!["l", "Right", "Enter"]),
        };
        proof {
            assert(strs_view(keys@) =~= hint_keys(*self));
        }
        Shortcut { name, keys }
    }
}

/// The hints of the focused part: its own, or those of the floating window
/// or of the confirmation, which the caller asks them for.
pub enum Keybinds {
    Own { scope: &'static str, hints: Vec<Hint> },
    FromFloat,
    FromPrompt,
}

/// The hints for the selected entry of the command list.
pub open spec fn list_item_hints(s: AppView) -> Seq<Hint> {
    if selected_is_dir(s) {
        seq![Hint::GoToSelectedDir]
    } else {
        seq![Hint::RunSelectedCommand, Hint::EnablePreview, Hint::CommandDescription]
    }
}

/// The hints of the command list.
pub open spec fn list_hints(s: AppView) -> Seq<Hint> {
    let moves = if at_root(s) {
        seq![Hint::FocusTabList] + list_item_hints(s)
    } else if selected_is_up_dir(s) {
        seq![Hint::GoToParentFromUpDir]
    } else {
        seq![Hint::GoToParent] + list_item_hints(s)
    };
    let multi = if tab_multi_selectable(s) {
        seq![Hint::ToggleMultiSelect, Hint::SelectMultiple]
    } else {
        Seq::empty()
    };
    seq![Hint::ExitLinutil] + moves + seq![
        Hint::SelectAbove,
        Hint::SelectBelow,
        Hint::NextTheme,
        Hint::PrevTheme,
    ] + multi + seq![Hint::NextTab, Hint::PrevTab, Hint::ActionsGuide]
}

/// The hints of the tab list.
pub open spec fn tab_list_hints() -> Seq<Hint> {
    seq![
        Hint::ExitLinutil,
        Hint::FocusActionList,
        Hint::SelectAbove,
        Hint::SelectBelow,
        Hint::NextTheme,
        Hint::PrevTheme,
        Hint::NextTab,
        Hint::PrevTab,
    ]
}

fn push_all(v: &mut Vec<Hint>, more: Vec<Hint>)
    ensures
        final(v)@ == old(v)@ + more@,
{
    let mut i: usize = 0;
    while i < more.len()
        invariant
            i <= more@.len(),
            v@ == old(v)@ + more@.take(i as int),
        decreases more@.len() - i,
    {
        v.push(more[i]);
        proof {
            assert(more@.take(i + 1) =~= more@.take(i as int).push(more@[i as int]));
        }
        i = i + 1;
    }
    proof {
        assert(more@.take(more@.len() as int) =~= more@);
    }
}

impl AppState {
    fn get_list_item_shortcut(&self) -> (res: Vec<Hint>)
        requires
            !self.items_stale,
        ensures
            res@ == list_item_hints(self@),
    {
        if self.selected_item_is_dir() {
            vec![Hint::GoToSelectedDir]
        } else {
            vec![Hint::RunSelectedCommand, Hint::EnablePreview, Hint::CommandDescription]
        }
    }

    /// The hints to show for the focused part.
    pub fn get_keybinds(&self) -> (res: Keybinds)
        requires
            !self.items_stale,
        ensures
            match self@.focus {
                FocusView::Search => res matches Keybinds::Own { scope, hints } && scope@
                    == "Search bar"@ && hints@ == seq![Hint::FinishSearch],
                FocusView::List => res matches Keybinds::Own { scope, hints } && scope@
                    == "Command list"@ && hints@ == list_hints(self@),
                FocusView::TabList => res matches Keybinds::Own { scope, hints } && scope@
                    == "Tab list"@ && hints@ == tab_list_hints(),
                FocusView::FloatingWindow { .. } => res is FromFloat,
                FocusView::ConfirmationPrompt { .. } => res is FromPrompt,
            },
    {
        match self.focus {
            Focus::Search => Keybinds::Own { scope: "Search bar", hints: vec![Hint::FinishSearch] },
            Focus::List => {
                let mut hints: Vec<Hint> = Vec::new();
                hints.push(Hint::ExitLinutil);
                if self.at_root() {
                    hints.push(Hint::FocusTabList);
                    push_all(&mut hints, self.get_list_item_shortcut());
                } else if self.selected_item_is_up_dir() {
                    hints.push(Hint::GoToParentFromUpDir);
                } else {
                    hints.push(Hint::GoToParent);
                    push_all(&mut hints, self.get_list_item_shortcut());
                }
                hints.push(Hint::SelectAbove);
                hints.push(Hint::SelectBelow);
                hints.push(Hint::NextTheme);
                hints.push(Hint::PrevTheme);
                if self.is_current_tab_multi_selectable() {
                    hints.push(Hint::ToggleMultiSelect);
                    hints.push(Hint::SelectMultiple);
                }
                hints.push(Hint::NextTab);
                hints.push(Hint::PrevTab);
                hints.push(Hint::ActionsGuide);
                proof {
                    assert(hints@ =~= list_hints(self@));
                }
                Keybinds::Own { scope: "Command list", hints }
            },
            Focus::TabList => {
                let hints = vec![
                    Hint::ExitLinutil,
                    Hint::FocusActionList,
                    Hint::SelectAbove,
                    Hint::SelectBelow,
                    Hint::NextTheme,
                    Hint::PrevTheme,
                    Hint::NextTab,
                    Hint::PrevTab,
                ];
                proof {
                    assert(hints@ =~= tab_list_hints());
                }
                Keybinds::Own { scope: "Tab list", hints }
            },
            Focus::FloatingWindow(_) => Keybinds::FromFloat,
            Focus::ConfirmationPrompt(_) => Keybinds::FromPrompt,
        }
    }
}

} // verus!
