//! What holds of the state across operations.
use vstd::prelude::*;
use crate::node::NodeView;
use crate::ui::{ListRow, list_rows};
use crate::app_state::{AppView, FocusView, ContentView, well_formed, no_duplicates, tab_multi_selectable};
use crate::misc::{
    without, other_than, after_toggle_selection, marked_for_prompt, selected_node, at_root,
    selected_is_dir, selected_is_cmd, node_names,
};
use crate::keybindings::{
    KeyEvent, KeyAction, KeyCode, KeyEventKind, ConfirmStatus, SearchAction, is_quit_key,
    handle_key_spec, after_tab_keys, list_key, after_confirm_status, after_search_action,
};

verus! {

proof fn lemma_without_keeps_no_duplicates(s: Seq<NodeView>, n: NodeView)
    requires
        no_duplicates(s),
    ensures
        no_duplicates(without(s, n)),
        forall|x: NodeView| #[trigger] without(s, n).contains(x) ==> s.contains(x) && x != n,
    decreases s.len(),
{
    reveal(Seq::filter);
    assert forall|x: NodeView| #[trigger] without(s, n).contains(x) implies s.contains(x) && x
        != n by {
        s.lemma_filter_contains_rev(other_than(n), x);
        let i = choose|i: int| 0 <= i < without(s, n).len() && without(s, n)[i] == x;
        s.lemma_filter_pred(other_than(n), i);
    }
    if s.len() > 0 {
        let init = s.drop_last();
        lemma_without_keeps_no_duplicates(init, n);
        if s.last() != n {
            assert(!without(init, n).contains(s.last())) by {
                if without(init, n).contains(s.last()) {
                    let i = choose|i: int| 0 <= i < init.len() && init[i] == s.last();
                    assert(s[i] == s[s.len() - 1]);
                }
            }
            let w = without(init, n).push(s.last());
            assert(without(s, n) == w);
            assert forall|i: int, j: int| 0 <= i < j < w.len() implies w[i] != w[j] by {
                if j == w.len() - 1 {
                    assert(without(init, n).contains(w[i]));
                }
            }
        } else {
            assert(without(s, n) == without(init, n));
        }
    }
}

proof fn lemma_toggle_selection_well_formed(s: AppView)
    requires
        well_formed(s),
        s.multi_select,
    ensures
        well_formed(after_toggle_selection(s)),
{
    match selected_node(s) {
        Some(n) => {
            if s.selected.contains(n) {
                lemma_without_keeps_no_duplicates(s.selected, n);
            } else {
                let t = s.selected.push(n);
                assert forall|i: int, j: int| 0 <= i < j < t.len() implies t[i] != t[j] by {
                    if j == t.len() - 1 {
                        assert(s.selected[i] == t[i]);
                    }
                }
            }
        },
        None => {},
    }
}

proof fn lemma_list_key_well_formed(s: AppView, k: KeyEvent)
    requires
        well_formed(s),
        s.focus is List,
    ensures
        well_formed(list_key(s, k).0),
{
    if s.multi_select {
        lemma_toggle_selection_well_formed(s);
    }
    if !at_root(s) {
        assert(s.visit_stack.drop_last().len() >= 1);
    }
    let marked = marked_for_prompt(s);
    assert(no_duplicates(marked));
}

/// Every key keeps the state well formed: a tab is selected, a directory is
/// current, multi-selection only in a multi-selectable tab, no command marked
/// twice, and none marked outside multi-selection but for the confirmation.
pub proof fn lemma_handle_key_keeps_well_formed(s: AppView, k: KeyEvent)
    requires
        well_formed(s),
    ensures
        well_formed(handle_key_spec(s, k).0),
{
    let t = after_tab_keys(s, k);
    assert(well_formed(t));
    if t.focus is List {
        lemma_list_key_well_formed(t, k);
    }
}


/// `q`, and Ctrl-c, leave the interface from the tab list, the command list and
/// the confirmation, whether or not the terminal is large enough, and change
/// nothing.
pub proof fn law_quit_keys(s: AppView, k: KeyEvent)
    requires
        s.focus is TabList || s.focus is List || s.focus is ConfirmationPrompt,
        is_quit_key(k),
    ensures
        handle_key_spec(s, k) == (s, KeyAction::Quit),
{
}

/// While the terminal is too small, every other key is taken and changes
/// nothing.
pub proof fn law_small_terminal_ignores_keys(s: AppView, k: KeyEvent)
    requires
        !s.drawable,
        !((s.focus is TabList || s.focus is List || s.focus is ConfirmationPrompt) && is_quit_key(k)),
    ensures
        handle_key_spec(s, k) == (s, KeyAction::Handled),
{
}

/// Entering the selected directory and going back returns to the directory
/// one started from, with its first row selected and its listing to be
/// recomputed.
pub proof fn law_enter_then_back(s: AppView, enter: KeyEvent, back: KeyEvent)
    requires
        well_formed(s),
        s.drawable,
        s.focus is List,
        selected_is_dir(s),
        enter.code == KeyCode::Enter || enter.code == KeyCode::Char('l') || enter.code
            == KeyCode::Right,
        enter.kind != KeyEventKind::Release,
        back.code == KeyCode::Char('h') || back.code == KeyCode::Left,
        back.kind != KeyEventKind::Release,
    ensures
        ({
            let t = handle_key_spec(handle_key_spec(s, enter).0, back).0;
            &&& t.visit_stack == s.visit_stack
            &&& t.selection == Some(0usize)
            &&& t.focus is List
            &&& t.items_stale
            &&& t.current_tab == s.current_tab
        }),
{
    let t1 = handle_key_spec(s, enter).0;
    assert(t1.visit_stack.drop_last() =~= s.visit_stack);
}

/// Marking the selected command and pressing Space again unmarks it: the
/// marks are as before.
pub proof fn law_toggle_selection_twice(s: AppView, space: KeyEvent)
    requires
        well_formed(s),
        s.drawable,
        s.focus is List,
        s.multi_select,
        selected_node(s) matches Some(n) && !s.selected.contains(n),
        space.code == KeyCode::Char(' '),
        space.kind != KeyEventKind::Release,
    ensures
        handle_key_spec(handle_key_spec(s, space).0, space).0 == s,
{
    let n = selected_node(s).unwrap();
    let t1 = handle_key_spec(s, space).0;
    assert(t1.selected == s.selected.push(n));
    assert(t1.selected.contains(n)) by {
        assert(t1.selected[s.selected.len() as int] == n);
    }
    s.selected.lemma_filter_push(n, other_than(n));
    assert(s.selected.filter(other_than(n)) == s.selected) by {
        lemma_filter_keeps_all(s.selected, n);
    }
}

proof fn lemma_filter_keeps_all(s: Seq<NodeView>, n: NodeView)
    requires
        !s.contains(n),
    ensures
        s.filter(other_than(n)) == s,
    decreases s.len(),
{
    reveal(Seq::filter);
    if s.len() > 0 {
        lemma_filter_keeps_all(s.drop_last(), n);
        assert(s.drop_last().push(s.last()) =~= s);
    }
}

/// In a tab that allows it, turning multi-selection on and off again leaves
/// the state as it was.
pub proof fn law_multi_select_on_off(s: AppView, v: KeyEvent)
    requires
        well_formed(s),
        s.drawable,
        s.focus is List,
        !s.multi_select,
        tab_multi_selectable(s),
        v.code == KeyCode::Char('v') || v.code == KeyCode::Char('V'),
        v.kind != KeyEventKind::Release,
    ensures
        handle_key_spec(handle_key_spec(s, v).0, v).0 == s,
{
    assert(s.selected =~= Seq::<NodeView>::empty());
}

/// Turning multi-selection off unmarks every command.
pub proof fn law_multi_select_off_clears(s: AppView, v: KeyEvent)
    requires
        s.drawable,
        s.focus is List,
        s.multi_select,
        tab_multi_selectable(s),
        v.code == KeyCode::Char('v') || v.code == KeyCode::Char('V'),
        v.kind != KeyEventKind::Release,
    ensures
        !handle_key_spec(s, v).0.multi_select,
        handle_key_spec(s, v).0.selected.len() == 0,
{
}

/// Tab and then Shift-Tab come back to the tab one started from, at its root.
pub proof fn law_tab_then_back_tab(s: AppView, tab: KeyEvent, back_tab: KeyEvent)
    requires
        well_formed(s),
        s.drawable,
        s.focus is List || s.focus is TabList,
        tab.code == KeyCode::Tab,
        back_tab.code == KeyCode::BackTab,
    ensures
        ({
            let t = handle_key_spec(handle_key_spec(s, tab).0, back_tab).0;
            &&& t.current_tab == s.current_tab
            &&& t.visit_stack == seq![s.tabs[s.current_tab.unwrap() as int].root]
            &&& t.focus == s.focus
        }),
{
    let t1 = handle_key_spec(s, tab).0;
    let c = s.current_tab.unwrap();
    if c == s.tabs.len() - 1 {
        assert(t1.current_tab == Some(0usize));
    } else {
        assert(t1.current_tab == Some((c + 1) as usize));
    }
    assert(t1.tabs == s.tabs);
    assert(t1.drawable);
}

/// The state after `n` presses of `k`.
pub open spec fn press(s: AppView, k: KeyEvent, n: nat) -> AppView
    decreases n,
{
    if n == 0 {
        s
    } else {
        handle_key_spec(press(s, k, (n - 1) as nat), k).0
    }
}

/// Tab pressed `n` times selects the tab `n` places further on, wrapping
/// around after the last tab.
pub proof fn law_tab_cycles(s: AppView, tab: KeyEvent, n: nat)
    requires
        well_formed(s),
        s.drawable,
        s.focus is List || s.focus is TabList,
        tab.code == KeyCode::Tab,
    ensures
        press(s, tab, n).current_tab == Some(((s.current_tab.unwrap() + n) % (s.tabs.len() as int)) as usize),
        well_formed(press(s, tab, n)),
        press(s, tab, n).focus == s.focus,
        press(s, tab, n).drawable,
        press(s, tab, n).tabs == s.tabs,
    decreases n,
{
    if n > 0 {
        law_tab_cycles(s, tab, (n - 1) as nat);
        let p = press(s, tab, (n - 1) as nat);
        lemma_handle_key_keeps_well_formed(p, tab);
        let len = s.tabs.len();
        let c = s.current_tab.unwrap();
        let cp = p.current_tab.unwrap();
        assert(cp == (c + n - 1) % (len as int));
        assert(((c + n - 1) % (len as int) + 1) % (len as int) == (c + n) % (len as int))
            by (nonlinear_arith)
            requires
                len > 0,
                c + n - 1 >= 0,
        ;
        if cp == len - 1 {
            assert(press(s, tab, n).current_tab == Some(0usize));
            vstd::arithmetic::div_mod::lemma_mod_self_0(len as int);
            assert((cp + 1) % (len as int) == 0);
        } else {
            assert(press(s, tab, n).current_tab == Some((cp + 1) as usize));
            vstd::arithmetic::div_mod::lemma_small_mod((cp + 1) as nat, len as nat);
            assert((cp + 1) % (len as int) == cp + 1);
        }
    } else {
        vstd::arithmetic::div_mod::lemma_small_mod(
            s.current_tab.unwrap() as nat,
            s.tabs.len() as nat,
        );
    }
}

/// Pressing Tab once per tab comes back to the tab one started from.
pub proof fn law_tab_round_trip(s: AppView, tab: KeyEvent)
    requires
        well_formed(s),
        s.drawable,
        s.focus is List || s.focus is TabList,
        tab.code == KeyCode::Tab,
    ensures
        press(s, tab, s.tabs.len()).current_tab == s.current_tab,
{
    law_tab_cycles(s, tab, s.tabs.len());
    let c = s.current_tab.unwrap();
    assert((c + s.tabs.len()) % (s.tabs.len() as int) == c) by (nonlinear_arith)
        requires 0 <= c < s.tabs.len();
}

/// Opening the search and leaving it gives the focus back to the command
/// list with its first row selected and the listing to be recomputed.
pub proof fn law_search_round_trip(s: AppView, slash: KeyEvent)
    requires
        well_formed(s),
        s.drawable,
        s.focus is List,
        slash.code == KeyCode::Char('/'),
        slash.kind != KeyEventKind::Release,
    ensures
        ({
            let t = after_search_action(handle_key_spec(s, slash).0, SearchAction::Exit);
            &&& t.focus is List
            &&& t.selection == Some(0usize)
            &&& t.items_stale
            &&& t.visit_stack == s.visit_stack
        }),
{
}

/// Running a single command without multi-selection and then refusing the
/// confirmation leaves no command marked and the command list focused.
pub proof fn law_refused_confirmation(s: AppView, enter: KeyEvent)
    requires
        well_formed(s),
        s.drawable,
        s.focus is List,
        !s.multi_select,
        selected_is_cmd(s),
        enter.code == KeyCode::Enter || enter.code == KeyCode::Char('l') || enter.code
            == KeyCode::Right,
        enter.kind != KeyEventKind::Release,
    ensures
        handle_key_spec(s, enter).0.focus is ConfirmationPrompt,
        ({
            let t = after_confirm_status(handle_key_spec(s, enter).0, ConfirmStatus::Abort);
            &&& t.focus is List
            &&& t.selected.len() == 0
        }),
{
}

/// Accepting the confirmation runs exactly the commands it listed, in order,
/// and unmarks them.
pub proof fn law_accepted_confirmation(s: AppView)
    requires
        s.focus is ConfirmationPrompt,
    ensures
        after_confirm_status(s, ConfirmStatus::Confirm).focus matches FocusView::FloatingWindow {
            content: ContentView::RunningCommand { commands },
            width,
            height,
        } && width == 80 && height == 80 && commands.len() == s.selected.len() && (forall|k: int|
            0 <= k < commands.len() ==> commands[k] == #[trigger] s.selected[k].command),
        after_confirm_status(s, ConfirmStatus::Confirm).selected.len() == 0,
{
}

/// A confirmation lists the commands that it will run.
pub proof fn law_confirmation_lists_what_runs(s: AppView, enter: KeyEvent)
    requires
        well_formed(s),
        s.drawable,
        s.focus is List,
        selected_is_cmd(s),
        enter.code == KeyCode::Enter || enter.code == KeyCode::Char('l') || enter.code
            == KeyCode::Right,
        enter.kind != KeyEventKind::Release,
    ensures
        ({
            let t = handle_key_spec(s, enter).0;
            &&& t.focus matches FocusView::ConfirmationPrompt { names, width, height }
            &&& width == 40 && height == 40
            &&& names.len() == t.selected.len()
            &&& forall|k: int| 0 <= k < names.len() ==> names[k] == #[trigger] t.selected[k].name
        }),
{
}

/// While a floating window (such as a running command) is open, every key
/// goes to it, `q` and Ctrl-c too, and the state does not change; likewise
/// for the search bar.
pub proof fn law_open_window_takes_every_key(s: AppView, k: KeyEvent)
    requires
        s.drawable,
        s.focus is FloatingWindow || s.focus is Search,
    ensures
        handle_key_spec(s, k) == (s, if s.focus is Search {
            KeyAction::ToSearch
        } else {
            KeyAction::ToFloat
        }),
{
}

/// The selected row `i` shows entry `j` of the listing: outside the tab's
/// root, row 0 is `..` and row `i` shows entry `i - 1`.
pub open spec fn row_shows_entry(s: AppView, i: usize, j: int) -> bool {
    &&& s.selection == Some(i)
    &&& if s.visit_stack.len() == 1 {
        j == i
    } else {
        i > 0 && j == i - 1
    }
    &&& 0 <= j < s.items.len()
}

pub open spec fn is_enter_key(k: KeyEvent) -> bool {
    &&& k.code == KeyCode::Enter || k.code == KeyCode::Char('l') || k.code == KeyCode::Right
    &&& k.kind != KeyEventKind::Release
}

/// Enter on a command while commands are marked asks about exactly the
/// marked commands, in the order they were marked, and marks nothing more.
pub proof fn law_enter_with_marks_asks_about_the_marks(s: AppView, enter: KeyEvent, i: usize, j: int)
    requires
        well_formed(s),
        s.drawable,
        s.focus is List,
        s.selected.len() > 0,
        row_shows_entry(s, i, j),
        !s.items[j].has_children,
        is_enter_key(enter),
    ensures
        ({
            let t = handle_key_spec(s, enter).0;
            &&& t.selected == s.selected
            &&& t.focus matches FocusView::ConfirmationPrompt { names, width, height }
            &&& width == 40 && height == 40
            &&& names.len() == s.selected.len()
            &&& forall|k: int| 0 <= k < names.len() ==> names[k] == #[trigger] s.selected[k].name
        }),
{
}

/// Enter on a command while none is marked asks about that command alone,
/// and it is the one marked for the run.
pub proof fn law_enter_without_marks_asks_about_the_command(
    s: AppView,
    enter: KeyEvent,
    i: usize,
    j: int,
)
    requires
        well_formed(s),
        s.drawable,
        s.focus is List,
        s.selected.len() == 0,
        row_shows_entry(s, i, j),
        !s.items[j].has_children,
        is_enter_key(enter),
    ensures
        ({
            let t = handle_key_spec(s, enter).0;
            &&& t.selected == seq![s.items[j].node]
            &&& t.focus == (FocusView::ConfirmationPrompt {
                names: seq![s.items[j].node.name],
                width: 40,
                height: 40,
            })
        }),
{
    let t = handle_key_spec(s, enter).0;
    assert(t.selected =~= seq![s.items[j].node]);
    assert(node_names(t.selected) =~= seq![s.items[j].node.name]);
}

/// Enter on a directory walks into exactly that directory: its id is pushed
/// on the directories walked into, and its first row is selected.
pub proof fn law_enter_on_directory_enters_it(s: AppView, enter: KeyEvent, i: usize, j: int)
    requires
        well_formed(s),
        s.drawable,
        s.focus is List,
        row_shows_entry(s, i, j),
        s.items[j].has_children,
        is_enter_key(enter),
    ensures
        handle_key_spec(s, enter).0.visit_stack == s.visit_stack.push(s.items[j].id),
        handle_key_spec(s, enter).0.selection == Some(0usize),
        handle_key_spec(s, enter).0.current_tab == s.current_tab,
{
}

proof fn lemma_removing_the_only_occurrence(s: Seq<NodeView>, k: int)
    requires
        no_duplicates(s),
        0 <= k < s.len(),
    ensures
        without(s, s[k]) == s.remove(k),
{
    let n = s[k];
    let a = s.take(k);
    let b = s.skip(k + 1);
    assert(s =~= a + seq![n] + b);
    assert(!a.contains(n)) by {
        if a.contains(n) {
            let x = choose|x: int| 0 <= x < a.len() && a[x] == n;
            assert(s[x] == s[k]);
        }
    }
    assert(!b.contains(n)) by {
        if b.contains(n) {
            let x = choose|x: int| 0 <= x < b.len() && b[x] == n;
            assert(s[k + 1 + x] == s[k]);
        }
    }
    lemma_filter_keeps_all(a, n);
    lemma_filter_keeps_all(b, n);
    Seq::filter_distributes_over_add(a + seq![n], b, other_than(n));
    Seq::filter_distributes_over_add(a, seq![n], other_than(n));
    reveal(Seq::filter);
    let e = Seq::<NodeView>::empty();
    assert(seq![n] =~= e.push(n));
    e.lemma_filter_push(n, other_than(n));
    assert(e.filter(other_than(n)) =~= e);
    assert(seq![n].filter(other_than(n)) =~= e);
    assert(s.remove(k) =~= a + b);
}

/// Space on a marked command unmarks it wherever it stands among the marks;
/// the other marks stay, in order.
pub proof fn law_space_unmarks_a_marked_command(
    s: AppView,
    space: KeyEvent,
    i: usize,
    j: int,
    k: int,
)
    requires
        well_formed(s),
        s.drawable,
        s.focus is List,
        s.multi_select,
        row_shows_entry(s, i, j),
        !s.items[j].has_children,
        0 <= k < s.selected.len(),
        s.selected[k] == s.items[j].node,
        space.code == KeyCode::Char(' '),
        space.kind != KeyEventKind::Release,
    ensures
        handle_key_spec(s, space).0.selected == s.selected.remove(k),
{
    assert(s.selected.contains(s.items[j].node));
    lemma_removing_the_only_occurrence(s.selected, k);
}

/// Space on an unmarked command marks it after the others.
pub proof fn law_space_marks_an_unmarked_command(s: AppView, space: KeyEvent, i: usize, j: int)
    requires
        well_formed(s),
        s.drawable,
        s.focus is List,
        s.multi_select,
        row_shows_entry(s, i, j),
        !s.items[j].has_children,
        !s.selected.contains(s.items[j].node),
        space.code == KeyCode::Char(' '),
        space.kind != KeyEventKind::Release,
    ensures
        handle_key_spec(s, space).0.selected == s.selected.push(s.items[j].node),
{
}

/// In the tab list, k and Up select the previous tab (staying on the first),
/// j and Down the next one (staying on the last).
pub proof fn law_tab_list_moves_one_tab(s: AppView, k: KeyEvent)
    requires
        well_formed(s),
        s.drawable,
        s.focus is TabList,
        k.code == KeyCode::Char('k') || k.code == KeyCode::Up || k.code == KeyCode::Char('j')
            || k.code == KeyCode::Down,
    ensures
        ({
            let c = s.current_tab.unwrap();
            let t = handle_key_spec(s, k).0;
            &&& (k.code == KeyCode::Char('k') || k.code == KeyCode::Up) ==> t.current_tab == Some(
                if c > 0 {
                    (c - 1) as usize
                } else {
                    0usize
                },
            )
            &&& (k.code == KeyCode::Char('j') || k.code == KeyCode::Down) ==> t.current_tab == Some(
                if c + 1 < s.tabs.len() {
                    (c + 1) as usize
                } else {
                    c
                },
            )
            &&& t.focus is TabList
        }),
{
}

/// Every row of the command list shows its entry, marked exactly when that
/// entry's node is marked, in whatever directory the list is; outside the
/// tab's root the `..` row comes first.
pub proof fn law_rows_show_every_entry_and_its_mark(s: AppView)
    ensures
        ({
            let off: int = if s.visit_stack.len() == 1 {
                0
            } else {
                1
            };
            &&& list_rows(s).len() == s.items.len() + off
            &&& off == 1 ==> list_rows(s)[0] == ListRow::UpDir
            &&& forall|j: int|
                0 <= j < s.items.len() ==> list_rows(s)[j + off] == (ListRow::Entry {
                    index: j as usize,
                    is_dir: s.items[j].has_children,
                    marked: s.selected.contains(#[trigger] s.items[j].node),
                })
        }),
{
}

/// After Space marks the command on a row, that row is drawn marked.
pub proof fn law_marked_command_is_drawn_marked(s: AppView, space: KeyEvent, i: usize, j: int)
    requires
        well_formed(s),
        s.drawable,
        s.focus is List,
        s.multi_select,
        row_shows_entry(s, i, j),
        !s.items[j].has_children,
        !s.selected.contains(s.items[j].node),
        space.code == KeyCode::Char(' '),
        space.kind != KeyEventKind::Release,
    ensures
        ({
            let t = handle_key_spec(s, space).0;
            let off: int = if s.visit_stack.len() == 1 {
                0
            } else {
                1
            };
            list_rows(t)[j + off] matches ListRow::Entry { marked, .. } && marked
        }),
{
    let t = handle_key_spec(s, space).0;
    law_space_marks_an_unmarked_command(s, space, i, j);
    law_rows_show_every_entry_and_its_mark(t);
    assert(t.selected[s.selected.len() as int] == s.items[j].node);
    assert(t.selected.contains(t.items[j].node));
}

/// In the command list, j and Down select the next row, k and Up the
/// previous one (staying on row 0); with no row selected they select the
/// first, and the last possible, row.
pub proof fn law_list_moves_one_row(s: AppView, k: KeyEvent)
    requires
        well_formed(s),
        s.drawable,
        s.focus is List,
        k.kind != KeyEventKind::Release,
        k.code == KeyCode::Char('k') || k.code == KeyCode::Up || k.code == KeyCode::Char('j')
            || k.code == KeyCode::Down,
    ensures
        ({
            let t = handle_key_spec(s, k).0;
            let down = k.code == KeyCode::Char('j') || k.code == KeyCode::Down;
            &&& t.visit_stack == s.visit_stack
            &&& t.current_tab == s.current_tab
            &&& t.focus is List
            &&& down ==> t.selection == Some(
                match s.selection {
                    Some(i) => if i < usize::MAX {
                        (i + 1) as usize
                    } else {
                        i
                    },
                    None => 0usize,
                },
            )
            &&& !down ==> t.selection == Some(
                match s.selection {
                    Some(i) => if i > 0 {
                        (i - 1) as usize
                    } else {
                        0usize
                    },
                    None => usize::MAX,
                },
            )
        }),
{
}

/// h and Left outside the tab's root go to the parent directory, and at the
/// root give the focus to the tab list.
pub proof fn law_go_back(s: AppView, k: KeyEvent)
    requires
        well_formed(s),
        s.drawable,
        s.focus is List,
        k.kind != KeyEventKind::Release,
        k.code == KeyCode::Char('h') || k.code == KeyCode::Left,
    ensures
        ({
            let t = handle_key_spec(s, k).0;
            &&& s.visit_stack.len() == 1 ==> t.focus is TabList && t.visit_stack == s.visit_stack
            &&& s.visit_stack.len() > 1 ==> t.focus is List && t.visit_stack == s.visit_stack.subrange(
                0,
                s.visit_stack.len() - 1,
            ) && t.selection == Some(0usize)
        }),
{
}

/// d on a command shows its description in a floating window.
pub proof fn law_description_shows_the_selected_command(s: AppView, d: KeyEvent, i: usize, j: int)
    requires
        well_formed(s),
        s.drawable,
        s.focus is List,
        row_shows_entry(s, i, j),
        !s.items[j].has_children,
        d.code == KeyCode::Char('d') || d.code == KeyCode::Char('D'),
        d.kind != KeyEventKind::Release,
    ensures
        handle_key_spec(s, d).0.focus matches FocusView::FloatingWindow {
            content: ContentView::Text { title, text },
            ..
        } && text == s.items[j].node.description && title == "Command Description"@,
{
}

/// Refusing the confirmation keeps the marks in multi-selection.
pub proof fn law_refusal_keeps_marks_in_multi_selection(s: AppView)
    requires
        s.focus is ConfirmationPrompt,
        s.multi_select,
    ensures
        after_confirm_status(s, ConfirmStatus::Abort).selected == s.selected,
        after_confirm_status(s, ConfirmStatus::Abort).focus is List,
{
}

} // verus!
