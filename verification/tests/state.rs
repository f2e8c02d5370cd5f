use std::rc::Rc;

use ego_tree::{NodeId, Tree};
use linutil_state::app_state::{AppState, FloatContent, Focus};
use linutil_state::hints::{Hint, Keybinds};
use linutil_state::keybindings::{
    ConfirmStatus, KeyAction, KeyCode, KeyEvent, KeyEventKind, SearchAction,
};
use linutil_state::misc::ACTIONS_GUIDE;
use linutil_state::node::{Command, ListEntry, ListNode, Tab};
use linutil_state::ui::{ListRow, MIN_HEIGHT, MIN_WIDTH};
use temp_dir::TempDir;

struct Fixture {
    state: AppState,
    roots: Vec<NodeId>,
    dir_a: NodeId,
    cmd_x: NodeId,
    cmd_y: NodeId,
    inner: NodeId,
    cmd_w: NodeId,
}

fn node(name: &str, command: Command) -> Rc<ListNode> {
    Rc::new(ListNode {
        name: name.to_string(),
        description: format!("about {}", name),
        command,
        task_list: "I".to_string(),
        multi_select: true,
    })
}

fn dir(name: &str) -> Rc<ListNode> {
    node(name, Command::Empty)
}

fn key(code: KeyCode) -> KeyEvent {
    KeyEvent { code, modifiers: 0, kind: KeyEventKind::Press }
}

fn ch(c: char) -> KeyEvent {
    key(KeyCode::Char(c))
}

/// Two tabs: the first allows multi-selection and holds a directory `a`
/// (with one command inside) and two commands; the second holds one command.
fn fixture() -> Fixture {
    let mut tree: Tree<u8> = Tree::new(0);
    let root0 = tree.root().id();
    let dir_a = tree.root_mut().append(1).id();
    let cmd_x = tree.root_mut().append(2).id();
    let cmd_y = tree.root_mut().append(3).id();
    let inner = tree.get_mut(dir_a).unwrap().append(4).id();
    let mut second: Tree<u8> = Tree::new(10);
    let root1 = second.root().id();
    let cmd_w = second.root_mut().append(11).id();
    let tabs = vec![
        Tab { name: "System".to_string(), multi_selectable: true, root: root0 },
        Tab { name: "Apps".to_string(), multi_selectable: false, root: root1 },
    ];
    let mut state = AppState::new(TempDir::new().unwrap(), tabs);
    state.tui_drawable(MIN_WIDTH, MIN_HEIGHT);
    let mut fx = Fixture { state, roots: vec![root0, root1], dir_a, cmd_x, cmd_y, inner, cmd_w };
    root_listing(&mut fx);
    fx
}

fn root_listing(fx: &mut Fixture) {
    fx.state.set_items(vec![
        ListEntry { has_children: true, id: fx.dir_a, node: dir("a") },
        ListEntry {
            has_children: false,
            id: fx.cmd_x,
            node: node("x", Command::Raw("echo x".to_string())),
        },
        ListEntry {
            has_children: false,
            id: fx.cmd_y,
            node: node("y", Command::Raw("echo y".to_string())),
        },
    ]);
}

fn inner_listing(fx: &mut Fixture) {
    fx.state.set_items(vec![ListEntry {
        has_children: false,
        id: fx.inner,
        node: node("z", Command::Raw("echo z".to_string())),
    }]);
}

fn second_tab_listing(fx: &mut Fixture) {
    fx.state.set_items(vec![ListEntry {
        has_children: false,
        id: fx.cmd_w,
        node: node("w", Command::Raw("echo w".to_string())),
    }]);
}

/// Hands the state the listing of its current directory when it asks for one.
fn refresh(fx: &mut Fixture) {
    if fx.state.items_stale {
        let dir = fx.state.current_dir();
        if dir == fx.dir_a {
            inner_listing(fx);
        } else if dir == fx.roots[1] {
            second_tab_listing(fx);
        } else {
            root_listing(fx);
        }
    }
}

/// A key, followed by the listing the state asks for.
fn press(fx: &mut Fixture, k: &KeyEvent) -> KeyAction {
    let action = fx.state.handle_key(k);
    refresh(fx);
    action
}

fn marked_names(state: &AppState) -> Vec<String> {
    state.selected_commands.iter().map(|n| n.name.clone()).collect()
}

#[test]
fn new_state_shows_root_of_first_tab() {
    let fx = fixture();
    assert_eq!(fx.state.current_tab, Some(0));
    assert_eq!(fx.state.visit_stack, vec![fx.roots[0]]);
    assert_eq!(fx.state.selection, Some(0));
    assert!(matches!(fx.state.focus, Focus::List));
    assert!(!fx.state.multi_select);
    assert!(!fx.state.items_stale);
    assert!(fx.state.at_root());
    assert_eq!(fx.state.current_tab_index(), 0);
    assert_eq!(fx.state.current_dir(), fx.roots[0]);
}

#[test]
fn fresh_state_waits_for_its_listing() {
    let mut tree: Tree<u8> = Tree::new(0);
    let root = tree.root().id();
    let _ = tree.root_mut().append(1);
    let tabs = vec![Tab { name: "Only".to_string(), multi_selectable: false, root }];
    let state = AppState::new(TempDir::new().unwrap(), tabs);
    assert!(state.items_stale);
    assert!(state.items.is_empty());
    assert!(!state.drawable);
}

#[test]
fn q_quits_from_lists_and_confirmation() {
    let mut fx = fixture();
    assert_eq!(press(&mut fx, &ch('q')), KeyAction::Quit);
    assert!(!KeyAction::Quit.keeps_running());
    fx.state.focus = Focus::TabList;
    assert_eq!(press(&mut fx, &ch('q')), KeyAction::Quit);
}

#[test]
fn ctrl_c_quits_but_plain_c_does_not() {
    let mut fx = fixture();
    let ctrl_c = KeyEvent { code: KeyCode::Char('c'), modifiers: 0b10, kind: KeyEventKind::Press };
    assert_eq!(press(&mut fx, &ctrl_c), KeyAction::Quit);
    let alt_c = KeyEvent { code: KeyCode::Char('c'), modifiers: 0b100, kind: KeyEventKind::Press };
    assert_eq!(press(&mut fx, &alt_c), KeyAction::Handled);
    assert!(KeyAction::Handled.keeps_running());
}

#[test]
fn q_goes_to_the_search_bar_while_searching() {
    let mut fx = fixture();
    assert_eq!(press(&mut fx, &ch('/')), KeyAction::Handled);
    assert!(matches!(fx.state.focus, Focus::Search));
    assert_eq!(fx.state.selection, None);
    assert_eq!(press(&mut fx, &ch('q')), KeyAction::ToSearch);
}

#[test]
fn small_terminal_ignores_keys_but_quit() {
    let mut fx = fixture();
    assert!(!fx.state.tui_drawable(MIN_WIDTH - 1, MIN_HEIGHT));
    assert!(!fx.state.drawable);
    assert_eq!(press(&mut fx, &ch('j')), KeyAction::Handled);
    assert_eq!(fx.state.selection, Some(0));
    assert_eq!(press(&mut fx, &ch('q')), KeyAction::Quit);
    assert!(!fx.state.tui_drawable(MIN_WIDTH, MIN_HEIGHT - 1));
    assert!(fx.state.tui_drawable(200, 60));
}

#[test]
fn list_moves_selection() {
    let mut fx = fixture();
    press(&mut fx, &ch('j'));
    assert_eq!(fx.state.selection, Some(1));
    press(&mut fx, &key(KeyCode::Down));
    assert_eq!(fx.state.selection, Some(2));
    press(&mut fx, &ch('k'));
    assert_eq!(fx.state.selection, Some(1));
    press(&mut fx, &key(KeyCode::Up));
    press(&mut fx, &key(KeyCode::Up));
    assert_eq!(fx.state.selection, Some(0));
}

#[test]
fn moving_from_no_selection_follows_the_list_widget() {
    let mut fx = fixture();
    fx.state.set_selection(None);
    press(&mut fx, &ch('k'));
    assert_eq!(fx.state.selection, Some(usize::MAX));
    press(&mut fx, &ch('j'));
    assert_eq!(fx.state.selection, Some(usize::MAX));
    fx.state.set_selection(None);
    press(&mut fx, &ch('j'));
    assert_eq!(fx.state.selection, Some(0));
}

#[test]
fn released_keys_are_ignored_in_the_list() {
    let mut fx = fixture();
    let up = KeyEvent { code: KeyCode::Char('j'), modifiers: 0, kind: KeyEventKind::Release };
    assert_eq!(press(&mut fx, &up), KeyAction::Handled);
    assert_eq!(fx.state.selection, Some(0));
}

#[test]
fn tab_and_back_tab_wrap_around() {
    let mut fx = fixture();
    fx.state.handle_key(&key(KeyCode::Tab));
    assert_eq!(fx.state.current_tab, Some(1));
    assert_eq!(fx.state.visit_stack, vec![fx.roots[1]]);
    assert!(fx.state.items_stale);
    refresh(&mut fx);
    press(&mut fx, &key(KeyCode::Tab));
    assert_eq!(fx.state.current_tab, Some(0));
    press(&mut fx, &key(KeyCode::BackTab));
    assert_eq!(fx.state.current_tab, Some(1));
    press(&mut fx, &key(KeyCode::BackTab));
    assert_eq!(fx.state.current_tab, Some(0));
    assert_eq!(fx.state.visit_stack, vec![fx.roots[0]]);
}

#[test]
fn tab_list_moves_between_tabs_without_wrapping() {
    let mut fx = fixture();
    press(&mut fx, &ch('h'));
    assert!(matches!(fx.state.focus, Focus::TabList));
    press(&mut fx, &ch('k'));
    assert_eq!(fx.state.current_tab, Some(0));
    press(&mut fx, &ch('j'));
    assert_eq!(fx.state.current_tab, Some(1));
    press(&mut fx, &key(KeyCode::Down));
    assert_eq!(fx.state.current_tab, Some(1));
    press(&mut fx, &key(KeyCode::Up));
    assert_eq!(fx.state.current_tab, Some(0));
    press(&mut fx, &key(KeyCode::Enter));
    assert!(matches!(fx.state.focus, Focus::List));
}

#[test]
fn theme_keys_are_left_to_the_caller() {
    let mut fx = fixture();
    assert_eq!(press(&mut fx, &ch('t')), KeyAction::NextTheme);
    assert_eq!(press(&mut fx, &ch('T')), KeyAction::PrevTheme);
    fx.state.focus = Focus::TabList;
    assert_eq!(press(&mut fx, &ch('t')), KeyAction::NextTheme);
    assert_eq!(press(&mut fx, &ch('T')), KeyAction::PrevTheme);
}

#[test]
fn enter_directory_then_go_back() {
    let mut fx = fixture();
    assert!(fx.state.selected_item_is_dir());
    fx.state.handle_key(&key(KeyCode::Enter));
    assert_eq!(fx.state.visit_stack, vec![fx.roots[0], fx.dir_a]);
    assert_eq!(fx.state.selection, Some(0));
    assert!(fx.state.items_stale);
    refresh(&mut fx);
    assert!(!fx.state.at_root());
    assert!(fx.state.selected_item_is_up_dir());
    assert!(fx.state.get_selected_node().is_none());
    fx.state.handle_key(&ch('h'));
    assert_eq!(fx.state.visit_stack, vec![fx.roots[0]]);
    assert_eq!(fx.state.selection, Some(0));
    assert!(fx.state.items_stale);
    refresh(&mut fx);
}

#[test]
fn enter_on_up_dir_row_goes_to_parent() {
    let mut fx = fixture();
    press(&mut fx, &ch('l'));
    inner_listing(&mut fx);
    press(&mut fx, &ch('j'));
    assert_eq!(fx.state.get_selected_node().unwrap().name, "z");
    assert!(fx.state.selected_item_is_cmd());
    press(&mut fx, &ch('k'));
    press(&mut fx, &key(KeyCode::Right));
    assert_eq!(fx.state.visit_stack, vec![fx.roots[0]]);
}

#[test]
fn go_back_at_root_focuses_tab_list() {
    let mut fx = fixture();
    press(&mut fx, &key(KeyCode::Left));
    assert!(matches!(fx.state.focus, Focus::TabList));
    assert_eq!(fx.state.visit_stack, vec![fx.roots[0]]);
}

#[test]
fn enter_on_command_asks_for_confirmation() {
    let mut fx = fixture();
    press(&mut fx, &ch('j'));
    press(&mut fx, &key(KeyCode::Enter));
    match &fx.state.focus {
        Focus::ConfirmationPrompt(prompt) => {
            assert_eq!(prompt.content.names, vec!["x".to_string()]);
            assert_eq!(prompt.width_percent, 40);
            assert_eq!(prompt.height_percent, 40);
        },
        _ => panic!("no confirmation"),
    }
    assert_eq!(marked_names(&fx.state), vec!["x".to_string()]);
    assert_eq!(press(&mut fx, &ch('y')), KeyAction::ToPrompt);
}

#[test]
fn refused_confirmation_unmarks_without_multi_selection() {
    let mut fx = fixture();
    press(&mut fx, &ch('j'));
    press(&mut fx, &key(KeyCode::Enter));
    fx.state.confirm_status(ConfirmStatus::Undecided);
    assert!(matches!(fx.state.focus, Focus::ConfirmationPrompt(_)));
    fx.state.confirm_status(ConfirmStatus::Abort);
    assert!(matches!(fx.state.focus, Focus::List));
    assert!(fx.state.selected_commands.is_empty());
}

#[test]
fn accepted_confirmation_runs_the_marked_commands() {
    let mut fx = fixture();
    press(&mut fx, &ch('v'));
    assert!(fx.state.multi_select);
    press(&mut fx, &ch('j'));
    press(&mut fx, &ch(' '));
    press(&mut fx, &ch('j'));
    press(&mut fx, &ch(' '));
    assert_eq!(marked_names(&fx.state), vec!["x".to_string(), "y".to_string()]);
    press(&mut fx, &key(KeyCode::Enter));
    match &fx.state.focus {
        Focus::ConfirmationPrompt(prompt) => {
            assert_eq!(prompt.content.names, vec!["x".to_string(), "y".to_string()]);
        },
        _ => panic!("no confirmation"),
    }
    fx.state.confirm_status(ConfirmStatus::Confirm);
    match &fx.state.focus {
        Focus::FloatingWindow(float) => {
            assert_eq!(float.width_percent, 80);
            match &float.content {
                FloatContent::RunningCommand { commands } => assert_eq!(
                    commands,
                    &vec![Command::Raw("echo x".to_string()), Command::Raw("echo y".to_string())]
                ),
                _ => panic!("not running"),
            }
        },
        _ => panic!("no window"),
    }
    assert!(fx.state.selected_commands.is_empty());
    assert_eq!(press(&mut fx, &ch('q')), KeyAction::ToFloat);
    fx.state.float_key_result(false);
    assert!(matches!(fx.state.focus, Focus::FloatingWindow(_)));
    fx.state.float_key_result(true);
    assert!(matches!(fx.state.focus, Focus::List));
}

#[test]
fn refused_confirmation_keeps_marks_in_multi_selection() {
    let mut fx = fixture();
    press(&mut fx, &ch('v'));
    press(&mut fx, &ch('j'));
    press(&mut fx, &ch(' '));
    press(&mut fx, &key(KeyCode::Enter));
    fx.state.confirm_status(ConfirmStatus::Abort);
    assert_eq!(marked_names(&fx.state), vec!["x".to_string()]);
}

#[test]
fn space_twice_unmarks_the_command() {
    let mut fx = fixture();
    press(&mut fx, &ch('v'));
    press(&mut fx, &ch('j'));
    press(&mut fx, &ch(' '));
    assert_eq!(marked_names(&fx.state), vec!["x".to_string()]);
    press(&mut fx, &ch(' '));
    assert!(fx.state.selected_commands.is_empty());
}

#[test]
fn space_without_multi_selection_does_nothing() {
    let mut fx = fixture();
    press(&mut fx, &ch('j'));
    press(&mut fx, &ch(' '));
    assert!(fx.state.selected_commands.is_empty());
}

#[test]
fn space_on_directory_marks_nothing() {
    let mut fx = fixture();
    press(&mut fx, &ch('v'));
    press(&mut fx, &ch(' '));
    assert!(fx.state.selected_commands.is_empty());
}

#[test]
fn multi_selection_off_unmarks_everything() {
    let mut fx = fixture();
    press(&mut fx, &ch('V'));
    press(&mut fx, &ch('j'));
    press(&mut fx, &ch(' '));
    press(&mut fx, &ch('v'));
    assert!(!fx.state.multi_select);
    assert!(fx.state.selected_commands.is_empty());
}

#[test]
fn multi_selection_needs_a_multi_selectable_tab() {
    let mut fx = fixture();
    press(&mut fx, &key(KeyCode::Tab));
    press(&mut fx, &ch('v'));
    assert!(!fx.state.multi_select);
}

#[test]
fn switching_to_plain_tab_ends_multi_selection() {
    let mut fx = fixture();
    press(&mut fx, &ch('v'));
    press(&mut fx, &ch('j'));
    press(&mut fx, &ch(' '));
    press(&mut fx, &key(KeyCode::Tab));
    assert!(!fx.state.multi_select);
    assert!(fx.state.selected_commands.is_empty());
}

#[test]
fn description_opens_a_text_window() {
    let mut fx = fixture();
    press(&mut fx, &ch('d'));
    assert!(matches!(fx.state.focus, Focus::List));
    press(&mut fx, &ch('j'));
    assert_eq!(fx.state.get_selected_description(), Some("about x".to_string()));
    press(&mut fx, &ch('D'));
    match &fx.state.focus {
        Focus::FloatingWindow(float) => match &float.content {
            FloatContent::Text { title, text } => {
                assert_eq!(title, "Command Description");
                assert_eq!(text, "about x");
            },
            _ => panic!("not a text"),
        },
        _ => panic!("no window"),
    }
}

#[test]
fn guide_opens_from_both_lists() {
    let mut fx = fixture();
    press(&mut fx, &ch('g'));
    match &fx.state.focus {
        Focus::FloatingWindow(float) => match &float.content {
            FloatContent::Text { title, text } => {
                assert_eq!(title, "Important Actions Guide");
                assert_eq!(text, ACTIONS_GUIDE);
                assert!(text.starts_with("List of important tasks"));
            },
            _ => panic!("not a text"),
        },
        _ => panic!("no window"),
    }
    fx.state.float_key_result(true);
    fx.state.focus = Focus::TabList;
    press(&mut fx, &ch('g'));
    assert!(matches!(fx.state.focus, Focus::FloatingWindow(_)));
}

#[test]
fn preview_is_requested_then_opened() {
    let mut fx = fixture();
    assert_eq!(press(&mut fx, &ch('p')), KeyAction::Handled);
    press(&mut fx, &ch('j'));
    assert_eq!(press(&mut fx, &ch('P')), KeyAction::PreviewRequested);
    let (title, command) = fx.state.preview_request().unwrap();
    assert_eq!(title, "[Preview] - x");
    assert_eq!(command, Command::Raw("echo x".to_string()));
    fx.state.open_preview();
    match &fx.state.focus {
        Focus::FloatingWindow(float) => match &float.content {
            FloatContent::Preview { title, command } => {
                assert_eq!(title, "[Preview] - x");
                assert_eq!(command, &Command::Raw("echo x".to_string()));
            },
            _ => panic!("not a preview"),
        },
        _ => panic!("no window"),
    }
}

#[test]
fn search_round_trip() {
    let mut fx = fixture();
    press(&mut fx, &ch('j'));
    press(&mut fx, &ch('/'));
    fx.state.search_action(SearchAction::Unchanged);
    assert!(matches!(fx.state.focus, Focus::Search));
    fx.state.search_action(SearchAction::Update);
    assert!(fx.state.items_stale);
    root_listing(&mut fx);
    fx.state.search_action(SearchAction::Exit);
    assert!(matches!(fx.state.focus, Focus::List));
    assert_eq!(fx.state.selection, Some(0));
    assert!(fx.state.items_stale);
}

#[test]
fn search_from_tab_list() {
    let mut fx = fixture();
    fx.state.focus = Focus::TabList;
    press(&mut fx, &ch('/'));
    assert!(matches!(fx.state.focus, Focus::Search));
}

#[test]
fn keybinds_of_the_list() {
    let mut fx = fixture();
    match fx.state.get_keybinds() {
        Keybinds::Own { scope, hints } => {
            assert_eq!(scope, "Command list");
            assert_eq!(
                hints,
                vec![
                    Hint::ExitLinutil,
                    Hint::FocusTabList,
                    Hint::GoToSelectedDir,
                    Hint::SelectAbove,
                    Hint::SelectBelow,
                    Hint::NextTheme,
                    Hint::PrevTheme,
                    Hint::ToggleMultiSelect,
                    Hint::SelectMultiple,
                    Hint::NextTab,
                    Hint::PrevTab,
                    Hint::ActionsGuide,
                ]
            );
        },
        _ => panic!("own keybinds expected"),
    }
    press(&mut fx, &key(KeyCode::Tab));
    inner_listing(&mut fx);
    match fx.state.get_keybinds() {
        Keybinds::Own { hints, .. } => {
            assert!(!hints.contains(&Hint::ToggleMultiSelect));
            assert!(hints.contains(&Hint::RunSelectedCommand));
            assert!(hints.contains(&Hint::EnablePreview));
        },
        _ => panic!("own keybinds expected"),
    }
}

#[test]
fn keybinds_inside_a_directory() {
    let mut fx = fixture();
    press(&mut fx, &key(KeyCode::Enter));
    inner_listing(&mut fx);
    match fx.state.get_keybinds() {
        Keybinds::Own { hints, .. } => {
            assert_eq!(hints[1], Hint::GoToParentFromUpDir);
            assert_eq!(hints[2], Hint::SelectAbove);
        },
        _ => panic!("own keybinds expected"),
    }
    press(&mut fx, &ch('j'));
    match fx.state.get_keybinds() {
        Keybinds::Own { hints, .. } => {
            assert_eq!(hints[1], Hint::GoToParent);
            assert_eq!(hints[2], Hint::RunSelectedCommand);
        },
        _ => panic!("own keybinds expected"),
    }
}

#[test]
fn keybinds_of_other_parts() {
    let mut fx = fixture();
    fx.state.focus = Focus::TabList;
    match fx.state.get_keybinds() {
        Keybinds::Own { scope, hints } => {
            assert_eq!(scope, "Tab list");
            assert_eq!(hints.len(), 8);
            assert_eq!(hints[1], Hint::FocusActionList);
        },
        _ => panic!("own keybinds expected"),
    }
    fx.state.focus = Focus::Search;
    match fx.state.get_keybinds() {
        Keybinds::Own { scope, hints } => {
            assert_eq!(scope, "Search bar");
            assert_eq!(hints, vec![Hint::FinishSearch]);
        },
        _ => panic!("own keybinds expected"),
    }
    fx.state.focus = Focus::List;
    press(&mut fx, &ch('g'));
    assert!(matches!(fx.state.get_keybinds(), Keybinds::FromFloat));
    fx.state.float_key_result(true);
    press(&mut fx, &ch('j'));
    press(&mut fx, &ch('l'));
    assert!(matches!(fx.state.get_keybinds(), Keybinds::FromPrompt));
}

#[test]
fn hint_texts() {
    let s = Hint::ExitLinutil.shortcut();
    assert_eq!(s.name, "Exit linutil");
    assert_eq!(s.keys, vec!["q", "CTRL-c"]);
    let s = Hint::GoToParentFromUpDir.shortcut();
    assert_eq!(s.name, "Go to parent directory");
    assert_eq!(s.keys, vec!["l", "Right", "Enter", "h", "Left"]);
    assert_eq!(Hint::PrevTab.shortcut().keys, vec!["Shift-Tab"]);
    assert_eq!(Hint::SelectMultiple.shortcut().name, "Select multiple commands");
}

#[test]
fn rows_of_the_list() {
    let mut fx = fixture();
    press(&mut fx, &ch('v'));
    press(&mut fx, &ch('j'));
    press(&mut fx, &ch(' '));
    assert_eq!(
        fx.state.list_rows(),
        vec![
            ListRow::Entry { index: 0, is_dir: true, marked: false },
            ListRow::Entry { index: 1, is_dir: false, marked: true },
            ListRow::Entry { index: 2, is_dir: false, marked: false },
        ]
    );
    press(&mut fx, &ch('k'));
    press(&mut fx, &key(KeyCode::Enter));
    inner_listing(&mut fx);
    assert_eq!(
        fx.state.list_rows(),
        vec![ListRow::UpDir, ListRow::Entry { index: 0, is_dir: false, marked: false }]
    );
}

#[test]
fn selection_past_the_listing_selects_nothing() {
    let mut fx = fixture();
    fx.state.set_selection(Some(7));
    assert!(fx.state.get_selected_node().is_none());
    assert!(!fx.state.selected_item_is_dir());
    assert!(fx.state.selected_item_is_cmd());
    press(&mut fx, &key(KeyCode::Enter));
    match &fx.state.focus {
        Focus::ConfirmationPrompt(prompt) => assert!(prompt.content.names.is_empty()),
        _ => panic!("no confirmation"),
    }
}

#[test]
fn nodes_compare_field_by_field() {
    let a = ListNode {
        name: "n".to_string(),
        description: "d".to_string(),
        command: Command::LocalFile {
            executable: "sh".to_string(),
            args: vec!["-c".to_string()],
            file: "/tmp/f.sh".to_string(),
        },
        task_list: "".to_string(),
        multi_select: false,
    };
    let mut b = a.clone();
    assert!(a.same_as(&b));
    b.command = Command::LocalFile {
        executable: "sh".to_string(),
        args: vec!["-e".to_string()],
        file: "/tmp/f.sh".to_string(),
    };
    assert!(!a.same_as(&b));
    assert!(a.command.same_as(&a.command.duplicate()));
    assert!(!Command::Empty.same_as(&Command::Raw("".to_string())));
}

#[test]
fn focus_on_prompt_keys_go_to_prompt_even_tab() {
    let mut fx = fixture();
    press(&mut fx, &ch('j'));
    press(&mut fx, &key(KeyCode::Enter));
    assert_eq!(press(&mut fx, &key(KeyCode::Tab)), KeyAction::ToPrompt);
    assert_eq!(fx.state.current_tab, Some(0));
}

#[test]
fn open_window_takes_quit_key() {
    let mut fx = fixture();
    press(&mut fx, &ch('g'));
    assert_eq!(press(&mut fx, &ch('q')), KeyAction::ToFloat);
    let ctrl_c = KeyEvent { code: KeyCode::Char('c'), modifiers: 0b10, kind: KeyEventKind::Press };
    assert_eq!(press(&mut fx, &ctrl_c), KeyAction::ToFloat);
    assert_eq!(press(&mut fx, &key(KeyCode::Tab)), KeyAction::ToFloat);
    assert_eq!(fx.state.current_tab, Some(0));
}

#[test]
fn preview_opens_whatever_the_focus() {
    let mut fx = fixture();
    press(&mut fx, &ch('j'));
    fx.state.focus = Focus::TabList;
    fx.state.open_preview();
    assert!(matches!(fx.state.focus, Focus::FloatingWindow(_)));
}
