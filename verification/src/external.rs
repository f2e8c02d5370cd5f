//! Declarations and thin wrappers for what the state takes from outside crates.
use vstd::prelude::*;
use std::rc::Rc;

verus! {

/// A node handle of `ego_tree`; the library only stores and compares it.
#[verifier::external_type_specification]
#[verifier::external_body]
pub struct ExNodeId(ego_tree::NodeId);

/// The temporary directory that must outlive the interface; only carried.
#[verifier::external_type_specification]
#[verifier::external_body]
pub struct ExTempDir(temp_dir::TempDir);

/// `ratatui::widgets::ListState::select_next`: from `selected`, the next index,
/// saturating at `usize::MAX`; from no selection, index 0.
#[verifier::external_body]
pub(crate) fn list_select_next(selected: Option<usize>) -> (res: Option<usize>)
    ensures
        res == Some(match selected {
            Some(i) => if i == usize::MAX { i } else { (i + 1) as usize },
            None => 0usize,
        }),
{
    let mut state = ratatui::widgets::ListState::default().with_selected(selected);
    state.select_next();
    state.selected()
}

/// `ratatui::widgets::ListState::select_previous`: from `selected`, the
/// previous index, saturating at 0; from no selection, `usize::MAX`.
#[verifier::external_body]
pub(crate) fn list_select_previous(selected: Option<usize>) -> (res: Option<usize>)
    ensures
        res == Some(match selected {
            Some(i) => if i == 0 { 0usize } else { (i - 1) as usize },
            None => usize::MAX,
        }),
{
    let mut state = ratatui::widgets::ListState::default().with_selected(selected);
    state.select_previous();
    state.selected()
}

/// `crossterm::event::KeyModifiers::contains(KeyModifiers::CONTROL)` on the
/// modifier bits `bits`: true exactly when the CONTROL bit (`0b10`) is set.
#[verifier::external_body]
pub(crate) fn modifiers_contain_control(bits: u8) -> (res: bool)
    ensures
        res == (bits & 2u8 == 2u8),
{
    crossterm::event::KeyModifiers::from_bits_retain(bits).contains(
        crossterm::event::KeyModifiers::CONTROL,
    )
}

/// `std::rc::Rc::clone`: another pointer to the same value.
#[verifier::external_body]
pub(crate) fn rc_clone<T>(rc: &Rc<T>) -> (res: Rc<T>)
    ensures
        res == *rc,
{
    Rc::clone(rc)
}

} // verus!
