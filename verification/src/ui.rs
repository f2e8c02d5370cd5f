//! What the drawing of the interface decides.
use vstd::prelude::*;
use crate::app_state::{AppState, AppView};
use crate::misc::at_root;

verus! {

/// The smallest terminal height the interface is drawn in.
pub const MIN_HEIGHT: u16 = 19;

/// The smallest terminal width the interface is drawn in.
pub const MIN_WIDTH: u16 = 77;

/// A row of the command list.
#[derive(Debug, Clone, Copy, PartialEq, Eq)]
pub enum ListRow {
    /// The `..` row that leads to the parent directory.
    UpDir,
    /// The entry `index` of the listing; `marked` when its node is marked.
    Entry { index: usize, is_dir: bool, marked: bool },
}

/// The rows of the command list: `..` outside the tab's root, then one row
/// per listed entry.
pub open spec fn list_rows(s: AppView) -> Seq<ListRow> {
    let up = if at_root(s) {
        Seq::empty()
    } else {
        seq![ListRow::UpDir]
    };
    up + Seq::new(
        s.items.len(),
        |i: int|
            ListRow::Entry {
                index: i as usize,
                is_dir: s.items[i].has_children,
                marked: s.selected.contains(s.items[i].node),
            },
    )
}

impl AppState {
    /// Records whether a terminal of `width` by `height` cells is large enough
    /// to draw in, and returns it.
    pub fn tui_drawable(&mut self, width: u16, height: u16) -> (res: bool)
        requires
            old(self).wf(),
        ensures
            res == !(width < MIN_WIDTH || height < MIN_HEIGHT),
            final(self)@ == (AppView { drawable: res, ..old(self)@ }),
            final(self).wf(),
    {
        if width < MIN_WIDTH || height < MIN_HEIGHT {
            self.drawable = false;
            false
        } else {
            self.drawable = true;
            true
        }
    }

    /// The rows to draw in the command list.
    pub fn list_rows(&self) -> (res: Vec<ListRow>)
        requires
            !self.items_stale,
        ensures
            res@ == list_rows(self@),
    {
        let mut rows: Vec<ListRow> = Vec::new();
        if !self.at_root() {
            rows.push(ListRow::UpDir);
        }
        let ghost up = rows@;
        let mut i: usize = 0;
        while i < self.items.len()
            invariant
                i <= self.items@.len(),
                up == (if at_root(self@) {
                    Seq::<ListRow>::empty()
                } else {
                    seq![ListRow::UpDir]
                }),
                rows@ == up + Seq::new(
                    i as nat,
                    |j: int|
                        ListRow::Entry {
                            index: j as usize,
                            is_dir: self@.items[j].has_children,
                            marked: self@.selected.contains(self@.items[j].node),
                        },
                ),
            decreases self.items@.len() - i,
        {
            let marked = self.is_marked(&self.items[i].node);
            rows.push(ListRow::Entry { index: i, is_dir: self.items[i].has_children, marked });
            proof {
                assert(rows@ =~= up + Seq::new(
                    (i + 1) as nat,
                    |j: int|
                        ListRow::Entry {
                            index: j as usize,
                            is_dir: self@.items[j].has_children,
                            marked: self@.selected.contains(self@.items[j].node),
                        },
                ));
            }
            i = i + 1;
        }
        rows
    }
}

} // verus!
