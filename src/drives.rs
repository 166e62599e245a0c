use vstd::prelude::*;
use crate::field::Key;
use crate::state::Action;
use crate::selection::{
    fresh_selection, next_selection, previous_selection, selection_valid, start_selection,
    step_backward, step_forward, list_key_outcome,
};

verus! {

/// A mounted volume: its name and where it is mounted.
#[derive(Debug, Clone)]
pub struct DriveEntry {
    pub name: String,
    pub mount_point: String,
}

impl DriveEntry {
    /// The two cells of the volume's row: its name and its mount point.
    pub fn ref_array(&self) -> (r: [String; 2])
        ensures
            r[0]@ == self.name@,
            r[1]@ == self.mount_point@,
    {
        [self.name.clone(), self.mount_point.clone()]
    }
}

/// The table of mounted volumes.
pub struct Drives {
    pub drives: Vec<DriveEntry>,
    pub selected: Option<usize>,
    pub in_focus: bool,
}

impl Drives {
    pub open spec fn well_formed(&self) -> bool {
        selection_valid(self.selected, self.drives@.len())
    }

    /// A table of the given volumes, unfocused, with the first row selected.
    pub fn new(drives: Vec<DriveEntry>) -> (r: Drives)
        ensures
            r.well_formed(),
            r.drives == drives,
            r.selected == start_selection(drives@.len()),
            !r.in_focus,
    {
        let selected = fresh_selection(drives.len());
        Drives { drives, selected, in_focus: false }
    }

    /// Selects the next row, from the last back to the first.
    pub fn next_row(&mut self)
        requires
            old(self).well_formed(),
        ensures
            final(self).well_formed(),
            final(self).selected == step_forward(old(self).selected, old(self).drives@.len()),
            final(self).drives == old(self).drives,
            final(self).in_focus == old(self).in_focus,
    {
        self.selected = next_selection(self.selected, self.drives.len());
    }

    /// Selects the previous row, from the first round to the last.
    pub fn previous_row(&mut self)
        requires
            old(self).well_formed(),
        ensures
            final(self).well_formed(),
            final(self).selected == step_backward(old(self).selected, old(self).drives@.len()),
            final(self).drives == old(self).drives,
            final(self).in_focus == old(self).in_focus,
    {
        self.selected = previous_selection(self.selected, self.drives.len());
    }

    /// Shows the volumes as listed anew, with the first row selected.
    pub fn refresh(&mut self, drives: Vec<DriveEntry>)
        ensures
            final(self).well_formed(),
            final(self).drives == drives,
            final(self).selected == start_selection(drives@.len()),
            final(self).in_focus == old(self).in_focus,
    {
        self.drives = drives;
        self.selected = fresh_selection(self.drives.len());
    }

    /// Handles a key sent to the table: `j`/Down and `k`/Up move the
    /// selection, `r` asks for the volumes to be listed again.
    pub fn handle_input(&mut self, k: Key) -> (r: Action)
        requires
            old(self).well_formed(),
        ensures
            final(self).well_formed(),
            list_key_outcome(old(self).selected, final(self).selected, old(self).drives@.len(), k),
            k == Key::Char('r') ==> r is RefreshDrives,
            k != Key::Char('r') ==> r is Idle,
            final(self).drives == old(self).drives,
            final(self).in_focus == old(self).in_focus,
    {
        if k == Key::Char('j') || k == Key::Down {
            self.next_row();
            Action::Idle
        } else if k == Key::Char('k') || k == Key::Up {
            self.previous_row();
            Action::Idle
        } else if k == Key::Char('r') {
            Action::RefreshDrives
        } else {
            Action::Idle
        }
    }
}

} // verus!
