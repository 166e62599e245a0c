use vstd::prelude::*;

verus! {

/// The help overlay's scroll position, within its bound.
pub struct HelpOverview {
    pub scroll: u16,
    pub max_scroll: u16,
}

impl HelpOverview {
    pub open spec fn well_formed(&self) -> bool {
        self.scroll <= self.max_scroll
    }

    /// Help scrolled to the top, which can scroll down `max_scroll` lines.
    pub fn new(max_scroll: u16) -> (r: HelpOverview)
        ensures
            r.well_formed(),
            r.scroll == 0,
            r.max_scroll == max_scroll,
    {
        HelpOverview { scroll: 0, max_scroll }
    }

    /// One line further down, unless at the bottom.
    pub fn scroll_down(&mut self)
        requires
            old(self).well_formed(),
        ensures
            final(self).well_formed(),
            final(self).max_scroll == old(self).max_scroll,
            final(self).scroll == if old(self).scroll < old(self).max_scroll {
                (old(self).scroll + 1) as u16
            } else {
                old(self).scroll
            },
    {
        if self.scroll < self.max_scroll {
            self.scroll = self.scroll + 1;
        }
    }

    /// One line further up, unless at the top.
    pub fn scroll_up(&mut self)
        requires
            old(self).well_formed(),
        ensures
            final(self).well_formed(),
            final(self).max_scroll == old(self).max_scroll,
            final(self).scroll == if old(self).scroll > 0 { (old(self).scroll - 1) as u16 } else { 0u16 },
    {
        if self.scroll > 0 {
            self.scroll = self.scroll - 1;
        }
    }
}

} // verus!
