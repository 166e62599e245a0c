use vstd::prelude::*;

verus! {

/// The panels that can own the keyboard, in the order Tab walks them.
#[derive(Debug, Clone, Copy, PartialEq, Eq, Structural)]
pub enum CurrentWidget {
    PathField,
    CommandBar,
    Explorer,
    QuickAccess,
    Drives,
}

/// The panel after `w` in the Tab order, from the last back to the first.
pub open spec fn widget_after(w: CurrentWidget) -> CurrentWidget {
    match w {
        CurrentWidget::PathField => CurrentWidget::CommandBar,
        CurrentWidget::CommandBar => CurrentWidget::Explorer,
        CurrentWidget::Explorer => CurrentWidget::QuickAccess,
        CurrentWidget::QuickAccess => CurrentWidget::Drives,
        CurrentWidget::Drives => CurrentWidget::PathField,
    }
}

impl CurrentWidget {
    /// The panel after this one in the Tab order.
    pub fn next(&self) -> (r: CurrentWidget)
        ensures
            r == widget_after(*self),
    {
        match self {
            CurrentWidget::PathField => CurrentWidget::CommandBar,
            CurrentWidget::CommandBar => CurrentWidget::Explorer,
            CurrentWidget::Explorer => CurrentWidget::QuickAccess,
            CurrentWidget::QuickAccess => CurrentWidget::Drives,
            CurrentWidget::Drives => CurrentWidget::PathField,
        }
    }
}

/// Walking the Tab order five times comes back to the panel one started from,
/// and no fewer steps do.
pub proof fn lemma_tab_cycle(w: CurrentWidget)
    ensures
        widget_after(widget_after(widget_after(widget_after(widget_after(w))))) == w,
        widget_after(w) != w,
        widget_after(widget_after(w)) != w,
        widget_after(widget_after(widget_after(w))) != w,
        widget_after(widget_after(widget_after(widget_after(w)))) != w,
{
}

/// A panel that may hold the focus.
pub trait FocusableWidget {
    spec fn focused(&self) -> bool;

    /// Whether the panel holds the focus.
    fn on_focus(&self) -> (r: bool)
        ensures
            r == self.focused(),
    ;
}

} // verus!
