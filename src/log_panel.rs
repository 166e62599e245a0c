use vstd::prelude::*;

verus! {

/// The one-line log under the panels.
pub struct LogPanel {
    pub msg: String,
}

impl LogPanel {
    /// An empty log.
    pub fn new() -> (r: LogPanel)
        ensures
            r.msg@ == Seq::<char>::empty(),
    {
        LogPanel { msg: String::new() }
    }

    /// Shows `msg`.
    pub fn set_log(&mut self, msg: String)
        ensures
            final(self).msg == msg,
    {
        self.msg = msg;
    }

    /// Empties the log.
    pub fn clear_log(&mut self)
        ensures
            final(self).msg@ == Seq::<char>::empty(),
    {
        self.msg = String::new();
    }
}

} // verus!
