//! The run's boolean options.
use vstd::prelude::*;

verus! {

/// Options of a run: whether the identifier also goes to the clipboard.
#[derive(Clone, Copy, Debug, PartialEq, Eq, Structural)]
pub struct Flags {
    pub copy: bool,
}

impl Flags {
    /// No copying by default.
    pub fn new() -> (r: Flags)
        ensures
            !r.copy,
    {
        Flags { copy: false }
    }

    /// Sets whether the identifier is copied to the clipboard.
    pub fn set_copy(&mut self, copy: bool)
        ensures
            final(self).copy == copy,
    {
        self.copy = copy;
    }
}

} // verus!
