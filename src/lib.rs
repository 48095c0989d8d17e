//! Native side of a desktop translation utility: the clipboard monitor's
//! decisions, the global shortcut's bookkeeping, the reading of selected
//! text and the synthetic key sequences that paste a translation back.
use vstd::prelude::*;

pub mod clipboard;
pub mod monitor;
pub mod paste;
pub mod shortcut;

verus! {

/// The text waiting to be translated.
pub struct StringWrapper(pub String);

impl StringWrapper {
    /// No text waiting yet.
    pub fn new() -> (r: Self)
        ensures
            r.0@ == Seq::<char>::empty(),
    {
        let r = StringWrapper(String::new());
        assert(r.0@ =~= Seq::<char>::empty());
        r
    }
}

} // verus!
