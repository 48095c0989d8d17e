//! The global shortcut that triggers translate-and-replace.
//!
//! At most one key combination is registered at a time. Changing it tears
//! the old one down first, so a failed registration leaves none.
use vstd::prelude::*;

verus! {

/// The shortcut that is active after registering `combo`, whatever was active
/// before: `registered` says whether the system accepted it.
pub open spec fn after_registration(
    before: Option<Seq<char>>,
    combo: Seq<char>,
    registered: bool,
) -> Option<Seq<char>> {
    if registered {
        Some(combo)
    } else {
        None
    }
}

/// Whether pressing `combo` starts a translate-and-replace.
pub open spec fn fires(active: Option<Seq<char>>, combo: Seq<char>) -> bool {
    active == Some(combo)
}

/// The single active global shortcut, if any.
pub struct ShortcutDispatcher {
    active: Option<String>,
}

impl View for ShortcutDispatcher {
    type V = Option<Seq<char>>;

    closed spec fn view(&self) -> Option<Seq<char>> {
        match self.active {
            Some(s) => Some(s@),
            None => None,
        }
    }
}

impl ShortcutDispatcher {
    /// A dispatcher with no shortcut registered.
    pub fn new() -> (r: Self)
        ensures
            r@ is None,
    {
        ShortcutDispatcher { active: None }
    }

    /// The active key combination.
    pub fn active(&self) -> (r: Option<&String>)
        ensures
            match r {
                Some(s) => self@ == Some(s@),
                None => self@ is None,
            },
    {
        match &self.active {
            Some(s) => Some(s),
            None => None,
        }
    }

    /// Records the registration of `shortcut`, made after every earlier
    /// shortcut was unregistered; `outcome` is the system's answer to the
    /// registration, and is handed back to the caller.
    pub fn register_translate_shortcut(&mut self, shortcut: String, outcome: Result<(), String>) -> (r:
        Result<(), String>)
        ensures
            final(self)@ == after_registration(old(self)@, shortcut@, outcome is Ok),
            r == outcome,
    {
        self.active = None;
        if outcome.is_ok() {
            self.active = Some(shortcut);
        }
        outcome
    }

    /// Whether pressing `combo` starts a translate-and-replace.
    pub fn triggers(&self, combo: &str) -> (r: bool)
        ensures
            r == fires(self@, combo@),
    {
        match &self.active {
            Some(s) => {
                let c = String::from_str(combo);
                *s == c
            },
            None => false,
        }
    }
}

/// After `first` and then `second` were registered, `second` is the one
/// active shortcut, and pressing `first` does nothing unless it is the same
/// combination.
pub proof fn lemma_switch_leaves_only_latest(
    before: Option<Seq<char>>,
    first: Seq<char>,
    second: Seq<char>,
)
    ensures
        after_registration(after_registration(before, first, true), second, true) == Some(second),
        fires(after_registration(after_registration(before, first, true), second, true), first)
            <==> first == second,
{
}

/// When `second` fails to register after `first` succeeded, no shortcut is
/// active: `first` was torn down before the attempt.
pub proof fn lemma_failed_switch_leaves_none(
    before: Option<Seq<char>>,
    first: Seq<char>,
    second: Seq<char>,
)
    ensures
        after_registration(after_registration(before, first, true), second, false) is None,
        forall|combo: Seq<char>|
            !fires(
                #[trigger] after_registration(after_registration(before, first, true), second, false),
                combo,
            ),
{
}

} // verus!
