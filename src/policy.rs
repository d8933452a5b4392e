//! When the user is asked before a removal.
use vstd::prelude::*;

verus! {

/// When to prompt before removing.
#[derive(Debug, Clone, Copy, PartialEq, Eq, Structural)]
pub enum InteractiveMode {
    /// Never prompt.
    Never,
    /// Prompt once before removing more than three items, or when removing
    /// recursively.
    Once,
    /// Prompt before every removal.
    Always,
}

/// More items than this in one batch call for the single up-front prompt.
pub const ONCE_THRESHOLD: usize = 3;

/// How one selected item is handled.
#[derive(Debug, Clone, Copy, PartialEq, Eq, Structural)]
pub struct ItemRoute {
    /// Ask before acting on this item.
    pub ask_first: bool,
    /// Remove it as an empty directory rather than trashing it.
    pub empty_dir_removal: bool,
}

impl InteractiveMode {
    pub fn is_never(&self) -> (r: bool)
        ensures
            r == (*self == InteractiveMode::Never),
    {
        *self == InteractiveMode::Never
    }

    pub fn is_once(&self) -> (r: bool)
        ensures
            r == (*self == InteractiveMode::Once),
    {
        *self == InteractiveMode::Once
    }

    pub fn is_always(&self) -> (r: bool)
        ensures
            r == (*self == InteractiveMode::Always),
    {
        *self == InteractiveMode::Always
    }
}

/// Whether the batch starts with one confirmation.
pub fn prompts_once(mode: Option<InteractiveMode>, count: usize, recursive: bool) -> (r: bool)
    ensures
        r == (mode == Some(InteractiveMode::Once) && (count > ONCE_THRESHOLD || recursive)),
{
    match mode {
        Some(InteractiveMode::Once) => count > ONCE_THRESHOLD || recursive,
        _ => false,
    }
}

/// How an item is handled: `Always` asks before each item, the other modes
/// (and no mode) act at once; the empty-directory flag picks the branch.
pub fn route_item(mode: Option<InteractiveMode>, remove_empty_dirs: bool) -> (r: ItemRoute)
    ensures
        r.ask_first == (mode == Some(InteractiveMode::Always)),
        r.empty_dir_removal == remove_empty_dirs,
{
    let ask_first = match mode {
        Some(InteractiveMode::Always) => true,
        _ => false,
    };
    ItemRoute { ask_first, empty_dir_removal: remove_empty_dirs }
}

} // verus!
