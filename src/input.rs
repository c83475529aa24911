use vstd::prelude::*;

verus! {

/// Number of keyboard keys tracked.
pub const MAX_KEYS: usize = 512;

/// Pressed state of every keyboard key.
#[derive(Clone)]
pub struct KeyboardValues {
    pub keys: [bool; 512],
}

impl KeyboardValues {
    /// Every key released.
    pub fn new() -> (r: Self)
        ensures
            forall|i: int| 0 <= i < MAX_KEYS ==> !r.keys@[i],
    {
        KeyboardValues { keys: [false; 512] }
    }
}

} // verus!
