use vstd::prelude::*;

verus! {

/// An engine subsystem, created once and updated every frame.
pub trait System {
    fn init() -> Box<Self>;

    fn update(&mut self);
}

} // verus!
