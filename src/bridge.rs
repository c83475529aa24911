use vstd::prelude::*;

verus! {

/// Where a raster/compute interop cycle stands.
#[derive(Debug, Clone, Copy, PartialEq, Eq, Structural)]
pub enum BridgePhase {
    /// No cycle under way; the rasterizer owns every shared resource.
    Idle,
    /// The rasterizer is drawing the G-buffer of the current sample.
    Rendering,
    /// The compute side owns the shared resources; kernels may run.
    Acquired,
    /// Both kernels ran to completion.
    Dispatched,
    /// The shared resources went back to the rasterizer; results await read-back.
    Released,
}

/// A request made of the bridge.
#[derive(Debug, Clone, Copy, PartialEq, Eq, Structural)]
pub enum BridgeCall {
    BeginRender,
    Acquire,
    DispatchRender,
    DispatchTrain,
    Release,
    ReadBack,
}

/// A request that the protocol forbids in the current phase.
#[derive(Debug, Clone, Copy, PartialEq, Eq, Structural)]
pub enum BridgeError {
    /// Acquire while a previous acquisition is outstanding.
    AlreadyAcquired,
    /// Release while nothing is acquired.
    NotAcquired,
    /// Train dispatch before the render dispatch of the same cycle.
    TrainBeforeRender,
    /// Any other request out of protocol order.
    OutOfOrder { phase: BridgePhase, call: BridgeCall },
}

/// A resource shared between rasterizer and compute through interop registration.
#[derive(Debug, Clone, Copy, PartialEq, Eq, Structural)]
pub enum InteropResource {
    Position,
    BaseColor,
    Normal,
    MetallicRoughness,
    Emission,
    DisplayTarget,
}

/// Order in which the shared resources are acquired.
pub open spec fn acquire_order() -> Seq<InteropResource> {
    seq![
        InteropResource::Position,
        InteropResource::BaseColor,
        InteropResource::Normal,
        InteropResource::MetallicRoughness,
        InteropResource::Emission,
        InteropResource::DisplayTarget,
    ]
}

/// Explicit state of the interop protocol.
#[derive(Debug, Clone, Copy, PartialEq, Eq, Structural)]
pub struct ComputeBridge {
    pub phase: BridgePhase,
    /// The render kernel of the current cycle has completed.
    pub render_done: bool,
}

/// The compute side owns the shared resources.
pub open spec fn holds_resources(b: ComputeBridge) -> bool {
    b.phase == BridgePhase::Acquired || b.phase == BridgePhase::Dispatched
}

/// One protocol step: the next state, or why the request is refused.
pub open spec fn step_spec(b: ComputeBridge, call: BridgeCall) -> Result<ComputeBridge, BridgeError> {
    let refuse = Err(BridgeError::OutOfOrder { phase: b.phase, call });
    match call {
        BridgeCall::BeginRender => if b.phase == BridgePhase::Idle {
            Ok(ComputeBridge { phase: BridgePhase::Rendering, render_done: false })
        } else {
            refuse
        },
        BridgeCall::Acquire => if b.phase == BridgePhase::Rendering {
            Ok(ComputeBridge { phase: BridgePhase::Acquired, render_done: false })
        } else if holds_resources(b) {
            Err(BridgeError::AlreadyAcquired)
        } else {
            refuse
        },
        BridgeCall::DispatchRender => if b.phase == BridgePhase::Acquired && !b.render_done {
            Ok(ComputeBridge { phase: BridgePhase::Acquired, render_done: true })
        } else {
            refuse
        },
        BridgeCall::DispatchTrain => if b.phase == BridgePhase::Acquired && b.render_done {
            Ok(ComputeBridge { phase: BridgePhase::Dispatched, render_done: true })
        } else if b.phase == BridgePhase::Acquired {
            Err(BridgeError::TrainBeforeRender)
        } else {
            refuse
        },
        BridgeCall::Release => if holds_resources(b) {
            Ok(ComputeBridge { phase: BridgePhase::Released, render_done: b.render_done })
        } else {
            Err(BridgeError::NotAcquired)
        },
        BridgeCall::ReadBack => if b.phase == BridgePhase::Released {
            Ok(ComputeBridge { phase: BridgePhase::Idle, render_done: false })
        } else {
            refuse
        },
    }
}

/// Runs a sequence of requests, stopping at the first refused one.
pub open spec fn run(b: ComputeBridge, calls: Seq<BridgeCall>) -> Result<ComputeBridge, BridgeError>
    decreases calls.len(),
{
    if calls.len() == 0 {
        Ok(b)
    } else {
        match step_spec(b, calls[0]) {
            Ok(next) => run(next, calls.drop_first()),
            Err(e) => Err(e),
        }
    }
}

impl ComputeBridge {
    /// A bridge with no cycle under way.
    pub fn new() -> (r: Self)
        ensures
            r.phase == BridgePhase::Idle,
            !r.render_done,
    {
        ComputeBridge { phase: BridgePhase::Idle, render_done: false }
    }

    /// Performs one protocol step; a refused request leaves the state as it was.
    pub fn apply(&mut self, call: BridgeCall) -> (r: Result<(), BridgeError>)
        ensures
            match step_spec(*old(self), call) {
                Ok(next) => r.is_ok() && *final(self) == next,
                Err(e) => r == Err::<(), BridgeError>(e) && *final(self) == *old(self),
            },
    {
        let refuse = Err(BridgeError::OutOfOrder { phase: self.phase, call });
        let holds = match self.phase {
            BridgePhase::Acquired | BridgePhase::Dispatched => true,
            _ => false,
        };
        match call {
            BridgeCall::BeginRender => {
                if let BridgePhase::Idle = self.phase {
                    self.phase = BridgePhase::Rendering;
                    self.render_done = false;
                    Ok(())
                } else {
                    refuse
                }
            },
            BridgeCall::Acquire => {
                if let BridgePhase::Rendering = self.phase {
                    self.phase = BridgePhase::Acquired;
                    self.render_done = false;
                    Ok(())
                } else if holds {
                    Err(BridgeError::AlreadyAcquired)
                } else {
                    refuse
                }
            },
            BridgeCall::DispatchRender => {
                if let BridgePhase::Acquired = self.phase {
                    if !self.render_done {
                        self.render_done = true;
                        return Ok(());
                    }
                }
                refuse
            },
            BridgeCall::DispatchTrain => {
                if let BridgePhase::Acquired = self.phase {
                    if self.render_done {
                        self.phase = BridgePhase::Dispatched;
                        Ok(())
                    } else {
                        Err(BridgeError::TrainBeforeRender)
                    }
                } else {
                    refuse
                }
            },
            BridgeCall::Release => {
                if holds {
                    self.phase = BridgePhase::Released;
                    Ok(())
                } else {
                    Err(BridgeError::NotAcquired)
                }
            },
            BridgeCall::ReadBack => {
                if let BridgePhase::Released = self.phase {
                    self.phase = BridgePhase::Idle;
                    self.render_done = false;
                    Ok(())
                } else {
                    refuse
                }
            },
        }
    }

    /// Idle -> Rendering: the rasterizer draws the G-buffer.
    pub fn begin_render(&mut self) -> (r: Result<(), BridgeError>)
        ensures
            match step_spec(*old(self), BridgeCall::BeginRender) {
                Ok(next) => r.is_ok() && *final(self) == next,
                Err(e) => r == Err::<(), BridgeError>(e) && *final(self) == *old(self),
            },
    {
        self.apply(BridgeCall::BeginRender)
    }

    /// Rendering -> Acquired: returns the shared resources to acquire, in
    /// order. Refused with `AlreadyAcquired` while an acquisition is outstanding.
    pub fn acquire(&mut self) -> (r: Result<Vec<InteropResource>, BridgeError>)
        ensures
            match step_spec(*old(self), BridgeCall::Acquire) {
                Ok(next) => r.is_ok() && r.unwrap()@ == acquire_order() && *final(self) == next,
                Err(e) => r == Err::<Vec<InteropResource>, BridgeError>(e) && *final(self)
                    == *old(self),
            },
    {
        match self.apply(BridgeCall::Acquire) {
            Ok(()) => Ok(
                vec![
                    InteropResource::Position,
                    InteropResource::BaseColor,
                    InteropResource::Normal,
                    InteropResource::MetallicRoughness,
                    InteropResource::Emission,
                    InteropResource::DisplayTarget,
                ],
            ),
            Err(e) => Err(e),
        }
    }

    /// Runs the render kernel of the current cycle.
    pub fn dispatch_render(&mut self) -> (r: Result<(), BridgeError>)
        ensures
            match step_spec(*old(self), BridgeCall::DispatchRender) {
                Ok(next) => r.is_ok() && *final(self) == next,
                Err(e) => r == Err::<(), BridgeError>(e) && *final(self) == *old(self),
            },
    {
        self.apply(BridgeCall::DispatchRender)
    }

    /// Acquired -> Dispatched: runs the train kernel, only after the render kernel.
    pub fn dispatch_train(&mut self) -> (r: Result<(), BridgeError>)
        ensures
            match step_spec(*old(self), BridgeCall::DispatchTrain) {
                Ok(next) => r.is_ok() && *final(self) == next,
                Err(e) => r == Err::<(), BridgeError>(e) && *final(self) == *old(self),
            },
    {
        self.apply(BridgeCall::DispatchTrain)
    }

    /// -> Released: returns the shared resources to release, the acquisition
    /// order reversed. Refused with `NotAcquired` when nothing is held.
    pub fn release(&mut self) -> (r: Result<Vec<InteropResource>, BridgeError>)
        ensures
            match step_spec(*old(self), BridgeCall::Release) {
                Ok(next) => r.is_ok() && r.unwrap()@ == acquire_order().reverse() && *final(self)
                    == next,
                Err(e) => r == Err::<Vec<InteropResource>, BridgeError>(e) && *final(self)
                    == *old(self),
            },
    {
        match self.apply(BridgeCall::Release) {
            Ok(()) => {
                let r = vec![
                    InteropResource::DisplayTarget,
                    InteropResource::Emission,
                    InteropResource::MetallicRoughness,
                    InteropResource::Normal,
                    InteropResource::BaseColor,
                    InteropResource::Position,
                ];
                assert(r@ =~= acquire_order().reverse());
                Ok(r)
            },
            Err(e) => Err(e),
        }
    }

    /// Released -> Idle: results may be read back.
    pub fn read_back(&mut self) -> (r: Result<(), BridgeError>)
        ensures
            match step_spec(*old(self), BridgeCall::ReadBack) {
                Ok(next) => r.is_ok() && *final(self) == next,
                Err(e) => r == Err::<(), BridgeError>(e) && *final(self) == *old(self),
            },
    {
        self.apply(BridgeCall::ReadBack)
    }
}

/// While the resources are held, every request but `Release` either is
/// refused or keeps them held.
proof fn lemma_held_until_release(b: ComputeBridge, call: BridgeCall)
    requires
        holds_resources(b),
        call != BridgeCall::Release,
    ensures
        step_spec(b, call) matches Ok(n) ==> holds_resources(n),
        call == BridgeCall::Acquire ==> step_spec(b, call) == Err::<ComputeBridge, BridgeError>(
            BridgeError::AlreadyAcquired,
        ),
{
}

/// With the resources held, a later `Acquire` with no `Release` before it
/// makes the sequence fail.
proof fn lemma_acquire_while_held(b: ComputeBridge, calls: Seq<BridgeCall>, j: int)
    requires
        holds_resources(b),
        0 <= j < calls.len(),
        calls[j] == BridgeCall::Acquire,
        forall|k: int| 0 <= k < j ==> calls[k] != BridgeCall::Release,
    ensures
        run(b, calls).is_err(),
    decreases j,
{
    lemma_held_until_release(b, calls[0]);
    if j > 0 {
        if let Ok(n) = step_spec(b, calls[0]) {
            let rest = calls.drop_first();
            assert forall|k: int| 0 <= k < j - 1 implies rest[k] != BridgeCall::Release by {
                assert(rest[k] == calls[k + 1]);
            }
            lemma_acquire_while_held(n, rest, j - 1);
        }
    }
}

/// Re-entrant acquisition is refused: any sequence of requests that asks to
/// `Acquire` twice with no `Release` in between fails, whatever the start.
pub proof fn lemma_double_acquire_rejected(b: ComputeBridge, calls: Seq<BridgeCall>, i: int, j: int)
    requires
        0 <= i < j < calls.len(),
        calls[i] == BridgeCall::Acquire,
        calls[j] == BridgeCall::Acquire,
        forall|k: int| i < k < j ==> calls[k] != BridgeCall::Release,
    ensures
        run(b, calls).is_err(),
    decreases i,
{
    let rest = calls.drop_first();
    if let Ok(n) = step_spec(b, calls[0]) {
        if i == 0 {
            assert forall|k: int| 0 <= k < j - 1 implies rest[k] != BridgeCall::Release by {
                assert(rest[k] == calls[k + 1]);
            }
            lemma_acquire_while_held(n, rest, j - 1);
        } else {
            assert forall|k: int| i - 1 < k < j - 1 implies rest[k] != BridgeCall::Release by {
                assert(rest[k] == calls[k + 1]);
            }
            lemma_double_acquire_rejected(n, rest, i - 1, j - 1);
        }
    }
}

/// A release with no acquisition before it in the sequence fails, from any
/// state in which the compute side holds nothing (the idle start included).
pub proof fn lemma_release_without_acquire_rejected(
    b: ComputeBridge,
    calls: Seq<BridgeCall>,
    j: int,
)
    requires
        !holds_resources(b),
        0 <= j < calls.len(),
        calls[j] == BridgeCall::Release,
        forall|k: int| 0 <= k < j ==> calls[k] != BridgeCall::Acquire,
    ensures
        run(b, calls).is_err(),
    decreases j,
{
    if j > 0 {
        let rest = calls.drop_first();
        if let Ok(n) = step_spec(b, calls[0]) {
            assert forall|k: int| 0 <= k < j - 1 implies rest[k] != BridgeCall::Acquire by {
                assert(rest[k] == calls[k + 1]);
            }
            lemma_release_without_acquire_rejected(n, rest, j - 1);
        }
    }
}

} // verus!
