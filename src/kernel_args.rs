use vstd::prelude::*;

verus! {

/// What the host binds at one argument slot of a device kernel.
#[derive(Debug, Clone, Copy, PartialEq, Eq, Structural)]
pub enum KernelArg {
    /// The display/output image the render kernel writes.
    DisplayTarget,
    /// G-buffer attachment: world-space position.
    Position,
    /// G-buffer attachment: base color.
    BaseColor,
    /// G-buffer attachment: normal.
    Normal,
    /// G-buffer attachment: metallic, roughness, occlusion.
    MetallicRoughness,
    /// G-buffer attachment: emission.
    Emission,
    /// Camera parameter block.
    Camera,
    /// Network descriptor (four topology integers).
    Network,
    /// Weights the kernel reads.
    InWeights,
    /// Weights the kernel writes.
    OutWeights,
    /// Local scratch allocation of the given number of bytes.
    Scratch { bytes: u64 },
    /// Number of scalars in the scratch allocation.
    ScratchElements { count: i32 },
    /// Hash-grid metadata record.
    GridMeta,
    /// Hash-grid read-only mirror.
    GridRead,
    /// Hash-grid write-target mirror.
    GridWrite,
    /// Bounding volume of the subject.
    Aabb,
    /// Loss accumulator.
    Loss,
    /// Per-feature error accumulator.
    Errors,
    /// Elapsed wall time, an auxiliary input.
    ElapsedTime,
}

} // verus!
