use vstd::prelude::*;

use crate::bridge::{acquire_order, BridgePhase, ComputeBridge, InteropResource};
use crate::error::ConfigError;
use crate::graphics::GLRenderAttachment;
use crate::hash_grid::{GridUpload, MirrorState, MultiHashGrid, MultiHashGridMeta};
use crate::kernel_args::KernelArg;
use crate::neural_field::{NeuralNetwork, NeuralTopology};

verus! {

/// Hash-grid layers used by a bake.
pub const GRID_LAYERS: usize = 16;

/// Hash-grid entries per layer used by a bake (2^22).
pub const GRID_ENTRIES: usize = 4194304;

/// Hash-grid features per entry used by a bake.
pub const GRID_FEATURES: usize = 1;

/// Coarsest hash-grid resolution used by a bake.
pub const GRID_MIN_RESOLUTION: usize = 128;

/// Finest hash-grid resolution used by a bake.
pub const GRID_MAX_RESOLUTION: usize = 512;

/// Scalar inputs of the network beside the encoded features (elapsed time).
pub const AUX_INPUTS: usize = 1;

/// Hidden-layer width used by a bake.
pub const HIDDEN_COUNT: i32 = 32;

/// Output channels of the network.
pub const OUTPUT_COUNT: i32 = 3;

/// Hidden layers used by a bake.
pub const HIDDEN_LAYER_COUNT: i32 = 2;

/// How camera positions are spread over the sphere around the subject.
#[derive(Debug, Clone, Copy, PartialEq, Eq, Structural)]
pub enum BakeSampleDistribution {
    Uniform,
    Random,
}

/// What a bake is asked to do.
#[derive(Debug, Clone, Copy, PartialEq, Eq, Structural)]
pub struct BakeParameters {
    pub epochs: usize,
    pub sample_positions: usize,
    pub sample_distribution: BakeSampleDistribution,
    pub sample_resolution: usize,
}

impl Default for BakeParameters {
    fn default() -> (r: Self)
        ensures
            r.epochs == 10000,
            r.sample_positions == 300,
            r.sample_distribution == BakeSampleDistribution::Random,
            r.sample_resolution == 512,
    {
        BakeParameters {
            epochs: 10000,
            sample_positions: 300,
            sample_distribution: BakeSampleDistribution::Random,
            sample_resolution: 512,
        }
    }
}

impl BakeParameters {
    /// Refuses a sample resolution below two texels.
    pub fn check(&self) -> (r: Result<(), ConfigError>)
        ensures
            r.is_ok() <==> self.sample_resolution > 1,
            r.is_err() ==> r == Err::<(), ConfigError>(ConfigError::SampleResolutionTooSmall),
    {
        if self.sample_resolution > 1 {
            Ok(())
        } else {
            Err(ConfigError::SampleResolutionTooSmall)
        }
    }
}

/// Shape of the hash grid that a bake encodes positions with.
pub fn bake_grid_meta() -> (r: MultiHashGridMeta)
    ensures
        r.wf(),
        r.resolution_layers == GRID_LAYERS,
        r.max_entries == GRID_ENTRIES,
        r.features_per_entry == GRID_FEATURES,
        r.min_resolution == GRID_MIN_RESOLUTION,
        r.max_resolution == GRID_MAX_RESOLUTION,
{
    let r = MultiHashGridMeta {
        resolution_layers: 16,
        max_entries: 4194304,
        features_per_entry: 1,
        min_resolution: 128,
        max_resolution: 512,
    };
    assert(r.elem_count_view() == 67108864);
    r
}

/// Topology of the network that a bake trains over a grid of `grid_inputs`
/// encoded features: one input per feature and per auxiliary scalar.
pub fn bake_topology(grid_inputs: usize) -> (r: Result<NeuralTopology, ConfigError>)
    ensures
        match r {
            Ok(t) => {
                &&& t.wf()
                &&& t.inputs() == grid_inputs + AUX_INPUTS
                &&& t.hidden() == HIDDEN_COUNT
                &&& t.outputs() == OUTPUT_COUNT
                &&& t.layers() == HIDDEN_LAYER_COUNT
            },
            Err(e) => e == ConfigError::TopologyTooLarge,
        },
        r.is_ok() <==> crate::neural_field::topology_fits(
            grid_inputs + AUX_INPUTS,
            HIDDEN_COUNT as int,
            OUTPUT_COUNT as int,
            HIDDEN_LAYER_COUNT as int,
        ),
{
    if grid_inputs >= crate::neural_field::DEVICE_INT_MAX as usize {
        return Err(ConfigError::TopologyTooLarge);
    }
    NeuralTopology::new((grid_inputs + AUX_INPUTS) as i32, HIDDEN_COUNT, OUTPUT_COUNT, HIDDEN_LAYER_COUNT)
}

/// Render-target attachment that holds a shared resource of the G-buffer;
/// the display target is a texture of its own.
pub open spec fn gbuffer_attachment_spec(r: InteropResource) -> Option<GLRenderAttachment> {
    match r {
        InteropResource::Position => Some(GLRenderAttachment::Color(0)),
        InteropResource::BaseColor => Some(GLRenderAttachment::Color(1)),
        InteropResource::Normal => Some(GLRenderAttachment::Color(2)),
        InteropResource::MetallicRoughness => Some(GLRenderAttachment::Color(3)),
        InteropResource::Emission => Some(GLRenderAttachment::Color(4)),
        InteropResource::DisplayTarget => None,
    }
}

pub fn gbuffer_attachment(r: InteropResource) -> (a: Option<GLRenderAttachment>)
    ensures
        a == gbuffer_attachment_spec(r),
{
    match r {
        InteropResource::Position => Some(GLRenderAttachment::Color(0)),
        InteropResource::BaseColor => Some(GLRenderAttachment::Color(1)),
        InteropResource::Normal => Some(GLRenderAttachment::Color(2)),
        InteropResource::MetallicRoughness => Some(GLRenderAttachment::Color(3)),
        InteropResource::Emission => Some(GLRenderAttachment::Color(4)),
        InteropResource::DisplayTarget => None,
    }
}

/// Argument list of the render kernel, slot by slot.
pub open spec fn render_args_spec(cache_bytes: u64, cache_elems: i32) -> Seq<KernelArg> {
    seq![
        KernelArg::DisplayTarget,
        KernelArg::Position,
        KernelArg::BaseColor,
        KernelArg::Normal,
        KernelArg::MetallicRoughness,
        KernelArg::Emission,
        KernelArg::Camera,
        KernelArg::Network,
        KernelArg::InWeights,
        KernelArg::OutWeights,
        KernelArg::Scratch { bytes: cache_bytes },
        KernelArg::ScratchElements { count: cache_elems },
        KernelArg::GridMeta,
        KernelArg::GridRead,
        KernelArg::GridWrite,
        KernelArg::Aabb,
        KernelArg::Loss,
        KernelArg::Errors,
    ]
}

/// Argument list of the train kernel, slot by slot.
pub open spec fn train_args_spec(cache_bytes: u64, cache_elems: i32) -> Seq<KernelArg> {
    seq![
        KernelArg::Position,
        KernelArg::Camera,
        KernelArg::Network,
        KernelArg::InWeights,
        KernelArg::OutWeights,
        KernelArg::Scratch { bytes: cache_bytes },
        KernelArg::ScratchElements { count: cache_elems },
        KernelArg::GridMeta,
        KernelArg::GridRead,
        KernelArg::GridWrite,
        KernelArg::Aabb,
        KernelArg::Errors,
        KernelArg::ElapsedTime,
    ]
}

/// Step of one (epoch, sample) iteration, or of the loop around it.
#[derive(Debug, Clone, Copy, PartialEq, Eq, Structural)]
pub enum BakeStage {
    PollEvents,
    Render,
    Acquire,
    Upload,
    DispatchRender,
    DispatchTrain,
    Release,
    ReadBack,
    Present,
    EpochDone,
    Finished,
}

/// What the caller must perform next.
#[derive(Debug)]
pub enum BakeAction {
    /// Pump window and input events.
    PollEvents,
    /// Rasterize camera sample `sample` into the G-buffer, every attachment
    /// cleared to zero first.
    Render { sample: usize },
    /// Issue a rasterizer finish, then acquire these shared resources in order.
    Acquire { resources: Vec<InteropResource> },
    /// Write camera block, network descriptor, the weights into both weight
    /// buffers, these grid copies, the bounding volume, a zero loss, and
    /// `error_slots` zeros into the error accumulator.
    Upload { grid: Vec<GridUpload>, error_slots: usize },
    /// Bind these arguments to the render kernel, dispatch it and wait.
    DispatchRender { args: Vec<KernelArg> },
    /// Bind these arguments to the train kernel, dispatch it and wait.
    DispatchTrain { args: Vec<KernelArg> },
    /// Release these shared resources in order.
    Release { resources: Vec<InteropResource> },
    /// Read back out-weights, grid write mirror and loss, and hand the arrays
    /// to `complete_read_back`.
    ReadBack,
    /// Blit the display target to the screen.
    Present,
    /// Report that epoch `epoch` of `epochs` is done.
    EpochDone { epoch: usize, epochs: usize },
    /// The bake is over.
    Finished,
}

/// Why a bake session refused a request.
#[derive(Debug, Clone, Copy, PartialEq, Eq, Structural)]
pub enum BakeError {
    Config(ConfigError),
    /// `complete_read_back` was called when no read-back was pending.
    NotAwaitingReadBack,
}

/// First stage of an epoch with `samples` camera samples.
pub open spec fn epoch_start(samples: int) -> BakeStage {
    if samples == 0 {
        BakeStage::EpochDone
    } else {
        BakeStage::PollEvents
    }
}

/// Position in the schedule after the step taken at `(epoch, sample, stage)`.
/// A close request ends the bake at the next `Render`, before anything of
/// that cycle is issued; a cycle already under way runs to completion.
pub open spec fn advance_spec(
    epochs: int,
    samples: int,
    epoch: int,
    sample: int,
    stage: BakeStage,
    closing: bool,
) -> (int, int, BakeStage) {
    match stage {
        BakeStage::PollEvents => (epoch, sample, BakeStage::Render),
        BakeStage::Render => if closing {
            (epoch, sample, BakeStage::Finished)
        } else {
            (epoch, sample, BakeStage::Acquire)
        },
        BakeStage::Acquire => (epoch, sample, BakeStage::Upload),
        BakeStage::Upload => (epoch, sample, BakeStage::DispatchRender),
        BakeStage::DispatchRender => (epoch, sample, BakeStage::DispatchTrain),
        BakeStage::DispatchTrain => (epoch, sample, BakeStage::Release),
        BakeStage::Release => (epoch, sample, BakeStage::ReadBack),
        BakeStage::ReadBack => (epoch, sample, BakeStage::ReadBack),
        BakeStage::Present => if sample + 1 < samples {
            (epoch, sample + 1, BakeStage::PollEvents)
        } else {
            (epoch, sample, BakeStage::EpochDone)
        },
        BakeStage::EpochDone => if epoch + 1 < epochs {
            (epoch + 1, 0, epoch_start(samples))
        } else {
            (epoch, sample, BakeStage::Finished)
        },
        BakeStage::Finished => (epoch, sample, BakeStage::Finished),
    }
}

/// Bridge state that goes with each stage.
pub open spec fn bridge_for(stage: BakeStage) -> ComputeBridge {
    match stage {
        BakeStage::Acquire => ComputeBridge { phase: BridgePhase::Rendering, render_done: false },
        BakeStage::Upload => ComputeBridge { phase: BridgePhase::Acquired, render_done: false },
        BakeStage::DispatchRender => ComputeBridge {
            phase: BridgePhase::Acquired,
            render_done: false,
        },
        BakeStage::DispatchTrain => ComputeBridge { phase: BridgePhase::Acquired, render_done: true },
        BakeStage::Release => ComputeBridge { phase: BridgePhase::Dispatched, render_done: true },
        BakeStage::ReadBack => ComputeBridge { phase: BridgePhase::Released, render_done: true },
        _ => ComputeBridge { phase: BridgePhase::Idle, render_done: false },
    }
}

/// One bake: the epoch x sample schedule, the interop protocol state, and the
/// host-canonical network and hash grid.
pub struct BakeSession<T> {
    epochs: usize,
    samples: usize,
    epoch: usize,
    sample: usize,
    stage: BakeStage,
    close_requested: bool,
    bridge: ComputeBridge,
    network: NeuralNetwork<T>,
    grid: MultiHashGrid<T>,
}

impl<T> BakeSession<T> {
    pub closed spec fn epochs_view(&self) -> int {
        self.epochs as int
    }

    pub closed spec fn samples_view(&self) -> int {
        self.samples as int
    }

    pub closed spec fn epoch_view(&self) -> int {
        self.epoch as int
    }

    pub closed spec fn sample_view(&self) -> int {
        self.sample as int
    }

    pub closed spec fn stage_view(&self) -> BakeStage {
        self.stage
    }

    pub closed spec fn closing_view(&self) -> bool {
        self.close_requested
    }

    pub closed spec fn bridge_view(&self) -> ComputeBridge {
        self.bridge
    }

    pub closed spec fn network_view(&self) -> NeuralNetwork<T> {
        self.network
    }

    pub closed spec fn grid_view(&self) -> MultiHashGrid<T> {
        self.grid
    }

    pub closed spec fn wf(&self) -> bool {
        &&& self.network.wf()
        &&& self.grid.wf()
        &&& self.network.topology_view().inputs() == self.grid.required_nn_inputs_view()
            + AUX_INPUTS
        &&& self.bridge == bridge_for(self.stage)
        &&& (self.stage != BakeStage::Finished ==> self.epoch < self.epochs)
        &&& (self.stage != BakeStage::Finished && self.stage != BakeStage::EpochDone
            ==> self.sample < self.samples)
        &&& (self.stage == BakeStage::DispatchRender || self.stage == BakeStage::DispatchTrain)
            ==> self.grid.mirrors_view() == MirrorState::Uploaded
        &&& (self.stage == BakeStage::Release || self.stage == BakeStage::ReadBack)
            ==> self.grid.mirrors_view() == MirrorState::DeviceAhead
    }

    /// Starts a bake of `epochs` passes over `sample_count` camera samples.
    /// Refused when the sample resolution is below two or when the network's
    /// input layer is not the grid's encoded width plus the auxiliary input.
    pub fn new(
        params: &BakeParameters,
        sample_count: usize,
        network: NeuralNetwork<T>,
        grid: MultiHashGrid<T>,
    ) -> (r: Result<Self, BakeError>)
        requires
            network.wf(),
            grid.wf(),
        ensures
            r.is_ok() <==> (params.sample_resolution > 1 && network.topology_view().inputs()
                == grid.required_nn_inputs_view() + AUX_INPUTS),
            params.sample_resolution <= 1 ==> r == Err::<Self, BakeError>(
                BakeError::Config(ConfigError::SampleResolutionTooSmall),
            ),
            params.sample_resolution > 1 && r.is_err() ==> r == Err::<Self, BakeError>(
                BakeError::Config(
                    ConfigError::InputWidthMismatch {
                        expected: (grid.required_nn_inputs_view() + AUX_INPUTS) as usize,
                        found: network.topology_view().inputs() as usize,
                    },
                ),
            ),
            r matches Ok(s) ==> {
                &&& s.wf()
                &&& s.epochs_view() == params.epochs
                &&& s.samples_view() == sample_count
                &&& s.epoch_view() == 0
                &&& s.sample_view() == 0
                &&& s.stage_view() == if params.epochs == 0 {
                    BakeStage::Finished
                } else {
                    epoch_start(sample_count as int)
                }
                &&& s.bridge_view().phase == BridgePhase::Idle
                &&& !s.closing_view()
                &&& s.network_view() == network
                &&& s.grid_view() == grid
            },
    {
        if let Err(e) = params.check() {
            return Err(BakeError::Config(e));
        }
        proof {
            crate::hash_grid::lemma_required_nn_inputs(&grid);
        }
        let expected = grid.required_nn_inputs() + AUX_INPUTS;
        let found = network.topology().input_count();
        if found < 0 || found as usize != expected {
            return Err(
                BakeError::Config(
                    ConfigError::InputWidthMismatch { expected, found: found as usize },
                ),
            );
        }
        let stage = if params.epochs == 0 {
            BakeStage::Finished
        } else if sample_count == 0 {
            BakeStage::EpochDone
        } else {
            BakeStage::PollEvents
        };
        Ok(
            BakeSession {
                epochs: params.epochs,
                samples: sample_count,
                epoch: 0,
                sample: 0,
                stage,
                close_requested: false,
                bridge: ComputeBridge::new(),
                network,
                grid,
            },
        )
    }

    pub fn stage(&self) -> (r: BakeStage)
        ensures
            r == self.stage_view(),
    {
        self.stage
    }

    pub fn epoch(&self) -> (r: usize)
        ensures
            r == self.epoch_view(),
    {
        self.epoch
    }

    pub fn sample(&self) -> (r: usize)
        ensures
            r == self.sample_view(),
    {
        self.sample
    }

    pub fn bridge(&self) -> (r: ComputeBridge)
        ensures
            r == self.bridge_view(),
    {
        self.bridge
    }

    pub fn network(&self) -> (r: &NeuralNetwork<T>)
        ensures
            *r == self.network_view(),
    {
        &self.network
    }

    pub fn grid(&self) -> (r: &MultiHashGrid<T>)
        ensures
            *r == self.grid_view(),
    {
        &self.grid
    }

    /// Arguments of the render kernel, slot by slot; the grid's three
    /// buffers start at slot 12.
    pub fn render_kernel_args(&self) -> (r: Vec<KernelArg>)
        requires
            self.wf(),
        ensures
            r@ == render_args_spec(
                (2 * 4 * self.network_view().topology_view().widest()) as u64,
                (2 * self.network_view().topology_view().widest()) as i32,
            ),
    {
        let bytes = self.network.required_cache_size();
        let elems = self.network.topology().required_cache_elements();
        let mut args: Vec<KernelArg> = Vec::new();
        args.push(KernelArg::DisplayTarget);
        args.push(KernelArg::Position);
        args.push(KernelArg::BaseColor);
        args.push(KernelArg::Normal);
        args.push(KernelArg::MetallicRoughness);
        args.push(KernelArg::Emission);
        args.push(KernelArg::Camera);
        args.push(KernelArg::Network);
        args.push(KernelArg::InWeights);
        args.push(KernelArg::OutWeights);
        args.push(KernelArg::Scratch { bytes });
        args.push(KernelArg::ScratchElements { count: elems });
        let next = self.grid.set_kernel_arg(&mut args, 12);
        assert(next == 15);
        args.push(KernelArg::Aabb);
        args.push(KernelArg::Loss);
        args.push(KernelArg::Errors);
        assert(args@ =~= render_args_spec(bytes, elems));
        args
    }

    /// Arguments of the train kernel, slot by slot; the grid's three
    /// buffers start at slot 7.
    pub fn train_kernel_args(&self) -> (r: Vec<KernelArg>)
        requires
            self.wf(),
        ensures
            r@ == train_args_spec(
                (2 * 4 * self.network_view().topology_view().widest()) as u64,
                (2 * self.network_view().topology_view().widest()) as i32,
            ),
    {
        let bytes = self.network.required_cache_size();
        let elems = self.network.topology().required_cache_elements();
        let mut args: Vec<KernelArg> = Vec::new();
        args.push(KernelArg::Position);
        args.push(KernelArg::Camera);
        args.push(KernelArg::Network);
        args.push(KernelArg::InWeights);
        args.push(KernelArg::OutWeights);
        args.push(KernelArg::Scratch { bytes });
        args.push(KernelArg::ScratchElements { count: elems });
        let next = self.grid.set_kernel_arg(&mut args, 7);
        assert(next == 10);
        args.push(KernelArg::Aabb);
        args.push(KernelArg::Errors);
        args.push(KernelArg::ElapsedTime);
        assert(args@ =~= train_args_spec(bytes, elems));
        args
    }

    /// Takes the next step of the schedule and says what the caller must
    /// perform. At `ReadBack` the session waits for `complete_read_back`.
    pub fn step(&mut self) -> (r: BakeAction)
        requires
            old(self).wf(),
        ensures
            final(self).wf(),
            final(self).epochs_view() == old(self).epochs_view(),
            final(self).samples_view() == old(self).samples_view(),
            (final(self).epoch_view(), final(self).sample_view(), final(self).stage_view())
                == advance_spec(
                old(self).epochs_view(),
                old(self).samples_view(),
                old(self).epoch_view(),
                old(self).sample_view(),
                old(self).stage_view(),
                old(self).closing_view(),
            ),
            final(self).closing_view() == old(self).closing_view(),
            final(self).network_view() == old(self).network_view(),
            final(self).grid_view().elems_view() == old(self).grid_view().elems_view(),
            final(self).grid_view().meta_view() == old(self).grid_view().meta_view(),
            ({
                let net = old(self).network_view();
                let bytes = (2 * 4 * net.topology_view().widest()) as u64;
                let elems = (2 * net.topology_view().widest()) as i32;
                match old(self).stage_view() {
                    BakeStage::PollEvents => r matches BakeAction::PollEvents,
                    BakeStage::Render => if old(self).closing_view() {
                        r matches BakeAction::Finished
                    } else {
                        r matches BakeAction::Render { sample } && sample == old(self).sample_view()
                    },
                    BakeStage::Acquire => r matches BakeAction::Acquire { resources }
                        && resources@ == acquire_order(),
                    BakeStage::Upload => r matches BakeAction::Upload { grid, error_slots } && grid@
                        == seq![GridUpload::Meta, GridUpload::ReadMirror, GridUpload::WriteMirror]
                        && error_slots == old(self).grid_view().required_nn_inputs_view()
                        + AUX_INPUTS,
                    BakeStage::DispatchRender => r matches BakeAction::DispatchRender { args }
                        && args@ == render_args_spec(bytes, elems),
                    BakeStage::DispatchTrain => r matches BakeAction::DispatchTrain { args }
                        && args@ == train_args_spec(bytes, elems),
                    BakeStage::Release => r matches BakeAction::Release { resources }
                        && resources@ == acquire_order().reverse(),
                    BakeStage::ReadBack => r matches BakeAction::ReadBack,
                    BakeStage::Present => r matches BakeAction::Present,
                    BakeStage::EpochDone => r matches BakeAction::EpochDone { epoch, epochs }
                        && epoch == old(self).epoch_view() && epochs == old(self).epochs_view(),
                    BakeStage::Finished => r matches BakeAction::Finished,
                }
            }),
    {
        match self.stage {
            BakeStage::PollEvents => {
                self.stage = BakeStage::Render;
                BakeAction::PollEvents
            },
            BakeStage::Render => {
                if self.close_requested {
                    self.stage = BakeStage::Finished;
                    return BakeAction::Finished;
                }
                let res = self.bridge.begin_render();
                assert(res.is_ok());
                self.stage = BakeStage::Acquire;
                BakeAction::Render { sample: self.sample }
            },
            BakeStage::Acquire => {
                let res = self.bridge.acquire();
                self.stage = BakeStage::Upload;
                match res {
                    Ok(resources) => BakeAction::Acquire { resources },
                    Err(_) => {
                        assert(false);
                        BakeAction::Finished
                    },
                }
            },
            BakeStage::Upload => {
                let grid = self.grid.write();
                proof {
                    crate::hash_grid::lemma_required_nn_inputs(&self.grid);
                }
                let error_slots = self.grid.required_nn_inputs() + AUX_INPUTS;
                self.stage = BakeStage::DispatchRender;
                BakeAction::Upload { grid, error_slots }
            },
            BakeStage::DispatchRender => {
                let args = self.render_kernel_args();
                let res = self.bridge.dispatch_render();
                assert(res.is_ok());
                self.stage = BakeStage::DispatchTrain;
                BakeAction::DispatchRender { args }
            },
            BakeStage::DispatchTrain => {
                let args = self.train_kernel_args();
                let res = self.bridge.dispatch_train();
                assert(res.is_ok());
                self.grid.note_dispatch();
                self.stage = BakeStage::Release;
                BakeAction::DispatchTrain { args }
            },
            BakeStage::Release => {
                let res = self.bridge.release();
                self.stage = BakeStage::ReadBack;
                match res {
                    Ok(resources) => BakeAction::Release { resources },
                    Err(_) => {
                        assert(false);
                        BakeAction::Finished
                    },
                }
            },
            BakeStage::ReadBack => BakeAction::ReadBack,
            BakeStage::Present => {
                if self.sample + 1 < self.samples {
                    self.sample = self.sample + 1;
                    self.stage = BakeStage::PollEvents;
                } else {
                    self.stage = BakeStage::EpochDone;
                }
                BakeAction::Present
            },
            BakeStage::EpochDone => {
                let epoch = self.epoch;
                if self.epoch + 1 < self.epochs {
                    self.epoch = self.epoch + 1;
                    self.sample = 0;
                    self.stage = if self.samples == 0 {
                        BakeStage::EpochDone
                    } else {
                        BakeStage::PollEvents
                    };
                } else {
                    self.stage = BakeStage::Finished;
                }
                BakeAction::EpochDone { epoch, epochs: self.epochs }
            },
            BakeStage::Finished => BakeAction::Finished,
        }
    }

    /// Hands over the arrays read back after a dispatch pair: the
    /// out-weights and the grid's write-target mirror. They replace the
    /// host-canonical arrays only when the session awaits them and both have
    /// the lengths of the arrays that were uploaded; then the cycle returns
    /// to idle and the display target is to be presented.
    pub fn complete_read_back(&mut self, out_weights: Vec<T>, grid_write_mirror: Vec<T>) -> (r:
        Result<(), BakeError>)
        requires
            old(self).wf(),
        ensures
            final(self).wf(),
            final(self).epochs_view() == old(self).epochs_view(),
            final(self).samples_view() == old(self).samples_view(),
            final(self).epoch_view() == old(self).epoch_view(),
            final(self).sample_view() == old(self).sample_view(),
            final(self).closing_view() == old(self).closing_view(),
            final(self).network_view().topology_view() == old(
                self,
            ).network_view().topology_view(),
            final(self).grid_view().meta_view() == old(self).grid_view().meta_view(),
            r.is_ok() <==> {
                &&& old(self).stage_view() == BakeStage::ReadBack
                &&& out_weights@.len() == old(self).network_view().weights_view().len()
                &&& grid_write_mirror@.len() == old(self).grid_view().elems_view().len()
            },
            old(self).stage_view() != BakeStage::ReadBack ==> r == Err::<(), BakeError>(
                BakeError::NotAwaitingReadBack,
            ),
            old(self).stage_view() == BakeStage::ReadBack && out_weights@.len() != old(
                self,
            ).network_view().weights_view().len() ==> r == Err::<(), BakeError>(
                BakeError::Config(
                    ConfigError::WeightCountMismatch {
                        expected: old(self).network_view().weights_view().len() as usize,
                        found: out_weights@.len() as usize,
                    },
                ),
            ),
            old(self).stage_view() == BakeStage::ReadBack && out_weights@.len() == old(
                self,
            ).network_view().weights_view().len() && grid_write_mirror@.len() != old(
                self,
            ).grid_view().elems_view().len() ==> r == Err::<(), BakeError>(
                BakeError::Config(
                    ConfigError::GridSizeMismatch {
                        expected: old(self).grid_view().elems_view().len() as usize,
                        found: grid_write_mirror@.len() as usize,
                    },
                ),
            ),
            r.is_ok() ==> {
                &&& final(self).stage_view() == BakeStage::Present
                &&& final(self).bridge_view().phase == BridgePhase::Idle
                &&& final(self).network_view().weights_view() == out_weights@
                &&& final(self).grid_view().elems_view() == grid_write_mirror@
            },
            r.is_err() ==> {
                &&& final(self).stage_view() == old(self).stage_view()
                &&& final(self).network_view().weights_view() == old(
                    self,
                ).network_view().weights_view()
                &&& final(self).grid_view().elems_view() == old(self).grid_view().elems_view()
            },
    {
        match self.stage {
            BakeStage::ReadBack => {},
            _ => {
                return Err(BakeError::NotAwaitingReadBack);
            },
        }
        if out_weights.len() != self.network.weights().len() {
            return Err(
                BakeError::Config(
                    ConfigError::WeightCountMismatch {
                        expected: self.network.weights().len(),
                        found: out_weights.len(),
                    },
                ),
            );
        }
        if grid_write_mirror.len() != self.grid.elems().len() {
            return Err(
                BakeError::Config(
                    ConfigError::GridSizeMismatch {
                        expected: self.grid.elems().len(),
                        found: grid_write_mirror.len(),
                    },
                ),
            );
        }
        let a = self.network.read_back(out_weights);
        let b = self.grid.read(grid_write_mirror);
        assert(a.is_ok() && b.is_ok());
        let c = self.bridge.read_back();
        assert(c.is_ok());
        self.stage = BakeStage::Present;
        Ok(())
    }

    /// Records an outside close request: the bake finishes before the next
    /// cycle starts; nothing already issued is cancelled.
    pub fn request_close(&mut self)
        requires
            old(self).wf(),
        ensures
            final(self).wf(),
            final(self).closing_view(),
            final(self).epochs_view() == old(self).epochs_view(),
            final(self).samples_view() == old(self).samples_view(),
            final(self).epoch_view() == old(self).epoch_view(),
            final(self).sample_view() == old(self).sample_view(),
            final(self).stage_view() == old(self).stage_view(),
            final(self).bridge_view() == old(self).bridge_view(),
            final(self).network_view() == old(self).network_view(),
            final(self).grid_view() == old(self).grid_view(),
    {
        self.close_requested = true;
    }

    /// Ends the session and gives back the trained network and grid.
    pub fn into_parts(self) -> (r: (NeuralNetwork<T>, MultiHashGrid<T>))
        ensures
            r.0 == self.network_view(),
            r.1 == self.grid_view(),
    {
        (self.network, self.grid)
    }
}

/// Weight ping-pong keeps the length: across any steps that keep the
/// topology (as `step` and `complete_read_back` do), the host weight array
/// that is uploaded as in-weights, and that a read-back of out-weights
/// replaces, keeps exactly the same length.
pub proof fn lemma_weights_keep_length<T>(before: &BakeSession<T>, after: &BakeSession<T>)
    requires
        before.wf(),
        after.wf(),
        after.network_view().topology_view() == before.network_view().topology_view(),
    ensures
        after.network_view().weights_view().len() == before.network_view().weights_view().len(),
        after.network_view().weights_view().len()
            == before.network_view().topology_view().weight_len_view(),
{
}

} // verus!
