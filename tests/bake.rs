use little_bits::bake::{
    bake_grid_meta, bake_topology, gbuffer_attachment, BakeAction, BakeError, BakeParameters,
    BakeSampleDistribution, BakeSession, BakeStage, AUX_INPUTS,
};
use little_bits::bridge::{BridgePhase, InteropResource};
use little_bits::error::ConfigError;
use little_bits::graphics::GLRenderAttachment;
use little_bits::hash_grid::{GridUpload, MirrorState, MultiHashGrid, MultiHashGridMeta};
use little_bits::kernel_args::KernelArg;
use little_bits::neural_field::{NeuralNetwork, NeuralTopology};

fn small_parts() -> (NeuralNetwork<f32>, MultiHashGrid<f32>) {
    let meta = MultiHashGridMeta::new(4, 8, 3, 1, 8).unwrap();
    let grid = MultiHashGrid::new(meta, vec![0.0f32; 96]).unwrap();
    let t = bake_topology(grid.required_nn_inputs()).unwrap();
    let len = t.weight_len();
    (NeuralNetwork::new(t, vec![0.0f32; len]).unwrap(), grid)
}

fn params(epochs: usize, resolution: usize) -> BakeParameters {
    BakeParameters {
        epochs,
        sample_positions: 1,
        sample_distribution: BakeSampleDistribution::Uniform,
        sample_resolution: resolution,
    }
}

#[test]
fn default_parameters() {
    let p = BakeParameters::default();
    assert_eq!(p.epochs, 10000);
    assert_eq!(p.sample_positions, 300);
    assert_eq!(p.sample_distribution, BakeSampleDistribution::Random);
    assert_eq!(p.sample_resolution, 512);
    assert_eq!(p.check(), Ok(()));
}

#[test]
fn resolution_below_two_is_rejected() {
    assert_eq!(params(1, 1).check(), Err(ConfigError::SampleResolutionTooSmall));
    assert_eq!(params(1, 0).check(), Err(ConfigError::SampleResolutionTooSmall));
    assert_eq!(params(1, 2).check(), Ok(()));
    let (nn, grid) = small_parts();
    let r = BakeSession::new(&params(1, 1), 1, nn, grid);
    assert!(matches!(r, Err(BakeError::Config(ConfigError::SampleResolutionTooSmall))));
}

#[test]
fn input_width_mismatch_is_rejected() {
    let meta = MultiHashGridMeta::new(4, 8, 3, 1, 8).unwrap();
    let grid = MultiHashGrid::new(meta, vec![0.0f32; 96]).unwrap();
    let t = NeuralTopology::new(12, 32, 3, 2).unwrap();
    let nn = NeuralNetwork::new(t, vec![0.0f32; t.weight_len()]).unwrap();
    let r = BakeSession::new(&params(1, 4), 1, nn, grid);
    assert!(matches!(
        r,
        Err(BakeError::Config(ConfigError::InputWidthMismatch { expected: 13, found: 12 }))
    ));
}

#[test]
fn bake_shapes() {
    let m = bake_grid_meta();
    assert_eq!(m, MultiHashGridMeta::new(16, 1 << 22, 1, 128, 512).unwrap());
    let t = bake_topology(16).unwrap();
    assert_eq!(t.input_count(), 16 + AUX_INPUTS as i32);
    assert_eq!(t.hidden_count(), 32);
    assert_eq!(t.output_count(), 3);
    assert_eq!(t.hidden_layer_count(), 2);
    assert_eq!(bake_topology(2147483647), Err(ConfigError::TopologyTooLarge));
}

#[test]
fn gbuffer_layout() {
    assert_eq!(gbuffer_attachment(InteropResource::Position), Some(GLRenderAttachment::Color(0)));
    assert_eq!(gbuffer_attachment(InteropResource::BaseColor), Some(GLRenderAttachment::Color(1)));
    assert_eq!(gbuffer_attachment(InteropResource::Normal), Some(GLRenderAttachment::Color(2)));
    assert_eq!(
        gbuffer_attachment(InteropResource::MetallicRoughness),
        Some(GLRenderAttachment::Color(3))
    );
    assert_eq!(gbuffer_attachment(InteropResource::Emission), Some(GLRenderAttachment::Color(4)));
    assert_eq!(gbuffer_attachment(InteropResource::DisplayTarget), None);
}

#[test]
fn kernel_argument_slots() {
    let (nn, grid) = small_parts();
    let s = BakeSession::new(&params(1, 4), 1, nn, grid).unwrap();
    let render = s.render_kernel_args();
    assert_eq!(render.len(), 18);
    assert_eq!(render[0], KernelArg::DisplayTarget);
    assert_eq!(render[9], KernelArg::OutWeights);
    // widest layer is the hidden one: 32 scalars
    assert_eq!(render[10], KernelArg::Scratch { bytes: 256 });
    assert_eq!(render[11], KernelArg::ScratchElements { count: 64 });
    assert_eq!(render[12], KernelArg::GridMeta);
    assert_eq!(render[14], KernelArg::GridWrite);
    assert_eq!(render[15], KernelArg::Aabb);
    assert_eq!(render[17], KernelArg::Errors);
    let train = s.train_kernel_args();
    assert_eq!(train.len(), 13);
    assert_eq!(train[0], KernelArg::Position);
    assert_eq!(train[5], KernelArg::Scratch { bytes: 256 });
    assert_eq!(train[7], KernelArg::GridMeta);
    assert_eq!(train[9], KernelArg::GridWrite);
    assert_eq!(train[10], KernelArg::Aabb);
    assert_eq!(train[12], KernelArg::ElapsedTime);
}

#[test]
fn single_sample_bake_runs_one_cycle() {
    let (nn, grid) = small_parts();
    let weight_len = nn.weights().len();
    let mut s = BakeSession::new(&params(1, 4), 1, nn, grid).unwrap();
    assert_eq!(s.stage(), BakeStage::PollEvents);
    assert!(matches!(s.step(), BakeAction::PollEvents));
    assert!(matches!(s.step(), BakeAction::Render { sample: 0 }));
    assert_eq!(s.bridge().phase, BridgePhase::Rendering);
    match s.step() {
        BakeAction::Acquire { resources } => assert_eq!(resources.len(), 6),
        other => panic!("unexpected {:?}", other),
    }
    match s.step() {
        BakeAction::Upload { grid, error_slots } => {
            assert_eq!(grid, vec![GridUpload::Meta, GridUpload::ReadMirror, GridUpload::WriteMirror]);
            assert_eq!(error_slots, 13);
        }
        other => panic!("unexpected {:?}", other),
    }
    assert_eq!(s.grid().mirrors(), MirrorState::Uploaded);
    assert!(matches!(s.step(), BakeAction::DispatchRender { .. }));
    assert!(matches!(s.step(), BakeAction::DispatchTrain { .. }));
    assert_eq!(s.bridge().phase, BridgePhase::Dispatched);
    match s.step() {
        BakeAction::Release { resources } => {
            assert_eq!(resources[0], InteropResource::DisplayTarget);
            assert_eq!(resources[5], InteropResource::Position);
        }
        other => panic!("unexpected {:?}", other),
    }
    assert!(matches!(s.step(), BakeAction::ReadBack));
    assert!(matches!(s.step(), BakeAction::ReadBack));
    assert_eq!(
        s.complete_read_back(vec![0.5f32; weight_len], vec![0.125f32; 96]),
        Ok(())
    );
    assert_eq!(s.bridge().phase, BridgePhase::Idle);
    assert_eq!(s.network().weights().len(), weight_len);
    assert!(matches!(s.step(), BakeAction::Present));
    assert!(matches!(s.step(), BakeAction::EpochDone { epoch: 0, epochs: 1 }));
    assert!(matches!(s.step(), BakeAction::Finished));
    assert!(matches!(s.step(), BakeAction::Finished));
    let (nn, grid) = s.into_parts();
    assert_eq!(nn.weights()[0], 0.5);
    assert_eq!(grid.elems()[0], 0.125);
}

#[test]
fn read_back_refused_out_of_turn_or_mis_sized() {
    let (nn, grid) = small_parts();
    let weight_len = nn.weights().len();
    let mut s = BakeSession::new(&params(1, 4), 1, nn, grid).unwrap();
    assert_eq!(
        s.complete_read_back(vec![0.0f32; weight_len], vec![0.0f32; 96]),
        Err(BakeError::NotAwaitingReadBack)
    );
    while !matches!(s.stage(), BakeStage::ReadBack) {
        s.step();
    }
    assert_eq!(
        s.complete_read_back(vec![0.0f32; weight_len + 1], vec![0.0f32; 96]),
        Err(BakeError::Config(ConfigError::WeightCountMismatch {
            expected: weight_len,
            found: weight_len + 1
        }))
    );
    assert_eq!(
        s.complete_read_back(vec![0.0f32; weight_len], vec![0.0f32; 95]),
        Err(BakeError::Config(ConfigError::GridSizeMismatch { expected: 96, found: 95 }))
    );
    assert_eq!(s.stage(), BakeStage::ReadBack);
}

#[test]
fn schedule_walks_epochs_and_samples() {
    let (nn, grid) = small_parts();
    let weight_len = nn.weights().len();
    let mut s = BakeSession::new(&params(2, 4), 3, nn, grid).unwrap();
    let mut renders = Vec::new();
    let mut epochs_done = Vec::new();
    loop {
        match s.step() {
            BakeAction::Render { sample } => renders.push((s.epoch(), sample)),
            BakeAction::ReadBack => {
                s.complete_read_back(vec![0.0f32; weight_len], vec![0.0f32; 96]).unwrap()
            }
            BakeAction::EpochDone { epoch, .. } => epochs_done.push(epoch),
            BakeAction::Finished => break,
            _ => {}
        }
    }
    assert_eq!(renders, vec![(0, 0), (0, 1), (0, 2), (1, 0), (1, 1), (1, 2)]);
    assert_eq!(epochs_done, vec![0, 1]);
}

#[test]
fn zero_epochs_or_samples() {
    let (nn, grid) = small_parts();
    let mut s = BakeSession::new(&params(0, 4), 3, nn, grid).unwrap();
    assert_eq!(s.stage(), BakeStage::Finished);
    assert!(matches!(s.step(), BakeAction::Finished));
    let (nn, grid) = small_parts();
    let mut s = BakeSession::new(&params(2, 4), 0, nn, grid).unwrap();
    assert!(matches!(s.step(), BakeAction::EpochDone { epoch: 0, epochs: 2 }));
    assert!(matches!(s.step(), BakeAction::EpochDone { epoch: 1, epochs: 2 }));
    assert!(matches!(s.step(), BakeAction::Finished));
}

#[test]
fn close_request_finishes_before_next_cycle() {
    let (nn, grid) = small_parts();
    let weight_len = nn.weights().len();
    let mut s = BakeSession::new(&params(5, 4), 2, nn, grid).unwrap();
    assert!(matches!(s.step(), BakeAction::PollEvents));
    assert!(matches!(s.step(), BakeAction::Render { sample: 0 }));
    assert!(matches!(s.step(), BakeAction::Acquire { .. }));
    s.request_close();
    // the cycle under way runs to completion
    assert!(matches!(s.step(), BakeAction::Upload { .. }));
    assert!(matches!(s.step(), BakeAction::DispatchRender { .. }));
    assert!(matches!(s.step(), BakeAction::DispatchTrain { .. }));
    assert!(matches!(s.step(), BakeAction::Release { .. }));
    assert!(matches!(s.step(), BakeAction::ReadBack));
    s.complete_read_back(vec![0.0f32; weight_len], vec![0.0f32; 96]).unwrap();
    assert!(matches!(s.step(), BakeAction::Present));
    assert!(matches!(s.step(), BakeAction::PollEvents));
    assert!(matches!(s.step(), BakeAction::Finished));
    assert_eq!(s.stage(), BakeStage::Finished);
    assert_eq!(s.bridge().phase, BridgePhase::Idle);
}
