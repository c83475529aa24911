use little_bits::error::ConfigError;
use little_bits::hash_grid::{GridUpload, MirrorState, MultiHashGrid, MultiHashGridMeta};
use little_bits::kernel_args::KernelArg;

fn grid(layers: usize, entries: usize, features: usize) -> MultiHashGrid<f32> {
    let meta = MultiHashGridMeta::new(layers, entries, features, 1, 8).unwrap();
    MultiHashGrid::new(meta, vec![0.0f32; layers * entries * features]).unwrap()
}

#[test]
fn required_inputs_sixteen_layers_one_feature() {
    assert_eq!(grid(16, 4, 1).required_nn_inputs(), 16);
}

#[test]
fn required_inputs_four_layers_three_features() {
    assert_eq!(grid(4, 8, 3).required_nn_inputs(), 12);
}

#[test]
fn meta_rejects_bad_shapes() {
    assert_eq!(MultiHashGridMeta::new(0, 4, 1, 1, 8), Err(ConfigError::InvalidGridShape));
    assert_eq!(MultiHashGridMeta::new(4, 0, 1, 1, 8), Err(ConfigError::InvalidGridShape));
    assert_eq!(MultiHashGridMeta::new(4, 4, 0, 1, 8), Err(ConfigError::InvalidGridShape));
    assert_eq!(MultiHashGridMeta::new(4, 4, 1, 0, 8), Err(ConfigError::InvalidGridShape));
    assert_eq!(MultiHashGridMeta::new(4, 4, 1, 9, 8), Err(ConfigError::InvalidGridShape));
    assert_eq!(
        MultiHashGridMeta::new(4, 4, 1, 1, 2147483648),
        Err(ConfigError::InvalidGridShape)
    );
}

#[test]
fn meta_rejects_oversized_tables() {
    assert_eq!(MultiHashGridMeta::new(16, 1 << 27, 1, 1, 8), Err(ConfigError::GridTooLarge));
    assert_eq!(MultiHashGridMeta::new(16, 1 << 22, 32, 1, 8), Err(ConfigError::GridTooLarge));
    assert_eq!(MultiHashGridMeta::new(1 << 31, 1, 1, 1, 8), Err(ConfigError::GridTooLarge));
}

#[test]
fn meta_keeps_values() {
    let m = MultiHashGridMeta::new(16, 1 << 22, 1, 128, 512).unwrap();
    assert_eq!(m.resolution_layers, 16);
    assert_eq!(m.max_entries, 1 << 22);
    assert_eq!(m.features_per_entry, 1);
    assert_eq!(m.min_resolution, 128);
    assert_eq!(m.max_resolution, 512);
    assert_eq!(m.elem_count(), 16 << 22);
}

#[test]
fn grid_checks_feature_count() {
    let meta = MultiHashGridMeta::new(4, 8, 3, 1, 8).unwrap();
    let r = MultiHashGrid::new(meta, vec![0.0f32; 95]);
    assert!(matches!(r, Err(ConfigError::GridSizeMismatch { expected: 96, found: 95 })));
}

#[test]
fn set_kernel_arg_binds_three_slots() {
    let g = grid(4, 8, 3);
    let mut args = vec![KernelArg::Camera; 12];
    assert_eq!(g.set_kernel_arg(&mut args, 12), 15);
    assert_eq!(args.len(), 15);
    assert_eq!(args[12], KernelArg::GridMeta);
    assert_eq!(args[13], KernelArg::GridRead);
    assert_eq!(args[14], KernelArg::GridWrite);
    let mut empty = Vec::new();
    assert_eq!(g.set_kernel_arg(&mut empty, 0), 3);
}

#[test]
fn write_then_read_cycles_mirrors() {
    let mut g = grid(4, 8, 3);
    assert_eq!(g.mirrors(), MirrorState::Stale);
    let uploads = g.write();
    assert_eq!(uploads, vec![GridUpload::Meta, GridUpload::ReadMirror, GridUpload::WriteMirror]);
    assert_eq!(g.mirrors(), MirrorState::Uploaded);
    g.note_dispatch();
    assert_eq!(g.mirrors(), MirrorState::DeviceAhead);
    assert_eq!(g.read(vec![0.25f32; 96]), Ok(()));
    assert_eq!(g.mirrors(), MirrorState::Stale);
    assert_eq!(g.elems()[95], 0.25);
}

#[test]
fn read_refuses_wrong_length() {
    let mut g = grid(4, 8, 3);
    g.write();
    g.note_dispatch();
    assert_eq!(
        g.read(vec![1.0f32; 97]),
        Err(ConfigError::GridSizeMismatch { expected: 96, found: 97 })
    );
    assert_eq!(g.elems()[0], 0.0);
    assert_eq!(g.mirrors(), MirrorState::DeviceAhead);
}

#[test]
fn host_edit_makes_mirrors_stale() {
    let mut g = grid(1, 2, 1);
    g.write();
    g.elems_mut()[1] = 3.0;
    assert_eq!(g.mirrors(), MirrorState::Stale);
    assert_eq!(g.elems()[1], 3.0);
}
