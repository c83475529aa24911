use vstd::prelude::*;

use crate::error::ConfigError;
use crate::kernel_args::KernelArg;
use crate::neural_field::DEVICE_INT_MAX;

verus! {

/// The shape is positive, ordered and small enough for the device to index.
pub open spec fn grid_shape_fits(
    resolution_layers: int,
    max_entries: int,
    features_per_entry: int,
    min_resolution: int,
    max_resolution: int,
) -> bool {
    &&& 0 < resolution_layers && 0 < max_entries && 0 < features_per_entry
    &&& 0 < min_resolution <= max_resolution <= DEVICE_INT_MAX
    &&& resolution_layers * max_entries * features_per_entry <= DEVICE_INT_MAX
}

/// Integer part of the hash grid's device metadata record.
#[derive(Debug, Clone, Copy, PartialEq, Eq, Structural)]
pub struct MultiHashGridMeta {
    pub resolution_layers: i32,
    pub max_entries: i32,
    pub features_per_entry: i32,
    pub min_resolution: i32,
    pub max_resolution: i32,
}

impl MultiHashGridMeta {
    pub open spec fn wf(&self) -> bool {
        grid_shape_fits(
            self.resolution_layers as int,
            self.max_entries as int,
            self.features_per_entry as int,
            self.min_resolution as int,
            self.max_resolution as int,
        )
    }

    /// Scalars in the table: layers x entries x features.
    pub open spec fn elem_count_view(&self) -> int {
        self.resolution_layers as int * self.max_entries as int * self.features_per_entry as int
    }

    /// Checks a grid shape; fails on a zero dimension, on resolutions out of
    /// order, or on a table the device cannot index.
    pub fn new(
        resolution_layers: usize,
        max_entries: usize,
        features_per_entry: usize,
        min_resolution: usize,
        max_resolution: usize,
    ) -> (r: Result<Self, ConfigError>)
        ensures
            match r {
                Ok(m) => {
                    &&& m.wf()
                    &&& m.resolution_layers as int == resolution_layers as int
                    &&& m.max_entries as int == max_entries as int
                    &&& m.features_per_entry as int == features_per_entry as int
                    &&& m.min_resolution as int == min_resolution as int
                    &&& m.max_resolution as int == max_resolution as int
                },
                Err(e) => {
                    let shape_ok = 0 < resolution_layers && 0 < max_entries && 0
                        < features_per_entry && 0 < min_resolution <= max_resolution
                        <= DEVICE_INT_MAX;
                    &&& shape_ok ==> e == ConfigError::GridTooLarge
                    &&& !shape_ok ==> e == ConfigError::InvalidGridShape
                },
            },
            r.is_ok() <==> grid_shape_fits(
                resolution_layers as int,
                max_entries as int,
                features_per_entry as int,
                min_resolution as int,
                max_resolution as int,
            ),
    {
        let max = DEVICE_INT_MAX as usize;
        if resolution_layers == 0 || max_entries == 0 || features_per_entry == 0
            || min_resolution == 0 || min_resolution > max_resolution || max_resolution > max {
            return Err(ConfigError::InvalidGridShape);
        }
        if resolution_layers > max || max_entries > max / resolution_layers {
            proof {
                lemma_product_exceeds(resolution_layers as int, max_entries as int, features_per_entry as int, max as int);
            }
            return Err(ConfigError::GridTooLarge);
        }
        proof {
            vstd::arithmetic::div_mod::lemma_div_is_ordered_by_denominator(max as int, 1, resolution_layers as int);
            lemma_factors_bounded(resolution_layers as int, max_entries as int, features_per_entry as int);
            assert(resolution_layers * max_entries <= max) by (nonlinear_arith)
                requires
                    max_entries <= max / resolution_layers,
                    resolution_layers > 0,
                    max >= 0,
            {
                vstd::arithmetic::div_mod::lemma_fundamental_div_mod(max as int, resolution_layers as int);
            }
        }
        let lm = resolution_layers * max_entries;
        if features_per_entry > max / lm {
            proof {
                assert(lm * features_per_entry > max) by (nonlinear_arith)
                    requires
                        features_per_entry > max / lm,
                        lm > 0,
                        max >= 0,
                {
                    vstd::arithmetic::div_mod::lemma_fundamental_div_mod(max as int, lm as int);
                }
            }
            return Err(ConfigError::GridTooLarge);
        }
        proof {
            assert(lm * features_per_entry <= max) by (nonlinear_arith)
                requires
                    features_per_entry <= max / lm,
                    lm > 0,
                    max >= 0,
            {
                vstd::arithmetic::div_mod::lemma_fundamental_div_mod(max as int, lm as int);
            }
        }
        Ok(
            MultiHashGridMeta {
                resolution_layers: resolution_layers as i32,
                max_entries: max_entries as i32,
                features_per_entry: features_per_entry as i32,
                min_resolution: min_resolution as i32,
                max_resolution: max_resolution as i32,
            },
        )
    }

    /// Number of scalars in the table.
    pub fn elem_count(&self) -> (r: usize)
        requires
            self.wf(),
        ensures
            r == self.elem_count_view(),
    {
        proof {
            lemma_factors_bounded(
                self.resolution_layers as int,
                self.max_entries as int,
                self.features_per_entry as int,
            );
        }
        self.resolution_layers as usize * self.max_entries as usize
            * self.features_per_entry as usize
    }
}

/// Positive factors: each partial product is below the full product.
proof fn lemma_factors_bounded(a: int, b: int, c: int)
    requires
        0 < a,
        0 < b,
        0 < c,
    ensures
        0 < a * b <= a * b * c,
{
    assert(0 < a * b <= a * b * c) by (nonlinear_arith)
        requires
            0 < a,
            0 < b,
            0 < c,
    ;
}

/// A first factor past the limit, or a pair past it, puts the product past it.
proof fn lemma_product_exceeds(a: int, b: int, c: int, max: int)
    requires
        0 < a,
        0 < b,
        0 < c,
        0 <= max,
        a > max || b > max / a,
    ensures
        a * b * c > max,
{
    lemma_factors_bounded(a, b, c);
    if a > max {
        assert(a * b >= a) by (nonlinear_arith)
            requires
                0 < a,
                0 < b,
        ;
    } else {
        assert(a * b > max) by (nonlinear_arith)
            requires
                b > max / a,
                a > 0,
                max >= 0,
        {
            vstd::arithmetic::div_mod::lemma_fundamental_div_mod(max, a);
        }
    }
}

/// Which device mirrors hold the current host-canonical table.
#[derive(Debug, Clone, Copy, PartialEq, Eq, Structural)]
pub enum MirrorState {
    /// The mirrors are behind the host table; `write` must run before a dispatch.
    Stale,
    /// Both mirrors equal the host table.
    Uploaded,
    /// A dispatch ran; only the write-target mirror holds the newest features.
    DeviceAhead,
}

/// One copy that `write` asks for, from host to device.
#[derive(Debug, Clone, Copy, PartialEq, Eq, Structural)]
pub enum GridUpload {
    /// Metadata record into the metadata buffer.
    Meta,
    /// Host table into the read-only mirror.
    ReadMirror,
    /// Host table into the write-target mirror.
    WriteMirror,
}

/// Multi-resolution hash-grid feature table, host-canonical, with the state
/// of its two device mirrors.
pub struct MultiHashGrid<T> {
    meta: MultiHashGridMeta,
    elems: Vec<T>,
    mirrors: MirrorState,
}

impl<T> MultiHashGrid<T> {
    pub closed spec fn meta_view(&self) -> MultiHashGridMeta {
        self.meta
    }

    pub closed spec fn elems_view(&self) -> Seq<T> {
        self.elems@
    }

    pub closed spec fn mirrors_view(&self) -> MirrorState {
        self.mirrors
    }

    pub open spec fn wf(&self) -> bool {
        &&& self.meta_view().wf()
        &&& self.elems_view().len() == self.meta_view().elem_count_view()
    }

    /// Width that the encoded features add to the network's input layer.
    pub open spec fn required_nn_inputs_view(&self) -> int {
        self.meta_view().resolution_layers as int * self.meta_view().features_per_entry as int
    }

    /// Takes a checked shape and its initial features; fails when their
    /// number is not layers x entries x features.
    pub fn new(meta: MultiHashGridMeta, elems: Vec<T>) -> (r: Result<Self, ConfigError>)
        requires
            meta.wf(),
        ensures
            match r {
                Ok(g) => {
                    &&& g.wf()
                    &&& g.meta_view() == meta
                    &&& g.elems_view() == elems@
                    &&& g.mirrors_view() == MirrorState::Stale
                },
                Err(e) => e == ConfigError::GridSizeMismatch {
                    expected: meta.elem_count_view() as usize,
                    found: elems.len(),
                },
            },
            r.is_ok() <==> elems@.len() == meta.elem_count_view(),
    {
        let expected = meta.elem_count();
        if elems.len() != expected {
            return Err(ConfigError::GridSizeMismatch { expected, found: elems.len() });
        }
        Ok(MultiHashGrid { meta, elems, mirrors: MirrorState::Stale })
    }

    pub fn meta(&self) -> (r: &MultiHashGridMeta)
        ensures
            *r == self.meta_view(),
    {
        &self.meta
    }

    pub fn elems(&self) -> (r: &Vec<T>)
        ensures
            r@ == self.elems_view(),
    {
        &self.elems
    }

    pub fn mirrors(&self) -> (r: MirrorState)
        ensures
            r == self.mirrors_view(),
    {
        self.mirrors
    }

    /// Host-side edit of the features; the mirrors fall behind.
    pub fn elems_mut(&mut self) -> (r: &mut [T])
        ensures
            r@ == old(self).elems_view(),
            final(self).meta_view() == old(self).meta_view(),
            final(self).elems_view() == final(r)@,
            final(self).mirrors_view() == MirrorState::Stale,
    {
        self.mirrors = MirrorState::Stale;
        self.elems.as_mut_slice()
    }

    /// Copies metadata and host table into both mirrors: returns the copies
    /// to perform, in order, and records both mirrors as current.
    pub fn write(&mut self) -> (r: Vec<GridUpload>)
        ensures
            r@ == seq![GridUpload::Meta, GridUpload::ReadMirror, GridUpload::WriteMirror],
            final(self).meta_view() == old(self).meta_view(),
            final(self).elems_view() == old(self).elems_view(),
            final(self).mirrors_view() == MirrorState::Uploaded,
    {
        self.mirrors = MirrorState::Uploaded;
        vec![GridUpload::Meta, GridUpload::ReadMirror, GridUpload::WriteMirror]
    }

    /// Records that a dispatch wrote the write-target mirror.
    pub fn note_dispatch(&mut self)
        ensures
            final(self).meta_view() == old(self).meta_view(),
            final(self).elems_view() == old(self).elems_view(),
            final(self).mirrors_view() == MirrorState::DeviceAhead,
    {
        self.mirrors = MirrorState::DeviceAhead;
    }

    /// Copies the write-target mirror, as read from the device, into the host
    /// table; refused when its length differs. Afterwards the read-only mirror
    /// is behind, so the mirrors are stale.
    pub fn read(&mut self, write_mirror: Vec<T>) -> (r: Result<(), ConfigError>)
        requires
            old(self).wf(),
        ensures
            final(self).wf(),
            final(self).meta_view() == old(self).meta_view(),
            r.is_ok() <==> write_mirror@.len() == old(self).elems_view().len(),
            r.is_ok() ==> final(self).elems_view() == write_mirror@ && final(self).mirrors_view()
                == MirrorState::Stale,
            r.is_err() ==> final(self).elems_view() == old(self).elems_view()
                && final(self).mirrors_view() == old(self).mirrors_view(),
            r.is_err() ==> r == Err::<(), ConfigError>(
                ConfigError::GridSizeMismatch {
                    expected: old(self).elems_view().len() as usize,
                    found: write_mirror.len(),
                },
            ),
    {
        if write_mirror.len() != self.elems.len() {
            return Err(
                ConfigError::GridSizeMismatch {
                    expected: self.elems.len(),
                    found: write_mirror.len(),
                },
            );
        }
        self.elems = write_mirror;
        self.mirrors = MirrorState::Stale;
        Ok(())
    }

    /// Binds metadata, read-only mirror and write-target mirror at three
    /// consecutive slots from `idx`, and returns the next free slot.
    pub fn set_kernel_arg(&self, args: &mut Vec<KernelArg>, idx: u32) -> (r: u32)
        requires
            old(args)@.len() == idx,
            idx + 3 <= u32::MAX,
        ensures
            r == idx + 3,
            final(args)@ == old(args)@ + seq![
                KernelArg::GridMeta,
                KernelArg::GridRead,
                KernelArg::GridWrite,
            ],
    {
        args.push(KernelArg::GridMeta);
        args.push(KernelArg::GridRead);
        args.push(KernelArg::GridWrite);
        idx + 3
    }

    /// Layers x features: the width the encoding adds to the network's input.
    pub fn required_nn_inputs(&self) -> (r: usize)
        requires
            self.wf(),
        ensures
            r == self.required_nn_inputs_view(),
    {
        proof {
            lemma_factors_bounded(
                self.meta.resolution_layers as int,
                self.meta.features_per_entry as int,
                self.meta.max_entries as int,
            );
            assert(self.meta.resolution_layers as int * self.meta.features_per_entry as int
                * self.meta.max_entries as int == self.meta.elem_count_view()) by (nonlinear_arith);
        }
        self.meta.resolution_layers as usize * self.meta.features_per_entry as usize
    }
}

/// For every valid grid the encoder contributes exactly layers x features inputs.
pub proof fn lemma_required_nn_inputs<T>(grid: &MultiHashGrid<T>)
    requires
        grid.wf(),
    ensures
        grid.required_nn_inputs_view() == grid.meta_view().resolution_layers as int
            * grid.meta_view().features_per_entry as int,
        0 < grid.required_nn_inputs_view() <= DEVICE_INT_MAX,
{
    let m = grid.meta_view();
    lemma_factors_bounded(m.resolution_layers as int, m.features_per_entry as int, m.max_entries as int);
    assert(m.resolution_layers as int * m.features_per_entry as int * m.max_entries as int
        == m.elem_count_view()) by (nonlinear_arith);
}

} // verus!
