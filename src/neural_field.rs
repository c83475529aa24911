use vstd::prelude::*;

use crate::error::ConfigError;

verus! {

/// Largest value of the device's signed 32-bit integers.
pub const DEVICE_INT_MAX: i32 = 2147483647;

pub open spec fn max3(a: int, b: int, c: int) -> int {
    if a >= b && a >= c {
        a
    } else if b >= c {
        b
    } else {
        c
    }
}

/// Number of connection weights: input->hidden, hidden->hidden per layer, hidden->output.
pub open spec fn weight_count_spec(i: int, h: int, o: int, l: int) -> int {
    i * h + h * h * l + h * o
}

/// Number of biases: one per hidden neuron of every hidden layer, one per output.
pub open spec fn bias_count_spec(h: int, o: int, l: int) -> int {
    h * l + o
}

/// Length of the flat parameter array.
pub open spec fn weight_len_spec(i: int, h: int, o: int, l: int) -> int {
    weight_count_spec(i, h, o, l) + bias_count_spec(h, o, l)
}

/// The counts are positive and the device can index everything the network needs.
pub open spec fn topology_fits(i: int, h: int, o: int, l: int) -> bool {
    &&& 0 < i && 0 < h && 0 < o && 0 < l
    &&& weight_len_spec(i, h, o, l) <= DEVICE_INT_MAX
    &&& 2 * max3(i, h, o) <= DEVICE_INT_MAX
}

/// What a position of the flat parameter array holds.
#[derive(Debug, Clone, Copy, PartialEq, Eq, Structural)]
pub enum WeightRole {
    /// A connection weight between layers of widths `fan_in` and `fan_out`.
    Weight { fan_in: i32, fan_out: i32 },
    /// A bias.
    Bias,
}

/// Layer widths of the multilayer perceptron.
#[derive(Debug, Clone, Copy, PartialEq, Eq, Structural)]
pub struct NeuralTopology {
    input_count: i32,
    hidden_count: i32,
    output_count: i32,
    hidden_layer_count: i32,
}

impl NeuralTopology {
    pub closed spec fn inputs(&self) -> int {
        self.input_count as int
    }

    pub closed spec fn hidden(&self) -> int {
        self.hidden_count as int
    }

    pub closed spec fn outputs(&self) -> int {
        self.output_count as int
    }

    pub closed spec fn layers(&self) -> int {
        self.hidden_layer_count as int
    }

    pub open spec fn wf(&self) -> bool {
        topology_fits(self.inputs(), self.hidden(), self.outputs(), self.layers())
    }

    pub open spec fn weight_len_view(&self) -> int {
        weight_len_spec(self.inputs(), self.hidden(), self.outputs(), self.layers())
    }

    /// Widest layer, in scalars.
    pub open spec fn widest(&self) -> int {
        max3(self.inputs(), self.hidden(), self.outputs())
    }

    /// Role of position `k` of the flat parameter array, laid out as
    /// [input->hidden][hidden->hidden per layer][hidden->output][hidden biases][output biases].
    pub open spec fn role_spec(&self, k: int) -> Option<WeightRole> {
        let (i, h, o, l) = (self.inputs(), self.hidden(), self.outputs(), self.layers());
        if k < 0 || k >= self.weight_len_view() {
            None
        } else if k < i * h {
            Some(WeightRole::Weight { fan_in: i as i32, fan_out: h as i32 })
        } else if k < i * h + h * h * l {
            Some(WeightRole::Weight { fan_in: h as i32, fan_out: h as i32 })
        } else if k < weight_count_spec(i, h, o, l) {
            Some(WeightRole::Weight { fan_in: h as i32, fan_out: o as i32 })
        } else {
            Some(WeightRole::Bias)
        }
    }

    /// Checks the four counts; fails when one is not positive or when the
    /// device could not index the parameters or the scratch buffers.
    pub fn new(input_count: i32, hidden_count: i32, output_count: i32, hidden_layer_count: i32)
        -> (r: Result<Self, ConfigError>)
        ensures
            match r {
                Ok(t) => {
                    &&& t.wf()
                    &&& t.inputs() == input_count
                    &&& t.hidden() == hidden_count
                    &&& t.outputs() == output_count
                    &&& t.layers() == hidden_layer_count
                },
                Err(e) => {
                    &&& !topology_fits(
                        input_count as int,
                        hidden_count as int,
                        output_count as int,
                        hidden_layer_count as int,
                    )
                    &&& (e == ConfigError::NonPositiveTopology <==> !(0 < input_count && 0
                        < hidden_count && 0 < output_count && 0 < hidden_layer_count))
                    &&& (e == ConfigError::NonPositiveTopology || e
                        == ConfigError::TopologyTooLarge)
                },
            },
            r.is_ok() <==> topology_fits(
                input_count as int,
                hidden_count as int,
                output_count as int,
                hidden_layer_count as int,
            ),
    {
        if input_count <= 0 || hidden_count <= 0 || output_count <= 0 || hidden_layer_count <= 0 {
            return Err(ConfigError::NonPositiveTopology);
        }
        let i = input_count as i64;
        let h = hidden_count as i64;
        let o = output_count as i64;
        let l = hidden_layer_count as i64;
        let max: i64 = DEVICE_INT_MAX as i64;
        proof {
            assert(0 < i * h <= max * max) by (nonlinear_arith)
                requires
                    0 < i <= max,
                    0 < h <= max,
            ;
            assert(0 < h * h <= max * max) by (nonlinear_arith)
                requires
                    0 < h <= max,
            ;
            assert(0 < h * o <= max * max) by (nonlinear_arith)
                requires
                    0 < o <= max,
                    0 < h <= max,
            ;
            assert(0 < h * l <= max * max) by (nonlinear_arith)
                requires
                    0 < l <= max,
                    0 < h <= max,
            ;
        }
        let ih = i * h;
        let hh = h * h;
        let ho = h * o;
        let hl = h * l;
        if hh > max {
            proof {
                assert(h * h * l >= h * h) by (nonlinear_arith)
                    requires
                        h * h > 0,
                        l >= 1,
                ;
            }
            return Err(ConfigError::TopologyTooLarge);
        }
        proof {
            assert(0 < hh * l <= max * max) by (nonlinear_arith)
                requires
                    0 < hh <= max,
                    0 < l <= max,
            ;
        }
        let hhl = hh * l;
        let mut total: i64 = ih;
        if total > max {
            return Err(ConfigError::TopologyTooLarge);
        }
        total = total + hhl;
        if total > max {
            return Err(ConfigError::TopologyTooLarge);
        }
        total = total + ho;
        if total > max {
            return Err(ConfigError::TopologyTooLarge);
        }
        total = total + hl;
        if total > max {
            return Err(ConfigError::TopologyTooLarge);
        }
        total = total + o;
        if total > max {
            return Err(ConfigError::TopologyTooLarge);
        }
        let widest = if i >= h && i >= o {
            i
        } else if h >= o {
            h
        } else {
            o
        };
        if 2 * widest > max {
            return Err(ConfigError::TopologyTooLarge);
        }
        Ok(NeuralTopology { input_count, hidden_count, output_count, hidden_layer_count })
    }

    pub fn input_count(&self) -> (r: i32)
        ensures
            r == self.inputs(),
    {
        self.input_count
    }

    pub fn hidden_count(&self) -> (r: i32)
        ensures
            r == self.hidden(),
    {
        self.hidden_count
    }

    pub fn output_count(&self) -> (r: i32)
        ensures
            r == self.outputs(),
    {
        self.output_count
    }

    pub fn hidden_layer_count(&self) -> (r: i32)
        ensures
            r == self.layers(),
    {
        self.hidden_layer_count
    }

    /// Length of the flat parameter array (weights, then biases).
    pub fn weight_len(&self) -> (r: usize)
        requires
            self.wf(),
        ensures
            r == self.weight_len_view(),
    {
        let i = self.input_count as usize;
        let h = self.hidden_count as usize;
        let o = self.output_count as usize;
        let l = self.hidden_layer_count as usize;
        proof {
            lemma_weight_terms_bounded(self.inputs(), self.hidden(), self.outputs(), self.layers());
        }
        i * h + h * h * l + h * o + h * l + o
    }

    /// Role of position `k` of the flat parameter array; `None` past its end.
    pub fn role_of(&self, k: usize) -> (r: Option<WeightRole>)
        requires
            self.wf(),
        ensures
            r == self.role_spec(k as int),
    {
        let i = self.input_count as usize;
        let h = self.hidden_count as usize;
        let o = self.output_count as usize;
        let l = self.hidden_layer_count as usize;
        proof {
            lemma_weight_terms_bounded(self.inputs(), self.hidden(), self.outputs(), self.layers());
        }
        if k >= self.weight_len() {
            None
        } else if k < i * h {
            Some(WeightRole::Weight { fan_in: self.input_count, fan_out: self.hidden_count })
        } else if k < i * h + h * h * l {
            Some(WeightRole::Weight { fan_in: self.hidden_count, fan_out: self.hidden_count })
        } else if k < i * h + h * h * l + h * o {
            Some(WeightRole::Weight { fan_in: self.hidden_count, fan_out: self.output_count })
        } else {
            Some(WeightRole::Bias)
        }
    }

    /// Bytes of device scratch memory: two activation buffers, as wide as
    /// the widest layer, of 4-byte scalars.
    pub fn required_cache_size(&self) -> (r: u64)
        requires
            self.wf(),
        ensures
            r == 2 * 4 * self.widest(),
    {
        let w = self.widest_layer() as u64;
        8 * w
    }

    /// Scalars of device scratch memory: `required_cache_size() / 4`.
    pub fn required_cache_elements(&self) -> (r: i32)
        requires
            self.wf(),
        ensures
            r == 2 * self.widest(),
    {
        2 * self.widest_layer()
    }

    fn widest_layer(&self) -> (r: i32)
        requires
            self.wf(),
        ensures
            r == self.widest(),
    {
        if self.input_count >= self.hidden_count && self.input_count >= self.output_count {
            self.input_count
        } else if self.hidden_count >= self.output_count {
            self.hidden_count
        } else {
            self.output_count
        }
    }
}

/// Under a fitting topology every partial sum of the layout is bounded by the device limit.
proof fn lemma_weight_terms_bounded(i: int, h: int, o: int, l: int)
    requires
        topology_fits(i, h, o, l),
    ensures
        0 < i * h,
        0 < h * h <= h * h * l,
        0 < h * o,
        0 < h * l,
        i * h + h * h * l + h * o + h * l + o <= DEVICE_INT_MAX,
{
    assert(0 < i * h) by (nonlinear_arith)
        requires
            0 < i,
            0 < h,
    ;
    assert(0 < h * h <= h * h * l) by (nonlinear_arith)
        requires
            0 < l,
            0 < h,
    ;
    assert(0 < h * o) by (nonlinear_arith)
        requires
            0 < o,
            0 < h,
    ;
    assert(0 < h * l) by (nonlinear_arith)
        requires
            0 < l,
            0 < h,
    ;
}

/// The network: its topology and its host-canonical flat parameter array.
pub struct NeuralNetwork<T> {
    topology: NeuralTopology,
    weights: Vec<T>,
}

impl<T> NeuralNetwork<T> {
    pub closed spec fn topology_view(&self) -> NeuralTopology {
        self.topology
    }

    pub closed spec fn weights_view(&self) -> Seq<T> {
        self.weights@
    }

    pub open spec fn wf(&self) -> bool {
        &&& self.topology_view().wf()
        &&& self.weights_view().len() == self.topology_view().weight_len_view()
    }

    /// Takes a topology and its initial parameters; fails when their number
    /// is not the topology's weight length.
    pub fn new(topology: NeuralTopology, weights: Vec<T>) -> (r: Result<Self, ConfigError>)
        requires
            topology.wf(),
        ensures
            match r {
                Ok(nn) => {
                    &&& nn.wf()
                    &&& nn.topology_view() == topology
                    &&& nn.weights_view() == weights@
                },
                Err(e) => e == ConfigError::WeightCountMismatch {
                    expected: topology.weight_len_view() as usize,
                    found: weights.len(),
                },
            },
            r.is_ok() <==> weights@.len() == topology.weight_len_view(),
    {
        let expected = topology.weight_len();
        if weights.len() != expected {
            return Err(ConfigError::WeightCountMismatch { expected, found: weights.len() });
        }
        Ok(NeuralNetwork { topology, weights })
    }

    pub fn topology(&self) -> (r: &NeuralTopology)
        ensures
            *r == self.topology_view(),
    {
        &self.topology
    }

    pub fn weights(&self) -> (r: &Vec<T>)
        ensures
            r@ == self.weights_view(),
    {
        &self.weights
    }

    /// Gives mutable access to the parameters without changing their number.
    pub fn weights_mut(&mut self) -> (r: &mut [T])
        ensures
            r@ == old(self).weights_view(),
            final(self).topology_view() == old(self).topology_view(),
            final(self).weights_view() == final(r)@,
    {
        self.weights.as_mut_slice()
    }

    /// Replaces the parameters by the array read back from the device's
    /// out-weights buffer; refused when its length differs from the in-weights.
    pub fn read_back(&mut self, out_weights: Vec<T>) -> (r: Result<(), ConfigError>)
        requires
            old(self).wf(),
        ensures
            final(self).wf(),
            final(self).topology_view() == old(self).topology_view(),
            r.is_ok() <==> out_weights@.len() == old(self).weights_view().len(),
            r.is_ok() ==> final(self).weights_view() == out_weights@,
            r.is_err() ==> final(self).weights_view() == old(self).weights_view(),
            r.is_err() ==> r == Err::<(), ConfigError>(
                ConfigError::WeightCountMismatch {
                    expected: old(self).weights_view().len() as usize,
                    found: out_weights.len(),
                },
            ),
    {
        if out_weights.len() != self.weights.len() {
            return Err(
                ConfigError::WeightCountMismatch {
                    expected: self.weights.len(),
                    found: out_weights.len(),
                },
            );
        }
        self.weights = out_weights;
        Ok(())
    }

    pub fn required_cache_size(&self) -> (r: u64)
        requires
            self.wf(),
        ensures
            r == 2 * 4 * self.topology_view().widest(),
    {
        self.topology.required_cache_size()
    }
}

/// Device-side descriptor of the network: the four topology integers only.
#[derive(Debug, Clone, Copy, PartialEq, Eq, Structural)]
pub struct CLNeuralNetwork {
    pub input_count: i32,
    pub hidden_count: i32,
    pub output_count: i32,
    pub hidden_layer_count: i32,
}

impl CLNeuralNetwork {
    pub fn new<T>(nn: &NeuralNetwork<T>) -> (r: Self)
        ensures
            r.input_count == nn.topology_view().inputs(),
            r.hidden_count == nn.topology_view().hidden(),
            r.output_count == nn.topology_view().outputs(),
            r.hidden_layer_count == nn.topology_view().layers(),
    {
        CLNeuralNetwork {
            input_count: nn.topology.input_count,
            hidden_count: nn.topology.hidden_count,
            output_count: nn.topology.output_count,
            hidden_layer_count: nn.topology.hidden_layer_count,
        }
    }
}

/// A well-formed network holds exactly
/// `input*hidden + hidden^2*layers + hidden*output + hidden*layers + output`
/// parameters, and every one of them has a role.
pub proof fn lemma_weight_vector_length<T>(nn: &NeuralNetwork<T>)
    requires
        nn.wf(),
    ensures
        ({
            let t = nn.topology_view();
            let (i, h, o, l) = (t.inputs(), t.hidden(), t.outputs(), t.layers());
            nn.weights_view().len() == i * h + h * h * l + h * o + h * l + o
        }),
        forall|k: int|
            0 <= k < nn.weights_view().len() ==> (#[trigger] nn.topology_view().role_spec(
                k,
            )).is_some(),
{
}

} // verus!
