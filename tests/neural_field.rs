use little_bits::error::ConfigError;
use little_bits::neural_field::{CLNeuralNetwork, NeuralNetwork, NeuralTopology, WeightRole};

#[test]
fn weight_len_matches_formula() {
    let t = NeuralTopology::new(5, 8, 3, 2).unwrap();
    // 5*8 + 8*8*2 + 8*3 + 8*2 + 3
    assert_eq!(t.weight_len(), 211);
}

#[test]
fn weight_len_of_bake_topology() {
    let t = NeuralTopology::new(17, 32, 3, 2).unwrap();
    assert_eq!(t.weight_len(), 17 * 32 + 32 * 32 * 2 + 32 * 3 + 32 * 2 + 3);
}

#[test]
fn topology_rejects_non_positive_counts() {
    assert_eq!(NeuralTopology::new(0, 8, 3, 2), Err(ConfigError::NonPositiveTopology));
    assert_eq!(NeuralTopology::new(5, -1, 3, 2), Err(ConfigError::NonPositiveTopology));
    assert_eq!(NeuralTopology::new(5, 8, 0, 2), Err(ConfigError::NonPositiveTopology));
    assert_eq!(NeuralTopology::new(5, 8, 3, 0), Err(ConfigError::NonPositiveTopology));
}

#[test]
fn topology_rejects_oversized_networks() {
    assert_eq!(NeuralTopology::new(5, 65536, 3, 2), Err(ConfigError::TopologyTooLarge));
    assert_eq!(NeuralTopology::new(2147483647, 1, 1, 1), Err(ConfigError::TopologyTooLarge));
    assert_eq!(NeuralTopology::new(1200000000, 1, 1, 1), Err(ConfigError::TopologyTooLarge));
}

#[test]
fn role_of_follows_layout() {
    let t = NeuralTopology::new(5, 8, 3, 2).unwrap();
    let input = WeightRole::Weight { fan_in: 5, fan_out: 8 };
    let hidden = WeightRole::Weight { fan_in: 8, fan_out: 8 };
    let output = WeightRole::Weight { fan_in: 8, fan_out: 3 };
    assert_eq!(t.role_of(0), Some(input));
    assert_eq!(t.role_of(39), Some(input));
    assert_eq!(t.role_of(40), Some(hidden));
    assert_eq!(t.role_of(167), Some(hidden));
    assert_eq!(t.role_of(168), Some(output));
    assert_eq!(t.role_of(191), Some(output));
    assert_eq!(t.role_of(192), Some(WeightRole::Bias));
    assert_eq!(t.role_of(210), Some(WeightRole::Bias));
    assert_eq!(t.role_of(211), None);
}

#[test]
fn cache_size_covers_two_widest_layers() {
    let t = NeuralTopology::new(5, 8, 3, 2).unwrap();
    assert_eq!(t.required_cache_size(), 64);
    assert_eq!(t.required_cache_elements(), 16);
    let wide_input = NeuralTopology::new(17, 8, 3, 2).unwrap();
    assert_eq!(wide_input.required_cache_size(), 2 * 4 * 17);
    let wide_output = NeuralTopology::new(2, 3, 9, 1).unwrap();
    assert_eq!(wide_output.required_cache_elements(), 18);
}

#[test]
fn network_checks_weight_count() {
    let t = NeuralTopology::new(5, 8, 3, 2).unwrap();
    let short = NeuralNetwork::new(t, vec![0.0f32; 210]);
    assert!(matches!(
        short,
        Err(ConfigError::WeightCountMismatch { expected: 211, found: 210 })
    ));
    let nn = NeuralNetwork::new(t, vec![0.5f32; 211]).unwrap();
    assert_eq!(nn.weights().len(), 211);
    assert_eq!(nn.required_cache_size(), 64);
}

#[test]
fn read_back_keeps_length() {
    let t = NeuralTopology::new(5, 8, 3, 2).unwrap();
    let mut nn = NeuralNetwork::new(t, vec![0.0f32; 211]).unwrap();
    assert_eq!(nn.read_back(vec![1.0f32; 211]), Ok(()));
    assert_eq!(nn.weights().len(), 211);
    assert_eq!(nn.weights()[7], 1.0);
    assert_eq!(
        nn.read_back(vec![2.0f32; 212]),
        Err(ConfigError::WeightCountMismatch { expected: 211, found: 212 })
    );
    assert_eq!(nn.weights()[7], 1.0);
    assert_eq!(nn.weights().len(), 211);
}

#[test]
fn weights_mut_edits_in_place() {
    let t = NeuralTopology::new(1, 1, 1, 1).unwrap();
    let mut nn = NeuralNetwork::new(t, vec![0i32; 5]).unwrap();
    nn.weights_mut()[4] = 9;
    assert_eq!(nn.weights()[4], 9);
    assert_eq!(nn.weights().len(), 5);
}

#[test]
fn descriptor_carries_topology() {
    let t = NeuralTopology::new(5, 8, 3, 2).unwrap();
    let nn = NeuralNetwork::new(t, vec![0u8; 211]).unwrap();
    let d = CLNeuralNetwork::new(&nn);
    assert_eq!(
        d,
        CLNeuralNetwork { input_count: 5, hidden_count: 8, output_count: 3, hidden_layer_count: 2 }
    );
    assert_eq!(nn.topology().input_count(), 5);
    assert_eq!(nn.topology().hidden_count(), 8);
    assert_eq!(nn.topology().output_count(), 3);
    assert_eq!(nn.topology().hidden_layer_count(), 2);
}
