use neural_net::activation::Activation;
use neural_net::network::Network;

fn n_bits(v: &[f64]) -> Vec<u64> {
    v.iter().map(|x| x.to_bits()).collect()
}

fn n_vals(v: &[u64]) -> Vec<f64> {
    v.iter().map(|b| f64::from_bits(*b)).collect()
}

fn xor_dataset() -> (Vec<Vec<u64>>, Vec<Vec<u64>>) {
    let inputs = vec![
        n_bits(&[0.0, 0.0]),
        n_bits(&[0.0, 1.0]),
        n_bits(&[1.0, 0.0]),
        n_bits(&[1.0, 1.0]),
    ];
    let targets = vec![n_bits(&[0.0]), n_bits(&[1.0]), n_bits(&[1.0]), n_bits(&[0.0])];
    (inputs, targets)
}

#[test]
fn xor_training_produces_sigmoid_outputs() {
    let (inputs, targets) = xor_dataset();
    let mut net = Network::new(vec![2, 2, 1], 0.5f64.to_bits(), Activation::Sigmoid);
    net.train(&inputs, &targets, 200);
    for input in &inputs {
        let out = net.forward_propagation(input);
        assert_eq!(out.len(), 1);
        let y = f64::from_bits(out[0]);
        assert!(y > 0.0);
        assert!(y < 1.0);
    }
}

#[test]
fn train_zero_epochs_leaves_parameters_unchanged() {
    let (inputs, targets) = xor_dataset();
    let mut net = Network::new(vec![2, 2, 1], 0.5f64.to_bits(), Activation::Sigmoid);
    let weights_before: Vec<Vec<Vec<u64>>> =
        net.weights.iter().map(|m| m.data.clone()).collect();
    let biases_before: Vec<Vec<Vec<u64>>> = net.biases.iter().map(|m| m.data.clone()).collect();
    net.train(&inputs, &targets, 0);
    let weights_after: Vec<Vec<Vec<u64>>> = net.weights.iter().map(|m| m.data.clone()).collect();
    let biases_after: Vec<Vec<Vec<u64>>> = net.biases.iter().map(|m| m.data.clone()).collect();
    assert_eq!(weights_before, weights_after);
    assert_eq!(biases_before, biases_after);
}

#[test]
fn train_one_epoch_changes_parameters() {
    let (inputs, targets) = xor_dataset();
    let mut net = Network::new(vec![2, 2, 1], 0.5f64.to_bits(), Activation::Sigmoid);
    let weights_before: Vec<Vec<Vec<u64>>> =
        net.weights.iter().map(|m| m.data.clone()).collect();
    net.train(&inputs, &targets, 1);
    let weights_after: Vec<Vec<Vec<u64>>> = net.weights.iter().map(|m| m.data.clone()).collect();
    assert_ne!(weights_before, weights_after);
}

#[test]
fn restored_parameters_reproduce_forward_outputs() {
    let (inputs, targets) = xor_dataset();
    let mut trained = Network::new(vec![2, 3, 1], 0.5f64.to_bits(), Activation::Sigmoid);
    trained.train(&inputs, &targets, 50);
    let mut fresh = Network::new(vec![2, 3, 1], 0.5f64.to_bits(), Activation::Sigmoid);
    fresh.load_params(trained.weights.clone(), trained.biases.clone()).unwrap();
    for input in &inputs {
        let expect = trained.forward_propagation(input);
        let got = fresh.forward_propagation(input);
        assert_eq!(n_vals(&expect), n_vals(&got));
    }
}

#[test]
fn load_params_rejects_mismatched_shapes() {
    let donor = Network::new(vec![2, 4, 1], 0.5f64.to_bits(), Activation::Sigmoid);
    let mut net = Network::new(vec![2, 3, 1], 0.5f64.to_bits(), Activation::Sigmoid);
    let err = net.load_params(donor.weights.clone(), donor.biases.clone()).unwrap_err();
    assert_eq!(err.description(), "Can't load parameters of incorrect dimension");
    let ok = net.load_params(net.weights.clone(), net.biases.clone());
    assert!(ok.is_ok());
}

#[test]
fn forward_propagation_identity_exact_values() {
    let mut net = Network::new(vec![2, 2], 0.5f64.to_bits(), Activation::Identity);
    let mut fixed = net.weights.clone();
    fixed[0].data = vec![
        n_bits(&[1.0, 2.0]),
        n_bits(&[3.0, 4.0]),
    ];
    let mut fixed_b = net.biases.clone();
    fixed_b[0].data = vec![n_bits(&[0.5]), n_bits(&[-1.0])];
    net.load_params(fixed, fixed_b).unwrap();
    let out = net.forward_propagation(&n_bits(&[10.0, 20.0]));
    let vals = n_vals(&out);
    assert_eq!(vals, vec![50.5, 109.0]);
}
