use neural_net::activation::Activation;
use neural_net::network::Network;

fn a_bits(v: &[f64]) -> Vec<u64> {
    v.iter().map(|x| x.to_bits()).collect()
}

#[test]
fn activation_sigmoid_pass() {
    let inputs = a_bits(&[1.0, 1.0]);
    let targets = a_bits(&[1.0]);
    let mut net = Network::new(vec![2, 2, 1], 0.5f64.to_bits(), Activation::Sigmoid);
    let res = net.forward_propagation(&inputs);
    net.back_propagation(&res, &targets);
}

#[test]
fn activation_identity_pass() {
    let inputs = a_bits(&[1.0, 1.0]);
    let targets = a_bits(&[1.0]);
    let mut net = Network::new(vec![2, 2, 1], 0.5f64.to_bits(), Activation::Identity);
    let res = net.forward_propagation(&inputs);
    net.back_propagation(&res, &targets);
}

#[test]
fn activation_tanh_pass() {
    let inputs = a_bits(&[1.0, 1.0]);
    let targets = a_bits(&[1.0]);
    let mut net = Network::new(vec![2, 2, 1], 0.5f64.to_bits(), Activation::Tanh);
    let res = net.forward_propagation(&inputs);
    net.back_propagation(&res, &targets);
}

#[test]
fn activation_relu_pass() {
    let inputs = a_bits(&[1.0, 1.0]);
    let targets = a_bits(&[1.0]);
    let mut net = Network::new(vec![2, 2, 1], 0.5f64.to_bits(), Activation::Relu);
    let res = net.forward_propagation(&inputs);
    net.back_propagation(&res, &targets);
}

fn a_apply(a: Activation, x: f64) -> f64 {
    f64::from_bits(a.apply(x.to_bits()))
}

fn a_deriv(a: Activation, y: f64) -> f64 {
    f64::from_bits(a.derivative(y.to_bits()))
}

#[test]
fn identity_matches_analytic_definition() {
    assert_eq!(a_apply(Activation::Identity, -2.75), -2.75);
    assert_eq!(a_deriv(Activation::Identity, -2.75), 1.0);
    assert_eq!(a_deriv(Activation::Identity, 0.0), 1.0);
}

#[test]
fn sigmoid_matches_analytic_definition() {
    assert_eq!(a_apply(Activation::Sigmoid, 0.0), 0.5);
    let s1 = a_apply(Activation::Sigmoid, 1.0);
    assert!((s1 - 0.7310585786300049).abs() < 1e-12);
    assert_eq!(a_deriv(Activation::Sigmoid, 0.5), 0.25);
    let d = a_deriv(Activation::Sigmoid, 0.25);
    assert!((d - 0.1875).abs() < 1e-15);
}

#[test]
fn tanh_matches_analytic_definition() {
    assert_eq!(a_apply(Activation::Tanh, 0.0), 0.0);
    let t1 = a_apply(Activation::Tanh, 1.0);
    assert!((t1 - 0.7615941559557649).abs() < 1e-12);
    assert_eq!(a_deriv(Activation::Tanh, 0.5), 0.75);
    assert_eq!(a_deriv(Activation::Tanh, 0.0), 1.0);
}

#[test]
fn relu_matches_analytic_definition() {
    assert_eq!(a_apply(Activation::Relu, 2.5), 2.5);
    assert_eq!(a_apply(Activation::Relu, -3.0), 0.0);
    assert_eq!(a_apply(Activation::Relu, 0.0), 0.0);
    assert_eq!(a_deriv(Activation::Relu, 2.0), 1.0);
    assert_eq!(a_deriv(Activation::Relu, -1.0), 0.0);
    assert_eq!(a_deriv(Activation::Relu, 0.0), 0.0);
}
