use iris_net::network::{Activation, Layer, Network};
use juggernaut::activation::Activation as _;
use juggernaut::activation::Sigmoid;

#[test]
fn sigmoid_derivative_reads_the_activated_value() {
    let s = Sigmoid::new();
    let xs = vec![-3f64, -0.5f64, 0f64, 0.25f64, 2f64, 10f64];
    let ys = s.calc(xs);
    let ds = s.derivative(ys.clone());
    for (y, d) in ys.iter().zip(ds.iter()) {
        assert!((d - y * (1f64 - y)).abs() < 1e-12);
    }
    assert!((ds[2] - 0.25f64).abs() < 1e-12);
}

#[test]
fn every_activation_can_be_assembled() {
    let mut n = Network::new(2);
    assert_eq!(n.add_layer(Layer::new(3, 2, Activation::Sigmoid)), Ok(()));
    assert_eq!(n.add_layer(Layer::new(3, 3, Activation::HyperbolicTangent)), Ok(()));
    assert_eq!(n.add_layer(Layer::new(1, 3, Activation::SoftPlus)), Ok(()));
    assert_eq!(n.network().get_layers().len(), 3);
    assert_eq!(n.output_width(), 1);
}
