//! A feed-forward network assembled layer by layer, whose topology is checked
//! before each layer reaches the trainable network of the `juggernaut` crate.
use vstd::prelude::*;
use crate::shape::{DimensionMismatch, Shape};
use juggernaut::activation::{HyperbolicTangent, Sigmoid, SoftPlus};
use juggernaut::nl::NeuralLayer;
use juggernaut::nn::NeuralNetwork;

verus! {

#[verifier::external_type_specification]
#[verifier::external_body]
pub struct ExNeuralNetwork(NeuralNetwork);

/// The `(neurons, inputs)` widths of the layers that a juggernaut network
/// holds, first layer first.
pub uninterp spec fn layer_shapes(n: NeuralNetwork) -> Seq<(usize, usize)>;

/// Relies on juggernaut's `NeuralNetwork::new`: the network starts with no layers.
#[verifier::external_body]
fn empty_network() -> (r: NeuralNetwork)
    ensures
        layer_shapes(r) == Seq::<(usize, usize)>::empty(),
{
    NeuralNetwork::new()
}

/// Relies on juggernaut's `NeuralNetwork::set_shuffle_data`: it sets a flag and
/// leaves the layers as they are.
#[verifier::external_body]
fn set_shuffle(n: &mut NeuralNetwork, enable: bool)
    ensures
        layer_shapes(*final(n)) == layer_shapes(*old(n)),
{
    n.set_shuffle_data(enable)
}

/// Relies on juggernaut's `NeuralLayer::new(neurons, inputs, _)`, which builds a
/// layer of those widths with seeded random weights and biases, and on
/// `NeuralNetwork::add_layer`, which appends it and panics only where the last
/// layer's neuron count differs from `inputs`.
#[verifier::external_body]
fn append_layer(n: &mut NeuralNetwork, neurons: usize, inputs: usize, activation: Activation)
    requires
        layer_shapes(*old(n)).len() > 0 ==> layer_shapes(*old(n)).last().0 == inputs,
    ensures
        layer_shapes(*final(n)) == layer_shapes(*old(n)).push((neurons, inputs)),
{
    let layer = match activation {
        Activation::Sigmoid => NeuralLayer::new(neurons, inputs, Sigmoid::new()),
        Activation::HyperbolicTangent => NeuralLayer::new(neurons, inputs, HyperbolicTangent::new()),
        Activation::SoftPlus => NeuralLayer::new(neurons, inputs, SoftPlus::new()),
    };
    n.add_layer(layer)
}

/// The activation function that a layer applies to each of its outputs.
#[derive(Clone, Copy, Debug, PartialEq, Eq, Structural)]
pub enum Activation {
    Sigmoid,
    HyperbolicTangent,
    SoftPlus,
}

/// A layer of `neurons` units, each reading `inputs` values; its weight
/// matrix is `neurons` by `inputs`.
#[derive(Clone, Copy, Debug, PartialEq, Eq, Structural)]
pub struct Layer {
    pub neurons: usize,
    pub inputs: usize,
    pub activation: Activation,
}

impl Layer {
    pub fn new(neurons: usize, inputs: usize, activation: Activation) -> (r: Layer)
        ensures
            r == (Layer { neurons, inputs, activation }),
    {
        Layer { neurons, inputs, activation }
    }

    /// Shape of the layer's weight matrix.
    pub fn weights_shape(&self) -> (r: Shape)
        ensures
            r == (Shape { rows: self.neurons, cols: self.inputs }),
    {
        Shape { rows: self.neurons, cols: self.inputs }
    }
}

/// Why a network refused a layer or a sample.
#[derive(Clone, Copy, Debug, PartialEq, Eq, Structural)]
pub enum NetworkError {
    /// A layer's input count differs from the width that reaches it.
    TopologyMismatch { expected: usize, actual: usize },
    /// A sample's input or expected width differs from the network's.
    SampleShapeMismatch { expected: usize, actual: usize },
    /// A sample was checked against a network without layers.
    EmptyNetwork,
}

/// What a network is: the width of its samples' input and its layers in order.
pub struct NetworkModel {
    pub input_width: usize,
    pub layers: Seq<Layer>,
}

/// Width of the vector that leaves the last layer (the input, if there is none).
pub open spec fn output_width_of(input_width: usize, layers: Seq<Layer>) -> usize {
    if layers.len() == 0 {
        input_width
    } else {
        layers.last().neurons
    }
}

/// Each layer reads what the one before it writes; the first reads the sample.
pub open spec fn is_chained(input_width: usize, layers: Seq<Layer>) -> bool {
    forall|i: int|
        0 <= i < layers.len() ==> #[trigger] layers[i].inputs == (if i == 0 {
            input_width
        } else {
            layers[i - 1].neurons
        })
}

/// The `(neurons, inputs)` widths of a sequence of layers.
pub open spec fn shapes_of(layers: Seq<Layer>) -> Seq<(usize, usize)> {
    layers.map_values(|l: Layer| (l.neurons, l.inputs))
}

/// Shape of each layer's output when one sample row goes forward.
pub open spec fn output_rows(layers: Seq<Layer>) -> Seq<Shape> {
    layers.map_values(|l: Layer| Shape { rows: 1, cols: l.neurons })
}

/// Shape of each layer's weight matrix: `neurons` by `inputs`.
pub open spec fn weight_shapes(layers: Seq<Layer>) -> Seq<Shape> {
    layers.map_values(|l: Layer| Shape { rows: l.neurons, cols: l.inputs })
}

/// The outcome of checking a sample with `input_len` inputs and, for a training
/// sample, `expected_len` expected outputs.
pub open spec fn sample_verdict(m: NetworkModel, input_len: usize, expected_len: Option<usize>) -> Result<(), NetworkError> {
    if m.layers.len() == 0 {
        Err(NetworkError::EmptyNetwork)
    } else if input_len != m.input_width {
        Err(NetworkError::SampleShapeMismatch { expected: m.input_width, actual: input_len })
    } else if expected_len is Some && expected_len->Some_0 != output_width_of(m.input_width, m.layers) {
        Err(NetworkError::SampleShapeMismatch {
            expected: output_width_of(m.input_width, m.layers),
            actual: expected_len->Some_0,
        })
    } else {
        Ok(())
    }
}

/// A network under assembly: its layers, kept in step with the juggernaut
/// network that trains and evaluates them.
pub struct Network {
    inner: NeuralNetwork,
    input_width: usize,
    layers: Vec<Layer>,
}

impl View for Network {
    type V = NetworkModel;

    closed spec fn view(&self) -> NetworkModel {
        NetworkModel { input_width: self.input_width, layers: self.layers@ }
    }
}

impl Network {
    /// The layers chain from the input width, and the juggernaut network holds
    /// exactly these layers.
    pub closed spec fn wf(&self) -> bool {
        &&& is_chained(self.input_width, self.layers@)
        &&& layer_shapes(self.inner) == shapes_of(self.layers@)
    }

    /// An empty network for samples of `input_width` inputs. Samples are
    /// trained on in the order given, never shuffled.
    pub fn new(input_width: usize) -> (r: Network)
        ensures
            r.wf(),
            r@.input_width == input_width,
            r@.layers == Seq::<Layer>::empty(),
    {
        let mut inner = empty_network();
        set_shuffle(&mut inner, false);
        let r = Network { inner, input_width, layers: Vec::new() };
        assert(shapes_of(r.layers@) =~= Seq::<(usize, usize)>::empty());
        r
    }

    /// Appends `layer` when its input count equals the width that leaves the
    /// current last layer (the sample width, for the first layer); otherwise
    /// fails with `TopologyMismatch` and leaves the network as it was.
    pub fn add_layer(&mut self, layer: Layer) -> (r: Result<(), NetworkError>)
        requires
            old(self).wf(),
        ensures
            final(self).wf(),
            r is Ok <==> layer.inputs == output_width_of(old(self)@.input_width, old(self)@.layers),
            r is Ok ==> final(self)@.input_width == old(self)@.input_width
                && final(self)@.layers == old(self)@.layers.push(layer),
            r is Err ==> final(self)@ == old(self)@ && r == Err::<(), NetworkError>(
                NetworkError::TopologyMismatch {
                    expected: output_width_of(old(self)@.input_width, old(self)@.layers),
                    actual: layer.inputs,
                },
            ),
    {
        let expected = self.output_width();
        if layer.inputs != expected {
            return Err(NetworkError::TopologyMismatch { expected, actual: layer.inputs });
        }
        proof {
            let shapes = layer_shapes(self.inner);
            if shapes.len() > 0 {
                assert(shapes.last() == shapes_of(self.layers@)[self.layers@.len() - 1]);
            }
        }
        append_layer(&mut self.inner, layer.neurons, layer.inputs, layer.activation);
        let ghost before = self.layers@;
        self.layers.push(layer);
        proof {
            assert(shapes_of(self.layers@) =~= shapes_of(before).push((layer.neurons, layer.inputs)));
            assert forall|i: int| 0 <= i < self.layers@.len() implies #[trigger] self.layers@[i].inputs == (
            if i == 0 {
                self.input_width
            } else {
                self.layers@[i - 1].neurons
            }) by {
                if i < before.len() {
                    assert(self.layers@[i] == before[i]);
                }
            }
        }
        Ok(())
    }

    /// Width of the samples' input.
    pub fn input_width(&self) -> (r: usize)
        ensures
            r == self@.input_width,
    {
        self.input_width
    }

    /// Width of the vector that the network puts out.
    pub fn output_width(&self) -> (r: usize)
        ensures
            r == output_width_of(self@.input_width, self@.layers),
    {
        if self.layers.len() == 0 {
            self.input_width
        } else {
            self.layers[self.layers.len() - 1].neurons
        }
    }

    /// The layers, first layer first.
    pub fn layers(&self) -> (r: &Vec<Layer>)
        ensures
            r@ == self@.layers,
    {
        &self.layers
    }

    /// Shape of each layer's output when a row of `input_len` values goes
    /// forward: the row times the transpose of each weight matrix in turn.
    pub fn forward_shapes(&self, input_len: usize) -> (r: Result<Vec<Shape>, DimensionMismatch>)
        requires
            self.wf(),
        ensures
            r is Ok <==> (self@.layers.len() == 0 || input_len == self@.input_width),
            r is Ok ==> r->Ok_0@ == output_rows(self@.layers),
            r is Err ==> r->Err_0 == (DimensionMismatch {
                expected: Shape { rows: input_len, cols: self@.layers[0].neurons },
                actual: Shape { rows: self@.layers[0].inputs, cols: self@.layers[0].neurons },
            }),
    {
        let mut out: Vec<Shape> = Vec::new();
        let mut current = Shape::new(1, input_len);
        let mut i: usize = 0;
        while i < self.layers.len()
            invariant
                self.wf(),
                0 <= i <= self.layers@.len(),
                i == 0 ==> current == (Shape { rows: 1, cols: input_len }),
                i > 0 ==> current == (Shape { rows: 1, cols: self.layers@[i - 1].neurons }),
                i > 0 ==> input_len == self.input_width,
                out@ == output_rows(self.layers@.take(i as int)),
            decreases self.layers@.len() - i,
        {
            let weights_t = self.layers[i].weights_shape().transpose();
            match current.multiply(&weights_t) {
                Ok(next) => {
                    let ghost before = out@;
                    out.push(next);
                    assert(output_rows(self.layers@.take(i + 1)) =~= before.push(next));
                    current = next;
                },
                Err(e) => {
                    return Err(e);
                },
            }
            i = i + 1;
        }
        assert(self.layers@.take(i as int) =~= self.layers@);
        Ok(out)
    }

    /// Shape of each layer's weight update when one sample row of `input_len`
    /// values is trained on: the output error times the activation's derivative
    /// gives the last layer's delta, each delta times its layer's weights
    /// carries the error one layer back, and a layer's update is its delta,
    /// transposed, times the row that entered the layer. Every update then has
    /// its layer's weight shape.
    pub fn update_shapes(&self, input_len: usize) -> (r: Result<Vec<Shape>, DimensionMismatch>)
        requires
            self.wf(),
        ensures
            r is Ok <==> (self@.layers.len() == 0 || input_len == self@.input_width),
            r is Ok ==> r->Ok_0@ == weight_shapes(self@.layers),
            r is Err ==> r->Err_0 == (DimensionMismatch {
                expected: Shape { rows: input_len, cols: self@.layers[0].neurons },
                actual: Shape { rows: self@.layers[0].inputs, cols: self@.layers[0].neurons },
            }),
    {
        let forward = match self.forward_shapes(input_len) {
            Ok(f) => f,
            Err(e) => {
                return Err(e);
            },
        };
        let n = self.layers.len();
        if n == 0 {
            assert(weight_shapes(self.layers@) =~= Seq::<Shape>::empty());
            return Ok(Vec::new());
        }
        // walk the layers from the last to the first
        let mut reversed: Vec<Shape> = Vec::new();
        let mut error = Shape::new(1, self.layers[n - 1].neurons);
        let mut k: usize = 0;
        while k < n
            invariant
                self.wf(),
                n == self.layers@.len(),
                n > 0,
                input_len == self.input_width,
                forward@ == output_rows(self.layers@),
                k <= n,
                k < n ==> error == (Shape { rows: 1, cols: self.layers@[n - 1 - k].neurons }),
                reversed@.len() == k,
                forall|j: int|
                    0 <= j < k ==> #[trigger] reversed@[j] == (Shape {
                        rows: self.layers@[n - 1 - j].neurons,
                        cols: self.layers@[n - 1 - j].inputs,
                    }),
            decreases n - k,
        {
            let i = n - 1 - k;
            let delta = match error.elementwise(&forward[i]) {
                Ok(d) => d,
                Err(e) => {
                    assert(false);
                    return Err(e);
                },
            };
            let entering = if i == 0 {
                Shape::new(1, input_len)
            } else {
                forward[i - 1]
            };
            assert(self.layers@[i as int].inputs == entering.cols);
            let update = match delta.transpose().multiply(&entering) {
                Ok(u) => u,
                Err(e) => {
                    assert(false);
                    return Err(e);
                },
            };
            reversed.push(update);
            if i > 0 {
                error = match delta.multiply(&self.layers[i].weights_shape()) {
                    Ok(back) => back,
                    Err(e) => {
                        assert(false);
                        return Err(e);
                    },
                };
                assert(self.layers@[i as int].inputs == self.layers@[i - 1].neurons);
            }
            k = k + 1;
        }
        let mut out: Vec<Shape> = Vec::new();
        let mut j: usize = 0;
        while j < n
            invariant
                n == self.layers@.len(),
                reversed@.len() == n,
                j <= n,
                forall|t: int|
                    0 <= t < n ==> #[trigger] reversed@[t] == (Shape {
                        rows: self.layers@[n - 1 - t].neurons,
                        cols: self.layers@[n - 1 - t].inputs,
                    }),
                out@ == weight_shapes(self.layers@.take(j as int)),
            decreases n - j,
        {
            let ghost before = out@;
            let next = reversed[n - 1 - j];
            assert(next == reversed@[n - 1 - j]);
            out.push(next);
            assert(weight_shapes(self.layers@.take(j + 1)) =~= before.push(next));
            j = j + 1;
        }
        assert(self.layers@.take(n as int) =~= self.layers@);
        Ok(out)
    }

    /// Checks that a sample of `input_len` inputs and, for a training sample,
    /// `expected_len` expected outputs fits the network.
    pub fn check_sample(&self, input_len: usize, expected_len: Option<usize>) -> (r: Result<(), NetworkError>)
        requires
            self.wf(),
        ensures
            r == sample_verdict(self@, input_len, expected_len),
    {
        if self.layers.len() == 0 {
            return Err(NetworkError::EmptyNetwork);
        }
        match self.forward_shapes(input_len) {
            Err(_) => Err(NetworkError::SampleShapeMismatch { expected: self.input_width, actual: input_len }),
            Ok(shapes) => {
                let out = shapes[shapes.len() - 1].cols;
                match expected_len {
                    Some(e) => {
                        if e != out {
                            Err(NetworkError::SampleShapeMismatch { expected: out, actual: e })
                        } else {
                            Ok(())
                        }
                    },
                    None => Ok(()),
                }
            },
        }
    }

    /// Checks every training sample, given as `(inputs, expected outputs)`
    /// widths, in order; the first that does not fit is reported with its index.
    pub fn check_dataset(&self, samples: &Vec<(usize, usize)>) -> (r: Result<(), (usize, NetworkError)>)
        requires
            self.wf(),
        ensures
            r is Ok <==> forall|i: int|
                0 <= i < samples@.len() ==> (#[trigger] sample_verdict(
                    self@,
                    samples@[i].0,
                    Some(samples@[i].1),
                )) is Ok,
            r is Err ==> {
                let (k, e) = r->Err_0;
                &&& k < samples@.len()
                &&& sample_verdict(self@, samples@[k as int].0, Some(samples@[k as int].1))
                    == Err::<(), NetworkError>(e)
                &&& forall|i: int|
                    0 <= i < k ==> (#[trigger] sample_verdict(
                        self@,
                        samples@[i].0,
                        Some(samples@[i].1),
                    )) is Ok
            },
    {
        let mut i: usize = 0;
        while i < samples.len()
            invariant
                self.wf(),
                i <= samples@.len(),
                forall|j: int|
                    0 <= j < i ==> (#[trigger] sample_verdict(
                        self@,
                        samples@[j].0,
                        Some(samples@[j].1),
                    )) is Ok,
            decreases samples@.len() - i,
        {
            let (inputs, outputs) = samples[i];
            match self.check_sample(inputs, Some(outputs)) {
                Ok(()) => {},
                Err(e) => {
                    return Err((i, e));
                },
            }
            i = i + 1;
        }
        Ok(())
    }

    /// The juggernaut network, for evaluation; it holds exactly these layers.
    pub fn network(&self) -> (r: &NeuralNetwork)
        requires
            self.wf(),
        ensures
            layer_shapes(*r) == shapes_of(self@.layers),
    {
        &self.inner
    }

    /// Hands over the juggernaut network, for training; it holds exactly these layers.
    pub fn into_network(self) -> (r: NeuralNetwork)
        requires
            self.wf(),
        ensures
            layer_shapes(r) == shapes_of(self@.layers),
    {
        self.inner
    }
}

/// Every well-formed network is chained: each layer reads what the one before
/// it writes, and the first reads the sample.
pub proof fn lemma_layers_chain(n: &Network)
    requires
        n.wf(),
    ensures
        is_chained(n@.input_width, n@.layers),
{
}

} // verus!
