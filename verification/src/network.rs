//! The network: per-layer weight and bias matrices, forward propagation,
//! error backpropagation with immediate per-layer updates (online gradient
//! descent, one example per call), multi-epoch training, and validated
//! wholesale replacement of the parameters for persistence.

use vstd::prelude::*;

use vstd::pervasive::VecAdditionalExecFns;

use crate::activation::{act_apply, act_deriv, Activation};
use crate::error::AIError;
use crate::matrix::{madd, mdot, mmap, mmul, msub, mtrans, symmetric_unit_entry, Matrix};
use crate::scalar::{mul_bits, scalar_mul};

verus! {

/// The views of a sequence of matrices.
pub open spec fn views(ms: Seq<Matrix>) -> Seq<Seq<Seq<u64>>> {
    Seq::new(ms.len(), |i: int| ms[i]@)
}

/// A flat vector as a single-column matrix view.
pub open spec fn colm(v: Seq<u64>) -> Seq<Seq<u64>> {
    Seq::new(v.len(), |i: int| seq![v[i]])
}

/// The first column of a matrix view, flattened.
pub open spec fn col0(m: Seq<Seq<u64>>) -> Seq<u64> {
    Seq::new(m.len(), |i: int| m[i][0])
}

/// Column count of a matrix view (zero for an empty one).
pub open spec fn ncols(m: Seq<Seq<u64>>) -> nat {
    if m.len() > 0 {
        m[0].len()
    } else {
        0
    }
}

/// The activation applied entry-wise, as a spec-level function.
pub open spec fn apply_fn(a: Activation) -> spec_fn(u64) -> u64 {
    |x: u64| act_apply(a, x)
}

/// The derivative applied entry-wise, as a spec-level function.
pub open spec fn deriv_fn(a: Activation) -> spec_fn(u64) -> u64 {
    |y: u64| act_deriv(a, y)
}

/// Entry-wise scaling by the learning rate, as a spec-level function.
pub open spec fn scale_fn(lr: u64) -> spec_fn(u64) -> u64 {
    |x: u64| mul_bits(x, lr)
}

/// One layer of the forward pass: weigh the incoming column, add the bias,
/// apply the activation.
pub open spec fn layer_out(
    w: Seq<Seq<u64>>,
    b: Seq<Seq<u64>>,
    x: Seq<Seq<u64>>,
    a: Activation,
) -> Seq<Seq<u64>> {
    mmap(madd(mmul(w, x, 1), b), apply_fn(a))
}

/// The cached activation column of layer `k` of the forward pass on `input`:
/// the input itself at layer zero, and each further layer computed from the
/// one before it.
pub open spec fn forward_data(
    ws: Seq<Seq<Seq<u64>>>,
    bs: Seq<Seq<Seq<u64>>>,
    a: Activation,
    input: Seq<u64>,
    k: int,
) -> Seq<Seq<u64>>
    decreases k,
{
    if k <= 0 {
        colm(input)
    } else {
        layer_out(ws[k - 1], bs[k - 1], forward_data(ws, bs, a, input, k - 1), a)
    }
}

/// The gradient column at one layer: the derivative of the cached activation
/// of the layer above, element-wise times the error column, scaled by the
/// learning rate.
pub open spec fn grad_of(
    dnext: Seq<Seq<u64>>,
    err: Seq<Seq<u64>>,
    a: Activation,
    lr: u64,
) -> Seq<Seq<u64>> {
    mmap(mdot(mmap(dnext, deriv_fn(a)), err), scale_fn(lr))
}

/// The single backward sweep, processing layer indices `i` down to 0: at each
/// index the gradient is accumulated onto the weights (as an outer product
/// with the cached activation below) and onto the biases, and the error is
/// propagated through the transpose of the weights as they stood before the
/// update.
pub open spec fn backprop(
    ws: Seq<Seq<Seq<u64>>>,
    bs: Seq<Seq<Seq<u64>>>,
    data: Seq<Seq<Seq<u64>>>,
    err: Seq<Seq<u64>>,
    a: Activation,
    lr: u64,
    i: int,
) -> (Seq<Seq<Seq<u64>>>, Seq<Seq<Seq<u64>>>)
    decreases i + 1,
{
    if i < 0 {
        (ws, bs)
    } else {
        let g = grad_of(data[i + 1], err, a, lr);
        let ws2 = ws.update(i, madd(ws[i], mmul(g, mtrans(data[i], data[i].len(), 1), data[i].len())));
        let bs2 = bs.update(i, madd(bs[i], g));
        backprop(ws2, bs2, data, mmul(mtrans(ws[i], ws[i].len(), ncols(ws[i])), err, 1), a, lr, i - 1)
    }
}

/// The parameters after one training step on one example: a forward pass to
/// rebuild the cached activations, then one backward sweep on the error
/// between the target and the output.
pub open spec fn step_params(
    ws: Seq<Seq<Seq<u64>>>,
    bs: Seq<Seq<Seq<u64>>>,
    a: Activation,
    lr: u64,
    input: Seq<u64>,
    target: Seq<u64>,
) -> (Seq<Seq<Seq<u64>>>, Seq<Seq<Seq<u64>>>) {
    let ldata = Seq::new(ws.len() + 1, |k: int| forward_data(ws, bs, a, input, k));
    let out = col0(ldata[ws.len() as int]);
    let err0 = msub(colm(target), colm(out));
    backprop(ws, bs, ldata, err0, a, lr, ws.len() - 1)
}

/// The parameters after one epoch has processed the first `j` examples in
/// order.
pub open spec fn epoch_run(
    ws: Seq<Seq<Seq<u64>>>,
    bs: Seq<Seq<Seq<u64>>>,
    a: Activation,
    lr: u64,
    inputs: Seq<Seq<u64>>,
    targets: Seq<Seq<u64>>,
    j: int,
) -> (Seq<Seq<Seq<u64>>>, Seq<Seq<Seq<u64>>>)
    decreases j,
{
    if j <= 0 {
        (ws, bs)
    } else {
        let prev = epoch_run(ws, bs, a, lr, inputs, targets, j - 1);
        step_params(prev.0, prev.1, a, lr, inputs[j - 1], targets[j - 1])
    }
}

/// The parameters after `e` full epochs over the dataset.
pub open spec fn train_run(
    ws: Seq<Seq<Seq<u64>>>,
    bs: Seq<Seq<Seq<u64>>>,
    a: Activation,
    lr: u64,
    inputs: Seq<Seq<u64>>,
    targets: Seq<Seq<u64>>,
    e: int,
) -> (Seq<Seq<Seq<u64>>>, Seq<Seq<Seq<u64>>>)
    decreases e,
{
    if e <= 0 {
        (ws, bs)
    } else {
        let prev = train_run(ws, bs, a, lr, inputs, targets, e - 1);
        epoch_run(prev.0, prev.1, a, lr, inputs, targets, inputs.len() as int)
    }
}

/// Build a single-column matrix from a flat vector.
fn column_matrix(v: &Vec<u64>) -> (res: Matrix)
    ensures
        res.wf(),
        res.rows == v@.len(),
        res.cols == 1,
        res@ == colm(v@),
{
    let mut data: Vec<Vec<u64>> = Vec::new();
    let mut i: usize = 0;
    while i < v.len()
        invariant
            i <= v@.len(),
            data@.len() == i,
            forall|k: int| 0 <= k < i ==> (#[trigger] data@[k])@ == seq![v@[k]],
        decreases v@.len() - i,
    {
        let mut row: Vec<u64> = Vec::new();
        row.push(v[i]);
        proof {
            assert(row@ =~= seq![v@[i as int]]);
        }
        data.push(row);
        i += 1;
    }
    let res = Matrix { rows: v.len(), cols: 1, data };
    proof {
        assert(res@ =~~= colm(v@));
    }
    res
}

/// Flatten a single-column matrix into a vector.
fn column_vec(m: &Matrix) -> (res: Vec<u64>)
    requires
        m.wf(),
        m.cols == 1,
    ensures
        res@ == col0(m@),
        res@.len() == m.rows,
{
    let mut res: Vec<u64> = Vec::new();
    let mut i: usize = 0;
    while i < m.rows
        invariant
            m.wf(),
            m.cols == 1,
            i <= m.rows,
            res@.len() == i,
            forall|k: int| 0 <= k < i ==> #[trigger] res@[k] == m@[k][0],
        decreases m.rows - i,
    {
        proof {
            assert(m@[i as int] == m.data@[i as int]@);
        }
        res.push(m.data[i][0]);
        i += 1;
    }
    proof {
        assert(res@ =~= col0(m@));
    }
    res
}

/// A feed-forward network: `layers` gives the width of each layer, layer 0
/// being the input; `weights[i]` (shape layers[i+1] x layers[i]) and
/// `biases[i]` (shape layers[i+1] x 1) connect layer i to layer i+1; `data`
/// caches the per-layer activation columns of the last forward pass.
pub struct Network {
    pub layers: Vec<usize>,
    pub weights: Vec<Matrix>,
    pub biases: Vec<Matrix>,
    pub data: Vec<Matrix>,
    pub learning_rate: u64,
    pub activation: Activation,
}

impl Network {
    /// At least two layers, every layer of positive width, and weight and
    /// bias matrices of the matching shapes.
    pub open spec fn wf(&self) -> bool {
        &&& self.layers@.len() >= 2
        &&& forall|k: int| 0 <= k < self.layers@.len() ==> #[trigger] self.layers@[k] >= 1
        &&& self.weights@.len() == self.layers@.len() - 1
        &&& self.biases@.len() == self.layers@.len() - 1
        &&& forall|i: int|
            0 <= i < self.weights@.len() ==> (#[trigger] self.weights@[i]).wf()
                && self.weights@[i].rows == self.layers@[i + 1] && self.weights@[i].cols
                == self.layers@[i]
        &&& forall|i: int|
            0 <= i < self.biases@.len() ==> (#[trigger] self.biases@[i]).wf()
                && self.biases@[i].rows == self.layers@[i + 1] && self.biases@[i].cols == 1
    }

    /// The cached activations match the layer widths: one column per layer.
    pub open spec fn cached(&self) -> bool {
        &&& self.data@.len() == self.layers@.len()
        &&& forall|k: int|
            0 <= k < self.data@.len() ==> (#[trigger] self.data@[k]).wf() && self.data@[k].rows
                == self.layers@[k] && self.data@[k].cols == 1
    }

    /// Fresh network: for each pair of adjacent layers, a weight matrix and a
    /// bias column drawn uniformly from [-1.0, 1.0), and no cached
    /// activations yet.
    pub fn new(layers: Vec<usize>, learning_rate: u64, activation: Activation) -> (res: Network)
        requires
            layers@.len() >= 2,
            forall|k: int| 0 <= k < layers@.len() ==> #[trigger] layers@[k] >= 1,
        ensures
            res.wf(),
            res.layers == layers,
            res.learning_rate == learning_rate,
            res.activation == activation,
            res.data@.len() == 0,
            forall|k: int, r: int, c: int|
                0 <= k < res.weights@.len() && 0 <= r < res.weights@[k].rows && 0 <= c
                    < res.weights@[k].cols ==> symmetric_unit_entry(
                    #[trigger] res.weights@[k]@[r][c],
                ),
            forall|k: int, r: int|
                0 <= k < res.biases@.len() && 0 <= r < res.biases@[k].rows
                    ==> symmetric_unit_entry(#[trigger] res.biases@[k]@[r][0]),
    {
        let mut weights: Vec<Matrix> = Vec::new();
        let mut biases: Vec<Matrix> = Vec::new();
        let mut i: usize = 0;
        while i < layers.len() - 1
            invariant
                layers@.len() >= 2,
                forall|k: int| 0 <= k < layers@.len() ==> #[trigger] layers@[k] >= 1,
                i <= layers@.len() - 1,
                weights@.len() == i,
                biases@.len() == i,
                forall|k: int|
                    0 <= k < i ==> (#[trigger] weights@[k]).wf() && weights@[k].rows
                        == layers@[k + 1] && weights@[k].cols == layers@[k],
                forall|k: int|
                    0 <= k < i ==> (#[trigger] biases@[k]).wf() && biases@[k].rows
                        == layers@[k + 1] && biases@[k].cols == 1,
                forall|k: int, r: int, c: int|
                    0 <= k < i && 0 <= r < weights@[k].rows && 0 <= c < weights@[k].cols
                        ==> symmetric_unit_entry(#[trigger] weights@[k]@[r][c]),
                forall|k: int, r: int|
                    0 <= k < i && 0 <= r < biases@[k].rows ==> symmetric_unit_entry(
                        #[trigger] biases@[k]@[r][0],
                    ),
            decreases layers@.len() - 1 - i,
        {
            weights.push(Matrix::random(layers[i + 1], layers[i]));
            biases.push(Matrix::random(layers[i + 1], 1));
            i += 1;
        }
        Network { layers, weights, biases, data: Vec::new(), learning_rate, activation }
    }

    /// Forward propagation: turn the input into a column, push it and then
    /// each layer's activation column onto the cache in order, and return the
    /// final layer's column flattened.
    pub fn forward_propagation(&mut self, input: &Vec<u64>) -> (res: Vec<u64>)
        requires
            old(self).wf(),
            input@.len() == old(self).layers@[0],
        ensures
            final(self).wf(),
            final(self).cached(),
            final(self).layers == old(self).layers,
            final(self).weights == old(self).weights,
            final(self).biases == old(self).biases,
            final(self).learning_rate == old(self).learning_rate,
            final(self).activation == old(self).activation,
            forall|k: int|
                0 <= k < old(self).layers@.len() ==> (#[trigger] final(self).data@[k])@
                    == forward_data(
                    views(old(self).weights@),
                    views(old(self).biases@),
                    old(self).activation,
                    input@,
                    k,
                ),
            res@ == col0(
                forward_data(
                    views(old(self).weights@),
                    views(old(self).biases@),
                    old(self).activation,
                    input@,
                    old(self).layers@.len() - 1,
                ),
            ),
            res@.len() == old(self).layers@[old(self).layers@.len() - 1],
    {
        let ghost ws = views(old(self).weights@);
        let ghost bs = views(old(self).biases@);
        let act = self.activation;
        let current = column_matrix(input);
        self.data = Vec::new();
        self.data.push(current);
        let mut i: usize = 0;
        while i < self.weights.len()
            invariant
                self.wf(),
                self.layers == old(self).layers,
                self.weights == old(self).weights,
                self.biases == old(self).biases,
                self.learning_rate == old(self).learning_rate,
                self.activation == old(self).activation,
                act == old(self).activation,
                ws == views(self.weights@),
                bs == views(self.biases@),
                input@.len() == self.layers@[0],
                i <= self.weights@.len(),
                self.data@.len() == i + 1,
                forall|k: int|
                    0 <= k <= i ==> (#[trigger] self.data@[k]).wf() && self.data@[k].rows
                        == self.layers@[k] && self.data@[k].cols == 1,
                forall|k: int|
                    0 <= k <= i ==> (#[trigger] self.data@[k])@ == forward_data(
                        ws,
                        bs,
                        act,
                        input@,
                        k,
                    ),
            decreases self.weights@.len() - i,
        {
            let z = self.weights[i].multiply(&self.data[i]).unwrap();
            let s = z.add(&self.biases[i]).unwrap();
            let mapped = s.map(
                (|x: u64| -> (r: u64)
                    ensures
                        r == act_apply(act, x),
                    { act.apply(x) }),
            );
            proof {
                assert forall|a2: int, b2: int| #![trigger mapped@[a2][b2]]
                    0 <= a2 < mapped@.len() && 0 <= b2 < mapped@[a2].len() implies
                    mapped@[a2][b2] == act_apply(act, s@[a2][b2]) by {}
                assert(mapped@ =~~= mmap(s@, apply_fn(act)));
                assert(ws[i as int] == self.weights@[i as int]@);
                assert(bs[i as int] == self.biases@[i as int]@);
                assert(mapped@ == layer_out(ws[i as int], bs[i as int], self.data@[i as int]@, act));
            }
            self.data.push(mapped);
            i += 1;
        }
        let last = self.data.len() - 1;
        let res = column_vec(&self.data[last]);
        res
    }

    /// One backward sweep of online gradient descent on the squared error:
    /// the error starts as target minus output and, layer by layer from the
    /// top, the scaled gradient is added onto the weights and biases while
    /// the error is propagated through the pre-update weights.
    pub fn back_propagation(&mut self, outputs: &Vec<u64>, targets: &Vec<u64>)
        requires
            old(self).wf(),
            old(self).cached(),
            outputs@.len() == old(self).layers@[old(self).layers@.len() - 1],
            targets@.len() == old(self).layers@[old(self).layers@.len() - 1],
        ensures
            final(self).wf(),
            final(self).cached(),
            final(self).layers == old(self).layers,
            final(self).data == old(self).data,
            final(self).learning_rate == old(self).learning_rate,
            final(self).activation == old(self).activation,
            (views(final(self).weights@), views(final(self).biases@)) == backprop(
                views(old(self).weights@),
                views(old(self).biases@),
                views(old(self).data@),
                msub(colm(targets@), colm(outputs@)),
                old(self).activation,
                old(self).learning_rate,
                old(self).layers@.len() - 2,
            ),
    {
        let ghost ws0 = views(old(self).weights@);
        let ghost bs0 = views(old(self).biases@);
        let ghost dat = views(old(self).data@);
        let ghost err0 = msub(colm(targets@), colm(outputs@));
        let act = self.activation;
        let lr = self.learning_rate;
        let tm = column_matrix(targets);
        let om = column_matrix(outputs);
        let mut errors = tm.subtract(&om).unwrap();
        proof {
            assert(errors@ == err0);
        }
        let mut i: usize = self.weights.len();
        while i > 0
            invariant
                self.wf(),
                self.cached(),
                self.layers == old(self).layers,
                self.data == old(self).data,
                self.learning_rate == old(self).learning_rate,
                self.activation == old(self).activation,
                act == old(self).activation,
                lr == old(self).learning_rate,
                dat == views(self.data@),
                i <= self.weights@.len(),
                errors.wf(),
                errors.rows == self.layers@[i as int],
                errors.cols == 1,
                backprop(ws0, bs0, dat, err0, act, lr, old(self).layers@.len() - 2) == backprop(
                    views(self.weights@),
                    views(self.biases@),
                    dat,
                    errors@,
                    act,
                    lr,
                    i - 1,
                ),
                forall|k: int|
                    i <= k < self.weights@.len() ==> ((#[trigger] self.weights@[k]).wf()
                        && self.weights@[k].rows == self.layers@[k + 1] && self.weights@[k].cols
                        == self.layers@[k]),
            decreases i,
        {
            let idx = i - 1;
            let ghost ws_in = views(self.weights@);
            let ghost bs_in = views(self.biases@);
            let ghost err_in = errors@;
            let dm = self.data[idx + 1].map(
                (|y: u64| -> (r: u64)
                    ensures
                        r == act_deriv(act, y),
                    { act.derivative(y) }),
            );
            proof {
                assert forall|a2: int, b2: int| #![trigger dm@[a2][b2]]
                    0 <= a2 < dm@.len() && 0 <= b2 < dm@[a2].len() implies
                    dm@[a2][b2] == act_deriv(act, self.data@[idx + 1]@[a2][b2]) by {}
                assert(dm@ =~~= mmap(self.data@[idx + 1]@, deriv_fn(act)));
            }
            let g0 = dm.dot_multiply(&errors).unwrap();
            let gradients = g0.map(
                (|x: u64| -> (r: u64)
                    ensures
                        r == mul_bits(x, lr),
                    { scalar_mul(x, lr) }),
            );
            proof {
                assert forall|a2: int, b2: int| #![trigger gradients@[a2][b2]]
                    0 <= a2 < gradients@.len() && 0 <= b2 < gradients@[a2].len() implies
                    gradients@[a2][b2] == mul_bits(g0@[a2][b2], lr) by {}
                assert(gradients@ =~~= mmap(g0@, scale_fn(lr)));
                assert(gradients@ == grad_of(dat[idx + 1], err_in, act, lr));
            }
            let dt = self.data[idx].transpose();
            let delta = gradients.multiply(&dt).unwrap();
            let new_w = self.weights[idx].add(&delta).unwrap();
            let new_b = self.biases[idx].add(&gradients).unwrap();
            let wt = self.weights[idx].transpose();
            let new_errors = wt.multiply(&errors).unwrap();
            self.weights.set(idx, new_w);
            self.biases.set(idx, new_b);
            errors = new_errors;
            proof {
                let di = dat[idx as int];
                assert(di == self.data@[idx as int]@);
                assert(dt@ == mtrans(di, di.len(), 1));
                assert(delta@ == mmul(grad_of(dat[idx + 1], err_in, act, lr), mtrans(di, di.len(), 1), di.len()));
                assert(views(self.weights@) =~~= ws_in.update(
                    idx as int,
                    madd(ws_in[idx as int], delta@),
                ));
                assert(views(self.biases@) =~~= bs_in.update(
                    idx as int,
                    madd(bs_in[idx as int], grad_of(dat[idx + 1], err_in, act, lr)),
                ));
                assert(ncols(ws_in[idx as int]) == old(self).layers@[idx as int]);
                assert(errors@ == mmul(
                    mtrans(ws_in[idx as int], ws_in[idx as int].len(), ncols(ws_in[idx as int])),
                    err_in,
                    1,
                ));
                assert(backprop(ws_in, bs_in, dat, err_in, act, lr, idx as int) == backprop(
                    views(self.weights@),
                    views(self.biases@),
                    dat,
                    errors@,
                    act,
                    lr,
                    idx - 1,
                ));
            }
            i = idx;
        }
    }

    /// Train for the given number of epochs: in each epoch, for each example
    /// in order, one forward pass followed by one backward sweep. Zero epochs
    /// leave the network untouched.
    pub fn train(&mut self, inputs: &Vec<Vec<u64>>, targets: &Vec<Vec<u64>>, epochs: usize)
        requires
            old(self).wf(),
            inputs@.len() == targets@.len(),
            forall|j: int|
                0 <= j < inputs@.len() ==> (#[trigger] inputs@[j])@.len() == old(self).layers@[0],
            forall|j: int|
                0 <= j < targets@.len() ==> (#[trigger] targets@[j])@.len() == old(
                    self,
                ).layers@[old(self).layers@.len() - 1],
        ensures
            final(self).wf(),
            final(self).layers == old(self).layers,
            final(self).learning_rate == old(self).learning_rate,
            final(self).activation == old(self).activation,
            (views(final(self).weights@), views(final(self).biases@)) == train_run(
                views(old(self).weights@),
                views(old(self).biases@),
                old(self).activation,
                old(self).learning_rate,
                inputs@.map_values(|v: Vec<u64>| v@),
                targets@.map_values(|v: Vec<u64>| v@),
                epochs as int,
            ),
            epochs == 0 ==> *final(self) == *old(self),
    {
        let ghost ws0 = views(old(self).weights@);
        let ghost bs0 = views(old(self).biases@);
        let ghost act = old(self).activation;
        let ghost lr = old(self).learning_rate;
        let ghost ins = inputs@.map_values(|v: Vec<u64>| v@);
        let ghost tgs = targets@.map_values(|v: Vec<u64>| v@);
        let mut e: usize = 0;
        while e < epochs
            invariant
                self.wf(),
                self.layers == old(self).layers,
                self.learning_rate == old(self).learning_rate,
                self.activation == old(self).activation,
                inputs@.len() == targets@.len(),
                forall|j: int|
                    0 <= j < inputs@.len() ==> (#[trigger] inputs@[j])@.len() == self.layers@[0],
                forall|j: int|
                    0 <= j < targets@.len() ==> (#[trigger] targets@[j])@.len()
                        == self.layers@[self.layers@.len() - 1],
                ws0 == views(old(self).weights@),
                bs0 == views(old(self).biases@),
                act == old(self).activation,
                lr == old(self).learning_rate,
                ins == inputs@.map_values(|v: Vec<u64>| v@),
                tgs == targets@.map_values(|v: Vec<u64>| v@),
                e <= epochs,
                (views(self.weights@), views(self.biases@)) == train_run(
                    ws0,
                    bs0,
                    act,
                    lr,
                    ins,
                    tgs,
                    e as int,
                ),
                e == 0 ==> *self == *old(self),
            decreases epochs - e,
        {
            let ghost ews = views(self.weights@);
            let ghost ebs = views(self.biases@);
            let mut j: usize = 0;
            while j < inputs.len()
                invariant
                    self.wf(),
                    self.layers == old(self).layers,
                    self.learning_rate == old(self).learning_rate,
                    self.activation == old(self).activation,
                    inputs@.len() == targets@.len(),
                    forall|jj: int|
                        0 <= jj < inputs@.len() ==> (#[trigger] inputs@[jj])@.len()
                            == self.layers@[0],
                    forall|jj: int|
                        0 <= jj < targets@.len() ==> (#[trigger] targets@[jj])@.len()
                            == self.layers@[self.layers@.len() - 1],
                    act == old(self).activation,
                    lr == old(self).learning_rate,
                    ins == inputs@.map_values(|v: Vec<u64>| v@),
                    tgs == targets@.map_values(|v: Vec<u64>| v@),
                    j <= inputs@.len(),
                    (views(self.weights@), views(self.biases@)) == epoch_run(
                        ews,
                        ebs,
                        act,
                        lr,
                        ins,
                        tgs,
                        j as int,
                    ),
                decreases inputs@.len() - j,
            {
                let ghost sws = views(self.weights@);
                let ghost sbs = views(self.biases@);
                let res = self.forward_propagation(&inputs[j]);
                let ghost fdat = views(self.data@);
                self.back_propagation(&res, &targets[j]);
                proof {
                    assert(ins[j as int] == inputs@[j as int]@);
                    assert(tgs[j as int] == targets@[j as int]@);
                    let ldata = Seq::new(
                        sws.len() + 1,
                        |k: int| forward_data(sws, sbs, act, ins[j as int], k),
                    );
                    assert(fdat =~~= ldata);
                    assert(res@ == col0(ldata[sws.len() as int]));
                    assert((views(self.weights@), views(self.biases@)) == step_params(
                        sws,
                        sbs,
                        act,
                        lr,
                        ins[j as int],
                        tgs[j as int],
                    ));
                }
                j += 1;
            }
            e += 1;
        }
    }

    /// Replace the weights and biases wholesale, as when restoring a saved
    /// model into a freshly constructed network of the same shape: succeeds
    /// exactly when the supplied matrices are well-formed and match the
    /// network's layer widths; on a mismatch the network is left untouched.
    pub fn load_params(&mut self, weights: Vec<Matrix>, biases: Vec<Matrix>) -> (res: Result<
        (),
        AIError,
    >)
        requires
            old(self).wf(),
        ensures
            final(self).wf(),
            final(self).layers == old(self).layers,
            final(self).learning_rate == old(self).learning_rate,
            final(self).activation == old(self).activation,
            final(self).data == old(self).data,
            (res is Ok) <==> params_fit(old(self).layers@, weights@, biases@),
            res is Ok ==> final(self).weights == weights && final(self).biases == biases,
            res is Err ==> *final(self) == *old(self),
    {
        if weights.len() != self.layers.len() - 1 || biases.len() != self.layers.len() - 1 {
            return Err(AIError::new("Can't load parameters of incorrect dimension"));
        }
        let mut i: usize = 0;
        while i < weights.len()
            invariant
                self.wf(),
                weights@.len() == self.layers@.len() - 1,
                biases@.len() == self.layers@.len() - 1,
                i <= weights@.len(),
                forall|k: int|
                    0 <= k < i ==> (#[trigger] weights@[k]).wf() && weights@[k].rows
                        == self.layers@[k + 1] && weights@[k].cols == self.layers@[k],
                forall|k: int|
                    0 <= k < i ==> (#[trigger] biases@[k]).wf() && biases@[k].rows
                        == self.layers@[k + 1] && biases@[k].cols == 1,
            decreases weights@.len() - i,
        {
            let w = &weights[i];
            let b = &biases[i];
            if !w.check_shape() || w.rows != self.layers[i + 1] || w.cols != self.layers[i] {
                return Err(AIError::new("Can't load parameters of incorrect dimension"));
            }
            if !b.check_shape() || b.rows != self.layers[i + 1] || b.cols != 1 {
                return Err(AIError::new("Can't load parameters of incorrect dimension"));
            }
            i += 1;
        }
        self.weights = weights;
        self.biases = biases;
        Ok(())
    }
}

/// Weight and bias matrices that fit a network of the given layer widths.
pub open spec fn params_fit(layers: Seq<usize>, ws: Seq<Matrix>, bs: Seq<Matrix>) -> bool {
    &&& ws.len() == layers.len() - 1
    &&& bs.len() == layers.len() - 1
    &&& forall|i: int|
        0 <= i < ws.len() ==> (#[trigger] ws[i]).wf() && ws[i].rows == layers[i + 1] && ws[i].cols
            == layers[i]
    &&& forall|i: int|
        0 <= i < bs.len() ==> (#[trigger] bs[i]).wf() && bs[i].rows == layers[i + 1] && bs[i].cols
            == 1
}

/// Training for zero epochs returns the parameters unchanged.
pub proof fn lemma_train_zero_epochs(
    ws: Seq<Seq<Seq<u64>>>,
    bs: Seq<Seq<Seq<u64>>>,
    a: Activation,
    lr: u64,
    inputs: Seq<Seq<u64>>,
    targets: Seq<Seq<u64>>,
)
    ensures
        train_run(ws, bs, a, lr, inputs, targets, 0) == (ws, bs),
{
}

/// Networks whose weights, biases and activation agree produce the same
/// forward activations on every input: the forward pass is a function of the
/// parameters alone, so restoring saved parameters into a fresh network of
/// the same shape reproduces its outputs.
pub proof fn lemma_params_determine_forward(
    n1: &Network,
    n2: &Network,
    input: Seq<u64>,
    k: int,
)
    requires
        views(n1.weights@) == views(n2.weights@),
        views(n1.biases@) == views(n2.biases@),
        n1.activation == n2.activation,
    ensures
        forward_data(views(n1.weights@), views(n1.biases@), n1.activation, input, k)
            == forward_data(views(n2.weights@), views(n2.biases@), n2.activation, input, k),
{
}

} // verus!
