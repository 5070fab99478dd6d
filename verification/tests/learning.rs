//! End-to-end tests of the toolkit over a plain `f64` element type.

use rusty_machine::criterion::{BCECriterion, Criterion, MSECriterion};
use rusty_machine::logistic::LogisticRegressor;
use rusty_machine::matrix::Matrix;
use rusty_machine::nnet::NeuralNet;
use rusty_machine::optim::{shuffle, GradientDesc, Optimizable, StochasticGD};
use rusty_machine::rng::Prng;
use rusty_machine::scalar::Scalar;
use rusty_machine::Error;

/// The concrete element type: IEEE double precision.
#[derive(Clone, Copy, Debug, PartialEq)]
struct F(f64);

impl Scalar for F {
    fn zero() -> F {
        F(0.0)
    }
    fn one() -> F {
        F(1.0)
    }
    fn from_count(n: usize) -> F {
        F(n as f64)
    }
    fn unit_from(bits: u64) -> F {
        F((bits >> 11) as f64 / 9007199254740992.0)
    }
    fn plus(self, o: F) -> F {
        F(self.0 + o.0)
    }
    fn minus(self, o: F) -> F {
        F(self.0 - o.0)
    }
    fn times(self, o: F) -> F {
        F(self.0 * o.0)
    }
    fn divide(self, o: F) -> F {
        F(self.0 / o.0)
    }
    fn neg(self) -> F {
        F(-self.0)
    }
    fn exp(self) -> F {
        F(self.0.exp())
    }
    fn ln(self) -> F {
        F(self.0.ln())
    }
    fn sqrt(self) -> F {
        F(self.0.sqrt())
    }
}

fn mat(rows: usize, cols: usize, vals: &[f64]) -> Matrix<F> {
    let data: Vec<F> = vals.iter().map(|&v| F(v)).collect();
    Matrix::new(rows, cols, data)
}

/// A small deterministic pseudo-random stream for test data.
fn lcg(state: &mut u64) -> f64 {
    *state = state
        .wrapping_mul(6364136223846793005)
        .wrapping_add(1442695040888963407);
    (*state >> 11) as f64 / 9007199254740992.0
}

/// The flat parameter count of a topology, summed from the public
/// per-layer weight matrices.
fn param_count(net: &NeuralNet<F, BCECriterion>, layers: usize) -> usize {
    let mut total = 0;
    for l in 0..layers - 1 {
        let w = net.get_net_weights(l);
        total += w.rows() * w.cols();
    }
    total
}

#[test]
fn matrix_product_exact() {
    let a = mat(2, 2, &[1.0, 2.0, 3.0, 4.0]);
    let b = mat(2, 2, &[5.0, 6.0, 7.0, 8.0]);
    let p = a.matmul(&b);
    assert_eq!(p.get(0, 0).0, 19.0);
    assert_eq!(p.get(0, 1).0, 22.0);
    assert_eq!(p.get(1, 0).0, 43.0);
    assert_eq!(p.get(1, 1).0, 50.0);
}

#[test]
fn matrix_transpose_exact() {
    let a = mat(2, 3, &[1.0, 2.0, 3.0, 4.0, 5.0, 6.0]);
    let t = a.transpose();
    assert_eq!(t.rows(), 3);
    assert_eq!(t.cols(), 2);
    for i in 0..2 {
        for j in 0..3 {
            assert_eq!(t.get(j, i).0, a.get(i, j).0);
        }
    }
}

#[test]
fn matrix_augment_select_drop_exact() {
    let a = mat(2, 2, &[1.0, 2.0, 3.0, 4.0]);
    let g = a.augment_ones();
    assert_eq!(g.rows(), 2);
    assert_eq!(g.cols(), 3);
    assert_eq!(g.get(0, 0).0, 1.0);
    assert_eq!(g.get(1, 0).0, 1.0);
    assert_eq!(g.get(0, 1).0, 1.0);
    assert_eq!(g.get(1, 2).0, 4.0);
    let d = g.drop_first_col();
    assert_eq!(d.cols(), 2);
    assert_eq!(d.get(0, 0).0, 1.0);
    assert_eq!(d.get(1, 1).0, 4.0);
    let s = a.select_rows(&vec![1, 0, 1]);
    assert_eq!(s.rows(), 3);
    assert_eq!(s.get(0, 0).0, 3.0);
    assert_eq!(s.get(1, 1).0, 2.0);
    assert_eq!(s.get(2, 1).0, 4.0);
}

#[test]
fn sigmoid_at_zero_is_half() {
    let crit = BCECriterion;
    let z = mat(1, 1, &[0.0]);
    let a = crit.activate(&z);
    assert_eq!(a.get(0, 0).0, 0.5);
}

#[test]
fn bce_cost_exact() {
    let crit = BCECriterion;
    let outputs = mat(1, 1, &[0.5]);
    let targets = mat(1, 1, &[1.0]);
    let c = crit.cost(&outputs, &targets).0;
    assert!((c - std::f64::consts::LN_2).abs() < 1e-12);
}

#[test]
fn bce_cost_grad_exact() {
    let crit = BCECriterion;
    let outputs = mat(1, 1, &[0.25]);
    let targets = mat(1, 1, &[1.0]);
    let g = crit.cost_grad(&outputs, &targets);
    assert!((g.get(0, 0).0 - (-4.0)).abs() < 1e-12);
}

#[test]
fn mse_cost_and_grad_exact() {
    let crit = MSECriterion;
    let outputs = mat(1, 2, &[1.0, 3.0]);
    let targets = mat(1, 2, &[0.0, 1.0]);
    let c = crit.cost(&outputs, &targets).0;
    assert!((c - 2.5).abs() < 1e-12);
    let g = crit.cost_grad(&outputs, &targets);
    assert_eq!(g.get(0, 0).0, 1.0);
    assert_eq!(g.get(0, 1).0, 2.0);
    let idp = crit.activate(&outputs);
    assert_eq!(idp.get(0, 1).0, 3.0);
}

#[test]
fn prng_is_deterministic_per_seed() {
    let mut a = Prng::new(42);
    let mut b = Prng::new(42);
    for _ in 0..10 {
        assert_eq!(a.next_u64(), b.next_u64());
    }
    let mut z = Prng::new(0);
    assert_ne!(z.next_u64(), 0);
}

#[test]
fn params_length_matches_topology() {
    let topo = vec![3usize, 5, 11, 7, 3];
    let net = NeuralNet::<F, BCECriterion>::default(&topo).unwrap();
    // (3+1)*5 + (5+1)*11 + (11+1)*7 + (7+1)*3
    assert_eq!(param_count(&net, 5), 194);
}

#[test]
fn net_weights_have_bias_row() {
    let topo = vec![3usize, 3, 3, 3];
    let net = NeuralNet::<F, BCECriterion>::default(&topo).unwrap();
    let w = net.get_net_weights(2);
    assert_eq!(w.rows(), 4);
    assert_eq!(w.cols(), 3);
}

#[test]
fn predict_shape_matches_topology() {
    let topo = vec![3usize, 5, 11, 7, 3];
    let net = NeuralNet::<F, BCECriterion>::default(&topo).unwrap();
    let x = mat(2, 3, &[1.5, 1.5, 1.5, 5.1, 5.1, 5.1]);
    let out = net.predict(&x).unwrap();
    assert_eq!(out.rows(), 2);
    assert_eq!(out.cols(), 3);
}

#[test]
fn invalid_topologies_are_refused() {
    assert!(matches!(
        NeuralNet::<F, BCECriterion>::default(&vec![5usize]),
        Err(Error::InvalidTopology)
    ));
    assert!(matches!(
        NeuralNet::<F, BCECriterion>::default(&vec![3usize, 0, 2]),
        Err(Error::InvalidTopology)
    ));
    assert!(matches!(
        NeuralNet::<F, BCECriterion>::default(&Vec::new()),
        Err(Error::InvalidTopology)
    ));
}

#[test]
fn train_refuses_wrong_input_columns() {
    let topo = vec![3usize, 2];
    let mut net = NeuralNet::<F, BCECriterion>::default(&topo).unwrap();
    let x = mat(4, 2, &[0.0; 8]);
    let y = mat(4, 2, &[0.0; 8]);
    assert!(matches!(net.train(&x, &y), Err(Error::DimensionError)));
}

#[test]
fn train_refuses_wrong_target_columns() {
    let topo = vec![3usize, 2];
    let mut net = NeuralNet::<F, BCECriterion>::default(&topo).unwrap();
    let x = mat(4, 3, &[0.0; 12]);
    let y = mat(4, 1, &[0.0; 4]);
    assert!(matches!(net.train(&x, &y), Err(Error::DimensionError)));
}

#[test]
fn train_refuses_mismatched_row_counts() {
    let topo = vec![3usize, 2];
    let mut net = NeuralNet::<F, BCECriterion>::default(&topo).unwrap();
    let x = mat(4, 3, &[0.0; 12]);
    let y = mat(3, 2, &[0.0; 6]);
    assert!(matches!(net.train(&x, &y), Err(Error::DimensionError)));
}

#[test]
fn net_predict_refuses_wrong_columns() {
    let topo = vec![3usize, 2];
    let net = NeuralNet::<F, BCECriterion>::default(&topo).unwrap();
    let x = mat(2, 2, &[0.0; 4]);
    assert!(matches!(net.predict(&x), Err(Error::DimensionError)));
}

#[test]
fn untrained_predict_fails() {
    let model = LogisticRegressor::<F>::default();
    let x = mat(1, 1, &[1.0]);
    assert!(matches!(
        model.predict(&x),
        Err(Error::UntrainedModelError)
    ));
    assert!(model.parameters().is_none());
}

#[test]
fn logistic_scenario_classifies_new_point() {
    let mut model = LogisticRegressor::new(GradientDesc::new(F(0.3), 1000));
    let inputs = mat(4, 1, &[1.0, 3.0, 5.0, 7.0]);
    let targets = mat(4, 1, &[0.0, 0.0, 1.0, 1.0]);
    model.train(&inputs, &targets).unwrap();
    let params = model.parameters().unwrap();
    assert_eq!(params.len(), 2);
    let out = model.predict(&mat(1, 1, &[10.0])).unwrap();
    assert!(out.get(0, 0).0 > 0.5);
}

#[test]
fn logistic_train_and_predict_dimension_errors() {
    let mut model = LogisticRegressor::<F>::default();
    let inputs = mat(4, 1, &[1.0, 3.0, 5.0, 7.0]);
    let bad_targets = mat(3, 1, &[0.0, 0.0, 1.0]);
    assert!(matches!(
        model.train(&inputs, &bad_targets),
        Err(Error::DimensionError)
    ));
    let wide_targets = mat(4, 2, &[0.0; 8]);
    assert!(matches!(
        model.train(&inputs, &wide_targets),
        Err(Error::DimensionError)
    ));
    let targets = mat(4, 1, &[0.0, 0.0, 1.0, 1.0]);
    model.train(&inputs, &targets).unwrap();
    let wide = mat(1, 2, &[1.0, 2.0]);
    assert!(matches!(model.predict(&wide), Err(Error::DimensionError)));
}

#[test]
fn gradient_check_bce() {
    let topo = vec![2usize, 3, 1];
    let net = NeuralNet::<F, BCECriterion>::new_seeded(&topo, BCECriterion, 11).unwrap();
    let total = 13; // (2+1)*3 + (3+1)*1
    let mut state = 7u64;
    for sample in 0..5 {
        let params: Vec<F> = (0..total).map(|_| F(lcg(&mut state) - 0.5)).collect();
        let xv: Vec<f64> = (0..8).map(|_| lcg(&mut state) * 2.0 - 1.0).collect();
        let x = mat(4, 2, &xv);
        let tv: Vec<f64> = (0..4)
            .map(|_| if lcg(&mut state) > 0.5 { 1.0 } else { 0.0 })
            .collect();
        let y = mat(4, 1, &tv);
        let (_, grad) = net.compute_grad(&params, &x, &y);
        assert_eq!(grad.len(), total);
        let h = 1e-5;
        for k in 0..total {
            let mut up = params.clone();
            up[k] = F(up[k].0 + h);
            let mut dn = params.clone();
            dn[k] = F(dn[k].0 - h);
            let cu = net.compute_grad(&up, &x, &y).0 .0;
            let cd = net.compute_grad(&dn, &x, &y).0 .0;
            let numeric = (cu - cd) / (2.0 * h);
            let analytic = grad[k].0;
            assert!(
                (numeric - analytic).abs() <= 1e-4 * (1.0 + analytic.abs()),
                "sample {} component {}: numeric {} vs analytic {}",
                sample,
                k,
                numeric,
                analytic
            );
        }
    }
}

#[test]
fn gradient_check_mse() {
    let topo = vec![2usize, 3, 1];
    let net = NeuralNet::<F, MSECriterion>::new_seeded(&topo, MSECriterion, 13).unwrap();
    let total = 13;
    let mut state = 99u64;
    for _ in 0..5 {
        let params: Vec<F> = (0..total).map(|_| F(lcg(&mut state) - 0.5)).collect();
        let xv: Vec<f64> = (0..8).map(|_| lcg(&mut state) * 2.0 - 1.0).collect();
        let x = mat(4, 2, &xv);
        let tv: Vec<f64> = (0..4).map(|_| lcg(&mut state) * 2.0 - 1.0).collect();
        let y = mat(4, 1, &tv);
        let (_, grad) = net.compute_grad(&params, &x, &y);
        let h = 1e-5;
        for k in 0..total {
            let mut up = params.clone();
            up[k] = F(up[k].0 + h);
            let mut dn = params.clone();
            dn[k] = F(dn[k].0 - h);
            let cu = net.compute_grad(&up, &x, &y).0 .0;
            let cd = net.compute_grad(&dn, &x, &y).0 .0;
            let numeric = (cu - cd) / (2.0 * h);
            let analytic = grad[k].0;
            assert!((numeric - analytic).abs() <= 1e-4 * (1.0 + analytic.abs()));
        }
    }
}

#[test]
fn batch_descent_does_not_increase_cost() {
    let topo = vec![2usize, 1];
    let net = NeuralNet::<F, BCECriterion>::new_seeded(&topo, BCECriterion, 3).unwrap();
    let x = mat(4, 2, &[0.0, 0.1, 0.9, 1.0, 0.2, 0.8, 1.0, 0.0]);
    let y = mat(4, 1, &[0.0, 1.0, 0.0, 1.0]);
    let start: Vec<F> = vec![F(0.2), F(-0.3), F(0.4)];
    let cost_before = net.compute_grad(&start, &x, &y).0 .0;
    let gd = GradientDesc::new(F(0.1), 50);
    let optimal = gd.optimize(&net, &start, &x, &y);
    assert_eq!(optimal.len(), 3);
    let cost_after = net.compute_grad(&optimal, &x, &y).0 .0;
    assert!(cost_after <= cost_before + 1e-12);
}

#[test]
fn seeded_networks_are_reproducible() {
    let topo = vec![2usize, 3, 1];
    let a = NeuralNet::<F, BCECriterion>::new_seeded(&topo, BCECriterion, 7).unwrap();
    let b = NeuralNet::<F, BCECriterion>::new_seeded(&topo, BCECriterion, 7).unwrap();
    let c = NeuralNet::<F, BCECriterion>::new_seeded(&topo, BCECriterion, 8).unwrap();
    let mut all_equal_ab = true;
    let mut all_equal_ac = true;
    for l in 0..2 {
        let wa = a.get_net_weights(l);
        let wb = b.get_net_weights(l);
        let wc = c.get_net_weights(l);
        for i in 0..wa.rows() {
            for j in 0..wa.cols() {
                if wa.get(i, j).0 != wb.get(i, j).0 {
                    all_equal_ab = false;
                }
                if wa.get(i, j).0 != wc.get(i, j).0 {
                    all_equal_ac = false;
                }
            }
        }
    }
    assert!(all_equal_ab);
    assert!(!all_equal_ac);
}

#[test]
fn seeded_stochastic_descent_is_reproducible() {
    let topo = vec![2usize, 1];
    let net = NeuralNet::<F, BCECriterion>::new_seeded(&topo, BCECriterion, 5).unwrap();
    let x = mat(4, 2, &[0.0, 0.1, 0.9, 1.0, 0.2, 0.8, 1.0, 0.0]);
    let y = mat(4, 1, &[0.0, 1.0, 0.0, 1.0]);
    let start: Vec<F> = vec![F(0.2), F(-0.3), F(0.4)];
    let sgd = StochasticGD::new(F(0.1), 5, 2).with_seed(21);
    let one = sgd.optimize(&net, &start, &x, &y);
    let two = sgd.optimize(&net, &start, &x, &y);
    assert_eq!(one.len(), 3);
    for k in 0..3 {
        assert_eq!(one[k].0, two[k].0);
    }
}

#[test]
fn shuffle_is_a_permutation() {
    let mut v: Vec<usize> = (0..10).collect();
    let mut prng = Prng::new(31);
    shuffle(&mut v, &mut prng);
    assert_eq!(v.len(), 10);
    let mut sorted = v.clone();
    sorted.sort();
    let expected: Vec<usize> = (0..10).collect();
    assert_eq!(sorted, expected);
}

#[test]
fn logistic_gradient_formula_exact() {
    // One already-augmented row [1, 0] with zero parameters: the output is
    // sigmoid(0) = 1/2, the cost is ln 2, and the gradient is
    // inputs^T (output - target) = [-1/2, 0].
    let model = LogisticRegressor::<F>::default();
    let params = vec![F(0.0), F(0.0)];
    let inputs = mat(1, 2, &[1.0, 0.0]);
    let targets = mat(1, 1, &[1.0]);
    let (cost, grad) = model.compute_grad(&params, &inputs, &targets);
    assert!((cost.0 - std::f64::consts::LN_2).abs() < 1e-12);
    assert_eq!(grad.len(), 2);
    assert!((grad[0].0 - (-0.5)).abs() < 1e-12);
    assert_eq!(grad[1].0, 0.0);
}

#[test]
fn network_trains_and_predicts() {
    let topo = vec![2usize, 4, 1];
    let mut net = NeuralNet::<F, BCECriterion>::new_seeded(&topo, BCECriterion, 17).unwrap();
    let x = mat(
        4,
        2,
        &[0.0, 0.0, 0.0, 1.0, 1.0, 0.0, 1.0, 1.0],
    );
    let y = mat(4, 1, &[0.0, 1.0, 1.0, 0.0]);
    net.train(&x, &y).unwrap();
    let out = net.predict(&x).unwrap();
    assert_eq!(out.rows(), 4);
    assert_eq!(out.cols(), 1);
    for i in 0..4 {
        let v = out.get(i, 0).0;
        assert!(v.is_finite());
        assert!(v > 0.0 && v < 1.0);
    }
}
