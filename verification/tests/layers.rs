use nevo::bias::Bias;
use nevo::layer::{Apply, Layer};
use nevo::linear::Linear;
use nevo::resize::ResizeAction;
use nevo::scalar::Scalar;
use nevo::tanh::Tanh;
use nevo::variable::Variable;
use nevo::vector::Vector;
use rand::{Rng, SeedableRng};
use rand_distr::Normal;
use rand_pcg::Pcg64;

#[derive(Clone, Copy, Debug, PartialEq)]
struct Real(f64);

impl Scalar for Real {
    fn zero() -> Self {
        Real(0.0)
    }

    fn add(self, rhs: Self) -> Self {
        Real(self.0 + rhs.0)
    }

    fn mul(self, rhs: Self) -> Self {
        Real(self.0 * rhs.0)
    }

    fn tanh(self) -> Self {
        Real(self.0.tanh())
    }

    fn is_variance(self) -> bool {
        self.0.is_finite() && self.0 >= 0.0
    }

    fn normal(variance: Self, rng: &mut Pcg64) -> Self {
        Real(rng.sample(Normal::new(0.0, variance.0.sqrt()).unwrap()))
    }
}

fn reals(values: &[f64]) -> Vec<Real> {
    values.iter().map(|v| Real(*v)).collect()
}

fn linear(rows: &[&[f64]], width: usize) -> Linear<Real> {
    let mut layer = Linear::new(rows.len(), width);
    for (i, row) in rows.iter().enumerate() {
        assert_eq!(row.len(), width);
        for (j, w) in row.iter().enumerate() {
            layer.set(i, j, Real(*w));
        }
    }
    layer
}

fn weights(layer: &Linear<Real>) -> Vec<Vec<f64>> {
    let (inputs, outputs) = layer.sizes();
    (0..inputs).map(|i| (0..outputs).map(|j| layer.get(i, j).0).collect()).collect()
}

#[test]
fn linear_new_is_zero_with_the_sizes() {
    let layer: Linear<Real> = Linear::new(3, 4);
    assert_eq!(layer.sizes(), (3, 4));
    assert_eq!(weights(&layer), vec![vec![0.0; 4]; 3]);
}

#[test]
fn linear_dof_is_inputs_times_outputs() {
    let layer: Linear<Real> = Linear::new(3, 4);
    assert_eq!(layer.dof(), 12);
    let none: Linear<Real> = Linear::new(0, 7);
    assert_eq!(none.dof(), 0);
    assert_eq!(none.sizes(), (0, 7));
}

#[test]
fn linear_set_and_get() {
    let mut layer: Linear<Real> = Linear::new(2, 3);
    layer.set(1, 2, Real(5.0));
    layer.set(0, 0, Real(-1.0));
    assert_eq!(layer.get(1, 2), Real(5.0));
    assert_eq!(layer.get(0, 0), Real(-1.0));
    assert_eq!(weights(&layer), vec![vec![-1.0, 0.0, 0.0], vec![0.0, 0.0, 5.0]]);
}

#[test]
fn linear_process_sums_weight_times_input_over_the_inputs() {
    let layer = linear(&[&[1.0, 2.0], &[3.0, 4.0], &[5.0, 6.0]], 2);
    let output = layer.process(Vector::new(reals(&[1.0, 10.0, 100.0])));
    assert_eq!(output.data, reals(&[531.0, 642.0]));
}

#[test]
fn linear_process_without_inputs_gives_zeros() {
    let layer: Linear<Real> = Linear::new(0, 3);
    let output = layer.process(Vector::zeros(0));
    assert_eq!(output.data, reals(&[0.0, 0.0, 0.0]));
}

#[test]
fn linear_process_without_outputs_gives_empty() {
    let layer: Linear<Real> = Linear::new(3, 0);
    let output = layer.process(Vector::new(reals(&[1.0, 2.0, 3.0])));
    assert!(output.is_empty());
}

#[test]
fn linear_resize_input_add_appends_a_zero_row() {
    let mut layer = linear(&[&[1.0, 2.0], &[3.0, 4.0]], 2);
    layer.resize_input(ResizeAction::Add);
    assert_eq!(layer.sizes(), (3, 2));
    assert_eq!(weights(&layer), vec![vec![1.0, 2.0], vec![3.0, 4.0], vec![0.0, 0.0]]);
}

#[test]
fn linear_resize_input_remove_takes_out_the_row() {
    let mut layer = linear(&[&[1.0, 2.0], &[3.0, 4.0], &[5.0, 6.0]], 2);
    layer.resize_input(ResizeAction::Remove(1));
    assert_eq!(layer.sizes(), (2, 2));
    assert_eq!(weights(&layer), vec![vec![1.0, 2.0], vec![5.0, 6.0]]);
}

#[test]
fn linear_resize_output_add_appends_a_zero_column() {
    let mut layer = linear(&[&[1.0, 2.0], &[3.0, 4.0]], 2);
    layer.resize_output(ResizeAction::Add);
    assert_eq!(layer.sizes(), (2, 3));
    assert_eq!(weights(&layer), vec![vec![1.0, 2.0, 0.0], vec![3.0, 4.0, 0.0]]);
}

#[test]
fn linear_resize_output_remove_takes_out_the_column() {
    let mut layer = linear(&[&[1.0, 2.0, 3.0], &[4.0, 5.0, 6.0]], 3);
    layer.resize_output(ResizeAction::Remove(0));
    assert_eq!(layer.sizes(), (2, 2));
    assert_eq!(weights(&layer), vec![vec![2.0, 3.0], vec![5.0, 6.0]]);
}

#[test]
fn linear_without_rows_keeps_its_width() {
    let mut layer = linear(&[&[1.0, 2.0, 3.0]], 3);
    layer.resize_input(ResizeAction::Remove(0));
    assert_eq!(layer.sizes(), (0, 3));
    layer.resize_output(ResizeAction::Remove(2));
    assert_eq!(layer.sizes(), (0, 2));
    layer.resize_output(ResizeAction::Add);
    assert_eq!(layer.sizes(), (0, 3));
    layer.resize_input(ResizeAction::Add);
    assert_eq!(layer.sizes(), (1, 3));
    assert_eq!(weights(&layer), vec![vec![0.0, 0.0, 0.0]]);
}

#[test]
fn linear_clone_is_equal_and_independent() {
    let layer = linear(&[&[1.0, 2.0], &[3.0, 4.0]], 2);
    let mut copy = layer.clone();
    assert_eq!(weights(&copy), weights(&layer));
    copy.set(0, 0, Real(9.0));
    assert_eq!(layer.get(0, 0), Real(1.0));
}

#[test]
fn linear_variate_keeps_the_sizes_and_draws_row_by_row() {
    let mut rng = Pcg64::seed_from_u64(5);
    let mut layer = linear(&[&[1.0, 2.0], &[3.0, 4.0]], 2);
    layer.variate(&Real(0.25), &mut rng);
    assert_eq!(layer.sizes(), (2, 2));

    let mut again = Pcg64::seed_from_u64(5);
    let normal = Normal::new(0.0, 0.5).unwrap();
    let expected: Vec<f64> =
        [1.0, 2.0, 3.0, 4.0].iter().map(|w| w + again.sample(normal)).collect();
    assert_eq!(weights(&layer), vec![expected[0..2].to_vec(), expected[2..4].to_vec()]);
}

#[test]
fn bias_new_is_zero_with_the_size() {
    let bias: Bias<Real> = Bias::new(3);
    assert_eq!(bias.size(), 3);
    assert_eq!(bias.data, reals(&[0.0, 0.0, 0.0]));
    assert_eq!(bias.dof(), 3);
}

#[test]
fn bias_process_adds_element_wise() {
    let bias = Bias { data: reals(&[0.5, -1.0, 2.0]) };
    let output = bias.process(Vector::new(reals(&[1.0, 1.0, 1.0])));
    assert_eq!(output.data, reals(&[1.5, 0.0, 3.0]));
    assert_eq!(bias.data, reals(&[0.5, -1.0, 2.0]));
}

#[test]
fn bias_variate_with_zero_deviation_changes_nothing() {
    let mut rng = Pcg64::seed_from_u64(1);
    let mut bias = Bias { data: reals(&[0.5, -1.0, 2.0]) };
    bias.variate(&Real(0.0), &mut rng);
    assert_eq!(bias.data, reals(&[0.5, -1.0, 2.0]));
}

#[test]
fn tanh_is_element_wise_and_keeps_the_length() {
    let output = Tanh::new().process(Vector::new(reals(&[0.0, 1.0, -1.0, 40.0])));
    assert_eq!(output.len(), 4);
    assert_eq!(output.data[0], Real(0.0));
    assert!((output.data[1].0 - 0.7615941559557649).abs() < 1e-15);
    assert!((output.data[2].0 + 0.7615941559557649).abs() < 1e-15);
    assert_eq!(output.data[3], Real(1.0));
}

#[test]
fn tanh_of_empty_is_empty() {
    let output = Tanh::<Real>::new().process(Vector::zeros(0));
    assert!(output.is_empty());
}

#[test]
fn apply_feeds_the_value_into_the_layer() {
    let layer = linear(&[&[2.0], &[3.0]], 1);
    let bias = Bias { data: reals(&[0.5]) };
    let output = Vector::new(reals(&[1.0, 1.0])).apply(&layer).apply(&bias);
    assert_eq!(output.data, reals(&[5.5]));
}

#[test]
fn layers_chain_in_the_order_given() {
    let bias = Bias { data: reals(&[1.0]) };
    let first = Vector::new(reals(&[0.0])).apply(&bias).apply(&Tanh::new());
    let second = Vector::new(reals(&[0.0])).apply(&Tanh::new()).apply(&bias);
    assert_eq!(first.data, vec![Real(1.0f64.tanh())]);
    assert_eq!(second.data, reals(&[1.0]));
}
