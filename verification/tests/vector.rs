use nevo::resize::ResizeAction;
use nevo::scalar::Scalar;
use nevo::variable::Variable;
use nevo::vector::{resize_vector, Vector};
use rand::{Rng, SeedableRng};
use rand_distr::Normal;
use rand_pcg::Pcg64;

#[derive(Clone, Copy, Debug, PartialEq)]
struct Real(f64);

impl Scalar for Real {
    fn zero() -> Self {
        Real(0.0)
    }

    fn add(self, rhs: Self) -> Self {
        Real(self.0 + rhs.0)
    }

    fn mul(self, rhs: Self) -> Self {
        Real(self.0 * rhs.0)
    }

    fn tanh(self) -> Self {
        Real(self.0.tanh())
    }

    fn is_variance(self) -> bool {
        self.0.is_finite() && self.0 >= 0.0
    }

    fn normal(variance: Self, rng: &mut Pcg64) -> Self {
        Real(rng.sample(Normal::new(0.0, variance.0.sqrt()).unwrap()))
    }
}

fn reals(values: &[f64]) -> Vec<Real> {
    values.iter().map(|v| Real(*v)).collect()
}

#[test]
fn new_keeps_the_elements() {
    let v = Vector::new(reals(&[1.5, -2.0, 3.25]));
    assert_eq!(v.data, reals(&[1.5, -2.0, 3.25]));
    assert_eq!(v.len(), 3);
    assert!(!v.is_empty());
}

#[test]
fn zeros_has_the_length_and_only_zeros() {
    let v: Vector<Real> = Vector::zeros(4);
    assert_eq!(v.data, reals(&[0.0, 0.0, 0.0, 0.0]));
    assert_eq!(v.len(), 4);
}

#[test]
fn zeros_of_length_zero_is_empty() {
    let v: Vector<Real> = Vector::zeros(0);
    assert!(v.is_empty());
    assert_eq!(v.len(), 0);
}

#[test]
fn resize_add_appends_a_zero() {
    let mut v = Vector::new(reals(&[1.0, 2.0]));
    v.resize(ResizeAction::Add);
    assert_eq!(v.data, reals(&[1.0, 2.0, 0.0]));
}

#[test]
fn resize_add_to_empty_gives_one_zero() {
    let mut v: Vector<Real> = Vector::zeros(0);
    v.resize(ResizeAction::Add);
    assert_eq!(v.data, reals(&[0.0]));
}

#[test]
fn resize_remove_takes_out_the_index_and_keeps_order() {
    let mut v = Vector::new(reals(&[10.0, 20.0, 30.0, 40.0]));
    v.resize(ResizeAction::Remove(1));
    assert_eq!(v.data, reals(&[10.0, 30.0, 40.0]));
    v.resize(ResizeAction::Remove(2));
    assert_eq!(v.data, reals(&[10.0, 30.0]));
    v.resize(ResizeAction::Remove(0));
    assert_eq!(v.data, reals(&[30.0]));
    v.resize(ResizeAction::Remove(0));
    assert!(v.is_empty());
}

#[test]
fn resize_vector_is_resize() {
    let mut v = Vector::new(reals(&[1.0, 2.0, 3.0]));
    resize_vector(&mut v, ResizeAction::Remove(0));
    resize_vector(&mut v, ResizeAction::Add);
    assert_eq!(v.data, reals(&[2.0, 3.0, 0.0]));
}

#[test]
fn add_is_element_wise() {
    let a = Vector::new(reals(&[1.0, 2.0, 3.0]));
    let b = Vector::new(reals(&[0.5, -2.0, 10.0]));
    let sum = a.add(&b);
    assert_eq!(sum.data, reals(&[1.5, 0.0, 13.0]));
    assert_eq!(a.data, reals(&[1.0, 2.0, 3.0]));
    assert_eq!(b.data, reals(&[0.5, -2.0, 10.0]));
}

#[test]
fn clone_is_equal_and_independent() {
    let a = Vector::new(reals(&[1.0, 2.0]));
    let mut b = a.clone();
    assert_eq!(b.data, a.data);
    b.resize(ResizeAction::Add);
    assert_eq!(a.data, reals(&[1.0, 2.0]));
}

#[test]
fn dof_is_the_length() {
    let v = Vector::new(reals(&[1.0, 2.0, 3.0]));
    assert_eq!(v.dof(), 3);
    let empty: Vector<Real> = Vector::zeros(0);
    assert_eq!(empty.dof(), 0);
}

#[test]
fn variate_keeps_the_length_and_moves_the_values() {
    let mut rng = Pcg64::seed_from_u64(7);
    let mut v: Vector<Real> = Vector::zeros(6);
    v.variate(&Real(1.0), &mut rng);
    assert_eq!(v.len(), 6);
    assert!(v.data.iter().any(|x| x.0 != 0.0));
    assert!(v.data.iter().all(|x| x.0.is_finite()));
}

#[test]
fn variate_with_zero_deviation_changes_nothing() {
    let mut rng = Pcg64::seed_from_u64(7);
    let mut v = Vector::new(reals(&[1.0, -2.5, 1e-300, 7e200]));
    v.variate(&Real(0.0), &mut rng);
    assert_eq!(v.data, reals(&[1.0, -2.5, 1e-300, 7e200]));
}

#[test]
fn variate_draws_in_index_order() {
    let mut rng = Pcg64::seed_from_u64(99);
    let mut v: Vector<Real> = Vector::zeros(3);
    v.variate(&Real(4.0), &mut rng);

    let mut again = Pcg64::seed_from_u64(99);
    let normal = Normal::new(0.0, 2.0).unwrap();
    let expected: Vec<Real> = (0..3).map(|_| Real(0.0 + again.sample(normal))).collect();
    assert_eq!(v.data, expected);
}
