use nevo::agent::{Agent, System};
use nevo::animal::{Animal, Genome, Input, Output, INPUT_SIZE, OUTPUT_SIZE};
use nevo::bias::Bias;
use nevo::layer::Layer;
use nevo::linear::Linear;
use nevo::recurrent::{Recurrent, Sizes};
use nevo::scalar::Scalar;
use nevo::vector::Vector;
use rand::{Rng, SeedableRng};
use rand_distr::Normal;
use rand_pcg::Pcg64;

#[derive(Clone, Copy, Debug, PartialEq)]
struct Real(f64);

impl Scalar for Real {
    fn zero() -> Self {
        Real(0.0)
    }

    fn add(self, rhs: Self) -> Self {
        Real(self.0 + rhs.0)
    }

    fn mul(self, rhs: Self) -> Self {
        Real(self.0 * rhs.0)
    }

    fn tanh(self) -> Self {
        Real(self.0.tanh())
    }

    fn is_variance(self) -> bool {
        self.0.is_finite() && self.0 >= 0.0
    }

    fn normal(variance: Self, rng: &mut Pcg64) -> Self {
        Real(rng.sample(Normal::new(0.0, variance.0.sqrt()).unwrap()))
    }
}

fn reals(values: &[f64]) -> Vec<Real> {
    values.iter().map(|v| Real(*v)).collect()
}

fn linear(rows: &[&[f64]], width: usize) -> Linear<Real> {
    let mut layer = Linear::new(rows.len(), width);
    for (i, row) in rows.iter().enumerate() {
        assert_eq!(row.len(), width);
        for (j, w) in row.iter().enumerate() {
            layer.set(i, j, Real(*w));
        }
    }
    layer
}

fn input(values: [f64; 5]) -> Input<Real> {
    Input {
        food: (Real(values[0]), Real(values[1])),
        neighbor: (Real(values[2]), Real(values[3])),
        obesity: Real(values[4]),
    }
}

/// A genome that passes input `from.0` to the first coordinate of the
/// movement and input `from.1` to the second, each through both
/// nonlinearities, and that remembers nothing.
fn selecting(from: (usize, usize)) -> Genome<Real> {
    let mut enter = Linear::new(5, 5);
    for i in 0..5 {
        enter.set(i, i, Real(1.0));
    }
    let mut exit = Linear::new(5, 2);
    exit.set(from.0, 0, Real(1.0));
    exit.set(from.1, 1, Real(1.0));
    let network = Recurrent::from_parts(
        Vector::zeros(5),
        enter,
        Bias::new(5),
        exit,
        Bias::new(2),
        Linear::new(5, 5),
    )
    .unwrap();
    Genome { network }
}

#[test]
fn sizes_of_the_records() {
    assert_eq!(INPUT_SIZE, 5);
    assert_eq!(OUTPUT_SIZE, 2);
}

#[test]
fn pack_lays_the_fields_out_in_order() {
    let packed = input([1.0, 2.0, 3.0, 4.0, 5.0]).pack();
    assert_eq!(packed.data, reals(&[1.0, 2.0, 3.0, 4.0, 5.0]));
    assert_eq!(packed.len(), INPUT_SIZE);
}

#[test]
fn default_input_is_zero() {
    let packed = Input::<Real>::default().pack();
    assert_eq!(packed.data, reals(&[0.0; 5]));
}

#[test]
fn unpack_reads_the_movement() {
    let output = Output::unpack(Vector::new(reals(&[0.25, -0.75])));
    assert_eq!(output.movement, (Real(0.25), Real(-0.75)));
}

#[test]
fn genome_new_has_the_record_sizes_and_random_parameters() {
    let mut rng = Pcg64::seed_from_u64(0xdeadbeef);
    let genome: Genome<Real> = Genome::new(4, Real(1.0), &mut rng);
    assert_eq!(genome.network.sizes(), Sizes { input: 5, output: 2, memory: 4 });
    assert!(genome.network.initial_memory().data.iter().all(|x| x.0 != 0.0));
}

#[test]
fn genome_new_with_zero_variance_is_the_zero_cell() {
    let mut rng = Pcg64::seed_from_u64(1);
    let genome: Genome<Real> = Genome::new(3, Real(0.0), &mut rng);
    assert_eq!(genome.network.initial_memory().data, reals(&[0.0, 0.0, 0.0]));
    let (output, new_memory) = genome
        .network
        .process((input([1.0, 1.0, 1.0, 1.0, 1.0]).pack(), Vector::zeros(3)));
    assert_eq!(output.data, reals(&[0.0, 0.0]));
    assert_eq!(new_memory.data, reals(&[0.0, 0.0, 0.0]));
}

#[test]
fn animal_starts_from_the_initial_memory_of_its_genome() {
    let mut rng = Pcg64::seed_from_u64(2);
    let genome: Genome<Real> = Genome::new(4, Real(1.0), &mut rng);
    let initial = genome.network.initial_memory().data.clone();
    let animal = Animal::new(genome, (Real(3.0), Real(-4.0)));
    assert_eq!(animal.memory().data, initial);
    assert_eq!(animal.position(), (Real(3.0), Real(-4.0)));
}

#[test]
fn round_trip_pins_the_layout() {
    let record = [0.1, 0.2, 0.3, 0.4, 0.5];
    let through = |x: f64| x.tanh().tanh();

    let mut animal = Animal::new(selecting((0, 1)), (Real(0.0), Real(0.0)));
    let output = animal.process(input(record));
    assert_eq!(output.movement, (Real(through(0.1)), Real(through(0.2))));

    let mut animal = Animal::new(selecting((2, 3)), (Real(0.0), Real(0.0)));
    let output = animal.process(input(record));
    assert_eq!(output.movement, (Real(through(0.3)), Real(through(0.4))));

    let mut animal = Animal::new(selecting((4, 0)), (Real(0.0), Real(0.0)));
    let output = animal.process(input(record));
    assert_eq!(output.movement, (Real(through(0.5)), Real(through(0.1))));
}

#[test]
fn process_holds_the_new_memory() {
    let mut animal = Animal::new(selecting((0, 1)), (Real(0.0), Real(0.0)));
    assert_eq!(animal.memory().data, reals(&[0.0; 5]));
    animal.process(input([0.1, 0.2, 0.3, 0.4, 0.5]));
    let expected: Vec<Real> = [0.1f64, 0.2, 0.3, 0.4, 0.5].iter().map(|x| Real(x.tanh())).collect();
    assert_eq!(animal.memory().data, expected);
}

#[test]
fn process_threads_the_memory_from_tick_to_tick() {
    let mut rng = Pcg64::seed_from_u64(3);
    let genome: Genome<Real> = Genome::new(4, Real(1.0), &mut rng);
    let network = genome.network.clone();
    let mut animal = Animal::new(genome, (Real(0.0), Real(0.0)));

    let mut memory = network.initial_memory().clone();
    for tick in 0..5 {
        let record = [tick as f64, 0.5, -0.5, 1.0, 0.25];
        let (out_vec, new_memory) = network.process((input(record).pack(), memory));
        let output = animal.process(input(record));
        assert_eq!(output.movement, (out_vec.data[0], out_vec.data[1]));
        assert_eq!(animal.memory().data, new_memory.data);
        memory = new_memory;
    }
}

#[test]
fn clone_of_a_genome_has_the_same_cell() {
    let genome = selecting((0, 1));
    let copy = genome.clone();
    assert_eq!(copy.network.sizes(), genome.network.sizes());
    let record = input([0.1, 0.2, 0.3, 0.4, 0.5]);
    let a = genome.network.process((record.clone().pack(), Vector::zeros(5)));
    let b = copy.network.process((record.pack(), Vector::zeros(5)));
    assert_eq!(a.0.data, b.0.data);
}

struct Clock {
    ticks: u32,
}

impl System for Clock {
    fn process(&mut self) {
        self.ticks += 1;
    }
}

#[test]
fn a_system_advances_by_itself() {
    let mut clock = Clock { ticks: 0 };
    clock.process();
    clock.process();
    assert_eq!(clock.ticks, 2);
}
