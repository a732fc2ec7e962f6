use crate::agent::Agent;
use crate::layer::Layer;
use crate::recurrent::{Rate, Recurrent, Weights};
use crate::resize::ResizeRate;
use crate::scalar::{is_variance, is_zero, Scalar};
use crate::variable::Variable;
use crate::vector::Vector;
use rand_pcg::Pcg64;
use vstd::prelude::*;

verus! {

/// The dimension of a packed [`Input`].
pub const INPUT_SIZE: usize = 5;

/// The dimension of a packed [`Output`].
pub const OUTPUT_SIZE: usize = 2;

/// What an animal senses in one tick.
#[derive(Debug)]
pub struct Input<T> {
    /// The direction of the nearest food.
    pub food: (T, T),
    /// The direction of the nearest neighbor.
    pub neighbor: (T, T),
    pub obesity: T,
}

impl<T: Scalar> Input<T> {
    /// The fixed layout of the record as a vector: the two coordinates of
    /// `food`, the two of `neighbor`, then `obesity`.
    pub open spec fn layout(self) -> Seq<T> {
        seq![self.food.0, self.food.1, self.neighbor.0, self.neighbor.1, self.obesity]
    }

    /// Flattens the record into a vector of dimension [`INPUT_SIZE`].
    pub fn pack(self) -> (packed: Vector<T>)
        ensures
            packed@ == self.layout(),
    {
        let mut data: Vec<T> = Vec::new();
        data.push(self.food.0);
        data.push(self.food.1);
        data.push(self.neighbor.0);
        data.push(self.neighbor.1);
        data.push(self.obesity);
        assert(data@ =~= self.layout());
        Vector::new(data)
    }
}

impl<T: Scalar> Clone for Input<T> {
    fn clone(&self) -> (copy: Self)
        ensures
            copy == *self,
    {
        Input { food: self.food, neighbor: self.neighbor, obesity: self.obesity }
    }
}

impl<T: Scalar> Default for Input<T> {
    /// The record whose fields are all zero.
    fn default() -> (input: Self)
        ensures
            is_zero(input.food.0),
            is_zero(input.food.1),
            is_zero(input.neighbor.0),
            is_zero(input.neighbor.1),
            is_zero(input.obesity),
    {
        Input {
            food: (T::zero(), T::zero()),
            neighbor: (T::zero(), T::zero()),
            obesity: T::zero(),
        }
    }
}

/// What an animal does in one tick.
#[derive(Debug)]
pub struct Output<T> {
    pub movement: (T, T),
}

impl<T: Scalar> Output<T> {
    /// The record that a vector of dimension [`OUTPUT_SIZE`] stands for: its
    /// two elements are the coordinates of `movement`.
    pub fn unpack(src: Vector<T>) -> (output: Self)
        requires
            src@.len() == OUTPUT_SIZE,
        ensures
            output.movement == (src@[0], src@[1]),
    {
        Output { movement: (src.data[0], src.data[1]) }
    }
}

/// What an animal inherits: the cell that its behaviour starts from.
#[derive(Debug)]
pub struct Genome<T> {
    pub network: Recurrent<T>,
}

impl<T: Scalar> Genome<T> {
    /// The genome fits the records: its cell is consistent, takes a packed
    /// [`Input`] and gives a packed [`Output`].
    pub open spec fn wf(&self) -> bool {
        &&& self.network@.wf()
        &&& self.network@.input_dim() == INPUT_SIZE
        &&& self.network@.output_dim() == OUTPUT_SIZE
    }

    /// A random genome of the given memory dimension: the cell of zeros,
    /// with a draw of variance `rand_mag` added to every parameter.
    pub fn new(mem_size: usize, rand_mag: T, rng: &mut Pcg64) -> (genome: Self)
        requires
            is_variance(rand_mag),
        ensures
            genome.wf(),
            genome.network@.memory_dim() == mem_size,
            exists|zero: Weights<T>| #[trigger]
                zero.nudged(rand_mag, genome.network@) && zero.is_zero(),
    {
        let mut network = Recurrent::new(mem_size, INPUT_SIZE, OUTPUT_SIZE);
        let ghost zero = network@;
        let never = ResizeRate::new(0, 1).unwrap();
        let rate = Rate { variance: rand_mag, resize: never };
        network.variate(&rate, rng);
        proof {
            let mid = choose|mid: Weights<T>| #[trigger]
                zero.restructured(never, mid) && mid.wf() && mid.nudged(rand_mag, network@);
            assert(mid == zero);
        }
        Self { network }
    }
}

impl<T: Scalar> Clone for Genome<T> {
    fn clone(&self) -> (copy: Self)
        ensures
            copy.network@ == self.network@,
    {
        Self { network: self.network.clone() }
    }
}

/// An animal: a cell and the memory that it threads from one tick to the
/// next. The memory is a plain value that every step replaces, so there is
/// always exactly one.
#[derive(Debug)]
pub struct Animal<T> {
    genome: Genome<T>,
    network: Recurrent<T>,
    memory: Vector<T>,
    position: (T, T),
}

impl<T: Scalar> Animal<T> {
    /// The cell that the animal runs.
    pub closed spec fn network(&self) -> Weights<T> {
        self.network@
    }

    /// The memory that the next step starts from.
    pub closed spec fn held(&self) -> Seq<T> {
        self.memory@
    }

    /// The animal of the given genome at the given place. It runs a copy of
    /// the genome's cell, and its memory is that cell's initial memory.
    pub fn new(genome: Genome<T>, position: (T, T)) -> (animal: Self)
        requires
            genome.wf(),
        ensures
            animal.ready(),
            animal.network() == genome.network@,
            animal.held() == genome.network@.initial_memory,
            animal.position() == position,
    {
        let network = genome.network.clone();
        let memory = genome.network.initial_memory().clone();
        Self { network, memory, genome, position }
    }

    /// The memory that the next step starts from.
    pub fn memory(&self) -> (memory: &Vector<T>)
        ensures
            memory@ == self.held(),
    {
        &self.memory
    }

    /// Where the animal is.
    #[verifier::when_used_as_spec(position_spec)]
    pub fn position(&self) -> (position: (T, T))
        ensures
            position == self.position(),
    {
        self.position
    }

    pub closed spec fn position_spec(&self) -> (T, T) {
        self.position
    }
}

impl<T: Scalar> Agent for Animal<T> {
    type Input = Input<T>;

    type Output = Output<T>;

    /// The cell is consistent and fits the records, and the held memory has
    /// the cell's memory dimension.
    open spec fn ready(&self) -> bool {
        &&& self.network().wf()
        &&& self.network().input_dim() == INPUT_SIZE
        &&& self.network().output_dim() == OUTPUT_SIZE
        &&& self.held().len() == self.network().memory_dim()
    }

    /// The cell took one step from the held memory on the packed input; the
    /// new memory is held in place of the old, the output is unpacked, and
    /// the cell and the position are as before.
    open spec fn responds(&self, input: Input<T>, output: Output<T>, after: &Self) -> bool {
        &&& after.network() == self.network()
        &&& after.position() == self.position()
        &&& exists|out: Seq<T>| #[trigger]
            self.network().forward(input.layout(), self.held(), out, after.held()) && out.len()
                == OUTPUT_SIZE && output.movement == (out[0], out[1])
    }

    /// One tick: packs the input, runs the cell on it and on the held
    /// memory, holds the new memory, and unpacks the output.
    fn process(&mut self, input: Input<T>) -> (output: Output<T>) {
        let memory = self.memory.clone();
        let (out_vec, new_mem) = self.network.process((input.pack(), memory));
        self.memory = new_mem;
        assert(old(self).network().forward(
            input.layout(),
            old(self).held(),
            out_vec@,
            self.held(),
        ));
        Output::unpack(out_vec)
    }
}

} // verus!
