use crate::bias::Bias;
use crate::layer::{Apply, Layer};
use crate::linear::{
    lemma_applies_unique, lemma_input_resized_shape, lemma_output_resized_shape, Linear, Matrix,
};
use crate::resize::{ResizeAction, ResizeRate};
use crate::scalar::{
    all_zero, functional, is_nudge, is_variance, lemma_sums_unique, lemma_tanhs_unique, nudged,
    sums, tanhs, Scalar,
};
use crate::tanh::Tanh;
use crate::variable::Variable;
use crate::vector::{resized, Vector};
use rand_pcg::Pcg64;
use vstd::prelude::*;

verus! {

/// The mathematical content of a recurrent cell: its six blocks of
/// parameters.
pub struct Weights<T> {
    /// The memory that a run starts from.
    pub initial_memory: Seq<T>,
    /// From the input to the memory.
    pub enter: Matrix<T>,
    pub enter_bias: Seq<T>,
    /// From the memory to the output.
    pub exit: Matrix<T>,
    pub exit_bias: Seq<T>,
    /// From the memory to the next memory.
    pub recurse: Matrix<T>,
}

impl<T: Scalar> Weights<T> {
    pub open spec fn input_dim(self) -> nat {
        self.enter.height()
    }

    pub open spec fn output_dim(self) -> nat {
        self.exit.width
    }

    pub open spec fn memory_dim(self) -> nat {
        self.initial_memory.len()
    }

    /// The shape invariant: every block that carries the memory dimension
    /// has it at the same size, and the output bias fits the output.
    pub open spec fn wf(self) -> bool {
        &&& self.enter.wf()
        &&& self.exit.wf()
        &&& self.recurse.wf()
        &&& self.enter.width == self.memory_dim()
        &&& self.recurse.height() == self.memory_dim()
        &&& self.recurse.width == self.memory_dim()
        &&& self.exit.height() == self.memory_dim()
        &&& self.enter_bias.len() == self.memory_dim()
        &&& self.exit_bias.len() == self.output_dim()
    }

    /// Every parameter is a zero.
    pub open spec fn is_zero(self) -> bool {
        &&& all_zero(self.initial_memory)
        &&& self.enter.is_zero()
        &&& all_zero(self.enter_bias)
        &&& self.exit.is_zero()
        &&& all_zero(self.exit_bias)
        &&& self.recurse.is_zero()
    }

    /// The number of parameters: the sum over the six blocks.
    pub open spec fn dof(self) -> nat {
        self.enter.dof() + self.enter_bias.len() + self.exit.dof() + self.exit_bias.len()
            + self.recurse.dof() + self.initial_memory.len()
    }

    /// The memory update with its intermediate values named:
    /// `new_memory = tanh((enter(input) + recurse(memory)) + enter_bias)`.
    pub open spec fn remembers_by(
        self,
        input: Seq<T>,
        memory: Seq<T>,
        entered: Seq<T>,
        recalled: Seq<T>,
        mixed: Seq<T>,
        biased: Seq<T>,
        new_memory: Seq<T>,
    ) -> bool {
        &&& self.enter.applies(input, entered)
        &&& self.recurse.applies(memory, recalled)
        &&& sums(entered, recalled, mixed)
        &&& sums(mixed, self.enter_bias, biased)
        &&& tanhs(biased, new_memory)
    }

    /// `new_memory` is a memory that the cell can reach from `memory` on
    /// `input`.
    pub open spec fn remembers(self, input: Seq<T>, memory: Seq<T>, new_memory: Seq<T>) -> bool {
        exists|entered: Seq<T>, recalled: Seq<T>, mixed: Seq<T>, biased: Seq<T>| #[trigger]
            self.remembers_by(input, memory, entered, recalled, mixed, biased, new_memory)
    }

    /// The readout with its intermediate values named:
    /// `output = tanh(exit(new_memory) + exit_bias)`.
    pub open spec fn reads_out_by(
        self,
        new_memory: Seq<T>,
        left: Seq<T>,
        biased: Seq<T>,
        output: Seq<T>,
    ) -> bool {
        &&& self.exit.applies(new_memory, left)
        &&& sums(left, self.exit_bias, biased)
        &&& tanhs(biased, output)
    }

    /// `output` is an output that the cell can give for the memory
    /// `new_memory`.
    pub open spec fn reads_out(self, new_memory: Seq<T>, output: Seq<T>) -> bool {
        exists|left: Seq<T>, biased: Seq<T>| #[trigger]
            self.reads_out_by(new_memory, left, biased, output)
    }

    /// One step of the cell: the memory is updated from the input and the
    /// old memory, and the output is read out of the new memory.
    pub open spec fn forward(
        self,
        input: Seq<T>,
        memory: Seq<T>,
        output: Seq<T>,
        new_memory: Seq<T>,
    ) -> bool {
        &&& self.remembers(input, memory, new_memory)
        &&& self.reads_out(new_memory, output)
    }

    /// `after` is the cell with its input dimension resized by `action`.
    pub open spec fn input_resized(self, action: ResizeAction, after: Weights<T>) -> bool {
        &&& self.enter.input_resized(action, after.enter)
        &&& after.initial_memory == self.initial_memory
        &&& after.enter_bias == self.enter_bias
        &&& after.exit == self.exit
        &&& after.exit_bias == self.exit_bias
        &&& after.recurse == self.recurse
    }

    /// `after` is the cell with its output dimension resized by `action`.
    pub open spec fn output_resized(self, action: ResizeAction, after: Weights<T>) -> bool {
        &&& self.exit.output_resized(action, after.exit)
        &&& resized(self.exit_bias, action, after.exit_bias)
        &&& after.initial_memory == self.initial_memory
        &&& after.enter == self.enter
        &&& after.enter_bias == self.enter_bias
        &&& after.recurse == self.recurse
    }

    /// `after` is the cell with its memory dimension resized by `action`, the
    /// same action on every block that carries the dimension: the initial
    /// memory, the outputs of `enter`, the bias of `enter`, the inputs of
    /// `exit`, and both the inputs and the outputs of `recurse`.
    pub open spec fn memory_resized(self, action: ResizeAction, after: Weights<T>) -> bool {
        &&& resized(self.initial_memory, action, after.initial_memory)
        &&& self.enter.output_resized(action, after.enter)
        &&& resized(self.enter_bias, action, after.enter_bias)
        &&& self.exit.input_resized(action, after.exit)
        &&& after.exit_bias == self.exit_bias
        &&& exists|mid: Matrix<T>| #[trigger]
            self.recurse.input_resized(action, mid) && mid.output_resized(action, after.recurse)
    }

    /// `after` is the cell with an independent draw of the given variance
    /// added to every parameter.
    pub open spec fn nudged(self, variance: T, after: Weights<T>) -> bool {
        &&& nudged(variance, self.initial_memory, after.initial_memory)
        &&& self.enter.nudged(variance, after.enter)
        &&& nudged(variance, self.enter_bias, after.enter_bias)
        &&& self.exit.nudged(variance, after.exit)
        &&& nudged(variance, self.exit_bias, after.exit_bias)
        &&& self.recurse.nudged(variance, after.recurse)
    }

    /// `after` is a cell that the structural step of a mutation at the given
    /// rate can leave: the cell itself, unless the rate always resizes; or,
    /// unless the rate never does, the cell with its memory dimension
    /// resized by an action that fits it.
    pub open spec fn restructured(self, rate: ResizeRate, after: Weights<T>) -> bool {
        ||| !rate.is_always() && after == self
        ||| !rate.is_never() && exists|action: ResizeAction|
            action.fits(self.memory_dim()) && #[trigger] self.memory_resized(action, after)
    }

    /// `after` is a cell that one mutation can leave: first the structural
    /// step, then a draw added to every parameter of the result.
    pub open spec fn varied(self, rate: ResizeRate, variance: T, after: Weights<T>) -> bool {
        exists|mid: Weights<T>| #[trigger]
            self.restructured(rate, mid) && mid.wf() && mid.nudged(variance, after)
    }
}

/// Over functional arithmetic one step of a cell has one result: the same
/// parameters, input and memory give the same output and the same new
/// memory.
pub proof fn lemma_forward_unique<T: Scalar>(
    cell: Weights<T>,
    input: Seq<T>,
    memory: Seq<T>,
    output1: Seq<T>,
    new_memory1: Seq<T>,
    output2: Seq<T>,
    new_memory2: Seq<T>,
)
    requires
        functional::<T>(),
        cell.forward(input, memory, output1, new_memory1),
        cell.forward(input, memory, output2, new_memory2),
    ensures
        output1 == output2,
        new_memory1 == new_memory2,
{
    let (e1, r1, m1, b1) = choose|e: Seq<T>, r: Seq<T>, m: Seq<T>, b: Seq<T>| #[trigger]
        cell.remembers_by(input, memory, e, r, m, b, new_memory1);
    let (e2, r2, m2, b2) = choose|e: Seq<T>, r: Seq<T>, m: Seq<T>, b: Seq<T>| #[trigger]
        cell.remembers_by(input, memory, e, r, m, b, new_memory2);
    lemma_applies_unique(cell.enter, input, e1, e2);
    lemma_applies_unique(cell.recurse, memory, r1, r2);
    lemma_sums_unique(e1, r1, m1, m2);
    lemma_sums_unique(m1, cell.enter_bias, b1, b2);
    lemma_tanhs_unique(b1, new_memory1, new_memory2);

    let (l1, s1) = choose|l: Seq<T>, s: Seq<T>| #[trigger]
        cell.reads_out_by(new_memory1, l, s, output1);
    let (l2, s2) = choose|l: Seq<T>, s: Seq<T>| #[trigger]
        cell.reads_out_by(new_memory2, l, s, output2);
    lemma_applies_unique(cell.exit, new_memory1, l1, l2);
    lemma_sums_unique(l1, cell.exit_bias, s1, s2);
    lemma_tanhs_unique(s1, output1, output2);
}

/// A resize of the memory dimension keeps the shape invariant: every block
/// that carries the dimension ends at the same new size, and the input and
/// the output dimension stay.
pub proof fn lemma_memory_resized_shape<T: Scalar>(
    cell: Weights<T>,
    action: ResizeAction,
    after: Weights<T>,
)
    requires
        cell.wf(),
        cell.memory_resized(action, after),
    ensures
        after.wf(),
        after.memory_dim() == action.resize_len(cell.memory_dim()),
        after.input_dim() == cell.input_dim(),
        after.output_dim() == cell.output_dim(),
{
    let mid = choose|mid: Matrix<T>| #[trigger]
        cell.recurse.input_resized(action, mid) && mid.output_resized(action, after.recurse);
    lemma_output_resized_shape(cell.enter, action, after.enter);
    lemma_input_resized_shape(cell.exit, action, after.exit);
    lemma_input_resized_shape(cell.recurse, action, mid);
    lemma_output_resized_shape(mid, action, after.recurse);
}

/// Perturbing the parameters keeps the shape invariant and every
/// dimension.
pub proof fn lemma_nudged_shape<T: Scalar>(cell: Weights<T>, variance: T, after: Weights<T>)
    requires
        cell.wf(),
        cell.nudged(variance, after),
    ensures
        after.wf(),
        after.memory_dim() == cell.memory_dim(),
        after.input_dim() == cell.input_dim(),
        after.output_dim() == cell.output_dim(),
{
    crate::linear::lemma_nudged_shape(cell.enter, variance, after.enter);
    crate::linear::lemma_nudged_shape(cell.exit, variance, after.exit);
    crate::linear::lemma_nudged_shape(cell.recurse, variance, after.recurse);
}

/// A mutation keeps the shape invariant, whatever it draws and at whatever
/// rate: afterwards every block that carries the memory dimension has it at
/// the same size. The input and the output dimension stay, and the memory
/// dimension moves by at most one; it stays where the rate never resizes,
/// and moves where the rate always does.
pub proof fn lemma_varied_shape<T: Scalar>(
    cell: Weights<T>,
    rate: ResizeRate,
    variance: T,
    after: Weights<T>,
)
    requires
        cell.wf(),
        cell.varied(rate, variance, after),
    ensures
        after.wf(),
        after.input_dim() == cell.input_dim(),
        after.output_dim() == cell.output_dim(),
        ({
            let before = cell.memory_dim();
            let after = after.memory_dim();
            after == before || after == before + 1 || after + 1 == before
        }),
        rate.is_never() ==> after.memory_dim() == cell.memory_dim(),
        rate.is_always() ==> after.memory_dim() != cell.memory_dim(),
{
    let mid = choose|mid: Weights<T>| #[trigger]
        cell.restructured(rate, mid) && mid.wf() && mid.nudged(variance, after);
    lemma_nudged_shape(mid, variance, after);
    if !rate.is_always() && mid == cell {
    } else {
        let action = choose|action: ResizeAction|
            action.fits(cell.memory_dim()) && #[trigger] cell.memory_resized(action, mid);
        lemma_memory_resized_shape(cell, action, mid);
    }
}

/// A mutation that never resizes, and whose draws never change the scalar
/// that they are added to, leaves every parameter and every dimension as it
/// was.
pub proof fn lemma_varied_still<T: Scalar>(
    cell: Weights<T>,
    rate: ResizeRate,
    variance: T,
    after: Weights<T>,
)
    requires
        rate.is_never(),
        forall|x: T, y: T| #[trigger] is_nudge(variance, x, y) ==> y == x,
        cell.varied(rate, variance, after),
    ensures
        after == cell,
{
    let mid = choose|mid: Weights<T>| #[trigger]
        cell.restructured(rate, mid) && mid.wf() && mid.nudged(variance, after);
    assert(mid == cell);
    crate::scalar::lemma_nudged_still(variance, cell.initial_memory, after.initial_memory);
    crate::scalar::lemma_nudged_still(variance, cell.enter_bias, after.enter_bias);
    crate::scalar::lemma_nudged_still(variance, cell.exit_bias, after.exit_bias);
    crate::linear::lemma_nudged_still(cell.enter, variance, after.enter);
    crate::linear::lemma_nudged_still(cell.exit, variance, after.exit);
    crate::linear::lemma_nudged_still(cell.recurse, variance, after.recurse);
}

/// The degrees of freedom of a consistent cell are the sum of those of its
/// six blocks, each the literal count of its parameters; in the three
/// dimensions: `input * memory + memory` for `enter` and its bias,
/// `memory * output + output` for `exit` and its bias, `memory * memory` for
/// `recurse`, and `memory` for the initial memory.
pub proof fn lemma_dof_by_dimensions<T: Scalar>(cell: Weights<T>)
    requires
        cell.wf(),
    ensures
        cell.dof() == cell.enter.dof() + cell.enter_bias.len() + cell.exit.dof()
            + cell.exit_bias.len() + cell.recurse.dof() + cell.initial_memory.len(),
        cell.enter.dof() == cell.input_dim() * cell.memory_dim(),
        cell.exit.dof() == cell.memory_dim() * cell.output_dim(),
        cell.recurse.dof() == cell.memory_dim() * cell.memory_dim(),
        cell.dof() == cell.input_dim() * cell.memory_dim() + cell.memory_dim() + cell.memory_dim()
            * cell.output_dim() + cell.output_dim() + cell.memory_dim() * cell.memory_dim()
            + cell.memory_dim(),
{
}

/// The three dimensions of a recurrent cell.
#[derive(Clone, Copy, Debug, PartialEq, Eq, Structural)]
pub struct Sizes {
    pub input: usize,
    pub output: usize,
    pub memory: usize,
}

/// What governs one mutation of a recurrent cell.
#[derive(Debug)]
pub struct Rate<T> {
    /// The variance of the draw added to every parameter.
    pub variance: T,
    /// How often the memory dimension is resized.
    pub resize: ResizeRate,
}

impl<T: Scalar> Rate<T> {
    /// The rate of the given parts, or `None` where `variance` fails the
    /// test of a variance.
    pub fn new(variance: T, resize: ResizeRate) -> (rate: Option<Self>)
        ensures
            rate is Some ==> is_variance(variance),
            rate is None ==> call_ensures(T::is_variance, (variance,), false),
            rate matches Some(r) ==> r.variance == variance && r.resize == resize,
    {
        if variance.is_variance() {
            Some(Self { variance, resize })
        } else {
            None
        }
    }
}

/// A recurrent cell: one step takes an input and a memory to an output and
/// the next memory. The memory dimension is the only one that mutation
/// changes.
#[derive(Debug)]
pub struct Recurrent<T> {
    initial_memory: Vector<T>,
    enter: Linear<T>,
    enter_bias: Bias<T>,
    exit: Linear<T>,
    exit_bias: Bias<T>,
    recurse: Linear<T>,
}

impl<T> View for Recurrent<T> {
    type V = Weights<T>;

    closed spec fn view(&self) -> Weights<T> {
        Weights {
            initial_memory: self.initial_memory@,
            enter: self.enter@,
            enter_bias: self.enter_bias@,
            exit: self.exit@,
            exit_bias: self.exit_bias@,
            recurse: self.recurse@,
        }
    }
}

impl<T: Scalar> Recurrent<T> {
    /// The cell of the given dimensions whose parameters are all zero.
    pub fn new(memory_size: usize, input_size: usize, output_size: usize) -> (cell: Self)
        ensures
            cell@.wf(),
            cell@.memory_dim() == memory_size,
            cell@.input_dim() == input_size,
            cell@.output_dim() == output_size,
            cell@.is_zero(),
    {
        Self {
            initial_memory: Vector::zeros(memory_size),
            enter: Linear::new(input_size, memory_size),
            enter_bias: Bias::new(memory_size),
            exit: Linear::new(memory_size, output_size),
            exit_bias: Bias::new(output_size),
            recurse: Linear::new(memory_size, memory_size),
        }
    }

    /// The cell of the given six blocks, or `None` where their dimensions do
    /// not agree.
    pub fn from_parts(
        initial_memory: Vector<T>,
        enter: Linear<T>,
        enter_bias: Bias<T>,
        exit: Linear<T>,
        exit_bias: Bias<T>,
        recurse: Linear<T>,
    ) -> (cell: Option<Self>)
        requires
            enter@.wf(),
            exit@.wf(),
            recurse@.wf(),
        ensures
            cell is Some <==> (Weights {
                initial_memory: initial_memory@,
                enter: enter@,
                enter_bias: enter_bias@,
                exit: exit@,
                exit_bias: exit_bias@,
                recurse: recurse@,
            }).wf(),
            cell matches Some(c) ==> c@ == (Weights {
                initial_memory: initial_memory@,
                enter: enter@,
                enter_bias: enter_bias@,
                exit: exit@,
                exit_bias: exit_bias@,
                recurse: recurse@,
            }),
    {
        let memory = initial_memory.len();
        let consistent = enter.sizes().1 == memory && recurse.sizes().0 == memory
            && recurse.sizes().1 == memory && exit.sizes().0 == memory && enter_bias.size()
            == memory && exit_bias.size() == exit.sizes().1;
        if consistent {
            Some(Self { initial_memory, enter, enter_bias, exit, exit_bias, recurse })
        } else {
            None
        }
    }

    /// The dimensions of the cell.
    pub fn sizes(&self) -> (sizes: Sizes)
        ensures
            sizes.input == self@.input_dim(),
            sizes.output == self@.output_dim(),
            sizes.memory == self@.memory_dim(),
    {
        Sizes {
            input: self.enter.sizes().0,
            output: self.exit.sizes().1,
            memory: self.initial_memory.len(),
        }
    }

    /// The memory that a run of the cell starts from.
    pub fn initial_memory(&self) -> (memory: &Vector<T>)
        ensures
            memory@ == self@.initial_memory,
    {
        &self.initial_memory
    }

    /// Resizes the input dimension.
    pub fn resize_input(&mut self, action: ResizeAction)
        requires
            old(self)@.wf(),
            action.fits(old(self)@.input_dim()),
        ensures
            final(self)@.wf(),
            old(self)@.input_resized(action, final(self)@),
    {
        self.enter.resize_input(action);
    }

    /// Resizes the output dimension, of `exit` and of its bias alike.
    pub fn resize_output(&mut self, action: ResizeAction)
        requires
            old(self)@.wf(),
            action.fits(old(self)@.output_dim()),
            action is Add ==> old(self)@.output_dim() < usize::MAX,
        ensures
            final(self)@.wf(),
            old(self)@.output_resized(action, final(self)@),
    {
        self.exit.resize_output(action);
        self.exit_bias.resize(action);
    }

    /// Resizes the memory dimension, by the same action on every block that
    /// carries it, so that the blocks stay aligned.
    pub fn resize_memory(&mut self, action: ResizeAction)
        requires
            old(self)@.wf(),
            action.fits(old(self)@.memory_dim()),
        ensures
            final(self)@.wf(),
            old(self)@.memory_resized(action, final(self)@),
            final(self)@.memory_dim() == action.resize_len(old(self)@.memory_dim()),
            final(self)@.input_dim() == old(self)@.input_dim(),
            final(self)@.output_dim() == old(self)@.output_dim(),
    {
        self.initial_memory.resize(action);
        self.enter.resize_output(action);
        self.enter_bias.resize(action);
        self.exit.resize_input(action);
        self.recurse.resize_input(action);
        let ghost mid = self.recurse@;
        self.recurse.resize_output(action);
        assert(old(self)@.recurse.input_resized(action, mid));
    }
}

impl<T: Scalar> Clone for Recurrent<T> {
    fn clone(&self) -> (copy: Self)
        ensures
            copy@ == self@,
    {
        Self {
            initial_memory: self.initial_memory.clone(),
            enter: self.enter.clone(),
            enter_bias: self.enter_bias.clone(),
            exit: self.exit.clone(),
            exit_bias: self.exit_bias.clone(),
            recurse: self.recurse.clone(),
        }
    }
}

impl<T: Scalar> Layer for Recurrent<T> {
    /// The input and the memory.
    type Input = (Vector<T>, Vector<T>);

    /// The output and the new memory.
    type Output = (Vector<T>, Vector<T>);

    open spec fn accepts(&self, input: (Vector<T>, Vector<T>)) -> bool {
        &&& self@.wf()
        &&& input.0@.len() == self@.input_dim()
        &&& input.1@.len() == self@.memory_dim()
    }

    open spec fn maps(&self, input: (Vector<T>, Vector<T>), output: (Vector<T>, Vector<T>)) -> bool {
        &&& output.0@.len() == self@.output_dim()
        &&& output.1@.len() == self@.memory_dim()
        &&& self@.forward(input.0@, input.1@, output.0@, output.1@)
    }

    /// One step of the cell:
    /// `new_memory = tanh(enter(input) + recurse(memory) + enter_bias)`, then
    /// `output = tanh(exit(new_memory) + exit_bias)`.
    fn process(&self, input: (Vector<T>, Vector<T>)) -> (output: (Vector<T>, Vector<T>)) {
        let (input, memory) = input;
        let entered = input.apply(&self.enter);
        let recalled = memory.apply(&self.recurse);
        let mixed = entered.add(&recalled);
        let biased = mixed.apply(&self.enter_bias);
        let new_memory = biased.apply(&Tanh::new());
        assert(self@.remembers_by(
            input@,
            memory@,
            entered@,
            recalled@,
            mixed@,
            biased@,
            new_memory@,
        ));

        let left = new_memory.clone().apply(&self.exit);
        let shifted = left.apply(&self.exit_bias);
        let output = shifted.apply(&Tanh::new());
        assert(self@.reads_out_by(new_memory@, left@, shifted@, output@));

        (output, new_memory)
    }
}

impl<T: Scalar> Variable for Recurrent<T> {
    type Rate = Rate<T>;

    open spec fn wf(&self) -> bool {
        self@.wf()
    }

    open spec fn dof_spec(&self) -> nat {
        self@.dof()
    }

    open spec fn admits(rate: &Rate<T>) -> bool {
        is_variance(rate.variance)
    }

    open spec fn varied(&self, rate: &Rate<T>, after: &Self) -> bool {
        self@.varied(rate.resize, rate.variance, after@)
    }

    /// One mutation: first the structural decision is drawn and, if a resize
    /// is selected, applied to the memory dimension; then every parameter is
    /// perturbed, in the order initial memory, `enter`, its bias, `exit`,
    /// its bias, `recurse`.
    ///
    /// Whatever is drawn, the shape invariant holds afterwards, the input and
    /// the output dimension are unchanged, and the memory dimension has moved
    /// by at most one.
    fn variate(&mut self, rate: &Rate<T>, rng: &mut Pcg64)
        ensures
            final(self)@.wf(),
            final(self)@.input_dim() == old(self)@.input_dim(),
            final(self)@.output_dim() == old(self)@.output_dim(),
            rate.resize.is_never() ==> final(self)@.memory_dim() == old(self)@.memory_dim(),
            rate.resize.is_always() ==> final(self)@.memory_dim() != old(self)@.memory_dim(),
            ({
                let before = old(self)@.memory_dim();
                let after = final(self)@.memory_dim();
                after == before || after == before + 1 || after + 1 == before
            }),
    {
        if let Some(action) = rate.resize.sample(rng, self.sizes().memory) {
            self.resize_memory(action);
        }
        let ghost mid = self@;
        assert(old(self)@.restructured(rate.resize, mid));

        self.initial_memory.variate(&rate.variance, rng);
        self.enter.variate(&rate.variance, rng);
        self.enter_bias.variate(&rate.variance, rng);
        self.exit.variate(&rate.variance, rng);
        self.exit_bias.variate(&rate.variance, rng);
        self.recurse.variate(&rate.variance, rng);
        assert(mid.nudged(rate.variance, self@));
    }

    /// The number of parameters: the sum over the six blocks.
    fn dof(&self) -> (count: usize) {
        self.initial_memory.dof() + self.enter.dof() + self.enter_bias.dof() + self.exit.dof()
            + self.exit_bias.dof() + self.recurse.dof()
    }
}

} // verus!
