use crate::layer::Layer;
use crate::resize::ResizeAction;
use crate::scalar::{
    all_zero, dot_trace, functional, is_dot, is_nudge, is_step, is_sum, is_variance,
    lemma_dot_unique, nudged, Scalar,
};
use crate::variable::Variable;
use crate::vector::{copy_of, nudge_of, resize_of, resized, zeros_of, Vector};
use rand_pcg::Pcg64;
use vstd::prelude::*;

verus! {

/// The mathematical content of a linear layer: a rectangular array with one
/// row for each input index and one column for each output index. The width
/// is kept beside the rows, because an array without rows still has one.
pub struct Matrix<T> {
    pub rows: Seq<Seq<T>>,
    pub width: nat,
}

impl<T: Scalar> Matrix<T> {
    /// Every row has the width of the array.
    pub open spec fn wf(self) -> bool {
        forall|i: int| 0 <= i < self.rows.len() ==> (#[trigger] self.rows[i]).len() == self.width
    }

    /// The number of rows: the input dimension.
    pub open spec fn height(self) -> nat {
        self.rows.len()
    }

    /// The number of entries.
    pub open spec fn dof(self) -> nat {
        self.rows.len() * self.width
    }

    /// Column `j`, from the first row down: the weights that feed output `j`.
    pub open spec fn column(self, j: int) -> Seq<T> {
        Seq::new(self.rows.len(), |i: int| self.rows[i][j])
    }

    /// Every entry is a zero.
    pub open spec fn is_zero(self) -> bool {
        forall|i: int| 0 <= i < self.rows.len() ==> all_zero(#[trigger] self.rows[i])
    }

    /// `y` is the array applied to `x`: output `j` is the dot product of
    /// column `j` with `x`, `y[j] = rows[0][j] * x[0] + rows[1][j] * x[1] + ..`.
    pub open spec fn applies(self, x: Seq<T>, y: Seq<T>) -> bool {
        &&& x.len() == self.rows.len()
        &&& y.len() == self.width
        &&& forall|j: int| 0 <= j < self.width ==> is_dot(self.column(j), x, #[trigger] y[j])
    }

    /// `after` is the array with its input dimension resized by `action`: a
    /// row of zeros added below, or the row of the given index taken out.
    pub open spec fn input_resized(self, action: ResizeAction, after: Matrix<T>) -> bool {
        &&& after.width == self.width
        &&& match action {
            ResizeAction::Add => {
                &&& after.rows.len() == self.rows.len() + 1
                &&& after.rows.drop_last() == self.rows
                &&& after.rows.last().len() == self.width
                &&& all_zero(after.rows.last())
            },
            ResizeAction::Remove(index) => {
                &&& index < self.rows.len()
                &&& after.rows == self.rows.remove(index as int)
            },
        }
    }

    /// `after` is the array with its output dimension resized by `action`: a
    /// zero added at the end of every row, or the entry of the given index
    /// taken out of every row.
    pub open spec fn output_resized(self, action: ResizeAction, after: Matrix<T>) -> bool {
        &&& action.fits(self.width)
        &&& after.width == action.resize_len(self.width)
        &&& after.rows.len() == self.rows.len()
        &&& forall|i: int|
            0 <= i < self.rows.len() ==> resized(self.rows[i], action, #[trigger] after.rows[i])
    }

    /// `after` is the array with an independent draw of the given variance
    /// added to every entry.
    pub open spec fn nudged(self, variance: T, after: Matrix<T>) -> bool {
        &&& after.width == self.width
        &&& after.rows.len() == self.rows.len()
        &&& forall|i: int|
            0 <= i < self.rows.len() ==> nudged(variance, self.rows[i], #[trigger] after.rows[i])
    }
}

/// Over functional arithmetic a matrix takes an input to one output.
pub proof fn lemma_applies_unique<T: Scalar>(m: Matrix<T>, x: Seq<T>, y1: Seq<T>, y2: Seq<T>)
    requires
        functional::<T>(),
        m.applies(x, y1),
        m.applies(x, y2),
    ensures
        y1 == y2,
{
    assert forall|j: int| 0 <= j < y1.len() implies y1[j] == y2[j] by {
        lemma_dot_unique(m.column(j), x, y1[j], y2[j]);
    }
    assert(y1 =~= y2);
}

/// Resizing the input dimension keeps every row at the width of the matrix,
/// and changes the height as the action says.
pub proof fn lemma_input_resized_shape<T: Scalar>(
    m: Matrix<T>,
    action: ResizeAction,
    after: Matrix<T>,
)
    requires
        m.wf(),
        m.input_resized(action, after),
    ensures
        after.wf(),
        after.width == m.width,
        after.height() == action.resize_len(m.height()),
{
    assert forall|i: int| 0 <= i < after.rows.len() implies (#[trigger] after.rows[i]).len()
        == after.width by {
        match action {
            ResizeAction::Add => {
                if i < m.rows.len() {
                    assert(after.rows[i] == after.rows.drop_last()[i]);
                    assert(m.rows[i].len() == m.width);
                }
            },
            ResizeAction::Remove(index) => {
                if i < index {
                    assert(m.rows[i].len() == m.width);
                } else {
                    assert(m.rows[i + 1].len() == m.width);
                }
            },
        }
    }
}

/// Resizing the output dimension keeps every row at the new width of the
/// matrix, and keeps the height.
pub proof fn lemma_output_resized_shape<T: Scalar>(
    m: Matrix<T>,
    action: ResizeAction,
    after: Matrix<T>,
)
    requires
        m.wf(),
        m.output_resized(action, after),
    ensures
        after.wf(),
        after.width == action.resize_len(m.width),
        after.height() == m.height(),
{
    assert forall|i: int| 0 <= i < after.rows.len() implies (#[trigger] after.rows[i]).len()
        == after.width by {
        assert(resized(m.rows[i], action, after.rows[i]));
        assert(m.rows[i].len() == m.width);
    }
}

/// Perturbing the entries keeps the shape of the matrix.
pub proof fn lemma_nudged_shape<T: Scalar>(m: Matrix<T>, variance: T, after: Matrix<T>)
    requires
        m.wf(),
        m.nudged(variance, after),
    ensures
        after.wf(),
        after.width == m.width,
        after.height() == m.height(),
{
    assert forall|i: int| 0 <= i < after.rows.len() implies (#[trigger] after.rows[i]).len()
        == after.width by {
        assert(nudged(variance, m.rows[i], after.rows[i]));
        assert(m.rows[i].len() == m.width);
    }
}

/// Where a draw of the given variance added to a scalar never changes it,
/// perturbing a matrix leaves it as it was.
pub proof fn lemma_nudged_still<T: Scalar>(m: Matrix<T>, variance: T, after: Matrix<T>)
    requires
        forall|x: T, y: T| #[trigger] is_nudge(variance, x, y) ==> y == x,
        m.nudged(variance, after),
    ensures
        after == m,
{
    assert forall|i: int| 0 <= i < m.rows.len() implies after.rows[i] == m.rows[i] by {
        assert(nudged(variance, m.rows[i], after.rows[i]));
        crate::scalar::lemma_nudged_still(variance, m.rows[i], after.rows[i]);
    }
    assert(after.rows =~= m.rows);
}

/// A linear layer: multiplies its input by a matrix of weights, with no bias.
#[derive(Debug)]
pub struct Linear<T> {
    rows: Vec<Vec<T>>,
    cols: usize,
}

impl<T> View for Linear<T> {
    type V = Matrix<T>;

    closed spec fn view(&self) -> Matrix<T> {
        Matrix { rows: self.rows@.map_values(|row: Vec<T>| row@), width: self.cols as nat }
    }
}

impl<T: Scalar> Linear<T> {
    /// The layer from `input_size` inputs to `output_size` outputs whose
    /// weights are all zero.
    pub fn new(input_size: usize, output_size: usize) -> (layer: Self)
        ensures
            layer@.wf(),
            layer@.height() == input_size,
            layer@.width == output_size,
            layer@.is_zero(),
    {
        let mut rows: Vec<Vec<T>> = Vec::new();
        let mut i: usize = 0;
        while i < input_size
            invariant
                i <= input_size,
                rows@.len() == i,
                forall|k: int|
                    0 <= k < i ==> (#[trigger] rows@[k])@.len() == output_size && all_zero(
                        rows@[k]@,
                    ),
            decreases input_size - i,
        {
            rows.push(zeros_of(output_size));
            i += 1;
        }
        Self { rows, cols: output_size }
    }

    /// The input and the output dimension.
    pub fn sizes(&self) -> (sizes: (usize, usize))
        ensures
            sizes.0 == self@.height(),
            sizes.1 == self@.width,
    {
        (self.rows.len(), self.cols)
    }

    /// The weight from input `i` to output `j`.
    pub fn get(&self, i: usize, j: usize) -> (weight: T)
        requires
            self@.wf(),
            i < self@.height(),
            j < self@.width,
        ensures
            weight == self@.rows[i as int][j as int],
    {
        assert(self@.rows[i as int].len() == self@.width);
        self.rows[i][j]
    }

    /// Replaces the weight from input `i` to output `j`.
    pub fn set(&mut self, i: usize, j: usize, weight: T)
        requires
            old(self)@.wf(),
            i < old(self)@.height(),
            j < old(self)@.width,
        ensures
            final(self)@.wf(),
            final(self)@.width == old(self)@.width,
            final(self)@.rows == old(self)@.rows.update(
                i as int,
                old(self)@.rows[i as int].update(j as int, weight),
            ),
    {
        assert(self@.rows[i as int].len() == self@.width);
        self.rows[i].set(j, weight);
        assert(self@.rows =~= old(self)@.rows.update(
            i as int,
            old(self)@.rows[i as int].update(j as int, weight),
        ));
        assert forall|k: int| 0 <= k < self@.rows.len() implies (#[trigger] self@.rows[k]).len()
            == self@.width by {
            assert(old(self)@.rows[k].len() == old(self)@.width);
        }
    }

    fn resize(&mut self, index: bool, action: ResizeAction)
        requires
            old(self)@.wf(),
            action.fits(if index { old(self)@.width } else { old(self)@.height() }),
            index && action is Add ==> old(self)@.width < usize::MAX,
        ensures
            final(self)@.wf(),
            index ==> old(self)@.output_resized(action, final(self)@),
            !index ==> old(self)@.input_resized(action, final(self)@),
    {
        if index {
            let mut i: usize = 0;
            while i < self.rows.len()
                invariant
                    i <= self.rows@.len(),
                    self.rows@.len() == old(self).rows@.len(),
                    self.cols == old(self).cols,
                    old(self)@.wf(),
                    action.fits(old(self)@.width),
                    forall|k: int|
                        0 <= k < i ==> resized(
                            old(self).rows@[k]@,
                            action,
                            (#[trigger] self.rows@[k])@,
                        ),
                    forall|k: int| i <= k < self.rows@.len() ==> self.rows@[k] == old(self).rows@[k],
                decreases self.rows@.len() - i,
            {
                assert(old(self)@.rows[i as int].len() == old(self).cols);
                resize_of(&mut self.rows[i], action);
                i += 1;
            }
            match action {
                ResizeAction::Add => {
                    self.cols = self.cols + 1;
                },
                ResizeAction::Remove(_) => {
                    self.cols = self.cols - 1;
                },
            }
            assert forall|k: int| 0 <= k < self@.rows.len() implies (#[trigger] self@.rows[k]).len()
                == self@.width by {
                assert(resized(old(self).rows@[k]@, action, self.rows@[k]@));
                assert(old(self)@.rows[k].len() == old(self).cols);
            }
            assert forall|k: int| 0 <= k < old(self)@.rows.len() implies resized(
                old(self)@.rows[k],
                action,
                #[trigger] self@.rows[k],
            ) by {
                assert(resized(old(self).rows@[k]@, action, self.rows@[k]@));
            }
        } else {
            match action {
                ResizeAction::Add => {
                    self.rows.push(zeros_of(self.cols));
                    assert(self@.rows.drop_last() =~= old(self)@.rows);
                    assert forall|k: int| 0 <= k < self@.rows.len() implies (
                    #[trigger] self@.rows[k]).len() == self@.width by {
                        if k < old(self)@.rows.len() {
                            assert(old(self)@.rows[k].len() == old(self)@.width);
                        }
                    }
                },
                ResizeAction::Remove(i) => {
                    self.rows.remove(i);
                    assert(self@.rows =~= old(self)@.rows.remove(i as int));
                    assert forall|k: int| 0 <= k < self@.rows.len() implies (
                    #[trigger] self@.rows[k]).len() == self@.width by {
                        if k < i {
                            assert(old(self)@.rows[k].len() == old(self)@.width);
                        } else {
                            assert(old(self)@.rows[k + 1].len() == old(self)@.width);
                        }
                    }
                },
            }
        }
    }

    /// Resizes the input dimension: adds a row of zero weights for a new last
    /// input, or removes the weights of the input of the given index.
    pub fn resize_input(&mut self, action: ResizeAction)
        requires
            old(self)@.wf(),
            action.fits(old(self)@.height()),
        ensures
            final(self)@.wf(),
            old(self)@.input_resized(action, final(self)@),
    {
        self.resize(false, action);
    }

    /// Resizes the output dimension: adds a zero weight from every input to a
    /// new last output, or removes the weights of the output of the given
    /// index.
    pub fn resize_output(&mut self, action: ResizeAction)
        requires
            old(self)@.wf(),
            action.fits(old(self)@.width),
            action is Add ==> old(self)@.width < usize::MAX,
        ensures
            final(self)@.wf(),
            old(self)@.output_resized(action, final(self)@),
    {
        self.resize(true, action);
    }
}

impl<T: Scalar> Clone for Linear<T> {
    fn clone(&self) -> (copy: Self)
        ensures
            copy@ == self@,
    {
        let mut rows: Vec<Vec<T>> = Vec::new();
        let mut i: usize = 0;
        while i < self.rows.len()
            invariant
                i <= self.rows@.len(),
                rows@.len() == i,
                forall|k: int| 0 <= k < i ==> (#[trigger] rows@[k])@ == self.rows@[k]@,
            decreases self.rows@.len() - i,
        {
            rows.push(copy_of(&self.rows[i]));
            i += 1;
        }
        let copy = Self { rows, cols: self.cols };
        assert(copy@.rows =~= self@.rows);
        copy
    }
}

impl<T: Scalar> Layer for Linear<T> {
    type Input = Vector<T>;

    type Output = Vector<T>;

    open spec fn accepts(&self, input: Vector<T>) -> bool {
        self@.wf() && input@.len() == self@.height()
    }

    open spec fn maps(&self, input: Vector<T>, output: Vector<T>) -> bool {
        self@.applies(input@, output@)
    }

    /// Multiplies `input` by the weights: output `j` is the sum over the
    /// inputs `i`, from the first up, of the weight from `i` to `j` times
    /// input `i`.
    fn process(&self, input: Vector<T>) -> (output: Vector<T>) {
        let mut data: Vec<T> = Vec::new();
        let mut j: usize = 0;
        while j < self.cols
            invariant
                self@.wf(),
                input@.len() == self@.height(),
                j <= self.cols,
                data@.len() == j,
                forall|c: int| 0 <= c < j ==> is_dot(self@.column(c), input@, #[trigger] data@[c]),
            decreases self.cols - j,
        {
            let mut acc = T::zero();
            let ghost column = self@.column(j as int);
            let ghost mut trace = seq![acc];
            let mut i: usize = 0;
            while i < self.rows.len()
                invariant
                    self@.wf(),
                    input@.len() == self@.height(),
                    j < self.cols,
                    column == self@.column(j as int),
                    i <= self.rows@.len(),
                    trace.len() == i + 1,
                    trace.last() == acc,
                    dot_trace(column.take(i as int), input@.take(i as int), trace),
                decreases self.rows@.len() - i,
            {
                assert(self@.rows[i as int].len() == self.cols);
                let product = self.rows[i][j].mul(input.data[i]);
                let next = acc.add(product);
                proof {
                    let grown = trace.push(next);
                    let w = column.take(i + 1);
                    let x = input@.take(i + 1);
                    assert forall|k: int| 0 <= k < w.len() implies is_step(
                        w[k],
                        x[k],
                        #[trigger] grown[k],
                        grown[k + 1],
                    ) by {
                        if k < i {
                            assert(is_step(
                                column.take(i as int)[k],
                                input@.take(i as int)[k],
                                trace[k],
                                trace[k + 1],
                            ));
                        } else {
                            assert(is_sum(acc, product, next));
                        }
                    }
                    trace = grown;
                }
                acc = next;
                i += 1;
            }
            proof {
                assert(column.take(i as int) =~= column);
                assert(input@.take(i as int) =~= input@);
                assert(dot_trace(column, input@, trace));
            }
            data.push(acc);
            j += 1;
        }
        Vector::new(data)
    }
}

impl<T: Scalar> Variable for Linear<T> {
    /// The variance of the draws.
    type Rate = T;

    open spec fn wf(&self) -> bool {
        self@.wf()
    }

    open spec fn admits(rate: &T) -> bool {
        is_variance(*rate)
    }

    open spec fn dof_spec(&self) -> nat {
        self@.dof()
    }

    open spec fn varied(&self, rate: &T, after: &Self) -> bool {
        self@.nudged(*rate, after@)
    }

    /// Adds an independent draw of variance `rate` to every weight, row by
    /// row.
    fn variate(&mut self, rate: &T, rng: &mut Pcg64) {
        let mut i: usize = 0;
        while i < self.rows.len()
            invariant
                is_variance(*rate),
                i <= self.rows@.len(),
                self.rows@.len() == old(self).rows@.len(),
                self.cols == old(self).cols,
                forall|k: int|
                    0 <= k < i ==> nudged(*rate, old(self).rows@[k]@, (#[trigger] self.rows@[k])@),
                forall|k: int| i <= k < self.rows@.len() ==> self.rows@[k] == old(self).rows@[k],
            decreases self.rows@.len() - i,
        {
            nudge_of(&mut self.rows[i], *rate, rng);
            i += 1;
        }
        assert forall|k: int| 0 <= k < old(self)@.rows.len() implies nudged(
            *rate,
            old(self)@.rows[k],
            #[trigger] self@.rows[k],
        ) by {
            assert(nudged(*rate, old(self).rows@[k]@, self.rows@[k]@));
        }
        assert forall|k: int| 0 <= k < self@.rows.len() implies (#[trigger] self@.rows[k]).len()
            == self@.width by {
            assert(nudged(*rate, old(self).rows@[k]@, self.rows@[k]@));
            assert(old(self)@.rows[k].len() == old(self)@.width);
        }
    }

    /// The number of weights: input dimension times output dimension.
    fn dof(&self) -> (count: usize) {
        self.rows.len() * self.cols
    }
}

} // verus!
