//! The two quantities that are computed rather than read: the time elapsed
//! before each sample, and the homogeneous transform between the vehicle and
//! camera frames.

use vstd::prelude::*;
use crate::binary64::{ONE, ZERO};
use crate::error::EstimationError;
use crate::tensor::{lemma_one_axis, lemma_two_axes, Tensor, TensorView};

verus! {

/// Whether the axis lengths are those of a single row.
pub open spec fn is_row(dims: Seq<usize>) -> bool {
    dims.len() == 2 && dims[0] == 1
}

/// Whether `steps` are the time steps of `timestamps` under `difference`:
/// one step per timestamp, the first of them zero, every other one a result
/// of `difference` applied to its timestamp and the one before.
pub open spec fn time_deltas<F: Fn(u64, u64) -> u64>(
    difference: F,
    timestamps: Seq<u64>,
    steps: Seq<u64>,
) -> bool {
    &&& steps.len() == timestamps.len()
    &&& timestamps.len() > 0 ==> steps[0] == ZERO
    &&& forall|i: int|
        0 < i < timestamps.len() ==> call_ensures(
            difference,
            (timestamps[i], timestamps[i - 1]),
            #[trigger] steps[i],
        )
}

/// The time steps depend on the timestamps alone: under a `difference` that
/// gives one result for each pair of arguments, the same timestamps have the
/// same time steps.
pub proof fn lemma_time_deltas_are_unique<F: Fn(u64, u64) -> u64>(
    difference: F,
    timestamps: Seq<u64>,
    first: Seq<u64>,
    second: Seq<u64>,
)
    requires
        time_deltas(difference, timestamps, first),
        time_deltas(difference, timestamps, second),
        forall|a: u64, b: u64, x: u64, y: u64|
            call_ensures(difference, (a, b), x) && call_ensures(difference, (a, b), y) ==> x == y,
    ensures
        first == second,
{
    assert forall|i: int| 0 <= i < timestamps.len() implies first[i] == second[i] by {
        if i > 0 {
            assert(call_ensures(difference, (timestamps[i], timestamps[i - 1]), first[i]));
            assert(call_ensures(difference, (timestamps[i], timestamps[i - 1]), second[i]));
        }
    }
    assert(first =~= second);
}

/// Derives the time steps of a row of `N` timestamps: a tensor with the one
/// axis of length `N` whose first element is zero and whose `i`-th element
/// is `difference(t[i], t[i - 1])`. The length of the row drives the
/// derivation. Fails with a parse error when `timestamps` is not a row.
///
/// The library does no floating-point arithmetic, so the caller supplies
/// `difference`: the subtraction of two doubles given as bit patterns.
pub fn time_steps<F: Fn(u64, u64) -> u64>(timestamps: &Tensor, difference: F) -> (outcome: Result<
    Tensor,
    EstimationError,
>)
    requires
        forall|a: u64, b: u64| call_requires(difference, (a, b)),
    ensures
        match outcome {
            Ok(steps) => {
                &&& is_row(timestamps@.dims)
                &&& steps@.dims == seq![timestamps@.dims[1]]
                &&& time_deltas(difference, timestamps@.elements, steps@.elements)
                &&& steps@.consistent()
            },
            Err(error) => error == EstimationError::ParseError && !is_row(timestamps@.dims),
        },
{
    let dims = timestamps.shape();
    if dims.len() != 2 || dims[0] != 1 {
        return Err(EstimationError::ParseError);
    }
    let n = dims[1];
    proof {
        assert(timestamps@.dims =~= seq![1usize, n]);
        lemma_two_axes(1, n, 0, 0);
    }
    let mut steps: Vec<u64> = Vec::new();
    let mut i: usize = 0;
    while i < n
        invariant
            i <= n,
            timestamps@.dims == seq![1usize, n],
            timestamps@.elements.len() == n,
            steps@.len() == i,
            i > 0 ==> steps@[0] == ZERO,
            forall|a: u64, b: u64| call_requires(difference, (a, b)),
            forall|k: int|
                0 < k < i ==> call_ensures(
                    difference,
                    (timestamps@.elements[k], timestamps@.elements[k - 1]),
                    #[trigger] steps@[k],
                ),
        decreases n - i,
    {
        if i == 0 {
            steps.push(ZERO);
        } else {
            proof {
                lemma_two_axes(1, n, 0, i);
                lemma_two_axes(1, n, 0, (i - 1) as usize);
            }
            let later = timestamps.get([0, i].as_slice()).unwrap();
            let earlier = timestamps.get([0, i - 1].as_slice()).unwrap();
            let step = difference(later, earlier);
            steps.push(step);
        }
        i += 1;
    }
    let shape = [n];
    proof {
        lemma_two_axes(1, n, 0, 0);
        lemma_one_axis(n, 0);
        assert(shape@ =~= seq![n]);
    }
    let built = Tensor::from_column_major(shape.as_slice(), steps);
    Ok(built.unwrap())
}

/// The entry in row `row` and column `column` of the transform assembled
/// from a 3×3 rotation and a 3×1 translation.
pub open spec fn transform_entry(
    rotation: TensorView,
    translation: TensorView,
    row: int,
    column: int,
) -> u64 {
    if row < 3 && column < 3 {
        rotation.elements[row + 3 * column]
    } else if row < 3 {
        translation.elements[row]
    } else if column < 3 {
        ZERO
    } else {
        ONE
    }
}

/// The 4×4 homogeneous transform assembled from a 3×3 rotation and a 3×1
/// translation.
pub open spec fn transform_of(rotation: TensorView, translation: TensorView) -> TensorView {
    TensorView {
        dims: seq![4usize, 4usize],
        elements: Seq::new(
            16,
            |k: int| transform_entry(rotation, translation, k % 4, k / 4),
        ),
    }
}

/// Whether the two tensors are a 3×3 rotation and a 3×1 translation.
pub open spec fn transform_inputs(rotation: TensorView, translation: TensorView) -> bool {
    rotation.dims == seq![3usize, 3usize] && translation.dims == seq![3usize, 1usize]
}

/// Assembles the 4×4 homogeneous transform
///
/// ```text
/// | C  rho |
/// | 0   1  |
/// ```
///
/// from the rotation `C` (3×3) and the translation `rho` (3×1). The
/// translation is taken as stored: it is the position of the camera origin
/// expressed in the vehicle frame, neither negated nor rotated. Fails with a
/// parse error when either input has another shape.
pub fn homogeneous_transform(rotation: &Tensor, translation: &Tensor) -> (outcome: Result<
    Tensor,
    EstimationError,
>)
    ensures
        match outcome {
            Ok(transform) => transform_inputs(rotation@, translation@) && transform@
                == transform_of(rotation@, translation@) && transform@.consistent(),
            Err(error) => error == EstimationError::ParseError && !transform_inputs(
                rotation@,
                translation@,
            ),
        },
{
    if !rotation.has_shape([3, 3].as_slice()) || !translation.has_shape([3, 1].as_slice()) {
        return Err(EstimationError::ParseError);
    }
    proof {
        lemma_two_axes(3, 3, 0, 0);
        lemma_two_axes(3, 1, 0, 0);
        lemma_two_axes(4, 4, 0, 0);
    }
    let mut entries: Vec<u64> = Vec::new();
    let mut k: usize = 0;
    while k < 16
        invariant
            k <= 16,
            entries@.len() == k,
            rotation@.dims == seq![3usize, 3usize],
            translation@.dims == seq![3usize, 1usize],
            rotation@.elements.len() == 9,
            translation@.elements.len() == 3,
            forall|m: int|
                0 <= m < k ==> #[trigger] entries@[m] == transform_entry(
                    rotation@,
                    translation@,
                    m % 4,
                    m / 4,
                ),
        decreases 16 - k,
    {
        let row: usize = k % 4;
        let column: usize = k / 4;
        let entry = if row < 3 && column < 3 {
            proof {
                lemma_two_axes(3, 3, row, column);
            }
            rotation.get([row, column].as_slice()).unwrap()
        } else if row < 3 {
            proof {
                lemma_two_axes(3, 1, row, 0);
            }
            translation.get([row, 0].as_slice()).unwrap()
        } else if column < 3 {
            ZERO
        } else {
            ONE
        };
        entries.push(entry);
        k += 1;
    }
    assert(entries@ =~= transform_of(rotation@, translation@).elements);
    let built = Tensor::from_column_major([4, 4].as_slice(), entries);
    Ok(built.unwrap())
}

/// The blocks of the assembled transform: its upper-left 3×3 block is the
/// rotation, its upper-right 3×1 block is the translation, and its last row
/// is `0 0 0 1`.
pub proof fn lemma_transform_blocks(rotation: TensorView, translation: TensorView)
    requires
        transform_inputs(rotation, translation),
    ensures
        forall|i: usize, j: usize|
            i < 3 && j < 3 ==> #[trigger] transform_of(rotation, translation).cell(i, j)
                == rotation.cell(i, j),
        forall|i: usize|
            i < 3 ==> #[trigger] transform_of(rotation, translation).cell(i, 3) == translation.cell(
                i,
                0,
            ),
        forall|j: usize| j < 3 ==> #[trigger] transform_of(rotation, translation).cell(3, j) == ZERO,
        transform_of(rotation, translation).cell(3, 3) == ONE,
{
    let transform = transform_of(rotation, translation);
    assert forall|i: usize, j: usize| i < 3 && j < 3 implies #[trigger] transform.cell(i, j)
        == rotation.cell(i, j) by {
        lemma_two_axes(4, 4, i, j);
        lemma_two_axes(3, 3, i, j);
    }
    assert forall|i: usize| i < 3 implies #[trigger] transform.cell(i, 3) == translation.cell(
        i,
        0,
    ) by {
        lemma_two_axes(4, 4, i, 3);
        lemma_two_axes(3, 1, i, 0);
    }
    assert forall|j: usize| j < 3 implies #[trigger] transform.cell(3, j) == ZERO by {
        lemma_two_axes(4, 4, 3, j);
    }
    lemma_two_axes(4, 4, 3, 3);
}

} // verus!
