use batch_estimation::binary64::{ONE, ZERO};
use batch_estimation::derived::{homogeneous_transform, time_steps};
use batch_estimation::schema::scalar_of;
use batch_estimation::{EstimationError, Tensor};

fn bits(values: &[f64]) -> Vec<u64> {
    values.iter().map(|value| value.to_bits()).collect()
}

fn floats(tensor: &Tensor) -> Vec<f64> {
    tensor.to_vec().into_iter().map(f64::from_bits).collect()
}

fn difference(a: u64, b: u64) -> u64 {
    (f64::from_bits(a) - f64::from_bits(b)).to_bits()
}

fn tensor(shape: &[usize], values: &[f64]) -> Tensor {
    Tensor::from_column_major(shape, bits(values)).unwrap()
}

#[test]
fn tensor_keeps_shape_and_elements() {
    let built = tensor(&[2, 3], &[1.0, 2.0, 3.0, 4.0, 5.0, 6.0]);
    assert_eq!(built.shape(), vec![2, 3]);
    assert_eq!(floats(&built), vec![1.0, 2.0, 3.0, 4.0, 5.0, 6.0]);
    assert!(built.has_shape(&[2, 3]));
    assert!(!built.has_shape(&[3, 2]));
    assert!(!built.has_shape(&[2]));
    assert!(!built.has_shape(&[2, 3, 1]));
}

#[test]
fn tensor_elements_are_column_major() {
    // | 1 3 5 |
    // | 2 4 6 |
    let built = tensor(&[2, 3], &[1.0, 2.0, 3.0, 4.0, 5.0, 6.0]);
    assert_eq!(built.get(&[0, 0]), Some(1.0f64.to_bits()));
    assert_eq!(built.get(&[1, 0]), Some(2.0f64.to_bits()));
    assert_eq!(built.get(&[0, 1]), Some(3.0f64.to_bits()));
    assert_eq!(built.get(&[1, 1]), Some(4.0f64.to_bits()));
    assert_eq!(built.get(&[0, 2]), Some(5.0f64.to_bits()));
    assert_eq!(built.get(&[1, 2]), Some(6.0f64.to_bits()));
}

#[test]
fn tensor_with_three_axes_is_column_major() {
    let values: Vec<f64> = (0..24).map(|k| k as f64).collect();
    let built = tensor(&[4, 3, 2], &values);
    for layer in 0..2usize {
        for column in 0..3usize {
            for row in 0..4usize {
                let expected = (row + 4 * column + 12 * layer) as f64;
                assert_eq!(built.get(&[row, column, layer]), Some(expected.to_bits()));
            }
        }
    }
    assert_eq!(floats(&built), values);
}

#[test]
fn tensor_get_outside_the_bounds_is_none() {
    let built = tensor(&[2, 3], &[1.0, 2.0, 3.0, 4.0, 5.0, 6.0]);
    assert_eq!(built.get(&[2, 0]), None);
    assert_eq!(built.get(&[0, 3]), None);
    assert_eq!(built.get(&[0]), None);
    assert_eq!(built.get(&[0, 0, 0]), None);
    assert_eq!(built.get(&[]), None);
}

#[test]
fn tensor_needs_as_many_elements_as_its_shape_says() {
    assert!(Tensor::from_column_major(&[2, 3], bits(&[1.0; 5])).is_none());
    assert!(Tensor::from_column_major(&[2, 3], bits(&[1.0; 7])).is_none());
    assert!(Tensor::from_column_major(&[2, 3], bits(&[1.0; 6])).is_some());
    assert!(Tensor::from_column_major(&[3], Vec::new()).is_none());
}

#[test]
fn tensor_may_be_empty_or_without_axes() {
    let empty = Tensor::from_column_major(&[3, 0], Vec::new()).unwrap();
    assert_eq!(empty.shape(), vec![3, 0]);
    assert_eq!(empty.to_vec(), Vec::<u64>::new());
    assert_eq!(empty.get(&[0, 0]), None);
    let point = Tensor::from_column_major(&[], vec![7]).unwrap();
    assert_eq!(point.shape(), Vec::<usize>::new());
    assert_eq!(point.get(&[]), Some(7));
    assert!(Tensor::from_column_major(&[], Vec::new()).is_none());
}

#[test]
fn tensor_rejects_a_shape_that_cannot_be_represented() {
    assert!(Tensor::from_column_major(&[usize::MAX, 2], Vec::new()).is_none());
    assert!(Tensor::from_column_major(&[usize::MAX, 2, 0], Vec::new()).is_none());
    assert!(Tensor::from_column_major(&[usize::MAX, 0], Vec::new()).is_none());
    assert!(Tensor::from_column_major(&[usize::MAX / 2, 0], Vec::new()).is_some());
}

#[test]
fn scalar_is_the_sole_element() {
    assert_eq!(scalar_of(&tensor(&[1, 1], &[484.5])), Ok(484.5f64.to_bits()));
}

#[test]
fn scalar_of_another_shape_is_a_parse_error() {
    assert_eq!(scalar_of(&tensor(&[2, 1], &[1.0, 2.0])), Err(EstimationError::ParseError));
    assert_eq!(scalar_of(&tensor(&[1, 2], &[1.0, 2.0])), Err(EstimationError::ParseError));
    assert_eq!(scalar_of(&tensor(&[1], &[1.0])), Err(EstimationError::ParseError));
    assert_eq!(scalar_of(&tensor(&[1, 1, 1], &[1.0])), Err(EstimationError::ParseError));
    assert_eq!(
        scalar_of(&Tensor::from_column_major(&[1, 0], Vec::new()).unwrap()),
        Err(EstimationError::ParseError)
    );
}

#[test]
fn time_steps_are_consecutive_differences_after_a_leading_zero() {
    let timestamps = tensor(&[1, 3], &[0.0, 0.1, 0.25]);
    let steps = time_steps(&timestamps, difference).unwrap();
    assert_eq!(steps.shape(), vec![3]);
    assert_eq!(floats(&steps), vec![0.0, 0.1, 0.15]);
    assert_eq!(steps.to_vec(), bits(&[0.0, 0.1, 0.15]));
}

#[test]
fn time_steps_follow_the_length_of_the_timestamps() {
    for count in [1usize, 2, 5, 40] {
        let values: Vec<f64> = (0..count).map(|k| 0.5 * k as f64).collect();
        let steps = time_steps(&tensor(&[1, count], &values), difference).unwrap();
        assert_eq!(steps.shape(), vec![count]);
        let mut expected = vec![0.5; count];
        expected[0] = 0.0;
        assert_eq!(floats(&steps), expected);
    }
}

#[test]
fn time_steps_of_no_timestamps_are_none() {
    let timestamps = Tensor::from_column_major(&[1, 0], Vec::new()).unwrap();
    let steps = time_steps(&timestamps, difference).unwrap();
    assert_eq!(steps.shape(), vec![0]);
    assert_eq!(steps.to_vec(), Vec::<u64>::new());
}

#[test]
fn time_steps_use_the_difference_they_are_given() {
    let timestamps = Tensor::from_column_major(&[1, 3], vec![10, 13, 20]).unwrap();
    let steps = time_steps(&timestamps, |later: u64, earlier: u64| later - earlier).unwrap();
    assert_eq!(steps.to_vec(), vec![0, 3, 7]);
}

#[test]
fn time_steps_need_a_row() {
    let column = tensor(&[3, 1], &[0.0, 0.1, 0.25]);
    assert_eq!(time_steps(&column, difference).unwrap_err(), EstimationError::ParseError);
    let flat = tensor(&[3], &[0.0, 0.1, 0.25]);
    assert_eq!(time_steps(&flat, difference).unwrap_err(), EstimationError::ParseError);
    let two_rows = tensor(&[2, 2], &[0.0, 0.1, 0.25, 0.5]);
    assert_eq!(time_steps(&two_rows, difference).unwrap_err(), EstimationError::ParseError);
}

#[test]
fn transform_of_identity_rotation_keeps_the_translation() {
    let rotation = tensor(&[3, 3], &[1.0, 0.0, 0.0, 0.0, 1.0, 0.0, 0.0, 0.0, 1.0]);
    let translation = tensor(&[3, 1], &[1.0, 2.0, 3.0]);
    let transform = homogeneous_transform(&rotation, &translation).unwrap();
    assert_eq!(transform.shape(), vec![4, 4]);
    let rows: [[f64; 4]; 4] = [
        [1.0, 0.0, 0.0, 1.0],
        [0.0, 1.0, 0.0, 2.0],
        [0.0, 0.0, 1.0, 3.0],
        [0.0, 0.0, 0.0, 1.0],
    ];
    for row in 0..4usize {
        for column in 0..4usize {
            assert_eq!(transform.get(&[row, column]), Some(rows[row][column].to_bits()));
        }
    }
}

#[test]
fn transform_places_each_block() {
    // | 11 12 13 |
    // | 21 22 23 |
    // | 31 32 33 |
    let rotation = tensor(&[3, 3], &[11.0, 21.0, 31.0, 12.0, 22.0, 32.0, 13.0, 23.0, 33.0]);
    let translation = tensor(&[3, 1], &[-1.5, 2.5, -3.5]);
    let transform = homogeneous_transform(&rotation, &translation).unwrap();
    assert_eq!(
        floats(&transform),
        vec![
            11.0, 21.0, 31.0, 0.0, 12.0, 22.0, 32.0, 0.0, 13.0, 23.0, 33.0, 0.0, -1.5, 2.5, -3.5,
            1.0,
        ]
    );
    assert_eq!(transform.get(&[3, 0]), Some(ZERO));
    assert_eq!(transform.get(&[3, 3]), Some(ONE));
    assert_eq!(transform.get(&[1, 2]), rotation.get(&[1, 2]));
    assert_eq!(transform.get(&[2, 3]), translation.get(&[2, 0]));
}

#[test]
fn transform_needs_a_rotation_and_a_translation() {
    let rotation = tensor(&[3, 3], &[0.0; 9]);
    let translation = tensor(&[3, 1], &[0.0; 3]);
    let row = tensor(&[1, 3], &[0.0; 3]);
    let wide = tensor(&[3, 4], &[0.0; 12]);
    assert!(homogeneous_transform(&rotation, &translation).is_ok());
    assert_eq!(
        homogeneous_transform(&rotation, &row).unwrap_err(),
        EstimationError::ParseError
    );
    assert_eq!(
        homogeneous_transform(&wide, &translation).unwrap_err(),
        EstimationError::ParseError
    );
    assert_eq!(
        homogeneous_transform(&translation, &rotation).unwrap_err(),
        EstimationError::ParseError
    );
}
