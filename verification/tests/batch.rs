use detect_bias_welch::batch::BatchShape;
use detect_bias_welch::error::WelchError;

fn shape(lengths: [usize; 4], draws_1: usize, draws_2: usize) -> BatchShape {
    BatchShape {
        sum_1: lengths[0],
        sumsq_1: lengths[1],
        sum_2: lengths[2],
        sumsq_2: lengths[3],
        draws_1,
        draws_2,
    }
}

#[test]
fn it_works() {
    assert_eq!(2 + 2, 4);
}

#[test]
fn well_shaped_batch_yields_its_length() {
    assert_eq!(shape([12, 12, 12, 12], 2, 2).validate(), Ok(12));
    assert_eq!(shape([0, 0, 0, 0], 64, 1024).validate(), Ok(0));
    assert_eq!(shape([3, 3, 3, 3], usize::MAX, 2).validate(), Ok(3));
}

#[test]
fn single_draw_is_an_invalid_sample_size() {
    assert_eq!(shape([3, 3, 3, 3], 1, 10).validate(), Err(WelchError::InvalidSampleSize));
    assert_eq!(shape([3, 3, 3, 3], 10, 1).validate(), Err(WelchError::InvalidSampleSize));
    assert_eq!(shape([3, 3, 3, 3], 0, 10).validate(), Err(WelchError::InvalidSampleSize));
    assert_eq!(shape([3, 3, 3, 3], 10, 0).validate(), Err(WelchError::InvalidSampleSize));
    assert_eq!(shape([3, 3, 3, 3], 1, 1).validate(), Err(WelchError::InvalidSampleSize));
}

#[test]
fn differing_lengths_are_a_shape_mismatch() {
    assert_eq!(shape([3, 4, 3, 3], 10, 10).validate(), Err(WelchError::InputShapeMismatch));
    assert_eq!(shape([3, 3, 3, 4], 10, 10).validate(), Err(WelchError::InputShapeMismatch));
    assert_eq!(shape([3, 3, 4, 4], 10, 10).validate(), Err(WelchError::InputShapeMismatch));
    assert_eq!(shape([4, 3, 3, 3], 10, 10).validate(), Err(WelchError::InputShapeMismatch));
    assert_eq!(shape([0, 0, 0, 1], 2, 2).validate(), Err(WelchError::InputShapeMismatch));
}

#[test]
fn sample_size_is_reported_before_shape() {
    assert_eq!(shape([1, 2, 3, 4], 1, 10).validate(), Err(WelchError::InvalidSampleSize));
    assert_eq!(shape([1, 2, 3, 4], 10, 1).validate(), Err(WelchError::InvalidSampleSize));
}

#[test]
fn swap_exchanges_the_samples() {
    let s = shape([1, 2, 3, 4], 5, 6);
    assert_eq!(s.swap(), shape([3, 4, 1, 2], 6, 5));
    assert_eq!(s.swap().swap(), s);
}

#[test]
fn validation_is_symmetric_in_the_samples() {
    let cases = [
        shape([7, 7, 7, 7], 2, 9),
        shape([7, 7, 7, 7], 1, 9),
        shape([7, 7, 7, 7], 9, 1),
        shape([7, 8, 7, 7], 4, 4),
        shape([7, 7, 7, 8], 4, 4),
        shape([7, 7, 8, 8], 4, 4),
        shape([7, 8, 9, 10], 0, 4),
    ];
    for s in cases {
        assert_eq!(s.swap().validate(), s.validate());
    }
}
