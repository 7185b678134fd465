use std::borrow::Cow;

use threshold_binarizer::common::fixed_threshold_binarizer::{row_of_cached_matrix, DEFAULT_THRESHOLD};
use threshold_binarizer::common::threshold::{binarize_line, binarize_matrix, is_black};
use threshold_binarizer::{
    BitArray, Exceptions, FixedThresholdBinarizer, LineOrientation, Luma8LuminanceSource,
    LuminanceSource,
};

fn bits_of(line: &BitArray) -> Vec<bool> {
    (0..line.get_size()).map(|i| line.get(i)).collect()
}

fn sample_image() -> Vec<u8> {
    vec![
        0, 64, 127, 128, // black, black, black, white
        129, 192, 200, 255, // all white
        50, 100, 150, 200, // black, black, white, white
    ]
}

#[test]
fn test_fixed_threshold_128() {
    // Create a simple 4x4 test image
    let luma = vec![
        0, 64, 127, 128, // Row 0: black, black, black, white
        129, 192, 200, 255, // Row 1: all white
        50, 100, 150, 200, // Row 2: black, black, white, white
        127, 128, 129, 130, // Row 3: black, white, white, white
    ];
    let source = Luma8LuminanceSource::new(luma, 4, 4);
    let mut binarizer = FixedThresholdBinarizer::new(source);

    let matrix = binarizer.get_black_matrix().unwrap();

    // Check row 0: 0, 64, 127 should be black (true), 128 should be white (false)
    assert_eq!(matrix.get(0, 0), true); // 0 < 128
    assert_eq!(matrix.get(1, 0), true); // 64 < 128
    assert_eq!(matrix.get(2, 0), true); // 127 < 128
    assert_eq!(matrix.get(3, 0), false); // 128 >= 128

    // Check row 1: all white
    assert_eq!(matrix.get(0, 1), false); // 129 >= 128
    assert_eq!(matrix.get(1, 1), false); // 192 >= 128
    assert_eq!(matrix.get(2, 1), false); // 200 >= 128
    assert_eq!(matrix.get(3, 1), false); // 255 >= 128

    // Check row 2: mixed
    assert_eq!(matrix.get(0, 2), true); // 50 < 128
    assert_eq!(matrix.get(1, 2), true); // 100 < 128
    assert_eq!(matrix.get(2, 2), false); // 150 >= 128
    assert_eq!(matrix.get(3, 2), false); // 200 >= 128

    // Check row 3: boundary cases
    assert_eq!(matrix.get(0, 3), true); // 127 < 128
    assert_eq!(matrix.get(1, 3), false); // 128 >= 128
    assert_eq!(matrix.get(2, 3), false); // 129 >= 128
    assert_eq!(matrix.get(3, 3), false); // 130 >= 128
}

#[test]
fn test_custom_threshold() {
    let luma = vec![0, 50, 100, 150];
    let source = Luma8LuminanceSource::new(luma, 4, 1);
    let mut binarizer = FixedThresholdBinarizer::with_threshold(source, 100);

    assert_eq!(binarizer.get_threshold(), 100);

    let matrix = binarizer.get_black_matrix().unwrap();

    assert_eq!(matrix.get(0, 0), true); // 0 < 100
    assert_eq!(matrix.get(1, 0), true); // 50 < 100
    assert_eq!(matrix.get(2, 0), false); // 100 >= 100
    assert_eq!(matrix.get(3, 0), false); // 150 >= 100
}

#[test]
fn test_get_black_row() {
    let luma = vec![0, 127, 128, 255, 50, 100, 150, 200];
    let source = Luma8LuminanceSource::new(luma, 4, 2);
    let mut binarizer = FixedThresholdBinarizer::new(source);

    let row0 = binarizer.get_black_row(0).unwrap();
    assert_eq!(row0.get(0), true); // 0 < 128
    assert_eq!(row0.get(1), true); // 127 < 128
    assert_eq!(row0.get(2), false); // 128 >= 128
    assert_eq!(row0.get(3), false); // 255 >= 128

    let row1 = binarizer.get_black_row(1).unwrap();
    assert_eq!(row1.get(0), true); // 50 < 128
    assert_eq!(row1.get(1), true); // 100 < 128
    assert_eq!(row1.get(2), false); // 150 >= 128
    assert_eq!(row1.get(3), false); // 200 >= 128
}

#[test]
fn threshold_itself_is_white() {
    assert_eq!(is_black(127, 128), true);
    assert_eq!(is_black(128, 128), false);
    assert_eq!(is_black(129, 128), false);
    assert_eq!(is_black(0, 0), false);
    assert_eq!(is_black(254, 255), true);
    assert_eq!(is_black(255, 255), false);
}

#[test]
fn threshold_rule_holds_for_every_sample_and_threshold() {
    for t in 0..=255u8 {
        for v in 0..=255u8 {
            assert_eq!(is_black(v, t), v < t);
        }
    }
}

#[test]
fn default_threshold_is_the_midpoint() {
    assert_eq!(DEFAULT_THRESHOLD, 128);
    let binarizer = FixedThresholdBinarizer::new(Luma8LuminanceSource::new(vec![7], 1, 1));
    assert_eq!(binarizer.get_threshold(), 128);
}

#[test]
fn threshold_zero_makes_everything_white() {
    let source = Luma8LuminanceSource::new(vec![0, 1, 255], 3, 1);
    let mut binarizer = FixedThresholdBinarizer::with_threshold(source, 0);
    assert_eq!(bits_of(&binarizer.get_black_row(0).unwrap()), vec![false, false, false]);
}

#[test]
fn threshold_255_leaves_only_the_brightest_white() {
    let source = Luma8LuminanceSource::new(vec![0, 254, 255], 3, 1);
    let mut binarizer = FixedThresholdBinarizer::with_threshold(source, 255);
    assert_eq!(bits_of(&binarizer.get_black_row(0).unwrap()), vec![true, true, false]);
}

#[test]
fn binarize_line_pads_a_short_line_with_white() {
    let line = binarize_line(&vec![0, 200, 5], 5, 128);
    assert_eq!(bits_of(&line), vec![true, false, true, false, false]);
}

#[test]
fn binarize_line_ignores_samples_beyond_the_length() {
    let line = binarize_line(&vec![0, 200, 5, 6, 7], 2, 128);
    assert_eq!(bits_of(&line), vec![true, false]);
}

#[test]
fn binarize_matrix_is_row_major() {
    let matrix = binarize_matrix(&vec![0, 200, 201, 1, 2, 202], 3, 2, 100).unwrap();
    assert_eq!(matrix.get_width(), 3);
    assert_eq!(matrix.get_height(), 2);
    assert_eq!(matrix.to_row_major(), vec![true, false, false, true, true, false]);
}

#[test]
fn binarize_matrix_reads_the_first_samples_of_a_longer_buffer() {
    let matrix = binarize_matrix(&vec![0, 200, 1, 201, 2, 3], 2, 2, 100).unwrap();
    assert_eq!(matrix.to_row_major(), vec![true, false, true, false]);
}

#[test]
fn binarize_matrix_rejects_an_image_without_pixels() {
    assert_eq!(binarize_matrix(&vec![], 0, 0, 128).unwrap_err(), Exceptions::IllegalArgument);
    assert_eq!(binarize_matrix(&vec![], 0, 5, 128).unwrap_err(), Exceptions::IllegalArgument);
    assert_eq!(binarize_matrix(&vec![], 5, 0, 128).unwrap_err(), Exceptions::IllegalArgument);
}

#[test]
fn dimensions_are_those_of_the_source() {
    let binarizer = FixedThresholdBinarizer::new(Luma8LuminanceSource::new(sample_image(), 4, 3));
    assert_eq!(binarizer.get_width(), 4);
    assert_eq!(binarizer.get_height(), 3);
    assert_eq!(binarizer.get_luminance_source().get_matrix(), sample_image());
}

#[test]
fn get_black_row_twice_returns_the_same_bits() {
    let mut binarizer = FixedThresholdBinarizer::new(Luma8LuminanceSource::new(sample_image(), 4, 3));
    let other_before = bits_of(&binarizer.get_black_row(2).unwrap());
    let first = bits_of(&binarizer.get_black_row(0).unwrap());
    let second = bits_of(&binarizer.get_black_row(0).unwrap());
    assert_eq!(first, vec![true, true, true, false]);
    assert_eq!(second, first);
    let other_after = bits_of(&binarizer.get_black_row(2).unwrap());
    assert_eq!(other_after, other_before);
    assert_eq!(other_after, vec![true, true, false, false]);
    let matrix = binarizer.get_black_matrix().unwrap();
    assert_eq!(
        matrix.to_row_major(),
        vec![true, true, true, false, false, false, false, false, true, true, false, false]
    );
}

#[test]
fn matrix_rows_and_columns_agree_on_every_pixel() {
    let mut binarizer = FixedThresholdBinarizer::with_threshold(
        Luma8LuminanceSource::new(sample_image(), 4, 3),
        101,
    );
    let matrix = binarizer.get_black_matrix().unwrap().clone();
    for y in 0..3 {
        let row = binarizer.get_black_row(y).unwrap().into_owned();
        assert_eq!(row.get_size(), 4);
        for x in 0..4 {
            let column = binarizer.get_black_line(x, LineOrientation::Column).unwrap();
            assert_eq!(column.get_size(), 3);
            assert_eq!(matrix.get(x, y), row.get(x));
            assert_eq!(row.get(x), column.get(y));
            assert_eq!(row.get(x), sample_image()[y * 4 + x] < 101);
        }
    }
}

#[test]
fn get_black_line_by_row_is_get_black_row() {
    let mut binarizer = FixedThresholdBinarizer::new(Luma8LuminanceSource::new(sample_image(), 4, 3));
    let by_line = bits_of(&binarizer.get_black_line(2, LineOrientation::Row).unwrap());
    let by_row = bits_of(&binarizer.get_black_row(2).unwrap());
    assert_eq!(by_line, by_row);
    assert_eq!(by_line, vec![true, true, false, false]);
}

#[test]
fn get_black_line_by_column_reads_top_to_bottom() {
    let mut binarizer = FixedThresholdBinarizer::new(Luma8LuminanceSource::new(sample_image(), 4, 3));
    assert_eq!(
        bits_of(&binarizer.get_black_line(0, LineOrientation::Column).unwrap()),
        vec![true, false, true]
    );
    assert_eq!(
        bits_of(&binarizer.get_black_line(2, LineOrientation::Column).unwrap()),
        vec![true, false, false]
    );
    assert_eq!(
        bits_of(&binarizer.get_black_line(3, LineOrientation::Column).unwrap()),
        vec![false, false, false]
    );
    // asked again, the column is the same
    assert_eq!(
        bits_of(&binarizer.get_black_line(0, LineOrientation::Column).unwrap()),
        vec![true, false, true]
    );
}

#[test]
fn row_out_of_range_is_reported() {
    let mut binarizer = FixedThresholdBinarizer::new(Luma8LuminanceSource::new(sample_image(), 4, 3));
    assert_eq!(binarizer.get_black_row(3).unwrap_err(), Exceptions::IndexOutOfBounds);
    assert_eq!(binarizer.get_black_row(usize::MAX).unwrap_err(), Exceptions::IndexOutOfBounds);
    assert_eq!(
        binarizer.get_black_line(3, LineOrientation::Row).unwrap_err(),
        Exceptions::IndexOutOfBounds
    );
    // the last row is still there
    assert_eq!(bits_of(&binarizer.get_black_row(2).unwrap()), vec![true, true, false, false]);
}

#[test]
fn column_out_of_range_is_reported() {
    let mut binarizer = FixedThresholdBinarizer::new(Luma8LuminanceSource::new(sample_image(), 4, 3));
    assert_eq!(
        binarizer.get_black_line(4, LineOrientation::Column).unwrap_err(),
        Exceptions::IndexOutOfBounds
    );
    // column 3 exists although row 3 does not
    assert!(binarizer.get_black_line(3, LineOrientation::Column).is_ok());
}

#[test]
fn row_from_matrix_before_the_matrix_is_the_row() {
    let mut binarizer = FixedThresholdBinarizer::new(Luma8LuminanceSource::new(sample_image(), 4, 3));
    for y in 0..3 {
        let from_matrix = binarizer.get_black_row_from_matrix(y).unwrap().into_owned();
        let row = binarizer.get_black_row(y).unwrap();
        assert_eq!(bits_of(&from_matrix), bits_of(&row));
    }
    assert_eq!(
        bits_of(&binarizer.get_black_row_from_matrix(0).unwrap()),
        vec![true, true, true, false]
    );
}

#[test]
fn row_from_matrix_after_the_matrix_is_the_row_of_the_matrix() {
    let mut binarizer = FixedThresholdBinarizer::new(Luma8LuminanceSource::new(sample_image(), 4, 3));
    let matrix = binarizer.get_black_matrix().unwrap().clone();
    for y in 0..3 {
        let from_matrix = binarizer.get_black_row_from_matrix(y).unwrap();
        assert_eq!(bits_of(&from_matrix), bits_of(&matrix.get_row(y)));
        assert_eq!(bits_of(&from_matrix), bits_of(&binarizer.get_black_row(y).unwrap()));
    }
    assert_eq!(
        bits_of(&binarizer.get_black_row_from_matrix(2).unwrap()),
        vec![true, true, false, false]
    );
}

#[test]
fn row_from_matrix_is_owned_after_the_matrix_and_borrowed_before() {
    let mut binarizer = FixedThresholdBinarizer::new(Luma8LuminanceSource::new(sample_image(), 4, 3));
    assert!(matches!(binarizer.get_black_row_from_matrix(0), Ok(Cow::Borrowed(_))));
    assert!(matches!(binarizer.get_black_row(0), Ok(Cow::Borrowed(_))));
    assert!(binarizer.get_black_matrix().is_ok());
    assert!(matches!(binarizer.get_black_row_from_matrix(0), Ok(Cow::Owned(_))));
    assert!(matches!(binarizer.get_black_row(0), Ok(Cow::Borrowed(_))));
}

#[test]
fn row_from_matrix_out_of_range_is_reported() {
    let mut binarizer = FixedThresholdBinarizer::new(Luma8LuminanceSource::new(sample_image(), 4, 3));
    assert_eq!(
        binarizer.get_black_row_from_matrix(3).unwrap_err(),
        Exceptions::IndexOutOfBounds
    );
    assert!(binarizer.get_black_matrix().is_ok());
    assert_eq!(
        binarizer.get_black_row_from_matrix(3).unwrap_err(),
        Exceptions::IndexOutOfBounds
    );
}

#[test]
fn row_of_cached_matrix_cuts_out_one_row() {
    let matrix = binarize_matrix(&sample_image(), 4, 3, 128).unwrap();
    assert_eq!(
        bits_of(&row_of_cached_matrix(&matrix, 0).unwrap()),
        vec![true, true, true, false]
    );
    assert_eq!(
        bits_of(&row_of_cached_matrix(&matrix, 1).unwrap()),
        vec![false, false, false, false]
    );
    assert_eq!(row_of_cached_matrix(&matrix, 3).unwrap_err(), Exceptions::IndexOutOfBounds);
}

#[test]
fn matrix_asked_twice_is_the_same() {
    let mut binarizer = FixedThresholdBinarizer::new(Luma8LuminanceSource::new(sample_image(), 4, 3));
    let first = binarizer.get_black_matrix().unwrap().to_row_major();
    let second = binarizer.get_black_matrix().unwrap().to_row_major();
    assert_eq!(first, second);
    assert_eq!(binarizer.get_black_matrix().unwrap().get_width(), 4);
    assert_eq!(binarizer.get_black_matrix().unwrap().get_height(), 3);
}

#[test]
fn image_without_pixels_has_no_matrix() {
    let mut binarizer = FixedThresholdBinarizer::new(Luma8LuminanceSource::new(vec![], 0, 0));
    assert_eq!(binarizer.get_black_matrix().unwrap_err(), Exceptions::IllegalArgument);
    assert_eq!(binarizer.get_black_row(0).unwrap_err(), Exceptions::IndexOutOfBounds);
    assert_eq!(
        binarizer.get_black_line(0, LineOrientation::Column).unwrap_err(),
        Exceptions::IndexOutOfBounds
    );
}

#[test]
fn image_without_columns_has_empty_rows() {
    let mut binarizer = FixedThresholdBinarizer::new(Luma8LuminanceSource::new(vec![], 0, 2));
    assert_eq!(binarizer.get_black_row(1).unwrap().get_size(), 0);
    assert_eq!(binarizer.get_black_row(2).unwrap_err(), Exceptions::IndexOutOfBounds);
    assert_eq!(binarizer.get_black_matrix().unwrap_err(), Exceptions::IllegalArgument);
}

#[test]
fn create_binarizer_keeps_the_threshold_and_starts_empty() {
    let mut first =
        FixedThresholdBinarizer::with_threshold(Luma8LuminanceSource::new(vec![10, 20], 2, 1), 15);
    assert_eq!(bits_of(&first.get_black_row(0).unwrap()), vec![true, false]);
    let mut second = first.create_binarizer(Luma8LuminanceSource::new(vec![14, 15, 16, 0], 2, 2));
    assert_eq!(second.get_threshold(), 15);
    assert_eq!(second.get_width(), 2);
    assert_eq!(second.get_height(), 2);
    assert_eq!(bits_of(&second.get_black_row(0).unwrap()), vec![true, false]);
    assert_eq!(bits_of(&second.get_black_row(1).unwrap()), vec![false, true]);
    // the first binarizer still answers for its own image
    assert_eq!(first.get_height(), 1);
    assert_eq!(bits_of(&first.get_black_row(0).unwrap()), vec![true, false]);
}
