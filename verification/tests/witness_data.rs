use threshold_binarizer::{
    BitMatrix, FixedThresholdBinarizer, Luma8LuminanceSource, WitnessData,
};

#[test]
fn test_witness_data_creation() {
    // Create a simple 4x4 test image
    let image = vec![
        0, 64, 127, 128,
        129, 192, 200, 255,
        50, 100, 150, 200,
        127, 128, 129, 130,
    ];

    let mut binarized = BitMatrix::new(4, 4).unwrap();
    // Set some pixels black (< 128)
    binarized.set(0, 0); // 0
    binarized.set(1, 0); // 64
    binarized.set(2, 0); // 127
    // 128+ stay white

    let witness = WitnessData::new(4, 4, image.clone(), binarized);

    assert_eq!(witness.width(), 4);
    assert_eq!(witness.height(), 4);
    assert_eq!(witness.image().len(), 16);
    assert_eq!(witness.get_pixel(0, 0), 0);
    assert_eq!(witness.get_pixel(3, 1), 255);
    assert_eq!(witness.get_binarized_pixel(0, 0), true); // black
    assert_eq!(witness.get_binarized_pixel(3, 0), false); // white
}

#[test]
fn witness_round_trip() {
    let image: Vec<u8> = (0..16).map(|i| (i * 16) as u8).collect();
    let mut binarized = BitMatrix::new(4, 4).unwrap();
    binarized.set(0, 0);
    binarized.set(1, 0);
    binarized.set(2, 0);
    let witness = WitnessData::new(4, 4, image.clone(), binarized);

    assert_eq!(witness.get_pixel(0, 0), image[0]);
    assert_eq!(witness.get_binarized_pixel(3, 0), false);
    assert_eq!(witness.get_binarized_pixel(0, 0), true);
    assert_eq!(witness.image(), image.as_slice());
    for y in 0..4 {
        for x in 0..4 {
            assert_eq!(witness.get_pixel(x, y), image[y * 4 + x]);
            assert_eq!(witness.get_binarized_pixel(x, y), witness.binarized_image().get(x, y));
            assert_eq!(witness.get_binarized_pixel(x, y), y == 0 && x < 3);
        }
    }
}

#[test]
fn get_pixel_is_row_major() {
    let witness = WitnessData::new(3, 2, vec![1, 2, 3, 4, 5, 6], BitMatrix::new(3, 2).unwrap());
    assert_eq!(witness.get_pixel(2, 0), 3);
    assert_eq!(witness.get_pixel(0, 1), 4);
    assert_eq!(witness.get_pixel(2, 1), 6);
}

#[test]
fn record_has_one_bool_for_each_pixel() {
    let mut binarized = BitMatrix::new(3, 2).unwrap();
    binarized.set(1, 0);
    binarized.set(2, 1);
    let witness = WitnessData::new(3, 2, vec![9, 8, 7, 6, 5, 4], binarized);
    let record = witness.to_record();
    assert_eq!(record.width, 3);
    assert_eq!(record.height, 2);
    assert_eq!(record.image, vec![9, 8, 7, 6, 5, 4]);
    assert_eq!(record.binarized_image, vec![false, true, false, false, false, true]);
}

#[test]
fn witness_of_a_binarization_pass() {
    let image = vec![0, 127, 128, 255, 50, 100, 150, 200];
    let mut binarizer = FixedThresholdBinarizer::new(Luma8LuminanceSource::new(image.clone(), 4, 2));
    let matrix = binarizer.get_black_matrix().unwrap().clone();
    let witness = WitnessData::new(4, 2, image.clone(), matrix);
    let record = witness.to_record();
    assert_eq!(record.image, image);
    assert_eq!(
        record.binarized_image,
        vec![true, true, false, false, true, true, false, false]
    );
    // the witness is a snapshot: it outlives the binarizer
    drop(binarizer);
    assert_eq!(witness.get_binarized_pixel(1, 1), true);
    assert_eq!(witness.get_pixel(1, 1), 100);
}

#[test]
fn witness_can_be_cloned() {
    let mut binarized = BitMatrix::new(2, 1).unwrap();
    binarized.set(1, 0);
    let witness = WitnessData::new(2, 1, vec![200, 3], binarized);
    let copy = witness.clone();
    assert_eq!(copy.width(), 2);
    assert_eq!(copy.height(), 1);
    assert_eq!(copy.image(), witness.image());
    assert_eq!(copy.get_binarized_pixel(0, 0), false);
    assert_eq!(copy.get_binarized_pixel(1, 0), true);
}
