use rxcv::consts::DataTypes;
use rxcv::mat::{Mat, RawMat};
use rxcv::result::{Error, Origin};

#[test]
fn from_shape_test() {
    let mat = Mat::<u8, 1>::from_shape(0, 0);
    assert_eq!(mat.as_ref().err(), None);
    let mat = mat.unwrap();
    assert_eq!(mat.cols(), 0);
    assert_eq!(mat.rows(), 0);
}

#[test]
fn mat_data_type_test() {
    let mat = Mat::mock_7x6_white();
    assert_eq!(mat.data_type(), Some(DataTypes::CV_8UC3));
}

#[test]
fn data_test() {
    let mat = Mat::mock_7x6_white();
    let data = mat.data();
    assert_eq!(data.len(), 7 * 6 * 3);
    assert!(data.iter().all(|&v| v == 255));
}

#[test]
fn size_test() {
    let mat = Mat::mock_7x6_white();
    assert_eq!(mat.size(), 7 * 6 * 3);
    assert_eq!(mat.cols(), 7);
    assert_eq!(mat.rows(), 6);
    assert_eq!(mat.channels(), 3);
}

#[test]
fn ones_test1() {
    let mat = Mat::<u8, 1>::ones(4, 5).unwrap();
    assert_eq!(mat.size(), 4 * 5);
    assert_eq!(mat.cols(), 5);
    assert_eq!(mat.rows(), 4);
    assert_eq!(mat.channels(), 1);
    assert!(mat.data().iter().all(|&v| v == 1));
}

#[test]
fn ones_test2() {
    let mat = Mat::<u8, 3>::ones(1, 1).unwrap();
    assert_eq!(mat.size(), 3);
    assert_eq!(mat.cols(), 1);
    assert_eq!(mat.rows(), 1);
    assert_eq!(mat.channels(), 3);
    assert_eq!(mat.data()[0], 1);
    assert_eq!(mat.data()[1], 0);
    assert_eq!(mat.data()[2], 0);
}

#[test]
fn ones_sets_the_first_channel_of_every_pixel() {
    let mat = Mat::<i16, 2>::ones(2, 2).unwrap();
    assert_eq!(mat.data(), &[1, 0, 1, 0, 1, 0, 1, 0]);
    assert_eq!(mat.data_type(), Some(DataTypes::CV_16SC2));
}

#[test]
fn ones_with_a_negative_count_fails() {
    let r = Mat::<u8, 1>::ones(-1, 5);
    assert_eq!(r.err(), Some(Error::AllocationFailure(String::new())));
    let r = Mat::<u8, 1>::ones(5, -1);
    assert_eq!(r.err(), Some(Error::AllocationFailure(String::new())));
}

#[test]
fn new_has_no_shape() {
    let mat = Mat::<u8, 3>::new().unwrap();
    assert_eq!(mat.rows(), 0);
    assert_eq!(mat.cols(), 0);
    assert_eq!(mat.size(), 0);
    assert_eq!(mat.code(), 0);
    assert_eq!(mat.channels(), 1);
    assert_eq!(mat.data_type(), Some(DataTypes::CV_8UC1));
    assert!(mat.data().is_empty());
}

#[test]
fn from_shape_is_zero_filled() {
    let mat = Mat::<u16, 3>::from_shape(2, 3).unwrap();
    assert_eq!(mat.rows(), 2);
    assert_eq!(mat.cols(), 3);
    assert_eq!(mat.channels(), 3);
    assert_eq!(mat.size(), 18);
    assert_eq!(mat.data(), &[0u16; 18]);
    assert_eq!(mat.data_type(), Some(DataTypes::CV_16UC3));
    assert_eq!(mat.code(), 18);
}

#[test]
fn from_shape_that_does_not_fit_fails() {
    let r = Mat::<u8, 1>::from_shape(usize::MAX, 2);
    assert_eq!(r.err(), Some(Error::AllocationFailure(String::new())));
    let r = Mat::<u8, 3>::from_shape(1 << 20, 1 << 11);
    assert_eq!(r.err(), Some(Error::AllocationFailure(String::new())));
    let r = Mat::<u8, 1>::from_shape(1 << 31, 0);
    assert_eq!(r.err(), Some(Error::AllocationFailure(String::new())));
}

#[test]
fn from_shape_vec_copies_the_buffer() {
    let data: Vec<i32> = (0..12).collect();
    let mat = Mat::<i32, 2>::from_shape_vec(2, 3, &data).unwrap();
    assert_eq!(mat.rows(), 2);
    assert_eq!(mat.cols(), 3);
    assert_eq!(mat.channels(), 2);
    assert_eq!(mat.size(), 12);
    assert_eq!(mat.data(), data.as_slice());
    assert_eq!(mat.data_type(), Some(DataTypes::CV_32SC2));
}

#[test]
fn from_shape_vec_with_a_wrong_length_is_a_shape_mismatch() {
    let data = vec![0u8; 11];
    assert_eq!(Mat::<u8, 2>::from_shape_vec(2, 3, &data).err(), Some(Error::ShapeMismatch));
    let data = vec![0u8; 13];
    assert_eq!(Mat::<u8, 2>::from_shape_vec(2, 3, &data).err(), Some(Error::ShapeMismatch));
    let data = vec![0u8; 12];
    assert_eq!(Mat::<u8, 3>::from_shape_vec(2, 3, &data).err(), Some(Error::ShapeMismatch));
    assert_eq!(Mat::<u8, 1>::from_shape_vec(usize::MAX, usize::MAX, &data).err(), Some(Error::ShapeMismatch));
    let empty: Vec<u8> = Vec::new();
    assert_eq!(Mat::<u8, 1>::from_shape_vec(0, 0, &empty).err(), None);
    assert_eq!(
        Mat::<u8, 1>::from_shape_vec(1 << 31, 0, &empty).err(),
        Some(Error::AllocationFailure(String::new()))
    );
}

#[test]
fn from_raw_checks_the_parts() {
    let raw = RawMat { rows: 2, cols: 2, code: 8, data: vec![1i8, 2, 3, 4, 5, 6, 7, 8] };
    let mat = Mat::<i8, 2>::from_raw(raw).unwrap();
    assert_eq!(mat.channels(), 2);
    assert_eq!(mat.size(), 8);
    assert_eq!(mat.data(), &[1i8, 2, 3, 4, 5, 6, 7, 8]);
    let back = mat.into_raw();
    assert_eq!((back.rows, back.cols, back.code), (2, 2, 8));
    assert_eq!(back.data, vec![1i8, 2, 3, 4, 5, 6, 7, 8]);

    let bad = RawMat { rows: 2, cols: 2, code: 8, data: vec![1i8, 2, 3] };
    assert_eq!(Mat::<i8, 2>::from_raw(bad).err(), Some(Error::ShapeMismatch));
    let bad = RawMat { rows: -1, cols: 0, code: 0, data: Vec::<u8>::new() };
    assert_eq!(Mat::<u8, 1>::from_raw(bad).err(), Some(Error::ShapeMismatch));
    let bad = RawMat { rows: 0, cols: 0, code: -8, data: Vec::<u8>::new() };
    assert_eq!(Mat::<u8, 1>::from_raw(bad).err(), Some(Error::ShapeMismatch));
}

#[test]
fn a_code_of_five_channels_names_no_type() {
    let raw = RawMat { rows: 1, cols: 1, code: 32, data: vec![9u8; 5] };
    let mat = Mat::<u8, 1>::from_raw(raw).unwrap();
    assert_eq!(mat.data_type(), None);
    assert_eq!(mat.channels(), 5);
    assert_eq!(mat.size(), 5);
}

#[test]
fn type_codes_of_the_image_types() {
    assert_eq!(Mat::<u8, 1>::type_code(), 0);
    assert_eq!(Mat::<u8, 3>::type_code(), 16);
    assert_eq!(Mat::<i8, 2>::type_code(), 9);
    assert_eq!(Mat::<u16, 3>::type_code(), 18);
    assert_eq!(Mat::<i16, 1>::type_code(), 3);
    assert_eq!(Mat::<i32, 3>::type_code(), 20);
}

#[test]
fn square_canvas_has_a_black_border() {
    let mat = Mat::mock_7x6_square_5x4();
    assert_eq!((mat.rows(), mat.cols(), mat.channels()), (6, 7, 3));
    let data = mat.data();
    for row in 0..6usize {
        for col in 0..7usize {
            let inside = (1..5).contains(&row) && (1..6).contains(&col);
            for ch in 0..3usize {
                let v = data[(row * 7 + col) * 3 + ch];
                assert_eq!(v, if inside { 255 } else { 0 });
            }
        }
    }
    assert_eq!(data.iter().filter(|&&v| v == 255).count(), 5 * 4 * 3);
}

#[test]
fn two_square_canvas_holds_both_rectangles() {
    let mat = Mat::mock_7x6_square_2x4_2x3();
    let data = mat.data();
    assert_eq!(data.len(), 126);
    assert_eq!(data.iter().filter(|&&v| v == 255).count(), (2 * 4 + 2 * 3) * 3);
    assert_eq!(data[(1 * 7 + 1) * 3], 255);
    assert_eq!(data[(4 * 7 + 2) * 3], 255);
    assert_eq!(data[(3 * 7 + 5) * 3], 255);
    assert_eq!(data[(4 * 7 + 5) * 3], 0);
    assert_eq!(data[(1 * 7 + 3) * 3], 0);
}

#[test]
fn allocation_failure_reports_its_origin() {
    let e = Mat::<u8, 1>::ones(-1, -1).err().unwrap();
    assert_eq!(e.origin(), Some(Origin::Allocation));
    assert_eq!(e.message(), "");
}
