use rxcv::array::Array3;
use rxcv::mat::Mat;
use rxcv::result::Error;

#[test]
fn array_convert_test() {
    let src = Mat::mock_7x6_square_5x4();

    let a = src.to_ndarray();
    assert_eq!(
        (
            src.rows() as usize,
            src.cols() as usize,
            src.channels() as usize,
        ),
        a.dim()
    );
    assert_eq!(a.as_slice().unwrap(), src.data());

    let dst = Mat::<u8, 3>::from_ndarray(&a).unwrap();
    assert_eq!(
        (
            src.rows() as usize,
            src.cols() as usize,
            src.channels() as usize,
        ),
        (
            dst.rows() as usize,
            dst.cols() as usize,
            dst.channels() as usize,
        )
    );
    assert_eq!(dst.data(), src.data());
}

#[test]
fn mod_convert_test() {
    let src = Mat::mock_7x6_square_5x4();

    let a = src.to_ndarray();
    assert_eq!(
        (
            src.rows() as usize,
            src.cols() as usize,
            src.channels() as usize,
        ),
        a.inner.dim()
    );
    assert_eq!(a.inner.as_slice().unwrap(), src.data());

    let dst = Mat::<u8, 3>::from_ndarray(&a).unwrap();
    assert_eq!(
        (
            src.rows() as usize,
            src.cols() as usize,
            src.channels() as usize,
        ),
        (
            dst.rows() as usize,
            dst.cols() as usize,
            dst.channels() as usize,
        )
    );
    assert_eq!(dst.data(), src.data());
}

#[test]
fn to_ndarray_keeps_the_element_order() {
    let data: Vec<u8> = (0..24).collect();
    let src = Mat::<u8, 2>::from_shape_vec(3, 4, &data).unwrap();
    let a = src.to_ndarray();
    assert_eq!(a.dim(), (3, 4, 2));
    assert_eq!(a.inner[[0, 0, 0]], 0);
    assert_eq!(a.inner[[0, 0, 1]], 1);
    assert_eq!(a.inner[[0, 1, 0]], 2);
    assert_eq!(a.inner[[1, 0, 0]], 8);
    assert_eq!(a.inner[[2, 3, 1]], 23);
    assert!(a.inner.is_standard_layout());
    assert_eq!(a.as_slice(), Some(data));
}

#[test]
fn to_ndarray_of_an_empty_image() {
    let src = Mat::<u8, 3>::from_shape(0, 5).unwrap();
    let a = src.to_ndarray();
    assert_eq!(a.dim(), (0, 5, 3));
    assert_eq!(a.as_slice(), Some(Vec::new()));
    let dst = Mat::<u8, 3>::from_ndarray(&a).unwrap();
    assert_eq!((dst.rows(), dst.cols(), dst.channels()), (0, 5, 3));
}

#[test]
fn from_ndarray_reads_a_built_array() {
    let inner = ndarray::Array3::from_shape_vec((2, 2, 3), (1..=12).collect::<Vec<u8>>()).unwrap();
    let a = Array3 { inner };
    let m = Mat::<u8, 3>::from_ndarray(&a).unwrap();
    assert_eq!((m.rows(), m.cols(), m.channels()), (2, 2, 3));
    assert_eq!(m.data(), &[1, 2, 3, 4, 5, 6, 7, 8, 9, 10, 11, 12]);
    assert_eq!(m.code(), 16);
}

#[test]
fn from_ndarray_with_other_channels_is_a_shape_mismatch() {
    let inner = ndarray::Array3::from_shape_vec((2, 3, 2), vec![0u8; 12]).unwrap();
    let a = Array3 { inner };
    assert_eq!(Mat::<u8, 3>::from_ndarray(&a).err(), Some(Error::ShapeMismatch));
    assert_eq!(Mat::<u8, 1>::from_ndarray(&a).err(), Some(Error::ShapeMismatch));
    assert!(Mat::<u8, 2>::from_ndarray(&a).is_ok());
}

#[test]
fn from_ndarray_of_a_permuted_array_is_a_shape_mismatch() {
    let inner = ndarray::Array3::from_shape_vec((3, 2, 2), (0..12).collect::<Vec<u8>>()).unwrap();
    let a = Array3 { inner: inner.permuted_axes([1, 0, 2]) };
    assert_eq!(a.dim(), (2, 3, 2));
    assert_eq!(a.as_slice(), None);
    assert_eq!(Mat::<u8, 2>::from_ndarray(&a).err(), Some(Error::ShapeMismatch));
}

#[test]
fn an_image_without_a_shape_does_not_come_back_with_three_channels() {
    let src = Mat::<u8, 3>::new().unwrap();
    let a = src.to_ndarray();
    assert_eq!(a.dim(), (0, 0, 1));
    assert_eq!(Mat::<u8, 3>::from_ndarray(&a).err(), Some(Error::ShapeMismatch));
}

#[test]
fn array_parts_give_the_shape_and_a_copy() {
    let data: Vec<i16> = (0..12).collect();
    let src = Mat::<i16, 2>::from_shape_vec(2, 3, &data).unwrap();
    let (dim, elems) = src.array_parts();
    assert_eq!(dim, (2, 3, 2));
    assert_eq!(elems, data);
}

#[test]
fn from_array_parts_checks_channels_layout_and_length() {
    let data: Vec<i32> = (0..12).collect();
    let m = Mat::<i32, 2>::from_array_parts((2, 3, 2), Some(&data)).unwrap();
    assert_eq!((m.rows(), m.cols(), m.channels()), (2, 3, 2));
    assert_eq!(m.data(), data.as_slice());
    assert_eq!(m.code(), 12);
    assert_eq!(Mat::<i32, 3>::from_array_parts((2, 3, 2), Some(&data)).err(), Some(Error::ShapeMismatch));
    assert_eq!(Mat::<i32, 2>::from_array_parts((2, 3, 2), None).err(), Some(Error::ShapeMismatch));
    assert_eq!(Mat::<i32, 2>::from_array_parts((2, 2, 2), Some(&data)).err(), Some(Error::ShapeMismatch));
    let empty: Vec<i32> = Vec::new();
    assert_eq!(
        Mat::<i32, 2>::from_array_parts((usize::MAX, 0, 2), Some(&empty)).err(),
        Some(Error::AllocationFailure(String::new()))
    );
}

#[test]
fn arrays_of_other_element_types_round_trip_through_the_parts() {
    let data: Vec<u16> = (100..118).collect();
    let src = Mat::<u16, 3>::from_shape_vec(3, 2, &data).unwrap();
    let (dim, elems) = src.array_parts();
    let a = ndarray::Array3::from_shape_vec(dim, elems).unwrap();
    assert_eq!(a[[2, 1, 2]], 117);
    let dst = Mat::<u16, 3>::from_array_parts(a.dim(), a.as_slice()).unwrap();
    assert_eq!((dst.rows(), dst.cols(), dst.channels()), (3, 2, 3));
    assert_eq!(dst.data(), src.data());
}

#[test]
fn try_to_ndarray_gives_the_same_array() {
    let src = Mat::mock_7x6_square_2x4_2x3();
    let a = src.try_to_ndarray().unwrap();
    assert_eq!(a.dim(), (6, 7, 3));
    assert_eq!(a.as_slice().unwrap(), src.data());
    assert_eq!(a.inner, src.to_ndarray().inner);
}
