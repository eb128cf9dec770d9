use rxcv::consts::{make_type, DataTypes, PointBase, Size, SizeT};

const DEPTHS: [DataTypes; 8] = [
    DataTypes::CV_8U,
    DataTypes::CV_8S,
    DataTypes::CV_16U,
    DataTypes::CV_16S,
    DataTypes::CV_32S,
    DataTypes::CV_32F,
    DataTypes::CV_64F,
    DataTypes::CV_16F,
];

#[test]
fn make_type_test() {
    assert_eq!(make_type(DataTypes::CV_16U, 3), 18);
}

#[test]
fn consts_data_type_test() {
    assert_eq!(DataTypes::CV_8UC1.bits(), 0);
    assert_eq!(DataTypes::CV_8UC2.bits(), 8);
    assert_eq!(DataTypes::CV_8UC3.bits(), 16);
    assert_eq!(DataTypes::CV_8SC1.bits(), 1);
    assert_eq!(DataTypes::CV_8SC2.bits(), 9);
    assert_eq!(DataTypes::CV_8SC3.bits(), 17);
    assert_eq!(DataTypes::CV_16UC1.bits(), 2);
    assert_eq!(DataTypes::CV_16UC2.bits(), 10);
    assert_eq!(DataTypes::CV_16UC3.bits(), 18);
    assert_eq!(DataTypes::CV_16SC1.bits(), 3);
    assert_eq!(DataTypes::CV_16SC2.bits(), 11);
    assert_eq!(DataTypes::CV_16SC3.bits(), 19);
    assert_eq!(DataTypes::CV_32SC1.bits(), 4);
    assert_eq!(DataTypes::CV_32SC2.bits(), 12);
    assert_eq!(DataTypes::CV_32SC3.bits(), 20);
    assert_eq!(DataTypes::CV_32FC1.bits(), 5);
    assert_eq!(DataTypes::CV_32FC2.bits(), 13);
    assert_eq!(DataTypes::CV_32FC3.bits(), 21);
    assert_eq!(DataTypes::CV_64FC1.bits(), 6);
    assert_eq!(DataTypes::CV_64FC2.bits(), 14);
    assert_eq!(DataTypes::CV_64FC3.bits(), 22);
}

#[test]
fn bare_depths_carry_their_number() {
    for (i, depth) in DEPTHS.iter().enumerate() {
        assert_eq!(depth.bits(), i as i32);
        assert_eq!(depth.depth(), *depth);
        assert_eq!(depth.channels(), 1);
    }
}

#[test]
fn decode_gives_back_every_encoded_pair() {
    for depth in DEPTHS.iter() {
        for ch in 1..=4 {
            let code = make_type(*depth, ch);
            assert_eq!(code, depth.bits() | ((ch - 1) << 3));
            let decoded = DataTypes::from_bits(code).unwrap();
            assert_eq!(decoded.bits(), code);
            assert_eq!(decoded.depth(), *depth);
            assert_eq!(decoded.channels(), ch);
        }
    }
}

#[test]
fn four_channel_codes() {
    assert_eq!(DataTypes::CV_8UC4.bits(), 24);
    assert_eq!(DataTypes::CV_16FC4.bits(), 31);
    assert_eq!(make_type(DataTypes::CV_16F, 4), 31);
    assert_eq!(DataTypes::from_bits(31), Some(DataTypes::CV_16FC4));
    assert_eq!(DataTypes::from_bits(0), Some(DataTypes::CV_8UC1));
}

#[test]
fn make_type_uses_only_the_depth_bits() {
    assert_eq!(make_type(DataTypes::CV_16UC3, 1), 2);
    assert_eq!(make_type(DataTypes::CV_64FC4, 2), 14);
}

#[test]
fn unknown_codes_do_not_decode() {
    assert_eq!(DataTypes::from_bits(32), None);
    assert_eq!(DataTypes::from_bits(-1), None);
    assert_eq!(DataTypes::from_bits(i32::MAX), None);
    assert_eq!(DataTypes::from_bits(i32::MIN), None);
}

#[test]
fn default_point_is_minus_one() {
    let p: PointBase<i32> = Default::default();
    assert_eq!(p, PointBase { x: -1, y: -1 });
    let s: Size = SizeT { width: 10, height: 4 };
    assert_eq!(s.width, 10);
    assert_eq!(s.height, 4);
}
