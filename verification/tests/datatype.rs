use dlpackrs::datatype::{DataType, DataTypeCode};
use dlpackrs::wire::DLDataType;

const CODES: [DataTypeCode; 6] = [
    DataTypeCode::Int,
    DataTypeCode::UInt,
    DataTypeCode::Float,
    DataTypeCode::OpaqueHandle,
    DataTypeCode::Bfloat,
    DataTypeCode::Complex,
];

#[test]
fn data_type_code_numbers() {
    for (number, code) in CODES.iter().enumerate() {
        assert_eq!(u8::from(*code) as usize, number);
        assert_eq!(u32::from(code) as usize, number);
    }
}

#[test]
fn data_type_code_round_trip() {
    for code in CODES.iter() {
        let found = DataTypeCode::try_from(u32::from(code)).unwrap();
        assert_eq!(found, *code);
    }
}

#[test]
fn data_type_code_unsupported() {
    let err = DataTypeCode::try_from(6u32).unwrap_err();
    assert_eq!(err.0, "6");
    assert_eq!(err.message(), "unsupported data type code: 6");
    let err = DataTypeCode::try_from(4294967295u32).unwrap_err();
    assert_eq!(err.0, "4294967295");
    let err = DataTypeCode::try_from(100u32).unwrap_err();
    assert_eq!(err.0, "100");
}

#[test]
fn data_type_new_and_fields() {
    let dt = DataType::new(2, 32, 4);
    assert_eq!(dt, DataType { code: 2, bits: 32, lanes: 4 });
    assert_eq!(dt.code(), 2);
    assert_eq!(dt.bits(), 32);
    assert_eq!(dt.lanes(), 4);
}

#[test]
fn data_type_constructors() {
    assert_eq!(DataType::signed(24, 3), DataType::new(0, 24, 3));
    assert_eq!(DataType::i8(), DataType::new(0, 8, 1));
    assert_eq!(DataType::i16(), DataType::new(0, 16, 1));
    assert_eq!(DataType::i32(), DataType::new(0, 32, 1));
    assert_eq!(DataType::i64(), DataType::new(0, 64, 1));
    assert_eq!(DataType::uint(24, 3), DataType::new(1, 24, 3));
    assert_eq!(DataType::u8(), DataType::new(1, 8, 1));
    assert_eq!(DataType::u16(), DataType::new(1, 16, 1));
    assert_eq!(DataType::u32(), DataType::new(1, 32, 1));
    assert_eq!(DataType::u64(), DataType::new(1, 64, 1));
    assert_eq!(DataType::float(16, 2), DataType::new(2, 16, 2));
    assert_eq!(DataType::float32(), DataType::new(2, 32, 1));
    assert_eq!(DataType::float64(), DataType::new(2, 64, 1));
    assert_eq!(DataType::opaque_handle(64, 1), DataType::new(3, 64, 1));
    assert_eq!(DataType::bfloat(16, 1), DataType::new(4, 16, 1));
    assert_eq!(DataType::complex(128, 1), DataType::new(5, 128, 1));
}

#[test]
fn data_type_wire_round_trip() {
    for code in CODES.iter() {
        for bits in [0u8, 1, 8, 16, 32, 64, 255] {
            for lanes in [0u16, 1, 2, 4, 65535] {
                let dt = DataType::new(u8::from(*code), bits, lanes);
                let wire = DLDataType::from(dt);
                assert_eq!(wire, DLDataType { code: u8::from(*code), bits, lanes });
                assert_eq!(DataType::from(wire), dt);
            }
        }
    }
}

#[test]
fn data_type_unknown_code_is_kept() {
    let wire = DLDataType { code: 200, bits: 3, lanes: 9 };
    let dt = DataType::from(wire);
    assert_eq!(dt, DataType { code: 200, bits: 3, lanes: 9 });
    assert_eq!(DLDataType::from(dt), wire);
}
