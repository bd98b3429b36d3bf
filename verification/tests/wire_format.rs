use lise_msgpack::error::EncodeError;
use lise_msgpack::object::{Leaf, LeafFailure, PyObject, PyType};
use lise_msgpack::serialize::leaf::{serialize_leaf, serialize_text};
use lise_msgpack::serialize::serializer::serialize;
use lise_msgpack::typeref::{LiSETypes, TypeRefs};
use lise_msgpack::wire::write_float_bits;

type NoFallback = fn(&PyObject) -> Option<PyObject>;

fn types() -> TypeRefs {
    TypeRefs {
        str_type: 1,
        bytes_type: 2,
        int_type: 3,
        bool_type: 4,
        none_type: 5,
        float_type: 6,
        list_type: 7,
        dict_type: 8,
        datetime_type: 9,
        date_type: 10,
        time_type: 11,
        tuple_type: 12,
        uuid_type: 13,
        enum_type: 14,
        ext_type: 15,
        numpy_types: None,
        lise_types: LiSETypes {
            character: 20,
            character_proxy: 21,
            thing: 22,
            thing_proxy: 23,
            place: 24,
            place_proxy: 25,
            portal: 26,
            portal_proxy: 27,
            final_rule: 28,
        },
    }
}

fn encode(obj: &PyObject) -> Result<Vec<u8>, EncodeError> {
    serialize(obj, None::<&NoFallback>, 0, &types())
}

fn integer(n: i64) -> PyObject {
    let leaf = if n >= 0 { Leaf::UInt(n as u64) } else { Leaf::Int(n) };
    PyObject::scalar(PyType::exact(3), leaf)
}

fn decoded(bytes: &[u8]) -> i64 {
    let mut reader = bytes;
    let value: i64 = rmp::decode::read_int(&mut reader).unwrap();
    assert!(reader.is_empty());
    value
}

#[test]
fn nil_is_one_marker_byte() {
    let obj = PyObject::scalar(PyType::exact(5), Leaf::Nil);
    assert_eq!(encode(&obj), Ok(vec![0xc0]));
}

#[test]
fn booleans_are_one_marker_byte() {
    let yes = PyObject::scalar(PyType::exact(4), Leaf::Bool(true));
    let no = PyObject::scalar(PyType::exact(4), Leaf::Bool(false));
    assert_eq!(encode(&yes), Ok(vec![0xc3]));
    assert_eq!(encode(&no), Ok(vec![0xc2]));
}

#[test]
fn small_positive_integers_are_fixints() {
    assert_eq!(encode(&integer(0)), Ok(vec![0x00]));
    assert_eq!(encode(&integer(5)), Ok(vec![0x05]));
    assert_eq!(encode(&integer(127)), Ok(vec![0x7f]));
}

#[test]
fn positive_integers_take_the_shortest_unsigned_form() {
    assert_eq!(encode(&integer(128)), Ok(vec![0xcc, 0x80]));
    assert_eq!(encode(&integer(255)), Ok(vec![0xcc, 0xff]));
    assert_eq!(encode(&integer(256)), Ok(vec![0xcd, 0x01, 0x00]));
    assert_eq!(encode(&integer(65535)), Ok(vec![0xcd, 0xff, 0xff]));
    assert_eq!(encode(&integer(65536)), Ok(vec![0xce, 0x00, 0x01, 0x00, 0x00]));
    assert_eq!(encode(&integer(4294967295)), Ok(vec![0xce, 0xff, 0xff, 0xff, 0xff]));
    assert_eq!(
        encode(&integer(4294967296)),
        Ok(vec![0xcf, 0x00, 0x00, 0x00, 0x01, 0x00, 0x00, 0x00, 0x00])
    );
    assert_eq!(
        encode(&integer(i64::MAX)),
        Ok(vec![0xcf, 0x7f, 0xff, 0xff, 0xff, 0xff, 0xff, 0xff, 0xff])
    );
}

#[test]
fn largest_unsigned_integer_takes_nine_bytes() {
    let obj = PyObject::scalar(PyType::exact(3), Leaf::UInt(u64::MAX));
    assert_eq!(
        encode(&obj),
        Ok(vec![0xcf, 0xff, 0xff, 0xff, 0xff, 0xff, 0xff, 0xff, 0xff])
    );
}

#[test]
fn negative_integers_take_the_shortest_signed_form() {
    assert_eq!(encode(&integer(-1)), Ok(vec![0xff]));
    assert_eq!(encode(&integer(-32)), Ok(vec![0xe0]));
    assert_eq!(encode(&integer(-33)), Ok(vec![0xd0, 0xdf]));
    assert_eq!(encode(&integer(-128)), Ok(vec![0xd0, 0x80]));
    assert_eq!(encode(&integer(-129)), Ok(vec![0xd1, 0xff, 0x7f]));
    assert_eq!(encode(&integer(-32768)), Ok(vec![0xd1, 0x80, 0x00]));
    assert_eq!(encode(&integer(-32769)), Ok(vec![0xd2, 0xff, 0xff, 0x7f, 0xff]));
    assert_eq!(encode(&integer(-2147483648)), Ok(vec![0xd2, 0x80, 0x00, 0x00, 0x00]));
    assert_eq!(
        encode(&integer(-2147483649)),
        Ok(vec![0xd3, 0xff, 0xff, 0xff, 0xff, 0x7f, 0xff, 0xff, 0xff])
    );
    assert_eq!(
        encode(&integer(i64::MIN)),
        Ok(vec![0xd3, 0x80, 0x00, 0x00, 0x00, 0x00, 0x00, 0x00, 0x00])
    );
}

#[test]
fn signed_leaf_with_a_positive_number_uses_the_unsigned_form() {
    let obj = PyObject::scalar(PyType::exact(3), Leaf::Int(300));
    assert_eq!(encode(&obj), Ok(vec![0xcd, 0x01, 0x2c]));
}

#[test]
fn every_form_of_integer_decodes_to_itself() {
    let samples: [i64; 23] = [
        0,
        1,
        127,
        128,
        255,
        256,
        65535,
        65536,
        4294967295,
        4294967296,
        i64::MAX,
        -1,
        -32,
        -33,
        -128,
        -129,
        -32768,
        -32769,
        -2147483648,
        -2147483649,
        i64::MIN + 1,
        i64::MIN,
        1234567890123,
    ];
    for n in samples {
        let bytes = encode(&integer(n)).unwrap();
        assert_eq!(decoded(&bytes), n);
    }
}

#[test]
fn integer_beyond_64_bits_is_out_of_range() {
    let obj = PyObject::scalar(PyType::exact(3), Leaf::BigInt);
    assert_eq!(encode(&obj), Err(EncodeError::IntegerOutOfRange));
}

#[test]
fn float_is_marker_and_eight_bytes_of_its_bits() {
    let obj = PyObject::scalar(PyType::exact(6), Leaf::Float(1.5f64.to_bits()));
    assert_eq!(
        encode(&obj),
        Ok(vec![0xcb, 0x3f, 0xf8, 0x00, 0x00, 0x00, 0x00, 0x00, 0x00])
    );
}

#[test]
fn float_bits_are_written_most_significant_first() {
    let mut buf = vec![0xaa];
    write_float_bits(&mut buf, 0x0102_0304_0506_0708);
    assert_eq!(buf, vec![0xaa, 0xcb, 1, 2, 3, 4, 5, 6, 7, 8]);
}

#[test]
fn float_decodes_to_the_same_number() {
    let obj = PyObject::scalar(PyType::exact(6), Leaf::Float((-2.25f64).to_bits()));
    let bytes = encode(&obj).unwrap();
    let mut reader = &bytes[..];
    assert_eq!(rmp::decode::read_f64(&mut reader).unwrap(), -2.25f64);
}

#[test]
fn short_string_has_a_one_byte_header() {
    let obj = PyObject::scalar(PyType::exact(1), Leaf::Str("Alice".to_string()));
    assert_eq!(encode(&obj), Ok(vec![0xa5, b'A', b'l', b'i', b'c', b'e']));
}

#[test]
fn empty_string_is_one_byte() {
    assert_eq!(serialize_text(""), Ok(vec![0xa0]));
}

#[test]
fn string_of_32_bytes_has_a_two_byte_header() {
    let text = "x".repeat(32);
    let mut expected = vec![0xd9, 32];
    expected.extend_from_slice(text.as_bytes());
    assert_eq!(serialize_text(&text), Ok(expected));
}

#[test]
fn string_of_256_bytes_has_a_three_byte_header() {
    let text = "y".repeat(256);
    let mut expected = vec![0xda, 0x01, 0x00];
    expected.extend_from_slice(text.as_bytes());
    assert_eq!(serialize_text(&text), Ok(expected));
}

#[test]
fn string_of_65536_bytes_has_a_five_byte_header() {
    let text = "z".repeat(65536);
    let mut expected = vec![0xdb, 0x00, 0x01, 0x00, 0x00];
    expected.extend_from_slice(text.as_bytes());
    assert_eq!(serialize_text(&text), Ok(expected));
}

#[test]
fn string_length_counts_bytes_not_characters() {
    // Two characters, five bytes of UTF-8.
    assert_eq!(
        serialize_text("é€"),
        Ok(vec![0xa5, 0xc3, 0xa9, 0xe2, 0x82, 0xac])
    );
}

#[test]
fn byte_string_has_a_length_header() {
    let obj = PyObject::scalar(PyType::exact(2), Leaf::Bin(vec![1, 2, 3]));
    assert_eq!(encode(&obj), Ok(vec![0xc4, 3, 1, 2, 3]));
}

#[test]
fn byte_string_of_256_bytes_has_a_two_byte_length() {
    let data = vec![7u8; 256];
    let mut expected = vec![0xc5, 0x01, 0x00];
    expected.extend_from_slice(&data);
    assert_eq!(serialize_leaf(&Leaf::Bin(data)), Ok(expected));
}

#[test]
fn extension_leaf_of_one_byte_is_a_fixext() {
    let leaf = Leaf::Ext { tag: 5, data: vec![9] };
    assert_eq!(serialize_leaf(&leaf), Ok(vec![0xd4, 5, 9]));
}

#[test]
fn extension_leaf_lengths_pick_their_header() {
    assert_eq!(
        serialize_leaf(&Leaf::Ext { tag: 1, data: vec![1, 2] }),
        Ok(vec![0xd5, 1, 1, 2])
    );
    assert_eq!(
        serialize_leaf(&Leaf::Ext { tag: 1, data: vec![1, 2, 3] }),
        Ok(vec![0xc7, 3, 1, 1, 2, 3])
    );
    assert_eq!(
        serialize_leaf(&Leaf::Ext { tag: 1, data: vec![] }),
        Ok(vec![0xc7, 0, 1])
    );
    let eight = vec![4u8; 8];
    let mut expected = vec![0xd7, 127];
    expected.extend_from_slice(&eight);
    assert_eq!(serialize_leaf(&Leaf::Ext { tag: 127, data: eight }), Ok(expected));
    let long = vec![6u8; 300];
    let mut expected = vec![0xc8, 0x01, 0x2c, 2];
    expected.extend_from_slice(&long);
    assert_eq!(serialize_leaf(&Leaf::Ext { tag: 2, data: long }), Ok(expected));
}

#[test]
fn extension_leaf_with_negative_tag_is_refused() {
    let leaf = Leaf::Ext { tag: -1, data: vec![1] };
    assert_eq!(serialize_leaf(&leaf), Err(EncodeError::ReservedExtensionTag));
}

#[test]
fn numeric_array_is_a_sequence_of_its_elements() {
    let leaf = Leaf::Array(vec![
        Leaf::Array(vec![Leaf::UInt(1), Leaf::UInt(2)]),
        Leaf::Array(vec![Leaf::Int(-1), Leaf::UInt(200)]),
    ]);
    assert_eq!(
        serialize_leaf(&leaf),
        Ok(vec![0x92, 0x92, 1, 2, 0x92, 0xff, 0xcc, 200])
    );
}

#[test]
fn numeric_array_of_sixteen_elements_has_a_three_byte_header() {
    let leaf = Leaf::Array((0..16).map(Leaf::UInt).collect());
    let mut expected = vec![0xdc, 0x00, 0x10];
    expected.extend(0..16u8);
    assert_eq!(serialize_leaf(&leaf), Ok(expected));
}

#[test]
fn numeric_array_fails_with_its_first_failing_element() {
    let leaf = Leaf::Array(vec![
        Leaf::UInt(1),
        Leaf::BigInt,
        Leaf::Failed(LeafFailure::TimeHasTimezone),
    ]);
    assert_eq!(serialize_leaf(&leaf), Err(EncodeError::IntegerOutOfRange));
}

#[test]
fn failed_leaves_report_their_failure() {
    assert_eq!(
        serialize_leaf(&Leaf::Failed(LeafFailure::TimeHasTimezone)),
        Err(EncodeError::TimeHasTimezone)
    );
    assert_eq!(
        serialize_leaf(&Leaf::Failed(LeafFailure::NumericArrayMalformed)),
        Err(EncodeError::NumericArrayMalformed)
    );
    assert_eq!(
        serialize_leaf(&Leaf::Failed(LeafFailure::NumericArrayNotContiguous)),
        Err(EncodeError::NumericArrayNotContiguous)
    );
    assert_eq!(
        serialize_leaf(&Leaf::Failed(LeafFailure::NumericArrayUnsupportedDataType)),
        Err(EncodeError::NumericArrayUnsupportedDataType)
    );
}

#[test]
fn every_error_has_its_own_message() {
    let all = [
        EncodeError::RecursionLimitReached,
        EncodeError::UnsupportedType,
        EncodeError::TimeHasTimezone,
        EncodeError::NumericArrayMalformed,
        EncodeError::NumericArrayNotContiguous,
        EncodeError::NumericArrayUnsupportedDataType,
        EncodeError::TypedRecordMissingFieldMap,
        EncodeError::DomainEntityKindUnrecognized,
        EncodeError::FallbackLimitReached,
        EncodeError::IntegerOutOfRange,
        EncodeError::MissingAttribute,
        EncodeError::ReservedExtensionTag,
        EncodeError::LengthOverflow,
    ];
    for (i, a) in all.iter().enumerate() {
        assert!(!a.message().is_empty());
        for b in all.iter().skip(i + 1) {
            assert_ne!(a.message(), b.message());
        }
    }
    assert_eq!(EncodeError::RecursionLimitReached.message(), "Recursion limit reached");
}
