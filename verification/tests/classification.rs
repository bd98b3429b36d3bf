use lise_msgpack::object::{Attr, AttrName, Leaf, LeafFailure, PyObject, PyType};
use lise_msgpack::opt::{
    has_flag, Opt, PASSTHROUGH_BIG_INT, PASSTHROUGH_DATACLASS, PASSTHROUGH_DATETIME,
    PASSTHROUGH_SUBCLASS, PASSTHROUGH_TUPLE, SERIALIZE_NUMPY, SERIALIZE_PYDANTIC,
};
use lise_msgpack::serialize::serializer::{
    pyobject_to_obtype, pyobject_to_obtype_unlikely, ObType, RECURSION_LIMIT,
};
use lise_msgpack::typeref::{is_numpy_array, is_numpy_scalar, LiSETypes, NumpyTypes, TypeRefs};

const STR: usize = 1;
const BYTES: usize = 2;
const INT: usize = 3;
const BOOL: usize = 4;
const NONE_TYPE: usize = 5;
const FLOAT: usize = 6;
const LIST: usize = 7;
const DICT: usize = 8;
const DATETIME: usize = 9;
const DATE: usize = 10;
const TIME: usize = 11;
const TUPLE: usize = 12;
const UUID: usize = 13;
const ENUM_META: usize = 14;
const EXT: usize = 15;
const OTHER: usize = 99;

fn numpy() -> NumpyTypes {
    NumpyTypes {
        array: 30,
        float64: 31,
        float32: 32,
        int64: 33,
        int32: 34,
        int16: 35,
        int8: 36,
        uint64: 37,
        uint32: 38,
        uint16: 39,
        uint8: 40,
        bool_: 41,
    }
}

fn types() -> TypeRefs {
    TypeRefs {
        str_type: STR,
        bytes_type: BYTES,
        int_type: INT,
        bool_type: BOOL,
        none_type: NONE_TYPE,
        float_type: FLOAT,
        list_type: LIST,
        dict_type: DICT,
        datetime_type: DATETIME,
        date_type: DATE,
        time_type: TIME,
        tuple_type: TUPLE,
        uuid_type: UUID,
        enum_type: ENUM_META,
        ext_type: EXT,
        numpy_types: Some(numpy()),
        lise_types: LiSETypes {
            character: 20,
            character_proxy: 21,
            thing: 22,
            thing_proxy: 23,
            place: 24,
            place_proxy: 25,
            portal: 26,
            portal_proxy: 27,
            final_rule: 28,
        },
    }
}

fn of_type(ty: PyType) -> PyObject {
    PyObject::scalar(ty, Leaf::Nil)
}

fn classify(ty: PyType, opts: Opt) -> ObType {
    pyobject_to_obtype(&of_type(ty), opts, &types())
}

fn classify_exact(id: usize, opts: Opt) -> ObType {
    classify(PyType::exact(id), opts)
}

fn integer_of(ty: PyType, leaf: Leaf, opts: Opt) -> ObType {
    pyobject_to_obtype(&PyObject::scalar(ty, leaf), opts, &types())
}

#[test]
fn recursion_limit_is_255() {
    assert_eq!(RECURSION_LIMIT, 255);
}

#[test]
fn flags_are_seven_distinct_bits() {
    let flags = [
        PASSTHROUGH_BIG_INT,
        PASSTHROUGH_DATETIME,
        PASSTHROUGH_TUPLE,
        PASSTHROUGH_SUBCLASS,
        PASSTHROUGH_DATACLASS,
        SERIALIZE_NUMPY,
        SERIALIZE_PYDANTIC,
    ];
    for (i, a) in flags.iter().enumerate() {
        assert_eq!(a.count_ones(), 1);
        assert!(has_flag(*a, *a));
        assert!(!has_flag(0, *a));
        for b in flags.iter().skip(i + 1) {
            assert_ne!(a, b);
            assert!(!has_flag(*a, *b));
            assert!(has_flag(*a | *b, *b));
        }
    }
}

#[test]
fn exact_types_classify_by_identity() {
    assert_eq!(classify_exact(STR, 0), ObType::Str);
    assert_eq!(classify_exact(BYTES, 0), ObType::Bytes);
    assert_eq!(classify_exact(INT, 0), ObType::Int);
    assert_eq!(classify_exact(BOOL, 0), ObType::Bool);
    assert_eq!(classify_exact(NONE_TYPE, 0), ObType::Null);
    assert_eq!(classify_exact(FLOAT, 0), ObType::Float);
    assert_eq!(classify_exact(LIST, 0), ObType::List);
    assert_eq!(classify_exact(DICT, 0), ObType::Dict);
    assert_eq!(classify_exact(DATETIME, 0), ObType::Datetime);
    assert_eq!(classify_exact(DATE, 0), ObType::Date);
    assert_eq!(classify_exact(TIME, 0), ObType::Time);
    assert_eq!(classify_exact(TUPLE, 0), ObType::Tuple);
    assert_eq!(classify_exact(UUID, 0), ObType::Uuid);
    assert_eq!(classify_exact(EXT, 0), ObType::Ext);
    assert_eq!(classify_exact(OTHER, 0), ObType::Unknown);
}

#[test]
fn instances_classify_by_what_they_are() {
    assert_eq!(
        classify(PyType { set_instance: true, ..PyType::exact(OTHER) }, 0),
        ObType::MutableSet
    );
    assert_eq!(
        classify(PyType { frozenset_instance: true, ..PyType::exact(OTHER) }, 0),
        ObType::FrozenSet
    );
    assert_eq!(
        classify(PyType { exception_instance: true, ..PyType::exact(OTHER) }, 0),
        ObType::Exception
    );
}

#[test]
fn world_entities_classify_by_either_realisation() {
    for id in 20..=28 {
        assert_eq!(classify_exact(id, 0), ObType::LiSE);
    }
    assert_eq!(classify_exact(29, 0), ObType::Unknown);
}

#[test]
fn common_cases_come_before_the_rare_ones() {
    // A set that is also an exception and a record is a set.
    let ty = PyType {
        set_instance: true,
        frozenset_instance: true,
        exception_instance: true,
        dataclass_fields: true,
        ..PyType::exact(20)
    };
    assert_eq!(classify(ty, 0), ObType::MutableSet);
    // A frozen set comes before an exception.
    let ty = PyType { frozenset_instance: true, exception_instance: true, ..PyType::exact(OTHER) };
    assert_eq!(classify(ty, 0), ObType::FrozenSet);
    // An exception of an entity type is an exception.
    let ty = PyType { exception_instance: true, ..PyType::exact(20) };
    assert_eq!(classify(ty, 0), ObType::Exception);
    // The exact string type comes before everything.
    let ty = PyType { set_instance: true, ..PyType::exact(STR) };
    assert_eq!(classify(ty, 0), ObType::Str);
}

#[test]
fn rare_cases_keep_their_order() {
    // An entity type comes before a record.
    let ty = PyType { dataclass_fields: true, ..PyType::exact(22) };
    assert_eq!(classify(ty, 0), ObType::LiSE);
    // An enumeration member comes before a string subclass.
    let ty = PyType { meta: ENUM_META, unicode_subclass: true, ..PyType::exact(OTHER) };
    assert_eq!(classify(ty, 0), ObType::Enum);
    // A string subclass comes before an integer subclass, a list subclass
    // and a record.
    let ty = PyType {
        unicode_subclass: true,
        long_subclass: true,
        list_subclass: true,
        dataclass_fields: true,
        ..PyType::exact(OTHER)
    };
    assert_eq!(classify(ty, 0), ObType::StrSubclass);
    let ty = PyType { long_subclass: true, list_subclass: true, ..PyType::exact(OTHER) };
    assert_eq!(classify(ty, 0), ObType::Int);
    let ty = PyType { list_subclass: true, dict_subclass: true, ..PyType::exact(OTHER) };
    assert_eq!(classify(ty, 0), ObType::List);
    let ty = PyType { dict_subclass: true, dataclass_fields: true, ..PyType::exact(OTHER) };
    assert_eq!(classify(ty, 0), ObType::Dict);
    // A record comes before a numeric scalar and a typed record.
    let ty = PyType { dataclass_fields: true, pydantic_fields: true, ..PyType::exact(31) };
    assert_eq!(classify(ty, SERIALIZE_NUMPY | SERIALIZE_PYDANTIC), ObType::Dataclass);
    // A numeric type comes before a typed record.
    let ty = PyType { pydantic_fields: true, ..PyType::exact(30) };
    assert_eq!(classify(ty, SERIALIZE_NUMPY | SERIALIZE_PYDANTIC), ObType::NumpyArray);
    // A typed record comes before an extension value.
    let ty = PyType { pydantic_fields: true, ..PyType::exact(EXT) };
    assert_eq!(classify(ty, SERIALIZE_PYDANTIC), ObType::Pydantic);
}

#[test]
fn rare_path_alone_does_not_look_at_the_common_cases() {
    let obj = of_type(PyType::exact(STR));
    assert_eq!(pyobject_to_obtype_unlikely(&obj, 0, &types()), ObType::Unknown);
    let obj = of_type(PyType { set_instance: true, ..PyType::exact(TUPLE) });
    assert_eq!(pyobject_to_obtype_unlikely(&obj, 0, &types()), ObType::Tuple);
    assert_eq!(pyobject_to_obtype(&obj, 0, &types()), ObType::MutableSet);
}

#[test]
fn enumeration_member_is_known_by_the_type_of_its_type() {
    let ty = PyType { meta: ENUM_META, ..PyType::exact(OTHER) };
    assert_eq!(classify(ty, 0), ObType::Enum);
    assert_eq!(classify(PyType { meta: 77, ..PyType::exact(OTHER) }, 0), ObType::Unknown);
}

#[test]
fn integers_are_encoded_unless_big_and_passed_through() {
    let exact = PyType { long_subclass: true, ..PyType::exact(INT) };
    for leaf in [Leaf::UInt(0), Leaf::UInt(u64::MAX), Leaf::Int(-1), Leaf::Int(i64::MIN + 1)] {
        assert_eq!(integer_of(exact, leaf, PASSTHROUGH_BIG_INT), ObType::Int);
    }
    assert_eq!(integer_of(exact, Leaf::BigInt, 0), ObType::Int);
    assert_eq!(integer_of(exact, Leaf::Int(i64::MIN), 0), ObType::Int);
    assert_eq!(integer_of(exact, Leaf::BigInt, PASSTHROUGH_BIG_INT), ObType::Unknown);
}

#[test]
fn most_negative_64_bit_integer_needs_64_bits_of_magnitude() {
    // A negative integer is passed through once its magnitude exceeds 63 bits.
    let exact = PyType { long_subclass: true, ..PyType::exact(INT) };
    assert_eq!(integer_of(exact, Leaf::Int(i64::MIN), PASSTHROUGH_BIG_INT), ObType::Unknown);
    assert!(!Leaf::Int(i64::MIN).fits_wire_int());
    assert!(Leaf::Int(i64::MIN + 1).fits_wire_int());
    assert!(Leaf::UInt(u64::MAX).fits_wire_int());
    assert!(!Leaf::BigInt.fits_wire_int());
    assert!(Leaf::Nil.fits_wire_int());
}

#[test]
fn integer_subclass_follows_the_same_rule() {
    let derived = PyType { long_subclass: true, ..PyType::exact(OTHER) };
    assert_eq!(integer_of(derived, Leaf::UInt(5), 0), ObType::Int);
    assert_eq!(integer_of(derived, Leaf::BigInt, 0), ObType::Int);
    assert_eq!(integer_of(derived, Leaf::UInt(5), PASSTHROUGH_BIG_INT), ObType::Int);
    assert_eq!(integer_of(derived, Leaf::BigInt, PASSTHROUGH_BIG_INT), ObType::Unknown);
    assert_eq!(integer_of(derived, Leaf::UInt(5), PASSTHROUGH_SUBCLASS), ObType::Unknown);
}

#[test]
fn big_integer_that_is_also_a_list_subclass_falls_to_the_list() {
    let ty = PyType { long_subclass: true, list_subclass: true, ..PyType::exact(OTHER) };
    assert_eq!(integer_of(ty, Leaf::BigInt, PASSTHROUGH_BIG_INT), ObType::List);
}

#[test]
fn passed_through_datetime_is_unknown() {
    for id in [DATETIME, DATE, TIME] {
        assert_eq!(classify_exact(id, PASSTHROUGH_DATETIME), ObType::Unknown);
        assert_ne!(classify_exact(id, PASSTHROUGH_TUPLE), ObType::Unknown);
    }
}

#[test]
fn passed_through_tuple_is_unknown() {
    assert_eq!(classify_exact(TUPLE, PASSTHROUGH_TUPLE), ObType::Unknown);
    assert_eq!(classify_exact(TUPLE, PASSTHROUGH_DATETIME), ObType::Tuple);
}

#[test]
fn passed_through_subclasses_are_unknown() {
    let all = PyType {
        unicode_subclass: true,
        long_subclass: true,
        list_subclass: true,
        dict_subclass: true,
        ..PyType::exact(OTHER)
    };
    assert_eq!(classify(all, PASSTHROUGH_SUBCLASS), ObType::Unknown);
    // The exact types are no subclasses.
    assert_eq!(
        classify(PyType { unicode_subclass: true, ..PyType::exact(STR) }, PASSTHROUGH_SUBCLASS),
        ObType::Str
    );
    assert_eq!(
        classify(PyType { list_subclass: true, ..PyType::exact(LIST) }, PASSTHROUGH_SUBCLASS),
        ObType::List
    );
}

#[test]
fn passed_through_record_is_unknown() {
    let ty = PyType { dataclass_fields: true, ..PyType::exact(OTHER) };
    assert_eq!(classify(ty, 0), ObType::Dataclass);
    assert_eq!(classify(ty, PASSTHROUGH_DATACLASS), ObType::Unknown);
}

#[test]
fn numeric_types_are_opt_in() {
    assert_eq!(classify_exact(30, 0), ObType::Unknown);
    assert_eq!(classify_exact(31, 0), ObType::Unknown);
    assert_eq!(classify_exact(30, SERIALIZE_NUMPY), ObType::NumpyArray);
    for id in 31..=41 {
        assert_eq!(classify_exact(id, SERIALIZE_NUMPY), ObType::NumpyScalar);
    }
    assert_eq!(classify_exact(42, SERIALIZE_NUMPY), ObType::Unknown);
}

#[test]
fn numeric_types_need_the_numeric_library() {
    let without = TypeRefs { numpy_types: None, ..types() };
    let obj = of_type(PyType::exact(30));
    assert_eq!(pyobject_to_obtype(&obj, SERIALIZE_NUMPY, &without), ObType::Unknown);
    assert!(!is_numpy_array(30, &without));
    assert!(!is_numpy_scalar(31, &without));
    assert!(is_numpy_array(30, &types()));
    assert!(!is_numpy_array(31, &types()));
    assert!(is_numpy_scalar(31, &types()));
    assert!(is_numpy_scalar(41, &types()));
    assert!(!is_numpy_scalar(30, &types()));
}

#[test]
fn typed_records_are_opt_in() {
    let ty = PyType { pydantic_fields: true, ..PyType::exact(OTHER) };
    assert_eq!(classify(ty, 0), ObType::Unknown);
    assert_eq!(classify(ty, SERIALIZE_PYDANTIC), ObType::Pydantic);
    assert_eq!(classify(ty, SERIALIZE_NUMPY), ObType::Unknown);
}

#[test]
fn classification_does_not_look_at_the_content() {
    // The type says string; elements, entries and attributes do not matter.
    let mut obj = PyObject::scalar(
        PyType::exact(STR),
        Leaf::Failed(LeafFailure::TimeHasTimezone),
    );
    obj.items.push(of_type(PyType::exact(OTHER)));
    obj.attrs.push(Attr { name: AttrName::Name, value: of_type(PyType::exact(OTHER)) });
    assert_eq!(pyobject_to_obtype(&obj, 0, &types()), ObType::Str);
}

#[test]
fn exact_type_facts_set_nothing_but_the_identity() {
    let ty = PyType::exact(17);
    assert_eq!(ty.id, 17);
    assert_eq!(ty.meta, 0);
    assert!(!ty.unicode_subclass && !ty.long_subclass && !ty.list_subclass && !ty.dict_subclass);
    assert!(!ty.set_instance && !ty.frozenset_instance && !ty.exception_instance);
    assert!(!ty.dataclass_fields && !ty.pydantic_fields);
}
