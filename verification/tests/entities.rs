use lise_msgpack::error::EncodeError;
use lise_msgpack::object::{Attr, AttrName, Leaf, PyObject, PyType};
use lise_msgpack::serialize::lise::{get_graph_name, ExceptionSerializer, LiSESerializer};
use lise_msgpack::serialize::serializer::serialize;
use lise_msgpack::typeref::{LiSEType, LiSETypes, TypeRefs};

type NoFallback = fn(&PyObject) -> Option<PyObject>;

const NONE: Option<&NoFallback> = None;

const CHARACTER: usize = 20;
const CHARACTER_PROXY: usize = 21;
const THING: usize = 22;
const THING_PROXY: usize = 23;
const PLACE: usize = 24;
const PLACE_PROXY: usize = 25;
const PORTAL: usize = 26;
const PORTAL_PROXY: usize = 27;
const FINAL_RULE: usize = 28;

fn entity_types() -> LiSETypes {
    LiSETypes {
        character: CHARACTER,
        character_proxy: CHARACTER_PROXY,
        thing: THING,
        thing_proxy: THING_PROXY,
        place: PLACE,
        place_proxy: PLACE_PROXY,
        portal: PORTAL,
        portal_proxy: PORTAL_PROXY,
        final_rule: FINAL_RULE,
    }
}

fn types() -> TypeRefs {
    TypeRefs {
        str_type: 1,
        bytes_type: 2,
        int_type: 3,
        bool_type: 4,
        none_type: 5,
        float_type: 6,
        list_type: 7,
        dict_type: 8,
        datetime_type: 9,
        date_type: 10,
        time_type: 11,
        tuple_type: 12,
        uuid_type: 13,
        enum_type: 14,
        ext_type: 15,
        numpy_types: None,
        lise_types: entity_types(),
    }
}

fn encode(obj: &PyObject) -> Result<Vec<u8>, EncodeError> {
    serialize(obj, NONE, 0, &types())
}

fn number(n: u64) -> PyObject {
    PyObject::scalar(PyType::exact(3), Leaf::UInt(n))
}

fn text(s: &str) -> PyObject {
    PyObject::scalar(PyType::exact(1), Leaf::Str(s.to_string()))
}

fn attr(name: AttrName, value: PyObject) -> Attr {
    Attr { name, value }
}

/// A graph object that is far larger than its name.
fn graph(name: &str) -> PyObject {
    let filler = (0..50).map(number).collect();
    let mut obj = PyObject::sequence(PyType::exact(70), filler);
    obj.attrs.push(attr(AttrName::Name, text(name)));
    obj
}

fn character(ty: usize, name: &str) -> PyObject {
    PyObject::instance(PyType::exact(ty), vec![attr(AttrName::Name, text(name))])
}

fn node(ty: usize, graph_name: &str, name: &str) -> PyObject {
    PyObject::instance(
        PyType::exact(ty),
        vec![attr(AttrName::Graph, graph(graph_name)), attr(AttrName::Node, text(name))],
    )
}

fn portal(ty: usize, graph_name: &str, orig: &str, dest: &str) -> PyObject {
    PyObject::instance(
        PyType::exact(ty),
        vec![
            attr(AttrName::Graph, graph(graph_name)),
            attr(AttrName::Orig, text(orig)),
            attr(AttrName::Dest, text(dest)),
        ],
    )
}

fn exception(class_name: &str, traceback: Option<PyObject>, args: Vec<PyObject>) -> PyObject {
    let class = PyObject::instance(
        PyType::exact(80),
        vec![attr(AttrName::ClassName, text(class_name))],
    );
    let mut attrs = vec![
        attr(AttrName::Args, PyObject::sequence(PyType::exact(12), args)),
        attr(AttrName::Class, class),
    ];
    if let Some(traceback) = traceback {
        attrs.push(attr(AttrName::Traceback, traceback));
    }
    PyObject::instance(PyType { exception_instance: true, ..PyType::exact(81) }, attrs)
}

fn leaf_text(obj: &PyObject) -> Option<&str> {
    match &obj.leaf {
        Leaf::Str(text) => Some(text.as_str()),
        _ => None,
    }
}

/// Splits an extension value into its code and its payload.
fn open_envelope(bytes: &[u8]) -> (i8, Vec<u8>) {
    let mut reader = bytes;
    let meta = rmp::decode::read_ext_meta(&mut reader).unwrap();
    assert_eq!(meta.size as usize, reader.len());
    (meta.typeid, reader.to_vec())
}

/// Reads a sequence of strings.
fn read_strings(mut reader: &[u8]) -> Vec<String> {
    let len = rmp::decode::read_array_len(&mut reader).unwrap();
    let mut found = Vec::new();
    for _ in 0..len {
        let (text, rest) = rmp::decode::read_str_from_slice(reader).unwrap();
        found.push(text.to_string());
        reader = rest;
    }
    assert!(reader.is_empty());
    found
}

#[test]
fn character_named_alice() {
    let bytes = encode(&character(CHARACTER, "Alice")).unwrap();
    assert_eq!(
        bytes,
        vec![0xc7, 7, 0x7f, 0x91, 0xa5, b'A', b'l', b'i', b'c', b'e']
    );
    let (code, payload) = open_envelope(&bytes);
    assert_eq!(code, 0x7f);
    assert_eq!(read_strings(&payload), vec!["Alice"]);
}

#[test]
fn portal_from_a_to_b() {
    let bytes = encode(&portal(PORTAL, "World", "A", "B")).unwrap();
    assert_eq!(
        bytes,
        vec![
            0xc7, 11, 0x7c, 0x93, 0xa5, b'W', b'o', b'r', b'l', b'd', 0xa1, b'A', 0xa1, b'B'
        ]
    );
    let (code, payload) = open_envelope(&bytes);
    assert_eq!(code, 0x7c);
    assert_eq!(read_strings(&payload), vec!["World", "A", "B"]);
}

#[test]
fn thing_holds_graph_name_and_node() {
    let bytes = encode(&node(THING, "World", "box")).unwrap();
    assert_eq!(
        bytes,
        vec![
            0xc7, 11, 0x7d, 0x92, 0xa5, b'W', b'o', b'r', b'l', b'd', 0xa3, b'b', b'o', b'x'
        ]
    );
}

#[test]
fn place_holds_graph_name_and_node() {
    let bytes = encode(&node(PLACE, "World", "hut")).unwrap();
    let (code, payload) = open_envelope(&bytes);
    assert_eq!(code, 0x7e);
    assert_eq!(read_strings(&payload), vec!["World", "hut"]);
}

#[test]
fn final_rule_wraps_an_empty_sequence() {
    let obj = PyObject::instance(PyType::exact(FINAL_RULE), vec![]);
    assert_eq!(encode(&obj), Ok(vec![0xd4, 0x7b, 0x90]));
}

#[test]
fn graph_is_represented_by_its_name_alone() {
    let bytes = encode(&node(THING, "g", "n")).unwrap();
    // Header, code, sequence header and two one-letter strings: the fifty
    // elements of the graph object are nowhere.
    assert_eq!(bytes, vec![0xc7, 5, 0x7d, 0x92, 0xa1, b'g', 0xa1, b'n']);
}

#[test]
fn proxies_encode_as_the_live_entities_do() {
    assert_eq!(
        encode(&character(CHARACTER_PROXY, "Alice")),
        encode(&character(CHARACTER, "Alice"))
    );
    assert_eq!(
        encode(&node(THING_PROXY, "World", "box")),
        encode(&node(THING, "World", "box"))
    );
    assert_eq!(
        encode(&node(PLACE_PROXY, "World", "hut")),
        encode(&node(PLACE, "World", "hut"))
    );
    assert_eq!(
        encode(&portal(PORTAL_PROXY, "World", "A", "B")),
        encode(&portal(PORTAL, "World", "A", "B"))
    );
}

#[test]
fn the_five_kinds_travel_under_five_codes() {
    let code_of = |obj: PyObject| open_envelope(&encode(&obj).unwrap()).0;
    assert_eq!(code_of(character(CHARACTER, "x")), 0x7f);
    assert_eq!(code_of(node(PLACE, "g", "x")), 0x7e);
    assert_eq!(code_of(node(THING, "g", "x")), 0x7d);
    assert_eq!(code_of(portal(PORTAL, "g", "x", "y")), 0x7c);
    assert_eq!(code_of(PyObject::instance(PyType::exact(FINAL_RULE), vec![])), 0x7b);
    assert_eq!(LiSEType::Character.ext_code(), 0x7f);
    assert_eq!(LiSEType::Place.ext_code(), 0x7e);
    assert_eq!(LiSEType::Thing.ext_code(), 0x7d);
    assert_eq!(LiSEType::Portal.ext_code(), 0x7c);
    assert_eq!(LiSEType::FinalRule.ext_code(), 0x7b);
}

#[test]
fn entity_kind_is_looked_up_by_type_handle() {
    let registry = entity_types();
    assert_eq!(LiSEType::from_ob_type(CHARACTER, &registry), Ok(LiSEType::Character));
    assert_eq!(LiSEType::from_ob_type(CHARACTER_PROXY, &registry), Ok(LiSEType::Character));
    assert_eq!(LiSEType::from_ob_type(THING, &registry), Ok(LiSEType::Thing));
    assert_eq!(LiSEType::from_ob_type(THING_PROXY, &registry), Ok(LiSEType::Thing));
    assert_eq!(LiSEType::from_ob_type(PLACE, &registry), Ok(LiSEType::Place));
    assert_eq!(LiSEType::from_ob_type(PLACE_PROXY, &registry), Ok(LiSEType::Place));
    assert_eq!(LiSEType::from_ob_type(PORTAL, &registry), Ok(LiSEType::Portal));
    assert_eq!(LiSEType::from_ob_type(PORTAL_PROXY, &registry), Ok(LiSEType::Portal));
    assert_eq!(LiSEType::from_ob_type(FINAL_RULE, &registry), Ok(LiSEType::FinalRule));
    assert_eq!(
        LiSEType::from_ob_type(3, &registry),
        Err(EncodeError::DomainEntityKindUnrecognized)
    );
}

#[test]
fn entity_of_no_known_kind_is_unrecognized() {
    let registry = types();
    let obj = character(99, "Alice");
    let direct = LiSESerializer::new(&obj, 0, 0, 0, NONE, &registry);
    assert_eq!(direct.serialize(), Err(EncodeError::DomainEntityKindUnrecognized));
}

#[test]
fn entity_at_level_255_fails() {
    let registry = types();
    let obj = character(CHARACTER, "Alice");
    let at_ceiling = LiSESerializer::new(&obj, 0, 0, 255, NONE, &registry);
    assert_eq!(at_ceiling.serialize(), Err(EncodeError::RecursionLimitReached));
    let below = LiSESerializer::new(&obj, 0, 0, 254, NONE, &registry);
    assert_eq!(below.serialize(), encode(&obj));
}

#[test]
fn entity_fields_are_met_one_level_deeper() {
    let registry = types();
    // The name is a list: met at level 255 it fails, at level 254 it does not.
    let named = PyObject::instance(
        PyType::exact(CHARACTER),
        vec![attr(AttrName::Name, PyObject::sequence(PyType::exact(7), vec![]))],
    );
    let deep = LiSESerializer::new(&named, 0, 0, 254, NONE, &registry);
    assert_eq!(deep.serialize(), Err(EncodeError::RecursionLimitReached));
    let shallow = LiSESerializer::new(&named, 0, 0, 253, NONE, &registry);
    assert_eq!(shallow.serialize(), Ok(vec![0xd5, 0x7f, 0x91, 0x90]));
}

#[test]
fn entity_without_its_fields_lacks_an_attribute() {
    let missing = Err(EncodeError::MissingAttribute);
    assert_eq!(encode(&PyObject::instance(PyType::exact(CHARACTER), vec![])), missing);
    let no_node = PyObject::instance(
        PyType::exact(THING),
        vec![attr(AttrName::Graph, graph("World"))],
    );
    assert_eq!(encode(&no_node), missing);
    let nameless_graph = PyObject::instance(
        PyType::exact(PLACE),
        vec![
            attr(AttrName::Graph, PyObject::instance(PyType::exact(70), vec![])),
            attr(AttrName::Node, text("hut")),
        ],
    );
    assert_eq!(encode(&nameless_graph), missing);
    let no_dest = PyObject::instance(
        PyType::exact(PORTAL),
        vec![attr(AttrName::Graph, graph("World")), attr(AttrName::Orig, text("A"))],
    );
    assert_eq!(encode(&no_dest), missing);
}

#[test]
fn payload_is_the_sequence_without_the_envelope() {
    let registry = types();
    let obj = portal(PORTAL, "W", "A", "B");
    let direct = LiSESerializer::new(&obj, 0, 0, 0, NONE, &registry);
    assert_eq!(
        direct.payload(LiSEType::Portal, 1),
        Ok(vec![0x93, 0xa1, b'W', 0xa1, b'A', 0xa1, b'B'])
    );
    assert_eq!(direct.payload(LiSEType::FinalRule, 1), Ok(vec![0x90]));
    assert_eq!(direct.payload(LiSEType::Thing, 1), Err(EncodeError::MissingAttribute));
}

#[test]
fn first_attribute_of_a_name_counts() {
    let obj = PyObject::instance(
        PyType::exact(CHARACTER),
        vec![
            attr(AttrName::Node, text("other")),
            attr(AttrName::Name, text("first")),
            attr(AttrName::Name, text("second")),
        ],
    );
    assert_eq!(leaf_text(obj.get_attr(AttrName::Name).unwrap()), Some("first"));
    assert!(obj.get_attr(AttrName::Graph).is_none());
    assert!(get_graph_name(&obj).is_none());
    let thing = node(THING, "World", "box");
    assert_eq!(leaf_text(get_graph_name(&thing).unwrap()), Some("World"));
}

#[test]
fn value_error_without_traceback() {
    let obj = exception("ValueError", None, vec![text("bad value")]);
    let mut expected = vec![0xc7, 23, 3, 0x93, 0xaa];
    expected.extend_from_slice(b"ValueError");
    expected.push(0xc0);
    expected.push(0xa9);
    expected.extend_from_slice(b"bad value");
    assert_eq!(encode(&obj), Ok(expected));
}

#[test]
fn exception_without_arguments_has_two_elements() {
    let obj = exception("E", None, vec![]);
    assert_eq!(encode(&obj), Ok(vec![0xd6, 3, 0x92, 0xa1, b'E', 0xc0]));
}

#[test]
fn exception_with_traceback_holds_its_mapping() {
    let traceback = PyObject::mapping(
        PyType::exact(8),
        vec![lise_msgpack::object::Field { name: "l".to_string(), value: number(4) }],
    );
    let obj = exception("E", Some(traceback), vec![number(1), number(2)]);
    assert_eq!(
        encode(&obj),
        Ok(vec![0xc7, 9, 3, 0x94, 0xa1, b'E', 0x81, 0xa1, b'l', 4, 1, 2])
    );
}

#[test]
fn exception_at_level_255_fails() {
    let registry = types();
    let obj = exception("E", None, vec![]);
    let at_ceiling = ExceptionSerializer::new(&obj, 0, 0, 255, NONE, &registry);
    assert_eq!(at_ceiling.serialize(), Err(EncodeError::RecursionLimitReached));
    let below = ExceptionSerializer::new(&obj, 0, 0, 254, NONE, &registry);
    assert_eq!(below.serialize(), encode(&obj));
}

#[test]
fn exception_without_class_or_arguments_lacks_an_attribute() {
    let ty = PyType { exception_instance: true, ..PyType::exact(81) };
    let missing = Err(EncodeError::MissingAttribute);
    assert_eq!(encode(&PyObject::instance(ty, vec![])), missing);
    let only_args = PyObject::instance(
        ty,
        vec![attr(AttrName::Args, PyObject::sequence(PyType::exact(12), vec![]))],
    );
    assert_eq!(encode(&only_args), missing);
    let nameless_class = PyObject::instance(
        ty,
        vec![
            attr(AttrName::Args, PyObject::sequence(PyType::exact(12), vec![])),
            attr(AttrName::Class, PyObject::instance(PyType::exact(80), vec![])),
        ],
    );
    assert_eq!(encode(&nameless_class), missing);
}

#[test]
fn exception_fails_with_the_first_failing_element() {
    let unknown = PyObject::scalar(PyType::exact(99), Leaf::Nil);
    let big = PyObject::scalar(PyType::exact(3), Leaf::BigInt);
    let obj = exception("E", Some(big), vec![unknown]);
    assert_eq!(encode(&obj), Err(EncodeError::IntegerOutOfRange));
}

#[test]
fn exception_of_an_entity_type_is_an_exception() {
    // The common cases are tried before the world entities.
    let mut obj = exception("E", None, vec![]);
    obj.ob_type.id = CHARACTER;
    assert_eq!(encode(&obj), Ok(vec![0xd6, 3, 0x92, 0xa1, b'E', 0xc0]));
}
