//! What the encoder writes, as mathematics.
//!
//! [`encoding`] gives, for an object and the context it is met in, either the
//! bytes that stand for it or the error that ends the call. The serializers
//! of this crate are proved to return exactly that.

use crate::error::EncodeError;
use crate::object::{AttrName, Field, Leaf, LeafFailure, PyObject};
use crate::opt::Opt;
use crate::serialize::serializer::{spec_obtype, ObType};
use crate::typeref::{LiSEType, TypeRefs};
use crate::wire::{
    array_header, bin_encoding, bool_encoding, ext_encoding, float_encoding, int_encoding,
    map_header, nil_encoding, str_encoding, MAX_WIRE_LEN,
};
use vstd::prelude::*;
use vstd::utf8::encode_utf8;

verus! {

/// The outcome of encoding: the bytes, or the first error.
pub type Wire = Result<Seq<u8>, EncodeError>;

/// The extension code of a tuple.
pub const TUPLE_CODE: i8 = 0;

/// The extension code of a frozen set.
pub const FROZENSET_CODE: i8 = 1;

/// The extension code of a mutable set.
pub const SET_CODE: i8 = 2;

/// The extension code of an exception.
pub const EXCEPTION_CODE: i8 = 3;

/// Two outcomes in a row: the first error, or else both byte strings joined.
pub open spec fn then(first: Wire, second: Wire) -> Wire {
    match first {
        Err(e) => Err(e),
        Ok(a) => match second {
            Ok(b) => Ok(a + b),
            Err(e) => Err(e),
        },
    }
}

/// A sequence of `len` elements whose encodings, joined, are `body`.
pub open spec fn array_of(len: nat, body: Wire) -> Wire {
    if len > MAX_WIRE_LEN {
        Err(EncodeError::LengthOverflow)
    } else {
        then(Ok(array_header(len)), body)
    }
}

/// A mapping of `len` entries whose encoded keys and values, joined, are
/// `body`.
pub open spec fn map_of(len: nat, body: Wire) -> Wire {
    if len > MAX_WIRE_LEN {
        Err(EncodeError::LengthOverflow)
    } else {
        then(Ok(map_header(len)), body)
    }
}

/// An extension value with the given code around `payload`.
pub open spec fn ext_of(code: i8, payload: Wire) -> Wire {
    match payload {
        Err(e) => Err(e),
        Ok(bytes) => if bytes.len() > MAX_WIRE_LEN {
            Err(EncodeError::LengthOverflow)
        } else {
            Ok(ext_encoding(code, bytes))
        },
    }
}

/// A string, given by its characters.
pub open spec fn text_encoding(text: Seq<char>) -> Wire {
    if encode_utf8(text).len() > MAX_WIRE_LEN {
        Err(EncodeError::LengthOverflow)
    } else {
        Ok(str_encoding(encode_utf8(text)))
    }
}

/// The error that stands for a failed leaf conversion.
pub open spec fn failure_error(failure: LeafFailure) -> EncodeError {
    match failure {
        LeafFailure::TimeHasTimezone => EncodeError::TimeHasTimezone,
        LeafFailure::NumericArrayMalformed => EncodeError::NumericArrayMalformed,
        LeafFailure::NumericArrayNotContiguous => EncodeError::NumericArrayNotContiguous,
        LeafFailure::NumericArrayUnsupportedDataType => EncodeError::NumericArrayUnsupportedDataType,
    }
}

/// The encoding of scalar content.
pub open spec fn leaf_encoding(leaf: Leaf) -> Wire
    decreases leaf, 1nat,
{
    match leaf {
        Leaf::Nil => Ok(nil_encoding()),
        Leaf::Bool(b) => Ok(bool_encoding(b)),
        Leaf::UInt(v) => Ok(int_encoding(v as int)),
        Leaf::Int(v) => Ok(int_encoding(v as int)),
        Leaf::BigInt => Err(EncodeError::IntegerOutOfRange),
        Leaf::Float(bits) => Ok(float_encoding(bits)),
        Leaf::Str(text) => text_encoding(text@),
        Leaf::Bin(data) => if data.len() > MAX_WIRE_LEN {
            Err(EncodeError::LengthOverflow)
        } else {
            Ok(bin_encoding(data@))
        },
        Leaf::Ext { tag, data } => if tag < 0 {
            Err(EncodeError::ReservedExtensionTag)
        } else if data.len() > MAX_WIRE_LEN {
            Err(EncodeError::LengthOverflow)
        } else {
            Ok(ext_encoding(tag, data@))
        },
        Leaf::Array(elements) => array_of(
            elements.len() as nat,
            leaves_encoding(elements@, elements.len() as nat),
        ),
        Leaf::Failed(failure) => Err(failure_error(failure)),
    }
}

/// The encodings of the first `n` of `leaves`, joined.
pub open spec fn leaves_encoding(leaves: Seq<Leaf>, n: nat) -> Wire
    decreases leaves, n,
{
    if n == 0 || n > leaves.len() {
        Ok(Seq::empty())
    } else {
        then(leaves_encoding(leaves, (n - 1) as nat), leaf_encoding(leaves[n - 1]))
    }
}

/// Whether the fallback handler, if there is one, may be called on every
/// object.
pub open spec fn fallback_callable<F: Fn(&PyObject) -> Option<PyObject>>(
    fallback: Option<&F>,
) -> bool {
    match fallback {
        Some(f) => forall|obj: PyObject| call_requires(*f, (&obj,)),
        None => true,
    }
}

/// Whether what the fallback handler returns, if there is one, depends on
/// nothing but the object it is given.
pub open spec fn fallback_functional<F: Fn(&PyObject) -> Option<PyObject>>(
    fallback: Option<&F>,
) -> bool {
    match fallback {
        Some(f) => forall|obj: PyObject, a: Option<PyObject>, b: Option<PyObject>|
            call_ensures(*f, (&obj,), a) && call_ensures(*f, (&obj,), b) ==> a == b,
        None => true,
    }
}

/// What the fallback handler `f` returns for `obj`.
pub open spec fn substitute<F: Fn(&PyObject) -> Option<PyObject>>(f: F, obj: PyObject) -> Option<
    PyObject,
> {
    choose|r: Option<PyObject>| call_ensures(f, (&obj,), r)
}

/// Whether objects of this classification are encoded by an encoder that
/// takes up a nesting level: the containers, the records, the world entities
/// and the exceptions.
pub open spec fn takes_level(obtype: ObType) -> bool {
    match obtype {
        ObType::List
        | ObType::Dict
        | ObType::Dataclass
        | ObType::Pydantic
        | ObType::Tuple
        | ObType::MutableSet
        | ObType::FrozenSet
        | ObType::Exception
        | ObType::LiSE => true,
        _ => false,
    }
}

/// Whether objects of this classification are encoded by their scalar
/// content alone.
pub open spec fn is_scalar(obtype: ObType) -> bool {
    match obtype {
        ObType::Str
        | ObType::Bytes
        | ObType::StrSubclass
        | ObType::Int
        | ObType::Null
        | ObType::Float
        | ObType::Bool
        | ObType::Datetime
        | ObType::Date
        | ObType::Time
        | ObType::Uuid
        | ObType::NumpyScalar
        | ObType::Ext => true,
        _ => false,
    }
}

/// The encoding of `obj`, met at nesting level `depth` after `calls` uses of
/// the fallback handler on the way from the root.
///
/// The object is classified afresh, and the classification picks the
/// representation. Scalars are encoded by their content alone. Containers,
/// records, world entities and exceptions fail at level 255 and otherwise
/// encode their children one level deeper.
pub open spec fn encoding<F: Fn(&PyObject) -> Option<PyObject>>(
    obj: PyObject,
    opts: Opt,
    calls: nat,
    depth: nat,
    types: TypeRefs,
    fallback: Option<&F>,
) -> Wire
    decreases 255 - calls, obj, 2nat,
{
    match spec_obtype(obj, opts, types) {
        ObType::List => list_encoding(obj, opts, calls, depth, types, fallback),
        ObType::Dict | ObType::Dataclass => mapping_encoding(
            obj,
            opts,
            calls,
            depth,
            types,
            fallback,
        ),
        ObType::Pydantic => pydantic_encoding(obj, opts, calls, depth, types, fallback),
        ObType::Tuple => collection_encoding(
            obj,
            TUPLE_CODE,
            opts,
            calls,
            depth,
            types,
            fallback,
        ),
        ObType::MutableSet => collection_encoding(
            obj,
            SET_CODE,
            opts,
            calls,
            depth,
            types,
            fallback,
        ),
        ObType::FrozenSet => collection_encoding(
            obj,
            FROZENSET_CODE,
            opts,
            calls,
            depth,
            types,
            fallback,
        ),
        ObType::Exception => exception_encoding(obj, opts, calls, depth, types, fallback),
        ObType::LiSE => lise_encoding(obj, opts, calls, depth, types, fallback),
        ObType::Enum => enum_encoding(obj, opts, calls, depth, types, fallback),
        ObType::NumpyArray => numpy_array_encoding(obj, opts, calls, depth, types, fallback),
        ObType::Unknown => default_encoding(obj, opts, calls, depth, types, fallback),
        _ => leaf_encoding(obj.leaf),
    }
}

/// The encodings of the first `n` of `items`, joined. Each is met at level
/// `depth`.
pub open spec fn items_encoding<F: Fn(&PyObject) -> Option<PyObject>>(
    items: Seq<PyObject>,
    opts: Opt,
    calls: nat,
    depth: nat,
    types: TypeRefs,
    fallback: Option<&F>,
    n: nat,
) -> Wire
    decreases 255 - calls, items, n,
{
    if n == 0 || n > items.len() {
        Ok(Seq::empty())
    } else {
        then(
            items_encoding(items, opts, calls, depth, types, fallback, (n - 1) as nat),
            encoding(items[n - 1], opts, calls, depth, types, fallback),
        )
    }
}

/// The encoded names and values of the first `n` of `fields`, joined. Each
/// value is met at level `depth`.
pub open spec fn fields_encoding<F: Fn(&PyObject) -> Option<PyObject>>(
    fields: Seq<Field>,
    opts: Opt,
    calls: nat,
    depth: nat,
    types: TypeRefs,
    fallback: Option<&F>,
    n: nat,
) -> Wire
    decreases 255 - calls, fields, n,
{
    if n == 0 || n > fields.len() {
        Ok(Seq::empty())
    } else {
        then(
            fields_encoding(fields, opts, calls, depth, types, fallback, (n - 1) as nat),
            then(
                text_encoding(fields[n - 1].name@),
                encoding(fields[n - 1].value, opts, calls, depth, types, fallback),
            ),
        )
    }
}

/// A list: a sequence of its elements.
pub open spec fn list_encoding<F: Fn(&PyObject) -> Option<PyObject>>(
    obj: PyObject,
    opts: Opt,
    calls: nat,
    depth: nat,
    types: TypeRefs,
    fallback: Option<&F>,
) -> Wire
    decreases 255 - calls, obj, 0nat,
{
    if depth >= 255 {
        Err(EncodeError::RecursionLimitReached)
    } else {
        array_of(
            obj.items.len() as nat,
            items_encoding(
                obj.items@,
                opts,
                calls,
                depth + 1,
                types,
                fallback,
                obj.items.len() as nat,
            ),
        )
    }
}

/// A mapping or a plain record: a mapping from the names of its entries, in
/// their order, to their values.
pub open spec fn mapping_encoding<F: Fn(&PyObject) -> Option<PyObject>>(
    obj: PyObject,
    opts: Opt,
    calls: nat,
    depth: nat,
    types: TypeRefs,
    fallback: Option<&F>,
) -> Wire
    decreases 255 - calls, obj, 0nat,
{
    if depth >= 255 {
        Err(EncodeError::RecursionLimitReached)
    } else {
        map_of(
            obj.fields.len() as nat,
            fields_encoding(
                obj.fields@,
                opts,
                calls,
                depth + 1,
                types,
                fallback,
                obj.fields.len() as nat,
            ),
        )
    }
}

/// A typed record: the mapping of the field map that backs it.
pub open spec fn pydantic_encoding<F: Fn(&PyObject) -> Option<PyObject>>(
    obj: PyObject,
    opts: Opt,
    calls: nat,
    depth: nat,
    types: TypeRefs,
    fallback: Option<&F>,
) -> Wire
    decreases 255 - calls, obj, 0nat,
{
    if depth >= 255 {
        Err(EncodeError::RecursionLimitReached)
    } else if !obj.has_attr(AttrName::Dict) {
        Err(EncodeError::TypedRecordMissingFieldMap)
    } else {
        let dict = obj.attr(AttrName::Dict);
        map_of(
            dict.fields.len() as nat,
            fields_encoding(
                dict.fields@,
                opts,
                calls,
                depth + 1,
                types,
                fallback,
                dict.fields.len() as nat,
            ),
        )
    }
}

/// A tuple, a set or a frozen set: an extension value, under the code of the
/// collection, around the sequence of its elements.
pub open spec fn collection_encoding<F: Fn(&PyObject) -> Option<PyObject>>(
    obj: PyObject,
    code: i8,
    opts: Opt,
    calls: nat,
    depth: nat,
    types: TypeRefs,
    fallback: Option<&F>,
) -> Wire
    decreases 255 - calls, obj, 0nat,
{
    if depth >= 255 {
        Err(EncodeError::RecursionLimitReached)
    } else {
        ext_of(
            code,
            array_of(
                obj.items.len() as nat,
                items_encoding(
                    obj.items@,
                    opts,
                    calls,
                    depth + 1,
                    types,
                    fallback,
                    obj.items.len() as nat,
                ),
            ),
        )
    }
}

/// Whether an exception has the attributes that its encoder reads: its
/// arguments, its class, and the name of that class.
pub open spec fn exception_readable(obj: PyObject) -> bool {
    &&& obj.has_attr(AttrName::Args)
    &&& obj.has_attr(AttrName::Class)
    &&& obj.attr(AttrName::Class).has_attr(AttrName::ClassName)
}

/// An exception: an extension value around the sequence of the name of its
/// class, its traceback or the nil marker where it has none, and its
/// arguments in their order.
pub open spec fn exception_encoding<F: Fn(&PyObject) -> Option<PyObject>>(
    obj: PyObject,
    opts: Opt,
    calls: nat,
    depth: nat,
    types: TypeRefs,
    fallback: Option<&F>,
) -> Wire
    decreases 255 - calls, obj, 0nat,
{
    if depth >= 255 {
        Err(EncodeError::RecursionLimitReached)
    } else if !exception_readable(obj) {
        Err(EncodeError::MissingAttribute)
    } else {
        let args = obj.attr(AttrName::Args);
        let class_name = obj.attr(AttrName::Class).attr(AttrName::ClassName);
        let traceback = if obj.has_attr(AttrName::Traceback) {
            encoding(obj.attr(AttrName::Traceback), opts, calls, depth + 1, types, fallback)
        } else {
            Ok(nil_encoding())
        };
        ext_of(
            EXCEPTION_CODE,
            array_of(
                args.items.len() as nat + 2,
                then(
                    encoding(class_name, opts, calls, depth + 1, types, fallback),
                    then(
                        traceback,
                        items_encoding(
                            args.items@,
                            opts,
                            calls,
                            depth + 1,
                            types,
                            fallback,
                            args.items.len() as nat,
                        ),
                    ),
                ),
            ),
        )
    }
}

/// Whether a node or an edge names the graph that holds it.
pub open spec fn graph_named(obj: PyObject) -> bool {
    obj.has_attr(AttrName::Graph) && obj.attr(AttrName::Graph).has_attr(AttrName::Name)
}

/// The name of the graph that holds a node or an edge.
pub open spec fn graph_name(obj: PyObject) -> PyObject {
    obj.attr(AttrName::Graph).attr(AttrName::Name)
}

/// Whether a world entity of the given kind has the attributes that its
/// encoder reads.
pub open spec fn entity_readable(obj: PyObject, kind: LiSEType) -> bool {
    match kind {
        LiSEType::Character => obj.has_attr(AttrName::Name),
        LiSEType::Thing | LiSEType::Place => graph_named(obj) && obj.has_attr(AttrName::Node),
        LiSEType::Portal => graph_named(obj) && obj.has_attr(AttrName::Orig) && obj.has_attr(
            AttrName::Dest,
        ),
        LiSEType::FinalRule => true,
    }
}

/// The payload of a world entity: the sequence of its fields. A character
/// has its name; a thing and a place have the name of their graph and their
/// node; a portal has the name of its graph, its origin and its destination;
/// the final rule has nothing.
pub open spec fn entity_payload<F: Fn(&PyObject) -> Option<PyObject>>(
    obj: PyObject,
    kind: LiSEType,
    opts: Opt,
    calls: nat,
    depth: nat,
    types: TypeRefs,
    fallback: Option<&F>,
) -> Wire
    decreases 255 - calls, obj, 0nat,
{
    if !entity_readable(obj, kind) {
        Err(EncodeError::MissingAttribute)
    } else {
        match kind {
            LiSEType::Character => array_of(
                1,
                encoding(obj.attr(AttrName::Name), opts, calls, depth, types, fallback),
            ),
            LiSEType::Thing | LiSEType::Place => array_of(
                2,
                then(
                    encoding(graph_name(obj), opts, calls, depth, types, fallback),
                    encoding(obj.attr(AttrName::Node), opts, calls, depth, types, fallback),
                ),
            ),
            LiSEType::Portal => array_of(
                3,
                then(
                    encoding(graph_name(obj), opts, calls, depth, types, fallback),
                    then(
                        encoding(obj.attr(AttrName::Orig), opts, calls, depth, types, fallback),
                        encoding(obj.attr(AttrName::Dest), opts, calls, depth, types, fallback),
                    ),
                ),
            ),
            LiSEType::FinalRule => array_of(0, Ok(Seq::empty())),
        }
    }
}

/// A world entity: an extension value, under the code of its kind, around
/// the sequence of its fields.
pub open spec fn lise_encoding<F: Fn(&PyObject) -> Option<PyObject>>(
    obj: PyObject,
    opts: Opt,
    calls: nat,
    depth: nat,
    types: TypeRefs,
    fallback: Option<&F>,
) -> Wire
    decreases 255 - calls, obj, 1nat,
{
    if depth >= 255 {
        Err(EncodeError::RecursionLimitReached)
    } else {
        match LiSEType::kind_of(obj.ob_type.id, types.lise_types) {
            None => Err(EncodeError::DomainEntityKindUnrecognized),
            Some(kind) => ext_of(
                kind.spec_ext_code(),
                entity_payload(obj, kind, opts, calls, depth + 1, types, fallback),
            ),
        }
    }
}

/// An enumeration member: its value, met at the same level.
pub open spec fn enum_encoding<F: Fn(&PyObject) -> Option<PyObject>>(
    obj: PyObject,
    opts: Opt,
    calls: nat,
    depth: nat,
    types: TypeRefs,
    fallback: Option<&F>,
) -> Wire
    decreases 255 - calls, obj, 0nat,
{
    if !obj.has_attr(AttrName::Value) {
        Err(EncodeError::MissingAttribute)
    } else {
        encoding(obj.attr(AttrName::Value), opts, calls, depth, types, fallback)
    }
}

/// An object that only the fallback handler can help: the encoding of the
/// substitute that the handler returns, met at the same level.
///
/// Without a handler, and where the handler returns nothing, the object is
/// unsupported. A handler is used at most 255 times on the way from the root
/// to any one object.
pub open spec fn default_encoding<F: Fn(&PyObject) -> Option<PyObject>>(
    obj: PyObject,
    opts: Opt,
    calls: nat,
    depth: nat,
    types: TypeRefs,
    fallback: Option<&F>,
) -> Wire
    decreases 255 - calls, obj, 0nat,
{
    match fallback {
        None => Err(EncodeError::UnsupportedType),
        Some(f) => if calls >= 255 {
            Err(EncodeError::FallbackLimitReached)
        } else {
            substitute_encoding(substitute(*f, obj), opts, calls, depth, types, fallback)
        },
    }
}

/// What becomes of an object for which the fallback handler returned
/// `replaced`, after `calls` earlier uses of the handler: nothing returned
/// leaves the object unsupported, and a substitute is encoded in its place,
/// at the same level, with this use counted.
pub open spec fn substitute_encoding<F: Fn(&PyObject) -> Option<PyObject>>(
    replaced: Option<PyObject>,
    opts: Opt,
    calls: nat,
    depth: nat,
    types: TypeRefs,
    fallback: Option<&F>,
) -> Wire
    recommends
        calls < 255,
    decreases 254 - calls, replaced, 0nat,
    when calls < 255
{
    match replaced {
        None => Err(EncodeError::UnsupportedType),
        Some(other) => encoding(other, opts, calls + 1, depth, types, fallback),
    }
}

/// A numeric array: its elements, or, where it is not contiguous or holds
/// elements without a wire form, what the fallback handler makes of it.
pub open spec fn numpy_array_encoding<F: Fn(&PyObject) -> Option<PyObject>>(
    obj: PyObject,
    opts: Opt,
    calls: nat,
    depth: nat,
    types: TypeRefs,
    fallback: Option<&F>,
) -> Wire
    decreases 255 - calls, obj, 1nat,
{
    match obj.leaf {
        Leaf::Failed(LeafFailure::NumericArrayNotContiguous) | Leaf::Failed(
            LeafFailure::NumericArrayUnsupportedDataType,
        ) => if fallback is None {
            leaf_encoding(obj.leaf)
        } else {
            default_encoding(obj, opts, calls, depth, types, fallback)
        },
        _ => leaf_encoding(obj.leaf),
    }
}

} // verus!
