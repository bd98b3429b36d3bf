//! Which outcomes an encoding may have, whatever the fallback handler does.
//!
//! A fallback handler need not return the same substitute each time it is
//! given the same object. [`is_encoding`] says of an outcome that it is one
//! that encoding the object can have: it is what [`encoding`] gives once
//! every use of the handler is replaced by some result that the handler can
//! return. Without a handler, and with one whose results depend on its
//! argument alone, there is exactly one such outcome.
//!
//! [`encoding`]: crate::serialize::encoding::encoding

use crate::error::EncodeError;
use crate::object::{AttrName, Field, Leaf, LeafFailure, PyObject};
use crate::opt::Opt;
use crate::serialize::encoding::{
    array_of, entity_readable, exception_readable, ext_of, graph_name, leaf_encoding, map_of,
    text_encoding, then, Wire, EXCEPTION_CODE, FROZENSET_CODE, SET_CODE, TUPLE_CODE,
};
use crate::serialize::serializer::{spec_obtype, ObType};
use crate::typeref::{LiSEType, TypeRefs};
use crate::wire::{nil_encoding, MAX_WIRE_LEN};
use vstd::prelude::*;

verus! {

/// Whether `out` is an outcome of encoding `obj`, met at nesting level
/// `depth` after `calls` uses of the fallback handler on the way from the
/// root.
pub open spec fn is_encoding<F: Fn(&PyObject) -> Option<PyObject>>(
    obj: PyObject,
    opts: Opt,
    calls: nat,
    depth: nat,
    types: TypeRefs,
    fallback: Option<&F>,
    out: Wire,
) -> bool
    decreases 255 - calls, obj, 2nat,
{
    match spec_obtype(obj, opts, types) {
        ObType::List => is_list_encoding(obj, opts, calls, depth, types, fallback, out),
        ObType::Dict | ObType::Dataclass => is_mapping_encoding(
            obj,
            opts,
            calls,
            depth,
            types,
            fallback,
            out,
        ),
        ObType::Pydantic => is_pydantic_encoding(obj, opts, calls, depth, types, fallback, out),
        ObType::Tuple => is_collection_encoding(
            obj,
            TUPLE_CODE,
            opts,
            calls,
            depth,
            types,
            fallback,
            out,
        ),
        ObType::MutableSet => is_collection_encoding(
            obj,
            SET_CODE,
            opts,
            calls,
            depth,
            types,
            fallback,
            out,
        ),
        ObType::FrozenSet => is_collection_encoding(
            obj,
            FROZENSET_CODE,
            opts,
            calls,
            depth,
            types,
            fallback,
            out,
        ),
        ObType::Exception => is_exception_encoding(obj, opts, calls, depth, types, fallback, out),
        ObType::LiSE => is_lise_encoding(obj, opts, calls, depth, types, fallback, out),
        ObType::Enum => is_enum_encoding(obj, opts, calls, depth, types, fallback, out),
        ObType::NumpyArray => is_numpy_array_encoding(
            obj,
            opts,
            calls,
            depth,
            types,
            fallback,
            out,
        ),
        ObType::Unknown => is_default_encoding(obj, opts, calls, depth, types, fallback, out),
        _ => out == leaf_encoding(obj.leaf),
    }
}

/// Whether `out` is an outcome of encoding the first `n` of `items` one
/// after another and joining what they give. After the first failure no
/// further element is encoded.
pub open spec fn is_items_encoding<F: Fn(&PyObject) -> Option<PyObject>>(
    items: Seq<PyObject>,
    opts: Opt,
    calls: nat,
    depth: nat,
    types: TypeRefs,
    fallback: Option<&F>,
    n: nat,
    out: Wire,
) -> bool
    decreases 255 - calls, items, n,
{
    if n == 0 || n > items.len() {
        out == Ok::<Seq<u8>, EncodeError>(Seq::empty())
    } else {
        exists|init: Wire, last: Wire|
            #![trigger then(init, last)]
            {
                &&& is_items_encoding(items, opts, calls, depth, types, fallback, (n - 1) as nat, init)
                &&& init is Ok ==> is_encoding(
                    items[n - 1],
                    opts,
                    calls,
                    depth,
                    types,
                    fallback,
                    last,
                )
                &&& out == then(init, last)
            }
    }
}

/// Whether `out` is an outcome of encoding the names and values of the first
/// `n` of `fields` one after another and joining what they give.
pub open spec fn is_fields_encoding<F: Fn(&PyObject) -> Option<PyObject>>(
    fields: Seq<Field>,
    opts: Opt,
    calls: nat,
    depth: nat,
    types: TypeRefs,
    fallback: Option<&F>,
    n: nat,
    out: Wire,
) -> bool
    decreases 255 - calls, fields, n,
{
    if n == 0 || n > fields.len() {
        out == Ok::<Seq<u8>, EncodeError>(Seq::empty())
    } else {
        exists|init: Wire, value: Wire|
            #![trigger then(init, then(text_encoding(fields[n - 1].name@), value))]
            {
                &&& is_fields_encoding(
                    fields,
                    opts,
                    calls,
                    depth,
                    types,
                    fallback,
                    (n - 1) as nat,
                    init,
                )
                &&& init is Ok && text_encoding(fields[n - 1].name@) is Ok ==> is_encoding(
                    fields[n - 1].value,
                    opts,
                    calls,
                    depth,
                    types,
                    fallback,
                    value,
                )
                &&& out == then(init, then(text_encoding(fields[n - 1].name@), value))
            }
    }
}

/// Whether `out` is an outcome of encoding `items` as a sequence.
pub open spec fn is_sequence_encoding<F: Fn(&PyObject) -> Option<PyObject>>(
    items: Seq<PyObject>,
    opts: Opt,
    calls: nat,
    depth: nat,
    types: TypeRefs,
    fallback: Option<&F>,
    out: Wire,
) -> bool
    decreases 255 - calls, items, items.len() + 1,
{
    exists|body: Wire|
        #![trigger array_of(items.len(), body)]
        {
            &&& items.len() <= MAX_WIRE_LEN ==> is_items_encoding(
                items,
                opts,
                calls,
                depth,
                types,
                fallback,
                items.len(),
                body,
            )
            &&& out == array_of(items.len(), body)
        }
}

/// Whether `out` is an outcome of encoding `fields` as a mapping.
pub open spec fn is_map_encoding<F: Fn(&PyObject) -> Option<PyObject>>(
    fields: Seq<Field>,
    opts: Opt,
    calls: nat,
    depth: nat,
    types: TypeRefs,
    fallback: Option<&F>,
    out: Wire,
) -> bool
    decreases 255 - calls, fields, fields.len() + 1,
{
    exists|body: Wire|
        #![trigger map_of(fields.len(), body)]
        {
            &&& fields.len() <= MAX_WIRE_LEN ==> is_fields_encoding(
                fields,
                opts,
                calls,
                depth,
                types,
                fallback,
                fields.len(),
                body,
            )
            &&& out == map_of(fields.len(), body)
        }
}

/// Whether `out` is an outcome of encoding a list.
pub open spec fn is_list_encoding<F: Fn(&PyObject) -> Option<PyObject>>(
    obj: PyObject,
    opts: Opt,
    calls: nat,
    depth: nat,
    types: TypeRefs,
    fallback: Option<&F>,
    out: Wire,
) -> bool
    decreases 255 - calls, obj, 0nat,
{
    if depth >= 255 {
        out == Err::<Seq<u8>, EncodeError>(EncodeError::RecursionLimitReached)
    } else {
        is_sequence_encoding(obj.items@, opts, calls, depth + 1, types, fallback, out)
    }
}

/// Whether `out` is an outcome of encoding a mapping or a plain record.
pub open spec fn is_mapping_encoding<F: Fn(&PyObject) -> Option<PyObject>>(
    obj: PyObject,
    opts: Opt,
    calls: nat,
    depth: nat,
    types: TypeRefs,
    fallback: Option<&F>,
    out: Wire,
) -> bool
    decreases 255 - calls, obj, 0nat,
{
    if depth >= 255 {
        out == Err::<Seq<u8>, EncodeError>(EncodeError::RecursionLimitReached)
    } else {
        is_map_encoding(obj.fields@, opts, calls, depth + 1, types, fallback, out)
    }
}

/// Whether `out` is an outcome of encoding a typed record.
pub open spec fn is_pydantic_encoding<F: Fn(&PyObject) -> Option<PyObject>>(
    obj: PyObject,
    opts: Opt,
    calls: nat,
    depth: nat,
    types: TypeRefs,
    fallback: Option<&F>,
    out: Wire,
) -> bool
    decreases 255 - calls, obj, 0nat,
{
    if depth >= 255 {
        out == Err::<Seq<u8>, EncodeError>(EncodeError::RecursionLimitReached)
    } else if !obj.has_attr(AttrName::Dict) {
        out == Err::<Seq<u8>, EncodeError>(EncodeError::TypedRecordMissingFieldMap)
    } else {
        is_map_encoding(
            obj.attr(AttrName::Dict).fields@,
            opts,
            calls,
            depth + 1,
            types,
            fallback,
            out,
        )
    }
}

/// Whether `out` is an outcome of encoding a tuple, a set or a frozen set
/// under the given code.
pub open spec fn is_collection_encoding<F: Fn(&PyObject) -> Option<PyObject>>(
    obj: PyObject,
    code: i8,
    opts: Opt,
    calls: nat,
    depth: nat,
    types: TypeRefs,
    fallback: Option<&F>,
    out: Wire,
) -> bool
    decreases 255 - calls, obj, 0nat,
{
    if depth >= 255 {
        out == Err::<Seq<u8>, EncodeError>(EncodeError::RecursionLimitReached)
    } else {
        exists|payload: Wire|
            #![trigger ext_of(code, payload)]
            {
                &&& is_sequence_encoding(
                    obj.items@,
                    opts,
                    calls,
                    depth + 1,
                    types,
                    fallback,
                    payload,
                )
                &&& out == ext_of(code, payload)
            }
    }
}

/// Whether `out` is an outcome for the traceback of an exception whose
/// elements are met at level `depth`: the nil marker where the exception has
/// none.
pub open spec fn is_traceback_encoding<F: Fn(&PyObject) -> Option<PyObject>>(
    obj: PyObject,
    opts: Opt,
    calls: nat,
    depth: nat,
    types: TypeRefs,
    fallback: Option<&F>,
    out: Wire,
) -> bool
    decreases 255 - calls, obj, 0nat,
{
    if obj.has_attr(AttrName::Traceback) {
        is_encoding(obj.attr(AttrName::Traceback), opts, calls, depth, types, fallback, out)
    } else {
        out == Ok::<Seq<u8>, EncodeError>(nil_encoding())
    }
}

/// Whether `out` is an outcome of encoding an exception.
pub open spec fn is_exception_encoding<F: Fn(&PyObject) -> Option<PyObject>>(
    obj: PyObject,
    opts: Opt,
    calls: nat,
    depth: nat,
    types: TypeRefs,
    fallback: Option<&F>,
    out: Wire,
) -> bool
    decreases 255 - calls, obj, 1nat,
{
    if depth >= 255 {
        out == Err::<Seq<u8>, EncodeError>(EncodeError::RecursionLimitReached)
    } else if !exception_readable(obj) {
        out == Err::<Seq<u8>, EncodeError>(EncodeError::MissingAttribute)
    } else {
        let args = obj.attr(AttrName::Args);
        let class_name = obj.attr(AttrName::Class).attr(AttrName::ClassName);
        let len = args.items.len() as nat + 2;
        exists|name: Wire, traceback: Wire, rest: Wire|
            #![trigger then(name, then(traceback, rest))]
            {
                &&& len <= MAX_WIRE_LEN ==> is_encoding(
                    class_name,
                    opts,
                    calls,
                    depth + 1,
                    types,
                    fallback,
                    name,
                )
                &&& len <= MAX_WIRE_LEN && name is Ok ==> is_traceback_encoding(
                    obj,
                    opts,
                    calls,
                    depth + 1,
                    types,
                    fallback,
                    traceback,
                )
                &&& len <= MAX_WIRE_LEN && name is Ok && traceback is Ok ==> is_items_encoding(
                    args.items@,
                    opts,
                    calls,
                    depth + 1,
                    types,
                    fallback,
                    args.items.len() as nat,
                    rest,
                )
                &&& out == ext_of(
                    EXCEPTION_CODE,
                    array_of(len, then(name, then(traceback, rest))),
                )
            }
    }
}

/// Whether `out` is an outcome of encoding the fields of a world entity of
/// the given kind as a sequence, each field met at level `depth`.
pub open spec fn is_entity_payload<F: Fn(&PyObject) -> Option<PyObject>>(
    obj: PyObject,
    kind: LiSEType,
    opts: Opt,
    calls: nat,
    depth: nat,
    types: TypeRefs,
    fallback: Option<&F>,
    out: Wire,
) -> bool
    decreases 255 - calls, obj, 0nat,
{
    if !entity_readable(obj, kind) {
        out == Err::<Seq<u8>, EncodeError>(EncodeError::MissingAttribute)
    } else {
        match kind {
            LiSEType::Character => exists|name: Wire|
                #![trigger array_of(1, name)]
                {
                    &&& is_encoding(
                        obj.attr(AttrName::Name),
                        opts,
                        calls,
                        depth,
                        types,
                        fallback,
                        name,
                    )
                    &&& out == array_of(1, name)
                },
            LiSEType::Thing | LiSEType::Place => exists|graph: Wire, node: Wire|
                #![trigger then(graph, node)]
                {
                    &&& is_encoding(graph_name(obj), opts, calls, depth, types, fallback, graph)
                    &&& graph is Ok ==> is_encoding(
                        obj.attr(AttrName::Node),
                        opts,
                        calls,
                        depth,
                        types,
                        fallback,
                        node,
                    )
                    &&& out == array_of(2, then(graph, node))
                },
            LiSEType::Portal => exists|graph: Wire, orig: Wire, dest: Wire|
                #![trigger then(graph, then(orig, dest))]
                {
                    &&& is_encoding(graph_name(obj), opts, calls, depth, types, fallback, graph)
                    &&& graph is Ok ==> is_encoding(
                        obj.attr(AttrName::Orig),
                        opts,
                        calls,
                        depth,
                        types,
                        fallback,
                        orig,
                    )
                    &&& graph is Ok && orig is Ok ==> is_encoding(
                        obj.attr(AttrName::Dest),
                        opts,
                        calls,
                        depth,
                        types,
                        fallback,
                        dest,
                    )
                    &&& out == array_of(3, then(graph, then(orig, dest)))
                },
            LiSEType::FinalRule => out == array_of(0, Ok(Seq::empty())),
        }
    }
}

/// Whether `out` is an outcome of encoding a world entity.
pub open spec fn is_lise_encoding<F: Fn(&PyObject) -> Option<PyObject>>(
    obj: PyObject,
    opts: Opt,
    calls: nat,
    depth: nat,
    types: TypeRefs,
    fallback: Option<&F>,
    out: Wire,
) -> bool
    decreases 255 - calls, obj, 1nat,
{
    if depth >= 255 {
        out == Err::<Seq<u8>, EncodeError>(EncodeError::RecursionLimitReached)
    } else {
        match LiSEType::kind_of(obj.ob_type.id, types.lise_types) {
            None => out == Err::<Seq<u8>, EncodeError>(EncodeError::DomainEntityKindUnrecognized),
            Some(kind) => exists|payload: Wire|
                #![trigger ext_of(kind.spec_ext_code(), payload)]
                {
                    &&& is_entity_payload(
                        obj,
                        kind,
                        opts,
                        calls,
                        depth + 1,
                        types,
                        fallback,
                        payload,
                    )
                    &&& out == ext_of(kind.spec_ext_code(), payload)
                },
        }
    }
}

/// Whether `out` is an outcome of encoding an enumeration member.
pub open spec fn is_enum_encoding<F: Fn(&PyObject) -> Option<PyObject>>(
    obj: PyObject,
    opts: Opt,
    calls: nat,
    depth: nat,
    types: TypeRefs,
    fallback: Option<&F>,
    out: Wire,
) -> bool
    decreases 255 - calls, obj, 0nat,
{
    if !obj.has_attr(AttrName::Value) {
        out == Err::<Seq<u8>, EncodeError>(EncodeError::MissingAttribute)
    } else {
        is_encoding(obj.attr(AttrName::Value), opts, calls, depth, types, fallback, out)
    }
}

/// Whether `out` is an outcome of encoding an object by way of the fallback
/// handler: an outcome for some substitute that the handler can return for
/// the object.
pub open spec fn is_default_encoding<F: Fn(&PyObject) -> Option<PyObject>>(
    obj: PyObject,
    opts: Opt,
    calls: nat,
    depth: nat,
    types: TypeRefs,
    fallback: Option<&F>,
    out: Wire,
) -> bool
    decreases 255 - calls, obj, 0nat,
{
    match fallback {
        None => out == Err::<Seq<u8>, EncodeError>(EncodeError::UnsupportedType),
        Some(f) => if calls >= 255 {
            out == Err::<Seq<u8>, EncodeError>(EncodeError::FallbackLimitReached)
        } else {
            exists|replaced: Option<PyObject>|
                #![trigger call_ensures(*f, (&obj,), replaced)]
                {
                    &&& call_ensures(*f, (&obj,), replaced)
                    &&& is_substitute_encoding(
                        replaced,
                        opts,
                        calls,
                        depth,
                        types,
                        fallback,
                        out,
                    )
                }
        },
    }
}

/// Whether `out` is an outcome for an object for which the fallback handler
/// returned `replaced`, after `calls` earlier uses of the handler.
pub open spec fn is_substitute_encoding<F: Fn(&PyObject) -> Option<PyObject>>(
    replaced: Option<PyObject>,
    opts: Opt,
    calls: nat,
    depth: nat,
    types: TypeRefs,
    fallback: Option<&F>,
    out: Wire,
) -> bool
    recommends
        calls < 255,
    decreases 254 - calls, replaced, 0nat,
    when calls < 255
{
    match replaced {
        None => out == Err::<Seq<u8>, EncodeError>(EncodeError::UnsupportedType),
        Some(other) => is_encoding(other, opts, calls + 1, depth, types, fallback, out),
    }
}

/// Whether `out` is an outcome of encoding a numeric array.
pub open spec fn is_numpy_array_encoding<F: Fn(&PyObject) -> Option<PyObject>>(
    obj: PyObject,
    opts: Opt,
    calls: nat,
    depth: nat,
    types: TypeRefs,
    fallback: Option<&F>,
    out: Wire,
) -> bool
    decreases 255 - calls, obj, 1nat,
{
    match obj.leaf {
        Leaf::Failed(LeafFailure::NumericArrayNotContiguous) | Leaf::Failed(
            LeafFailure::NumericArrayUnsupportedDataType,
        ) => if fallback is None {
            out == leaf_encoding(obj.leaf)
        } else {
            is_default_encoding(obj, opts, calls, depth, types, fallback, out)
        },
        _ => out == leaf_encoding(obj.leaf),
    }
}

} // verus!
