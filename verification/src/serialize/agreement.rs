//! The outcomes of an encoding agree with the encoding function.
//!
//! Where the fallback handler returns for each object one substitute only,
//! and so where there is no handler at all, an encoding has no outcome but
//! the one that [`encoding`] gives.

use crate::object::{AttrName, Field, Leaf, LeafFailure, PyObject};
use crate::opt::Opt;
use crate::serialize::encoding::{
    array_of, collection_encoding, default_encoding, encoding, entity_payload, entity_readable,
    exception_encoding, exception_readable, ext_of, fallback_functional, fields_encoding,
    graph_name, items_encoding, lise_encoding, map_of, substitute, substitute_encoding,
    text_encoding, then, Wire, EXCEPTION_CODE, FROZENSET_CODE, SET_CODE, TUPLE_CODE,
};
use crate::serialize::outcome::{
    is_collection_encoding, is_default_encoding, is_encoding, is_entity_payload,
    is_exception_encoding, is_fields_encoding, is_items_encoding, is_lise_encoding,
    is_map_encoding, is_sequence_encoding, is_substitute_encoding, is_traceback_encoding,
};
use crate::serialize::serializer::{spec_obtype, ObType};
use crate::typeref::{LiSEType, TypeRefs};
use crate::wire::MAX_WIRE_LEN;
use vstd::prelude::*;

verus! {

/// With a fallback handler that returns for each object one substitute
/// only, or with none, the only outcome of encoding an object is its
/// encoding.
pub proof fn lemma_one_outcome<F: Fn(&PyObject) -> Option<PyObject>>(
    obj: PyObject,
    opts: Opt,
    calls: nat,
    depth: nat,
    types: TypeRefs,
    fallback: Option<&F>,
    out: Wire,
)
    requires
        fallback_functional(fallback),
        is_encoding(obj, opts, calls, depth, types, fallback, out),
    ensures
        out == encoding(obj, opts, calls, depth, types, fallback),
    decreases 255 - calls, obj, 2nat,
{
    match spec_obtype(obj, opts, types) {
        ObType::List => {
            if depth < 255 {
                lemma_one_sequence(obj.items@, opts, calls, depth + 1, types, fallback, out);
            }
        },
        ObType::Dict | ObType::Dataclass => {
            if depth < 255 {
                lemma_one_map(obj.fields@, opts, calls, depth + 1, types, fallback, out);
            }
        },
        ObType::Pydantic => {
            if depth < 255 && obj.has_attr(AttrName::Dict) {
                lemma_one_map(
                    obj.attr(AttrName::Dict).fields@,
                    opts,
                    calls,
                    depth + 1,
                    types,
                    fallback,
                    out,
                );
            }
        },
        ObType::Tuple => lemma_one_collection(
            obj,
            TUPLE_CODE,
            opts,
            calls,
            depth,
            types,
            fallback,
            out,
        ),
        ObType::MutableSet => lemma_one_collection(
            obj,
            SET_CODE,
            opts,
            calls,
            depth,
            types,
            fallback,
            out,
        ),
        ObType::FrozenSet => lemma_one_collection(
            obj,
            FROZENSET_CODE,
            opts,
            calls,
            depth,
            types,
            fallback,
            out,
        ),
        ObType::Exception => lemma_one_exception(obj, opts, calls, depth, types, fallback, out),
        ObType::LiSE => lemma_one_entity(obj, opts, calls, depth, types, fallback, out),
        ObType::Enum => {
            if obj.has_attr(AttrName::Value) {
                lemma_one_outcome(
                    obj.attr(AttrName::Value),
                    opts,
                    calls,
                    depth,
                    types,
                    fallback,
                    out,
                );
            }
        },
        ObType::NumpyArray => {
            match obj.leaf {
                Leaf::Failed(LeafFailure::NumericArrayNotContiguous) | Leaf::Failed(
                    LeafFailure::NumericArrayUnsupportedDataType,
                ) => {
                    if fallback is Some {
                        lemma_one_default(obj, opts, calls, depth, types, fallback, out);
                    }
                },
                _ => {},
            }
        },
        ObType::Unknown => lemma_one_default(obj, opts, calls, depth, types, fallback, out),
        _ => {},
    }
}

/// The same, of the first `n` elements of a row.
pub proof fn lemma_one_items<F: Fn(&PyObject) -> Option<PyObject>>(
    items: Seq<PyObject>,
    opts: Opt,
    calls: nat,
    depth: nat,
    types: TypeRefs,
    fallback: Option<&F>,
    n: nat,
    out: Wire,
)
    requires
        fallback_functional(fallback),
        is_items_encoding(items, opts, calls, depth, types, fallback, n, out),
    ensures
        out == items_encoding(items, opts, calls, depth, types, fallback, n),
    decreases 255 - calls, items, n,
{
    if n == 0 || n > items.len() {
    } else {
        let (init, last) = choose|init: Wire, last: Wire|
            #![trigger then(init, last)]
            {
                &&& is_items_encoding(items, opts, calls, depth, types, fallback, (n - 1) as nat, init)
                &&& init is Ok ==> is_encoding(
                    items[n - 1],
                    opts,
                    calls,
                    depth,
                    types,
                    fallback,
                    last,
                )
                &&& out == then(init, last)
            };
        lemma_one_items(items, opts, calls, depth, types, fallback, (n - 1) as nat, init);
        if init is Ok {
            lemma_one_outcome(items[n - 1], opts, calls, depth, types, fallback, last);
        }
    }
}

/// The same, of the first `n` entries of a row.
pub proof fn lemma_one_fields<F: Fn(&PyObject) -> Option<PyObject>>(
    fields: Seq<Field>,
    opts: Opt,
    calls: nat,
    depth: nat,
    types: TypeRefs,
    fallback: Option<&F>,
    n: nat,
    out: Wire,
)
    requires
        fallback_functional(fallback),
        is_fields_encoding(fields, opts, calls, depth, types, fallback, n, out),
    ensures
        out == fields_encoding(fields, opts, calls, depth, types, fallback, n),
    decreases 255 - calls, fields, n,
{
    if n == 0 || n > fields.len() {
    } else {
        let (init, value) = choose|init: Wire, value: Wire|
            #![trigger then(init, then(text_encoding(fields[n - 1].name@), value))]
            {
                &&& is_fields_encoding(
                    fields,
                    opts,
                    calls,
                    depth,
                    types,
                    fallback,
                    (n - 1) as nat,
                    init,
                )
                &&& init is Ok && text_encoding(fields[n - 1].name@) is Ok ==> is_encoding(
                    fields[n - 1].value,
                    opts,
                    calls,
                    depth,
                    types,
                    fallback,
                    value,
                )
                &&& out == then(init, then(text_encoding(fields[n - 1].name@), value))
            };
        lemma_one_fields(fields, opts, calls, depth, types, fallback, (n - 1) as nat, init);
        if init is Ok && text_encoding(fields[n - 1].name@) is Ok {
            lemma_one_outcome(fields[n - 1].value, opts, calls, depth, types, fallback, value);
        }
    }
}

/// The same, of a row of elements as a sequence.
pub proof fn lemma_one_sequence<F: Fn(&PyObject) -> Option<PyObject>>(
    items: Seq<PyObject>,
    opts: Opt,
    calls: nat,
    depth: nat,
    types: TypeRefs,
    fallback: Option<&F>,
    out: Wire,
)
    requires
        fallback_functional(fallback),
        is_sequence_encoding(items, opts, calls, depth, types, fallback, out),
    ensures
        out == array_of(
            items.len(),
            items_encoding(items, opts, calls, depth, types, fallback, items.len()),
        ),
    decreases 255 - calls, items, items.len() + 1,
{
    let body = choose|body: Wire|
        #![trigger array_of(items.len(), body)]
        {
            &&& items.len() <= MAX_WIRE_LEN ==> is_items_encoding(
                items,
                opts,
                calls,
                depth,
                types,
                fallback,
                items.len(),
                body,
            )
            &&& out == array_of(items.len(), body)
        };
    if items.len() <= MAX_WIRE_LEN {
        lemma_one_items(items, opts, calls, depth, types, fallback, items.len(), body);
    }
}

/// The same, of a row of entries as a mapping.
pub proof fn lemma_one_map<F: Fn(&PyObject) -> Option<PyObject>>(
    fields: Seq<Field>,
    opts: Opt,
    calls: nat,
    depth: nat,
    types: TypeRefs,
    fallback: Option<&F>,
    out: Wire,
)
    requires
        fallback_functional(fallback),
        is_map_encoding(fields, opts, calls, depth, types, fallback, out),
    ensures
        out == map_of(
            fields.len(),
            fields_encoding(fields, opts, calls, depth, types, fallback, fields.len()),
        ),
    decreases 255 - calls, fields, fields.len() + 1,
{
    let body = choose|body: Wire|
        #![trigger map_of(fields.len(), body)]
        {
            &&& fields.len() <= MAX_WIRE_LEN ==> is_fields_encoding(
                fields,
                opts,
                calls,
                depth,
                types,
                fallback,
                fields.len(),
                body,
            )
            &&& out == map_of(fields.len(), body)
        };
    if fields.len() <= MAX_WIRE_LEN {
        lemma_one_fields(fields, opts, calls, depth, types, fallback, fields.len(), body);
    }
}

/// The same, of a tuple, a set or a frozen set.
pub proof fn lemma_one_collection<F: Fn(&PyObject) -> Option<PyObject>>(
    obj: PyObject,
    code: i8,
    opts: Opt,
    calls: nat,
    depth: nat,
    types: TypeRefs,
    fallback: Option<&F>,
    out: Wire,
)
    requires
        fallback_functional(fallback),
        is_collection_encoding(obj, code, opts, calls, depth, types, fallback, out),
    ensures
        out == collection_encoding(obj, code, opts, calls, depth, types, fallback),
    decreases 255 - calls, obj, 0nat,
{
    if depth < 255 {
        let payload = choose|payload: Wire|
            #![trigger ext_of(code, payload)]
            {
                &&& is_sequence_encoding(
                    obj.items@,
                    opts,
                    calls,
                    depth + 1,
                    types,
                    fallback,
                    payload,
                )
                &&& out == ext_of(code, payload)
            };
        lemma_one_sequence(obj.items@, opts, calls, depth + 1, types, fallback, payload);
    }
}

/// The same, of an exception.
pub proof fn lemma_one_exception<F: Fn(&PyObject) -> Option<PyObject>>(
    obj: PyObject,
    opts: Opt,
    calls: nat,
    depth: nat,
    types: TypeRefs,
    fallback: Option<&F>,
    out: Wire,
)
    requires
        fallback_functional(fallback),
        is_exception_encoding(obj, opts, calls, depth, types, fallback, out),
    ensures
        out == exception_encoding(obj, opts, calls, depth, types, fallback),
    decreases 255 - calls, obj, 1nat,
{
    if depth < 255 && exception_readable(obj) {
        let args = obj.attr(AttrName::Args);
        let class_name = obj.attr(AttrName::Class).attr(AttrName::ClassName);
        let len = args.items.len() as nat + 2;
        let (name, traceback, rest) = choose|name: Wire, traceback: Wire, rest: Wire|
            #![trigger then(name, then(traceback, rest))]
            {
                &&& len <= MAX_WIRE_LEN ==> is_encoding(
                    class_name,
                    opts,
                    calls,
                    depth + 1,
                    types,
                    fallback,
                    name,
                )
                &&& len <= MAX_WIRE_LEN && name is Ok ==> is_traceback_encoding(
                    obj,
                    opts,
                    calls,
                    depth + 1,
                    types,
                    fallback,
                    traceback,
                )
                &&& len <= MAX_WIRE_LEN && name is Ok && traceback is Ok ==> is_items_encoding(
                    args.items@,
                    opts,
                    calls,
                    depth + 1,
                    types,
                    fallback,
                    args.items.len() as nat,
                    rest,
                )
                &&& out == ext_of(
                    EXCEPTION_CODE,
                    array_of(len, then(name, then(traceback, rest))),
                )
            };
        if len <= MAX_WIRE_LEN {
            lemma_one_outcome(class_name, opts, calls, depth + 1, types, fallback, name);
            if name is Ok {
                if obj.has_attr(AttrName::Traceback) {
                    lemma_one_outcome(
                        obj.attr(AttrName::Traceback),
                        opts,
                        calls,
                        depth + 1,
                        types,
                        fallback,
                        traceback,
                    );
                }
                if traceback is Ok {
                    lemma_one_items(
                        args.items@,
                        opts,
                        calls,
                        depth + 1,
                        types,
                        fallback,
                        args.items.len() as nat,
                        rest,
                    );
                }
            }
        }
    }
}

/// The same, of the fields of a world entity.
pub proof fn lemma_one_payload<F: Fn(&PyObject) -> Option<PyObject>>(
    obj: PyObject,
    kind: LiSEType,
    opts: Opt,
    calls: nat,
    depth: nat,
    types: TypeRefs,
    fallback: Option<&F>,
    out: Wire,
)
    requires
        fallback_functional(fallback),
        is_entity_payload(obj, kind, opts, calls, depth, types, fallback, out),
    ensures
        out == entity_payload(obj, kind, opts, calls, depth, types, fallback),
    decreases 255 - calls, obj, 0nat,
{
    if entity_readable(obj, kind) {
        match kind {
            LiSEType::Character => {
                let name = choose|name: Wire|
                    #![trigger array_of(1, name)]
                    {
                        &&& is_encoding(
                            obj.attr(AttrName::Name),
                            opts,
                            calls,
                            depth,
                            types,
                            fallback,
                            name,
                        )
                        &&& out == array_of(1, name)
                    };
                lemma_one_outcome(
                    obj.attr(AttrName::Name),
                    opts,
                    calls,
                    depth,
                    types,
                    fallback,
                    name,
                );
            },
            LiSEType::Thing | LiSEType::Place => {
                let (graph, node) = choose|graph: Wire, node: Wire|
                    #![trigger then(graph, node)]
                    {
                        &&& is_encoding(graph_name(obj), opts, calls, depth, types, fallback, graph)
                        &&& graph is Ok ==> is_encoding(
                            obj.attr(AttrName::Node),
                            opts,
                            calls,
                            depth,
                            types,
                            fallback,
                            node,
                        )
                        &&& out == array_of(2, then(graph, node))
                    };
                lemma_one_outcome(graph_name(obj), opts, calls, depth, types, fallback, graph);
                if graph is Ok {
                    lemma_one_outcome(
                        obj.attr(AttrName::Node),
                        opts,
                        calls,
                        depth,
                        types,
                        fallback,
                        node,
                    );
                }
            },
            LiSEType::Portal => {
                let (graph, orig, dest) = choose|graph: Wire, orig: Wire, dest: Wire|
                    #![trigger then(graph, then(orig, dest))]
                    {
                        &&& is_encoding(graph_name(obj), opts, calls, depth, types, fallback, graph)
                        &&& graph is Ok ==> is_encoding(
                            obj.attr(AttrName::Orig),
                            opts,
                            calls,
                            depth,
                            types,
                            fallback,
                            orig,
                        )
                        &&& graph is Ok && orig is Ok ==> is_encoding(
                            obj.attr(AttrName::Dest),
                            opts,
                            calls,
                            depth,
                            types,
                            fallback,
                            dest,
                        )
                        &&& out == array_of(3, then(graph, then(orig, dest)))
                    };
                lemma_one_outcome(graph_name(obj), opts, calls, depth, types, fallback, graph);
                if graph is Ok {
                    lemma_one_outcome(
                        obj.attr(AttrName::Orig),
                        opts,
                        calls,
                        depth,
                        types,
                        fallback,
                        orig,
                    );
                    if orig is Ok {
                        lemma_one_outcome(
                            obj.attr(AttrName::Dest),
                            opts,
                            calls,
                            depth,
                            types,
                            fallback,
                            dest,
                        );
                    }
                }
            },
            LiSEType::FinalRule => {},
        }
    }
}

/// The same, of a world entity.
pub proof fn lemma_one_entity<F: Fn(&PyObject) -> Option<PyObject>>(
    obj: PyObject,
    opts: Opt,
    calls: nat,
    depth: nat,
    types: TypeRefs,
    fallback: Option<&F>,
    out: Wire,
)
    requires
        fallback_functional(fallback),
        is_lise_encoding(obj, opts, calls, depth, types, fallback, out),
    ensures
        out == lise_encoding(obj, opts, calls, depth, types, fallback),
    decreases 255 - calls, obj, 1nat,
{
    if depth < 255 {
        match LiSEType::kind_of(obj.ob_type.id, types.lise_types) {
            None => {},
            Some(kind) => {
                let payload = choose|payload: Wire|
                    #![trigger ext_of(kind.spec_ext_code(), payload)]
                    {
                        &&& is_entity_payload(
                            obj,
                            kind,
                            opts,
                            calls,
                            depth + 1,
                            types,
                            fallback,
                            payload,
                        )
                        &&& out == ext_of(kind.spec_ext_code(), payload)
                    };
                lemma_one_payload(obj, kind, opts, calls, depth + 1, types, fallback, payload);
            },
        }
    }
}

/// The same, of an object that goes to the fallback handler.
pub proof fn lemma_one_default<F: Fn(&PyObject) -> Option<PyObject>>(
    obj: PyObject,
    opts: Opt,
    calls: nat,
    depth: nat,
    types: TypeRefs,
    fallback: Option<&F>,
    out: Wire,
)
    requires
        fallback_functional(fallback),
        is_default_encoding(obj, opts, calls, depth, types, fallback, out),
    ensures
        out == default_encoding(obj, opts, calls, depth, types, fallback),
    decreases 255 - calls, obj, 0nat,
{
    match fallback {
        None => {},
        Some(f) => {
            if calls < 255 {
                let replaced = choose|replaced: Option<PyObject>|
                    #![trigger call_ensures(*f, (&obj,), replaced)]
                    {
                        &&& call_ensures(*f, (&obj,), replaced)
                        &&& is_substitute_encoding(
                            replaced,
                            opts,
                            calls,
                            depth,
                            types,
                            fallback,
                            out,
                        )
                    };
                assert(call_ensures(*f, (&obj,), substitute(*f, obj)));
                assert(replaced == substitute(*f, obj));
                lemma_one_substitute(replaced, opts, calls, depth, types, fallback, out);
            }
        },
    }
}

/// The same, of what the fallback handler returned.
pub proof fn lemma_one_substitute<F: Fn(&PyObject) -> Option<PyObject>>(
    replaced: Option<PyObject>,
    opts: Opt,
    calls: nat,
    depth: nat,
    types: TypeRefs,
    fallback: Option<&F>,
    out: Wire,
)
    requires
        calls < 255,
        fallback_functional(fallback),
        is_substitute_encoding(replaced, opts, calls, depth, types, fallback, out),
    ensures
        out == substitute_encoding(replaced, opts, calls, depth, types, fallback),
    decreases 254 - calls, replaced, 0nat,
{
    match replaced {
        None => {},
        Some(other) => {
            lemma_one_outcome(other, opts, calls + 1, depth, types, fallback, out);
        },
    }
}

} // verus!
