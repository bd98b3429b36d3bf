//! What holds of every encoding.

use crate::error::EncodeError;
use crate::object::{Leaf, PyObject};
use crate::opt::Opt;
use crate::serialize::encoding::{
    array_of, collection_encoding, default_encoding, encoding, entity_payload, ext_of,
    is_scalar, items_encoding, leaf_encoding, leaves_encoding, lise_encoding, substitute,
    substitute_encoding, takes_level, then, Wire, FROZENSET_CODE, SET_CODE,
};
use crate::serialize::outcome::{
    is_collection_encoding, is_encoding, is_entity_payload, is_lise_encoding,
    is_sequence_encoding,
};
use crate::serialize::serializer::{spec_obtype, ObType};
use crate::typeref::{LiSEType, TypeRefs};
use crate::wire::{
    decode_ext, decode_int, lemma_ext_round_trip, lemma_int_round_trip, MAX_WIRE_LEN,
};
use vstd::prelude::*;

verus! {

/// The depth ceiling: a container, record, world entity or exception that is
/// met at level 255 fails with `RecursionLimitReached`, whatever it holds.
pub proof fn lemma_depth_ceiling<F: Fn(&PyObject) -> Option<PyObject>>(
    obj: PyObject,
    opts: Opt,
    calls: nat,
    depth: nat,
    types: TypeRefs,
    fallback: Option<&F>,
)
    requires
        takes_level(spec_obtype(obj, opts, types)),
        depth >= 255,
    ensures
        encoding(obj, opts, calls, depth, types, fallback) == Err::<Seq<u8>, EncodeError>(
            EncodeError::RecursionLimitReached,
        ),
{
}

/// Whether `obj` is `k` lists one inside the other: a list whose only
/// element is a list, and so on, down to an empty list.
pub open spec fn nested_lists(obj: PyObject, opts: Opt, types: TypeRefs, k: nat) -> bool
    decreases k,
{
    &&& spec_obtype(obj, opts, types) == ObType::List
    &&& if k <= 1 {
        k == 1 && obj.items.len() == 0
    } else {
        obj.items.len() == 1 && nested_lists(obj.items[0], opts, types, (k - 1) as nat)
    }
}

/// The depth boundary: lists nested `k` deep, the outermost met at level
/// `depth`, encode exactly when `depth + k` is at most 255, and otherwise
/// fail with `RecursionLimitReached`. From the root, 255 lists encode and 256
/// do not.
pub proof fn lemma_nesting_boundary<F: Fn(&PyObject) -> Option<PyObject>>(
    obj: PyObject,
    opts: Opt,
    calls: nat,
    depth: nat,
    types: TypeRefs,
    fallback: Option<&F>,
    k: nat,
)
    requires
        nested_lists(obj, opts, types, k),
    ensures
        depth + k <= 255 ==> encoding(obj, opts, calls, depth, types, fallback) is Ok,
        depth + k > 255 ==> encoding(obj, opts, calls, depth, types, fallback) == Err::<
            Seq<u8>,
            EncodeError,
        >(EncodeError::RecursionLimitReached),
    decreases k,
{
    if depth < 255 {
        let inner = items_encoding(
            obj.items@,
            opts,
            calls,
            depth + 1,
            types,
            fallback,
            obj.items.len() as nat,
        );
        assert(encoding(obj, opts, calls, depth, types, fallback) == array_of(
            obj.items.len() as nat,
            inner,
        ));
        if k > 1 {
            lemma_nesting_boundary(
                obj.items[0],
                opts,
                calls,
                depth + 1,
                types,
                fallback,
                (k - 1) as nat,
            );
            assert(items_encoding(obj.items@, opts, calls, depth + 1, types, fallback, 0) == Ok::<
                Seq<u8>,
                EncodeError,
            >(Seq::empty()));
            assert(inner == then(
                Ok(Seq::empty()),
                encoding(obj.items[0], opts, calls, depth + 1, types, fallback),
            ));
        }
    }
}

/// Scalars do not look at the nesting level, nor at the fallback handler:
/// a scalar encodes alike wherever it is met, and never fails with
/// `RecursionLimitReached`.
pub proof fn lemma_scalars_ignore_context<F: Fn(&PyObject) -> Option<PyObject>>(
    obj: PyObject,
    opts: Opt,
    types: TypeRefs,
    calls: nat,
    depth: nat,
    fallback: Option<&F>,
    other_calls: nat,
    other_depth: nat,
    other_fallback: Option<&F>,
)
    requires
        is_scalar(spec_obtype(obj, opts, types)),
    ensures
        encoding(obj, opts, calls, depth, types, fallback) == encoding(
            obj,
            opts,
            other_calls,
            other_depth,
            types,
            other_fallback,
        ),
        encoding(obj, opts, calls, depth, types, fallback) != Err::<Seq<u8>, EncodeError>(
            EncodeError::RecursionLimitReached,
        ),
{
    lemma_leaf_never_hits_ceiling(obj.leaf);
}

/// The encoding of scalar content never fails with `RecursionLimitReached`.
pub proof fn lemma_leaf_never_hits_ceiling(leaf: Leaf)
    ensures
        leaf_encoding(leaf) != Err::<Seq<u8>, EncodeError>(
            EncodeError::RecursionLimitReached,
        ),
    decreases leaf,
{
    match leaf {
        Leaf::Array(elements) => {
            lemma_leaves_never_hit_ceiling(elements@, elements.len() as nat);
        },
        _ => {},
    }
}

/// The joined encoding of a row of leaves never fails with
/// `RecursionLimitReached`.
pub proof fn lemma_leaves_never_hit_ceiling(leaves: Seq<Leaf>, n: nat)
    ensures
        leaves_encoding(leaves, n) != Err::<Seq<u8>, EncodeError>(
            EncodeError::RecursionLimitReached,
        ),
    decreases leaves, n,
{
    if n == 0 || n > leaves.len() {
    } else {
        lemma_leaves_never_hit_ceiling(leaves, (n - 1) as nat);
        lemma_leaf_never_hits_ceiling(leaves[n - 1]);
    }
}

/// An integer object that holds a signed 64-bit number encodes to bytes that
/// decode to that number, wherever it is met.
pub proof fn lemma_integer_object_round_trip<F: Fn(&PyObject) -> Option<PyObject>>(
    obj: PyObject,
    n: i64,
    opts: Opt,
    calls: nat,
    depth: nat,
    types: TypeRefs,
    fallback: Option<&F>,
)
    requires
        spec_obtype(obj, opts, types) == ObType::Int,
        obj.leaf == Leaf::Int(n) || (n >= 0 && obj.leaf == Leaf::UInt(n as u64)),
    ensures
        encoding(obj, opts, calls, depth, types, fallback) matches Ok(bytes) && decode_int(bytes)
            == Some(n as int),
{
    lemma_int_round_trip(n as int);
}

/// Without a fallback handler, an object of unknown classification fails
/// with `UnsupportedType`.
pub proof fn lemma_unknown_without_fallback<F: Fn(&PyObject) -> Option<PyObject>>(
    obj: PyObject,
    opts: Opt,
    calls: nat,
    depth: nat,
    types: TypeRefs,
)
    requires
        spec_obtype(obj, opts, types) == ObType::Unknown,
    ensures
        encoding(obj, opts, calls, depth, types, None::<&F>) == Err::<Seq<u8>, EncodeError>(
            EncodeError::UnsupportedType,
        ),
{
}

/// With a fallback handler, an object of unknown classification encodes as
/// the substitute that the handler returns for it, met at the same level
/// with one more use of the handler counted; so a substitute that is unknown
/// itself goes to the handler again, up to 255 times.
pub proof fn lemma_fallback_substitutes<F: Fn(&PyObject) -> Option<PyObject>>(
    obj: PyObject,
    opts: Opt,
    calls: nat,
    depth: nat,
    types: TypeRefs,
    handler: &F,
)
    requires
        spec_obtype(obj, opts, types) == ObType::Unknown,
    ensures
        encoding(obj, opts, calls, depth, types, Some(handler)) == if calls >= 255 {
            Err::<Seq<u8>, EncodeError>(EncodeError::FallbackLimitReached)
        } else {
            match substitute(*handler, obj) {
                Some(other) => encoding(other, opts, calls + 1, depth, types, Some(handler)),
                None => Err::<Seq<u8>, EncodeError>(EncodeError::UnsupportedType),
            }
        },
{
    let fallback = Some(handler);
    assert(encoding(obj, opts, calls, depth, types, fallback) == default_encoding(
        obj,
        opts,
        calls,
        depth,
        types,
        fallback,
    ));
    if calls < 255 {
        assert(default_encoding(obj, opts, calls, depth, types, fallback) == substitute_encoding(
            substitute(*handler, obj),
            opts,
            calls,
            depth,
            types,
            fallback,
        ));
    }
}

/// A mutable set and a frozen set with the same elements succeed or fail
/// together, and where they succeed their encodings differ: a reader finds
/// code 2 in the one and code 1 in the other, around the same payload.
pub proof fn lemma_set_and_frozenset_differ<F: Fn(&PyObject) -> Option<PyObject>>(
    set: PyObject,
    frozen: PyObject,
    opts: Opt,
    calls: nat,
    depth: nat,
    types: TypeRefs,
    fallback: Option<&F>,
)
    requires
        set.items == frozen.items,
    ensures
        match (
            collection_encoding(set, SET_CODE, opts, calls, depth, types, fallback),
            collection_encoding(frozen, FROZENSET_CODE, opts, calls, depth, types, fallback),
        ) {
            (Ok(a), Ok(b)) => {
                &&& a != b
                &&& decode_ext(a) matches Some(in_set)
                &&& decode_ext(b) matches Some(in_frozen)
                &&& in_set.0 == SET_CODE
                &&& in_frozen.0 == FROZENSET_CODE
                &&& in_set.1 == in_frozen.1
            },
            (Err(e), Err(f)) => e == f,
            _ => false,
        },
{
    if depth < 255 {
        let payload = array_of(
            set.items.len() as nat,
            items_encoding(
                set.items@,
                opts,
                calls,
                depth + 1,
                types,
                fallback,
                set.items.len() as nat,
            ),
        );
        match payload {
            Ok(bytes) => {
                if bytes.len() <= MAX_WIRE_LEN {
                    lemma_ext_round_trip(SET_CODE, bytes);
                    lemma_ext_round_trip(FROZENSET_CODE, bytes);
                }
            },
            Err(_) => {},
        }
    }
}

/// The live and the proxy realisation of a world entity encode alike: two
/// entities of the same kind with the same attributes have the same
/// encoding, whatever their types are.
pub proof fn lemma_realisations_encode_alike<F: Fn(&PyObject) -> Option<PyObject>>(
    live: PyObject,
    proxy: PyObject,
    opts: Opt,
    calls: nat,
    depth: nat,
    types: TypeRefs,
    fallback: Option<&F>,
)
    requires
        live.attrs == proxy.attrs,
        LiSEType::kind_of(live.ob_type.id, types.lise_types) == LiSEType::kind_of(
            proxy.ob_type.id,
            types.lise_types,
        ),
    ensures
        lise_encoding(live, opts, calls, depth, types, fallback) == lise_encoding(
            proxy,
            opts,
            calls,
            depth,
            types,
            fallback,
        ),
{
    match LiSEType::kind_of(live.ob_type.id, types.lise_types) {
        Some(kind) => {
            assert(entity_payload(live, kind, opts, calls, depth + 1, types, fallback)
                == entity_payload(proxy, kind, opts, calls, depth + 1, types, fallback));
        },
        None => {},
    }
}

/// A world entity travels under the code of its kind: a reader of a
/// successful encoding finds that code, and so tells the kinds apart.
pub proof fn lemma_entity_code<F: Fn(&PyObject) -> Option<PyObject>>(
    obj: PyObject,
    opts: Opt,
    calls: nat,
    depth: nat,
    types: TypeRefs,
    fallback: Option<&F>,
)
    ensures
        match lise_encoding(obj, opts, calls, depth, types, fallback) {
            Ok(bytes) => {
                &&& LiSEType::kind_of(obj.ob_type.id, types.lise_types) matches Some(kind)
                &&& decode_ext(bytes) matches Some(found)
                &&& found.0 == kind.spec_ext_code()
                &&& Ok::<Seq<u8>, EncodeError>(found.1) == entity_payload(
                    obj,
                    kind,
                    opts,
                    calls,
                    depth + 1,
                    types,
                    fallback,
                )
            },
            Err(_) => true,
        },
{
    if depth < 255 {
        match LiSEType::kind_of(obj.ob_type.id, types.lise_types) {
            Some(kind) => {
                match entity_payload(obj, kind, opts, calls, depth + 1, types, fallback) {
                    Ok(bytes) => {
                        if bytes.len() <= MAX_WIRE_LEN {
                            lemma_ext_round_trip(kind.spec_ext_code(), bytes);
                        }
                    },
                    Err(_) => {},
                }
            },
            None => {},
        }
    }
}

/// The depth ceiling holds whatever the fallback handler does: the only
/// outcome for a container, record, world entity or exception that is met at
/// level 255 is `RecursionLimitReached`.
pub proof fn lemma_depth_ceiling_for_every_handler<F: Fn(&PyObject) -> Option<PyObject>>(
    obj: PyObject,
    opts: Opt,
    calls: nat,
    depth: nat,
    types: TypeRefs,
    fallback: Option<&F>,
    out: Wire,
)
    requires
        takes_level(spec_obtype(obj, opts, types)),
        depth >= 255,
    ensures
        is_encoding(obj, opts, calls, depth, types, fallback, out) <==> out == Err::<
            Seq<u8>,
            EncodeError,
        >(EncodeError::RecursionLimitReached),
{
}

/// A scalar has one outcome, whatever the fallback handler does: the
/// encoding of its content.
pub proof fn lemma_scalar_for_every_handler<F: Fn(&PyObject) -> Option<PyObject>>(
    obj: PyObject,
    opts: Opt,
    calls: nat,
    depth: nat,
    types: TypeRefs,
    fallback: Option<&F>,
    out: Wire,
)
    requires
        is_scalar(spec_obtype(obj, opts, types)),
    ensures
        is_encoding(obj, opts, calls, depth, types, fallback, out) <==> out == leaf_encoding(
            obj.leaf,
        ),
{
}

/// Whatever the fallback handler makes of their elements, a successful
/// encoding of a mutable set and one of a frozen set differ: a reader finds
/// code 2 in the one and code 1 in the other.
pub proof fn lemma_set_and_frozenset_differ_for_every_handler<
    F: Fn(&PyObject) -> Option<PyObject>,
>(
    set: PyObject,
    frozen: PyObject,
    opts: Opt,
    calls: nat,
    depth: nat,
    types: TypeRefs,
    fallback: Option<&F>,
    a: Seq<u8>,
    b: Seq<u8>,
)
    requires
        is_collection_encoding(set, SET_CODE, opts, calls, depth, types, fallback, Ok(a)),
        is_collection_encoding(frozen, FROZENSET_CODE, opts, calls, depth, types, fallback, Ok(b)),
    ensures
        a != b,
        decode_ext(a) matches Some(in_set) && in_set.0 == SET_CODE,
        decode_ext(b) matches Some(in_frozen) && in_frozen.0 == FROZENSET_CODE,
{
    let out_a: Wire = Ok(a);
    let out_b: Wire = Ok(b);
    let payload_a = choose|payload: Wire|
        is_sequence_encoding(set.items@, opts, calls, depth + 1, types, fallback, payload)
            && out_a == #[trigger] ext_of(SET_CODE, payload);
    let payload_b = choose|payload: Wire|
        is_sequence_encoding(frozen.items@, opts, calls, depth + 1, types, fallback, payload)
            && out_b == #[trigger] ext_of(FROZENSET_CODE, payload);
    lemma_ext_round_trip(SET_CODE, payload_a->Ok_0);
    lemma_ext_round_trip(FROZENSET_CODE, payload_b->Ok_0);
}

/// Whatever the fallback handler makes of its fields, a successful encoding
/// of a world entity carries the code of the entity's kind.
pub proof fn lemma_entity_code_for_every_handler<F: Fn(&PyObject) -> Option<PyObject>>(
    obj: PyObject,
    opts: Opt,
    calls: nat,
    depth: nat,
    types: TypeRefs,
    fallback: Option<&F>,
    bytes: Seq<u8>,
)
    requires
        is_lise_encoding(obj, opts, calls, depth, types, fallback, Ok(bytes)),
    ensures
        LiSEType::kind_of(obj.ob_type.id, types.lise_types) matches Some(kind) && decode_ext(
            bytes,
        ) matches Some(found) && found.0 == kind.spec_ext_code(),
{
    let out: Wire = Ok(bytes);
    let kind = LiSEType::kind_of(obj.ob_type.id, types.lise_types)->0;
    let payload = choose|payload: Wire|
        is_entity_payload(
            obj,
            kind,
            opts,
            calls,
            depth + 1,
            types,
            fallback,
            payload,
        ) && out == #[trigger] ext_of(kind.spec_ext_code(), payload);
    lemma_ext_round_trip(kind.spec_ext_code(), payload->Ok_0);
}

/// Without a fallback handler the only outcome for an object of unknown
/// classification is `UnsupportedType`.
pub proof fn lemma_unknown_has_one_outcome<F: Fn(&PyObject) -> Option<PyObject>>(
    obj: PyObject,
    opts: Opt,
    calls: nat,
    depth: nat,
    types: TypeRefs,
    out: Wire,
)
    requires
        spec_obtype(obj, opts, types) == ObType::Unknown,
    ensures
        is_encoding(obj, opts, calls, depth, types, None::<&F>, out) <==> out == Err::<
            Seq<u8>,
            EncodeError,
        >(EncodeError::UnsupportedType),
{
}

} // verus!
