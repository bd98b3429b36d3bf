//! The encoder of lists, and of rows of elements in general.

use crate::error::EncodeError;
use crate::object::PyObject;
use crate::opt::Opt;
use crate::serialize::encoding::{
    array_of, fallback_callable, fallback_functional, items_encoding, list_encoding, then, Wire,
};
use crate::serialize::leaf::wire_of;
use crate::serialize::outcome::{is_items_encoding, is_list_encoding, is_sequence_encoding};
use crate::serialize::serializer::{PyObjectSerializer, RECURSION_LIMIT};
use crate::typeref::TypeRefs;
use crate::wire::{array_header, write_array_len, MAX_WIRE_LEN};
use vstd::prelude::*;

verus! {

/// Once a prefix of a row of elements fails, every longer prefix fails alike.
pub proof fn lemma_items_error<F: Fn(&PyObject) -> Option<PyObject>>(
    items: Seq<PyObject>,
    opts: Opt,
    calls: nat,
    depth: nat,
    types: TypeRefs,
    fallback: Option<&F>,
    k: nat,
    n: nat,
)
    requires
        k <= n <= items.len(),
        items_encoding(items, opts, calls, depth, types, fallback, k) is Err,
    ensures
        items_encoding(items, opts, calls, depth, types, fallback, n) == items_encoding(
            items,
            opts,
            calls,
            depth,
            types,
            fallback,
            k,
        ),
    decreases n - k,
{
    if k < n {
        lemma_items_error(items, opts, calls, depth, types, fallback, k, (n - 1) as nat);
    }
}

/// Once encoding a prefix of a row of elements has failed, that failure is
/// the outcome for every longer prefix: no further element is encoded.
pub proof fn lemma_items_failure<F: Fn(&PyObject) -> Option<PyObject>>(
    items: Seq<PyObject>,
    opts: Opt,
    calls: nat,
    depth: nat,
    types: TypeRefs,
    fallback: Option<&F>,
    k: nat,
    n: nat,
    out: Wire,
)
    requires
        k <= n <= items.len(),
        out is Err,
        is_items_encoding(items, opts, calls, depth, types, fallback, k, out),
    ensures
        is_items_encoding(items, opts, calls, depth, types, fallback, n, out),
    decreases n - k,
{
    if k < n {
        lemma_items_failure(items, opts, calls, depth, types, fallback, k, (n - 1) as nat, out);
        assert(out == then(out, out));
    }
}

/// Encodes the elements of a row one after another, each met at level
/// `recursion`, and joins what they give.
pub fn serialize_items<F: Fn(&PyObject) -> Option<PyObject>>(
    items: &Vec<PyObject>,
    opts: Opt,
    default_calls: u8,
    recursion: u8,
    default: Option<&F>,
    types: &TypeRefs,
) -> (r: Result<Vec<u8>, EncodeError>)
    requires
        fallback_callable(default),
    ensures
        fallback_functional(default) ==> wire_of(r) == items_encoding(
            items@,
            opts,
            default_calls as nat,
            recursion as nat,
            *types,
            default,
            items.len() as nat,
        ),
        is_items_encoding(
            items@,
            opts,
            default_calls as nat,
            recursion as nat,
            *types,
            default,
            items.len() as nat,
            wire_of(r),
        ),
    decreases 255 - default_calls, items, 0nat,
{
    let mut buf: Vec<u8> = Vec::new();
    let len = items.len();
    let mut i: usize = 0;
    while i < len
        invariant
            len == items.len(),
            i <= len,
            fallback_callable(default),
            is_items_encoding(
                items@,
                opts,
                default_calls as nat,
                recursion as nat,
                *types,
                default,
                i as nat,
                Ok::<Seq<u8>, EncodeError>(buf@),
            ),
            fallback_functional(default) ==> items_encoding(
                items@,
                opts,
                default_calls as nat,
                recursion as nat,
                *types,
                default,
                i as nat,
            ) == Ok::<Seq<u8>, EncodeError>(buf@),
        decreases len - i,
    {
        let element = PyObjectSerializer::new(
            &items[i],
            opts,
            default_calls,
            recursion,
            default,
            types,
        );
        let ghost init: Wire = Ok(buf@);
        match element.serialize() {
            Ok(mut bytes) => {
                proof {
                    let last: Wire = Ok(bytes@);
                    assert(then(init, last) == Ok::<Seq<u8>, EncodeError>(buf@ + bytes@));
                }
                buf.append(&mut bytes);
            },
            Err(e) => {
                proof {
                    let last: Wire = Err(e);
                    assert(then(init, last) == last);
                    lemma_items_failure(
                        items@,
                        opts,
                        default_calls as nat,
                        recursion as nat,
                        *types,
                        default,
                        (i + 1) as nat,
                        len as nat,
                        last,
                    );
                    if fallback_functional(default) {
                        lemma_items_error(
                            items@,
                            opts,
                            default_calls as nat,
                            recursion as nat,
                            *types,
                            default,
                            (i + 1) as nat,
                            len as nat,
                        );
                    }
                }
                return Err(e);
            },
        }
        i += 1;
    }
    Ok(buf)
}

/// Encodes a row of elements as a sequence: the header with their number,
/// then the elements, each met at level `recursion`.
pub fn serialize_sequence<F: Fn(&PyObject) -> Option<PyObject>>(
    items: &Vec<PyObject>,
    opts: Opt,
    default_calls: u8,
    recursion: u8,
    default: Option<&F>,
    types: &TypeRefs,
) -> (r: Result<Vec<u8>, EncodeError>)
    requires
        fallback_callable(default),
    ensures
        fallback_functional(default) ==> wire_of(r) == array_of(
            items.len() as nat,
            items_encoding(
                items@,
                opts,
                default_calls as nat,
                recursion as nat,
                *types,
                default,
                items.len() as nat,
            ),
        ),
        is_sequence_encoding(
            items@,
            opts,
            default_calls as nat,
            recursion as nat,
            *types,
            default,
            wire_of(r),
        ),
    decreases 255 - default_calls, items, 1nat,
{
    let len = items.len();
    if len > MAX_WIRE_LEN {
        proof {
            let body: Wire = Ok(Seq::empty());
            assert(array_of(len as nat, body) == Err::<Seq<u8>, EncodeError>(
                EncodeError::LengthOverflow,
            ));
        }
        return Err(EncodeError::LengthOverflow);
    }
    let mut buf: Vec<u8> = Vec::new();
    write_array_len(&mut buf, len as u32);
    let body = serialize_items(items, opts, default_calls, recursion, default, types);
    proof {
        assert(array_of(len as nat, wire_of(body)) == then(
            Ok(array_header(len as nat)),
            wire_of(body),
        ));
    }
    match body {
        Ok(mut body) => {
            buf.append(&mut body);
            Ok(buf)
        },
        Err(e) => Err(e),
    }
}

/// Encodes a list.
///
/// At level 255 it fails with `RecursionLimitReached`; otherwise it gives the
/// sequence of the elements, each met one level deeper. An empty list is
/// written at once, as a sequence of length zero.
pub fn serialize_list<F: Fn(&PyObject) -> Option<PyObject>>(
    obj: &PyObject,
    opts: Opt,
    default_calls: u8,
    recursion: u8,
    default: Option<&F>,
    types: &TypeRefs,
) -> (r: Result<Vec<u8>, EncodeError>)
    requires
        fallback_callable(default),
    ensures
        fallback_functional(default) ==> wire_of(r) == list_encoding(
            *obj,
            opts,
            default_calls as nat,
            recursion as nat,
            *types,
            default,
        ),
        is_list_encoding(
            *obj,
            opts,
            default_calls as nat,
            recursion as nat,
            *types,
            default,
            wire_of(r),
        ),
    decreases 255 - default_calls, obj, 0nat,
{
    if recursion == RECURSION_LIMIT {
        return Err(EncodeError::RecursionLimitReached);
    }
    if obj.items.len() == 0 {
        let mut buf: Vec<u8> = Vec::new();
        write_array_len(&mut buf, 0);
        proof {
            let body: Wire = Ok(Seq::empty());
            assert(buf@ == array_header(0) + Seq::<u8>::empty());
            assert(array_of(0, body) == Ok::<Seq<u8>, EncodeError>(buf@));
        }
        return Ok(buf);
    }
    serialize_sequence(&obj.items, opts, default_calls, recursion + 1, default, types)
}

} // verus!
