//! The encoders of mappings and records.

use crate::error::EncodeError;
use crate::object::{AttrName, Field, PyObject};
use crate::opt::Opt;
use crate::serialize::encoding::{
    encoding, fallback_callable, fallback_functional, fields_encoding, map_of, mapping_encoding,
    pydantic_encoding, text_encoding, then, Wire,
};
use crate::serialize::leaf::{serialize_text, wire_of};
use crate::serialize::outcome::{
    is_fields_encoding, is_map_encoding, is_mapping_encoding, is_pydantic_encoding,
};
use crate::serialize::serializer::{PyObjectSerializer, RECURSION_LIMIT};
use crate::typeref::TypeRefs;
use crate::wire::{map_header, write_map_len, MAX_WIRE_LEN};
use vstd::prelude::*;

verus! {

/// Once a prefix of a row of entries fails, every longer prefix fails alike.
pub proof fn lemma_fields_error<F: Fn(&PyObject) -> Option<PyObject>>(
    fields: Seq<Field>,
    opts: Opt,
    calls: nat,
    depth: nat,
    types: TypeRefs,
    fallback: Option<&F>,
    k: nat,
    n: nat,
)
    requires
        k <= n <= fields.len(),
        fields_encoding(fields, opts, calls, depth, types, fallback, k) is Err,
    ensures
        fields_encoding(fields, opts, calls, depth, types, fallback, n) == fields_encoding(
            fields,
            opts,
            calls,
            depth,
            types,
            fallback,
            k,
        ),
    decreases n - k,
{
    if k < n {
        lemma_fields_error(fields, opts, calls, depth, types, fallback, k, (n - 1) as nat);
    }
}

/// Once encoding a prefix of a row of entries has failed, that failure is
/// the outcome for every longer prefix: no further entry is encoded.
pub proof fn lemma_fields_failure<F: Fn(&PyObject) -> Option<PyObject>>(
    fields: Seq<Field>,
    opts: Opt,
    calls: nat,
    depth: nat,
    types: TypeRefs,
    fallback: Option<&F>,
    k: nat,
    n: nat,
    out: Wire,
)
    requires
        k <= n <= fields.len(),
        out is Err,
        is_fields_encoding(fields, opts, calls, depth, types, fallback, k, out),
    ensures
        is_fields_encoding(fields, opts, calls, depth, types, fallback, n, out),
    decreases n - k,
{
    if k < n {
        lemma_fields_failure(fields, opts, calls, depth, types, fallback, k, (n - 1) as nat, out);
        assert(out == then(out, then(text_encoding(fields[n - 1].name@), out)));
    }
}

/// Encodes a row of entries as a mapping: the header with their number, then
/// each name followed by its value, the value met at level `recursion`.
pub fn serialize_fields<F: Fn(&PyObject) -> Option<PyObject>>(
    fields: &Vec<Field>,
    opts: Opt,
    default_calls: u8,
    recursion: u8,
    default: Option<&F>,
    types: &TypeRefs,
) -> (r: Result<Vec<u8>, EncodeError>)
    requires
        fallback_callable(default),
    ensures
        fallback_functional(default) ==> wire_of(r) == map_of(
            fields.len() as nat,
            fields_encoding(
                fields@,
                opts,
                default_calls as nat,
                recursion as nat,
                *types,
                default,
                fields.len() as nat,
            ),
        ),
        is_map_encoding(
            fields@,
            opts,
            default_calls as nat,
            recursion as nat,
            *types,
            default,
            wire_of(r),
        ),
    decreases 255 - default_calls, fields, 0nat,
{
    let len = fields.len();
    if len > MAX_WIRE_LEN {
        proof {
            let body: Wire = Ok(Seq::empty());
            assert(map_of(len as nat, body) == Err::<Seq<u8>, EncodeError>(
                EncodeError::LengthOverflow,
            ));
        }
        return Err(EncodeError::LengthOverflow);
    }
    let mut buf: Vec<u8> = Vec::new();
    write_map_len(&mut buf, len as u32);
    let ghost mut body: Seq<u8> = Seq::empty();
    let mut i: usize = 0;
    while i < len
        invariant
            len == fields.len(),
            len <= MAX_WIRE_LEN,
            i <= len,
            fallback_callable(default),
            fallback_functional(default) ==> fields_encoding(
                fields@,
                opts,
                default_calls as nat,
                recursion as nat,
                *types,
                default,
                i as nat,
            ) == Ok::<Seq<u8>, EncodeError>(body),
            is_fields_encoding(
                fields@,
                opts,
                default_calls as nat,
                recursion as nat,
                *types,
                default,
                i as nat,
                Ok::<Seq<u8>, EncodeError>(body),
            ),
            buf@ == map_header(len as nat) + body,
        decreases len - i,
    {
        let ghost init: Wire = Ok(body);
        let ghost name = text_encoding(fields[i as int].name@);
        let ghost entry = then(
            text_encoding(fields[i as int].name@),
            encoding(
                fields[i as int].value,
                opts,
                default_calls as nat,
                recursion as nat,
                *types,
                default,
            ),
        );
        let mut key = match serialize_text(fields[i].name.as_str()) {
            Ok(key) => key,
            Err(e) => {
                proof {
                    let failed: Wire = Err(e);
                    assert(then(init, then(name, failed)) == failed);
                    lemma_fields_failure(
                        fields@,
                        opts,
                        default_calls as nat,
                        recursion as nat,
                        *types,
                        default,
                        (i + 1) as nat,
                        len as nat,
                        failed,
                    );
                    assert(map_of(len as nat, failed) == failed);
                    if fallback_functional(default) {
                        assert(entry == Err::<Seq<u8>, EncodeError>(e));
                        lemma_fields_error(
                            fields@,
                            opts,
                            default_calls as nat,
                            recursion as nat,
                            *types,
                            default,
                            (i + 1) as nat,
                            len as nat,
                        );
                    }
                }
                return Err(e);
            },
        };
        let value = PyObjectSerializer::new(
            &fields[i].value,
            opts,
            default_calls,
            recursion,
            default,
            types,
        );
        let mut bytes = match value.serialize() {
            Ok(bytes) => bytes,
            Err(e) => {
                proof {
                    let failed: Wire = Err(e);
                    assert(then(init, then(name, failed)) == failed);
                    lemma_fields_failure(
                        fields@,
                        opts,
                        default_calls as nat,
                        recursion as nat,
                        *types,
                        default,
                        (i + 1) as nat,
                        len as nat,
                        failed,
                    );
                    assert(map_of(len as nat, failed) == failed);
                    if fallback_functional(default) {
                        assert(entry == Err::<Seq<u8>, EncodeError>(e));
                        lemma_fields_error(
                            fields@,
                            opts,
                            default_calls as nat,
                            recursion as nat,
                            *types,
                            default,
                            (i + 1) as nat,
                            len as nat,
                        );
                    }
                }
                return Err(e);
            },
        };
        proof {
            let value: Wire = Ok(bytes@);
            assert(then(init, then(name, value)) == Ok::<Seq<u8>, EncodeError>(
                body + (key@ + bytes@),
            ));
            if fallback_functional(default) {
                assert(entry == Ok::<Seq<u8>, EncodeError>(key@ + bytes@));
            }
            assert(map_header(len as nat) + body + key@ + bytes@ == map_header(len as nat) + (body
                + (key@ + bytes@)));
            body = body + (key@ + bytes@);
        }
        buf.append(&mut key);
        buf.append(&mut bytes);
        i += 1;
    }
    proof {
        let whole: Wire = Ok(body);
        assert(map_of(len as nat, whole) == Ok::<Seq<u8>, EncodeError>(buf@));
    }
    Ok(buf)
}

/// Encodes a mapping or a plain record.
///
/// At level 255 it fails with `RecursionLimitReached`; otherwise it gives the
/// mapping from the names of the entries to their values, each value met one
/// level deeper. An empty mapping is written at once, as a mapping of length
/// zero.
pub fn serialize_mapping<F: Fn(&PyObject) -> Option<PyObject>>(
    obj: &PyObject,
    opts: Opt,
    default_calls: u8,
    recursion: u8,
    default: Option<&F>,
    types: &TypeRefs,
) -> (r: Result<Vec<u8>, EncodeError>)
    requires
        fallback_callable(default),
    ensures
        fallback_functional(default) ==> wire_of(r) == mapping_encoding(
            *obj,
            opts,
            default_calls as nat,
            recursion as nat,
            *types,
            default,
        ),
        is_mapping_encoding(
            *obj,
            opts,
            default_calls as nat,
            recursion as nat,
            *types,
            default,
            wire_of(r),
        ),
    decreases 255 - default_calls, obj, 0nat,
{
    if recursion == RECURSION_LIMIT {
        return Err(EncodeError::RecursionLimitReached);
    }
    if obj.fields.len() == 0 {
        let mut buf: Vec<u8> = Vec::new();
        write_map_len(&mut buf, 0);
        proof {
            let body: Wire = Ok(Seq::empty());
            assert(buf@ == map_header(0) + Seq::<u8>::empty());
            assert(map_of(0, body) == Ok::<Seq<u8>, EncodeError>(buf@));
        }
        return Ok(buf);
    }
    serialize_fields(&obj.fields, opts, default_calls, recursion + 1, default, types)
}

/// Encodes a typed record.
///
/// At level 255 it fails with `RecursionLimitReached`, and without a backing
/// field map with `TypedRecordMissingFieldMap`; otherwise it gives the
/// mapping of that field map, each value met one level deeper.
pub fn serialize_pydantic<F: Fn(&PyObject) -> Option<PyObject>>(
    obj: &PyObject,
    opts: Opt,
    default_calls: u8,
    recursion: u8,
    default: Option<&F>,
    types: &TypeRefs,
) -> (r: Result<Vec<u8>, EncodeError>)
    requires
        fallback_callable(default),
    ensures
        fallback_functional(default) ==> wire_of(r) == pydantic_encoding(
            *obj,
            opts,
            default_calls as nat,
            recursion as nat,
            *types,
            default,
        ),
        is_pydantic_encoding(
            *obj,
            opts,
            default_calls as nat,
            recursion as nat,
            *types,
            default,
            wire_of(r),
        ),
    decreases 255 - default_calls, obj, 0nat,
{
    if recursion == RECURSION_LIMIT {
        return Err(EncodeError::RecursionLimitReached);
    }
    match obj.get_attr(AttrName::Dict) {
        None => Err(EncodeError::TypedRecordMissingFieldMap),
        Some(dict) => serialize_fields(
            &dict.fields,
            opts,
            default_calls,
            recursion + 1,
            default,
            types,
        ),
    }
}

} // verus!
