//! The fallback path, for objects without a wire representation of their own.

use crate::error::EncodeError;
use crate::object::PyObject;
use crate::opt::Opt;
use crate::serialize::encoding::{
    default_encoding, fallback_callable, fallback_functional, substitute, substitute_encoding,
};
use crate::serialize::leaf::wire_of;
use crate::serialize::outcome::{is_default_encoding, is_substitute_encoding};
use crate::serialize::serializer::{PyObjectSerializer, RECURSION_LIMIT};
use crate::typeref::TypeRefs;
use vstd::prelude::*;

verus! {

/// Encodes what the fallback handler returned for an object, after
/// `default_calls` earlier uses of the handler.
///
/// Where the handler returned nothing the object is unsupported; a
/// substitute is encoded in the object's place, at the same level, with this
/// use of the handler counted.
pub fn serialize_substitute<F: Fn(&PyObject) -> Option<PyObject>>(
    replaced: &Option<PyObject>,
    opts: Opt,
    default_calls: u8,
    recursion: u8,
    default: Option<&F>,
    types: &TypeRefs,
) -> (r: Result<Vec<u8>, EncodeError>)
    requires
        default_calls < RECURSION_LIMIT,
        fallback_callable(default),
    ensures
        fallback_functional(default) ==> wire_of(r) == substitute_encoding(
            *replaced,
            opts,
            default_calls as nat,
            recursion as nat,
            *types,
            default,
        ),
        is_substitute_encoding(
            *replaced,
            opts,
            default_calls as nat,
            recursion as nat,
            *types,
            default,
            wire_of(r),
        ),
    decreases 254 - default_calls, replaced, 0nat,
{
    match replaced {
        None => Err(EncodeError::UnsupportedType),
        Some(other) => {
            let again = PyObjectSerializer::new(
                other,
                opts,
                default_calls + 1,
                recursion,
                default,
                types,
            );
            again.serialize()
        },
    }
}

/// Encodes an object by way of the fallback handler.
///
/// Without a handler the object is unsupported. A handler that has already
/// been used 255 times on the way from the root is not used again. Otherwise
/// the handler is called on the object; where it returns nothing the object
/// is unsupported, and where it returns a substitute, that is encoded in the
/// object's place, at the same level.
pub fn serialize_default<F: Fn(&PyObject) -> Option<PyObject>>(
    obj: &PyObject,
    opts: Opt,
    default_calls: u8,
    recursion: u8,
    default: Option<&F>,
    types: &TypeRefs,
) -> (r: Result<Vec<u8>, EncodeError>)
    requires
        fallback_callable(default),
    ensures
        fallback_functional(default) ==> wire_of(r) == default_encoding(
            *obj,
            opts,
            default_calls as nat,
            recursion as nat,
            *types,
            default,
        ),
        is_default_encoding(
            *obj,
            opts,
            default_calls as nat,
            recursion as nat,
            *types,
            default,
            wire_of(r),
        ),
    decreases 255 - default_calls, obj, 0nat,
{
    match default {
        None => Err(EncodeError::UnsupportedType),
        Some(handler) => {
            if default_calls == RECURSION_LIMIT {
                return Err(EncodeError::FallbackLimitReached);
            }
            let replaced = handler(obj);
            proof {
                assert(call_ensures(*handler, (obj,), replaced));
                if fallback_functional(default) {
                    assert(substitute(*handler, *obj) == replaced);
                }
            }
            let r = serialize_substitute(
                &replaced,
                opts,
                default_calls,
                recursion,
                default,
                types,
            );
            proof {
                assert(is_substitute_encoding(
                    replaced,
                    opts,
                    default_calls as nat,
                    recursion as nat,
                    *types,
                    default,
                    wire_of(r),
                ));
            }
            r
        },
    }
}

} // verus!
