//! The encoder of tuples, and of collections that travel as extension
//! values in general.

use crate::error::EncodeError;
use crate::object::PyObject;
use crate::opt::Opt;
use crate::serialize::encoding::{
    collection_encoding, fallback_callable, fallback_functional, TUPLE_CODE,
};
use crate::serialize::ext::serialize_ext;
use crate::serialize::leaf::wire_of;
use crate::serialize::list::serialize_sequence;
use crate::serialize::outcome::is_collection_encoding;
use crate::serialize::serializer::RECURSION_LIMIT;
use crate::typeref::TypeRefs;
use vstd::prelude::*;

verus! {

/// Encodes a collection as an extension value, under the given code, around
/// the sequence of its elements.
///
/// At level 255 it fails with `RecursionLimitReached`; otherwise the elements
/// are met one level deeper, in the order in which the collection yields
/// them.
pub fn serialize_collection<F: Fn(&PyObject) -> Option<PyObject>>(
    obj: &PyObject,
    code: i8,
    opts: Opt,
    default_calls: u8,
    recursion: u8,
    default: Option<&F>,
    types: &TypeRefs,
) -> (r: Result<Vec<u8>, EncodeError>)
    requires
        code >= 0,
        fallback_callable(default),
    ensures
        fallback_functional(default) ==> wire_of(r) == collection_encoding(
            *obj,
            code,
            opts,
            default_calls as nat,
            recursion as nat,
            *types,
            default,
        ),
        is_collection_encoding(
            *obj,
            code,
            opts,
            default_calls as nat,
            recursion as nat,
            *types,
            default,
            wire_of(r),
        ),
    decreases 255 - default_calls, obj, 0nat,
{
    if recursion == RECURSION_LIMIT {
        return Err(EncodeError::RecursionLimitReached);
    }
    let payload = serialize_sequence(
        &obj.items,
        opts,
        default_calls,
        recursion + 1,
        default,
        types,
    );
    serialize_ext(code, payload)
}

/// The encoder of one tuple in its context.
pub struct TupleSerializer<'a, F> {
    pub obj: &'a PyObject,
    pub opts: Opt,
    pub default_calls: u8,
    pub recursion: u8,
    pub default: Option<&'a F>,
    pub types: &'a TypeRefs,
}

impl<'a, F: Fn(&PyObject) -> Option<PyObject>> TupleSerializer<'a, F> {
    /// Binds a tuple to the context it is met in.
    pub fn new(
        obj: &'a PyObject,
        opts: Opt,
        default_calls: u8,
        recursion: u8,
        default: Option<&'a F>,
        types: &'a TypeRefs,
    ) -> (s: Self)
        ensures
            s.obj == obj,
            s.opts == opts,
            s.default_calls == default_calls,
            s.recursion == recursion,
            s.default == default,
            s.types == types,
    {
        TupleSerializer { obj, opts, default_calls, recursion, default, types }
    }

    /// Encodes the tuple: an extension value with code 0 around the sequence
    /// of its elements, which keeps a tuple apart from a list.
    pub fn serialize(&self) -> (r: Result<Vec<u8>, EncodeError>)
        requires
            fallback_callable(self.default),
        ensures
            fallback_functional(self.default) ==> wire_of(r) == collection_encoding(
                *self.obj,
                TUPLE_CODE,
                self.opts,
                self.default_calls as nat,
                self.recursion as nat,
                *self.types,
                self.default,
            ),
            is_collection_encoding(
                *self.obj,
                TUPLE_CODE,
                self.opts,
                self.default_calls as nat,
                self.recursion as nat,
                *self.types,
                self.default,
                wire_of(r),
            ),
        decreases 255 - self.default_calls, self.obj, 1nat,
    {
        serialize_collection(
            self.obj,
            TUPLE_CODE,
            self.opts,
            self.default_calls,
            self.recursion,
            self.default,
            self.types,
        )
    }
}

} // verus!
