//! The encoders of world entities, sets, frozen sets and exceptions.

use crate::error::EncodeError;
use crate::object::{AttrName, PyObject};
use crate::opt::Opt;
use crate::serialize::encoding::{
    array_of, collection_encoding, encoding, entity_payload, exception_encoding, ext_of,
    fallback_callable, fallback_functional, graph_name, graph_named, lise_encoding, then, Wire,
    EXCEPTION_CODE, FROZENSET_CODE, SET_CODE,
};
use crate::serialize::ext::serialize_ext;
use crate::serialize::leaf::wire_of;
use crate::serialize::list::serialize_items;
use crate::serialize::outcome::{
    is_collection_encoding, is_encoding, is_entity_payload, is_exception_encoding,
    is_lise_encoding, is_traceback_encoding,
};
use crate::serialize::serializer::{PyObjectSerializer, RECURSION_LIMIT};
use crate::serialize::tuple::serialize_collection;
use crate::typeref::{LiSEType, TypeRefs};
use crate::wire::{array_header, nil_encoding, write_array_len, write_nil, MAX_WIRE_LEN};
use vstd::prelude::*;

verus! {

/// The encoder of one world entity in its context.
pub struct LiSESerializer<'a, F> {
    pub obj: &'a PyObject,
    pub opts: Opt,
    pub default_calls: u8,
    pub recursion: u8,
    pub default: Option<&'a F>,
    pub types: &'a TypeRefs,
}

/// The encoder of one mutable set in its context.
pub struct SetSerializer<'a, F> {
    pub obj: &'a PyObject,
    pub opts: Opt,
    pub default_calls: u8,
    pub recursion: u8,
    pub default: Option<&'a F>,
    pub types: &'a TypeRefs,
}

/// The encoder of one frozen set in its context.
pub struct FrozenSetSerializer<'a, F> {
    pub obj: &'a PyObject,
    pub opts: Opt,
    pub default_calls: u8,
    pub recursion: u8,
    pub default: Option<&'a F>,
    pub types: &'a TypeRefs,
}

/// The encoder of one exception in its context.
pub struct ExceptionSerializer<'a, F> {
    pub obj: &'a PyObject,
    pub opts: Opt,
    pub default_calls: u8,
    pub recursion: u8,
    pub default: Option<&'a F>,
    pub types: &'a TypeRefs,
}

/// Reads the name of the graph that holds a node or an edge.
pub fn get_graph_name(obj: &PyObject) -> (r: Option<&PyObject>)
    ensures
        match r {
            Some(name) => graph_named(*obj) && *name == graph_name(*obj),
            None => !graph_named(*obj),
        },
{
    match obj.get_attr(AttrName::Graph) {
        Some(graph) => graph.get_attr(AttrName::Name),
        None => None,
    }
}

impl<'a, F: Fn(&PyObject) -> Option<PyObject>> LiSESerializer<'a, F> {
    /// Binds a world entity to the context it is met in.
    pub fn new(
        obj: &'a PyObject,
        opts: Opt,
        default_calls: u8,
        recursion: u8,
        default: Option<&'a F>,
        types: &'a TypeRefs,
    ) -> (s: Self)
        ensures
            s.obj == obj,
            s.opts == opts,
            s.default_calls == default_calls,
            s.recursion == recursion,
            s.default == default,
            s.types == types,
    {
        LiSESerializer { obj, opts, default_calls, recursion, default, types }
    }

    /// Encodes one field of the entity, met at level `depth`.
    fn field(&self, value: &PyObject, depth: u8) -> (r: Result<Vec<u8>, EncodeError>)
        requires
            fallback_callable(self.default),
        ensures
            fallback_functional(self.default) ==> wire_of(r) == encoding(
                *value,
                self.opts,
                self.default_calls as nat,
                depth as nat,
                *self.types,
                self.default,
            ),
            is_encoding(
                *value,
                self.opts,
                self.default_calls as nat,
                depth as nat,
                *self.types,
                self.default,
                wire_of(r),
            ),
        decreases 255 - self.default_calls, value, 4nat,
    {
        PyObjectSerializer::new(
            value,
            self.opts,
            self.default_calls,
            depth,
            self.default,
            self.types,
        ).serialize()
    }

    /// Encodes the fields of a character: its name.
    fn character_fields(&self, depth: u8) -> (r: Result<Vec<u8>, EncodeError>)
        requires
            fallback_callable(self.default),
        ensures
            fallback_functional(self.default) ==> wire_of(r) == entity_payload(
                *self.obj,
                LiSEType::Character,
                self.opts,
                self.default_calls as nat,
                depth as nat,
                *self.types,
                self.default,
            ),
            is_entity_payload(
                *self.obj,
                LiSEType::Character,
                self.opts,
                self.default_calls as nat,
                depth as nat,
                *self.types,
                self.default,
                wire_of(r),
            ),
        decreases 255 - self.default_calls, self.obj, 0nat,
    {
        let name = match self.obj.get_attr(AttrName::Name) {
            Some(name) => name,
            None => {
                return Err(EncodeError::MissingAttribute);
            },
        };
        let mut name = match self.field(name, depth) {
            Ok(bytes) => bytes,
            Err(e) => {
                proof {
                    let failed: Wire = Err(e);
                    assert(array_of(1, failed) == failed);
                }
                return Err(e);
            },
        };
        let mut buf: Vec<u8> = Vec::new();
        write_array_len(&mut buf, 1);
        proof {
            let named: Wire = Ok(name@);
            assert(array_of(1, named) == Ok::<Seq<u8>, EncodeError>(buf@ + name@));
        }
        buf.append(&mut name);
        Ok(buf)
    }

    /// Encodes the fields of a thing or a place: the name of its graph, and
    /// its node.
    fn node_fields(&self, kind: LiSEType, depth: u8) -> (r: Result<Vec<u8>, EncodeError>)
        requires
            kind == LiSEType::Thing || kind == LiSEType::Place,
            fallback_callable(self.default),
        ensures
            fallback_functional(self.default) ==> wire_of(r) == entity_payload(
                *self.obj,
                kind,
                self.opts,
                self.default_calls as nat,
                depth as nat,
                *self.types,
                self.default,
            ),
            is_entity_payload(
                *self.obj,
                kind,
                self.opts,
                self.default_calls as nat,
                depth as nat,
                *self.types,
                self.default,
                wire_of(r),
            ),
        decreases 255 - self.default_calls, self.obj, 0nat,
    {
        let graph = get_graph_name(self.obj);
        let node = self.obj.get_attr(AttrName::Node);
        let (graph, node) = match (graph, node) {
            (Some(graph), Some(node)) => (graph, node),
            _ => {
                return Err(EncodeError::MissingAttribute);
            },
        };
        let mut graph = match self.field(graph, depth) {
            Ok(bytes) => bytes,
            Err(e) => {
                proof {
                    let failed: Wire = Err(e);
                    assert(array_of(2, then(failed, failed)) == failed);
                }
                return Err(e);
            },
        };
        let mut node = match self.field(node, depth) {
            Ok(bytes) => bytes,
            Err(e) => {
                proof {
                    let first: Wire = Ok(graph@);
                    let failed: Wire = Err(e);
                    assert(array_of(2, then(first, failed)) == failed);
                }
                return Err(e);
            },
        };
        let mut buf: Vec<u8> = Vec::new();
        write_array_len(&mut buf, 2);
        proof {
            let first: Wire = Ok(graph@);
            let second: Wire = Ok(node@);
            assert(buf@ + graph@ + node@ == buf@ + (graph@ + node@));
            assert(array_of(2, then(first, second)) == Ok::<Seq<u8>, EncodeError>(
                buf@ + graph@ + node@,
            ));
        }
        buf.append(&mut graph);
        buf.append(&mut node);
        Ok(buf)
    }

    /// Encodes the fields of a portal: the name of its graph, its origin and
    /// its destination.
    fn portal_fields(&self, depth: u8) -> (r: Result<Vec<u8>, EncodeError>)
        requires
            fallback_callable(self.default),
        ensures
            fallback_functional(self.default) ==> wire_of(r) == entity_payload(
                *self.obj,
                LiSEType::Portal,
                self.opts,
                self.default_calls as nat,
                depth as nat,
                *self.types,
                self.default,
            ),
            is_entity_payload(
                *self.obj,
                LiSEType::Portal,
                self.opts,
                self.default_calls as nat,
                depth as nat,
                *self.types,
                self.default,
                wire_of(r),
            ),
        decreases 255 - self.default_calls, self.obj, 0nat,
    {
        let graph = get_graph_name(self.obj);
        let orig = self.obj.get_attr(AttrName::Orig);
        let dest = self.obj.get_attr(AttrName::Dest);
        let (graph, orig, dest) = match (graph, orig, dest) {
            (Some(graph), Some(orig), Some(dest)) => (graph, orig, dest),
            _ => {
                return Err(EncodeError::MissingAttribute);
            },
        };
        let mut graph = match self.field(graph, depth) {
            Ok(bytes) => bytes,
            Err(e) => {
                proof {
                    let failed: Wire = Err(e);
                    assert(array_of(3, then(failed, then(failed, failed))) == failed);
                }
                return Err(e);
            },
        };
        let mut orig = match self.field(orig, depth) {
            Ok(bytes) => bytes,
            Err(e) => {
                proof {
                    let first: Wire = Ok(graph@);
                    let failed: Wire = Err(e);
                    assert(array_of(3, then(first, then(failed, failed))) == failed);
                }
                return Err(e);
            },
        };
        let mut dest = match self.field(dest, depth) {
            Ok(bytes) => bytes,
            Err(e) => {
                proof {
                    let first: Wire = Ok(graph@);
                    let second: Wire = Ok(orig@);
                    let failed: Wire = Err(e);
                    assert(array_of(3, then(first, then(second, failed))) == failed);
                }
                return Err(e);
            },
        };
        let mut buf: Vec<u8> = Vec::new();
        write_array_len(&mut buf, 3);
        proof {
            let first: Wire = Ok(graph@);
            let second: Wire = Ok(orig@);
            let third: Wire = Ok(dest@);
            assert(buf@ + graph@ + orig@ + dest@ == buf@ + (graph@ + (orig@ + dest@)));
            assert(array_of(3, then(first, then(second, third))) == Ok::<Seq<u8>, EncodeError>(
                buf@ + graph@ + orig@ + dest@,
            ));
        }
        buf.append(&mut graph);
        buf.append(&mut orig);
        buf.append(&mut dest);
        Ok(buf)
    }

    /// Encodes the fields of the entity as a sequence, each field met at
    /// level `depth`.
    ///
    /// A graph is represented by its name alone, never by the graph itself.
    /// An entity that lacks a field fails with `MissingAttribute`.
    pub fn payload(&self, kind: LiSEType, depth: u8) -> (r: Result<Vec<u8>, EncodeError>)
        requires
            fallback_callable(self.default),
        ensures
            fallback_functional(self.default) ==> wire_of(r) == entity_payload(
                *self.obj,
                kind,
                self.opts,
                self.default_calls as nat,
                depth as nat,
                *self.types,
                self.default,
            ),
            is_entity_payload(
                *self.obj,
                kind,
                self.opts,
                self.default_calls as nat,
                depth as nat,
                *self.types,
                self.default,
                wire_of(r),
            ),
        decreases 255 - self.default_calls, self.obj, 1nat,
    {
        match kind {
            LiSEType::Character => self.character_fields(depth),
            LiSEType::Thing | LiSEType::Place => self.node_fields(kind, depth),
            LiSEType::Portal => self.portal_fields(depth),
            LiSEType::FinalRule => {
                let mut buf: Vec<u8> = Vec::new();
                write_array_len(&mut buf, 0);
                assert(buf@ == array_header(0) + Seq::<u8>::empty());
                Ok(buf)
            },
        }
    }

    /// Encodes the entity: an extension value, under the code of its kind,
    /// around the sequence of its fields.
    ///
    /// At level 255 it fails with `RecursionLimitReached`, and for a type of
    /// no known kind with `DomainEntityKindUnrecognized`; otherwise the
    /// fields are met one level deeper.
    pub fn serialize(&self) -> (r: Result<Vec<u8>, EncodeError>)
        requires
            fallback_callable(self.default),
        ensures
            fallback_functional(self.default) ==> wire_of(r) == lise_encoding(
                *self.obj,
                self.opts,
                self.default_calls as nat,
                self.recursion as nat,
                *self.types,
                self.default,
            ),
            is_lise_encoding(
                *self.obj,
                self.opts,
                self.default_calls as nat,
                self.recursion as nat,
                *self.types,
                self.default,
                wire_of(r),
            ),
        decreases 255 - self.default_calls, self.obj, 2nat,
    {
        if self.recursion == RECURSION_LIMIT {
            return Err(EncodeError::RecursionLimitReached);
        }
        let kind = match LiSEType::from_ob_type(self.obj.ob_type.id, &self.types.lise_types) {
            Ok(kind) => kind,
            Err(e) => {
                return Err(e);
            },
        };
        let payload = self.payload(kind, self.recursion + 1);
        serialize_ext(kind.ext_code(), payload)
    }
}

impl<'a, F: Fn(&PyObject) -> Option<PyObject>> SetSerializer<'a, F> {
    /// Binds a mutable set to the context it is met in.
    pub fn new(
        obj: &'a PyObject,
        opts: Opt,
        default_calls: u8,
        recursion: u8,
        default: Option<&'a F>,
        types: &'a TypeRefs,
    ) -> (s: Self)
        ensures
            s.obj == obj,
            s.opts == opts,
            s.default_calls == default_calls,
            s.recursion == recursion,
            s.default == default,
            s.types == types,
    {
        SetSerializer { obj, opts, default_calls, recursion, default, types }
    }

    /// Encodes the set: an extension value with code 2 around the sequence
    /// of its elements, in the order in which the set yields them.
    pub fn serialize(&self) -> (r: Result<Vec<u8>, EncodeError>)
        requires
            fallback_callable(self.default),
        ensures
            fallback_functional(self.default) ==> wire_of(r) == collection_encoding(
                *self.obj,
                SET_CODE,
                self.opts,
                self.default_calls as nat,
                self.recursion as nat,
                *self.types,
                self.default,
            ),
            is_collection_encoding(
                *self.obj,
                SET_CODE,
                self.opts,
                self.default_calls as nat,
                self.recursion as nat,
                *self.types,
                self.default,
                wire_of(r),
            ),
        decreases 255 - self.default_calls, self.obj, 1nat,
    {
        serialize_collection(
            self.obj,
            SET_CODE,
            self.opts,
            self.default_calls,
            self.recursion,
            self.default,
            self.types,
        )
    }
}

impl<'a, F: Fn(&PyObject) -> Option<PyObject>> FrozenSetSerializer<'a, F> {
    /// Binds a frozen set to the context it is met in.
    pub fn new(
        obj: &'a PyObject,
        opts: Opt,
        default_calls: u8,
        recursion: u8,
        default: Option<&'a F>,
        types: &'a TypeRefs,
    ) -> (s: Self)
        ensures
            s.obj == obj,
            s.opts == opts,
            s.default_calls == default_calls,
            s.recursion == recursion,
            s.default == default,
            s.types == types,
    {
        FrozenSetSerializer { obj, opts, default_calls, recursion, default, types }
    }

    /// Encodes the frozen set: an extension value with code 1 around the
    /// sequence of its elements, in the order in which the set yields them.
    pub fn serialize(&self) -> (r: Result<Vec<u8>, EncodeError>)
        requires
            fallback_callable(self.default),
        ensures
            fallback_functional(self.default) ==> wire_of(r) == collection_encoding(
                *self.obj,
                FROZENSET_CODE,
                self.opts,
                self.default_calls as nat,
                self.recursion as nat,
                *self.types,
                self.default,
            ),
            is_collection_encoding(
                *self.obj,
                FROZENSET_CODE,
                self.opts,
                self.default_calls as nat,
                self.recursion as nat,
                *self.types,
                self.default,
                wire_of(r),
            ),
        decreases 255 - self.default_calls, self.obj, 1nat,
    {
        serialize_collection(
            self.obj,
            FROZENSET_CODE,
            self.opts,
            self.default_calls,
            self.recursion,
            self.default,
            self.types,
        )
    }
}

impl<'a, F: Fn(&PyObject) -> Option<PyObject>> ExceptionSerializer<'a, F> {
    /// Binds an exception to the context it is met in.
    pub fn new(
        obj: &'a PyObject,
        opts: Opt,
        default_calls: u8,
        recursion: u8,
        default: Option<&'a F>,
        types: &'a TypeRefs,
    ) -> (s: Self)
        ensures
            s.obj == obj,
            s.opts == opts,
            s.default_calls == default_calls,
            s.recursion == recursion,
            s.default == default,
            s.types == types,
    {
        ExceptionSerializer { obj, opts, default_calls, recursion, default, types }
    }

    /// Encodes one element of the exception's sequence, met at level `depth`.
    fn element(&self, value: &PyObject, depth: u8) -> (r: Result<Vec<u8>, EncodeError>)
        requires
            fallback_callable(self.default),
        ensures
            fallback_functional(self.default) ==> wire_of(r) == encoding(
                *value,
                self.opts,
                self.default_calls as nat,
                depth as nat,
                *self.types,
                self.default,
            ),
            is_encoding(
                *value,
                self.opts,
                self.default_calls as nat,
                depth as nat,
                *self.types,
                self.default,
                wire_of(r),
            ),
        decreases 255 - self.default_calls, value, 4nat,
    {
        PyObjectSerializer::new(
            value,
            self.opts,
            self.default_calls,
            depth,
            self.default,
            self.types,
        ).serialize()
    }

    /// Encodes the traceback of the exception, met at level `depth`, or the
    /// nil marker where the exception has none.
    fn traceback(&self, depth: u8) -> (r: Result<Vec<u8>, EncodeError>)
        requires
            fallback_callable(self.default),
        ensures
            fallback_functional(self.default) ==> wire_of(r) == (if self.obj.has_attr(
                AttrName::Traceback,
            ) {
                encoding(
                    self.obj.attr(AttrName::Traceback),
                    self.opts,
                    self.default_calls as nat,
                    depth as nat,
                    *self.types,
                    self.default,
                )
            } else {
                Ok(nil_encoding())
            }),
            is_traceback_encoding(
                *self.obj,
                self.opts,
                self.default_calls as nat,
                depth as nat,
                *self.types,
                self.default,
                wire_of(r),
            ),
        decreases 255 - self.default_calls, self.obj, 0nat,
    {
        match self.obj.get_attr(AttrName::Traceback) {
            Some(traceback) => self.element(traceback, depth),
            None => {
                let mut nil: Vec<u8> = Vec::new();
                write_nil(&mut nil);
                Ok(nil)
            },
        }
    }

    /// Encodes the exception: an extension value with code 3 around the
    /// sequence of the name of its class, its traceback, and its arguments
    /// in their order. An exception without a traceback has the nil marker
    /// in its place.
    ///
    /// At level 255 it fails with `RecursionLimitReached`, and where the
    /// arguments, the class or its name cannot be read with
    /// `MissingAttribute`; otherwise the elements are met one level deeper.
    pub fn serialize(&self) -> (r: Result<Vec<u8>, EncodeError>)
        requires
            fallback_callable(self.default),
        ensures
            fallback_functional(self.default) ==> wire_of(r) == exception_encoding(
                *self.obj,
                self.opts,
                self.default_calls as nat,
                self.recursion as nat,
                *self.types,
                self.default,
            ),
            is_exception_encoding(
                *self.obj,
                self.opts,
                self.default_calls as nat,
                self.recursion as nat,
                *self.types,
                self.default,
                wire_of(r),
            ),
        decreases 255 - self.default_calls, self.obj, 1nat,
    {
        if self.recursion == RECURSION_LIMIT {
            return Err(EncodeError::RecursionLimitReached);
        }
        let depth: u8 = self.recursion + 1;
        let args = self.obj.get_attr(AttrName::Args);
        let class_name = match self.obj.get_attr(AttrName::Class) {
            Some(class) => class.get_attr(AttrName::ClassName),
            None => None,
        };
        let (args, class_name) = match (args, class_name) {
            (Some(args), Some(class_name)) => (args, class_name),
            _ => {
                return Err(EncodeError::MissingAttribute);
            },
        };
        let len = args.items.len();
        let ghost count = len as nat + 2;
        if len > MAX_WIRE_LEN - 2 {
            proof {
                let none: Wire = Ok(Seq::empty());
                assert(ext_of(EXCEPTION_CODE, array_of(count, then(none, then(none, none))))
                    == Err::<Seq<u8>, EncodeError>(EncodeError::LengthOverflow));
            }
            return Err(EncodeError::LengthOverflow);
        }
        let mut class_name = match self.element(class_name, depth) {
            Ok(bytes) => bytes,
            Err(e) => {
                proof {
                    let failed: Wire = Err(e);
                    assert(ext_of(
                        EXCEPTION_CODE,
                        array_of(count, then(failed, then(failed, failed))),
                    ) == failed);
                }
                return Err(e);
            },
        };
        let ghost first: Wire = Ok(class_name@);
        let mut traceback = match self.traceback(depth) {
            Ok(bytes) => bytes,
            Err(e) => {
                proof {
                    let failed: Wire = Err(e);
                    assert(ext_of(
                        EXCEPTION_CODE,
                        array_of(count, then(first, then(failed, failed))),
                    ) == failed);
                }
                return Err(e);
            },
        };
        let ghost second: Wire = Ok(traceback@);
        let mut rest = match serialize_items(
            &args.items,
            self.opts,
            self.default_calls,
            depth,
            self.default,
            self.types,
        ) {
            Ok(bytes) => bytes,
            Err(e) => {
                proof {
                    let failed: Wire = Err(e);
                    assert(ext_of(
                        EXCEPTION_CODE,
                        array_of(count, then(first, then(second, failed))),
                    ) == failed);
                }
                return Err(e);
            },
        };
        let ghost third: Wire = Ok(rest@);
        let mut buf: Vec<u8> = Vec::new();
        write_array_len(&mut buf, (len + 2) as u32);
        proof {
            assert(buf@ + class_name@ + traceback@ + rest@ == buf@ + (class_name@ + (traceback@
                + rest@)));
            assert(array_of(count, then(first, then(second, third))) == Ok::<
                Seq<u8>,
                EncodeError,
            >(buf@ + class_name@ + traceback@ + rest@));
        }
        buf.append(&mut class_name);
        buf.append(&mut traceback);
        buf.append(&mut rest);
        serialize_ext(EXCEPTION_CODE, Ok(buf))
    }
}

} // verus!
