//! The classification of objects and the dispatch on it.

use crate::error::EncodeError;
use crate::object::{AttrName, Leaf, LeafFailure, PyObject};
use crate::opt::{
    flag_set, has_flag, Opt, PASSTHROUGH_BIG_INT, PASSTHROUGH_DATACLASS, PASSTHROUGH_DATETIME,
    PASSTHROUGH_SUBCLASS, PASSTHROUGH_TUPLE, SERIALIZE_NUMPY, SERIALIZE_PYDANTIC,
};
use crate::serialize::default::serialize_default;
use crate::serialize::dict::{serialize_mapping, serialize_pydantic};
use crate::serialize::encoding::{encoding, fallback_callable, fallback_functional};
use crate::serialize::leaf::{serialize_leaf, wire_of};
use crate::serialize::lise::{
    ExceptionSerializer, FrozenSetSerializer, LiSESerializer, SetSerializer,
};
use crate::serialize::list::serialize_list;
use crate::serialize::outcome::is_encoding;
use crate::serialize::tuple::TupleSerializer;
use crate::typeref::{is_numpy_array, is_numpy_scalar, LiSEType, TypeRefs};
use vstd::prelude::*;

verus! {

/// The deepest level at which a container may still be entered.
pub const RECURSION_LIMIT: u8 = 255;

/// The wire representation that applies to an object.
#[derive(Copy, Clone, Debug, PartialEq, Eq, Structural)]
pub enum ObType {
    Str,
    Bytes,
    Int,
    Bool,
    /// The null value.
    Null,
    Float,
    List,
    Dict,
    Datetime,
    Date,
    Time,
    Tuple,
    Uuid,
    Dataclass,
    NumpyScalar,
    NumpyArray,
    Pydantic,
    Enum,
    StrSubclass,
    Ext,
    Unknown,
    LiSE,
    /// A mutable set.
    MutableSet,
    FrozenSet,
    Exception,
}

/// Whether an integer object is encoded as an integer: always, unless big
/// integers are passed through and its magnitude does not fit.
pub open spec fn int_encodable(obj: PyObject, opts: Opt) -> bool {
    !flag_set(opts, PASSTHROUGH_BIG_INT) || obj.leaf.magnitude_fits()
}

/// The classification of an object.
///
/// The common cases are tried first, in this order: string, bytes, integer,
/// boolean, null, float, list, mapping, date-time, set, frozen set,
/// exception. They go by the exact type, the last three by what the object is
/// an instance of. What none of them takes is classified by
/// [`spec_obtype_unlikely`].
pub open spec fn spec_obtype(obj: PyObject, opts: Opt, types: TypeRefs) -> ObType {
    let ob_type = obj.ob_type;
    if ob_type.id == types.str_type {
        ObType::Str
    } else if ob_type.id == types.bytes_type {
        ObType::Bytes
    } else if ob_type.id == types.int_type && int_encodable(obj, opts) {
        ObType::Int
    } else if ob_type.id == types.bool_type {
        ObType::Bool
    } else if ob_type.id == types.none_type {
        ObType::Null
    } else if ob_type.id == types.float_type {
        ObType::Float
    } else if ob_type.id == types.list_type {
        ObType::List
    } else if ob_type.id == types.dict_type {
        ObType::Dict
    } else if ob_type.id == types.datetime_type && !flag_set(opts, PASSTHROUGH_DATETIME) {
        ObType::Datetime
    } else if ob_type.set_instance {
        ObType::MutableSet
    } else if ob_type.frozenset_instance {
        ObType::FrozenSet
    } else if ob_type.exception_instance {
        ObType::Exception
    } else {
        spec_obtype_unlikely(obj, opts, types)
    }
}

/// The classification of an object that is none of the common cases.
///
/// Tried in this order: world entity, date, time, tuple, identifier,
/// enumeration member, subclass of string, of integer, of list and of
/// mapping, plain record, numeric scalar, numeric array, typed record,
/// extension value. An object that is none of these is unknown.
pub open spec fn spec_obtype_unlikely(obj: PyObject, opts: Opt, types: TypeRefs) -> ObType {
    let ob_type = obj.ob_type;
    let subclasses = !flag_set(opts, PASSTHROUGH_SUBCLASS);
    if LiSEType::kind_of(ob_type.id, types.lise_types) is Some {
        ObType::LiSE
    } else if ob_type.id == types.date_type && !flag_set(opts, PASSTHROUGH_DATETIME) {
        ObType::Date
    } else if ob_type.id == types.time_type && !flag_set(opts, PASSTHROUGH_DATETIME) {
        ObType::Time
    } else if ob_type.id == types.tuple_type && !flag_set(opts, PASSTHROUGH_TUPLE) {
        ObType::Tuple
    } else if ob_type.id == types.uuid_type {
        ObType::Uuid
    } else if ob_type.meta == types.enum_type {
        ObType::Enum
    } else if subclasses && ob_type.unicode_subclass {
        ObType::StrSubclass
    } else if subclasses && ob_type.long_subclass && int_encodable(obj, opts) {
        ObType::Int
    } else if subclasses && ob_type.list_subclass {
        ObType::List
    } else if subclasses && ob_type.dict_subclass {
        ObType::Dict
    } else if !flag_set(opts, PASSTHROUGH_DATACLASS) && ob_type.dataclass_fields {
        ObType::Dataclass
    } else if flag_set(opts, SERIALIZE_NUMPY) && types.numpy_scalar(ob_type.id) {
        ObType::NumpyScalar
    } else if flag_set(opts, SERIALIZE_NUMPY) && types.numpy_array(ob_type.id) {
        ObType::NumpyArray
    } else if flag_set(opts, SERIALIZE_PYDANTIC) && ob_type.pydantic_fields {
        ObType::Pydantic
    } else if ob_type.id == types.ext_type {
        ObType::Ext
    } else {
        ObType::Unknown
    }
}

/// Classifies an object.
pub fn pyobject_to_obtype(obj: &PyObject, opts: Opt, types: &TypeRefs) -> (r: ObType)
    ensures
        r == spec_obtype(*obj, opts, *types),
{
    let ob_type = &obj.ob_type;
    if ob_type.id == types.str_type {
        ObType::Str
    } else if ob_type.id == types.bytes_type {
        ObType::Bytes
    } else if ob_type.id == types.int_type && (!has_flag(opts, PASSTHROUGH_BIG_INT)
        || obj.leaf.fits_wire_int()) {
        ObType::Int
    } else if ob_type.id == types.bool_type {
        ObType::Bool
    } else if ob_type.id == types.none_type {
        ObType::Null
    } else if ob_type.id == types.float_type {
        ObType::Float
    } else if ob_type.id == types.list_type {
        ObType::List
    } else if ob_type.id == types.dict_type {
        ObType::Dict
    } else if ob_type.id == types.datetime_type && !has_flag(opts, PASSTHROUGH_DATETIME) {
        ObType::Datetime
    } else if ob_type.set_instance {
        ObType::MutableSet
    } else if ob_type.frozenset_instance {
        ObType::FrozenSet
    } else if ob_type.exception_instance {
        ObType::Exception
    } else {
        pyobject_to_obtype_unlikely(obj, opts, types)
    }
}

/// Classifies an object that is none of the common cases.
pub fn pyobject_to_obtype_unlikely(obj: &PyObject, opts: Opt, types: &TypeRefs) -> (r: ObType)
    ensures
        r == spec_obtype_unlikely(*obj, opts, *types),
{
    let ob_type = &obj.ob_type;
    let lise_type = LiSEType::from_ob_type(ob_type.id, &types.lise_types);
    if lise_type.is_ok() {
        ObType::LiSE
    } else if ob_type.id == types.date_type && !has_flag(opts, PASSTHROUGH_DATETIME) {
        ObType::Date
    } else if ob_type.id == types.time_type && !has_flag(opts, PASSTHROUGH_DATETIME) {
        ObType::Time
    } else if ob_type.id == types.tuple_type && !has_flag(opts, PASSTHROUGH_TUPLE) {
        ObType::Tuple
    } else if ob_type.id == types.uuid_type {
        ObType::Uuid
    } else if ob_type.meta == types.enum_type {
        ObType::Enum
    } else if !has_flag(opts, PASSTHROUGH_SUBCLASS) && ob_type.unicode_subclass {
        ObType::StrSubclass
    } else if !has_flag(opts, PASSTHROUGH_SUBCLASS) && ob_type.long_subclass && (!has_flag(
        opts,
        PASSTHROUGH_BIG_INT,
    ) || obj.leaf.fits_wire_int()) {
        ObType::Int
    } else if !has_flag(opts, PASSTHROUGH_SUBCLASS) && ob_type.list_subclass {
        ObType::List
    } else if !has_flag(opts, PASSTHROUGH_SUBCLASS) && ob_type.dict_subclass {
        ObType::Dict
    } else if !has_flag(opts, PASSTHROUGH_DATACLASS) && ob_type.dataclass_fields {
        ObType::Dataclass
    } else if has_flag(opts, SERIALIZE_NUMPY) && is_numpy_scalar(ob_type.id, types) {
        ObType::NumpyScalar
    } else if has_flag(opts, SERIALIZE_NUMPY) && is_numpy_array(ob_type.id, types) {
        ObType::NumpyArray
    } else if has_flag(opts, SERIALIZE_PYDANTIC) && ob_type.pydantic_fields {
        ObType::Pydantic
    } else if ob_type.id == types.ext_type {
        ObType::Ext
    } else {
        ObType::Unknown
    }
}

/// A passthrough flag takes its category out of automatic encoding: with the
/// flag set, no object is classified into that category.
pub proof fn lemma_passthrough_excludes(obj: PyObject, opts: Opt, types: TypeRefs)
    ensures
        flag_set(opts, PASSTHROUGH_DATETIME) ==> {
            let t = spec_obtype(obj, opts, types);
            t != ObType::Datetime && t != ObType::Date && t != ObType::Time
        },
        flag_set(opts, PASSTHROUGH_TUPLE) ==> spec_obtype(obj, opts, types) != ObType::Tuple,
        flag_set(opts, PASSTHROUGH_DATACLASS) ==> spec_obtype(obj, opts, types)
            != ObType::Dataclass,
        flag_set(opts, PASSTHROUGH_SUBCLASS) ==> spec_obtype(obj, opts, types)
            != ObType::StrSubclass,
        flag_set(opts, PASSTHROUGH_BIG_INT) && !obj.leaf.magnitude_fits() ==> spec_obtype(
            obj,
            opts,
            types,
        ) != ObType::Int,
{
}

/// Numeric values and typed records are opt-in: an object is classified as
/// one only when the flag for it is set.
pub proof fn lemma_opt_in(obj: PyObject, opts: Opt, types: TypeRefs)
    ensures
        spec_obtype(obj, opts, types) == ObType::NumpyScalar ==> flag_set(opts, SERIALIZE_NUMPY),
        spec_obtype(obj, opts, types) == ObType::NumpyArray ==> flag_set(opts, SERIALIZE_NUMPY),
        spec_obtype(obj, opts, types) == ObType::Pydantic ==> flag_set(opts, SERIALIZE_PYDANTIC),
{
}

/// An object is classified as a world entity only if its type has an entity
/// kind, and whenever it has one and none of the common cases takes the
/// object.
pub proof fn lemma_entity_has_kind(obj: PyObject, opts: Opt, types: TypeRefs)
    ensures
        spec_obtype(obj, opts, types) == ObType::LiSE ==> LiSEType::kind_of(
            obj.ob_type.id,
            types.lise_types,
        ) is Some,
        LiSEType::kind_of(obj.ob_type.id, types.lise_types) is Some ==> spec_obtype_unlikely(
            obj,
            opts,
            types,
        ) == ObType::LiSE,
{
}

/// Encodes an object graph from its root.
///
/// The root is met at level 0 with the fallback handler unused. The result
/// is the encoding of the root, or the first error met on the way through
/// the graph; nothing of a failed encoding is handed out.
pub fn serialize<F: Fn(&PyObject) -> Option<PyObject>>(
    obj: &PyObject,
    default: Option<&F>,
    opts: Opt,
    types: &TypeRefs,
) -> (r: Result<Vec<u8>, EncodeError>)
    requires
        fallback_callable(default),
    ensures
        fallback_functional(default) ==> wire_of(r) == encoding(*obj, opts, 0, 0, *types, default),
        is_encoding(*obj, opts, 0, 0, *types, default, wire_of(r)),
{
    let root = PyObjectSerializer::new(obj, opts, 0, 0, default, types);
    root.serialize()
}

/// The encoder of one object in its context: the options, the number of
/// uses of the fallback handler on the way from the root, the nesting level,
/// the handler and the type registry.
pub struct PyObjectSerializer<'a, F> {
    pub obj: &'a PyObject,
    pub opts: Opt,
    pub default_calls: u8,
    pub recursion: u8,
    pub default: Option<&'a F>,
    pub types: &'a TypeRefs,
}

impl<'a, F: Fn(&PyObject) -> Option<PyObject>> PyObjectSerializer<'a, F> {
    /// Binds an object to the context it is met in.
    pub fn new(
        obj: &'a PyObject,
        opts: Opt,
        default_calls: u8,
        recursion: u8,
        default: Option<&'a F>,
        types: &'a TypeRefs,
    ) -> (s: Self)
        ensures
            s.obj == obj,
            s.opts == opts,
            s.default_calls == default_calls,
            s.recursion == recursion,
            s.default == default,
            s.types == types,
    {
        PyObjectSerializer { obj, opts, default_calls, recursion, default, types }
    }

    /// Encodes the object: classifies it, and hands it to the encoder of its
    /// classification.
    pub fn serialize(&self) -> (r: Result<Vec<u8>, EncodeError>)
        requires
            fallback_callable(self.default),
        ensures
            fallback_functional(self.default) ==> wire_of(r) == encoding(
                *self.obj,
                self.opts,
                self.default_calls as nat,
                self.recursion as nat,
                *self.types,
                self.default,
            ),
            is_encoding(
                *self.obj,
                self.opts,
                self.default_calls as nat,
                self.recursion as nat,
                *self.types,
                self.default,
                wire_of(r),
            ),
        decreases 255 - self.default_calls, self.obj, 3nat,
    {
        match pyobject_to_obtype(self.obj, self.opts, self.types) {
            ObType::Str
            | ObType::Bytes
            | ObType::StrSubclass
            | ObType::Int
            | ObType::Null
            | ObType::Float
            | ObType::Bool
            | ObType::Datetime
            | ObType::Date
            | ObType::Time
            | ObType::Uuid
            | ObType::NumpyScalar
            | ObType::Ext => serialize_leaf(&self.obj.leaf),
            ObType::Dict | ObType::Dataclass => serialize_mapping(
                self.obj,
                self.opts,
                self.default_calls,
                self.recursion,
                self.default,
                self.types,
            ),
            ObType::List => serialize_list(
                self.obj,
                self.opts,
                self.default_calls,
                self.recursion,
                self.default,
                self.types,
            ),
            ObType::Tuple => TupleSerializer::new(
                self.obj,
                self.opts,
                self.default_calls,
                self.recursion,
                self.default,
                self.types,
            ).serialize(),
            ObType::MutableSet => SetSerializer::new(
                self.obj,
                self.opts,
                self.default_calls,
                self.recursion,
                self.default,
                self.types,
            ).serialize(),
            ObType::FrozenSet => FrozenSetSerializer::new(
                self.obj,
                self.opts,
                self.default_calls,
                self.recursion,
                self.default,
                self.types,
            ).serialize(),
            ObType::Exception => ExceptionSerializer::new(
                self.obj,
                self.opts,
                self.default_calls,
                self.recursion,
                self.default,
                self.types,
            ).serialize(),
            ObType::Pydantic => serialize_pydantic(
                self.obj,
                self.opts,
                self.default_calls,
                self.recursion,
                self.default,
                self.types,
            ),
            ObType::LiSE => LiSESerializer::new(
                self.obj,
                self.opts,
                self.default_calls,
                self.recursion,
                self.default,
                self.types,
            ).serialize(),
            ObType::Enum => match self.obj.get_attr(AttrName::Value) {
                None => Err(EncodeError::MissingAttribute),
                Some(value) => PyObjectSerializer::new(
                    value,
                    self.opts,
                    self.default_calls,
                    self.recursion,
                    self.default,
                    self.types,
                ).serialize(),
            },
            ObType::NumpyArray => match &self.obj.leaf {
                Leaf::Failed(LeafFailure::NumericArrayNotContiguous) | Leaf::Failed(
                    LeafFailure::NumericArrayUnsupportedDataType,
                ) => {
                    if self.default.is_none() {
                        serialize_leaf(&self.obj.leaf)
                    } else {
                        serialize_default(
                            self.obj,
                            self.opts,
                            self.default_calls,
                            self.recursion,
                            self.default,
                            self.types,
                        )
                    }
                },
                _ => serialize_leaf(&self.obj.leaf),
            },
            ObType::Unknown => serialize_default(
                self.obj,
                self.opts,
                self.default_calls,
                self.recursion,
                self.default,
                self.types,
            ),
        }
    }
}

} // verus!
