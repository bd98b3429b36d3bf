//! The registry of recognised type handles.
//!
//! A type handle is the identity of a host type, an address-sized number. The
//! registry is filled once by the host bridge and only read here; two types
//! are the same exactly when their handles are equal.

use crate::error::EncodeError;
use vstd::prelude::*;

verus! {

/// The identity of a host type.
pub type TypeHandle = usize;

/// Handles of the numeric array type and of the numeric scalar types.
#[derive(Clone, Copy, Debug)]
pub struct NumpyTypes {
    pub array: TypeHandle,
    pub float64: TypeHandle,
    pub float32: TypeHandle,
    pub int64: TypeHandle,
    pub int32: TypeHandle,
    pub int16: TypeHandle,
    pub int8: TypeHandle,
    pub uint64: TypeHandle,
    pub uint32: TypeHandle,
    pub uint16: TypeHandle,
    pub uint8: TypeHandle,
    pub bool_: TypeHandle,
}

impl NumpyTypes {
    /// Whether `ob_type` is one of the numeric scalar types.
    pub open spec fn holds_scalar(self, ob_type: TypeHandle) -> bool {
        ob_type == self.float64 || ob_type == self.float32 || ob_type == self.int64 || ob_type
            == self.int32 || ob_type == self.int16 || ob_type == self.int8 || ob_type
            == self.uint64 || ob_type == self.uint32 || ob_type == self.uint16 || ob_type
            == self.uint8 || ob_type == self.bool_
    }

    /// Whether `ob_type` is the numeric array type.
    pub open spec fn holds_array(self, ob_type: TypeHandle) -> bool {
        ob_type == self.array
    }
}

/// Handles of the world-entity types. Every kind but the final rule has a live
/// and a proxy realisation.
#[derive(Clone, Copy, Debug)]
pub struct LiSETypes {
    pub character: TypeHandle,
    pub character_proxy: TypeHandle,
    pub thing: TypeHandle,
    pub thing_proxy: TypeHandle,
    pub place: TypeHandle,
    pub place_proxy: TypeHandle,
    pub portal: TypeHandle,
    pub portal_proxy: TypeHandle,
    pub final_rule: TypeHandle,
}

/// The kind of a world entity.
#[derive(Clone, Copy, Debug, PartialEq, Eq, Structural)]
pub enum LiSEType {
    Character,
    Thing,
    Place,
    Portal,
    FinalRule,
}

impl LiSETypes {
    /// Whether `ob_type` realises `kind`, live or proxy.
    pub open spec fn realises(self, ob_type: TypeHandle, kind: LiSEType) -> bool {
        match kind {
            LiSEType::Character => ob_type == self.character || ob_type == self.character_proxy,
            LiSEType::Thing => ob_type == self.thing || ob_type == self.thing_proxy,
            LiSEType::Place => ob_type == self.place || ob_type == self.place_proxy,
            LiSEType::Portal => ob_type == self.portal || ob_type == self.portal_proxy,
            LiSEType::FinalRule => ob_type == self.final_rule,
        }
    }

    /// No handle realises two kinds.
    pub open spec fn kinds_disjoint(self) -> bool {
        forall|h: TypeHandle, a: LiSEType, b: LiSEType|
            self.realises(h, a) && self.realises(h, b) ==> a == b
    }
}

impl LiSEType {
    /// The kind that `ob_type` realises: the first in the order character,
    /// thing, place, portal, final rule.
    pub open spec fn kind_of(ob_type: TypeHandle, types: LiSETypes) -> Option<LiSEType> {
        if types.realises(ob_type, LiSEType::Character) {
            Some(LiSEType::Character)
        } else if types.realises(ob_type, LiSEType::Thing) {
            Some(LiSEType::Thing)
        } else if types.realises(ob_type, LiSEType::Place) {
            Some(LiSEType::Place)
        } else if types.realises(ob_type, LiSEType::Portal) {
            Some(LiSEType::Portal)
        } else if types.realises(ob_type, LiSEType::FinalRule) {
            Some(LiSEType::FinalRule)
        } else {
            None
        }
    }

    /// Looks up the entity kind of a type handle.
    pub fn from_ob_type(ob_type: TypeHandle, types: &LiSETypes) -> (r: Result<
        LiSEType,
        EncodeError,
    >)
        ensures
            r == match LiSEType::kind_of(ob_type, *types) {
                Some(kind) => Ok::<LiSEType, EncodeError>(kind),
                None => Err(EncodeError::DomainEntityKindUnrecognized),
            },
    {
        if ob_type == types.character || ob_type == types.character_proxy {
            return Ok(LiSEType::Character);
        } else if ob_type == types.thing || ob_type == types.thing_proxy {
            return Ok(LiSEType::Thing);
        } else if ob_type == types.place || ob_type == types.place_proxy {
            return Ok(LiSEType::Place);
        } else if ob_type == types.portal || ob_type == types.portal_proxy {
            return Ok(LiSEType::Portal);
        } else if ob_type == types.final_rule {
            return Ok(LiSEType::FinalRule);
        }
        Err(EncodeError::DomainEntityKindUnrecognized)
    }

    /// The extension code under which an entity of this kind travels.
    pub open spec fn spec_ext_code(self) -> i8 {
        match self {
            LiSEType::Character => 0x7f,
            LiSEType::Thing => 0x7d,
            LiSEType::Place => 0x7e,
            LiSEType::Portal => 0x7c,
            LiSEType::FinalRule => 0x7b,
        }
    }

    /// The extension code under which an entity of this kind travels.
    #[verifier::when_used_as_spec(spec_ext_code)]
    pub fn ext_code(self) -> (code: i8)
        ensures
            code == self.spec_ext_code(),
    {
        match self {
            LiSEType::Character => 0x7f,
            LiSEType::Thing => 0x7d,
            LiSEType::Place => 0x7e,
            LiSEType::Portal => 0x7c,
            LiSEType::FinalRule => 0x7b,
        }
    }
}

/// In a registry whose kinds are disjoint, a handle has a kind exactly when it
/// realises that kind: the live and the proxy type of a kind are recognised
/// alike, and nothing else is.
pub proof fn lemma_kind_of_realised(ob_type: TypeHandle, types: LiSETypes, kind: LiSEType)
    requires
        types.kinds_disjoint(),
    ensures
        LiSEType::kind_of(ob_type, types) == Some(kind) <==> types.realises(ob_type, kind),
{
    if types.realises(ob_type, kind) {
        match LiSEType::kind_of(ob_type, types) {
            Some(found) => {
                assert(types.realises(ob_type, found));
            },
            None => {},
        }
    }
}

/// Two kinds never share an extension code.
pub proof fn lemma_ext_code_injective(a: LiSEType, b: LiSEType)
    requires
        a.spec_ext_code() == b.spec_ext_code(),
    ensures
        a == b,
{
}

/// Every handle that classification compares an object's type with.
#[derive(Clone, Copy, Debug)]
pub struct TypeRefs {
    pub str_type: TypeHandle,
    pub bytes_type: TypeHandle,
    pub int_type: TypeHandle,
    pub bool_type: TypeHandle,
    pub none_type: TypeHandle,
    pub float_type: TypeHandle,
    pub list_type: TypeHandle,
    pub dict_type: TypeHandle,
    pub datetime_type: TypeHandle,
    pub date_type: TypeHandle,
    pub time_type: TypeHandle,
    pub tuple_type: TypeHandle,
    pub uuid_type: TypeHandle,
    /// The type of enumeration classes themselves.
    pub enum_type: TypeHandle,
    pub ext_type: TypeHandle,
    /// Absent when the numeric library is not installed.
    pub numpy_types: Option<NumpyTypes>,
    pub lise_types: LiSETypes,
}

impl TypeRefs {
    /// Whether `ob_type` is a numeric scalar type of an installed numeric
    /// library.
    pub open spec fn numpy_scalar(self, ob_type: TypeHandle) -> bool {
        match self.numpy_types {
            Some(numpy) => numpy.holds_scalar(ob_type),
            None => false,
        }
    }

    /// Whether `ob_type` is the numeric array type of an installed numeric
    /// library.
    pub open spec fn numpy_array(self, ob_type: TypeHandle) -> bool {
        match self.numpy_types {
            Some(numpy) => numpy.holds_array(ob_type),
            None => false,
        }
    }
}

/// Tests a type handle against the numeric scalar types.
pub fn is_numpy_scalar(ob_type: TypeHandle, types: &TypeRefs) -> (r: bool)
    ensures
        r == types.numpy_scalar(ob_type),
{
    match &types.numpy_types {
        Some(numpy) => ob_type == numpy.float64 || ob_type == numpy.float32 || ob_type
            == numpy.int64 || ob_type == numpy.int32 || ob_type == numpy.int16 || ob_type
            == numpy.int8 || ob_type == numpy.uint64 || ob_type == numpy.uint32 || ob_type
            == numpy.uint16 || ob_type == numpy.uint8 || ob_type == numpy.bool_,
        None => false,
    }
}

/// Tests a type handle against the numeric array type.
pub fn is_numpy_array(ob_type: TypeHandle, types: &TypeRefs) -> (r: bool)
    ensures
        r == types.numpy_array(ob_type),
{
    match &types.numpy_types {
        Some(numpy) => ob_type == numpy.array,
        None => false,
    }
}

} // verus!
