//! Snapshots of host objects.
//!
//! The encoder never touches the host runtime. It works on a [`PyObject`],
//! which holds as plain values everything that classification and encoding
//! read from one object: facts about its type, its scalar content, and the
//! objects reached from it by iteration, through mapping entries and through
//! attributes.

use crate::typeref::TypeHandle;
use vstd::prelude::*;

verus! {

/// What classification reads from the type of an object.
#[derive(Clone, Copy, Debug)]
pub struct PyType {
    /// The identity of the type.
    pub id: TypeHandle,
    /// The identity of the type's own type.
    pub meta: TypeHandle,
    /// The type is the string type or derives from it.
    pub unicode_subclass: bool,
    /// The type is the integer type or derives from it.
    pub long_subclass: bool,
    /// The type is the list type or derives from it.
    pub list_subclass: bool,
    /// The type is the mapping type or derives from it.
    pub dict_subclass: bool,
    /// Objects of the type are mutable sets.
    pub set_instance: bool,
    /// Objects of the type are immutable sets.
    pub frozenset_instance: bool,
    /// Objects of the type are exceptions.
    pub exception_instance: bool,
    /// The type carries the marker of a plain record.
    pub dataclass_fields: bool,
    /// The type carries a marker of a typed record.
    pub pydantic_fields: bool,
}

impl PyType {
    /// The facts about a type that is known by its identity alone: it derives
    /// from none of the built-in types, carries no marker, and its own type
    /// has the handle 0.
    pub open spec fn spec_exact(id: TypeHandle) -> PyType {
        PyType {
            id,
            meta: 0,
            unicode_subclass: false,
            long_subclass: false,
            list_subclass: false,
            dict_subclass: false,
            set_instance: false,
            frozenset_instance: false,
            exception_instance: false,
            dataclass_fields: false,
            pydantic_fields: false,
        }
    }

    /// Makes the facts about a type that is known by its identity alone.
    pub fn exact(id: TypeHandle) -> (ty: PyType)
        ensures
            ty == PyType::spec_exact(id),
    {
        PyType {
            id,
            meta: 0,
            unicode_subclass: false,
            long_subclass: false,
            list_subclass: false,
            dict_subclass: false,
            set_instance: false,
            frozenset_instance: false,
            exception_instance: false,
            dataclass_fields: false,
            pydantic_fields: false,
        }
    }
}

/// Why the scalar content of an object could not be extracted.
#[derive(Clone, Copy, Debug, PartialEq, Eq, Structural)]
pub enum LeafFailure {
    TimeHasTimezone,
    NumericArrayMalformed,
    NumericArrayNotContiguous,
    NumericArrayUnsupportedDataType,
}

/// The scalar content of an object, as its leaf converter extracted it.
#[derive(Debug)]
pub enum Leaf {
    /// The null value, and the content of every object that has no scalar
    /// content.
    Nil,
    Bool(bool),
    /// An integer from 0 to 2^64 - 1.
    UInt(u64),
    /// An integer from -2^63 to 2^63 - 1.
    Int(i64),
    /// An integer outside the range from -2^63 to 2^64 - 1.
    BigInt,
    /// A double-precision number, by its IEEE 754 bit pattern.
    Float(u64),
    /// Text: a string, or the text form of a date-time, date, time or
    /// identifier value.
    Str(String),
    Bin(Vec<u8>),
    /// An extension value of the caller's own.
    Ext { tag: i8, data: Vec<u8> },
    /// The elements of a numeric array, row by row.
    Array(Vec<Leaf>),
    /// The leaf converter gave up.
    Failed(LeafFailure),
}

impl Leaf {
    /// Whether an integer's magnitude fits 64 bits if it is not negative, and
    /// 63 bits if it is. Content that is no integer has no magnitude to
    /// exceed either.
    pub open spec fn magnitude_fits(self) -> bool {
        match self {
            Leaf::BigInt => false,
            Leaf::Int(n) => n > i64::MIN,
            _ => true,
        }
    }

    /// Tests whether an integer's magnitude fits the 64-bit wire types.
    pub fn fits_wire_int(&self) -> (r: bool)
        ensures
            r == self.magnitude_fits(),
    {
        match self {
            Leaf::BigInt => false,
            Leaf::Int(n) => *n > i64::MIN,
            _ => true,
        }
    }
}

/// The attributes that the encoders read.
#[derive(Clone, Copy, Debug, PartialEq, Eq, Structural)]
pub enum AttrName {
    /// `name`: of a character, and of the graph that holds a node or an edge.
    Name,
    /// `graph`: the graph that holds a thing, a place or a portal.
    Graph,
    /// `node`: the identifier of a thing or a place.
    Node,
    /// `orig`: the identifier of the node where a portal starts.
    Orig,
    /// `dest`: the identifier of the node where a portal ends.
    Dest,
    /// `args`: the arguments an exception was made with.
    Args,
    /// `__class__`: the class of an exception.
    Class,
    /// `__name__`: the name of a class.
    ClassName,
    /// `__traceback__`: the traceback attached to an exception, already
    /// turned into a mapping.
    Traceback,
    /// `value`: the value of an enumeration member.
    Value,
    /// `__dict__`: the field map that backs a typed record.
    Dict,
}

/// An attribute of an object.
#[derive(Debug)]
pub struct Attr {
    pub name: AttrName,
    pub value: PyObject,
}

/// A named entry of a mapping or of a record.
#[derive(Debug)]
pub struct Field {
    pub name: String,
    pub value: PyObject,
}

/// A snapshot of one host object and of all that is reachable from it.
#[derive(Debug)]
pub struct PyObject {
    /// The identity of the host object. The encoders do not read it; a
    /// fallback handler finds the host object by it.
    pub id: usize,
    pub ob_type: PyType,
    pub leaf: Leaf,
    /// The elements, in the order in which the object yields them.
    pub items: Vec<PyObject>,
    /// The entries of a mapping, or the declared fields of a record, in
    /// their order.
    pub fields: Vec<Field>,
    /// The attributes. Where a name occurs twice, the first one counts.
    pub attrs: Vec<Attr>,
}

/// The index of the first attribute at or after `from` that is called `name`,
/// or the number of attributes if there is none.
pub open spec fn find_attr(attrs: Seq<Attr>, name: AttrName, from: int) -> int
    decreases attrs.len() - from,
{
    if from < 0 || from >= attrs.len() {
        attrs.len() as int
    } else if attrs[from].name == name {
        from
    } else {
        find_attr(attrs, name, from + 1)
    }
}

impl PyObject {
    /// Makes an object that has scalar content and nothing else.
    pub fn scalar(ob_type: PyType, leaf: Leaf) -> (obj: PyObject)
        ensures
            obj.id == 0,
            obj.ob_type == ob_type,
            obj.leaf == leaf,
            obj.items@.len() == 0,
            obj.fields@.len() == 0,
            obj.attrs@.len() == 0,
    {
        PyObject { id: 0, ob_type, leaf, items: Vec::new(), fields: Vec::new(), attrs: Vec::new() }
    }

    /// Makes an object that has elements and nothing else.
    pub fn sequence(ob_type: PyType, items: Vec<PyObject>) -> (obj: PyObject)
        ensures
            obj.id == 0,
            obj.ob_type == ob_type,
            obj.leaf == Leaf::Nil,
            obj.items == items,
            obj.fields@.len() == 0,
            obj.attrs@.len() == 0,
    {
        PyObject { id: 0, ob_type, leaf: Leaf::Nil, items, fields: Vec::new(), attrs: Vec::new() }
    }

    /// Makes an object that has named entries and nothing else.
    pub fn mapping(ob_type: PyType, fields: Vec<Field>) -> (obj: PyObject)
        ensures
            obj.id == 0,
            obj.ob_type == ob_type,
            obj.leaf == Leaf::Nil,
            obj.items@.len() == 0,
            obj.fields == fields,
            obj.attrs@.len() == 0,
    {
        PyObject { id: 0, ob_type, leaf: Leaf::Nil, items: Vec::new(), fields, attrs: Vec::new() }
    }

    /// Makes an object that has attributes and nothing else.
    pub fn instance(ob_type: PyType, attrs: Vec<Attr>) -> (obj: PyObject)
        ensures
            obj.id == 0,
            obj.ob_type == ob_type,
            obj.leaf == Leaf::Nil,
            obj.items@.len() == 0,
            obj.fields@.len() == 0,
            obj.attrs == attrs,
    {
        PyObject { id: 0, ob_type, leaf: Leaf::Nil, items: Vec::new(), fields: Vec::new(), attrs }
    }

    /// Whether the object has an attribute called `name`.
    pub open spec fn has_attr(self, name: AttrName) -> bool {
        0 <= find_attr(self.attrs@, name, 0) < self.attrs.len()
    }

    /// The attribute called `name`, where the object has one.
    pub open spec fn attr(self, name: AttrName) -> PyObject {
        self.attrs[find_attr(self.attrs@, name, 0)].value
    }

    /// Reads the attribute called `name`.
    pub fn get_attr(&self, name: AttrName) -> (r: Option<&PyObject>)
        ensures
            match r {
                Some(value) => self.has_attr(name) && *value == self.attr(name),
                None => !self.has_attr(name),
            },
    {
        let mut i: usize = 0;
        while i < self.attrs.len()
            invariant
                i <= self.attrs.len(),
                find_attr(self.attrs@, name, 0) == find_attr(self.attrs@, name, i as int),
            decreases self.attrs.len() - i,
        {
            if self.attrs[i].name == name {
                return Some(&self.attrs[i].value);
            }
            i += 1;
        }
        None
    }
}

} // verus!
