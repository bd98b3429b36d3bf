//! Option flags that steer classification for one top-level call.

use vstd::prelude::*;

verus! {

/// Bit set of encoding options. It is fixed for a whole call and handed
/// unchanged to every recursive step.
pub type Opt = u32;

/// Integers whose magnitude does not fit the 64-bit wire types are not encoded
/// automatically.
pub const PASSTHROUGH_BIG_INT: Opt = 1;

/// Date-time, date and time values are not encoded automatically.
pub const PASSTHROUGH_DATETIME: Opt = 2;

/// Tuples are not encoded automatically.
pub const PASSTHROUGH_TUPLE: Opt = 4;

/// Subclasses of string, integer, list and mapping are not encoded
/// automatically.
pub const PASSTHROUGH_SUBCLASS: Opt = 8;

/// Plain records are not encoded automatically.
pub const PASSTHROUGH_DATACLASS: Opt = 16;

/// Numeric scalars and numeric arrays are encoded.
pub const SERIALIZE_NUMPY: Opt = 32;

/// Typed records are encoded.
pub const SERIALIZE_PYDANTIC: Opt = 64;

/// Whether `flag` is set in `opts`.
pub open spec fn flag_set(opts: Opt, flag: Opt) -> bool {
    opts & flag != 0
}

/// Tests one flag of an option set.
pub fn has_flag(opts: Opt, flag: Opt) -> (r: bool)
    ensures
        r == flag_set(opts, flag),
{
    opts & flag != 0
}

} // verus!
