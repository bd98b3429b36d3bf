//! The extension envelope around the payload of a non-primitive value.

use crate::error::EncodeError;
use crate::serialize::encoding::ext_of;
use crate::serialize::leaf::wire_of;
use crate::wire::{write_ext, MAX_WIRE_LEN};
use vstd::prelude::*;

verus! {

/// Wraps a payload, if there is one, in an extension value with the given
/// code. An error is handed on as it is.
pub fn serialize_ext(code: i8, payload: Result<Vec<u8>, EncodeError>) -> (r: Result<
    Vec<u8>,
    EncodeError,
>)
    requires
        code >= 0,
    ensures
        wire_of(r) == ext_of(code, wire_of(payload)),
{
    match payload {
        Err(e) => Err(e),
        Ok(bytes) => {
            if bytes.len() > MAX_WIRE_LEN {
                return Err(EncodeError::LengthOverflow);
            }
            let mut buf: Vec<u8> = Vec::new();
            write_ext(&mut buf, code, &bytes);
            Ok(buf)
        },
    }
}

} // verus!
