//! The encoder of scalar content.

use crate::error::EncodeError;
use crate::object::{Leaf, LeafFailure};
use crate::serialize::encoding::{
    failure_error, leaf_encoding, leaves_encoding, text_encoding, Wire,
};
use crate::wire::{
    array_header, write_array_len, write_bin, write_bool, write_ext, write_float_bits, write_nil,
    write_sint, write_str, write_uint, MAX_WIRE_LEN,
};
use vstd::prelude::*;

verus! {

/// The outcome of an encoder, seen as mathematics.
pub open spec fn wire_of(r: Result<Vec<u8>, EncodeError>) -> Wire {
    match r {
        Ok(bytes) => Ok(bytes@),
        Err(e) => Err(e),
    }
}

/// Once a prefix of a row of leaves fails, every longer prefix fails alike.
pub proof fn lemma_leaves_error(leaves: Seq<Leaf>, k: nat, n: nat)
    requires
        k <= n <= leaves.len(),
        leaves_encoding(leaves, k) is Err,
    ensures
        leaves_encoding(leaves, n) == leaves_encoding(leaves, k),
    decreases n - k,
{
    if k < n {
        lemma_leaves_error(leaves, k, (n - 1) as nat);
    }
}

/// Turns a failed leaf conversion into the error that reports it.
pub fn leaf_failure_error(failure: LeafFailure) -> (e: EncodeError)
    ensures
        e == failure_error(failure),
{
    match failure {
        LeafFailure::TimeHasTimezone => EncodeError::TimeHasTimezone,
        LeafFailure::NumericArrayMalformed => EncodeError::NumericArrayMalformed,
        LeafFailure::NumericArrayNotContiguous => EncodeError::NumericArrayNotContiguous,
        LeafFailure::NumericArrayUnsupportedDataType => EncodeError::NumericArrayUnsupportedDataType,
    }
}

/// Encodes a string.
pub fn serialize_text(text: &str) -> (r: Result<Vec<u8>, EncodeError>)
    ensures
        wire_of(r) == text_encoding(text@),
{
    if text.as_bytes().len() > MAX_WIRE_LEN {
        return Err(EncodeError::LengthOverflow);
    }
    let mut buf: Vec<u8> = Vec::new();
    write_str(&mut buf, text);
    Ok(buf)
}

/// Encodes scalar content.
pub fn serialize_leaf(leaf: &Leaf) -> (r: Result<Vec<u8>, EncodeError>)
    ensures
        wire_of(r) == leaf_encoding(*leaf),
    decreases leaf,
{
    let mut buf: Vec<u8> = Vec::new();
    match leaf {
        Leaf::Nil => write_nil(&mut buf),
        Leaf::Bool(b) => write_bool(&mut buf, *b),
        Leaf::UInt(v) => write_uint(&mut buf, *v),
        Leaf::Int(v) => write_sint(&mut buf, *v),
        Leaf::BigInt => {
            return Err(EncodeError::IntegerOutOfRange);
        },
        Leaf::Float(bits) => write_float_bits(&mut buf, *bits),
        Leaf::Str(text) => {
            return serialize_text(text.as_str());
        },
        Leaf::Bin(data) => {
            if data.len() > MAX_WIRE_LEN {
                return Err(EncodeError::LengthOverflow);
            }
            write_bin(&mut buf, data);
        },
        Leaf::Ext { tag, data } => {
            if *tag < 0 {
                return Err(EncodeError::ReservedExtensionTag);
            }
            if data.len() > MAX_WIRE_LEN {
                return Err(EncodeError::LengthOverflow);
            }
            write_ext(&mut buf, *tag, data);
        },
        Leaf::Array(elements) => {
            let len = elements.len();
            if len > MAX_WIRE_LEN {
                return Err(EncodeError::LengthOverflow);
            }
            write_array_len(&mut buf, len as u32);
            let ghost mut body: Seq<u8> = Seq::empty();
            let mut i: usize = 0;
            while i < len
                invariant
                    *leaf == Leaf::Array(*elements),
                    len == elements.len(),
                    len <= MAX_WIRE_LEN,
                    i <= len,
                    leaves_encoding(elements@, i as nat) == Ok::<Seq<u8>, EncodeError>(body),
                    buf@ == array_header(len as nat) + body,
                decreases len - i,
            {
                match serialize_leaf(&elements[i]) {
                    Ok(mut bytes) => {
                        proof {
                            body = body + bytes@;
                        }
                        buf.append(&mut bytes);
                    },
                    Err(e) => {
                        proof {
                            lemma_leaves_error(elements@, (i + 1) as nat, len as nat);
                        }
                        return Err(e);
                    },
                }
                i += 1;
            }
        },
        Leaf::Failed(failure) => {
            return Err(leaf_failure_error(*failure));
        },
    }
    Ok(buf)
}

} // verus!
