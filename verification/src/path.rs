//! The form in which the engine takes a path.

use vstd::prelude::*;
use vstd::slice::slice_to_vec;
use vstd::string::StringSliceAdditionalSpecFns;

verus! {

/// The bytes of `path` followed by one zero byte: the form in which the
/// engine takes the path of a model file.
///
/// The bytes of `path` are not looked at. Where one of them is zero, the
/// engine reads the path only up to it.
pub fn nul_terminated(path: &str) -> (bytes: Vec<u8>)
    ensures
        bytes@ == path.spec_bytes().push(0u8),
{
    let mut bytes: Vec<u8> = slice_to_vec(path.as_bytes());
    bytes.push(0u8);
    bytes
}

} // verus!
