//! Small helpers on strings and integers.

use vstd::prelude::*;
use vstd::string::*;

verus! {

/// The length of `s` in bytes, as UTF-8 encodes it. For text that is all
/// ASCII this is the number of its characters.
pub fn string_size(s: &str) -> (r: usize)
    ensures
        r == s.spec_bytes().len(),
        is_ascii(s) ==> r == s@.len(),
{
    broadcast use is_ascii_spec_bytes;

    let bytes = s.as_bytes();
    bytes.len()
}

/// The sum of two integers.
pub fn sum(x: i32, y: i32) -> (r: i32)
    requires
        i32::MIN <= x + y <= i32::MAX,
    ensures
        r == x + y,
{
    x + y
}

} // verus!
