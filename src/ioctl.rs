//! Device control request codes.
use vstd::prelude::*;

verus! {

pub const IOCTL_KIND_DEFAULT: i32 = 0;

pub const IOCTL_KIND_GET_HANDLE: i32 = 0x1;

pub const IOCTL_FAMILY_DEVICE: i32 = 0x01;

pub const IOCTL_FAMILY_CONSOLE: i32 = 0x10;

pub const IOCTL_FAMILY_INPUT: i32 = 0x11;

pub const IOCTL_FAMILY_DISPLAY: i32 = 0x12;

/// The request code of a kind (low four bits), a family (low eight bits) and
/// a number within the family (low eight bits): kind in bits 20 to 23, family
/// in bits 8 to 15, number in bits 0 to 7.
pub fn make_ioctl(kind: i32, family: i32, number: i32) -> (r: i32)
    ensures
        r == (kind & 0xF) * 0x100000 + (family & 0xFF) * 0x100 + (number & 0xFF),
{
    let r = ((kind & 0xF) << 20) | ((family & 0xFF) << 8) | (number & 0xFF);
    assert(((kind & 0xF) << 20) | ((family & 0xFF) << 8) | (number & 0xFF) == (kind & 0xF)
        * 0x100000 + (family & 0xFF) * 0x100 + (number & 0xFF)) by (bit_vector);
    r
}

} // verus!
