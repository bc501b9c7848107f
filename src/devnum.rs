//! Linux device numbers: the major and minor parts packed in a `dev_t`.
use vstd::prelude::*;

verus! {

/// The major number held in `dev`, bit for bit as the kernel packs it.
pub open spec fn major_of(dev: u64) -> u64 {
    ((dev >> 32u64) & 0xffff_f000u64) | ((dev >> 8u64) & 0x0000_0fffu64)
}

/// The minor number held in `dev`, bit for bit as the kernel packs it.
pub open spec fn minor_of(dev: u64) -> u64 {
    ((dev >> 12u64) & 0xffff_ff00u64) | (dev & 0x0000_00ffu64)
}

/// Extracts the major number of a device number.
pub fn major(dev: u64) -> (r: u64)
    ensures
        r == major_of(dev),
        r < 0x1_0000_0000,
{
    let r = ((dev >> 32) & 0xffff_f000) | ((dev >> 8) & 0x0000_0fff);
    assert(r < 0x1_0000_0000) by (bit_vector)
        requires
            r == ((dev >> 32u64) & 0xffff_f000u64) | ((dev >> 8u64) & 0x0000_0fffu64),
    ;
    r
}

/// Extracts the minor number of a device number.
pub fn minor(dev: u64) -> (r: u64)
    ensures
        r == minor_of(dev),
        r < 0x1_0000_0000,
{
    let r = ((dev >> 12) & 0xffff_ff00) | (dev & 0x0000_00ff);
    assert(r < 0x1_0000_0000) by (bit_vector)
        requires
            r == ((dev >> 12u64) & 0xffff_ff00u64) | (dev & 0x0000_00ffu64),
    ;
    r
}

} // verus!
