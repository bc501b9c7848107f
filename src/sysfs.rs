//! Where sysfs keeps the serial number of the USB device behind a
//! character-device number.
use vstd::prelude::*;
use vstd::string::*;
use crate::decimal::{decimal, push_decimal};
use crate::devnum::{major, major_of, minor, minor_of};

verus! {

/// The sysfs link of the character device with number `dev`:
/// `/sys/dev/char/{major}:{minor}`.
pub open spec fn char_link_of(dev: u64) -> Seq<char> {
    "/sys/dev/char/"@ + decimal(major_of(dev) as nat) + ":"@ + decimal(minor_of(dev) as nat)
}

/// The serial attribute of the USB device whose kernel object is `leaf`:
/// `/sys/bus/usb/devices/{leaf}/serial`.
pub open spec fn serial_attr_of(leaf: Seq<char>) -> Seq<char> {
    "/sys/bus/usb/devices/"@ + leaf + "/serial"@
}

/// The last component of a path, as `Path::file_name` gives it.
pub uninterp spec fn leaf_name(path: Seq<char>) -> Option<Seq<char>>;

/// The serial attribute path for a device whose sysfs link points at
/// `target`, if that target has a last component.
pub open spec fn serial_path_of(target: Seq<char>) -> Option<Seq<char>> {
    match leaf_name(target) {
        Some(l) => Some(serial_attr_of(l)),
        None => None,
    }
}

/// Resolution depends on nothing but the device number and the link
/// target: the same two give the same link to read and the same serial
/// attribute path.
pub proof fn lemma_resolution_deterministic(dev1: u64, dev2: u64, target1: Seq<char>, target2: Seq<char>)
    requires
        dev1 == dev2,
        target1 == target2,
    ensures
        char_link_of(dev1) == char_link_of(dev2),
        serial_path_of(target1) == serial_path_of(target2),
{
}

/// Why the serial attribute of a device could not be located.
#[derive(Debug, Clone, Copy, PartialEq, Eq, Structural)]
pub enum ResolveError {
    /// The descriptor could not be examined for its device number.
    StatFailed,
    /// The sysfs link of the device number could not be read.
    LinkUnresolved,
    /// The link's target has no last component.
    NoLeaf,
}

/// Relies on `Path::file_name`: the final component of `path`, if it has one.
#[verifier::external_body]
fn final_component(path: &str) -> (r: Option<String>)
    ensures
        r matches Some(l) ==> leaf_name(path@) == Some(l@),
        r is None ==> leaf_name(path@) is None,
{
    std::path::Path::new(path).file_name().map(|n| n.to_string_lossy().into_owned())
}

/// The sysfs link to read for the character device numbered `dev`.
pub fn char_device_link(dev: u64) -> (r: String)
    ensures
        r@ == char_link_of(dev),
{
    let mut s = String::from_str("/sys/dev/char/");
    push_decimal(&mut s, major(dev));
    s.append(":");
    push_decimal(&mut s, minor(dev));
    s
}

/// The serial attribute path for a kernel object named `leaf`, or `NoLeaf`
/// where the link target had no last component.
pub fn serial_path_for_leaf(leaf: Option<&str>) -> (r: Result<String, ResolveError>)
    ensures
        leaf is None ==> r == Err::<String, ResolveError>(ResolveError::NoLeaf),
        leaf matches Some(l) ==> (r matches Ok(p) && p@ == serial_attr_of(l@)),
{
    match leaf {
        None => Err(ResolveError::NoLeaf),
        Some(l) => {
            let mut p = String::from_str("/sys/bus/usb/devices/");
            p.append(l);
            p.append("/serial");
            Ok(p)
        },
    }
}

/// The serial attribute path for the device whose sysfs link points at
/// `target`.
pub fn serial_path_from_target(target: &str) -> (r: Result<String, ResolveError>)
    ensures
        leaf_name(target@) is None ==> r == Err::<String, ResolveError>(ResolveError::NoLeaf),
        leaf_name(target@) matches Some(l) ==> (r matches Ok(p) && p@ == serial_attr_of(l)),
{
    let leaf = final_component(target);
    match leaf {
        None => serial_path_for_leaf(None),
        Some(l) => serial_path_for_leaf(Some(l.as_str())),
    }
}

} // verus!
