use usb_serial_relay::decimal::push_decimal;
use usb_serial_relay::devnum::{major, minor};
use usb_serial_relay::sysfs::{char_device_link, serial_path_for_leaf, serial_path_from_target, ResolveError};

#[test]
fn major_minor_top_and_low_bits() {
    let dev: u64 = 0xfff0_0000_0000_00ff;
    assert_eq!(major(dev), 0xfff0_0000);
    assert_eq!(minor(dev), 0xff);
}

#[test]
fn major_minor_split_fields() {
    let dev: u64 = 0x0001_2000_6783_459a;
    assert_eq!(major(dev), 0x12345);
    assert_eq!(minor(dev), 0x6789a);
}

#[test]
fn major_minor_usb_device() {
    assert_eq!(major(0xbd00), 189);
    assert_eq!(minor(0xbd00), 0);
    assert_eq!(major(0x801), 8);
    assert_eq!(minor(0x801), 1);
}

#[test]
fn major_minor_all_ones() {
    assert_eq!(major(u64::MAX), 0xffff_ffff);
    assert_eq!(minor(u64::MAX), 0xffff_ffff);
    assert_eq!(major(0), 0);
    assert_eq!(minor(0), 0);
}

#[test]
fn decimal_text() {
    let mut s = String::from("n=");
    push_decimal(&mut s, 0);
    s.push(',');
    push_decimal(&mut s, 1907);
    s.push(',');
    push_decimal(&mut s, u64::MAX);
    assert_eq!(s, "n=0,1907,18446744073709551615");
}

#[test]
fn link_of_device_number() {
    assert_eq!(char_device_link(0xbd00), "/sys/dev/char/189:0");
    assert_eq!(char_device_link(0x0001_2000_6783_459a), "/sys/dev/char/74565:424090");
}

#[test]
fn serial_path_of_link_target() {
    let p = serial_path_from_target("/sys/devices/platform/soc/usb1").unwrap();
    assert_eq!(p, "/sys/bus/usb/devices/usb1/serial");
    let p = serial_path_from_target("../../devices/pci0000:00/0000:00:14.0/usb2/2-1").unwrap();
    assert_eq!(p, "/sys/bus/usb/devices/2-1/serial");
}

#[test]
fn serial_path_same_inputs_same_result() {
    let a = serial_path_from_target("/devices/x/usb3");
    let b = serial_path_from_target("/devices/x/usb3");
    assert_eq!(a, b);
    assert_eq!(char_device_link(0x801), char_device_link(0x801));
}

#[test]
fn serial_path_without_leaf() {
    assert_eq!(serial_path_from_target("/"), Err(ResolveError::NoLeaf));
    assert_eq!(serial_path_from_target(""), Err(ResolveError::NoLeaf));
    assert_eq!(serial_path_from_target("/devices/usb1/.."), Err(ResolveError::NoLeaf));
    assert_eq!(serial_path_for_leaf(None), Err(ResolveError::NoLeaf));
    assert_eq!(serial_path_for_leaf(Some("1-1.2")).unwrap(), "/sys/bus/usb/devices/1-1.2/serial");
}
