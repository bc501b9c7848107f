//! Handing a device descriptor from the process the broker started back to
//! the process that asked for it, and choosing which of the roles a process
//! plays.
use vstd::prelude::*;
use crate::decimal::{i32_of_text, parse_i32};
use crate::session::SessionError;

verus! {

/// Size of the buffer that receives the relayed text, in bytes.
pub const RELAY_BUFFER_LEN: usize = 256;

/// The part a process plays, chosen by what its environment holds.
#[derive(Debug, Clone, Copy, PartialEq, Eq, Structural)]
pub enum Role {
    /// Started by the broker with a granted device: identify it here.
    Direct,
    /// Ask the broker for each candidate device and receive each descriptor.
    RelayParent,
    /// Started by the broker on behalf of a relay parent: send the
    /// descriptor back and exit.
    RelayChild,
}

/// The role for a process whose environment holds a device path, a USB
/// descriptor and a relay descriptor as the three flags say, and whose
/// arguments ask for relay mode or not.
pub fn select_role(has_device_path: bool, has_usb_fd: bool, has_relay_fd: bool, relay_requested: bool) -> (r: Role)
    ensures
        r == (if has_device_path && has_usb_fd && has_relay_fd {
            Role::RelayChild
        } else if relay_requested {
            Role::RelayParent
        } else {
            Role::Direct
        }),
{
    if has_device_path && has_usb_fd && has_relay_fd {
        Role::RelayChild
    } else if relay_requested {
        Role::RelayParent
    } else {
        Role::Direct
    }
}

/// A missing or unreadable setting in the environment.
#[derive(Debug, Clone, Copy, PartialEq, Eq, Structural)]
pub enum ConfigError {
    /// No USB descriptor number was given.
    MissingUsbFd,
    /// The USB descriptor number is not a decimal `i32`.
    BadUsbFd,
    /// The relay descriptor number is not a decimal `i32`.
    BadRelayFd,
}

/// The USB descriptor number given to a process started in direct mode.
pub fn direct_usb_fd(setting: Option<&str>) -> (r: Result<i32, ConfigError>)
    ensures
        setting is None ==> r == Err::<i32, ConfigError>(ConfigError::MissingUsbFd),
        setting matches Some(s) ==> r == (match i32_of_text(s@) {
            Some(fd) => Ok::<i32, ConfigError>(fd),
            None => Err(ConfigError::BadUsbFd),
        }),
{
    match setting {
        None => Err(ConfigError::MissingUsbFd),
        Some(s) => match parse_i32(s) {
            Some(fd) => Ok(fd),
            None => Err(ConfigError::BadUsbFd),
        },
    }
}

/// The one message a relay child sends: `payload` with descriptor `fd`
/// attached, over the relay socket `socket`.
#[derive(Debug)]
pub struct RelayMessage {
    pub socket: i32,
    pub fd: i32,
    pub payload: String,
}

/// The message a relay child sends for device `device_path`, whose granted
/// descriptor and relay socket numbers are given as text.
pub fn relay_message(device_path: &str, usb_fd: &str, relay_fd: &str) -> (r: Result<RelayMessage, ConfigError>)
    ensures
        i32_of_text(relay_fd@) is None ==> r == Err::<RelayMessage, ConfigError>(ConfigError::BadRelayFd),
        i32_of_text(relay_fd@) is Some && i32_of_text(usb_fd@) is None
            ==> r == Err::<RelayMessage, ConfigError>(ConfigError::BadUsbFd),
        i32_of_text(relay_fd@) matches Some(sock) ==> (i32_of_text(usb_fd@) matches Some(fd)
            ==> (r matches Ok(m) && m.socket == sock && m.fd == fd && m.payload@ == device_path@)),
{
    let socket = match parse_i32(relay_fd) {
        Some(s) => s,
        None => { return Err(ConfigError::BadRelayFd); },
    };
    let fd = match parse_i32(usb_fd) {
        Some(f) => f,
        None => { return Err(ConfigError::BadUsbFd); },
    };
    Ok(RelayMessage { socket, fd, payload: device_path.to_string() })
}

/// What one receive on the relay socket brought.
#[derive(Debug, Clone, Copy, PartialEq, Eq, Structural)]
pub enum RecvOutcome {
    /// `size` bytes of text came with descriptor `fd`.
    Delivered { size: usize, fd: i32 },
    /// A message came without a descriptor.
    MissingFd,
    /// The receive itself failed.
    TransportError,
}

/// Classifies a receive: `received` is the byte and descriptor counts, or
/// `None` where the call failed; `fd` is what the descriptor slot holds.
pub fn classify_receive(received: Option<(usize, usize)>, fd: i32) -> (r: RecvOutcome)
    ensures
        received is None ==> r == RecvOutcome::TransportError,
        received matches Some((size, n)) ==> r == (if n == 0 {
            RecvOutcome::MissingFd
        } else {
            RecvOutcome::Delivered { size, fd }
        }),
{
    match received {
        None => RecvOutcome::TransportError,
        Some((size, n)) => if n == 0 {
            RecvOutcome::MissingFd
        } else {
            RecvOutcome::Delivered { size, fd }
        },
    }
}

/// The list that broker output `bytes` holds, read as a JSON array of strings.
pub uninterp spec fn json_string_array(bytes: Seq<u8>) -> Option<Seq<Seq<char>>>;

/// Relies on `serde_json::from_slice::<Vec<String>>`: the strings of a JSON
/// array, or nothing where `bytes` is not one.
#[verifier::external_body]
fn parse_string_array(bytes: &[u8]) -> (r: Option<Vec<String>>)
    ensures
        r is None ==> json_string_array(bytes@) is None,
        r matches Some(v) ==> json_string_array(bytes@) == Some(v.deep_view()),
{
    serde_json::from_slice::<Vec<String>>(bytes).ok()
}

/// The candidate device paths once the broker's listing has been parsed:
/// none where it could not be.
pub fn devices_or_none(parsed: Option<Vec<String>>) -> (r: Vec<String>)
    ensures
        parsed is None ==> r@.len() == 0,
        parsed matches Some(v) ==> r == v,
{
    match parsed {
        Some(v) => v,
        None => Vec::new(),
    }
}

/// The candidate device paths that the broker's listing output names: none
/// where the broker could not be run (`None`) or its output is not a JSON
/// array of strings.
pub fn candidate_devices(listing: Option<&[u8]>) -> (r: Vec<String>)
    ensures
        listing is None ==> r@.len() == 0,
        listing matches Some(b) ==> (match json_string_array(b@) {
            Some(l) => r.deep_view() == l,
            None => r@.len() == 0,
        }),
{
    match listing {
        None => Vec::new(),
        Some(b) => devices_or_none(parse_string_array(b)),
    }
}

} // verus!
