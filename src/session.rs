//! The steps that bind a USB session to a handed-over descriptor and read
//! the device's serial number, as a state machine: the caller performs each
//! requested action and reports what came of it.
use vstd::prelude::*;
use crate::sysfs::{char_device_link, char_link_of, leaf_name, serial_attr_of, serial_path_from_target};

verus! {

/// Time allowed for each string-descriptor read, in milliseconds.
pub const STRING_READ_TIMEOUT_MS: u64 = 1000;

/// What the device descriptor tells of the device.
#[derive(Debug, Clone, Copy, PartialEq, Eq, Structural)]
pub struct DeviceDescriptor {
    pub vendor_id: u16,
    pub product_id: u16,
    /// Index of the serial-number string, `None` where the device has none.
    pub serial_index: Option<u8>,
}

/// The two independent sources of a device's serial number: the string the
/// device reports, and the sysfs attribute that should hold it.
#[derive(Debug)]
pub struct UsbSerial {
    pub number: String,
    pub path: String,
}

/// The operation that failed while identifying a device.
#[derive(Debug, Clone, Copy, PartialEq, Eq, Structural)]
pub enum SessionError {
    Seek,
    ContextInit,
    OpenDevice,
    DeviceDescriptor,
    Languages,
    NoLanguage,
    SerialNumber,
    Stat,
    ReadLink,
    NoLeaf,
}

/// Where the protocol stands.
#[derive(Debug, Clone, Copy, PartialEq, Eq, Structural)]
pub enum Stage {
    DisableDiscovery,
    SeekToStart,
    InitContext,
    OpenDevice,
    ReadDescriptor,
    ReadLanguages,
    ReadSerial,
    StatDevice,
    ReadLink,
    Finished,
}

/// What came of the last action.
#[derive(Debug)]
pub enum SessionEvent {
    /// An action without a result succeeded.
    Done,
    /// The action failed.
    Failed,
    Descriptor(DeviceDescriptor),
    /// The language ids the device supports, in the order it lists them.
    Languages(Vec<u16>),
    SerialNumber(String),
    /// The device number (`st_rdev`) of the descriptor.
    DeviceNumber(u64),
    /// Where the device's sysfs link points.
    LinkTarget(String),
}

/// What the caller is to do next.
#[derive(Debug)]
pub enum SessionAction {
    /// Turn library-level device discovery off, process-wide.
    DisableDiscovery,
    /// Move the descriptor's offset back to its start.
    SeekToStart,
    /// Create a library context.
    InitContext,
    /// Open a device session on the descriptor itself.
    OpenDevice,
    ReadDescriptor,
    ReadLanguages { timeout_ms: u64 },
    /// Read the serial string in the language listed at `language_index`.
    /// `serial_index` is the descriptor's serial-string index.
    ReadSerial { language_index: usize, language_id: u16, serial_index: Option<u8>, timeout_ms: u64 },
    /// Ask the descriptor for its device number.
    StatDevice,
    /// Resolve the symbolic link at `link`.
    ReadLink { link: String },
    Report(UsbSerial),
    Fail(SessionError),
}

/// The stage that follows `s` when its action succeeds.
pub open spec fn next_stage(s: Stage) -> Stage {
    match s {
        Stage::DisableDiscovery => Stage::SeekToStart,
        Stage::SeekToStart => Stage::InitContext,
        Stage::InitContext => Stage::OpenDevice,
        Stage::OpenDevice => Stage::ReadDescriptor,
        Stage::ReadDescriptor => Stage::ReadLanguages,
        Stage::ReadLanguages => Stage::ReadSerial,
        Stage::ReadSerial => Stage::StatDevice,
        Stage::StatDevice => Stage::ReadLink,
        _ => Stage::Finished,
    }
}

/// Whether `ev` lets the protocol go on from stage `s`.
pub open spec fn advances(s: Stage, ev: SessionEvent) -> bool {
    match s {
        // the option is process-wide and idempotent: its outcome is not awaited
        Stage::DisableDiscovery => true,
        Stage::SeekToStart | Stage::InitContext | Stage::OpenDevice => ev is Done,
        Stage::ReadDescriptor => ev is Descriptor,
        Stage::ReadLanguages => ev matches SessionEvent::Languages(l) && l@.len() > 0,
        Stage::ReadSerial => ev is SerialNumber,
        Stage::StatDevice => ev is DeviceNumber,
        Stage::ReadLink => ev matches SessionEvent::LinkTarget(t) && leaf_name(t@) is Some,
        Stage::Finished => false,
    }
}

/// The error that ends the protocol when `ev` does not let it go on from `s`.
pub open spec fn failure(s: Stage, ev: SessionEvent) -> SessionError {
    match s {
        Stage::SeekToStart => SessionError::Seek,
        Stage::InitContext => SessionError::ContextInit,
        Stage::OpenDevice => SessionError::OpenDevice,
        Stage::ReadDescriptor => SessionError::DeviceDescriptor,
        Stage::ReadLanguages => if ev is Languages { SessionError::NoLanguage } else { SessionError::Languages },
        Stage::ReadSerial => SessionError::SerialNumber,
        Stage::StatDevice => SessionError::Stat,
        Stage::ReadLink => if ev is LinkTarget { SessionError::NoLeaf } else { SessionError::ReadLink },
        // no other stage can fail
        _ => SessionError::Seek,
    }
}

/// The device descriptor known once `ev` is taken in at stage `s`.
pub open spec fn device_after(s: Stage, ev: SessionEvent, device: Option<DeviceDescriptor>) -> Option<DeviceDescriptor> {
    match ev {
        SessionEvent::Descriptor(d) => if s == Stage::ReadDescriptor { Some(d) } else { device },
        _ => device,
    }
}

/// The language chosen once `ev` is taken in at stage `s`.
pub open spec fn language_after(s: Stage, ev: SessionEvent, lang: u16) -> u16 {
    match ev {
        SessionEvent::Languages(l) => if s == Stage::ReadLanguages && advances(s, ev) { l@[0] } else { lang },
        _ => lang,
    }
}

/// The serial string known once `ev` is taken in at stage `s`.
pub open spec fn number_after(s: Stage, ev: SessionEvent, number: Seq<char>) -> Seq<char> {
    match ev {
        SessionEvent::SerialNumber(n) => if s == Stage::ReadSerial && advances(s, ev) { n@ } else { number },
        _ => number,
    }
}

/// The sysfs link known once `ev` is taken in at stage `s`.
pub open spec fn link_after(s: Stage, ev: SessionEvent, link: Seq<char>) -> Seq<char> {
    match ev {
        SessionEvent::DeviceNumber(d) => if s == Stage::StatDevice && advances(s, ev) { char_link_of(d) } else { link },
        _ => link,
    }
}

/// The last component of the link target that `ev` reports.
pub open spec fn target_leaf(ev: SessionEvent) -> Seq<char> {
    match ev {
        SessionEvent::LinkTarget(t) => leaf_name(t@)->0,
        _ => Seq::empty(),
    }
}

/// The progress of identifying one device.
pub struct Session {
    stage: Stage,
    device: Option<DeviceDescriptor>,
    language: u16,
    number: String,
    link: String,
    outcome: Option<Result<UsbSerial, SessionError>>,
}

impl Session {
    /// The step the protocol has reached.
    pub closed spec fn stage(&self) -> Stage {
        self.stage
    }

    /// The device descriptor, once read.
    pub closed spec fn device(&self) -> Option<DeviceDescriptor> {
        self.device
    }

    /// The language id chosen for the serial string.
    pub closed spec fn language(&self) -> u16 {
        self.language
    }

    /// The serial string read from the device.
    pub closed spec fn number(&self) -> Seq<char> {
        self.number@
    }

    /// The sysfs link of the device number.
    pub closed spec fn link(&self) -> Seq<char> {
        self.link@
    }

    /// How the protocol ended: set exactly when it has.
    pub closed spec fn outcome(&self) -> Option<Result<(Seq<char>, Seq<char>), SessionError>> {
        match &self.outcome {
            None => None,
            Some(Ok(u)) => Some(Ok((u.number@, u.path@))),
            Some(Err(e)) => Some(Err(*e)),
        }
    }

    /// A session has an outcome exactly when it has finished.
    pub closed spec fn wf(&self) -> bool {
        (self.stage == Stage::Finished) == (self.outcome is Some)
    }

    /// A session that has done nothing yet.
    pub fn new() -> (r: Session)
        ensures
            r.wf(),
            r.stage() == Stage::DisableDiscovery,
            r.device() is None,
    {
        Session {
            stage: Stage::DisableDiscovery,
            device: None,
            language: 0,
            number: String::new(),
            link: String::new(),
            outcome: None,
        }
    }

    /// Whether the protocol has ended.
    pub fn is_finished(&self) -> (r: bool)
        ensures
            r == (self.stage() == Stage::Finished),
    {
        self.stage == Stage::Finished
    }

    /// The action that the current stage asks for.
    pub fn action(&self) -> (r: SessionAction)
        requires
            self.wf(),
        ensures
            self.stage() == Stage::DisableDiscovery ==> r is DisableDiscovery,
            self.stage() == Stage::SeekToStart ==> r is SeekToStart,
            self.stage() == Stage::InitContext ==> r is InitContext,
            self.stage() == Stage::OpenDevice ==> r is OpenDevice,
            self.stage() == Stage::ReadDescriptor ==> r is ReadDescriptor,
            self.stage() == Stage::ReadLanguages ==> r == (SessionAction::ReadLanguages {
                timeout_ms: STRING_READ_TIMEOUT_MS,
            }),
            self.stage() == Stage::ReadSerial ==> r == (SessionAction::ReadSerial {
                language_index: 0,
                language_id: self.language(),
                serial_index: match self.device() {
                    Some(d) => d.serial_index,
                    None => None,
                },
                timeout_ms: STRING_READ_TIMEOUT_MS,
            }),
            self.stage() == Stage::StatDevice ==> r is StatDevice,
            self.stage() == Stage::ReadLink ==> (r matches SessionAction::ReadLink { link }
                && link@ == self.link()),
            self.outcome() matches Some(Ok((n, p))) ==> (r matches SessionAction::Report(u)
                && u.number@ == n && u.path@ == p),
            self.outcome() matches Some(Err(e)) ==> r == SessionAction::Fail(e),
    {
        match self.stage {
            Stage::DisableDiscovery => SessionAction::DisableDiscovery,
            Stage::SeekToStart => SessionAction::SeekToStart,
            Stage::InitContext => SessionAction::InitContext,
            Stage::OpenDevice => SessionAction::OpenDevice,
            Stage::ReadDescriptor => SessionAction::ReadDescriptor,
            Stage::ReadLanguages => SessionAction::ReadLanguages { timeout_ms: STRING_READ_TIMEOUT_MS },
            Stage::ReadSerial => SessionAction::ReadSerial {
                language_index: 0,
                language_id: self.language,
                serial_index: match self.device {
                    Some(d) => d.serial_index,
                    None => None,
                },
                timeout_ms: STRING_READ_TIMEOUT_MS,
            },
            Stage::StatDevice => SessionAction::StatDevice,
            Stage::ReadLink => SessionAction::ReadLink { link: self.link.clone() },
            Stage::Finished => match &self.outcome {
                Some(Ok(u)) => SessionAction::Report(UsbSerial {
                    number: u.number.clone(),
                    path: u.path.clone(),
                }),
                Some(Err(e)) => SessionAction::Fail(*e),
                // a well-formed finished session has an outcome
                None => SessionAction::Fail(SessionError::Seek),
            },
        }
    }

    fn finish(&mut self, e: SessionError)
        ensures
            final(self).wf(),
            final(self).stage() == Stage::Finished,
            final(self).outcome() == Some(Err::<(Seq<char>, Seq<char>), SessionError>(e)),
            final(self).device() == old(self).device(),
            final(self).language() == old(self).language(),
            final(self).number() == old(self).number(),
            final(self).link() == old(self).link(),
    {
        self.stage = Stage::Finished;
        self.outcome = Some(Err(e));
    }

    /// Takes in what came of the action that the current stage asked for.
    pub fn record(&mut self, ev: SessionEvent)
        requires
            old(self).wf(),
        ensures
            final(self).wf(),
            old(self).stage() == Stage::Finished ==> *final(self) == *old(self),
            old(self).stage() != Stage::Finished && !advances(old(self).stage(), ev) ==> (
                final(self).stage() == Stage::Finished
                && final(self).outcome() == Some(Err::<(Seq<char>, Seq<char>), SessionError>(
                    failure(old(self).stage(), ev),
                ))),
            advances(old(self).stage(), ev) ==> final(self).stage() == next_stage(old(self).stage()),
            advances(old(self).stage(), ev) && old(self).stage() != Stage::ReadLink
                ==> final(self).outcome() is None,
            final(self).device() == device_after(old(self).stage(), ev, old(self).device()),
            final(self).language() == language_after(old(self).stage(), ev, old(self).language()),
            final(self).number() == number_after(old(self).stage(), ev, old(self).number()),
            final(self).link() == link_after(old(self).stage(), ev, old(self).link()),
            advances(old(self).stage(), ev) && old(self).stage() == Stage::ReadLink
                ==> final(self).outcome() == Some(Ok::<(Seq<char>, Seq<char>), SessionError>(
                    (old(self).number(), serial_attr_of(target_leaf(ev))),
                )),
    {
        if self.stage == Stage::Finished {
            return;
        }
        if self.stage == Stage::DisableDiscovery {
            self.stage = Stage::SeekToStart;
            return;
        }
        match ev {
            SessionEvent::Done => {
                match self.stage {
                    Stage::SeekToStart => { self.stage = Stage::InitContext; },
                    Stage::InitContext => { self.stage = Stage::OpenDevice; },
                    Stage::OpenDevice => { self.stage = Stage::ReadDescriptor; },
                    _ => { let e = self.failure_here(false); self.finish(e); },
                }
            },
            SessionEvent::Failed => {
                let e = self.failure_here(false);
                self.finish(e);
            },
            SessionEvent::Descriptor(d) => {
                if self.stage == Stage::ReadDescriptor {
                    self.device = Some(d);
                    self.stage = Stage::ReadLanguages;
                } else {
                    let e = self.failure_here(false);
                    self.finish(e);
                }
            },
            SessionEvent::Languages(l) => {
                if self.stage == Stage::ReadLanguages && l.len() > 0 {
                    self.language = l[0];
                    self.stage = Stage::ReadSerial;
                } else {
                    let e = self.failure_here(true);
                    self.finish(e);
                }
            },
            SessionEvent::SerialNumber(n) => {
                if self.stage == Stage::ReadSerial {
                    self.number = n;
                    self.stage = Stage::StatDevice;
                } else {
                    let e = self.failure_here(false);
                    self.finish(e);
                }
            },
            SessionEvent::DeviceNumber(d) => {
                if self.stage == Stage::StatDevice {
                    self.link = char_device_link(d);
                    self.stage = Stage::ReadLink;
                } else {
                    let e = self.failure_here(false);
                    self.finish(e);
                }
            },
            SessionEvent::LinkTarget(t) => {
                if self.stage == Stage::ReadLink {
                    match serial_path_from_target(t.as_str()) {
                        Ok(p) => {
                            self.stage = Stage::Finished;
                            self.outcome = Some(Ok(UsbSerial { number: self.number.clone(), path: p }));
                        },
                        Err(_) => { self.finish(SessionError::NoLeaf); },
                    }
                } else {
                    let e = self.failure_here(false);
                    self.finish(e);
                }
            },
        }
    }

    /// The error for a failure at the current stage; `with_result` tells
    /// whether the action did return, but with a result that cannot be used.
    fn failure_here(&self, with_result: bool) -> (r: SessionError)
        ensures
            with_result && self.stage() == Stage::ReadLanguages ==> r == SessionError::NoLanguage,
            !(with_result && self.stage() == Stage::ReadLanguages) ==> r == failure(self.stage(), SessionEvent::Failed),
    {
        match self.stage {
            Stage::SeekToStart => SessionError::Seek,
            Stage::InitContext => SessionError::ContextInit,
            Stage::OpenDevice => SessionError::OpenDevice,
            Stage::ReadDescriptor => SessionError::DeviceDescriptor,
            Stage::ReadLanguages => if with_result { SessionError::NoLanguage } else { SessionError::Languages },
            Stage::ReadSerial => SessionError::SerialNumber,
            Stage::StatDevice => SessionError::Stat,
            Stage::ReadLink => SessionError::ReadLink,
            _ => SessionError::Seek,
        }
    }
}

} // verus!
