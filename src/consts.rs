use vstd::prelude::*;

verus! {

/// Request code of DFU_DETACH.
pub const REQ_DETACH: u8 = 0;
/// Request code of DFU_DNLOAD.
pub const REQ_DNLOAD: u8 = 1;
/// Request code of DFU_UPLOAD.
pub const REQ_UPLOAD: u8 = 2;
/// Request code of DFU_GETSTATUS.
pub const REQ_GETSTATUS: u8 = 3;
/// Request code of DFU_CLRSTATUS.
pub const REQ_CLRSTATUS: u8 = 4;
/// Request code of DFU_GETSTATE.
pub const REQ_GETSTATE: u8 = 5;
/// Request code of DFU_ABORT.
pub const REQ_ABORT: u8 = 6;

/// Interface class of an application-specific function.
pub const USB_CLASS_APPN_SPEC: u8 = 0xfe;
/// Interface subclass of a DFU function.
pub const APPN_SPEC_SUBCLASS_DFU: u8 = 0x01;
/// Interface protocol of a device already running in DFU mode.
pub const DFU_PROTOCOL_DFU: u8 = 0x02;
/// Descriptor type of the DFU functional descriptor.
pub const DESC_DFU_FUNCTIONAL: u8 = 0x21;

/// Low byte of the poll timeout that GETSTATUS reports (50 ms).
pub const POLL_TIMEOUT_MS: u8 = 0x32;

/// A class request of the DFU 1.1 protocol.
#[derive(Clone, Copy, Debug, PartialEq, Eq, Structural)]
pub enum Request {
    Detach,
    Dnload,
    Upload,
    GetStatus,
    ClrStatus,
    GetState,
    Abort,
}

/// The request that a wire code stands for, if any.
pub open spec fn request_of(code: u8) -> Option<Request> {
    if code == REQ_DETACH {
        Some(Request::Detach)
    } else if code == REQ_DNLOAD {
        Some(Request::Dnload)
    } else if code == REQ_UPLOAD {
        Some(Request::Upload)
    } else if code == REQ_GETSTATUS {
        Some(Request::GetStatus)
    } else if code == REQ_CLRSTATUS {
        Some(Request::ClrStatus)
    } else if code == REQ_GETSTATE {
        Some(Request::GetState)
    } else if code == REQ_ABORT {
        Some(Request::Abort)
    } else {
        None
    }
}

impl Request {
    /// Decodes the `bRequest` field of a class request.
    pub fn from_code(code: u8) -> (r: Option<Request>)
        ensures
            r == request_of(code),
    {
        match code {
            REQ_DETACH => Some(Request::Detach),
            REQ_DNLOAD => Some(Request::Dnload),
            REQ_UPLOAD => Some(Request::Upload),
            REQ_GETSTATUS => Some(Request::GetStatus),
            REQ_CLRSTATUS => Some(Request::ClrStatus),
            REQ_GETSTATE => Some(Request::GetState),
            REQ_ABORT => Some(Request::Abort),
            _ => None,
        }
    }
}

/// The protocol-visible phase of the DFU interface.
#[derive(Clone, Copy, Debug, PartialEq, Eq, Structural)]
pub enum State {
    /// dfuIDLE: waiting for a transfer to start.
    DfuIdle,
    /// dfuDNLOAD-IDLE: ready for the next chunk.
    Download,
    /// dfuDNLOAD-SYNC: a chunk was written, waiting for a status poll.
    DlSync,
    /// dfuMANIFEST-SYNC: the image is complete, waiting for a status poll.
    ManifestSync,
    /// dfuERROR: left only by ABORT or CLRSTATUS.
    Error,
}

/// The `bState` code of a state.
pub open spec fn state_code(s: State) -> u8 {
    match s {
        State::DfuIdle => 2,
        State::DlSync => 3,
        State::Download => 5,
        State::ManifestSync => 6,
        State::Error => 10,
    }
}

impl State {
    /// The `bState` code that the host reads.
    pub fn code(&self) -> (r: u8)
        ensures
            r == state_code(*self),
    {
        match self {
            State::DfuIdle => 2,
            State::DlSync => 3,
            State::Download => 5,
            State::ManifestSync => 6,
            State::Error => 10,
        }
    }
}

/// The result of the last operation, as the host reads it.
#[derive(Clone, Copy, Debug, PartialEq, Eq, Structural)]
pub enum Status {
    Success,
    ErrWrite,
    ErrVerify,
    ErrAddress,
    ErrUnknown,
}

/// The `bStatus` code of a status.
pub open spec fn status_code(s: Status) -> u8 {
    match s {
        Status::Success => 0x00,
        Status::ErrWrite => 0x03,
        Status::ErrVerify => 0x07,
        Status::ErrAddress => 0x08,
        Status::ErrUnknown => 0x0e,
    }
}

impl Status {
    /// The `bStatus` code that the host reads.
    pub fn code(&self) -> (r: u8)
        ensures
            r == status_code(*self),
    {
        match self {
            Status::Success => 0x00,
            Status::ErrWrite => 0x03,
            Status::ErrVerify => 0x07,
            Status::ErrAddress => 0x08,
            Status::ErrUnknown => 0x0e,
        }
    }
}

/// What went wrong in the flash itself.
#[derive(Clone, Copy, Debug, PartialEq, Eq, Structural)]
pub enum FlashErrorKind {
    /// The arguments are not properly aligned.
    NotAligned,
    /// The arguments are out of bounds.
    OutOfBounds,
    /// Any other failure of the flash.
    Other,
}

/// A failure of the firmware writer.
#[derive(Clone, Copy, Debug, PartialEq, Eq, Structural)]
pub enum WriteError {
    /// The flash refused a write or an erase.
    Flash(FlashErrorKind),
    /// The image's signature did not verify.
    Signature,
    /// The stored boot state does not allow an update.
    BadState,
}

/// The status that reports a failure of the firmware writer.
pub open spec fn status_of(e: WriteError) -> Status {
    match e {
        WriteError::Flash(FlashErrorKind::NotAligned) => Status::ErrWrite,
        WriteError::Flash(FlashErrorKind::OutOfBounds) => Status::ErrAddress,
        WriteError::Flash(FlashErrorKind::Other) => Status::ErrUnknown,
        WriteError::Signature => Status::ErrVerify,
        WriteError::BadState => Status::ErrUnknown,
    }
}

impl From<WriteError> for Status {
    fn from(e: WriteError) -> (r: Status)
        ensures
            r == status_of(e),
    {
        match e {
            WriteError::Flash(kind) => match kind {
                FlashErrorKind::NotAligned => Status::ErrWrite,
                FlashErrorKind::OutOfBounds => Status::ErrAddress,
                FlashErrorKind::Other => Status::ErrUnknown,
            },
            WriteError::Signature => Status::ErrVerify,
            WriteError::BadState => Status::ErrUnknown,
        }
    }
}

impl vstd::std_specs::convert::FromSpecImpl<WriteError> for Status {
    open spec fn obeys_from_spec() -> bool {
        true
    }

    open spec fn from_spec(e: WriteError) -> Status {
        status_of(e)
    }
}

/// Bit of the attributes: the device accepts DFU_DNLOAD.
pub const CAN_DOWNLOAD: u8 = 0x01;
/// Bit of the attributes: the device accepts DFU_UPLOAD.
pub const CAN_UPLOAD: u8 = 0x02;
/// Bit of the attributes: the device stays responsive after manifestation.
pub const MANIFESTATION_TOLERANT: u8 = 0x04;
/// Bit of the attributes: the device detaches by itself on DFU_DETACH.
pub const WILL_DETACH: u8 = 0x08;

/// The `bmAttributes` capability set of the DFU functional descriptor.
#[derive(Clone, Copy, Debug, PartialEq, Eq, Structural)]
pub struct DfuAttributes {
    pub bits: u8,
}

impl DfuAttributes {
    /// Whether every bit of `flag` is set.
    pub open spec fn has(self, flag: u8) -> bool {
        self.bits & flag == flag
    }

    /// The capability set with exactly these bits.
    pub fn from_bits(bits: u8) -> (r: DfuAttributes)
        ensures
            r.bits == bits,
    {
        DfuAttributes { bits }
    }

    /// The raw `bmAttributes` byte.
    pub fn bits(&self) -> (r: u8)
        ensures
            r == self.bits,
    {
        self.bits
    }

    /// Whether every bit of `flag` is set.
    pub fn contains(&self, flag: u8) -> (r: bool)
        ensures
            r == self.has(flag),
    {
        self.bits & flag == flag
    }
}

} // verus!
