use vstd::prelude::*;
use crate::consts::{
    request_of, state_code, status_code, status_of, DfuAttributes, Request, State, Status,
    WriteError, CAN_DOWNLOAD, CAN_UPLOAD, POLL_TIMEOUT_MS,
};

verus! {

/// The fields of a control request that the DFU interface reads.
#[derive(Clone, Copy, Debug, PartialEq, Eq, Structural)]
pub struct ControlRequest {
    /// The request is of type Class and its recipient is an interface.
    pub class_interface: bool,
    /// `bRequest`.
    pub request: u8,
    /// `wValue`: for DFU_DNLOAD, the block number.
    pub value: u16,
    /// `wLength`: the length of the data stage.
    pub length: u16,
}

/// How an OUT request that this interface handles is answered.
#[derive(Clone, Copy, Debug, PartialEq, Eq, Structural)]
pub enum OutResponse {
    Accepted,
    Rejected,
}

/// The protocol-visible part of the interface: phase, last status, and write offset.
#[derive(Clone, Copy, Debug, PartialEq, Eq, Structural)]
pub struct Progress {
    pub state: State,
    pub status: Status,
    pub offset: usize,
}

/// What the owner of the storage must do to finish an OUT request.
#[derive(Clone, Copy, Debug, PartialEq, Eq, Structural)]
pub enum OutAction {
    /// The request is not for this interface: leave it to other handlers.
    NotHandled,
    /// Nothing more to do: answer with this response.
    Respond(OutResponse),
    /// Write the staged chunk of `len` bytes at `offset`, then report the result.
    WriteChunk { offset: usize, len: usize },
    /// Mark the received image as complete, then report the result.
    MarkComplete,
}

/// How an IN request that this interface handles is answered.
#[derive(Clone, Debug, PartialEq, Eq)]
pub enum InReply {
    /// Accepted, with these bytes as the data stage.
    Accepted(Vec<u8>),
    Rejected,
}

/// The answer to an IN request, and whether the device must be reset first.
#[derive(Clone, Debug, PartialEq, Eq)]
pub struct InStep {
    pub reset: bool,
    pub reply: Option<InReply>,
}

/// An IN answer as values: `None` when not handled, `Some(None)` when rejected,
/// `Some(Some(bytes))` when accepted with `bytes`.
pub open spec fn reply_view(r: Option<InReply>) -> Option<Option<Seq<u8>>> {
    match r {
        None => None,
        Some(InReply::Rejected) => Some(None),
        Some(InReply::Accepted(v)) => Some(Some(v@)),
    }
}

/// The state after ABORT or CLRSTATUS, and at start.
pub open spec fn idle() -> Progress {
    Progress { state: State::DfuIdle, status: Status::Success, offset: 0 }
}

/// A DFU_DNLOAD with block number 0 starts a new transfer at offset 0.
pub open spec fn dnload_start(p: Progress, value: u16) -> Progress {
    if value == 0 {
        Progress { state: State::Download, status: p.status, offset: 0 }
    } else {
        p
    }
}

/// The state after a protocol violation, keeping the offset.
pub open spec fn violation(p: Progress) -> Progress {
    Progress { state: State::Error, status: Status::ErrUnknown, offset: p.offset }
}

/// The decision on an OUT request carrying `len` bytes: the state before any
/// storage call, and what is left to do.
pub open spec fn out_decision(
    attrs: DfuAttributes,
    block_size: usize,
    p: Progress,
    req: ControlRequest,
    len: usize,
) -> (Progress, OutAction) {
    if !req.class_interface {
        (p, OutAction::NotHandled)
    } else {
        match request_of(req.request) {
            Some(Request::Abort) => (idle(), OutAction::Respond(OutResponse::Accepted)),
            Some(Request::ClrStatus) => (idle(), OutAction::Respond(OutResponse::Accepted)),
            Some(Request::Detach) => (p, OutAction::Respond(OutResponse::Accepted)),
            Some(Request::Dnload) => {
                if !attrs.has(CAN_DOWNLOAD) {
                    (p, OutAction::NotHandled)
                } else {
                    let q = dnload_start(p, req.value);
                    if q.state != State::Download || len > block_size {
                        (violation(q), OutAction::Respond(OutResponse::Accepted))
                    } else if req.length == 0 {
                        (q, OutAction::MarkComplete)
                    } else {
                        (q, OutAction::WriteChunk { offset: q.offset, len })
                    }
                }
            },
            _ => (p, OutAction::NotHandled),
        }
    }
}

/// The state once the writer has answered a chunk write of `len` bytes. An offset
/// that would pass the end of the address space is reported as an address error.
pub open spec fn after_write(p: Progress, len: usize, r: Result<(), WriteError>) -> Progress {
    match r {
        Ok(()) => if p.offset + len <= usize::MAX {
            Progress { state: State::DlSync, status: Status::Success, offset: (p.offset + len) as usize }
        } else {
            Progress { state: State::Error, status: Status::ErrAddress, offset: p.offset }
        },
        Err(e) => Progress { state: State::Error, status: status_of(e), offset: p.offset },
    }
}

/// The state once the writer has answered the request to mark the image complete.
pub open spec fn after_complete(p: Progress, r: Result<(), WriteError>) -> Progress {
    match r {
        Ok(()) => Progress { state: State::ManifestSync, status: Status::Success, offset: p.offset },
        Err(e) => Progress { state: State::Error, status: status_of(e), offset: p.offset },
    }
}

/// The six bytes that DFU_GETSTATUS returns in state `p`.
pub open spec fn status_record(p: Progress) -> Seq<u8> {
    seq![status_code(p.status), POLL_TIMEOUT_MS, 0u8, 0u8, state_code(p.state), 0u8]
}

/// The state after an IN request.
pub open spec fn in_next(p: Progress, req: ControlRequest) -> Progress {
    if req.class_interface && request_of(req.request) == Some(Request::GetStatus)
        && p.state == State::DlSync {
        Progress { state: State::Download, status: p.status, offset: p.offset }
    } else {
        p
    }
}

/// Whether an IN request must reset the device.
pub open spec fn in_resets(p: Progress, req: ControlRequest) -> bool {
    req.class_interface && request_of(req.request) == Some(Request::GetStatus)
        && p.state == State::ManifestSync
}

/// The answer to an IN request, as values.
pub open spec fn in_answer(attrs: DfuAttributes, p: Progress, req: ControlRequest) -> Option<
    Option<Seq<u8>>,
> {
    if !req.class_interface {
        None
    } else {
        match request_of(req.request) {
            Some(Request::GetStatus) => Some(Some(status_record(in_next(p, req)))),
            Some(Request::GetState) => Some(Some(seq![state_code(p.state)])),
            Some(Request::Upload) => if attrs.has(CAN_UPLOAD) {
                Some(None)
            } else {
                None
            },
            _ => None,
        }
    }
}

/// The DFU control state machine with its staging buffer of one block, without
/// the storage it drives.
pub struct Machine {
    attrs: DfuAttributes,
    block_size: usize,
    progress: Progress,
    buf: Vec<u8>,
}

impl Machine {
    /// The capability set, fixed at construction.
    pub closed spec fn spec_attrs(&self) -> DfuAttributes {
        self.attrs
    }

    /// The largest chunk accepted, fixed at construction.
    pub closed spec fn spec_block_size(&self) -> usize {
        self.block_size
    }

    /// Phase, status and offset.
    pub closed spec fn spec_progress(&self) -> Progress {
        self.progress
    }

    /// The staging buffer.
    pub closed spec fn spec_buffer(&self) -> Seq<u8> {
        self.buf@
    }

    /// The staging buffer holds exactly one block.
    pub closed spec fn wf(&self) -> bool {
        self.buf@.len() == self.block_size
    }

    /// A machine in dfuIDLE with status OK and offset 0.
    pub fn new(attrs: DfuAttributes, block_size: usize) -> (r: Machine)
        ensures
            r.spec_attrs() == attrs,
            r.spec_block_size() == block_size,
            r.spec_progress() == idle(),
            r.spec_buffer() == Seq::new(block_size as nat, |i: int| 0u8),
            r.wf(),
    {
        let mut buf: Vec<u8> = Vec::new();
        let mut i: usize = 0;
        while i < block_size
            invariant
                i <= block_size,
                buf@ == Seq::new(i as nat, |k: int| 0u8),
            decreases block_size - i,
        {
            buf.push(0u8);
            i = i + 1;
            assert(buf@ =~= Seq::new(i as nat, |k: int| 0u8));
        }
        Machine {
            attrs,
            block_size,
            progress: Progress { state: State::DfuIdle, status: Status::Success, offset: 0 },
            buf,
        }
    }

    /// The staging buffer: the chunk to write is at its front.
    pub fn buffer(&self) -> (r: &[u8])
        ensures
            r@ == self.spec_buffer(),
    {
        self.buf.as_slice()
    }

    /// Copies `data` to the front of the staging buffer.
    fn stage(&mut self, data: &[u8])
        requires
            data@.len() <= old(self).buf@.len(),
        ensures
            final(self).buf@.len() == old(self).buf@.len(),
            final(self).buf@.subrange(0, data@.len() as int) == data@,
            final(self).attrs == old(self).attrs,
            final(self).block_size == old(self).block_size,
            final(self).progress == old(self).progress,
    {
        let mut i: usize = 0;
        while i < data.len()
            invariant
                i <= data@.len(),
                data@.len() <= self.buf@.len(),
                self.buf@.len() == old(self).buf@.len(),
                self.attrs == old(self).attrs,
                self.block_size == old(self).block_size,
                self.progress == old(self).progress,
                forall|j: int| 0 <= j < i ==> self.buf@[j] == data@[j],
            decreases data@.len() - i,
        {
            self.buf.set(i, data[i]);
            i = i + 1;
        }
        assert(self.buf@.subrange(0, data@.len() as int) =~= data@);
    }

    pub fn attrs(&self) -> (r: DfuAttributes)
        ensures
            r == self.spec_attrs(),
    {
        self.attrs
    }

    pub fn block_size(&self) -> (r: usize)
        ensures
            r == self.spec_block_size(),
    {
        self.block_size
    }

    pub fn progress(&self) -> (r: Progress)
        ensures
            r == self.spec_progress(),
    {
        self.progress
    }

    pub fn state(&self) -> (r: State)
        ensures
            r == self.spec_progress().state,
    {
        self.progress.state
    }

    pub fn status(&self) -> (r: Status)
        ensures
            r == self.spec_progress().status,
    {
        self.progress.status
    }

    pub fn offset(&self) -> (r: usize)
        ensures
            r == self.spec_progress().offset,
    {
        self.progress.offset
    }

    /// Returns to dfuIDLE with status OK and offset 0.
    fn reset_state(&mut self)
        ensures
            final(self).progress == idle(),
            final(self).buf == old(self).buf,
            final(self).attrs == old(self).attrs,
            final(self).block_size == old(self).block_size,
    {
        self.progress.offset = 0;
        self.progress.state = State::DfuIdle;
        self.progress.status = Status::Success;
    }

    /// Takes an OUT request carrying `data`: applies what it decides before any
    /// storage call, stages the data when storage is to be called, and returns
    /// what is left to do.
    pub fn out_request(&mut self, req: &ControlRequest, data: &[u8]) -> (a: OutAction)
        requires
            old(self).wf(),
        ensures
            (final(self).spec_progress(), a) == out_decision(
                old(self).spec_attrs(),
                old(self).spec_block_size(),
                old(self).spec_progress(),
                *req,
                data@.len() as usize,
            ),
            final(self).spec_attrs() == old(self).spec_attrs(),
            final(self).spec_block_size() == old(self).spec_block_size(),
            final(self).wf(),
            a is WriteChunk || a is MarkComplete ==> final(self).spec_buffer().subrange(
                0,
                data@.len() as int,
            ) == data@,
            !(a is WriteChunk || a is MarkComplete) ==> final(self).spec_buffer()
                == old(self).spec_buffer(),
    {
        let len = data.len();
        if !req.class_interface {
            return OutAction::NotHandled;
        }
        match Request::from_code(req.request) {
            Some(Request::Abort) | Some(Request::ClrStatus) => {
                self.reset_state();
                OutAction::Respond(OutResponse::Accepted)
            },
            Some(Request::Detach) => OutAction::Respond(OutResponse::Accepted),
            Some(Request::Dnload) => {
                if !self.attrs.contains(CAN_DOWNLOAD) {
                    return OutAction::NotHandled;
                }
                if req.value == 0 {
                    self.progress.state = State::Download;
                    self.progress.offset = 0;
                }
                if self.progress.state != State::Download || len > self.block_size {
                    self.progress.status = Status::ErrUnknown;
                    self.progress.state = State::Error;
                    return OutAction::Respond(OutResponse::Accepted);
                }
                self.stage(data);
                if req.length == 0 {
                    OutAction::MarkComplete
                } else {
                    OutAction::WriteChunk { offset: self.progress.offset, len }
                }
            },
            _ => OutAction::NotHandled,
        }
    }

    /// Records the writer's answer to a chunk write of `len` bytes.
    pub fn write_done(&mut self, len: usize, r: Result<(), WriteError>)
        requires
            old(self).wf(),
        ensures
            final(self).wf(),
            final(self).spec_buffer() == old(self).spec_buffer(),
            final(self).spec_progress() == after_write(old(self).spec_progress(), len, r),
            final(self).spec_attrs() == old(self).spec_attrs(),
            final(self).spec_block_size() == old(self).spec_block_size(),
    {
        match r {
            Ok(()) => {
                if len <= usize::MAX - self.progress.offset {
                    self.progress.status = Status::Success;
                    self.progress.state = State::DlSync;
                    self.progress.offset = self.progress.offset + len;
                } else {
                    self.progress.state = State::Error;
                    self.progress.status = Status::ErrAddress;
                }
            },
            Err(e) => {
                self.progress.state = State::Error;
                self.progress.status = Status::from(e);
            },
        }
    }

    /// Records the writer's answer to the request to mark the image complete.
    pub fn complete_done(&mut self, r: Result<(), WriteError>)
        requires
            old(self).wf(),
        ensures
            final(self).wf(),
            final(self).spec_buffer() == old(self).spec_buffer(),
            final(self).spec_progress() == after_complete(old(self).spec_progress(), r),
            final(self).spec_attrs() == old(self).spec_attrs(),
            final(self).spec_block_size() == old(self).spec_block_size(),
    {
        match r {
            Ok(()) => {
                self.progress.status = Status::Success;
                self.progress.state = State::ManifestSync;
            },
            Err(e) => {
                self.progress.state = State::Error;
                self.progress.status = Status::from(e);
            },
        }
    }

    /// Takes an IN request: applies its side effect on the state and returns the
    /// answer, with whether the device must be reset before it is sent.
    pub fn in_request(&mut self, req: &ControlRequest) -> (r: InStep)
        requires
            old(self).wf(),
        ensures
            final(self).wf(),
            final(self).spec_buffer() == old(self).spec_buffer(),
            final(self).spec_progress() == in_next(old(self).spec_progress(), *req),
            r.reset == in_resets(old(self).spec_progress(), *req),
            reply_view(r.reply) == in_answer(old(self).spec_attrs(), old(self).spec_progress(), *req),
            final(self).spec_attrs() == old(self).spec_attrs(),
            final(self).spec_block_size() == old(self).spec_block_size(),
    {
        if !req.class_interface {
            return InStep { reset: false, reply: None };
        }
        match Request::from_code(req.request) {
            Some(Request::GetStatus) => {
                let reset = self.progress.state == State::ManifestSync;
                if self.progress.state == State::DlSync {
                    self.progress.state = State::Download;
                }
                let mut v: Vec<u8> = Vec::new();
                v.push(self.progress.status.code());
                v.push(POLL_TIMEOUT_MS);
                v.push(0u8);
                v.push(0u8);
                v.push(self.progress.state.code());
                v.push(0u8);
                assert(v@ =~= status_record(self.progress));
                InStep { reset, reply: Some(InReply::Accepted(v)) }
            },
            Some(Request::GetState) => {
                let mut v: Vec<u8> = Vec::new();
                v.push(self.progress.state.code());
                assert(v@ =~= seq![state_code(self.progress.state)]);
                InStep { reset: false, reply: Some(InReply::Accepted(v)) }
            },
            Some(Request::Upload) => {
                if self.attrs.contains(CAN_UPLOAD) {
                    InStep { reset: false, reply: Some(InReply::Rejected) }
                } else {
                    InStep { reset: false, reply: None }
                }
            },
            _ => InStep { reset: false, reply: None },
        }
    }
}

} // verus!
