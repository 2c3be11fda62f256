use vstd::prelude::*;
use crate::consts::{request_of, status_of, DfuAttributes, Request, State, Status, WriteError, CAN_DOWNLOAD, CAN_UPLOAD};
use crate::machine::{
    after_complete, after_write, idle, in_answer, in_next, in_resets, out_decision,
    ControlRequest, OutAction, OutResponse, Progress,
};

verus! {

/// A class request to this interface with the given request code.
pub open spec fn is_request(req: ControlRequest, r: Request) -> bool {
    req.class_interface && request_of(req.request) == Some(r)
}

/// DFU_ABORT or DFU_CLRSTATUS, addressed to this interface.
pub open spec fn is_abort_or_clear(req: ControlRequest) -> bool {
    is_request(req, Request::Abort) || is_request(req, Request::ClrStatus)
}

/// The state after a run of OUT requests that call no storage, each with its data length.
pub open spec fn run_out(
    attrs: DfuAttributes,
    block_size: usize,
    p: Progress,
    reqs: Seq<(ControlRequest, usize)>,
) -> Progress
    decreases reqs.len(),
{
    if reqs.len() == 0 {
        p
    } else {
        let prev = run_out(attrs, block_size, p, reqs.drop_last());
        out_decision(attrs, block_size, prev, reqs.last().0, reqs.last().1).0
    }
}

/// Any non-empty run of ABORT and CLRSTATUS requests, from any state, ends in
/// dfuIDLE with status OK and offset 0, each request being accepted.
pub proof fn aborts_return_to_idle(
    attrs: DfuAttributes,
    block_size: usize,
    p: Progress,
    reqs: Seq<(ControlRequest, usize)>,
)
    requires
        reqs.len() > 0,
        forall|i: int| 0 <= i < reqs.len() ==> is_abort_or_clear(#[trigger] reqs[i].0),
    ensures
        run_out(attrs, block_size, p, reqs) == idle(),
        forall|q: Progress, i: int|
            0 <= i < reqs.len() ==> #[trigger] out_decision(attrs, block_size, q, reqs[i].0, reqs[i].1)
                == (idle(), OutAction::Respond(OutResponse::Accepted)),
{
    assert(is_abort_or_clear(reqs[reqs.len() - 1].0));
}

/// DFU_DNLOAD with block number 0 restarts the transfer at offset 0, whatever
/// the offset was; a chunk it carries is written at offset 0.
pub proof fn dnload_block_zero_restarts(
    attrs: DfuAttributes,
    block_size: usize,
    p: Progress,
    req: ControlRequest,
    len: usize,
)
    requires
        is_request(req, Request::Dnload),
        attrs.has(CAN_DOWNLOAD),
        req.value == 0,
    ensures
        out_decision(attrs, block_size, p, req, len).0.offset == 0,
        out_decision(attrs, block_size, p, req, len).1 is WriteChunk ==> out_decision(
            attrs,
            block_size,
            p,
            req,
            len,
        ).1->offset == 0,
        len <= block_size ==> out_decision(attrs, block_size, p, req, len).0.state == State::Download,
{
}

/// DFU_DNLOAD with a block number other than 0 outside dfuDNLOAD-IDLE is a
/// protocol violation: dfuERROR with errUNKNOWN, and the transfer is accepted.
pub proof fn dnload_out_of_sequence_errors(
    attrs: DfuAttributes,
    block_size: usize,
    p: Progress,
    req: ControlRequest,
    len: usize,
)
    requires
        is_request(req, Request::Dnload),
        attrs.has(CAN_DOWNLOAD),
        req.value != 0,
        p.state != State::Download,
    ensures
        out_decision(attrs, block_size, p, req, len) == (
            Progress { state: State::Error, status: Status::ErrUnknown, offset: p.offset },
            OutAction::Respond(OutResponse::Accepted),
        ),
{
}

/// DFU_DNLOAD with more data than one block is a protocol violation:
/// dfuERROR with errUNKNOWN, and no storage is called.
pub proof fn dnload_oversized_errors(
    attrs: DfuAttributes,
    block_size: usize,
    p: Progress,
    req: ControlRequest,
    len: usize,
)
    requires
        is_request(req, Request::Dnload),
        attrs.has(CAN_DOWNLOAD),
        len > block_size,
    ensures
        out_decision(attrs, block_size, p, req, len).0.state == State::Error,
        out_decision(attrs, block_size, p, req, len).0.status == Status::ErrUnknown,
        out_decision(attrs, block_size, p, req, len).1 == OutAction::Respond(OutResponse::Accepted),
{
}

/// A chunk of `len` bytes that is written successfully moves the offset on by
/// exactly `len` and leaves the interface in dfuDNLOAD-SYNC with status OK.
pub proof fn written_chunk_advances_offset(
    attrs: DfuAttributes,
    block_size: usize,
    p: Progress,
    req: ControlRequest,
    len: usize,
)
    requires
        out_decision(attrs, block_size, p, req, len).1 is WriteChunk,
        out_decision(attrs, block_size, p, req, len).0.offset + len <= usize::MAX,
    ensures
        ({
            let (q, a) = out_decision(attrs, block_size, p, req, len);
            &&& a->len == len
            &&& a->offset == q.offset
            &&& req.value != 0 ==> q.offset == p.offset
            &&& after_write(q, len, Ok(())) == Progress {
                state: State::DlSync,
                status: Status::Success,
                offset: (a->offset + len) as usize,
            }
        }),
{
}

/// DFU_GETSTATUS in dfuDNLOAD-SYNC moves the interface to dfuDNLOAD-IDLE,
/// keeping status and offset.
pub proof fn get_status_resumes_download(p: Progress, req: ControlRequest)
    requires
        is_request(req, Request::GetStatus),
        p.state == State::DlSync,
    ensures
        in_next(p, req) == (Progress { state: State::Download, status: p.status, offset: p.offset }),
        !in_resets(p, req),
{
}

/// An empty DFU_DNLOAD in dfuDNLOAD-IDLE (or starting a transfer) asks to mark
/// the image complete; success leads to dfuMANIFEST-SYNC with status OK, a failure
/// to dfuERROR with the mapped status.
pub proof fn final_transfer_marks_complete(
    attrs: DfuAttributes,
    block_size: usize,
    p: Progress,
    req: ControlRequest,
    len: usize,
    e: WriteError,
)
    requires
        is_request(req, Request::Dnload),
        attrs.has(CAN_DOWNLOAD),
        req.value == 0 || p.state == State::Download,
        req.length == 0,
        len <= block_size,
    ensures
        ({
            let (q, a) = out_decision(attrs, block_size, p, req, len);
            &&& a == OutAction::MarkComplete
            &&& after_complete(q, Ok(())).state == State::ManifestSync
            &&& after_complete(q, Ok(())).status == Status::Success
            &&& after_complete(q, Err(e)).state == State::Error
            &&& after_complete(q, Err(e)).status == status_of(e)
        }),
{
}

/// DFU_GETSTATUS in dfuMANIFEST-SYNC resets the device, once for that request;
/// no other request, and no other state, does.
pub proof fn manifest_poll_resets(p: Progress, req: ControlRequest)
    ensures
        in_resets(p, req) <==> (is_request(req, Request::GetStatus) && p.state == State::ManifestSync),
{
}

/// DFU_UPLOAD is rejected when the attributes claim it and left unhandled when
/// they do not; either way nothing changes.
pub proof fn upload_never_served(attrs: DfuAttributes, p: Progress, req: ControlRequest)
    requires
        is_request(req, Request::Upload),
    ensures
        attrs.has(CAN_UPLOAD) ==> in_answer(attrs, p, req) == Some(None::<Seq<u8>>),
        !attrs.has(CAN_UPLOAD) ==> in_answer(attrs, p, req) is None,
        in_next(p, req) == p,
        !in_resets(p, req),
{
}

} // verus!
