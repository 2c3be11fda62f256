use usb_dfu::consts::{
    DfuAttributes, FlashErrorKind, Request, State, Status, WriteError, CAN_DOWNLOAD, CAN_UPLOAD,
    REQ_ABORT, REQ_CLRSTATUS, REQ_DETACH, REQ_DNLOAD, REQ_GETSTATE, REQ_GETSTATUS, REQ_UPLOAD,
};
use usb_dfu::descriptor::functional_descriptor;
use usb_dfu::machine::{ControlRequest, InReply, Machine, OutAction, OutResponse};

fn req(request: u8, value: u16, length: u16) -> ControlRequest {
    ControlRequest { class_interface: true, request, value, length }
}

fn download_machine(block_size: usize) -> Machine {
    Machine::new(DfuAttributes::from_bits(CAN_DOWNLOAD), block_size)
}

/// Brings a machine to dfuDNLOAD-SYNC at `offset` 64 by one written chunk.
fn after_first_chunk() -> Machine {
    let mut m = download_machine(64);
    let data = [0xabu8; 64];
    let a = m.out_request(&req(REQ_DNLOAD, 0, 64), &data);
    assert_eq!(a, OutAction::WriteChunk { offset: 0, len: 64 });
    m.write_done(64, Ok(()));
    m
}

#[test]
fn end_to_end_download_then_reset() {
    let mut m = download_machine(64);
    let data: Vec<u8> = (0..64u8).collect();
    let a = m.out_request(&req(REQ_DNLOAD, 0, 64), &data);
    assert_eq!(a, OutAction::WriteChunk { offset: 0, len: 64 });
    assert_eq!(&m.buffer()[..64], &data[..]);
    m.write_done(64, Ok(()));
    assert_eq!(m.state(), State::DlSync);
    assert_eq!(m.offset(), 64);

    let s = m.in_request(&req(REQ_GETSTATUS, 0, 6));
    assert!(!s.reset);
    assert_eq!(m.state(), State::Download);
    assert_eq!(s.reply, Some(InReply::Accepted(vec![0x00, 0x32, 0x00, 0x00, 5, 0x00])));

    let a = m.out_request(&req(REQ_DNLOAD, 1, 0), &[]);
    assert_eq!(a, OutAction::MarkComplete);
    m.complete_done(Ok(()));
    assert_eq!(m.state(), State::ManifestSync);
    assert_eq!(m.status(), Status::Success);

    let s = m.in_request(&req(REQ_GETSTATUS, 0, 6));
    assert!(s.reset);
}

#[test]
fn abort_and_clear_return_to_idle() {
    let mut m = after_first_chunk();
    m.out_request(&req(REQ_DNLOAD, 3, 8), &[1, 2, 3]);
    assert_eq!(m.state(), State::Error);
    let a = m.out_request(&req(REQ_ABORT, 0, 0), &[]);
    assert_eq!(a, OutAction::Respond(OutResponse::Accepted));
    let a = m.out_request(&req(REQ_CLRSTATUS, 0, 0), &[]);
    assert_eq!(a, OutAction::Respond(OutResponse::Accepted));
    assert_eq!(m.state(), State::DfuIdle);
    assert_eq!(m.status(), Status::Success);
    assert_eq!(m.offset(), 0);
}

#[test]
fn clear_status_leaves_error() {
    let mut m = after_first_chunk();
    m.write_done(4, Err(WriteError::BadState));
    assert_eq!(m.state(), State::Error);
    m.out_request(&req(REQ_CLRSTATUS, 0, 0), &[]);
    assert_eq!(m.state(), State::DfuIdle);
    assert_eq!(m.status(), Status::Success);
    assert_eq!(m.offset(), 0);
}

#[test]
fn block_zero_restarts_offset() {
    let mut m = after_first_chunk();
    m.in_request(&req(REQ_GETSTATUS, 0, 6));
    assert_eq!(m.offset(), 64);
    let a = m.out_request(&req(REQ_DNLOAD, 0, 16), &[7u8; 16]);
    assert_eq!(a, OutAction::WriteChunk { offset: 0, len: 16 });
    assert_eq!(m.offset(), 0);
    m.write_done(16, Ok(()));
    assert_eq!(m.offset(), 16);
}

#[test]
fn dnload_while_awaiting_status_is_violation() {
    let mut m = after_first_chunk();
    let a = m.out_request(&req(REQ_DNLOAD, 1, 4), &[1, 2, 3, 4]);
    assert_eq!(a, OutAction::Respond(OutResponse::Accepted));
    assert_eq!(m.state(), State::Error);
    assert_eq!(m.status(), Status::ErrUnknown);
    assert_eq!(m.offset(), 64);
}

#[test]
fn dnload_from_idle_without_block_zero_is_violation() {
    let mut m = download_machine(64);
    let a = m.out_request(&req(REQ_DNLOAD, 2, 4), &[1, 2, 3, 4]);
    assert_eq!(a, OutAction::Respond(OutResponse::Accepted));
    assert_eq!(m.state(), State::Error);
    assert_eq!(m.status(), Status::ErrUnknown);
}

#[test]
fn oversized_chunk_is_violation() {
    let mut m = download_machine(8);
    let a = m.out_request(&req(REQ_DNLOAD, 0, 9), &[0u8; 9]);
    assert_eq!(a, OutAction::Respond(OutResponse::Accepted));
    assert_eq!(m.state(), State::Error);
    assert_eq!(m.status(), Status::ErrUnknown);
    assert_eq!(m.offset(), 0);
}

#[test]
fn chunk_of_exactly_one_block_is_written() {
    let mut m = download_machine(8);
    let a = m.out_request(&req(REQ_DNLOAD, 0, 8), &[5u8; 8]);
    assert_eq!(a, OutAction::WriteChunk { offset: 0, len: 8 });
}

#[test]
fn chunks_advance_offset_by_length() {
    let mut m = after_first_chunk();
    m.in_request(&req(REQ_GETSTATUS, 0, 6));
    let a = m.out_request(&req(REQ_DNLOAD, 1, 10), &[9u8; 10]);
    assert_eq!(a, OutAction::WriteChunk { offset: 64, len: 10 });
    assert_eq!(&m.buffer()[..10], &[9u8; 10][..]);
    assert_eq!(m.buffer().len(), 64);
    m.write_done(10, Ok(()));
    assert_eq!(m.state(), State::DlSync);
    assert_eq!(m.status(), Status::Success);
    assert_eq!(m.offset(), 74);
}

#[test]
fn get_status_in_download_sync_resumes_download() {
    let mut m = after_first_chunk();
    let s = m.in_request(&req(REQ_GETSTATUS, 0, 6));
    assert_eq!(m.state(), State::Download);
    assert_eq!(s.reply, Some(InReply::Accepted(vec![0x00, 0x32, 0x00, 0x00, 5, 0x00])));
    assert!(!s.reset);
}

#[test]
fn failed_mark_complete_reports_verify_error() {
    let mut m = after_first_chunk();
    m.in_request(&req(REQ_GETSTATUS, 0, 6));
    let a = m.out_request(&req(REQ_DNLOAD, 2, 0), &[]);
    assert_eq!(a, OutAction::MarkComplete);
    m.complete_done(Err(WriteError::Signature));
    assert_eq!(m.state(), State::Error);
    assert_eq!(m.status(), Status::ErrVerify);
    let s = m.in_request(&req(REQ_GETSTATUS, 0, 6));
    assert!(!s.reset);
    assert_eq!(s.reply, Some(InReply::Accepted(vec![0x07, 0x32, 0x00, 0x00, 10, 0x00])));
}

#[test]
fn failed_writes_map_to_status() {
    let cases = [
        (WriteError::Flash(FlashErrorKind::NotAligned), Status::ErrWrite),
        (WriteError::Flash(FlashErrorKind::OutOfBounds), Status::ErrAddress),
        (WriteError::Flash(FlashErrorKind::Other), Status::ErrUnknown),
        (WriteError::Signature, Status::ErrVerify),
        (WriteError::BadState, Status::ErrUnknown),
    ];
    for (e, st) in cases {
        assert_eq!(Status::from(e), st);
        let mut m = after_first_chunk();
        m.in_request(&req(REQ_GETSTATUS, 0, 6));
        m.out_request(&req(REQ_DNLOAD, 1, 4), &[1, 2, 3, 4]);
        m.write_done(4, Err(e));
        assert_eq!(m.state(), State::Error);
        assert_eq!(m.status(), st);
        assert_eq!(m.offset(), 64);
    }
}

#[test]
fn offset_past_address_space_is_address_error() {
    let mut m = after_first_chunk();
    m.write_done(usize::MAX, Ok(()));
    assert_eq!(m.state(), State::Error);
    assert_eq!(m.status(), Status::ErrAddress);
    assert_eq!(m.offset(), 64);
}

#[test]
fn manifest_poll_triggers_reset_once() {
    let mut m = download_machine(64);
    m.out_request(&req(REQ_DNLOAD, 0, 0), &[]);
    m.complete_done(Ok(()));
    let s = m.in_request(&req(REQ_GETSTATE, 0, 1));
    assert!(!s.reset);
    assert_eq!(s.reply, Some(InReply::Accepted(vec![6])));
    let s = m.in_request(&req(REQ_GETSTATUS, 0, 6));
    assert!(s.reset);
    assert_eq!(s.reply, Some(InReply::Accepted(vec![0x00, 0x32, 0x00, 0x00, 6, 0x00])));
}

#[test]
fn upload_rejected_only_when_claimed() {
    let mut m = Machine::new(DfuAttributes::from_bits(CAN_DOWNLOAD | CAN_UPLOAD), 64);
    let s = m.in_request(&req(REQ_UPLOAD, 0, 64));
    assert_eq!(s.reply, Some(InReply::Rejected));
    let mut m = download_machine(64);
    let s = m.in_request(&req(REQ_UPLOAD, 0, 64));
    assert_eq!(s.reply, None);
    assert_eq!(m.state(), State::DfuIdle);
}

#[test]
fn dnload_unhandled_without_capability() {
    let mut m = Machine::new(DfuAttributes::from_bits(0), 64);
    let a = m.out_request(&req(REQ_DNLOAD, 0, 4), &[1, 2, 3, 4]);
    assert_eq!(a, OutAction::NotHandled);
    assert_eq!(m.state(), State::DfuIdle);
}

#[test]
fn other_scopes_are_not_handled() {
    let mut m = after_first_chunk();
    let r = ControlRequest { class_interface: false, request: REQ_ABORT, value: 0, length: 0 };
    assert_eq!(m.out_request(&r, &[]), OutAction::NotHandled);
    assert_eq!(m.state(), State::DlSync);
    let r = ControlRequest { class_interface: false, request: REQ_GETSTATUS, value: 0, length: 6 };
    let s = m.in_request(&r);
    assert_eq!(s.reply, None);
    assert_eq!(m.state(), State::DlSync);
    assert_eq!(m.out_request(&req(9, 0, 0), &[]), OutAction::NotHandled);
    assert_eq!(m.in_request(&req(REQ_DNLOAD, 0, 0)).reply, None);
}

#[test]
fn detach_is_accepted_and_changes_nothing() {
    let mut m = after_first_chunk();
    let a = m.out_request(&req(REQ_DETACH, 0, 0), &[]);
    assert_eq!(a, OutAction::Respond(OutResponse::Accepted));
    assert_eq!(m.state(), State::DlSync);
    assert_eq!(m.offset(), 64);
}

#[test]
fn get_state_reports_idle_code() {
    let mut m = download_machine(64);
    let s = m.in_request(&req(REQ_GETSTATE, 0, 1));
    assert_eq!(s.reply, Some(InReply::Accepted(vec![2])));
}

#[test]
fn request_codes_decode() {
    assert_eq!(Request::from_code(0), Some(Request::Detach));
    assert_eq!(Request::from_code(1), Some(Request::Dnload));
    assert_eq!(Request::from_code(2), Some(Request::Upload));
    assert_eq!(Request::from_code(3), Some(Request::GetStatus));
    assert_eq!(Request::from_code(4), Some(Request::ClrStatus));
    assert_eq!(Request::from_code(5), Some(Request::GetState));
    assert_eq!(Request::from_code(6), Some(Request::Abort));
    assert_eq!(Request::from_code(7), None);
}

#[test]
fn functional_descriptor_layout() {
    let d = functional_descriptor(DfuAttributes::from_bits(CAN_DOWNLOAD), 0x0140);
    assert_eq!(d, vec![0x01, 0xc4, 0x09, 0x40, 0x01, 0x10, 0x01]);
    let d = functional_descriptor(DfuAttributes::from_bits(CAN_DOWNLOAD | CAN_UPLOAD), 64);
    assert_eq!(d, vec![0x03, 0xc4, 0x09, 64, 0x00, 0x10, 0x01]);
}

#[test]
fn new_machine_starts_idle() {
    let m = download_machine(32);
    assert_eq!(m.state(), State::DfuIdle);
    assert_eq!(m.status(), Status::Success);
    assert_eq!(m.offset(), 0);
    assert_eq!(m.block_size(), 32);
    assert_eq!(m.buffer(), &[0u8; 32][..]);
    assert!(m.attrs().contains(CAN_DOWNLOAD));
    assert!(!m.attrs().contains(CAN_UPLOAD));
}
