//! End-to-end scenarios against the mock device: queue depth 8, LBA size
//! 512 throughout.

use nvme_core::ctrl::{CtrlState, NvmeCtrl, DRIVER_RESERVED_MEM};
use nvme_core::device::{DeviceModel, NsModel};
use nvme_core::identify::NvmeIdCtrl;
use nvme_core::status::IoStatus;
use nvme_core::wire::build_io_rw;
use nvme_core::wire::CMD_WRITE;

const BUF_A: u64 = 4096;
const BUF_B: u64 = 16384;

/// A mock device: capability max-entries 255, doorbell-stride 0, timeout
/// 20, page-shift-min 0; one zero-filling namespace of 512-byte blocks and
/// one that keeps its bytes on deallocate.
fn mock_device() -> DeviceModel {
    let ident = NvmeIdCtrl {
        sn: b"SERIAL0123456789ABCD".to_vec(),
        mn: b"MOCK DEVICE X1                          ".to_vec(),
        fr: b"FW1.0   ".to_vec(),
        mdts: 1,
        nn: 2,
        oncs: 0x3f,
    };
    let ns1 = NsModel::new(1, 9, 0x200, 1);
    let ns2 = NsModel::new(2, 9, 0x200, 0);
    DeviceModel::new(255, 20, 0, ident, vec![ns1, ns2], 1)
}

fn ready_controller() -> NvmeCtrl {
    let mut ctrl = NvmeCtrl::new(mock_device(), 65536, 8);
    assert_eq!(ctrl.initialize(), Ok(()));
    ctrl
}

fn fill(ctrl: &mut NvmeCtrl, addr: u64, len: usize, byte: u8) {
    for i in 0..len {
        ctrl.mem[addr as usize + i] = byte;
    }
}

#[test]
fn bind_and_identify() {
    let ctrl = ready_controller();
    assert_eq!(ctrl.state, CtrlState::Ready);
    let id = ctrl.id_ctrl.as_ref().unwrap();
    assert_eq!(&id.mn[0..14], b"MOCK DEVICE X1");
    assert!(id.nn >= 1);
    assert_eq!(ctrl.caps.mqes, 255);
    assert_eq!(ctrl.caps.dstrd, 0);
    assert_eq!(ctrl.caps.to, 20);
    assert_eq!(ctrl.caps.mpsmin, 0);
    assert_eq!(ctrl.ns_table.len(), 2);
    assert_eq!(ctrl.ns_table[0].block_size, 512);
    assert_eq!(ctrl.ns_table[0].nlbas, 0x200);
}

#[test]
fn single_write_read_roundtrip() {
    let mut ctrl = ready_controller();
    fill(&mut ctrl, BUF_A, 2048, 0xaa);
    let w = ctrl.write_data(1, 0x100, 4, BUF_A, 10);
    assert_eq!(w.kind, IoStatus::Success);
    assert_eq!(w.lbas_done, 4);
    let r = ctrl.read_data(1, 0x100, 4, BUF_B, 10);
    assert_eq!(r.kind, IoStatus::Success);
    for i in 0..2048usize {
        assert_eq!(ctrl.mem[BUF_B as usize + i], 0xaa);
    }
}

#[test]
fn write_flush_read_returns_written_bytes() {
    let mut ctrl = ready_controller();
    for i in 0..1024usize {
        ctrl.mem[BUF_A as usize + i] = (i % 251) as u8;
    }
    assert_eq!(ctrl.write_data(1, 8, 2, BUF_A, 10).kind, IoStatus::Success);
    assert_eq!(ctrl.flush(1, 10).kind, IoStatus::Success);
    assert_eq!(ctrl.read_data(1, 8, 2, BUF_B, 10).kind, IoStatus::Success);
    for i in 0..1024usize {
        assert_eq!(ctrl.mem[BUF_B as usize + i], (i % 251) as u8);
    }
}

#[test]
fn oversized_request_is_chunked_and_covers() {
    // mdts 1 with 4096-byte pages limits one command to 8192 bytes, or 16
    // blocks; 40 blocks must go out as three chunks and still cover
    let mut ctrl = ready_controller();
    for i in 0..(40 * 512usize) {
        ctrl.mem[BUF_A as usize + i] = (i % 253) as u8;
    }
    let w = ctrl.write_data(1, 0x20, 40, BUF_A, 10);
    assert_eq!(w.kind, IoStatus::Success);
    assert_eq!(w.lbas_done, 40);
    let r = ctrl.read_data(1, 0x20, 40, BUF_B, 10);
    assert_eq!(r.kind, IoStatus::Success);
    for i in 0..(40 * 512usize) {
        assert_eq!(ctrl.mem[BUF_B as usize + i], (i % 253) as u8);
    }
}

#[test]
fn trim_zeroes_range_when_feature_set() {
    let mut ctrl = ready_controller();
    fill(&mut ctrl, BUF_A, 1024, 0x5a);
    assert_eq!(ctrl.write_data(1, 0x10, 2, BUF_A, 10).kind, IoStatus::Success);
    assert_eq!(ctrl.trim(1, 0x10, 2, 10).kind, IoStatus::Success);
    assert_eq!(ctrl.read_data(1, 0x10, 2, BUF_B, 10).kind, IoStatus::Success);
    for i in 0..1024usize {
        assert_eq!(ctrl.mem[BUF_B as usize + i], 0);
    }
}

#[test]
fn trim_keeps_bytes_without_the_feature() {
    let mut ctrl = ready_controller();
    fill(&mut ctrl, BUF_A, 1024, 0x5a);
    assert_eq!(ctrl.write_data(2, 0x10, 2, BUF_A, 10).kind, IoStatus::Success);
    assert_eq!(ctrl.trim(2, 0x10, 2, 10).kind, IoStatus::Success);
    assert_eq!(ctrl.read_data(2, 0x10, 2, BUF_B, 10).kind, IoStatus::Success);
    for i in 0..1024usize {
        assert_eq!(ctrl.mem[BUF_B as usize + i], 0x5a);
    }
}

#[test]
fn ring_saturation_returns_busy_then_recovers() {
    let mut ctrl = ready_controller();
    fill(&mut ctrl, BUF_A, 512, 0x11);
    // eight writes fill the depth-8 ring
    for cid in 0..8u16 {
        let c = build_io_rw(CMD_WRITE, 1, cid as u64, 1, cid, BUF_A, 0, 0);
        assert_eq!(ctrl.submit_io_cmd(c), Ok(cid));
    }
    // the ninth must come back busy
    let ninth = build_io_rw(CMD_WRITE, 1, 8, 1, 0, BUF_A, 0, 0);
    assert_eq!(ctrl.submit_io_cmd(ninth), Err(IoStatus::Busy));
    // after one completion is reaped, the ninth succeeds
    assert!(ctrl.device_poll_io().0);
    assert_eq!(ctrl.process_completions(), 1);
    assert_eq!(ctrl.try_complete(0).unwrap().kind, IoStatus::Success);
    // the tail wrapped after eight submits, so the ninth takes slot 0
    assert_eq!(ctrl.submit_io_cmd(ninth), Ok(0));
    // drain the rest
    while ctrl.device_poll_io().0 {}
    assert!(ctrl.process_completions() >= 1);
}

#[test]
fn out_of_order_completion_both_succeed() {
    let mut ctrl = ready_controller();
    fill(&mut ctrl, BUF_A, 512, 0x21);
    fill(&mut ctrl, BUF_B, 512, 0x42);
    // two concurrent writes with command ids 1 and 2; the device takes up
    // and completes id 2's command first
    let second = build_io_rw(CMD_WRITE, 1, 0x40, 1, 2, BUF_B, 0, 0);
    let first = build_io_rw(CMD_WRITE, 1, 0x30, 1, 1, BUF_A, 0, 0);
    assert_eq!(ctrl.submit_io_cmd(second), Ok(0));
    assert_eq!(ctrl.submit_io_cmd(first), Ok(1));
    assert!(ctrl.device_poll_io().0);
    assert!(ctrl.device_poll_io().0);
    assert_eq!(ctrl.process_completions(), 2);
    // both callers observe success, whichever completed first
    assert_eq!(ctrl.try_complete(1).unwrap().kind, IoStatus::Success);
    assert_eq!(ctrl.try_complete(2).unwrap().kind, IoStatus::Success);
    // read-back of both LBAs returns the written data
    let scratch: u64 = 32768;
    assert_eq!(ctrl.read_data(1, 0x30, 1, scratch, 10).kind, IoStatus::Success);
    assert_eq!(ctrl.mem[scratch as usize], 0x21);
    assert_eq!(ctrl.read_data(1, 0x40, 1, scratch, 10).kind, IoStatus::Success);
    assert_eq!(ctrl.mem[scratch as usize], 0x42);
}

#[test]
fn timeout_aborts_and_controller_stays_ready() {
    let mut ctrl = ready_controller();
    fill(&mut ctrl, BUF_A, 512, 0x33);
    ctrl.device.set_stalled(true);
    let w = ctrl.write_data(1, 0x50, 1, BUF_A, 1);
    assert_eq!(w.kind, IoStatus::Timeout);
    // the abort went through: no fatal status, and the controller remains
    // ready for further work
    let st = ctrl.read_status_bits();
    assert!(!st.1);
    assert_eq!(ctrl.state, CtrlState::Ready);
    ctrl.device.set_stalled(false);
    assert_eq!(ctrl.write_data(1, 0x50, 1, BUF_A, 10).kind, IoStatus::Success);
}

#[test]
fn fatal_status_fails_all_in_flight() {
    let mut ctrl = ready_controller();
    fill(&mut ctrl, BUF_A, 512, 0x44);
    for cid in 1..4u16 {
        let c = build_io_rw(CMD_WRITE, 1, cid as u64, 1, cid, BUF_A, 0, 0);
        assert_eq!(ctrl.submit_io_cmd(c), Ok(cid - 1));
    }
    ctrl.device.inject_fatal();
    ctrl.process_completions();
    for cid in 1..4u16 {
        assert_eq!(ctrl.try_complete(cid).unwrap().kind, IoStatus::Fatal);
    }
    assert_eq!(ctrl.state, CtrlState::Failed);
    let more = build_io_rw(CMD_WRITE, 1, 9, 1, 5, BUF_A, 0, 0);
    assert_eq!(ctrl.submit_io_cmd(more), Err(IoStatus::Fatal));
    assert_eq!(ctrl.write_data(1, 9, 1, BUF_A, 10).kind, IoStatus::Fatal);
}

#[test]
fn phase_flips_exactly_on_wrap() {
    let mut ctrl = ready_controller();
    fill(&mut ctrl, BUF_A, 512, 0x55);
    assert_eq!(ctrl.io_q.cq_phase, 1);
    // seven completions on a depth-8 ring: no wrap yet
    for i in 0..7u64 {
        assert_eq!(ctrl.write_data(1, i, 1, BUF_A, 10).kind, IoStatus::Success);
    }
    assert_eq!(ctrl.io_q.cq_phase, 1);
    assert_eq!(ctrl.io_q.cq_head, 7);
    // the eighth wraps the completion head and flips the expected phase
    assert_eq!(ctrl.write_data(1, 7, 1, BUF_A, 10).kind, IoStatus::Success);
    assert_eq!(ctrl.io_q.cq_head, 0);
    assert_eq!(ctrl.io_q.cq_phase, 0);
    // a second lap flips it back
    for i in 0..8u64 {
        assert_eq!(ctrl.write_data(1, i, 1, BUF_A, 10).kind, IoStatus::Success);
    }
    assert_eq!(ctrl.io_q.cq_phase, 1);
}

#[test]
fn parameter_errors_are_reported_not_issued() {
    let mut ctrl = ready_controller();
    // unknown namespace
    assert_eq!(ctrl.write_data(9, 0, 1, BUF_A, 10).kind, IoStatus::Parameter);
    // zero blocks
    assert_eq!(ctrl.write_data(1, 0, 0, BUF_A, 10).kind, IoStatus::Parameter);
    // range beyond the namespace capacity
    assert_eq!(ctrl.write_data(1, 0x1ff, 2, BUF_A, 10).kind, IoStatus::Parameter);
    // buffer inside the driver-reserved region
    assert_eq!(ctrl.write_data(1, 0, 1, (DRIVER_RESERVED_MEM as u64) - 1, 10).kind,
        IoStatus::Parameter);
    // buffer beyond the host memory
    assert_eq!(ctrl.read_data(1, 0, 1, 65536, 10).kind, IoStatus::Parameter);
}

#[test]
fn shutdown_reaches_off() {
    let mut ctrl = ready_controller();
    assert_eq!(ctrl.request_shutdown(), Ok(()));
    assert_eq!(ctrl.state, CtrlState::Off);
    let st = ctrl.read_status_bits();
    assert!(st.2);
}

#[test]
fn unbind_returns_the_device() {
    let ctrl = ready_controller();
    let dev = ctrl.unbind();
    assert!(dev.shst_complete);
}

#[test]
fn identify_operations_report_geometry() {
    let mut ctrl = ready_controller();
    let id = ctrl.identify_controller().unwrap();
    assert_eq!(&id.mn[0..14], b"MOCK DEVICE X1");
    assert_eq!(id.nn, 2);
    let g = ctrl.identify_namespace(1).unwrap();
    assert_eq!(g.nsze, 0x200);
    assert_eq!(g.lba_shift, 9);
    assert_eq!(g.dlfeat, 1);
    assert!(ctrl.identify_namespace(9).is_err());
}

#[test]
fn register_window_reads_the_snapshot_registers() {
    let ctrl = ready_controller();
    let cap = ctrl.read_reg64(0x00);
    assert_eq!(cap & 0xffff, 255);
    assert_eq!((cap >> 24) & 0xff, 20);
    // the controller is enabled and ready
    let csts = ctrl.read_reg32(0x1c);
    assert_eq!(csts & 1, 1);
    let cc = ctrl.read_reg32(0x14);
    assert_eq!(cc & 1, 1);
}

#[test]
fn write_zeroes_clears_the_range() {
    let mut ctrl = ready_controller();
    fill(&mut ctrl, BUF_A, 1024, 0x77);
    assert_eq!(ctrl.write_data(1, 0x60, 2, BUF_A, 10).kind, IoStatus::Success);
    assert_eq!(ctrl.write_zeroes(1, 0x60, 2, 10).kind, IoStatus::Success);
    assert_eq!(ctrl.read_data(1, 0x60, 2, BUF_B, 10).kind, IoStatus::Success);
    for i in 0..1024usize {
        assert_eq!(ctrl.mem[BUF_B as usize + i], 0);
    }
}

#[test]
fn compare_distinguishes_matching_bytes() {
    let mut ctrl = ready_controller();
    fill(&mut ctrl, BUF_A, 512, 0x5c);
    assert_eq!(ctrl.write_data(1, 0x70, 1, BUF_A, 10).kind, IoStatus::Success);
    assert_eq!(ctrl.compare(1, 0x70, 1, BUF_A, 10).kind, IoStatus::Success);
    ctrl.mem[BUF_A as usize + 100] = 0x00;
    let r = ctrl.compare(1, 0x70, 1, BUF_A, 10);
    assert_eq!(r.kind, IoStatus::DeviceError);
    assert_eq!(r.diagnostic, 0x85);
}

#[test]
fn wait_delivers_async_results() {
    let mut ctrl = ready_controller();
    fill(&mut ctrl, BUF_A, 512, 0x66);
    let c = build_io_rw(CMD_WRITE, 1, 0x80, 1, 4, BUF_A, 0, 0);
    assert_eq!(ctrl.submit_io_cmd(c), Ok(0));
    assert_eq!(ctrl.wait(4, 5).kind, IoStatus::Success);
    // waiting on a command that never completes times out
    ctrl.device.set_stalled(true);
    let c2 = build_io_rw(CMD_WRITE, 1, 0x81, 1, 5, BUF_A, 0, 0);
    assert_eq!(ctrl.submit_io_cmd(c2), Ok(1));
    assert_eq!(ctrl.wait(5, 3).kind, IoStatus::Timeout);
}
