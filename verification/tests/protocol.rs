//! Unit tests for the wire format, the register window arithmetic, the
//! identify codecs, the queue pair, and the chunk schedule.

use nvme_core::bytes::{get_le32, get_le64, make_filled, put_le32, put_le64};
use nvme_core::ctrl::split_request;
use nvme_core::identify::{read_id_ctrl, read_id_ns, write_id_ctrl, write_id_ns, NvmeIdCtrl,
    NvmeIdNs};
use nvme_core::queue::NvmeQueue;
use nvme_core::regs::{cq_doorbell, db_stride, sq_doorbell, CapSnapshot};
use nvme_core::wire::{build_abort, build_io_rw, decode_command, decode_completion,
    encode_command, encode_completion, make_status, NvmeCommand, NvmeCompletion, CMD_READ,
    CMD_WRITE};

fn sample_command() -> NvmeCommand {
    NvmeCommand {
        cdw0: 0x0001_0002,
        nsid: 1,
        cdw2: 0,
        cdw3: 0,
        metadata: 0,
        prp1: 0x1_0000,
        prp2: 0x1_1000,
        cdw10: 0x0000_0100,
        cdw11: 0,
        cdw12: 3,
        cdw13: 0,
        cdw14: 0,
        cdw15: 0,
    }
}

#[test]
fn command_wire_layout_is_little_endian() {
    let c = sample_command();
    let w = encode_command(&c);
    assert_eq!(w.len(), 64);
    // command dword 0 at offset 0: opcode low byte, command id high half
    assert_eq!(&w[0..4], &[0x02, 0x00, 0x01, 0x00]);
    // namespace id at 4
    assert_eq!(&w[4..8], &[0x01, 0x00, 0x00, 0x00]);
    // PRP1 at 24
    assert_eq!(&w[24..32], &[0x00, 0x00, 0x01, 0x00, 0x00, 0x00, 0x00, 0x00]);
    // PRP2 at 32
    assert_eq!(&w[32..40], &[0x00, 0x10, 0x01, 0x00, 0x00, 0x00, 0x00, 0x00]);
    // CDW10 at 40: starting LBA low half
    assert_eq!(&w[40..44], &[0x00, 0x01, 0x00, 0x00]);
    // CDW12 at 48: block count minus one
    assert_eq!(&w[48..52], &[0x03, 0x00, 0x00, 0x00]);
}

#[test]
fn command_wire_roundtrip() {
    let c = sample_command();
    let w = encode_command(&c);
    let d = decode_command(&w);
    assert_eq!(d, c);
}

#[test]
fn completion_wire_roundtrip() {
    let e = NvmeCompletion {
        result: 0xdead_beef,
        rsvd: 0,
        sq_head: 5,
        sq_id: 1,
        command_id: 7,
        status: make_status(0, 1),
    };
    let w = encode_completion(&e);
    assert_eq!(w.len(), 16);
    // result dword at 0, SQ head at 8, SQ id at 10, command id at 12,
    // status at 14 with the phase bit lowest
    assert_eq!(&w[0..4], &[0xef, 0xbe, 0xad, 0xde]);
    assert_eq!(&w[8..10], &[5, 0]);
    assert_eq!(&w[10..12], &[1, 0]);
    assert_eq!(&w[12..14], &[7, 0]);
    assert_eq!(w[14] & 1, 1);
    let d = decode_completion(&w);
    assert_eq!(d, e);
}

#[test]
fn status_word_splits_into_code_and_phase() {
    let s = make_status(0x85, 1);
    assert_eq!(s >> 1, 0x85);
    assert_eq!(s & 1, 1);
    let s0 = make_status(0, 0);
    assert_eq!(s0, 0);
}

#[test]
fn io_command_builder_packs_fields() {
    let c = build_io_rw(CMD_WRITE, 1, 0x1_0000_0100, 4, 9, 0x2000, 0, 0);
    assert_eq!(c.cdw0 & 0xff, CMD_WRITE as u32);
    assert_eq!((c.cdw0 >> 16) & 0xffff, 9);
    assert_eq!(c.cdw10, 0x100);
    assert_eq!(c.cdw11, 1);
    assert_eq!(c.cdw12 & 0xffff, 3);
    assert_eq!(c.nsid, 1);
    assert_eq!(c.prp1, 0x2000);
}

#[test]
fn abort_builder_packs_target() {
    let c = build_abort(1, 5, 0);
    assert_eq!(c.cdw10 & 0xffff, 1);
    assert_eq!((c.cdw10 >> 16) & 0xffff, 5);
}

#[test]
fn capability_snapshot_decodes_fields() {
    // max-entries 255, timeout 20 units, stride exponent 0, page-shift-min 0
    let cap: u64 = 255 | (20u64 << 24) | (1u64 << 37);
    let s = CapSnapshot::from_raw(cap);
    assert_eq!(s.mqes, 255);
    assert_eq!(s.to, 20);
    assert_eq!(s.dstrd, 0);
    assert_eq!(s.mpsmin, 0);
    assert_eq!(s.max_depth(), 256);
    assert_eq!(s.timeout_ms(), 10000);
}

#[test]
fn admin_timeout_has_one_second_floor() {
    let s = CapSnapshot::from_raw(1u64 << 24);
    assert_eq!(s.timeout_ms(), 1000);
}

#[test]
fn doorbell_offsets_follow_the_stride() {
    let stride = db_stride(0);
    assert_eq!(stride, 4);
    assert_eq!(sq_doorbell(0, stride), 0x1000);
    assert_eq!(cq_doorbell(0, stride), 0x1004);
    assert_eq!(sq_doorbell(1, stride), 0x1008);
    assert_eq!(cq_doorbell(1, stride), 0x100c);
    let wide = db_stride(2);
    assert_eq!(wide, 16);
    assert_eq!(sq_doorbell(1, wide), 0x1020);
}

#[test]
fn le_helpers_roundtrip() {
    let mut buf = make_filled(16, 0);
    put_le32(&mut buf, 0, 0x0102_0304);
    put_le64(&mut buf, 8, 0x1122_3344_5566_7788);
    assert_eq!(&buf[0..4], &[0x04, 0x03, 0x02, 0x01]);
    assert_eq!(get_le32(&buf, 0), 0x0102_0304);
    assert_eq!(get_le64(&buf, 8), 0x1122_3344_5566_7788);
}

#[test]
fn identify_controller_payload_roundtrip() {
    let id = NvmeIdCtrl {
        sn: b"SERIAL0123456789ABCD".to_vec(),
        mn: b"MOCK DEVICE X1                          ".to_vec(),
        fr: b"FW1.0   ".to_vec(),
        mdts: 1,
        nn: 2,
        oncs: 0x3f,
    };
    let mut mem = make_filled(4096, 0xee);
    write_id_ctrl(&mut mem, 0, &id);
    let back = read_id_ctrl(&mem, 0);
    assert_eq!(back.sn, id.sn);
    assert_eq!(back.mn, id.mn);
    assert_eq!(back.fr, id.fr);
    assert_eq!(back.mdts, 1);
    assert_eq!(back.nn, 2);
    assert_eq!(back.oncs, 0x3f);
}

#[test]
fn identify_namespace_payload_roundtrip() {
    let g = NvmeIdNs { nsze: 0x200, flbas: 0, dlfeat: 1, ms: 0, lba_shift: 9 };
    let mut mem = make_filled(4096, 0xee);
    write_id_ns(&mut mem, 0, &g);
    let back = read_id_ns(&mem, 0);
    assert_eq!(back, g);
}

#[test]
fn fresh_queue_reaps_nothing() {
    let mut q = NvmeQueue::new(1, 8, 0);
    assert_eq!(q.sq_tail, 0);
    assert_eq!(q.cq_head, 0);
    assert_eq!(q.cq_phase, 1);
    // every entry of a fresh completion ring has phase 0: nothing is fresh
    assert!(q.reap_one().is_none());
    assert_eq!(q.inflight_count, 0);
}

#[test]
fn queue_submit_rejects_duplicate_id() {
    let mut q = NvmeQueue::new(1, 8, 0);
    let c = build_io_rw(CMD_READ, 1, 0, 1, 3, 0x2000, 0, 0);
    assert_eq!(q.submit(c), Ok(0));
    assert_eq!(q.sq_tail, 1);
    // the same id again while outstanding is a parameter error
    assert!(q.submit(c).is_err());
    assert_eq!(q.inflight_count, 1);
}

#[test]
fn chunk_schedule_covers_and_counts() {
    // 40 blocks with a 16-block limit: ceiling gives three chunks
    let r = split_request(100, 40, 16);
    assert_eq!(r.len(), 3);
    assert_eq!(r[0], (100, 16));
    assert_eq!(r[1], (116, 16));
    assert_eq!(r[2], (132, 8));
    // an exact multiple
    let r2 = split_request(0, 32, 16);
    assert_eq!(r2.len(), 2);
    assert_eq!(r2[0], (0, 16));
    assert_eq!(r2[1], (16, 16));
    // under the limit: a single chunk
    let r3 = split_request(7, 5, 16);
    assert_eq!(r3.len(), 1);
    assert_eq!(r3[0], (7, 5));
}
