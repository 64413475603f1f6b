//! Submission and completion entries, their bit-exact wire images, and the
//! builders for every command the engines issue.
//!
//! A submission entry is 64 little-endian bytes: command dword 0 at offset 0,
//! namespace id at 4, metadata pointer at 16, PRP1 at 24, PRP2 at 32, and
//! command dwords 10 to 15 at 40 to 60.  A completion entry is 16 bytes:
//! result dword at 0, SQ head at 8, SQ id at 10, command id at 12 and status
//! at 14, with the phase bit in the low bit of the status word.

use vstd::prelude::*;
use crate::bytes::{le16_bytes, le32_bytes, le64_bytes, le16_val, le32_val, le64_val,
    lemma_le16_roundtrip, lemma_le32_roundtrip, lemma_le64_roundtrip, push_le16, push_le32,
    push_le64, get_le16, get_le32, get_le64};

verus! {

// Admin opcodes.
pub const ADMIN_DELETE_SQ: u8 = 0x00;
pub const ADMIN_CREATE_SQ: u8 = 0x01;
pub const ADMIN_DELETE_CQ: u8 = 0x04;
pub const ADMIN_CREATE_CQ: u8 = 0x05;
pub const ADMIN_IDENTIFY: u8 = 0x06;
pub const ADMIN_ABORT: u8 = 0x08;
pub const ADMIN_SET_FEATURES: u8 = 0x09;
pub const ADMIN_GET_FEATURES: u8 = 0x0a;

// I/O opcodes.
pub const CMD_FLUSH: u8 = 0x00;
pub const CMD_WRITE: u8 = 0x01;
pub const CMD_READ: u8 = 0x02;
pub const CMD_COMPARE: u8 = 0x05;
pub const CMD_WRITE_ZEROES: u8 = 0x08;
pub const CMD_DSM: u8 = 0x09;

// Identify CNS values: 0 selects a namespace, 1 the controller.
pub const CNS_NAMESPACE: u32 = 0;
pub const CNS_CONTROLLER: u32 = 1;

// Feature id for number-of-queues negotiation.
pub const FEAT_NUM_QUEUES: u32 = 0x07;

/// One 64-byte submission-queue entry, as its thirteen little-endian fields.
#[derive(Clone, Copy, Debug, PartialEq, Eq, Structural)]
pub struct NvmeCommand {
    pub cdw0: u32,
    pub nsid: u32,
    pub cdw2: u32,
    pub cdw3: u32,
    pub metadata: u64,
    pub prp1: u64,
    pub prp2: u64,
    pub cdw10: u32,
    pub cdw11: u32,
    pub cdw12: u32,
    pub cdw13: u32,
    pub cdw14: u32,
    pub cdw15: u32,
}

/// One 16-byte completion-queue entry.
#[derive(Clone, Copy, Debug, PartialEq, Eq, Structural)]
pub struct NvmeCompletion {
    pub result: u32,
    pub rsvd: u32,
    pub sq_head: u16,
    pub sq_id: u16,
    pub command_id: u16,
    pub status: u16,
}

// ----------------------------------------------------------------------------
// Semantic views of the packed fields.

/// The opcode: the low byte of command dword 0.
pub open spec fn cmd_opcode(c: NvmeCommand) -> u8 {
    (c.cdw0 & 0xff) as u8
}

/// The command id: the high 16 bits of command dword 0.
pub open spec fn cmd_cid(c: NvmeCommand) -> u16 {
    ((c.cdw0 >> 16) & 0xffff) as u16
}

/// The starting LBA: dword 10 is the low half, dword 11 the high half.
pub open spec fn cmd_lba(c: NvmeCommand) -> u64 {
    (c.cdw10 as u64) | ((c.cdw11 as u64) << 32)
}

/// The block count: dword 12 holds count minus one in its low 16 bits.
pub open spec fn cmd_nblocks(c: NvmeCommand) -> int {
    (c.cdw12 & 0xffff) + 1
}

/// The control flags: the high 16 bits of dword 12.
pub open spec fn cmd_flags(c: NvmeCommand) -> u16 {
    ((c.cdw12 >> 16) & 0xffff) as u16
}

/// The phase bit of a completion: the low bit of its status word.
pub open spec fn cpl_phase(c: NvmeCompletion) -> u16 {
    c.status & 1
}

/// The status field of a completion: everything above the phase bit.
pub open spec fn cpl_code(c: NvmeCompletion) -> u16 {
    c.status >> 1
}

/// A status word from a status field and a phase bit.
pub open spec fn status_word(code: u16, phase: u16) -> u16
    recommends
        code < 0x8000,
        phase <= 1,
{
    ((code << 1) | (phase & 1)) as u16
}

/// Splitting a status word built by `status_word` gives the parts back.
pub proof fn lemma_status_word(code: u16, phase: u16)
    requires
        code < 0x8000,
        phase <= 1,
    ensures
        status_word(code, phase) >> 1 == code,
        status_word(code, phase) & 1 == phase,
{
    assert(code < 0x8000 && phase <= 1 ==> ((code << 1) | (phase & 1)) >> 1 == code
        && ((code << 1) | (phase & 1)) & 1 == phase) by (bit_vector);
}

/// Builds a completion status word from a status field and a phase bit.
pub fn make_status(code: u16, phase: u8) -> (r: u16)
    requires
        code < 0x8000,
        phase <= 1,
    ensures
        r == status_word(code, phase as u16),
        r >> 1 == code,
        r & 1 == phase as u16,
{
    proof {
        lemma_status_word(code, phase as u16);
    }
    (code << 1) | ((phase as u16) & 1)
}

/// Packing an opcode and a command id into dword 0 keeps both recoverable.
pub proof fn lemma_cdw0_fields(op: u8, cid: u16)
    ensures
        ((op as u32) | ((cid as u32) << 16)) & 0xff == op,
        (((op as u32) | ((cid as u32) << 16)) >> 16) & 0xffff == cid,
{
    assert(((op as u32) | ((cid as u32) << 16)) & 0xff == op) by (bit_vector);
    assert((((op as u32) | ((cid as u32) << 16)) >> 16) & 0xffff == cid) by (bit_vector);
}

/// Splitting an LBA into dwords 10 and 11 keeps the value recoverable.
pub proof fn lemma_lba_split(lba: u64)
    ensures
        (((lba & 0xffff_ffff) as u32) as u64) | ((((lba >> 32) as u32) as u64) << 32) == lba,
{
    assert((((lba & 0xffff_ffff) as u32) as u64) | ((((lba >> 32) as u32) as u64) << 32) == lba)
        by (bit_vector);
}

/// Packing block count and flags into dword 12 keeps both recoverable.
pub proof fn lemma_cdw12_fields(blocks: u16, flags: u16)
    requires
        blocks >= 1,
    ensures
        ((((blocks - 1) as u32) | ((flags as u32) << 16)) & 0xffff) + 1 == blocks,
        (((((blocks - 1) as u32) | ((flags as u32) << 16)) >> 16) & 0xffff) == flags,
{
    assert(blocks >= 1 ==> ((((blocks - 1) as u32) | ((flags as u32) << 16)) & 0xffff) + 1
        == blocks) by (bit_vector);
    assert(blocks >= 1 ==> (((((blocks - 1) as u32) | ((flags as u32) << 16)) >> 16) & 0xffff)
        == flags) by (bit_vector);
}

// ----------------------------------------------------------------------------
// Wire images.

/// The 64-byte little-endian image of a submission entry.
pub open spec fn cmd_wire(c: NvmeCommand) -> Seq<u8> {
    le32_bytes(c.cdw0) + le32_bytes(c.nsid) + le32_bytes(c.cdw2) + le32_bytes(c.cdw3)
        + le64_bytes(c.metadata) + le64_bytes(c.prp1) + le64_bytes(c.prp2) + le32_bytes(c.cdw10)
        + le32_bytes(c.cdw11) + le32_bytes(c.cdw12) + le32_bytes(c.cdw13) + le32_bytes(c.cdw14)
        + le32_bytes(c.cdw15)
}

/// The submission entry held by a 64-byte little-endian image.
pub open spec fn cmd_of_wire(s: Seq<u8>) -> NvmeCommand
    recommends
        s.len() == 64,
{
    NvmeCommand {
        cdw0: le32_val(s.subrange(0, 4)),
        nsid: le32_val(s.subrange(4, 8)),
        cdw2: le32_val(s.subrange(8, 12)),
        cdw3: le32_val(s.subrange(12, 16)),
        metadata: le64_val(s.subrange(16, 24)),
        prp1: le64_val(s.subrange(24, 32)),
        prp2: le64_val(s.subrange(32, 40)),
        cdw10: le32_val(s.subrange(40, 44)),
        cdw11: le32_val(s.subrange(44, 48)),
        cdw12: le32_val(s.subrange(48, 52)),
        cdw13: le32_val(s.subrange(52, 56)),
        cdw14: le32_val(s.subrange(56, 60)),
        cdw15: le32_val(s.subrange(60, 64)),
    }
}

/// The 16-byte little-endian image of a completion entry.
pub open spec fn cpl_wire(c: NvmeCompletion) -> Seq<u8> {
    le32_bytes(c.result) + le32_bytes(c.rsvd) + le16_bytes(c.sq_head) + le16_bytes(c.sq_id)
        + le16_bytes(c.command_id) + le16_bytes(c.status)
}

/// The completion entry held by a 16-byte little-endian image.
pub open spec fn cpl_of_wire(s: Seq<u8>) -> NvmeCompletion
    recommends
        s.len() == 16,
{
    NvmeCompletion {
        result: le32_val(s.subrange(0, 4)),
        rsvd: le32_val(s.subrange(4, 8)),
        sq_head: le16_val(s.subrange(8, 10)),
        sq_id: le16_val(s.subrange(10, 12)),
        command_id: le16_val(s.subrange(12, 14)),
        status: le16_val(s.subrange(14, 16)),
    }
}

/// Encodes a submission entry into its 64-byte wire image.
pub fn encode_command(c: &NvmeCommand) -> (r: Vec<u8>)
    ensures
        r@ == cmd_wire(*c),
        r@.len() == 64,
{
    let mut r: Vec<u8> = Vec::new();
    push_le32(&mut r, c.cdw0);
    push_le32(&mut r, c.nsid);
    push_le32(&mut r, c.cdw2);
    push_le32(&mut r, c.cdw3);
    push_le64(&mut r, c.metadata);
    push_le64(&mut r, c.prp1);
    push_le64(&mut r, c.prp2);
    push_le32(&mut r, c.cdw10);
    push_le32(&mut r, c.cdw11);
    push_le32(&mut r, c.cdw12);
    push_le32(&mut r, c.cdw13);
    push_le32(&mut r, c.cdw14);
    push_le32(&mut r, c.cdw15);
    assert(r@ =~= cmd_wire(*c));
    r
}

/// Decodes a submission entry from the 64 bytes at the head of `buf`.
pub fn decode_command(buf: &Vec<u8>) -> (r: NvmeCommand)
    requires
        buf@.len() >= 64,
    ensures
        r == cmd_of_wire(buf@.subrange(0, 64)),
{
    let r = NvmeCommand {
        cdw0: get_le32(buf, 0),
        nsid: get_le32(buf, 4),
        cdw2: get_le32(buf, 8),
        cdw3: get_le32(buf, 12),
        metadata: get_le64(buf, 16),
        prp1: get_le64(buf, 24),
        prp2: get_le64(buf, 32),
        cdw10: get_le32(buf, 40),
        cdw11: get_le32(buf, 44),
        cdw12: get_le32(buf, 48),
        cdw13: get_le32(buf, 52),
        cdw14: get_le32(buf, 56),
        cdw15: get_le32(buf, 60),
    };
    proof {
        let s = buf@.subrange(0, 64);
        assert(buf@.subrange(0, 4) =~= s.subrange(0, 4));
        assert(buf@.subrange(4, 8) =~= s.subrange(4, 8));
        assert(buf@.subrange(8, 12) =~= s.subrange(8, 12));
        assert(buf@.subrange(12, 16) =~= s.subrange(12, 16));
        assert(buf@.subrange(16, 24) =~= s.subrange(16, 24));
        assert(buf@.subrange(24, 32) =~= s.subrange(24, 32));
        assert(buf@.subrange(32, 40) =~= s.subrange(32, 40));
        assert(buf@.subrange(40, 44) =~= s.subrange(40, 44));
        assert(buf@.subrange(44, 48) =~= s.subrange(44, 48));
        assert(buf@.subrange(48, 52) =~= s.subrange(48, 52));
        assert(buf@.subrange(52, 56) =~= s.subrange(52, 56));
        assert(buf@.subrange(56, 60) =~= s.subrange(56, 60));
        assert(buf@.subrange(60, 64) =~= s.subrange(60, 64));
    }
    r
}

/// Encodes a completion entry into its 16-byte wire image.
pub fn encode_completion(c: &NvmeCompletion) -> (r: Vec<u8>)
    ensures
        r@ == cpl_wire(*c),
        r@.len() == 16,
{
    let mut r: Vec<u8> = Vec::new();
    push_le32(&mut r, c.result);
    push_le32(&mut r, c.rsvd);
    push_le16(&mut r, c.sq_head);
    push_le16(&mut r, c.sq_id);
    push_le16(&mut r, c.command_id);
    push_le16(&mut r, c.status);
    assert(r@ =~= cpl_wire(*c));
    r
}

/// Decodes a completion entry from the 16 bytes at the head of `buf`.
pub fn decode_completion(buf: &Vec<u8>) -> (r: NvmeCompletion)
    requires
        buf@.len() >= 16,
    ensures
        r == cpl_of_wire(buf@.subrange(0, 16)),
{
    let r = NvmeCompletion {
        result: get_le32(buf, 0),
        rsvd: get_le32(buf, 4),
        sq_head: get_le16(buf, 8),
        sq_id: get_le16(buf, 10),
        command_id: get_le16(buf, 12),
        status: get_le16(buf, 14),
    };
    proof {
        let s = buf@.subrange(0, 16);
        assert(buf@.subrange(0, 4) =~= s.subrange(0, 4));
        assert(buf@.subrange(4, 8) =~= s.subrange(4, 8));
        assert(buf@.subrange(8, 10) =~= s.subrange(8, 10));
        assert(buf@.subrange(10, 12) =~= s.subrange(10, 12));
        assert(buf@.subrange(12, 14) =~= s.subrange(12, 14));
        assert(buf@.subrange(14, 16) =~= s.subrange(14, 16));
    }
    r
}

/// Decoding the wire image of a submission entry gives the entry back.
pub proof fn lemma_command_roundtrip(c: NvmeCommand)
    ensures
        cmd_of_wire(cmd_wire(c)) == c,
{
    let s = cmd_wire(c);
    assert(s.subrange(0, 4) =~= le32_bytes(c.cdw0));
    assert(s.subrange(4, 8) =~= le32_bytes(c.nsid));
    assert(s.subrange(8, 12) =~= le32_bytes(c.cdw2));
    assert(s.subrange(12, 16) =~= le32_bytes(c.cdw3));
    assert(s.subrange(16, 24) =~= le64_bytes(c.metadata));
    assert(s.subrange(24, 32) =~= le64_bytes(c.prp1));
    assert(s.subrange(32, 40) =~= le64_bytes(c.prp2));
    assert(s.subrange(40, 44) =~= le32_bytes(c.cdw10));
    assert(s.subrange(44, 48) =~= le32_bytes(c.cdw11));
    assert(s.subrange(48, 52) =~= le32_bytes(c.cdw12));
    assert(s.subrange(52, 56) =~= le32_bytes(c.cdw13));
    assert(s.subrange(56, 60) =~= le32_bytes(c.cdw14));
    assert(s.subrange(60, 64) =~= le32_bytes(c.cdw15));
    lemma_le32_roundtrip(c.cdw0);
    lemma_le32_roundtrip(c.nsid);
    lemma_le32_roundtrip(c.cdw2);
    lemma_le32_roundtrip(c.cdw3);
    lemma_le64_roundtrip(c.metadata);
    lemma_le64_roundtrip(c.prp1);
    lemma_le64_roundtrip(c.prp2);
    lemma_le32_roundtrip(c.cdw10);
    lemma_le32_roundtrip(c.cdw11);
    lemma_le32_roundtrip(c.cdw12);
    lemma_le32_roundtrip(c.cdw13);
    lemma_le32_roundtrip(c.cdw14);
    lemma_le32_roundtrip(c.cdw15);
}

/// Decoding the wire image of a completion entry gives the entry back.
pub proof fn lemma_completion_roundtrip(c: NvmeCompletion)
    ensures
        cpl_of_wire(cpl_wire(c)) == c,
{
    let s = cpl_wire(c);
    assert(s.subrange(0, 4) =~= le32_bytes(c.result));
    assert(s.subrange(4, 8) =~= le32_bytes(c.rsvd));
    assert(s.subrange(8, 10) =~= le16_bytes(c.sq_head));
    assert(s.subrange(10, 12) =~= le16_bytes(c.sq_id));
    assert(s.subrange(12, 14) =~= le16_bytes(c.command_id));
    assert(s.subrange(14, 16) =~= le16_bytes(c.status));
    lemma_le32_roundtrip(c.result);
    lemma_le32_roundtrip(c.rsvd);
    lemma_le16_roundtrip(c.sq_head);
    lemma_le16_roundtrip(c.sq_id);
    lemma_le16_roundtrip(c.command_id);
    lemma_le16_roundtrip(c.status);
}

// ----------------------------------------------------------------------------
// Builders.

impl NvmeCommand {
    /// The all-zero entry every builder starts from.
    pub fn zeroed() -> (r: NvmeCommand)
        ensures
            r.cdw0 == 0 && r.nsid == 0 && r.cdw2 == 0 && r.cdw3 == 0 && r.metadata == 0
                && r.prp1 == 0 && r.prp2 == 0 && r.cdw10 == 0 && r.cdw11 == 0 && r.cdw12 == 0
                && r.cdw13 == 0 && r.cdw14 == 0 && r.cdw15 == 0,
    {
        NvmeCommand {
            cdw0: 0,
            nsid: 0,
            cdw2: 0,
            cdw3: 0,
            metadata: 0,
            prp1: 0,
            prp2: 0,
            cdw10: 0,
            cdw11: 0,
            cdw12: 0,
            cdw13: 0,
            cdw14: 0,
            cdw15: 0,
        }
    }
}

/// Dword 0 from an opcode and a command id.
pub fn pack_cdw0(op: u8, cid: u16) -> (r: u32)
    ensures
        r == (op as u32) | ((cid as u32) << 16),
        r & 0xff == op,
        (r >> 16) & 0xffff == cid,
{
    proof {
        lemma_cdw0_fields(op, cid);
    }
    (op as u32) | ((cid as u32) << 16)
}

/// A read, write, compare or write-zeroes command for `blocks` blocks at `lba`.
pub fn build_io_rw(op: u8, nsid: u32, lba: u64, blocks: u16, cid: u16, prp1: u64, prp2: u64,
    flags: u16) -> (r: NvmeCommand)
    requires
        blocks >= 1,
    ensures
        cmd_opcode(r) == op,
        cmd_cid(r) == cid,
        r.nsid == nsid,
        r.prp1 == prp1,
        r.prp2 == prp2,
        cmd_lba(r) == lba,
        cmd_nblocks(r) == blocks,
        cmd_flags(r) == flags,
{
    let mut c = NvmeCommand::zeroed();
    c.cdw0 = pack_cdw0(op, cid);
    c.nsid = nsid;
    c.prp1 = prp1;
    c.prp2 = prp2;
    c.cdw10 = (lba & 0xffff_ffff) as u32;
    c.cdw11 = (lba >> 32) as u32;
    c.cdw12 = ((blocks - 1) as u32) | ((flags as u32) << 16);
    proof {
        lemma_lba_split(lba);
        lemma_cdw12_fields(blocks, flags);
    }
    c
}

/// A flush command for namespace `nsid`.
pub fn build_flush(nsid: u32, cid: u16) -> (r: NvmeCommand)
    ensures
        cmd_opcode(r) == CMD_FLUSH,
        cmd_cid(r) == cid,
        r.nsid == nsid,
{
    let mut c = NvmeCommand::zeroed();
    c.cdw0 = pack_cdw0(CMD_FLUSH, cid);
    c.nsid = nsid;
    c
}

/// A dataset-management (trim) command with one range descriptor at `prp1`,
/// asking for deallocation.
pub fn build_dsm(nsid: u32, cid: u16, prp1: u64) -> (r: NvmeCommand)
    ensures
        cmd_opcode(r) == CMD_DSM,
        cmd_cid(r) == cid,
        r.nsid == nsid,
        r.prp1 == prp1,
        r.cdw10 == 0,
        r.cdw11 == 0x4,
{
    let mut c = NvmeCommand::zeroed();
    c.cdw0 = pack_cdw0(CMD_DSM, cid);
    c.nsid = nsid;
    c.prp1 = prp1;
    c.cdw10 = 0;
    c.cdw11 = 0x4;
    c
}

/// An identify command; `cns` selects the controller or a namespace, and the
/// 4096-byte result lands at `prp1`.
pub fn build_identify(cns: u32, nsid: u32, cid: u16, prp1: u64) -> (r: NvmeCommand)
    ensures
        cmd_opcode(r) == ADMIN_IDENTIFY,
        cmd_cid(r) == cid,
        r.nsid == nsid,
        r.prp1 == prp1,
        r.cdw10 == cns,
{
    let mut c = NvmeCommand::zeroed();
    c.cdw0 = pack_cdw0(ADMIN_IDENTIFY, cid);
    c.nsid = nsid;
    c.prp1 = prp1;
    c.cdw10 = cns;
    c
}

/// Dword 10 of a queue-create or queue-delete command: depth minus one in the
/// high half, the queue id in the low half.
pub fn pack_q_cdw10(qid: u16, depth: u16) -> (r: u32)
    requires
        depth >= 1,
    ensures
        r == (((depth - 1) as u32) << 16) | (qid as u32),
        r & 0xffff == qid,
        ((r >> 16) & 0xffff) + 1 == depth,
{
    proof {
        let d = depth;
        let q = qid;
        assert(d >= 1 ==> ((((d - 1) as u32) << 16) | (q as u32)) & 0xffff == q) by (bit_vector);
        assert(d >= 1 ==> (((((d - 1) as u32) << 16) | (q as u32)) >> 16) & 0xffff == d - 1)
            by (bit_vector);
    }
    (((depth - 1) as u32) << 16) | (qid as u32)
}

/// A create-completion-queue command; must be issued before the matching
/// submission-queue create.
pub fn build_create_cq(qid: u16, depth: u16, vector: u16, contiguous: bool, cid: u16, prp1: u64)
    -> (r: NvmeCommand)
    requires
        depth >= 1,
    ensures
        cmd_opcode(r) == ADMIN_CREATE_CQ,
        cmd_cid(r) == cid,
        r.prp1 == prp1,
        r.cdw10 & 0xffff == qid,
        ((r.cdw10 >> 16) & 0xffff) + 1 == depth,
        r.cdw11 == ((vector as u32) << 16) | (if contiguous { 1u32 } else { 0u32 }),
{
    let mut c = NvmeCommand::zeroed();
    c.cdw0 = pack_cdw0(ADMIN_CREATE_CQ, cid);
    c.prp1 = prp1;
    c.cdw10 = pack_q_cdw10(qid, depth);
    c.cdw11 = ((vector as u32) << 16) | (if contiguous { 1u32 } else { 0u32 });
    c
}

/// A create-submission-queue command bound to completion queue `cqid`.
pub fn build_create_sq(qid: u16, depth: u16, cqid: u16, priority: u8, contiguous: bool, cid: u16,
    prp1: u64) -> (r: NvmeCommand)
    requires
        depth >= 1,
        priority <= 3,
    ensures
        cmd_opcode(r) == ADMIN_CREATE_SQ,
        cmd_cid(r) == cid,
        r.prp1 == prp1,
        r.cdw10 & 0xffff == qid,
        ((r.cdw10 >> 16) & 0xffff) + 1 == depth,
        r.cdw11 == ((cqid as u32) << 16) | (((priority as u32) & 3) << 1) | (if contiguous {
            1u32
        } else {
            0u32
        }),
        (r.cdw11 >> 16) & 0xffff == cqid,
{
    proof {
        let q = cqid;
        let p = priority;
        assert(((((q as u32) << 16) | (((p as u32) & 3) << 1) | 1u32) >> 16) & 0xffff == q)
            by (bit_vector);
        assert(((((q as u32) << 16) | (((p as u32) & 3) << 1) | 0u32) >> 16) & 0xffff == q)
            by (bit_vector);
    }
    let mut c = NvmeCommand::zeroed();
    c.cdw0 = pack_cdw0(ADMIN_CREATE_SQ, cid);
    c.prp1 = prp1;
    c.cdw10 = pack_q_cdw10(qid, depth);
    c.cdw11 = ((cqid as u32) << 16) | (((priority as u32) & 3) << 1) | (if contiguous {
        1u32
    } else {
        0u32
    });
    c
}

/// A delete-submission-queue command; strict ordering demands it before the
/// matching completion-queue delete.
pub fn build_delete_sq(qid: u16, cid: u16) -> (r: NvmeCommand)
    ensures
        cmd_opcode(r) == ADMIN_DELETE_SQ,
        cmd_cid(r) == cid,
        r.cdw10 == qid as u32,
        r.cdw10 & 0xffff == qid,
{
    proof {
        let q = qid;
        assert((q as u32) & 0xffff == q) by (bit_vector);
    }
    let mut c = NvmeCommand::zeroed();
    c.cdw0 = pack_cdw0(ADMIN_DELETE_SQ, cid);
    c.cdw10 = qid as u32;
    c
}

/// A delete-completion-queue command.
pub fn build_delete_cq(qid: u16, cid: u16) -> (r: NvmeCommand)
    ensures
        cmd_opcode(r) == ADMIN_DELETE_CQ,
        cmd_cid(r) == cid,
        r.cdw10 == qid as u32,
        r.cdw10 & 0xffff == qid,
{
    proof {
        let q = qid;
        assert((q as u32) & 0xffff == q) by (bit_vector);
    }
    let mut c = NvmeCommand::zeroed();
    c.cdw0 = pack_cdw0(ADMIN_DELETE_CQ, cid);
    c.cdw10 = qid as u32;
    c
}

/// A set-features command for feature `fid` with value `value`.
pub fn build_set_features(fid: u32, value: u32, cid: u16) -> (r: NvmeCommand)
    ensures
        cmd_opcode(r) == ADMIN_SET_FEATURES,
        cmd_cid(r) == cid,
        r.cdw10 == fid,
        r.cdw11 == value,
{
    let mut c = NvmeCommand::zeroed();
    c.cdw0 = pack_cdw0(ADMIN_SET_FEATURES, cid);
    c.cdw10 = fid;
    c.cdw11 = value;
    c
}

/// A get-features command for feature `fid`.
pub fn build_get_features(fid: u32, cid: u16) -> (r: NvmeCommand)
    ensures
        cmd_opcode(r) == ADMIN_GET_FEATURES,
        cmd_cid(r) == cid,
        r.cdw10 == fid,
{
    let mut c = NvmeCommand::zeroed();
    c.cdw0 = pack_cdw0(ADMIN_GET_FEATURES, cid);
    c.cdw10 = fid;
    c
}

/// An abort command targeting command `target_cid` on submission queue `sqid`.
pub fn build_abort(sqid: u16, target_cid: u16, cid: u16) -> (r: NvmeCommand)
    ensures
        cmd_opcode(r) == ADMIN_ABORT,
        cmd_cid(r) == cid,
        r.cdw10 == ((target_cid as u32) << 16) | (sqid as u32),
        r.cdw10 & 0xffff == sqid,
        (r.cdw10 >> 16) & 0xffff == target_cid,
{
    let mut c = NvmeCommand::zeroed();
    c.cdw0 = pack_cdw0(ADMIN_ABORT, cid);
    c.cdw10 = ((target_cid as u32) << 16) | (sqid as u32);
    proof {
        let t = target_cid;
        let s = sqid;
        assert((((t as u32) << 16) | (s as u32)) & 0xffff == s) by (bit_vector);
        assert(((((t as u32) << 16) | (s as u32)) >> 16) & 0xffff == t) by (bit_vector);
    }
    c
}

} // verus!
