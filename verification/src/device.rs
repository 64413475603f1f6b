//! The device model: a deterministic controller-side peer the driver's
//! contracts are stated and proved against.
//!
//! It owns the register file, the per-queue device cursors (submission head,
//! doorbelled tail, completion tail and posting phase), the namespaces'
//! backing blocks, and the identify data.  Commands take effect exactly as
//! the contracts of `execute_io` and the cursor helpers say; a stalled model
//! performs no I/O work, and a model whose fatal-status bit is raised
//! performs no work at all.

use vstd::prelude::*;
use crate::bytes::{le32_val, le64_val, splice, get_le32, get_le64, copy_into, read_range,
    fill_range, make_filled};
use crate::identify::{NvmeIdCtrl, NvmeIdNs, ID_PAYLOAD_LEN, id_ctrl_at, id_ns_at, write_id_ctrl,
    write_id_ns};
use crate::regs::{REG_CAP, REG_VS, REG_INTMS, REG_INTMC, REG_CC, REG_CSTS, REG_AQA, REG_ASQ,
    REG_ACQ, CC_SHN_MASK, cap_mqes, cap_to, cap_dstrd, cap_mpsmin, db_stride, sq_doorbell,
    cq_doorbell};
use crate::status::{SC_SUCCESS, SC_INVALID_OPCODE, SC_INVALID_FIELD, SC_INVALID_NAMESPACE,
    SC_LBA_OUT_OF_RANGE, SC_COMPARE_FAILURE};
use crate::wire::{NvmeCommand, cmd_opcode, cmd_lba, cmd_nblocks, CMD_FLUSH, CMD_WRITE, CMD_READ,
    CMD_COMPARE, CMD_WRITE_ZEROES, CMD_DSM, ADMIN_IDENTIFY, ADMIN_SET_FEATURES,
    ADMIN_GET_FEATURES, ADMIN_CREATE_CQ, ADMIN_CREATE_SQ, ADMIN_DELETE_SQ, ADMIN_DELETE_CQ,
    CNS_CONTROLLER, CNS_NAMESPACE, FEAT_NUM_QUEUES};

verus! {

/// The device model drives one admin queue pair and one I/O queue pair.
pub const DEV_QUEUE_COUNT: usize = 2;

/// One namespace: a logically independent block-addressable unit.
pub struct NsModel {
    /// The 32-bit namespace id; namespace `i` of a model carries id `i + 1`.
    pub nsid: u32,
    /// LBA size as a shift: a block is `1 << lba_shift` bytes.
    pub lba_shift: u8,
    /// The block size in bytes, kept equal to `1 << lba_shift`.
    pub block_size: u32,
    /// Capacity in LBAs.
    pub nlbas: u64,
    /// Deallocate behaviour; bit 0 set means deallocated blocks read zero.
    pub dlfeat: u8,
    /// The backing blocks, `nlbas * block_size` bytes.
    pub data: Vec<u8>,
}

impl NsModel {
    pub open spec fn wf(self) -> bool {
        &&& self.lba_shift <= 16
        &&& self.block_size == (1u32 << self.lba_shift)
        &&& 1 <= self.block_size
        &&& 1 <= self.nlbas
        &&& self.data@.len() == self.nlbas * self.block_size
    }

    /// Whether trimmed blocks of this namespace read back as zeros.
    pub open spec fn deallocate_zeroes(self) -> bool {
        self.dlfeat & 1 == 1
    }

    /// A fresh, zero-filled namespace.
    pub fn new(nsid: u32, lba_shift: u8, nlbas: u64, dlfeat: u8) -> (r: NsModel)
        requires
            lba_shift <= 16,
            1 <= nlbas,
            nlbas * (1u32 << lba_shift) <= 0x1000_0000,
        ensures
            r.wf(),
            r.nsid == nsid,
            r.lba_shift == lba_shift,
            r.nlbas == nlbas,
            r.dlfeat == dlfeat,
            forall|j: int| 0 <= j < r.data@.len() ==> r.data@[j] == 0,
    {
        let bs: u32 = 1u32 << lba_shift;
        proof {
            assert(lba_shift <= 16 ==> 1 <= (1u32 << lba_shift) && (1u32 << lba_shift)
                <= 0x10000) by (bit_vector);
        }
        let len: u64 = nlbas * (bs as u64);
        let data = make_filled(len as usize, 0);
        NsModel { nsid, lba_shift, block_size: bs, nlbas, dlfeat, data }
    }
}

/// Device-side cursors of one queue pair.
#[derive(Clone, Copy, Debug, PartialEq, Eq, Structural)]
pub struct DevQueueState {
    /// Whether the completion ring has been created.
    pub cq_created: bool,
    /// Whether the submission ring has been created.
    pub sq_created: bool,
    /// Ring depth.
    pub depth: u16,
    /// Next submission slot the device will consume.
    pub sq_head: u16,
    /// The tail most recently written to the SQ-tail doorbell.
    pub db_tail: u16,
    /// Doorbelled entries not yet consumed.
    pub pending: u16,
    /// Next completion slot the device will post to.
    pub cq_tail: u16,
    /// Posting phase; starts at 1 and flips when the completion tail wraps.
    pub phase: u8,
}

impl DevQueueState {
    pub open spec fn wf(self) -> bool {
        &&& (self.cq_created || self.sq_created) ==> 2 <= self.depth
        &&& self.sq_created ==> {
            &&& (self.sq_head as int) < self.depth
            &&& (self.db_tail as int) < self.depth
            &&& (self.cq_tail as int) < self.depth
            &&& self.pending <= self.depth
            &&& self.phase <= 1
        }
    }

    /// A ring pair that has not been created.
    pub open spec fn absent_spec() -> DevQueueState {
        DevQueueState {
            cq_created: false,
            sq_created: false,
            depth: 0,
            sq_head: 0,
            db_tail: 0,
            pending: 0,
            cq_tail: 0,
            phase: 0,
        }
    }

    /// Builds a ring pair that has not been created.
    pub fn absent() -> (r: DevQueueState)
        ensures
            r == Self::absent_spec(),
            r.wf(),
    {
        DevQueueState {
            cq_created: false,
            sq_created: false,
            depth: 0,
            sq_head: 0,
            db_tail: 0,
            pending: 0,
            cq_tail: 0,
            phase: 0,
        }
    }

    /// A freshly created ring pair of the given depth.
    pub open spec fn fresh_spec(depth: u16) -> DevQueueState {
        DevQueueState {
            cq_created: true,
            sq_created: true,
            depth,
            sq_head: 0,
            db_tail: 0,
            pending: 0,
            cq_tail: 0,
            phase: 1,
        }
    }

    /// Builds a freshly created ring pair of the given depth.
    pub fn fresh(depth: u16) -> (r: DevQueueState)
        requires
            2 <= depth,
        ensures
            r == Self::fresh_spec(depth),
            r.wf(),
    {
        DevQueueState {
            cq_created: true,
            sq_created: true,
            depth,
            sq_head: 0,
            db_tail: 0,
            pending: 0,
            cq_tail: 0,
            phase: 1,
        }
    }
}

/// The deterministic controller model behind the register window.
pub struct DeviceModel {
    /// The capability register.
    pub cap: u64,
    /// The version register.
    pub vs: u32,
    /// The controller-configuration register, as last written.
    pub cc: u32,
    /// Ready status: follows the enable bit, unless the model is wedged.
    pub rdy: bool,
    /// Fatal-status bit.
    pub cfs: bool,
    /// Shutdown-complete status.
    pub shst_complete: bool,
    /// Admin-queue attributes, as last written.
    pub aqa: u32,
    /// Admin submission-ring base, as last written.
    pub asq: u64,
    /// Admin completion-ring base, as last written.
    pub acq: u64,
    /// Interrupt mask bits.
    pub intms: u32,
    /// Doorbell stride exponent, the capability's view of it.
    pub dstrd: u8,
    /// Device-side cursors, indexed by queue id.
    pub queues: Vec<DevQueueState>,
    /// The namespaces; index `i` carries nsid `i + 1`.
    pub namespaces: Vec<NsModel>,
    /// Identify-controller data.
    pub ident: NvmeIdCtrl,
    /// How many I/O queues the model grants in number-of-queues negotiation.
    pub io_grant: u16,
    /// A stalled model consumes no I/O commands until released.
    pub stalled: bool,
}

impl DeviceModel {
    pub open spec fn wf(self) -> bool {
        &&& self.queues@.len() == DEV_QUEUE_COUNT
        &&& forall|i: int| 0 <= i < DEV_QUEUE_COUNT ==> (#[trigger] self.queues@[i]).wf()
        &&& forall|i: int|
            0 <= i < self.namespaces@.len() ==> (#[trigger] self.namespaces@[i]).wf()
                && self.namespaces@[i].nsid == i + 1
        &&& self.ident.wf()
        &&& self.ident.nn == self.namespaces@.len()
        &&& self.dstrd == cap_dstrd(self.cap)
        &&& self.dstrd <= 0xf
        &&& 1 <= self.io_grant
    }

    /// Whether namespace id `nsid` names a namespace of this model.
    pub open spec fn ns_ok(self, nsid: u32) -> bool {
        1 <= nsid && nsid <= self.namespaces@.len()
    }

    /// The namespace named by `nsid`.
    pub open spec fn the_ns(self, nsid: u32) -> NsModel
        recommends
            self.ns_ok(nsid),
    {
        self.namespaces@[nsid - 1]
    }

    /// A new model with the given capability fields, identify data and
    /// namespaces, in the disabled state.
    pub fn new(mqes: u16, to: u8, dstrd: u8, ident: NvmeIdCtrl, namespaces: Vec<NsModel>,
        io_grant: u16) -> (r: DeviceModel)
        requires
            dstrd <= 0xf,
            ident.wf(),
            ident.nn == namespaces@.len(),
            forall|i: int|
                0 <= i < namespaces@.len() ==> (#[trigger] namespaces@[i]).wf()
                    && namespaces@[i].nsid == i + 1,
            1 <= io_grant,
        ensures
            r.wf(),
            cap_mqes(r.cap) == mqes,
            cap_to(r.cap) == to,
            cap_dstrd(r.cap) == dstrd,
            cap_mpsmin(r.cap) == 0,
            !r.rdy,
            !r.cfs,
            !r.stalled,
            !r.shst_complete,
            r.cc == 0,
            r.namespaces@ == namespaces@,
            r.ident == ident,
            r.io_grant == io_grant,
            r.queues@.len() == DEV_QUEUE_COUNT,
            r.queues@[0] == DevQueueState::absent_spec(),
            r.queues@[1] == DevQueueState::absent_spec(),
    {
        let cap: u64 = (mqes as u64) | ((to as u64) << 24) | ((dstrd as u64) << 32) | (1u64
            << 37);
        proof {
            let m = mqes;
            let t = to;
            let d = dstrd;
            assert(d <= 0xf ==> {
                &&& ((m as u64) | ((t as u64) << 24) | ((d as u64) << 32) | (1u64 << 37))
                    & 0xffff == m
                &&& (((m as u64) | ((t as u64) << 24) | ((d as u64) << 32) | (1u64 << 37)) >> 24)
                    & 0xff == t
                &&& (((m as u64) | ((t as u64) << 24) | ((d as u64) << 32) | (1u64 << 37)) >> 32)
                    & 0xf == d
                &&& (((m as u64) | ((t as u64) << 24) | ((d as u64) << 32) | (1u64 << 37)) >> 48)
                    & 0xf == 0
            }) by (bit_vector);
        }
        let mut queues: Vec<DevQueueState> = Vec::new();
        queues.push(DevQueueState::absent());
        queues.push(DevQueueState::absent());
        DeviceModel {
            cap,
            vs: 0x0001_0400,
            cc: 0,
            rdy: false,
            cfs: false,
            shst_complete: false,
            aqa: 0,
            asq: 0,
            acq: 0,
            intms: 0,
            dstrd,
            queues,
            namespaces,
            ident,
            io_grant,
            stalled: false,
        }
    }

    /// This model with its stall flag replaced.
    pub open spec fn with_stalled(self, s: bool) -> DeviceModel {
        DeviceModel { stalled: s, ..self }
    }

    /// This model with its fatal-status bit raised.
    pub open spec fn with_cfs(self) -> DeviceModel {
        DeviceModel { cfs: true, ..self }
    }

    /// Mock control: stall or release the model's I/O work.
    pub fn set_stalled(&mut self, stalled: bool)
        ensures
            *final(self) == old(self).with_stalled(stalled),
    {
        self.stalled = stalled;
    }

    /// Mock control: raise the fatal-status bit.
    pub fn inject_fatal(&mut self)
        ensures
            *final(self) == old(self).with_cfs(),
    {
        self.cfs = true;
    }

    /// The current controller-status word.
    pub open spec fn csts_spec(self) -> u32 {
        (if self.rdy {
            1u32
        } else {
            0u32
        }) | (if self.cfs {
            2u32
        } else {
            0u32
        }) | (if self.shst_complete {
            8u32
        } else {
            0u32
        })
    }

    /// A 32-bit register read: single, volatile, correctly sized.
    pub fn read_reg32(&self, off: u64) -> (r: u32)
        ensures
            off == REG_VS ==> r == self.vs,
            off == REG_CC ==> r == self.cc,
            off == REG_CSTS ==> r == self.csts_spec(),
            off == REG_AQA ==> r == self.aqa,
            off == REG_INTMS ==> r == self.intms,
    {
        if off == REG_VS {
            self.vs
        } else if off == REG_CC {
            self.cc
        } else if off == REG_CSTS {
            (if self.rdy {
                1u32
            } else {
                0u32
            }) | (if self.cfs {
                2u32
            } else {
                0u32
            }) | (if self.shst_complete {
                8u32
            } else {
                0u32
            })
        } else if off == REG_AQA {
            self.aqa
        } else if off == REG_INTMS {
            self.intms
        } else {
            0
        }
    }

    /// A 64-bit register read.
    pub fn read_reg64(&self, off: u64) -> (r: u64)
        ensures
            off == REG_CAP ==> r == self.cap,
            off == REG_ASQ ==> r == self.asq,
            off == REG_ACQ ==> r == self.acq,
    {
        if off == REG_CAP {
            self.cap
        } else if off == REG_ASQ {
            self.asq
        } else if off == REG_ACQ {
            self.acq
        } else {
            0
        }
    }

    /// This model with its admin submission-ring base replaced.
    pub open spec fn with_asq(self, v: u64) -> DeviceModel {
        DeviceModel { asq: v, ..self }
    }

    /// This model with its admin completion-ring base replaced.
    pub open spec fn with_acq(self, v: u64) -> DeviceModel {
        DeviceModel { acq: v, ..self }
    }

    /// A 64-bit register write; the ring-base registers take effect as a
    /// single store.
    pub fn write_reg64(&mut self, off: u64, v: u64)
        requires
            old(self).wf(),
        ensures
            final(self).wf(),
            off == REG_ASQ ==> *final(self) == old(self).with_asq(v),
            off == REG_ACQ ==> *final(self) == old(self).with_acq(v),
            off != REG_ASQ && off != REG_ACQ ==> *final(self) == *old(self),
    {
        if off == REG_ASQ {
            self.asq = v;
        } else if off == REG_ACQ {
            self.acq = v;
        }
    }

    /// The admin depth named by an admin-queue-attributes word.
    pub open spec fn aqa_depth(aqa: u32) -> int {
        (aqa & 0xfff) + 1
    }

    /// This model with its admin-queue attributes replaced.
    pub open spec fn with_aqa(self, v: u32) -> DeviceModel {
        DeviceModel { aqa: v, ..self }
    }

    /// This model with its interrupt mask replaced.
    pub open spec fn with_intms(self, v: u32) -> DeviceModel {
        DeviceModel { intms: v, ..self }
    }

    /// What a write of `v` to the configuration register does: the ready
    /// bit follows the enable bit (unless the fatal-status bit is raised),
    /// a shutdown notification completes immediately, and an enable edge
    /// creates the admin ring pair from the attributes register.
    pub open spec fn cc_write_effect(pre: DeviceModel, post: DeviceModel, v: u32) -> bool {
        &&& post.cc == v
        &&& post.vs == pre.vs
        &&& post.intms == pre.intms
        &&& post.rdy == (v & 1 == 1 && !pre.cfs)
        &&& post.shst_complete == (pre.shst_complete || v & CC_SHN_MASK != 0)
        &&& post.cfs == pre.cfs
        &&& post.namespaces@ == pre.namespaces@
        &&& post.stalled == pre.stalled
        &&& post.io_grant == pre.io_grant
        &&& post.ident == pre.ident
        &&& post.cap == pre.cap
        &&& post.dstrd == pre.dstrd
        &&& post.aqa == pre.aqa
        &&& post.asq == pre.asq
        &&& post.acq == pre.acq
        &&& post.queues@.len() == pre.queues@.len()
        &&& if v & 1 == 1 && !(pre.cc & 1 == 1) {
            if 2 <= Self::aqa_depth(pre.aqa) <= 0x1000 {
                post.queues@ == pre.queues@.update(
                    0,
                    DevQueueState::fresh_spec(((pre.aqa & 0xfff) + 1) as u16),
                )
            } else {
                post.queues@ == pre.queues@
            }
        } else {
            post.queues@ == pre.queues@
        }
    }

    /// What a write of `v` to the SQ-tail doorbell of queue `qi` does: an
    /// acceptable ring hands the device the new tail and its pending delta;
    /// anything else is ignored.
    pub open spec fn sq_db_effect(pre: DeviceModel, post: DeviceModel, qi: int, v: u32) -> bool {
        &&& post.namespaces@ == pre.namespaces@
        &&& post.vs == pre.vs
        &&& post.aqa == pre.aqa
        &&& post.asq == pre.asq
        &&& post.acq == pre.acq
        &&& post.intms == pre.intms
        &&& post.dstrd == pre.dstrd
        &&& post.cfs == pre.cfs
        &&& post.rdy == pre.rdy
        &&& post.shst_complete == pre.shst_complete
        &&& post.stalled == pre.stalled
        &&& post.io_grant == pre.io_grant
        &&& post.ident == pre.ident
        &&& post.cap == pre.cap
        &&& post.cc == pre.cc
        &&& post.queues@.len() == pre.queues@.len()
        &&& forall|j: int|
            0 <= j < pre.queues@.len() && j != qi ==> post.queues@[j] == pre.queues@[j]
        &&& if ring_ok(pre.queues@[qi], v) {
            post.queues@[qi] == rung(pre.queues@[qi], v)
        } else {
            post.queues@[qi] == pre.queues@[qi]
        }
    }

    /// The SQ-tail doorbell offset of queue `qi` on this model.
    pub open spec fn sq_db_off(self, qi: int) -> int {
        crate::regs::sq_doorbell_spec(qi as u16, crate::regs::db_stride_spec(self.dstrd))
    }

    /// The CQ-head doorbell offset of queue `qi` on this model.
    pub open spec fn cq_db_off(self, qi: int) -> int {
        crate::regs::cq_doorbell_spec(qi as u16, crate::regs::db_stride_spec(self.dstrd))
    }

    /// A 32-bit register write.  The configuration register acts as
    /// `cc_write_effect` says, a doorbell write as `sq_db_effect` says, and
    /// the other writable offsets store their value.
    #[verifier::rlimit(30)]
    pub fn write_reg32(&mut self, off: u64, v: u32)
        requires
            old(self).wf(),
        ensures
            final(self).wf(),
            off == REG_AQA ==> *final(self) == old(self).with_aqa(v),
            off == REG_INTMS ==> *final(self) == old(self).with_intms(old(self).intms | v),
            off == REG_INTMC ==> *final(self) == old(self).with_intms(old(self).intms & !v),
            off == REG_CC ==> Self::cc_write_effect(*old(self), *final(self), v),
            off == old(self).sq_db_off(0) ==> Self::sq_db_effect(*old(self), *final(self), 0, v),
            off == old(self).sq_db_off(1) ==> Self::sq_db_effect(*old(self), *final(self), 1, v),
            off == old(self).cq_db_off(0) || off == old(self).cq_db_off(1) ==> *final(self)
                == *old(self),
            !(off == REG_AQA || off == REG_INTMS || off == REG_INTMC || off == REG_CC || off
                == old(self).sq_db_off(
                0,
            ) || off == old(self).sq_db_off(1) || off == old(self).cq_db_off(0) || off == old(
                self,
            ).cq_db_off(1)) ==> *final(self) == *old(self),
    {
        let stride = db_stride(self.dstrd);
        proof {
            assert(old(self).sq_db_off(0) == 0x1000);
            assert(old(self).sq_db_off(1) == 0x1000 + 2 * stride);
            assert(old(self).cq_db_off(0) == 0x1000 + stride);
            assert(old(self).cq_db_off(1) == 0x1000 + 3 * stride);
        }
        if off == REG_AQA {
            self.aqa = v;
        } else if off == REG_INTMS {
            // interrupt mask set: a one masks its vector
            self.intms = self.intms | v;
        } else if off == REG_INTMC {
            // interrupt mask clear: a one unmasks its vector
            self.intms = self.intms & !v;
        } else if off == REG_CC {
            let was_enabled = self.cc & 1 == 1;
            self.cc = v;
            let enable = v & 1 == 1;
            self.rdy = enable && !self.cfs;
            if v & CC_SHN_MASK != 0 {
                self.shst_complete = true;
            }
            if enable && !was_enabled {
                proof {
                    let a = self.aqa;
                    assert((a & 0xfff) <= 0xfff) by (bit_vector);
                }
                let d: u32 = (self.aqa & 0xfff) + 1;
                if 2 <= d && d <= 0x1000 {
                    self.queues.set(0, DevQueueState::fresh(d as u16));
                }
            }
        } else if off == sq_doorbell(0, stride) {
            let q = self.queues[0];
            if ring_ok_exec(&q, v) {
                self.queues.set(0, rung_exec(&q, v));
            }
        } else if off == sq_doorbell(1, stride) {
            let q = self.queues[1];
            if ring_ok_exec(&q, v) {
                self.queues.set(1, rung_exec(&q, v));
            }
        } else if off == cq_doorbell(0, stride) || off == cq_doorbell(1, stride) {
            // the CQ-head doorbell only tells the device how far the driver
            // has read; the model needs no bookkeeping for it
        }
    }
}

impl DeviceModel {
    /// Field-by-field equality of everything but the namespaces.
    pub open spec fn same_but_namespaces(pre: DeviceModel, post: DeviceModel) -> bool {
        &&& post.cap == pre.cap
        &&& post.vs == pre.vs
        &&& post.cc == pre.cc
        &&& post.rdy == pre.rdy
        &&& post.cfs == pre.cfs
        &&& post.shst_complete == pre.shst_complete
        &&& post.aqa == pre.aqa
        &&& post.asq == pre.asq
        &&& post.acq == pre.acq
        &&& post.intms == pre.intms
        &&& post.dstrd == pre.dstrd
        &&& post.queues@ == pre.queues@
        &&& post.ident == pre.ident
        &&& post.io_grant == pre.io_grant
        &&& post.stalled == pre.stalled
    }

    /// Field-by-field equality of everything but the queue cursors.
    pub open spec fn same_but_queues(pre: DeviceModel, post: DeviceModel) -> bool {
        &&& post.cap == pre.cap
        &&& post.vs == pre.vs
        &&& post.cc == pre.cc
        &&& post.rdy == pre.rdy
        &&& post.cfs == pre.cfs
        &&& post.shst_complete == pre.shst_complete
        &&& post.aqa == pre.aqa
        &&& post.asq == pre.asq
        &&& post.acq == pre.acq
        &&& post.intms == pre.intms
        &&& post.dstrd == pre.dstrd
        &&& post.namespaces@ == pre.namespaces@
        &&& post.ident == pre.ident
        &&& post.io_grant == pre.io_grant
        &&& post.stalled == pre.stalled
        &&& post.queues@.len() == pre.queues@.len()
    }

    /// Consumes one doorbelled submission entry of queue `qi`: the device's
    /// submission head advances modulo the depth and one pending entry is
    /// accounted for.
    pub fn consume_one(&mut self, qi: usize) -> (new_head: u16)
        requires
            old(self).wf(),
            qi < DEV_QUEUE_COUNT,
            old(self).queues@[qi as int].sq_created,
            old(self).queues@[qi as int].pending >= 1,
        ensures
            final(self).wf(),
            Self::same_but_queues(*old(self), *final(self)),
            forall|j: int|
                0 <= j < DEV_QUEUE_COUNT && j != qi ==> final(self).queues@[j] == old(
                    self,
                ).queues@[j],
            final(self).queues@[qi as int].sq_head == (if old(self).queues@[qi as int].sq_head
                + 1 == old(self).queues@[qi as int].depth {
                0u16
            } else {
                (old(self).queues@[qi as int].sq_head + 1) as u16
            }),
            final(self).queues@[qi as int].pending == old(self).queues@[qi as int].pending - 1,
            new_head == final(self).queues@[qi as int].sq_head,
            final(self).queues@[qi as int] == (DevQueueState {
                sq_head: final(self).queues@[qi as int].sq_head,
                pending: final(self).queues@[qi as int].pending,
                ..old(self).queues@[qi as int]
            }),
    {
        let q = self.queues[qi];
        let new_head: u16 = if q.sq_head + 1 == q.depth {
            0
        } else {
            q.sq_head + 1
        };
        let nq = DevQueueState { sq_head: new_head, pending: q.pending - 1, ..q };
        self.queues.set(qi, nq);
        new_head
    }

    /// Takes the completion slot and posting phase for the next completion
    /// of queue `qi`, advancing the completion tail modulo the depth; the
    /// posting phase flips exactly when the tail wraps.
    pub fn post_slot(&mut self, qi: usize) -> (r: (u16, u8))
        requires
            old(self).wf(),
            qi < DEV_QUEUE_COUNT,
            old(self).queues@[qi as int].sq_created,
        ensures
            final(self).wf(),
            Self::same_but_queues(*old(self), *final(self)),
            forall|j: int|
                0 <= j < DEV_QUEUE_COUNT && j != qi ==> final(self).queues@[j] == old(
                    self,
                ).queues@[j],
            r.0 == old(self).queues@[qi as int].cq_tail,
            r.1 == old(self).queues@[qi as int].phase,
            final(self).queues@[qi as int].cq_tail == (if old(self).queues@[qi as int].cq_tail
                + 1 == old(self).queues@[qi as int].depth {
                0u16
            } else {
                (old(self).queues@[qi as int].cq_tail + 1) as u16
            }),
            final(self).queues@[qi as int].phase == (if old(self).queues@[qi as int].cq_tail + 1
                == old(self).queues@[qi as int].depth {
                (1 - old(self).queues@[qi as int].phase) as u8
            } else {
                old(self).queues@[qi as int].phase
            }),
            final(self).queues@[qi as int] == (DevQueueState {
                cq_tail: final(self).queues@[qi as int].cq_tail,
                phase: final(self).queues@[qi as int].phase,
                ..old(self).queues@[qi as int]
            }),
    {
        let q = self.queues[qi];
        let slot = q.cq_tail;
        let phase = q.phase;
        let wrapped = q.cq_tail + 1 == q.depth;
        let nq = DevQueueState {
            cq_tail: if wrapped {
                0
            } else {
                q.cq_tail + 1
            },
            phase: if wrapped {
                1 - q.phase
            } else {
                q.phase
            },
            ..q
        };
        self.queues.set(qi, nq);
        (slot, phase)
    }
}

/// Field-by-field equality of two namespaces' metadata (everything but the
/// backing blocks).
pub open spec fn same_ns_meta(a: NsModel, b: NsModel) -> bool {
    &&& a.nsid == b.nsid
    &&& a.lba_shift == b.lba_shift
    &&& a.block_size == b.block_size
    &&& a.nlbas == b.nlbas
    &&& a.dlfeat == b.dlfeat
}

/// Whether an I/O command's LBA range lies inside namespace `ns`.
pub open spec fn lba_range_ok(ns: NsModel, lba: u64, nb: int) -> bool {
    lba + nb <= ns.nlbas
}

/// Whether `[prp, prp + len)` lies inside a memory of `mlen` bytes.
pub open spec fn buf_range_ok(prp: u64, len: int, mlen: int) -> bool {
    prp + len <= mlen
}

/// What executing one I/O command does to the namespaces and the host
/// memory, and which status field it earns.  `m0`/`m1` are the memory
/// before and after; namespaces other than the addressed one never change,
/// and no namespace's geometry ever changes.
pub open spec fn io_effect(pre: DeviceModel, post: DeviceModel, m0: Seq<u8>, m1: Seq<u8>,
    cmd: NvmeCommand, sc: u16) -> bool {
    let op = cmd_opcode(cmd);
    let nsid = cmd.nsid;
    if !pre.ns_ok(nsid) {
        sc == SC_INVALID_NAMESPACE && post.namespaces@ == pre.namespaces@ && m1 == m0
    } else {
        let ns = pre.the_ns(nsid);
        let lba = cmd_lba(cmd);
        let nb = cmd_nblocks(cmd);
        let bs = ns.block_size as int;
        let off = lba * bs;
        let len = nb * bs;
        let idx = nsid - 1;
        if op == CMD_FLUSH {
            sc == SC_SUCCESS && post.namespaces@ == pre.namespaces@ && m1 == m0
        } else if op == CMD_READ {
            if !lba_range_ok(ns, lba, nb) {
                sc == SC_LBA_OUT_OF_RANGE && post.namespaces@ == pre.namespaces@ && m1 == m0
            } else if !buf_range_ok(cmd.prp1, len, m0.len() as int) {
                sc == SC_INVALID_FIELD && post.namespaces@ == pre.namespaces@ && m1 == m0
            } else {
                &&& sc == SC_SUCCESS
                &&& post.namespaces@ == pre.namespaces@
                &&& m1 == splice(m0, cmd.prp1 as int, ns.data@.subrange(off, off + len))
            }
        } else if op == CMD_WRITE {
            if !lba_range_ok(ns, lba, nb) {
                sc == SC_LBA_OUT_OF_RANGE && post.namespaces@ == pre.namespaces@ && m1 == m0
            } else if !buf_range_ok(cmd.prp1, len, m0.len() as int) {
                sc == SC_INVALID_FIELD && post.namespaces@ == pre.namespaces@ && m1 == m0
            } else {
                &&& sc == SC_SUCCESS
                &&& m1 == m0
                &&& post.namespaces@.len() == pre.namespaces@.len()
                &&& forall|j: int|
                    0 <= j < pre.namespaces@.len() && j != idx ==> post.namespaces@[j]
                        == pre.namespaces@[j]
                &&& same_ns_meta(post.namespaces@[idx], ns)
                &&& post.namespaces@[idx].data@ == splice(
                    ns.data@,
                    off,
                    m0.subrange(cmd.prp1 as int, cmd.prp1 + len),
                )
            }
        } else if op == CMD_COMPARE {
            if !lba_range_ok(ns, lba, nb) {
                sc == SC_LBA_OUT_OF_RANGE && post.namespaces@ == pre.namespaces@ && m1 == m0
            } else if !buf_range_ok(cmd.prp1, len, m0.len() as int) {
                sc == SC_INVALID_FIELD && post.namespaces@ == pre.namespaces@ && m1 == m0
            } else {
                &&& post.namespaces@ == pre.namespaces@
                &&& m1 == m0
                &&& sc == (if m0.subrange(cmd.prp1 as int, cmd.prp1 + len) == ns.data@.subrange(
                    off,
                    off + len,
                ) {
                    SC_SUCCESS
                } else {
                    SC_COMPARE_FAILURE
                })
            }
        } else if op == CMD_WRITE_ZEROES {
            if !lba_range_ok(ns, lba, nb) {
                sc == SC_LBA_OUT_OF_RANGE && post.namespaces@ == pre.namespaces@ && m1 == m0
            } else {
                &&& sc == SC_SUCCESS
                &&& m1 == m0
                &&& post.namespaces@.len() == pre.namespaces@.len()
                &&& forall|j: int|
                    0 <= j < pre.namespaces@.len() && j != idx ==> post.namespaces@[j]
                        == pre.namespaces@[j]
                &&& same_ns_meta(post.namespaces@[idx], ns)
                &&& zeroed_range(ns.data@, post.namespaces@[idx].data@, off, len)
            }
        } else if op == CMD_DSM {
            if !buf_range_ok(cmd.prp1, 16, m0.len() as int) {
                sc == SC_INVALID_FIELD && post.namespaces@ == pre.namespaces@ && m1 == m0
            } else {
                let tnlb = le32_val(m0.subrange(cmd.prp1 + 4, cmd.prp1 + 8)) as int;
                let tlba = le64_val(m0.subrange(cmd.prp1 + 8, cmd.prp1 + 16));
                let toff = tlba * bs;
                let tlen = tnlb * bs;
                if tnlb < 1 || !lba_range_ok(ns, tlba, tnlb) {
                    sc == SC_LBA_OUT_OF_RANGE && post.namespaces@ == pre.namespaces@ && m1 == m0
                } else {
                    &&& sc == SC_SUCCESS
                    &&& m1 == m0
                    &&& post.namespaces@.len() == pre.namespaces@.len()
                    &&& forall|j: int|
                        0 <= j < pre.namespaces@.len() && j != idx ==> post.namespaces@[j]
                            == pre.namespaces@[j]
                    &&& same_ns_meta(post.namespaces@[idx], ns)
                    &&& if ns.deallocate_zeroes() {
                        zeroed_range(ns.data@, post.namespaces@[idx].data@, toff, tlen)
                    } else {
                        post.namespaces@[idx].data@ == ns.data@
                    }
                }
            }
        } else {
            sc == SC_INVALID_OPCODE && post.namespaces@ == pre.namespaces@ && m1 == m0
        }
    }
}

/// `d1` is `d0` with `[off, off + len)` zeroed and everything else kept.
pub open spec fn zeroed_range(d0: Seq<u8>, d1: Seq<u8>, off: int, len: int) -> bool {
    &&& d1.len() == d0.len()
    &&& forall|j: int| 0 <= j < d0.len() && !(off <= j < off + len) ==> d1[j] == d0[j]
    &&& forall|j: int| off <= j < off + len ==> d1[j] == 0
}

impl DeviceModel {
    /// Executes one I/O command against a namespace and the host memory,
    /// exactly as `io_effect` says; the completion's result dword is 0.
    pub fn execute_io(&mut self, cmd: &NvmeCommand, mem: &mut Vec<u8>) -> (r: (u16, u32))
        requires
            old(self).wf(),
        ensures
            final(self).wf(),
            Self::same_but_namespaces(*old(self), *final(self)),
            io_effect(*old(self), *final(self), old(mem)@, final(mem)@, *cmd, r.0),
            r.0 <= 0xff,
            r.1 == 0,
    {
        let op: u8 = (cmd.cdw0 & 0xff) as u8;
        let nsid = cmd.nsid;
        if nsid == 0 || nsid as usize > self.namespaces.len() {
            return (SC_INVALID_NAMESPACE, 0);
        }
        let idx = (nsid - 1) as usize;
        if op == CMD_FLUSH {
            return (SC_SUCCESS, 0);
        }
        if !(op == CMD_READ || op == CMD_WRITE || op == CMD_COMPARE || op == CMD_WRITE_ZEROES
            || op == CMD_DSM) {
            return (SC_INVALID_OPCODE, 0);
        }
        let mut ns = self.namespaces.remove(idx);
        let ghost pre_ns_seq = old(self).namespaces@;
        proof {
            let w = cmd.cdw12;
            assert((w & 0xffff) <= 0xffff) by (bit_vector);
            assert(ns == old(self).namespaces@[idx as int]);
            assert(ns.wf());
        }
        let lba: u64 = (cmd.cdw10 as u64) | ((cmd.cdw11 as u64) << 32);
        let nb: u32 = (cmd.cdw12 & 0xffff) + 1;
        let bs: u32 = ns.block_size;
        let dlen: usize = ns.data.len();
        let sc: u16;
        if op == CMD_DSM {
            if 16 > mem.len() as u64 || cmd.prp1 > mem.len() as u64 - 16 {
                sc = SC_INVALID_FIELD;
            } else {
                let p = cmd.prp1 as usize;
                let tnlb: u32 = get_le32(mem, p + 4);
                let tlba: u64 = get_le64(mem, p + 8);
                if tnlb < 1 || tlba >= ns.nlbas || tnlb as u64 > ns.nlbas - tlba {
                    sc = SC_LBA_OUT_OF_RANGE;
                } else {
                    proof {
                        lemma_ns_range(tlba as int, tnlb as int, ns.nlbas as int, bs as int);
                        assert(tlba * bs + tnlb * bs <= dlen);
                    }
                    let toff: u64 = tlba * (bs as u64);
                    let tlen: u64 = (tnlb as u64) * (bs as u64);
                    if ns.dlfeat & 1 == 1 {
                        fill_range(&mut ns.data, toff as usize, tlen as usize, 0);
                    }
                    sc = SC_SUCCESS;
                }
            }
        } else if lba >= ns.nlbas || nb as u64 > ns.nlbas - lba {
            sc = SC_LBA_OUT_OF_RANGE;
        } else {
            proof {
                lemma_ns_range(lba as int, nb as int, ns.nlbas as int, bs as int);
                assert(lba * bs + nb * bs <= dlen);
            }
            let off: u64 = lba * (bs as u64);
            let len: u64 = (nb as u64) * (bs as u64);
            if op == CMD_WRITE_ZEROES {
                fill_range(&mut ns.data, off as usize, len as usize, 0);
                sc = SC_SUCCESS;
            } else if len > mem.len() as u64 || cmd.prp1 > mem.len() as u64 - len {
                sc = SC_INVALID_FIELD;
            } else if op == CMD_READ {
                let tmp = read_range(&ns.data, off as usize, len as usize);
                copy_into(mem, cmd.prp1 as usize, &tmp);
                sc = SC_SUCCESS;
            } else if op == CMD_WRITE {
                let tmp = read_range(mem, cmd.prp1 as usize, len as usize);
                copy_into(&mut ns.data, off as usize, &tmp);
                sc = SC_SUCCESS;
            } else {
                let a = read_range(mem, cmd.prp1 as usize, len as usize);
                let b = read_range(&ns.data, off as usize, len as usize);
                sc = if bytes_equal(&a, &b) {
                    SC_SUCCESS
                } else {
                    SC_COMPARE_FAILURE
                };
            }
        }
        self.namespaces.insert(idx, ns);
        proof {
            let i = idx as int;
            assert(self.namespaces@ =~= pre_ns_seq.update(i, self.namespaces@[i]));
            if self.namespaces@[i] == pre_ns_seq[i] {
                assert(pre_ns_seq.update(i, pre_ns_seq[i]) =~= pre_ns_seq);
            }
        }
        (sc, 0)
    }
}

/// The identify-namespace geometry of `ns`.
pub open spec fn ns_geometry(ns: NsModel) -> NvmeIdNs {
    NvmeIdNs { nsze: ns.nlbas, flbas: 0, dlfeat: ns.dlfeat, ms: 0, lba_shift: ns.lba_shift }
}

/// The number-of-queues grant for a request of `want` I/O queues against a
/// model granting at most `have`: the smaller of the two.
pub open spec fn queue_grant(want: int, have: int) -> int {
    if want <= have {
        want
    } else {
        have
    }
}

/// The packed completion result carrying a grant of `g` submission and `g`
/// completion queues, zero-based in both halves.
pub open spec fn grant_result(g: int) -> u32 {
    (((g - 1) as u32) | (((g - 1) as u32) << 16)) as u32
}

/// `m1` is `m0` unchanged outside `[base, base + ID_PAYLOAD_LEN)`.
pub open spec fn frame_outside(m0: Seq<u8>, m1: Seq<u8>, base: int) -> bool {
    &&& m1.len() == m0.len()
    &&& forall|j: int|
        0 <= j < m0.len() && !(base <= j < base + ID_PAYLOAD_LEN) ==> m1[j] == m0[j]
}

/// What executing one admin command does.  Identify places a 4096-byte
/// payload at the region pointer; the features commands negotiate the
/// number of queues; the queue-management commands create or delete the
/// I/O ring pair, completion ring first on create, submission ring first
/// on delete.  The abort command is not handled here: it needs the rings.
pub open spec fn admin_effect(pre: DeviceModel, post: DeviceModel, m0: Seq<u8>, m1: Seq<u8>,
    cmd: NvmeCommand, sc: u16, res: u32) -> bool {
    let op = cmd_opcode(cmd);
    let qid = cmd.cdw10 & 0xffff;
    let depth = ((cmd.cdw10 >> 16) & 0xffff) + 1;
    let ioq = pre.queues@[1];
    if op == ADMIN_IDENTIFY {
        if cmd.cdw10 == CNS_CONTROLLER {
            if !buf_range_ok(cmd.prp1, ID_PAYLOAD_LEN as int, m0.len() as int) {
                sc == SC_INVALID_FIELD && res == 0 && m1 == m0 && post.queues@[1] == pre.queues@[1]
            } else {
                &&& sc == SC_SUCCESS
                &&& res == 0
                &&& post.queues@[1] == pre.queues@[1]
                &&& frame_outside(m0, m1, cmd.prp1 as int)
                &&& id_ctrl_at(m1, cmd.prp1 as int, pre.ident)
            }
        } else if cmd.cdw10 == CNS_NAMESPACE {
            if !pre.ns_ok(cmd.nsid) {
                sc == SC_INVALID_NAMESPACE && res == 0 && m1 == m0 && post.queues@[1]
                    == pre.queues@[1]
            } else if !buf_range_ok(cmd.prp1, ID_PAYLOAD_LEN as int, m0.len() as int) {
                sc == SC_INVALID_FIELD && res == 0 && m1 == m0 && post.queues@[1] == pre.queues@[1]
            } else {
                &&& sc == SC_SUCCESS
                &&& res == 0
                &&& post.queues@[1] == pre.queues@[1]
                &&& frame_outside(m0, m1, cmd.prp1 as int)
                &&& id_ns_at(m1, cmd.prp1 as int, ns_geometry(pre.the_ns(cmd.nsid)))
            }
        } else {
            sc == SC_INVALID_FIELD && res == 0 && m1 == m0 && post.queues@[1] == pre.queues@[1]
        }
    } else if op == ADMIN_SET_FEATURES || op == ADMIN_GET_FEATURES {
        if cmd.cdw10 == FEAT_NUM_QUEUES {
            let want = if op == ADMIN_SET_FEATURES {
                ((cmd.cdw11 & 0xffff) + 1) as int
            } else {
                pre.io_grant as int
            };
            &&& sc == SC_SUCCESS
            &&& res == grant_result(queue_grant(want, pre.io_grant as int))
            &&& m1 == m0
            &&& post.queues@[1] == pre.queues@[1]
        } else {
            sc == SC_INVALID_FIELD && res == 0 && m1 == m0 && post.queues@[1] == pre.queues@[1]
        }
    } else if op == ADMIN_CREATE_CQ {
        if qid == 1 && 2 <= depth && depth <= cap_mqes(pre.cap) + 1 && depth <= 0xffff
            && !ioq.cq_created {
            &&& sc == SC_SUCCESS
            &&& res == 0
            &&& m1 == m0
            &&& post.queues@[1] == (DevQueueState {
                cq_created: true,
                sq_created: false,
                depth: depth as u16,
                sq_head: 0,
                db_tail: 0,
                pending: 0,
                cq_tail: 0,
                phase: 1,
            })
        } else {
            sc == SC_INVALID_FIELD && res == 0 && m1 == m0 && post.queues@[1] == pre.queues@[1]
        }
    } else if op == ADMIN_CREATE_SQ {
        if qid == 1 && ioq.cq_created && !ioq.sq_created && depth == ioq.depth && (cmd.cdw11
            >> 16) & 0xffff == 1 {
            &&& sc == SC_SUCCESS
            &&& res == 0
            &&& m1 == m0
            &&& post.queues@[1] == DevQueueState::fresh_spec(ioq.depth)
        } else {
            sc == SC_INVALID_FIELD && res == 0 && m1 == m0 && post.queues@[1] == pre.queues@[1]
        }
    } else if op == ADMIN_DELETE_SQ {
        if qid == 1 && ioq.sq_created {
            &&& sc == SC_SUCCESS
            &&& res == 0
            &&& m1 == m0
            &&& post.queues@[1] == (DevQueueState { sq_created: false, ..ioq })
        } else {
            sc == SC_INVALID_FIELD && res == 0 && m1 == m0 && post.queues@[1] == pre.queues@[1]
        }
    } else if op == ADMIN_DELETE_CQ {
        if qid == 1 && ioq.cq_created && !ioq.sq_created {
            &&& sc == SC_SUCCESS
            &&& res == 0
            &&& m1 == m0
            &&& post.queues@[1] == DevQueueState::absent_spec()
        } else {
            sc == SC_INVALID_FIELD && res == 0 && m1 == m0 && post.queues@[1] == pre.queues@[1]
        }
    } else {
        sc == SC_INVALID_OPCODE && res == 0 && m1 == m0 && post.queues@[1] == pre.queues@[1]
    }
}

impl DeviceModel {
    /// Executes one admin command (identify, features, queue management)
    /// against the model and the host memory, exactly as `admin_effect`
    /// says.
    pub fn execute_admin(&mut self, cmd: &NvmeCommand, mem: &mut Vec<u8>) -> (r: (u16, u32))
        requires
            old(self).wf(),
        ensures
            final(self).wf(),
            Self::same_but_queues(*old(self), *final(self)),
            admin_effect(*old(self), *final(self), old(mem)@, final(mem)@, *cmd, r.0, r.1),
            final(self).queues@[0] == old(self).queues@[0],
            r.0 <= 0xff,
    {
        let op: u8 = (cmd.cdw0 & 0xff) as u8;
        let qid: u32 = cmd.cdw10 & 0xffff;
        proof {
            let w = cmd.cdw10;
            assert(((w >> 16) & 0xffff) <= 0xffff) by (bit_vector);
            let x = cmd.cdw11;
            assert((x & 0xffff) <= 0xffff) by (bit_vector);
        }
        let depth: u32 = ((cmd.cdw10 >> 16) & 0xffff) + 1;
        let ioq = self.queues[1];
        if op == ADMIN_IDENTIFY {
            if cmd.cdw10 == CNS_CONTROLLER {
                if ID_PAYLOAD_LEN as u64 > mem.len() as u64 || cmd.prp1 > mem.len() as u64
                    - ID_PAYLOAD_LEN as u64 {
                    return (SC_INVALID_FIELD, 0);
                }
                write_id_ctrl(mem, cmd.prp1 as usize, &self.ident);
                return (SC_SUCCESS, 0);
            } else if cmd.cdw10 == CNS_NAMESPACE {
                if cmd.nsid == 0 || cmd.nsid as usize > self.namespaces.len() {
                    return (SC_INVALID_NAMESPACE, 0);
                }
                if ID_PAYLOAD_LEN as u64 > mem.len() as u64 || cmd.prp1 > mem.len() as u64
                    - ID_PAYLOAD_LEN as u64 {
                    return (SC_INVALID_FIELD, 0);
                }
                let idx = (cmd.nsid - 1) as usize;
                let geometry = NvmeIdNs {
                    nsze: self.namespaces[idx].nlbas,
                    flbas: 0,
                    dlfeat: self.namespaces[idx].dlfeat,
                    ms: 0,
                    lba_shift: self.namespaces[idx].lba_shift,
                };
                write_id_ns(mem, cmd.prp1 as usize, &geometry);
                return (SC_SUCCESS, 0);
            } else {
                return (SC_INVALID_FIELD, 0);
            }
        } else if op == ADMIN_SET_FEATURES || op == ADMIN_GET_FEATURES {
            if cmd.cdw10 == FEAT_NUM_QUEUES {
                let want: u32 = if op == ADMIN_SET_FEATURES {
                    (cmd.cdw11 & 0xffff) + 1
                } else {
                    self.io_grant as u32
                };
                let g: u32 = if want <= self.io_grant as u32 {
                    want
                } else {
                    self.io_grant as u32
                };
                let res: u32 = (g - 1) | ((g - 1) << 16);
                return (SC_SUCCESS, res);
            } else {
                return (SC_INVALID_FIELD, 0);
            }
        } else if op == ADMIN_CREATE_CQ {
            proof {
                let c = self.cap;
                assert((c & 0xffff) <= 0xffff) by (bit_vector);
            }
            let mq: u64 = self.cap & 0xffff;
            if qid == 1 && 2 <= depth && depth as u64 <= mq + 1 && depth <= 0xffff
                && !ioq.cq_created {
                self.queues.set(
                    1,
                    DevQueueState {
                        cq_created: true,
                        sq_created: false,
                        depth: depth as u16,
                        sq_head: 0,
                        db_tail: 0,
                        pending: 0,
                        cq_tail: 0,
                        phase: 1,
                    },
                );
                return (SC_SUCCESS, 0);
            } else {
                return (SC_INVALID_FIELD, 0);
            }
        } else if op == ADMIN_CREATE_SQ {
            if qid == 1 && ioq.cq_created && !ioq.sq_created && depth == ioq.depth as u32 && (
            cmd.cdw11 >> 16) & 0xffff == 1 {
                self.queues.set(1, DevQueueState::fresh(ioq.depth));
                return (SC_SUCCESS, 0);
            } else {
                return (SC_INVALID_FIELD, 0);
            }
        } else if op == ADMIN_DELETE_SQ {
            if qid == 1 && ioq.sq_created {
                self.queues.set(1, DevQueueState { sq_created: false, ..ioq });
                return (SC_SUCCESS, 0);
            } else {
                return (SC_INVALID_FIELD, 0);
            }
        } else if op == ADMIN_DELETE_CQ {
            if qid == 1 && ioq.cq_created && !ioq.sq_created {
                self.queues.set(1, DevQueueState::absent());
                return (SC_SUCCESS, 0);
            } else {
                return (SC_INVALID_FIELD, 0);
            }
        } else {
            return (SC_INVALID_OPCODE, 0);
        }
    }
}

/// `(lba + nb) * bs` stays within a namespace of `nlbas` blocks.
proof fn lemma_ns_range(lba: int, nb: int, nlbas: int, bs: int)
    by (nonlinear_arith)
    requires
        0 <= lba,
        0 <= nb,
        lba + nb <= nlbas,
        0 <= bs,
    ensures
        lba * bs + nb * bs <= nlbas * bs,
        0 <= lba * bs,
        0 <= nb * bs,
{
}

/// Whether two byte vectors hold the same bytes.
fn bytes_equal(a: &Vec<u8>, b: &Vec<u8>) -> (r: bool)
    ensures
        r == (a@ == b@),
{
    if a.len() != b.len() {
        proof {
            assert(a@.len() != b@.len());
        }
        return false;
    }
    let n = a.len();
    let mut i: usize = 0;
    while i < n
        invariant
            i <= n,
            n == a@.len(),
            n == b@.len(),
            forall|j: int| 0 <= j < i ==> a@[j] == b@[j],
        decreases n - i,
    {
        if a[i] != b[i] {
            return false;
        }
        i = i + 1;
    }
    proof {
        assert(a@ =~= b@);
    }
    true
}

/// Whether a SQ-tail doorbell write of `v` is acceptable on cursors `q`.
pub open spec fn ring_ok(q: DevQueueState, v: u32) -> bool {
    &&& q.sq_created
    &&& q.cq_created
    &&& (v as int) < q.depth
    &&& q.pending + ring_delta(q, v) <= q.depth
}

/// How many new entries a doorbell write of `v` announces.
pub open spec fn ring_delta(q: DevQueueState, v: u32) -> int {
    if v >= q.db_tail {
        v - q.db_tail
    } else {
        v + q.depth - q.db_tail
    }
}

/// The cursors after an accepted doorbell write of `v`.
pub open spec fn rung(q: DevQueueState, v: u32) -> DevQueueState {
    DevQueueState {
        db_tail: v as u16,
        pending: (q.pending + ring_delta(q, v)) as u16,
        ..q
    }
}

fn ring_ok_exec(q: &DevQueueState, v: u32) -> (r: bool)
    requires
        q.wf(),
    ensures
        r == ring_ok(*q, v),
{
    if !(q.sq_created && q.cq_created) {
        return false;
    }
    if v >= q.depth as u32 {
        return false;
    }
    let delta: u32 = if v >= q.db_tail as u32 {
        v - q.db_tail as u32
    } else {
        (v + q.depth as u32) - q.db_tail as u32
    };
    (q.pending as u32) + delta <= q.depth as u32
}

fn rung_exec(q: &DevQueueState, v: u32) -> (r: DevQueueState)
    requires
        q.wf(),
        ring_ok(*q, v),
    ensures
        r == rung(*q, v),
        r.wf(),
{
    let delta: u32 = if v >= q.db_tail as u32 {
        v - q.db_tail as u32
    } else {
        (v + q.depth as u32) - q.db_tail as u32
    };
    DevQueueState {
        db_tail: v as u16,
        pending: q.pending + delta as u16,
        ..*q
    }
}

/// An admin command's effect only reads the namespaces, identify data,
/// capability, grant, and I/O-queue cursors of the pre state, and only
/// speaks of the I/O-queue cursors of the post state: it transfers to any
/// pair of states that agree on those.
pub proof fn lemma_admin_effect_frame(pre1: DeviceModel, post1: DeviceModel, pre2: DeviceModel,
    post2: DeviceModel, m0: Seq<u8>, m1: Seq<u8>, cmd: NvmeCommand, sc: u16, res: u32)
    requires
        admin_effect(pre1, post1, m0, m1, cmd, sc, res),
        pre2.namespaces@ == pre1.namespaces@,
        pre2.ident == pre1.ident,
        pre2.cap == pre1.cap,
        pre2.io_grant == pre1.io_grant,
        pre2.queues@[1] == pre1.queues@[1],
        post2.queues@[1] == post1.queues@[1],
    ensures
        admin_effect(pre2, post2, m0, m1, cmd, sc, res),
{
    assert(pre2.namespaces@.len() == pre1.namespaces@.len());
    assert(pre2.ns_ok(cmd.nsid) == pre1.ns_ok(cmd.nsid));
    if pre1.ns_ok(cmd.nsid) {
        assert(pre2.the_ns(cmd.nsid) == pre1.the_ns(cmd.nsid));
    }
    assert(cap_mqes(pre2.cap) == cap_mqes(pre1.cap));
}

/// An I/O command's effect only reads the namespaces of the pre state and
/// only speaks of the namespaces of the post state: it transfers to any
/// pair of states that agree on them.
pub proof fn lemma_io_effect_frame(pre1: DeviceModel, post1: DeviceModel, pre2: DeviceModel,
    post2: DeviceModel, m0: Seq<u8>, m1: Seq<u8>, cmd: NvmeCommand, sc: u16)
    requires
        io_effect(pre1, post1, m0, m1, cmd, sc),
        pre2.namespaces@ == pre1.namespaces@,
        post2.namespaces@ == post1.namespaces@,
    ensures
        io_effect(pre2, post2, m0, m1, cmd, sc),
{
    assert(pre2.ns_ok(cmd.nsid) == pre1.ns_ok(cmd.nsid));
    if pre1.ns_ok(cmd.nsid) {
        assert(pre2.the_ns(cmd.nsid) == pre1.the_ns(cmd.nsid));
    }
}

/// How the status bits come back out of a composed status word.
pub proof fn lemma_csts_decode(a: u32, b: u32, c: u32)
    requires
        a == 0 || a == 1,
        b == 0 || b == 2,
        c == 0 || c == 8,
    ensures
        (a | b | c) & 1 == a,
        (a | b | c) & 2 == b,
        (a | b | c) & 0xc == c,
{
    assert((a == 0 || a == 1) && (b == 0 || b == 2) && (c == 0 || c == 8) ==> ((a | b | c) & 1
        == a) && ((a | b | c) & 2 == b) && ((a | b | c) & 0xc == c)) by (bit_vector);
}

} // verus!
