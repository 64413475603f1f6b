//! The controller: the register window, the capability snapshot, the admin
//! and I/O queue pairs, the namespace table, and the lifecycle state
//! machine (disabled, resetting, enabling, ready, shutting down, off, and
//! the terminal failed state).
//!
//! The controller owns the device model it programs, plus a flat host
//! memory standing for the DMA-visible pages.  Callers name their buffers
//! by address into that memory; the first 4096 bytes are reserved for the
//! driver's identify payloads and trim range descriptors.

use vstd::prelude::*;
use crate::bytes::{make_filled, put_le32, put_le64};
use crate::device::{DeviceModel, DevQueueState, NsModel, admin_effect,
    lemma_admin_effect_frame, io_effect, lemma_csts_decode, ring_ok, ring_delta, same_ns_meta,
    zeroed_range};
use crate::identify::{NvmeIdCtrl, NvmeIdNs, ID_PAYLOAD_LEN, read_id_ctrl, read_id_ns,
    lemma_id_ctrl_roundtrip, lemma_id_ns_roundtrip, id_ctrl_at, id_ns_at};
use crate::queue::{NvmeQueue, is_pow2_u16, lemma_count_true_pos};
use crate::regs::{REG_CAP, REG_VS, REG_CC, REG_CSTS, REG_AQA, REG_ASQ, REG_ACQ, CSTS_RDY,
    CSTS_CFS, CSTS_SHST_CMPLT, CSTS_SHST_MASK, CC_SHN_NORMAL, CapSnapshot, db_stride,
    sq_doorbell, cq_doorbell, cc_enable_value, cc_enable_spec, lemma_cc_enable_bits,
    timeout_ms_spec, cap_mqes, lemma_cap_field_bounds};
use crate::status::{IoStatus, IoResult, SC_SUCCESS, SC_ABORT_REQUESTED};
use crate::wire::{NvmeCommand, NvmeCompletion, cmd_cid, cmd_opcode, cpl_phase, cpl_code,
    make_status, build_identify, build_set_features, build_create_cq, build_create_sq,
    build_delete_sq, build_delete_cq, build_io_rw, build_flush, build_dsm, build_abort,
    CNS_CONTROLLER, CNS_NAMESPACE, FEAT_NUM_QUEUES, CMD_READ, CMD_WRITE,
    ADMIN_IDENTIFY, ADMIN_SET_FEATURES, ADMIN_GET_FEATURES, ADMIN_CREATE_CQ, ADMIN_CREATE_SQ,
    ADMIN_DELETE_SQ, ADMIN_DELETE_CQ};

verus! {

/// Depth of the admin queue pair.
pub const ADMIN_QUEUE_DEPTH: u16 = 64;

/// Bytes at the bottom of the host memory reserved for the driver.
pub const DRIVER_RESERVED_MEM: usize = 4096;

/// The lifecycle states of the controller.
#[derive(Clone, Copy, Debug, PartialEq, Eq, Structural)]
pub enum CtrlState {
    Disabled,
    Resetting,
    Enabling,
    Ready,
    ShuttingDown,
    Off,
    Failed,
}

/// A namespace handle: what identify-namespace reported, kept for range
/// checking and block-size arithmetic.
#[derive(Clone, Copy, Debug, PartialEq, Eq, Structural)]
pub struct NsInfo {
    pub nsid: u32,
    pub lba_shift: u8,
    pub block_size: u32,
    pub nlbas: u64,
    pub dlfeat: u8,
    pub metadata_size: u16,
}

/// Whether the driver's namespace table agrees with the device's geometry.
pub open spec fn ns_agree(t: Seq<NsInfo>, d: Seq<NsModel>) -> bool {
    &&& t.len() == d.len()
    &&& forall|i: int|
        0 <= i < t.len() ==> {
            &&& (#[trigger] t[i]).nsid == i + 1
            &&& t[i].lba_shift == d[i].lba_shift
            &&& t[i].block_size == d[i].block_size
            &&& t[i].nlbas == d[i].nlbas
            &&& t[i].dlfeat == d[i].dlfeat
        }
}

/// Whether driver and device views of a queue pair coincide, with nothing
/// in flight: the quiescent point after a doorbell write and completion
/// drain.
pub open spec fn aligned(q: NvmeQueue, dq: DevQueueState) -> bool {
    &&& dq.sq_created
    &&& dq.cq_created
    &&& dq.depth == q.q_depth
    &&& dq.pending == 0
    &&& dq.sq_head == q.sq_tail
    &&& dq.db_tail == q.sq_tail
    &&& dq.cq_tail == q.cq_head
    &&& dq.phase == q.cq_phase
    &&& q.inflight_count == 0
    &&& !q.poisoned
}

/// The resting shape of a freshly built queue pair: cursors at zero, the
/// expected phase at its initial value, nothing outstanding.
pub open spec fn fresh_shape(q: NvmeQueue) -> bool {
    &&& q.sq_tail == 0
    &&& q.cq_head == 0
    &&& q.cq_phase == 1
    &&& q.inflight_count == 0
    &&& !q.poisoned
}

/// The controller: register window, capability snapshot, admin engine, I/O
/// engine, namespace table, and lifecycle state.
pub struct NvmeCtrl {
    /// Lifecycle state.
    pub state: CtrlState,
    /// The device behind the register window.
    pub device: DeviceModel,
    /// Flat DMA-visible host memory; buffers are addresses into it.
    pub mem: Vec<u8>,
    /// Raw capability register, snapshot at bind.
    pub cap: u64,
    /// Version register, snapshot at bind.
    pub vs: u32,
    /// Decoded capability snapshot.
    pub caps: CapSnapshot,
    /// Doorbell stride in bytes.
    pub db_stride: u64,
    /// The configuration value written at enable.
    pub ctrl_config: u32,
    /// Host page size chosen at enable.
    pub page_size: u32,
    /// Max-data-transfer shift from identify, in page units; 0 = unlimited.
    pub max_transfer_shift: u8,
    /// The admin queue pair, id 0.
    pub admin_q: NvmeQueue,
    /// The I/O queue pair, id 1; inert until created on the device.
    pub io_q: NvmeQueue,
    /// Depth to use for the I/O queue pair.
    pub io_depth: u16,
    /// Per-command-id results parked until the caller collects them.
    pub io_results: Vec<Option<IoResult>>,
    /// What identify-controller reported.
    pub id_ctrl: Option<NvmeIdCtrl>,
    /// The namespace table discovered at bind.
    pub ns_table: Vec<NsInfo>,
    /// Granted number of I/O queues.
    pub queue_count: u16,
    /// The driver's millisecond clock, advanced while waiting.
    pub now_ms: u64,
}

impl NvmeCtrl {
    /// The internal invariant every operation preserves.
    pub open spec fn wf(self) -> bool {
        &&& self.device.wf()
        &&& self.admin_q.wf()
        &&& self.admin_q.qid == 0
        &&& self.admin_q.q_depth == ADMIN_QUEUE_DEPTH
        &&& self.mem@.len() >= DRIVER_RESERVED_MEM
        &&& 2 <= self.io_depth
        &&& is_pow2_u16(self.io_depth)
        &&& self.io_q.wf()
        &&& self.io_q.qid == 1
        &&& self.io_q.q_depth == self.io_depth
        &&& self.io_results@.len() == self.io_depth
        &&& self.state == CtrlState::Ready ==> {
            &&& self.caps.matches(self.device.cap)
            &&& ns_agree(self.ns_table@, self.device.namespaces@)
            &&& self.device.queues@[1].sq_created
            &&& self.device.queues@[1].cq_created
            &&& self.device.queues@[1].depth == self.io_depth
        }
    }

    /// Whether both queue pairs sit at a quiescent point.
    pub open spec fn quiescent(self) -> bool {
        &&& aligned(self.admin_q, self.device.queues@[0])
        &&& self.device.queues@[1].sq_created ==> aligned(self.io_q, self.device.queues@[1])
    }

    /// A handle on an unbound device: everything still disabled.
    pub fn new(device: DeviceModel, mem_bytes: usize, io_depth: u16) -> (r: NvmeCtrl)
        requires
            device.wf(),
            mem_bytes >= DRIVER_RESERVED_MEM,
            2 <= io_depth,
            is_pow2_u16(io_depth),
        ensures
            r.wf(),
            r.state == CtrlState::Disabled,
            r.device == device,
            r.mem@.len() == mem_bytes,
            forall|j: int| 0 <= j < mem_bytes ==> r.mem@[j] == 0,
            fresh_shape(r.io_q),
            fresh_shape(r.admin_q),
            r.io_depth == io_depth,
            r.now_ms == 0,
            r.cap == 0,
            r.vs == 0,
            r.db_stride == 4,
            r.ctrl_config == 0,
            r.page_size == 4096,
            r.max_transfer_shift == 0,
            r.queue_count == 0,
            r.ns_table@.len() == 0,
            r.id_ctrl.is_none(),
    {
        proof {
            assert(64u16 & 63u16 == 0) by (bit_vector);
        }
        let mut results: Vec<Option<IoResult>> = Vec::new();
        let mut k: u16 = 0;
        while k < io_depth
            invariant
                k <= io_depth,
                results@.len() == k,
            decreases io_depth - k,
        {
            results.push(None);
            k = k + 1;
        }
        NvmeCtrl {
            state: CtrlState::Disabled,
            device,
            mem: make_filled(mem_bytes, 0),
            cap: 0,
            vs: 0,
            caps: CapSnapshot {
                mqes: 0,
                ams: 0,
                to: 0,
                dstrd: 0,
                css: 0,
                mpsmin: 0,
                mpsmax: 0,
            },
            db_stride: 4,
            ctrl_config: 0,
            page_size: 4096,
            max_transfer_shift: 0,
            admin_q: NvmeQueue::new(0, ADMIN_QUEUE_DEPTH, 0),
            io_q: NvmeQueue::new(1, io_depth, 1),
            io_depth,
            io_results: results,
            id_ctrl: None,
            ns_table: Vec::new(),
            queue_count: 0,
            now_ms: 0,
        }
    }

    /// Reads the controller status register and splits out the ready,
    /// fatal, and shutdown-complete bits.
    pub fn read_status_bits(&self) -> (r: (bool, bool, bool))
        ensures
            r.0 == self.device.rdy,
            r.1 == self.device.cfs,
            r.2 == self.device.shst_complete,
    {
        let csts = self.device.read_reg32(REG_CSTS);
        proof {
            lemma_csts_decode(
                if self.device.rdy {
                    1u32
                } else {
                    0u32
                },
                if self.device.cfs {
                    2u32
                } else {
                    0u32
                },
                if self.device.shst_complete {
                    8u32
                } else {
                    0u32
                },
            );
        }
        (csts & CSTS_RDY != 0, csts & CSTS_CFS != 0, csts & CSTS_SHST_MASK == CSTS_SHST_CMPLT)
    }

    /// Issues one admin command and consumes its completion: submit at the
    /// tail, ring the SQ-tail doorbell, let the device consume and execute
    /// the entry, and reap the posted completion.  Both sides return to the
    /// quiescent point; the command takes effect exactly as `admin_effect`
    /// says.  Not for abort, which needs the I/O rings.
    pub fn admin_exchange(&mut self, cmd: NvmeCommand) -> (r: (u16, u32))
        requires
            old(self).wf(),
            old(self).quiescent(),
            !old(self).device.cfs,
            (cmd_cid(cmd) as int) < ADMIN_QUEUE_DEPTH,
            old(self).device.queues@[1].sq_created ==> cmd_opcode(cmd) != ADMIN_CREATE_CQ
                && cmd_opcode(cmd) != ADMIN_CREATE_SQ,
            cmd_opcode(cmd) == ADMIN_CREATE_SQ ==> fresh_shape(old(self).io_q) && (old(
                self,
            ).io_q.q_depth as int) == ((cmd.cdw10 >> 16) & 0xffff) + 1,
            old(self).state == CtrlState::Ready ==> cmd_opcode(cmd) != ADMIN_DELETE_SQ
                && cmd_opcode(cmd) != ADMIN_DELETE_CQ,
        ensures
            final(self).wf(),
            final(self).quiescent(),
            admin_effect(
                old(self).device,
                final(self).device,
                old(self).mem@,
                final(self).mem@,
                cmd,
                r.0,
                r.1,
            ),
            DeviceModel::same_but_queues(old(self).device, final(self).device),
            final(self).state == old(self).state,
            final(self).caps == old(self).caps,
            final(self).cap == old(self).cap,
            final(self).ns_table@ == old(self).ns_table@,
            final(self).io_q.same_as(old(self).io_q),
            final(self).io_results@ == old(self).io_results@,
            final(self).io_depth == old(self).io_depth,
            final(self).now_ms == old(self).now_ms,
            final(self).id_ctrl == old(self).id_ctrl,
            final(self).queue_count == old(self).queue_count,
            final(self).page_size == old(self).page_size,
            final(self).max_transfer_shift == old(self).max_transfer_shift,
            final(self).vs == old(self).vs,
            final(self).db_stride == old(self).db_stride,
            final(self).ctrl_config == old(self).ctrl_config,
            r.0 <= 0xff,
    {
        let cid: u16 = ((cmd.cdw0 >> 16) & 0xffff) as u16;
        proof {
            if old(self).admin_q.in_flight@[cid as int] {
                lemma_count_true_pos(old(self).admin_q.in_flight@, cid as int);
            }
        }
        let submitted = self.admin_q.submit(cmd);
        let _slot: u16 = match submitted {
            Ok(s) => s,
            Err(_) => {
                proof {
                    assert(false);
                }
                0
            },
        };
        let stride = db_stride(self.device.dstrd);
        let db_off = sq_doorbell(0, stride);
        let tail = self.admin_q.sq_tail;
        proof {
            assert(ring_ok(self.device.queues@[0], tail as u32));
            assert(ring_delta(self.device.queues@[0], tail as u32) == 1);
        }
        self.device.write_reg32(db_off, tail as u32);
        let dqh = self.device.queues[0].sq_head;
        let cmd2 = self.admin_q.sq_cmds[dqh as usize];
        proof {
            assert(cmd2 == cmd);
        }
        let new_head = self.device.consume_one(0);
        let ghost dev_pre = self.device;
        let ghost mem_pre = self.mem@;
        let exec_r = self.device.execute_admin(&cmd2, &mut self.mem);
        let ghost dev_post = self.device;
        let sc = exec_r.0;
        let res = exec_r.1;
        let posted = self.device.post_slot(0);
        let cslot = posted.0;
        let cphase = posted.1;
        let cpl = NvmeCompletion {
            result: res,
            rsvd: 0,
            sq_head: new_head,
            sq_id: 0,
            command_id: cid,
            status: make_status(sc, cphase),
        };
        self.admin_q.cq_cmds.set(cslot as usize, cpl);
        let got = self.admin_q.reap_one();
        proof {
            assert(got == Some(cpl));
            assert(dev_pre.ident == old(self).device.ident);
            assert(dev_pre.namespaces@ == old(self).device.namespaces@);
            assert(dev_pre.cap == old(self).device.cap);
            assert(dev_pre.io_grant == old(self).device.io_grant);
            assert(dev_pre.queues@[1] == old(self).device.queues@[1]);
            assert(self.device.queues@[1] == dev_post.queues@[1]);
            assert(mem_pre == old(self).mem@);
            assert(admin_effect(dev_pre, dev_post, mem_pre, self.mem@, cmd, sc, res));
            lemma_admin_effect_frame(
                dev_pre,
                dev_post,
                old(self).device,
                self.device,
                old(self).mem@,
                self.mem@,
                cmd,
                sc,
                res,
            );
        }
        (sc, res)
    }

    /// The bind flow: snapshot the capabilities, reset the controller, set
    /// up the admin queue pair, enable, identify the controller, negotiate
    /// the number of queues, identify every namespace, and create the I/O
    /// queue pair.  Ends in the ready state against a live, pristine
    /// device; the namespaces' contents are untouched, and only the
    /// driver-reserved bottom of the host memory is scribbled on.
    pub fn initialize(&mut self) -> (r: Result<(), IoStatus>)
        requires
            old(self).wf(),
            old(self).state == CtrlState::Disabled,
            fresh_shape(old(self).io_q),
            !old(self).device.cfs,
            !old(self).device.stalled,
            !old(self).device.queues@[1].cq_created,
            !old(self).device.queues@[1].sq_created,
            (old(self).io_depth as int) <= cap_mqes(old(self).device.cap) + 1,
            (ADMIN_QUEUE_DEPTH as int) <= cap_mqes(old(self).device.cap) + 1,
            old(self).device.namespaces@.len() <= 0xffff,
        ensures
            final(self).wf(),
            r == Result::<(), IoStatus>::Ok(()),
            final(self).state == CtrlState::Ready,
            final(self).quiescent(),
            final(self).caps.matches(old(self).device.cap),
            final(self).cap == old(self).device.cap,
            final(self).vs == old(self).device.vs,
            final(self).db_stride == crate::regs::db_stride_spec(final(self).caps.dstrd),
            final(self).page_size == (1u32 << ((12 + final(self).caps.mpsmin) as u32)),
            final(self).ctrl_config == cc_enable_spec(final(self).caps.mpsmin),
            final(self).device.cc == cc_enable_spec(final(self).caps.mpsmin),
            final(self).device.cap == old(self).device.cap,
            final(self).device.namespaces@ == old(self).device.namespaces@,
            final(self).device.ident == old(self).device.ident,
            ns_agree(final(self).ns_table@, old(self).device.namespaces@),
            final(self).id_ctrl.is_some(),
            final(self).id_ctrl.unwrap().same_fields(old(self).device.ident),
            final(self).max_transfer_shift == old(self).device.ident.mdts,
            final(self).queue_count == 1,
            !final(self).device.cfs,
            !final(self).device.stalled,
            final(self).device.rdy,
            final(self).io_depth == old(self).io_depth,
            final(self).mem@.len() == old(self).mem@.len(),
            forall|j: int|
                DRIVER_RESERVED_MEM <= j < old(self).mem@.len() ==> final(self).mem@[j] == old(
                    self,
                ).mem@[j],
    {
        // snapshot capabilities and version, once; immutable thereafter
        self.cap = self.device.read_reg64(REG_CAP);
        self.vs = self.device.read_reg32(REG_VS);
        self.caps = CapSnapshot::from_raw(self.cap);
        proof {
            assert(self.caps.dstrd == self.device.dstrd);
        }
        self.db_stride = db_stride(self.caps.dstrd);
        self.state = CtrlState::Resetting;
        // clear the enable bit and wait for ready to fall; the model
        // settles its ready bit with the configuration write itself, so one
        // status poll decides
        proof {
            assert(0u32 & 1 == 0 && 0u32 & 0xc000 == 0) by (bit_vector);
        }
        self.device.write_reg32(REG_CC, 0);
        let st0 = self.read_status_bits();
        if st0.0 {
            self.state = CtrlState::Failed;
            return Err(IoStatus::Timeout);
        }
        // admin queue pair, then its attributes and ring bases
        self.admin_q = NvmeQueue::new(0, ADMIN_QUEUE_DEPTH, 0);
        self.admin_q.sq_dma_addr = 0x10000;
        self.admin_q.cq_dma_addr = 0x18000;
        let aqa: u32 = (((ADMIN_QUEUE_DEPTH as u32) - 1) << 16) | ((ADMIN_QUEUE_DEPTH as u32)
            - 1);
        self.device.write_reg32(REG_AQA, aqa);
        self.device.write_reg64(REG_ASQ, 0x10000);
        self.device.write_reg64(REG_ACQ, 0x18000);
        // enable: NVM command set, round-robin arbitration, the minimum
        // page size, 64-byte submission and 16-byte completion entries
        let mps = self.caps.mpsmin;
        proof {
            lemma_cap_field_bounds(self.cap);
            lemma_cc_enable_bits(mps);
            assert(((63u32 << 16) | 63u32) & 0xfff == 63) by (bit_vector);
        }
        self.page_size = 1u32 << ((12 + mps) as u32);
        let cc = cc_enable_value(mps);
        self.ctrl_config = cc;
        self.device.write_reg32(REG_CC, cc);
        self.state = CtrlState::Enabling;
        let st1 = self.read_status_bits();
        if !st1.0 {
            self.state = CtrlState::Failed;
            return Err(IoStatus::Timeout);
        }
        // identify the controller into the reserved scratch region
        let _ = self.admin_exchange(build_identify(CNS_CONTROLLER, 0, 0, 0));
        let id = read_id_ctrl(&self.mem, 0);
        proof {
            lemma_id_ctrl_roundtrip(self.mem@, 0, self.device.ident, id);
        }
        self.max_transfer_shift = id.mdts;
        let nn = id.nn;
        proof {
            assert(nn == self.device.ident.nn);
        }
        self.id_ctrl = Some(id);
        // negotiate the number of queues: one I/O queue pair
        proof {
            assert((0u32 & 0xffff) == 0) by (bit_vector);
        }
        let _ = self.admin_exchange(build_set_features(FEAT_NUM_QUEUES, 0, 0));
        self.queue_count = 1;
        // identify every namespace
        self.ns_table = Vec::new();
        let mut nsid: u64 = 1;
        while nsid <= nn as u64
            invariant
                self.wf(),
                self.quiescent(),
                fresh_shape(self.io_q),
                self.io_q.q_depth == self.io_depth,
                !self.device.cfs,
                !self.device.stalled,
                self.device.rdy,
                self.state == CtrlState::Enabling,
                1 <= nsid <= nn as u64 + 1,
                nn as u64 == self.device.namespaces@.len(),
                self.device.namespaces@ == old(self).device.namespaces@,
                self.device.ident == old(self).device.ident,
                self.device.cap == old(self).device.cap,
                !self.device.queues@[1].cq_created,
                !self.device.queues@[1].sq_created,
                self.caps.matches(self.device.cap),
                self.cap == old(self).device.cap,
                self.vs == old(self).device.vs,
                self.db_stride == crate::regs::db_stride_spec(self.caps.dstrd),
                self.page_size == (1u32 << ((12 + self.caps.mpsmin) as u32)),
                self.ctrl_config == cc_enable_spec(self.caps.mpsmin),
                self.device.cc == cc_enable_spec(self.caps.mpsmin),
                self.ns_table@.len() == nsid - 1,
                forall|i: int|
                    0 <= i < nsid - 1 ==> {
                        &&& (#[trigger] self.ns_table@[i]).nsid == i + 1
                        &&& self.ns_table@[i].lba_shift == self.device.namespaces@[i].lba_shift
                        &&& self.ns_table@[i].block_size
                            == self.device.namespaces@[i].block_size
                        &&& self.ns_table@[i].nlbas == self.device.namespaces@[i].nlbas
                        &&& self.ns_table@[i].dlfeat == self.device.namespaces@[i].dlfeat
                    },
                self.mem@.len() == old(self).mem@.len(),
                forall|j: int|
                    DRIVER_RESERVED_MEM <= j < old(self).mem@.len() ==> self.mem@[j] == old(
                        self,
                    ).mem@[j],
                self.io_depth == old(self).io_depth,
                (self.io_depth as int) <= cap_mqes(self.device.cap) + 1,
                self.max_transfer_shift == old(self).device.ident.mdts,
                self.queue_count == 1,
                self.id_ctrl.is_some(),
                self.id_ctrl.unwrap().same_fields(old(self).device.ident),
            decreases nn as u64 + 1 - nsid,
        {
            let _ = self.admin_exchange(build_identify(CNS_NAMESPACE, nsid as u32, 0, 0));
            let g = read_id_ns(&self.mem, 0);
            proof {
                lemma_id_ns_roundtrip(
                    self.mem@,
                    0,
                    crate::device::ns_geometry(self.device.namespaces@[nsid - 1]),
                    g,
                );
            }
            let bs: u32 = 1u32 << (g.lba_shift as u32);
            self.ns_table.push(
                NsInfo {
                    nsid: nsid as u32,
                    lba_shift: g.lba_shift,
                    block_size: bs,
                    nlbas: g.nsze,
                    dlfeat: g.dlfeat,
                    metadata_size: g.ms,
                },
            );
            nsid = nsid + 1;
        }
        // create the I/O queue pair: completion ring first, then the
        // submission ring bound to it
        let _ = self.admin_exchange(build_create_cq(1, self.io_depth, 0, true, 0, 0));
        let _ = self.admin_exchange(build_create_sq(1, self.io_depth, 1, 0, true, 0, 0));
        self.state = CtrlState::Ready;
        Ok(())
    }

    /// Lets the device model take one step on the I/O queue: consume the
    /// submission entry at its head, execute it, and post the completion
    /// with the current posting phase.  A stalled model, a raised
    /// fatal-status bit, a missing ring, or an empty ring means no work.
    /// Returns whether a step was taken and the status field it earned.
    pub fn device_poll_io(&mut self) -> (r: (bool, u16))
        requires
            old(self).wf(),
        ensures
            final(self).wf(),
            r.0 == (!old(self).device.cfs && !old(self).device.stalled && old(
                self,
            ).device.queues@[1].sq_created && old(self).device.queues@[1].pending > 0 && old(
                self,
            ).device.queues@[1].depth == old(self).io_q.q_depth),
            !r.0 ==> *final(self) == *old(self),
            r.0 ==> io_poll_effect(*old(self), *final(self), r.1),
    {
        let st = self.read_status_bits();
        if st.1 || self.device.stalled {
            return (false, 0);
        }
        let dq = self.device.queues[1];
        if !dq.sq_created || dq.pending == 0 || dq.depth != self.io_q.q_depth {
            return (false, 0);
        }
        let cmd = self.io_q.sq_cmds[dq.sq_head as usize];
        let new_head = self.device.consume_one(1);
        let ghost dev_pre = self.device;
        let ghost mem_pre = self.mem@;
        let exec_r = self.device.execute_io(&cmd, &mut self.mem);
        let ghost dev_post = self.device;
        let sc = exec_r.0;
        let posted = self.device.post_slot(1);
        let cpl = NvmeCompletion {
            result: exec_r.1,
            rsvd: 0,
            sq_head: new_head,
            sq_id: 1,
            command_id: ((cmd.cdw0 >> 16) & 0xffff) as u16,
            status: make_status(sc, posted.1),
        };
        self.io_q.cq_cmds.set(posted.0 as usize, cpl);
        proof {
            crate::device::lemma_io_effect_frame(
                dev_pre,
                dev_post,
                old(self).device,
                self.device,
                mem_pre,
                self.mem@,
                cmd,
                sc,
            );
            assert(io_poll_effect(*old(self), *self, sc));
        }
        (true, sc)
    }
}

/// What one device step on the I/O queue does: the head submission entry is
/// executed as `io_effect` says, its completion lands at the device's
/// completion tail carrying the posting phase, the device cursors advance
/// (the posting phase flipping exactly when the completion tail wraps), and
/// nothing else moves.
pub open spec fn io_poll_effect(pre: NvmeCtrl, post: NvmeCtrl, sc: u16) -> bool {
    let dq = pre.device.queues@[1];
    let c = pre.io_q.sq_cmds@[dq.sq_head as int];
    let e = post.io_q.cq_cmds@[dq.cq_tail as int];
    &&& io_effect(pre.device, post.device, pre.mem@, post.mem@, c, sc)
    &&& post.io_q.cq_cmds@ == pre.io_q.cq_cmds@.update(dq.cq_tail as int, e)
    &&& e.command_id == cmd_cid(c)
    &&& e.sq_id == 1
    &&& cpl_phase(e) == dq.phase
    &&& cpl_code(e) == sc
    &&& post.device.queues@.len() == pre.device.queues@.len()
    &&& post.device.queues@[0] == pre.device.queues@[0]
    &&& post.device.queues@[1] == (DevQueueState {
        sq_head: (if dq.sq_head + 1 == dq.depth {
            0u16
        } else {
            (dq.sq_head + 1) as u16
        }),
        pending: (dq.pending - 1) as u16,
        cq_tail: (if dq.cq_tail + 1 == dq.depth {
            0u16
        } else {
            (dq.cq_tail + 1) as u16
        }),
        phase: (if dq.cq_tail + 1 == dq.depth {
            (1 - dq.phase) as u8
        } else {
            dq.phase
        }),
        ..dq
    })
    &&& post.device.cap == pre.device.cap
    &&& post.device.cfs == pre.device.cfs
    &&& post.device.rdy == pre.device.rdy
    &&& post.device.stalled == pre.device.stalled
    &&& post.device.ident == pre.device.ident
    &&& post.device.io_grant == pre.device.io_grant
    &&& post.io_q.sq_cmds@ == pre.io_q.sq_cmds@
    &&& post.io_q.sq_tail == pre.io_q.sq_tail
    &&& post.io_q.cq_head == pre.io_q.cq_head
    &&& post.io_q.cq_phase == pre.io_q.cq_phase
    &&& post.io_q.in_flight@ == pre.io_q.in_flight@
    &&& post.io_q.inflight_count == pre.io_q.inflight_count
    &&& post.io_q.poisoned == pre.io_q.poisoned
    &&& post.io_q.q_depth == pre.io_q.q_depth
    &&& post.io_q.qid == pre.io_q.qid
    &&& post.io_q.reap_log@ == pre.io_q.reap_log@
    &&& post.io_q.stamps@ == pre.io_q.stamps@
    &&& post.io_q.ops@ == pre.io_q.ops@
    &&& post.admin_q.same_as(pre.admin_q)
    &&& post.state == pre.state
    &&& post.caps == pre.caps
    &&& post.ns_table@ == pre.ns_table@
    &&& post.io_results@ == pre.io_results@
    &&& post.io_depth == pre.io_depth
    &&& post.now_ms == pre.now_ms
    &&& post.page_size == pre.page_size
    &&& post.max_transfer_shift == pre.max_transfer_shift
}


impl NvmeCtrl {
    /// Issues one I/O command and waits for its terminal completion.
    ///
    /// Against a live device the completion arrives within the deadline and
    /// the command takes effect exactly as `io_effect` says; the returned
    /// pair is the completion's status field and result dword.  Against a
    /// stalled device the deadline elapses fruitlessly, the driver issues
    /// an admin abort, the device answers with an abort completion, and the
    /// call reports a timeout with no effect on any namespace; the
    /// controller stays ready.  A raised fatal-status bit, sampled on the
    /// completion path, moves the controller to the failed state.
    pub fn io_exchange(&mut self, cmd: NvmeCommand, deadline_ms: u64) -> (r: Result<
        (u16, u32),
        IoStatus,
    >)
        requires
            old(self).wf(),
            old(self).quiescent(),
            old(self).state == CtrlState::Ready,
            (cmd_cid(cmd) as int) < old(self).io_depth,
            old(self).now_ms + deadline_ms < 0x7fff_ffff_ffff_ffff,
        ensures
            final(self).wf(),
            final(self).ns_table@ == old(self).ns_table@,
            final(self).caps == old(self).caps,
            final(self).io_depth == old(self).io_depth,
            final(self).io_results@ == old(self).io_results@,
            final(self).device.cap == old(self).device.cap,
            final(self).device.ident == old(self).device.ident,
            final(self).device.cfs == old(self).device.cfs,
            final(self).device.stalled == old(self).device.stalled,
            final(self).page_size == old(self).page_size,
            final(self).max_transfer_shift == old(self).max_transfer_shift,
            old(self).device.cfs ==> {
                &&& r == Result::<(u16, u32), IoStatus>::Err(IoStatus::Fatal)
                &&& final(self).state == CtrlState::Failed
                &&& final(self).device.namespaces@ == old(self).device.namespaces@
                &&& final(self).mem@ == old(self).mem@
                &&& final(self).now_ms == old(self).now_ms
            },
            !old(self).device.cfs && old(self).device.stalled ==> {
                &&& r == Result::<(u16, u32), IoStatus>::Err(IoStatus::Timeout)
                &&& final(self).state == CtrlState::Ready
                &&& final(self).quiescent()
                &&& final(self).device.namespaces@ == old(self).device.namespaces@
                &&& final(self).mem@ == old(self).mem@
                &&& final(self).now_ms == old(self).now_ms + deadline_ms
            },
            !old(self).device.cfs && !old(self).device.stalled ==> {
                &&& r.is_ok()
                &&& io_effect(
                    old(self).device,
                    final(self).device,
                    old(self).mem@,
                    final(self).mem@,
                    cmd,
                    r.unwrap().0,
                )
                &&& final(self).state == CtrlState::Ready
                &&& final(self).quiescent()
                &&& final(self).now_ms == old(self).now_ms
            },
    {
        // the completion path samples the controller status first: a raised
        // fatal-status bit is terminal
        let st = self.read_status_bits();
        if st.1 {
            self.state = CtrlState::Failed;
            return Err(IoStatus::Fatal);
        }
        let cid: u16 = ((cmd.cdw0 >> 16) & 0xffff) as u16;
        proof {
            if old(self).io_q.in_flight@[cid as int] {
                lemma_count_true_pos(old(self).io_q.in_flight@, cid as int);
            }
        }
        let submitted = self.io_q.submit(cmd);
        let _slot: u16 = match submitted {
            Ok(s) => s,
            Err(_) => {
                proof {
                    assert(false);
                }
                0
            },
        };
        let stride = db_stride(self.device.dstrd);
        let tail = self.io_q.sq_tail;
        proof {
            assert(ring_ok(self.device.queues@[1], tail as u32));
            assert(ring_delta(self.device.queues@[1], tail as u32) == 1);
        }
        let db_off = sq_doorbell(1, stride);
        self.device.write_reg32(db_off, tail as u32);
        // the model is synchronous: one poll either completes the command
        // or proves the device stalled, in which case no completion will
        // ever arrive on its own
        let polled = self.device_poll_io();
        if polled.0 {
            let got = self.io_q.reap_one();
            match got {
                Some(e) => {
                    return Ok((e.status >> 1, e.result));
                },
                None => {
                    proof {
                        assert(false);
                    }
                    return Err(IoStatus::Fatal);
                },
            }
        }
        // deadline elapses with no terminal completion: issue an admin
        // abort for the stalled command and wait for both completions
        self.now_ms = self.now_ms + deadline_ms;
        let acid: u16 = 0;
        proof {
            if old(self).admin_q.in_flight@[acid as int] {
                lemma_count_true_pos(old(self).admin_q.in_flight@, acid as int);
            }
        }
        let abort_cmd = build_abort(1, cid, acid);
        let sub2 = self.admin_q.submit(abort_cmd);
        proof {
            assert(sub2 == Result::<u16, IoStatus>::Ok(old(self).admin_q.sq_tail));
        }
        let atail = self.admin_q.sq_tail;
        proof {
            assert(ring_ok(self.device.queues@[0], atail as u32));
            assert(ring_delta(self.device.queues@[0], atail as u32) == 1);
        }
        let adb_off = sq_doorbell(0, stride);
        self.device.write_reg32(adb_off, atail as u32);
        // the device consumes the abort command
        let a_new_head = self.device.consume_one(0);
        // the target is the head pending entry of the I/O ring: the device
        // drops it and posts its abort completion
        let new_io_head = self.device.consume_one(1);
        let p_io = self.device.post_slot(1);
        let e_io = NvmeCompletion {
            result: 0,
            rsvd: 0,
            sq_head: new_io_head,
            sq_id: 1,
            command_id: cid,
            status: make_status(SC_ABORT_REQUESTED, p_io.1),
        };
        self.io_q.cq_cmds.set(p_io.0 as usize, e_io);
        // the abort command's own completion: result 0, target aborted
        let p_ad = self.device.post_slot(0);
        let e_ad = NvmeCompletion {
            result: 0,
            rsvd: 0,
            sq_head: a_new_head,
            sq_id: 0,
            command_id: acid,
            status: make_status(SC_SUCCESS, p_ad.1),
        };
        self.admin_q.cq_cmds.set(p_ad.0 as usize, e_ad);
        let g1 = self.admin_q.reap_one();
        proof {
            assert(g1 == Some(e_ad));
        }
        let g2 = self.io_q.reap_one();
        proof {
            assert(g2 == Some(e_io));
        }
        Err(IoStatus::Timeout)
    }
}


/// Whether every namespace of `b` carries the same geometry and bytes as
/// its counterpart in `a`.
pub open spec fn namespaces_unchanged(a: Seq<NsModel>, b: Seq<NsModel>) -> bool {
    &&& b.len() == a.len()
    &&& forall|i: int|
        0 <= i < a.len() ==> same_ns_meta(#[trigger] b[i], a[i]) && b[i].data@ == a[i].data@
}

/// The largest block count one command may carry: the max-data-transfer
/// limit (`page_size << mdts` bytes) divided by the block size; 0x10000
/// stands for "no limit" (an mdts of zero, or one too large to matter for
/// a 16-bit block count).
pub open spec fn max_blocks_spec(page_size: u32, mts: u8, lba_shift: u8) -> u64 {
    if mts == 0 || mts >= 32 {
        0x10000u64
    } else {
        (((page_size as u64) << mts) >> lba_shift) as u64
    }
}

/// Whether an I/O request names a known namespace, a range inside it, and
/// a caller buffer inside the unreserved host memory.
pub open spec fn valid_io_params(s: NvmeCtrl, nsid: u32, lba: u64, blocks: u16, buffer: u64)
    -> bool {
    &&& 1 <= nsid <= s.ns_table@.len()
    &&& blocks >= 1
    &&& lba + blocks <= s.ns_table@[nsid - 1].nlbas
    &&& DRIVER_RESERVED_MEM <= buffer
    &&& buffer + blocks * s.ns_table@[nsid - 1].block_size <= s.mem@.len()
    &&& max_blocks_spec(s.page_size, s.max_transfer_shift, s.ns_table@[nsid - 1].lba_shift) >= 1
}

/// `d1` is `d0` with `[off, off + len)` overwritten from `src` starting at
/// `sbase`, and everything else kept.
pub open spec fn bytes_written(d0: Seq<u8>, d1: Seq<u8>, off: int, src: Seq<u8>, sbase: int,
    len: int) -> bool {
    &&& d1.len() == d0.len()
    &&& forall|j: int| 0 <= j < d0.len() && !(off <= j < off + len) ==> d1[j] == d0[j]
    &&& forall|j: int| off <= j < off + len ==> #[trigger] d1[j] == src[sbase + (j - off)]
}

/// Multiplication facts the chunk loops lean on.
proof fn lemma_chunk_arith(lba: int, done: int, step: int, blocks: int, nlbas: int, bs: int)
    by (nonlinear_arith)
    requires
        0 <= lba,
        0 <= done,
        1 <= step,
        done + step <= blocks,
        lba + blocks <= nlbas,
        1 <= bs,
    ensures
        (lba + done) * bs == lba * bs + done * bs,
        (done + step) * bs == done * bs + step * bs,
        lba * bs + done * bs + step * bs <= nlbas * bs,
        done * bs + step * bs <= blocks * bs,
        0 <= done * bs,
        0 <= step * bs,
        step * bs >= 1,
{
}

impl NvmeCtrl {
    /// The per-command block limit for a namespace with the given LBA-size
    /// shift.
    pub fn max_chunk_blocks(&self, lba_shift: u8) -> (r: u64)
        requires
            lba_shift < 64,
        ensures
            r == max_blocks_spec(self.page_size, self.max_transfer_shift, lba_shift),
    {
        let mts = self.max_transfer_shift;
        if mts == 0 || mts >= 32 {
            0x10000u64
        } else {
            ((self.page_size as u64) << mts) >> lba_shift
        }
    }

    /// Writes `blocks` blocks from the caller's buffer to `[lba, lba +
    /// blocks)` of namespace `nsid`.  A request larger than the
    /// max-data-transfer size is split into block-contiguous chunks that
    /// cover it, issued in submission order; the aggregate status is the
    /// first non-success status in that order, and the count of serviced
    /// LBAs counts the chunks that completed before it.
    ///
    /// Outcomes: parameter errors are reported with nothing issued; a
    /// failed controller refuses with a fatal result; a fatal-status bit
    /// observed on the completion path fails the request and the
    /// controller; a stalled device times the first chunk out (the driver
    /// aborts it) and nothing is written; otherwise every chunk succeeds
    /// and the namespace carries the buffer's bytes.
    pub fn write_data(&mut self, nsid: u32, lba: u64, blocks: u16, buffer: u64,
        deadline_ms: u64) -> (r: IoResult)
        requires
            old(self).wf(),
            old(self).quiescent(),
            old(self).now_ms + deadline_ms < 0x7fff_ffff_ffff_ffff,
        ensures
            final(self).wf(),
            old(self).state == CtrlState::Failed ==> r.kind == IoStatus::Fatal && *final(self)
                == *old(self),
            old(self).state != CtrlState::Failed && old(self).state != CtrlState::Ready ==> (
            r.kind == IoStatus::Parameter && *final(self) == *old(self)),
            old(self).state == CtrlState::Ready && !valid_io_params(
                *old(self),
                nsid,
                lba,
                blocks,
                buffer,
            ) ==> r.kind == IoStatus::Parameter && *final(self) == *old(self),
            old(self).state == CtrlState::Ready && valid_io_params(
                *old(self),
                nsid,
                lba,
                blocks,
                buffer,
            ) ==> {
                &&& old(self).device.cfs ==> r.kind == IoStatus::Fatal && final(self).state
                    == CtrlState::Failed && namespaces_unchanged(
                    old(self).device.namespaces@,
                    final(self).device.namespaces@,
                ) && final(self).mem@ == old(self).mem@
                &&& !old(self).device.cfs && old(self).device.stalled ==> {
                    &&& r.kind == IoStatus::Timeout
                    &&& r.lbas_done == 0
                    &&& final(self).state == CtrlState::Ready
                    &&& final(self).quiescent()
                    &&& namespaces_unchanged(
                        old(self).device.namespaces@,
                        final(self).device.namespaces@,
                    )
                    &&& final(self).mem@ == old(self).mem@
                    &&& final(self).now_ms == old(self).now_ms + deadline_ms
                }
                &&& !old(self).device.cfs && !old(self).device.stalled ==> {
                    &&& r.kind == IoStatus::Success
                    &&& r.lbas_done == blocks
                    &&& final(self).state == CtrlState::Ready
                    &&& final(self).quiescent()
                    &&& final(self).mem@ == old(self).mem@
                    &&& final(self).now_ms == old(self).now_ms
                    &&& final(self).device.namespaces@.len() == old(
                        self,
                    ).device.namespaces@.len()
                    &&& forall|i: int|
                        0 <= i < old(self).device.namespaces@.len() && i != nsid - 1
                            ==> final(self).device.namespaces@[i] == old(
                            self,
                        ).device.namespaces@[i]
                    &&& same_ns_meta(
                        final(self).device.namespaces@[nsid - 1],
                        old(self).device.namespaces@[nsid - 1],
                    )
                    &&& bytes_written(
                        old(self).device.namespaces@[nsid - 1].data@,
                        final(self).device.namespaces@[nsid - 1].data@,
                        lba * old(self).ns_table@[nsid - 1].block_size,
                        old(self).mem@,
                        buffer as int,
                        blocks * old(self).ns_table@[nsid - 1].block_size,
                    )
                }
            },
            final(self).ns_table@ == old(self).ns_table@,
            final(self).io_depth == old(self).io_depth,
            final(self).caps == old(self).caps,
            final(self).device.cfs == old(self).device.cfs,
            final(self).device.stalled == old(self).device.stalled,
            final(self).page_size == old(self).page_size,
            final(self).max_transfer_shift == old(self).max_transfer_shift,
            final(self).now_ms <= old(self).now_ms + deadline_ms,
    {
        if self.state == CtrlState::Failed {
            return IoResult::fail(IoStatus::Fatal, 0);
        }
        if self.state != CtrlState::Ready {
            return IoResult::fail(IoStatus::Parameter, 0);
        }
        if nsid == 0 || nsid as usize > self.ns_table.len() {
            return IoResult::fail(IoStatus::Parameter, 0);
        }
        if blocks == 0 {
            return IoResult::fail(IoStatus::Parameter, 0);
        }
        let info = self.ns_table[(nsid - 1) as usize];
        if lba >= info.nlbas || blocks as u64 > info.nlbas - lba {
            return IoResult::fail(IoStatus::Parameter, 0);
        }
        let bs: u32 = info.block_size;
        proof {
            assert(self.device.namespaces@[nsid - 1].wf());
            assert(1 <= bs && info.lba_shift <= 16);
            lemma_chunk_arith(lba as int, 0, blocks as int, blocks as int, info.nlbas as int,
                bs as int);
            assert((blocks as int) * (bs as int) <= 0xffff * 0xffff_ffff) by (nonlinear_arith)
                requires
                    blocks <= 0xffff && bs <= 0xffff_ffff,
            ;
        }
        let len_bytes: u64 = (blocks as u64) * (bs as u64);
        if buffer < DRIVER_RESERVED_MEM as u64 || len_bytes > self.mem.len() as u64 || buffer
            > self.mem.len() as u64 - len_bytes {
            return IoResult::fail(IoStatus::Parameter, 0);
        }
        let maxb: u64 = self.max_chunk_blocks(info.lba_shift);
        if maxb == 0 {
            return IoResult::fail(IoStatus::Parameter, 0);
        }
        let ghost ns0 = self.device.namespaces@[nsid - 1];
        let ghost off0: int = lba * bs;
        let mut done: u64 = 0;
        while done < blocks as u64
            invariant
                self.wf(),
                self.quiescent(),
                self.state == CtrlState::Ready,
                old(self).state == CtrlState::Ready,
                valid_io_params(*old(self), nsid, lba, blocks, buffer),
                done <= blocks,
                1 <= nsid <= self.ns_table@.len(),
                self.ns_table@ == old(self).ns_table@,
                info == self.ns_table@[nsid - 1],
                bs == info.block_size,
                1 <= bs,
                blocks >= 1,
                lba + blocks <= info.nlbas,
                DRIVER_RESERVED_MEM <= buffer,
                buffer + blocks * bs <= self.mem@.len(),
                maxb >= 1,
                off0 == lba * bs,
                ns0 == old(self).device.namespaces@[nsid - 1],
                self.mem@ == old(self).mem@,
                self.now_ms == old(self).now_ms,
                self.now_ms + deadline_ms < 0x7fff_ffff_ffff_ffff,
                self.io_depth == old(self).io_depth,
                self.caps == old(self).caps,
                self.device.cap == old(self).device.cap,
                self.device.ident == old(self).device.ident,
                self.device.cfs == old(self).device.cfs,
                self.device.stalled == old(self).device.stalled,
                self.page_size == old(self).page_size,
                self.max_transfer_shift == old(self).max_transfer_shift,
                old(self).device.cfs ==> done == 0,
                old(self).device.stalled ==> done == 0,
                self.device.namespaces@.len() == old(self).device.namespaces@.len(),
                forall|i: int|
                    0 <= i < old(self).device.namespaces@.len() && i != nsid - 1 ==> self.device.namespaces@[i]
                        == old(self).device.namespaces@[i],
                same_ns_meta(self.device.namespaces@[nsid - 1], ns0),
                self.device.namespaces@[nsid - 1].data@.len() == ns0.data@.len(),
                forall|j: int|
                    0 <= j < ns0.data@.len() && !(off0 <= j < off0 + done * bs)
                        ==> self.device.namespaces@[nsid - 1].data@[j] == ns0.data@[j],
                forall|j: int|
                    off0 <= j < off0 + done * bs ==> #[trigger] self.device.namespaces@[nsid
                        - 1].data@[j] == old(self).mem@[buffer + (j - off0)],
            decreases blocks as u64 - done,
        {
            let remaining: u64 = blocks as u64 - done;
            let this: u64 = if remaining < maxb {
                remaining
            } else {
                maxb
            };
            proof {
                lemma_chunk_arith(lba as int, done as int, this as int, blocks as int,
                    info.nlbas as int, bs as int);
                assert(done * bs <= blocks * bs && blocks * bs <= 0xffff * 0xffff_ffff)
                    by (nonlinear_arith)
                    requires
                        0 <= done && 0 <= bs && done + this <= blocks && 1 <= this && blocks
                            <= 0xffff && bs <= 0xffff_ffff,
                ;
            }
            let chunk_lba: u64 = lba + done;
            let mlen: usize = self.mem.len();
            proof {
                assert(buffer + done * bs <= mlen);
            }
            let chunk_buf: u64 = buffer + done * (bs as u64);
            let c = build_io_rw(CMD_WRITE, nsid, chunk_lba, this as u16, 0, chunk_buf, 0, 0);
            let ghost pre = *self;
            let ex = self.io_exchange(c, deadline_ms);
            match ex {
                Err(e) => {
                    proof {
                        assert(done == 0);
                        assert(self.device.namespaces@[nsid - 1].data@ =~= ns0.data@);
                    }
                    if e == IoStatus::Timeout {
                        return IoResult { kind: IoStatus::Timeout, lbas_done: done,
                            diagnostic: 0 };
                    } else {
                        return IoResult { kind: IoStatus::Fatal, lbas_done: done,
                            diagnostic: 0 };
                    }
                },
                Ok(sr) => {
                    proof {
                        assert(pre.device.ns_ok(nsid));
                        assert(pre.device.the_ns(nsid).block_size == bs);
                        assert(sr.0 == SC_SUCCESS);
                    }
                    if sr.0 != 0 {
                        return IoResult { kind: IoStatus::DeviceError, lbas_done: done,
                            diagnostic: sr.0 as u32 };
                    }
                },
            }
            done = done + this;
        }
        IoResult::ok(blocks as u64)
    }
}


impl NvmeCtrl {
    /// Reads `blocks` blocks of `[lba, lba + blocks)` of namespace `nsid`
    /// into the caller's buffer, chunked like `write_data`.  On success the
    /// buffer carries exactly the namespace's bytes; on any failure the
    /// host memory is untouched.
    pub fn read_data(&mut self, nsid: u32, lba: u64, blocks: u16, buffer: u64,
        deadline_ms: u64) -> (r: IoResult)
        requires
            old(self).wf(),
            old(self).quiescent(),
            old(self).now_ms + deadline_ms < 0x7fff_ffff_ffff_ffff,
        ensures
            final(self).wf(),
            old(self).state == CtrlState::Failed ==> r.kind == IoStatus::Fatal && *final(self)
                == *old(self),
            old(self).state != CtrlState::Failed && old(self).state != CtrlState::Ready ==> (
            r.kind == IoStatus::Parameter && *final(self) == *old(self)),
            old(self).state == CtrlState::Ready && !valid_io_params(
                *old(self),
                nsid,
                lba,
                blocks,
                buffer,
            ) ==> r.kind == IoStatus::Parameter && *final(self) == *old(self),
            old(self).state == CtrlState::Ready && valid_io_params(
                *old(self),
                nsid,
                lba,
                blocks,
                buffer,
            ) ==> {
                &&& final(self).device.namespaces@ == old(self).device.namespaces@
                &&& old(self).device.cfs ==> r.kind == IoStatus::Fatal && final(self).state
                    == CtrlState::Failed && final(self).mem@ == old(self).mem@
                &&& !old(self).device.cfs && old(self).device.stalled ==> {
                    &&& r.kind == IoStatus::Timeout
                    &&& r.lbas_done == 0
                    &&& final(self).state == CtrlState::Ready
                    &&& final(self).quiescent()
                    &&& final(self).mem@ == old(self).mem@
                    &&& final(self).now_ms == old(self).now_ms + deadline_ms
                }
                &&& !old(self).device.cfs && !old(self).device.stalled ==> {
                    &&& r.kind == IoStatus::Success
                    &&& r.lbas_done == blocks
                    &&& final(self).state == CtrlState::Ready
                    &&& final(self).quiescent()
                    &&& final(self).now_ms == old(self).now_ms
                    &&& bytes_written(
                        old(self).mem@,
                        final(self).mem@,
                        buffer as int,
                        old(self).device.namespaces@[nsid - 1].data@,
                        lba * old(self).ns_table@[nsid - 1].block_size,
                        blocks * old(self).ns_table@[nsid - 1].block_size,
                    )
                }
            },
            final(self).ns_table@ == old(self).ns_table@,
            final(self).io_depth == old(self).io_depth,
            final(self).caps == old(self).caps,
            final(self).device.cfs == old(self).device.cfs,
            final(self).device.stalled == old(self).device.stalled,
            final(self).page_size == old(self).page_size,
            final(self).max_transfer_shift == old(self).max_transfer_shift,
            final(self).now_ms <= old(self).now_ms + deadline_ms,
    {
        if self.state == CtrlState::Failed {
            return IoResult::fail(IoStatus::Fatal, 0);
        }
        if self.state != CtrlState::Ready {
            return IoResult::fail(IoStatus::Parameter, 0);
        }
        if nsid == 0 || nsid as usize > self.ns_table.len() {
            return IoResult::fail(IoStatus::Parameter, 0);
        }
        if blocks == 0 {
            return IoResult::fail(IoStatus::Parameter, 0);
        }
        let info = self.ns_table[(nsid - 1) as usize];
        if lba >= info.nlbas || blocks as u64 > info.nlbas - lba {
            return IoResult::fail(IoStatus::Parameter, 0);
        }
        let bs: u32 = info.block_size;
        proof {
            assert(self.device.namespaces@[nsid - 1].wf());
            assert(1 <= bs && info.lba_shift <= 16);
            lemma_chunk_arith(lba as int, 0, blocks as int, blocks as int, info.nlbas as int,
                bs as int);
            assert((blocks as int) * (bs as int) <= 0xffff * 0xffff_ffff) by (nonlinear_arith)
                requires
                    blocks <= 0xffff && bs <= 0xffff_ffff,
            ;
        }
        let len_bytes: u64 = (blocks as u64) * (bs as u64);
        if buffer < DRIVER_RESERVED_MEM as u64 || len_bytes > self.mem.len() as u64 || buffer
            > self.mem.len() as u64 - len_bytes {
            return IoResult::fail(IoStatus::Parameter, 0);
        }
        let maxb: u64 = self.max_chunk_blocks(info.lba_shift);
        if maxb == 0 {
            return IoResult::fail(IoStatus::Parameter, 0);
        }
        let ghost ns0 = self.device.namespaces@[nsid - 1];
        let ghost mem0 = self.mem@;
        let ghost off0: int = lba * bs;
        let mut done: u64 = 0;
        while done < blocks as u64
            invariant
                self.wf(),
                self.quiescent(),
                self.state == CtrlState::Ready,
                old(self).state == CtrlState::Ready,
                valid_io_params(*old(self), nsid, lba, blocks, buffer),
                done <= blocks,
                1 <= nsid <= self.ns_table@.len(),
                self.ns_table@ == old(self).ns_table@,
                info == self.ns_table@[nsid - 1],
                bs == info.block_size,
                1 <= bs,
                blocks >= 1,
                lba + blocks <= info.nlbas,
                DRIVER_RESERVED_MEM <= buffer,
                buffer + blocks * bs <= self.mem@.len(),
                maxb >= 1,
                off0 == lba * bs,
                mem0 == old(self).mem@,
                ns0 == old(self).device.namespaces@[nsid - 1],
                self.device.namespaces@ == old(self).device.namespaces@,
                self.now_ms == old(self).now_ms,
                self.now_ms + deadline_ms < 0x7fff_ffff_ffff_ffff,
                self.io_depth == old(self).io_depth,
                self.caps == old(self).caps,
                self.device.cap == old(self).device.cap,
                self.device.ident == old(self).device.ident,
                self.device.cfs == old(self).device.cfs,
                self.device.stalled == old(self).device.stalled,
                self.page_size == old(self).page_size,
                self.max_transfer_shift == old(self).max_transfer_shift,
                old(self).device.cfs ==> done == 0,
                old(self).device.stalled ==> done == 0,
                self.mem@.len() == mem0.len(),
                forall|j: int|
                    0 <= j < mem0.len() && !(buffer <= j < buffer + done * bs)
                        ==> self.mem@[j] == mem0[j],
                forall|j: int|
                    buffer <= j < buffer + done * bs ==> #[trigger] self.mem@[j] == ns0.data@[
                        off0 + (j - buffer)
                    ],
            decreases blocks as u64 - done,
        {
            let remaining: u64 = blocks as u64 - done;
            let this: u64 = if remaining < maxb {
                remaining
            } else {
                maxb
            };
            proof {
                lemma_chunk_arith(lba as int, done as int, this as int, blocks as int,
                    info.nlbas as int, bs as int);
                assert(done * bs <= blocks * bs && blocks * bs <= 0xffff * 0xffff_ffff)
                    by (nonlinear_arith)
                    requires
                        0 <= done && 0 <= bs && done + this <= blocks && 1 <= this && blocks
                            <= 0xffff && bs <= 0xffff_ffff,
                ;
            }
            let chunk_lba: u64 = lba + done;
            let mlen: usize = self.mem.len();
            proof {
                assert(buffer + done * bs <= mlen);
            }
            let chunk_buf: u64 = buffer + done * (bs as u64);
            let c = build_io_rw(CMD_READ, nsid, chunk_lba, this as u16, 0, chunk_buf, 0, 0);
            let ghost pre = *self;
            let ex = self.io_exchange(c, deadline_ms);
            match ex {
                Err(e) => {
                    proof {
                        assert(done == 0);
                        assert(self.mem@ =~= mem0);
                    }
                    if e == IoStatus::Timeout {
                        return IoResult { kind: IoStatus::Timeout, lbas_done: done,
                            diagnostic: 0 };
                    } else {
                        return IoResult { kind: IoStatus::Fatal, lbas_done: done,
                            diagnostic: 0 };
                    }
                },
                Ok(sr) => {
                    proof {
                        assert(pre.device.ns_ok(nsid));
                        assert(sr.0 == SC_SUCCESS);
                        crate::bytes::lemma_splice_points(
                            pre.mem@,
                            chunk_buf as int,
                            pre.device.the_ns(nsid).data@.subrange(
                                (chunk_lba * bs) as int,
                                chunk_lba * bs + this * bs,
                            ),
                        );
                    }
                    if sr.0 != 0 {
                        return IoResult { kind: IoStatus::DeviceError, lbas_done: done,
                            diagnostic: sr.0 as u32 };
                    }
                },
            }
            done = done + this;
        }
        IoResult::ok(blocks as u64)
    }
}


impl NvmeCtrl {
    /// Issues a flush for namespace `nsid`.  The model's medium is always
    /// persistent, so a successful flush changes nothing; callers use it to
    /// order writes before reads.
    pub fn flush(&mut self, nsid: u32, deadline_ms: u64) -> (r: IoResult)
        requires
            old(self).wf(),
            old(self).quiescent(),
            old(self).now_ms + deadline_ms < 0x7fff_ffff_ffff_ffff,
        ensures
            final(self).wf(),
            old(self).state == CtrlState::Failed ==> r.kind == IoStatus::Fatal && *final(self)
                == *old(self),
            old(self).state != CtrlState::Failed && old(self).state != CtrlState::Ready ==> (
            r.kind == IoStatus::Parameter && *final(self) == *old(self)),
            old(self).state == CtrlState::Ready && !(1 <= nsid <= old(self).ns_table@.len())
                ==> r.kind == IoStatus::Parameter && *final(self) == *old(self),
            old(self).state == CtrlState::Ready && 1 <= nsid <= old(self).ns_table@.len()
                ==> {
                &&& final(self).device.namespaces@ == old(self).device.namespaces@
                &&& final(self).mem@ == old(self).mem@
                &&& old(self).device.cfs ==> r.kind == IoStatus::Fatal && final(self).state
                    == CtrlState::Failed
                &&& !old(self).device.cfs && old(self).device.stalled ==> r.kind
                    == IoStatus::Timeout && final(self).state == CtrlState::Ready
                    && final(self).quiescent()
                &&& !old(self).device.cfs && !old(self).device.stalled ==> r.kind
                    == IoStatus::Success && final(self).state == CtrlState::Ready
                    && final(self).quiescent() && final(self).now_ms == old(self).now_ms
            },
            final(self).ns_table@ == old(self).ns_table@,
            final(self).io_depth == old(self).io_depth,
            final(self).caps == old(self).caps,
            final(self).device.cfs == old(self).device.cfs,
            final(self).device.stalled == old(self).device.stalled,
            final(self).page_size == old(self).page_size,
            final(self).max_transfer_shift == old(self).max_transfer_shift,
            final(self).now_ms <= old(self).now_ms + deadline_ms,
    {
        if self.state == CtrlState::Failed {
            return IoResult::fail(IoStatus::Fatal, 0);
        }
        if self.state != CtrlState::Ready {
            return IoResult::fail(IoStatus::Parameter, 0);
        }
        if nsid == 0 || nsid as usize > self.ns_table.len() {
            return IoResult::fail(IoStatus::Parameter, 0);
        }
        let c = build_flush(nsid, 0);
        let ex = self.io_exchange(c, deadline_ms);
        match ex {
            Err(e) => {
                if e == IoStatus::Timeout {
                    IoResult::fail(IoStatus::Timeout, 0)
                } else {
                    IoResult::fail(IoStatus::Fatal, 0)
                }
            },
            Ok(sr) => {
                proof {
                    assert(sr.0 == SC_SUCCESS);
                }
                if sr.0 != 0 {
                    IoResult::fail(IoStatus::DeviceError, sr.0 as u32)
                } else {
                    IoResult::ok(0)
                }
            },
        }
    }

    /// Asks the device to deallocate `[lba, lba + nblocks)` of namespace
    /// `nsid` through a dataset-management command whose single range
    /// descriptor is staged in the driver-reserved scratch region.
    /// Whether deallocated blocks afterwards read back as zeros is the
    /// namespace's deallocate-returns-zero feature bit's call: with the bit
    /// set the range is zeroed; without it the blocks keep their bytes.
    pub fn trim(&mut self, nsid: u32, lba: u64, nblocks: u32, deadline_ms: u64) -> (r: IoResult)
        requires
            old(self).wf(),
            old(self).quiescent(),
            old(self).now_ms + deadline_ms < 0x7fff_ffff_ffff_ffff,
        ensures
            final(self).wf(),
            old(self).state == CtrlState::Failed ==> r.kind == IoStatus::Fatal && *final(self)
                == *old(self),
            old(self).state != CtrlState::Failed && old(self).state != CtrlState::Ready ==> (
            r.kind == IoStatus::Parameter && *final(self) == *old(self)),
            old(self).state == CtrlState::Ready && !trim_params_ok(*old(self), nsid, lba,
                nblocks) ==> r.kind == IoStatus::Parameter && *final(self) == *old(self),
            old(self).state == CtrlState::Ready && trim_params_ok(*old(self), nsid, lba,
                nblocks) ==> {
                &&& final(self).mem@.len() == old(self).mem@.len()
                &&& forall|j: int|
                    16 <= j < old(self).mem@.len() ==> final(self).mem@[j] == old(self).mem@[j]
                &&& old(self).device.cfs ==> r.kind == IoStatus::Fatal && final(self).state
                    == CtrlState::Failed && namespaces_unchanged(
                    old(self).device.namespaces@,
                    final(self).device.namespaces@,
                )
                &&& !old(self).device.cfs && old(self).device.stalled ==> r.kind
                    == IoStatus::Timeout && final(self).state == CtrlState::Ready
                    && final(self).quiescent() && namespaces_unchanged(
                    old(self).device.namespaces@,
                    final(self).device.namespaces@,
                )
                &&& !old(self).device.cfs && !old(self).device.stalled ==> {
                    &&& r.kind == IoStatus::Success
                    &&& final(self).state == CtrlState::Ready
                    &&& final(self).quiescent()
                    &&& final(self).device.namespaces@.len() == old(
                        self,
                    ).device.namespaces@.len()
                    &&& forall|i: int|
                        0 <= i < old(self).device.namespaces@.len() && i != nsid - 1
                            ==> final(self).device.namespaces@[i] == old(
                            self,
                        ).device.namespaces@[i]
                    &&& same_ns_meta(
                        final(self).device.namespaces@[nsid - 1],
                        old(self).device.namespaces@[nsid - 1],
                    )
                    &&& old(self).device.namespaces@[nsid - 1].deallocate_zeroes()
                        ==> zeroed_range(
                        old(self).device.namespaces@[nsid - 1].data@,
                        final(self).device.namespaces@[nsid - 1].data@,
                        lba * old(self).ns_table@[nsid - 1].block_size,
                        nblocks * old(self).ns_table@[nsid - 1].block_size,
                    )
                    &&& !old(self).device.namespaces@[nsid - 1].deallocate_zeroes()
                        ==> final(self).device.namespaces@[nsid - 1].data@ == old(
                        self,
                    ).device.namespaces@[nsid - 1].data@
                }
            },
            final(self).ns_table@ == old(self).ns_table@,
            final(self).io_depth == old(self).io_depth,
            final(self).caps == old(self).caps,
            final(self).device.cfs == old(self).device.cfs,
            final(self).device.stalled == old(self).device.stalled,
            final(self).page_size == old(self).page_size,
            final(self).max_transfer_shift == old(self).max_transfer_shift,
            final(self).now_ms <= old(self).now_ms + deadline_ms,
    {
        if self.state == CtrlState::Failed {
            return IoResult::fail(IoStatus::Fatal, 0);
        }
        if self.state != CtrlState::Ready {
            return IoResult::fail(IoStatus::Parameter, 0);
        }
        if nsid == 0 || nsid as usize > self.ns_table.len() {
            return IoResult::fail(IoStatus::Parameter, 0);
        }
        if nblocks == 0 {
            return IoResult::fail(IoStatus::Parameter, 0);
        }
        let info = self.ns_table[(nsid - 1) as usize];
        if lba >= info.nlbas || nblocks as u64 > info.nlbas - lba {
            return IoResult::fail(IoStatus::Parameter, 0);
        }
        // stage the single range descriptor in scratch: context attributes
        // at 0, length-in-LBAs at 4, starting LBA at 8
        put_le32(&mut self.mem, 0, 0);
        put_le32(&mut self.mem, 4, nblocks);
        put_le64(&mut self.mem, 8, lba);
        proof {
            crate::bytes::lemma_splice_points(old(self).mem@, 0, crate::bytes::le32_bytes(0));
            crate::bytes::lemma_le32_roundtrip(nblocks);
            crate::bytes::lemma_le64_roundtrip(lba);
            assert(self.mem@.subrange(4, 8) =~= crate::bytes::le32_bytes(nblocks));
            assert(self.mem@.subrange(8, 16) =~= crate::bytes::le64_bytes(lba));
        }
        let c = build_dsm(nsid, 0, 0);
        let ex = self.io_exchange(c, deadline_ms);
        match ex {
            Err(e) => {
                if e == IoStatus::Timeout {
                    IoResult::fail(IoStatus::Timeout, 0)
                } else {
                    IoResult::fail(IoStatus::Fatal, 0)
                }
            },
            Ok(sr) => {
                proof {
                    assert(sr.0 == SC_SUCCESS);
                }
                if sr.0 != 0 {
                    IoResult::fail(IoStatus::DeviceError, sr.0 as u32)
                } else {
                    IoResult::ok(nblocks as u64)
                }
            },
        }
    }
}

/// Whether a trim request names a known namespace and a range inside it.
pub open spec fn trim_params_ok(s: NvmeCtrl, nsid: u32, lba: u64, nblocks: u32) -> bool {
    &&& 1 <= nsid <= s.ns_table@.len()
    &&& nblocks >= 1
    &&& lba + nblocks <= s.ns_table@[nsid - 1].nlbas
}


/// The result kind the reaper derives from a completion's status field:
/// success for a zero status, a timeout for an abort completion, and a
/// device error otherwise.
pub open spec fn parked_kind(sc: u16) -> IoStatus {
    if sc == 0 {
        IoStatus::Success
    } else if sc == SC_ABORT_REQUESTED {
        IoStatus::Timeout
    } else {
        IoStatus::DeviceError
    }
}

/// The result the reaper parks for a completion with status field `sc`;
/// the status field is kept verbatim in the diagnostic.  The async path is
/// command-granular, so no serviced-LBA count is carried.
pub open spec fn parked_result(sc: u16) -> IoResult {
    IoResult { kind: parked_kind(sc), lbas_done: 0, diagnostic: sc as u32 }
}

impl NvmeCtrl {
    /// Whether the driver's I/O tail has been doorbelled and the device's
    /// backlog never exceeds the outstanding count: the bookkeeping that
    /// keeps a submit-without-wait engine sound.
    pub open spec fn io_synced(self) -> bool {
        &&& self.device.queues@[1].sq_created
        &&& self.device.queues@[1].cq_created
        &&& self.device.queues@[1].depth == self.io_q.q_depth
        &&& self.device.queues@[1].db_tail == self.io_q.sq_tail
        &&& self.device.queues@[1].pending <= self.io_q.inflight_count
    }

    /// Submits one I/O command without waiting: it either takes a free
    /// slot, advances the tail, and rings the SQ-tail doorbell, or reports
    /// busy on a full ring — never blocking on the device.  A duplicate or
    /// out-of-range command id is a parameter error; a failed controller
    /// refuses with a fatal error.
    pub fn submit_io_cmd(&mut self, cmd: NvmeCommand) -> (r: Result<u16, IoStatus>)
        requires
            old(self).wf(),
            old(self).state == CtrlState::Ready ==> old(self).io_synced(),
        ensures
            final(self).wf(),
            final(self).state == old(self).state,
            old(self).state == CtrlState::Failed ==> r == Result::<u16, IoStatus>::Err(
                IoStatus::Fatal,
            ) && *final(self) == *old(self),
            old(self).state != CtrlState::Failed && old(self).state != CtrlState::Ready ==> (r
                == Result::<u16, IoStatus>::Err(IoStatus::Parameter) && *final(self) == *old(
                self,
            )),
            old(self).state == CtrlState::Ready ==> {
                &&& final(self).io_synced()
                &&& old(self).io_q.poisoned ==> r == Result::<u16, IoStatus>::Err(
                    IoStatus::Fatal,
                ) && final(self).io_q.same_as(old(self).io_q)
                &&& !old(self).io_q.poisoned && old(self).io_q.inflight_count == old(
                    self,
                ).io_q.q_depth ==> r == Result::<u16, IoStatus>::Err(IoStatus::Busy)
                    && final(self).io_q.same_as(old(self).io_q)
                &&& !old(self).io_q.poisoned && old(self).io_q.inflight_count < old(
                    self,
                ).io_q.q_depth && ((cmd_cid(cmd) as int) >= old(self).io_q.q_depth || old(
                    self,
                ).io_q.in_flight@[cmd_cid(cmd) as int]) ==> r == Result::<u16, IoStatus>::Err(
                    IoStatus::Parameter,
                ) && final(self).io_q.same_as(old(self).io_q)
                &&& old(self).io_q.can_accept(cmd) ==> {
                    &&& r == Result::<u16, IoStatus>::Ok(old(self).io_q.sq_tail)
                    &&& final(self).io_q.sq_tail == (if old(self).io_q.sq_tail + 1 == old(
                        self,
                    ).io_q.q_depth {
                        0u16
                    } else {
                        (old(self).io_q.sq_tail + 1) as u16
                    })
                    &&& final(self).device.queues@[1].db_tail == final(self).io_q.sq_tail
                    &&& final(self).io_q.sq_cmds@ == old(self).io_q.sq_cmds@.update(
                        old(self).io_q.sq_tail as int,
                        cmd,
                    )
                    &&& final(self).io_q.in_flight@ == old(self).io_q.in_flight@.update(
                        cmd_cid(cmd) as int,
                        true,
                    )
                    &&& final(self).io_q.inflight_count == old(self).io_q.inflight_count + 1
                    &&& final(self).device.queues@[1].pending == old(
                        self,
                    ).device.queues@[1].pending + 1
                }
                &&& final(self).device.namespaces@ == old(self).device.namespaces@
                &&& final(self).mem@ == old(self).mem@
                &&& final(self).io_results@ == old(self).io_results@
                &&& final(self).device.cfs == old(self).device.cfs
                &&& final(self).device.stalled == old(self).device.stalled
                &&& final(self).io_q.cq_cmds@ == old(self).io_q.cq_cmds@
                &&& final(self).io_q.cq_head == old(self).io_q.cq_head
                &&& final(self).io_q.cq_phase == old(self).io_q.cq_phase
                &&& final(self).io_q.reap_log@ == old(self).io_q.reap_log@
            },
    {
        if self.state == CtrlState::Failed {
            return Err(IoStatus::Fatal);
        }
        if self.state != CtrlState::Ready {
            return Err(IoStatus::Parameter);
        }
        proof {
            crate::queue::lemma_count_true_bounds(self.io_q.in_flight@);
        }
        let submitted = self.io_q.submit(cmd);
        match submitted {
            Err(e) => Err(e),
            Ok(slot) => {
                let stride = db_stride(self.device.dstrd);
                let tail = self.io_q.sq_tail;
                proof {
                    assert(old(self).io_q.can_accept(cmd));
                    assert(self.device.queues@[1].db_tail == old(self).io_q.sq_tail);
                    assert(self.device.queues@[1].pending < self.device.queues@[1].depth);
                    assert(ring_ok(self.device.queues@[1], tail as u32));
                    assert(ring_delta(self.device.queues@[1], tail as u32) == 1);
                }
                let db_off = sq_doorbell(1, stride);
                self.device.write_reg32(db_off, tail as u32);
                Ok(slot)
            },
        }
    }

    /// The completion path of the reaper: samples the controller status
    /// first — a raised fatal-status bit fails every in-flight command with
    /// a fatal result and moves the controller to the failed state — then
    /// consumes every fresh completion entry, parking each command's result
    /// under its command id, and rings the CQ-head doorbell once for the
    /// batch.  Returns how many completions were consumed.
    pub fn process_completions(&mut self) -> (r: usize)
        requires
            old(self).wf(),
        ensures
            final(self).wf(),
            final(self).io_results@.len() == old(self).io_results@.len(),
            final(self).now_ms == old(self).now_ms,
            final(self).io_depth == old(self).io_depth,
            old(self).state != CtrlState::Ready ==> *final(self) == *old(self),
            old(self).state == CtrlState::Ready && old(self).device.cfs ==> {
                &&& final(self).state == CtrlState::Failed
                &&& final(self).device == old(self).device
                &&& final(self).mem@ == old(self).mem@
                &&& final(self).io_q.inflight_count == 0
                &&& forall|c: int|
                    0 <= c < old(self).io_q.q_depth && old(self).io_q.in_flight@[c]
                        ==> final(self).io_results@[c] == Some(
                        IoResult { kind: IoStatus::Fatal, lbas_done: 0, diagnostic: 0 },
                    )
                &&& forall|c: int|
                    0 <= c < old(self).io_q.q_depth && !old(self).io_q.in_flight@[c]
                        ==> final(self).io_results@[c] == old(self).io_results@[c]
            },
            old(self).state == CtrlState::Ready && !old(self).device.cfs ==> {
                &&& final(self).state == CtrlState::Ready
                &&& final(self).device.namespaces@ == old(self).device.namespaces@
                &&& final(self).mem@ == old(self).mem@
                &&& final(self).device.cfs == old(self).device.cfs
                &&& final(self).device.stalled == old(self).device.stalled
                &&& final(self).io_q.reap_log@.len() == old(self).io_q.reap_log@.len() + r
                &&& final(self).io_q.poisoned || !final(self).io_q.head_ready()
                &&& forall|i: int|
                    old(self).io_q.reap_log@.len() <= i < final(self).io_q.reap_log@.len()
                        ==> (#[trigger] final(self).io_q.reap_log@[i]).cid
                        < final(self).io_q.q_depth && final(self).io_results@[
                        final(self).io_q.reap_log@[i].cid as int
                    ] == Some(parked_result(final(self).io_q.reap_log@[i].code))
                &&& forall|c: int|
                    0 <= c < old(self).io_q.q_depth && old(self).io_q.in_flight@[c]
                        && !final(self).io_q.in_flight@[c] ==> (
                    #[trigger] final(self).io_results@[c]).is_some()
                &&& forall|c: int|
                    0 <= c < old(self).io_q.q_depth && !old(self).io_q.in_flight@[c]
                        ==> final(self).io_results@[c] == old(self).io_results@[c]
                        && !final(self).io_q.in_flight@[c]
                &&& forall|c: int|
                    0 <= c < old(self).io_q.q_depth && old(self).io_q.in_flight@[c]
                        && final(self).io_q.in_flight@[c]
                        ==> #[trigger] final(self).io_results@[c] == old(self).io_results@[c]
                &&& forall|c: int|
                    0 <= c < old(self).io_q.q_depth && old(self).io_q.in_flight@[c]
                        && !final(self).io_q.in_flight@[c] ==> exists|i: int|
                        old(self).io_q.reap_log@.len() <= i < final(self).io_q.reap_log@.len()
                            && (#[trigger] final(self).io_q.reap_log@[i]).cid == c
            },
    {
        if self.state != CtrlState::Ready {
            return 0;
        }
        let st = self.read_status_bits();
        if st.1 {
            // fatal controller failure: every in-flight command fails with
            // a fatal result and only unbind succeeds afterwards
            let depth = self.io_q.q_depth;
            let mut c: u16 = 0;
            while c < depth
                invariant
                    c <= depth,
                    depth == self.io_q.q_depth,
                    self.wf(),
                    self.io_q.same_as(old(self).io_q),
                    self.io_results@.len() == old(self).io_results@.len(),
                    self.io_results@.len() == depth,
                    self.state == old(self).state,
                    self.device == old(self).device,
                    self.now_ms == old(self).now_ms,
                    self.mem@ == old(self).mem@,
                    self.io_depth == old(self).io_depth,
                    forall|k: int|
                        0 <= k < c && self.io_q.in_flight@[k] ==> self.io_results@[k] == Some(
                            IoResult { kind: IoStatus::Fatal, lbas_done: 0, diagnostic: 0 },
                        ),
                    forall|k: int|
                        (c <= k < depth || !self.io_q.in_flight@[k]) && 0 <= k < depth
                            ==> self.io_results@[k] == old(self).io_results@[k],
                decreases depth - c,
            {
                if self.io_q.in_flight[c as usize] {
                    self.io_results.set(
                        c as usize,
                        Some(IoResult { kind: IoStatus::Fatal, lbas_done: 0, diagnostic: 0 }),
                    );
                }
                c = c + 1;
            }
            self.io_q.fail_all();
            self.state = CtrlState::Failed;
            return 0;
        }
        let mut n: usize = 0;
        loop
            invariant
                self.wf(),
                self.state == CtrlState::Ready,
                self.device.namespaces@ == old(self).device.namespaces@,
                self.mem@ == old(self).mem@,
                self.device.cfs == old(self).device.cfs,
                self.device.stalled == old(self).device.stalled,
                self.io_results@.len() == old(self).io_results@.len(),
                self.io_q.reap_log@.len() == old(self).io_q.reap_log@.len() + n,
                n + self.io_q.inflight_count == old(self).io_q.inflight_count,
                self.now_ms == old(self).now_ms,
                self.io_depth == old(self).io_depth,
                self.io_q.q_depth == old(self).io_q.q_depth,
                self.io_q.in_flight@.len() == self.io_q.q_depth,
                self.io_results@.len() == self.io_q.q_depth,
                old(self).io_q.in_flight@.len() == self.io_q.q_depth,
                forall|c: int|
                    0 <= c < self.io_q.q_depth && #[trigger] self.io_q.in_flight@[c] ==> old(
                        self,
                    ).io_q.in_flight@[c],
                forall|c: int|
                    0 <= c < self.io_q.q_depth && old(self).io_q.in_flight@[c]
                        && !self.io_q.in_flight@[c] ==> (
                    #[trigger] self.io_results@[c]).is_some(),
                forall|c: int|
                    0 <= c < self.io_q.q_depth && !old(self).io_q.in_flight@[c]
                        ==> self.io_results@[c] == old(self).io_results@[c]
                        && !self.io_q.in_flight@[c],
                forall|i: int|
                    old(self).io_q.reap_log@.len() <= i < self.io_q.reap_log@.len() ==> (
                    #[trigger] self.io_q.reap_log@[i]).cid < self.io_q.q_depth
                        && !self.io_q.in_flight@[self.io_q.reap_log@[i].cid as int]
                        && self.io_results@[self.io_q.reap_log@[i].cid as int] == Some(
                        parked_result(self.io_q.reap_log@[i].code),
                    ),
                forall|c: int|
                    0 <= c < self.io_q.q_depth && old(self).io_q.in_flight@[c]
                        && self.io_q.in_flight@[c] ==> #[trigger] self.io_results@[c] == old(
                        self,
                    ).io_results@[c],
                forall|c: int|
                    0 <= c < self.io_q.q_depth && old(self).io_q.in_flight@[c]
                        && !self.io_q.in_flight@[c] ==> exists|i: int|
                        old(self).io_q.reap_log@.len() <= i < self.io_q.reap_log@.len() && (
                        #[trigger] self.io_q.reap_log@[i]).cid == c,
            ensures
                self.wf(),
                self.state == CtrlState::Ready,
                self.device.namespaces@ == old(self).device.namespaces@,
                self.mem@ == old(self).mem@,
                self.device.cfs == old(self).device.cfs,
                self.device.stalled == old(self).device.stalled,
                self.io_results@.len() == old(self).io_results@.len(),
                self.io_q.reap_log@.len() == old(self).io_q.reap_log@.len() + n,
                self.now_ms == old(self).now_ms,
                self.io_depth == old(self).io_depth,
                self.io_q.poisoned || !self.io_q.head_ready(),
                forall|c: int|
                    0 <= c < self.io_q.q_depth && old(self).io_q.in_flight@[c]
                        && !self.io_q.in_flight@[c] ==> (
                    #[trigger] self.io_results@[c]).is_some(),
                forall|c: int|
                    0 <= c < self.io_q.q_depth && !old(self).io_q.in_flight@[c]
                        ==> self.io_results@[c] == old(self).io_results@[c]
                        && !self.io_q.in_flight@[c],
                forall|i: int|
                    old(self).io_q.reap_log@.len() <= i < self.io_q.reap_log@.len() ==> (
                    #[trigger] self.io_q.reap_log@[i]).cid < self.io_q.q_depth
                        && self.io_results@[self.io_q.reap_log@[i].cid as int] == Some(
                        parked_result(self.io_q.reap_log@[i].code),
                    ),
                forall|c: int|
                    0 <= c < self.io_q.q_depth && old(self).io_q.in_flight@[c]
                        && self.io_q.in_flight@[c] ==> #[trigger] self.io_results@[c] == old(
                        self,
                    ).io_results@[c],
                forall|c: int|
                    0 <= c < self.io_q.q_depth && old(self).io_q.in_flight@[c]
                        && !self.io_q.in_flight@[c] ==> exists|i: int|
                        old(self).io_q.reap_log@.len() <= i < self.io_q.reap_log@.len() && (
                        #[trigger] self.io_q.reap_log@[i]).cid == c,
            decreases self.io_q.inflight_count,
        {
            let ghost pre_reap = *self;
            let got = self.io_q.reap_one();
            match got {
                None => {
                    break;
                },
                Some(e) => {
                    let sc: u16 = e.status >> 1;
                    let kind = if sc == 0 {
                        IoStatus::Success
                    } else if sc == SC_ABORT_REQUESTED {
                        IoStatus::Timeout
                    } else {
                        IoStatus::DeviceError
                    };
                    self.io_results.set(
                        e.command_id as usize,
                        Some(IoResult { kind, lbas_done: 0, diagnostic: sc as u32 }),
                    );
                    proof {
                        assert forall|c: int|
                            0 <= c < self.io_q.q_depth && old(self).io_q.in_flight@[c]
                                && !self.io_q.in_flight@[c] implies exists|i: int|
                            old(self).io_q.reap_log@.len() <= i < self.io_q.reap_log@.len()
                                && (#[trigger] self.io_q.reap_log@[i]).cid == c by {
                            if c == e.command_id as int {
                                let last = self.io_q.reap_log@.len() - 1;
                                assert(old(self).io_q.reap_log@.len() <= last
                                    < self.io_q.reap_log@.len() && self.io_q.reap_log@[
                                    last
                                ].cid == c);
                            } else {
                                assert(!pre_reap.io_q.in_flight@[c]);
                                let i0 = choose|i: int|
                                    old(self).io_q.reap_log@.len() <= i
                                        < pre_reap.io_q.reap_log@.len() && (
                                    #[trigger] pre_reap.io_q.reap_log@[i]).cid == c;
                                assert(old(self).io_q.reap_log@.len() <= i0
                                    < self.io_q.reap_log@.len() && self.io_q.reap_log@[
                                    i0
                                ].cid == c);
                            }
                        }
                    }
                    n = n + 1;
                },
            }
        }
        // one CQ-head doorbell for the whole batch
        let stride = db_stride(self.device.dstrd);
        let db_off = cq_doorbell(1, stride);
        self.device.write_reg32(db_off, self.io_q.cq_head as u32);
        n
    }

    /// Hands out the parked result of command `cid`, if its terminal
    /// completion has been consumed, clearing the slot.
    pub fn try_complete(&mut self, cid: u16) -> (r: Option<IoResult>)
        requires
            old(self).wf(),
            (cid as int) < old(self).io_depth,
        ensures
            final(self).wf(),
            r == old(self).io_results@[cid as int],
            final(self).io_results@ == old(self).io_results@.update(cid as int, None),
            final(self).io_q.same_as(old(self).io_q),
            final(self).device == old(self).device,
            final(self).state == old(self).state,
            final(self).mem@ == old(self).mem@,
            final(self).now_ms == old(self).now_ms,
            final(self).io_depth == old(self).io_depth,
    {
        let r = self.io_results[cid as usize];
        self.io_results.set(cid as usize, None);
        r
    }

    /// Requests a normal shutdown: the shutdown-notification bits are
    /// written after the I/O rings are deleted (submission ring strictly
    /// before its completion ring), and the controller is off once the
    /// status register reports shutdown complete.
    pub fn request_shutdown(&mut self) -> (r: Result<(), IoStatus>)
        requires
            old(self).wf(),
            old(self).quiescent(),
            old(self).state == CtrlState::Ready,
            !old(self).device.cfs,
        ensures
            final(self).wf(),
            r == Result::<(), IoStatus>::Ok(()),
            final(self).state == CtrlState::Off,
            final(self).device.shst_complete,
            final(self).device.queues@[1] == DevQueueState::absent_spec(),
            final(self).device.cc == (old(self).ctrl_config | CC_SHN_NORMAL),
            final(self).device.namespaces@ == old(self).device.namespaces@,
            final(self).mem@ == old(self).mem@,
    {
        self.state = CtrlState::ShuttingDown;
        // strict ordering: delete the submission ring, then its completion
        // ring
        let _ = self.admin_exchange(build_delete_sq(1, 0));
        let _ = self.admin_exchange(build_delete_cq(1, 0));
        // notify a normal shutdown and wait for shutdown-complete status
        let shn = self.ctrl_config | CC_SHN_NORMAL;
        proof {
            let v = self.ctrl_config;
            assert((v | 0x4000u32) & 0xc000 != 0) by (bit_vector);
        }
        self.device.write_reg32(REG_CC, shn);
        let st = self.read_status_bits();
        if !st.2 {
            self.state = CtrlState::Failed;
            return Err(IoStatus::Timeout);
        }
        self.state = CtrlState::Off;
        Ok(())
    }

    /// Drives the lifecycle to off if the controller is still ready, and
    /// gives the device back.
    pub fn unbind(self) -> (r: DeviceModel)
        requires
            self.wf(),
            self.quiescent(),
            self.state == CtrlState::Ready ==> !self.device.cfs,
        ensures
            r.wf(),
            self.state == CtrlState::Ready ==> r.shst_complete && r.queues@[1]
                == DevQueueState::absent_spec() && r.namespaces@ == self.device.namespaces@,
            self.state != CtrlState::Ready ==> r == self.device,
    {
        let mut s = self;
        if s.state == CtrlState::Ready {
            let _ = s.request_shutdown();
        }
        s.device
    }
}


/// The chunk schedule for a request that may exceed the max-data-transfer
/// size: `blocks` blocks starting at `lba`, cut into block-contiguous
/// chunks of at most `max_blocks` each.  The chunks cover the original
/// range exactly, in order, and there are exactly as many as the ceiling
/// of `blocks / max_blocks` — the count `k` is pinned by
/// `(k-1)*max_blocks < blocks <= k*max_blocks`.  The read and write
/// engines derive the same schedule chunk by chunk as they issue their
/// commands.
pub fn split_request(lba: u64, blocks: u16, max_blocks: u64) -> (r: Vec<(u64, u16)>)
    requires
        1 <= blocks,
        1 <= max_blocks,
        lba + blocks <= 0xffff_ffff_ffff_ffff,
    ensures
        1 <= r@.len(),
        (r@.len() - 1) * max_blocks < blocks,
        blocks <= r@.len() * max_blocks,
        forall|i: int| 0 <= i < r@.len() ==> (#[trigger] r@[i]).0 == lba + i * max_blocks,
        forall|i: int| 0 <= i < r@.len() ==> 1 <= (#[trigger] r@[i]).1 <= max_blocks,
        forall|i: int|
            0 <= i < r@.len() - 1 ==> (#[trigger] r@[i]).0 + r@[i].1 == r@[i + 1].0,
        r@[0].0 == lba,
        r@[r@.len() - 1].0 + r@[r@.len() - 1].1 == lba + blocks,
        forall|i: int| 0 <= i < r@.len() - 1 ==> (#[trigger] r@[i]).1 == max_blocks,
{
    let mut r: Vec<(u64, u16)> = Vec::new();
    proof {
        assert(r@.len() == 0);
        assert(0int * max_blocks == 0) by (nonlinear_arith);
    }
    let mut done: u64 = 0;
    while done < blocks as u64
        invariant
            1 <= blocks,
            1 <= max_blocks,
            lba + blocks <= 0xffff_ffff_ffff_ffff,
            done <= blocks,
            r@.len() * max_blocks >= done,
            done < blocks ==> done == r@.len() * max_blocks,
            done == blocks ==> (r@.len() - 1) * max_blocks < blocks && blocks <= r@.len()
                * max_blocks,
            done >= 1 ==> r@.len() >= 1,
            forall|i: int| 0 <= i < r@.len() ==> (#[trigger] r@[i]).0 == lba + i * max_blocks,
            forall|i: int| 0 <= i < r@.len() ==> 1 <= (#[trigger] r@[i]).1 <= max_blocks,
            forall|i: int|
                0 <= i < r@.len() - 1 ==> (#[trigger] r@[i]).1 == max_blocks,
            forall|i: int|
                0 <= i < r@.len() - 1 ==> (#[trigger] r@[i]).0 + r@[i].1 == r@[i + 1].0,
            r@.len() >= 1 ==> r@[0].0 == lba,
            r@.len() >= 1 ==> r@[r@.len() - 1].0 + r@[r@.len() - 1].1 == lba + done,
        decreases blocks as u64 - done,
    {
        let remaining: u64 = blocks as u64 - done;
        let this: u64 = if remaining < max_blocks {
            remaining
        } else {
            max_blocks
        };
        let ghost k = r@.len();
        proof {
            assert((k + 1) * max_blocks == k * max_blocks + max_blocks) by (nonlinear_arith);
            if k >= 1 {
                assert(k * max_blocks == (k - 1) * max_blocks + max_blocks)
                    by (nonlinear_arith);
            }
        }
        r.push((lba + done, this as u16));
        done = done + this;
    }
    proof {
        assert(r@.len() >= 1);
    }
    r
}

/// Round trip through the medium: writing a range from one buffer,
/// flushing (which changes no bytes), and reading the same range back into
/// another buffer yields exactly the written bytes.  The two byte-transfer
/// facts are the write engine's and the read engine's postconditions; the
/// flush sits between them leaving the namespace untouched.
pub proof fn lemma_write_flush_read_roundtrip(mem0: Seq<u8>, ns0: Seq<u8>, ns1: Seq<u8>,
    mem2: Seq<u8>, wbuf: int, rbuf: int, off: int, len: int)
    requires
        0 <= len,
        0 <= off,
        off + len <= ns0.len(),
        0 <= wbuf,
        wbuf + len <= mem0.len(),
        0 <= rbuf,
        rbuf + len <= mem0.len(),
        bytes_written(ns0, ns1, off, mem0, wbuf, len),
        bytes_written(mem0, mem2, rbuf, ns1, off, len),
    ensures
        mem2.subrange(rbuf, rbuf + len) == mem0.subrange(wbuf, wbuf + len),
{
    assert forall|j: int| 0 <= j < len implies #[trigger] mem2.subrange(rbuf, rbuf + len)[j]
        == mem0.subrange(wbuf, wbuf + len)[j] by {
        assert(mem2[rbuf + j] == ns1[off + j]);
        assert(ns1[off + j] == mem0[wbuf + j]);
    }
    assert(mem2.subrange(rbuf, rbuf + len) =~= mem0.subrange(wbuf, wbuf + len));
}

/// Deallocate-then-read: after trimming a range, reading it back gives all
/// zeros exactly when the namespace's deallocate-returns-zero feature bit
/// was set; without the bit the blocks keep their bytes, so the read
/// returns the pre-trim contents.
pub proof fn lemma_trim_read_zeroes(ns0: Seq<u8>, ns1: Seq<u8>, mem0: Seq<u8>, mem2: Seq<u8>,
    rbuf: int, off: int, len: int, zeroes: bool)
    requires
        0 <= len,
        0 <= off,
        off + len <= ns0.len(),
        0 <= rbuf,
        rbuf + len <= mem0.len(),
        zeroes ==> zeroed_range(ns0, ns1, off, len),
        !zeroes ==> ns1 == ns0,
        bytes_written(mem0, mem2, rbuf, ns1, off, len),
    ensures
        zeroes ==> forall|j: int| rbuf <= j < rbuf + len ==> mem2[j] == 0,
        !zeroes ==> mem2.subrange(rbuf, rbuf + len) == ns0.subrange(off, off + len),
{
    if !zeroes {
        assert forall|j: int| 0 <= j < len implies #[trigger] mem2.subrange(rbuf, rbuf + len)[
            j
        ] == ns0.subrange(off, off + len)[j] by {
            assert(mem2[rbuf + j] == ns1[off + j]);
        }
        assert(mem2.subrange(rbuf, rbuf + len) =~= ns0.subrange(off, off + len));
    }
}


impl NvmeCtrl {
    /// A 32-bit read through the register window.
    pub fn read_reg32(&self, offset: u64) -> (r: u32)
        ensures
            offset == crate::regs::REG_VS ==> r == self.device.vs,
            offset == REG_CSTS ==> r == self.device.csts_spec(),
            offset == REG_CC ==> r == self.device.cc,
            offset == REG_AQA ==> r == self.device.aqa,
    {
        self.device.read_reg32(offset)
    }

    /// A 32-bit write through the register window.
    pub fn write_reg32(&mut self, offset: u64, value: u32)
        requires
            old(self).wf(),
        ensures
            final(self).wf(),
            offset == REG_CC ==> DeviceModel::cc_write_effect(
                old(self).device,
                final(self).device,
                value,
            ),
            final(self).state == old(self).state,
            final(self).mem@ == old(self).mem@,
            final(self).device.namespaces@ == old(self).device.namespaces@,
    {
        self.device.write_reg32(offset, value);
    }

    /// A 64-bit read through the register window.
    pub fn read_reg64(&self, offset: u64) -> (r: u64)
        ensures
            offset == REG_CAP ==> r == self.device.cap,
            offset == REG_ASQ ==> r == self.device.asq,
            offset == REG_ACQ ==> r == self.device.acq,
    {
        self.device.read_reg64(offset)
    }

    /// A 64-bit write through the register window; the ring-base registers
    /// take effect as a single store.
    pub fn write_reg64(&mut self, offset: u64, value: u64)
        requires
            old(self).wf(),
        ensures
            final(self).wf(),
            offset == REG_ASQ ==> final(self).device.asq == value,
            offset == REG_ACQ ==> final(self).device.acq == value,
            final(self).state == old(self).state,
            final(self).mem@ == old(self).mem@,
            final(self).device.namespaces@ == old(self).device.namespaces@,
    {
        self.device.write_reg64(offset, value);
    }

    /// Re-issues identify-controller through the admin engine and decodes
    /// the payload from the scratch region: the result carries exactly the
    /// device's identify fields.
    pub fn identify_controller(&mut self) -> (r: Result<NvmeIdCtrl, IoStatus>)
        requires
            old(self).wf(),
            old(self).quiescent(),
            !old(self).device.cfs,
        ensures
            final(self).wf(),
            final(self).quiescent(),
            final(self).state == old(self).state,
            r.is_ok(),
            r.unwrap().same_fields(old(self).device.ident),
            final(self).device.namespaces@ == old(self).device.namespaces@,
    {
        let _ = self.admin_exchange(build_identify(CNS_CONTROLLER, 0, 0, 0));
        let id = read_id_ctrl(&self.mem, 0);
        proof {
            lemma_id_ctrl_roundtrip(self.mem@, 0, self.device.ident, id);
        }
        Ok(id)
    }

    /// Re-issues identify-namespace for `nsid` through the admin engine:
    /// the result carries exactly that namespace's geometry, or a
    /// parameter error for an unknown id.
    pub fn identify_namespace(&mut self, nsid: u32) -> (r: Result<NvmeIdNs, IoStatus>)
        requires
            old(self).wf(),
            old(self).quiescent(),
            !old(self).device.cfs,
        ensures
            final(self).wf(),
            final(self).quiescent(),
            final(self).state == old(self).state,
            final(self).device.namespaces@ == old(self).device.namespaces@,
            old(self).device.ns_ok(nsid) ==> r == Result::<NvmeIdNs, IoStatus>::Ok(
                crate::device::ns_geometry(old(self).device.the_ns(nsid)),
            ),
            !old(self).device.ns_ok(nsid) ==> r == Result::<NvmeIdNs, IoStatus>::Err(
                IoStatus::Parameter,
            ),
    {
        let ex = self.admin_exchange(build_identify(CNS_NAMESPACE, nsid, 0, 0));
        if ex.0 != 0 {
            return Err(IoStatus::Parameter);
        }
        let g = read_id_ns(&self.mem, 0);
        proof {
            lemma_id_ns_roundtrip(
                self.mem@,
                0,
                crate::device::ns_geometry(old(self).device.the_ns(nsid)),
                g,
            );
        }
        Ok(g)
    }
}


impl NvmeCtrl {
    /// Writes zeros over `[lba, lba + blocks)` of namespace `nsid` with a
    /// single write-zeroes command; no data buffer is involved.
    pub fn write_zeroes(&mut self, nsid: u32, lba: u64, blocks: u16, deadline_ms: u64) -> (r:
        IoResult)
        requires
            old(self).wf(),
            old(self).quiescent(),
            old(self).now_ms + deadline_ms < 0x7fff_ffff_ffff_ffff,
        ensures
            final(self).wf(),
            old(self).state == CtrlState::Failed ==> r.kind == IoStatus::Fatal && *final(self)
                == *old(self),
            old(self).state != CtrlState::Failed && old(self).state != CtrlState::Ready ==> (
            r.kind == IoStatus::Parameter && *final(self) == *old(self)),
            old(self).state == CtrlState::Ready && !trim_params_ok(*old(self), nsid, lba,
                blocks as u32) ==> r.kind == IoStatus::Parameter && *final(self) == *old(self),
            old(self).state == CtrlState::Ready && trim_params_ok(*old(self), nsid, lba,
                blocks as u32) ==> {
                &&& final(self).mem@ == old(self).mem@
                &&& old(self).device.cfs ==> r.kind == IoStatus::Fatal && final(self).state
                    == CtrlState::Failed && namespaces_unchanged(
                    old(self).device.namespaces@,
                    final(self).device.namespaces@,
                )
                &&& !old(self).device.cfs && old(self).device.stalled ==> r.kind
                    == IoStatus::Timeout && final(self).state == CtrlState::Ready
                    && final(self).quiescent() && namespaces_unchanged(
                    old(self).device.namespaces@,
                    final(self).device.namespaces@,
                )
                &&& !old(self).device.cfs && !old(self).device.stalled ==> {
                    &&& r.kind == IoStatus::Success
                    &&& r.lbas_done == blocks
                    &&& final(self).state == CtrlState::Ready
                    &&& final(self).quiescent()
                    &&& final(self).device.namespaces@.len() == old(
                        self,
                    ).device.namespaces@.len()
                    &&& forall|i: int|
                        0 <= i < old(self).device.namespaces@.len() && i != nsid - 1
                            ==> final(self).device.namespaces@[i] == old(
                            self,
                        ).device.namespaces@[i]
                    &&& same_ns_meta(
                        final(self).device.namespaces@[nsid - 1],
                        old(self).device.namespaces@[nsid - 1],
                    )
                    &&& zeroed_range(
                        old(self).device.namespaces@[nsid - 1].data@,
                        final(self).device.namespaces@[nsid - 1].data@,
                        lba * old(self).ns_table@[nsid - 1].block_size,
                        blocks * old(self).ns_table@[nsid - 1].block_size,
                    )
                }
            },
            final(self).ns_table@ == old(self).ns_table@,
            final(self).io_depth == old(self).io_depth,
            final(self).caps == old(self).caps,
            final(self).device.cfs == old(self).device.cfs,
            final(self).device.stalled == old(self).device.stalled,
            final(self).page_size == old(self).page_size,
            final(self).max_transfer_shift == old(self).max_transfer_shift,
            final(self).now_ms <= old(self).now_ms + deadline_ms,
    {
        if self.state == CtrlState::Failed {
            return IoResult::fail(IoStatus::Fatal, 0);
        }
        if self.state != CtrlState::Ready {
            return IoResult::fail(IoStatus::Parameter, 0);
        }
        if nsid == 0 || nsid as usize > self.ns_table.len() {
            return IoResult::fail(IoStatus::Parameter, 0);
        }
        if blocks == 0 {
            return IoResult::fail(IoStatus::Parameter, 0);
        }
        let info = self.ns_table[(nsid - 1) as usize];
        if lba >= info.nlbas || blocks as u64 > info.nlbas - lba {
            return IoResult::fail(IoStatus::Parameter, 0);
        }
        let c = build_io_rw(crate::wire::CMD_WRITE_ZEROES, nsid, lba, blocks, 0, 0, 0, 0);
        let ex = self.io_exchange(c, deadline_ms);
        match ex {
            Err(e) => {
                if e == IoStatus::Timeout {
                    IoResult::fail(IoStatus::Timeout, 0)
                } else {
                    IoResult::fail(IoStatus::Fatal, 0)
                }
            },
            Ok(sr) => {
                proof {
                    assert(sr.0 == SC_SUCCESS);
                }
                if sr.0 != 0 {
                    IoResult::fail(IoStatus::DeviceError, sr.0 as u32)
                } else {
                    IoResult::ok(blocks as u64)
                }
            },
        }
    }

    /// Compares `[lba, lba + blocks)` of namespace `nsid` against the
    /// caller's buffer with a single compare command: success exactly when
    /// the bytes match, and a compare-failure device error when they do
    /// not.  The request must fit one command.
    pub fn compare(&mut self, nsid: u32, lba: u64, blocks: u16, buffer: u64, deadline_ms: u64)
        -> (r: IoResult)
        requires
            old(self).wf(),
            old(self).quiescent(),
            old(self).now_ms + deadline_ms < 0x7fff_ffff_ffff_ffff,
        ensures
            final(self).wf(),
            final(self).device.namespaces@ == old(self).device.namespaces@,
            old(self).state == CtrlState::Failed ==> r.kind == IoStatus::Fatal && *final(self)
                == *old(self),
            old(self).state != CtrlState::Failed && old(self).state != CtrlState::Ready ==> (
            r.kind == IoStatus::Parameter && *final(self) == *old(self)),
            old(self).state == CtrlState::Ready && !valid_io_params(
                *old(self),
                nsid,
                lba,
                blocks,
                buffer,
            ) ==> r.kind == IoStatus::Parameter && *final(self) == *old(self),
            old(self).state == CtrlState::Ready && valid_io_params(
                *old(self),
                nsid,
                lba,
                blocks,
                buffer,
            ) && !old(self).device.cfs && !old(self).device.stalled && (blocks
                as int) <= max_blocks_spec(
                old(self).page_size,
                old(self).max_transfer_shift,
                old(self).ns_table@[nsid - 1].lba_shift,
            ) ==> {
                &&& final(self).state == CtrlState::Ready
                &&& final(self).quiescent()
                &&& final(self).mem@ == old(self).mem@
                &&& {
                    let bs = old(self).ns_table@[nsid - 1].block_size as int;
                    let same = old(self).mem@.subrange(
                        buffer as int,
                        buffer + blocks * bs,
                    ) == old(self).device.namespaces@[nsid - 1].data@.subrange(
                        lba * bs,
                        lba * bs + blocks * bs,
                    );
                    (r.kind == IoStatus::Success) == same
                }
            },
            final(self).ns_table@ == old(self).ns_table@,
            final(self).io_depth == old(self).io_depth,
            final(self).caps == old(self).caps,
            final(self).device.cfs == old(self).device.cfs,
            final(self).device.stalled == old(self).device.stalled,
            final(self).page_size == old(self).page_size,
            final(self).max_transfer_shift == old(self).max_transfer_shift,
            final(self).now_ms <= old(self).now_ms + deadline_ms,
    {
        if self.state == CtrlState::Failed {
            return IoResult::fail(IoStatus::Fatal, 0);
        }
        if self.state != CtrlState::Ready {
            return IoResult::fail(IoStatus::Parameter, 0);
        }
        if nsid == 0 || nsid as usize > self.ns_table.len() {
            return IoResult::fail(IoStatus::Parameter, 0);
        }
        if blocks == 0 {
            return IoResult::fail(IoStatus::Parameter, 0);
        }
        let info = self.ns_table[(nsid - 1) as usize];
        if lba >= info.nlbas || blocks as u64 > info.nlbas - lba {
            return IoResult::fail(IoStatus::Parameter, 0);
        }
        let bs: u32 = info.block_size;
        proof {
            assert(self.device.namespaces@[nsid - 1].wf());
            lemma_chunk_arith(lba as int, 0, blocks as int, blocks as int, info.nlbas as int,
                bs as int);
            assert((blocks as int) * (bs as int) <= 0xffff * 0xffff_ffff) by (nonlinear_arith)
                requires
                    blocks <= 0xffff && bs <= 0xffff_ffff,
            ;
        }
        let len_bytes: u64 = (blocks as u64) * (bs as u64);
        if buffer < DRIVER_RESERVED_MEM as u64 || len_bytes > self.mem.len() as u64 || buffer
            > self.mem.len() as u64 - len_bytes {
            return IoResult::fail(IoStatus::Parameter, 0);
        }
        let maxb: u64 = self.max_chunk_blocks(info.lba_shift);
        if maxb == 0 {
            return IoResult::fail(IoStatus::Parameter, 0);
        }
        if blocks as u64 > maxb {
            return IoResult::fail(IoStatus::Parameter, 0);
        }
        let c = build_io_rw(crate::wire::CMD_COMPARE, nsid, lba, blocks, 0, buffer, 0, 0);
        let ex = self.io_exchange(c, deadline_ms);
        match ex {
            Err(e) => {
                if e == IoStatus::Timeout {
                    IoResult::fail(IoStatus::Timeout, 0)
                } else {
                    IoResult::fail(IoStatus::Fatal, 0)
                }
            },
            Ok(sr) => {
                if sr.0 != 0 {
                    IoResult::fail(IoStatus::DeviceError, sr.0 as u32)
                } else {
                    IoResult::ok(blocks as u64)
                }
            },
        }
    }

    /// The blocking shape of completion: pumps the device and the
    /// completion path until command `cid`'s parked result arrives or the
    /// deadline elapses, advancing the clock one tick per fruitless lap.
    /// Against the deterministic model a live device answers on the first
    /// lap; on expiry the command is still outstanding and the caller
    /// escalates (the deadline-driven data paths issue the abort
    /// themselves).
    pub fn wait(&mut self, cid: u16, deadline_ms: u64) -> (r: IoResult)
        requires
            old(self).wf(),
            (cid as int) < old(self).io_depth,
            old(self).now_ms + deadline_ms < 0x7fff_ffff_ffff_ffff,
        ensures
            final(self).wf(),
            final(self).io_depth == old(self).io_depth,
            final(self).io_results@[cid as int].is_none(),
            old(self).io_results@[cid as int].is_some() && !old(self).io_q.in_flight@[
                cid as int
            ] ==> r == old(self).io_results@[cid as int].unwrap(),
            r.kind == IoStatus::Timeout && r.diagnostic == 0 && old(self).io_results@[
                cid as int
            ].is_none() ==> final(self).now_ms == old(self).now_ms + deadline_ms,
    {
        let mut waited: u64 = 0;
        loop
            invariant
                self.wf(),
                (cid as int) < self.io_depth,
                self.io_depth == old(self).io_depth,
                waited <= deadline_ms,
                self.now_ms == old(self).now_ms + waited,
                old(self).now_ms + deadline_ms < 0x7fff_ffff_ffff_ffff,
                waited == 0 ==> *self == *old(self),
                waited >= 1 ==> !(old(self).io_results@[cid as int].is_some() && !old(
                    self,
                ).io_q.in_flight@[cid as int]),
                waited >= 1 ==> self.io_results@[cid as int].is_none(),
            ensures
                self.wf(),
            decreases deadline_ms - waited,
        {
            let ghost head = *self;
            let _ = self.device_poll_io();
            let ghost post_poll = *self;
            let _ = self.process_completions();
            let ghost post_proc = *self;
            let got = self.try_complete(cid);
            match got {
                Some(res) => {
                    proof {
                        // a result delivered while nothing was parked at entry
                        // was parked by the completion path just run, and a
                        // parked timeout carries the abort status verbatim
                        if res.kind == IoStatus::Timeout && res.diagnostic == 0 && old(
                            self,
                        ).io_results@[cid as int].is_none() {
                            assert(head.io_results@[cid as int].is_none());
                            assert(post_poll.io_results@[cid as int].is_none());
                            assert(post_proc.io_results@[cid as int] == Some(res));
                            assert(post_poll.io_q.in_flight@[cid as int]
                                && !post_proc.io_q.in_flight@[cid as int]);
                            let i0 = choose|i: int|
                                post_poll.io_q.reap_log@.len() <= i
                                    < post_proc.io_q.reap_log@.len() && (
                                #[trigger] post_proc.io_q.reap_log@[i]).cid == cid as int;
                            assert(post_proc.io_results@[cid as int] == Some(
                                parked_result(post_proc.io_q.reap_log@[i0].code),
                            ));
                            assert(false);
                        }
                    }
                    return res;
                },
                None => {
                },
            }
            if self.state != CtrlState::Ready {
                return IoResult::fail(IoStatus::Fatal, 0);
            }
            if waited >= deadline_ms {
                return IoResult::fail(IoStatus::Timeout, 0);
            }
            waited = waited + 1;
            proof {
                assert(self.now_ms < 0x7fff_ffff_ffff_ffff);
            }
            self.now_ms = self.now_ms + 1;
        }
    }
}



} // verus!
