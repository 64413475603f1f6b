//! The queue pair: a submission ring and a completion ring sharing a queue
//! id, with a phase tag, head/tail cursors, and per-slot outstanding
//! bookkeeping.
//!
//! Command ids live in `[0, depth)`, so a queue of depth `D` can never hold
//! more than `D` outstanding ids.  `submit` never blocks: it either takes a
//! free slot or reports busy.  `reap_one` never blocks: it consumes the next
//! completion entry whose phase bit matches the expected phase, advances the
//! completion head, and flips the expected phase exactly when the head wraps.
//! A completion whose command id is unknown (or whose SQ id is not this
//! queue's) is a fatal protocol violation: the queue is poisoned and further
//! submissions fail.
//!
//! A ghost log records every reap with the submission stamp it answers, which
//! is what makes "each submission is completed at most once, and never before
//! it was submitted" a provable statement.

use vstd::prelude::*;
use crate::wire::{NvmeCommand, NvmeCompletion, cmd_cid, cpl_phase, cpl_code};
use crate::status::IoStatus;

verus! {

/// How many of the booleans in `s` are set.
pub open spec fn count_true(s: Seq<bool>) -> int
    decreases s.len(),
{
    if s.len() == 0 {
        0
    } else {
        count_true(s.drop_last()) + if s.last() {
            1int
        } else {
            0int
        }
    }
}

pub proof fn lemma_count_true_bounds(s: Seq<bool>)
    ensures
        0 <= count_true(s) <= s.len(),
    decreases s.len(),
{
    if s.len() > 0 {
        lemma_count_true_bounds(s.drop_last());
    }
}

/// Setting one boolean moves the count by exactly its change.
pub proof fn lemma_count_true_update(s: Seq<bool>, i: int, v: bool)
    requires
        0 <= i < s.len(),
    ensures
        count_true(s.update(i, v)) == count_true(s) + if v == s[i] {
            0int
        } else if v {
            1int
        } else {
            -1int
        },
    decreases s.len(),
{
    let t = s.update(i, v);
    if i == s.len() - 1 {
        assert(t.drop_last() =~= s.drop_last());
    } else {
        assert(t.drop_last() =~= s.drop_last().update(i, v));
        lemma_count_true_update(s.drop_last(), i, v);
    }
}

/// A set boolean makes the count positive.
pub proof fn lemma_count_true_pos(s: Seq<bool>, i: int)
    requires
        0 <= i < s.len(),
        s[i],
    ensures
        count_true(s) >= 1,
    decreases s.len(),
{
    lemma_count_true_bounds(s.drop_last());
    if i < s.len() - 1 {
        lemma_count_true_pos(s.drop_last(), i);
    }
}

/// Whether `d` is a power of two.
pub open spec fn is_pow2_u16(d: u16) -> bool {
    d > 0 && d & ((d - 1) as u16) == 0
}

/// One consumed completion, remembered with the stamp of the submission it
/// answered, the stamp at which it was consumed, and the status field it
/// carried.  Stamps are drawn from the queue's operation counter, which
/// every submit and every reap advances.
pub ghost struct ReapRecord {
    pub cid: u16,
    pub submitted_at: nat,
    pub reaped_at: nat,
    pub code: u16,
}

/// A submission/completion ring pair sharing one queue id.
pub struct NvmeQueue {
    /// The queue id; 0 is the admin queue.
    pub qid: u16,
    /// Ring depth: a power of two, at least 2.
    pub q_depth: u16,
    /// Next submission slot to write; advances modulo the depth.
    pub sq_tail: u16,
    /// Next completion slot to consume; advances modulo the depth.
    pub cq_head: u16,
    /// Expected phase of the next fresh completion; initially 1, flipped on
    /// every completion-head wrap.
    pub cq_phase: u8,
    /// Interrupt vector bound to the completion ring.
    pub cq_vector: u8,
    /// Bus address of the submission ring, as told to the device.
    pub sq_dma_addr: u64,
    /// Bus address of the completion ring, as told to the device.
    pub cq_dma_addr: u64,
    /// The submission ring's backing slots.
    pub sq_cmds: Vec<NvmeCommand>,
    /// The completion ring's backing slots; the device writes these.
    pub cq_cmds: Vec<NvmeCompletion>,
    /// Which command ids are outstanding; ids are slot-sized, in `[0, depth)`.
    pub in_flight: Vec<bool>,
    /// Number of outstanding command ids.
    pub inflight_count: u16,
    /// Operation stamp: advanced by every submit and every reap.
    pub ops: Ghost<nat>,
    /// For each outstanding id, the stamp of its submission.
    pub stamps: Ghost<Seq<nat>>,
    /// Every reap this queue ever performed.
    pub reap_log: Ghost<Seq<ReapRecord>>,
    /// Set on a protocol violation; a poisoned queue refuses submissions.
    pub poisoned: bool,
}

impl NvmeQueue {
    /// The internal invariant every operation preserves.
    pub open spec fn wf(self) -> bool {
        &&& 2 <= self.q_depth
        &&& is_pow2_u16(self.q_depth)
        &&& self.sq_cmds@.len() == self.q_depth
        &&& self.cq_cmds@.len() == self.q_depth
        &&& self.in_flight@.len() == self.q_depth
        &&& self.stamps@.len() == self.q_depth
        &&& (self.sq_tail as int) < self.q_depth
        &&& (self.cq_head as int) < self.q_depth
        &&& self.cq_phase <= 1
        &&& self.inflight_count == count_true(self.in_flight@)
        &&& forall|c: int|
            0 <= c < self.q_depth && self.in_flight@[c] ==> (#[trigger] self.stamps@[c])
                < self.ops@
        &&& forall|i: int|
            0 <= i < self.reap_log@.len() ==> (#[trigger] self.reap_log@[i]).submitted_at
                <= self.reap_log@[i].reaped_at && self.reap_log@[i].reaped_at < self.ops@
        &&& forall|i: int, j: int|
            0 <= i < j < self.reap_log@.len() ==> !((#[trigger] self.reap_log@[i]).cid == (
            #[trigger] self.reap_log@[j]).cid && self.reap_log@[i].submitted_at
                == self.reap_log@[j].submitted_at)
        &&& forall|i: int|
            0 <= i < self.reap_log@.len() && 0 <= (#[trigger] self.reap_log@[i]).cid
                < self.q_depth && self.in_flight@[self.reap_log@[i].cid as int]
                ==> self.reap_log@[i].submitted_at != self.stamps@[self.reap_log@[i].cid as int]
    }

    /// The driver never holds more outstanding command ids than the depth.
    pub proof fn lemma_bounded_outstanding(self)
        requires
            self.wf(),
        ensures
            0 <= count_true(self.in_flight@) <= self.q_depth,
            self.inflight_count <= self.q_depth,
    {
        lemma_count_true_bounds(self.in_flight@);
    }

    /// No two reaps ever answered the same submission: every consumed
    /// completion is consumed exactly once, and never before the submission
    /// it answers.
    pub proof fn lemma_reaps_unique(self)
        requires
            self.wf(),
        ensures
            forall|i: int, j: int|
                0 <= i < j < self.reap_log@.len() ==> !((#[trigger] self.reap_log@[i]).cid == (
                #[trigger] self.reap_log@[j]).cid && self.reap_log@[i].submitted_at
                    == self.reap_log@[j].submitted_at),
            forall|i: int|
                0 <= i < self.reap_log@.len() ==> (#[trigger] self.reap_log@[i]).reaped_at
                    >= self.reap_log@[i].submitted_at,
    {
    }

    /// A fresh, empty queue pair of the given id, depth and vector.
    pub fn new(qid: u16, depth: u16, vector: u8) -> (r: NvmeQueue)
        requires
            2 <= depth,
            is_pow2_u16(depth),
        ensures
            r.wf(),
            r.qid == qid,
            r.q_depth == depth,
            r.sq_tail == 0,
            r.cq_head == 0,
            r.cq_phase == 1,
            r.cq_vector == vector,
            r.inflight_count == 0,
            !r.poisoned,
            forall|c: int| 0 <= c < depth ==> !r.in_flight@[c],
            r.reap_log@.len() == 0,
    {
        let mut sq: Vec<NvmeCommand> = Vec::new();
        let mut cq: Vec<NvmeCompletion> = Vec::new();
        let mut fl: Vec<bool> = Vec::new();
        let mut i: u16 = 0;
        while i < depth
            invariant
                i <= depth,
                sq@.len() == i,
                cq@.len() == i,
                fl@.len() == i,
                forall|c: int| 0 <= c < i ==> !fl@[c],
            decreases depth - i,
        {
            sq.push(NvmeCommand::zeroed());
            cq.push(
                NvmeCompletion {
                    result: 0,
                    rsvd: 0,
                    sq_head: 0,
                    sq_id: 0,
                    command_id: 0,
                    status: 0,
                },
            );
            fl.push(false);
            i = i + 1;
        }
        let r = NvmeQueue {
            qid,
            q_depth: depth,
            sq_tail: 0,
            cq_head: 0,
            cq_phase: 1,
            cq_vector: vector,
            sq_dma_addr: 0,
            cq_dma_addr: 0,
            sq_cmds: sq,
            cq_cmds: cq,
            in_flight: fl,
            inflight_count: 0,
            ops: Ghost(0),
            stamps: Ghost(Seq::new(depth as nat, |c: int| 0nat)),
            reap_log: Ghost(Seq::empty()),
            poisoned: false,
        };
        proof {
            assert(count_true(r.in_flight@) == 0) by {
                lemma_count_true_bounds(r.in_flight@);
                if count_true(r.in_flight@) > 0 {
                    assert(forall|c: int| 0 <= c < r.in_flight@.len() ==> !r.in_flight@[c]);
                    lemma_count_all_false(r.in_flight@);
                }
            }
        }
        r
    }

    /// Everything `submit` leaves untouched when it refuses a command.
    pub open spec fn same_as(self, o: NvmeQueue) -> bool {
        &&& self.qid == o.qid
        &&& self.q_depth == o.q_depth
        &&& self.sq_tail == o.sq_tail
        &&& self.cq_head == o.cq_head
        &&& self.cq_phase == o.cq_phase
        &&& self.cq_vector == o.cq_vector
        &&& self.sq_dma_addr == o.sq_dma_addr
        &&& self.cq_dma_addr == o.cq_dma_addr
        &&& self.sq_cmds@ == o.sq_cmds@
        &&& self.cq_cmds@ == o.cq_cmds@
        &&& self.in_flight@ == o.in_flight@
        &&& self.inflight_count == o.inflight_count
        &&& self.ops@ == o.ops@
        &&& self.stamps@ == o.stamps@
        &&& self.reap_log@ == o.reap_log@
        &&& self.poisoned == o.poisoned
    }

    /// Whether a submission of `cmd` must be accepted.
    pub open spec fn can_accept(self, cmd: NvmeCommand) -> bool {
        &&& !self.poisoned
        &&& (cmd_cid(cmd) as int) < self.q_depth
        &&& !self.in_flight@[cmd_cid(cmd) as int]
        &&& self.inflight_count < self.q_depth
    }

    /// Writes one command at the current SQ tail and advances the tail
    /// modulo the depth.  Returns the slot written on success, busy if the
    /// ring is full, a parameter error if the command id is out of range or
    /// already outstanding, and fatal if the queue is poisoned.  Never
    /// blocks.  The caller is responsible for the doorbell write.
    pub fn submit(&mut self, cmd: NvmeCommand) -> (r: Result<u16, IoStatus>)
        requires
            old(self).wf(),
        ensures
            final(self).wf(),
            old(self).poisoned ==> r == Result::<u16, IoStatus>::Err(IoStatus::Fatal)
                && final(self).same_as(*old(self)),
            !old(self).poisoned && old(self).inflight_count == old(self).q_depth ==> r
                == Result::<u16, IoStatus>::Err(IoStatus::Busy) && final(self).same_as(
                *old(self),
            ),
            !old(self).poisoned && old(self).inflight_count < old(self).q_depth && ((cmd_cid(
                cmd,
            ) as int) >= old(self).q_depth || old(self).in_flight@[cmd_cid(cmd) as int]) ==> r
                == Result::<u16, IoStatus>::Err(IoStatus::Parameter) && final(self).same_as(
                *old(self),
            ),
            old(self).can_accept(cmd) ==> {
                &&& r == Result::<u16, IoStatus>::Ok(old(self).sq_tail)
                &&& final(self).sq_cmds@ == old(self).sq_cmds@.update(
                    old(self).sq_tail as int,
                    cmd,
                )
                &&& final(self).sq_tail == if old(self).sq_tail + 1 == old(self).q_depth {
                    0u16
                } else {
                    (old(self).sq_tail + 1) as u16
                }
                &&& final(self).in_flight@ == old(self).in_flight@.update(
                    cmd_cid(cmd) as int,
                    true,
                )
                &&& final(self).stamps@ == old(self).stamps@.update(
                    cmd_cid(cmd) as int,
                    old(self).ops@,
                )
                &&& final(self).inflight_count == old(self).inflight_count + 1
                &&& final(self).ops@ == old(self).ops@ + 1
                &&& final(self).cq_head == old(self).cq_head
                &&& final(self).cq_phase == old(self).cq_phase
                &&& final(self).cq_cmds@ == old(self).cq_cmds@
                &&& final(self).reap_log@ == old(self).reap_log@
                &&& !final(self).poisoned
                &&& final(self).qid == old(self).qid
                &&& final(self).q_depth == old(self).q_depth
            },
    {
        if self.poisoned {
            return Err(IoStatus::Fatal);
        }
        if self.inflight_count >= self.q_depth {
            proof {
                lemma_count_true_bounds(self.in_flight@);
            }
            return Err(IoStatus::Busy);
        }
        let cid: u16 = ((cmd.cdw0 >> 16) & 0xffff) as u16;
        if cid >= self.q_depth || self.in_flight[cid as usize] {
            return Err(IoStatus::Parameter);
        }
        let slot = self.sq_tail;
        self.sq_cmds.set(slot as usize, cmd);
        self.sq_tail = if self.sq_tail + 1 == self.q_depth {
            0
        } else {
            self.sq_tail + 1
        };
        self.in_flight.set(cid as usize, true);
        proof {
            lemma_count_true_update(old(self).in_flight@, cid as int, true);
        }
        self.inflight_count = self.inflight_count + 1;
        self.stamps = Ghost(self.stamps@.update(cid as int, self.ops@));
        self.ops = Ghost(self.ops@ + 1);
        Ok(slot)
    }

    /// Whether the entry at the completion head is fresh: its phase bit
    /// matches the expected phase.
    pub open spec fn head_ready(self) -> bool {
        cpl_phase(self.cq_cmds@[self.cq_head as int]) == self.cq_phase
    }

    /// Whether the fresh entry at the completion head is well-formed: it
    /// carries this queue's SQ id and an outstanding command id.
    pub open spec fn head_valid(self) -> bool {
        &&& self.cq_cmds@[self.cq_head as int].sq_id == self.qid
        &&& (self.cq_cmds@[self.cq_head as int].command_id as int) < self.q_depth
        &&& self.in_flight@[self.cq_cmds@[self.cq_head as int].command_id as int]
    }

    /// Consumes the completion entry at the head if its phase matches the
    /// expected phase.  On consumption the head advances and the expected
    /// phase flips exactly when the head wraps.  A fresh entry whose SQ id
    /// or command id is unknown poisons the queue.  Never blocks.  The
    /// caller is responsible for the CQ-head doorbell write after a batch.
    pub fn reap_one(&mut self) -> (r: Option<NvmeCompletion>)
        requires
            old(self).wf(),
        ensures
            final(self).wf(),
            old(self).poisoned ==> r.is_none() && final(self).same_as(*old(self)),
            !old(self).poisoned && !old(self).head_ready() ==> r.is_none() && final(self).same_as(
                *old(self),
            ),
            !old(self).poisoned && old(self).head_ready() && !old(self).head_valid() ==> {
                &&& r.is_none()
                &&& final(self).poisoned
                &&& final(self).cq_head == old(self).cq_head
                &&& final(self).cq_phase == old(self).cq_phase
                &&& final(self).sq_tail == old(self).sq_tail
                &&& final(self).in_flight@ == old(self).in_flight@
                &&& final(self).inflight_count == old(self).inflight_count
                &&& final(self).sq_cmds@ == old(self).sq_cmds@
                &&& final(self).cq_cmds@ == old(self).cq_cmds@
                &&& final(self).reap_log@ == old(self).reap_log@
                &&& final(self).qid == old(self).qid
                &&& final(self).q_depth == old(self).q_depth
            },
            !old(self).poisoned && old(self).head_ready() && old(self).head_valid() ==> {
                &&& r == Some(old(self).cq_cmds@[old(self).cq_head as int])
                &&& final(self).cq_head == if old(self).cq_head + 1 == old(self).q_depth {
                    0u16
                } else {
                    (old(self).cq_head + 1) as u16
                }
                // the expected phase flips exactly when the head wraps
                &&& final(self).cq_phase == if old(self).cq_head + 1 == old(self).q_depth {
                    (1 - old(self).cq_phase) as u8
                } else {
                    old(self).cq_phase
                }
                &&& final(self).in_flight@ == old(self).in_flight@.update(
                    old(self).cq_cmds@[old(self).cq_head as int].command_id as int,
                    false,
                )
                &&& final(self).inflight_count == old(self).inflight_count - 1
                &&& final(self).ops@ == old(self).ops@ + 1
                &&& final(self).reap_log@ == old(self).reap_log@.push(
                    ReapRecord {
                        cid: old(self).cq_cmds@[old(self).cq_head as int].command_id,
                        submitted_at: old(self).stamps@[old(self).cq_cmds@[old(
                            self,
                        ).cq_head as int].command_id as int],
                        reaped_at: old(self).ops@,
                        code: cpl_code(old(self).cq_cmds@[old(self).cq_head as int]),
                    },
                )
                &&& final(self).sq_tail == old(self).sq_tail
                &&& final(self).sq_cmds@ == old(self).sq_cmds@
                &&& final(self).cq_cmds@ == old(self).cq_cmds@
                &&& !final(self).poisoned
                &&& final(self).qid == old(self).qid
                &&& final(self).q_depth == old(self).q_depth
            },
    {
        if self.poisoned {
            return None;
        }
        let head = self.cq_head;
        let e = self.cq_cmds[head as usize];
        if e.status & 1 != self.cq_phase as u16 {
            return None;
        }
        let cid = e.command_id;
        if e.sq_id != self.qid || cid >= self.q_depth || !self.in_flight[cid as usize] {
            self.poisoned = true;
            return None;
        }
        proof {
            lemma_count_true_pos(self.in_flight@, cid as int);
        }
        self.cq_head = if head + 1 == self.q_depth {
            self.cq_phase = 1 - self.cq_phase;
            0
        } else {
            head + 1
        };
        self.in_flight.set(cid as usize, false);
        proof {
            lemma_count_true_update(old(self).in_flight@, cid as int, false);
        }
        self.inflight_count = self.inflight_count - 1;
        self.reap_log = Ghost(
            self.reap_log@.push(
                ReapRecord {
                    cid,
                    submitted_at: self.stamps@[cid as int],
                    reaped_at: self.ops@,
                    code: cpl_code(e),
                },
            ),
        );
        self.ops = Ghost(self.ops@ + 1);
        Some(e)
    }

    /// Drops every outstanding command id at once: the fatal path, taken
    /// when the controller fails and all in-flight commands are marked
    /// failed without completions.
    pub fn fail_all(&mut self)
        requires
            old(self).wf(),
        ensures
            final(self).wf(),
            final(self).inflight_count == 0,
            forall|c: int| 0 <= c < final(self).q_depth ==> !final(self).in_flight@[c],
            final(self).qid == old(self).qid,
            final(self).q_depth == old(self).q_depth,
            final(self).sq_tail == old(self).sq_tail,
            final(self).cq_head == old(self).cq_head,
            final(self).cq_phase == old(self).cq_phase,
            final(self).sq_cmds@ == old(self).sq_cmds@,
            final(self).cq_cmds@ == old(self).cq_cmds@,
            final(self).reap_log@ == old(self).reap_log@,
            final(self).poisoned == old(self).poisoned,
    {
        let depth = self.q_depth;
        let mut i: u16 = 0;
        while i < depth
            invariant
                i <= depth,
                depth == self.q_depth,
                self.in_flight@.len() == depth,
                forall|c: int| 0 <= c < i ==> !self.in_flight@[c],
                self.qid == old(self).qid,
                self.q_depth == old(self).q_depth,
                self.sq_tail == old(self).sq_tail,
                self.cq_head == old(self).cq_head,
                self.cq_phase == old(self).cq_phase,
                self.cq_vector == old(self).cq_vector,
                self.sq_dma_addr == old(self).sq_dma_addr,
                self.cq_dma_addr == old(self).cq_dma_addr,
                self.sq_cmds@ == old(self).sq_cmds@,
                self.cq_cmds@ == old(self).cq_cmds@,
                self.stamps@ == old(self).stamps@,
                self.ops@ == old(self).ops@,
                self.reap_log@ == old(self).reap_log@,
                self.poisoned == old(self).poisoned,
                old(self).wf(),
            decreases depth - i,
        {
            self.in_flight.set(i as usize, false);
            i = i + 1;
        }
        proof {
            lemma_count_all_false(self.in_flight@);
        }
        self.inflight_count = 0;
        self.ops = Ghost(self.ops@ + 1);
    }

    /// Finds a free command id, or reports that all ids are outstanding,
    /// which happens exactly when the ring is full.
    pub fn alloc_cid(&self) -> (r: Option<u16>)
        requires
            self.wf(),
        ensures
            match r {
                Some(c) => (c as int) < self.q_depth && !self.in_flight@[c as int],
                None => self.inflight_count == self.q_depth,
            },
    {
        let mut i: u16 = 0;
        while i < self.q_depth
            invariant
                self.wf(),
                i <= self.q_depth,
                forall|c: int| 0 <= c < i ==> self.in_flight@[c],
            decreases self.q_depth - i,
        {
            if !self.in_flight[i as usize] {
                return Some(i);
            }
            i = i + 1;
        }
        proof {
            lemma_count_all_true(self.in_flight@);
        }
        None
    }
}

/// An all-false sequence counts zero.
pub proof fn lemma_count_all_false(s: Seq<bool>)
    requires
        forall|c: int| 0 <= c < s.len() ==> !s[c],
    ensures
        count_true(s) == 0,
    decreases s.len(),
{
    if s.len() > 0 {
        lemma_count_all_false(s.drop_last());
    }
}

/// An all-true sequence counts its length.
pub proof fn lemma_count_all_true(s: Seq<bool>)
    requires
        forall|c: int| 0 <= c < s.len() ==> s[c],
    ensures
        count_true(s) == s.len(),
    decreases s.len(),
{
    if s.len() > 0 {
        lemma_count_all_true(s.drop_last());
    }
}

} // verus!
