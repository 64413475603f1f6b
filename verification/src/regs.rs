//! The register window: offsets, controller configuration and status bits,
//! the capability snapshot, and doorbell address arithmetic.
//!
//! Doorbells are derived from the capability doorbell stride: the SQ-tail
//! doorbell of queue `q` lives at `0x1000 + 2*q*stride`, its CQ-head doorbell
//! at `0x1000 + (2*q + 1)*stride`, with `stride = 4 << dstrd` bytes.

use vstd::prelude::*;

verus! {

// Register byte offsets in the window.
pub const REG_CAP: u64 = 0x00;
pub const REG_VS: u64 = 0x08;
pub const REG_INTMS: u64 = 0x0c;
pub const REG_INTMC: u64 = 0x10;
pub const REG_CC: u64 = 0x14;
pub const REG_CSTS: u64 = 0x1c;
pub const REG_AQA: u64 = 0x24;
pub const REG_ASQ: u64 = 0x28;
pub const REG_ACQ: u64 = 0x30;
pub const DOORBELL_BASE: u64 = 0x1000;

// Controller configuration bits.
pub const CC_ENABLE: u32 = 1;
pub const CC_CSS_NVM: u32 = 0;
pub const CC_MPS_SHIFT: u32 = 7;
pub const CC_AMS_RR: u32 = 0;
pub const CC_SHN_NONE: u32 = 0;
pub const CC_SHN_NORMAL: u32 = 0x4000;
pub const CC_SHN_ABRUPT: u32 = 0x8000;
pub const CC_SHN_MASK: u32 = 0xc000;
pub const CC_IOSQES: u32 = 0x60000;
pub const CC_IOCQES: u32 = 0x400000;

// Controller status bits.
pub const CSTS_RDY: u32 = 1;
pub const CSTS_CFS: u32 = 2;
pub const CSTS_SHST_CMPLT: u32 = 8;
pub const CSTS_SHST_MASK: u32 = 0xc;

// Capability field extraction, one spec function per field.

pub open spec fn cap_mqes(cap: u64) -> u64 {
    cap & 0xffff
}

pub open spec fn cap_ams(cap: u64) -> u64 {
    (cap >> 17) & 3
}

pub open spec fn cap_to(cap: u64) -> u64 {
    (cap >> 24) & 0xff
}

pub open spec fn cap_dstrd(cap: u64) -> u64 {
    (cap >> 32) & 0xf
}

pub open spec fn cap_css(cap: u64) -> u64 {
    (cap >> 37) & 0xff
}

pub open spec fn cap_mpsmin(cap: u64) -> u64 {
    (cap >> 48) & 0xf
}

pub open spec fn cap_mpsmax(cap: u64) -> u64 {
    (cap >> 52) & 0xf
}

/// Every masked capability field fits its snapshot type.
pub proof fn lemma_cap_field_bounds(cap: u64)
    by (bit_vector)
    ensures
        cap & 0xffff <= 0xffff,
        (cap >> 17) & 3 <= 3,
        (cap >> 24) & 0xff <= 0xff,
        (cap >> 32) & 0xf <= 0xf,
        (cap >> 37) & 0xff <= 0xff,
        (cap >> 48) & 0xf <= 0xf,
        (cap >> 52) & 0xf <= 0xf,
{
}

/// A one-shot decode of the capability register, taken at bind and immutable
/// thereafter.
#[derive(Clone, Copy, Debug, PartialEq, Eq, Structural)]
pub struct CapSnapshot {
    /// Maximum queue entries supported, minus one.
    pub mqes: u16,
    /// Arbitration mechanism bits.
    pub ams: u8,
    /// Worst-case enable/disable latency, in 500 ms units.
    pub to: u8,
    /// Doorbell stride exponent.
    pub dstrd: u8,
    /// Command sets supported.
    pub css: u8,
    /// Minimum page-size shift above 4 KiB.
    pub mpsmin: u8,
    /// Maximum page-size shift above 4 KiB.
    pub mpsmax: u8,
}

impl CapSnapshot {
    /// Whether this snapshot is the decode of the raw capability word `cap`.
    pub open spec fn matches(self, cap: u64) -> bool {
        &&& self.mqes == cap_mqes(cap)
        &&& self.ams == cap_ams(cap)
        &&& self.to == cap_to(cap)
        &&& self.dstrd == cap_dstrd(cap)
        &&& self.css == cap_css(cap)
        &&& self.mpsmin == cap_mpsmin(cap)
        &&& self.mpsmax == cap_mpsmax(cap)
    }

    /// Decodes the raw capability word.
    pub fn from_raw(cap: u64) -> (r: CapSnapshot)
        ensures
            r.matches(cap),
    {
        proof {
            lemma_cap_field_bounds(cap);
        }
        CapSnapshot {
            mqes: (cap & 0xffff) as u16,
            ams: ((cap >> 17) & 3) as u8,
            to: ((cap >> 24) & 0xff) as u8,
            dstrd: ((cap >> 32) & 0xf) as u8,
            css: ((cap >> 37) & 0xff) as u8,
            mpsmin: ((cap >> 48) & 0xf) as u8,
            mpsmax: ((cap >> 52) & 0xf) as u8,
        }
    }

    /// The largest queue depth a create may ask for: max-entries plus one.
    pub fn max_depth(&self) -> (r: u32)
        ensures
            r == self.mqes + 1,
    {
        (self.mqes as u32) + 1
    }

    /// The admin-command timeout in milliseconds: the capability timeout in
    /// 500 ms units, with a floor of one second.
    pub fn timeout_ms(&self) -> (r: u64)
        ensures
            r == timeout_ms_spec(self.to),
    {
        let t: u64 = (self.to as u64) * 500;
        if t < 1000 {
            1000
        } else {
            t
        }
    }
}

/// The admin-command timeout rule: `to * 500ms`, floored at one second.
pub open spec fn timeout_ms_spec(to: u8) -> u64 {
    if to * 500 < 1000 {
        1000
    } else {
        (to * 500) as u64
    }
}

/// The doorbell stride in bytes.
pub open spec fn db_stride_spec(dstrd: u8) -> u64
    recommends
        dstrd <= 0xf,
{
    (4u64 << dstrd) as u64
}

/// Computes the doorbell stride in bytes from the stride exponent.
pub fn db_stride(dstrd: u8) -> (r: u64)
    requires
        dstrd <= 0xf,
    ensures
        r == db_stride_spec(dstrd),
        r >= 4,
        r <= 0x20000,
{
    proof {
        assert(dstrd <= 0xf ==> 4 <= (4u64 << dstrd) && (4u64 << dstrd) <= 0x20000)
            by (bit_vector);
    }
    4u64 << dstrd
}

/// The byte offset of the SQ-tail doorbell of queue `qid`.
pub open spec fn sq_doorbell_spec(qid: u16, stride: u64) -> int {
    DOORBELL_BASE + 2 * (qid as int) * stride
}

/// The byte offset of the CQ-head doorbell of queue `qid`.
pub open spec fn cq_doorbell_spec(qid: u16, stride: u64) -> int {
    DOORBELL_BASE + (2 * (qid as int) + 1) * stride
}

/// Computes the SQ-tail doorbell offset of queue `qid`.
pub fn sq_doorbell(qid: u16, stride: u64) -> (r: u64)
    requires
        stride <= 0x20000,
    ensures
        r == sq_doorbell_spec(qid, stride),
{
    proof {
        assert((2 * (qid as int)) * stride <= 2 * 0xffff * 0x20000) by (nonlinear_arith)
            requires
                qid <= 0xffff && stride <= 0x20000,
        ;
    }
    DOORBELL_BASE + 2 * (qid as u64) * stride
}

/// Computes the CQ-head doorbell offset of queue `qid`.
pub fn cq_doorbell(qid: u16, stride: u64) -> (r: u64)
    requires
        stride <= 0x20000,
    ensures
        r == cq_doorbell_spec(qid, stride),
{
    proof {
        assert((2 * (qid as int) + 1) * stride <= (2 * 0xffff + 1) * 0x20000) by (nonlinear_arith)
            requires
                qid <= 0xffff && stride <= 0x20000,
        ;
    }
    DOORBELL_BASE + (2 * (qid as u64) + 1) * stride
}

/// The enable value of the controller-configuration register: enable, the
/// NVM command set, round-robin arbitration, no shutdown notification,
/// 64-byte submission entries, 16-byte completion entries, and the chosen
/// page-size exponent.
pub open spec fn cc_enable_spec(mps: u8) -> u32
    recommends
        mps <= 0xf,
{
    (CC_ENABLE | CC_CSS_NVM | CC_AMS_RR | CC_SHN_NONE | CC_IOSQES | CC_IOCQES | (
    (mps as u32) << CC_MPS_SHIFT)) as u32
}

/// The enable value really enables, and carries no shutdown notification.
pub proof fn lemma_cc_enable_bits(mps: u8)
    requires
        mps <= 0xf,
    ensures
        cc_enable_spec(mps) & 1 == 1,
        cc_enable_spec(mps) & CC_SHN_MASK == 0,
{
    assert(mps <= 0xf ==> ((1u32 | 0 | 0 | 0 | 0x60000 | 0x400000 | ((mps as u32) << 7)) & 1
        == 1) && ((1u32 | 0 | 0 | 0 | 0x60000 | 0x400000 | ((mps as u32) << 7)) & 0xc000 == 0))
        by (bit_vector);
}

/// Builds the enable value of the controller-configuration register.
pub fn cc_enable_value(mps: u8) -> (r: u32)
    requires
        mps <= 0xf,
    ensures
        r == cc_enable_spec(mps),
{
    CC_ENABLE | CC_CSS_NVM | CC_AMS_RR | CC_SHN_NONE | CC_IOSQES | CC_IOCQES | ((mps as u32)
        << CC_MPS_SHIFT)
}

} // verus!
