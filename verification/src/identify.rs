//! Identify payloads: the controller and namespace geometry structures a
//! device places at a caller-provided region pointer, 4096 bytes each.
//!
//! Only the fields the driver consumes are modelled, at their fixed byte
//! offsets: for the controller, serial at 4, model at 24, firmware at 64,
//! max-data-transfer-shift at 77, namespace count at 516 and optional
//! command support at 520; for a namespace, size-in-LBAs at 0, formatted-LBA
//! index at 26, deallocate behaviour at 33, and format zero's metadata size
//! at 128 and LBA-size shift at 130.

use vstd::prelude::*;
use crate::bytes::{le16_bytes, le32_bytes, le64_bytes, le16_val, le32_val, le64_val,
    lemma_le16_roundtrip, lemma_le32_roundtrip, lemma_le64_roundtrip, splice,
    lemma_splice_points, put_le16, put_le32, put_le64, get_le16, get_le32, get_le64, copy_into,
    read_range, fill_range};

verus! {

/// The size of an identify payload in bytes.
pub const ID_PAYLOAD_LEN: usize = 4096;

/// What the driver keeps of an identify-controller reply: serial number,
/// model string, firmware revision, maximum data-transfer shift (in minimum
/// page-size units), namespace count, and optional-command-set bits.
#[derive(Debug)]
pub struct NvmeIdCtrl {
    pub sn: Vec<u8>,
    pub mn: Vec<u8>,
    pub fr: Vec<u8>,
    pub mdts: u8,
    pub nn: u32,
    pub oncs: u16,
}

impl NvmeIdCtrl {
    /// The string fields have their wire widths.
    pub open spec fn wf(self) -> bool {
        &&& self.sn@.len() == 20
        &&& self.mn@.len() == 40
        &&& self.fr@.len() == 8
    }

    /// Field-by-field equality.
    pub open spec fn same_fields(self, o: NvmeIdCtrl) -> bool {
        &&& self.sn@ == o.sn@
        &&& self.mn@ == o.mn@
        &&& self.fr@ == o.fr@
        &&& self.mdts == o.mdts
        &&& self.nn == o.nn
        &&& self.oncs == o.oncs
    }
}

/// Whether the bytes of `m` starting at `base` carry exactly the identify
/// image of `id` (at the offsets the driver consumes).
pub open spec fn id_ctrl_at(m: Seq<u8>, base: int, id: NvmeIdCtrl) -> bool {
    &&& m.subrange(base + 4, base + 24) == id.sn@
    &&& m.subrange(base + 24, base + 64) == id.mn@
    &&& m.subrange(base + 64, base + 72) == id.fr@
    &&& m[base + 77] == id.mdts
    &&& m.subrange(base + 516, base + 520) == le32_bytes(id.nn)
    &&& m.subrange(base + 520, base + 522) == le16_bytes(id.oncs)
}

/// Writes the identify-controller image of `id` at `base`, zeroing the rest
/// of the 4096-byte block.
pub fn write_id_ctrl(mem: &mut Vec<u8>, base: usize, id: &NvmeIdCtrl)
    requires
        base + ID_PAYLOAD_LEN <= old(mem).len(),
        id.wf(),
    ensures
        final(mem)@.len() == old(mem).len(),
        forall|j: int|
            0 <= j < old(mem).len() && !(base <= j < base + ID_PAYLOAD_LEN) ==> final(mem)@[j]
                == old(mem)@[j],
        id_ctrl_at(final(mem)@, base as int, *id),
{
    fill_range(mem, base, ID_PAYLOAD_LEN, 0);
    let ghost m0 = mem@;
    copy_into(mem, base + 4, &id.sn);
    proof {
        lemma_splice_points(m0, base + 4, id.sn@);
    }
    let ghost m1 = mem@;
    copy_into(mem, base + 24, &id.mn);
    proof {
        lemma_splice_points(m1, base + 24, id.mn@);
    }
    let ghost m2 = mem@;
    copy_into(mem, base + 64, &id.fr);
    proof {
        lemma_splice_points(m2, base + 64, id.fr@);
    }
    mem.set(base + 77, id.mdts);
    let ghost m3 = mem@;
    put_le32(mem, base + 516, id.nn);
    proof {
        lemma_splice_points(m3, base + 516, le32_bytes(id.nn));
    }
    let ghost m4 = mem@;
    put_le16(mem, base + 520, id.oncs);
    proof {
        lemma_splice_points(m4, base + 520, le16_bytes(id.oncs));
        assert(mem@.subrange(base + 4, base + 24) =~= id.sn@);
        assert(mem@.subrange(base + 24, base + 64) =~= id.mn@);
        assert(mem@.subrange(base + 64, base + 72) =~= id.fr@);
        assert(mem@.subrange(base + 516, base + 520) =~= le32_bytes(id.nn));
        assert(mem@.subrange(base + 520, base + 522) =~= le16_bytes(id.oncs));
    }
}

/// Reads back the identify-controller fields from the image at `base`.
pub fn read_id_ctrl(mem: &Vec<u8>, base: usize) -> (r: NvmeIdCtrl)
    requires
        base + ID_PAYLOAD_LEN <= mem.len(),
    ensures
        r.wf(),
        r.sn@ == mem@.subrange(base + 4, base + 24),
        r.mn@ == mem@.subrange(base + 24, base + 64),
        r.fr@ == mem@.subrange(base + 64, base + 72),
        r.mdts == mem@[base + 77],
        r.nn == le32_val(mem@.subrange(base + 516, base + 520)),
        r.oncs == le16_val(mem@.subrange(base + 520, base + 522)),
{
    NvmeIdCtrl {
        sn: read_range(mem, base + 4, 20),
        mn: read_range(mem, base + 24, 40),
        fr: read_range(mem, base + 64, 8),
        mdts: mem[base + 77],
        nn: get_le32(mem, base + 516),
        oncs: get_le16(mem, base + 520),
    }
}

/// Writing an identify-controller image and reading it back gives the same
/// fields.
pub proof fn lemma_id_ctrl_roundtrip(m: Seq<u8>, base: int, id: NvmeIdCtrl, r: NvmeIdCtrl)
    requires
        id.wf(),
        id_ctrl_at(m, base, id),
        r.sn@ == m.subrange(base + 4, base + 24),
        r.mn@ == m.subrange(base + 24, base + 64),
        r.fr@ == m.subrange(base + 64, base + 72),
        r.mdts == m[base + 77],
        r.nn == le32_val(m.subrange(base + 516, base + 520)),
        r.oncs == le16_val(m.subrange(base + 520, base + 522)),
    ensures
        r.same_fields(id),
{
    lemma_le32_roundtrip(id.nn);
    lemma_le16_roundtrip(id.oncs);
}

/// What the driver keeps of an identify-namespace reply: total LBAs, the
/// current format index, deallocate behaviour, and the current format's
/// metadata size and LBA-size shift.
#[derive(Clone, Copy, Debug, PartialEq, Eq, Structural)]
pub struct NvmeIdNs {
    pub nsze: u64,
    pub flbas: u8,
    pub dlfeat: u8,
    pub ms: u16,
    pub lba_shift: u8,
}

/// Whether the bytes of `m` starting at `base` carry exactly the identify
/// image of namespace geometry `id`.
pub open spec fn id_ns_at(m: Seq<u8>, base: int, id: NvmeIdNs) -> bool {
    &&& m.subrange(base, base + 8) == le64_bytes(id.nsze)
    &&& m[base + 26] == id.flbas
    &&& m[base + 33] == id.dlfeat
    &&& m.subrange(base + 128, base + 130) == le16_bytes(id.ms)
    &&& m[base + 130] == id.lba_shift
}

/// Writes the identify-namespace image of `id` at `base`, zeroing the rest
/// of the 4096-byte block.
pub fn write_id_ns(mem: &mut Vec<u8>, base: usize, id: &NvmeIdNs)
    requires
        base + ID_PAYLOAD_LEN <= old(mem).len(),
    ensures
        final(mem)@.len() == old(mem).len(),
        forall|j: int|
            0 <= j < old(mem).len() && !(base <= j < base + ID_PAYLOAD_LEN) ==> final(mem)@[j]
                == old(mem)@[j],
        id_ns_at(final(mem)@, base as int, *id),
{
    fill_range(mem, base, ID_PAYLOAD_LEN, 0);
    let ghost m0 = mem@;
    put_le64(mem, base, id.nsze);
    proof {
        lemma_splice_points(m0, base as int, le64_bytes(id.nsze));
    }
    mem.set(base + 26, id.flbas);
    mem.set(base + 33, id.dlfeat);
    let ghost m1 = mem@;
    put_le16(mem, base + 128, id.ms);
    proof {
        lemma_splice_points(m1, base + 128, le16_bytes(id.ms));
    }
    mem.set(base + 130, id.lba_shift);
    proof {
        assert(mem@.subrange(base as int, base + 8) =~= le64_bytes(id.nsze));
        assert(mem@.subrange(base + 128, base + 130) =~= le16_bytes(id.ms));
    }
}

/// Reads back the identify-namespace fields from the image at `base`.
pub fn read_id_ns(mem: &Vec<u8>, base: usize) -> (r: NvmeIdNs)
    requires
        base + ID_PAYLOAD_LEN <= mem.len(),
    ensures
        r.nsze == le64_val(mem@.subrange(base as int, base + 8)),
        r.flbas == mem@[base + 26],
        r.dlfeat == mem@[base + 33],
        r.ms == le16_val(mem@.subrange(base + 128, base + 130)),
        r.lba_shift == mem@[base + 130],
{
    NvmeIdNs {
        nsze: get_le64(mem, base),
        flbas: mem[base + 26],
        dlfeat: mem[base + 33],
        ms: get_le16(mem, base + 128),
        lba_shift: mem[base + 130],
    }
}

/// Writing an identify-namespace image and reading it back gives the same
/// fields.
pub proof fn lemma_id_ns_roundtrip(m: Seq<u8>, base: int, id: NvmeIdNs, r: NvmeIdNs)
    requires
        id_ns_at(m, base, id),
        r.nsze == le64_val(m.subrange(base, base + 8)),
        r.flbas == m[base + 26],
        r.dlfeat == m[base + 33],
        r.ms == le16_val(m.subrange(base + 128, base + 130)),
        r.lba_shift == m[base + 130],
    ensures
        r == id,
{
    lemma_le64_roundtrip(id.nsze);
    lemma_le16_roundtrip(id.ms);
}

} // verus!
