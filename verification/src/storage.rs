//! The storage abstraction above the block core: device records, a device
//! registry with statistics, and a rudimentary RAID layer with its
//! capacity calculus.

use vstd::prelude::*;

verus! {

/// The kind of storage device behind a record.
#[derive(Clone, Copy, Debug, PartialEq, Eq, Structural)]
pub enum StorageType {
    Unknown,
    NVMe,
    AHCI,
    SCSI,
    USB,
}

/// How the host moves data to the device.
#[derive(Clone, Copy, Debug, PartialEq, Eq, Structural)]
pub enum InterfaceMode {
    PIO,
    DMA,
    UDMA,
    NCQ,
}

/// The operations an I/O request can carry.
#[derive(Clone, Copy, Debug, PartialEq, Eq, Structural)]
pub enum IoOperation {
    Read,
    Write,
    Flush,
    Trim,
    Format,
}

/// What a device can do and how much of it.
#[derive(Clone, Copy, Debug, PartialEq, Eq, Structural)]
pub struct StorageCapabilities {
    pub max_sectors: u64,
    pub sector_size: u32,
    pub max_queue_depth: u16,
    pub supports_ncq: bool,
    pub supports_trim: bool,
    pub supports_flush: bool,
    pub supports_smart: bool,
    pub max_transfer_size: u32,
}

/// A device record: type, interface, capabilities and identity strings.
#[derive(Clone, Copy, Debug)]
pub struct StorageDeviceInfo {
    pub device_type: StorageType,
    pub interface_mode: InterfaceMode,
    pub capabilities: StorageCapabilities,
    pub model: [u8; 64],
    pub serial: [u8; 32],
    pub firmware: [u8; 16],
    pub namespace_id: u32,
}

/// One I/O request against a device; the buffer is named by its address in
/// the DMA-visible host memory.
#[derive(Clone, Copy, Debug)]
pub struct IoRequest {
    pub operation: IoOperation,
    pub lba: u64,
    pub sector_count: u32,
    pub buffer: u64,
    pub buffer_size: usize,
    pub priority: u8,
    pub flags: u32,
}

/// Running totals a device keeps about its own traffic.
#[derive(Clone, Copy, Debug, PartialEq, Eq, Structural)]
pub struct StorageStats {
    pub read_operations: u64,
    pub write_operations: u64,
    pub bytes_read: u64,
    pub bytes_written: u64,
    pub errors: u32,
    pub timeouts: u32,
    pub latency_avg_us: u32,
}

impl StorageStats {
    /// All-zero counters.
    pub open spec fn zeroed_spec() -> StorageStats {
        StorageStats {
            read_operations: 0,
            write_operations: 0,
            bytes_read: 0,
            bytes_written: 0,
            errors: 0,
            timeouts: 0,
            latency_avg_us: 0,
        }
    }

    /// Builds all-zero counters.
    pub fn zeroed() -> (r: StorageStats)
        ensures
            r == Self::zeroed_spec(),
    {
        StorageStats {
            read_operations: 0,
            write_operations: 0,
            bytes_read: 0,
            bytes_written: 0,
            errors: 0,
            timeouts: 0,
            latency_avg_us: 0,
        }
    }

    /// Whether the operation counters have headroom for one more request.
    pub open spec fn has_headroom(self) -> bool {
        &&& self.read_operations < 0xffff_ffff_ffff_0000
        &&& self.write_operations < 0xffff_ffff_ffff_0000
    }
}

/// A storage device: its record, its statistics, and whether it is online.
#[derive(Clone, Copy, Debug)]
pub struct StorageDevice {
    pub device_info: StorageDeviceInfo,
    pub stats: StorageStats,
    pub queue_depth: u16,
    pub is_online: bool,
}

impl StorageDevice {
    /// A fresh offline device record of the given type, with the default
    /// capability set.
    pub fn new(device_type: StorageType) -> (r: StorageDevice)
        ensures
            r.device_info.device_type == device_type,
            r.device_info.interface_mode == InterfaceMode::DMA,
            r.device_info.capabilities.sector_size == 512,
            r.device_info.capabilities.max_queue_depth == 32,
            r.device_info.capabilities.supports_flush,
            !r.device_info.capabilities.supports_ncq,
            !r.device_info.capabilities.supports_trim,
            !r.device_info.capabilities.supports_smart,
            r.device_info.capabilities.max_sectors == 0,
            r.device_info.capabilities.max_transfer_size == 65536,
            r.device_info.namespace_id == 1,
            forall|i: int| 0 <= i < 64 ==> r.device_info.model[i] == 0,
            forall|i: int| 0 <= i < 32 ==> r.device_info.serial[i] == 0,
            forall|i: int| 0 <= i < 16 ==> r.device_info.firmware[i] == 0,
            r.stats == StorageStats::zeroed_spec(),
            r.queue_depth == 0,
            !r.is_online,
    {
        StorageDevice {
            device_info: StorageDeviceInfo {
                device_type,
                interface_mode: InterfaceMode::DMA,
                capabilities: StorageCapabilities {
                    max_sectors: 0,
                    sector_size: 512,
                    max_queue_depth: 32,
                    supports_ncq: false,
                    supports_trim: false,
                    supports_flush: true,
                    supports_smart: false,
                    max_transfer_size: 65536,
                },
                model: [0; 64],
                serial: [0; 32],
                firmware: [0; 16],
                namespace_id: 1,
            },
            stats: StorageStats::zeroed(),
            queue_depth: 0,
            is_online: false,
        }
    }

    /// Device-specific bring-up: command-queue devices come online with
    /// native queueing and trim; anything else is refused.
    pub fn initialize(&mut self) -> (r: Result<(), i32>)
        ensures
            old(self).device_info.device_type == StorageType::NVMe ==> {
                &&& r == Result::<(), i32>::Ok(())
                &&& final(self).is_online
                &&& final(self).device_info.interface_mode == InterfaceMode::NCQ
                &&& final(self).device_info.capabilities.supports_ncq
                &&& final(self).device_info.capabilities.supports_trim
                &&& final(self).device_info.capabilities.max_queue_depth == 65535
            },
            old(self).device_info.device_type == StorageType::AHCI ==> {
                &&& r == Result::<(), i32>::Ok(())
                &&& final(self).is_online
                &&& final(self).device_info.interface_mode == InterfaceMode::NCQ
                &&& final(self).device_info.capabilities.supports_ncq
                &&& final(self).device_info.capabilities.max_queue_depth == 32
            },
            old(self).device_info.device_type == StorageType::AHCI
                ==> final(self).device_info.capabilities.supports_trim == old(
                self,
            ).device_info.capabilities.supports_trim,
            old(self).device_info.device_type != StorageType::NVMe && old(
                self,
            ).device_info.device_type != StorageType::AHCI ==> r == Result::<(), i32>::Err(-1i32)
                && *final(self) == *old(self),
            final(self).stats == old(self).stats,
            final(self).queue_depth == old(self).queue_depth,
            final(self).device_info.device_type == old(self).device_info.device_type,
            final(self).device_info.namespace_id == old(self).device_info.namespace_id,
            final(self).device_info.capabilities.max_sectors == old(
                self,
            ).device_info.capabilities.max_sectors,
            final(self).device_info.capabilities.sector_size == old(
                self,
            ).device_info.capabilities.sector_size,
            final(self).device_info.capabilities.supports_flush == old(
                self,
            ).device_info.capabilities.supports_flush,
            final(self).device_info.capabilities.supports_smart == old(
                self,
            ).device_info.capabilities.supports_smart,
            final(self).device_info.capabilities.max_transfer_size == old(
                self,
            ).device_info.capabilities.max_transfer_size,
            final(self).device_info.model == old(self).device_info.model,
            final(self).device_info.serial == old(self).device_info.serial,
            final(self).device_info.firmware == old(self).device_info.firmware,
    {
        match self.device_info.device_type {
            StorageType::NVMe => self.init_nvme(),
            StorageType::AHCI => self.init_ahci(),
            _ => Err(-1),
        }
    }

    fn init_nvme(&mut self) -> (r: Result<(), i32>)
        ensures
            r == Result::<(), i32>::Ok(()),
            final(self).is_online,
            final(self).device_info.interface_mode == InterfaceMode::NCQ,
            final(self).device_info.capabilities.supports_ncq,
            final(self).device_info.capabilities.supports_trim,
            final(self).device_info.capabilities.max_queue_depth == 65535,
            final(self).stats == old(self).stats,
            final(self).queue_depth == old(self).queue_depth,
            final(self).device_info.device_type == old(self).device_info.device_type,
            final(self).device_info.namespace_id == old(self).device_info.namespace_id,
            final(self).device_info.capabilities.max_sectors == old(
                self,
            ).device_info.capabilities.max_sectors,
            final(self).device_info.capabilities.sector_size == old(
                self,
            ).device_info.capabilities.sector_size,
            final(self).device_info.capabilities.supports_flush == old(
                self,
            ).device_info.capabilities.supports_flush,
            final(self).device_info.capabilities.supports_smart == old(
                self,
            ).device_info.capabilities.supports_smart,
            final(self).device_info.capabilities.max_transfer_size == old(
                self,
            ).device_info.capabilities.max_transfer_size,
            final(self).device_info.model == old(self).device_info.model,
            final(self).device_info.serial == old(self).device_info.serial,
            final(self).device_info.firmware == old(self).device_info.firmware,
    {
        self.device_info.interface_mode = InterfaceMode::NCQ;
        self.device_info.capabilities.supports_ncq = true;
        self.device_info.capabilities.supports_trim = true;
        self.device_info.capabilities.max_queue_depth = 65535;
        self.is_online = true;
        Ok(())
    }

    fn init_ahci(&mut self) -> (r: Result<(), i32>)
        ensures
            r == Result::<(), i32>::Ok(()),
            final(self).is_online,
            final(self).device_info.interface_mode == InterfaceMode::NCQ,
            final(self).device_info.capabilities.supports_ncq,
            final(self).device_info.capabilities.max_queue_depth == 32,
            final(self).stats == old(self).stats,
            final(self).queue_depth == old(self).queue_depth,
            final(self).device_info.device_type == old(self).device_info.device_type,
            final(self).device_info.namespace_id == old(self).device_info.namespace_id,
            final(self).device_info.capabilities.supports_trim == old(
                self,
            ).device_info.capabilities.supports_trim,
            final(self).device_info.capabilities.max_sectors == old(
                self,
            ).device_info.capabilities.max_sectors,
            final(self).device_info.capabilities.sector_size == old(
                self,
            ).device_info.capabilities.sector_size,
            final(self).device_info.capabilities.supports_flush == old(
                self,
            ).device_info.capabilities.supports_flush,
            final(self).device_info.capabilities.supports_smart == old(
                self,
            ).device_info.capabilities.supports_smart,
            final(self).device_info.capabilities.max_transfer_size == old(
                self,
            ).device_info.capabilities.max_transfer_size,
            final(self).device_info.model == old(self).device_info.model,
            final(self).device_info.serial == old(self).device_info.serial,
            final(self).device_info.firmware == old(self).device_info.firmware,
    {
        self.device_info.interface_mode = InterfaceMode::NCQ;
        self.device_info.capabilities.supports_ncq = true;
        self.device_info.capabilities.max_queue_depth = 32;
        self.is_online = true;
        Ok(())
    }

    /// Accepts one request for submission: an offline device refuses, a
    /// range beyond the device's capacity is rejected, and an accepted
    /// read or write is accounted in the statistics.
    pub fn submit_io(&mut self, request: &IoRequest) -> (r: Result<(), i32>)
        requires
            old(self).stats.has_headroom(),
            old(self).queue_depth < 0xffff,
            old(self).stats.bytes_read + request.sector_count * old(
                self,
            ).device_info.capabilities.sector_size <= 0xffff_ffff_ffff_ffff,
            old(self).stats.bytes_written + request.sector_count * old(
                self,
            ).device_info.capabilities.sector_size <= 0xffff_ffff_ffff_ffff,
        ensures
            !old(self).is_online ==> r == Result::<(), i32>::Err(-1i32) && *final(self) == *old(
                self,
            ),
            old(self).is_online && request.lba + request.sector_count > old(
                self,
            ).device_info.capabilities.max_sectors ==> r == Result::<(), i32>::Err(-2i32)
                && *final(self) == *old(self),
            final(self).device_info == old(self).device_info,
            final(self).is_online == old(self).is_online,
            old(self).is_online && request.lba + request.sector_count <= old(
                self,
            ).device_info.capabilities.max_sectors ==> {
                &&& r == Result::<(), i32>::Ok(())
                &&& final(self).queue_depth == old(self).queue_depth + 1
                &&& request.operation == IoOperation::Read ==> final(self).stats
                    == (StorageStats {
                    read_operations: (old(self).stats.read_operations + 1) as u64,
                    bytes_read: (old(self).stats.bytes_read + request.sector_count * old(
                        self,
                    ).device_info.capabilities.sector_size) as u64,
                    ..old(self).stats
                })
                &&& request.operation == IoOperation::Write ==> final(self).stats
                    == (StorageStats {
                    write_operations: (old(self).stats.write_operations + 1) as u64,
                    bytes_written: (old(self).stats.bytes_written + request.sector_count * old(
                        self,
                    ).device_info.capabilities.sector_size) as u64,
                    ..old(self).stats
                })
                &&& request.operation != IoOperation::Read && request.operation
                    != IoOperation::Write ==> final(self).stats == old(self).stats
            },
    {
        if !self.is_online {
            return Err(-1);
        }
        if self.device_info.capabilities.max_sectors < request.sector_count as u64 || request.lba
            > self.device_info.capabilities.max_sectors - request.sector_count as u64 {
            return Err(-2);
        }
        match request.operation {
            IoOperation::Read => {
                self.stats.read_operations = self.stats.read_operations + 1;
                self.stats.bytes_read = self.stats.bytes_read + (request.sector_count as u64)
                    * (self.device_info.capabilities.sector_size as u64);
            },
            IoOperation::Write => {
                self.stats.write_operations = self.stats.write_operations + 1;
                self.stats.bytes_written = self.stats.bytes_written + (request.sector_count
                    as u64) * (self.device_info.capabilities.sector_size as u64);
            },
            _ => {},
        }
        self.queue_depth = self.queue_depth + 1;
        Ok(())
    }

    /// The running totals.
    pub fn get_stats(&self) -> (r: &StorageStats)
        ensures
            r == self.stats,
    {
        &self.stats
    }

    /// The device record.
    pub fn get_device_info(&self) -> (r: &StorageDeviceInfo)
        ensures
            r == self.device_info,
    {
        &self.device_info
    }

    /// Whether the device is online.
    pub fn is_online(&self) -> (r: bool)
        ensures
            r == self.is_online,
    {
        self.is_online
    }

    /// Takes the device offline.
    pub fn set_offline(&mut self)
        ensures
            !final(self).is_online,
            final(self).stats == old(self).stats,
            final(self).device_info == old(self).device_info,
            final(self).queue_depth == old(self).queue_depth,
    {
        self.is_online = false;
    }
}

/// How many of the slots are occupied.
pub open spec fn count_some<T>(s: Seq<Option<T>>) -> int
    decreases s.len(),
{
    if s.len() == 0 {
        0
    } else {
        count_some(s.drop_last()) + if s.last().is_some() {
            1int
        } else {
            0int
        }
    }
}

proof fn lemma_count_some_bounds<T>(s: Seq<Option<T>>)
    ensures
        0 <= count_some(s) <= s.len(),
    decreases s.len(),
{
    if s.len() > 0 {
        lemma_count_some_bounds(s.drop_last());
    }
}

proof fn lemma_count_some_update<T>(s: Seq<Option<T>>, i: int, v: Option<T>)
    requires
        0 <= i < s.len(),
    ensures
        count_some(s.update(i, v)) == count_some(s) + if v.is_some() == s[i].is_some() {
            0int
        } else if v.is_some() {
            1int
        } else {
            -1int
        },
    decreases s.len(),
{
    let t = s.update(i, v);
    if i == s.len() - 1 {
        assert(t.drop_last() =~= s.drop_last());
    } else {
        assert(t.drop_last() =~= s.drop_last().update(i, v));
        lemma_count_some_update(s.drop_last(), i, v);
    }
}

/// The registry of storage devices, sixteen slots.
pub struct StorageManager {
    pub devices: Vec<Option<StorageDevice>>,
    pub device_count: usize,
}

impl StorageManager {
    /// The slot count and occupancy bookkeeping always agree.
    pub open spec fn wf(self) -> bool {
        &&& self.devices@.len() == 16
        &&& self.device_count == count_some(self.devices@)
    }

    /// How many slots are occupied.
    pub open spec fn count(self) -> int {
        self.device_count as int
    }

    /// The slot contents.
    pub open spec fn slots(self) -> Seq<Option<StorageDevice>> {
        self.devices@
    }

    /// An empty registry.
    pub fn new() -> (r: StorageManager)
        ensures
            r.wf(),
            r.count() == 0,
            forall|i: int| 0 <= i < 16 ==> r.slots()[i].is_none(),
    {
        let mut devices: Vec<Option<StorageDevice>> = Vec::new();
        let mut i: usize = 0;
        while i < 16
            invariant
                i <= 16,
                devices@.len() == i,
                forall|j: int| 0 <= j < i ==> devices@[j].is_none(),
            decreases 16 - i,
        {
            devices.push(None);
            i = i + 1;
        }
        proof {
            lemma_count_none(devices@);
        }
        StorageManager { devices, device_count: 0 }
    }

    /// Places a device in the first free slot and returns its index; a
    /// full registry refuses.
    pub fn add_device(&mut self, device: StorageDevice) -> (r: Result<usize, i32>)
        requires
            old(self).wf(),
        ensures
            final(self).wf(),
            old(self).count() >= 16 ==> r == Result::<usize, i32>::Err(-1i32)
                && final(self).slots() == old(self).slots(),
            old(self).count() < 16 ==> match r {
                Ok(i) => {
                    &&& 0 <= i < 16
                    &&& old(self).slots()[i as int].is_none()
                    &&& forall|j: int| 0 <= j < i ==> (#[trigger] old(self).slots()[j]).is_some()
                    &&& final(self).slots() == old(self).slots().update(i as int, Some(device))
                    &&& final(self).count() == old(self).count() + 1
                },
                Err(_) => false,
            },
    {
        if self.device_count >= 16 {
            return Err(-1);
        }
        let mut i: usize = 0;
        while i < 16
            invariant
                old(self).wf(),
                old(self).device_count < 16,
                *self == *old(self),
                i <= 16,
                forall|j: int| 0 <= j < i ==> self.devices@[j].is_some(),
            decreases 16 - i,
        {
            if self.devices[i].is_none() {
                proof {
                    lemma_count_some_update(self.devices@, i as int, Some(device));
                }
                self.devices.set(i, Some(device));
                self.device_count = self.device_count + 1;
                return Ok(i);
            }
            i = i + 1;
        }
        proof {
            lemma_count_all_some(self.devices@);
        }
        Err(-2)
    }

    /// Empties a slot; an empty or out-of-range slot refuses.
    pub fn remove_device(&mut self, device_id: usize) -> (r: Result<(), i32>)
        requires
            old(self).wf(),
        ensures
            final(self).wf(),
            device_id >= 16 ==> r == Result::<(), i32>::Err(-1i32)
                && final(self).slots() == old(self).slots(),
            device_id < 16 && old(self).slots()[device_id as int].is_none() ==> r == Result::<
                (),
                i32,
            >::Err(-2i32) && final(self).slots() == old(self).slots(),
            device_id < 16 && old(self).slots()[device_id as int].is_some() ==> {
                &&& r == Result::<(), i32>::Ok(())
                &&& final(self).slots() == old(self).slots().update(device_id as int, None)
                &&& final(self).count() == old(self).count() - 1
            },
    {
        if device_id >= 16 {
            return Err(-1);
        }
        if self.devices[device_id].is_some() {
            proof {
                lemma_count_some_update(self.devices@, device_id as int,
                    None::<StorageDevice>);
                lemma_count_some_pos(self.devices@, device_id as int);
            }
            self.devices.set(device_id, None);
            self.device_count = self.device_count - 1;
            Ok(())
        } else {
            Err(-2)
        }
    }

    /// A copy of the device in a slot, if any.
    pub fn get_device(&self, device_id: usize) -> (r: Option<StorageDevice>)
        requires
            self.wf(),
        ensures
            device_id < 16 ==> r == self.slots()[device_id as int],
            device_id >= 16 ==> r.is_none(),
    {
        if device_id < 16 {
            self.devices[device_id]
        } else {
            None
        }
    }

    /// How many devices are registered.
    pub fn get_device_count(&self) -> (r: usize)
        ensures
            r == self.count(),
    {
        self.device_count
    }

    /// A rescan; the model discovers nothing new, so it reports the
    /// current count.
    pub fn scan_devices(&mut self) -> (r: usize)
        ensures
            *final(self) == *old(self),
            r == old(self).count(),
    {
        self.device_count
    }
}

proof fn lemma_count_none<T>(s: Seq<Option<T>>)
    requires
        forall|j: int| 0 <= j < s.len() ==> s[j].is_none(),
    ensures
        count_some(s) == 0,
    decreases s.len(),
{
    if s.len() > 0 {
        lemma_count_none(s.drop_last());
    }
}

proof fn lemma_count_all_some<T>(s: Seq<Option<T>>)
    requires
        forall|j: int| 0 <= j < s.len() ==> s[j].is_some(),
    ensures
        count_some(s) == s.len(),
    decreases s.len(),
{
    if s.len() > 0 {
        lemma_count_all_some(s.drop_last());
    }
}

proof fn lemma_count_some_pos<T>(s: Seq<Option<T>>, i: int)
    requires
        0 <= i < s.len(),
        s[i].is_some(),
    ensures
        count_some(s) >= 1,
    decreases s.len(),
{
    lemma_count_some_bounds(s.drop_last());
    if i < s.len() - 1 {
        lemma_count_some_pos(s.drop_last(), i);
    }
}

/// The supported RAID organisations.
#[derive(Clone, Copy, Debug, PartialEq, Eq, Structural)]
pub enum RaidLevel {
    NoRaid,
    Raid0,
    Raid1,
    Raid5,
    Raid6,
    Raid10,
}

/// A RAID array: a level, up to eight member device ids, and a stripe
/// size.
pub struct RaidArray {
    pub level: RaidLevel,
    pub devices: Vec<Option<usize>>,
    pub device_count: usize,
    pub stripe_size: u32,
    pub total_capacity: u64,
}

impl RaidArray {
    /// Slot count and occupancy bookkeeping always agree.
    pub open spec fn wf(self) -> bool {
        &&& self.devices@.len() == 8
        &&& self.device_count == count_some(self.devices@)
    }

    /// The array's level.
    pub open spec fn spec_level(self) -> RaidLevel {
        self.level
    }

    /// How many member devices the array holds.
    pub open spec fn count(self) -> int {
        self.device_count as int
    }

    /// An empty array of the given level and stripe size.
    pub fn new(level: RaidLevel, stripe_size: u32) -> (r: RaidArray)
        ensures
            r.wf(),
            r.spec_level() == level,
            r.count() == 0,
            r.stripe_size == stripe_size,
            r.total_capacity == 0,
            forall|i: int| 0 <= i < 8 ==> r.devices@[i].is_none(),
    {
        let mut devices: Vec<Option<usize>> = Vec::new();
        let mut i: usize = 0;
        while i < 8
            invariant
                i <= 8,
                devices@.len() == i,
                forall|j: int| 0 <= j < i ==> devices@[j].is_none(),
            decreases 8 - i,
        {
            devices.push(None);
            i = i + 1;
        }
        proof {
            lemma_count_none(devices@);
        }
        RaidArray { level, devices, device_count: 0, stripe_size, total_capacity: 0 }
    }

    /// Adds a member device id in the first free slot; a full array
    /// refuses.
    pub fn add_device(&mut self, device_id: usize) -> (r: Result<(), i32>)
        requires
            old(self).wf(),
        ensures
            final(self).wf(),
            final(self).spec_level() == old(self).spec_level(),
            old(self).count() >= 8 ==> r == Result::<(), i32>::Err(-1i32) && final(self).count()
                == old(self).count() && final(self).devices@ == old(self).devices@,
            old(self).count() < 8 ==> r == Result::<(), i32>::Ok(()) && final(self).count()
                == old(self).count() + 1 && exists|i: int|
                0 <= i < 8 && (#[trigger] old(self).devices@[i]).is_none()
                    && final(self).devices@ == old(self).devices@.update(i, Some(device_id))
                    && (forall|j: int| 0 <= j < i ==> (#[trigger] old(self).devices@[j]).is_some()),
    {
        if self.device_count >= 8 {
            return Err(-1);
        }
        let mut i: usize = 0;
        while i < 8
            invariant
                old(self).wf(),
                old(self).device_count < 8,
                *self == *old(self),
                i <= 8,
                forall|j: int| 0 <= j < i ==> self.devices@[j].is_some(),
            decreases 8 - i,
        {
            if self.devices[i].is_none() {
                proof {
                    lemma_count_some_update(self.devices@, i as int, Some(device_id));
                }
                self.devices.set(i, Some(device_id));
                self.device_count = self.device_count + 1;
                return Ok(());
            }
            i = i + 1;
        }
        proof {
            lemma_count_all_some(self.devices@);
        }
        Err(-2)
    }

    /// The usable capacity of the array given the capacity of one member:
    /// striping multiplies, mirroring keeps one copy, single and double
    /// parity give up one and two members, and a striped mirror halves.
    pub fn calculate_capacity(&mut self, device_capacity: u64) -> (r: u64)
        requires
            old(self).spec_level() == RaidLevel::Raid0 ==> device_capacity * old(self).count()
                <= 0xffff_ffff_ffff_ffff,
            old(self).spec_level() == RaidLevel::Raid5 ==> old(self).count() >= 1
                && device_capacity * (old(self).count() - 1) <= 0xffff_ffff_ffff_ffff,
            old(self).spec_level() == RaidLevel::Raid6 ==> old(self).count() >= 2
                && device_capacity * (old(self).count() - 2) <= 0xffff_ffff_ffff_ffff,
            old(self).spec_level() == RaidLevel::Raid10 ==> device_capacity * (old(
                self,
            ).count() / 2) <= 0xffff_ffff_ffff_ffff,
        ensures
            *final(self) == *old(self),
            old(self).spec_level() == RaidLevel::Raid0 ==> r == device_capacity * old(
                self,
            ).count(),
            old(self).spec_level() == RaidLevel::Raid1 ==> r == device_capacity,
            old(self).spec_level() == RaidLevel::Raid5 ==> r == device_capacity * (old(
                self,
            ).count() - 1),
            old(self).spec_level() == RaidLevel::Raid6 ==> r == device_capacity * (old(
                self,
            ).count() - 2),
            old(self).spec_level() == RaidLevel::Raid10 ==> r == device_capacity * (old(
                self,
            ).count() / 2),
            old(self).spec_level() == RaidLevel::NoRaid ==> r == device_capacity,
    {
        match self.level {
            RaidLevel::Raid0 => device_capacity * (self.device_count as u64),
            RaidLevel::Raid1 => device_capacity,
            RaidLevel::Raid5 => device_capacity * ((self.device_count - 1) as u64),
            RaidLevel::Raid6 => device_capacity * ((self.device_count - 2) as u64),
            RaidLevel::Raid10 => device_capacity * ((self.device_count / 2) as u64),
            _ => device_capacity,
        }
    }
}

} // verus!
