//! Tests for the storage abstraction: device records, the registry, and
//! the RAID capacity calculus.

use nvme_core::storage::{IoOperation, IoRequest, RaidArray, RaidLevel, StorageDevice,
    StorageManager, StorageType};

fn request(op: IoOperation, lba: u64, sectors: u32) -> IoRequest {
    IoRequest {
        operation: op,
        lba,
        sector_count: sectors,
        buffer: 4096,
        buffer_size: 512 * sectors as usize,
        priority: 0,
        flags: 0,
    }
}

#[test]
fn device_initialize_brings_nvme_online() {
    let mut d = StorageDevice::new(StorageType::NVMe);
    assert!(!d.is_online());
    assert_eq!(d.initialize(), Ok(()));
    assert!(d.is_online());
    assert_eq!(d.get_device_info().capabilities.max_queue_depth, 65535);
    assert!(d.get_device_info().capabilities.supports_trim);
}

#[test]
fn device_initialize_refuses_unknown_types() {
    let mut d = StorageDevice::new(StorageType::SCSI);
    assert_eq!(d.initialize(), Err(-1));
    assert!(!d.is_online());
}

#[test]
fn submit_io_accounts_reads_and_writes() {
    let mut d = StorageDevice::new(StorageType::NVMe);
    assert_eq!(d.initialize(), Ok(()));
    // an offline device would refuse; widen the capacity first
    d.device_info.capabilities.max_sectors = 1000;
    assert_eq!(d.submit_io(&request(IoOperation::Read, 0, 8)), Ok(()));
    assert_eq!(d.submit_io(&request(IoOperation::Write, 8, 4)), Ok(()));
    let s = d.get_stats();
    assert_eq!(s.read_operations, 1);
    assert_eq!(s.write_operations, 1);
    assert_eq!(s.bytes_read, 8 * 512);
    assert_eq!(s.bytes_written, 4 * 512);
}

#[test]
fn submit_io_rejects_offline_and_out_of_range() {
    let mut d = StorageDevice::new(StorageType::NVMe);
    assert_eq!(d.submit_io(&request(IoOperation::Read, 0, 1)), Err(-1));
    assert_eq!(d.initialize(), Ok(()));
    d.device_info.capabilities.max_sectors = 100;
    assert_eq!(d.submit_io(&request(IoOperation::Read, 99, 2)), Err(-2));
    d.set_offline();
    assert_eq!(d.submit_io(&request(IoOperation::Read, 0, 1)), Err(-1));
}

#[test]
fn manager_add_remove_and_count() {
    let mut m = StorageManager::new();
    assert_eq!(m.get_device_count(), 0);
    let id = m.add_device(StorageDevice::new(StorageType::NVMe)).unwrap();
    assert_eq!(id, 0);
    let id2 = m.add_device(StorageDevice::new(StorageType::AHCI)).unwrap();
    assert_eq!(id2, 1);
    assert_eq!(m.get_device_count(), 2);
    assert!(m.get_device(0).is_some());
    assert!(m.get_device(5).is_none());
    assert_eq!(m.remove_device(0), Ok(()));
    assert_eq!(m.get_device_count(), 1);
    assert_eq!(m.remove_device(0), Err(-2));
    assert_eq!(m.remove_device(20), Err(-1));
    assert_eq!(m.scan_devices(), 1);
}

#[test]
fn manager_refuses_seventeenth_device() {
    let mut m = StorageManager::new();
    for _ in 0..16 {
        assert!(m.add_device(StorageDevice::new(StorageType::NVMe)).is_ok());
    }
    assert_eq!(m.add_device(StorageDevice::new(StorageType::NVMe)), Err(-1));
}

fn raid_with(level: RaidLevel, members: usize) -> RaidArray {
    let mut r = RaidArray::new(level, 64 * 1024);
    for i in 0..members {
        assert_eq!(r.add_device(i), Ok(()));
    }
    r
}

#[test]
fn raid0_stripes_across_members() {
    let mut r = raid_with(RaidLevel::Raid0, 4);
    assert_eq!(r.calculate_capacity(1000), 4000);
}

#[test]
fn raid1_mirrors_one_copy() {
    let mut r = raid_with(RaidLevel::Raid1, 2);
    assert_eq!(r.calculate_capacity(1000), 1000);
}

#[test]
fn raid5_gives_up_one_member() {
    let mut r = raid_with(RaidLevel::Raid5, 4);
    assert_eq!(r.calculate_capacity(1000), 3000);
}

#[test]
fn raid6_gives_up_two_members() {
    let mut r = raid_with(RaidLevel::Raid6, 5);
    assert_eq!(r.calculate_capacity(1000), 3000);
}

#[test]
fn raid10_halves_the_stripe() {
    let mut r = raid_with(RaidLevel::Raid10, 6);
    assert_eq!(r.calculate_capacity(1000), 3000);
}

#[test]
fn raid_add_device_stores_member_ids_in_order() {
    let mut r = RaidArray::new(RaidLevel::Raid1, 4096);
    assert_eq!(r.add_device(7), Ok(()));
    assert_eq!(r.add_device(3), Ok(()));
    assert_eq!(r.devices[0], Some(7));
    assert_eq!(r.devices[1], Some(3));
    assert_eq!(r.stripe_size, 4096);
}

#[test]
fn raid_array_refuses_ninth_member() {
    let mut r = raid_with(RaidLevel::Raid0, 8);
    assert_eq!(r.add_device(8), Err(-1));
}
