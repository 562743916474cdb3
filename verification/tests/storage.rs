use rrv64g::exceptions::Exception;
use rrv64g::mmu::{Memory, MMU};
use rrv64g::ram::Ram;
use rrv64g::virtio::{
    VirtioBlock, VirtioRegs, VIRTIO_DEVICE_FEATURES, VIRTIO_DEVICE_ID, VIRTIO_DRIVER_FEATURES,
    VIRTIO_GUEST_PAGE_SIZE, VIRTIO_MAGIC, VIRTIO_QUEUE_NOTIFY, VIRTIO_QUEUE_NUM,
    VIRTIO_QUEUE_NUM_MAX, VIRTIO_QUEUE_PFN, VIRTIO_QUEUE_SEL, VIRTIO_STATUS, VIRTIO_VENDOR_ID,
    VIRTIO_VERSION,
};

#[test]
fn typed_memory_access() {
    let mut ram = Ram::new(vec![0x01, 0x02, 0x03, 0x04, 0x05, 0x06, 0x07, 0x08, 0x09]);
    assert_eq!(ram.get_size(), 9);
    assert_eq!(ram.get_byte(8), Ok(0x09));
    assert_eq!(ram.get_half_word(1), Ok(0x0302));
    assert_eq!(ram.get_word(1), Ok(0x0504_0302));
    assert_eq!(ram.get_double_word(1), Ok(0x0908_0706_0504_0302));
    assert!(ram.get_byte(9).is_err());
    assert!(ram.get_half_word(8).is_err());
    assert!(ram.get_word(6).is_err());
    assert!(ram.get_double_word(2).is_err());
    assert_eq!(ram.set_byte(0, 0xaa), Ok(()));
    assert_eq!(ram.set_half_word(1, 0xbbcc), Ok(()));
    assert_eq!(ram.set_word(3, 0xddee_ff00), Ok(()));
    assert_eq!(ram.mem, vec![0xaa, 0xcc, 0xbb, 0x00, 0xff, 0xee, 0xdd, 0x08, 0x09]);
    assert_eq!(ram.set_double_word(1, 0x1122_3344_5566_7788), Ok(()));
    assert_eq!(ram.mem, vec![0xaa, 0x88, 0x77, 0x66, 0x55, 0x44, 0x33, 0x22, 0x11]);
    assert!(ram.set_double_word(2, 0).is_err());
    assert!(ram.set_word(6, 0).is_err());
    assert!(ram.set_half_word(8, 0).is_err());
    assert!(ram.set_byte(9, 0).is_err());
    assert_eq!(ram.mem, vec![0xaa, 0x88, 0x77, 0x66, 0x55, 0x44, 0x33, 0x22, 0x11]);
    Memory::reset(&mut ram);
    assert_eq!(ram.mem, vec![0; 9]);
}

#[test]
fn memory_unit_passes_addresses_through() {
    let mut mmu = MMU::new(Ram::new(vec![0x10, 0x20, 0x30, 0x40, 0x50, 0x60, 0x70, 0x80]));
    assert_eq!(mmu.size, 8);
    assert_eq!(mmu.get_byte(7), Ok(0x80));
    assert_eq!(mmu.get_half_word(6), Ok(0x8070));
    assert_eq!(mmu.get_word(4), Ok(0x8070_6050));
    assert_eq!(mmu.get_double_word(0), Ok(0x8070_6050_4030_2010));
    assert_eq!(mmu.get_byte(8), Err(Exception::LoadAccessFault(8)));
    assert_eq!(mmu.get_double_word(1), Err(Exception::LoadAccessFault(1)));
    assert_eq!(mmu.set_byte(3, 0xff), Ok(()));
    assert_eq!(mmu.get_word(0), Ok(0xff30_2010));
    assert_eq!(mmu.set_byte(8, 0xff), Err(Exception::StoreAMOAccessFault(8)));
    assert_eq!(mmu.reset().size, 8);
    assert_eq!(mmu.get_double_word(0), Ok(0));
}

#[test]
fn block_device_identifies_itself() {
    let mut v = VirtioBlock::new(Ram::new(vec![0; 16]));
    assert_eq!(v.load(VIRTIO_MAGIC, 32), Ok(0x74726976));
    assert_eq!(v.load(VIRTIO_VERSION, 32), Ok(1));
    assert_eq!(v.load(VIRTIO_DEVICE_ID, 32), Ok(2));
    assert_eq!(v.load(VIRTIO_VENDOR_ID, 32), Ok(0x554d4551));
    assert_eq!(v.load(VIRTIO_DEVICE_FEATURES, 32), Ok(0));
    assert_eq!(v.load(VIRTIO_QUEUE_NUM_MAX, 32), Ok(1));
    assert_eq!(v.load(VIRTIO_QUEUE_SEL, 32), Ok(0));
    assert_eq!(v.load(VIRTIO_MAGIC, 8), Err(Exception::LoadAccessFault(VIRTIO_MAGIC)));
    assert_eq!(v.load(VIRTIO_MAGIC, 64), Err(Exception::LoadAccessFault(VIRTIO_MAGIC)));
    assert_eq!(v.store(VIRTIO_STATUS, 1, 16), Err(Exception::StoreAMOAccessFault(VIRTIO_STATUS)));
    assert_eq!(v.regs.status, 0);
}

#[test]
fn block_device_registers() {
    let mut v = VirtioBlock::new(Ram::new(vec![0; 16]));
    assert_eq!(
        v.regs,
        VirtioRegs {
            id: 0,
            driver_features: 0,
            page_size: 0,
            queue_sel: 0,
            queue_num: 0,
            queue_pfn: 0,
            queue_notify: 1,
            status: 0,
        }
    );
    assert_eq!(v.store(VIRTIO_DEVICE_FEATURES, 0x1_0000_0011, 32), Ok(()));
    assert_eq!(v.store(VIRTIO_GUEST_PAGE_SIZE, 4096, 32), Ok(()));
    assert_eq!(v.store(VIRTIO_QUEUE_SEL, 3, 32), Ok(()));
    assert_eq!(v.store(VIRTIO_QUEUE_NUM, 8, 32), Ok(()));
    assert_eq!(v.store(VIRTIO_QUEUE_PFN, 0x80010, 32), Ok(()));
    assert_eq!(v.store(VIRTIO_STATUS, 0xf, 32), Ok(()));
    assert_eq!(v.store(VIRTIO_MAGIC, 0xf, 32), Ok(()));
    assert_eq!(
        v.regs,
        VirtioRegs {
            id: 0,
            driver_features: 0x11,
            page_size: 4096,
            queue_sel: 3,
            queue_num: 8,
            queue_pfn: 0x80010,
            queue_notify: 1,
            status: 0xf,
        }
    );
    assert_eq!(v.load(VIRTIO_DRIVER_FEATURES, 32), Ok(0x11));
    assert_eq!(v.load(VIRTIO_QUEUE_PFN, 32), Ok(0xf));
    assert_eq!(v.desc_addr(), 0x8001_0000);
    v.regs.queue_pfn = u32::MAX;
    v.regs.page_size = u32::MAX;
    assert_eq!(v.desc_addr(), 0xffff_fffe_0000_0001);
}

#[test]
fn block_device_notification_and_ids() {
    let mut v = VirtioBlock::new(Ram::new(vec![0; 16]));
    assert!(!v.is_interrupting());
    assert_eq!(v.store(VIRTIO_QUEUE_NOTIFY, 0, 32), Ok(()));
    assert!(v.is_interrupting());
    assert_eq!(v.regs.queue_notify, 1);
    assert!(!v.is_interrupting());
    assert_eq!(v.store(VIRTIO_QUEUE_NOTIFY, 5, 32), Ok(()));
    assert!(!v.is_interrupting());
    assert_eq!(v.regs.queue_notify, 5);
    assert_eq!(v.get_new_id(), 1);
    assert_eq!(v.get_new_id(), 2);
    v.regs.id = u64::MAX;
    assert_eq!(v.get_new_id(), 0);
}

#[test]
fn block_device_disk() {
    let mut v = VirtioBlock::new(Ram::new(vec![1, 2, 3, 4]));
    assert_eq!(v.read_disk(0), 1);
    assert_eq!(v.read_disk(3), 4);
    v.write_disk(2, 0x1ff);
    assert_eq!(v.read_disk(2), 0xff);
    assert_eq!(v.disk.mem, vec![1, 2, 0xff, 4]);
}
