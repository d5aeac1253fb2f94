use rv32emu::bus::bus_error::BusError;
use rv32emu::bus::mmio_device::MMIODevice;
use rv32emu::bus::ram::RAMDevice;
use rv32emu::bus::rom::{ROMDevice, ROMError};
use rv32emu::bus::Bus;
use rv32emu::pipeline::memory_access::MemoryAccessWidth;

fn test_read(bus: &Bus, addr: usize, width: MemoryAccessWidth) -> u32 {
    let val = bus.read(addr, width).expect("read error");
    println!("{:#010x}: {:#010x}", addr, val);
    val
}

fn test_write(bus: &mut Bus, addr: usize, val: u32, width: MemoryAccessWidth) {
    let ret = bus.write(addr, val, width);
    match ret {
        Err(e) => println!("{}", e.message()),
        _ => (),
    }
}

#[test]
fn mod_test() {
    let rom_file = [
        0x1122_3344_u32,
        0xdead_beef,
        1,
        2,
        3,
        4,
        5,
        0xaabbccdd,
        0x44332211,
    ];

    let mut bus = Bus::new(&rom_file);

    let width = MemoryAccessWidth::Word;
    test_write(&mut bus, 0x8000_0000, 0xdead_beef, width);
    test_write(&mut bus, 0x8000_0004, 0x2020_2020, width);

    assert_eq!(test_read(&bus, 0x8000_0000, width), 0xdead_beef);
    assert_eq!(test_read(&bus, 0x8000_0004, width), 0x2020_2020);

    test_write(&mut bus, 0x4000_0000, 0x1010_1010, width);
    test_write(&mut bus, 0x4000_0004, 0x2020_2020, width);

    assert_eq!(test_read(&bus, 0x4000_0000, width), 0x1122_3344);
    assert_eq!(test_read(&bus, 0x4000_0004, width), 0xdead_beef);
    assert_eq!(test_read(&bus, 0x4000_0008, width), 1);
    assert_eq!(test_read(&bus, 0x4000_000c, width), 2);
    assert_eq!(test_read(&bus, 0x4000_0010, width), 3);

    assert_eq!(test_read(&bus, 0x8000_0001, MemoryAccessWidth::Byte), 0xbe);
    test_write(&mut bus, 0x8000_0001, 1, MemoryAccessWidth::Byte);
    assert_eq!(test_read(&bus, 0x8000_0001, MemoryAccessWidth::Byte), 1);
}

#[test]
fn ram_test() {
    let mut ram = RAMDevice::new(0x1000_0000);

    ram.write(0x0, 0x1122_3344);

    ram.write(0x4, 0xdead_beef);

    let mut val = ram.read(0x0);
    println!("{:#x}", val);
    assert_eq!(val, 0x1122_3344);

    val = ram.read(0x4);
    println!("{:#x}", val);
    assert_eq!(val, 0xdead_beef);
}

#[test]
fn rom_test() {
    let file = [1_u32, 2, 3, 4, 5];

    let mut ram = ROMDevice::new(&file);

    ram.write(0x0, 0x1122_3344); // invalid

    ram.write(0x4, 0xdead_beef); // invalid

    let mut val = ram.read(0x0);
    println!("{:#x}", val);
    assert_eq!(val, 1);

    val = ram.read(0x4);
    println!("{:#x}", val);
    assert_eq!(val, 5);
}

#[test]
fn byte_lanes() {
    let mut bus = Bus::new(&[0x4433_2211]);
    for (offset, byte) in [0x11, 0x22, 0x33, 0x44].into_iter().enumerate() {
        assert_eq!(bus.read(0x4000_0000 + offset, MemoryAccessWidth::Byte), Ok(byte));
    }
    assert_eq!(bus.write(0x8000_0010, 0xAABB_CCDD, MemoryAccessWidth::Word), Ok(()));
    assert_eq!(bus.write(0x8000_0010, 0x1234_5601, MemoryAccessWidth::Byte), Ok(()));
    assert_eq!(bus.read(0x8000_0010, MemoryAccessWidth::Word), Ok(0xAABB_CC01));
    assert_eq!(bus.write(0x8000_0011, 0x1234_5602, MemoryAccessWidth::Byte), Ok(()));
    assert_eq!(bus.read(0x8000_0010, MemoryAccessWidth::Word), Ok(0xAABB_0201));
    assert_eq!(bus.write(0x8000_0012, 0x1234_5603, MemoryAccessWidth::Byte), Ok(()));
    assert_eq!(bus.read(0x8000_0010, MemoryAccessWidth::Word), Ok(0xAA03_0201));
    assert_eq!(bus.write(0x8000_0013, 0x1234_5604, MemoryAccessWidth::Byte), Ok(()));
    assert_eq!(bus.read(0x8000_0010, MemoryAccessWidth::Word), Ok(0x0403_0201));
    assert_eq!(bus.read(0x8000_0012, MemoryAccessWidth::Byte), Ok(0x03));
}

#[test]
fn halfword_lanes() {
    let mut bus = Bus::new(&[0x4433_2211]);
    assert_eq!(bus.read(0x4000_0000, MemoryAccessWidth::HalfWord), Ok(0x2211));
    assert_eq!(bus.read(0x4000_0002, MemoryAccessWidth::HalfWord), Ok(0x4433));
    assert_eq!(bus.write(0x8000_0020, 0xAABB_CCDD, MemoryAccessWidth::Word), Ok(()));
    assert_eq!(bus.write(0x8000_0020, 0x1234_5678, MemoryAccessWidth::HalfWord), Ok(()));
    assert_eq!(bus.read(0x8000_0020, MemoryAccessWidth::Word), Ok(0xAABB_5678));
    assert_eq!(bus.write(0x8000_0022, 0x1234_9ABC, MemoryAccessWidth::HalfWord), Ok(()));
    assert_eq!(bus.read(0x8000_0020, MemoryAccessWidth::Word), Ok(0x9ABC_5678));
    assert_eq!(bus.read(0x8000_0022, MemoryAccessWidth::HalfWord), Ok(0x9ABC));
}

#[test]
fn store_then_load_reads_back() {
    let mut bus = Bus::new(&[]);
    let value = 0xDEAD_BEF2;
    assert_eq!(bus.write(0x8000_0100, value, MemoryAccessWidth::Word), Ok(()));
    assert_eq!(bus.read(0x8000_0100, MemoryAccessWidth::Word), Ok(value));
    assert_eq!(bus.write(0x8000_0106, value, MemoryAccessWidth::HalfWord), Ok(()));
    assert_eq!(bus.read(0x8000_0106, MemoryAccessWidth::HalfWord), Ok(0xBEF2));
    assert_eq!(bus.write(0x8000_010B, value, MemoryAccessWidth::Byte), Ok(()));
    assert_eq!(bus.read(0x8000_010B, MemoryAccessWidth::Byte), Ok(0xF2));
}

#[test]
fn misaligned_reads_are_refused() {
    let bus = Bus::new(&[1, 2, 3]);
    for offset in [1, 3] {
        let addr = 0x4000_0004 + offset;
        assert_eq!(
            bus.read(addr, MemoryAccessWidth::HalfWord),
            Err(BusError::LoadAddrMisaligned(addr))
        );
    }
    for offset in [1, 2, 3] {
        let addr = 0x8000_0004 + offset;
        assert_eq!(bus.read(addr, MemoryAccessWidth::Word), Err(BusError::LoadAddrMisaligned(addr)));
    }
}

#[test]
fn misaligned_writes_are_refused_and_change_nothing() {
    let mut bus = Bus::new(&[1, 2, 3]);
    assert_eq!(bus.write(0x8000_0000, 0x1111_1111, MemoryAccessWidth::Word), Ok(()));
    for offset in [1, 3] {
        let addr = 0x8000_0000 + offset;
        assert_eq!(
            bus.write(addr, 0xFFFF, MemoryAccessWidth::HalfWord),
            Err(BusError::StoreAddrMisaligned(addr, 0xFFFF))
        );
    }
    for offset in [1, 2, 3] {
        let addr = 0x8000_0000 + offset;
        assert_eq!(
            bus.write(addr, 0xFFFF_FFFF, MemoryAccessWidth::Word),
            Err(BusError::StoreAddrMisaligned(addr, 0xFFFF_FFFF))
        );
    }
    assert_eq!(bus.read(0x8000_0000, MemoryAccessWidth::Word), Ok(0x1111_1111));
}

#[test]
fn address_decode() {
    let mut bus = Bus::new(&[7, 8]);
    let word = MemoryAccessWidth::Word;
    // below the ROM, past its populated end, and between the regions
    for addr in [0x0, 0x3FFF_FFFC, 0x4000_0008, 0x7FFF_FFFC] {
        assert_eq!(bus.write(addr, 0x5555_5555, word), Ok(()));
        assert_eq!(bus.read(addr, word), Ok(0));
    }
    assert_eq!(bus.read(0x4000_0004, word), Ok(8));
    // the last word of the RAM, and the first address past it
    assert_eq!(bus.write(0xBFFF_FFFC, 0x5555_5555, word), Ok(()));
    assert_eq!(bus.read(0xBFFF_FFFC, word), Ok(0x5555_5555));
    assert_eq!(bus.write(0xC000_0000, 0x5555_5555, word), Ok(()));
    assert_eq!(bus.read(0xC000_0000, word), Ok(0));
}

#[test]
fn memory_layout_is_the_fixed_map() {
    let bus = Bus::new(&[7, 8, 9]);
    let layout = bus.memory_layout();
    assert_eq!(layout.rom_start, 0x4000_0000);
    assert_eq!(layout.rom_size, 12);
    assert_eq!(layout.ram_start, 0x8000_0000);
    assert_eq!(layout.ram_size, 0x4000_0000);
}

#[test]
fn chunks() {
    let mut bus = Bus::new(&[7, 8, 9]);
    assert_eq!(bus.read_chunk(0x4000_0005), 8);
    bus.write_chunk(0x4000_0004, 1);
    assert_eq!(bus.read_chunk(0x4000_0004), 8);
    bus.write_chunk(0x8000_0007, 0xABCD);
    assert_eq!(bus.read_chunk(0x8000_0004), 0xABCD);
    assert_eq!(bus.get_mem(8), vec![0, 0xABCD]);
}

#[test]
fn ram_device() {
    let mut ram = RAMDevice::new(4);
    assert_eq!(ram.get_mem(16), vec![0, 0, 0, 0]);
    ram.write(3, 0xAA);
    ram.write(4, 0xBB);
    assert_eq!(ram.read(3), 0xAA);
    assert_eq!(ram.read(4), 0);
    assert_eq!(ram.get_mem(16), vec![0, 0, 0, 0xAA]);
    assert_eq!(ram.get_mem(15), vec![0, 0, 0]);
    assert_eq!(ram.get_mem(0), Vec::<u32>::new());
}

#[test]
fn rom_device_load() {
    let mut rom = ROMDevice::new(&[1, 2, 3]);
    assert_eq!(rom.read(2), 3);
    assert_eq!(rom.read(3), 0);
    assert_eq!(rom._load(&[4, 5, 6, 7]), Err(ROMError::_LoadError));
    assert_eq!(rom.read(0), 1);
    assert_eq!(rom._load(&[9, 8]), Ok(()));
    assert_eq!(rom.read(0), 9);
    assert_eq!(rom.read(1), 8);
    assert_eq!(rom.read(2), 0);
    assert_eq!(rom._load(&[4, 5, 6]), Ok(()));
    assert_eq!(rom.read(2), 6);
    assert_eq!(ROMError::_LoadError.message(), "ROM Load Error");
}

#[test]
fn fault_messages() {
    assert_eq!(
        BusError::LoadAddrMisaligned(0x8000_0001).message(),
        "Read Misaligned at 0x80000001"
    );
    assert_eq!(BusError::LoadAddrMisaligned(0x12).message(), "Read Misaligned at 0x00000012");
    assert_eq!(
        BusError::StoreAddrMisaligned(0x8000_0002, 0xDEAD_BEEF).message(),
        "Write Misaligned at 0x80000002 with value 3735928559"
    );
    assert_eq!(
        BusError::StoreAddrMisaligned(0, 0).message(),
        "Write Misaligned at 0x00000000 with value 0"
    );
    for addr in [0usize, 9, 0xABCDEF, 0xFFFF_FFFF, usize::MAX] {
        assert_eq!(
            BusError::LoadAddrMisaligned(addr).message(),
            format!("Read Misaligned at {:#010x}", addr)
        );
        assert_eq!(
            BusError::StoreAddrMisaligned(addr, addr as u32).message(),
            format!("Write Misaligned at {:#010x} with value {}", addr, addr as u32)
        );
    }
}
