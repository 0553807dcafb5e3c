use cpu::{resolve, LoadError, MemMap, Memory, CPU, MEMORY_SIZE};

#[test]
fn new_memory_is_cleared() {
    let mem = Memory::new();
    assert_eq!(MEMORY_SIZE, 0x10000);
    assert_eq!(mem.read(0x0000), 0);
    assert_eq!(mem.read(0x07FF), 0);
    assert_eq!(mem.read(0x8000), 0);
    assert_eq!(mem.read(0xFFFF), 0);
}

#[test]
fn write_then_read() {
    let mut mem = Memory::new();
    mem.write(0x1234, 0xAB);
    mem.write(0xFFFF, 0xCD);
    assert_eq!(mem.read(0x1234), 0xAB);
    assert_eq!(mem.read(0xFFFF), 0xCD);
    assert_eq!(mem.read(0x1235), 0x00);
}

#[test]
fn resolve_undoes_mirroring() {
    assert_eq!(resolve(0x0000), 0x0000);
    assert_eq!(resolve(0x07FF), 0x07FF);
    assert_eq!(resolve(0x0800), 0x0000);
    assert_eq!(resolve(0x1234), 0x0234);
    assert_eq!(resolve(0x1FFF), 0x07FF);
    assert_eq!(resolve(0x2000), 0x2000);
    assert_eq!(resolve(0x2007), 0x2007);
    assert_eq!(resolve(0x2008), 0x2000);
    assert_eq!(resolve(0x3FFF), 0x2007);
    assert_eq!(resolve(0x4000), 0x4000);
    assert_eq!(resolve(0x401F), 0x401F);
    assert_eq!(resolve(0x4020), 0x4020);
    assert_eq!(resolve(0xC000), 0xC000);
    assert_eq!(resolve(0xFFFF), 0xFFFF);
}

#[test]
fn region_of_each_window() {
    assert_eq!(MemMap::of(0x0000), MemMap::InternalRam);
    assert_eq!(MemMap::of(0x1FFF), MemMap::InternalRam);
    assert_eq!(MemMap::of(0x2000), MemMap::PpuRegisters);
    assert_eq!(MemMap::of(0x3FFF), MemMap::PpuRegisters);
    assert_eq!(MemMap::of(0x4000), MemMap::ApuIoRegisters);
    assert_eq!(MemMap::of(0x401F), MemMap::ApuIoRegisters);
    assert_eq!(MemMap::of(0x4020), MemMap::CartridgeSpace);
    assert_eq!(MemMap::of(0xFFFF), MemMap::CartridgeSpace);
}

#[test]
fn window_origins() {
    assert_eq!(MemMap::InternalRam.origin(), 0x0000);
    assert_eq!(MemMap::PpuRegisters.origin(), 0x2000);
    assert_eq!(MemMap::ApuIoRegisters.origin(), 0x4000);
    assert_eq!(MemMap::CartridgeSpace.origin(), 0xC000);
}

#[test]
fn ram_mirrors_share_cells() {
    let mut mem = Memory::new();
    mem.write(0x0123, 0x11);
    assert_eq!(mem.read(0x0923), 0x11);
    assert_eq!(mem.read(0x1123), 0x11);
    assert_eq!(mem.read(0x1923), 0x11);
    mem.write(0x1923, 0x22);
    assert_eq!(mem.read(0x0123), 0x22);
}

#[test]
fn register_mirrors_share_cells() {
    let mut mem = Memory::new();
    mem.write(0x2002, 0x33);
    assert_eq!(mem.read(0x200A), 0x33);
    assert_eq!(mem.read(0x3FFA), 0x33);
    mem.write(0x3FFF, 0x44);
    assert_eq!(mem.read(0x2007), 0x44);
    assert_eq!(mem.read(0x2006), 0x00);
}

#[test]
fn cartridge_space_is_not_mirrored() {
    let mut mem = Memory::new();
    mem.write(0x8000, 0x55);
    assert_eq!(mem.read(0xC000), 0x00);
    assert_eq!(mem.read(0x8000), 0x55);
    mem.write(0x4020, 0x66);
    assert_eq!(mem.read(0x4000), 0x00);
}

#[test]
fn load_copies_the_image() {
    let mut mem = Memory::new();
    assert_eq!(mem.load(0xC000, &[1, 2, 3]), Ok(()));
    assert_eq!(mem.read(0xBFFF), 0);
    assert_eq!(mem.read(0xC000), 1);
    assert_eq!(mem.read(0xC001), 2);
    assert_eq!(mem.read(0xC002), 3);
    assert_eq!(mem.read(0xC003), 0);
}

#[test]
fn load_rejects_an_empty_image() {
    let mut mem = Memory::new();
    assert_eq!(mem.load(0xC000, &[]), Err(LoadError::Malformed));
}

#[test]
fn load_rejects_an_image_past_the_end() {
    let mut mem = Memory::new();
    mem.write(0xFFFF, 0x77);
    assert_eq!(mem.load(0xFFFF, &[1, 2]), Err(LoadError::Oversized));
    assert_eq!(mem.read(0xFFFF), 0x77);
    let bank = vec![0xEAu8; 0x4001];
    assert_eq!(mem.load(0xC000, &bank), Err(LoadError::Oversized));
    assert_eq!(mem.read(0xC000), 0x00);
}

#[test]
fn load_accepts_an_image_that_ends_at_the_last_cell() {
    let mut mem = Memory::new();
    let bank = vec![0xEAu8; 0x4000];
    assert_eq!(mem.load(0xC000, &bank), Ok(()));
    assert_eq!(mem.read(0xC000), 0xEA);
    assert_eq!(mem.read(0xFFFF), 0xEA);
    assert_eq!(mem.load(0xFFFF, &[0x01]), Ok(()));
    assert_eq!(mem.read(0xFFFF), 0x01);
}

#[test]
fn load_through_a_mirror_keeps_the_later_byte() {
    let mut mem = Memory::new();
    let mut image = vec![0u8; 0x0801];
    image[0] = 0xAA;
    image[0x0800] = 0xBB;
    assert_eq!(mem.load(0x0000, &image), Ok(()));
    assert_eq!(mem.read(0x0000), 0xBB);
    assert_eq!(mem.read(0x0800), 0xBB);
}

#[test]
fn set_mem_loads_at_the_window_origin_and_keeps_registers() {
    let mut cpu = CPU::new();
    let before = cpu.registers();
    assert_eq!(cpu.set_mem(MemMap::InternalRam, &[0x10, 0x20]), Ok(()));
    assert_eq!(cpu.set_mem(MemMap::PpuRegisters, &[0x30]), Ok(()));
    assert_eq!(cpu.set_mem(MemMap::ApuIoRegisters, &[0x40]), Ok(()));
    assert_eq!(cpu.set_mem(MemMap::CartridgeSpace, &[0x50]), Ok(()));
    assert_eq!(cpu.read(0x0000), 0x10);
    assert_eq!(cpu.read(0x0001), 0x20);
    assert_eq!(cpu.read(0x2000), 0x30);
    assert_eq!(cpu.read(0x4000), 0x40);
    assert_eq!(cpu.read(0xC000), 0x50);
    assert_eq!(cpu.registers(), before);
    assert_eq!(cpu.set_mem(MemMap::CartridgeSpace, &[]), Err(LoadError::Malformed));
    assert_eq!(
        cpu.set_mem(MemMap::CartridgeSpace, &vec![0u8; 0x4001]),
        Err(LoadError::Oversized)
    );
}

#[test]
fn load_program_sets_the_reset_values() {
    let mut cpu = CPU::new();
    assert_eq!(cpu.load_program(MemMap::CartridgeSpace, &[0xEA, 0x18]), Ok(()));
    let r = cpu.registers();
    assert_eq!(r.pc, 0xC000);
    assert_eq!(r.p, 0x24);
    assert_eq!(r.s, 0xFD);
    assert_eq!(cpu.read(0xC001), 0x18);
    assert_eq!(cpu.load_program(MemMap::InternalRam, &[0xEA]), Ok(()));
    assert_eq!(cpu.registers().pc, 0x0000);
}

#[test]
fn load_program_rejection_changes_nothing() {
    let mut cpu = CPU::new();
    let before = cpu.registers();
    assert_eq!(cpu.load_program(MemMap::CartridgeSpace, &[]), Err(LoadError::Malformed));
    assert_eq!(
        cpu.load_program(MemMap::CartridgeSpace, &vec![0xEAu8; 0x4001]),
        Err(LoadError::Oversized)
    );
    assert_eq!(cpu.registers(), before);
    assert_eq!(cpu.read(0xC000), 0x00);
}

#[test]
fn test_load_skips_the_header() {
    let mut rom = vec![0x4Eu8; 16];
    rom.extend_from_slice(&[0xA2, 0x05, 0xEA]);
    let mut cpu = CPU::new();
    assert_eq!(cpu.test_load(&rom), Ok(()));
    assert_eq!(cpu.read(0xC000), 0xA2);
    assert_eq!(cpu.read(0xC001), 0x05);
    assert_eq!(cpu.read(0xC002), 0xEA);
    assert_eq!(cpu.read(0xC003), 0x00);
    assert_eq!(cpu.registers().pc, 0xC000);
    assert_eq!(cpu.registers().p, 0x24);
}

#[test]
fn test_load_takes_one_bank_at_most() {
    let mut rom = vec![0u8; 16];
    rom.extend(vec![0x11u8; 0x4000]);
    rom.extend(vec![0x22u8; 0x2000]);
    let mut cpu = CPU::new();
    assert_eq!(cpu.test_load(&rom), Ok(()));
    assert_eq!(cpu.read(0xC000), 0x11);
    assert_eq!(cpu.read(0xFFFF), 0x11);
    assert_eq!(cpu.read(0xBFFF), 0x00);
}

#[test]
fn test_load_rejects_a_file_without_program() {
    let mut cpu = CPU::new();
    assert_eq!(cpu.test_load(&[]), Err(LoadError::Malformed));
    assert_eq!(cpu.test_load(&[0u8; 16]), Err(LoadError::Malformed));
    assert_eq!(cpu.registers().pc, 0x0000);
    assert_eq!(cpu.registers().p, 0x00);
}
