use mos6502::memory::Memory;

#[test]
fn memory_inits_to_zero_array() {
    let size = 32 * 1024; // a middle-of-the-road test case

    let expected_mem = vec![0x00 as u8; size];
    assert_eq!(size, expected_mem.len());

    let new_mem = Memory::new(size as u32).unwrap();
    assert_eq!(expected_mem, new_mem.data);
}

#[test]
fn memory_new_errors_on_size_too_big() {
    assert!(Memory::new(65537).is_err());
}

#[test]
fn memory_new_errors_on_size_too_small() {
    assert!(Memory::new(13823).is_err());
}

#[test]
fn load_errors_on_out_of_bounds() {
    let mut mem = Memory::new(16 * 1024).unwrap(); // 16kB
    assert!(mem.load(0x4000).is_err()); // top bound == 0x3999
}

#[test]
fn store_errors_on_out_of_bounds() {
    let mut mem = Memory::new(16 * 1024).unwrap(); // 16kB
    assert!(mem.store(0x4000, 0x77).is_err())
}

#[test]
fn memory_loads_a_byte() {
    let mut mem = Memory::new(16 * 1024).unwrap();
    let addr : u16 = 0x1200; // I picked the address
    let my_byte = 0x88; // why not 0x88? mem inits to 0x00 and that is tested

    // cannot rely on store function for unit test
    mem.data[addr as usize] = my_byte; 
    assert_eq!(my_byte, mem.load(addr).unwrap());
}

#[test]
fn memory_stores_a_byte() {
    let mut mem = Memory::new(16 * 1024).unwrap();
    let addr = 0x3000;
    let my_value = 50;

    mem.store(addr, my_value).unwrap();
    assert_eq!(my_value, mem.data[addr as usize]);
}

#[test]
fn memory_can_load_whole_memory() {
    let rom = vec![0xff; 65536];
    let mut mem = Memory::new(64*1024).unwrap();
    mem.load_rom(0x0000, &rom);
    assert_eq!(rom, mem.data);
}

#[test]
#[should_panic]
fn memory_panics_on_load_rom_out_of_bounds(){
    let rom = vec![0x00; 16];
    let mut mem = Memory::new(16*1024).unwrap();
    mem.load_rom(0xff00, &rom);
}
