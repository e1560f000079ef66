use nes::bus::{make_word, split_word, Bus, Mem, RAM_SIZE};

#[test]
fn new_bus_reads_zero_everywhere_in_ram() {
    let bus = Bus::new();
    assert_eq!(RAM_SIZE, 2048);
    for addr in 0x0000..=0x1fffu16 {
        assert_eq!(bus.mem_read(addr), 0);
    }
}

#[test]
fn ram_write_is_read_back() {
    let mut bus = Bus::new();
    bus.mem_write(0x0000, 0x11);
    bus.mem_write(0x07ff, 0x22);
    bus.mem_write(0x0123, 0x33);
    assert_eq!(bus.mem_read(0x0000), 0x11);
    assert_eq!(bus.mem_read(0x07ff), 0x22);
    assert_eq!(bus.mem_read(0x0123), 0x33);
    assert_eq!(bus.mem_read(0x0124), 0x00);
}

#[test]
fn ram_is_mirrored_every_0x0800() {
    let mut bus = Bus::new();
    bus.mem_write(0x0042, 0xab);
    assert_eq!(bus.mem_read(0x0842), 0xab);
    assert_eq!(bus.mem_read(0x1042), 0xab);
    assert_eq!(bus.mem_read(0x1842), 0xab);

    bus.mem_write(0x1fff, 0xcd);
    assert_eq!(bus.mem_read(0x07ff), 0xcd);
    assert_eq!(bus.mem_read(0x0fff), 0xcd);
    assert_eq!(bus.mem_read(0x17ff), 0xcd);
    assert_eq!(bus.mem_read(0x1fff), 0xcd);

    bus.mem_write(0x0800, 0xef);
    assert_eq!(bus.mem_read(0x0000), 0xef);
}

#[test]
fn reads_outside_the_mapped_windows_give_zero() {
    let mut bus = Bus::new();
    for addr in 0x0000..=0x07ffu16 {
        bus.mem_write(addr, 0xff);
    }
    assert_eq!(bus.mem_read(0x4000), 0);
    assert_eq!(bus.mem_read(0x4017), 0);
    assert_eq!(bus.mem_read(0x8000), 0);
    assert_eq!(bus.mem_read(0xfffc), 0);
    assert_eq!(bus.mem_read(0xffff), 0);
}

#[test]
fn writes_outside_the_mapped_windows_are_dropped() {
    let mut bus = Bus::new();
    bus.mem_write(0x4000, 0x12);
    bus.mem_write(0x8000, 0x34);
    bus.mem_write(0xffff, 0x56);
    assert_eq!(bus.mem_read(0x4000), 0);
    assert_eq!(bus.mem_read(0x8000), 0);
    assert_eq!(bus.mem_read(0xffff), 0);
    for addr in 0x0000..=0x1fffu16 {
        assert_eq!(bus.mem_read(addr), 0);
    }
}

#[test]
fn words_are_little_endian() {
    let mut bus = Bus::new();
    bus.mem_write_u16(0x0010, 0xbeef);
    assert_eq!(bus.mem_read(0x0010), 0xef);
    assert_eq!(bus.mem_read(0x0011), 0xbe);
    assert_eq!(bus.mem_read_u16(0x0010), 0xbeef);

    bus.mem_write(0x0020, 0x34);
    bus.mem_write(0x0021, 0x12);
    assert_eq!(bus.mem_read_u16(0x0020), 0x1234);
}

#[test]
fn word_across_the_mirror_boundary() {
    let mut bus = Bus::new();
    bus.mem_write_u16(0x07ff, 0xa1b2);
    assert_eq!(bus.mem_read(0x07ff), 0xb2);
    assert_eq!(bus.mem_read(0x0000), 0xa1);
    assert_eq!(bus.mem_read_u16(0x0fff), 0xa1b2);
}

#[test]
fn word_at_the_top_of_the_address_space_wraps() {
    let mut bus = Bus::new();
    bus.mem_write(0x0000, 0x7e);
    assert_eq!(bus.mem_read_u16(0xffff), 0x7e00);
    bus.mem_write_u16(0xffff, 0x5544);
    assert_eq!(bus.mem_read(0x0000), 0x55);
}

#[test]
fn word_at_the_end_of_the_ram_window() {
    let mut bus = Bus::new();
    bus.mem_write(0x07fe, 0x99);
    bus.mem_write(0x07ff, 0x88);
    assert_eq!(bus.mem_read_u16(0x1ffe), 0x8899);
}

#[test]
fn make_and_split_word() {
    assert_eq!(make_word(0x34, 0x12), 0x1234);
    assert_eq!(make_word(0xff, 0x00), 0x00ff);
    assert_eq!(make_word(0x00, 0xff), 0xff00);
    assert_eq!(split_word(0x1234), (0x34, 0x12));
    assert_eq!(split_word(0x0000), (0x00, 0x00));
    assert_eq!(split_word(0xffff), (0xff, 0xff));
    for v in [0u16, 1, 0x00ff, 0x0100, 0x7fff, 0x8000, 0xfffe, 0xffff] {
        let (lo, hi) = split_word(v);
        assert_eq!(make_word(lo, hi), v);
    }
}
