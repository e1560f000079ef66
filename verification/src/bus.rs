//! The memory bus: sixteen-bit addresses, eight-bit cells, and the way the
//! NES maps them onto its two kilobytes of work RAM.

use vstd::prelude::*;

verus! {

/// Number of bytes of work RAM.
pub const RAM_SIZE: usize = 2048;

/// Whether `addr` lies in the window `0x0000..=0x1FFF` that is backed by work
/// RAM.
pub open spec fn in_ram(addr: u16) -> bool {
    addr <= 0x1fff
}

/// Whether `addr` lies in the window `0x2000..=0x3FFF` of the picture
/// processor's registers. No picture processor is attached to this bus, and
/// an access there is a fault.
pub open spec fn in_ppu(addr: u16) -> bool {
    0x2000 <= addr <= 0x3fff
}

/// Index of the RAM cell behind `addr`: the window repeats every `0x0800`
/// bytes.
pub open spec fn mirror(addr: u16) -> int {
    addr as int % 0x0800
}

/// The byte that a read of `addr` yields from a bus whose RAM holds `ram`:
/// the mirrored cell inside the RAM window, zero elsewhere.
pub open spec fn bus_read(ram: Seq<u8>, addr: u16) -> u8 {
    if in_ram(addr) {
        ram[mirror(addr)]
    } else {
        0
    }
}

/// The RAM after `data` is written to `addr`: the mirrored cell is replaced
/// inside the RAM window, and a write elsewhere is dropped.
pub open spec fn bus_write(ram: Seq<u8>, addr: u16, data: u8) -> Seq<u8> {
    if in_ram(addr) {
        ram.update(mirror(addr), data)
    } else {
        ram
    }
}

/// The address after `addr`, wrapping from `0xFFFF` to `0x0000`.
pub open spec fn succ(addr: u16) -> u16 {
    if addr == 0xffff {
        0
    } else {
        (addr + 1) as u16
    }
}

/// The sixteen-bit word whose low byte is `lo` and whose high byte is `hi`.
pub open spec fn word(lo: u8, hi: u8) -> u16 {
    (hi as int * 256 + lo as int) as u16
}

/// Low byte of a sixteen-bit word.
pub open spec fn low_byte(v: u16) -> u8 {
    (v as int % 256) as u8
}

/// High byte of a sixteen-bit word.
pub open spec fn high_byte(v: u16) -> u8 {
    (v as int / 256) as u8
}

/// The little-endian word read at `pos`: low byte at `pos`, high byte at the
/// address after it.
pub open spec fn bus_read_u16(ram: Seq<u8>, pos: u16) -> u16 {
    word(bus_read(ram, pos), bus_read(ram, succ(pos)))
}

/// The RAM after the word `data` is written at `pos`, low byte first.
pub open spec fn bus_write_u16(ram: Seq<u8>, pos: u16, data: u16) -> Seq<u8> {
    bus_write(bus_write(ram, pos, low_byte(data)), succ(pos), high_byte(data))
}

/// Joins two bytes into a word.
pub fn make_word(lo: u8, hi: u8) -> (w: u16)
    ensures
        w == word(lo, hi),
{
    let l = lo as u16;
    let h = hi as u16;
    assert((h << 8) | l == h * 256 + l) by (bit_vector)
        requires
            h < 256,
            l < 256,
    ;
    (h << 8) | l
}

/// Splits a word into its low and its high byte.
pub fn split_word(data: u16) -> (bytes: (u8, u8))
    ensures
        bytes.0 == low_byte(data),
        bytes.1 == high_byte(data),
        word(bytes.0, bytes.1) == data,
{
    assert(data >> 8 == data / 256 && data & 0xff == data % 256) by (bit_vector);
    let hi = (data >> 8) as u8;
    let lo = (data & 0xff) as u8;
    (lo, hi)
}

/// A memory of the shape that the processor addresses: the work RAM behind
/// the NES address decoding.
pub trait Mem {
    /// Contents of the work RAM behind this memory.
    spec fn ram(&self) -> Seq<u8>;

    /// Reads the byte at `addr`.
    fn mem_read(&self, addr: u16) -> (data: u8)
        requires
            !in_ppu(addr),
        ensures
            data == bus_read(self.ram(), addr),
    ;

    /// Writes `data` to `addr`.
    fn mem_write(&mut self, addr: u16, data: u8)
        requires
            !in_ppu(addr),
        ensures
            final(self).ram() == bus_write(old(self).ram(), addr, data),
    ;

    /// Reads the little-endian word at `pos`.
    fn mem_read_u16(&self, pos: u16) -> (data: u16)
        requires
            !in_ppu(pos),
            !in_ppu(succ(pos)),
        ensures
            data == bus_read_u16(self.ram(), pos),
    {
        let lo = self.mem_read(pos);
        let hi = self.mem_read(pos.wrapping_add(1));
        make_word(lo, hi)
    }

    /// Writes the word `data` at `pos`, low byte first.
    fn mem_write_u16(&mut self, pos: u16, data: u16)
        requires
            !in_ppu(pos),
            !in_ppu(succ(pos)),
        ensures
            final(self).ram() == bus_write_u16(old(self).ram(), pos, data),
    {
        let (lo, hi) = split_word(data);
        self.mem_write(pos, lo);
        self.mem_write(pos.wrapping_add(1), hi);
    }
}

/// The NES bus with nothing attached to it but the processor's work RAM.
pub struct Bus {
    cpu_vram: [u8; 2048],
}

impl View for Bus {
    type V = Seq<u8>;

    /// Contents of the work RAM, cell by cell.
    closed spec fn view(&self) -> Seq<u8> {
        self.cpu_vram@
    }
}

impl Bus {
    /// A bus whose RAM is all zero.
    pub fn new() -> (bus: Bus)
        ensures
            bus@ =~= Seq::new(RAM_SIZE as nat, |i: int| 0u8),
    {
        Bus { cpu_vram: [0u8; 2048] }
    }

    /// The RAM of a bus has `RAM_SIZE` cells.
    pub proof fn lemma_ram_size(&self)
        ensures
            self@.len() == RAM_SIZE,
    {
    }
}

impl Mem for Bus {
    open spec fn ram(&self) -> Seq<u8> {
        self@
    }

    fn mem_read(&self, addr: u16) -> (data: u8) {
        if addr <= 0x1fff {
            assert(addr & 0x07ff == addr % 0x0800) by (bit_vector);
            self.cpu_vram[(addr & 0x07ff) as usize]
        } else if addr <= 0x3fff {
            vstd::pervasive::unreached()
        } else {
            0
        }
    }

    fn mem_write(&mut self, addr: u16, data: u8) {
        if addr <= 0x1fff {
            assert(addr & 0x07ff == addr % 0x0800) by (bit_vector);
            self.cpu_vram[(addr & 0x07ff) as usize] = data;
        } else if addr <= 0x3fff {
            vstd::pervasive::unreached()
        }
    }
}

} // verus!
