use vstd::prelude::*;

verus! {

/// How the cartridge's ROM is mapped into the 4 KiB cartridge window.
#[derive(Debug, Clone, Copy, PartialEq, Eq, Structural)]
pub enum Mapper {
    /// 2 KiB, mirrored twice.
    Rom2K,
    /// 4 KiB, one bank.
    Rom4K,
    /// 8 KiB in two banks, switched by accessing 0x1FF8 / 0x1FF9.
    F8,
    /// Larger images: read modulo their size.
    Unknown,
}

/// Why a ROM image was refused.
#[derive(Debug, Clone, Copy, PartialEq, Eq, Structural)]
pub enum CartridgeError {
    /// The image holds no bytes.
    EmptyRom,
}

pub struct Cartridge {
    rom: Vec<u8>,
    bank: usize,
    mapper: Mapper,
}

/// What a cartridge holds.
pub struct CartridgeView {
    pub rom: Seq<u8>,
    pub bank: usize,
    pub mapper: Mapper,
}

impl View for Cartridge {
    type V = CartridgeView;

    closed spec fn view(&self) -> CartridgeView {
        CartridgeView { rom: self.rom@, bank: self.bank, mapper: self.mapper }
    }
}

/// The mapper chosen for an image of `len` bytes (`len > 0`).
pub open spec fn mapper_for_len(len: int) -> Mapper {
    if len <= 2048 {
        Mapper::Rom2K
    } else if len <= 4096 {
        Mapper::Rom4K
    } else if len <= 8192 {
        Mapper::F8
    } else {
        Mapper::Unknown
    }
}

/// The size the image is padded to for its mapper (the image itself when larger).
pub open spec fn padded_len(len: int) -> int {
    if len <= 2048 {
        2048
    } else if len <= 4096 {
        4096
    } else if len <= 8192 {
        8192
    } else {
        len
    }
}

/// The image padded with 0xFF up to the mapper's size.
pub open spec fn padded_rom(rom: Seq<u8>) -> Seq<u8> {
    rom + Seq::new((padded_len(rom.len() as int) - rom.len()) as nat, |i: int| 0xffu8)
}

/// A well-formed cartridge: the ROM size fits the mapper, and only F8
/// cartridges are ever on bank 1.
pub open spec fn cart_wf(c: CartridgeView) -> bool {
    &&& c.rom.len() > 0
    &&& c.rom.len() <= usize::MAX
    &&& match c.mapper {
        Mapper::Rom2K => c.rom.len() == 2048,
        Mapper::Rom4K => c.rom.len() == 4096,
        Mapper::F8 => c.rom.len() == 8192,
        Mapper::Unknown => c.rom.len() > 8192,
    }
    &&& c.bank <= 1
    &&& (c.mapper != Mapper::F8 ==> c.bank == 0)
}

/// The bank after an access of cartridge offset `a` (0..0x1000): on F8
/// cartridges 0x0FF8 selects bank 0 and 0x0FF9 bank 1.
pub open spec fn bank_after(c: CartridgeView, a: int) -> usize {
    if c.mapper == Mapper::F8 && a == 0x0ff8 {
        0
    } else if c.mapper == Mapper::F8 && a == 0x0ff9 {
        1
    } else {
        c.bank
    }
}

/// The cartridge after an access (read or write) of `addr`.
pub open spec fn cart_access_s(c: CartridgeView, addr: u16) -> CartridgeView {
    CartridgeView { bank: bank_after(c, addr as int % 4096), ..c }
}

/// The byte a read of `addr` returns; only the low 12 address bits count.
pub open spec fn cart_read_s(c: CartridgeView, addr: u16) -> u8 {
    let a = addr as int % 4096;
    match c.mapper {
        Mapper::Rom2K => c.rom[a % 2048],
        Mapper::Rom4K => c.rom[a],
        Mapper::F8 => c.rom[(bank_after(c, a) * 4096 + a) % c.rom.len() as int],
        Mapper::Unknown => c.rom[a % c.rom.len() as int],
    }
}

impl Cartridge {
    /// Load a ROM image: refused when empty; otherwise padded with 0xFF to
    /// 2, 4 or 8 KiB, with the mapper chosen by size. F8 cartridges start on
    /// bank 1, where the vectors usually are.
    pub fn new(rom: Vec<u8>) -> (r: Result<Self, CartridgeError>)
        ensures
            rom@.len() == 0 <==> r is Err,
            r matches Err(e) ==> e == CartridgeError::EmptyRom,
            r matches Ok(c) ==> {
                &&& cart_wf(c@)
                &&& c@.rom == padded_rom(rom@)
                &&& c@.mapper == mapper_for_len(rom@.len() as int)
                &&& c@.bank == (if c@.mapper == Mapper::F8 { 1usize } else { 0usize })
            },
    {
        let mut rom = rom;
        if rom.len() == 0 {
            return Err(CartridgeError::EmptyRom);
        }
        let ghost original = rom@;
        let len = rom.len();
        let mapper = if len <= 2048 {
            rom.resize(2048, 0xff);
            Mapper::Rom2K
        } else if len <= 4096 {
            rom.resize(4096, 0xff);
            Mapper::Rom4K
        } else if len <= 8192 {
            rom.resize(8192, 0xff);
            Mapper::F8
        } else {
            Mapper::Unknown
        };
        assert(rom@ =~= padded_rom(original));
        let bank = if mapper == Mapper::F8 { 1 } else { 0 };
        Ok(Self { rom, bank, mapper })
    }

    pub fn len(&self) -> (r: usize)
        ensures
            r == self@.rom.len(),
    {
        self.rom.len()
    }

    pub fn mapper(&self) -> (r: Mapper)
        ensures
            r == self@.mapper,
    {
        self.mapper
    }

    pub fn bank(&self) -> (r: usize)
        ensures
            r == self@.bank,
    {
        self.bank
    }

    /// Read a byte of the cartridge window; on F8 cartridges reading a
    /// hotspot switches banks first.
    pub fn read(&mut self, addr: u16) -> (v: u8)
        requires
            cart_wf(old(self)@),
        ensures
            cart_wf(final(self)@),
            v == cart_read_s(old(self)@, addr),
            final(self)@ == cart_access_s(old(self)@, addr),
    {
        let a = (addr % 4096) as usize;
        match self.mapper {
            Mapper::Rom2K => self.rom[a % 2048],
            Mapper::Rom4K => self.rom[a],
            Mapper::F8 => {
                if a == 0x0ff8 {
                    self.bank = 0;
                }
                if a == 0x0ff9 {
                    self.bank = 1;
                }
                let off = self.bank * 4096 + a;
                self.rom[off % self.rom.len()]
            },
            Mapper::Unknown => self.rom[a % self.rom.len()],
        }
    }

    /// Writes to ROM are ignored, except that on F8 cartridges a write to a
    /// hotspot switches banks.
    pub fn write(&mut self, addr: u16, _val: u8)
        requires
            cart_wf(old(self)@),
        ensures
            cart_wf(final(self)@),
            final(self)@ == cart_access_s(old(self)@, addr),
    {
        let a = addr % 4096;
        if self.mapper == Mapper::F8 {
            if a == 0x0ff8 {
                self.bank = 0;
            }
            if a == 0x0ff9 {
                self.bank = 1;
            }
        }
    }
}

/// On F8 cartridges, touching 0x1FF8 selects bank 0 and touching 0x1FF9
/// bank 1 (in any mirror); every other access keeps the bank. Reads of the
/// selected bank come from its 4 KiB half of the ROM.
pub proof fn lemma_f8_bank_switching(c: CartridgeView, addr: u16)
    requires
        cart_wf(c),
        c.mapper == Mapper::F8,
    ensures
        addr % 4096 == 0x0ff8 ==> cart_access_s(c, addr).bank == 0,
        addr % 4096 == 0x0ff9 ==> cart_access_s(c, addr).bank == 1,
        addr % 4096 != 0x0ff8 && addr % 4096 != 0x0ff9 ==> cart_access_s(c, addr) == c,
        cart_read_s(c, addr) == c.rom[cart_access_s(c, addr).bank * 4096 + addr % 4096],
{
}

/// The cartridge a non-empty image loads as (see `Cartridge::new`).
pub open spec fn loaded(rom: Seq<u8>) -> CartridgeView {
    let mapper = mapper_for_len(rom.len() as int);
    CartridgeView {
        rom: padded_rom(rom),
        mapper,
        bank: if mapper == Mapper::F8 { 1usize } else { 0usize },
    }
}

/// The byte at `i` of an image, reading 0xFF past its end.
pub open spec fn image_byte(rom: Seq<u8>, i: int) -> u8 {
    if i < rom.len() { rom[i] } else { 0xff }
}

/// How a loaded image is seen through the 4 KiB window, for every address:
/// an image of up to 2 KiB is a 2K cartridge whose 2 KiB appear twice; up to
/// 4 KiB a 4K cartridge read straight; up to 8 KiB an F8 cartridge read from
/// bank 1 until 0x1FF8 selects bank 0 (0x1FF9 selects bank 1); larger images
/// are read modulo their size. Bytes past the end of a short image read 0xFF.
pub proof fn lemma_loaded_image(rom: Seq<u8>, addr: u16)
    requires
        0 < rom.len() <= usize::MAX,
    ensures
        ({
            let c = loaded(rom);
            let a = addr as int % 4096;
            &&& rom.len() <= 2048 ==> c.mapper == Mapper::Rom2K && cart_read_s(c, addr)
                == image_byte(rom, a % 2048)
            &&& 2048 < rom.len() <= 4096 ==> c.mapper == Mapper::Rom4K && cart_read_s(c, addr)
                == image_byte(rom, a)
            &&& 4096 < rom.len() <= 8192 ==> c.mapper == Mapper::F8 && c.bank == 1 && cart_read_s(
                c,
                addr,
            ) == image_byte(rom, if a == 0x0ff8 { a } else { 4096 + a })
            &&& 8192 < rom.len() ==> c.mapper == Mapper::Unknown && cart_read_s(c, addr) == rom[a
                % rom.len() as int]
            &&& cart_wf(c)
        }),
{
    let c = loaded(rom);
    let a = addr as int % 4096;
    let pad = Seq::new((padded_len(rom.len() as int) - rom.len()) as nat, |i: int| 0xffu8);
    assert(c.rom == rom + pad);
    if rom.len() <= 2048 {
        let i = a % 2048;
        if i >= rom.len() {
            assert(c.rom[i] == pad[i - rom.len()]);
        }
    } else if rom.len() <= 4096 {
        if a >= rom.len() {
            assert(c.rom[a] == pad[a - rom.len()]);
        }
    } else if rom.len() <= 8192 {
        let i = if a == 0x0ff8 { a } else { 4096 + a };
        assert(c.rom.len() == 8192);
        assert(bank_after(c, a) * 4096 + a == i);
        assert(i % 8192 == i);
        if i >= rom.len() {
            assert(c.rom[i] == pad[i - rom.len()]);
        }
    }
}

/// Cartridges without bank switching never change state, whatever is read
/// or written.
pub proof fn lemma_fixed_mappers(c: CartridgeView, addr: u16)
    requires
        cart_wf(c),
        c.mapper != Mapper::F8,
    ensures
        cart_access_s(c, addr) == c,
{
}

/// An access never changes the ROM or the mapper, and reading the same
/// address again returns the same byte and leaves the same state.
pub proof fn lemma_repeatable_read(c: CartridgeView, addr: u16)
    requires
        cart_wf(c),
    ensures
        cart_wf(cart_access_s(c, addr)),
        cart_access_s(c, addr).rom == c.rom,
        cart_access_s(c, addr).mapper == c.mapper,
        cart_read_s(cart_access_s(c, addr), addr) == cart_read_s(c, addr),
        cart_access_s(cart_access_s(c, addr), addr) == cart_access_s(c, addr),
{
}

} // verus!
