//! The banked memory map: fixed-capacity byte banks, paged (swappable)
//! banks, and the decoder that maps a flat 16-bit address onto six
//! non-overlapping regions.
use vstd::prelude::*;

verus! {

/// How a memory access can fail. Every fallible operation reports one of
/// these instead of aborting, so a caller decides fatality.
#[derive(Clone, Copy, Debug, PartialEq, Eq, Structural)]
pub enum MemoryError {
    /// A bank-relative address at or past the bank's capacity.
    OutOfBounds,
    /// A page index at or past a paged bank's page count.
    PageOutOfRange,
    /// A 16-bit address outside every mapped region.
    AddressOutOfRange,
}

/// Capacity in bytes of one ROM bank; equals the width of each of the two
/// ROM address windows.
pub const ROM_PAGE_SIZE: usize = 16384;

/// Capacity in bytes of the video RAM bank.
pub const VIDEO_RAM_SIZE: usize = 8192;

/// Capacity in bytes of the external (cartridge) RAM bank.
pub const CARTRIDGE_RAM_SIZE: usize = 8192;

/// Capacity in bytes of one work RAM bank.
pub const WORK_RAM_PAGE_SIZE: usize = 4096;

/// Number of work RAM banks the hardware provides, the fixed one included.
pub const WORK_RAM_PAGE_COUNT: usize = 8;

/// Fixed-capacity byte storage with bounds-checked access. The capacity is
/// set at construction and never changes; all bytes start at zero.
pub struct MemoryBank {
    bytes: Vec<u8>,
}

impl View for MemoryBank {
    type V = Seq<u8>;

    closed spec fn view(&self) -> Seq<u8> {
        self.bytes@
    }
}

impl MemoryBank {
    /// A zero-filled bank of `size` bytes.
    pub fn new(size: usize) -> (bank: MemoryBank)
        ensures
            bank@.len() == size,
            forall|i: int| 0 <= i < size ==> bank@[i] == 0u8,
    {
        let mut bytes: Vec<u8> = Vec::new();
        while bytes.len() < size
            invariant
                bytes.len() <= size,
                forall|i: int| 0 <= i < bytes.len() ==> bytes[i] == 0u8,
            decreases size - bytes.len(),
        {
            bytes.push(0);
        }
        MemoryBank { bytes }
    }

    /// The byte at `address`, or `OutOfBounds` exactly when `address` is at
    /// or past the capacity.
    pub fn read8(&self, address: usize) -> (r: Result<u8, MemoryError>)
        ensures
            address < self@.len() ==> r == Ok::<u8, MemoryError>(self@[address as int]),
            address >= self@.len() ==> r == Err::<u8, MemoryError>(MemoryError::OutOfBounds),
    {
        if address < self.bytes.len() {
            Ok(self.bytes[address])
        } else {
            Err(MemoryError::OutOfBounds)
        }
    }

    /// Stores `new_value` at `address`, leaving every other byte unchanged,
    /// or fails with `OutOfBounds` (and changes nothing) exactly when
    /// `address` is at or past the capacity.
    pub fn write(&mut self, address: usize, new_value: u8) -> (r: Result<(), MemoryError>)
        ensures
            address < old(self)@.len() ==> r == Ok::<(), MemoryError>(())
                && final(self)@ == old(self)@.update(address as int, new_value),
            address >= old(self)@.len() ==> r == Err::<(), MemoryError>(MemoryError::OutOfBounds)
                && final(self)@ == old(self)@,
    {
        if address < self.bytes.len() {
            self.bytes[address] = new_value;
            Ok(())
        } else {
            Err(MemoryError::OutOfBounds)
        }
    }
}

/// An ordered, fixed-length sequence of same-capacity banks, selected by
/// index. Its view is the sequence of the pages' contents.
pub struct PagedMemoryBank {
    pages: Vec<MemoryBank>,
}

impl View for PagedMemoryBank {
    type V = Seq<Seq<u8>>;

    closed spec fn view(&self) -> Seq<Seq<u8>> {
        Seq::new(self.pages@.len(), |i: int| self.pages@[i]@)
    }
}

impl PagedMemoryBank {
    /// `num_swappable_pages` independent zero-filled banks of `size` bytes
    /// each.
    pub fn new(size: usize, num_swappable_pages: usize) -> (bank: PagedMemoryBank)
        ensures
            bank@.len() == num_swappable_pages,
            forall|i: int| 0 <= i < num_swappable_pages ==> (#[trigger] bank@[i]).len() == size,
            forall|i: int, j: int|
                0 <= i < num_swappable_pages && 0 <= j < size ==> #[trigger] bank@[i][j] == 0u8,
    {
        let mut pages: Vec<MemoryBank> = Vec::new();
        while pages.len() < num_swappable_pages
            invariant
                pages.len() <= num_swappable_pages,
                forall|i: int| 0 <= i < pages.len() ==> (#[trigger] pages[i]@).len() == size,
                forall|i: int, j: int|
                    0 <= i < pages.len() && 0 <= j < size ==> #[trigger] pages[i]@[j] == 0u8,
            decreases num_swappable_pages - pages.len(),
        {
            pages.push(MemoryBank::new(size));
        }
        PagedMemoryBank { pages }
    }

    /// Read access to page `page_index`, or `PageOutOfRange` exactly when
    /// the index is at or past the page count.
    pub fn get_page(&self, page_index: usize) -> (r: Result<&MemoryBank, MemoryError>)
        ensures
            page_index < self@.len() ==> (r matches Ok(page) && page@ == self@[page_index as int]),
            page_index >= self@.len() ==> r == Err::<&MemoryBank, MemoryError>(
                MemoryError::PageOutOfRange,
            ),
    {
        if page_index < self.pages.len() {
            Ok(&self.pages[page_index])
        } else {
            Err(MemoryError::PageOutOfRange)
        }
    }

    /// Write access to page `page_index`, or `PageOutOfRange` (with no page
    /// changed) exactly when the index is at or past the page count. Only
    /// the selected page can change through the returned reference.
    pub fn get_page_mut(&mut self, page_index: usize) -> (r: Result<&mut MemoryBank, MemoryError>)
        ensures
            page_index < old(self)@.len() ==> (r matches Ok(page)
                && page@ == old(self)@[page_index as int]
                && final(self)@ == old(self)@.update(page_index as int, final(page)@)),
            page_index >= old(self)@.len() ==> r == Err::<&mut MemoryBank, MemoryError>(
                MemoryError::PageOutOfRange,
            ) && final(self)@ == old(self)@,
    {
        if page_index < self.pages.len() {
            Ok(&mut self.pages[page_index])
        } else {
            Err(MemoryError::PageOutOfRange)
        }
    }
}

/// The six regions the 16-bit address space decodes into.
#[derive(Clone, Copy, Debug, PartialEq, Eq, Structural)]
pub enum Region {
    /// 0x0000..=0x3FFF, the fixed ROM bank.
    RomPrimary,
    /// 0x4000..=0x7FFF, the switchable ROM bank.
    RomSecondary,
    /// 0x8000..=0x9FFF, video RAM.
    VideoRam,
    /// 0xA000..=0xBFFF, external (cartridge) RAM.
    CartridgeRam,
    /// 0xC000..=0xCFFF, the fixed work RAM bank.
    WorkRamPrimary,
    /// 0xD000..=0xDFFF, the switchable work RAM bank.
    WorkRamSecondary,
}

/// The region an address decodes into, or `None` for an unmapped address
/// (everything at or above 0xE000).
pub open spec fn decoded_region(address: u16) -> Option<Region> {
    if address < 0x4000 {
        Some(Region::RomPrimary)
    } else if address < 0x8000 {
        Some(Region::RomSecondary)
    } else if address < 0xA000 {
        Some(Region::VideoRam)
    } else if address < 0xC000 {
        Some(Region::CartridgeRam)
    } else if address < 0xD000 {
        Some(Region::WorkRamPrimary)
    } else if address < 0xE000 {
        Some(Region::WorkRamSecondary)
    } else {
        None
    }
}

/// The first address of a region's window.
pub open spec fn region_start(region: Region) -> u16 {
    match region {
        Region::RomPrimary => 0x0000,
        Region::RomSecondary => 0x4000,
        Region::VideoRam => 0x8000,
        Region::CartridgeRam => 0xA000,
        Region::WorkRamPrimary => 0xC000,
        Region::WorkRamSecondary => 0xD000,
    }
}

/// The offset of a mapped address within its region's window.
pub open spec fn spec_region_offset(address: u16) -> int {
    match decoded_region(address) {
        Some(region) => address - region_start(region),
        None => address - 0xE000,
    }
}

/// The offset of `address` within its region's window, as bank-relative
/// index.
fn region_offset(address: u16) -> (r: usize)
    requires
        address < 0xE000,
    ensures
        r == spec_region_offset(address),
{
    if address < 0x4000 {
        address as usize
    } else if address < 0x8000 {
        (address - 0x4000) as usize
    } else if address < 0xA000 {
        (address - 0x8000) as usize
    } else if address < 0xC000 {
        (address - 0xA000) as usize
    } else if address < 0xD000 {
        (address - 0xC000) as usize
    } else {
        (address - 0xD000) as usize
    }
}

/// The mathematical model of a whole memory map: the contents of every
/// region, pages listed in order for the two paged regions.
#[verifier::ext_equal]
pub struct MemoryMapView {
    pub rom_primary: Seq<u8>,
    pub rom_secondary: Seq<Seq<u8>>,
    pub video_ram: Seq<u8>,
    pub cartridge_ram: Seq<u8>,
    pub work_ram_primary: Seq<u8>,
    pub work_ram_secondary: Seq<Seq<u8>>,
}

/// A zero-filled byte sequence of length `n`.
pub open spec fn zero_bytes(n: int) -> Seq<u8> {
    Seq::new(n as nat, |i: int| 0u8)
}

/// The total number of ROM pages (the fixed bank included) implied by an
/// image of `len` bytes: at least one, and otherwise enough pages of
/// `ROM_PAGE_SIZE` bytes to hold every byte of the image.
pub open spec fn rom_page_count(len: int) -> int {
    if len <= ROM_PAGE_SIZE {
        1
    } else {
        1 + (len - 1) / (ROM_PAGE_SIZE as int)
    }
}

/// Page `chunk` of a ROM image, padded with zeroes past the image's end.
pub open spec fn rom_chunk(bytes: Seq<u8>, chunk: int) -> Seq<u8> {
    Seq::new(
        ROM_PAGE_SIZE as nat,
        |j: int|
            if chunk * ROM_PAGE_SIZE + j < bytes.len() {
                bytes[chunk * ROM_PAGE_SIZE + j]
            } else {
                0u8
            },
    )
}

impl MemoryMapView {
    /// The state of a freshly constructed memory map: every region
    /// zero-filled at its hardware capacity, no switchable ROM page yet,
    /// and the fixed hardware count of switchable work RAM pages.
    pub open spec fn initial() -> MemoryMapView {
        MemoryMapView {
            rom_primary: zero_bytes(ROM_PAGE_SIZE as int),
            rom_secondary: Seq::empty(),
            video_ram: zero_bytes(VIDEO_RAM_SIZE as int),
            cartridge_ram: zero_bytes(CARTRIDGE_RAM_SIZE as int),
            work_ram_primary: zero_bytes(WORK_RAM_PAGE_SIZE as int),
            work_ram_secondary: Seq::new(
                (WORK_RAM_PAGE_COUNT - 1) as nat,
                |i: int| zero_bytes(WORK_RAM_PAGE_SIZE as int),
            ),
        }
    }

    /// Every region holds exactly its hardware capacity: the two ROM
    /// windows and ROM pages are `ROM_PAGE_SIZE` bytes, video RAM and
    /// cartridge RAM their fixed sizes, and the work RAM banks
    /// `WORK_RAM_PAGE_SIZE` bytes with the fixed switchable page count.
    pub open spec fn wf(self) -> bool {
        &&& self.rom_primary.len() == ROM_PAGE_SIZE
        &&& forall|i: int|
            0 <= i < self.rom_secondary.len() ==> (#[trigger] self.rom_secondary[i]).len()
                == ROM_PAGE_SIZE
        &&& self.video_ram.len() == VIDEO_RAM_SIZE
        &&& self.cartridge_ram.len() == CARTRIDGE_RAM_SIZE
        &&& self.work_ram_primary.len() == WORK_RAM_PAGE_SIZE
        &&& self.work_ram_secondary.len() == WORK_RAM_PAGE_COUNT - 1
        &&& forall|i: int|
            0 <= i < self.work_ram_secondary.len() ==> (#[trigger] self.work_ram_secondary[i]).len()
                == WORK_RAM_PAGE_SIZE
    }

    /// The contents of the bank that `region` and `page_index` select, or
    /// `PageOutOfRange` when the region is paged and the index is at or
    /// past its page count. The index is ignored for single-bank regions.
    pub open spec fn region_contents(self, region: Region, page_index: usize) -> Result<
        Seq<u8>,
        MemoryError,
    > {
        match region {
            Region::RomPrimary => Ok(self.rom_primary),
            Region::RomSecondary => if page_index < self.rom_secondary.len() {
                Ok(self.rom_secondary[page_index as int])
            } else {
                Err(MemoryError::PageOutOfRange)
            },
            Region::VideoRam => Ok(self.video_ram),
            Region::CartridgeRam => Ok(self.cartridge_ram),
            Region::WorkRamPrimary => Ok(self.work_ram_primary),
            Region::WorkRamSecondary => if page_index < self.work_ram_secondary.len() {
                Ok(self.work_ram_secondary[page_index as int])
            } else {
                Err(MemoryError::PageOutOfRange)
            },
        }
    }

    /// The map with the bank that `region` and `page_index` select replaced
    /// by `contents`, every other bank unchanged.
    pub open spec fn with_region_contents(
        self,
        region: Region,
        page_index: usize,
        contents: Seq<u8>,
    ) -> MemoryMapView {
        match region {
            Region::RomPrimary => MemoryMapView { rom_primary: contents, ..self },
            Region::RomSecondary => MemoryMapView {
                rom_secondary: self.rom_secondary.update(page_index as int, contents),
                ..self
            },
            Region::VideoRam => MemoryMapView { video_ram: contents, ..self },
            Region::CartridgeRam => MemoryMapView { cartridge_ram: contents, ..self },
            Region::WorkRamPrimary => MemoryMapView { work_ram_primary: contents, ..self },
            Region::WorkRamSecondary => MemoryMapView {
                work_ram_secondary: self.work_ram_secondary.update(page_index as int, contents),
                ..self
            },
        }
    }

    /// The byte an 8-bit read of `address` through `page_index` yields:
    /// `AddressOutOfRange` for an unmapped address, `PageOutOfRange` for a
    /// bad page index into a paged region, `OutOfBounds` for an offset past
    /// the selected bank's capacity, and otherwise the stored byte.
    pub open spec fn read8(self, address: u16, page_index: usize) -> Result<u8, MemoryError> {
        match decoded_region(address) {
            None => Err(MemoryError::AddressOutOfRange),
            Some(region) => match self.region_contents(region, page_index) {
                Err(e) => Err(e),
                Ok(contents) => {
                    let offset = spec_region_offset(address);
                    if offset < contents.len() {
                        Ok(contents[offset])
                    } else {
                        Err(MemoryError::OutOfBounds)
                    }
                },
            },
        }
    }

    /// The word a 16-bit read of `address` through `page_index` yields:
    /// both bytes are decoded through the region of `address` itself and
    /// composed little-endian (low byte at `address`, high at the next
    /// offset). A read whose second byte would fall past the selected
    /// bank's capacity — in particular one that would straddle two regions —
    /// is rejected with `OutOfBounds`.
    pub open spec fn read16(self, address: u16, page_index: usize) -> Result<u16, MemoryError> {
        match decoded_region(address) {
            None => Err(MemoryError::AddressOutOfRange),
            Some(region) => match self.region_contents(region, page_index) {
                Err(e) => Err(e),
                Ok(contents) => {
                    let offset = spec_region_offset(address);
                    if offset + 1 < contents.len() {
                        Ok(crate::registers::join16(contents[offset + 1], contents[offset]))
                    } else {
                        Err(MemoryError::OutOfBounds)
                    }
                },
            },
        }
    }

    /// The map after an 8-bit write of `value` to `address` through
    /// `page_index`, or the error the write reports; it fails exactly where
    /// `read8` fails, and on failure nothing changes.
    pub open spec fn written(self, address: u16, page_index: usize, value: u8) -> Result<
        MemoryMapView,
        MemoryError,
    > {
        match decoded_region(address) {
            None => Err(MemoryError::AddressOutOfRange),
            Some(region) => match self.region_contents(region, page_index) {
                Err(e) => Err(e),
                Ok(contents) => {
                    let offset = spec_region_offset(address);
                    if offset < contents.len() {
                        Ok(
                            self.with_region_contents(
                                region,
                                page_index,
                                contents.update(offset, value),
                            ),
                        )
                    } else {
                        Err(MemoryError::OutOfBounds)
                    }
                },
            },
        }
    }

    /// The map after a ROM image is loaded: the first page of the image
    /// (zero-padded) fills the fixed ROM bank, each further page fills one
    /// freshly created switchable page in order, and the RAM regions are
    /// untouched.
    pub open spec fn with_rom_loaded(self, bytes: Seq<u8>) -> MemoryMapView {
        MemoryMapView {
            rom_primary: rom_chunk(bytes, 0),
            rom_secondary: Seq::new(
                (rom_page_count(bytes.len() as int) - 1) as nat,
                |i: int| rom_chunk(bytes, i + 1),
            ),
            ..self
        }
    }
}

/// One page of a ROM image as a fresh bank: the image's bytes for that
/// page, zero past the image's end.
fn build_rom_bank(rom_bytes: &Vec<u8>, chunk: usize) -> (bank: MemoryBank)
    requires
        chunk == 0 || (chunk as int) * (ROM_PAGE_SIZE as int) <= rom_bytes@.len(),
    ensures
        bank@ == rom_chunk(rom_bytes@, chunk as int),
{
    let mut bank = MemoryBank::new(ROM_PAGE_SIZE);
    let len = rom_bytes.len();
    let base = chunk * ROM_PAGE_SIZE;
    let mut j: usize = 0;
    while j < ROM_PAGE_SIZE && j < len - base
        invariant
            len == rom_bytes@.len(),
            base == chunk * ROM_PAGE_SIZE,
            base <= len,
            j <= ROM_PAGE_SIZE,
            base + j <= len,
            bank@.len() == ROM_PAGE_SIZE,
            forall|k: int| 0 <= k < j ==> bank@[k] == rom_bytes@[base + k],
            forall|k: int| j <= k < ROM_PAGE_SIZE ==> bank@[k] == 0u8,
        decreases ROM_PAGE_SIZE - j,
    {
        let _ = bank.write(j, rom_bytes[base + j]);
        j += 1;
    }
    proof {
        assert(bank@ =~= rom_chunk(rom_bytes@, chunk as int));
    }
    bank
}

/// Decodes flat 16-bit addresses onto six non-overlapping regions and
/// exposes unified byte and word access plus a bulk cartridge-image
/// loader. Its view is the model of all six regions' contents.
pub struct MemoryMapping {
    rom_primary: MemoryBank,
    rom_secondary: PagedMemoryBank,
    video_ram: MemoryBank,
    cartridge_ram: MemoryBank,
    work_ram_primary: MemoryBank,
    work_ram_secondary: PagedMemoryBank,
}

impl View for MemoryMapping {
    type V = MemoryMapView;

    closed spec fn view(&self) -> MemoryMapView {
        MemoryMapView {
            rom_primary: self.rom_primary@,
            rom_secondary: self.rom_secondary@,
            video_ram: self.video_ram@,
            cartridge_ram: self.cartridge_ram@,
            work_ram_primary: self.work_ram_primary@,
            work_ram_secondary: self.work_ram_secondary@,
        }
    }
}

impl MemoryMapping {
    /// A memory map with every region zero-filled at its hardware
    /// capacity and no switchable ROM page yet.
    pub fn new() -> (m: MemoryMapping)
        ensures
            m@ == MemoryMapView::initial(),
            m@.wf(),
    {
        let m = MemoryMapping {
            rom_primary: MemoryBank::new(ROM_PAGE_SIZE),
            rom_secondary: PagedMemoryBank::new(ROM_PAGE_SIZE, 0),
            video_ram: MemoryBank::new(VIDEO_RAM_SIZE),
            cartridge_ram: MemoryBank::new(CARTRIDGE_RAM_SIZE),
            work_ram_primary: MemoryBank::new(WORK_RAM_PAGE_SIZE),
            work_ram_secondary: PagedMemoryBank::new(WORK_RAM_PAGE_SIZE, WORK_RAM_PAGE_COUNT - 1),
        };
        proof {
            assert(m@ =~~= MemoryMapView::initial());
        }
        m
    }

    /// The bank that `address` and `page_index` select for reading, or the
    /// decode error: `AddressOutOfRange` for an unmapped address,
    /// `PageOutOfRange` for a bad page index into a paged region.
    pub fn get_bank(&self, address: u16, page_index: usize) -> (r: Result<&MemoryBank, MemoryError>)
        ensures
            match decoded_region(address) {
                None => r == Err::<&MemoryBank, MemoryError>(MemoryError::AddressOutOfRange),
                Some(region) => match self@.region_contents(region, page_index) {
                    Ok(contents) => r matches Ok(bank) && bank@ == contents,
                    Err(e) => r == Err::<&MemoryBank, MemoryError>(e),
                },
            },
    {
        if address < 0x4000 {
            Ok(&self.rom_primary)
        } else if address < 0x8000 {
            self.rom_secondary.get_page(page_index)
        } else if address < 0xA000 {
            Ok(&self.video_ram)
        } else if address < 0xC000 {
            Ok(&self.cartridge_ram)
        } else if address < 0xD000 {
            Ok(&self.work_ram_primary)
        } else if address < 0xE000 {
            self.work_ram_secondary.get_page(page_index)
        } else {
            Err(MemoryError::AddressOutOfRange)
        }
    }

    /// The bank that `address` and `page_index` select for writing, or the
    /// decode error; only the selected bank can change through the
    /// returned reference, and on an error nothing changes.
    pub fn get_bank_mut(&mut self, address: u16, page_index: usize) -> (r: Result<
        &mut MemoryBank,
        MemoryError,
    >)
        ensures
            match decoded_region(address) {
                None => r == Err::<&mut MemoryBank, MemoryError>(MemoryError::AddressOutOfRange)
                    && final(self)@ == old(self)@,
                Some(region) => match old(self)@.region_contents(region, page_index) {
                    Ok(contents) => r matches Ok(bank) && bank@ == contents && final(self)@ == old(
                        self,
                    )@.with_region_contents(region, page_index, final(bank)@),
                    Err(e) => r == Err::<&mut MemoryBank, MemoryError>(e) && final(self)@ == old(
                        self,
                    )@,
                },
            },
    {
        if address < 0x4000 {
            Ok(&mut self.rom_primary)
        } else if address < 0x8000 {
            self.rom_secondary.get_page_mut(page_index)
        } else if address < 0xA000 {
            Ok(&mut self.video_ram)
        } else if address < 0xC000 {
            Ok(&mut self.cartridge_ram)
        } else if address < 0xD000 {
            Ok(&mut self.work_ram_primary)
        } else if address < 0xE000 {
            self.work_ram_secondary.get_page_mut(page_index)
        } else {
            Err(MemoryError::AddressOutOfRange)
        }
    }

    /// Partitions a raw cartridge image into `ROM_PAGE_SIZE`-byte pages:
    /// the first page fills the fixed ROM bank and every further page one
    /// freshly created switchable page, in order; a final partial page
    /// leaves its remaining bytes zero. The switchable bank is re-created
    /// with exactly the page count the image implies, discarding any
    /// previous contents; the RAM regions are untouched.
    pub fn load_rom(&mut self, rom_bytes: Vec<u8>)
        ensures
            final(self)@ == old(self)@.with_rom_loaded(rom_bytes@),
            old(self)@.wf() ==> final(self)@.wf(),
    {
        let len = rom_bytes.len();
        let total_pages: usize = if len <= ROM_PAGE_SIZE {
            1
        } else {
            proof {
                vstd::arithmetic::div_mod::lemma_div_nonincreasing(
                    len - 1,
                    ROM_PAGE_SIZE as int,
                );
                vstd::arithmetic::div_mod::lemma_div_pos_is_pos(len - 1, ROM_PAGE_SIZE as int);
            }
            1 + (len - 1) / ROM_PAGE_SIZE
        };
        self.rom_primary = build_rom_bank(&rom_bytes, 0);
        let mut pages: Vec<MemoryBank> = Vec::new();
        while pages.len() < total_pages - 1
            invariant
                len == rom_bytes@.len(),
                total_pages == rom_page_count(len as int),
                1 <= total_pages,
                total_pages > 1 ==> len > ROM_PAGE_SIZE,
                pages.len() <= total_pages - 1,
                forall|i: int|
                    0 <= i < pages.len() ==> #[trigger] pages[i]@ == rom_chunk(rom_bytes@, i + 1),
            decreases total_pages - 1 - pages.len(),
        {
            let chunk = pages.len() + 1;
            proof {
                vstd::arithmetic::div_mod::lemma_fundamental_div_mod(
                    len - 1,
                    ROM_PAGE_SIZE as int,
                );
                vstd::arithmetic::div_mod::lemma_remainder_lower(len - 1, ROM_PAGE_SIZE as int);
                vstd::arithmetic::mul::lemma_mul_inequality(
                    chunk as int,
                    (len - 1) / (ROM_PAGE_SIZE as int),
                    ROM_PAGE_SIZE as int,
                );
            }
            pages.push(build_rom_bank(&rom_bytes, chunk));
        }
        self.rom_secondary = PagedMemoryBank { pages };
        proof {
            assert(self@ =~~= old(self)@.with_rom_loaded(rom_bytes@));
        }
    }

    /// The byte at `address` through `page_index`, exactly as the model's
    /// 8-bit read yields it.
    pub fn read8(&self, address: u16, page_index: usize) -> (r: Result<u8, MemoryError>)
        ensures
            r == self@.read8(address, page_index),
    {
        match self.get_bank(address, page_index) {
            Ok(bank) => bank.read8(region_offset(address)),
            Err(e) => Err(e),
        }
    }

    /// The little-endian word at `address` and the following offset of the
    /// same region, through `page_index`, exactly as the model's 16-bit
    /// read yields it.
    pub fn read16(&self, address: u16, page_index: usize) -> (r: Result<u16, MemoryError>)
        ensures
            r == self@.read16(address, page_index),
    {
        match self.get_bank(address, page_index) {
            Ok(bank) => {
                let offset = region_offset(address);
                match bank.read8(offset) {
                    Ok(low) => match bank.read8(offset + 1) {
                        Ok(high) => Ok(crate::registers::join_u8_to_u16(high, low)),
                        Err(e) => Err(e),
                    },
                    Err(e) => Err(e),
                }
            },
            Err(e) => Err(e),
        }
    }

    /// Stores `new_value` at `address` through `page_index`, leaving every
    /// other byte of every region unchanged, or fails exactly as the
    /// model's write does, changing nothing.
    pub fn write(&mut self, address: u16, page_index: usize, new_value: u8) -> (r: Result<
        (),
        MemoryError,
    >)
        ensures
            match old(self)@.written(address, page_index, new_value) {
                Ok(m2) => r == Ok::<(), MemoryError>(()) && final(self)@ == m2,
                Err(e) => r == Err::<(), MemoryError>(e) && final(self)@ == old(self)@,
            },
    {
        match self.get_bank_mut(address, page_index) {
            Ok(bank) => bank.write(region_offset(address), new_value),
            Err(e) => Err(e),
        }
    }
}

/// Writing a byte at an address within a bank's capacity and then reading
/// the same address back yields exactly the byte written, and the bank's
/// capacity does not change: for every bank of capacity `C` and address
/// `a < C`, after `write(a, v)` a `read8(a)` returns `Ok(v)`.
pub proof fn lemma_bank_write_then_read(contents: Seq<u8>, address: usize, value: u8)
    requires
        address < contents.len(),
    ensures
        contents.update(address as int, value)[address as int] == value,
        contents.update(address as int, value).len() == contents.len(),
{
}

/// Writing through the memory map and reading the same address back
/// through the same page yields the byte written: whenever a write
/// succeeds, an 8-bit read of that address and page on the new map
/// returns `Ok` of the value written.
pub proof fn lemma_write_then_read8(
    m: MemoryMapView,
    address: u16,
    page_index: usize,
    value: u8,
    m2: MemoryMapView,
)
    requires
        m.written(address, page_index, value) == Ok::<MemoryMapView, MemoryError>(m2),
    ensures
        m2.read8(address, page_index) == Ok::<u8, MemoryError>(value),
{
}

/// A 16-bit read is the little-endian composition of the two 8-bit reads
/// of its address and the next address: whenever both byte reads succeed
/// and the next address lies in the same region,
/// `read16(a) == read8(a) | (read8(a + 1) << 8)`.
pub proof fn lemma_read16_composes(
    m: MemoryMapView,
    address: u16,
    page_index: usize,
    low: u8,
    high: u8,
)
    requires
        address < 0xFFFF,
        decoded_region(address) == decoded_region((address + 1) as u16),
        m.read8(address, page_index) == Ok::<u8, MemoryError>(low),
        m.read8((address + 1) as u16, page_index) == Ok::<u8, MemoryError>(high),
    ensures
        m.read16(address, page_index) == Ok::<u16, MemoryError>(
            crate::registers::join16(high, low),
        ),
        m.read16(address, page_index) == Ok::<u16, MemoryError>(
            ((low as u16) | ((high as u16) << 8)) as u16,
        ),
{
    assert((high as u16) << 8 | (low as u16) == (low as u16) | ((high as u16) << 8))
        by (bit_vector);
}

/// Every address in the mapped range `[0x0000, 0xDFFF]` decodes to
/// exactly one region, and on a well-formed map an 8-bit read of such an
/// address succeeds whenever the page index selects an existing page of a
/// paged region (the index being irrelevant for single-bank regions).
pub proof fn lemma_mapped_read_succeeds(m: MemoryMapView, address: u16, page_index: usize)
    requires
        m.wf(),
        address <= 0xDFFF,
        decoded_region(address) == Some(Region::RomSecondary) ==> page_index
            < m.rom_secondary.len(),
        decoded_region(address) == Some(Region::WorkRamSecondary) ==> page_index
            < m.work_ram_secondary.len(),
    ensures
        decoded_region(address) is Some,
        m.read8(address, page_index) is Ok,
{
}

/// Loading an image of `n` full pages lays the image out page by page:
/// the fixed ROM bank holds the image's first page byte for byte, the
/// switchable bank is created with exactly `n - 1` pages, and switchable
/// page `i` holds the image's page `i + 1` byte for byte. In particular
/// a distinct marker at image offset `i * ROM_PAGE_SIZE` appears at byte 0
/// of the fixed bank for `i == 0` and at byte 0 of switchable page
/// `i - 1` otherwise.
pub proof fn lemma_load_rom_full_pages(m: MemoryMapView, bytes: Seq<u8>, n: int)
    requires
        n >= 1,
        bytes.len() == n * ROM_PAGE_SIZE,
    ensures
        m.with_rom_loaded(bytes).rom_primary.len() == ROM_PAGE_SIZE,
        forall|j: int|
            0 <= j < ROM_PAGE_SIZE ==> m.with_rom_loaded(bytes).rom_primary[j] == bytes[j],
        m.with_rom_loaded(bytes).rom_secondary.len() == n - 1,
        forall|i: int, j: int|
            0 <= i < n - 1 && 0 <= j < ROM_PAGE_SIZE ==> m.with_rom_loaded(
                bytes,
            ).rom_secondary[i][j] == bytes[(i + 1) * ROM_PAGE_SIZE + j],
{
    let p = ROM_PAGE_SIZE as int;
    assert(rom_page_count(bytes.len() as int) == n) by {
        if n == 1 {
        } else {
            vstd::arithmetic::div_mod::lemma_fundamental_div_mod_converse(
                n * p - 1,
                p,
                n - 1,
                p - 1,
            );
        }
    }
    assert forall|j: int| 0 <= j < p implies m.with_rom_loaded(bytes).rom_primary[j]
        == bytes[j] by {
        vstd::arithmetic::mul::lemma_mul_strict_inequality(0, n, p);
    }
    assert forall|i: int, j: int| 0 <= i < n - 1 && 0 <= j < p implies m.with_rom_loaded(
        bytes,
    ).rom_secondary[i][j] == bytes[(i + 1) * p + j] by {
        vstd::arithmetic::mul::lemma_mul_inequality(i + 1, n - 1, p);
        vstd::arithmetic::mul::lemma_mul_is_distributive_sub_other_way(p, n, 1);
        assert((i + 1) * p + j < n * p);
    }
}

} // verus!
