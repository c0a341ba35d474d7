//! On-chip NOR flash: bounds and alignment rules, the choice between sector
//! and page erase, the sequence of granules an operation programs or erases,
//! and the decisions taken on the controller's status flags.
use vstd::prelude::*;

use crate::rcc::HsiFs;

verus! {

pub const PAGE_SIZE: usize = 256;
pub const SECTOR_SIZE: usize = 8192;
pub const WRITE_SIZE: usize = PAGE_SIZE;
pub const READ_SIZE: usize = 1;
pub const FLASH_SIZE: usize = 131072;
pub const FLASH_BASE: usize = 0x0800_0000;

/// Value of a flash byte after erase.
pub const ERASED_BYTE: u8 = 0xFF;

/// Index of the word before which a page program is started.
pub const PROGRAM_START_WORD: usize = PAGE_SIZE / 4 - 1;

/// Flash operation errors.
#[derive(Clone, Copy, Debug, PartialEq, Eq, Structural)]
pub enum Error {
    Prog,
    Size,
    Miss,
    Sequence,
    Protected,
    Unaligned,
    Parallelism,
}

impl Error {
    /// The generic NOR flash error kind of this error.
    pub fn kind(&self) -> (r: embedded_storage::nor_flash::NorFlashErrorKind)
        ensures
            *self == Error::Size ==> r is OutOfBounds,
            *self == Error::Unaligned ==> r is NotAligned,
            *self != Error::Size && *self != Error::Unaligned ==> r is Other,
    {
        match self {
            Error::Size => embedded_storage::nor_flash::NorFlashErrorKind::OutOfBounds,
            Error::Unaligned => embedded_storage::nor_flash::NorFlashErrorKind::NotAligned,
            _ => embedded_storage::nor_flash::NorFlashErrorKind::Other,
        }
    }
}

#[derive(Clone, Copy, Debug, PartialEq, Eq, Structural)]
pub struct FlashSector {
    pub start: u32,
}

#[derive(Clone, Copy, Debug, PartialEq, Eq, Structural)]
pub struct FlashPage {
    pub start: u32,
}

/// One erasable granule.
#[derive(Clone, Copy, Debug, PartialEq, Eq, Structural)]
pub enum FlashUnit {
    Page(FlashPage),
    Sector(FlashSector),
}

/// Start of the granule of `size` bytes that holds `address`.
pub open spec fn granule_start(address: u32, size: int) -> int {
    FLASH_BASE + ((address - FLASH_BASE) / size) * size
}

/// `[start, end)` is empty, or starts on a granule of `size` bytes and
/// covers whole granules.
pub open spec fn covers_granules(start: u32, end: u32, size: int) -> bool {
    start == end || (start < end && (start - FLASH_BASE) % size == 0 && (end - start) % size
        == 0)
}

/// The sector that holds `address`.
pub fn get_sector(address: u32) -> (r: FlashSector)
    requires
        FLASH_BASE <= address,
    ensures
        r.start == granule_start(address, SECTOR_SIZE as int),
        r.start <= address,
{
    let index = (address - FLASH_BASE as u32) / SECTOR_SIZE as u32;
    FlashSector { start: FLASH_BASE as u32 + index * SECTOR_SIZE as u32 }
}

/// The page that holds `address`.
pub fn get_page(address: u32) -> (r: FlashPage)
    requires
        FLASH_BASE <= address,
    ensures
        r.start == granule_start(address, PAGE_SIZE as int),
        r.start <= address,
{
    let index = (address - FLASH_BASE as u32) / PAGE_SIZE as u32;
    FlashPage { start: FLASH_BASE as u32 + index * PAGE_SIZE as u32 }
}

/// Checks that `[start_address, end_address)` is made of whole sectors.
pub fn ensure_sector_aligned(start_address: u32, end_address: u32) -> (r: Result<(), Error>)
    requires
        FLASH_BASE <= start_address,
        end_address <= u32::MAX - SECTOR_SIZE,
    ensures
        r is Ok <==> covers_granules(start_address, end_address, SECTOR_SIZE as int),
        r is Err ==> r == Err::<(), Error>(Error::Unaligned),
{
    let mut address = start_address;
    let ghost mut k: int = 0;
    while address < end_address
        invariant
            FLASH_BASE <= start_address,
            end_address <= u32::MAX - SECTOR_SIZE,
            k >= 0,
            address == start_address + k * SECTOR_SIZE,
            k > 0 ==> (start_address - FLASH_BASE) % (SECTOR_SIZE as int) == 0,
            k > 0 ==> address - SECTOR_SIZE < end_address,
        decreases end_address + SECTOR_SIZE - address,
    {
        let sector = get_sector(address);
        if sector.start != address {
            return Err(Error::Unaligned);
        }
        address = address + SECTOR_SIZE as u32;
        proof {
            k = k + 1;
        }
    }
    if address != end_address {
        return Err(Error::Unaligned);
    }
    Ok(())
}

/// Checks that `[start_address, end_address)` is made of whole pages.
pub fn ensure_page_aligned(start_address: u32, end_address: u32) -> (r: Result<(), Error>)
    requires
        FLASH_BASE <= start_address,
        end_address <= u32::MAX - PAGE_SIZE,
    ensures
        r is Ok <==> covers_granules(start_address, end_address, PAGE_SIZE as int),
        r is Err ==> r == Err::<(), Error>(Error::Unaligned),
{
    let mut address = start_address;
    let ghost mut k: int = 0;
    while address < end_address
        invariant
            FLASH_BASE <= start_address,
            end_address <= u32::MAX - PAGE_SIZE,
            k >= 0,
            address == start_address + k * PAGE_SIZE,
            k > 0 ==> (start_address - FLASH_BASE) % (PAGE_SIZE as int) == 0,
            k > 0 ==> address - PAGE_SIZE < end_address,
        decreases end_address + PAGE_SIZE - address,
    {
        let page = get_page(address);
        if page.start != address {
            return Err(Error::Unaligned);
        }
        address = address + PAGE_SIZE as u32;
        proof {
            k = k + 1;
        }
    }
    if address != end_address {
        return Err(Error::Unaligned);
    }
    Ok(())
}

/// How an erase of offsets `[from, to)` proceeds: `Ok(true)` by sectors,
/// `Ok(false)` by pages, or the error it fails with.
pub open spec fn spec_erase_granule(from: u32, to: u32) -> Result<bool, Error> {
    if from > FLASH_SIZE || to > FLASH_SIZE {
        Err(Error::Size)
    } else if covers_granules(
        (FLASH_BASE + from) as u32,
        (FLASH_BASE + to) as u32,
        SECTOR_SIZE as int,
    ) {
        Ok(true)
    } else if covers_granules(
        (FLASH_BASE + from) as u32,
        (FLASH_BASE + to) as u32,
        PAGE_SIZE as int,
    ) {
        Ok(false)
    } else {
        Err(Error::Unaligned)
    }
}

/// The granules that erase offsets `[from, to)`, in ascending order.
pub open spec fn spec_erase_units(from: u32, to: u32, by_sector: bool) -> Seq<FlashUnit> {
    if by_sector {
        Seq::new(
            ((to - from) / (SECTOR_SIZE as int)) as nat,
            |i: int|
                FlashUnit::Sector(
                    FlashSector { start: (FLASH_BASE + from + i * SECTOR_SIZE) as u32 },
                ),
        )
    } else {
        Seq::new(
            ((to - from) / (PAGE_SIZE as int)) as nat,
            |i: int| FlashUnit::Page(FlashPage { start: (FLASH_BASE + from + i * PAGE_SIZE) as u32 }),
        )
    }
}

/// The granules to erase for offsets `[from, to)`: whole sectors where the
/// range is made of whole sectors, else whole pages where it is made of
/// whole pages. Fails with `Size` when either end lies beyond the flash,
/// and with `Unaligned` when neither granule fits.
pub fn erase_plan(from: u32, to: u32) -> (r: Result<Vec<FlashUnit>, Error>)
    ensures
        match spec_erase_granule(from, to) {
            Err(e) => r == Err::<Vec<FlashUnit>, Error>(e),
            Ok(by_sector) => r is Ok && r->Ok_0@ == spec_erase_units(from, to, by_sector),
        },
{
    if from as usize > FLASH_SIZE || to as usize > FLASH_SIZE {
        return Err(Error::Size);
    }
    let start_address = FLASH_BASE as u32 + from;
    let end_address = FLASH_BASE as u32 + to;
    let sector_ret = ensure_sector_aligned(start_address, end_address);
    let page_ret = ensure_page_aligned(start_address, end_address);
    let use_sector = match (sector_ret, page_ret) {
        (Err(_), Err(_)) => {
            return Err(Error::Unaligned);
        },
        (Ok(_), _) => true,
        (Err(_), Ok(_)) => false,
    };
    let size: u32 = if use_sector {
        SECTOR_SIZE as u32
    } else {
        PAGE_SIZE as u32
    };
    let ghost n: int = (to - from) / (size as int);
    proof {
        if from != to {
            assert((end_address - start_address) % (size as int) == 0);
        }
        if use_sector {
            assert(to - from == n * SECTOR_SIZE);
        } else {
            assert(to - from == n * PAGE_SIZE);
        }
    }
    let mut units: Vec<FlashUnit> = Vec::new();
    let mut address = start_address;
    while address < end_address
        invariant
            start_address == FLASH_BASE + from,
            end_address == FLASH_BASE + to,
            from <= FLASH_SIZE,
            to <= FLASH_SIZE,
            size == if use_sector { SECTOR_SIZE } else { PAGE_SIZE },
            use_sector ==> to - from == n * SECTOR_SIZE,
            !use_sector ==> to - from == n * PAGE_SIZE,
            n >= 0,
            0 <= units@.len() <= n,
            use_sector ==> address == start_address + units@.len() * SECTOR_SIZE,
            !use_sector ==> address == start_address + units@.len() * PAGE_SIZE,
            units@ =~= spec_erase_units(from, to, use_sector).take(units@.len() as int),
            spec_erase_units(from, to, use_sector).len() == n,
        decreases end_address - address,
    {
        let ghost k = units@.len();
        let unit = if use_sector {
            FlashUnit::Sector(FlashSector { start: address })
        } else {
            FlashUnit::Page(FlashPage { start: address })
        };
        units.push(unit);
        address = address + size;
        proof {
            assert(spec_erase_units(from, to, use_sector)[k as int] == unit);
            assert(units@ =~= spec_erase_units(from, to, use_sector).take(units@.len() as int));
        }
    }
    proof {
        assert(units@.len() == n);
        assert(spec_erase_units(from, to, use_sector).take(n) =~= spec_erase_units(
            from,
            to,
            use_sector,
        ));
    }
    Ok(units)
}

/// Whether a write of `len` bytes at offset `offset` may proceed: `Size`
/// when it runs past the flash, else `Unaligned` when offset or length is
/// not a whole number of pages.
pub open spec fn spec_write_check(offset: u32, len: int) -> Result<(), Error> {
    if offset + len > FLASH_SIZE {
        Err(Error::Size)
    } else if (offset as int) % (WRITE_SIZE as int) != 0 || len % (WRITE_SIZE as int) != 0 {
        Err(Error::Unaligned)
    } else {
        Ok(())
    }
}

/// The page addresses that a write of `len` bytes at offset `offset`
/// programs, in order, or the error it is rejected with before any
/// register is touched.
pub fn write_plan(offset: u32, len: usize) -> (r: Result<Vec<u32>, Error>)
    ensures
        match spec_write_check(offset, len as int) {
            Err(e) => r == Err::<Vec<u32>, Error>(e),
            Ok(_) => r is Ok && r->Ok_0@ == Seq::new(
                (len / WRITE_SIZE) as nat,
                |i: int| (FLASH_BASE + offset + i * WRITE_SIZE) as u32,
            ),
        },
{
    if offset as usize > FLASH_SIZE || len > FLASH_SIZE - offset as usize {
        return Err(Error::Size);
    }
    if offset % WRITE_SIZE as u32 != 0 || len % WRITE_SIZE != 0 {
        return Err(Error::Unaligned);
    }
    let count = len / WRITE_SIZE;
    let ghost target = Seq::new(
        count as nat,
        |i: int| (FLASH_BASE + offset + i * WRITE_SIZE) as u32,
    );
    let mut chunks: Vec<u32> = Vec::new();
    let mut i: usize = 0;
    while i < count
        invariant
            count == len / WRITE_SIZE,
            offset + len <= FLASH_SIZE,
            i <= count,
            chunks@ =~= target.take(i as int),
            target.len() == count,
            forall|j: int| 0 <= j < count ==> #[trigger] target[j] == (FLASH_BASE + offset + j * WRITE_SIZE) as u32,
        decreases count - i,
    {
        let address = FLASH_BASE as u32 + offset + (i * WRITE_SIZE) as u32;
        chunks.push(address);
        i = i + 1;
        proof {
            assert(chunks@ =~= target.take(i as int));
        }
    }
    proof {
        assert(target.take(count as int) =~= target);
    }
    Ok(chunks)
}

/// Whether a read of `len` bytes at offset `offset` lies within the flash;
/// when it does, the absolute address it starts at.
pub fn check_read(offset: u32, len: usize) -> (r: Result<u32, Error>)
    ensures
        offset + len > FLASH_SIZE ==> r == Err::<u32, Error>(Error::Size),
        offset + len <= FLASH_SIZE ==> r == Ok::<u32, Error>((FLASH_BASE + offset) as u32),
{
    if offset as usize > FLASH_SIZE || len > FLASH_SIZE - offset as usize {
        return Err(Error::Size);
    }
    Ok(FLASH_BASE as u32 + offset)
}

/// The little-endian word at `b[i..i + 4]`.
pub open spec fn le_word(b: Seq<u8>, i: int) -> u32 {
    (b[i] + b[i + 1] * 0x100 + b[i + 2] * 0x1_0000 + b[i + 3] * 0x100_0000) as u32
}

/// The words that program one page, in address order.
pub fn page_words(chunk: &[u8]) -> (r: Vec<u32>)
    requires
        chunk@.len() == WRITE_SIZE,
    ensures
        r@.len() == WRITE_SIZE / 4,
        forall|i: int| 0 <= i < r@.len() ==> #[trigger] r@[i] == le_word(chunk@, 4 * i),
{
    let mut words: Vec<u32> = Vec::new();
    let mut i: usize = 0;
    while i < WRITE_SIZE / 4
        invariant
            chunk@.len() == WRITE_SIZE,
            i <= WRITE_SIZE / 4,
            words@.len() == i,
            forall|j: int| 0 <= j < i ==> #[trigger] words@[j] == le_word(chunk@, 4 * j),
        decreases WRITE_SIZE / 4 - i,
    {
        let w = chunk[4 * i] as u32 + chunk[4 * i + 1] as u32 * 0x100 + chunk[4 * i + 2] as u32
            * 0x1_0000 + chunk[4 * i + 3] as u32 * 0x100_0000;
        words.push(w);
        i = i + 1;
    }
    words
}

/// The outcome of one look at the status register while waiting for the
/// controller: `None` while it is busy, then `Protected` if the
/// write-protect error is flagged, else success.
pub fn ready_status(busy: bool, write_protect_error: bool) -> (r: Option<Result<(), Error>>)
    ensures
        busy ==> r is None,
        !busy && write_protect_error ==> r == Some(Err::<(), Error>(Error::Protected)),
        !busy && !write_protect_error ==> r == Some(Ok::<(), Error>(())),
{
    if busy {
        None
    } else if write_protect_error {
        Some(Err(Error::Protected))
    } else {
        Some(Ok(()))
    }
}

/// The outcome of a program or erase once the controller is idle: `Prog`
/// unless the end-of-operation flag is set.
pub fn end_of_operation(eop: bool) -> (r: Result<(), Error>)
    ensures
        r is Ok <==> eop,
        !eop ==> r == Err::<(), Error>(Error::Prog),
{
    if eop {
        Ok(())
    } else {
        Err(Error::Prog)
    }
}

/// Whether the timing registers must be loaded for oscillator setting
/// `current`, given the setting they were last loaded for.
pub fn needs_timing_config(current: HsiFs, configured: Option<HsiFs>) -> (r: bool)
    ensures
        r == (configured != Some(current)),
{
    match configured {
        Some(c) => c != current,
        None => true,
    }
}

/// Progress of an operation through its plan of granules, as values.
pub struct ProgressModel {
    pub len: nat,
    pub next: nat,
    pub failure: Option<Error>,
}

/// Progress of an operation through its plan of granules: the granules are
/// done one at a time in plan order, and the first failure ends the
/// operation with that failure.
pub struct PlanProgress {
    len: usize,
    next: usize,
    failure: Option<Error>,
}

impl View for PlanProgress {
    type V = ProgressModel;

    closed spec fn view(&self) -> ProgressModel {
        ProgressModel { len: self.len as nat, next: self.next as nat, failure: self.failure }
    }
}

impl PlanProgress {
    pub closed spec fn wf(&self) -> bool {
        self.next <= self.len
    }

    /// A plan of `len` granules, none done.
    pub fn new(len: usize) -> (r: Self)
        ensures
            r.wf(),
            r@ == (ProgressModel { len: len as nat, next: 0, failure: None }),
    {
        PlanProgress { len, next: 0, failure: None }
    }

    /// The index of the granule to do now, or `None` once every granule is
    /// done or one has failed.
    pub fn next_granule(&self) -> (r: Option<usize>)
        requires
            self.wf(),
        ensures
            self@.failure is None && self@.next < self@.len ==> r == Some(self@.next as usize),
            !(self@.failure is None && self@.next < self@.len) ==> r is None,
    {
        if self.failure.is_none() && self.next < self.len {
            Some(self.next)
        } else {
            None
        }
    }

    /// Records the outcome of the granule handed out last.
    pub fn report(&mut self, outcome: Result<(), Error>)
        requires
            old(self).wf(),
            old(self)@.failure is None,
            old(self)@.next < old(self)@.len,
        ensures
            final(self).wf(),
            final(self)@.len == old(self)@.len,
            outcome is Ok ==> final(self)@ == (ProgressModel { next: old(self)@.next + 1, ..old(self)@ }),
            outcome is Err ==> final(self)@ == (ProgressModel { failure: Some(outcome->Err_0), ..old(self)@ }),
    {
        match outcome {
            Ok(_) => {
                self.next = self.next + 1;
            },
            Err(e) => {
                self.failure = Some(e);
            },
        }
    }

    /// The outcome of the operation once no granule is left to do.
    pub fn result(&self) -> (r: Option<Result<(), Error>>)
        requires
            self.wf(),
        ensures
            self@.failure is Some ==> r == Some(Err::<(), Error>(self@.failure->0)),
            self@.failure is None && self@.next == self@.len ==> r == Some(Ok::<(), Error>(())),
            self@.failure is None && self@.next < self@.len ==> r is None,
    {
        match self.failure {
            Some(e) => Some(Err(e)),
            None => if self.next == self.len {
                Some(Ok(()))
            } else {
                None
            },
        }
    }
}

/// Contents after erasing offsets `[from, to)` of `s`.
pub open spec fn erased(s: Seq<u8>, from: int, to: int) -> Seq<u8> {
    Seq::new(s.len(), |i: int| if from <= i < to { ERASED_BYTE } else { s[i] })
}

/// Contents after programming `bytes` at offset `offset` of `s`.
pub open spec fn programmed(s: Seq<u8>, offset: int, bytes: Seq<u8>) -> Seq<u8> {
    Seq::new(
        s.len(),
        |i: int| if offset <= i < offset + bytes.len() { s[i] & bytes[i - offset] } else { s[i] },
    )
}

/// Bytes programmed into an erased range read back exactly as written, and
/// an erased range reads back as `0xFF`.
pub proof fn lemma_round_trip(s: Seq<u8>, from: int, to: int, offset: int, bytes: Seq<u8>)
    requires
        0 <= from <= offset,
        offset + bytes.len() <= to <= s.len(),
    ensures
        programmed(erased(s, from, to), offset, bytes).subrange(offset, offset + bytes.len())
            == bytes,
        erased(s, from, to).subrange(from, to) == Seq::new((to - from) as nat, |i: int| ERASED_BYTE),
{
    let e = erased(s, from, to);
    let w = programmed(e, offset, bytes);
    assert forall|i: int| 0 <= i < bytes.len() implies #[trigger] w.subrange(
        offset,
        offset + bytes.len(),
    )[i] == bytes[i] by {
        let b = bytes[i];
        assert(0xFFu8 & b == b) by (bit_vector);
    }
    assert(w.subrange(offset, offset + bytes.len()) =~= bytes);
    assert(e.subrange(from, to) =~= Seq::new((to - from) as nat, |i: int| ERASED_BYTE));
}

/// A model of the contents of a flash array, as NOR flash behaves: erase
/// sets a whole granule to `0xFF`, and programming can only clear bits.
///
/// It lives in memory and checks its arguments with the same rules as the
/// hardware driver, but it is not that driver: what is proved of reads after
/// writes and erases here is proved of this model, not of the device.
pub struct FlashImage {
    data: Vec<u8>,
}

impl View for FlashImage {
    type V = Seq<u8>;

    closed spec fn view(&self) -> Seq<u8> {
        self.data@
    }
}

impl FlashImage {
    pub closed spec fn wf(&self) -> bool {
        self.data@.len() == FLASH_SIZE
    }

    /// A well-formed image holds the whole flash.
    pub proof fn lemma_wf_len(&self)
        requires
            self.wf(),
        ensures
            self@.len() == FLASH_SIZE,
    {
    }

    /// A fully erased array.
    pub fn new() -> (r: Self)
        ensures
            r.wf(),
            r@.len() == FLASH_SIZE,
            r@ == Seq::new(FLASH_SIZE as nat, |i: int| ERASED_BYTE),
    {
        let mut data: Vec<u8> = Vec::new();
        let mut i: usize = 0;
        while i < FLASH_SIZE
            invariant
                i <= FLASH_SIZE,
                data@ =~= Seq::new(i as nat, |j: int| ERASED_BYTE),
            decreases FLASH_SIZE - i,
        {
            data.push(ERASED_BYTE);
            i = i + 1;
            assert(data@ =~= Seq::new(i as nat, |j: int| ERASED_BYTE));
        }
        FlashImage { data }
    }

    pub fn capacity(&self) -> (r: usize)
        ensures
            r == FLASH_SIZE,
    {
        FLASH_SIZE
    }

    /// The `len` bytes at offset `offset`.
    pub fn blocking_read(&self, offset: u32, len: usize) -> (r: Result<Vec<u8>, Error>)
        requires
            self.wf(),
        ensures
            offset + len > FLASH_SIZE ==> r == Err::<Vec<u8>, Error>(Error::Size),
            offset + len <= FLASH_SIZE ==> r is Ok && r->Ok_0@ == self@.subrange(
                offset as int,
                offset + len,
            ),
    {
        if check_read(offset, len).is_err() {
            return Err(Error::Size);
        }
        let start = offset as usize;
        let mut out: Vec<u8> = Vec::new();
        let mut i: usize = 0;
        while i < len
            invariant
                self.wf(),
                start == offset,
                start + len <= FLASH_SIZE,
                i <= len,
                out@ =~= self@.subrange(start as int, start + i),
            decreases len - i,
        {
            out.push(self.data[start + i]);
            i = i + 1;
            assert(out@ =~= self@.subrange(start as int, start + i));
        }
        Ok(out)
    }

    /// Programs `bytes` at offset `offset`. Each programmed byte becomes the
    /// bitwise and of what it held and the new byte; nothing changes when
    /// the write is rejected.
    pub fn blocking_write(&mut self, offset: u32, bytes: &[u8]) -> (r: Result<(), Error>)
        requires
            old(self).wf(),
        ensures
            final(self).wf(),
            final(self)@.len() == FLASH_SIZE,
            r == spec_write_check(offset, bytes@.len() as int),
            r is Err ==> final(self)@ == old(self)@,
            r is Ok ==> final(self)@ == programmed(old(self)@, offset as int, bytes@),
    {
        match write_plan(offset, bytes.len()) {
            Err(e) => {
                return Err(e);
            },
            Ok(_) => {},
        }
        let start = offset as usize;
        let ghost target = Seq::new(
            FLASH_SIZE as nat,
            |i: int|
                if offset <= i < offset + bytes@.len() {
                    old(self)@[i] & bytes@[i - offset]
                } else {
                    old(self)@[i]
                },
        );
        let mut i: usize = 0;
        while i < bytes.len()
            invariant
                start == offset,
                start + bytes@.len() <= FLASH_SIZE,
                i <= bytes@.len(),
                self.data@.len() == FLASH_SIZE,
                old(self)@.len() == FLASH_SIZE,
                target == Seq::new(
                    FLASH_SIZE as nat,
                    |i: int|
                        if offset <= i < offset + bytes@.len() {
                            old(self)@[i] & bytes@[i - offset]
                        } else {
                            old(self)@[i]
                        },
                ),
                forall|j: int|
                    0 <= j < FLASH_SIZE ==> #[trigger] self.data@[j] == if offset <= j < offset + i {
                        target[j]
                    } else {
                        old(self)@[j]
                    },
            decreases bytes@.len() - i,
        {
            let v = self.data[start + i] & bytes[i];
            self.data.set(start + i, v);
            i = i + 1;
        }
        proof {
            assert(self.data@ =~= target);
            assert(target =~= programmed(old(self)@, offset as int, bytes@));
        }
        Ok(())
    }

    /// Erases offsets `[from, to)` by sectors or pages; nothing changes when
    /// the erase is rejected.
    pub fn blocking_erase(&mut self, from: u32, to: u32) -> (r: Result<(), Error>)
        requires
            old(self).wf(),
        ensures
            final(self).wf(),
            final(self)@.len() == FLASH_SIZE,
            match spec_erase_granule(from, to) {
                Err(e) => r == Err::<(), Error>(e) && final(self)@ == old(self)@,
                Ok(_) => r is Ok && final(self)@ == erased(old(self)@, from as int, to as int),
            },
    {
        match erase_plan(from, to) {
            Err(e) => {
                return Err(e);
            },
            Ok(_) => {},
        }
        let ghost target = Seq::new(
            FLASH_SIZE as nat,
            |i: int|
                if from <= i < to {
                    ERASED_BYTE
                } else {
                    old(self)@[i]
                },
        );
        let mut i: usize = from as usize;
        while i < to as usize
            invariant
                from <= i,
                to <= FLASH_SIZE,
                i <= to,
                self.data@.len() == FLASH_SIZE,
                old(self)@.len() == FLASH_SIZE,
                target == Seq::new(
                    FLASH_SIZE as nat,
                    |i: int|
                        if from <= i < to {
                            ERASED_BYTE
                        } else {
                            old(self)@[i]
                        },
                ),
                forall|j: int|
                    0 <= j < FLASH_SIZE ==> #[trigger] self.data@[j] == if from <= j < i {
                        target[j]
                    } else {
                        old(self)@[j]
                    },
            decreases to - i,
        {
            self.data.set(i, ERASED_BYTE);
            i = i + 1;
        }
        proof {
            assert(self.data@ =~= target);
            assert(target =~= erased(old(self)@, from as int, to as int));
        }
        Ok(())
    }
}

} // verus!
