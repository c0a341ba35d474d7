use embedded_storage::nor_flash::NorFlashErrorKind;
use py32_hal::flash::{
    end_of_operation, ensure_page_aligned, ensure_sector_aligned, erase_plan, get_page,
    get_sector, needs_timing_config, page_words, ready_status, write_plan, check_read, Error,
    FlashImage, FlashPage, PlanProgress, FlashSector, FlashUnit, FLASH_BASE, FLASH_SIZE, PAGE_SIZE,
    SECTOR_SIZE,
};
use py32_hal::rcc::HsiFs;

const BASE: u32 = FLASH_BASE as u32;

#[test]
fn write_rejects_misalignment_and_overrun() {
    assert_eq!(write_plan(1, 256), Err(Error::Unaligned));
    assert_eq!(write_plan(256, 100), Err(Error::Unaligned));
    assert_eq!(write_plan(FLASH_SIZE as u32 - 256, 512), Err(Error::Size));
    assert_eq!(write_plan(FLASH_SIZE as u32, 1), Err(Error::Size));
    assert_eq!(write_plan(512, 512), Ok(vec![BASE + 512, BASE + 768]));
    assert_eq!(write_plan(0, 0), Ok(vec![]));
}

#[test]
fn rejected_write_leaves_image_untouched() {
    let mut image = FlashImage::new();
    assert_eq!(image.blocking_write(3, &[0u8; 256]), Err(Error::Unaligned));
    assert_eq!(image.blocking_write(FLASH_SIZE as u32, &[0u8; 256]), Err(Error::Size));
    assert_eq!(image.blocking_read(0, 512).unwrap(), vec![0xFF; 512]);
}

#[test]
fn erase_picks_sectors_then_pages() {
    let sectors = erase_plan(0, 2 * SECTOR_SIZE as u32).unwrap();
    assert_eq!(
        sectors,
        vec![
            FlashUnit::Sector(FlashSector { start: BASE }),
            FlashUnit::Sector(FlashSector { start: BASE + SECTOR_SIZE as u32 }),
        ]
    );
    let pages = erase_plan(256, 768).unwrap();
    assert_eq!(
        pages,
        vec![
            FlashUnit::Page(FlashPage { start: BASE + 256 }),
            FlashUnit::Page(FlashPage { start: BASE + 512 }),
        ]
    );
    assert_eq!(erase_plan(10, 266), Err(Error::Unaligned));
    assert_eq!(erase_plan(512, 256), Err(Error::Unaligned));
    assert_eq!(erase_plan(0, FLASH_SIZE as u32 + 256), Err(Error::Size));
    assert_eq!(erase_plan(256, 256), Ok(vec![]));
}

#[test]
fn misaligned_erase_erases_nothing() {
    let mut image = FlashImage::new();
    image.blocking_write(0, &[0u8; 256]).unwrap();
    assert_eq!(image.blocking_erase(1, 257), Err(Error::Unaligned));
    assert_eq!(image.blocking_read(0, 256).unwrap(), vec![0u8; 256]);
}

#[test]
fn flash_round_trip() {
    let mut image = FlashImage::new();
    let pattern: Vec<u8> = (0..256).map(|i| (i * 7 + 3) as u8).collect();
    let offset = 4 * PAGE_SIZE as u32;
    image.blocking_write(offset, &pattern).unwrap();
    assert_eq!(image.blocking_read(offset, 256).unwrap(), pattern);
    image.blocking_erase(offset, offset + PAGE_SIZE as u32).unwrap();
    assert_eq!(image.blocking_read(offset, 256).unwrap(), vec![0xFF; 256]);
    assert_eq!(image.capacity(), FLASH_SIZE);
}

#[test]
fn programming_only_clears_bits() {
    let mut image = FlashImage::new();
    image.blocking_write(0, &[0xF0; 256]).unwrap();
    image.blocking_write(0, &[0x3C; 256]).unwrap();
    assert_eq!(image.blocking_read(0, 1).unwrap(), vec![0x30]);
    assert_eq!(image.blocking_read(FLASH_SIZE as u32, 1), Err(Error::Size));
}

#[test]
fn granule_lookup_and_alignment() {
    assert_eq!(get_sector(BASE + 8193), FlashSector { start: BASE + 8192 });
    assert_eq!(get_page(BASE + 511), FlashPage { start: BASE + 256 });
    assert_eq!(ensure_sector_aligned(BASE, BASE + 8192), Ok(()));
    assert_eq!(ensure_sector_aligned(BASE, BASE + 256), Err(Error::Unaligned));
    assert_eq!(ensure_page_aligned(BASE + 256, BASE + 1024), Ok(()));
    assert_eq!(ensure_page_aligned(BASE + 255, BASE + 1024), Err(Error::Unaligned));
    assert_eq!(check_read(10, 20), Ok(BASE + 10));
    assert_eq!(check_read(FLASH_SIZE as u32 - 1, 2), Err(Error::Size));
}

#[test]
fn error_kinds() {
    assert_eq!(Error::Size.kind(), NorFlashErrorKind::OutOfBounds);
    assert_eq!(Error::Unaligned.kind(), NorFlashErrorKind::NotAligned);
    assert_eq!(Error::Protected.kind(), NorFlashErrorKind::Other);
    assert_eq!(Error::Prog.kind(), NorFlashErrorKind::Other);
}

#[test]
fn controller_status_decisions() {
    assert_eq!(ready_status(true, true), None);
    assert_eq!(ready_status(false, true), Some(Err(Error::Protected)));
    assert_eq!(ready_status(false, false), Some(Ok(())));
    assert_eq!(end_of_operation(false), Err(Error::Prog));
    assert_eq!(end_of_operation(true), Ok(()));
    assert!(needs_timing_config(HsiFs::HSI_24MHZ, None));
    assert!(needs_timing_config(HsiFs::HSI_24MHZ, Some(HsiFs::HSI_8MHZ)));
    assert!(!needs_timing_config(HsiFs::HSI_24MHZ, Some(HsiFs::HSI_24MHZ)));
}

#[test]
fn page_words_are_little_endian() {
    let chunk: Vec<u8> = (0..256).map(|i| i as u8).collect();
    let words = page_words(&chunk);
    assert_eq!(words.len(), 64);
    assert_eq!(words[0], 0x0302_0100);
    assert_eq!(words[63], 0xFFFE_FDFC);
}

#[test]
fn plan_progress_stops_at_first_failure() {
    let mut p = PlanProgress::new(3);
    assert_eq!(p.next_granule(), Some(0));
    p.report(Ok(()));
    assert_eq!(p.next_granule(), Some(1));
    assert_eq!(p.result(), None);
    p.report(Err(Error::Protected));
    assert_eq!(p.next_granule(), None);
    assert_eq!(p.result(), Some(Err(Error::Protected)));
    let mut q = PlanProgress::new(1);
    q.report(Ok(()));
    assert_eq!(q.next_granule(), None);
    assert_eq!(q.result(), Some(Ok(())));
}
