use nesmesis::cart::nrom::{ImageError, NROM};
use nesmesis::cart::Mapper;

/// An image whose PRG-ROM byte `i` is `i % 251` and whose CHR-ROM byte `i` is
/// `i % 7`.
fn image(prg: u8, chr: u8, ram: u8) -> Vec<u8> {
    let prg_size = prg as usize * 16384;
    let chr_size = chr as usize * 8192;
    let mut d = vec![0u8; 16];
    d[0] = b'N';
    d[1] = b'E';
    d[2] = b'S';
    d[3] = 0x1A;
    d[4] = prg;
    d[5] = chr;
    d[8] = ram;
    d.extend((0..prg_size).map(|i| (i % 251) as u8));
    d.extend((0..chr_size).map(|i| (i % 7) as u8));
    d
}

#[test]
fn one_page_is_mirrored() {
    let rom = NROM::new(&image(1, 1, 0));
    for k in 0..0x4000u16 {
        assert_eq!(rom.cpu_read(0xC000 + k), rom.cpu_read(0x8000 + k));
        assert_eq!(rom.cpu_read(0x8000 + k), (k as usize % 251) as u8);
    }
}

#[test]
fn two_pages_lie_side_by_side() {
    let rom = NROM::new(&image(2, 1, 0));
    for k in 0..0x4000u16 {
        assert_eq!(rom.cpu_read(0x8000 + k), (k as usize % 251) as u8);
        assert_eq!(rom.cpu_read(0xC000 + k), ((k as usize + 0x4000) % 251) as u8);
    }
    assert_ne!(rom.cpu_read(0xC000), rom.cpu_read(0x8000));
}

#[test]
fn the_body_starts_after_the_header() {
    let mut d = image(1, 1, 0);
    d[15] = 0xEE;
    d[16] = 0xAB;
    d[16 + 0x3FFF] = 0xCD;
    let rom = NROM::new(&d);
    assert_eq!(rom.cpu_read(0x8000), 0xAB);
    assert_eq!(rom.cpu_read(0xBFFF), 0xCD);
    assert_eq!(rom.cpu_read(0xFFFF), 0xCD);
}

#[test]
fn ram_is_zeroed_and_holds_what_is_stored() {
    let mut rom = NROM::new(&image(1, 1, 0));
    for a in 0x6000..=0x7FFFu16 {
        assert_eq!(rom.cpu_read(a), 0);
    }
    rom.cpu_write(0x6000, 0x11);
    rom.cpu_write(0x7FFF, 0x22);
    rom.cpu_write(0x6ABC, 0x33);
    assert_eq!(rom.cpu_read(0x6000), 0x11);
    assert_eq!(rom.cpu_read(0x7FFF), 0x22);
    assert_eq!(rom.cpu_read(0x6ABC), 0x33);
    assert_eq!(rom.cpu_read(0x6001), 0);
    assert_eq!(rom.cpu_read(0x8000), 0);
}

#[test]
fn ram_pages_follow_the_header() {
    for ram in [0u8, 1, 2, 4] {
        let mut rom = NROM::new(&image(1, 0, ram));
        rom.cpu_write(0x7FFF, 0x5A);
        assert_eq!(rom.cpu_read(0x7FFF), 0x5A);
    }
}

#[test]
fn addresses_below_the_windows_read_zero() {
    let mut rom = NROM::new(&image(1, 1, 0));
    for a in [0x0000u16, 0x07FF, 0x2000, 0x4020, 0x5FFF] {
        rom.cpu_write(a, 0x77);
        assert_eq!(rom.cpu_read(a), 0);
    }
    assert_eq!(rom.cpu_read(0x6000), 0);
    assert_eq!(rom.cpu_read(0x8000), 0);
}

#[test]
fn a_store_into_rom_is_read_back() {
    let mut rom = NROM::new(&image(1, 1, 0));
    rom.cpu_write(0x8001, 0x99);
    assert_eq!(rom.cpu_read(0x8001), 0x99);
    assert_eq!(rom.cpu_read(0xC001), 0x99);
    rom.cpu_write(0xC002, 0x98);
    assert_eq!(rom.cpu_read(0x8002), 0x98);

    let mut rom = NROM::new(&image(2, 1, 0));
    rom.cpu_write(0x8001, 0x99);
    assert_eq!(rom.cpu_read(0x8001), 0x99);
    assert_eq!(rom.cpu_read(0xC001), (0x4001 % 251) as u8);
    rom.cpu_write(0xC001, 0x97);
    assert_eq!(rom.cpu_read(0xC001), 0x97);
    assert_eq!(rom.cpu_read(0x8001), 0x99);
}

#[test]
fn reads_are_stable() {
    let rom = NROM::new(&image(2, 1, 0));
    for a in [0x6000u16, 0x8000, 0x9234, 0xC000, 0xFFFC, 0xFFFF] {
        let first = rom.cpu_read(a);
        for _ in 0..4 {
            assert_eq!(rom.cpu_read(a), first);
        }
    }
}

#[test]
fn the_ppu_side_is_a_stub() {
    let mut rom = NROM::new(&image(1, 1, 0));
    rom.ppu_write(0x0000, 0x55);
    assert_eq!(rom.ppu_read(0x0000), 0);
    assert_eq!(rom.ppu_read(0x1FFF), 0);
    rom.cycle();
    assert_eq!(rom.cpu_read(0x8001), 1);
}

#[test]
fn accepts_says_which_images_fit() {
    assert!(NROM::accepts(&image(1, 1, 0)));
    assert!(NROM::accepts(&image(2, 1, 0)));
    assert!(NROM::accepts(&image(1, 0, 0)));
    assert!(NROM::accepts(&image(2, 4, 3)));
    assert!(!NROM::accepts(&image(0, 1, 0)));
    assert!(!NROM::accepts(&image(3, 1, 0)));
    assert!(!NROM::accepts(&[]));
    assert!(!NROM::accepts(&[0u8; 15]));

    let full = image(1, 1, 0);
    assert!(!NROM::accepts(&full[..full.len() - 1]));
    assert!(!NROM::accepts(&full[..16]));
    let mut longer = full.clone();
    longer.push(0);
    assert!(NROM::accepts(&longer));
}

#[test]
fn parse_refuses_a_bad_image() {
    assert_eq!(NROM::parse(&[]).err(), Some(ImageError::BadImage));
    assert_eq!(NROM::parse(&[0u8; 16]).err(), Some(ImageError::BadImage));
    assert_eq!(NROM::parse(&image(3, 1, 0)).err(), Some(ImageError::BadImage));
    let full = image(2, 1, 0);
    assert_eq!(NROM::parse(&full[..full.len() - 1]).err(), Some(ImageError::BadImage));

    match NROM::parse(&full) {
        Ok(rom) => {
            assert_eq!(rom.cpu_read(0x8005), 5);
            assert_eq!(rom.cpu_read(0xC000), (0x4000 % 251) as u8);
        }
        Err(e) => panic!("refused: {:?}", e),
    }
}
