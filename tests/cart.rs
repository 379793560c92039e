use gbemu::cart::{header_checksum_of, Cart, CartError};
use gbemu::header::{title_from_text, RomHeader};
use gbemu::tables::{resolve_cart_type, resolve_licensee};

fn image() -> Vec<u8> {
    let mut data = vec![0u8; 0x150];
    for (k, b) in data.iter_mut().enumerate().take(0x104).skip(0x100) {
        *b = (k - 0x100 + 1) as u8;
    }
    for (k, b) in data.iter_mut().enumerate().take(0x134).skip(0x104) {
        *b = (k - 0x104) as u8 ^ 0xA5;
    }
    data[0x134..0x144].copy_from_slice(b"TETRIS\0\0\0\0\0\0\0\0\0\x01");
    data[0x146] = 0x03;
    data[0x147] = 0x01;
    data[0x148] = 0x02;
    data[0x149] = 0x03;
    data[0x14A] = 0x01;
    data[0x14B] = 0x29;
    data[0x14C] = 0x07;
    data[0x14D] = 0x5A;
    data[0x14E] = 0x12;
    data[0x14F] = 0x34;
    data
}

fn loaded(data: Vec<u8>) -> Cart {
    let mut cart = Cart::new();
    assert_eq!(cart.load_cart(String::from("game.gb"), Ok(data)), Ok(()));
    cart
}

#[test]
fn header_fields_from_synthetic_image() {
    let data = image();
    let h = RomHeader::new(&data);
    assert_eq!(h.entry, [1, 2, 3, 4]);
    for k in 0..48 {
        assert_eq!(h.logo[k], (k as u8) ^ 0xA5);
    }
    let mut title = ['\0'; 16];
    for (k, c) in "TETRIS".chars().enumerate() {
        title[k] = c;
    }
    title[15] = '\u{1}';
    assert_eq!(h.title, title);
    assert_eq!(h.new_lic_code, (b'T' << 4) | 0x01);
    assert_eq!(h.sgb_flag, 0x03);
    assert_eq!(h.cart_type, 0x01);
    assert_eq!(h.rom_size, 0x02);
    assert_eq!(h.ram_size, 0x03);
    assert_eq!(h.dest_code, 0x01);
    assert_eq!(h.lic_code, 0x29);
    assert_eq!(h.version, 0x07);
    assert_eq!(h.checksum, 0x5A);
    assert_eq!(h.gbl_checksum, (0x12u8 << 4) | 0x34);
    assert_eq!(h.gbl_checksum, 0x34);
}

#[test]
fn licensee_code_combines_boundary_bytes() {
    let mut data = vec![0u8; 0x150];
    data[0x134] = 0x12;
    data[0x143] = 0x03;
    assert_eq!(RomHeader::new(&data).new_lic_code, 0x23);
}

#[test]
fn short_image_degrades_to_zero_fields() {
    let h = RomHeader::new(&[0xFFu8; 0x100]);
    assert_eq!(h, RomHeader::empty_header());
    let h = RomHeader::new(&[0xFFu8; 0x120]);
    assert_eq!(h.entry, [0xFF; 4]);
    assert_eq!(h.logo, [0; 48]);
    assert_eq!(h.title, ['\0'; 16]);
    let h = RomHeader::new(&[]);
    assert_eq!(h, RomHeader::empty_header());
    let mut data = vec![7u8; 0x148];
    data[0x147] = 0x13;
    let h = RomHeader::new(&data);
    assert_eq!(h.entry, [7; 4]);
    assert_eq!(h.cart_type, 0x13);
    assert_eq!(h.ram_size, 0);
    assert_eq!(h.checksum, 0);
    assert_eq!(h.gbl_checksum, 0);
}

#[test]
fn empty_header_is_all_zero() {
    let h = RomHeader::empty_header();
    assert_eq!(h.entry, [0; 4]);
    assert_eq!(h.logo, [0; 48]);
    assert_eq!(h.title, ['\0'; 16]);
    assert_eq!(h.cart_type, 0);
    assert_eq!(h.new_lic_code, 0);
}

#[test]
fn cart_type_names() {
    assert_eq!(resolve_cart_type(0x00), "ROM ONLY");
    assert_eq!(resolve_cart_type(0x13), "MBC3+RAM+BATTERY 2");
    assert_eq!(resolve_cart_type(0x22), "MBC7+SENSOR+RUMBLE+RAM+BATTERY");
    assert_eq!(resolve_cart_type(0x23), "UNKNOWN");
    assert_eq!(resolve_cart_type(0xFF), "UNKNOWN");
}

#[test]
fn licensee_names() {
    assert_eq!(resolve_licensee(0x00), "None");
    assert_eq!(resolve_licensee(0x01), "Nintendo R&D1");
    assert_eq!(resolve_licensee(0x02), "");
    assert_eq!(resolve_licensee(0x29), "Ocean/Acclaim");
    assert_eq!(resolve_licensee(0xA4), "Konami");
    assert_eq!(resolve_licensee(0xA5), "UNKNOWN");
    assert_eq!(resolve_licensee(0xFF), "UNKNOWN");
}

#[test]
fn cart_name_getters_use_header_codes() {
    let cart = loaded(image());
    assert_eq!(cart.cart_type_name(), "MBC1");
    assert_eq!(cart.cart_old_lic_name(), "Ocean/Acclaim");
    // new code: ('T' << 4) | 0x01 == 0x41
    assert_eq!(cart.cart_new_lic_name(), "LJN");
}

#[test]
fn checksum_of_zero_span() {
    let data = vec![0u8; 0x14E];
    assert_eq!(header_checksum_of(&data), 0xE7);
    let mut data = vec![0u8; 0x14E];
    data[0x134] = 5;
    data[0x14C] = 0x10;
    assert_eq!(header_checksum_of(&data), 0xE7 - 5 - 0x10);
}

#[test]
fn checksum_pass_and_fail() {
    let mut data = vec![0u8; 0x150];
    data[0x134] = 0x40;
    data[0x140] = 0x02;
    let expected: u8 = 0xE7 - 0x40 - 0x02;
    data[0x14D] = expected;
    assert_eq!(loaded(data.clone()).checksum(), Ok(String::from("PASS")));
    for other in [0u8, expected - 1, expected + 1, 0xFF] {
        data[0x14D] = other;
        assert_eq!(loaded(data.clone()).checksum(), Ok(String::from("FAIL")));
    }
}

#[test]
fn checksum_wraps_around() {
    let mut data = vec![0xFFu8; 0x14E];
    // each step subtracts 0xFF + 1 == 0x100: the accumulator stays zero
    data[0x14D] = 0;
    assert_eq!(header_checksum_of(&data), 0);
    assert_eq!(loaded(data).checksum(), Ok(String::from("PASS")));
}

#[test]
fn checksum_of_truncated_image() {
    let cart = loaded(vec![0u8; 0x14D]);
    assert_eq!(cart.checksum(), Err(CartError::TruncatedImage));
    assert_eq!(cart.summary(), Err(CartError::TruncatedImage));
    assert_eq!(Cart::new().checksum(), Err(CartError::TruncatedImage));
}

#[test]
fn failed_load_leaves_cart_unchanged() {
    let mut cart = Cart::new();
    let r = cart.load_cart(String::from("missing.gb"), Err(CartError::FileNotFound));
    assert_eq!(r, Err(CartError::FileNotFound));
    assert_eq!(*cart.header(), RomHeader::empty_header());
    assert_eq!(cart.summary(), Err(CartError::TruncatedImage));

    let mut cart = loaded(image());
    let before = cart.summary();
    let r = cart.load_cart(String::from("other.gb"), Err(CartError::IoError));
    assert_eq!(r, Err(CartError::IoError));
    assert_eq!(cart.summary(), before);
    assert_eq!(*cart.header(), RomHeader::new(&image()));
}

#[test]
fn title_with_embedded_nulls() {
    let mut data = vec![0u8; 0x150];
    data[0x134..0x144].copy_from_slice(b"ZELDA\0\0\0\0\0\0\0\0\0\0\0");
    let h = RomHeader::new(&data);
    assert_eq!(h.title.len(), 16);
    assert_eq!(h.title[..5], ['Z', 'E', 'L', 'D', 'A']);
    assert!(h.title[5..].iter().all(|c| *c == '\0'));
}

#[test]
fn title_with_invalid_bytes_uses_replacement() {
    let mut data = vec![0u8; 0x150];
    data[0x134..0x144].copy_from_slice(b"AB\xFFCD\0\0\0\0\0\0\0\0\0\0\0");
    let h = RomHeader::new(&data);
    assert_eq!(h.title[..6], ['A', 'B', '\u{FFFD}', 'C', 'D', '\0']);
}

#[test]
fn title_from_text_pads_and_truncates() {
    let short: Vec<char> = "MARIO".chars().collect();
    let t = title_from_text(&short);
    assert_eq!(t[..5], ['M', 'A', 'R', 'I', 'O']);
    assert_eq!(t[5..], ['\0'; 11]);
    let long: Vec<char> = "ABCDEFGHIJKLMNOPQRST".chars().collect();
    let t = title_from_text(&long);
    assert_eq!(String::from_iter(t.iter()), "ABCDEFGHIJKLMNOP");
    assert_eq!(title_from_text(&Vec::new()), ['\0'; 16]);
}

#[test]
fn loading_same_image_twice() {
    let a = loaded(image());
    let b = loaded(image());
    assert_eq!(a.header(), b.header());
    assert_eq!(a.summary(), b.summary());
}

#[test]
fn summary_report() {
    let mut data = image();
    data.resize(32768, 0);
    let cart = loaded(data);
    let expected = "Cartridge Loaded\n\
        \tTitle:    TETRIS\0\0\0\0\0\0\0\0\0\u{1}\n\
        \tType:     1 (MBC1)\n\
        \tROM Size: 32 KB\n\
        \tRAM Size: 3\n\
        \tLIC Code: 41 (Old: Ocean/Acclaim) (New: LJN)\n\
        \tROM Vers: 7\n\
        \tChecksum: 90 (FAIL)\n";
    assert_eq!(cart.summary(), Ok(String::from(expected)));
}

#[test]
fn new_cart_is_empty() {
    let cart = Cart::new();
    assert_eq!(*cart.header(), RomHeader::empty_header());
    assert_eq!(cart.cart_type_name(), "ROM ONLY");
    assert_eq!(cart.cart_old_lic_name(), "None");
}
