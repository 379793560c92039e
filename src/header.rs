//! The fixed-layout ROM header at offsets 0x0100..0x0150 of a cartridge image.
use vstd::prelude::*;
use vstd::slice::slice_subrange;

verus! {

/// What `String::from_utf8_lossy` makes of a byte sequence, read as characters.
pub uninterp spec fn utf8_lossy(b: Seq<u8>) -> Seq<char>;

/// Relies on `String::from_utf8_lossy`: the decoded characters, with each invalid
/// sequence replaced; bytes that are all ASCII decode one character per byte.
#[verifier::external_body]
fn decode_lossy(bytes: &[u8]) -> (r: Vec<char>)
    ensures
        r@ == utf8_lossy(bytes@),
        (forall|i: int| 0 <= i < bytes@.len() ==> bytes@[i] < 0x80) ==> r@ == bytes@.map_values(
            |b: u8| b as char,
        ),
{
    String::from_utf8_lossy(bytes).chars().collect()
}

/// The header as plain values.
pub struct HeaderView {
    pub entry: Seq<u8>,
    pub logo: Seq<u8>,
    pub title: Seq<char>,
    pub new_lic_code: u8,
    pub sgb_flag: u8,
    pub cart_type: u8,
    pub rom_size: u8,
    pub ram_size: u8,
    pub dest_code: u8,
    pub lic_code: u8,
    pub version: u8,
    pub checksum: u8,
    pub gbl_checksum: u8,
}

/// The header fields decoded from an image.
#[derive(Debug, PartialEq, Eq)]
pub struct RomHeader {
    pub entry: [u8; 4],
    pub logo: [u8; 48],
    pub title: [char; 16],
    pub new_lic_code: u8,
    pub sgb_flag: u8,
    pub cart_type: u8,
    pub rom_size: u8,
    pub ram_size: u8,
    pub dest_code: u8,
    pub lic_code: u8,
    pub version: u8,
    pub checksum: u8,
    pub gbl_checksum: u8,
}

impl View for RomHeader {
    type V = HeaderView;

    open spec fn view(&self) -> HeaderView {
        HeaderView {
            entry: self.entry@,
            logo: self.logo@,
            title: self.title@,
            new_lic_code: self.new_lic_code,
            sgb_flag: self.sgb_flag,
            cart_type: self.cart_type,
            rom_size: self.rom_size,
            ram_size: self.ram_size,
            dest_code: self.dest_code,
            lic_code: self.lic_code,
            version: self.version,
            checksum: self.checksum,
            gbl_checksum: self.gbl_checksum,
        }
    }
}

/// The byte at offset `i`, or zero past the end of the image.
pub open spec fn byte_at(data: Seq<u8>, i: int) -> u8 {
    if 0 <= i < data.len() {
        data[i]
    } else {
        0
    }
}

/// The `len` bytes from `start`, or `len` zero bytes where the image is too short.
pub open spec fn field_bytes(data: Seq<u8>, start: int, len: nat) -> Seq<u8> {
    if start + len <= data.len() {
        data.subrange(start, start + len)
    } else {
        Seq::new(len, |k: int| 0u8)
    }
}

/// `(byte(i) << 4) | byte(j)` where the image holds both offsets, else zero.
pub open spec fn combined_at(data: Seq<u8>, i: int, j: int) -> u8 {
    if 0 <= i < data.len() && 0 <= j < data.len() {
        (data[i] << 4u8) | data[j]
    } else {
        0
    }
}

/// The first sixteen characters of `text`, padded with nulls to sixteen.
pub open spec fn padded_title(text: Seq<char>) -> Seq<char> {
    Seq::new(16, |k: int| if k < text.len() { text[k] } else { '\0' })
}

/// The title: the sixteen bytes at 0x0134 decoded as text and padded, or sixteen
/// nulls where the image is too short to hold them.
pub open spec fn title_of(data: Seq<u8>) -> Seq<char> {
    if 0x144 <= data.len() {
        padded_title(utf8_lossy(data.subrange(0x134, 0x144)))
    } else {
        padded_title(Seq::empty())
    }
}

/// Whether the image holds all sixteen title bytes and each is ASCII.
pub open spec fn ascii_title(data: Seq<u8>) -> bool {
    0x144 <= data.len() && forall|i: int| 0x134 <= i < 0x144 ==> data[i] < 0x80
}

/// The sixteen title bytes, one character each.
pub open spec fn ascii_title_chars(data: Seq<u8>) -> Seq<char> {
    data.subrange(0x134, 0x144).map_values(|b: u8| b as char)
}

/// The header that an image holds, field by field.
pub open spec fn header_of(data: Seq<u8>) -> HeaderView {
    HeaderView {
        entry: field_bytes(data, 0x100, 4),
        logo: field_bytes(data, 0x104, 48),
        title: title_of(data),
        new_lic_code: combined_at(data, 0x134, 0x143),
        sgb_flag: byte_at(data, 0x146),
        cart_type: byte_at(data, 0x147),
        rom_size: byte_at(data, 0x148),
        ram_size: byte_at(data, 0x149),
        dest_code: byte_at(data, 0x14A),
        lic_code: byte_at(data, 0x14B),
        version: byte_at(data, 0x14C),
        checksum: byte_at(data, 0x14D),
        gbl_checksum: combined_at(data, 0x14E, 0x14F),
    }
}

fn read_byte(data: &[u8], i: usize) -> (r: u8)
    ensures
        r == byte_at(data@, i as int),
{
    if i < data.len() {
        data[i]
    } else {
        0
    }
}

fn read_combined(data: &[u8], i: usize, j: usize) -> (r: u8)
    ensures
        r == combined_at(data@, i as int, j as int),
{
    if i < data.len() && j < data.len() {
        (data[i] << 4u8) | data[j]
    } else {
        0
    }
}

fn read_entry(data: &[u8]) -> (r: [u8; 4])
    ensures
        r@ == field_bytes(data@, 0x100, 4),
{
    let mut a = [0u8; 4];
    if data.len() >= 0x104 {
        let mut k: usize = 0;
        while k < 4
            invariant
                k <= 4,
                data.len() >= 0x104,
                a@.len() == 4,
                forall|m: int| 0 <= m < k ==> a@[m] == data@[0x100 + m],
            decreases 4 - k,
        {
            a[k] = data[0x100 + k];
            k = k + 1;
        }
        assert(a@ =~= data@.subrange(0x100, 0x104));
    } else {
        assert(a@ =~= Seq::new(4, |k: int| 0u8));
    }
    a
}

fn read_logo(data: &[u8]) -> (r: [u8; 48])
    ensures
        r@ == field_bytes(data@, 0x104, 48),
{
    let mut a = [0u8; 48];
    if data.len() >= 0x134 {
        let mut k: usize = 0;
        while k < 48
            invariant
                k <= 48,
                data.len() >= 0x134,
                a@.len() == 48,
                forall|m: int| 0 <= m < k ==> a@[m] == data@[0x104 + m],
            decreases 48 - k,
        {
            a[k] = data[0x104 + k];
            k = k + 1;
        }
        assert(a@ =~= data@.subrange(0x104, 0x134));
    } else {
        assert(a@ =~= Seq::new(48, |k: int| 0u8));
    }
    a
}

/// Lays decoded title text into sixteen slots: at most its first sixteen
/// characters, the slots after them null.
pub fn title_from_text(text: &Vec<char>) -> (r: [char; 16])
    ensures
        r@ == padded_title(text@),
{
    let mut a = ['\0'; 16];
    let mut k: usize = 0;
    while k < 16 && k < text.len()
        invariant
            k <= 16,
            k <= text@.len(),
            a@.len() == 16,
            forall|m: int| 0 <= m < k ==> a@[m] == text@[m],
            forall|m: int| k <= m < 16 ==> a@[m] == '\0',
        decreases 16 - k,
    {
        a[k] = text[k];
        k = k + 1;
    }
    assert(a@ =~= padded_title(text@));
    a
}

fn read_title(data: &[u8]) -> (r: [char; 16])
    ensures
        r@ == title_of(data@),
        ascii_title(data@) ==> r@ == ascii_title_chars(data@),
{
    if data.len() >= 0x144 {
        let raw = slice_subrange(data, 0x134, 0x144);
        let text = decode_lossy(raw);
        proof {
            if ascii_title(data@) {
                assert forall|i: int| 0 <= i < raw@.len() implies raw@[i] < 0x80 by {
                    assert(raw@[i] == data@[0x134 + i]);
                }
            }
        }
        let r = title_from_text(&text);
        proof {
            if ascii_title(data@) {
                assert(r@ =~= ascii_title_chars(data@));
            }
        }
        r
    } else {
        let a = ['\0'; 16];
        assert(a@ =~= padded_title(Seq::empty()));
        a
    }
}

impl RomHeader {
    /// The header of an empty image: every field zero, the title all nulls.
    pub fn empty_header() -> (r: RomHeader)
        ensures
            r@ == header_of(Seq::empty()),
    {
        let r = RomHeader {
            entry: [0u8; 4],
            logo: [0u8; 48],
            title: ['\0'; 16],
            new_lic_code: 0,
            sgb_flag: 0,
            cart_type: 0,
            rom_size: 0,
            ram_size: 0,
            dest_code: 0,
            lic_code: 0,
            version: 0,
            checksum: 0,
            gbl_checksum: 0,
        };
        assert(r.entry@ =~= Seq::new(4, |k: int| 0u8));
        assert(r.logo@ =~= Seq::new(48, |k: int| 0u8));
        assert(r.title@ =~= padded_title(Seq::empty()));
        r
    }

    /// Decodes the header of an image. Never fails: fields the image is too
    /// short to hold are zero. A title of ASCII bytes, nulls included, comes
    /// out one character per byte.
    pub fn new(data: &[u8]) -> (r: RomHeader)
        ensures
            r@ == header_of(data@),
            ascii_title(data@) ==> r.title@ == ascii_title_chars(data@),
    {
        RomHeader {
            entry: read_entry(data),
            logo: read_logo(data),
            title: read_title(data),
            new_lic_code: read_combined(data, 0x134, 0x143),
            sgb_flag: read_byte(data, 0x146),
            cart_type: read_byte(data, 0x147),
            rom_size: read_byte(data, 0x148),
            ram_size: read_byte(data, 0x149),
            dest_code: read_byte(data, 0x14A),
            lic_code: read_byte(data, 0x14B),
            version: read_byte(data, 0x14C),
            checksum: read_byte(data, 0x14D),
            gbl_checksum: read_combined(data, 0x14E, 0x14F),
        }
    }
}

} // verus!
