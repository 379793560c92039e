//! The cartridge: the raw image, its decoded header, the header checksum and
//! the summary report.
use vstd::prelude::*;
use crate::header::{header_of, RomHeader};
use crate::tables::{cart_type_name_of, licensee_name, resolve_cart_type, resolve_licensee};

verus! {

/// Why a cartridge operation failed.
#[derive(Debug, Clone, Copy, PartialEq, Eq, Structural)]
pub enum CartError {
    FileNotFound,
    IoError,
    TruncatedImage,
}

/// The header checksum accumulated over the bytes from 0x0134 up to `end`
/// (exclusive): each step subtracts the byte and one, modulo 256.
pub open spec fn checksum_upto(data: Seq<u8>, end: int) -> u8
    decreases end - 0x134,
{
    if end <= 0x134 {
        0
    } else {
        checksum_upto(data, end - 1).wrapping_sub(data[end - 1]).wrapping_sub(1)
    }
}

/// The checksum recomputed over 0x0134..=0x014C.
pub open spec fn header_checksum(data: Seq<u8>) -> u8 {
    checksum_upto(data, 0x14D)
}

/// Whether the recomputed checksum equals the byte stored at 0x014D.
pub open spec fn checksum_passes(data: Seq<u8>) -> bool {
    header_checksum(data) == data[0x14D]
}

/// The checksum verdict as the report writes it.
pub open spec fn verdict(data: Seq<u8>) -> Seq<char> {
    if checksum_passes(data) {
        "PASS"@
    } else {
        "FAIL"@
    }
}

/// The decimal digit character for `d < 10`.
pub open spec fn digit_char(d: nat) -> char {
    ((d + 48) as u8) as char
}

/// The decimal representation of `n`, without leading zeros.
pub open spec fn decimal(n: nat) -> Seq<char>
    decreases n,
{
    if n < 10 {
        seq![digit_char(n)]
    } else {
        decimal(n / 10).push(digit_char(n % 10))
    }
}

/// The report on a loaded image.
pub open spec fn summary_text(data: Seq<u8>) -> Seq<char> {
    let h = header_of(data);
    "Cartridge Loaded\n"@ + "\tTitle:    "@ + h.title + "\n\tType:     "@ + decimal(
        h.cart_type as nat,
    ) + " ("@ + cart_type_name_of(h.cart_type) + ")\n\tROM Size: "@ + decimal(
        data.len() / 1000,
    ) + " KB\n\tRAM Size: "@ + decimal(h.ram_size as nat) + "\n\tLIC Code: "@ + decimal(
        h.lic_code as nat,
    ) + " (Old: "@ + licensee_name(h.lic_code) + ") (New: "@ + licensee_name(h.new_lic_code)
        + ")\n\tROM Vers: "@ + decimal(h.version as nat) + "\n\tChecksum: "@ + decimal(
        h.checksum as nat,
    ) + " ("@ + verdict(data) + ")\n"@
}

/// Relies on `String::push`: appends one character.
#[verifier::external_body]
fn push_char(s: &mut String, c: char)
    ensures
        final(s)@ == old(s)@.push(c),
{
    s.push(c);
}

/// Appends the decimal digits of `n`.
fn push_decimal(s: &mut String, n: usize)
    ensures
        final(s)@ == old(s)@ + decimal(n as nat),
    decreases n,
{
    if n >= 10 {
        push_decimal(s, n / 10);
    }
    let d = (n % 10) as u8;
    push_char(s, (d + 48) as char);
    assert(final(s)@ =~= old(s)@ + decimal(n as nat));
}

/// Appends the sixteen title characters.
fn push_chars(s: &mut String, cs: &[char; 16])
    ensures
        final(s)@ == old(s)@ + cs@,
{
    let mut k: usize = 0;
    while k < 16
        invariant
            k <= 16,
            cs@.len() == 16,
            s@ == old(s)@ + cs@.subrange(0, k as int),
        decreases 16 - k,
    {
        push_char(s, cs[k]);
        k = k + 1;
        assert(s@ =~= old(s)@ + cs@.subrange(0, k as int));
    }
    assert(cs@.subrange(0, 16) =~= cs@);
}

/// Recomputes the header checksum of an image of at least 0x014E bytes.
pub fn header_checksum_of(data: &[u8]) -> (r: u8)
    requires
        data@.len() >= 0x14E,
    ensures
        r == header_checksum(data@),
{
    let mut acc: u8 = 0;
    let mut address: usize = 0x134;
    while address < 0x14D
        invariant
            0x134 <= address <= 0x14D,
            data@.len() >= 0x14E,
            acc == checksum_upto(data@, address as int),
        decreases 0x14D - address,
    {
        acc = acc.wrapping_sub(data[address]).wrapping_sub(1);
        address = address + 1;
    }
    acc
}

/// The cartridge as plain values: the name it was loaded from and its image.
pub struct CartView {
    pub filename: Seq<char>,
    pub data: Seq<u8>,
}

/// A cartridge: the name and bytes of its image and the decoded header.
pub struct Cart {
    filename: String,
    rom_size: usize,
    rom_data: Vec<u8>,
    rom_header: RomHeader,
}

impl View for Cart {
    type V = CartView;

    closed spec fn view(&self) -> CartView {
        CartView { filename: self.filename@, data: self.rom_data@ }
    }
}

impl Cart {
    /// The size field is the image's length and the header is the image's own.
    #[verifier::type_invariant]
    spec fn consistent(self) -> bool {
        self.rom_size == self.rom_data@.len() && self.rom_header@ == header_of(self.rom_data@)
    }

    /// An empty cartridge, named "empty", with no image.
    pub fn new() -> (r: Cart)
        ensures
            r@.filename == "empty"@,
            r@.data == Seq::<u8>::empty(),
    {
        Cart {
            filename: String::from_str("empty"),
            rom_data: Vec::new(),
            rom_size: 0,
            rom_header: RomHeader::empty_header(),
        }
    }

    /// Takes in the image read from `filename`, or the error the read ended
    /// with; on an error the cartridge is left as it was.
    pub fn load_cart(&mut self, filename: String, contents: Result<Vec<u8>, CartError>) -> (r:
        Result<(), CartError>)
        ensures
            match contents {
                Ok(data) => r is Ok && final(self)@.filename == filename@ && final(self)@.data
                    == data@,
                Err(e) => r == Err::<(), CartError>(e) && *final(self) == *old(self),
            },
    {
        match contents {
            Ok(data) => {
                let header = RomHeader::new(data.as_slice());
                let size = data.len();
                *self = Cart { filename, rom_size: size, rom_data: data, rom_header: header };
                Ok(())
            },
            Err(e) => Err(e),
        }
    }

    /// The decoded header of the loaded image.
    pub fn header(&self) -> (r: &RomHeader)
        ensures
            r@ == header_of(self@.data),
    {
        proof {
            use_type_invariant(self);
        }
        &self.rom_header
    }

    /// The publisher name for the old licensee code.
    pub fn cart_old_lic_name(&self) -> (r: String)
        ensures
            r@ == licensee_name(header_of(self@.data).lic_code),
    {
        proof {
            use_type_invariant(self);
        }
        resolve_licensee(self.rom_header.lic_code)
    }

    /// The publisher name for the new licensee code.
    pub fn cart_new_lic_name(&self) -> (r: String)
        ensures
            r@ == licensee_name(header_of(self@.data).new_lic_code),
    {
        proof {
            use_type_invariant(self);
        }
        resolve_licensee(self.rom_header.new_lic_code)
    }

    /// The mapper name for the cartridge type code.
    pub fn cart_type_name(&self) -> (r: String)
        ensures
            r@ == cart_type_name_of(header_of(self@.data).cart_type),
    {
        proof {
            use_type_invariant(self);
        }
        resolve_cart_type(self.rom_header.cart_type)
    }

    /// "PASS" where the recomputed header checksum equals the stored one, else
    /// "FAIL"; an image too short to hold the checksum byte is an error.
    pub fn checksum(&self) -> (r: Result<String, CartError>)
        ensures
            self@.data.len() < 0x14E ==> r == Err::<String, CartError>(CartError::TruncatedImage),
            self@.data.len() >= 0x14E ==> r is Ok && r->Ok_0@ == verdict(self@.data),
    {
        if self.rom_data.len() < 0x14E {
            return Err(CartError::TruncatedImage);
        }
        let sum = header_checksum_of(self.rom_data.as_slice());
        if sum == self.rom_data[0x14D] {
            Ok(String::from_str("PASS"))
        } else {
            Ok(String::from_str("FAIL"))
        }
    }

    /// The report on the loaded image: title, type, sizes, licensee codes and
    /// names, version and checksum verdict.
    pub fn summary(&self) -> (r: Result<String, CartError>)
        ensures
            self@.data.len() < 0x14E ==> r == Err::<String, CartError>(CartError::TruncatedImage),
            self@.data.len() >= 0x14E ==> r is Ok && r->Ok_0@ == summary_text(self@.data),
    {
        proof {
            use_type_invariant(self);
        }
        let verdict = match self.checksum() {
            Ok(v) => v,
            Err(e) => return Err(e),
        };
        let h = &self.rom_header;
        let mut s = String::from_str("Cartridge Loaded\n");
        s.append("\tTitle:    ");
        push_chars(&mut s, &h.title);
        s.append("\n\tType:     ");
        push_decimal(&mut s, h.cart_type as usize);
        s.append(" (");
        s.append(resolve_cart_type(h.cart_type).as_str());
        s.append(")\n\tROM Size: ");
        push_decimal(&mut s, self.rom_size / 1000);
        s.append(" KB\n\tRAM Size: ");
        push_decimal(&mut s, h.ram_size as usize);
        s.append("\n\tLIC Code: ");
        push_decimal(&mut s, h.lic_code as usize);
        s.append(" (Old: ");
        s.append(resolve_licensee(h.lic_code).as_str());
        s.append(") (New: ");
        s.append(resolve_licensee(h.new_lic_code).as_str());
        s.append(")\n\tROM Vers: ");
        push_decimal(&mut s, h.version as usize);
        s.append("\n\tChecksum: ");
        push_decimal(&mut s, h.checksum as usize);
        s.append(" (");
        s.append(verdict.as_str());
        s.append(")\n");
        Ok(s)
    }
}

proof fn lemma_checksum_upto_span(a: Seq<u8>, b: Seq<u8>, end: int)
    requires
        0x134 <= end <= 0x14D,
        a.len() >= 0x14E,
        b.len() >= 0x14E,
        forall|i: int| 0x134 <= i < 0x14E ==> a[i] == b[i],
    ensures
        checksum_upto(a, end) == checksum_upto(b, end),
    decreases end,
{
    if end > 0x134 {
        lemma_checksum_upto_span(a, b, end - 1);
    }
}

/// The checksum verdict reads only the bytes 0x0134..=0x014D: two images that
/// agree there get the same recomputed checksum and the same verdict, whatever
/// else they hold.
pub proof fn lemma_checksum_reads_header_span(a: Seq<u8>, b: Seq<u8>)
    requires
        a.len() >= 0x14E,
        b.len() >= 0x14E,
        a.subrange(0x134, 0x14E) == b.subrange(0x134, 0x14E),
    ensures
        header_checksum(a) == header_checksum(b),
        checksum_passes(a) == checksum_passes(b),
        verdict(a) == verdict(b),
{
    assert forall|i: int| 0x134 <= i < 0x14E implies a[i] == b[i] by {
        assert(a[i] == a.subrange(0x134, 0x14E)[i - 0x134]);
        assert(b[i] == b.subrange(0x134, 0x14E)[i - 0x134]);
    }
    lemma_checksum_upto_span(a, b, 0x14D);
}

/// Two cartridges that hold the same image have the same header and the same
/// report, whatever names they were loaded under.
pub proof fn lemma_same_image_same_report(a: CartView, b: CartView)
    requires
        a.data == b.data,
    ensures
        header_of(a.data) == header_of(b.data),
        summary_text(a.data) == summary_text(b.data),
{
}

} // verus!
