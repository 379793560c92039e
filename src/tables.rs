//! Name tables for the publisher codes and the cartridge (mapper) type codes.
use vstd::prelude::*;

verus! {

/// Publisher names, indexed by licensee code.
pub const LIC_CODE: [&'static str; 165] = [
    "None",
    "Nintendo R&D1",
    "",
    "",
    "",
    "",
    "",
    "",
    "Capcom",
    "",
    "",
    "",
    "",
    "",
    "",
    "Electronic Arts",
    "",
    "",
    "",
    "Hudson Soft",
    "b-ai",
    "",
    "kss",
    "",
    "pow",
    "",
    "",
    "PCM Complete",
    "san-x",
    "",
    "",
    "Kemco Japan",
    "seta",
    "",
    "",
    "",
    "",
    "",
    "Viacom",
    "Nintendo",
    "Bandai",
    "Ocean/Acclaim",
    "Konami",
    "Hector",
    "",
    "Taito",
    "Hudson",
    "Banpresto",
    "",
    "Ubi Soft",
    "Atlus",
    "",
    "Malibu",
    "",
    "angel",
    "Bullet-Proof",
    "",
    "irem",
    "",
    "Absolute",
    "Acclaim",
    "Activision",
    "American sammy",
    "Konami",
    "Hi tech entertainment",
    "LJN",
    "Matchbox",
    "Mattel",
    "Milton Bradley",
    "Titus",
    "Virgin",
    "",
    "",
    "LucasArts",
    "",
    "Ocean",
    "",
    "Electronic Arts",
    "",
    "Infogrames",
    "Interplay",
    "Broderbund",
    "sculptured",
    "",
    "sci",
    "",
    "",
    "THQ",
    "Accolade",
    "",
    "",
    "",
    "",
    "misawa",
    "",
    "",
    "lozc",
    "",
    "",
    "Tokuma Shoten Intermedia",
    "Tsukuda Original",
    "",
    "",
    "Chunsoft",
    "Video system",
    "Ocean/Acclaim",
    "",
    "Varie",
    "Yonezawa/s'pal",
    "Kaneko",
    "",
    "Pack in soft",
    "",
    "",
    "",
    "",
    "Konami (Yu-Gi-Oh!)",
    "Malibu",
    "",
    "angel",
    "Bullet-Proof",
    "",
    "irem",
    "",
    "Absolute",
    "Acclaim",
    "Activision",
    "American sammy",
    "Konami",
    "Malibu",
    "",
    "angel",
    "Bullet-Proof",
    "",
    "irem",
    "",
    "Absolute",
    "Acclaim",
    "Activision",
    "American sammy",
    "Konami",
    "Malibu",
    "",
    "angel",
    "Bullet-Proof",
    "",
    "irem",
    "",
    "Absolute",
    "Acclaim",
    "Activision",
    "American sammy",
    "Konami",
    "Malibu",
    "",
    "angel",
    "Bullet-Proof",
    "",
    "irem",
    "",
    "Absolute",
    "Acclaim",
    "Activision",
    "American sammy",
    "Konami",
];

/// Mapper names, indexed by cartridge type code.
pub const ROM_TYPES: [&'static str; 35] = [
    "ROM ONLY",
    "MBC1",
    "MBC1+RAM",
    "MBC1+RAM+BATTERY",
    "0x04 ???",
    "MBC2",
    "MBC2+BATTERY",
    "0x07 ???",
    "ROM+RAM 1",
    "ROM+RAM+BATTERY 1",
    "0x0A ???",
    "MMM01",
    "MMM01+RAM",
    "MMM01+RAM+BATTERY",
    "0x0E ???",
    "MBC3+TIMER+BATTERY",
    "MBC3+TIMER+RAM+BATTERY 2",
    "MBC3",
    "MBC3+RAM 2",
    "MBC3+RAM+BATTERY 2",
    "0x14 ???",
    "0x15 ???",
    "0x16 ???",
    "0x17 ???",
    "0x18 ???",
    "MBC5",
    "MBC5+RAM",
    "MBC5+RAM+BATTERY",
    "MBC5+RUMBLE",
    "MBC5+RUMBLE+RAM",
    "MBC5+RUMBLE+RAM+BATTERY",
    "0x1F ???",
    "MBC6",
    "0x21 ???",
    "MBC7+SENSOR+RUMBLE+RAM+BATTERY",
];

/// The publisher name for a licensee code: the table entry below 0xA5, else "UNKNOWN".
pub open spec fn licensee_name(code: u8) -> Seq<char> {
    if code < 0xA5 {
        LIC_CODE@[code as int]@
    } else {
        "UNKNOWN"@
    }
}

/// The mapper name for a cartridge type code: the table entry up to 0x22, else "UNKNOWN".
pub open spec fn cart_type_name_of(code: u8) -> Seq<char> {
    if code <= 0x22 {
        ROM_TYPES@[code as int]@
    } else {
        "UNKNOWN"@
    }
}

/// Looks up the publisher name of a licensee code.
pub fn resolve_licensee(code: u8) -> (r: String)
    ensures
        r@ == licensee_name(code),
{
    if code < 0xA5 {
        String::from_str(LIC_CODE[code as usize])
    } else {
        String::from_str("UNKNOWN")
    }
}

/// Looks up the mapper name of a cartridge type code.
pub fn resolve_cart_type(code: u8) -> (r: String)
    ensures
        r@ == cart_type_name_of(code),
{
    if code <= 0x22 {
        String::from_str(ROM_TYPES[code as usize])
    } else {
        String::from_str("UNKNOWN")
    }
}

} // verus!
