//! The two publisher lookup tables: legacy single-byte codes and modern
//! two-character codes, together with the rule that selects between them.
//!
//! Both tables are constant data; they are written here as pure lookup
//! functions, shared by every decode without any mutable state.

use vstd::prelude::*;

verus! {

/// Which of the two lookup tables resolves the publisher, and the code to
/// look up in it: the legacy single-byte code, unless it is the sentinel
/// 0x33, in which case the two modern code bytes are used instead.
#[derive(Clone, Copy, Debug, PartialEq, Eq, Structural)]
pub enum LicenseeCode {
    /// A legacy single-byte code.
    Old(u8),
    /// The two bytes of a modern two-character code.
    New(u8, u8),
}

/// The publisher name for a legacy single-byte code; codes outside the
/// table resolve to "Unknown".
pub open spec fn spec_old_licensee_name(code: u8) -> Seq<char> {
    if code == 0x00 {
        "None"@
    } else if code == 0x01 {
        "Nintendo"@
    } else if code == 0x08 {
        "Capcom"@
    } else if code == 0x09 {
        "HOT-B"@
    } else if code == 0x0A {
        "Jaleco"@
    } else if code == 0x0B {
        "Coconuts Japan"@
    } else if code == 0x0C {
        "Elite Systems"@
    } else if code == 0x13 {
        "EA (Electronic Arts)"@
    } else if code == 0x18 {
        "Hudson Soft"@
    } else if code == 0x19 {
        "ITC Entertainment"@
    } else if code == 0x1A {
        "Yanoman"@
    } else if code == 0x1D {
        "Japan Clary"@
    } else if code == 0x1F {
        "Virgin Games Ltd.3"@
    } else if code == 0x24 {
        "PCM Complete"@
    } else if code == 0x25 {
        "San-X"@
    } else if code == 0x28 {
        "Kemco"@
    } else if code == 0x29 {
        "SETA Corporation"@
    } else if code == 0x30 {
        "Infogrames5"@
    } else if code == 0x31 {
        "Nintendo"@
    } else if code == 0x32 {
        "Bandai"@
    } else if code == 0x33 {
        "New licensee code should be used"@
    } else if code == 0x34 {
        "Konami"@
    } else if code == 0x35 {
        "HectorSoft"@
    } else if code == 0x38 {
        "Capcom"@
    } else if code == 0x39 {
        "Banpresto"@
    } else if code == 0x3C {
        "Entertainment Interactive (stub)"@
    } else if code == 0x3E {
        "Gremlin"@
    } else if code == 0x41 {
        "Ubi Soft1"@
    } else if code == 0x42 {
        "Atlus"@
    } else if code == 0x44 {
        "Malibu Interactive"@
    } else if code == 0x46 {
        "Angel"@
    } else if code == 0x47 {
        "Spectrum HoloByte"@
    } else if code == 0x49 {
        "Irem"@
    } else if code == 0x4A {
        "Virgin Games Ltd.3"@
    } else if code == 0x4D {
        "Malibu Interactive"@
    } else if code == 0x4F {
        "U.S. Gold"@
    } else if code == 0x50 {
        "Absolute"@
    } else if code == 0x51 {
        "Acclaim Entertainment"@
    } else if code == 0x52 {
        "Activision"@
    } else if code == 0x53 {
        "Sammy USA Corporation"@
    } else if code == 0x54 {
        "GameTek"@
    } else if code == 0x55 {
        "Park Place13"@
    } else if code == 0x56 {
        "LJN"@
    } else if code == 0x57 {
        "Matchbox"@
    } else if code == 0x59 {
        "Milton Bradley Company"@
    } else if code == 0x5A {
        "Mindscape"@
    } else if code == 0x5B {
        "Romstar"@
    } else if code == 0x5C {
        "Naxat Soft14"@
    } else if code == 0x5D {
        "Tradewest"@
    } else if code == 0x60 {
        "Titus Interactive"@
    } else if code == 0x61 {
        "Virgin Games Ltd.3"@
    } else if code == 0x67 {
        "Ocean Software"@
    } else if code == 0x69 {
        "EA (Electronic Arts)"@
    } else if code == 0x6E {
        "Elite Systems"@
    } else if code == 0x6F {
        "Electro Brain"@
    } else if code == 0x70 {
        "Infogrames5"@
    } else if code == 0x71 {
        "Interplay Entertainment"@
    } else if code == 0x72 {
        "Broderbund"@
    } else if code == 0x73 {
        "Sculptured Software6"@
    } else if code == 0x75 {
        "The Sales Curve Limited7"@
    } else if code == 0x78 {
        "THQ"@
    } else if code == 0x79 {
        "Accolade15"@
    } else if code == 0x7A {
        "Triffix Entertainment"@
    } else if code == 0x7C {
        "MicroProse"@
    } else if code == 0x7F {
        "Kemco"@
    } else if code == 0x80 {
        "Misawa Entertainment"@
    } else if code == 0x83 {
        "LOZC G."@
    } else if code == 0x86 {
        "Tokuma Shoten"@
    } else if code == 0x8B {
        "Bullet-Proof Software2"@
    } else if code == 0x8C {
        "Vic Tokai Corp.16"@
    } else if code == 0x8E {
        "Ape Inc.17"@
    } else if code == 0x8F {
        "I’Max18"@
    } else if code == 0x91 {
        "Chunsoft Co.8"@
    } else if code == 0x92 {
        "Video System"@
    } else if code == 0x93 {
        "Tsubaraya Productions"@
    } else if code == 0x95 {
        "Varie"@
    } else if code == 0x96 {
        "Yonezawa19/S’Pal"@
    } else if code == 0x97 {
        "Kemco"@
    } else if code == 0x99 {
        "Arc"@
    } else if code == 0x9A {
        "Nihon Bussan"@
    } else if code == 0x9B {
        "Tecmo"@
    } else if code == 0x9C {
        "Imagineer"@
    } else if code == 0x9D {
        "Banpresto"@
    } else if code == 0x9F {
        "Nova"@
    } else if code == 0xA1 {
        "Hori Electric"@
    } else if code == 0xA2 {
        "Bandai"@
    } else if code == 0xA4 {
        "Konami"@
    } else if code == 0xA6 {
        "Kawada"@
    } else if code == 0xA7 {
        "Takara"@
    } else if code == 0xA9 {
        "Technos Japan"@
    } else if code == 0xAA {
        "Broderbund"@
    } else if code == 0xAC {
        "Toei Animation"@
    } else if code == 0xAD {
        "Toho"@
    } else if code == 0xAF {
        "Namco"@
    } else if code == 0xB0 {
        "Acclaim Entertainment"@
    } else if code == 0xB1 {
        "ASCII Corporation or Nexsoft"@
    } else if code == 0xB2 {
        "Bandai"@
    } else if code == 0xB4 {
        "Square Enix"@
    } else if code == 0xB6 {
        "HAL Laboratory"@
    } else if code == 0xB7 {
        "SNK"@
    } else if code == 0xB9 {
        "Pony Canyon"@
    } else if code == 0xBA {
        "Culture Brain"@
    } else if code == 0xBB {
        "Sunsoft"@
    } else if code == 0xBD {
        "Sony Imagesoft"@
    } else if code == 0xBF {
        "Sammy Corporation"@
    } else if code == 0xC0 {
        "Taito"@
    } else if code == 0xC2 {
        "Kemco"@
    } else if code == 0xC3 {
        "Square"@
    } else if code == 0xC4 {
        "Tokuma Shoten"@
    } else if code == 0xC5 {
        "Data East"@
    } else if code == 0xC6 {
        "Tonkin House"@
    } else if code == 0xC8 {
        "Koei"@
    } else if code == 0xC9 {
        "UFL"@
    } else if code == 0xCA {
        "Ultra Games"@
    } else if code == 0xCB {
        "VAP, Inc."@
    } else if code == 0xCC {
        "Use Corporation"@
    } else if code == 0xCD {
        "Meldac"@
    } else if code == 0xCE {
        "Pony Canyon"@
    } else if code == 0xCF {
        "Angel"@
    } else if code == 0xD0 {
        "Taito"@
    } else if code == 0xD1 {
        "SOFEL (Software Engineering Lab)"@
    } else if code == 0xD2 {
        "Quest"@
    } else if code == 0xD3 {
        "Sigma Enterprises"@
    } else if code == 0xD4 {
        "ASK Kodansha Co."@
    } else if code == 0xD6 {
        "Naxat Soft14"@
    } else if code == 0xD7 {
        "Copya System"@
    } else if code == 0xD9 {
        "Banpresto"@
    } else if code == 0xDA {
        "Tomy"@
    } else if code == 0xDB {
        "LJN"@
    } else if code == 0xDD {
        "Nippon Computer Systems"@
    } else if code == 0xDE {
        "Human Ent."@
    } else if code == 0xDF {
        "Altron"@
    } else if code == 0xE0 {
        "Jaleco"@
    } else if code == 0xE1 {
        "Towa Chiki"@
    } else if code == 0xE2 {
        "Yutaka # Needs more info"@
    } else if code == 0xE3 {
        "Varie"@
    } else if code == 0xE5 {
        "Epoch"@
    } else if code == 0xE7 {
        "Athena"@
    } else if code == 0xE8 {
        "Asmik Ace Entertainment"@
    } else if code == 0xE9 {
        "Natsume"@
    } else if code == 0xEA {
        "King Records"@
    } else if code == 0xEB {
        "Atlus"@
    } else if code == 0xEC {
        "Epic/Sony Records"@
    } else if code == 0xEE {
        "IGS"@
    } else if code == 0xF0 {
        "A Wave"@
    } else if code == 0xF3 {
        "Extreme Entertainment"@
    } else if code == 0xFF {
        "LJN"@
    } else {
        "Unknown"@
    }
}

/// The publisher name for the two bytes of a modern two-character code;
/// byte pairs outside the table resolve to "Unknown".
pub open spec fn spec_new_licensee_name(b0: u8, b1: u8) -> Seq<char> {
    if b0 == 0x30 && b1 == 0x30 {  // "00"
        "None"@
    } else if b0 == 0x30 && b1 == 0x31 {  // "01"
        "Nintendo Research & Development 1"@
    } else if b0 == 0x30 && b1 == 0x38 {  // "08"
        "Capcom"@
    } else if b0 == 0x31 && b1 == 0x33 {  // "13"
        "EA (Electronic Arts)"@
    } else if b0 == 0x31 && b1 == 0x38 {  // "18"
        "Hudson Soft"@
    } else if b0 == 0x31 && b1 == 0x39 {  // "19"
        "B-AI"@
    } else if b0 == 0x32 && b1 == 0x30 {  // "20"
        "KSS"@
    } else if b0 == 0x32 && b1 == 0x32 {  // "22"
        "Planning Office WADA"@
    } else if b0 == 0x32 && b1 == 0x34 {  // "24"
        "PCM Complete"@
    } else if b0 == 0x32 && b1 == 0x35 {  // "25"
        "San-X"@
    } else if b0 == 0x32 && b1 == 0x38 {  // "28"
        "Kemco"@
    } else if b0 == 0x32 && b1 == 0x39 {  // "29"
        "SETA Corporation"@
    } else if b0 == 0x33 && b1 == 0x30 {  // "30"
        "Viacom"@
    } else if b0 == 0x33 && b1 == 0x31 {  // "31"
        "Nintendo"@
    } else if b0 == 0x33 && b1 == 0x32 {  // "32"
        "Bandai"@
    } else if b0 == 0x33 && b1 == 0x33 {  // "33"
        "Ocean Software/Acclaim Entertainment"@
    } else if b0 == 0x33 && b1 == 0x34 {  // "34"
        "Konami"@
    } else if b0 == 0x33 && b1 == 0x35 {  // "35"
        "HectorSoft"@
    } else if b0 == 0x33 && b1 == 0x37 {  // "37"
        "Taito"@
    } else if b0 == 0x33 && b1 == 0x38 {  // "38"
        "Hudson Soft"@
    } else if b0 == 0x33 && b1 == 0x39 {  // "39"
        "Banpresto"@
    } else if b0 == 0x34 && b1 == 0x31 {  // "41"
        "Ubi Soft1"@
    } else if b0 == 0x34 && b1 == 0x32 {  // "42"
        "Atlus"@
    } else if b0 == 0x34 && b1 == 0x34 {  // "44"
        "Malibu Interactive"@
    } else if b0 == 0x34 && b1 == 0x36 {  // "46"
        "Angel"@
    } else if b0 == 0x34 && b1 == 0x37 {  // "47"
        "Bullet-Proof Software2"@
    } else if b0 == 0x34 && b1 == 0x39 {  // "49"
        "Irem"@
    } else if b0 == 0x35 && b1 == 0x30 {  // "50"
        "Absolute"@
    } else if b0 == 0x35 && b1 == 0x31 {  // "51"
        "Acclaim Entertainment"@
    } else if b0 == 0x35 && b1 == 0x32 {  // "52"
        "Activision"@
    } else if b0 == 0x35 && b1 == 0x33 {  // "53"
        "Sammy USA Corporation"@
    } else if b0 == 0x35 && b1 == 0x34 {  // "54"
        "Konami"@
    } else if b0 == 0x35 && b1 == 0x35 {  // "55"
        "Hi Tech Expressions"@
    } else if b0 == 0x35 && b1 == 0x36 {  // "56"
        "LJN"@
    } else if b0 == 0x35 && b1 == 0x37 {  // "57"
        "Matchbox"@
    } else if b0 == 0x35 && b1 == 0x38 {  // "58"
        "Mattel"@
    } else if b0 == 0x35 && b1 == 0x39 {  // "59"
        "Milton Bradley Company"@
    } else if b0 == 0x36 && b1 == 0x30 {  // "60"
        "Titus Interactive"@
    } else if b0 == 0x36 && b1 == 0x31 {  // "61"
        "Virgin Games Ltd.3"@
    } else if b0 == 0x36 && b1 == 0x34 {  // "64"
        "Lucasfilm Games4"@
    } else if b0 == 0x36 && b1 == 0x37 {  // "67"
        "Ocean Software"@
    } else if b0 == 0x36 && b1 == 0x39 {  // "69"
        "EA (Electronic Arts)"@
    } else if b0 == 0x37 && b1 == 0x30 {  // "70"
        "Infogrames5"@
    } else if b0 == 0x37 && b1 == 0x31 {  // "71"
        "Interplay Entertainment"@
    } else if b0 == 0x37 && b1 == 0x32 {  // "72"
        "Broderbund"@
    } else if b0 == 0x37 && b1 == 0x33 {  // "73"
        "Sculptured Software6"@
    } else if b0 == 0x37 && b1 == 0x35 {  // "75"
        "The Sales Curve Limited7"@
    } else if b0 == 0x37 && b1 == 0x38 {  // "78"
        "THQ"@
    } else if b0 == 0x37 && b1 == 0x39 {  // "79"
        "Accolade"@
    } else if b0 == 0x38 && b1 == 0x30 {  // "80"
        "Misawa Entertainment"@
    } else if b0 == 0x38 && b1 == 0x33 {  // "83"
        "lozc"@
    } else if b0 == 0x38 && b1 == 0x36 {  // "86"
        "Tokuma Shoten"@
    } else if b0 == 0x38 && b1 == 0x37 {  // "87"
        "Tsukuda Original"@
    } else if b0 == 0x39 && b1 == 0x31 {  // "91"
        "Chunsoft Co.8"@
    } else if b0 == 0x39 && b1 == 0x32 {  // "92"
        "Video System"@
    } else if b0 == 0x39 && b1 == 0x33 {  // "93"
        "Ocean Software/Acclaim Entertainment"@
    } else if b0 == 0x39 && b1 == 0x35 {  // "95"
        "Varie"@
    } else if b0 == 0x39 && b1 == 0x36 {  // "96"
        "Yonezawa/s’pal"@
    } else if b0 == 0x39 && b1 == 0x37 {  // "97"
        "Kaneko"@
    } else if b0 == 0x39 && b1 == 0x39 {  // "99"
        "Pack-In-Video"@
    } else if b0 == 0x39 && b1 == 0x48 {  // "9H"
        "Bottom Up"@
    } else if b0 == 0x41 && b1 == 0x34 {  // "A4"
        "Konami (Yu-Gi-Oh!)"@
    } else if b0 == 0x42 && b1 == 0x4C {  // "BL"
        "MTO"@
    } else if b0 == 0x44 && b1 == 0x4B {  // "DK"
        "Kodansha"@
    } else {
        "Unknown"@
    }
}

/// Looks a legacy single-byte code up in the old-licensee table.
#[verifier::rlimit(40)]
pub fn old_licensee_name(code: u8) -> (r: String)
    ensures
        r@ == spec_old_licensee_name(code),
{
    if code == 0x00 {
        String::from_str("None")
    } else if code == 0x01 {
        String::from_str("Nintendo")
    } else if code == 0x08 {
        String::from_str("Capcom")
    } else if code == 0x09 {
        String::from_str("HOT-B")
    } else if code == 0x0A {
        String::from_str("Jaleco")
    } else if code == 0x0B {
        String::from_str("Coconuts Japan")
    } else if code == 0x0C {
        String::from_str("Elite Systems")
    } else if code == 0x13 {
        String::from_str("EA (Electronic Arts)")
    } else if code == 0x18 {
        String::from_str("Hudson Soft")
    } else if code == 0x19 {
        String::from_str("ITC Entertainment")
    } else if code == 0x1A {
        String::from_str("Yanoman")
    } else if code == 0x1D {
        String::from_str("Japan Clary")
    } else if code == 0x1F {
        String::from_str("Virgin Games Ltd.3")
    } else if code == 0x24 {
        String::from_str("PCM Complete")
    } else if code == 0x25 {
        String::from_str("San-X")
    } else if code == 0x28 {
        String::from_str("Kemco")
    } else if code == 0x29 {
        String::from_str("SETA Corporation")
    } else if code == 0x30 {
        String::from_str("Infogrames5")
    } else if code == 0x31 {
        String::from_str("Nintendo")
    } else if code == 0x32 {
        String::from_str("Bandai")
    } else if code == 0x33 {
        String::from_str("New licensee code should be used")
    } else if code == 0x34 {
        String::from_str("Konami")
    } else if code == 0x35 {
        String::from_str("HectorSoft")
    } else if code == 0x38 {
        String::from_str("Capcom")
    } else if code == 0x39 {
        String::from_str("Banpresto")
    } else if code == 0x3C {
        String::from_str("Entertainment Interactive (stub)")
    } else if code == 0x3E {
        String::from_str("Gremlin")
    } else if code == 0x41 {
        String::from_str("Ubi Soft1")
    } else if code == 0x42 {
        String::from_str("Atlus")
    } else if code == 0x44 {
        String::from_str("Malibu Interactive")
    } else if code == 0x46 {
        String::from_str("Angel")
    } else if code == 0x47 {
        String::from_str("Spectrum HoloByte")
    } else if code == 0x49 {
        String::from_str("Irem")
    } else if code == 0x4A {
        String::from_str("Virgin Games Ltd.3")
    } else if code == 0x4D {
        String::from_str("Malibu Interactive")
    } else if code == 0x4F {
        String::from_str("U.S. Gold")
    } else if code == 0x50 {
        String::from_str("Absolute")
    } else if code == 0x51 {
        String::from_str("Acclaim Entertainment")
    } else if code == 0x52 {
        String::from_str("Activision")
    } else if code == 0x53 {
        String::from_str("Sammy USA Corporation")
    } else if code == 0x54 {
        String::from_str("GameTek")
    } else if code == 0x55 {
        String::from_str("Park Place13")
    } else if code == 0x56 {
        String::from_str("LJN")
    } else if code == 0x57 {
        String::from_str("Matchbox")
    } else if code == 0x59 {
        String::from_str("Milton Bradley Company")
    } else if code == 0x5A {
        String::from_str("Mindscape")
    } else if code == 0x5B {
        String::from_str("Romstar")
    } else if code == 0x5C {
        String::from_str("Naxat Soft14")
    } else if code == 0x5D {
        String::from_str("Tradewest")
    } else if code == 0x60 {
        String::from_str("Titus Interactive")
    } else if code == 0x61 {
        String::from_str("Virgin Games Ltd.3")
    } else if code == 0x67 {
        String::from_str("Ocean Software")
    } else if code == 0x69 {
        String::from_str("EA (Electronic Arts)")
    } else if code == 0x6E {
        String::from_str("Elite Systems")
    } else if code == 0x6F {
        String::from_str("Electro Brain")
    } else if code == 0x70 {
        String::from_str("Infogrames5")
    } else if code == 0x71 {
        String::from_str("Interplay Entertainment")
    } else if code == 0x72 {
        String::from_str("Broderbund")
    } else if code == 0x73 {
        String::from_str("Sculptured Software6")
    } else if code == 0x75 {
        String::from_str("The Sales Curve Limited7")
    } else if code == 0x78 {
        String::from_str("THQ")
    } else if code == 0x79 {
        String::from_str("Accolade15")
    } else if code == 0x7A {
        String::from_str("Triffix Entertainment")
    } else if code == 0x7C {
        String::from_str("MicroProse")
    } else if code == 0x7F {
        String::from_str("Kemco")
    } else if code == 0x80 {
        String::from_str("Misawa Entertainment")
    } else if code == 0x83 {
        String::from_str("LOZC G.")
    } else if code == 0x86 {
        String::from_str("Tokuma Shoten")
    } else if code == 0x8B {
        String::from_str("Bullet-Proof Software2")
    } else if code == 0x8C {
        String::from_str("Vic Tokai Corp.16")
    } else if code == 0x8E {
        String::from_str("Ape Inc.17")
    } else if code == 0x8F {
        String::from_str("I’Max18")
    } else if code == 0x91 {
        String::from_str("Chunsoft Co.8")
    } else if code == 0x92 {
        String::from_str("Video System")
    } else if code == 0x93 {
        String::from_str("Tsubaraya Productions")
    } else if code == 0x95 {
        String::from_str("Varie")
    } else if code == 0x96 {
        String::from_str("Yonezawa19/S’Pal")
    } else if code == 0x97 {
        String::from_str("Kemco")
    } else if code == 0x99 {
        String::from_str("Arc")
    } else if code == 0x9A {
        String::from_str("Nihon Bussan")
    } else if code == 0x9B {
        String::from_str("Tecmo")
    } else if code == 0x9C {
        String::from_str("Imagineer")
    } else if code == 0x9D {
        String::from_str("Banpresto")
    } else if code == 0x9F {
        String::from_str("Nova")
    } else if code == 0xA1 {
        String::from_str("Hori Electric")
    } else if code == 0xA2 {
        String::from_str("Bandai")
    } else if code == 0xA4 {
        String::from_str("Konami")
    } else if code == 0xA6 {
        String::from_str("Kawada")
    } else if code == 0xA7 {
        String::from_str("Takara")
    } else if code == 0xA9 {
        String::from_str("Technos Japan")
    } else if code == 0xAA {
        String::from_str("Broderbund")
    } else if code == 0xAC {
        String::from_str("Toei Animation")
    } else if code == 0xAD {
        String::from_str("Toho")
    } else if code == 0xAF {
        String::from_str("Namco")
    } else if code == 0xB0 {
        String::from_str("Acclaim Entertainment")
    } else if code == 0xB1 {
        String::from_str("ASCII Corporation or Nexsoft")
    } else if code == 0xB2 {
        String::from_str("Bandai")
    } else if code == 0xB4 {
        String::from_str("Square Enix")
    } else if code == 0xB6 {
        String::from_str("HAL Laboratory")
    } else if code == 0xB7 {
        String::from_str("SNK")
    } else if code == 0xB9 {
        String::from_str("Pony Canyon")
    } else if code == 0xBA {
        String::from_str("Culture Brain")
    } else if code == 0xBB {
        String::from_str("Sunsoft")
    } else if code == 0xBD {
        String::from_str("Sony Imagesoft")
    } else if code == 0xBF {
        String::from_str("Sammy Corporation")
    } else if code == 0xC0 {
        String::from_str("Taito")
    } else if code == 0xC2 {
        String::from_str("Kemco")
    } else if code == 0xC3 {
        String::from_str("Square")
    } else if code == 0xC4 {
        String::from_str("Tokuma Shoten")
    } else if code == 0xC5 {
        String::from_str("Data East")
    } else if code == 0xC6 {
        String::from_str("Tonkin House")
    } else if code == 0xC8 {
        String::from_str("Koei")
    } else if code == 0xC9 {
        String::from_str("UFL")
    } else if code == 0xCA {
        String::from_str("Ultra Games")
    } else if code == 0xCB {
        String::from_str("VAP, Inc.")
    } else if code == 0xCC {
        String::from_str("Use Corporation")
    } else if code == 0xCD {
        String::from_str("Meldac")
    } else if code == 0xCE {
        String::from_str("Pony Canyon")
    } else if code == 0xCF {
        String::from_str("Angel")
    } else if code == 0xD0 {
        String::from_str("Taito")
    } else if code == 0xD1 {
        String::from_str("SOFEL (Software Engineering Lab)")
    } else if code == 0xD2 {
        String::from_str("Quest")
    } else if code == 0xD3 {
        String::from_str("Sigma Enterprises")
    } else if code == 0xD4 {
        String::from_str("ASK Kodansha Co.")
    } else if code == 0xD6 {
        String::from_str("Naxat Soft14")
    } else if code == 0xD7 {
        String::from_str("Copya System")
    } else if code == 0xD9 {
        String::from_str("Banpresto")
    } else if code == 0xDA {
        String::from_str("Tomy")
    } else if code == 0xDB {
        String::from_str("LJN")
    } else if code == 0xDD {
        String::from_str("Nippon Computer Systems")
    } else if code == 0xDE {
        String::from_str("Human Ent.")
    } else if code == 0xDF {
        String::from_str("Altron")
    } else if code == 0xE0 {
        String::from_str("Jaleco")
    } else if code == 0xE1 {
        String::from_str("Towa Chiki")
    } else if code == 0xE2 {
        String::from_str("Yutaka # Needs more info")
    } else if code == 0xE3 {
        String::from_str("Varie")
    } else if code == 0xE5 {
        String::from_str("Epoch")
    } else if code == 0xE7 {
        String::from_str("Athena")
    } else if code == 0xE8 {
        String::from_str("Asmik Ace Entertainment")
    } else if code == 0xE9 {
        String::from_str("Natsume")
    } else if code == 0xEA {
        String::from_str("King Records")
    } else if code == 0xEB {
        String::from_str("Atlus")
    } else if code == 0xEC {
        String::from_str("Epic/Sony Records")
    } else if code == 0xEE {
        String::from_str("IGS")
    } else if code == 0xF0 {
        String::from_str("A Wave")
    } else if code == 0xF3 {
        String::from_str("Extreme Entertainment")
    } else if code == 0xFF {
        String::from_str("LJN")
    } else {
        String::from_str("Unknown")
    }
}

/// Looks the two bytes of a modern two-character code up in the
/// new-licensee table.
#[verifier::rlimit(40)]
pub fn new_licensee_name(b0: u8, b1: u8) -> (r: String)
    ensures
        r@ == spec_new_licensee_name(b0, b1),
{
    if b0 == 0x30 && b1 == 0x30 {  // "00"
        String::from_str("None")
    } else if b0 == 0x30 && b1 == 0x31 {  // "01"
        String::from_str("Nintendo Research & Development 1")
    } else if b0 == 0x30 && b1 == 0x38 {  // "08"
        String::from_str("Capcom")
    } else if b0 == 0x31 && b1 == 0x33 {  // "13"
        String::from_str("EA (Electronic Arts)")
    } else if b0 == 0x31 && b1 == 0x38 {  // "18"
        String::from_str("Hudson Soft")
    } else if b0 == 0x31 && b1 == 0x39 {  // "19"
        String::from_str("B-AI")
    } else if b0 == 0x32 && b1 == 0x30 {  // "20"
        String::from_str("KSS")
    } else if b0 == 0x32 && b1 == 0x32 {  // "22"
        String::from_str("Planning Office WADA")
    } else if b0 == 0x32 && b1 == 0x34 {  // "24"
        String::from_str("PCM Complete")
    } else if b0 == 0x32 && b1 == 0x35 {  // "25"
        String::from_str("San-X")
    } else if b0 == 0x32 && b1 == 0x38 {  // "28"
        String::from_str("Kemco")
    } else if b0 == 0x32 && b1 == 0x39 {  // "29"
        String::from_str("SETA Corporation")
    } else if b0 == 0x33 && b1 == 0x30 {  // "30"
        String::from_str("Viacom")
    } else if b0 == 0x33 && b1 == 0x31 {  // "31"
        String::from_str("Nintendo")
    } else if b0 == 0x33 && b1 == 0x32 {  // "32"
        String::from_str("Bandai")
    } else if b0 == 0x33 && b1 == 0x33 {  // "33"
        String::from_str("Ocean Software/Acclaim Entertainment")
    } else if b0 == 0x33 && b1 == 0x34 {  // "34"
        String::from_str("Konami")
    } else if b0 == 0x33 && b1 == 0x35 {  // "35"
        String::from_str("HectorSoft")
    } else if b0 == 0x33 && b1 == 0x37 {  // "37"
        String::from_str("Taito")
    } else if b0 == 0x33 && b1 == 0x38 {  // "38"
        String::from_str("Hudson Soft")
    } else if b0 == 0x33 && b1 == 0x39 {  // "39"
        String::from_str("Banpresto")
    } else if b0 == 0x34 && b1 == 0x31 {  // "41"
        String::from_str("Ubi Soft1")
    } else if b0 == 0x34 && b1 == 0x32 {  // "42"
        String::from_str("Atlus")
    } else if b0 == 0x34 && b1 == 0x34 {  // "44"
        String::from_str("Malibu Interactive")
    } else if b0 == 0x34 && b1 == 0x36 {  // "46"
        String::from_str("Angel")
    } else if b0 == 0x34 && b1 == 0x37 {  // "47"
        String::from_str("Bullet-Proof Software2")
    } else if b0 == 0x34 && b1 == 0x39 {  // "49"
        String::from_str("Irem")
    } else if b0 == 0x35 && b1 == 0x30 {  // "50"
        String::from_str("Absolute")
    } else if b0 == 0x35 && b1 == 0x31 {  // "51"
        String::from_str("Acclaim Entertainment")
    } else if b0 == 0x35 && b1 == 0x32 {  // "52"
        String::from_str("Activision")
    } else if b0 == 0x35 && b1 == 0x33 {  // "53"
        String::from_str("Sammy USA Corporation")
    } else if b0 == 0x35 && b1 == 0x34 {  // "54"
        String::from_str("Konami")
    } else if b0 == 0x35 && b1 == 0x35 {  // "55"
        String::from_str("Hi Tech Expressions")
    } else if b0 == 0x35 && b1 == 0x36 {  // "56"
        String::from_str("LJN")
    } else if b0 == 0x35 && b1 == 0x37 {  // "57"
        String::from_str("Matchbox")
    } else if b0 == 0x35 && b1 == 0x38 {  // "58"
        String::from_str("Mattel")
    } else if b0 == 0x35 && b1 == 0x39 {  // "59"
        String::from_str("Milton Bradley Company")
    } else if b0 == 0x36 && b1 == 0x30 {  // "60"
        String::from_str("Titus Interactive")
    } else if b0 == 0x36 && b1 == 0x31 {  // "61"
        String::from_str("Virgin Games Ltd.3")
    } else if b0 == 0x36 && b1 == 0x34 {  // "64"
        String::from_str("Lucasfilm Games4")
    } else if b0 == 0x36 && b1 == 0x37 {  // "67"
        String::from_str("Ocean Software")
    } else if b0 == 0x36 && b1 == 0x39 {  // "69"
        String::from_str("EA (Electronic Arts)")
    } else if b0 == 0x37 && b1 == 0x30 {  // "70"
        String::from_str("Infogrames5")
    } else if b0 == 0x37 && b1 == 0x31 {  // "71"
        String::from_str("Interplay Entertainment")
    } else if b0 == 0x37 && b1 == 0x32 {  // "72"
        String::from_str("Broderbund")
    } else if b0 == 0x37 && b1 == 0x33 {  // "73"
        String::from_str("Sculptured Software6")
    } else if b0 == 0x37 && b1 == 0x35 {  // "75"
        String::from_str("The Sales Curve Limited7")
    } else if b0 == 0x37 && b1 == 0x38 {  // "78"
        String::from_str("THQ")
    } else if b0 == 0x37 && b1 == 0x39 {  // "79"
        String::from_str("Accolade")
    } else if b0 == 0x38 && b1 == 0x30 {  // "80"
        String::from_str("Misawa Entertainment")
    } else if b0 == 0x38 && b1 == 0x33 {  // "83"
        String::from_str("lozc")
    } else if b0 == 0x38 && b1 == 0x36 {  // "86"
        String::from_str("Tokuma Shoten")
    } else if b0 == 0x38 && b1 == 0x37 {  // "87"
        String::from_str("Tsukuda Original")
    } else if b0 == 0x39 && b1 == 0x31 {  // "91"
        String::from_str("Chunsoft Co.8")
    } else if b0 == 0x39 && b1 == 0x32 {  // "92"
        String::from_str("Video System")
    } else if b0 == 0x39 && b1 == 0x33 {  // "93"
        String::from_str("Ocean Software/Acclaim Entertainment")
    } else if b0 == 0x39 && b1 == 0x35 {  // "95"
        String::from_str("Varie")
    } else if b0 == 0x39 && b1 == 0x36 {  // "96"
        String::from_str("Yonezawa/s’pal")
    } else if b0 == 0x39 && b1 == 0x37 {  // "97"
        String::from_str("Kaneko")
    } else if b0 == 0x39 && b1 == 0x39 {  // "99"
        String::from_str("Pack-In-Video")
    } else if b0 == 0x39 && b1 == 0x48 {  // "9H"
        String::from_str("Bottom Up")
    } else if b0 == 0x41 && b1 == 0x34 {  // "A4"
        String::from_str("Konami (Yu-Gi-Oh!)")
    } else if b0 == 0x42 && b1 == 0x4C {  // "BL"
        String::from_str("MTO")
    } else if b0 == 0x44 && b1 == 0x4B {  // "DK"
        String::from_str("Kodansha")
    } else {
        String::from_str("Unknown")
    }
}

/// The publisher name that a licensee code resolves to.
pub open spec fn spec_licensee_name(code: LicenseeCode) -> Seq<char> {
    match code {
        LicenseeCode::Old(c) => spec_old_licensee_name(c),
        LicenseeCode::New(b0, b1) => spec_new_licensee_name(b0, b1),
    }
}

/// Resolves a licensee code to the publisher name, through whichever table
/// the code selects.
pub fn licensee_name(code: LicenseeCode) -> (r: String)
    ensures
        r@ == spec_licensee_name(code),
{
    match code {
        LicenseeCode::Old(c) => old_licensee_name(c),
        LicenseeCode::New(b0, b1) => new_licensee_name(b0, b1),
    }
}

} // verus!
