//! The cartridge header: decoding the fixed-offset metadata block of a ROM
//! image into typed fields, and validating the boot-logo signature and the
//! two checksums.

use vstd::prelude::*;

use crate::errors::HeaderError;
use crate::hexfmt::{bytes_to_hex, hex_render};
use crate::licensee::{licensee_name, spec_licensee_name, LicenseeCode};
use crate::text::{ascii_chars_of, decode_utf8_lossy, is_ascii_bytes, utf8_lossy};

verus! {

/// The least buffer length that holds the whole header span.
pub const HEADER_MIN_LEN: usize = 0x0150;

/// The label for the CGB capability byte at offset 0x0143.
pub open spec fn cgb_label(flag: u8) -> Seq<char> {
    if flag == 0x80 {
        "The game supports CGB enhancements, but is backwards compatible with monochrome Game Boys"@
    } else if flag == 0xC0 {
        "The game works on CGB only"@
    } else {
        "No flags"@
    }
}

/// The label for the SGB support byte at offset 0x0146.
pub open spec fn sgb_label(flag: u8) -> Seq<char> {
    if flag == 0x03 {
        "Support SGB functions"@
    } else {
        "Does not support SGB functions"@
    }
}

/// The label for the destination (region) byte at offset 0x014A.
pub open spec fn destination_label(code: u8) -> Seq<char> {
    if code == 0x00 {
        "Japan (and possibly overseas)"@
    } else if code == 0x01 {
        "Overseas only"@
    } else {
        "Unknown"@
    }
}

/// The licensee code that a ROM buffer selects: the legacy byte at 0x014B,
/// unless it is the sentinel 0x33, in which case the two modern code bytes
/// at 0x0144-0x0145 are used instead.
pub open spec fn spec_licensee_code(rom: Seq<u8>) -> LicenseeCode {
    if rom[0x014B] == 0x33 {
        LicenseeCode::New(rom[0x0144], rom[0x0145])
    } else {
        LicenseeCode::Old(rom[0x014B])
    }
}

/// The canonical 48-byte boot-logo bitmap that the logo region at
/// 0x0104-0x0133 is validated against.
pub open spec fn canonical_logo() -> Seq<u8> {
    seq![
        0xCEu8,
        0xEDu8,
        0x66u8,
        0x66u8,
        0xCCu8,
        0x0Du8,
        0x00u8,
        0x0Bu8,
        0x03u8,
        0x73u8,
        0x00u8,
        0x83u8,
        0x00u8,
        0x0Cu8,
        0x00u8,
        0x0Du8,
        0x00u8,
        0x08u8,
        0x11u8,
        0x1Fu8,
        0x88u8,
        0x89u8,
        0x00u8,
        0x0Eu8,
        0xDCu8,
        0xCCu8,
        0x6Eu8,
        0xE6u8,
        0xDDu8,
        0xDDu8,
        0xD9u8,
        0x99u8,
        0xBBu8,
        0xBBu8,
        0x67u8,
        0x63u8,
        0x6Eu8,
        0x0Eu8,
        0xECu8,
        0xCCu8,
        0xDDu8,
        0xDCu8,
        0x99u8,
        0x9Fu8,
        0xBBu8,
        0xB9u8,
        0x33u8,
        0x3Eu8,
    ]
}

/// One step of the header checksum: the running value minus the byte, minus
/// one, with 8-bit wraparound.
pub open spec fn header_checksum_step(acc: u8, b: u8) -> u8 {
    vstd::wrapping::u8_specs::wrapping_sub(vstd::wrapping::u8_specs::wrapping_sub(acc, b), 1)
}

/// The header checksum after folding the first `n` bytes of the region
/// 0x0134-0x014C, starting from zero.
pub open spec fn header_checksum_up_to(rom: Seq<u8>, n: int) -> u8
    decreases n,
{
    if n <= 0 {
        0
    } else {
        header_checksum_step(header_checksum_up_to(rom, n - 1), rom[0x0134 + n - 1])
    }
}

/// The header checksum of a ROM buffer: the fold over all 25 bytes of the
/// region 0x0134-0x014C.
pub open spec fn spec_header_checksum(rom: Seq<u8>) -> u8 {
    header_checksum_up_to(rom, 25)
}

/// The 16-bit wraparound sum of the first `n` bytes of the buffer, leaving
/// out the two stored global-checksum bytes at 0x014E-0x014F.
pub open spec fn global_checksum_up_to(rom: Seq<u8>, n: int) -> u16
    decreases n,
{
    if n <= 0 {
        0
    } else if n - 1 == 0x014E || n - 1 == 0x014F {
        global_checksum_up_to(rom, n - 1)
    } else {
        vstd::wrapping::u16_specs::wrapping_add(
            global_checksum_up_to(rom, n - 1),
            rom[n - 1] as u16,
        )
    }
}

/// The global checksum of a ROM buffer: the 16-bit wraparound sum of every
/// byte except the two that store the checksum itself.
pub open spec fn spec_global_checksum(rom: Seq<u8>) -> u16 {
    global_checksum_up_to(rom, rom.len() as int)
}

/// The 16-bit value stored big-endian at 0x014E-0x014F.
pub open spec fn spec_stored_global_checksum(rom: Seq<u8>) -> u16 {
    (rom[0x014E] * 0x100 + rom[0x014F]) as u16
}

/// The metadata header decoded from the fixed offsets of a cartridge ROM
/// image. The record owns copies of everything it extracted and is never
/// mutated after decoding.
pub struct CartdrigeHeader {
    /// The four entry-point bytes at 0x0100-0x0103, kept unparsed.
    pub entry_point: [u8; 4],
    /// The 48 logo bytes at 0x0104-0x0133.
    pub nintendo_logo: [u8; 48],
    /// The title region 0x0134-0x0143, lossily decoded as text.
    pub title: String,
    /// The manufacturer code 0x013F-0x0142, lossily decoded as text.
    pub manufacturer_code: String,
    /// The label for the CGB capability byte at 0x0143.
    pub cgb_flag: String,
    /// The resolved publisher name.
    pub licensee: String,
    /// The label for the SGB support byte at 0x0146.
    pub sgb_flag: String,
    /// The modern two-character licensee code at 0x0144-0x0145, lossily
    /// decoded as text; only meaningful when `old_licensee_code` is 0x33.
    pub new_licensee_code: String,
    /// The legacy licensee byte at 0x014B.
    pub old_licensee_code: u8,
    /// The cartridge-type byte at 0x0147, kept unparsed.
    pub cartridge_type: u8,
    /// The ROM-size code at 0x0148 (32 KiB times two to this power).
    pub rom_size: u8,
    /// The RAM-size code at 0x0149.
    pub ram_size: u8,
    /// The label for the destination byte at 0x014A.
    pub destination_code: String,
    /// The version byte at 0x014C.
    pub version_number: u8,
    /// The stored header checksum byte at 0x014D.
    pub header_checksum: u8,
    /// The stored global checksum, big-endian at 0x014E-0x014F.
    pub global_checksum: u16,
}

/// Every field of `h` holds exactly what the fixed offsets of `rom` say.
/// The three text fields are the lossy decoding of their regions; where a
/// region is pure ASCII the decoding is pinned down to the bytes themselves.
pub open spec fn decoded_from(h: CartdrigeHeader, rom: Seq<u8>) -> bool {
    &&& h.entry_point@ == rom.subrange(0x0100, 0x0104)
    &&& h.nintendo_logo@ == rom.subrange(0x0104, 0x0134)
    &&& h.title@ == utf8_lossy(rom.subrange(0x0134, 0x0144))
    &&& is_ascii_bytes(rom.subrange(0x0134, 0x0144)) ==> h.title@ == ascii_chars_of(
        rom.subrange(0x0134, 0x0144),
    )
    &&& h.manufacturer_code@ == utf8_lossy(rom.subrange(0x013F, 0x0143))
    &&& is_ascii_bytes(rom.subrange(0x013F, 0x0143)) ==> h.manufacturer_code@ == ascii_chars_of(
        rom.subrange(0x013F, 0x0143),
    )
    &&& h.cgb_flag@ == cgb_label(rom[0x0143])
    &&& h.licensee@ == spec_licensee_name(spec_licensee_code(rom))
    &&& h.sgb_flag@ == sgb_label(rom[0x0146])
    &&& h.new_licensee_code@ == utf8_lossy(rom.subrange(0x0144, 0x0146))
    &&& is_ascii_bytes(rom.subrange(0x0144, 0x0146)) ==> h.new_licensee_code@ == ascii_chars_of(
        rom.subrange(0x0144, 0x0146),
    )
    &&& h.old_licensee_code == rom[0x014B]
    &&& h.cartridge_type == rom[0x0147]
    &&& h.rom_size == rom[0x0148]
    &&& h.ram_size == rom[0x0149]
    &&& h.destination_code@ == destination_label(rom[0x014A])
    &&& h.version_number == rom[0x014C]
    &&& h.header_checksum == rom[0x014D]
    &&& h.global_checksum == spec_stored_global_checksum(rom)
}

impl CartdrigeHeader {
    /// Decodes every field from the fixed offsets of `rom`. The caller must
    /// hand a buffer that covers the whole header span; `decode` checks that
    /// and is total.
    pub fn new(rom: &[u8]) -> (h: CartdrigeHeader)
        requires
            rom@.len() >= HEADER_MIN_LEN,
        ensures
            decoded_from(h, rom@),
    {
        let entry_point: [u8; 4] = [rom[0x0100], rom[0x0101], rom[0x0102], rom[0x0103]];
        proof {
            assert(entry_point@ =~= rom@.subrange(0x0100, 0x0104));
        }
        CartdrigeHeader {
            entry_point,
            nintendo_logo: Self::read_nintendo_logo(rom),
            title: Self::parse_title(rom),
            manufacturer_code: Self::parse_manufacturercode(rom),
            cgb_flag: Self::parse_cgb_flag(rom),
            licensee: Self::parse_licensee(rom),
            sgb_flag: Self::parse_sgb(rom),
            new_licensee_code: decode_utf8_lossy(&rom[0x0144..0x0146]),
            old_licensee_code: rom[0x014B],
            cartridge_type: rom[0x0147],
            rom_size: rom[0x0148],
            ram_size: rom[0x0149],
            destination_code: Self::parse_destination(rom),
            version_number: rom[0x014C],
            header_checksum: rom[0x014D],
            global_checksum: (rom[0x014E] as u16) * 0x100 + (rom[0x014F] as u16),
        }
    }

    /// Decodes a ROM buffer of any length: a buffer that covers the whole
    /// header span decodes successfully, a shorter one is rejected as
    /// truncated, and nothing else can fail.
    pub fn decode(rom: &[u8]) -> (r: Result<CartdrigeHeader, HeaderError>)
        ensures
            r is Ok <==> rom@.len() >= HEADER_MIN_LEN,
            r is Ok ==> decoded_from(r.unwrap(), rom@),
            r is Err ==> r->Err_0 == HeaderError::TruncatedInput,
    {
        if rom.len() < HEADER_MIN_LEN {
            Err(HeaderError::TruncatedInput)
        } else {
            Ok(Self::new(rom))
        }
    }

    /// Copies the 48 logo bytes out of the buffer.
    pub fn read_nintendo_logo(rom: &[u8]) -> (logo: [u8; 48])
        requires
            rom@.len() >= HEADER_MIN_LEN,
        ensures
            logo@ == rom@.subrange(0x0104, 0x0134),
    {
        let mut logo: [u8; 48] = [0u8; 48];
        let mut i: usize = 0;
        while i < 48
            invariant
                i <= 48,
                rom@.len() >= HEADER_MIN_LEN,
                forall|j: int| 0 <= j < i ==> logo@[j] == rom@[0x0104 + j],
            decreases 48 - i,
        {
            logo[i] = rom[0x0104 + i];
            i = i + 1;
        }
        proof {
            assert(logo@ =~= rom@.subrange(0x0104, 0x0134));
        }
        logo
    }

    /// Lossily decodes the title region 0x0134-0x0143 as text.
    pub fn parse_title(rom: &[u8]) -> (r: String)
        requires
            rom@.len() >= HEADER_MIN_LEN,
        ensures
            r@ == utf8_lossy(rom@.subrange(0x0134, 0x0144)),
            is_ascii_bytes(rom@.subrange(0x0134, 0x0144)) ==> r@ == ascii_chars_of(
                rom@.subrange(0x0134, 0x0144),
            ),
    {
        decode_utf8_lossy(&rom[0x0134..0x0144])
    }

    /// Lossily decodes the manufacturer code 0x013F-0x0142 as text.
    pub fn parse_manufacturercode(rom: &[u8]) -> (r: String)
        requires
            rom@.len() >= HEADER_MIN_LEN,
        ensures
            r@ == utf8_lossy(rom@.subrange(0x013F, 0x0143)),
            is_ascii_bytes(rom@.subrange(0x013F, 0x0143)) ==> r@ == ascii_chars_of(
                rom@.subrange(0x013F, 0x0143),
            ),
    {
        decode_utf8_lossy(&rom[0x013F..0x0143])
    }

    /// Decodes the CGB capability byte at 0x0143 to its label.
    pub fn parse_cgb_flag(rom: &[u8]) -> (r: String)
        requires
            rom@.len() >= HEADER_MIN_LEN,
        ensures
            r@ == cgb_label(rom@[0x0143]),
    {
        let flag = rom[0x0143];
        if flag == 0x80 {
            String::from_str(
                "The game supports CGB enhancements, but is backwards compatible with monochrome Game Boys",
            )
        } else if flag == 0xC0 {
            String::from_str("The game works on CGB only")
        } else {
            String::from_str("No flags")
        }
    }

    /// Resolves the publisher name: through the new-licensee table when the
    /// legacy byte is the sentinel 0x33, through the old one otherwise; a
    /// code missing from its table resolves to "Unknown".
    pub fn parse_licensee(rom: &[u8]) -> (r: String)
        requires
            rom@.len() >= HEADER_MIN_LEN,
        ensures
            r@ == spec_licensee_name(spec_licensee_code(rom@)),
    {
        licensee_name(Self::licensee_code(rom))
    }

    /// Reads which licensee code the buffer selects, before any lookup.
    pub fn licensee_code(rom: &[u8]) -> (r: LicenseeCode)
        requires
            rom@.len() >= HEADER_MIN_LEN,
        ensures
            r == spec_licensee_code(rom@),
    {
        let old_code = rom[0x014B];
        if old_code == 0x33 {
            LicenseeCode::New(rom[0x0144], rom[0x0145])
        } else {
            LicenseeCode::Old(old_code)
        }
    }

    /// Decodes the SGB support byte at 0x0146 to its label.
    pub fn parse_sgb(rom: &[u8]) -> (r: String)
        requires
            rom@.len() >= HEADER_MIN_LEN,
        ensures
            r@ == sgb_label(rom@[0x0146]),
    {
        let flag = rom[0x0146];
        if flag == 0x03 {
            String::from_str("Support SGB functions")
        } else {
            String::from_str("Does not support SGB functions")
        }
    }

    /// Decodes the destination byte at 0x014A to its label.
    pub fn parse_destination(rom: &[u8]) -> (r: String)
        requires
            rom@.len() >= HEADER_MIN_LEN,
        ensures
            r@ == destination_label(rom@[0x014A]),
    {
        let code = rom[0x014A];
        if code == 0x00 {
            String::from_str("Japan (and possibly overseas)")
        } else if code == 0x01 {
            String::from_str("Overseas only")
        } else {
            String::from_str("Unknown")
        }
    }

    /// Renders the logo bytes as uppercase, space-separated hexadecimal byte
    /// pairs.
    pub fn logo_hex(&self) -> (r: String)
        ensures
            r@ == hex_render(self.nintendo_logo@),
    {
        bytes_to_hex(self.nintendo_logo.as_slice())
    }

    /// Validates the logo: `Ok` exactly when the decoded logo bytes are the
    /// canonical bitmap; any deviation, down to a single bit, is a mismatch,
    /// with no partial-match information.
    pub fn is_valid(&self) -> (r: Result<(), HeaderError>)
        ensures
            r is Ok <==> self.nintendo_logo@ == canonical_logo(),
            r is Err ==> r->Err_0 == HeaderError::LogoMismatch,
    {
        let expected = canonical_logo_bytes();
        let mut i: usize = 0;
        while i < 48
            invariant
                i <= 48,
                expected@ == canonical_logo(),
                forall|j: int| 0 <= j < i ==> self.nintendo_logo@[j] == canonical_logo()[j],
            decreases 48 - i,
        {
            if self.nintendo_logo[i] != expected[i] {
                return Err(HeaderError::LogoMismatch);
            }
            i = i + 1;
        }
        proof {
            assert(self.nintendo_logo@ =~= canonical_logo());
        }
        Ok(())
    }
}

/// The canonical 48-byte boot-logo bitmap as a value.
pub fn canonical_logo_bytes() -> (r: Vec<u8>)
    ensures
        r@ == canonical_logo(),
{
    let v: Vec<u8> = vec![
        0xCEu8, 0xEDu8, 0x66u8, 0x66u8, 0xCCu8, 0x0Du8, 0x00u8, 0x0Bu8, 0x03u8, 0x73u8, 0x00u8,
        0x83u8, 0x00u8, 0x0Cu8, 0x00u8, 0x0Du8, 0x00u8, 0x08u8, 0x11u8, 0x1Fu8, 0x88u8, 0x89u8,
        0x00u8, 0x0Eu8, 0xDCu8, 0xCCu8, 0x6Eu8, 0xE6u8, 0xDDu8, 0xDDu8, 0xD9u8, 0x99u8, 0xBBu8,
        0xBBu8, 0x67u8, 0x63u8, 0x6Eu8, 0x0Eu8, 0xECu8, 0xCCu8, 0xDDu8, 0xDCu8, 0x99u8, 0x9Fu8,
        0xBBu8, 0xB9u8, 0x33u8, 0x3Eu8,
    ];
    proof {
        assert(v@ =~= canonical_logo());
    }
    v
}

/// Computes the header checksum of the region 0x0134-0x014C: starting from
/// zero, each step subtracts the byte and one more, with 8-bit wraparound.
pub fn compute_header_checksum(rom: &[u8]) -> (r: u8)
    requires
        rom@.len() >= HEADER_MIN_LEN,
    ensures
        r == spec_header_checksum(rom@),
{
    let mut checksum: u8 = 0;
    let mut i: usize = 0;
    while i < 25
        invariant
            i <= 25,
            rom@.len() >= HEADER_MIN_LEN,
            checksum == header_checksum_up_to(rom@, i as int),
        decreases 25 - i,
    {
        checksum = checksum.wrapping_sub(rom[0x0134 + i]).wrapping_sub(1);
        i = i + 1;
    }
    checksum
}

/// Validates the header checksum: `Ok` exactly when the computed value
/// equals the stored byte at 0x014D.
pub fn validate_header_checksum(rom: &[u8]) -> (r: Result<(), HeaderError>)
    requires
        rom@.len() >= HEADER_MIN_LEN,
    ensures
        r is Ok <==> spec_header_checksum(rom@) == rom@[0x014D],
        r is Err ==> r->Err_0 == HeaderError::HeaderChecksumMismatch,
{
    if compute_header_checksum(rom) == rom[0x014D] {
        Ok(())
    } else {
        Err(HeaderError::HeaderChecksumMismatch)
    }
}

/// Computes the global checksum: the 16-bit wraparound sum of every byte of
/// the buffer except the two that store the checksum itself.
pub fn compute_global_checksum(rom: &[u8]) -> (r: u16)
    requires
        rom@.len() >= HEADER_MIN_LEN,
    ensures
        r == spec_global_checksum(rom@),
{
    let mut sum: u16 = 0;
    let mut i: usize = 0;
    let n = rom.len();
    while i < n
        invariant
            i <= n,
            n == rom@.len(),
            sum == global_checksum_up_to(rom@, i as int),
        decreases n - i,
    {
        if i != 0x014E && i != 0x014F {
            sum = sum.wrapping_add(rom[i] as u16);
        }
        i = i + 1;
    }
    sum
}

/// Validates the global checksum: `Ok` exactly when the computed sum equals
/// the big-endian value stored at 0x014E-0x014F.
pub fn validate_global_checksum(rom: &[u8]) -> (r: Result<(), HeaderError>)
    requires
        rom@.len() >= HEADER_MIN_LEN,
    ensures
        r is Ok <==> spec_global_checksum(rom@) == spec_stored_global_checksum(rom@),
        r is Err ==> r->Err_0 == HeaderError::GlobalChecksumMismatch,
{
    let stored: u16 = (rom[0x014E] as u16) * 0x100 + (rom[0x014F] as u16);
    if compute_global_checksum(rom) == stored {
        Ok(())
    } else {
        Err(HeaderError::GlobalChecksumMismatch)
    }
}

/// Law: the logo check is binary -- a logo that deviates from the canonical
/// bitmap in any single position, even by one bit, is not the canonical
/// bitmap, so `is_valid` reports a mismatch for it.
pub proof fn lemma_logo_deviation_fails(logo: Seq<u8>, i: int)
    requires
        0 <= i < 48,
        logo.len() == 48,
        logo[i] != canonical_logo()[i],
    ensures
        logo != canonical_logo(),
{
}

/// Law: comparing hexadecimal renderings compares the bytes -- the logo
/// equals the canonical bitmap exactly when its rendering equals the
/// canonical rendering, so checking `logo_hex` against the canonical
/// reference text is the same check as `is_valid`.
pub proof fn lemma_logo_hex_comparison(logo: Seq<u8>)
    ensures
        hex_render(logo) == hex_render(canonical_logo()) <==> logo == canonical_logo(),
{
    if hex_render(logo) == hex_render(canonical_logo()) {
        crate::hexfmt::lemma_hex_render_injective(logo, canonical_logo());
    }
}

/// Law: decoding is deterministic -- two header records decoded from equal
/// buffers agree on every field.
pub proof fn lemma_decode_deterministic(h1: CartdrigeHeader, h2: CartdrigeHeader, rom: Seq<u8>)
    requires
        decoded_from(h1, rom),
        decoded_from(h2, rom),
    ensures
        h1.entry_point@ == h2.entry_point@,
        h1.nintendo_logo@ == h2.nintendo_logo@,
        h1.title@ == h2.title@,
        h1.manufacturer_code@ == h2.manufacturer_code@,
        h1.cgb_flag@ == h2.cgb_flag@,
        h1.licensee@ == h2.licensee@,
        h1.sgb_flag@ == h2.sgb_flag@,
        h1.new_licensee_code@ == h2.new_licensee_code@,
        h1.old_licensee_code == h2.old_licensee_code,
        h1.cartridge_type == h2.cartridge_type,
        h1.rom_size == h2.rom_size,
        h1.ram_size == h2.ram_size,
        h1.destination_code@ == h2.destination_code@,
        h1.version_number == h2.version_number,
        h1.header_checksum == h2.header_checksum,
        h1.global_checksum == h2.global_checksum,
{
}

} // verus!
