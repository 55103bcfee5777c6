//! Decoder and validators for the fixed-layout metadata header found at the
//! start of a cartridge ROM image: typed fields, publisher lookup tables, a
//! boot-logo signature check, and the two header checksums.

pub mod errors;
pub mod header;
pub mod hexfmt;
pub mod licensee;
pub mod memory;
pub mod text;
