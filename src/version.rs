use vstd::prelude::*;

verus! {

/// Released versions of the BWAPI library that can be recognised by checksum.
#[derive(Debug, PartialEq, Eq, Structural, Clone, Copy)]
pub enum BwapiVersion {
    Bwapi375,
    Bwapi412,
    Bwapi420,
    Bwapi440,
}

/// CRC-32 of the BWAPI 4.4.0 library.
pub const CRC_BWAPI_440: u32 = 0x71CB208B;

/// CRC-32 of the BWAPI 4.2.0 library.
pub const CRC_BWAPI_420: u32 = 0xD1E0DDDF;

/// CRC-32 of the BWAPI 4.1.2 library.
pub const CRC_BWAPI_412: u32 = 0x267BD0D5;

/// CRC-32 of the BWAPI 3.7.5 library.
pub const CRC_BWAPI_375: u32 = 0x4E39C88A;

/// CRC-32 of the faulty BWAPI 3.7.4 build; 3.7.5 replaced it without a
/// version bump, so it is treated as 3.7.5.
pub const CRC_BWAPI_374: u32 = 0x41128276;

/// The version that a library checksum identifies, if it is a known one.
pub open spec fn version_of_checksum(crc: u32) -> Option<BwapiVersion> {
    if crc == CRC_BWAPI_440 {
        Some(BwapiVersion::Bwapi440)
    } else if crc == CRC_BWAPI_420 {
        Some(BwapiVersion::Bwapi420)
    } else if crc == CRC_BWAPI_412 {
        Some(BwapiVersion::Bwapi412)
    } else if crc == CRC_BWAPI_375 || crc == CRC_BWAPI_374 {
        Some(BwapiVersion::Bwapi375)
    } else {
        None
    }
}

impl BwapiVersion {
    /// The short version number, as used in file and directory names.
    pub open spec fn short_name(self) -> Seq<char> {
        match self {
            BwapiVersion::Bwapi375 => "375"@,
            BwapiVersion::Bwapi412 => "412"@,
            BwapiVersion::Bwapi420 => "420"@,
            BwapiVersion::Bwapi440 => "440"@,
        }
    }

    /// Identifies the library version from the CRC-32 of its binary.
    pub fn from_u32(crc: u32) -> (r: Option<BwapiVersion>)
        ensures
            r == version_of_checksum(crc),
            crc == CRC_BWAPI_440 ==> r == Some(BwapiVersion::Bwapi440),
            crc == CRC_BWAPI_420 ==> r == Some(BwapiVersion::Bwapi420),
            crc == CRC_BWAPI_412 ==> r == Some(BwapiVersion::Bwapi412),
            crc == CRC_BWAPI_375 ==> r == Some(BwapiVersion::Bwapi375),
            crc == CRC_BWAPI_374 ==> r == Some(BwapiVersion::Bwapi375),
            r is None <==> (crc != CRC_BWAPI_440 && crc != CRC_BWAPI_420 && crc != CRC_BWAPI_412
                && crc != CRC_BWAPI_375 && crc != CRC_BWAPI_374),
    {
        if crc == CRC_BWAPI_440 {
            Some(BwapiVersion::Bwapi440)
        } else if crc == CRC_BWAPI_420 {
            Some(BwapiVersion::Bwapi420)
        } else if crc == CRC_BWAPI_412 {
            Some(BwapiVersion::Bwapi412)
        } else if crc == CRC_BWAPI_375 || crc == CRC_BWAPI_374 {
            Some(BwapiVersion::Bwapi375)
        } else {
            None
        }
    }

    /// The short version number ("375", "412", "420" or "440").
    pub fn version_short(&self) -> (r: &'static str)
        ensures
            r@ == self.short_name(),
    {
        match self {
            BwapiVersion::Bwapi375 => "375",
            BwapiVersion::Bwapi412 => "412",
            BwapiVersion::Bwapi420 => "420",
            BwapiVersion::Bwapi440 => "440",
        }
    }
}

/// Two different checksums identify the same version only for the 3.7.4 /
/// 3.7.5 pair: every other known checksum names a version of its own.
pub proof fn lemma_only_alias_shares_version(a: u32, b: u32)
    requires
        a != b,
        version_of_checksum(a) is Some,
        version_of_checksum(a) == version_of_checksum(b),
    ensures
        (a == CRC_BWAPI_375 && b == CRC_BWAPI_374) || (a == CRC_BWAPI_374 && b == CRC_BWAPI_375),
        version_of_checksum(a) == Some(BwapiVersion::Bwapi375),
{
}

} // verus!
