//! Compression presets exposed by liblzma.

use vstd::prelude::*;

verus! {

/// Enum mirroring the preset argument passed to liblzma.
#[derive(Debug, Clone, Copy, PartialEq, Eq, Structural)]
pub enum Compression {
    /// Level 0 preset (fastest, lowest ratio).
    Level0,
    /// Level 1 preset.
    Level1,
    /// Level 2 preset.
    Level2,
    /// Level 3 preset.
    Level3,
    /// Level 4 preset.
    Level4,
    /// Level 5 preset.
    Level5,
    /// Level 6 preset (liblzma default).
    Level6,
    /// Level 7 preset.
    Level7,
    /// Level 8 preset.
    Level8,
    /// Level 9 preset (slowest, best ratio).
    Level9,
    /// Extreme variant of a preset. Values above 9 are clamped.
    Extreme(u8),
}

/// Bit flag to enable "extreme" compression mode (`LZMA_PRESET_EXTREME`).
pub const LZMA_PRESET_EXTREME: u32 = 0x8000_0000;

/// The numeric preset that liblzma expects for each preset value.
pub open spec fn spec_preset(c: Compression) -> u32 {
    match c {
        Compression::Level0 => 0,
        Compression::Level1 => 1,
        Compression::Level2 => 2,
        Compression::Level3 => 3,
        Compression::Level4 => 4,
        Compression::Level5 => 5,
        Compression::Level6 => 6,
        Compression::Level7 => 7,
        Compression::Level8 => 8,
        Compression::Level9 => 9,
        Compression::Extreme(level) => (if level <= 9 { level as u32 } else { 9u32 })
            | LZMA_PRESET_EXTREME,
    }
}

/// The preset that a number names: 0 to 9 are the plain levels, other numbers
/// that fit in a byte are extreme presets, larger ones name none.
pub open spec fn spec_compression_of(value: u32) -> Option<Compression> {
    if value == 0 {
        Some(Compression::Level0)
    } else if value == 1 {
        Some(Compression::Level1)
    } else if value == 2 {
        Some(Compression::Level2)
    } else if value == 3 {
        Some(Compression::Level3)
    } else if value == 4 {
        Some(Compression::Level4)
    } else if value == 5 {
        Some(Compression::Level5)
    } else if value == 6 {
        Some(Compression::Level6)
    } else if value == 7 {
        Some(Compression::Level7)
    } else if value == 8 {
        Some(Compression::Level8)
    } else if value == 9 {
        Some(Compression::Level9)
    } else if value <= 255 {
        Some(Compression::Extreme(value as u8))
    } else {
        None
    }
}

/// Calls `std::io::Error::new` with `ErrorKind::InvalidInput` and the message
/// "Invalid compression level". Nothing is stated of the value it returns.
#[verifier::external_body]
fn invalid_level_error() -> std::io::Error {
    std::io::Error::new(std::io::ErrorKind::InvalidInput, "Invalid compression level")
}

impl Default for Compression {
    fn default() -> (c: Compression)
        ensures
            c == Compression::Level6,
    {
        Compression::Level6
    }
}

impl Compression {
    /// Convert to the numeric preset expected by liblzma.
    pub fn to_preset(self) -> (p: u32)
        ensures
            p == spec_preset(self),
    {
        match self {
            Compression::Level0 => 0,
            Compression::Level1 => 1,
            Compression::Level2 => 2,
            Compression::Level3 => 3,
            Compression::Level4 => 4,
            Compression::Level5 => 5,
            Compression::Level6 => 6,
            Compression::Level7 => 7,
            Compression::Level8 => 8,
            Compression::Level9 => 9,
            Compression::Extreme(level) => {
                let clamped: u8 = if level <= 9 { level } else { 9 };
                (clamped as u32) | LZMA_PRESET_EXTREME
            },
        }
    }

    /// Convert a number into a preset.
    ///
    /// Numbers that do not fit in a byte give an `InvalidInput` I/O error.
    pub fn try_from(value: u32) -> (r: core::result::Result<Compression, std::io::Error>)
        ensures
            r matches Ok(c) ==> spec_compression_of(value) == Some(c),
            r is Err <==> spec_compression_of(value) is None,
    {
        if value == 0 {
            Ok(Compression::Level0)
        } else if value == 1 {
            Ok(Compression::Level1)
        } else if value == 2 {
            Ok(Compression::Level2)
        } else if value == 3 {
            Ok(Compression::Level3)
        } else if value == 4 {
            Ok(Compression::Level4)
        } else if value == 5 {
            Ok(Compression::Level5)
        } else if value == 6 {
            Ok(Compression::Level6)
        } else if value == 7 {
            Ok(Compression::Level7)
        } else if value == 8 {
            Ok(Compression::Level8)
        } else if value == 9 {
            Ok(Compression::Level9)
        } else if value <= 255 {
            Ok(Compression::Extreme(value as u8))
        } else {
            Err(invalid_level_error())
        }
    }
}

/// Every plain level survives the trip to its preset number and back.
pub proof fn lemma_level_roundtrip(value: u32)
    requires
        value <= 9,
    ensures
        spec_compression_of(value) matches Some(c) && spec_preset(c) == value,
{
}

/// An extreme preset carries the extreme bit and a level of at most 9.
pub proof fn lemma_extreme_preset(level: u8)
    ensures
        spec_preset(Compression::Extreme(level)) & LZMA_PRESET_EXTREME == LZMA_PRESET_EXTREME,
        spec_preset(Compression::Extreme(level)) & 0x1f <= 9,
        level <= 9 ==> spec_preset(Compression::Extreme(level)) & 0x1f == level,
{
    let l: u32 = if level <= 9 { level as u32 } else { 9u32 };
    assert(l <= 9 ==> (l | 0x8000_0000u32) & 0x8000_0000u32 == 0x8000_0000u32 && (l | 0x8000_0000u32) & 0x1fu32 == l) by (bit_vector);
}

} // verus!
